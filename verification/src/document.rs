//! The transcript: messages, tool steps and reasoning traces.
use crate::text::append_text;
use crate::text::same_text;
use vstd::prelude::*;

verus! {

#[derive(Debug, Clone, Copy, PartialEq, Eq, Structural)]
pub enum Role {
    User,
    Assistant,
    System,
    Tool,
}

/// Whether a user message has reached the agent.
#[derive(Debug, Clone, Copy, PartialEq, Eq, Structural)]
pub enum DeliveryStatus {
    Delivered,
    /// Waiting in the send queue.
    Queued,
}

/// Where a user message came from.
#[derive(Debug, Clone, Copy, PartialEq, Eq, Structural)]
pub enum UserMessageOrigin {
    /// A prompt for the model.
    Chat,
    /// A slash command.
    Slash,
    /// A shell command.
    Shell,
}

#[derive(Debug, Clone, Copy, PartialEq, Eq, Structural)]
pub enum NoticeSeverity {
    Info,
    Warning,
    Error,
}

/// How far a tool call has come.
#[derive(Debug, Clone, Copy, PartialEq, Eq, Structural)]
pub enum ToolStepStatus {
    Running,
    Succeeded,
    Failed,
    Denied,
    Cancelled,
}

/// A reasoning trace. It streams until its duration is known.
#[derive(Debug)]
pub struct Thinking {
    pub content: String,
    pub duration_ms: Option<u64>,
    pub expanded: bool,
    /// Whether the user chose `expanded`.
    pub pinned: bool,
}

/// A tool call.
#[derive(Debug)]
pub struct ToolStep {
    pub id: String,
    pub name: String,
    pub arguments: String,
    pub output: String,
    pub status: ToolStepStatus,
    pub duration_ms: Option<u64>,
    pub expanded: bool,
    /// Whether the user chose `expanded`.
    pub pinned: bool,
    /// The messages of the envoy task that the call started, if it did.
    pub children: Option<Vec<TranscriptMessage>>,
}

#[derive(Debug)]
pub enum MessageKind {
    Text,
    Thinking(Thinking),
    ToolStep(ToolStep),
    Notice(NoticeSeverity),
}

/// A message of the transcript.
#[derive(Debug)]
pub struct TranscriptMessage {
    pub role: Role,
    pub raw: String,
    pub kind: MessageKind,
    pub delivery: DeliveryStatus,
    pub origin: UserMessageOrigin,
    /// Provider and model that produced the message; empty where none did.
    pub provider: String,
    pub model: String,
}

impl TranscriptMessage {
    /// The call id of a tool step.
    pub open spec fn call_id(self) -> Option<Seq<char>> {
        match self.kind {
            MessageKind::ToolStep(step) => Some(step.id@),
            _ => None,
        }
    }

    /// Whether the message is a tool step that started an envoy task.
    pub open spec fn envoy_task(self) -> bool {
        self.kind matches MessageKind::ToolStep(step) && step.children is Some
    }

    /// Whether the message is the envoy task with call id `id`.
    pub open spec fn is_task(self, id: Seq<char>) -> bool {
        self.envoy_task() && self.call_id() == Some(id)
    }

    /// The messages of the envoy task.
    pub open spec fn child_seq(self) -> Seq<TranscriptMessage> {
        match self.kind {
            MessageKind::ToolStep(step) => match step.children {
                Some(children) => children@,
                None => Seq::empty(),
            },
            _ => Seq::empty(),
        }
    }

    /// Whether a tool step or reasoning trace is unfolded; nothing for other
    /// messages.
    pub open spec fn disclosure(self) -> Option<bool> {
        match self.kind {
            MessageKind::ToolStep(step) => Some(step.expanded),
            MessageKind::Thinking(trace) => Some(trace.expanded),
            _ => None,
        }
    }

    /// The message unfolded or folded by the user.
    pub open spec fn with_pinned(self, expanded: bool) -> TranscriptMessage {
        TranscriptMessage {
            kind: match self.kind {
                MessageKind::ToolStep(step) => MessageKind::ToolStep(
                    ToolStep { expanded, pinned: true, ..step },
                ),
                MessageKind::Thinking(trace) => MessageKind::Thinking(
                    Thinking { expanded, pinned: true, ..trace },
                ),
                other => other,
            },
            ..self
        }
    }

    /// The message unfolded or folded by default: what the user chose stays.
    pub open spec fn with_default_disclosure(self, expanded: bool) -> TranscriptMessage {
        match self.kind {
            MessageKind::ToolStep(step) => if step.pinned {
                self
            } else {
                TranscriptMessage {
                    kind: MessageKind::ToolStep(ToolStep { expanded, ..step }),
                    ..self
                }
            },
            _ => self,
        }
    }

    /// A plain message.
    pub fn new(role: Role, raw: String) -> (message: Self)
        ensures
            message.role == role,
            message.raw == raw,
            message.kind == MessageKind::Text,
            message.delivery == DeliveryStatus::Delivered,
            message.origin == UserMessageOrigin::Chat,
            message.provider@ == Seq::<char>::empty(),
            message.model@ == Seq::<char>::empty(),
    {
        TranscriptMessage {
            role,
            raw,
            kind: MessageKind::Text,
            delivery: DeliveryStatus::Delivered,
            origin: UserMessageOrigin::Chat,
            provider: String::new(),
            model: String::new(),
        }
    }

    /// A notice.
    pub fn notice(severity: NoticeSeverity, text: String) -> (message: Self)
        ensures
            message.role == Role::System,
            message.raw == text,
            message.kind == MessageKind::Notice(severity),
            message.delivery == DeliveryStatus::Delivered,
            message.origin == UserMessageOrigin::Chat,
            message.provider@ == Seq::<char>::empty(),
            message.model@ == Seq::<char>::empty(),
    {
        let mut message = TranscriptMessage::new(Role::System, text);
        message.kind = MessageKind::Notice(severity);
        message
    }

    /// A reasoning trace that has just begun.
    pub fn thinking(delta: String) -> (message: Self)
        ensures
            message.role == Role::Assistant,
            message.raw == delta,
            message.kind == MessageKind::Thinking(
                Thinking { content: delta, duration_ms: None, expanded: false, pinned: false },
            ),
            message.delivery == DeliveryStatus::Delivered,
            message.origin == UserMessageOrigin::Chat,
            message.provider@ == Seq::<char>::empty(),
            message.model@ == Seq::<char>::empty(),
    {
        let content: String = delta.clone();
        let mut message = TranscriptMessage::new(Role::Assistant, delta);
        message.kind = MessageKind::Thinking(
            Thinking { content, duration_ms: None, expanded: false, pinned: false },
        );
        message
    }

    /// A tool call that has just begun.
    pub fn tool_step(id: String, name: String, arguments: String) -> (message: Self)
        ensures
            message.role == Role::Tool,
            message.raw@ == Seq::<char>::empty(),
            message.kind matches MessageKind::ToolStep(step) && {
                &&& step.id == id
                &&& step.name == name
                &&& step.arguments == arguments
                &&& step.output@ == Seq::<char>::empty()
                &&& step.status == ToolStepStatus::Running
                &&& step.duration_ms is None
                &&& !step.expanded
                &&& !step.pinned
                &&& step.children is None
            },
            message.delivery == DeliveryStatus::Delivered,
            message.origin == UserMessageOrigin::Chat,
            message.provider@ == Seq::<char>::empty(),
            message.model@ == Seq::<char>::empty(),
    {
        let mut message = TranscriptMessage::new(Role::Tool, String::new());
        message.kind = MessageKind::ToolStep(
            ToolStep {
                id,
                name,
                arguments,
                output: String::new(),
                status: ToolStepStatus::Running,
                duration_ms: None,
                expanded: false,
                pinned: false,
                children: None,
            },
        );
        message
    }

    /// The message, produced by `model` of `provider`.
    pub fn with_attribution(self, provider: String, model: String) -> (message: Self)
        ensures
            message == (TranscriptMessage { provider, model, ..self }),
    {
        let mut message = self;
        message.provider = provider;
        message.model = model;
        message
    }

    /// The message, with its origin.
    pub fn with_origin(self, origin: UserMessageOrigin) -> (message: Self)
        ensures
            message == (TranscriptMessage { origin, ..self }),
    {
        let mut message = self;
        message.origin = origin;
        message
    }

    /// The message, waiting in the send queue.
    pub fn queued(self) -> (message: Self)
        ensures
            message == (TranscriptMessage { delivery: DeliveryStatus::Queued, ..self }),
    {
        let mut message = self;
        message.delivery = DeliveryStatus::Queued;
        message
    }

    pub fn is_thinking(&self) -> (yes: bool)
        ensures
            yes == self.kind is Thinking,
    {
        matches!(self.kind, MessageKind::Thinking(_))
    }

    pub fn is_tool_step(&self) -> (yes: bool)
        ensures
            yes == self.kind is ToolStep,
    {
        matches!(self.kind, MessageKind::ToolStep(_))
    }

    pub fn is_envoy_task(&self) -> (yes: bool)
        ensures
            yes == self.envoy_task(),
    {
        match &self.kind {
            MessageKind::ToolStep(step) => step.children.is_some(),
            _ => false,
        }
    }

    pub fn tool_step_call_id(&self) -> (id: Option<&str>)
        ensures
            match id {
                Some(text) => self.call_id() == Some(text@),
                None => self.call_id() is None,
            },
            id matches Some(_) ==> self.kind is ToolStep,
    {
        match &self.kind {
            MessageKind::ToolStep(step) => Some(step.id.as_str()),
            _ => None,
        }
    }

    pub fn tool_step_expanded(&self) -> (expanded: Option<bool>)
        ensures
            expanded == (match self.kind {
                MessageKind::ToolStep(step) => Some(step.expanded),
                _ => None,
            }),
    {
        match &self.kind {
            MessageKind::ToolStep(step) => Some(step.expanded),
            _ => None,
        }
    }

    pub fn thinking_expanded(&self) -> (expanded: Option<bool>)
        ensures
            expanded == (match self.kind {
                MessageKind::Thinking(trace) => Some(trace.expanded),
                _ => None,
            }),
    {
        match &self.kind {
            MessageKind::Thinking(trace) => Some(trace.expanded),
            _ => None,
        }
    }

    /// Unfolds or folds a tool step for the user.
    pub fn pin_tool_step_expanded(&mut self, expanded: bool)
        ensures
            *final(self) == (if old(self).kind is ToolStep {
                old(self).with_pinned(expanded)
            } else {
                *old(self)
            }),
    {
        if let MessageKind::ToolStep(step) = &mut self.kind {
            step.expanded = expanded;
            step.pinned = true;
        }
    }

    /// Unfolds or folds a reasoning trace for the user.
    pub fn pin_thinking_expanded(&mut self, expanded: bool)
        ensures
            *final(self) == (if old(self).kind is Thinking {
                old(self).with_pinned(expanded)
            } else {
                *old(self)
            }),
    {
        if let MessageKind::Thinking(trace) = &mut self.kind {
            trace.expanded = expanded;
            trace.pinned = true;
        }
    }

    /// Unfolds or folds a tool step by default.
    pub fn set_tool_step_expanded(&mut self, expanded: bool)
        ensures
            *final(self) == old(self).with_default_disclosure(expanded),
    {
        if let MessageKind::ToolStep(step) = &mut self.kind {
            if !step.pinned {
                step.expanded = expanded;
            }
        }
    }

    /// Appends streamed text.
    pub fn push_stream(&mut self, delta: &str)
        ensures
            final(self).raw@ == old(self).raw@ + delta@,
            *final(self) == (TranscriptMessage { raw: final(self).raw, ..*old(self) }),
    {
        append_text(&mut self.raw, delta);
    }
}

/// The position of the first message that is the envoy task `id`.
pub open spec fn task_index(messages: Seq<TranscriptMessage>, id: Seq<char>) -> Option<int>
    decreases messages.len(),
{
    if messages.len() == 0 {
        None
    } else {
        match task_index(messages.drop_last(), id) {
            Some(i) => Some(i),
            None => if messages.last().is_task(id) {
                Some(messages.len() - 1)
            } else {
                None
            },
        }
    }
}

pub proof fn lemma_task_index(messages: Seq<TranscriptMessage>, id: Seq<char>)
    ensures
        match task_index(messages, id) {
            Some(i) => {
                &&& 0 <= i < messages.len()
                &&& messages[i].is_task(id)
                &&& forall|k: int| 0 <= k < i ==> !(#[trigger] messages[k]).is_task(id)
            },
            None => forall|k: int|
                0 <= k < messages.len() ==> !(#[trigger] messages[k]).is_task(id),
        },
    decreases messages.len(),
{
    if messages.len() > 0 {
        let rest = messages.drop_last();
        lemma_task_index(rest, id);
        assert forall|k: int| 0 <= k < rest.len() implies messages[k] == rest[k] by {}
        match task_index(rest, id) {
            Some(i) => {
                assert(messages[i] == rest[i]);
                assert forall|k: int| 0 <= k < i implies !(#[trigger] messages[k]).is_task(id) by {
                    assert(messages[k] == rest[k]);
                }
            },
            None => {
                assert forall|k: int| 0 <= k < rest.len() implies !(
                #[trigger] messages[k]).is_task(id) by {
                    assert(messages[k] == rest[k]);
                }
            },
        }
    }
}

/// Finds the first message that is the envoy task `id`.
pub fn find_task(messages: &[TranscriptMessage], id: &str) -> (at: Option<usize>)
    ensures
        match at {
            Some(i) => task_index(messages@, id@) == Some(i as int) && i < messages@.len(),
            None => task_index(messages@, id@) is None,
        },
{
    let count: usize = messages.len();
    let mut i: usize = 0;
    proof {
        lemma_task_index(messages@, id@);
    }
    while i < count
        invariant
            i <= count,
            count == messages@.len(),
            forall|k: int| 0 <= k < i ==> !(#[trigger] messages@[k]).is_task(id@),
        decreases count - i,
    {
        if messages[i].is_envoy_task() {
            if let Some(call) = messages[i].tool_step_call_id() {
                if same_text(call, id) {
                    proof {
                        lemma_task_index(messages@, id@);
                        assert(messages@[i as int].is_task(id@));
                    }
                    return Some(i);
                }
            }
        }
        i += 1;
    }
    proof {
        lemma_task_index(messages@, id@);
    }
    None
}

/// Whether `b` is `a` with other messages in its envoy task.
pub open spec fn same_but_children(a: TranscriptMessage, b: TranscriptMessage) -> bool {
    &&& a.role == b.role
    &&& a.raw == b.raw
    &&& a.delivery == b.delivery
    &&& a.origin == b.origin
    &&& a.provider == b.provider
    &&& a.model == b.model
    &&& match (a.kind, b.kind) {
        (MessageKind::ToolStep(s), MessageKind::ToolStep(t)) => {
            &&& t == (ToolStep { children: t.children, ..s })
            &&& s.children is Some == t.children is Some
        },
        (k, l) => k == l,
    }
}

/// Whether `b` is a copy of `a`.
pub open spec fn same_message(a: TranscriptMessage, b: TranscriptMessage) -> bool
    decreases a,
{
    &&& a.role == b.role
    &&& a.raw == b.raw
    &&& a.delivery == b.delivery
    &&& a.origin == b.origin
    &&& a.provider == b.provider
    &&& a.model == b.model
    &&& match (a.kind, b.kind) {
        (MessageKind::ToolStep(s), MessageKind::ToolStep(t)) => {
            &&& t == (ToolStep { children: t.children, ..s })
            &&& match (s.children, t.children) {
                (Some(x), Some(y)) => same_messages(x@, y@),
                (None, None) => true,
                _ => false,
            }
        },
        (k, l) => k == l,
    }
}

/// Whether `b` is a copy of `a`, message by message.
pub open spec fn same_messages(a: Seq<TranscriptMessage>, b: Seq<TranscriptMessage>) -> bool
    decreases a,
{
    &&& a.len() == b.len()
    &&& forall|i: int| 0 <= i < a.len() ==> same_message(#[trigger] a[i], b[i])
}

fn copy_message(message: &TranscriptMessage) -> (copy: TranscriptMessage)
    ensures
        same_message(*message, copy),
    decreases *message,
{
    let kind: MessageKind = match &message.kind {
        MessageKind::Text => MessageKind::Text,
        MessageKind::Notice(severity) => MessageKind::Notice(*severity),
        MessageKind::Thinking(trace) => MessageKind::Thinking(
            Thinking {
                content: trace.content.clone(),
                duration_ms: trace.duration_ms,
                expanded: trace.expanded,
                pinned: trace.pinned,
            },
        ),
        MessageKind::ToolStep(step) => MessageKind::ToolStep(
            ToolStep {
                id: step.id.clone(),
                name: step.name.clone(),
                arguments: step.arguments.clone(),
                output: step.output.clone(),
                status: step.status,
                duration_ms: step.duration_ms,
                expanded: step.expanded,
                pinned: step.pinned,
                children: match &step.children {
                    Some(children) => Some(copy_messages(children)),
                    None => None,
                },
            },
        ),
    };
    TranscriptMessage {
        role: message.role,
        raw: message.raw.clone(),
        kind,
        delivery: message.delivery,
        origin: message.origin,
        provider: message.provider.clone(),
        model: message.model.clone(),
    }
}

/// Copies a transcript.
pub fn copy_messages(messages: &Vec<TranscriptMessage>) -> (copy: Vec<TranscriptMessage>)
    ensures
        same_messages(messages@, copy@),
    decreases *messages,
{
    let count: usize = messages.len();
    let mut copy: Vec<TranscriptMessage> = Vec::new();
    let mut i: usize = 0;
    while i < count
        invariant
            i <= count,
            count == messages@.len(),
            copy@.len() == i,
            forall|k: int| 0 <= k < i ==> same_message(#[trigger] messages@[k], copy@[k]),
        decreases count - i,
    {
        copy.push(copy_message(&messages[i]));
        i += 1;
    }
    copy
}

} // verus!
