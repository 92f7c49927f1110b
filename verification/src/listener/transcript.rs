//! What the events of a turn do to a transcript.
use crate::document::DeliveryStatus;
use crate::document::MessageKind;
use crate::document::NoticeSeverity;
use crate::document::Role;
use crate::document::Thinking;
use crate::document::ToolStep;
use crate::document::ToolStepStatus;
use crate::document::TranscriptMessage;
use crate::document::UserMessageOrigin;
use crate::text::append_text;
use crate::text::char_count;
use crate::text::same_text;
use vstd::prelude::*;

verus! {

/// The provider and the model that produce the messages of a turn.
#[derive(Debug)]
pub struct Attribution {
    pub provider: String,
    pub model: String,
}

/// Whether `message` is a fresh message of `role` by `by`.
pub open spec fn is_entry(
    message: TranscriptMessage,
    role: Role,
    raw: Seq<char>,
    by: Attribution,
) -> bool {
    &&& message.role == role
    &&& message.raw@ == raw
    &&& message.delivery == DeliveryStatus::Delivered
    &&& message.origin == UserMessageOrigin::Chat
    &&& message.provider == by.provider
    &&& message.model == by.model
}

/// Whether `after` is `before` and a plain message of the assistant.
pub open spec fn answer_begun(
    before: Seq<TranscriptMessage>,
    raw: Seq<char>,
    by: Attribution,
    after: Seq<TranscriptMessage>,
) -> bool {
    &&& after.len() == before.len() + 1
    &&& after.drop_last() == before
    &&& is_entry(after.last(), Role::Assistant, raw, by)
    &&& after.last().kind == MessageKind::Text
}

/// Adds a message of the assistant.
pub fn begin_answer(messages: &mut Vec<TranscriptMessage>, raw: String, by: Attribution)
    ensures
        answer_begun(old(messages)@, raw@, by, final(messages)@),
{
    messages.push(
        TranscriptMessage::new(Role::Assistant, raw).with_attribution(by.provider, by.model),
    );
    proof {
        assert(messages@.drop_last() =~= old(messages)@);
    }
}

/// Whether `after` is `before` and a notice.
pub open spec fn noticed(
    before: Seq<TranscriptMessage>,
    severity: NoticeSeverity,
    text: Seq<char>,
    after: Seq<TranscriptMessage>,
) -> bool {
    let notice = after.last();
    &&& after.len() == before.len() + 1
    &&& after.drop_last() == before
    &&& notice.role == Role::System
    &&& notice.raw@ == text
    &&& notice.kind == MessageKind::Notice(severity)
    &&& notice.delivery == DeliveryStatus::Delivered
    &&& notice.origin == UserMessageOrigin::Chat
    &&& notice.provider@ == Seq::<char>::empty()
    &&& notice.model@ == Seq::<char>::empty()
}

/// Adds a notice.
pub fn push_local_notice(
    messages: &mut Vec<TranscriptMessage>,
    severity: NoticeSeverity,
    text: String,
)
    ensures
        noticed(old(messages)@, severity, text@, final(messages)@),
{
    messages.push(TranscriptMessage::notice(severity, text));
    proof {
        assert(messages@.drop_last() =~= old(messages)@);
    }
}

/// Whether `delta` was added to the last message.
pub open spec fn answer_streamed(
    before: Seq<TranscriptMessage>,
    delta: Seq<char>,
    after: Seq<TranscriptMessage>,
) -> bool {
    if before.len() == 0 {
        after == before
    } else {
        &&& after.len() == before.len()
        &&& after.drop_last() == before.drop_last()
        &&& after.last().raw@ == before.last().raw@ + delta
        &&& after.last() == (TranscriptMessage { raw: after.last().raw, ..before.last() })
    }
}

/// Adds streamed text to the last message.
pub fn stream_answer(messages: &mut Vec<TranscriptMessage>, delta: &str)
    ensures
        answer_streamed(old(messages)@, delta@, final(messages)@),
{
    let count: usize = messages.len();
    if count > 0 {
        messages[count - 1].push_stream(delta);
        proof {
            assert(messages@.drop_last() =~= old(messages)@.drop_last());
        }
    }
}

/// The transcript with its last message replaced by its final text.
pub open spec fn answer_ended(before: Seq<TranscriptMessage>, raw: String) -> Seq<
    TranscriptMessage,
> {
    if before.len() == 0 {
        before
    } else {
        before.update(before.len() - 1, TranscriptMessage { raw, ..before.last() })
    }
}

/// Replaces the last message by its final text.
pub fn end_answer(messages: &mut Vec<TranscriptMessage>, raw: String)
    ensures
        final(messages)@ == answer_ended(old(messages)@, raw),
{
    let count: usize = messages.len();
    if count > 0 {
        messages[count - 1].raw = raw;
        proof {
            assert(messages@ =~= answer_ended(old(messages)@, raw));
        }
    }
}

/// The transcript without its last message, if that is the assistant's.
pub open spec fn answer_discarded(before: Seq<TranscriptMessage>) -> Seq<TranscriptMessage> {
    if before.len() > 0 && before.last().role == Role::Assistant {
        before.drop_last()
    } else {
        before
    }
}

/// Drops the last message, if it is the assistant's.
pub fn discard_answer(messages: &mut Vec<TranscriptMessage>)
    ensures
        final(messages)@ == answer_discarded(old(messages)@),
{
    let count: usize = messages.len();
    if count > 0 && messages[count - 1].role == Role::Assistant {
        let _ = messages.pop();
        proof {
            assert(messages@ =~= old(messages)@.drop_last());
        }
    }
}

/// Whether the last message is a reasoning trace.
pub open spec fn ends_in_trace(messages: Seq<TranscriptMessage>) -> bool {
    messages.len() > 0 && messages.last().kind is Thinking
}

/// The transcript without the empty answer that a turn may begin with.
pub open spec fn without_placeholder(messages: Seq<TranscriptMessage>) -> Seq<TranscriptMessage> {
    if messages.len() > 0 && messages.last().role == Role::Assistant
        && messages.last().raw@.len() == 0 {
        messages.drop_last()
    } else {
        messages
    }
}

/// Whether `delta` was added to the reasoning trace under way, or began one
/// in place of the empty answer in front of it.
pub open spec fn reasoning_streamed(
    before: Seq<TranscriptMessage>,
    delta: Seq<char>,
    expanded: bool,
    by: Attribution,
    after: Seq<TranscriptMessage>,
) -> bool {
    if ends_in_trace(before) {
        let trace = before.last().kind->Thinking_0;
        &&& after.len() == before.len()
        &&& after.drop_last() == before.drop_last()
        &&& after.last().raw@ == before.last().raw@ + delta
        &&& after.last().kind matches MessageKind::Thinking(grown) && {
            &&& grown.content@ == trace.content@ + delta
            &&& after.last() == (TranscriptMessage {
                raw: after.last().raw,
                kind: MessageKind::Thinking(Thinking { content: grown.content, ..trace }),
                ..before.last()
            })
        }
    } else {
        &&& after.len() == without_placeholder(before).len() + 1
        &&& after.drop_last() == without_placeholder(before)
        &&& is_entry(after.last(), Role::Assistant, delta, by)
        &&& after.last().kind matches MessageKind::Thinking(trace) && {
            &&& trace.content@ == delta
            &&& trace.duration_ms is None
            &&& trace.expanded == expanded
            &&& !trace.pinned
        }
    }
}

fn grow_trace(message: &mut TranscriptMessage, delta: &str)
    requires
        old(message).kind is Thinking,
    ensures
        final(message).raw@ == old(message).raw@ + delta@,
        final(message).kind matches MessageKind::Thinking(grown) && {
            let trace = old(message).kind->Thinking_0;
            &&& grown.content@ == trace.content@ + delta@
            &&& *final(message) == (TranscriptMessage {
                raw: final(message).raw,
                kind: MessageKind::Thinking(Thinking { content: grown.content, ..trace }),
                ..*old(message)
            })
        },
{
    message.push_stream(delta);
    if let MessageKind::Thinking(trace) = &mut message.kind {
        append_text(&mut trace.content, delta);
    }
}

fn begin_trace(messages: &mut Vec<TranscriptMessage>, delta: String, expanded: bool, by: Attribution)
    requires
        !ends_in_trace(old(messages)@),
    ensures
        reasoning_streamed(old(messages)@, delta@, expanded, by, final(messages)@),
{
    let count: usize = messages.len();
    if count > 0 && messages[count - 1].role == Role::Assistant && char_count(
        messages[count - 1].raw.as_str(),
    ) == 0 {
        let _ = messages.pop();
        proof {
            assert(messages@ =~= old(messages)@.drop_last());
        }
    }
    let ghost base = messages@;
    let mut message = TranscriptMessage::thinking(delta).with_attribution(by.provider, by.model);
    if let MessageKind::Thinking(trace) = &mut message.kind {
        trace.expanded = expanded;
    }
    messages.push(message);
    proof {
        assert(messages@.drop_last() =~= base);
    }
}

/// Adds streamed reasoning. Says whether it began a new trace; one that does
/// is unfolded as `expanded` says.
pub fn stream_reasoning(
    messages: &mut Vec<TranscriptMessage>,
    delta: String,
    expanded: bool,
    by: Attribution,
) -> (began: bool)
    ensures
        began == !ends_in_trace(old(messages)@),
        reasoning_streamed(old(messages)@, delta@, expanded, by, final(messages)@),
{
    let count: usize = messages.len();
    if count > 0 && messages[count - 1].is_thinking() {
        grow_trace(&mut messages[count - 1], delta.as_str());
        proof {
            assert(messages@.drop_last() =~= old(messages)@.drop_last());
        }
        false
    } else {
        begin_trace(messages, delta, expanded, by);
        true
    }
}

/// Whether a message is a reasoning trace that still streams.
pub open spec fn is_streaming(message: TranscriptMessage) -> bool {
    message.kind matches MessageKind::Thinking(trace) && trace.duration_ms is None
}

fn streams(message: &TranscriptMessage) -> (yes: bool)
    ensures
        yes == is_streaming(*message),
{
    match &message.kind {
        MessageKind::Thinking(trace) => trace.duration_ms.is_none(),
        _ => false,
    }
}

/// A finished reasoning trace.
pub open spec fn with_reasoning(message: TranscriptMessage, content: String, ms: u64) -> TranscriptMessage {
    match message.kind {
        MessageKind::Thinking(trace) => TranscriptMessage {
            raw: content,
            kind: MessageKind::Thinking(
                Thinking { content, duration_ms: Some(ms), ..trace },
            ),
            ..message
        },
        _ => message,
    }
}

/// The transcript with its latest streaming trace finished.
pub open spec fn reasoning_ended(
    before: Seq<TranscriptMessage>,
    content: String,
    ms: u64,
) -> Seq<TranscriptMessage>
    decreases before.len(),
{
    if before.len() == 0 {
        before
    } else if is_streaming(before.last()) {
        before.drop_last().push(with_reasoning(before.last(), content, ms))
    } else {
        reasoning_ended(before.drop_last(), content, ms).push(before.last())
    }
}

/// Finishes the latest streaming trace. An answer may already stand behind
/// it.
pub fn end_reasoning(messages: &mut Vec<TranscriptMessage>, content: String, ms: u64)
    ensures
        final(messages)@ == reasoning_ended(old(messages)@, content, ms),
{
    let ghost all = messages@;
    let mut i: usize = messages.len();
    proof {
        assert(all.take(i as int) =~= all);
        assert(reasoning_ended(all, content, ms) + all.skip(i as int) =~= reasoning_ended(
            all,
            content,
            ms,
        ));
    }
    while i > 0
        invariant
            i <= messages@.len(),
            messages@ == all,
            all == old(messages)@,
            reasoning_ended(all, content, ms) == reasoning_ended(
                all.take(i as int),
                content,
                ms,
            ) + all.skip(i as int),
        decreases i,
    {
        i -= 1;
        proof {
            assert(all.take(i + 1).drop_last() =~= all.take(i as int));
            assert(all.take(i + 1).last() == all[i as int]);
        }
        if streams(&messages[i]) {
            finish_trace(&mut messages[i], content, ms);
            proof {
                let done = with_reasoning(all[i as int], content, ms);
                assert(messages@ =~= all.take(i as int).push(done) + all.skip(i + 1));
            }
            return ;
        }
        proof {
            assert(reasoning_ended(all.take(i as int), content, ms).push(all[i as int])
                + all.skip(i + 1) =~= reasoning_ended(all.take(i as int), content, ms)
                + all.skip(i as int));
        }
    }
    proof {
        assert(all.take(0) =~= Seq::<TranscriptMessage>::empty());
        assert(Seq::<TranscriptMessage>::empty() + all.skip(0) =~= all);
    }
}

fn finish_trace(message: &mut TranscriptMessage, content: String, ms: u64)
    requires
        old(message).kind is Thinking,
    ensures
        *final(message) == with_reasoning(*old(message), content, ms),
{
    message.raw = content.clone();
    if let MessageKind::Thinking(trace) = &mut message.kind {
        trace.content = content;
        trace.duration_ms = Some(ms);
    }
}

/// A streaming trace stopped where it is; other messages as they are.
pub open spec fn frozen(message: TranscriptMessage, ms: u64) -> TranscriptMessage {
    match message.kind {
        MessageKind::Thinking(trace) => if trace.duration_ms is None {
            TranscriptMessage {
                kind: MessageKind::Thinking(Thinking { duration_ms: Some(ms), ..trace }),
                ..message
            }
        } else {
            message
        },
        _ => message,
    }
}

/// Stops every trace that still streams.
pub fn finalize_streaming_reasoning(messages: &mut Vec<TranscriptMessage>, ms: u64)
    ensures
        final(messages)@ == old(messages)@.map_values(|m: TranscriptMessage| frozen(m, ms)),
{
    let count: usize = messages.len();
    let mut i: usize = 0;
    while i < count
        invariant
            i <= count,
            count == messages@.len(),
            messages@.len() == old(messages)@.len(),
            forall|k: int| 0 <= k < i ==> messages@[k] == frozen(old(messages)@[k], ms),
            forall|k: int| i <= k < count ==> messages@[k] == old(messages)@[k],
        decreases count - i,
    {
        freeze(&mut messages[i], ms);
        i += 1;
    }
    proof {
        assert(messages@ =~= old(messages)@.map_values(|m: TranscriptMessage| frozen(m, ms)));
    }
}

fn freeze(message: &mut TranscriptMessage, ms: u64)
    ensures
        *final(message) == frozen(*old(message), ms),
{
    if let MessageKind::Thinking(trace) = &mut message.kind {
        if trace.duration_ms.is_none() {
            trace.duration_ms = Some(ms);
        }
    }
}

/// Whether a message is the tool step `id`, and still running where that is
/// asked for.
pub open spec fn is_call(message: TranscriptMessage, id: Seq<char>, running: bool) -> bool {
    message.kind matches MessageKind::ToolStep(step) && step.id@ == id && (running
        ==> step.status == ToolStepStatus::Running)
}

fn matches_call(message: &TranscriptMessage, id: &str, running: bool) -> (yes: bool)
    ensures
        yes == is_call(*message, id@, running),
{
    match &message.kind {
        MessageKind::ToolStep(step) => same_text(step.id.as_str(), id) && (!running || step.status
            == ToolStepStatus::Running),
        _ => false,
    }
}

/// The first message that is the tool step `id`.
pub open spec fn call_index(messages: Seq<TranscriptMessage>, id: Seq<char>, running: bool) -> Option<
    int,
>
    decreases messages.len(),
{
    if messages.len() == 0 {
        None
    } else {
        match call_index(messages.drop_last(), id, running) {
            Some(i) => Some(i),
            None => if is_call(messages.last(), id, running) {
                Some(messages.len() - 1)
            } else {
                None
            },
        }
    }
}

pub proof fn lemma_call_index(messages: Seq<TranscriptMessage>, id: Seq<char>, running: bool)
    ensures
        match call_index(messages, id, running) {
            Some(i) => {
                &&& 0 <= i < messages.len()
                &&& is_call(messages[i], id, running)
                &&& forall|k: int| 0 <= k < i ==> !is_call(#[trigger] messages[k], id, running)
            },
            None => forall|k: int|
                0 <= k < messages.len() ==> !is_call(#[trigger] messages[k], id, running),
        },
    decreases messages.len(),
{
    if messages.len() > 0 {
        let rest = messages.drop_last();
        lemma_call_index(rest, id, running);
        assert forall|k: int| 0 <= k < rest.len() implies #[trigger] messages[k] == rest[k] by {}
    }
}

fn find_call(messages: &Vec<TranscriptMessage>, id: &str, running: bool) -> (at: Option<usize>)
    ensures
        match at {
            Some(i) => call_index(messages@, id@, running) == Some(i as int) && i
                < messages@.len() && is_call(messages@[i as int], id@, running),
            None => call_index(messages@, id@, running) is None,
        },
{
    let count: usize = messages.len();
    let mut i: usize = 0;
    proof {
        lemma_call_index(messages@, id@, running);
    }
    while i < count
        invariant
            i <= count,
            count == messages@.len(),
            forall|k: int| 0 <= k < i ==> !is_call(#[trigger] messages@[k], id@, running),
        decreases count - i,
    {
        if matches_call(&messages[i], id, running) {
            proof {
                lemma_call_index(messages@, id@, running);
            }
            return Some(i);
        }
        i += 1;
    }
    proof {
        lemma_call_index(messages@, id@, running);
    }
    None
}

/// Whether `after` is `before` and a tool call that has just begun.
pub open spec fn call_begun(
    before: Seq<TranscriptMessage>,
    id: Seq<char>,
    name: Seq<char>,
    arguments: Seq<char>,
    by: Attribution,
    after: Seq<TranscriptMessage>,
) -> bool {
    &&& after.len() == before.len() + 1
    &&& after.drop_last() == before
    &&& is_entry(after.last(), Role::Tool, Seq::empty(), by)
    &&& after.last().kind matches MessageKind::ToolStep(step) && {
        &&& step.id@ == id
        &&& step.name@ == name
        &&& step.arguments@ == arguments
        &&& step.output@ == Seq::<char>::empty()
        &&& step.status == ToolStepStatus::Running
        &&& step.duration_ms is None
        &&& !step.expanded
        &&& !step.pinned
        &&& step.children is None
    }
}

/// Adds a tool call that has just begun.
pub fn begin_call(
    messages: &mut Vec<TranscriptMessage>,
    id: String,
    name: String,
    arguments: String,
    by: Attribution,
)
    ensures
        call_begun(old(messages)@, id@, name@, arguments@, by, final(messages)@),
{
    messages.push(
        TranscriptMessage::tool_step(id, name, arguments).with_attribution(by.provider, by.model),
    );
    proof {
        assert(messages@.drop_last() =~= old(messages)@);
    }
}

/// How a tool call ended.
#[derive(Debug)]
pub struct CallResult {
    pub id: String,
    pub name: String,
    pub output: String,
    pub status: ToolStepStatus,
    pub duration_ms: Option<u64>,
}

/// Whether a call that ended in `status` is unfolded by default: a failure
/// is, so that its cause is seen, and a success as `success` says.
pub open spec fn unfolds(status: ToolStepStatus, success: bool) -> bool {
    match status {
        ToolStepStatus::Failed | ToolStepStatus::Denied => true,
        ToolStepStatus::Succeeded => success,
        ToolStepStatus::Running | ToolStepStatus::Cancelled => false,
    }
}

fn unfolds_by_default(status: ToolStepStatus, success: bool) -> (unfolded: bool)
    ensures
        unfolded == unfolds(status, success),
{
    match status {
        ToolStepStatus::Failed | ToolStepStatus::Denied => true,
        ToolStepStatus::Succeeded => success,
        ToolStepStatus::Running | ToolStepStatus::Cancelled => false,
    }
}

/// A tool step with its result.
pub open spec fn with_result(message: TranscriptMessage, result: CallResult, success: bool) -> TranscriptMessage {
    match message.kind {
        MessageKind::ToolStep(step) => TranscriptMessage {
            kind: MessageKind::ToolStep(
                ToolStep {
                    output: result.output,
                    status: result.status,
                    duration_ms: result.duration_ms,
                    ..step
                },
            ),
            ..message
        }.with_default_disclosure(unfolds(result.status, success)),
        _ => message,
    }
}

fn finish_tool_step(message: &mut TranscriptMessage, result: CallResult, success: bool)
    ensures
        *final(message) == with_result(*old(message), result, success),
{
    let status: ToolStepStatus = result.status;
    if let MessageKind::ToolStep(step) = &mut message.kind {
        step.output = result.output;
        step.status = status;
        step.duration_ms = result.duration_ms;
    }
    message.set_tool_step_expanded(unfolds_by_default(status, success));
}

/// Whether the result of a call was taken in: the running step gets it, or a
/// step is added where none is running.
pub open spec fn call_ended(
    before: Seq<TranscriptMessage>,
    result: CallResult,
    success: bool,
    by: Attribution,
    after: Seq<TranscriptMessage>,
) -> bool {
    match call_index(before, result.id@, true) {
        Some(i) => after == before.update(i, with_result(before[i], result, success)),
        None => exists|begun: Seq<TranscriptMessage>| #[trigger]
            call_begun(before, result.id@, result.name@, "{}"@, by, begun) && after
                == before.push(with_result(begun.last(), result, success)),
    }
}

/// Takes the result of a call in. `success` says whether a successful call of
/// this tool is unfolded by default.
pub fn end_call(
    messages: &mut Vec<TranscriptMessage>,
    result: CallResult,
    success: bool,
    by: Attribution,
)
    ensures
        call_ended(old(messages)@, result, success, by, final(messages)@),
{
    match find_call(messages, result.id.as_str(), true) {
        Some(i) => {
            finish_tool_step(&mut messages[i], result, success);
            proof {
                assert(messages@ =~= old(messages)@.update(
                    i as int,
                    with_result(old(messages)@[i as int], result, success),
                ));
            }
        },
        None => {
            let mut message = TranscriptMessage::tool_step(
                result.id.clone(),
                result.name.clone(),
                "{}".to_owned(),
            ).with_attribution(by.provider, by.model);
            let ghost begun = old(messages)@.push(message);
            proof {
                assert(begun.drop_last() =~= old(messages)@);
                assert(call_begun(old(messages)@, result.id@, result.name@, "{}"@, by, begun));
            }
            finish_tool_step(&mut message, result, success);
            messages.push(message);
        },
    }
}

/// Whether `b` is `a` with every running call stopped, those of envoys too.
pub open spec fn stopped(a: TranscriptMessage, b: TranscriptMessage) -> bool
    decreases a,
{
    &&& a.role == b.role
    &&& a.raw == b.raw
    &&& a.delivery == b.delivery
    &&& a.origin == b.origin
    &&& a.provider == b.provider
    &&& a.model == b.model
    &&& match (a.kind, b.kind) {
        (MessageKind::ToolStep(s), MessageKind::ToolStep(t)) => {
            &&& t == (ToolStep {
                status: if s.status == ToolStepStatus::Running {
                    ToolStepStatus::Cancelled
                } else {
                    s.status
                },
                children: t.children,
                ..s
            })
            &&& match (s.children, t.children) {
                (Some(x), Some(y)) => all_stopped(x@, y@),
                (None, None) => true,
                _ => false,
            }
        },
        (k, l) => k == l,
    }
}

/// Whether `b` is `a` with every running call stopped, message by message.
pub open spec fn all_stopped(a: Seq<TranscriptMessage>, b: Seq<TranscriptMessage>) -> bool
    decreases a,
{
    &&& a.len() == b.len()
    &&& forall|i: int| 0 <= i < a.len() ==> stopped(#[trigger] a[i], b[i])
}

fn stop(message: &mut TranscriptMessage)
    ensures
        stopped(*old(message), *final(message)),
    decreases *old(message),
{
    if let MessageKind::ToolStep(step) = &mut message.kind {
        if step.status == ToolStepStatus::Running {
            step.status = ToolStepStatus::Cancelled;
        }
        if let Some(children) = &mut step.children {
            stop_all(children);
        }
    }
}

fn stop_all(messages: &mut Vec<TranscriptMessage>)
    ensures
        all_stopped(old(messages)@, final(messages)@),
    decreases *old(messages),
{
    let count: usize = messages.len();
    let mut i: usize = 0;
    while i < count
        invariant
            i <= count,
            count == messages@.len(),
            messages@.len() == old(messages)@.len(),
            forall|k: int| 0 <= k < i ==> stopped(#[trigger] old(messages)@[k], messages@[k]),
            forall|k: int| i <= k < count ==> messages@[k] == old(messages)@[k],
        decreases count - i,
    {
        assert(messages@[i as int] == old(messages)@[i as int]);
        stop(&mut messages[i]);
        i += 1;
    }
}

/// Whether `b` is `a` stopped, and folded unless the user chose otherwise.
pub open spec fn halted(a: TranscriptMessage, b: TranscriptMessage) -> bool {
    exists|mid: TranscriptMessage| #[trigger]
        stopped(a, mid) && b == mid.with_default_disclosure(false)
}

/// Whether the call `id` was stopped and folded; where none is running, a
/// stopped step is added in its place.
pub open spec fn call_cancelled(
    before: Seq<TranscriptMessage>,
    id: Seq<char>,
    after: Seq<TranscriptMessage>,
) -> bool {
    match call_index(before, id, true) {
        Some(i) => {
            &&& after == before.update(i, after[i])
            &&& halted(before[i], after[i])
        },
        None => {
            &&& after.len() == before.len() + 1
            &&& after.drop_last() == before
            &&& after.last().role == Role::Tool
            &&& after.last().raw@ == Seq::<char>::empty()
            &&& after.last().delivery == DeliveryStatus::Delivered
            &&& after.last().origin == UserMessageOrigin::Chat
            &&& after.last().provider@ == Seq::<char>::empty()
            &&& after.last().model@ == Seq::<char>::empty()
            &&& after.last().kind matches MessageKind::ToolStep(step) && {
                &&& step.id@ == id
                &&& step.name@ == "tool"@
                &&& step.arguments@ == "{}"@
                &&& step.output@ == Seq::<char>::empty()
                &&& step.status == ToolStepStatus::Cancelled
                &&& step.duration_ms is None
                &&& !step.expanded
                &&& !step.pinned
                &&& step.children is None
            }
        },
    }
}

fn halt(message: &mut TranscriptMessage)
    ensures
        halted(*old(message), *final(message)),
{
    stop(message);
    let ghost mid = *message;
    message.set_tool_step_expanded(false);
    assert(stopped(*old(message), mid));
}

/// Stops the call `id`.
pub fn cancel_call(messages: &mut Vec<TranscriptMessage>, id: String)
    ensures
        call_cancelled(old(messages)@, id@, final(messages)@),
{
    match find_call(messages, id.as_str(), true) {
        Some(i) => {
            halt(&mut messages[i]);
            proof {
                assert(messages@ =~= old(messages)@.update(i as int, messages@[i as int]));
            }
        },
        None => {
            let mut message = TranscriptMessage::tool_step(id, "tool".to_owned(), "{}".to_owned());
            if let MessageKind::ToolStep(step) = &mut message.kind {
                step.status = ToolStepStatus::Cancelled;
            }
            messages.push(message);
            proof {
                assert(messages@.drop_last() =~= old(messages)@);
            }
        },
    }
}

/// Whether `chunk` was added to the output of the running call `id`; unknown
/// calls drop it.
pub open spec fn output_streamed(
    before: Seq<TranscriptMessage>,
    id: Seq<char>,
    chunk: Seq<char>,
    after: Seq<TranscriptMessage>,
) -> bool {
    match call_index(before, id, true) {
        Some(i) => {
            let step = before[i].kind->ToolStep_0;
            &&& after.len() == before.len()
            &&& forall|k: int| 0 <= k < before.len() && k != i ==> after[k] == before[k]
            &&& after[i].kind matches MessageKind::ToolStep(grown) && {
                &&& grown.output@ == step.output@ + chunk
                &&& after[i] == (TranscriptMessage {
                    kind: MessageKind::ToolStep(ToolStep { output: grown.output, ..step }),
                    ..before[i]
                })
            }
        },
        None => after == before,
    }
}

/// Adds live output to the running call `id`.
pub fn stream_output(messages: &mut Vec<TranscriptMessage>, id: &str, chunk: &str)
    ensures
        output_streamed(old(messages)@, id@, chunk@, final(messages)@),
{
    if let Some(i) = find_call(messages, id, true) {
        if let MessageKind::ToolStep(step) = &mut messages[i].kind {
            append_text(&mut step.output, chunk);
        }
    }
}

/// Whether `entry` was added to the messages of the envoy that the call `id`
/// started; the first entry makes the call an envoy task.
pub open spec fn envoy_extended(
    before: Seq<TranscriptMessage>,
    id: Seq<char>,
    entry: TranscriptMessage,
    after: Seq<TranscriptMessage>,
) -> bool {
    match call_index(before, id, false) {
        Some(i) => {
            let step = before[i].kind->ToolStep_0;
            &&& after.len() == before.len()
            &&& forall|k: int| 0 <= k < before.len() && k != i ==> after[k] == before[k]
            &&& after[i].child_seq() == before[i].child_seq().push(entry)
            &&& after[i].kind matches MessageKind::ToolStep(grown) && after[i] == (
            TranscriptMessage {
                kind: MessageKind::ToolStep(ToolStep { children: grown.children, ..step }),
                ..before[i]
            })
        },
        None => after == before,
    }
}

fn add_child(message: &mut TranscriptMessage, entry: TranscriptMessage)
    requires
        old(message).kind is ToolStep,
    ensures
        final(message).child_seq() == old(message).child_seq().push(entry),
        final(message).kind matches MessageKind::ToolStep(grown) && *final(message) == (
        TranscriptMessage {
            kind: MessageKind::ToolStep(
                ToolStep { children: grown.children, ..old(message).kind->ToolStep_0 },
            ),
            ..*old(message)
        }),
{
    if let MessageKind::ToolStep(step) = &mut message.kind {
        let mut children: Vec<TranscriptMessage> = match step.children.take() {
            Some(children) => children,
            None => Vec::new(),
        };
        children.push(entry);
        step.children = Some(children);
    }
}

/// Adds an entry to the messages of the envoy that the call `id` started.
pub fn extend_envoy(messages: &mut Vec<TranscriptMessage>, id: &str, entry: TranscriptMessage)
    ensures
        envoy_extended(old(messages)@, id@, entry, final(messages)@),
{
    if let Some(i) = find_call(messages, id, false) {
        add_child(&mut messages[i], entry);
    }
}

} // verus!
