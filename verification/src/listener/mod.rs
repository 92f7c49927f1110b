//! The responses of the agent, and what they do to the state.
pub mod event_laws;
pub mod laws;
pub mod transcript;
pub mod turn;

use crate::agent::HarnessSnapshot;
use crate::agent::ParentStatus;
use crate::agent::PermissionRequest;
use crate::agent::Pursuit;
use crate::agent::SessionContextSnapshot;
use crate::agent::SessionOverview;
use crate::agent::TodoList;
use crate::agent::UserQuestionRequest;
use crate::app::App;
use crate::app::Picker;
use crate::app::SessionMirror;
use crate::document::NoticeSeverity;
use crate::document::TranscriptMessage;
use crate::event_loop::SideViewSignal;
use crate::event_loop::UiRuntime;
use crate::listener::transcript::noticed;
use crate::listener::transcript::push_local_notice;
use crate::listener::transcript::CallResult;
use crate::listener::turn::apply_turn;
use crate::listener::turn::turn_applied;
use crate::listener::turn::turn_fits;
use crate::providers::ProviderPickerSnapshot;
use crate::text::same_text;
use std::collections::VecDeque;
use vstd::prelude::*;

verus! {

/// What an envoy reports to the call that started it.
#[derive(Debug)]
pub enum EnvoyEvent {
    PermissionRequest(PermissionRequest),
    UserQuestionRequest(UserQuestionRequest),
    /// A message of the envoy's own conversation.
    Entry(TranscriptMessage),
}

/// What happens in a turn.
#[derive(Debug)]
pub enum TurnEvent {
    Notice { severity: NoticeSeverity, text: String },
    /// A whole answer.
    Text(String),
    /// What the agent is doing.
    Activity(String),
    /// The turn's next request to the model, counted from 0.
    RoundStarted { round: u64 },
    StreamStart,
    StreamDelta(String),
    /// The answer as it stands in the end.
    StreamEnd(String),
    StreamDiscard,
    StreamReasoningDelta(String),
    StreamReasoningEnd(String),
    ToolCall { id: String, name: String, arguments: String },
    ToolResult(CallResult),
    ToolCancelled { id: String },
    /// Live output of a running call.
    ToolStream { id: String, chunk: String },
    Envoy { parent_call_id: String, event: EnvoyEvent },
    PermissionRequest(PermissionRequest),
    UserQuestionRequest(UserQuestionRequest),
    Compacted { archived_messages: usize, before_chars: usize, after_chars: usize },
    /// The turn began or ended.
    HarnessState(HarnessSnapshot),
    PursuitUpdated(Pursuit),
    PursuitCleared,
    TodosUpdated(TodoList),
    UnattendedChanged(bool),
    RetryScheduled { attempt: u32, max_attempts: u32, delay_ms: u64, message: String },
    Error(String),
    /// The verdict of a review; empty where nothing is wrong.
    SessionReview { alert: String },
}

/// What the agent says.
#[derive(Debug)]
pub enum AgentResponse {
    /// Something happened in a turn of a session.
    Turn { session_id: String, event: TurnEvent },
    ParentStatus(ParentStatus),
    SideViewOpened { side_id: String },
    SideViewClosed,
    PermissionsCleared,
    ProviderKeys(Vec<(String, bool)>),
    ProviderPicker(ProviderPickerSnapshot),
    ConversationCleared,
    ConversationReplaced(Vec<TranscriptMessage>),
    SessionsOverview(Vec<SessionOverview>),
    SessionContext(SessionContextSnapshot),
    /// Leave the program.
    Exit,
    ProviderSwitched { provider: String, model: String },
    Error(String),
}

/// What the host knows when a response comes in.
#[derive(Debug, Clone, Copy, PartialEq, Eq)]
pub struct ResponseFacts {
    /// The host's clock in milliseconds.
    pub now: u64,
    /// Whether reasoning traces start unfolded.
    pub thinking_expanded: bool,
    /// Whether a successful call of the tool in question is unfolded.
    pub success_expanded: bool,
}

/// Whether the events of a session go to the side conversation.
pub open spec fn goes_aside(r: UiRuntime, session_id: Seq<char>) -> bool {
    r.side_id matches Some(id) && id@ == session_id
}

fn is_aside(runtime: &UiRuntime, session_id: &str) -> (side: bool)
    ensures
        side == goes_aside(*runtime, session_id@),
{
    match &runtime.side_id {
        Some(id) => same_text(id.as_str(), session_id),
        None => false,
    }
}

/// The notice that another model is in use.
pub open spec fn switched_text(provider: Seq<char>, model: Seq<char>) -> Seq<char> {
    "Provider switched to "@ + provider + " ("@ + model + ")"@
}

/// What `response` did: `a` and `r` became `b` and `s`.
pub open spec fn applied(
    a: App,
    r: UiRuntime,
    response: AgentResponse,
    facts: ResponseFacts,
    b: App,
    s: UiRuntime,
) -> bool {
    match response {
        AgentResponse::Turn { session_id, event } => turn_applied(
            a,
            r,
            goes_aside(r, session_id@),
            event,
            facts,
            b,
            s,
        ),
        AgentResponse::ParentStatus(status) => b == a && s == (UiRuntime {
            parent_status: status,
            ..r
        }),
        AgentResponse::SideViewOpened { side_id } => {
            &&& b == a
            &&& s.side_messages@ == Seq::<TranscriptMessage>::empty()
            &&& s == (UiRuntime {
                side_id: Some(side_id),
                side_messages: s.side_messages,
                side_view_signal: Some(SideViewSignal::Opened { side_id }),
                ..r
            })
        },
        AgentResponse::SideViewClosed => b == a && s == (UiRuntime {
            side_id: None,
            side_view_signal: Some(SideViewSignal::Closed),
            ..r
        }),
        AgentResponse::PermissionsCleared => {
            &&& b == a
            &&& s.pending_permission@ == Seq::<PermissionRequest>::empty()
            &&& s.activity_status@ == Seq::<char>::empty()
            &&& s == (UiRuntime {
                pending_permission: s.pending_permission,
                activity_status: s.activity_status,
                ..r
            })
        },
        AgentResponse::ProviderKeys(status) => {
            &&& b == (App { picker: Picker { key_status: status, ..a.picker }, ..a })
            &&& s == r
        },
        AgentResponse::ProviderPicker(snapshot) => {
            &&& b == (App { picker: Picker { provider_picker: snapshot, ..a.picker }, ..a })
            &&& s == r
        },
        AgentResponse::ConversationCleared => {
            &&& b == a
            &&& s.messages@ == Seq::<TranscriptMessage>::empty()
            &&& s == (UiRuntime { messages: s.messages, ..r })
        },
        AgentResponse::ConversationReplaced(messages) => b == a && s == (UiRuntime {
            messages,
            ..r
        }),
        AgentResponse::SessionsOverview(list) => {
            &&& b == (App { session: SessionMirror { sessions_overview: list, ..a.session }, ..a })
            &&& s == (UiRuntime { open_sessions: true, ..r })
        },
        AgentResponse::SessionContext(snapshot) => {
            &&& b == (App {
                session: SessionMirror { session_context: Some(snapshot), ..a.session },
                ..a
            })
            &&& s == r
        },
        AgentResponse::Exit => b == (App { should_quit: true, ..a }) && s == r,
        AgentResponse::ProviderSwitched { provider, model } => {
            &&& b == (App {
                session: SessionMirror {
                    current_provider: provider,
                    current_model: model,
                    ..a.session
                },
                ..a
            })
            &&& noticed(
                r.messages@,
                NoticeSeverity::Info,
                switched_text(provider@, model@),
                s.messages@,
            )
            &&& s == (UiRuntime { messages: s.messages, ..r })
        },
        AgentResponse::Error(text) => {
            &&& b == a
            &&& noticed(r.messages@, NoticeSeverity::Error, text@, s.messages@)
            &&& s == (UiRuntime { messages: s.messages, ..r })
        },
    }
}

fn switch_provider(app: &mut App, runtime: &mut UiRuntime, provider: String, model: String)
    ensures
        applied(
            *old(app),
            *old(runtime),
            AgentResponse::ProviderSwitched { provider, model },
            ResponseFacts { now: 0, thinking_expanded: false, success_expanded: false },
            *final(app),
            *final(runtime),
        ),
{
    let mut text: String = "Provider switched to ".to_owned();
    text.append(provider.as_str());
    text.append(" (");
    text.append(model.as_str());
    text.append(")");
    push_local_notice(&mut runtime.messages, NoticeSeverity::Info, text);
    app.session.current_provider = provider;
    app.session.current_model = model;
}

/// Takes a response of the agent in.
pub fn apply_response(
    app: &mut App,
    runtime: &mut UiRuntime,
    response: AgentResponse,
    facts: ResponseFacts,
)
    requires
        response matches AgentResponse::Turn { event, .. } ==> turn_fits(event),
    ensures
        applied(*old(app), *old(runtime), response, facts, *final(app), *final(runtime)),
{
    match response {
        AgentResponse::Turn { session_id, event } => {
            let side: bool = is_aside(runtime, session_id.as_str());
            apply_turn(app, runtime, side, event, facts);
        },
        AgentResponse::ParentStatus(status) => {
            runtime.parent_status = status;
        },
        AgentResponse::SideViewOpened { side_id } => {
            runtime.side_id = Some(side_id.clone());
            runtime.side_messages = Vec::new();
            runtime.side_view_signal = Some(SideViewSignal::Opened { side_id });
        },
        AgentResponse::SideViewClosed => {
            runtime.side_id = None;
            runtime.side_view_signal = Some(SideViewSignal::Closed);
        },
        AgentResponse::PermissionsCleared => {
            runtime.pending_permission = VecDeque::new();
            runtime.activity_status = String::new();
        },
        AgentResponse::ProviderKeys(status) => {
            app.picker.key_status = status;
        },
        AgentResponse::ProviderPicker(snapshot) => {
            app.picker.provider_picker = snapshot;
        },
        AgentResponse::ConversationCleared => {
            runtime.messages = Vec::new();
        },
        AgentResponse::ConversationReplaced(messages) => {
            runtime.messages = messages;
        },
        AgentResponse::SessionsOverview(list) => {
            app.session.sessions_overview = list;
            runtime.open_sessions = true;
        },
        AgentResponse::SessionContext(snapshot) => {
            app.session.session_context = Some(snapshot);
        },
        AgentResponse::Exit => {
            app.should_quit = true;
        },
        AgentResponse::ProviderSwitched { provider, model } => switch_provider(
            app,
            runtime,
            provider,
            model,
        ),
        AgentResponse::Error(text) => push_local_notice(
            &mut runtime.messages,
            NoticeSeverity::Error,
            text,
        ),
    }
}

} // verus!
