//! What the agent's responses are for: what each one shows, and where.
use crate::agent::HarnessSnapshot;
use crate::agent::PermissionRequest;
use crate::agent::Pursuit;
use crate::agent::UserQuestionRequest;
use crate::app::App;
use crate::document::DeliveryStatus;
use crate::document::MessageKind;
use crate::document::NoticeSeverity;
use crate::document::Role;
use crate::document::Thinking;
use crate::document::ToolStep;
use crate::document::ToolStepStatus;
use crate::document::TranscriptMessage;
use crate::event_loop::SideViewSignal;
use crate::event_loop::UiRuntime;
use crate::listener::applied;
use crate::listener::transcript::call_index;
use crate::listener::transcript::lemma_call_index;
use crate::listener::transcript::CallResult;
use crate::listener::turn::buffer;
use crate::listener::turn::turn_applied;
use crate::listener::AgentResponse;
use crate::listener::EnvoyEvent;
use crate::listener::ResponseFacts;
use crate::listener::TurnEvent;
use vstd::prelude::*;

verus! {

/// The step in a message.
pub open spec fn step_in(message: TranscriptMessage) -> ToolStep {
    message.kind->ToolStep_0
}

/// The trace in a message.
pub open spec fn trace_in(message: TranscriptMessage) -> Thinking {
    message.kind->Thinking_0
}

/// Whether a message is the call `id`.
pub open spec fn shows_call(message: TranscriptMessage, id: Seq<char>) -> bool {
    message.kind is ToolStep && step_in(message).id@ == id
}

/// Whether a message is the call `id` while it runs.
pub open spec fn shows_running(message: TranscriptMessage, id: Seq<char>) -> bool {
    shows_call(message, id) && step_in(message).status == ToolStepStatus::Running
}

/// Whether the `i`th message, and no other, is the call `id` while it runs.
pub open spec fn runs_at(messages: Seq<TranscriptMessage>, id: Seq<char>, i: int) -> bool {
    &&& 0 <= i < messages.len()
    &&& forall|k: int|
        0 <= k < messages.len() ==> (shows_running(#[trigger] messages[k], id) <==> k == i)
}

/// Whether no message is the call `id` while it runs.
pub open spec fn runs_nowhere(messages: Seq<TranscriptMessage>, id: Seq<char>) -> bool {
    forall|k: int| 0 <= k < messages.len() ==> !shows_running(#[trigger] messages[k], id)
}

/// Whether only the `i`th message may differ.
pub open spec fn only_at(
    before: Seq<TranscriptMessage>,
    after: Seq<TranscriptMessage>,
    i: int,
) -> bool {
    &&& after.len() == before.len()
    &&& forall|k: int| 0 <= k < before.len() && k != i ==> #[trigger] after[k] == before[k]
}

/// Whether one message was added behind the others.
pub open spec fn one_added(before: Seq<TranscriptMessage>, after: Seq<TranscriptMessage>) -> bool {
    &&& after.len() == before.len() + 1
    &&& forall|k: int| 0 <= k < before.len() ==> #[trigger] after[k] == before[k]
}

proof fn lemma_one_added(before: Seq<TranscriptMessage>, after: Seq<TranscriptMessage>)
    requires
        after.len() == before.len() + 1,
        after.drop_last() == before,
    ensures
        one_added(before, after),
{
    assert forall|k: int| 0 <= k < before.len() implies #[trigger] after[k] == before[k] by {
        assert(after.drop_last()[k] == after[k]);
    }
}

proof fn lemma_runs_at(messages: Seq<TranscriptMessage>, id: Seq<char>, i: int)
    requires
        runs_at(messages, id, i),
    ensures
        call_index(messages, id, true) == Some(i),
{
    lemma_call_index(messages, id, true);
    assert(shows_running(messages[i], id));
    if let Some(k) = call_index(messages, id, true) {
        assert(shows_running(messages[k], id));
    }
}

proof fn lemma_runs_nowhere(messages: Seq<TranscriptMessage>, id: Seq<char>)
    requires
        runs_nowhere(messages, id),
    ensures
        call_index(messages, id, true) is None,
{
    lemma_call_index(messages, id, true);
    if let Some(k) = call_index(messages, id, true) {
        assert(shows_running(messages[k], id));
    }
}

/// Live output goes behind the output that the running call shows already, and
/// nothing else of the transcript changes.
pub proof fn law_live_output_accumulates(
    a: App,
    r: UiRuntime,
    side: bool,
    id: String,
    chunk: String,
    facts: ResponseFacts,
    i: int,
    b: App,
    s: UiRuntime,
)
    requires
        turn_applied(a, r, side, TurnEvent::ToolStream { id, chunk }, facts, b, s),
        runs_at(buffer(r, side), id@, i),
    ensures
        only_at(buffer(r, side), buffer(s, side), i),
        runs_at(buffer(s, side), id@, i),
        step_in(buffer(s, side)[i]).output@ == step_in(buffer(r, side)[i]).output@ + chunk@,
        step_in(buffer(s, side)[i]).name == step_in(buffer(r, side)[i]).name,
        step_in(buffer(s, side)[i]).arguments == step_in(buffer(r, side)[i]).arguments,
        step_in(buffer(s, side)[i]).children == step_in(buffer(r, side)[i]).children,
        step_in(buffer(s, side)[i]).expanded == step_in(buffer(r, side)[i]).expanded,
        b == a,
{
    let before = buffer(r, side);
    let after = buffer(s, side);
    lemma_runs_at(before, id@, i);
    assert(shows_running(before[i], id@));
    assert forall|k: int| 0 <= k < after.len() implies (shows_running(#[trigger] after[k], id@)
        <==> k == i) by {
        if k != i {
            assert(after[k] == before[k]);
            assert(!shows_running(before[k], id@));
        }
    }
}

/// Two chunks of live output add up: they leave the same output as both at once,
/// in every message.
pub proof fn law_live_output_adds_up(
    a: App,
    r: UiRuntime,
    side: bool,
    id: String,
    first: String,
    second: String,
    both: String,
    facts: ResponseFacts,
    b: App,
    s: UiRuntime,
    c: App,
    t: UiRuntime,
    d: App,
    u: UiRuntime,
)
    requires
        both@ == first@ + second@,
        turn_applied(a, r, side, TurnEvent::ToolStream { id, chunk: first }, facts, b, s),
        turn_applied(b, s, side, TurnEvent::ToolStream { id, chunk: second }, facts, c, t),
        turn_applied(a, r, side, TurnEvent::ToolStream { id, chunk: both }, facts, d, u),
    ensures
        buffer(t, side).len() == buffer(u, side).len(),
        forall|k: int|
            #![trigger buffer(t, side)[k]]
            #![trigger buffer(u, side)[k]]
            0 <= k < buffer(t, side).len() && buffer(u, side)[k].kind is ToolStep ==> buffer(
                t,
                side,
            )[k].kind is ToolStep && step_in(buffer(t, side)[k]).output@ == step_in(
                buffer(u, side)[k],
            ).output@,
        forall|k: int|
            #![trigger buffer(s, side)[k]]
            0 <= k < buffer(r, side).len() && buffer(r, side)[k].kind is ToolStep ==> buffer(
                s,
                side,
            )[k].kind is ToolStep && step_in(buffer(r, side)[k]).output@.is_prefix_of(
                step_in(buffer(s, side)[k]).output@,
            ),
{
    let x = buffer(r, side);
    let y = buffer(s, side);
    lemma_call_index(x, id@, true);
    match call_index(x, id@, true) {
        Some(i) => {
            lemma_call_index(y, id@, true);
            assert forall|k: int| 0 <= k < i implies !crate::listener::transcript::is_call(
                #[trigger] y[k],
                id@,
                true,
            ) by {
                assert(y[k] == x[k]);
            }
            assert(crate::listener::transcript::is_call(y[i], id@, true));
            assert(call_index(y, id@, true) == Some(i));
            assert(step_in(x[i]).output@ + (first@ + second@) =~= step_in(x[i]).output@ + first@
                + second@);
            assert forall|k: int|
                #![trigger y[k]]
                0 <= k < x.len() && x[k].kind is ToolStep implies y[k].kind is ToolStep && step_in(
                x[k],
            ).output@.is_prefix_of(step_in(y[k]).output@) by {
                if k != i {
                    assert(y[k] == x[k]);
                }
            }
        },
        None => {},
    }
}

/// Live output of a call that does not run shows nowhere.
pub proof fn law_stray_output_is_dropped(
    a: App,
    r: UiRuntime,
    side: bool,
    id: String,
    chunk: String,
    facts: ResponseFacts,
    b: App,
    s: UiRuntime,
)
    requires
        turn_applied(a, r, side, TurnEvent::ToolStream { id, chunk }, facts, b, s),
        runs_nowhere(buffer(r, side), id@),
    ensures
        buffer(s, side) == buffer(r, side),
{
    lemma_runs_nowhere(buffer(r, side), id@);
}

/// A call shows as a running step behind everything else, with what it was
/// called with and no output yet, and the client is busy.
pub proof fn law_call_is_shown(
    a: App,
    r: UiRuntime,
    side: bool,
    id: String,
    name: String,
    arguments: String,
    facts: ResponseFacts,
    b: App,
    s: UiRuntime,
)
    requires
        turn_applied(a, r, side, TurnEvent::ToolCall { id, name, arguments }, facts, b, s),
    ensures
        one_added(buffer(r, side), buffer(s, side)),
        shows_running(buffer(s, side).last(), id@),
        buffer(s, side).last().role == Role::Tool,
        step_in(buffer(s, side).last()).name@ == name@,
        step_in(buffer(s, side).last()).arguments@ == arguments@,
        step_in(buffer(s, side).last()).output@.len() == 0,
        step_in(buffer(s, side).last()).children is None,
        !step_in(buffer(s, side).last()).expanded,
        buffer(s, side).last().provider == a.session.current_provider,
        buffer(s, side).last().model == a.session.current_model,
        !side ==> s.is_responding,
        runs_nowhere(buffer(r, side), id@) ==> runs_at(
            buffer(s, side),
            id@,
            buffer(r, side).len() as int,
        ),
{
    lemma_one_added(buffer(r, side), buffer(s, side));
    if runs_nowhere(buffer(r, side), id@) {
        assert forall|k: int| 0 <= k < buffer(s, side).len() implies (shows_running(
            #[trigger] buffer(s, side)[k],
            id@,
        ) <==> k == buffer(r, side).len()) by {
            if k < buffer(r, side).len() {
                assert(buffer(s, side)[k] == buffer(r, side)[k]);
                assert(!shows_running(buffer(r, side)[k], id@));
            }
        }
    }
}

/// A result ends the running call: it shows the result's output, outcome and
/// duration in place of the live output, and nothing else changes. A failure is
/// unfolded, unless the user chose otherwise.
pub proof fn law_result_ends_call(
    a: App,
    r: UiRuntime,
    side: bool,
    result: CallResult,
    facts: ResponseFacts,
    i: int,
    b: App,
    s: UiRuntime,
)
    requires
        turn_applied(a, r, side, TurnEvent::ToolResult(result), facts, b, s),
        runs_at(buffer(r, side), result.id@, i),
    ensures
        ({
            let old_step = step_in(buffer(r, side)[i]);
            let new_step = step_in(buffer(s, side)[i]);
            &&& only_at(buffer(r, side), buffer(s, side), i)
            &&& shows_call(buffer(s, side)[i], result.id@)
            &&& new_step.output == result.output
            &&& new_step.status == result.status
            &&& new_step.duration_ms == result.duration_ms
            &&& new_step.name == old_step.name
            &&& new_step.arguments == old_step.arguments
            &&& new_step.children == old_step.children
            &&& new_step.pinned == old_step.pinned
            &&& old_step.pinned ==> new_step.expanded == old_step.expanded
            &&& !old_step.pinned && (result.status == ToolStepStatus::Failed || result.status
                == ToolStepStatus::Denied) ==> new_step.expanded
            &&& !old_step.pinned && result.status == ToolStepStatus::Cancelled
                ==> !new_step.expanded
            &&& !old_step.pinned && result.status == ToolStepStatus::Succeeded
                ==> new_step.expanded == facts.success_expanded
        }),
        result.status != ToolStepStatus::Running ==> runs_nowhere(buffer(s, side), result.id@),
{
    let before = buffer(r, side);
    let after = buffer(s, side);
    lemma_runs_at(before, result.id@, i);
    assert(shows_running(before[i], result.id@));
    if result.status != ToolStepStatus::Running {
        assert forall|k: int| 0 <= k < after.len() implies !shows_running(
            #[trigger] after[k],
            result.id@,
        ) by {
            if k != i {
                assert(after[k] == before[k]);
                assert(!shows_running(before[k], result.id@));
            }
        }
    }
}

/// A result whose call does not run is shown as a step of its own.
pub proof fn law_stray_result_is_shown(
    a: App,
    r: UiRuntime,
    side: bool,
    result: CallResult,
    facts: ResponseFacts,
    b: App,
    s: UiRuntime,
)
    requires
        turn_applied(a, r, side, TurnEvent::ToolResult(result), facts, b, s),
        runs_nowhere(buffer(r, side), result.id@),
    ensures
        one_added(buffer(r, side), buffer(s, side)),
        shows_call(buffer(s, side).last(), result.id@),
        step_in(buffer(s, side).last()).name@ == result.name@,
        step_in(buffer(s, side).last()).output == result.output,
        step_in(buffer(s, side).last()).status == result.status,
        step_in(buffer(s, side).last()).duration_ms == result.duration_ms,
{
    lemma_runs_nowhere(buffer(r, side), result.id@);
}

/// A cancelled call stops and folds, unless the user unfolded it; what it showed
/// stays.
pub proof fn law_cancel_stops_call(
    a: App,
    r: UiRuntime,
    side: bool,
    id: String,
    facts: ResponseFacts,
    i: int,
    b: App,
    s: UiRuntime,
)
    requires
        turn_applied(a, r, side, TurnEvent::ToolCancelled { id }, facts, b, s),
        runs_at(buffer(r, side), id@, i),
    ensures
        ({
            let old_step = step_in(buffer(r, side)[i]);
            let new_step = step_in(buffer(s, side)[i]);
            &&& only_at(buffer(r, side), buffer(s, side), i)
            &&& shows_call(buffer(s, side)[i], id@)
            &&& new_step.status == ToolStepStatus::Cancelled
            &&& new_step.output == old_step.output
            &&& new_step.name == old_step.name
            &&& old_step.pinned ==> new_step.expanded == old_step.expanded
            &&& !old_step.pinned ==> !new_step.expanded
            &&& new_step.children is Some == old_step.children is Some
            &&& new_step.children is Some ==> new_step.children->Some_0@.len()
                == old_step.children->Some_0@.len() && forall|k: int|
                0 <= k < new_step.children->Some_0@.len() && (
                #[trigger] new_step.children->Some_0@[k]).kind is ToolStep ==> step_in(
                    new_step.children->Some_0@[k],
                ).status != ToolStepStatus::Running
        }),
{
    let before = buffer(r, side);
    let after = buffer(s, side);
    lemma_runs_at(before, id@, i);
    assert(shows_running(before[i], id@));
    let mid = choose|mid: TranscriptMessage| #[trigger]
        crate::listener::transcript::stopped(before[i], mid) && after[i]
            == mid.with_default_disclosure(false);
    assert(mid.kind is ToolStep);
    let old_step = step_in(before[i]);
    let new_step = step_in(after[i]);
    assert(new_step.children == step_in(mid).children);
    if let (Some(x), Some(y)) = (old_step.children, new_step.children) {
        assert(crate::listener::transcript::all_stopped(x@, y@));
        assert forall|k: int| 0 <= k < y@.len() && (#[trigger] y@[k]).kind is ToolStep implies step_in(
            y@[k],
        ).status != ToolStepStatus::Running by {
            assert(crate::listener::transcript::stopped(x@[k], y@[k]));
        }
    }
}

/// A streamed answer grows at the end of the transcript: after a start and two
/// pieces it is both pieces, one behind the other, and the older messages stay.
pub proof fn law_streamed_answer_grows(
    a: App,
    r: UiRuntime,
    side: bool,
    first: String,
    second: String,
    facts: ResponseFacts,
    b: App,
    s: UiRuntime,
    c: App,
    t: UiRuntime,
    d: App,
    u: UiRuntime,
)
    requires
        turn_applied(a, r, side, TurnEvent::StreamStart, facts, b, s),
        turn_applied(b, s, side, TurnEvent::StreamDelta(first), facts, c, t),
        turn_applied(c, t, side, TurnEvent::StreamDelta(second), facts, d, u),
    ensures
        one_added(buffer(r, side), buffer(u, side)),
        buffer(u, side).last().raw@ == first@ + second@,
        buffer(u, side).last().role == Role::Assistant,
        buffer(u, side).last().kind is Text,
        buffer(u, side).last().provider == a.session.current_provider,
        buffer(u, side).last().model == a.session.current_model,
        !side ==> u.is_responding,
{
    lemma_one_added(buffer(r, side), buffer(s, side));
    assert(buffer(u, side).last().raw@ =~= first@ + second@);
    assert(buffer(u, side).drop_last() == buffer(r, side));
    lemma_one_added(buffer(r, side), buffer(u, side));
}

/// The end of a streamed answer fixes its text, whatever was streamed, and a
/// discarded answer leaves the transcript as it was before the answer began.
pub proof fn law_streamed_answer_ends(
    a: App,
    r: UiRuntime,
    side: bool,
    piece: String,
    text: String,
    facts: ResponseFacts,
    b: App,
    s: UiRuntime,
    c: App,
    t: UiRuntime,
    d: App,
    u: UiRuntime,
    e: App,
    v: UiRuntime,
)
    requires
        turn_applied(a, r, side, TurnEvent::StreamStart, facts, b, s),
        turn_applied(b, s, side, TurnEvent::StreamDelta(piece), facts, c, t),
        turn_applied(c, t, side, TurnEvent::StreamEnd(text), facts, d, u),
        turn_applied(c, t, side, TurnEvent::StreamDiscard, facts, e, v),
    ensures
        one_added(buffer(r, side), buffer(u, side)),
        buffer(u, side).last().raw == text,
        buffer(u, side).last().role == Role::Assistant,
        buffer(v, side) == buffer(r, side),
{
    assert(buffer(t, side).drop_last() == buffer(r, side));
    assert(buffer(u, side).drop_last() =~= buffer(r, side));
    lemma_one_added(buffer(r, side), buffer(u, side));
}

/// A whole answer is shown behind everything else, and the turn is over.
pub proof fn law_whole_answer_is_shown(
    a: App,
    r: UiRuntime,
    side: bool,
    text: String,
    facts: ResponseFacts,
    b: App,
    s: UiRuntime,
)
    requires
        turn_applied(a, r, side, TurnEvent::Text(text), facts, b, s),
    ensures
        one_added(buffer(r, side), buffer(s, side)),
        buffer(s, side).last().raw@ == text@,
        buffer(s, side).last().role == Role::Assistant,
        buffer(s, side).last().kind is Text,
        !side ==> !s.is_responding && s.activity_status@.len() == 0,
{
    lemma_one_added(buffer(r, side), buffer(s, side));
}

/// Reasoning grows in one trace: the first piece begins it, the next goes behind
/// it, and the end fixes its text and says how long it took.
pub proof fn law_reasoning_grows_and_ends(
    a: App,
    r: UiRuntime,
    side: bool,
    first: String,
    second: String,
    content: String,
    begun: ResponseFacts,
    going: ResponseFacts,
    ended: ResponseFacts,
    b: App,
    s: UiRuntime,
    c: App,
    t: UiRuntime,
    d: App,
    u: UiRuntime,
)
    requires
        buffer(r, side).len() == 0 || (buffer(r, side).last().role != Role::Assistant && !(buffer(
            r,
            side,
        ).last().kind is Thinking)),
        turn_applied(a, r, side, TurnEvent::StreamReasoningDelta(first), begun, b, s),
        turn_applied(b, s, side, TurnEvent::StreamReasoningDelta(second), going, c, t),
        turn_applied(c, t, side, TurnEvent::StreamReasoningEnd(content), ended, d, u),
        begun.now <= ended.now,
    ensures
        one_added(buffer(r, side), buffer(s, side)),
        trace_in(buffer(s, side).last()).content@ == first@,
        trace_in(buffer(s, side).last()).expanded == begun.thinking_expanded,
        one_added(buffer(r, side), buffer(t, side)),
        buffer(t, side).last().kind is Thinking,
        trace_in(buffer(t, side).last()).content@ == first@ + second@,
        trace_in(buffer(t, side).last()).duration_ms is None,
        one_added(buffer(r, side), buffer(u, side)),
        buffer(u, side).last().kind is Thinking,
        trace_in(buffer(u, side).last()).content == content,
        trace_in(buffer(u, side).last()).duration_ms == Some((ended.now - begun.now) as u64),
        trace_in(buffer(u, side).last()).expanded == begun.thinking_expanded,
        u.reasoning_start is None,
{
    lemma_one_added(buffer(r, side), buffer(s, side));
    assert(buffer(t, side).drop_last() == buffer(r, side));
    lemma_one_added(buffer(r, side), buffer(t, side));
    assert(buffer(u, side).drop_last() =~= buffer(r, side));
    lemma_one_added(buffer(r, side), buffer(u, side));
}

/// Reasoning takes the place of the empty answer that a turn begins with.
pub proof fn law_reasoning_replaces_placeholder(
    a: App,
    r: UiRuntime,
    side: bool,
    delta: String,
    facts: ResponseFacts,
    b: App,
    s: UiRuntime,
    c: App,
    t: UiRuntime,
)
    requires
        turn_applied(a, r, side, TurnEvent::StreamStart, facts, b, s),
        turn_applied(b, s, side, TurnEvent::StreamReasoningDelta(delta), facts, c, t),
    ensures
        one_added(buffer(r, side), buffer(t, side)),
        buffer(t, side).last().kind is Thinking,
        trace_in(buffer(t, side).last()).content@ == delta@,
{
    lemma_one_added(buffer(r, side), buffer(t, side));
}

/// An envoy's message shows inside the call that started the envoy, behind the
/// ones it showed before, and nowhere else.
pub proof fn law_envoy_entry_shows_in_its_call(
    a: App,
    r: UiRuntime,
    side: bool,
    parent_call_id: String,
    entry: TranscriptMessage,
    facts: ResponseFacts,
    i: int,
    b: App,
    s: UiRuntime,
)
    requires
        turn_applied(
            a,
            r,
            side,
            TurnEvent::Envoy { parent_call_id, event: EnvoyEvent::Entry(entry) },
            facts,
            b,
            s,
        ),
        0 <= i < buffer(r, side).len(),
        forall|k: int|
            0 <= k < buffer(r, side).len() ==> (shows_call(
                #[trigger] buffer(r, side)[k],
                parent_call_id@,
            ) <==> k == i),
    ensures
        only_at(buffer(r, side), buffer(s, side), i),
        shows_call(buffer(s, side)[i], parent_call_id@),
        step_in(buffer(s, side)[i]).children is Some,
        step_in(buffer(s, side)[i]).children->Some_0@.last() == entry,
        step_in(buffer(r, side)[i]).children is Some ==> step_in(
            buffer(s, side)[i],
        ).children->Some_0@.drop_last() == step_in(buffer(r, side)[i]).children->Some_0@,
        step_in(buffer(r, side)[i]).children is None ==> step_in(
            buffer(s, side)[i],
        ).children->Some_0@.len() == 1,
        step_in(buffer(s, side)[i]).output == step_in(buffer(r, side)[i]).output,
        step_in(buffer(s, side)[i]).status == step_in(buffer(r, side)[i]).status,
{
    let before = buffer(r, side);
    let after = buffer(s, side);
    lemma_call_index(before, parent_call_id@, false);
    assert(shows_call(before[i], parent_call_id@));
    if let Some(k) = call_index(before, parent_call_id@, false) {
        assert(shows_call(before[k], parent_call_id@));
    }
    let grown = before[i].child_seq().push(entry);
    assert(after[i].child_seq() == grown);
    assert(grown.drop_last() =~= before[i].child_seq());
    assert(grown.len() > 0);
}

/// A request of an envoy or of the turn itself waits behind those that came
/// before it, and the client says that it waits.
pub proof fn law_requests_wait_in_order(
    a: App,
    r: UiRuntime,
    side: bool,
    request: PermissionRequest,
    question: UserQuestionRequest,
    parent: String,
    facts: ResponseFacts,
    b: App,
    s: UiRuntime,
)
    ensures
        turn_applied(a, r, side, TurnEvent::PermissionRequest(request), facts, b, s)
            || turn_applied(
            a,
            r,
            side,
            TurnEvent::Envoy {
                parent_call_id: parent,
                event: EnvoyEvent::PermissionRequest(request),
            },
            facts,
            b,
            s,
        ) ==> {
            &&& s.pending_permission@ == r.pending_permission@.push(request)
            &&& s.pending_question == r.pending_question
            &&& s.messages == r.messages
            &&& !side ==> s.is_responding && s.activity_status@ == "awaiting permission"@
        },
        turn_applied(a, r, side, TurnEvent::UserQuestionRequest(question), facts, b, s)
            || turn_applied(
            a,
            r,
            side,
            TurnEvent::Envoy {
                parent_call_id: parent,
                event: EnvoyEvent::UserQuestionRequest(question),
            },
            facts,
            b,
            s,
        ) ==> {
            &&& s.pending_question@ == r.pending_question@.push(question)
            &&& s.pending_permission == r.pending_permission
            &&& s.messages == r.messages
            &&& !side ==> s.is_responding && s.activity_status@ == "awaiting user input"@
        },
{
}

/// Notices and errors are shown as they are, behind everything else, with their
/// severity; an error also ends the turn.
pub proof fn law_notices_are_shown(
    a: App,
    r: UiRuntime,
    side: bool,
    severity: NoticeSeverity,
    text: String,
    facts: ResponseFacts,
    b: App,
    s: UiRuntime,
)
    ensures
        turn_applied(a, r, side, TurnEvent::Notice { severity, text }, facts, b, s) ==> {
            let shown = buffer(s, side).last();
            &&& one_added(buffer(r, side), buffer(s, side))
            &&& shown.raw@ == text@
            &&& shown.role == Role::System
            &&& shown.kind == MessageKind::Notice(severity)
            &&& shown.delivery == DeliveryStatus::Delivered
            &&& s.is_responding == r.is_responding
        },
        turn_applied(a, r, side, TurnEvent::Error(text), facts, b, s) ==> {
            let shown = buffer(s, side).last();
            &&& one_added(buffer(r, side), buffer(s, side))
            &&& shown.raw@ == text@
            &&& shown.kind == MessageKind::Notice(NoticeSeverity::Error)
            &&& !side ==> !s.is_responding && s.activity_status@.len() == 0
        },
{
    if turn_applied(a, r, side, TurnEvent::Notice { severity, text }, facts, b, s)
        || turn_applied(a, r, side, TurnEvent::Error(text), facts, b, s) {
        lemma_one_added(buffer(r, side), buffer(s, side));
    }
}

/// What the agent says it does is what the status shows; rounds are shown
/// counted from one.
pub proof fn law_status_follows_agent(
    a: App,
    r: UiRuntime,
    status: String,
    round: u64,
    facts: ResponseFacts,
    b: App,
    s: UiRuntime,
)
    ensures
        turn_applied(a, r, false, TurnEvent::Activity(status), facts, b, s)
            ==> s.activity_status@ == status@ && s.is_responding && s.messages == r.messages,
        round < u64::MAX && turn_applied(
            a,
            r,
            false,
            TurnEvent::RoundStarted { round },
            facts,
            b,
            s,
        ) ==> b.session.current_turn == round + 1 && s == r,
{
}

/// A turn that begins is counted, clears the alert and starts the clock; one that
/// ends stops the clock and keeps the count.
pub proof fn law_turn_begins_and_ends(
    a: App,
    r: UiRuntime,
    snapshot: HarnessSnapshot,
    facts: ResponseFacts,
    b: App,
    s: UiRuntime,
)
    requires
        turn_applied(a, r, false, TurnEvent::HarnessState(snapshot), facts, b, s),
    ensures
        b.session.loop_status == snapshot.loop_status,
        b.session.current_pursuit == snapshot.pursuit,
        b.session.unattended == snapshot.unattended,
        b.session.review_alert@.len() == 0,
        b.session.current_turn == 0,
        s.messages@.len() == r.messages@.len(),
        snapshot.loop_status@ == "idle"@ ==> {
            &&& !s.is_responding
            &&& s.turn_started_at is None
            &&& s.activity_status@.len() == 0
            &&& b.session.round_count == a.session.round_count
        },
        snapshot.loop_status@ != "idle"@ ==> {
            &&& s.is_responding
            &&& s.turn_started_at == Some(facts.now)
            &&& s.activity_status == r.activity_status
            &&& a.session.round_count < u64::MAX ==> b.session.round_count
                == a.session.round_count + 1
        },
        forall|k: int|
            0 <= k < r.messages@.len() && !((#[trigger] r.messages@[k]).kind is Thinking)
                ==> s.messages@[k] == r.messages@[k],
        forall|k: int|
            0 <= k < r.messages@.len() && (#[trigger] r.messages@[k]).kind is Thinking
                ==> s.messages@[k].kind is Thinking && trace_in(s.messages@[k]).content == trace_in(
                r.messages@[k],
            ).content && trace_in(s.messages@[k]).duration_ms is Some && (trace_in(
                r.messages@[k],
            ).duration_ms is Some ==> s.messages@[k] == r.messages@[k]),
{
}

/// What the agent reports about the session is what the client shows of it.
pub proof fn law_session_facts_are_mirrored(
    a: App,
    r: UiRuntime,
    pursuit: Pursuit,
    todos: crate::agent::TodoList,
    enabled: bool,
    alert: String,
    facts: ResponseFacts,
    b: App,
    s: UiRuntime,
)
    ensures
        turn_applied(a, r, false, TurnEvent::PursuitUpdated(pursuit), facts, b, s)
            ==> b.session.current_pursuit == Some(pursuit),
        turn_applied(a, r, false, TurnEvent::PursuitCleared, facts, b, s)
            ==> b.session.current_pursuit is None && s == r,
        turn_applied(a, r, false, TurnEvent::TodosUpdated(todos), facts, b, s)
            ==> b.session.todos == Some(todos) && s == r,
        turn_applied(a, r, false, TurnEvent::UnattendedChanged(enabled), facts, b, s)
            ==> b.session.unattended == enabled && s == r,
        turn_applied(a, r, false, TurnEvent::SessionReview { alert }, facts, b, s)
            ==> b.session.review_alert == alert && s == r,
{
}

/// A goal that is reached or replaced is announced with its own words.
pub proof fn law_goal_changes_are_announced(
    a: App,
    r: UiRuntime,
    pursuit: Pursuit,
    facts: ResponseFacts,
    b: App,
    s: UiRuntime,
)
    requires
        turn_applied(a, r, false, TurnEvent::PursuitUpdated(pursuit), facts, b, s),
    ensures
        pursuit.is_complete && !(a.session.current_pursuit matches Some(p) && p.is_complete)
            ==> one_added(r.messages@, s.messages@) && s.messages@.last().raw@
            == "✓ pursuit complete"@ + " · "@ + pursuit.objective@,
        !pursuit.is_complete && (a.session.current_pursuit matches Some(p) && p.objective@
            != pursuit.objective@) ==> one_added(r.messages@, s.messages@)
            && s.messages@.last().raw@ == "pursue"@ + " · "@ + pursuit.objective@,
        a.session.current_pursuit is None && !pursuit.is_complete ==> s == r,
{
    if s.messages@.len() == r.messages@.len() + 1 {
        lemma_one_added(r.messages@, s.messages@);
    }
}

/// An event goes to the side conversation exactly when its session is the open
/// side session.
pub proof fn law_events_go_to_their_session(
    a: App,
    r: UiRuntime,
    session_id: String,
    text: String,
    facts: ResponseFacts,
    b: App,
    s: UiRuntime,
)
    requires
        applied(
            a,
            r,
            AgentResponse::Turn { session_id, event: TurnEvent::Text(text) },
            facts,
            b,
            s,
        ),
    ensures
        (r.side_id matches Some(id) && id@ == session_id@) ==> s.messages == r.messages
            && one_added(r.side_messages@, s.side_messages@) && s.side_messages@.last().raw@
            == text@,
        !(r.side_id matches Some(id) && id@ == session_id@) ==> s.side_messages == r.side_messages
            && one_added(r.messages@, s.messages@) && s.messages@.last().raw@ == text@,
{
    let side = crate::listener::goes_aside(r, session_id@);
    lemma_one_added(buffer(r, side), buffer(s, side));
}

/// What the other responses are for.
pub proof fn law_responses(
    a: App,
    r: UiRuntime,
    response: AgentResponse,
    facts: ResponseFacts,
    b: App,
    s: UiRuntime,
)
    requires
        applied(a, r, response, facts, b, s),
    ensures
        match response {
            AgentResponse::Turn { .. } => true,
            AgentResponse::ParentStatus(status) => s.parent_status == status && b == a,
            AgentResponse::SideViewOpened { side_id } => {
                &&& s.side_id == Some(side_id)
                &&& s.side_messages@.len() == 0
                &&& s.messages == r.messages
                &&& s.side_view_signal == Some(SideViewSignal::Opened { side_id })
            },
            AgentResponse::SideViewClosed => {
                &&& s.side_id is None
                &&& s.messages == r.messages
                &&& s.side_view_signal == Some(SideViewSignal::Closed)
            },
            AgentResponse::PermissionsCleared => {
                &&& s.pending_permission@.len() == 0
                &&& s.activity_status@.len() == 0
                &&& s.pending_question == r.pending_question
                &&& s.messages == r.messages
            },
            AgentResponse::ProviderKeys(status) => b.picker.key_status == status && s == r,
            AgentResponse::ProviderPicker(snapshot) => b.picker.provider_picker == snapshot && s
                == r,
            AgentResponse::ConversationCleared => s.messages@.len() == 0 && s.side_messages
                == r.side_messages && b == a,
            AgentResponse::ConversationReplaced(messages) => s.messages == messages
                && s.side_messages == r.side_messages && b == a,
            AgentResponse::SessionsOverview(list) => b.session.sessions_overview == list
                && s.open_sessions && s.messages == r.messages,
            AgentResponse::SessionContext(snapshot) => b.session.session_context == Some(snapshot)
                && s == r,
            AgentResponse::Exit => b.should_quit && s == r,
            AgentResponse::ProviderSwitched { provider, model } => {
                &&& b.session.current_provider == provider
                &&& b.session.current_model == model
                &&& one_added(r.messages@, s.messages@)
                &&& s.messages@.last().raw@ == "Provider switched to "@ + provider@ + " ("@
                    + model@ + ")"@
                &&& s.messages@.last().kind == MessageKind::Notice(NoticeSeverity::Info)
            },
            AgentResponse::Error(text) => {
                &&& b == a
                &&& one_added(r.messages@, s.messages@)
                &&& s.messages@.last().raw@ == text@
                &&& s.messages@.last().kind == MessageKind::Notice(NoticeSeverity::Error)
            },
        },
        !(response is Exit) ==> b.should_quit == a.should_quit,
        b.composer == a.composer,
        b.outbox == a.outbox,
{
    if response is ProviderSwitched || response is Error {
        lemma_one_added(r.messages@, s.messages@);
    }
}

/// What the user reads while the agent works, and whether a turn runs, after each
/// event of the session in front.
pub proof fn law_activity_after_events(
    a: App,
    r: UiRuntime,
    text: String,
    result: CallResult,
    permission: PermissionRequest,
    question: UserQuestionRequest,
    facts: ResponseFacts,
    b: App,
    s: UiRuntime,
)
    ensures
        turn_applied(a, r, false, TurnEvent::Text(text), facts, b, s)
            ==> s.activity_status@.len() == 0 && !s.is_responding,
        turn_applied(a, r, false, TurnEvent::StreamStart, facts, b, s) ==> s.activity_status@
            == "responding"@ && s.is_responding,
        turn_applied(a, r, false, TurnEvent::StreamDelta(text), facts, b, s) ==> s.activity_status
            == r.activity_status && s.is_responding == r.is_responding,
        turn_applied(a, r, false, TurnEvent::StreamEnd(text), facts, b, s) ==> s.activity_status@
            == "finalizing response"@ && s.is_responding,
        turn_applied(a, r, false, TurnEvent::ToolResult(result), facts, b, s)
            ==> s.activity_status@ == "thinking"@ && s.is_responding == r.is_responding,
        turn_applied(a, r, false, TurnEvent::PermissionRequest(permission), facts, b, s)
            ==> s.activity_status@ == "awaiting permission"@ && s.is_responding,
        turn_applied(a, r, false, TurnEvent::UserQuestionRequest(question), facts, b, s)
            ==> s.activity_status@ == "awaiting user input"@ && s.is_responding,
        turn_applied(a, r, false, TurnEvent::Error(text), facts, b, s)
            ==> s.activity_status@.len() == 0 && !s.is_responding,
{
}

/// A discarded answer is taken back whole, and only an answer is.
pub proof fn law_discard_takes_answer_back(
    a: App,
    r: UiRuntime,
    side: bool,
    facts: ResponseFacts,
    b: App,
    s: UiRuntime,
)
    requires
        turn_applied(a, r, side, TurnEvent::StreamDiscard, facts, b, s),
    ensures
        buffer(r, side).len() > 0 && buffer(r, side).last().role == Role::Assistant
            ==> one_added(buffer(s, side), buffer(r, side)),
        buffer(r, side).len() == 0 || buffer(r, side).last().role != Role::Assistant ==> buffer(
            s,
            side,
        ) == buffer(r, side),
        s.is_responding == r.is_responding,
        b == a,
{
    if buffer(r, side).len() > 0 && buffer(r, side).last().role == Role::Assistant {
        lemma_one_added(buffer(s, side), buffer(r, side));
    }
}

/// The end of the reasoning finds the trace that still runs though other messages
/// came after it, and leaves those.
pub proof fn law_reasoning_end_finds_its_trace(
    a: App,
    r: UiRuntime,
    side: bool,
    content: String,
    facts: ResponseFacts,
    i: int,
    b: App,
    s: UiRuntime,
)
    requires
        turn_applied(a, r, side, TurnEvent::StreamReasoningEnd(content), facts, b, s),
        0 <= i < buffer(r, side).len(),
        buffer(r, side)[i].kind is Thinking,
        trace_in(buffer(r, side)[i]).duration_ms is None,
        forall|k: int|
            i < k < buffer(r, side).len() ==> !((#[trigger] buffer(r, side)[k]).kind is Thinking
                && trace_in(buffer(r, side)[k]).duration_ms is None),
    ensures
        only_at(buffer(r, side), buffer(s, side), i),
        buffer(s, side)[i].kind is Thinking,
        trace_in(buffer(s, side)[i]).content == content,
        buffer(s, side)[i].raw == content,
        trace_in(buffer(s, side)[i]).duration_ms is Some,
        r.reasoning_start is None ==> trace_in(buffer(s, side)[i]).duration_ms == Some(0u64),
        trace_in(buffer(s, side)[i]).expanded == trace_in(buffer(r, side)[i]).expanded,
{
    lemma_last_running_trace(
        buffer(r, side),
        content,
        crate::listener::turn::elapsed(r.reasoning_start, facts.now),
        i,
    );
}

proof fn lemma_last_running_trace(
    before: Seq<TranscriptMessage>,
    content: String,
    ms: u64,
    i: int,
)
    requires
        0 <= i < before.len(),
        before[i].kind is Thinking,
        trace_in(before[i]).duration_ms is None,
        forall|k: int|
            i < k < before.len() ==> !((#[trigger] before[k]).kind is Thinking && trace_in(
                before[k],
            ).duration_ms is None),
    ensures
        crate::listener::transcript::reasoning_ended(before, content, ms) == before.update(
            i,
            crate::listener::transcript::with_reasoning(before[i], content, ms),
        ),
    decreases before.len(),
{
    let done = crate::listener::transcript::with_reasoning(before[i], content, ms);
    if i < before.len() - 1 {
        let rest = before.drop_last();
        assert forall|k: int| i < k < rest.len() implies !((#[trigger] rest[k]).kind is Thinking
            && trace_in(rest[k]).duration_ms is None) by {
            assert(rest[k] == before[k]);
        }
        lemma_last_running_trace(rest, content, ms, i);
        assert(!crate::listener::transcript::is_streaming(before[before.len() - 1]));
        assert(rest.update(i, done).push(before.last()) =~= before.update(i, done));
    } else {
        assert(before.drop_last().push(done) =~= before.update(i, done));
    }
}

/// Where a turn boundary cuts a trace short, the trace shows how long it ran.
pub proof fn law_cut_trace_shows_its_time(
    a: App,
    r: UiRuntime,
    snapshot: HarnessSnapshot,
    started: u64,
    facts: ResponseFacts,
    k: int,
    b: App,
    s: UiRuntime,
)
    requires
        turn_applied(a, r, false, TurnEvent::HarnessState(snapshot), facts, b, s),
        r.reasoning_start == Some(started),
        started <= facts.now,
        0 <= k < r.messages@.len(),
        r.messages@[k].kind is Thinking,
        trace_in(r.messages@[k]).duration_ms is None,
    ensures
        trace_in(s.messages@[k]).duration_ms == Some((facts.now - started) as u64),
        s.reasoning_start is None,
{
}

/// A cancel for a call that is not known shows a call of that id, cancelled, and
/// leaves the others.
pub proof fn law_stray_cancel_is_shown(
    a: App,
    r: UiRuntime,
    side: bool,
    id: String,
    facts: ResponseFacts,
    b: App,
    s: UiRuntime,
)
    requires
        turn_applied(a, r, side, TurnEvent::ToolCancelled { id }, facts, b, s),
        runs_nowhere(buffer(r, side), id@),
    ensures
        one_added(buffer(r, side), buffer(s, side)),
        shows_call(buffer(s, side).last(), id@),
        step_in(buffer(s, side).last()).status == ToolStepStatus::Cancelled,
        step_in(buffer(s, side).last()).output@.len() == 0,
        buffer(s, side).last().role == Role::Tool,
{
    lemma_runs_nowhere(buffer(r, side), id@);
    lemma_one_added(buffer(r, side), buffer(s, side));
}

/// The agent's answers and calls bear the provider and the model that gave them.
pub proof fn law_answers_bear_their_model(
    a: App,
    r: UiRuntime,
    side: bool,
    text: String,
    facts: ResponseFacts,
    b: App,
    s: UiRuntime,
)
    requires
        turn_applied(a, r, side, TurnEvent::StreamStart, facts, b, s) || turn_applied(
            a,
            r,
            side,
            TurnEvent::Text(text),
            facts,
            b,
            s,
        ),
    ensures
        buffer(s, side).last().provider == a.session.current_provider,
        buffer(s, side).last().model == a.session.current_model,
        buffer(s, side).last().kind == MessageKind::Text,
        buffer(s, side).last().role == Role::Assistant,
{
}

} // verus!
