//! What holds of every response.
use crate::agent::HarnessSnapshot;
use crate::agent::PermissionDecision;
use crate::agent::PermissionRequest;
use crate::app::composer::is_queued_marker;
use crate::app::App;
use crate::document::TranscriptMessage;
use crate::event_loop::permission::answered;
use crate::event_loop::permission::reply;
use crate::event_loop::UiRuntime;
use crate::listener::applied;
use crate::listener::goes_aside;
use crate::listener::transcript::answer_streamed;
use crate::listener::transcript::call_index;
use crate::listener::transcript::is_streaming;
use crate::listener::transcript::lemma_call_index;
use crate::listener::transcript::reasoning_ended;
use crate::listener::turn::buffer;
use crate::listener::turn::elapsed;
use crate::listener::turn::is_running;
use crate::listener::turn::on_requests;
use crate::listener::turn::on_stream;
use crate::listener::turn::on_tools;
use crate::listener::turn::turn_applied;
use crate::listener::AgentResponse;
use crate::listener::EnvoyEvent;
use crate::listener::ResponseFacts;
use crate::listener::TurnEvent;
use vstd::prelude::*;

verus! {

/// What happens in the side conversation leaves the primary one alone: its
/// transcript, its status, and the client's picture of the session.
pub proof fn law_side_events_stay_aside(
    a: App,
    r: UiRuntime,
    event: TurnEvent,
    facts: ResponseFacts,
    b: App,
    s: UiRuntime,
)
    requires
        turn_applied(a, r, true, event, facts, b, s),
    ensures
        b == a,
        s.messages == r.messages,
        s.is_responding == r.is_responding,
        s.activity_status == r.activity_status,
        s.turn_started_at == r.turn_started_at,
{
}

/// What happens in the primary conversation leaves the side transcript alone.
pub proof fn law_primary_events_spare_side(
    a: App,
    r: UiRuntime,
    event: TurnEvent,
    facts: ResponseFacts,
    b: App,
    s: UiRuntime,
)
    requires
        turn_applied(a, r, false, event, facts, b, s),
    ensures
        s.side_messages == r.side_messages,
{
}

/// Once the side conversation is opened, the events of its session go to it,
/// and once it is closed they no longer do.
pub proof fn law_side_routing(
    a: App,
    r: UiRuntime,
    side_id: String,
    facts: ResponseFacts,
    b: App,
    s: UiRuntime,
    c: App,
    t: UiRuntime,
)
    requires
        applied(a, r, AgentResponse::SideViewOpened { side_id }, facts, b, s),
        applied(b, s, AgentResponse::SideViewClosed, facts, c, t),
    ensures
        goes_aside(s, side_id@),
        forall|id: Seq<char>| goes_aside(s, id) ==> id == side_id@,
        forall|id: Seq<char>| !goes_aside(t, id),
{
}

/// Requests to the user are queued in the order in which they come, whichever
/// conversation they come from.
pub proof fn law_requests_are_queued(
    a: App,
    r: UiRuntime,
    side: bool,
    request: PermissionRequest,
    facts: ResponseFacts,
    b: App,
    s: UiRuntime,
)
    requires
        turn_applied(a, r, side, TurnEvent::PermissionRequest(request), facts, b, s),
    ensures
        s.pending_permission@ == r.pending_permission@.push(request),
{
}

/// The answer to a request of an envoy names the call that started it.
pub proof fn law_envoy_answer_finds_its_way(
    a: App,
    r: UiRuntime,
    side: bool,
    parent: String,
    request: PermissionRequest,
    facts: ResponseFacts,
    b: App,
    s: UiRuntime,
    decision: PermissionDecision,
    c: App,
    d: App,
    t: UiRuntime,
)
    requires
        turn_applied(
            a,
            r,
            side,
            TurnEvent::Envoy {
                parent_call_id: parent,
                event: EnvoyEvent::PermissionRequest(request),
            },
            facts,
            b,
            s,
        ),
        answered(c, s, request, decision, d, t),
    ensures
        d.outbox@[c.outbox@.len() as int] == reply(request.id, decision, Some(parent)),
{
}

/// Two pieces of an answer add up.
pub proof fn law_streamed_pieces_add_up(
    x: Seq<TranscriptMessage>,
    first: Seq<char>,
    y: Seq<TranscriptMessage>,
    second: Seq<char>,
    z: Seq<TranscriptMessage>,
)
    requires
        answer_streamed(x, first, y),
        answer_streamed(y, second, z),
    ensures
        answer_streamed(x, first + second, z),
{
    if x.len() > 0 {
        assert(z.last().raw@ =~= x.last().raw@ + (first + second));
    }
}

/// A turn that begins or ends leaves no reasoning trace streaming.
pub proof fn law_turn_boundary_stops_reasoning(
    a: App,
    r: UiRuntime,
    side: bool,
    snapshot: HarnessSnapshot,
    facts: ResponseFacts,
    b: App,
    s: UiRuntime,
)
    requires
        turn_applied(a, r, side, TurnEvent::HarnessState(snapshot), facts, b, s),
    ensures
        forall|i: int|
            0 <= i < buffer(s, side).len() ==> !is_streaming(#[trigger] buffer(s, side)[i]),
        s.reasoning_start is None,
{
}

/// A turn that ends lets the next queued message go: nothing runs, and nothing
/// is shown as running.
pub proof fn law_turn_end_is_idle(
    a: App,
    r: UiRuntime,
    snapshot: HarnessSnapshot,
    facts: ResponseFacts,
    b: App,
    s: UiRuntime,
)
    requires
        turn_applied(a, r, false, TurnEvent::HarnessState(snapshot), facts, b, s),
        !is_running(snapshot),
    ensures
        !s.is_responding,
        s.activity_status@ == Seq::<char>::empty(),
        s.turn_started_at is None,
        b.session.loop_status@ == "idle"@,
{
}

/// How many messages of the transcript wait in the queue.
pub open spec fn marker_count(messages: Seq<TranscriptMessage>) -> nat
    decreases messages.len(),
{
    if messages.len() == 0 {
        0
    } else if is_queued_marker(messages.last()) {
        marker_count(messages.drop_last()) + 1
    } else {
        marker_count(messages.drop_last())
    }
}

/// Whether the messages of `after` are markers where those of `before` are.
spec fn same_roles(before: Seq<TranscriptMessage>, after: Seq<TranscriptMessage>) -> bool {
    &&& after.len() == before.len()
    &&& forall|i: int|
        0 <= i < before.len() ==> is_queued_marker(#[trigger] after[i]) == is_queued_marker(
            before[i],
        )
}

proof fn lemma_same_roles(before: Seq<TranscriptMessage>, after: Seq<TranscriptMessage>)
    requires
        same_roles(before, after),
    ensures
        marker_count(after) == marker_count(before),
    decreases before.len(),
{
    if before.len() > 0 {
        let (x, y) = (before.drop_last(), after.drop_last());
        assert forall|i: int| 0 <= i < x.len() implies is_queued_marker(#[trigger] y[i])
            == is_queued_marker(x[i]) by {
            assert(y[i] == after[i]);
        }
        lemma_same_roles(x, y);
        assert(is_queued_marker(after[before.len() - 1]) == is_queued_marker(before.last()));
    }
}

proof fn lemma_last_grown(before: Seq<TranscriptMessage>, after: Seq<TranscriptMessage>)
    requires
        before.len() > 0,
        after.len() == before.len(),
        after.drop_last() == before.drop_last(),
        is_queued_marker(after.last()) == is_queued_marker(before.last()),
    ensures
        marker_count(after) == marker_count(before),
{
}

proof fn lemma_reasoning_end_keeps_markers(
    before: Seq<TranscriptMessage>,
    content: String,
    ms: u64,
)
    ensures
        marker_count(reasoning_ended(before, content, ms)) == marker_count(before),
    decreases before.len(),
{
    if before.len() > 0 {
        let rest = before.drop_last();
        let after = reasoning_ended(before, content, ms);
        if is_streaming(before.last()) {
            assert(after.drop_last() =~= rest);
        } else {
            lemma_reasoning_end_keeps_markers(rest, content, ms);
            assert(after.drop_last() =~= reasoning_ended(rest, content, ms));
        }
    }
}

proof fn lemma_stream_keeps_markers(
    a: App,
    r: UiRuntime,
    side: bool,
    event: TurnEvent,
    facts: ResponseFacts,
    b: App,
    s: UiRuntime,
)
    requires
        on_stream(a, r, side, event, facts, b, s) == Some(true),
    ensures
        marker_count(buffer(s, side)) == marker_count(buffer(r, side)),
{
    let before = buffer(r, side);
    let after = buffer(s, side);
    match event {
        TurnEvent::StreamDelta(_) => {
            if before.len() > 0 {
                lemma_last_grown(before, after);
            }
        },
        TurnEvent::StreamEnd(text) => {
            if before.len() > 0 {
                assert(after.drop_last() =~= before.drop_last());
                lemma_last_grown(before, after);
            }
        },
        TurnEvent::StreamReasoningDelta(_) => {},
        TurnEvent::StreamReasoningEnd(content) => {
            lemma_reasoning_end_keeps_markers(
                before,
                content,
                elapsed(r.reasoning_start, facts.now),
            );
        },
        _ => {},
    }
}

proof fn lemma_tools_keep_markers(
    a: App,
    r: UiRuntime,
    side: bool,
    event: TurnEvent,
    facts: ResponseFacts,
    b: App,
    s: UiRuntime,
)
    requires
        on_tools(a, r, side, event, facts, b, s) == Some(true),
    ensures
        marker_count(buffer(s, side)) == marker_count(buffer(r, side)),
{
    let before = buffer(r, side);
    let after = buffer(s, side);
    match event {
        TurnEvent::ToolResult(result) => {
            lemma_call_index(before, result.id@, true);
            if call_index(before, result.id@, true) is Some {
                assert(same_roles(before, after));
                lemma_same_roles(before, after);
            } else {
                assert(after.drop_last() =~= before);
            }
        },
        TurnEvent::ToolCancelled { id } => {
            lemma_call_index(before, id@, true);
            if call_index(before, id@, true) is Some {
                assert(same_roles(before, after));
                lemma_same_roles(before, after);
            }
        },
        TurnEvent::ToolStream { id, chunk } => {
            lemma_call_index(before, id@, true);
            if call_index(before, id@, true) is Some {
                assert(same_roles(before, after));
                lemma_same_roles(before, after);
            }
        },
        _ => {},
    }
}

/// No event of a turn adds, removes or delivers a queued message: as many
/// messages of the transcript wait afterwards as before.
pub proof fn law_turn_events_keep_markers(
    a: App,
    r: UiRuntime,
    side: bool,
    event: TurnEvent,
    facts: ResponseFacts,
    b: App,
    s: UiRuntime,
)
    requires
        turn_applied(a, r, side, event, facts, b, s),
    ensures
        marker_count(buffer(s, side)) == marker_count(buffer(r, side)),
        b.composer == a.composer,
{
    let before = buffer(r, side);
    let after = buffer(s, side);
    if on_stream(a, r, side, event, facts, b, s) is Some {
        lemma_stream_keeps_markers(a, r, side, event, facts, b, s);
    } else if on_tools(a, r, side, event, facts, b, s) is Some {
        lemma_tools_keep_markers(a, r, side, event, facts, b, s);
    } else if on_requests(a, r, side, event, b, s) is Some {
        if let TurnEvent::Envoy { parent_call_id, event: EnvoyEvent::Entry(entry) } = event {
            lemma_call_index(before, parent_call_id@, false);
            assert(same_roles(before, after));
            lemma_same_roles(before, after);
        }
    } else {
        if event is HarnessState {
            assert(same_roles(before, after));
            lemma_same_roles(before, after);
        }
    }
}

/// What a retry and a compaction tell the user: the attempt, the wait in whole
/// seconds rounded up, and the reason; how much was archived and how far the
/// context shrank.
pub proof fn law_retry_and_compaction_texts(
    a: App,
    r: UiRuntime,
    attempt: u32,
    max_attempts: u32,
    seconds: nat,
    short: nat,
    message: String,
    archived_messages: usize,
    before_chars: usize,
    after_chars: usize,
    facts: ResponseFacts,
    b: App,
    s: UiRuntime,
)
    requires
        short < 1000,
        short <= seconds * 1000 <= u64::MAX,
    ensures
        turn_applied(
            a,
            r,
            false,
            TurnEvent::RetryScheduled {
                attempt,
                max_attempts,
                delay_ms: (seconds * 1000 - short) as u64,
                message,
            },
            facts,
            b,
            s,
        ) ==> s.is_responding && s.messages == r.messages && s.activity_status@ == "retry "@
            + crate::text::decimal(attempt as nat) + "/"@ + crate::text::decimal(
            max_attempts as nat,
        ) + " in "@ + crate::text::decimal(seconds) + "s · "@ + crate::status::retry_reason(
            message@,
        ),
        turn_applied(
            a,
            r,
            false,
            TurnEvent::Compacted { archived_messages, before_chars, after_chars },
            facts,
            b,
            s,
        ) ==> s.messages@.len() == r.messages@.len() + 1 && s.messages@.last().raw@
            == "Compacted "@ + crate::text::decimal(archived_messages as nat) + " messages: "@
            + crate::text::decimal(before_chars as nat) + " -> "@ + crate::text::decimal(
            after_chars as nat,
        ) + " chars."@,
{
    assert((seconds * 1000 - short + 999) / 1000 == seconds as int) by (nonlinear_arith)
        requires
            short < 1000,
    ;
}

} // verus!
