//! What the events of a turn do to the state.
//!
//! An event writes to the transcript of its own conversation. Only the
//! primary conversation's events touch the status that the client shows;
//! requests to the user reach them from anywhere.
use crate::agent::HarnessSnapshot;
use crate::agent::PermissionRequest;
use crate::agent::Pursuit;
use crate::agent::UserQuestionRequest;
use crate::app::App;
use crate::app::SessionMirror;
use crate::document::NoticeSeverity;
use crate::document::TranscriptMessage;
use crate::event_loop::routing::parent_map;
use crate::event_loop::routing::record_parent;
use crate::event_loop::UiRuntime;
use crate::listener::transcript::answer_begun;
use crate::listener::transcript::answer_discarded;
use crate::listener::transcript::answer_ended;
use crate::listener::transcript::answer_streamed;
use crate::listener::transcript::begin_answer;
use crate::listener::transcript::begin_call;
use crate::listener::transcript::call_begun;
use crate::listener::transcript::call_cancelled;
use crate::listener::transcript::call_ended;
use crate::listener::transcript::cancel_call;
use crate::listener::transcript::discard_answer;
use crate::listener::transcript::end_answer;
use crate::listener::transcript::end_call;
use crate::listener::transcript::end_reasoning;
use crate::listener::transcript::ends_in_trace;
use crate::listener::transcript::envoy_extended;
use crate::listener::transcript::extend_envoy;
use crate::listener::transcript::finalize_streaming_reasoning;
use crate::listener::transcript::frozen;
use crate::listener::transcript::noticed;
use crate::listener::transcript::output_streamed;
use crate::listener::transcript::push_local_notice;
use crate::listener::transcript::reasoning_ended;
use crate::listener::transcript::reasoning_streamed;
use crate::listener::transcript::stream_answer;
use crate::listener::transcript::stream_output;
use crate::listener::transcript::stream_reasoning;
use crate::listener::transcript::Attribution;
use crate::listener::EnvoyEvent;
use crate::listener::ResponseFacts;
use crate::listener::TurnEvent;
use crate::status::compact_retry_reason;
use crate::status::describe_pursuit_change;
use crate::status::pursuit_notice;
use crate::status::retry_reason;
use crate::status::tool_activity;
use crate::status::tool_activity_status;
use crate::text::decimal;
use crate::text::decimal_string;
use crate::text::same_text;
use vstd::prelude::*;

verus! {

/// The transcript of the primary or of the side conversation.
pub open spec fn buffer(r: UiRuntime, side: bool) -> Seq<TranscriptMessage> {
    if side {
        r.side_messages@
    } else {
        r.messages@
    }
}

/// The runtime `r` with that transcript as in `s`.
pub open spec fn with_buffer(r: UiRuntime, side: bool, s: UiRuntime) -> UiRuntime {
    if side {
        UiRuntime { side_messages: s.side_messages, ..r }
    } else {
        UiRuntime { messages: s.messages, ..r }
    }
}

fn buffer_mut<'a>(runtime: &'a mut UiRuntime, side: bool) -> (list: &'a mut Vec<TranscriptMessage>)
    ensures
        list@ == buffer(*old(runtime), side),
        *final(runtime) == (if side {
            UiRuntime { side_messages: *final(list), ..*old(runtime) }
        } else {
            UiRuntime { messages: *final(list), ..*old(runtime) }
        }),
{
    if side {
        &mut runtime.side_messages
    } else {
        &mut runtime.messages
    }
}

/// The runtime `r` with the status as in `s`; a side conversation leaves it
/// alone.
pub open spec fn with_status(r: UiRuntime, side: bool, s: UiRuntime) -> UiRuntime {
    if side {
        r
    } else {
        UiRuntime {
            activity_status: s.activity_status,
            is_responding: s.is_responding,
            ..r
        }
    }
}

/// Whether the status says so, where the primary conversation is concerned.
pub open spec fn says(s: UiRuntime, side: bool, activity: Seq<char>, responding: bool) -> bool {
    !side ==> s.activity_status@ == activity && s.is_responding == responding
}

fn set_status(runtime: &mut UiRuntime, side: bool, activity: String, responding: bool)
    ensures
        says(*final(runtime), side, activity@, responding),
        *final(runtime) == with_status(*old(runtime), side, *final(runtime)),
{
    if !side {
        runtime.activity_status = activity;
        runtime.is_responding = responding;
    }
}

/// Who produces the messages of the turn.
pub open spec fn author(a: App) -> Attribution {
    Attribution { provider: a.session.current_provider, model: a.session.current_model }
}

/// Who produces the messages of the turn.
pub fn attribution(app: &App) -> (by: Attribution)
    ensures
        by == author(*app),
{
    Attribution {
        provider: app.session.current_provider.clone(),
        model: app.session.current_model.clone(),
    }
}

/// The milliseconds since `start`; none where no start is known.
pub open spec fn elapsed(start: Option<u64>, now: u64) -> u64 {
    match start {
        Some(at) => if now >= at {
            (now - at) as u64
        } else {
            0
        },
        None => 0,
    }
}

fn take_elapsed(runtime: &mut UiRuntime, now: u64) -> (ms: u64)
    ensures
        ms == elapsed(old(runtime).reasoning_start, now),
        *final(runtime) == (UiRuntime { reasoning_start: None, ..*old(runtime) }),
{
    let ms: u64 = match runtime.reasoning_start {
        Some(at) => now.saturating_sub(at),
        None => 0,
    };
    runtime.reasoning_start = None;
    ms
}

/// What answers and reasoning do.
pub open spec fn on_stream(
    a: App,
    r: UiRuntime,
    side: bool,
    event: TurnEvent,
    facts: ResponseFacts,
    b: App,
    s: UiRuntime,
) -> Option<bool> {
    let before = buffer(r, side);
    let after = buffer(s, side);
    let written = with_buffer(r, side, s);
    match event {
        TurnEvent::Notice { severity, text } => Some(
            {
                &&& noticed(before, severity, text@, after)
                &&& s == written
                &&& b == a
            },
        ),
        TurnEvent::Text(text) => Some(
            {
                &&& answer_begun(before, text@, author(a), after)
                &&& says(s, side, Seq::empty(), false)
                &&& s == with_status(written, side, s)
                &&& b == a
            },
        ),
        TurnEvent::StreamStart => Some(
            {
                &&& answer_begun(before, Seq::empty(), author(a), after)
                &&& says(s, side, "responding"@, true)
                &&& s == with_status(written, side, s)
                &&& b == a
            },
        ),
        TurnEvent::StreamDelta(delta) => Some(
            answer_streamed(before, delta@, after) && s == written && b == a,
        ),
        TurnEvent::StreamEnd(text) => Some(
            {
                &&& after == answer_ended(before, text)
                &&& says(s, side, "finalizing response"@, true)
                &&& s == with_status(written, side, s)
                &&& b == a
            },
        ),
        TurnEvent::StreamDiscard => Some(
            after == answer_discarded(before) && s == written && b == a,
        ),
        TurnEvent::StreamReasoningDelta(delta) => Some(
            {
                &&& reasoning_streamed(
                    before,
                    delta@,
                    facts.thinking_expanded,
                    author(a),
                    after,
                )
                &&& s == (UiRuntime {
                    reasoning_start: if ends_in_trace(before) {
                        r.reasoning_start
                    } else {
                        Some(facts.now)
                    },
                    ..written
                })
                &&& b == a
            },
        ),
        TurnEvent::StreamReasoningEnd(content) => Some(
            {
                &&& after == reasoning_ended(
                    before,
                    content,
                    elapsed(r.reasoning_start, facts.now),
                )
                &&& s == (UiRuntime { reasoning_start: None, ..written })
                &&& b == a
            },
        ),
        _ => None,
    }
}

/// What tool calls do.
pub open spec fn on_tools(
    a: App,
    r: UiRuntime,
    side: bool,
    event: TurnEvent,
    facts: ResponseFacts,
    b: App,
    s: UiRuntime,
) -> Option<bool> {
    let before = buffer(r, side);
    let after = buffer(s, side);
    let written = with_buffer(r, side, s);
    match event {
        TurnEvent::ToolCall { id, name, arguments } => Some(
            {
                &&& call_begun(before, id@, name@, arguments@, author(a), after)
                &&& says(s, side, tool_activity(name@), true)
                &&& s == with_status(written, side, s)
                &&& b == a
            },
        ),
        TurnEvent::ToolResult(result) => Some(
            {
                &&& call_ended(before, result, facts.success_expanded, author(a), after)
                &&& says(s, side, "thinking"@, r.is_responding)
                &&& s == with_status(written, side, s)
                &&& b == a
            },
        ),
        TurnEvent::ToolCancelled { id } => Some(
            call_cancelled(before, id@, after) && s == written && b == a,
        ),
        TurnEvent::ToolStream { id, chunk } => Some(
            output_streamed(before, id@, chunk@, after) && s == written && b == a,
        ),
        _ => None,
    }
}

/// Whether a permission request was queued.
pub open spec fn permission_queued(
    r: UiRuntime,
    side: bool,
    request: PermissionRequest,
    s: UiRuntime,
) -> bool {
    &&& s.pending_permission@ == r.pending_permission@.push(request)
    &&& says(s, side, "awaiting permission"@, true)
    &&& s == with_status(
        UiRuntime { pending_permission: s.pending_permission, ..r },
        side,
        s,
    )
}

/// Whether a question was queued.
pub open spec fn question_queued(
    r: UiRuntime,
    side: bool,
    request: UserQuestionRequest,
    s: UiRuntime,
) -> bool {
    &&& s.pending_question@ == r.pending_question@.push(request)
    &&& says(s, side, "awaiting user input"@, true)
    &&& s == with_status(UiRuntime { pending_question: s.pending_question, ..r }, side, s)
}

/// What requests to the user do. Those of an envoy are answered by way of the
/// call that started it.
pub open spec fn on_requests(
    a: App,
    r: UiRuntime,
    side: bool,
    event: TurnEvent,
    b: App,
    s: UiRuntime,
) -> Option<bool> {
    match event {
        TurnEvent::PermissionRequest(request) => Some(
            permission_queued(r, side, request, s) && b == a,
        ),
        TurnEvent::UserQuestionRequest(request) => Some(
            question_queued(r, side, request, s) && b == a,
        ),
        TurnEvent::Envoy { parent_call_id, event: EnvoyEvent::PermissionRequest(request) } => Some(
            {
                &&& parent_map(s.envoy_permission_parent@) == parent_map(
                    r.envoy_permission_parent@,
                ).insert(request.id@, parent_call_id)
                &&& permission_queued(
                    UiRuntime { envoy_permission_parent: s.envoy_permission_parent, ..r },
                    side,
                    request,
                    s,
                )
                &&& b == a
            },
        ),
        TurnEvent::Envoy { parent_call_id, event: EnvoyEvent::UserQuestionRequest(request) } => {
            Some(
                {
                    &&& parent_map(s.envoy_question_parent@) == parent_map(
                        r.envoy_question_parent@,
                    ).insert(request.id@, parent_call_id)
                    &&& question_queued(
                        UiRuntime { envoy_question_parent: s.envoy_question_parent, ..r },
                        side,
                        request,
                        s,
                    )
                    &&& b == a
                },
            )
        },
        TurnEvent::Envoy { parent_call_id, event: EnvoyEvent::Entry(entry) } => Some(
            {
                &&& envoy_extended(buffer(r, side), parent_call_id@, entry, buffer(s, side))
                &&& s == with_buffer(r, side, s)
                &&& b == a
            },
        ),
        _ => None,
    }
}

/// The notice of a compaction.
pub open spec fn compacted_text(archived: nat, before: nat, after: nat) -> Seq<char> {
    "Compacted "@ + decimal(archived) + " messages: "@ + decimal(before) + " -> "@ + decimal(after)
        + " chars."@
}

/// The activity while a retry is due: seconds are rounded up.
pub open spec fn retry_text(attempt: nat, max: nat, delay_ms: nat, message: Seq<char>) -> Seq<char> {
    "retry "@ + decimal(attempt) + "/"@ + decimal(max) + " in "@ + decimal((delay_ms + 999) / 1000)
        + "s · "@ + retry_reason(message)
}

/// Whether a snapshot says that a turn runs.
pub open spec fn is_running(snapshot: HarnessSnapshot) -> bool {
    snapshot.loop_status@ != "idle"@
}

/// Whether the client's picture of the session follows `snapshot`. A turn
/// that begins counts and resets what belongs to the previous one.
pub open spec fn harness_mirrored(a: App, snapshot: HarnessSnapshot, b: App) -> bool {
    let session = a.session;
    &&& b.session.review_alert@ == Seq::<char>::empty()
    &&& b == (App {
        session: SessionMirror {
            current_pursuit: snapshot.pursuit,
            loop_status: snapshot.loop_status,
            unattended: snapshot.unattended,
            round_count: if is_running(snapshot) && session.round_count < u64::MAX {
                (session.round_count + 1) as u64
            } else {
                session.round_count
            },
            current_turn: 0,
            review_alert: b.session.review_alert,
            ..session
        },
        ..a
    })
}

/// Whether the runtime follows `snapshot`: reasoning that never ended is
/// stopped, and the clock of the turn starts or stops.
pub open spec fn harness_followed(
    r: UiRuntime,
    side: bool,
    snapshot: HarnessSnapshot,
    now: u64,
    s: UiRuntime,
) -> bool {
    let ms = elapsed(r.reasoning_start, now);
    let running = is_running(snapshot);
    &&& buffer(s, side) == buffer(r, side).map_values(|m: TranscriptMessage| frozen(m, ms))
    &&& !side ==> {
        &&& s.is_responding == running
        &&& if running {
            s.activity_status == r.activity_status
        } else {
            s.activity_status@ == Seq::<char>::empty()
        }
    }
    &&& s == (UiRuntime {
        reasoning_start: None,
        turn_started_at: if side {
            r.turn_started_at
        } else if running {
            Some(now)
        } else {
            None
        },
        ..with_status(with_buffer(r, side, s), side, s)
    })
}

/// Whether the goal changed, with a notice where the user has something to
/// see.
pub open spec fn pursuit_changed(
    a: App,
    r: UiRuntime,
    side: bool,
    pursuit: Pursuit,
    b: App,
    s: UiRuntime,
) -> bool {
    let known = if side {
        None
    } else {
        a.session.current_pursuit
    };
    &&& match pursuit_notice(known, pursuit) {
        Some(text) => {
            &&& noticed(buffer(r, side), NoticeSeverity::Info, text, buffer(s, side))
            &&& s == with_buffer(r, side, s)
        },
        None => s == r,
    }
    &&& b == (if side {
        a
    } else {
        App { session: SessionMirror { current_pursuit: Some(pursuit), ..a.session }, ..a }
    })
}

/// What the other events do.
pub open spec fn on_state(
    a: App,
    r: UiRuntime,
    side: bool,
    event: TurnEvent,
    facts: ResponseFacts,
    b: App,
    s: UiRuntime,
) -> bool {
    let before = buffer(r, side);
    let after = buffer(s, side);
    let written = with_buffer(r, side, s);
    let session = a.session;
    match event {
        TurnEvent::Activity(status) => {
            &&& says(s, side, status@, true)
            &&& s == with_status(r, side, s)
            &&& b == a
        },
        TurnEvent::RoundStarted { round } => {
            &&& s == r
            &&& b == (if side {
                a
            } else {
                App { session: SessionMirror { current_turn: (round + 1) as u64, ..session }, ..a }
            })
        },
        TurnEvent::Compacted { archived_messages, before_chars, after_chars } => {
            &&& noticed(
                before,
                NoticeSeverity::Info,
                compacted_text(
                    archived_messages as nat,
                    before_chars as nat,
                    after_chars as nat,
                ),
                after,
            )
            &&& s == written
            &&& b == a
        },
        TurnEvent::HarnessState(snapshot) => {
            &&& harness_followed(r, side, snapshot, facts.now, s)
            &&& if side {
                b == a
            } else {
                harness_mirrored(a, snapshot, b)
            }
        },
        TurnEvent::PursuitUpdated(pursuit) => pursuit_changed(a, r, side, pursuit, b, s),
        TurnEvent::PursuitCleared => {
            &&& s == r
            &&& b == (if side {
                a
            } else {
                App { session: SessionMirror { current_pursuit: None, ..session }, ..a }
            })
        },
        TurnEvent::TodosUpdated(list) => {
            &&& s == r
            &&& b == (if side {
                a
            } else {
                App { session: SessionMirror { todos: Some(list), ..session }, ..a }
            })
        },
        TurnEvent::UnattendedChanged(enabled) => {
            &&& s == r
            &&& b == (if side {
                a
            } else {
                App { session: SessionMirror { unattended: enabled, ..session }, ..a }
            })
        },
        TurnEvent::RetryScheduled { attempt, max_attempts, delay_ms, message } => {
            &&& says(
                s,
                side,
                retry_text(attempt as nat, max_attempts as nat, delay_ms as nat, message@),
                true,
            )
            &&& s == with_status(r, side, s)
            &&& b == a
        },
        TurnEvent::Error(text) => {
            &&& noticed(before, NoticeSeverity::Error, text@, after)
            &&& says(s, side, Seq::empty(), false)
            &&& s == with_status(written, side, s)
            &&& b == a
        },
        TurnEvent::SessionReview { alert } => {
            &&& s == r
            &&& b == (if side {
                a
            } else {
                App { session: SessionMirror { review_alert: alert, ..session }, ..a }
            })
        },
        _ => b == a && s == r,
    }
}

/// Whether the count of rounds leaves room for the next one.
pub open spec fn turn_fits(event: TurnEvent) -> bool {
    event matches TurnEvent::RoundStarted { round } ==> round < u64::MAX
}

/// What an event of a turn did: `a` and `r` became `b` and `s`. `side` says
/// whether it belongs to the side conversation.
pub open spec fn turn_applied(
    a: App,
    r: UiRuntime,
    side: bool,
    event: TurnEvent,
    facts: ResponseFacts,
    b: App,
    s: UiRuntime,
) -> bool {
    if let Some(done) = on_stream(a, r, side, event, facts, b, s) {
        done
    } else if let Some(done) = on_tools(a, r, side, event, facts, b, s) {
        done
    } else if let Some(done) = on_requests(a, r, side, event, b, s) {
        done
    } else {
        on_state(a, r, side, event, facts, b, s)
    }
}

/// Whether an event was taken in as `done` says, or left alone.
pub open spec fn taken(
    done: Option<bool>,
    a: App,
    r: UiRuntime,
    event: TurnEvent,
    b: App,
    s: UiRuntime,
    left: Option<TurnEvent>,
) -> bool {
    match done {
        Some(done) => left is None && done,
        None => left == Some(event) && b == a && s == r,
    }
}

fn take_stream(
    app: &mut App,
    runtime: &mut UiRuntime,
    side: bool,
    event: TurnEvent,
    facts: ResponseFacts,
) -> (left: Option<TurnEvent>)
    ensures
        taken(
            on_stream(
                *old(app),
                *old(runtime),
                side,
                event,
                facts,
                *final(app),
                *final(runtime),
            ),
            *old(app),
            *old(runtime),
            event,
            *final(app),
            *final(runtime),
            left,
        ),
{
    match event {
        TurnEvent::Notice { severity, text } => push_local_notice(
            buffer_mut(runtime, side),
            severity,
            text,
        ),
        TurnEvent::Text(text) => {
            begin_answer(buffer_mut(runtime, side), text, attribution(app));
            set_status(runtime, side, String::new(), false);
        },
        TurnEvent::StreamStart => {
            begin_answer(buffer_mut(runtime, side), String::new(), attribution(app));
            set_status(runtime, side, "responding".to_owned(), true);
        },
        TurnEvent::StreamDelta(delta) => stream_answer(buffer_mut(runtime, side), delta.as_str()),
        TurnEvent::StreamEnd(text) => {
            end_answer(buffer_mut(runtime, side), text);
            set_status(runtime, side, "finalizing response".to_owned(), true);
        },
        TurnEvent::StreamDiscard => discard_answer(buffer_mut(runtime, side)),
        TurnEvent::StreamReasoningDelta(delta) => {
            if stream_reasoning(
                buffer_mut(runtime, side),
                delta,
                facts.thinking_expanded,
                attribution(app),
            ) {
                runtime.reasoning_start = Some(facts.now);
            }
        },
        TurnEvent::StreamReasoningEnd(content) => {
            let ms: u64 = take_elapsed(runtime, facts.now);
            end_reasoning(buffer_mut(runtime, side), content, ms);
        },
        other => {
            return Some(other);
        },
    }
    None
}

fn take_tools(
    app: &mut App,
    runtime: &mut UiRuntime,
    side: bool,
    event: TurnEvent,
    facts: ResponseFacts,
) -> (left: Option<TurnEvent>)
    ensures
        taken(
            on_tools(*old(app), *old(runtime), side, event, facts, *final(app), *final(runtime)),
            *old(app),
            *old(runtime),
            event,
            *final(app),
            *final(runtime),
            left,
        ),
{
    match event {
        TurnEvent::ToolCall { id, name, arguments } => {
            let activity: String = tool_activity_status(name.as_str());
            begin_call(buffer_mut(runtime, side), id, name, arguments, attribution(app));
            set_status(runtime, side, activity, true);
        },
        TurnEvent::ToolResult(result) => {
            end_call(
                buffer_mut(runtime, side),
                result,
                facts.success_expanded,
                attribution(app),
            );
            let responding: bool = runtime.is_responding;
            set_status(runtime, side, "thinking".to_owned(), responding);
        },
        TurnEvent::ToolCancelled { id } => cancel_call(buffer_mut(runtime, side), id),
        TurnEvent::ToolStream { id, chunk } => stream_output(
            buffer_mut(runtime, side),
            id.as_str(),
            chunk.as_str(),
        ),
        other => {
            return Some(other);
        },
    }
    None
}

fn queue_permission(runtime: &mut UiRuntime, side: bool, request: PermissionRequest)
    ensures
        permission_queued(*old(runtime), side, request, *final(runtime)),
{
    runtime.pending_permission.push_back(request);
    set_status(runtime, side, "awaiting permission".to_owned(), true);
}

fn queue_question(runtime: &mut UiRuntime, side: bool, request: UserQuestionRequest)
    ensures
        question_queued(*old(runtime), side, request, *final(runtime)),
{
    runtime.pending_question.push_back(request);
    set_status(runtime, side, "awaiting user input".to_owned(), true);
}

fn take_requests(app: &mut App, runtime: &mut UiRuntime, side: bool, event: TurnEvent) -> (left:
    Option<TurnEvent>)
    ensures
        taken(
            on_requests(*old(app), *old(runtime), side, event, *final(app), *final(runtime)),
            *old(app),
            *old(runtime),
            event,
            *final(app),
            *final(runtime),
            left,
        ),
{
    match event {
        TurnEvent::PermissionRequest(request) => queue_permission(runtime, side, request),
        TurnEvent::UserQuestionRequest(request) => queue_question(runtime, side, request),
        TurnEvent::Envoy { parent_call_id, event } => match event {
            EnvoyEvent::PermissionRequest(request) => {
                record_parent(
                    &mut runtime.envoy_permission_parent,
                    request.id.clone(),
                    parent_call_id,
                );
                queue_permission(runtime, side, request);
            },
            EnvoyEvent::UserQuestionRequest(request) => {
                record_parent(
                    &mut runtime.envoy_question_parent,
                    request.id.clone(),
                    parent_call_id,
                );
                queue_question(runtime, side, request);
            },
            EnvoyEvent::Entry(entry) => extend_envoy(
                buffer_mut(runtime, side),
                parent_call_id.as_str(),
                entry,
            ),
        },
        other => {
            return Some(other);
        },
    }
    None
}

fn compacted_notice(archived: usize, before: usize, after: usize) -> (text: String)
    ensures
        text@ == compacted_text(archived as nat, before as nat, after as nat),
{
    let mut text: String = "Compacted ".to_owned();
    text.append(decimal_string(archived as u64).as_str());
    text.append(" messages: ");
    text.append(decimal_string(before as u64).as_str());
    text.append(" -> ");
    text.append(decimal_string(after as u64).as_str());
    text.append(" chars.");
    text
}

fn retry_activity(attempt: u32, max: u32, delay_ms: u64, message: &str) -> (text: String)
    ensures
        text@ == retry_text(attempt as nat, max as nat, delay_ms as nat, message@),
{
    let seconds: u64 = delay_ms / 1000 + if delay_ms % 1000 > 0 {
        1
    } else {
        0
    };
    assert(seconds == (delay_ms + 999) / 1000);
    let mut text: String = "retry ".to_owned();
    text.append(decimal_string(attempt as u64).as_str());
    text.append("/");
    text.append(decimal_string(max as u64).as_str());
    text.append(" in ");
    text.append(decimal_string(seconds).as_str());
    text.append("s · ");
    text.append(compact_retry_reason(message).as_str());
    text
}

fn follow_harness(
    app: &mut App,
    runtime: &mut UiRuntime,
    side: bool,
    snapshot: HarnessSnapshot,
    now: u64,
)
    ensures
        harness_followed(*old(runtime), side, snapshot, now, *final(runtime)),
        if side {
            *final(app) == *old(app)
        } else {
            harness_mirrored(*old(app), snapshot, *final(app))
        },
{
    let running: bool = !same_text(snapshot.loop_status.as_str(), "idle");
    let ms: u64 = take_elapsed(runtime, now);
    finalize_streaming_reasoning(buffer_mut(runtime, side), ms);
    if !side {
        runtime.is_responding = running;
        if running {
            app.session.round_count = app.session.round_count.saturating_add(1);
            runtime.turn_started_at = Some(now);
        } else {
            runtime.activity_status = String::new();
            runtime.turn_started_at = None;
        }
        app.session.current_pursuit = snapshot.pursuit;
        app.session.loop_status = snapshot.loop_status;
        app.session.unattended = snapshot.unattended;
        app.session.current_turn = 0;
        app.session.review_alert = String::new();
    }
}

fn change_pursuit(app: &mut App, runtime: &mut UiRuntime, side: bool, pursuit: Pursuit)
    ensures
        pursuit_changed(
            *old(app),
            *old(runtime),
            side,
            pursuit,
            *final(app),
            *final(runtime),
        ),
{
    let known: Option<&Pursuit> = if side {
        None
    } else {
        match &app.session.current_pursuit {
            Some(current) => Some(current),
            None => None,
        }
    };
    if let Some(text) = describe_pursuit_change(known, &pursuit) {
        push_local_notice(buffer_mut(runtime, side), NoticeSeverity::Info, text);
    }
    if !side {
        app.session.current_pursuit = Some(pursuit);
    }
}

fn take_state(
    app: &mut App,
    runtime: &mut UiRuntime,
    side: bool,
    event: TurnEvent,
    facts: ResponseFacts,
)
    requires
        turn_fits(event),
    ensures
        on_state(*old(app), *old(runtime), side, event, facts, *final(app), *final(runtime)),
{
    match event {
        TurnEvent::Activity(status) => set_status(runtime, side, status, true),
        TurnEvent::RoundStarted { round } => {
            if !side {
                app.session.current_turn = round + 1;
            }
        },
        TurnEvent::Compacted { archived_messages, before_chars, after_chars } => {
            let text: String = compacted_notice(archived_messages, before_chars, after_chars);
            push_local_notice(buffer_mut(runtime, side), NoticeSeverity::Info, text);
        },
        TurnEvent::HarnessState(snapshot) => follow_harness(
            app,
            runtime,
            side,
            snapshot,
            facts.now,
        ),
        TurnEvent::PursuitUpdated(pursuit) => change_pursuit(app, runtime, side, pursuit),
        TurnEvent::PursuitCleared => {
            if !side {
                app.session.current_pursuit = None;
            }
        },
        TurnEvent::TodosUpdated(list) => {
            if !side {
                app.session.todos = Some(list);
            }
        },
        TurnEvent::UnattendedChanged(enabled) => {
            if !side {
                app.session.unattended = enabled;
            }
        },
        TurnEvent::RetryScheduled { attempt, max_attempts, delay_ms, message } => {
            let text: String = retry_activity(attempt, max_attempts, delay_ms, message.as_str());
            set_status(runtime, side, text, true);
        },
        TurnEvent::Error(text) => {
            push_local_notice(buffer_mut(runtime, side), NoticeSeverity::Error, text);
            set_status(runtime, side, String::new(), false);
        },
        TurnEvent::SessionReview { alert } => {
            if !side {
                app.session.review_alert = alert;
            }
        },
        _ => {},
    }
}

/// Takes an event of a turn in.
pub fn apply_turn(
    app: &mut App,
    runtime: &mut UiRuntime,
    side: bool,
    event: TurnEvent,
    facts: ResponseFacts,
)
    requires
        turn_fits(event),
    ensures
        turn_applied(
            *old(app),
            *old(runtime),
            side,
            event,
            facts,
            *final(app),
            *final(runtime),
        ),
{
    let event: TurnEvent = match take_stream(app, runtime, side, event, facts) {
        Some(event) => event,
        None => {
            return ;
        },
    };
    let event: TurnEvent = match take_tools(app, runtime, side, event, facts) {
        Some(event) => event,
        None => {
            return ;
        },
    };
    let event: TurnEvent = match take_requests(app, runtime, side, event) {
        Some(event) => event,
        None => {
            return ;
        },
    };
    take_state(app, runtime, side, event, facts);
}

} // verus!
