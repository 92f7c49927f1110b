//! What the permission sheet and the questions are for: the user's choice is the
//! answer that is sent.
use crate::agent::AgentRequest;
use crate::agent::PermissionDecision;
use crate::agent::PermissionRequest;
use crate::app::App;
use crate::app::Effect;
use crate::app::QuestionAction;
use crate::event_loop::dispatch::carried_out;
use crate::event_loop::dispatch::on_deciding;
use crate::event_loop::dispatch::on_lists;
use crate::event_loop::dispatch::ActionFacts;
use crate::event_loop::permission::law_answer_removes_only_its_request;
use crate::event_loop::permission::law_rejection_answers_all;
use crate::event_loop::permission::other_requests;
use crate::event_loop::permission::permission_submitted;
use crate::event_loop::permission::question_effect_applied;
use crate::event_loop::permission::QuestionEffect;
use crate::event_loop::pointer::pressed;
use crate::event_loop::pointer::PointerHits;
use crate::event_loop::routing::parent_map;
use crate::event_loop::UiRuntime;
use crate::input::InputAction;
use crate::modal::Modal;
use vstd::prelude::*;

verus! {

/// Whether an effect answers the request `id` with `decision`.
pub open spec fn answers_with(effect: Effect, id: Seq<char>, decision: PermissionDecision) -> bool {
    effect matches Effect::Send(
        AgentRequest::PermissionReply { request_id, decision: given, .. },
    ) && request_id@ == id && given == decision
}

/// Whether exactly one effect was added, and answers `id` with `decision`.
pub open spec fn one_answer(
    before: Seq<Effect>,
    id: Seq<char>,
    decision: PermissionDecision,
    after: Seq<Effect>,
) -> bool {
    &&& after.len() == before.len() + 1
    &&& forall|k: int| 0 <= k < before.len() ==> #[trigger] after[k] == before[k]
    &&& answers_with(after.last(), id, decision)
}

/// Whether `id` was answered first and every answer that was added is a
/// rejection.
pub open spec fn all_rejected(before: Seq<Effect>, id: Seq<char>, after: Seq<Effect>) -> bool {
    &&& after.len() > before.len()
    &&& forall|k: int| 0 <= k < before.len() ==> #[trigger] after[k] == before[k]
    &&& answers_with(after[before.len() as int], id, PermissionDecision::Reject)
    &&& forall|k: int|
        before.len() <= k < after.len() ==> ((#[trigger] after[k]) matches Effect::Send(
            AgentRequest::PermissionReply { decision, .. },
        ) && decision == PermissionDecision::Reject)
}

/// Whether the sheet's row `n` was carried out for `request`: the first allows
/// the call once, the second asks whether to allow it always, the third rejects
/// it, and the fourth shows or hides its details. While the sheet asks about
/// always, the first row allows it always and the second steps back.
pub open spec fn row_carried_out(
    a: App,
    n: usize,
    request: PermissionRequest,
    b: App,
    s: UiRuntime,
) -> bool {
    let asking = a.permission.permission_confirm_always;
    &&& !asking && n == 0 ==> one_answer(
        a.outbox@,
        request.id@,
        PermissionDecision::Once,
        b.outbox@,
    )
    &&& !asking && n == 1 ==> b.outbox == a.outbox && b.permission.permission_confirm_always
        && b.permission.pending_permission == Some(request) && b.overlay.modal_index == 0
        && b.overlay.active_modal == a.overlay.active_modal
    &&& !asking && n >= 2 && n != 3 ==> all_rejected(a.outbox@, request.id@, b.outbox@)
        && s.pending_permission@.len() == 0 && b.overlay.active_modal == Modal::Closed
    &&& !asking && n == 3 ==> b.outbox == a.outbox && b.permission.permission_show_details
        == !a.permission.permission_show_details && b.permission.permission_scroll == 0
        && b.permission.pending_permission == Some(request)
    &&& asking && n != 1 ==> one_answer(
        a.outbox@,
        request.id@,
        PermissionDecision::Always,
        b.outbox@,
    )
    &&& asking && n == 1 ==> b.outbox == a.outbox && !b.permission.permission_confirm_always
        && b.permission.pending_permission == Some(request)
    &&& n == 0 ==> forall|x: PermissionRequest|
        s.pending_permission@.contains(x) ==> x.id@ != request.id@
}

proof fn lemma_submitted(a: App, r: UiRuntime, request: PermissionRequest, b: App, s: UiRuntime)
    requires
        a.permission.pending_permission == Some(request),
        permission_submitted(a, r, b, s),
    ensures
        row_carried_out(a, a.overlay.modal_index, request, b, s),
{
    let left = other_requests(r.pending_permission@, request.id@);
    law_answer_removes_only_its_request(r.pending_permission@, request.id@);
    let parents = parent_map(r.envoy_permission_parent@).remove(request.id@);
    law_rejection_answers_all(left, parents);
    if a.overlay.modal_index >= 2 && !a.permission.permission_confirm_always
        && a.overlay.modal_index != 3 {
        let sent = crate::event_loop::permission::rejections(left, parents);
        let n = a.outbox@.len() as int;
        assert forall|k: int| n <= k < b.outbox@.len() implies ((
        #[trigger] b.outbox@[k]) matches Effect::Send(
            AgentRequest::PermissionReply { decision, .. },
        ) && decision == PermissionDecision::Reject) by {
            if k > n {
                assert(b.outbox@[k] == sent[k - n - 1]);
                assert(crate::event_loop::permission::rejects(sent[k - n - 1], left[k - n - 1].id));
            }
        }
    }
}

/// `Enter` on the sheet carries the highlighted row out.
pub proof fn law_submit_carries_out_row(
    a: App,
    r: UiRuntime,
    request: PermissionRequest,
    facts: ActionFacts,
    b: App,
    s: UiRuntime,
)
    requires
        a.permission.pending_permission == Some(request),
        carried_out(a, r, InputAction::PermissionSubmit, facts, b, s),
    ensures
        row_carried_out(a, a.overlay.modal_index, request, b, s),
{
    reveal(on_deciding);
    lemma_submitted(a, r, request, b, s);
}

/// A press on an action of the sheet carries that action out, whatever was
/// highlighted before.
pub proof fn law_press_carries_out_action(
    a: App,
    r: UiRuntime,
    x: u16,
    y: u16,
    over: PointerHits,
    n: usize,
    request: PermissionRequest,
    b: App,
    s: UiRuntime,
)
    requires
        a.overlay.active_modal == Modal::Permission,
        a.permission.pending_permission == Some(request),
        over.permission_action == Some(n),
        pressed(a, r, x, y, over, b, s),
    ensures
        row_carried_out(a, n, request, b, s),
{
    let quiet = App { view: crate::event_loop::pointer::released(a.view), ..a };
    let chosen = App {
        overlay: crate::app::Overlay { modal_index: n, ..quiet.overlay },
        ..quiet
    };
    lemma_submitted(chosen, r, request, b, s);
}

/// Once a request is allowed, the sheet turns to the oldest request that is left,
/// and closes when there is none.
pub proof fn law_sheet_turns_to_next(
    a: App,
    r: UiRuntime,
    request: PermissionRequest,
    next: PermissionRequest,
    facts: ActionFacts,
    b: App,
    s: UiRuntime,
)
    requires
        a.permission.pending_permission == Some(request),
        a.overlay.modal_index == 0,
        carried_out(a, r, InputAction::PermissionSubmit, facts, b, s),
    ensures
        r.pending_permission@ == seq![request] ==> b.permission.pending_permission is None
            && b.overlay.active_modal == Modal::Closed && s.pending_permission@.len() == 0,
        r.pending_permission@ == seq![request, next] && next.id@ != request.id@
            ==> b.permission.pending_permission == Some(next) && b.overlay.active_modal
            == a.overlay.active_modal && s.pending_permission@ == seq![next],
        b.overlay.modal_index == 0,
        !b.permission.permission_confirm_always,
        !b.permission.permission_show_details,
{
    reveal(on_deciding);
    let queue = r.pending_permission@;
    if queue == seq![request] {
        assert(queue.drop_last() =~= Seq::<PermissionRequest>::empty());
        reveal_with_fuel(other_requests, 2);
    }
    if queue == seq![request, next] && next.id@ != request.id@ {
        assert(queue.drop_last() =~= seq![request]);
        assert(queue.drop_last().drop_last() =~= Seq::<PermissionRequest>::empty());
        reveal_with_fuel(other_requests, 3);
        assert(Seq::<PermissionRequest>::empty().push(next) =~= seq![next]);
    }
}

/// The answer to a request names the call of the envoy that asked, as it was
/// recorded last, and no call for one that no envoy asked.
pub proof fn law_answer_names_parent(
    a: App,
    r: UiRuntime,
    request: PermissionRequest,
    i: int,
    facts: ActionFacts,
    b: App,
    s: UiRuntime,
)
    requires
        a.permission.pending_permission == Some(request),
        a.overlay.modal_index == 0,
        carried_out(a, r, InputAction::PermissionSubmit, facts, b, s),
    ensures
        ({
            let parents = r.envoy_permission_parent@;
            let sent = b.outbox@.last();
            &&& 0 <= i < parents.len() && parents[i].0@ == request.id@ && (forall|k: int|
                i < k < parents.len() ==> (#[trigger] parents[k]).0@ != request.id@) ==> (
            sent matches Effect::Send(AgentRequest::PermissionReply { parent_call_id, .. })
                && parent_call_id == Some(parents[i].1))
            &&& (forall|k: int| 0 <= k < parents.len() ==> (#[trigger] parents[k]).0@ != request.id@)
                ==> (sent matches Effect::Send(AgentRequest::PermissionReply {
                parent_call_id,
                ..
            }) && parent_call_id is None)
        }),
{
    reveal(on_deciding);
    let parents = r.envoy_permission_parent@;
    if 0 <= i < parents.len() && parents[i].0@ == request.id@ && (forall|k: int|
        i < k < parents.len() ==> (#[trigger] parents[k]).0@ != request.id@) {
        lemma_last_parent(parents, request.id@, i);
    }
    if forall|k: int| 0 <= k < parents.len() ==> (#[trigger] parents[k]).0@ != request.id@ {
        lemma_no_parent(parents, request.id@);
    }
}

proof fn lemma_last_parent(entries: Seq<(String, String)>, id: Seq<char>, i: int)
    requires
        0 <= i < entries.len(),
        entries[i].0@ == id,
        forall|k: int| i < k < entries.len() ==> (#[trigger] entries[k]).0@ != id,
    ensures
        parent_map(entries).contains_key(id),
        parent_map(entries)[id] == entries[i].1,
    decreases entries.len(),
{
    if i < entries.len() - 1 {
        let rest = entries.drop_last();
        assert forall|k: int| i < k < rest.len() implies (#[trigger] rest[k]).0@ != id by {
            assert(rest[k] == entries[k]);
        }
        lemma_last_parent(rest, id, i);
        assert(entries[entries.len() - 1].0@ != id);
    }
}

proof fn lemma_no_parent(entries: Seq<(String, String)>, id: Seq<char>)
    requires
        forall|k: int| 0 <= k < entries.len() ==> (#[trigger] entries[k]).0@ != id,
    ensures
        !parent_map(entries).contains_key(id),
    decreases entries.len(),
{
    if entries.len() > 0 {
        let rest = entries.drop_last();
        assert forall|k: int| 0 <= k < rest.len() implies (#[trigger] rest[k]).0@ != id by {
            assert(rest[k] == entries[k]);
        }
        lemma_no_parent(rest, id);
        assert(entries[entries.len() - 1].0@ != id);
    }
}

/// Stepping back from the question about always leads to its row, and the
/// arrows walk the rows of the sheet: four, or two while it asks about always.
pub proof fn law_sheet_rows(a: App, r: UiRuntime, facts: ActionFacts, b: App, s: UiRuntime)
    requires
        a.overlay.active_modal == Modal::Permission,
    ensures
        carried_out(a, r, InputAction::PermissionBack, facts, b, s)
            ==> !b.permission.permission_confirm_always && b.overlay.modal_index == 1
            && b.outbox == a.outbox,
        carried_out(a, r, InputAction::ModalDown, facts, b, s) && a.overlay.modal_index < (
        if a.permission.permission_confirm_always {
            1int
        } else {
            3int
        }) ==> b.overlay.modal_index == a.overlay.modal_index + 1,
        carried_out(a, r, InputAction::ModalDown, facts, b, s) && a.overlay.modal_index == (
        if a.permission.permission_confirm_always {
            1int
        } else {
            3int
        }) ==> b.overlay.modal_index == 0,
        carried_out(a, r, InputAction::ModalUp, facts, b, s) && a.overlay.modal_index > 0
            ==> b.overlay.modal_index == a.overlay.modal_index - 1,
{
    reveal(on_deciding);
    reveal(on_lists);
}

/// Dismissing the sheet closes it and leaves no request waiting; each one is
/// rejected, in the order in which they came.
pub proof fn law_dismissal_rejects_queue(
    a: App,
    r: UiRuntime,
    facts: ActionFacts,
    b: App,
    s: UiRuntime,
)
    requires
        carried_out(a, r, InputAction::PermissionReject, facts, b, s),
    ensures
        b.overlay.active_modal == Modal::Closed,
        b.permission.pending_permission is None,
        s.pending_permission@.len() == 0,
        b.outbox@.len() == a.outbox@.len() + r.pending_permission@.len(),
        forall|k: int|
            0 <= k < r.pending_permission@.len() ==> answers_with(
                b.outbox@[a.outbox@.len() + k],
                (#[trigger] r.pending_permission@[k]).id@,
                PermissionDecision::Reject,
            ),
{
    reveal(on_deciding);
    let parents = parent_map(r.envoy_permission_parent@);
    law_rejection_answers_all(r.pending_permission@, parents);
    assert forall|k: int| 0 <= k < r.pending_permission@.len() implies answers_with(
        b.outbox@[a.outbox@.len() + k],
        (#[trigger] r.pending_permission@[k]).id@,
        PermissionDecision::Reject,
    ) by {
        let sent = crate::event_loop::permission::rejections(r.pending_permission@, parents);
        assert(b.outbox@[a.outbox@.len() + k] == sent[k]);
        assert(crate::event_loop::permission::rejects(sent[k], r.pending_permission@[k].id));
    }
}

/// What the user does in a question is handed to it as it is; a question that is
/// cancelled is gone at once.
pub proof fn law_question_actions_are_handed_on(
    a: App,
    r: UiRuntime,
    n: usize,
    c: char,
    facts: ActionFacts,
    b: App,
    s: UiRuntime,
)
    requires
        a.overlay.active_modal == Modal::Question,
        a.question is Some,
    ensures
        carried_out(a, r, InputAction::QuestionUp, facts, b, s) ==> b.outbox@ == a.outbox@.push(
            Effect::Question(QuestionAction::Up),
        ) && b.question == a.question,
        carried_out(a, r, InputAction::QuestionDown, facts, b, s) ==> b.outbox@ == a.outbox@.push(
            Effect::Question(QuestionAction::Down),
        ) && b.question == a.question,
        carried_out(a, r, InputAction::QuestionToggle, facts, b, s) ==> b.outbox@ == a.outbox@.push(
            Effect::Question(QuestionAction::Toggle),
        ) && b.question == a.question,
        carried_out(a, r, InputAction::QuestionSelect(n), facts, b, s) ==> b.outbox@
            == a.outbox@.push(Effect::Question(QuestionAction::Select(n))) && b.question
            == a.question,
        carried_out(a, r, InputAction::QuestionSubmit, facts, b, s) ==> b.outbox@ == a.outbox@.push(
            Effect::Question(QuestionAction::Submit),
        ) && b.question == a.question,
        carried_out(a, r, InputAction::QuestionInsertChar(c), facts, b, s) ==> b.outbox@
            == a.outbox@.push(Effect::Question(QuestionAction::InsertChar(c))),
        carried_out(a, r, InputAction::QuestionBackspace, facts, b, s) ==> b.outbox@
            == a.outbox@.push(Effect::Question(QuestionAction::Backspace)),
        carried_out(a, r, InputAction::QuestionCancel, facts, b, s) ==> b.outbox@ == a.outbox@.push(
            Effect::Question(QuestionAction::Cancel),
        ) && b.question is None,
{
    reveal(on_deciding);
}

/// A press on an option of a question picks that option, counted from one.
pub proof fn law_press_picks_option(
    a: App,
    r: UiRuntime,
    x: u16,
    y: u16,
    over: PointerHits,
    n: usize,
    b: App,
    s: UiRuntime,
)
    requires
        a.overlay.active_modal == Modal::Question,
        a.question is Some,
        over.question_option == Some(n),
        n < usize::MAX,
        pressed(a, r, x, y, over, b, s),
    ensures
        b.outbox@ == a.outbox@.push(Effect::Question(QuestionAction::Select((n + 1) as usize))),
        s == r,
{
}

/// The answers to a question are sent as they are, to the question they answer,
/// by way of the envoy that asked; closing a question sends nothing.
pub proof fn law_question_answers_are_sent(
    a: App,
    r: UiRuntime,
    id: String,
    answers: Vec<String>,
    b: App,
    s: UiRuntime,
)
    ensures
        question_effect_applied(
            a,
            r,
            QuestionEffect::Reply { request_id: id, answers },
            b,
            s,
        ) ==> {
            &&& b.outbox@.len() == a.outbox@.len() + 1
            &&& b.outbox@.last() matches Effect::Send(
                AgentRequest::UserQuestionReply { request_id, answers: given, parent_call_id },
            ) && request_id == id && given == answers && (parent_map(
                r.envoy_question_parent@,
            ).contains_key(id@) ==> parent_call_id == Some(
                parent_map(r.envoy_question_parent@)[id@],
            )) && (!parent_map(r.envoy_question_parent@).contains_key(id@)
                ==> parent_call_id is None)
        },
        question_effect_applied(a, r, QuestionEffect::Closed { request_id: id }, b, s)
            ==> b.outbox == a.outbox && (s.pending_question@.len() == 0
            ==> b.overlay.active_modal == Modal::Closed && b.question is None),
{
}

} // verus!
