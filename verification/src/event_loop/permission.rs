//! Decisions on permission requests and answers to questions.
use crate::agent::AgentRequest;
use crate::agent::PermissionDecision;
use crate::agent::PermissionRequest;
use crate::agent::UserQuestionRequest;
use crate::app::switching::fields_given_up;
use crate::app::switching::with_modal;
use crate::app::App;
use crate::app::Effect;
use crate::app::Overlay;
use crate::app::PermissionSheet;
use crate::event_loop::routing::parent_map;
use crate::event_loop::routing::parent_of;
use crate::event_loop::routing::take_parent;
use crate::event_loop::UiRuntime;
use crate::modal::Modal;
use crate::text::same_text;
use std::collections::VecDeque;
use vstd::prelude::*;

verus! {

/// The reply to a request.
pub open spec fn reply(
    id: String,
    decision: PermissionDecision,
    parent_call_id: Option<String>,
) -> Effect {
    Effect::Send(AgentRequest::PermissionReply { request_id: id, decision, parent_call_id })
}

/// Rejections of all queued requests, in order.
pub open spec fn rejections(
    queue: Seq<PermissionRequest>,
    parents: Map<Seq<char>, String>,
) -> Seq<Effect>
    decreases queue.len(),
{
    if queue.len() == 0 {
        Seq::empty()
    } else {
        seq![
            reply(queue[0].id, PermissionDecision::Reject, parent_of(parents, queue[0].id@)),
        ] + rejections(queue.drop_first(), parents.remove(queue[0].id@))
    }
}

/// The parent table once all queued requests have been answered.
pub open spec fn parents_after(
    queue: Seq<PermissionRequest>,
    parents: Map<Seq<char>, String>,
) -> Map<Seq<char>, String>
    decreases queue.len(),
{
    if queue.len() == 0 {
        parents
    } else {
        parents_after(queue.drop_first(), parents.remove(queue[0].id@))
    }
}

/// The requests with other ids.
pub open spec fn other_requests(queue: Seq<PermissionRequest>, id: Seq<char>) -> Seq<
    PermissionRequest,
>
    decreases queue.len(),
{
    if queue.len() == 0 {
        queue
    } else if queue.last().id@ == id {
        other_requests(queue.drop_last(), id)
    } else {
        other_requests(queue.drop_last(), id).push(queue.last())
    }
}

/// The sheet as it is between requests.
pub open spec fn cleared_sheet(pending: Option<PermissionRequest>) -> PermissionSheet {
    PermissionSheet {
        pending_permission: pending,
        permission_confirm_always: false,
        permission_show_details: false,
        permission_scroll: 0,
        permission_max_scroll: 0,
    }
}

/// The runtime with another queue and another parent table.
pub open spec fn with_queue(r: UiRuntime, s: UiRuntime) -> UiRuntime {
    UiRuntime {
        pending_permission: s.pending_permission,
        envoy_permission_parent: s.envoy_permission_parent,
        ..r
    }
}

/// The decision that the sheet's selected row stands for.
pub open spec fn selected_decision(a: App) -> PermissionDecision {
    if a.permission.permission_confirm_always {
        PermissionDecision::Always
    } else if a.overlay.modal_index == 0 {
        PermissionDecision::Once
    } else {
        PermissionDecision::Reject
    }
}

/// Whether the request on the sheet was answered with `decision`: `a` and `r`
/// became `b` and `s`. A rejection answers every other queued request too.
pub open spec fn answered(
    a: App,
    r: UiRuntime,
    request: PermissionRequest,
    decision: PermissionDecision,
    b: App,
    s: UiRuntime,
) -> bool {
    let parents = parent_map(r.envoy_permission_parent@);
    let others = parents.remove(request.id@);
    let queue = r.pending_permission@;
    let left = other_requests(queue, request.id@);
    let rejected = decision == PermissionDecision::Reject;
    let own = reply(request.id, decision, parent_of(parents, request.id@));
    let closes = rejected || left.len() == 0;
    let shown = if closes {
        with_modal(a, Modal::Closed, b)
    } else {
        a
    };
    &&& closes ==> fields_given_up(Modal::Closed, b)
    &&& b.outbox@ == a.outbox@.push(own) + (if rejected {
        rejections(left, others)
    } else {
        Seq::empty()
    })
    &&& s == with_queue(r, s)
    &&& s.pending_permission@ == (if rejected {
        Seq::empty()
    } else {
        left
    })
    &&& parent_map(s.envoy_permission_parent@) == (if rejected {
        parents_after(left, others)
    } else {
        others
    })
    &&& b == (App {
        outbox: b.outbox,
        permission: cleared_sheet(
            if !rejected && left.len() > 0 {
                Some(left[0])
            } else {
                None
            },
        ),
        overlay: Overlay { modal_index: 0, ..shown.overlay },
        ..shown
    })
}

/// Whether the sheet's selected row was activated: `a` and `r` became `b` and
/// `s`. Rows: allow once, always, reject, details; while confirming: confirm,
/// cancel.
pub open spec fn permission_submitted(a: App, r: UiRuntime, b: App, s: UiRuntime) -> bool {
    let confirming = a.permission.permission_confirm_always;
    let row = a.overlay.modal_index;
    if confirming && row == 1 {
        &&& s == r
        &&& b == (App {
            permission: PermissionSheet { permission_confirm_always: false, ..a.permission },
            ..a
        })
    } else if !confirming && row == 3 {
        &&& s == r
        &&& b == (App {
            permission: PermissionSheet {
                permission_show_details: !a.permission.permission_show_details,
                permission_scroll: 0,
                ..a.permission
            },
            ..a
        })
    } else if !confirming && row == 1 {
        &&& s == r
        &&& b == (App {
            permission: PermissionSheet {
                permission_confirm_always: true,
                permission_show_details: false,
                ..a.permission
            },
            overlay: Overlay { modal_index: 0, ..a.overlay },
            ..a
        })
    } else {
        match a.permission.pending_permission {
            Some(request) => answered(a, r, request, selected_decision(a), b, s),
            None => b == a && s == r,
        }
    }
}

/// Sends a request to the agent.
pub fn send(app: &mut App, request: AgentRequest)
    ensures
        final(app).outbox@ == old(app).outbox@.push(Effect::Send(request)),
        *final(app) == (App { outbox: final(app).outbox, ..*old(app) }),
{
    app.outbox.push(Effect::Send(request));
}

/// Rejects every queued request.
fn reject_queue(
    app: &mut App,
    queue: VecDeque<PermissionRequest>,
    parents: &mut Vec<(String, String)>,
)
    ensures
        final(app).outbox@ == old(app).outbox@ + rejections(queue@, parent_map(old(parents)@)),
        *final(app) == (App { outbox: final(app).outbox, ..*old(app) }),
        parent_map(final(parents)@) == parents_after(queue@, parent_map(old(parents)@)),
{
    let count: usize = queue.len();
    let ghost start = parent_map(parents@);
    let ghost whole = app.outbox@ + rejections(queue@, start);
    let mut i: usize = 0;
    proof {
        assert(queue@.skip(0) =~= queue@);
    }
    while i < count
        invariant
            i <= count,
            count == queue@.len(),
            *app == (App { outbox: app.outbox, ..*old(app) }),
            start == parent_map(old(parents)@),
            whole == old(app).outbox@ + rejections(queue@, start),
            whole == app.outbox@ + rejections(queue@.skip(i as int), parent_map(parents@)),
            parents_after(queue@, start) == parents_after(
                queue@.skip(i as int),
                parent_map(parents@),
            ),
        decreases count - i,
    {
        let pending: &PermissionRequest = &queue[i];
        proof {
            assert(queue@.skip(i as int)[0] == *pending);
            assert(queue@.skip(i as int).drop_first() =~= queue@.skip(i + 1));
        }
        let parent_call_id: Option<String> = take_parent(parents, pending.id.as_str());
        send(
            app,
            AgentRequest::PermissionReply {
                request_id: pending.id.clone(),
                decision: PermissionDecision::Reject,
                parent_call_id,
            },
        );
        proof {
            assert(whole =~= app.outbox@ + rejections(queue@.skip(i + 1), parent_map(parents@)));
        }
        i += 1;
    }
    proof {
        assert(queue@.skip(count as int) =~= Seq::<PermissionRequest>::empty());
        assert(whole =~= app.outbox@);
    }
}

/// Drops the requests with the given id.
fn drop_request(queue: &mut VecDeque<PermissionRequest>, id: &str)
    ensures
        final(queue)@ == other_requests(old(queue)@, id@),
{
    let mut left: VecDeque<PermissionRequest> = VecDeque::new();
    let count: usize = queue.len();
    let mut i: usize = 0;
    while i < count
        invariant
            i <= count,
            count == queue@.len(),
            queue@ == old(queue)@,
            left@ == other_requests(queue@.take(i as int), id@),
        decreases count - i,
    {
        proof {
            assert(queue@.take(i + 1).drop_last() =~= queue@.take(i as int));
        }
        if !same_text(queue[i].id.as_str(), id) {
            left.push_back(queue[i].clone());
        }
        i += 1;
    }
    proof {
        assert(queue@.take(count as int) =~= queue@);
    }
    *queue = left;
}

/// Activates the sheet's selected row.
pub fn handle_permission_submit(app: &mut App, runtime: &mut UiRuntime)
    ensures
        permission_submitted(*old(app), *old(runtime), *final(app), *final(runtime)),
{
    if app.permission.permission_confirm_always {
        if app.overlay.modal_index == 1 {
            app.permission.permission_confirm_always = false;
            return ;
        }
    } else {
        if app.overlay.modal_index == 3 {
            app.permission.permission_show_details = !app.permission.permission_show_details;
            app.permission.permission_scroll = 0;
            return ;
        }
        if app.overlay.modal_index == 1 {
            app.permission.permission_confirm_always = true;
            app.permission.permission_show_details = false;
            app.overlay.modal_index = 0;
            return ;
        }
    }
    let decision: PermissionDecision = if app.permission.permission_confirm_always {
        PermissionDecision::Always
    } else if app.overlay.modal_index == 0 {
        PermissionDecision::Once
    } else {
        PermissionDecision::Reject
    };
    answer_permission(app, runtime, decision);
}

/// Answers the request on the sheet.
fn answer_permission(app: &mut App, runtime: &mut UiRuntime, decision: PermissionDecision)
    ensures
        match old(app).permission.pending_permission {
            Some(request) => answered(
                *old(app),
                *old(runtime),
                request,
                decision,
                *final(app),
                *final(runtime),
            ),
            None => *final(app) == *old(app) && *final(runtime) == *old(runtime),
        },
{
    if app.permission.pending_permission.is_none() {
        return ;
    }
    if let Some(request) = app.permission.pending_permission.take() {
        let parent_call_id: Option<String> = take_parent(
            &mut runtime.envoy_permission_parent,
            request.id.as_str(),
        );
        send(
            app,
            AgentRequest::PermissionReply {
                request_id: request.id.clone(),
                decision,
                parent_call_id,
            },
        );
        let ghost sent = app.outbox@;
        let mut next: Option<PermissionRequest> = None;
        drop_request(&mut runtime.pending_permission, request.id.as_str());
        if decision == PermissionDecision::Reject {
            let mut queue: VecDeque<PermissionRequest> = VecDeque::new();
            std::mem::swap(&mut queue, &mut runtime.pending_permission);
            reject_queue(app, queue, &mut runtime.envoy_permission_parent);
        } else {
            if runtime.pending_permission.len() > 0 {
                next = Some(runtime.pending_permission[0].clone());
            }
            proof {
                assert(app.outbox@ =~= sent + Seq::<Effect>::empty());
            }
        }
        show_request(app, next);
    }
}

/// Shows the next request on a cleared sheet; closes the sheet where there is
/// none.
fn show_request(app: &mut App, next: Option<PermissionRequest>)
    ensures
        ({
            let (a, b) = (*old(app), *final(app));
            let shown = if next is None {
                with_modal(a, Modal::Closed, b)
            } else {
                a
            };
            &&& next is None ==> fields_given_up(Modal::Closed, b)
            &&& b == (App {
                permission: cleared_sheet(next),
                overlay: Overlay { modal_index: 0, ..shown.overlay },
                ..shown
            })
        }),
{
    if next.is_none() {
        app.switch_modal(Modal::Closed);
    }
    app.overlay.modal_index = 0;
    app.permission = PermissionSheet {
        pending_permission: next,
        permission_confirm_always: false,
        permission_show_details: false,
        permission_scroll: 0,
        permission_max_scroll: 0,
    };
}

/// Whether the sheet was dismissed: every queued request is rejected.
pub open spec fn permission_rejected(a: App, r: UiRuntime, b: App, s: UiRuntime) -> bool {
    let parents = parent_map(r.envoy_permission_parent@);
    let queue = r.pending_permission@;
    let shown = with_modal(a, Modal::Closed, b);
    &&& fields_given_up(Modal::Closed, b)
    &&& b.outbox@ == a.outbox@ + rejections(queue, parents)
    &&& s == with_queue(r, s)
    &&& s.pending_permission@ == Seq::<PermissionRequest>::empty()
    &&& parent_map(s.envoy_permission_parent@) == parents_after(queue, parents)
    &&& b == (App {
        outbox: b.outbox,
        permission: PermissionSheet {
            pending_permission: None,
            permission_confirm_always: false,
            permission_show_details: false,
            ..a.permission
        },
        overlay: Overlay { modal_index: 0, ..shown.overlay },
        ..shown
    })
}

/// Rejects every queued request and closes the sheet.
pub fn handle_permission_reject(app: &mut App, runtime: &mut UiRuntime)
    ensures
        permission_rejected(*old(app), *old(runtime), *final(app), *final(runtime)),
{
    let mut queue: VecDeque<PermissionRequest> = VecDeque::new();
    std::mem::swap(&mut queue, &mut runtime.pending_permission);
    app.permission.pending_permission = None;
    app.switch_modal(Modal::Closed);
    app.overlay.modal_index = 0;
    app.permission.permission_confirm_always = false;
    app.permission.permission_show_details = false;
    reject_queue(app, queue, &mut runtime.envoy_permission_parent);
}

/// What the question overlay asks of the loop.
#[derive(Debug)]
pub enum QuestionEffect {
    /// Send the answers and drop the request.
    Reply { request_id: String, answers: Vec<String> },
    /// Drop the request.
    Closed { request_id: String },
}

/// The questions with other ids.
pub open spec fn other_questions(queue: Seq<UserQuestionRequest>, id: Seq<char>) -> Seq<
    UserQuestionRequest,
>
    decreases queue.len(),
{
    if queue.len() == 0 {
        queue
    } else if queue.last().id@ == id {
        other_questions(queue.drop_last(), id)
    } else {
        other_questions(queue.drop_last(), id).push(queue.last())
    }
}

/// Whether one effect of the question overlay was carried out.
pub open spec fn question_effect_applied(
    a: App,
    r: UiRuntime,
    effect: QuestionEffect,
    b: App,
    s: UiRuntime,
) -> bool {
    match effect {
        QuestionEffect::Reply { request_id, answers } => {
            let parents = parent_map(r.envoy_question_parent@);
            &&& b.outbox@ == a.outbox@.push(
                Effect::Send(
                    AgentRequest::UserQuestionReply {
                        request_id,
                        answers,
                        parent_call_id: parent_of(parents, request_id@),
                    },
                ),
            )
            &&& b == (App { outbox: b.outbox, ..a })
            &&& parent_map(s.envoy_question_parent@) == parents.remove(request_id@)
            &&& s.pending_question@ == other_questions(r.pending_question@, request_id@)
            &&& s == (UiRuntime {
                envoy_question_parent: s.envoy_question_parent,
                pending_question: s.pending_question,
                ..r
            })
        },
        QuestionEffect::Closed { request_id } => {
            &&& s.pending_question@ == other_questions(r.pending_question@, request_id@)
            &&& s == (UiRuntime { pending_question: s.pending_question, ..r })
            &&& b == (if s.pending_question@.len() == 0 {
                App {
                    question: None,
                    overlay: Overlay {
                        active_modal: Modal::Closed,
                        modal_index: 0,
                        ..a.overlay
                    },
                    ..a
                }
            } else {
                a
            })
        },
    }
}

/// Carries out one effect of the question overlay.
pub fn apply_question_effect(app: &mut App, runtime: &mut UiRuntime, effect: QuestionEffect)
    ensures
        question_effect_applied(*old(app), *old(runtime), effect, *final(app), *final(runtime)),
{
    match effect {
        QuestionEffect::Reply { request_id, answers } => {
            let parent_call_id: Option<String> = take_parent(
                &mut runtime.envoy_question_parent,
                request_id.as_str(),
            );
            drop_question(&mut runtime.pending_question, request_id.as_str());
            send(app, AgentRequest::UserQuestionReply { request_id, answers, parent_call_id });
        },
        QuestionEffect::Closed { request_id } => {
            drop_question(&mut runtime.pending_question, request_id.as_str());
            if runtime.pending_question.len() == 0 {
                app.question = None;
                app.overlay.active_modal = Modal::Closed;
                app.overlay.modal_index = 0;
            }
        },
    }
}

fn drop_question(queue: &mut VecDeque<UserQuestionRequest>, id: &str)
    ensures
        final(queue)@ == other_questions(old(queue)@, id@),
{
    let mut left: VecDeque<UserQuestionRequest> = VecDeque::new();
    let count: usize = queue.len();
    let mut i: usize = 0;
    while i < count
        invariant
            i <= count,
            count == queue@.len(),
            queue@ == old(queue)@,
            left@ == other_questions(queue@.take(i as int), id@),
        decreases count - i,
    {
        proof {
            assert(queue@.take(i + 1).drop_last() =~= queue@.take(i as int));
        }
        if !same_text(queue[i].id.as_str(), id) {
            left.push_back(queue[i].clone());
        }
        i += 1;
    }
    proof {
        assert(queue@.take(count as int) =~= queue@);
    }
    *queue = left;
}

/// Whether the effects of the question overlay were carried out in order.
pub open spec fn question_effects_applied(
    a: App,
    r: UiRuntime,
    effects: Seq<QuestionEffect>,
    b: App,
    s: UiRuntime,
) -> bool
    decreases effects.len(),
{
    if effects.len() == 0 {
        b == a && s == r
    } else {
        exists|m: App, n: UiRuntime|
            question_effects_applied(a, r, effects.drop_last(), m, n) && #[trigger]
            question_effect_applied(m, n, effects.last(), b, s)
    }
}

/// Carries out the effects of the question overlay.
pub fn apply_question_effects(app: &mut App, runtime: &mut UiRuntime, effects: Vec<QuestionEffect>)
    ensures
        question_effects_applied(
            *old(app),
            *old(runtime),
            effects@,
            *final(app),
            *final(runtime),
        ),
{
    let ghost all = effects@;
    let ghost mut done: int = 0;
    let mut rest: VecDeque<QuestionEffect> = VecDeque::new();
    let mut effects = effects;
    while effects.len() > 0
        invariant
            effects@.len() <= all.len(),
            effects@ == all.take(effects@.len() as int),
            rest@ == all.skip(effects@.len() as int),
        decreases effects@.len(),
    {
        let ghost n = effects@.len() as int;
        if let Some(effect) = effects.pop() {
            rest.push_front(effect);
            proof {
                assert(effects@ =~= all.take(n - 1));
                assert(rest@ =~= all.skip(n - 1));
            }
        }
    }
    proof {
        assert(all.skip(0) =~= all);
        assert(all.take(0) =~= Seq::<QuestionEffect>::empty());
    }
    while rest.len() > 0
        invariant
            0 <= done <= all.len(),
            rest@ == all.skip(done),
            question_effects_applied(*old(app), *old(runtime), all.take(done), *app, *runtime),
        decreases rest@.len(),
    {
        let ghost before_app = *app;
        let ghost before_runtime = *runtime;
        if let Some(effect) = rest.pop_front() {
            apply_question_effect(app, runtime, effect);
            proof {
                let next = all.take(done + 1);
                assert(next.drop_last() =~= all.take(done));
                assert(next.last() == effect);
                assert(question_effects_applied(
                    *old(app),
                    *old(runtime),
                    next.drop_last(),
                    before_app,
                    before_runtime,
                ));
                assert(question_effect_applied(
                    before_app,
                    before_runtime,
                    next.last(),
                    *app,
                    *runtime,
                ));
                assert(question_effects_applied(*old(app), *old(runtime), next, *app, *runtime));
                assert(rest@ =~= all.skip(done + 1));
                done = done + 1;
            }
        }
    }
    proof {
        assert(all.take(done) =~= all);
    }
}

/// Whether an effect answers the request `id` with a rejection.
pub open spec fn rejects(effect: Effect, id: String) -> bool {
    effect matches Effect::Send(AgentRequest::PermissionReply {
        request_id,
        decision,
        ..
    }) && request_id == id && decision == PermissionDecision::Reject
}

/// No request stays blocked: a rejection answers every queued one.
pub proof fn law_rejection_answers_all(
    queue: Seq<PermissionRequest>,
    parents: Map<Seq<char>, String>,
)
    ensures
        rejections(queue, parents).len() == queue.len(),
        forall|i: int|
            0 <= i < queue.len() ==> rejects(
                #[trigger] rejections(queue, parents)[i],
                queue[i].id,
            ),
    decreases queue.len(),
{
    if queue.len() > 0 {
        let rest = queue.drop_first();
        let later = parents.remove(queue[0].id@);
        law_rejection_answers_all(rest, later);
        let all = rejections(queue, parents);
        assert forall|i: int| 0 <= i < queue.len() implies rejects(
            #[trigger] all[i],
            queue[i].id,
        ) by {
            if i > 0 {
                assert(all[i] == rejections(rest, later)[i - 1]);
                assert(queue[i] == rest[i - 1]);
            }
        }
    }
}

/// Whether an effect answers the request `id`.
pub open spec fn replies_to(effect: Effect, id: Seq<char>) -> bool {
    effect matches Effect::Send(AgentRequest::PermissionReply { request_id, .. }) && request_id@
        == id
}

/// Whether the `i`th effect answers the request `id`, and no other does.
pub open spec fn is_only_reply(sent: Seq<Effect>, id: Seq<char>, i: int) -> bool {
    &&& 0 <= i < sent.len()
    &&& forall|j: int| 0 <= j < sent.len() ==> (#[trigger] replies_to(sent[j], id) <==> j == i)
}

/// Whether the request `id` is answered exactly once.
pub open spec fn replied_once(sent: Seq<Effect>, id: Seq<char>) -> bool {
    exists|i: int| is_only_reply(sent, id, i)
}

/// Whether no two requests share an id.
pub open spec fn distinct_ids(queue: Seq<PermissionRequest>) -> bool {
    forall|i: int, j: int|
        0 <= i < j < queue.len() ==> (#[trigger] queue[i]).id@ != (#[trigger] queue[j]).id@
}

/// Rejecting the request on the sheet answers it and every queued request, each
/// exactly once, and nothing else.
pub proof fn law_rejection_answers_each_once(
    a: App,
    r: UiRuntime,
    request: PermissionRequest,
    b: App,
    s: UiRuntime,
)
    requires
        answered(a, r, request, PermissionDecision::Reject, b, s),
        distinct_ids(r.pending_permission@),
    ensures
        replied_once(b.outbox@.skip(a.outbox@.len() as int), request.id@),
        forall|k: int|
            0 <= k < r.pending_permission@.len() ==> replied_once(
                b.outbox@.skip(a.outbox@.len() as int),
                (#[trigger] r.pending_permission@[k]).id@,
            ),
        forall|i: int|
            a.outbox@.len() <= i < b.outbox@.len() ==> rejects(
                #[trigger] b.outbox@[i],
                request.id,
            ) || exists|k: int|
                0 <= k < r.pending_permission@.len() && rejects(
                    b.outbox@[i],
                    #[trigger] r.pending_permission@[k].id,
                ),
{
    let queue = r.pending_permission@;
    let others = parent_map(r.envoy_permission_parent@).remove(request.id@);
    let left = other_requests(queue, request.id@);
    let sent = b.outbox@.skip(a.outbox@.len() as int);
    law_rejection_answers_all(left, others);
    law_answer_removes_only_its_request(queue, request.id@);
    lemma_others_stay_distinct(queue, request.id@);
    assert forall|j: int| 1 <= j < sent.len() implies #[trigger] sent[j] == rejections(
        left,
        others,
    )[j - 1] by {}
    assert forall|j: int| 0 <= j < sent.len() implies (#[trigger] replies_to(sent[j], request.id@)
        <==> j == 0) by {
        if j > 0 {
            assert(left.contains(left[j - 1]));
        }
    }
    assert(is_only_reply(sent, request.id@, 0));
    assert forall|k: int| 0 <= k < queue.len() implies replied_once(
        sent,
        (#[trigger] queue[k]).id@,
    ) by {
        if queue[k].id@ != request.id@ {
            assert(queue.contains(queue[k]));
            assert(left.contains(queue[k]));
            let i = choose|i: int| 0 <= i < left.len() && left[i] == queue[k];
            assert forall|j: int| 0 <= j < sent.len() implies (#[trigger] replies_to(
                sent[j],
                queue[k].id@,
            ) <==> j == i + 1) by {
                if j > 0 {
                    assert(rejects(rejections(left, others)[j - 1], left[j - 1].id));
                    if j - 1 < i {
                        assert(left[j - 1].id@ != left[i].id@);
                    } else if j - 1 > i {
                        assert(left[i].id@ != left[j - 1].id@);
                    }
                }
            }
            assert(is_only_reply(sent, queue[k].id@, i + 1));
        }
    }
    assert forall|i: int| a.outbox@.len() <= i < b.outbox@.len() implies rejects(
        #[trigger] b.outbox@[i],
        request.id,
    ) || exists|k: int|
        0 <= k < queue.len() && rejects(b.outbox@[i], #[trigger] queue[k].id) by {
        let j = i - a.outbox@.len();
        assert(sent[j] == b.outbox@[i]);
        if j > 0 {
            assert(left.contains(left[j - 1]));
            let k = choose|k: int| 0 <= k < queue.len() && queue[k] == left[j - 1];
            assert(rejects(b.outbox@[i], queue[k].id));
        }
    }
}

/// Dismissing the sheet answers every queued request exactly once.
pub proof fn law_dismissal_answers_each_once(a: App, r: UiRuntime, b: App, s: UiRuntime)
    requires
        permission_rejected(a, r, b, s),
        distinct_ids(r.pending_permission@),
    ensures
        b.outbox@.len() == a.outbox@.len() + r.pending_permission@.len(),
        forall|k: int|
            0 <= k < r.pending_permission@.len() ==> is_only_reply(
                b.outbox@.skip(a.outbox@.len() as int),
                (#[trigger] r.pending_permission@[k]).id@,
                k,
            ),
{
    let queue = r.pending_permission@;
    let parents = parent_map(r.envoy_permission_parent@);
    let sent = b.outbox@.skip(a.outbox@.len() as int);
    law_rejection_answers_all(queue, parents);
    assert(sent =~= rejections(queue, parents));
    assert forall|k: int| 0 <= k < queue.len() implies is_only_reply(
        sent,
        (#[trigger] queue[k]).id@,
        k,
    ) by {
        assert forall|j: int| 0 <= j < sent.len() implies (#[trigger] replies_to(
            sent[j],
            queue[k].id@,
        ) <==> j == k) by {
            assert(rejects(sent[j], queue[j].id));
            if j < k {
                assert(queue[j].id@ != queue[k].id@);
            } else if j > k {
                assert(queue[k].id@ != queue[j].id@);
            }
        }
    }
}

/// Without one of them the requests still have distinct ids.
proof fn lemma_others_stay_distinct(queue: Seq<PermissionRequest>, id: Seq<char>)
    requires
        distinct_ids(queue),
    ensures
        distinct_ids(other_requests(queue, id)),
    decreases queue.len(),
{
    if queue.len() > 0 {
        let rest = queue.drop_last();
        assert(distinct_ids(rest)) by {
            assert forall|i: int, j: int| 0 <= i < j < rest.len() implies (
            #[trigger] rest[i]).id@ != (#[trigger] rest[j]).id@ by {
                assert(queue[i].id@ != queue[j].id@);
            }
        }
        lemma_others_stay_distinct(rest, id);
        law_answer_removes_only_its_request(rest, id);
        let kept = other_requests(rest, id);
        let all = other_requests(queue, id);
        assert forall|i: int, j: int| 0 <= i < j < all.len() implies (#[trigger] all[i]).id@ != (
        #[trigger] all[j]).id@ by {
            assert(all[i] == kept[i]);
            if j < kept.len() {
                assert(kept[i].id@ != kept[j].id@);
            } else {
                assert(kept.contains(kept[i]));
                let k = choose|k: int| 0 <= k < rest.len() && rest[k] == kept[i];
                assert(queue[k].id@ != queue[queue.len() - 1].id@);
            }
        }
    }
}

/// An answered request leaves the queue, and no other does.
pub proof fn law_answer_removes_only_its_request(queue: Seq<PermissionRequest>, id: Seq<char>)
    ensures
        forall|x: PermissionRequest| #[trigger]
            other_requests(queue, id).contains(x) <==> (queue.contains(x) && x.id@ != id),
    decreases queue.len(),
{
    if queue.len() > 0 {
        let rest = queue.drop_last();
        law_answer_removes_only_its_request(rest, id);
        let kept = other_requests(rest, id);
        let all = other_requests(queue, id);
        assert forall|x: PermissionRequest| #[trigger]
            all.contains(x) <==> (queue.contains(x) && x.id@ != id) by {
            if queue.contains(x) && x.id@ != id {
                let i = choose|i: int| 0 <= i < queue.len() && queue[i] == x;
                if i < rest.len() {
                    assert(rest[i] == x);
                    assert(rest.contains(x));
                    assert(kept.contains(x));
                    let k = choose|k: int| 0 <= k < kept.len() && kept[k] == x;
                    assert(all[k] == x);
                } else {
                    assert(all[all.len() - 1] == x);
                }
            }
            if all.contains(x) {
                let k = choose|k: int| 0 <= k < all.len() && all[k] == x;
                if k < kept.len() {
                    assert(kept[k] == x);
                    assert(kept.contains(x));
                    assert(rest.contains(x));
                    let i = choose|i: int| 0 <= i < rest.len() && rest[i] == x;
                    assert(queue[i] == x);
                } else {
                    assert(queue[queue.len() - 1] == x);
                }
            }
        }
    }
}

/// A question that was answered or closed leaves the queue, and no other does.
pub proof fn law_settled_question_leaves_queue(
    a: App,
    r: UiRuntime,
    effect: QuestionEffect,
    b: App,
    s: UiRuntime,
)
    requires
        question_effect_applied(a, r, effect, b, s),
    ensures
        forall|x: UserQuestionRequest| #[trigger]
            s.pending_question@.contains(x) <==> (r.pending_question@.contains(x) && x.id@
                != settled_id(effect)),
{
    lemma_other_questions(r.pending_question@, settled_id(effect));
}

/// The question that an effect settles.
pub open spec fn settled_id(effect: QuestionEffect) -> Seq<char> {
    match effect {
        QuestionEffect::Reply { request_id, .. } => request_id@,
        QuestionEffect::Closed { request_id } => request_id@,
    }
}

proof fn lemma_other_questions(queue: Seq<UserQuestionRequest>, id: Seq<char>)
    ensures
        forall|x: UserQuestionRequest| #[trigger]
            other_questions(queue, id).contains(x) <==> (queue.contains(x) && x.id@ != id),
    decreases queue.len(),
{
    if queue.len() > 0 {
        let rest = queue.drop_last();
        lemma_other_questions(rest, id);
        assert(queue =~= rest.push(queue.last()));
        assert forall|x: UserQuestionRequest| #[trigger]
            other_questions(queue, id).contains(x) <==> (queue.contains(x) && x.id@ != id) by {
            lemma_contains_pushed(rest, queue.last(), x);
            lemma_contains_pushed(other_questions(rest, id), queue.last(), x);
            assert(other_questions(rest, id).contains(x) <==> (rest.contains(x) && x.id@ != id));
        }
    }
}

proof fn lemma_contains_pushed(
    queue: Seq<UserQuestionRequest>,
    last: UserQuestionRequest,
    x: UserQuestionRequest,
)
    ensures
        queue.push(last).contains(x) <==> (queue.contains(x) || x == last),
{
    assert(queue.push(last)[queue.len() as int] == last);
    if queue.contains(x) {
        let i = choose|i: int| 0 <= i < queue.len() && queue[i] == x;
        assert(queue.push(last)[i] == x);
    }
}

} // verus!
