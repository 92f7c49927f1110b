//! What holds of the views inside the conversation: an envoy task that was
//! entered, its siblings, and the step whose summary stays at the top.
use crate::app::navigate::position_of;
use crate::app::navigate::task_ids;
use crate::app::App;
use crate::app::Effect;
use crate::document::TranscriptMessage;
use crate::event_loop::dispatch::carried_out;
use crate::event_loop::dispatch::on_pointing;
use crate::event_loop::dispatch::on_sending;
use crate::event_loop::dispatch::on_viewing;
use crate::event_loop::dispatch::ActionFacts;
use crate::event_loop::frame::frame_finished;
use crate::event_loop::frame::FrameMeasure;
use crate::event_loop::pointing_laws::holds;
use crate::event_loop::presenting::task_place;
use crate::event_loop::viewing_laws::task_of;
use crate::event_loop::UiRuntime;
use crate::input::InputAction;
use crate::layout::targets_in_order;
use crate::layout::InteractiveTarget;
use crate::layout::InteractiveTargetKind;
use crate::modal::Modal;
use crate::selection::SelectionState;
use vstd::prelude::*;

verus! {

/// The ids of the tasks stand in the order of their calls: each is the id of a
/// call with a task, and each such call gives one.
pub proof fn law_tasks_in_order(messages: Seq<TranscriptMessage>)
    ensures
        forall|k: int|
            0 <= k < task_ids(messages).len() ==> exists|i: int|
                0 <= i < messages.len() && task_of(#[trigger] messages[i]) == Some(
                    (#[trigger] task_ids(messages)[k])@,
                ),
        forall|i: int|
            0 <= i < messages.len() && task_of(#[trigger] messages[i]) is Some ==> exists|k: int|
                0 <= k < task_ids(messages).len() && (#[trigger] task_ids(messages)[k])@ == task_of(
                    messages[i],
                )->Some_0,
    decreases messages.len(),
{
    if messages.len() > 0 {
        let before = messages.drop_last();
        law_tasks_in_order(before);
        let ids = task_ids(messages);
        assert forall|k: int| 0 <= k < ids.len() implies exists|i: int|
            0 <= i < messages.len() && task_of(#[trigger] messages[i]) == Some(
                (#[trigger] ids[k])@,
            ) by {
            if k < task_ids(before).len() {
                assert(ids[k] == task_ids(before)[k]);
                let i = choose|i: int|
                    0 <= i < before.len() && task_of(#[trigger] before[i]) == Some(
                        task_ids(before)[k]@,
                    );
                assert(messages[i] == before[i]);
            } else {
                assert(task_of(messages[messages.len() - 1]) == Some(ids[k]@));
            }
        }
        assert forall|i: int|
            0 <= i < messages.len() && task_of(#[trigger] messages[i]) is Some implies exists|
            k: int,
        |
            0 <= k < ids.len() && (#[trigger] ids[k])@ == task_of(messages[i])->Some_0 by {
            if i < before.len() {
                assert(before[i] == messages[i]);
                let k = choose|k: int|
                    0 <= k < task_ids(before).len() && (#[trigger] task_ids(before)[k])@ == task_of(
                        before[i],
                    )->Some_0;
                assert(ids[k] == task_ids(before)[k]);
            } else {
                assert(ids[ids.len() - 1]@ == task_of(messages[i])->Some_0);
            }
        }
    }
}

/// An additional message behind the others adds at most its own task, behind
/// theirs.
pub proof fn law_new_task_comes_last(messages: Seq<TranscriptMessage>, message: TranscriptMessage)
    ensures
        task_of(message) is None ==> task_ids(messages.push(message)) == task_ids(messages),
        task_of(message) matches Some(id) ==> task_ids(messages.push(message)).len() == task_ids(
            messages,
        ).len() + 1 && task_ids(messages.push(message)).drop_last() == task_ids(messages)
            && task_ids(messages.push(message)).last()@ == id,
{
    assert(messages.push(message).drop_last() =~= messages);
    if task_of(message) is Some {
        assert(task_ids(messages.push(message)).drop_last() =~= task_ids(messages));
    }
}

proof fn lemma_position(ids: Seq<String>, i: int)
    requires
        0 <= i < ids.len(),
        forall|k: int| 0 <= k < i ==> (#[trigger] ids[k])@ != ids[i]@,
    ensures
        position_of(ids, ids[i]@) == i,
    decreases ids.len(),
{
    if i > 0 {
        let rest = ids.drop_first();
        assert(rest[i - 1] == ids[i]);
        assert forall|k: int| 0 <= k < i - 1 implies (#[trigger] rest[k])@ != rest[i - 1]@ by {
            assert(rest[k] == ids[k + 1]);
        }
        lemma_position(rest, i - 1);
        assert(ids[0]@ != ids[i]@);
    }
}

/// `]` leads from a task to the next one of the conversation and from the last to
/// the first, `[` the other way; the parents that were entered before stay.
pub proof fn law_siblings_by_key(
    a: App,
    r: UiRuntime,
    i: int,
    facts: ActionFacts,
    b: App,
    s: UiRuntime,
)
    requires
        a.view.focus_stack@.len() > 0,
        task_ids(a.view.messages@).len() >= 2,
        0 <= i < task_ids(a.view.messages@).len(),
        a.view.focus_stack@.last().call_id@ == task_ids(a.view.messages@)[i]@,
        forall|k: int|
            0 <= k < i ==> (#[trigger] task_ids(a.view.messages@)[k])@ != task_ids(
                a.view.messages@,
            )[i]@,
    ensures
        ({
            let ids = task_ids(a.view.messages@);
            let n = ids.len() as int;
            let ahead = carried_out(a, r, InputAction::NextSibling, facts, b, s);
            let back = carried_out(a, r, InputAction::PrevSibling, facts, b, s);
            let shown = b.view.focus_stack@.last().call_id;
            &&& ahead && i + 1 < n ==> shown == ids[i + 1]
            &&& ahead && i + 1 == n ==> shown == ids[0]
            &&& back && i > 0 ==> shown == ids[i - 1]
            &&& back && i == 0 ==> shown == ids[n - 1]
            &&& ahead || back ==> {
                &&& b.view.focus_stack@.len() == a.view.focus_stack@.len()
                &&& b.view.focus_stack@.drop_last() == a.view.focus_stack@.drop_last()
                &&& b.view.focus_stack@.last().saved_scroll
                    == a.view.focus_stack@.last().saved_scroll
                &&& b.view.follow_bottom
                &&& b.view.selection == SelectionState::Empty
                &&& b.composer == a.composer
                &&& s == r
            }
        }),
{
    reveal(on_viewing);
    let ids = task_ids(a.view.messages@);
    let n = ids.len() as int;
    lemma_position(ids, i);
    if i + 1 < n {
        vstd::arithmetic::div_mod::lemma_small_mod((i + 1) as nat, n as nat);
    } else {
        vstd::arithmetic::div_mod::lemma_mod_self_0(n);
    }
    if i > 0 {
        vstd::arithmetic::div_mod::lemma_small_mod((i - 1) as nat, n as nat);
    } else {
        vstd::arithmetic::div_mod::lemma_mod_add_multiples_vanish(-1, n);
        vstd::arithmetic::div_mod::lemma_small_mod((n - 1) as nat, n as nat);
    }
    if carried_out(a, r, InputAction::NextSibling, facts, b, s) || carried_out(
        a,
        r,
        InputAction::PrevSibling,
        facts,
        b,
        s,
    ) {
        assert(b.view.focus_stack@.drop_last() =~= a.view.focus_stack@.drop_last());
    }
}

/// The place of a task that is shown to the user: the task at index `i` is number
/// `i + 1` of as many as there are.
pub proof fn law_task_is_numbered(a: App, i: int)
    requires
        0 <= i < task_ids(a.view.messages@).len(),
        forall|k: int|
            0 <= k < i ==> (#[trigger] task_ids(a.view.messages@)[k])@ != task_ids(
                a.view.messages@,
            )[i]@,
    ensures
        a.view.focus_stack@.len() == 0 ==> task_place(a) is None,
        a.view.focus_stack@.len() > 0 && a.view.focus_stack@.last().call_id@ == task_ids(
            a.view.messages@,
        )[i]@ ==> task_place(a) == Some((i + 1, task_ids(a.view.messages@).len() as int)),
{
    lemma_position(task_ids(a.view.messages@), i);
}

/// Unfolding the step whose summary stays at the top shows that summary as the
/// first line, and the next frame leaves it there, even above the bottom.
pub proof fn law_pinned_step_keeps_its_summary(
    a: App,
    r: UiRuntime,
    mi: usize,
    line: usize,
    facts: ActionFacts,
    b: App,
    s: UiRuntime,
    m: FrameMeasure,
)
    requires
        a.view.focus_stack@.len() == 0,
        mi < r.messages@.len(),
        r.messages@[mi as int].kind is Thinking,
        a.view.focused_target matches Some(target) && target.message_idx == mi && target.kind
            == InteractiveTargetKind::Thinking,
        a.view.sticky_step == Some(mi),
        a.view.sticky_summary_line == Some(line),
        line <= u16::MAX,
        carried_out(a, r, InputAction::ActivateFocusedTarget, facts, b, s),
    ensures
        b.view.scroll == line,
        !b.view.follow_bottom,
        frame_finished(b, m).view.scroll == line,
{
    reveal(on_viewing);
}

/// Folding any other step leaves the view where it is and stops following the
/// newest content.
pub proof fn law_other_steps_keep_the_view(
    a: App,
    r: UiRuntime,
    mi: usize,
    facts: ActionFacts,
    b: App,
    s: UiRuntime,
)
    requires
        a.view.focus_stack@.len() == 0,
        mi < r.messages@.len(),
        r.messages@[mi as int].kind is Thinking,
        a.view.focused_target matches Some(target) && target.message_idx == mi && target.kind
            == InteractiveTargetKind::Thinking,
        a.view.sticky_step != Some(mi),
        carried_out(a, r, InputAction::ActivateFocusedTarget, facts, b, s),
    ensures
        b.view.scroll == a.view.scroll,
        !b.view.follow_bottom,
        b.view.pin_summary_line is None,
        b.composer == a.composer,
{
    reveal(on_viewing);
}

/// A press on the summary that stays at the top folds or unfolds that step and
/// focuses it.
pub proof fn law_pinned_summary_is_pressed(
    a: App,
    r: UiRuntime,
    x: u16,
    y: u16,
    mi: usize,
    line: usize,
    facts: ActionFacts,
    b: App,
    s: UiRuntime,
)
    requires
        a.overlay.active_modal == Modal::Closed,
        a.screen.modal_rect is None,
        !holds(a.screen.todos_rect, x, y),
        !holds(a.screen.activity_rect, x, y),
        !holds(a.screen.hint_context_rect, x, y),
        holds(a.view.sticky_rect, x, y),
        a.view.sticky_step == Some(mi),
        a.view.sticky_summary_line == Some(line),
        line <= u16::MAX,
        a.view.focus_stack@.len() == 0,
        !a.view.in_side_view,
        mi < a.view.messages@.len(),
        a.view.messages@.len() == r.messages@.len(),
        a.view.messages@[mi as int].kind is Thinking,
        r.messages@[mi as int].kind is Thinking,
        carried_out(a, r, InputAction::SelectionStart { x, y }, facts, b, s),
    ensures
        s.messages@.len() == r.messages@.len(),
        s.messages@[mi as int].kind is Thinking,
        s.messages@[mi as int].kind->Thinking_0.expanded
            == !r.messages@[mi as int].kind->Thinking_0.expanded,
        forall|k: int|
            0 <= k < r.messages@.len() && k != mi ==> #[trigger] s.messages@[k] == r.messages@[k],
        b.view.focused_target matches Some(target) && target.message_idx == mi && target.kind
            == InteractiveTargetKind::Thinking,
        b.view.scroll == line,
        b.view.selection == SelectionState::Empty,
{
    reveal(on_pointing);
}

/// The step whose summary stays at the top comes first when the focus moves over
/// the screen, unless it stands there anyway.
pub proof fn law_pinned_step_is_first_target(
    a: App,
    r: UiRuntime,
    mi: usize,
    facts: ActionFacts,
    b: App,
    s: UiRuntime,
)
    requires
        a.view.focus_stack@.len() == 0,
        !a.view.in_side_view,
        a.view.sticky_step == Some(mi),
        mi < a.view.messages@.len(),
        a.view.messages@[mi as int].kind is Thinking,
        a.view.focused_target is None,
        forall|k: int|
            0 <= k < targets_in_order(a.screen.layout_map@.regions).len() ==> (
            #[trigger] targets_in_order(a.screen.layout_map@.regions)[k]).message_idx != mi,
    ensures
        carried_out(a, r, InputAction::FocusNextTarget, facts, b, s) ==> (
        b.view.focused_target matches Some(target) && target.message_idx == mi && target.kind
            == InteractiveTargetKind::Thinking),
        carried_out(a, r, InputAction::FocusPrevTarget, facts, b, s) && targets_in_order(
            a.screen.layout_map@.regions,
        ).len() > 0 ==> b.view.focused_target == Some(
            targets_in_order(a.screen.layout_map@.regions).last(),
        ),
{
    reveal(on_viewing);
    let targets = targets_in_order(a.screen.layout_map@.regions);
    let own = crate::layout::thinking_target(mi);
    assert(!targets.contains(own)) by {
        if targets.contains(own) {
            let k = choose|k: int| 0 <= k < targets.len() && targets[k] == own;
            assert(targets[k].message_idx != mi);
        }
    }
}

/// Inside an entered task a fold changes that task's own messages: every other
/// message of the conversation stays, and so does all else of the task's call.
pub proof fn law_folds_stay_in_the_task(
    a: App,
    r: UiRuntime,
    i: int,
    mi: usize,
    facts: ActionFacts,
    b: App,
    s: UiRuntime,
)
    requires
        a.view.focus_stack@.len() > 0,
        0 <= i < r.messages@.len(),
        task_of(r.messages@[i]) == Some(a.view.focus_stack@.last().call_id@),
        forall|k: int|
            0 <= k < i ==> task_of(#[trigger] r.messages@[k]) != Some(
                a.view.focus_stack@.last().call_id@,
            ),
        mi < r.messages@[i].kind->ToolStep_0.children->Some_0@.len(),
        r.messages@[i].kind->ToolStep_0.children->Some_0@[mi as int].kind is Thinking,
        a.view.focused_target matches Some(target) && target.message_idx == mi && target.kind
            == InteractiveTargetKind::Thinking,
        carried_out(a, r, InputAction::ActivateFocusedTarget, facts, b, s),
    ensures
        s.messages@.len() == r.messages@.len(),
        forall|k: int|
            0 <= k < r.messages@.len() && k != i ==> #[trigger] s.messages@[k] == r.messages@[k],
        s.messages@[i].kind is ToolStep,
        s.messages@[i].kind->ToolStep_0.output == r.messages@[i].kind->ToolStep_0.output,
        s.messages@[i].kind->ToolStep_0.expanded == r.messages@[i].kind->ToolStep_0.expanded,
        s.messages@[i].kind->ToolStep_0.children is Some,
        ({
            let before = r.messages@[i].kind->ToolStep_0.children->Some_0@;
            let after = s.messages@[i].kind->ToolStep_0.children->Some_0@;
            &&& after.len() == before.len()
            &&& after[mi as int].kind is Thinking
            &&& after[mi as int].kind->Thinking_0.expanded
                == !before[mi as int].kind->Thinking_0.expanded
            &&& forall|k: int| 0 <= k < before.len() && k != mi ==> #[trigger] after[k] == before[k]
        }),
{
    reveal(on_viewing);
    lemma_first_task(r.messages@, a.view.focus_stack@.last().call_id@, i);
}

/// The task that an id names is the first call with that id.
pub proof fn lemma_first_task(messages: Seq<TranscriptMessage>, id: Seq<char>, i: int)
    requires
        0 <= i < messages.len(),
        task_of(messages[i]) == Some(id),
        forall|k: int| 0 <= k < i ==> task_of(#[trigger] messages[k]) != Some(id),
    ensures
        crate::document::task_index(messages, id) == Some(i),
    decreases messages.len(),
{
    let before = messages.drop_last();
    if i < before.len() {
        assert(before[i] == messages[i]);
        assert forall|k: int| 0 <= k < i implies task_of(#[trigger] before[k]) != Some(id) by {
            assert(before[k] == messages[k]);
        }
        lemma_first_task(before, id, i);
    } else {
        assert forall|k: int| 0 <= k < before.len() implies task_of(#[trigger] before[k]) != Some(
            id,
        ) by {
            assert(before[k] == messages[k]);
        }
        lemma_no_task(before, id);
    }
}

proof fn lemma_no_task(messages: Seq<TranscriptMessage>, id: Seq<char>)
    requires
        forall|k: int| 0 <= k < messages.len() ==> task_of(#[trigger] messages[k]) != Some(id),
    ensures
        crate::document::task_index(messages, id) is None,
    decreases messages.len(),
{
    if messages.len() > 0 {
        let before = messages.drop_last();
        assert forall|k: int| 0 <= k < before.len() implies task_of(#[trigger] before[k]) != Some(
            id,
        ) by {
            assert(before[k] == messages[k]);
        }
        lemma_no_task(before, id);
        assert(task_of(messages[messages.len() - 1]) != Some(id));
    }
}

/// `Enter` on an empty prompt sends nothing: where text of one message is selected
/// it enters that message's task, or folds or unfolds it, and else does nothing to
/// the conversation.
pub proof fn law_empty_prompt_opens_selected(
    a: App,
    r: UiRuntime,
    text: String,
    at: crate::layout::SemanticCursor,
    head: crate::layout::SemanticCursor,
    facts: ActionFacts,
    b: App,
    s: UiRuntime,
)
    requires
        text@.len() == 0,
        a.composer.pending_images@.len() == 0,
        a.view.focus_stack@.len() == 0,
        carried_out(a, r, InputAction::SendChat(text), facts, b, s),
    ensures
        b.outbox == a.outbox,
        s.is_responding == r.is_responding,
        s.messages@.len() == r.messages@.len(),
        a.view.selection is Block || a.view.selection == SelectionState::Empty ==> s == r && b.view.focus_stack
            == a.view.focus_stack,
        a.view.selection == (SelectionState::Range { anchor: at, head }) && at != head
            && at.message_idx == head.message_idx ==> {
            let mi = at.message_idx as int;
            &&& mi < r.messages@.len() && task_of(r.messages@[mi]) is Some ==> s == r
                && b.view.focus_stack@.len() == 1 && b.view.focus_stack@[0].call_id@ == task_of(
                r.messages@[mi],
            )->Some_0
            &&& mi < r.messages@.len() && r.messages@[mi].kind is Thinking
                ==> s.messages@[mi].kind is Thinking && s.messages@[mi].kind->Thinking_0.expanded
                == !r.messages@[mi].kind->Thinking_0.expanded
        },
        a.view.selection == (SelectionState::Range { anchor: at, head }) && at.message_idx
            != head.message_idx ==> s == r,
{
    reveal(on_sending);
}

/// The details of a call that is no task are asked of the host, by the index of
/// its message, wherever it is shown.
pub proof fn law_call_details_are_asked_for(
    a: App,
    r: UiRuntime,
    target: InteractiveTarget,
    i: int,
    facts: ActionFacts,
    b: App,
    s: UiRuntime,
)
    requires
        a.view.focus_stack@.len() > 0,
        0 <= i < r.messages@.len(),
        task_of(r.messages@[i]) == Some(a.view.focus_stack@.last().call_id@),
        forall|k: int|
            0 <= k < i ==> task_of(#[trigger] r.messages@[k]) != Some(
                a.view.focus_stack@.last().call_id@,
            ),
        a.view.focused_target == Some(target),
        target.kind == InteractiveTargetKind::ToolStep,
        target.message_idx < r.messages@[i].kind->ToolStep_0.children->Some_0@.len(),
        carried_out(a, r, InputAction::ActivateFocusedTarget, facts, b, s),
    ensures
        s == r,
        ({
            let message =
                r.messages@[i].kind->ToolStep_0.children->Some_0@[target.message_idx as int];
            &&& task_of(message) is None ==> b.outbox@ == a.outbox@.push(
                Effect::OpenStepDetail(target.message_idx),
            ) && b.view == a.view
            &&& task_of(message) matches Some(id) ==> b.outbox == a.outbox
                && b.view.focus_stack@.len() == a.view.focus_stack@.len() + 1
                && b.view.focus_stack@.drop_last() == a.view.focus_stack@
                && b.view.focus_stack@.last().call_id@ == id
        }),
{
    reveal(on_viewing);
    lemma_first_task(r.messages@, a.view.focus_stack@.last().call_id@, i);
    let message = r.messages@[i].kind->ToolStep_0.children->Some_0@[target.message_idx as int];
    if task_of(message) is Some {
        assert(b.view.focus_stack@.drop_last() =~= a.view.focus_stack@);
    }
}

} // verus!
