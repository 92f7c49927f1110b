//! What holds of every action.
use crate::app::navigate::can_toggle;
use crate::app::navigate::focused;
use crate::app::navigate::target_in;
use crate::app::navigate::toggled_step;
use crate::app::switching::overlays_settled;
use crate::app::App;
use crate::app::Effect;
use crate::app::Overlay;
use crate::app::TranscriptView;
use crate::document::lemma_task_index;
use crate::document::TranscriptMessage;
use crate::event_loop::copying::selected_in;
use crate::event_loop::dispatch::carried_out;
use crate::event_loop::dispatch::group_of;
use crate::event_loop::dispatch::on_composing;
use crate::event_loop::dispatch::on_deciding;
use crate::event_loop::dispatch::on_lists;
use crate::event_loop::dispatch::on_overlays;
use crate::event_loop::dispatch::on_picking;
use crate::event_loop::dispatch::on_pointing;
use crate::event_loop::dispatch::on_scrolling;
use crate::event_loop::dispatch::on_sending;
use crate::event_loop::dispatch::on_viewing;
use crate::event_loop::dispatch::ActionFacts;
use crate::event_loop::dispatch::ActionGroup;
use crate::event_loop::permission::permission_submitted;
use crate::event_loop::pointer::focused_on;
use crate::event_loop::pointer::header_pressed;
use crate::event_loop::pointer::hits;
use crate::event_loop::pointer::pressed;
use crate::event_loop::pointer::released;
use crate::event_loop::pointer::target_pressed;
use crate::event_loop::pointer::PointerHits;
use crate::event_loop::sending::law_queueing_keeps_pairing;
use crate::event_loop::sending::law_recall_keeps_pairing;
use crate::event_loop::sending::marker_texts;
use crate::event_loop::sending::outbox_with_history;
use crate::event_loop::sending::paired;
use crate::event_loop::sending::prompt_taken;
use crate::event_loop::steps::step_opened;
use crate::event_loop::steps::task_at;
use crate::event_loop::steps::toggled;
use crate::event_loop::UiRuntime;
use crate::input::InputAction;
use crate::interaction::focus_target_of;
use crate::interaction::is_click_target;
use crate::interaction::ClickTarget;
use crate::layout::InteractiveTargetKind;
use crate::modal::Modal;
use vstd::prelude::*;

verus! {

/// Whether `action` hands something to the agent to work on.
pub open spec fn starts_work(action: InputAction) -> bool {
    action is SendChat || action is SendSlash || action is SendShell
}

/// No action but sending a prompt or a command says that a turn runs, or that
/// none does.
pub proof fn law_only_sending_starts_a_turn(
    a: App,
    r: UiRuntime,
    action: InputAction,
    facts: ActionFacts,
    b: App,
    s: UiRuntime,
)
    requires
        carried_out(a, r, action, facts, b, s),
        !starts_work(action),
    ensures
        s.is_responding == r.is_responding,
        s.activity_status == r.activity_status,
{
    reveal(on_sending);
    reveal(on_composing);
    reveal(on_picking);
    reveal(on_lists);
    reveal(on_overlays);
    reveal(on_scrolling);
    reveal(on_deciding);
    reveal(on_viewing);
    reveal(on_pointing);
}

/// Whether `b` holds what `a` holds, in front.
pub open spec fn extends(a: Seq<Effect>, b: Seq<Effect>) -> bool {
    &&& a.len() <= b.len()
    &&& forall|i: int| 0 <= i < a.len() ==> #[trigger] b[i] == a[i]
}

proof fn lemma_extends_by_one(a: Seq<Effect>, b: Seq<Effect>)
    requires
        b.len() == a.len() + 1,
        b.drop_last() == a,
    ensures
        extends(a, b),
{
    assert forall|i: int| 0 <= i < a.len() implies #[trigger] b[i] == a[i] by {
        assert(b.drop_last()[i] == b[i]);
    }
}

proof fn lemma_extends_take(a: Seq<Effect>, b: Seq<Effect>)
    requires
        a.len() <= b.len(),
        b.take(a.len() as int) == a,
    ensures
        extends(a, b),
{
    assert forall|i: int| 0 <= i < a.len() implies #[trigger] b[i] == a[i] by {
        assert(b.take(a.len() as int)[i] == b[i]);
    }
}

proof fn lemma_sending_keeps_outbox(
    a: App,
    r: UiRuntime,
    action: InputAction,
    facts: ActionFacts,
    b: App,
    s: UiRuntime,
)
    requires
        on_sending(a, r, action, facts, b, s),
    ensures
        extends(a.outbox@, b.outbox@),
{
    reveal(on_sending);
    match action {
        InputAction::SendChat(text) => {
            let recorded = outbox_with_history(
                a.outbox@,
                a.composer.input_history@,
                text,
            );
            if text@.len() > 0 || a.composer.pending_images@.len() > 0 {
                if !r.is_responding {
                    lemma_extends_by_one(recorded, b.outbox@);
                }
            }
        },
        InputAction::SendShell(command) => {
            lemma_extends_take(a.outbox@, b.outbox@);
        },
        InputAction::CtrlC => {
            if selected_in(a, facts.transcript_text) is Some {
                lemma_extends_by_one(a.outbox@, b.outbox@);
            }
        },
        InputAction::CopySelection => {
            if selected_in(a, facts.transcript_text) is Some {
                lemma_extends_by_one(a.outbox@, b.outbox@);
            }
        },
        _ => {},
    }
}

proof fn lemma_composing_keeps_outbox(
    a: App,
    r: UiRuntime,
    action: InputAction,
    facts: ActionFacts,
    b: App,
    s: UiRuntime,
)
    requires
        on_composing(a, r, action, facts, b, s),
    ensures
        extends(a.outbox@, b.outbox@),
{
    reveal(on_composing);
}

proof fn lemma_picking_keeps_outbox(
    a: App,
    r: UiRuntime,
    action: InputAction,
    facts: ActionFacts,
    b: App,
    s: UiRuntime,
)
    requires
        on_picking(a, r, action, facts, b, s),
    ensures
        extends(a.outbox@, b.outbox@),
{
    reveal(on_picking);
    if action is SubmitModelEditor && b.outbox@.len() == a.outbox@.len() + 1 {
        lemma_extends_by_one(a.outbox@, b.outbox@);
    }
}

proof fn lemma_lists_keep_outbox(
    a: App,
    r: UiRuntime,
    action: InputAction,
    facts: ActionFacts,
    b: App,
    s: UiRuntime,
)
    requires
        on_lists(a, r, action, facts, b, s),
    ensures
        extends(a.outbox@, b.outbox@),
{
    reveal(on_lists);
}

proof fn lemma_overlays_keep_outbox(
    a: App,
    r: UiRuntime,
    action: InputAction,
    b: App,
    s: UiRuntime,
)
    requires
        on_overlays(a, r, action, b, s),
    ensures
        extends(a.outbox@, b.outbox@),
{
    reveal(on_overlays);
    if action is OpenSelectedSession && b.outbox@.len() == a.outbox@.len() + 1 {
        lemma_extends_by_one(a.outbox@, b.outbox@);
    }
}

proof fn lemma_deciding_keeps_outbox(
    a: App,
    r: UiRuntime,
    action: InputAction,
    b: App,
    s: UiRuntime,
)
    requires
        on_deciding(a, r, action, b, s),
    ensures
        extends(a.outbox@, b.outbox@),
{
    reveal(on_deciding);
}

proof fn lemma_viewing_keeps_outbox(
    a: App,
    r: UiRuntime,
    action: InputAction,
    b: App,
    s: UiRuntime,
)
    requires
        on_viewing(a, r, action, b, s),
    ensures
        extends(a.outbox@, b.outbox@),
{
    reveal(on_viewing);
}

proof fn lemma_pointing_keeps_outbox(
    a: App,
    r: UiRuntime,
    action: InputAction,
    facts: ActionFacts,
    b: App,
    s: UiRuntime,
)
    requires
        on_pointing(a, r, action, facts, b, s),
    ensures
        extends(a.outbox@, b.outbox@),
{
    reveal(on_pointing);
}

/// No action takes back or reorders what the host has yet to do.
pub proof fn law_outbox_is_kept(
    a: App,
    r: UiRuntime,
    action: InputAction,
    facts: ActionFacts,
    b: App,
    s: UiRuntime,
)
    requires
        carried_out(a, r, action, facts, b, s),
    ensures
        extends(a.outbox@, b.outbox@),
{
    if group_of(action) == ActionGroup::Sending {
        lemma_sending_keeps_outbox(a, r, action, facts, b, s);
    } else if group_of(action) == ActionGroup::Composing {
        lemma_composing_keeps_outbox(a, r, action, facts, b, s);
    } else if group_of(action) == ActionGroup::Picking {
        lemma_picking_keeps_outbox(a, r, action, facts, b, s);
    } else if group_of(action) == ActionGroup::Lists {
        lemma_lists_keep_outbox(a, r, action, facts, b, s);
    } else if group_of(action) == ActionGroup::Overlays {
        lemma_overlays_keep_outbox(a, r, action, b, s);
    } else if group_of(action) == ActionGroup::Scrolling {
        reveal(on_scrolling);
        assert(b.outbox == a.outbox);
    } else if group_of(action) == ActionGroup::Deciding {
        lemma_deciding_keeps_outbox(a, r, action, b, s);
    } else if group_of(action) == ActionGroup::Viewing {
        lemma_viewing_keeps_outbox(a, r, action, b, s);
    } else if group_of(action) == ActionGroup::Pointing {
        lemma_pointing_keeps_outbox(a, r, action, facts, b, s);
    }
}

/// Whether `after` has the markers that `before` has.
spec fn same_markers(before: Seq<TranscriptMessage>, after: Seq<TranscriptMessage>) -> bool {
    &&& after.len() == before.len()
    &&& forall|i: int|
        0 <= i < before.len() ==> {
            &&& (#[trigger] after[i]).role == before[i].role
            &&& after[i].delivery == before[i].delivery
            &&& after[i].raw == before[i].raw
        }
}

proof fn lemma_same_markers(before: Seq<TranscriptMessage>, after: Seq<TranscriptMessage>)
    requires
        same_markers(before, after),
    ensures
        marker_texts(after) == marker_texts(before),
    decreases before.len(),
{
    if before.len() > 0 {
        let (x, y) = (before.drop_last(), after.drop_last());
        assert forall|i: int| 0 <= i < x.len() implies {
            &&& (#[trigger] y[i]).role == x[i].role
            &&& y[i].delivery == x[i].delivery
            &&& y[i].raw == x[i].raw
        } by {
            assert(y[i] == after[i]);
            assert(x[i] == before[i]);
        }
        lemma_same_markers(x, y);
        assert(after[before.len() - 1].role == before.last().role);
    }
}

proof fn lemma_toggle_keeps_markers(
    a: App,
    before: Seq<TranscriptMessage>,
    mi: usize,
    b: App,
    after: Seq<TranscriptMessage>,
)
    requires
        toggled_step(a, before, mi, b, after),
    ensures
        marker_texts(after) == marker_texts(before),
        b.composer == a.composer,
{
    if can_toggle(a, before, mi) {
        let stack = a.view.focus_stack@;
        if stack.len() > 0 {
            lemma_task_index(before, stack.last().call_id@);
        }
        assert(same_markers(before, after));
        lemma_same_markers(before, after);
    }
}

/// Whether the queue and its markers are as they were.
spec fn queue_untouched(a: App, r: UiRuntime, b: App, s: UiRuntime) -> bool {
    &&& b.composer.pending_dispatch == a.composer.pending_dispatch
    &&& marker_texts(s.messages@) == marker_texts(r.messages@)
}

proof fn lemma_sending_keeps_pairing(
    a: App,
    r: UiRuntime,
    action: InputAction,
    facts: ActionFacts,
    b: App,
    s: UiRuntime,
)
    requires
        paired(a.composer.pending_dispatch@, r.messages@),
        on_sending(a, r, action, facts, b, s),
    ensures
        paired(b.composer.pending_dispatch@, s.messages@),
{
    reveal(on_sending);
    match action {
        InputAction::SendChat(text) => {
            if text@.len() > 0 || a.composer.pending_images@.len() > 0 {
                law_queueing_keeps_pairing(a, r, text, b, s);
            } else {
                let taken = prompt_taken(a, b);
                match a.view.selection.normalized() {
                    Some((start, end)) => {
                        let mi = start.message_idx;
                        if start.message_idx == end.message_idx
                            && task_at(
                            r.messages@,
                            a.view.focus_stack@,
                            mi,
                        ) is None {
                            let selection = b.view.selection;
                            let from = App {
                                view: TranscriptView { selection, ..taken.view },
                                ..taken
                            };
                            lemma_toggle_keeps_markers(from, r.messages@, mi, b, s.messages@);
                        }
                    },
                    None => {},
                }
            }
        },
        InputAction::SendSlash(cmd) => {
            let count = r.messages@.len() as int;
            let shown = s.messages@.take(count + 1);
            assert(marker_texts(shown) == marker_texts(r.messages@));
            if s.messages@.len() == count + 1 {
                assert(shown =~= s.messages@);
            } else {
                assert(marker_texts(s.messages@) == marker_texts(shown));
            }
        },
        InputAction::RecallQueued => {
            law_recall_keeps_pairing(a, r.messages@, b, s.messages@);
        },
        _ => {},
    }
}

proof fn lemma_viewing_keeps_queue(a: App, r: UiRuntime, action: InputAction, b: App, s: UiRuntime)
    requires
        on_viewing(a, r, action, b, s),
    ensures
        queue_untouched(a, r, b, s),
{
    reveal(on_viewing);
    match action {
        InputAction::ToggleToolSteps => {
            let stack = a.view.focus_stack@;
            if stack.len() > 0 {
                lemma_task_index(r.messages@, stack.last().call_id@);
            }
            assert(same_markers(r.messages@, s.messages@));
            lemma_same_markers(r.messages@, s.messages@);
        },
        InputAction::ActivateFocusedTarget => {
            if let Some(target) = a.view.focused_target {
                if target.kind == InteractiveTargetKind::Thinking {
                    let selection = b.view.selection;
                    let from = App {
                        view: TranscriptView { selection, ..a.view },
                        ..a
                    };
                    lemma_toggle_keeps_markers(
                        from,
                        r.messages@,
                        target.message_idx,
                        b,
                        s.messages@,
                    );
                }
            }
        },
        _ => {},
    }
}

proof fn lemma_step_keeps_queue(a: App, r: UiRuntime, mi: usize, b: App, s: UiRuntime)
    requires
        step_opened(a, r, mi, b, s) || toggled(
            a,
            r,
            mi,
            b,
            s,
        ),
    ensures
        queue_untouched(a, r, b, s),
{
    if toggled(a, r, mi, b, s) {
        lemma_toggle_keeps_markers(a, r.messages@, mi, b, s.messages@);
    }
}

proof fn lemma_press_keeps_queue(
    a: App,
    r: UiRuntime,
    target: ClickTarget,
    b: App,
    s: UiRuntime,
)
    requires
        target_pressed(a, r, target, b, s),
    ensures
        queue_untouched(a, r, b, s),
{
    if let ClickTarget::StepSummary { message_idx, kind } = target {
        let from = App {
            view: focused_on(
                a.view,
                Some(focus_target_of(kind, message_idx)),
            ),
            ..a
        };
        lemma_step_keeps_queue(from, r, message_idx, b, s);
    }
}

proof fn lemma_pointing_keeps_queue(
    a: App,
    r: UiRuntime,
    action: InputAction,
    facts: ActionFacts,
    b: App,
    s: UiRuntime,
)
    requires
        on_pointing(a, r, action, facts, b, s),
    ensures
        queue_untouched(a, r, b, s),
{
    reveal(on_pointing);
    if let InputAction::SelectionStart { x, y } = action {
        if header_pressed(a, r, b, s) {
            if let Some(mi) = a.view.sticky_step {
                let target = target_in(
                    focused(a.view),
                    mi,
                );
                let from = App {
                    view: focused_on(a.view, target),
                    ..a
                };
                lemma_step_keeps_queue(from, r, mi, b, s);
            }
        } else if exists|target: ClickTarget|
            target_pressed(a, r, target, b, s) {
            let target = choose|target: ClickTarget|
                target_pressed(a, r, target, b, s);
            lemma_press_keeps_queue(a, r, target, b, s);
        }
    }
}

/// Whatever the user does, the transcript shows exactly the queued messages as
/// markers, in queue order.
pub proof fn law_every_action_keeps_pairing(
    a: App,
    r: UiRuntime,
    action: InputAction,
    facts: ActionFacts,
    b: App,
    s: UiRuntime,
)
    requires
        paired(a.composer.pending_dispatch@, r.messages@),
        carried_out(a, r, action, facts, b, s),
    ensures
        paired(b.composer.pending_dispatch@, s.messages@),
{
    if group_of(action) == ActionGroup::Sending {
        lemma_sending_keeps_pairing(a, r, action, facts, b, s);
    } else if group_of(action) == ActionGroup::Composing {
        reveal(on_composing);
        assert(queue_untouched(a, r, b, s));
    } else if group_of(action) == ActionGroup::Picking {
        reveal(on_picking);
        assert(queue_untouched(a, r, b, s));
    } else if group_of(action) == ActionGroup::Lists {
        reveal(on_lists);
        assert(queue_untouched(a, r, b, s));
    } else if group_of(action) == ActionGroup::Overlays {
        reveal(on_overlays);
        assert(queue_untouched(a, r, b, s));
    } else if group_of(action) == ActionGroup::Scrolling {
        reveal(on_scrolling);
        assert(queue_untouched(a, r, b, s));
    } else if group_of(action) == ActionGroup::Deciding {
        reveal(on_deciding);
        assert(queue_untouched(a, r, b, s));
    } else if group_of(action) == ActionGroup::Viewing {
        lemma_viewing_keeps_queue(a, r, action, b, s);
    } else if group_of(action) == ActionGroup::Pointing {
        lemma_pointing_keeps_queue(a, r, action, facts, b, s);
    }
}

proof fn lemma_sending_settles(
    a: App,
    r: UiRuntime,
    action: InputAction,
    facts: ActionFacts,
    b: App,
    s: UiRuntime,
)
    requires
        overlays_settled(a),
        on_sending(a, r, action, facts, b, s),
    ensures
        overlays_settled(b),
{
    reveal(on_sending);
}

proof fn lemma_composing_settles(
    a: App,
    r: UiRuntime,
    action: InputAction,
    facts: ActionFacts,
    b: App,
    s: UiRuntime,
)
    requires
        overlays_settled(a),
        on_composing(a, r, action, facts, b, s),
    ensures
        overlays_settled(b),
{
    reveal(on_composing);
}

proof fn lemma_picking_settles(
    a: App,
    r: UiRuntime,
    action: InputAction,
    facts: ActionFacts,
    b: App,
    s: UiRuntime,
)
    requires
        overlays_settled(a),
        on_picking(a, r, action, facts, b, s),
    ensures
        overlays_settled(b),
{
    reveal(on_picking);
}

proof fn lemma_lists_settles(
    a: App,
    r: UiRuntime,
    action: InputAction,
    facts: ActionFacts,
    b: App,
    s: UiRuntime,
)
    requires
        overlays_settled(a),
        on_lists(a, r, action, facts, b, s),
    ensures
        overlays_settled(b),
{
    reveal(on_lists);
}

proof fn lemma_overlays_settles(
    a: App,
    r: UiRuntime,
    action: InputAction,
    b: App,
    s: UiRuntime,
)
    requires
        overlays_settled(a),
        on_overlays(a, r, action, b, s),
    ensures
        overlays_settled(b),
{
    reveal(on_overlays);
}

proof fn lemma_scrolling_settles(
    a: App,
    r: UiRuntime,
    action: InputAction,
    b: App,
    s: UiRuntime,
)
    requires
        overlays_settled(a),
        on_scrolling(a, r, action, b, s),
    ensures
        overlays_settled(b),
{
    reveal(on_scrolling);
}

proof fn lemma_deciding_settles(
    a: App,
    r: UiRuntime,
    action: InputAction,
    b: App,
    s: UiRuntime,
)
    requires
        overlays_settled(a),
        on_deciding(a, r, action, b, s),
    ensures
        overlays_settled(b),
{
    reveal(on_deciding);
}

proof fn lemma_viewing_settles(
    a: App,
    r: UiRuntime,
    action: InputAction,
    b: App,
    s: UiRuntime,
)
    requires
        overlays_settled(a),
        on_viewing(a, r, action, b, s),
    ensures
        overlays_settled(b),
{
    reveal(on_viewing);
}

proof fn lemma_target_settles(a: App, r: UiRuntime, target: ClickTarget, b: App, s: UiRuntime)
    requires
        overlays_settled(a),
        target_pressed(a, r, target, b, s),
    ensures
        overlays_settled(b),
{
}

proof fn lemma_header_settles(a: App, r: UiRuntime, b: App, s: UiRuntime)
    requires
        overlays_settled(a),
        header_pressed(a, r, b, s),
    ensures
        overlays_settled(b),
{
}

proof fn lemma_sheet_settles(a: App, r: UiRuntime, b: App, s: UiRuntime)
    requires
        overlays_settled(a),
        permission_submitted(a, r, b, s),
    ensures
        overlays_settled(b),
{
}

proof fn lemma_press_settles(
    a: App,
    r: UiRuntime,
    x: u16,
    y: u16,
    over: PointerHits,
    b: App,
    s: UiRuntime,
)
    requires
        overlays_settled(a),
        pressed(a, r, x, y, over, b, s),
    ensures
        overlays_settled(b),
{
    let quiet = App { view: released(a.view), ..a };
    let modal = a.overlay.active_modal;
    let bare = modal == Modal::Closed;
    assert(overlays_settled(quiet));
    if modal == Modal::Question {
    } else if modal == Modal::Permission && over.permission_action is Some {
        let chosen = App {
            overlay: Overlay { modal_index: over.permission_action->Some_0, ..quiet.overlay },
            ..quiet
        };
        lemma_sheet_settles(chosen, r, b, s);
    } else if modal == Modal::Permission && over.permission_sheet {
    } else if a.screen.modal_rect is Some {
    } else if bare && (hits(a.screen.todos_rect, x, y) || hits(a.screen.activity_rect, x, y)
        || hits(a.screen.hint_context_rect, x, y)) {
    } else if hits(a.view.sticky_rect, x, y) {
        lemma_header_settles(a, r, b, s);
    } else {
        let target = choose|target: ClickTarget|
            is_click_target(a.screen.layout_map@, x as int, y as int, target) && target_pressed(
                a,
                r,
                target,
                b,
                s,
            );
        lemma_target_settles(a, r, target, b, s);
    }
}

proof fn lemma_pointing_settles(
    a: App,
    r: UiRuntime,
    action: InputAction,
    facts: ActionFacts,
    b: App,
    s: UiRuntime,
)
    requires
        overlays_settled(a),
        on_pointing(a, r, action, facts, b, s),
    ensures
        overlays_settled(b),
{
    reveal(on_pointing);
    if let InputAction::SelectionStart { x, y } = action {
        lemma_press_settles(a, r, x, y, facts.hits, b, s);
    }
}

/// Whatever the user does, nothing is left of an overlay that is not open, and
/// no step is lit up behind one that is.
pub proof fn law_every_action_settles_overlays(
    a: App,
    r: UiRuntime,
    action: InputAction,
    facts: ActionFacts,
    b: App,
    s: UiRuntime,
)
    requires
        overlays_settled(a),
        carried_out(a, r, action, facts, b, s),
    ensures
        overlays_settled(b),
{
    match group_of(action) {
        ActionGroup::Sending => lemma_sending_settles(a, r, action, facts, b, s),
        ActionGroup::Composing => lemma_composing_settles(a, r, action, facts, b, s),
        ActionGroup::Picking => lemma_picking_settles(a, r, action, facts, b, s),
        ActionGroup::Lists => lemma_lists_settles(a, r, action, facts, b, s),
        ActionGroup::Overlays => lemma_overlays_settles(a, r, action, b, s),
        ActionGroup::Scrolling => lemma_scrolling_settles(a, r, action, b, s),
        ActionGroup::Deciding => lemma_deciding_settles(a, r, action, b, s),
        ActionGroup::Viewing => lemma_viewing_settles(a, r, action, b, s),
        ActionGroup::Pointing => lemma_pointing_settles(a, r, action, facts, b, s),
        ActionGroup::Host => {},
    }
}

} // verus!
