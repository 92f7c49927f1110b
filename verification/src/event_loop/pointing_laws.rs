//! What the pointer is for: what a press, a drag and a release do to what lies
//! under them.
use crate::app::App;
use crate::app::Effect;
use crate::event_loop::dispatch::carried_out;
use crate::event_loop::dispatch::on_pointing;
use crate::event_loop::dispatch::ActionFacts;
use crate::event_loop::UiRuntime;
use crate::input::InputAction;
use crate::interaction::is_click_target;
use crate::interaction::ClickTarget;
use crate::interaction::StepKind;
use crate::layout::cursor_hit;
use crate::layout::region_hit;
use crate::layout::BlockRegion;
use crate::layout::InteractiveTargetKind;
use crate::layout::Rect;
use crate::layout::SemanticCursor;
use crate::layout::INPUT_MSG_IDX;
use crate::layout::THINKING_BLOCK_IDX;
use crate::layout::TOOL_STEP_BLOCK_IDX;
use crate::modal::ActivityTab;
use crate::modal::Modal;
use crate::selection::SelectionState;
use vstd::prelude::*;

verus! {

/// Whether a rectangle was drawn and holds the point.
pub open spec fn holds(rect: Option<Rect>, x: u16, y: u16) -> bool {
    rect matches Some(r) && r.x <= x < r.x + r.width && r.y <= y < r.y + r.height
}

/// Whether the press reaches the transcript: no overlay and nothing in front of
/// it takes it.
pub open spec fn reaches_transcript(a: App, x: u16, y: u16) -> bool {
    &&& a.overlay.active_modal == Modal::Closed
    &&& a.screen.modal_rect is None
    &&& !holds(a.screen.todos_rect, x, y)
    &&& !holds(a.screen.activity_rect, x, y)
    &&& !holds(a.screen.hint_context_rect, x, y)
    &&& !holds(a.view.sticky_rect, x, y)
}

/// Whether the point is on ordinary text: neither a summary nor a table cell.
pub open spec fn on_text(a: App, x: u16, y: u16, cursor: SemanticCursor) -> bool {
    &&& cursor_hit(a.screen.layout_map@.regions, x as int, y as int) == Some(cursor)
    &&& cursor.message_idx == INPUT_MSG_IDX || (cursor.block_idx != TOOL_STEP_BLOCK_IDX
        && cursor.block_idx != THINKING_BLOCK_IDX && crate::layout::cell_hit(
        a.screen.layout_map@.cells,
        x as int,
        y as int,
    ) is None)
}

/// A press on text begins a selection there, a drag pulls its other end along,
/// and the release leaves what lies between; where both ends are the same,
/// nothing stays selected.
pub proof fn law_drag_selects_between(
    a: App,
    r: UiRuntime,
    x: u16,
    y: u16,
    to_x: u16,
    to_y: u16,
    from: SemanticCursor,
    to: SemanticCursor,
    facts: ActionFacts,
    b: App,
    s: UiRuntime,
    c: App,
    t: UiRuntime,
    d: App,
    u: UiRuntime,
)
    requires
        reaches_transcript(a, x, y),
        on_text(a, x, y, from),
        cursor_hit(a.screen.layout_map@.regions, to_x as int, to_y as int) == Some(to),
        carried_out(a, r, InputAction::SelectionStart { x, y }, facts, b, s),
        carried_out(b, s, InputAction::SelectionUpdate { x: to_x, y: to_y }, facts, c, t),
        carried_out(c, t, InputAction::SelectionEnd, facts, d, u),
    ensures
        b.view.selection == (SelectionState::Range { anchor: from, head: from }),
        b.view.focused_target is None,
        c.view.selection == (SelectionState::Range { anchor: from, head: to }),
        from != to ==> d.view.selection == (SelectionState::Range { anchor: from, head: to }),
        from == to ==> d.view.selection == SelectionState::Empty,
        !d.view.drag.active,
        u == r,
        d.outbox == a.outbox,
{
    reveal(on_pointing);
    let target = choose|target: ClickTarget| #[trigger]
        is_click_target(a.screen.layout_map@, x as int, y as int, target)
            && crate::event_loop::pointer::target_pressed(a, r, target, b, s);
}

/// A press on the badges of the activity bar opens its panel on their tab, and
/// one on the context meter the token report; only while no overlay is open.
pub proof fn law_badges_open_panels(
    a: App,
    r: UiRuntime,
    x: u16,
    y: u16,
    facts: ActionFacts,
    b: App,
    s: UiRuntime,
)
    requires
        a.overlay.active_modal == Modal::Closed,
        a.screen.modal_rect is None,
        carried_out(a, r, InputAction::SelectionStart { x, y }, facts, b, s),
    ensures
        holds(a.screen.todos_rect, x, y) ==> b.overlay.active_modal == Modal::Activity
            && b.overlay.activity_tab == ActivityTab::Todos && b.overlay.activity_scroll == 0 && s
            == r,
        !holds(a.screen.todos_rect, x, y) && holds(a.screen.activity_rect, x, y)
            ==> b.overlay.active_modal == Modal::Activity && b.overlay.activity_tab
            == ActivityTab::Activity && b.overlay.activity_scroll == 0 && s == r,
        !holds(a.screen.todos_rect, x, y) && !holds(a.screen.activity_rect, x, y) && holds(
            a.screen.hint_context_rect,
            x,
            y,
        ) ==> b.overlay.active_modal == Modal::TokenReport && s == r,
{
    reveal(on_pointing);
}

/// A press beside the panel of an overlay closes it, one on the panel does not;
/// neither reaches what lies behind, and the history gives its draft back.
pub proof fn law_press_beside_panel_closes(
    a: App,
    r: UiRuntime,
    x: u16,
    y: u16,
    facts: ActionFacts,
    b: App,
    s: UiRuntime,
)
    requires
        a.screen.modal_rect is Some,
        a.overlay.active_modal != Modal::Question,
        a.overlay.active_modal != Modal::Permission,
        carried_out(a, r, InputAction::SelectionStart { x, y }, facts, b, s),
    ensures
        holds(a.screen.modal_rect, x, y) ==> b.overlay == a.overlay && b.composer == a.composer,
        !holds(a.screen.modal_rect, x, y) ==> b.overlay.active_modal == Modal::Closed,
        !holds(a.screen.modal_rect, x, y) && a.overlay.active_modal == Modal::HistorySearch
            ==> b.composer.input == a.composer.stashed_input,
        b.view.selection == SelectionState::Empty,
        b.view.focused_target is None,
        b.outbox == a.outbox,
        s == r,
{
    reveal(on_pointing);
}

/// A press on the summary of a reasoning trace focuses it and unfolds it, or
/// folds it if it was unfolded; nothing else of the transcript changes.
pub proof fn law_press_unfolds_trace(
    a: App,
    r: UiRuntime,
    x: u16,
    y: u16,
    region: BlockRegion,
    facts: ActionFacts,
    b: App,
    s: UiRuntime,
)
    requires
        reaches_transcript(a, x, y),
        a.view.focus_stack@.len() == 0,
        region_hit(a.screen.layout_map@.regions, x as int, y as int) == Some(region),
        region.block_idx == THINKING_BLOCK_IDX,
        region.message_idx != INPUT_MSG_IDX,
        region.message_idx < r.messages@.len(),
        r.messages@[region.message_idx as int].kind is Thinking,
        carried_out(a, r, InputAction::SelectionStart { x, y }, facts, b, s),
    ensures
        ({
            let mi = region.message_idx as int;
            &&& s.messages@.len() == r.messages@.len()
            &&& s.messages@[mi].kind is Thinking
            &&& s.messages@[mi].kind->Thinking_0.expanded
                == !r.messages@[mi].kind->Thinking_0.expanded
            &&& s.messages@[mi].kind->Thinking_0.pinned
            &&& forall|k: int|
                0 <= k < r.messages@.len() && k != mi ==> #[trigger] s.messages@[k]
                    == r.messages@[k]
            &&& b.view.focused_target matches Some(target) && target.message_idx
                == region.message_idx && target.kind == InteractiveTargetKind::Thinking
            &&& b.view.selection == SelectionState::Empty
        }),
{
    reveal(on_pointing);
    let target = choose|target: ClickTarget| #[trigger]
        is_click_target(a.screen.layout_map@, x as int, y as int, target)
            && crate::event_loop::pointer::target_pressed(a, r, target, b, s);
    assert(target == (ClickTarget::StepSummary {
        message_idx: region.message_idx,
        kind: StepKind::Thinking,
    }));
}

/// A press on the summary of a call enters its envoy task where it has one, and
/// else unfolds or folds its output.
pub proof fn law_press_opens_call(
    a: App,
    r: UiRuntime,
    x: u16,
    y: u16,
    region: BlockRegion,
    facts: ActionFacts,
    b: App,
    s: UiRuntime,
)
    requires
        reaches_transcript(a, x, y),
        a.view.focus_stack@.len() == 0,
        region_hit(a.screen.layout_map@.regions, x as int, y as int) == Some(region),
        region.block_idx == TOOL_STEP_BLOCK_IDX,
        region.message_idx != INPUT_MSG_IDX,
        region.message_idx < r.messages@.len(),
        r.messages@[region.message_idx as int].kind is ToolStep,
        carried_out(a, r, InputAction::SelectionStart { x, y }, facts, b, s),
    ensures
        ({
            let mi = region.message_idx as int;
            let step = r.messages@[mi].kind->ToolStep_0;
            &&& step.children is Some ==> b.view.focus_stack@.len() == 1
                && b.view.focus_stack@[0].call_id == step.id && s == r
            &&& step.children is None ==> s.messages@.len() == r.messages@.len()
                && s.messages@[mi].kind is ToolStep && s.messages@[mi].kind->ToolStep_0.expanded
                == !step.expanded && s.messages@[mi].kind->ToolStep_0.pinned
                && s.messages@[mi].kind->ToolStep_0.output == step.output && forall|k: int|
                0 <= k < r.messages@.len() && k != mi ==> #[trigger] s.messages@[k]
                    == r.messages@[k]
        }),
{
    reveal(on_pointing);
    let target = choose|target: ClickTarget| #[trigger]
        is_click_target(a.screen.layout_map@, x as int, y as int, target)
            && crate::event_loop::pointer::target_pressed(a, r, target, b, s);
    assert(target == (ClickTarget::StepSummary {
        message_idx: region.message_idx,
        kind: StepKind::ToolStep,
    }));
}

/// A press where nothing was drawn drops the selection and the focus.
pub proof fn law_press_on_nothing_releases(
    a: App,
    r: UiRuntime,
    x: u16,
    y: u16,
    facts: ActionFacts,
    b: App,
    s: UiRuntime,
)
    requires
        reaches_transcript(a, x, y),
        region_hit(a.screen.layout_map@.regions, x as int, y as int) is None,
        carried_out(a, r, InputAction::SelectionStart { x, y }, facts, b, s),
    ensures
        b.view.selection == SelectionState::Empty,
        b.view.focused_target is None,
        !b.view.drag.active,
        b.outbox == a.outbox,
        s == r,
{
    reveal(on_pointing);
    let target = choose|target: ClickTarget| #[trigger]
        is_click_target(a.screen.layout_map@, x as int, y as int, target)
            && crate::event_loop::pointer::target_pressed(a, r, target, b, s);
    assert(target is ContentGap || target is Dead);
}

/// The middle button selects the whole block under the pointer, and the right
/// one shows the details of a call whose summary is there.
pub proof fn law_other_buttons(
    a: App,
    r: UiRuntime,
    x: u16,
    y: u16,
    region: BlockRegion,
    facts: ActionFacts,
    b: App,
    s: UiRuntime,
)
    requires
        region_hit(a.screen.layout_map@.regions, x as int, y as int) == Some(region),
    ensures
        carried_out(a, r, InputAction::SelectBlock { x, y }, facts, b, s) ==> b.view.selection == (
        SelectionState::Block {
            message_idx: region.message_idx,
            block_idx: region.block_idx,
        }) && b.outbox == a.outbox,
        carried_out(a, r, InputAction::RightClick { x, y }, facts, b, s) && region.block_idx
            == TOOL_STEP_BLOCK_IDX && region.message_idx != INPUT_MSG_IDX ==> b.outbox@
            == a.outbox@.push(Effect::OpenStepDetail(region.message_idx))
            && b.view.selection == SelectionState::Empty && (
        b.view.focused_target matches Some(target) && target.message_idx == region.message_idx
            && target.kind == InteractiveTargetKind::ToolStep),
        carried_out(a, r, InputAction::RightClick { x, y }, facts, b, s) && region.block_idx
            != TOOL_STEP_BLOCK_IDX ==> b.outbox == a.outbox && b.view.focused_target
            == a.view.focused_target,
{
    reveal(on_pointing);
    if carried_out(a, r, InputAction::RightClick { x, y }, facts, b, s) {
        let target = choose|target: ClickTarget| #[trigger]
            crate::event_loop::pointer::means(a, x, y, target) && (if target is StepSummary
                && target->kind == StepKind::ToolStep {
                let mi = target->StepSummary_message_idx;
                &&& b.outbox@ == a.outbox@.push(Effect::OpenStepDetail(mi))
                &&& b == (App {
                    outbox: b.outbox,
                    view: crate::event_loop::pointer::focused_on(
                        a.view,
                        Some(crate::layout::tool_step_target(mi)),
                    ),
                    ..a
                })
            } else {
                b == (App {
                    view: crate::event_loop::pointer::focused_on(a.view, a.view.focused_target),
                    ..a
                })
            });
        assert(crate::event_loop::pointer::means(a, x, y, target));
        assert(is_click_target(a.screen.layout_map@, x as int, y as int, target));
    }
}

/// The step whose summary is under the pointer lights up, and nothing does where
/// there is none.
pub proof fn law_hover_lights_summary(
    a: App,
    r: UiRuntime,
    x: u16,
    y: u16,
    facts: ActionFacts,
    b: App,
    s: UiRuntime,
)
    requires
        a.overlay.active_modal == Modal::Closed,
        !holds(a.view.sticky_rect, x, y),
        carried_out(a, r, InputAction::Hover { x, y }, facts, b, s),
    ensures
        match region_hit(a.screen.layout_map@.regions, x as int, y as int) {
            Some(region) => if region.message_idx != INPUT_MSG_IDX && (region.block_idx
                == TOOL_STEP_BLOCK_IDX || region.block_idx == THINKING_BLOCK_IDX) {
                b.view.hovered_step == Some(region.message_idx)
            } else {
                b.view.hovered_step is None
            },
            None => b.view.hovered_step is None,
        },
        b.view.selection == a.view.selection,
        b.view.focused_target == a.view.focused_target,
        s == r,
{
    reveal(on_pointing);
    let target = choose|target: ClickTarget| #[trigger]
        crate::event_loop::pointer::means(a, x, y, target) && b.view.hovered_step == (match target {
            ClickTarget::StepSummary { message_idx, .. } => Some(message_idx),
            _ => None,
        }) && b.view.selection == a.view.selection;
    assert(is_click_target(a.screen.layout_map@, x as int, y as int, target));
}

/// Over the summary that stays at the top its step lights up; over an overlay
/// that covers the transcript nothing does.
pub proof fn law_hover_lights_pinned_summary(
    a: App,
    r: UiRuntime,
    x: u16,
    y: u16,
    mi: usize,
    facts: ActionFacts,
    b: App,
    s: UiRuntime,
)
    requires
        carried_out(a, r, InputAction::Hover { x, y }, facts, b, s),
    ensures
        a.overlay.active_modal == Modal::Closed && holds(a.view.sticky_rect, x, y)
            && a.view.sticky_step == Some(mi) && mi < r.messages@.len()
            && r.messages@[mi as int].kind is Thinking ==> b.view.hovered_step == Some(mi),
        a.overlay.active_modal == Modal::Closed && holds(a.view.sticky_rect, x, y)
            && a.view.sticky_step == Some(mi) && mi < r.messages@.len()
            && r.messages@[mi as int].kind is ToolStep ==> b.view.hovered_step == Some(mi),
        a.overlay.active_modal == Modal::Closed && holds(a.view.sticky_rect, x, y)
            && a.view.sticky_step == Some(mi) && mi >= r.messages@.len()
            ==> b.view.hovered_step is None,
        a.overlay.active_modal != Modal::Closed && a.overlay.active_modal != Modal::Permission
            ==> b.view.hovered_step is None,
{
    reveal(on_pointing);
}

/// A release ends the drag, and keeps what was selected unless that is nothing.
pub proof fn law_release_keeps_selection(
    a: App,
    r: UiRuntime,
    facts: ActionFacts,
    b: App,
    s: UiRuntime,
)
    requires
        carried_out(a, r, InputAction::SelectionEnd, facts, b, s),
    ensures
        !b.view.drag.active,
        (a.view.selection matches SelectionState::Range { anchor, head } && anchor == head)
            ==> b.view.selection == SelectionState::Empty,
        (a.view.selection matches SelectionState::Range { anchor, head } && anchor != head)
            ==> b.view.selection == a.view.selection,
        a.view.selection is Block ==> b.view.selection == a.view.selection,
        b.view.scroll == a.view.scroll,
        s == r,
{
    reveal(on_pointing);
}

/// A press with the middle button selects the whole block under it.
pub proof fn law_middle_press_selects_block(
    a: App,
    r: UiRuntime,
    x: u16,
    y: u16,
    facts: ActionFacts,
    b: App,
    s: UiRuntime,
)
    requires
        carried_out(a, r, InputAction::SelectBlock { x, y }, facts, b, s),
    ensures
        region_hit(a.screen.layout_map@.regions, x as int, y as int) matches Some(region)
            ==> b.view.selection == (SelectionState::Block {
            message_idx: region.message_idx,
            block_idx: region.block_idx,
        }),
        region_hit(a.screen.layout_map@.regions, x as int, y as int) is None ==> b == a,
        s == r,
{
    reveal(on_pointing);
}

} // verus!
