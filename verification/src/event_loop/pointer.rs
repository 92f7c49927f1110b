//! What the mouse does.
use crate::app::composer::history_draft_restored;
use crate::app::navigate::focused;
use crate::app::navigate::message_target;
use crate::app::navigate::target_in;
use crate::app::switching::covers_transcript;
use crate::app::switching::fields_given_up;
use crate::app::switching::switched;
use crate::app::switching::with_modal;
use crate::app::App;
use crate::app::Effect;
use crate::app::Overlay;
use crate::app::QuestionAction;
use crate::app::TranscriptView;
use crate::document::TranscriptMessage;
use crate::event_loop::overlays::forward_question;
use crate::event_loop::overlays::question_forwarded;
use crate::event_loop::permission::handle_permission_submit;
use crate::event_loop::permission::permission_submitted;
use crate::event_loop::steps::open_step;
use crate::event_loop::steps::step_opened;
use crate::event_loop::steps::toggled;
use crate::event_loop::UiRuntime;
use crate::input::resolve_block;
use crate::interaction::classify_click;
use crate::interaction::focus_target_of;
use crate::interaction::is_click_target;
use crate::interaction::ClickTarget;
use crate::interaction::StepKind;
use crate::layout::point_fits;
use crate::layout::region_hit;
use crate::layout::tool_step_target;
use crate::layout::InteractiveTarget;
use crate::layout::Rect;
use crate::layout::SemanticCursor;
use crate::modal::ActivityTab;
use crate::modal::Modal;
use crate::selection::clamped_to_cell;
use crate::selection::idle_drag;
use crate::selection::CellDragInfo;
use crate::selection::SelectionDrag;
use crate::selection::SelectionState;
use vstd::prelude::*;

verus! {

/// What the overlays drew at the point of a press.
#[derive(Debug, Clone, Copy, PartialEq, Eq)]
pub struct PointerHits {
    /// The option of the question overlay.
    pub question_option: Option<usize>,
    /// The action of the permission sheet.
    pub permission_action: Option<usize>,
    /// Whether the point is on the permission sheet.
    pub permission_sheet: bool,
}

/// The view with nothing selected, focused or dragged.
pub open spec fn released(view: TranscriptView) -> TranscriptView {
    TranscriptView {
        selection: SelectionState::Empty,
        focused_target: None,
        drag: idle_drag(),
        ..view
    }
}

/// The view with `target` focused and nothing selected or dragged.
pub open spec fn focused_on(view: TranscriptView, target: Option<InteractiveTarget>) -> TranscriptView {
    TranscriptView { focused_target: target, ..released(view) }
}

fn release(view: &mut TranscriptView)
    ensures
        *final(view) == released(*old(view)),
{
    view.selection = SelectionState::Empty;
    view.focused_target = None;
    view.drag.cancel();
}

/// Whether a rectangle is there and covers the point.
pub open spec fn hits(rect: Option<Rect>, x: u16, y: u16) -> bool {
    match rect {
        Some(r) => r.covers(x as int, y as int),
        None => false,
    }
}

fn is_hit(rect: &Option<Rect>, x: u16, y: u16) -> (hit: bool)
    ensures
        hit == hits(*rect, x, y),
{
    match rect {
        Some(r) => r.contains(x, y),
        None => false,
    }
}

/// The view with a range that starts at `cursor` under way.
pub open spec fn range_begun(view: TranscriptView, cursor: SemanticCursor) -> TranscriptView {
    TranscriptView {
        selection: SelectionState::Range { anchor: cursor, head: cursor },
        drag: SelectionDrag { active: true, anchor: Some(cursor), cell_info: None },
        focused_target: None,
        ..view
    }
}

/// The view with a range under way that stays in the table cell `cell`.
pub open spec fn cell_range_begun(
    view: TranscriptView,
    cursor: SemanticCursor,
    cell: CellDragInfo,
) -> TranscriptView {
    let at = SemanticCursor {
        byte_offset: clamped_to_cell(cell.segments@, cursor.byte_offset),
        ..cursor
    };
    TranscriptView {
        selection: SelectionState::Range { anchor: at, head: at },
        drag: SelectionDrag { active: true, anchor: Some(at), cell_info: Some(cell) },
        focused_target: None,
        ..view
    }
}

/// What a press on `target` did: text starts a selection, a summary opens its
/// step, anything else drops the selection and the focus.
pub open spec fn target_pressed(
    a: App,
    r: UiRuntime,
    target: ClickTarget,
    b: App,
    s: UiRuntime,
) -> bool {
    match target {
        ClickTarget::InputBox { cursor } | ClickTarget::Content { cursor } => {
            b == (App { view: range_begun(a.view, cursor), ..a }) && s == r
        },
        ClickTarget::StepSummary { message_idx, kind } => {
            let on_step = App {
                view: focused_on(a.view, Some(focus_target_of(kind, message_idx))),
                ..a
            };
            match kind {
                StepKind::ToolStep => step_opened(on_step, r, message_idx, b, s),
                StepKind::Thinking => toggled(on_step, r, message_idx, b, s),
            }
        },
        ClickTarget::TableCell {
            message_idx,
            block_idx,
            cell_idx: _,
            cursor,
            cell_text,
            cell_segments,
        } => {
            &&& b == (App {
                view: cell_range_begun(
                    a.view,
                    cursor,
                    CellDragInfo { message_idx, block_idx, cell_text, segments: cell_segments },
                ),
                ..a
            })
            &&& s == r
        },
        ClickTarget::ContentGap | ClickTarget::Dead => {
            b == (App { view: released(a.view), ..a }) && s == r
        },
    }
}

fn press_target(app: &mut App, runtime: &mut UiRuntime, target: ClickTarget)
    ensures
        target_pressed(*old(app), *old(runtime), target, *final(app), *final(runtime)),
{
    match target {
        ClickTarget::InputBox { cursor } | ClickTarget::Content { cursor } => {
            app.view.focused_target = None;
            app.view.drag.begin_range(&mut app.view.selection, cursor);
        },
        ClickTarget::StepSummary { message_idx, kind } => {
            release(&mut app.view);
            app.view.focused_target = Some(kind.focus_target(message_idx));
            match kind {
                StepKind::ToolStep => open_step(app, runtime, message_idx),
                StepKind::Thinking => {
                    let _ = app.toggle_step_pinned(&mut runtime.messages, message_idx);
                },
            }
        },
        ClickTarget::TableCell {
            message_idx,
            block_idx,
            cell_idx: _,
            cursor,
            cell_text,
            cell_segments,
        } => {
            app.view.focused_target = None;
            app.view.drag.begin_cell(
                &mut app.view.selection,
                cursor,
                CellDragInfo { message_idx, block_idx, cell_text, segments: cell_segments },
            );
        },
        ClickTarget::ContentGap | ClickTarget::Dead => release(&mut app.view),
    }
}

/// Whether the activity panel was opened on a tab.
pub open spec fn activity_opened(a: App, tab: ActivityTab, b: App) -> bool {
    let shown = with_modal(App { view: released(a.view), ..a }, Modal::Activity, b);
    &&& fields_given_up(Modal::Activity, b)
    &&& b == (App {
        overlay: Overlay {
            activity_tab: tab,
            modal_index: 0,
            activity_scroll: 0,
            ..shown.overlay
        },
        ..shown
    })
}

fn open_activity(app: &mut App, tab: ActivityTab)
    ensures
        activity_opened(*old(app), tab, *final(app)),
{
    release(&mut app.view);
    app.switch_modal(Modal::Activity);
    app.overlay.activity_tab = tab;
    app.overlay.modal_index = 0;
    app.overlay.activity_scroll = 0;
}

/// Whether the token report was opened.
pub open spec fn token_report_opened(a: App, b: App) -> bool {
    let shown = with_modal(App { view: released(a.view), ..a }, Modal::TokenReport, b);
    &&& fields_given_up(Modal::TokenReport, b)
    &&& b == (App { overlay: Overlay { modal_index: 0, ..shown.overlay }, ..shown })
}

fn open_token_report(app: &mut App)
    ensures
        token_report_opened(*old(app), *final(app)),
{
    release(&mut app.view);
    app.switch_modal(Modal::TokenReport);
    app.overlay.modal_index = 0;
}

/// What a press did while a dismissable overlay was open: beside its panel it
/// closes the overlay, as `Esc` does.
pub open spec fn backdrop_pressed(a: App, panel: Rect, x: u16, y: u16, b: App) -> bool {
    let quiet = App { view: released(a.view), ..a };
    let shut = App { overlay: Overlay { active_modal: Modal::Closed, ..a.overlay }, ..quiet };
    if panel.covers(x as int, y as int) {
        b == quiet
    } else if a.overlay.active_modal == Modal::HistorySearch {
        history_draft_restored(shut, b)
    } else {
        switched(quiet, Modal::Closed, b)
    }
}

fn press_backdrop(app: &mut App, panel: Rect, x: u16, y: u16)
    ensures
        backdrop_pressed(*old(app), panel, x, y, *final(app)),
{
    release(&mut app.view);
    if !panel.contains(x, y) {
        if app.overlay.active_modal == Modal::HistorySearch {
            app.restore_history_draft();
            app.overlay.active_modal = Modal::Closed;
        } else {
            app.switch_modal(Modal::Closed);
        }
    }
}

/// What a press on the pinned header did: its step is focused, and unfolded
/// or folded.
pub open spec fn header_pressed(a: App, r: UiRuntime, b: App, s: UiRuntime) -> bool {
    match a.view.sticky_step {
        Some(mi) => toggled(
            App { view: focused_on(a.view, target_in(focused(a.view), mi)), ..a },
            r,
            mi,
            b,
            s,
        ),
        None => {
            &&& s == r
            &&& b == (App { view: focused_on(a.view, a.view.focused_target), ..a })
        },
    }
}

fn press_header(app: &mut App, runtime: &mut UiRuntime)
    ensures
        header_pressed(*old(app), *old(runtime), *final(app), *final(runtime)),
{
    let kept: Option<InteractiveTarget> = app.view.focused_target;
    match app.view.sticky_step {
        Some(mi) => {
            let target: Option<InteractiveTarget> = message_target(app.focused_messages(), mi);
            release(&mut app.view);
            app.view.focused_target = target;
            let _ = app.toggle_step_pinned(&mut runtime.messages, mi);
        },
        None => {
            release(&mut app.view);
            app.view.focused_target = kept;
        },
    }
}

/// What a press at `(x, y)` did. What lies in front takes it: the question
/// overlay, the permission sheet, a dismissable overlay, the badges of the
/// activity bar, the context meter, the pinned header, then the transcript and the input box.
pub open spec fn pressed(
    a: App,
    r: UiRuntime,
    x: u16,
    y: u16,
    over: PointerHits,
    b: App,
    s: UiRuntime,
) -> bool {
    let quiet = App { view: released(a.view), ..a };
    let on_sheet = a.overlay.active_modal == Modal::Permission;
    let bare = a.overlay.active_modal == Modal::Closed;
    if a.overlay.active_modal == Modal::Question {
        &&& s == r
        &&& match over.question_option {
            Some(n) => question_forwarded(quiet, QuestionAction::Select((n + 1) as usize), b),
            None => b == quiet,
        }
    } else if on_sheet && over.permission_action is Some {
        let chosen = App {
            overlay: Overlay { modal_index: over.permission_action->Some_0, ..quiet.overlay },
            ..quiet
        };
        permission_submitted(chosen, r, b, s)
    } else if on_sheet && over.permission_sheet {
        b == quiet && s == r
    } else if a.screen.modal_rect is Some {
        backdrop_pressed(a, a.screen.modal_rect->Some_0, x, y, b) && s == r
    } else if bare && hits(a.screen.todos_rect, x, y) {
        activity_opened(a, ActivityTab::Todos, b) && s == r
    } else if bare && hits(a.screen.activity_rect, x, y) {
        activity_opened(a, ActivityTab::Activity, b) && s == r
    } else if bare && hits(a.screen.hint_context_rect, x, y) {
        token_report_opened(a, b) && s == r
    } else if hits(a.view.sticky_rect, x, y) {
        header_pressed(a, r, b, s)
    } else {
        exists|target: ClickTarget| #[trigger]
            is_click_target(a.screen.layout_map@, x as int, y as int, target) && target_pressed(
                a,
                r,
                target,
                b,
                s,
            )
    }
}

/// Handles a press at `(x, y)`. `over` is what the overlays drew there.
pub fn press(app: &mut App, runtime: &mut UiRuntime, x: u16, y: u16, over: PointerHits)
    requires
        point_fits(old(app).screen.layout_map@, x as int, y as int),
        over.question_option matches Some(n) ==> n < usize::MAX,
    ensures
        pressed(*old(app), *old(runtime), x, y, over, *final(app), *final(runtime)),
{
    if app.overlay.active_modal == Modal::Question {
        release(&mut app.view);
        if let Some(n) = over.question_option {
            forward_question(app, QuestionAction::Select(n + 1));
        }
        return ;
    }
    if app.overlay.active_modal == Modal::Permission {
        if let Some(row) = over.permission_action {
            release(&mut app.view);
            app.overlay.modal_index = row;
            handle_permission_submit(app, runtime);
            return ;
        }
        if over.permission_sheet {
            release(&mut app.view);
            return ;
        }
    }
    if let Some(panel) = app.screen.modal_rect {
        press_backdrop(app, panel, x, y);
        return ;
    }
    let bare: bool = app.overlay.active_modal == Modal::Closed;
    if bare && is_hit(&app.screen.todos_rect, x, y) {
        open_activity(app, ActivityTab::Todos);
    } else if bare && is_hit(&app.screen.activity_rect, x, y) {
        open_activity(app, ActivityTab::Activity);
    } else if bare && is_hit(&app.screen.hint_context_rect, x, y) {
        open_token_report(app);
    } else if is_hit(&app.view.sticky_rect, x, y) {
        press_header(app, runtime);
    } else {
        let target: ClickTarget = classify_click(&app.screen.layout_map, x, y);
        press_target(app, runtime, target);
    }
}

/// Whether `target` is what the point `(x, y)` means.
pub open spec fn means(a: App, x: u16, y: u16, target: ClickTarget) -> bool {
    is_click_target(a.screen.layout_map@, x as int, y as int, target)
}

/// What a press of the right button did: on the summary of a tool step it
/// focuses the step and shows its whole output.
pub open spec fn right_pressed(a: App, x: u16, y: u16, b: App) -> bool {
    exists|target: ClickTarget|
        {
            &&& #[trigger] means(a, x, y, target)
            &&& if target is StepSummary && target->kind == StepKind::ToolStep {
                let mi = target->StepSummary_message_idx;
                &&& b.outbox@ == a.outbox@.push(Effect::OpenStepDetail(mi))
                &&& b == (App {
                    outbox: b.outbox,
                    view: focused_on(a.view, Some(tool_step_target(mi))),
                    ..a
                })
            } else {
                b == (App { view: focused_on(a.view, a.view.focused_target), ..a })
            }
        }
}

/// Handles a press of the right button at `(x, y)`.
pub fn right_press(app: &mut App, x: u16, y: u16)
    requires
        point_fits(old(app).screen.layout_map@, x as int, y as int),
    ensures
        right_pressed(*old(app), x, y, *final(app)),
{
    let target: ClickTarget = classify_click(&app.screen.layout_map, x, y);
    assert(means(*old(app), x, y, target));
    app.view.selection = SelectionState::Empty;
    app.view.drag.cancel();
    if let ClickTarget::StepSummary { message_idx, kind } = target {
        if kind == StepKind::ToolStep {
            app.view.focused_target = Some(InteractiveTarget::tool_step(message_idx));
            app.outbox.push(Effect::OpenStepDetail(message_idx));
        }
    }
}

/// The state once a drag has reached `(x, y)`.
pub open spec fn dragged_to(a: App, x: u16, y: u16) -> App {
    App {
        view: TranscriptView {
            selection: a.view.drag.dragged(
                a.view.selection,
                a.screen.layout_map@,
                x as int,
                y as int,
            ),
            ..a.view
        },
        ..a
    }
}

/// Handles a drag to `(x, y)`.
pub fn drag_to(app: &mut App, x: u16, y: u16)
    requires
        point_fits(old(app).screen.layout_map@, x as int, y as int),
    ensures
        *final(app) == dragged_to(*old(app), x, y),
{
    app.view.drag.update_from_point(&mut app.view.selection, &app.screen.layout_map, x, y);
}

/// The state once the button is released: a selection that covers nothing is
/// dropped.
pub open spec fn drag_ended(a: App) -> App {
    App {
        view: TranscriptView {
            selection: if a.view.selection.covers_something() {
                a.view.selection
            } else {
                SelectionState::Empty
            },
            drag: SelectionDrag { active: false, ..a.view.drag },
            ..a.view
        },
        ..a
    }
}

/// Handles the release of the button.
pub fn end_drag(app: &mut App)
    ensures
        *final(app) == drag_ended(*old(app)),
{
    app.view.drag.finish(&mut app.view.selection);
}

/// The state with the block at `(x, y)` selected, where there is one.
pub open spec fn block_selected(a: App, x: u16, y: u16) -> App {
    match region_hit(a.screen.layout_map@.regions, x as int, y as int) {
        Some(region) => App {
            view: TranscriptView {
                selection: SelectionState::Block {
                    message_idx: region.message_idx,
                    block_idx: region.block_idx,
                },
                ..a.view
            },
            ..a
        },
        None => a,
    }
}

/// Selects the block at `(x, y)`.
pub fn select_block(app: &mut App, x: u16, y: u16)
    ensures
        *final(app) == block_selected(*old(app), x, y),
{
    if let Some((message_idx, block_idx)) = resolve_block(&app.screen.layout_map, x, y) {
        app.view.selection = SelectionState::Block { message_idx, block_idx };
    }
}

/// Whether the message at `mi` is a step.
pub open spec fn is_step(messages: Seq<TranscriptMessage>, mi: usize) -> bool {
    mi < messages.len() && (messages[mi as int].kind is Thinking || messages[mi as int].kind
        is ToolStep)
}

/// What the pointer at `(x, y)` did: the step whose pinned header or summary
/// it is on lights up; none does behind an overlay.
pub open spec fn hovered(a: App, messages: Seq<TranscriptMessage>, x: u16, y: u16, b: App) -> bool {
    if covers_transcript(a.overlay.active_modal) {
        b == (App { view: TranscriptView { hovered_step: None, ..a.view }, ..a })
    } else if hits(a.view.sticky_rect, x, y) {
        b == (App {
            view: TranscriptView {
                hovered_step: match a.view.sticky_step {
                    Some(mi) => if is_step(messages, mi) {
                        Some(mi)
                    } else {
                        None
                    },
                    None => a.view.hovered_step,
                },
                ..a.view
            },
            ..a
        })
    } else {
        exists|target: ClickTarget|
            {
                &&& #[trigger] means(a, x, y, target)
                &&& b == (App {
                    view: TranscriptView {
                        hovered_step: match target {
                            ClickTarget::StepSummary { message_idx, .. } => Some(message_idx),
                            _ => None,
                        },
                        ..a.view
                    },
                    ..a
                })
            }
    }
}

/// Handles the pointer at `(x, y)`.
pub fn hover(app: &mut App, messages: &Vec<TranscriptMessage>, x: u16, y: u16)
    requires
        point_fits(old(app).screen.layout_map@, x as int, y as int),
    ensures
        hovered(*old(app), messages@, x, y, *final(app)),
{
    if app.overlay.active_modal != Modal::Closed && app.overlay.active_modal
        != Modal::Permission {
        app.view.hovered_step = None;
    } else if is_hit(&app.view.sticky_rect, x, y) {
        if let Some(mi) = app.view.sticky_step {
            let step: bool = mi < messages.len() && (messages[mi].is_thinking()
                || messages[mi].is_tool_step());
            app.view.hovered_step = if step {
                Some(mi)
            } else {
                None
            };
        }
    } else {
        let target: ClickTarget = classify_click(&app.screen.layout_map, x, y);
        assert(means(*old(app), x, y, target));
        app.view.hovered_step = match target {
            ClickTarget::StepSummary { message_idx, .. } => Some(message_idx),
            _ => None,
        };
    }
}

/// A press and a release at the same point of the transcript select nothing.
pub proof fn law_click_selects_nothing(a: App, r: UiRuntime, target: ClickTarget, b: App, s: UiRuntime)
    requires
        target is Content || target is InputBox || target is TableCell,
        target_pressed(a, r, target, b, s),
    ensures
        drag_ended(b).view.selection == SelectionState::Empty,
        !drag_ended(b).view.drag.active,
{
}

/// While a dismissable overlay is open, a press reaches nothing behind it: the
/// messages stay, and no step is focused.
pub proof fn law_overlay_shields_transcript(
    a: App,
    r: UiRuntime,
    x: u16,
    y: u16,
    over: PointerHits,
    b: App,
    s: UiRuntime,
)
    requires
        a.screen.modal_rect is Some,
        a.overlay.active_modal != Modal::Permission,
        pressed(a, r, x, y, over, b, s),
    ensures
        s == r,
        b.view == released(a.view),
{
}

} // verus!
