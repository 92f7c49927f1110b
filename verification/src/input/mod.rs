//! Terminal events turned into actions.
pub mod action;
pub mod context;
pub mod editing;
pub mod events;
pub mod guard;
pub mod key_laws;
pub mod keys;
pub mod laws;

pub use action::InputAction;
pub use context::edits_input_field;
pub use context::InputContext;
pub use editing::insert_newline;
pub use guard::Feed;
pub use guard::SgrLeakGuard;

use crate::input::action::ActionView;
use crate::input::editing::line_of;
use crate::input::editing::Line;
use crate::input::events::Event;
use crate::input::events::KeyCode;
use crate::input::events::MouseButton;
use crate::input::events::MouseEvent;
use crate::input::events::MouseEventKind;
use crate::input::keys::backspace_fits;
use crate::input::keys::on_key;
use crate::input::keys::only;
use crate::input::keys::process_key;
use crate::input::keys::Outcome;
use crate::layout::region_hit;
use crate::layout::LayoutMap;
use crate::layout::SemanticCursor;
use crate::modal::Modal;
use crate::selection::SelectionDrag;
use vstd::prelude::*;

verus! {

/// Whether the transcript takes part in mouse gestures: no overlay is open,
/// or only the permission sheet, which leaves the transcript in view.
pub open spec fn transcript_is_live(ctx: InputContext) -> bool {
    ctx.active_modal == Modal::Closed || ctx.active_modal == Modal::Permission
}

/// What a mouse report asks for.
pub open spec fn on_mouse(mouse: MouseEvent, ctx: InputContext, dragging: bool) -> InputAction {
    let (x, y) = (mouse.column, mouse.row);
    match mouse.kind {
        MouseEventKind::ScrollUp => InputAction::ScrollUp,
        MouseEventKind::ScrollDown => InputAction::ScrollDown,
        MouseEventKind::Down(MouseButton::Left) => if transcript_is_live(ctx) || ctx.active_modal
            == Modal::Question || ctx.modal_dismissable {
            InputAction::SelectionStart { x, y }
        } else {
            InputAction::Ignored
        },
        MouseEventKind::Drag(MouseButton::Left) => if dragging && transcript_is_live(ctx) {
            InputAction::SelectionUpdate { x, y }
        } else {
            InputAction::Ignored
        },
        MouseEventKind::Up(MouseButton::Left) => if dragging {
            InputAction::SelectionEnd
        } else {
            InputAction::Ignored
        },
        MouseEventKind::Down(MouseButton::Middle) => if transcript_is_live(ctx) {
            InputAction::SelectBlock { x, y }
        } else {
            InputAction::Ignored
        },
        MouseEventKind::Down(MouseButton::Right) => if transcript_is_live(ctx) {
            InputAction::RightClick { x, y }
        } else {
            InputAction::Ignored
        },
        MouseEventKind::Moved => if transcript_is_live(ctx) {
            InputAction::Hover { x, y }
        } else {
            InputAction::Ignored
        },
        _ => InputAction::Ignored,
    }
}

/// What becomes of the drag gesture: a press on the live transcript arms it,
/// a release ends it.
pub open spec fn drag_after(event: Event, ctx: InputContext, drag: SelectionDrag) -> SelectionDrag {
    match event {
        Event::Mouse(mouse) => match mouse.kind {
            MouseEventKind::Down(MouseButton::Left) => if transcript_is_live(ctx) {
                SelectionDrag {
                    active: true,
                    anchor: Some(SemanticCursor { message_idx: 0, block_idx: 0, byte_offset: 0 }),
                    cell_info: None,
                }
            } else {
                drag
            },
            MouseEventKind::Up(MouseButton::Left) => SelectionDrag { active: false, ..drag },
            _ => drag,
        },
        _ => drag,
    }
}

/// What an event does.
pub open spec fn on_event(event: Event, line: Line, ctx: InputContext, dragging: bool) -> Outcome {
    match event {
        Event::Key(key) => on_key(key, line, ctx),
        Event::Mouse(mouse) => only(on_mouse(mouse, ctx, dragging), line),
        Event::Paste(text) => if ctx.editing() {
            Outcome { action: ActionView::BracketedPaste(text@), line }
        } else {
            only(InputAction::Ignored, line)
        },
        Event::Resize(_, _) => only(InputAction::TerminalResized, line),
        _ => only(InputAction::Ignored, line),
    }
}

fn process_mouse(mouse: MouseEvent, context: &InputContext, drag: &mut SelectionDrag) -> (action:
    InputAction)
    ensures
        action == on_mouse(mouse, *context, old(drag).active),
        *final(drag) == drag_after(Event::Mouse(mouse), *context, *old(drag)),
{
    let x: u16 = mouse.column;
    let y: u16 = mouse.row;
    let live: bool = context.active_modal == Modal::Closed || context.active_modal
        == Modal::Permission;
    match mouse.kind {
        MouseEventKind::ScrollUp => InputAction::ScrollUp,
        MouseEventKind::ScrollDown => InputAction::ScrollDown,
        MouseEventKind::Down(MouseButton::Left) => {
            if live {
                drag.start(SemanticCursor::new(0, 0, 0));
                InputAction::SelectionStart { x, y }
            } else if context.active_modal == Modal::Question || context.modal_dismissable {
                InputAction::SelectionStart { x, y }
            } else {
                InputAction::Ignored
            }
        },
        MouseEventKind::Drag(MouseButton::Left) => {
            if drag.active && live {
                InputAction::SelectionUpdate { x, y }
            } else {
                InputAction::Ignored
            }
        },
        MouseEventKind::Up(MouseButton::Left) => {
            if drag.active {
                drag.end();
                InputAction::SelectionEnd
            } else {
                InputAction::Ignored
            }
        },
        MouseEventKind::Down(MouseButton::Middle) => {
            if live {
                InputAction::SelectBlock { x, y }
            } else {
                InputAction::Ignored
            }
        },
        MouseEventKind::Down(MouseButton::Right) => {
            if live {
                InputAction::RightClick { x, y }
            } else {
                InputAction::Ignored
            }
        },
        MouseEventKind::Moved => {
            if live {
                InputAction::Hover { x, y }
            } else {
                InputAction::Ignored
            }
        },
        _ => InputAction::Ignored,
    }
}

/// Turns a terminal event into an action. Keys that edit the line do so here.
pub fn process_event(
    event: Event,
    input: &mut String,
    cursor_position: &mut usize,
    context: InputContext,
    drag: &mut SelectionDrag,
) -> (action: InputAction)
    requires
        *old(cursor_position) < usize::MAX,
        context.suggestion_index matches Some(i) ==> i < usize::MAX,
        event matches Event::Key(key) ==> key.code == KeyCode::Backspace ==> backspace_fits(
            key.modifiers,
            line_of(old(input), *old(cursor_position)),
            context,
        ),
    ensures
        ({
            let line = line_of(old(input), *old(cursor_position));
            let o = on_event(event, line, context, old(drag).active);
            action@ == o.action && line_of(final(input), *final(cursor_position)) == o.line
        }),
        *final(drag) == drag_after(event, context, *old(drag)),
{
    match event {
        Event::Key(key) => process_key(key, input, cursor_position, &context),
        Event::Mouse(mouse) => process_mouse(mouse, &context, drag),
        Event::Paste(text) => {
            if context.edits_line() {
                InputAction::BracketedPaste(text)
            } else {
                InputAction::Ignored
            }
        },
        Event::Resize(_, _) => InputAction::TerminalResized,
        _ => InputAction::Ignored,
    }
}

/// The block under a screen point.
pub fn resolve_block(layout_map: &LayoutMap, x: u16, y: u16) -> (block: Option<(usize, usize)>)
    ensures
        match region_hit(layout_map@.regions, x as int, y as int) {
            Some(region) => block == Some((region.message_idx, region.block_idx)),
            None => block is None,
        },
{
    match layout_map.region_at(x, y) {
        Some(region) => Some((region.message_idx, region.block_idx)),
        None => None,
    }
}

} // verus!
