//! Classifies a screen point into what a click there means.
//!
//! The kinds are tried in a fixed order: input box, step summary, table cell,
//! other content, gap between messages, nothing.
use crate::layout::cell_hit;
use crate::layout::cell_segments;
use crate::layout::cursor_hit;
use crate::layout::point_fits;
use crate::layout::thinking_target;
use crate::layout::tool_step_target;
use crate::layout::InteractiveTarget;
use crate::layout::LayoutMap;
use crate::layout::LayoutView;
use crate::layout::SemanticCursor;
use crate::layout::TableCellSegment;
use crate::layout::INPUT_MSG_IDX;
use crate::layout::THINKING_BLOCK_IDX;
use crate::layout::TOOL_STEP_BLOCK_IDX;
use vstd::prelude::*;

verus! {

/// Category of a step summary.
#[derive(Debug, Clone, Copy, PartialEq, Eq, Structural)]
pub enum StepKind {
    ToolStep,
    Thinking,
}

/// What a summary of this kind in message `message_idx` focuses.
pub open spec fn focus_target_of(kind: StepKind, message_idx: usize) -> InteractiveTarget {
    match kind {
        StepKind::ToolStep => tool_step_target(message_idx),
        StepKind::Thinking => thinking_target(message_idx),
    }
}

impl StepKind {
    pub fn focus_target(&self, message_idx: usize) -> (target: InteractiveTarget)
        ensures
            target == focus_target_of(*self, message_idx),
    {
        match self {
            StepKind::ToolStep => InteractiveTarget::tool_step(message_idx),
            StepKind::Thinking => InteractiveTarget::thinking(message_idx),
        }
    }
}

/// The step summary that a position belongs to.
pub open spec fn summary_of(cursor: SemanticCursor) -> Option<(usize, StepKind)> {
    if cursor.block_idx == TOOL_STEP_BLOCK_IDX {
        Some((cursor.message_idx, StepKind::ToolStep))
    } else if cursor.block_idx == THINKING_BLOCK_IDX {
        Some((cursor.message_idx, StepKind::Thinking))
    } else {
        None
    }
}

/// The step summary that a position belongs to.
pub fn summary_at(cursor: &SemanticCursor) -> (summary: Option<(usize, StepKind)>)
    ensures
        summary == summary_of(*cursor),
{
    if cursor.block_idx == TOOL_STEP_BLOCK_IDX {
        Some((cursor.message_idx, StepKind::ToolStep))
    } else if cursor.block_idx == THINKING_BLOCK_IDX {
        Some((cursor.message_idx, StepKind::Thinking))
    } else {
        None
    }
}

/// What a screen point means to a click.
#[derive(Debug, PartialEq, Eq)]
pub enum ClickTarget {
    /// The live input box.
    InputBox { cursor: SemanticCursor },
    /// The summary of a tool step or reasoning trace.
    StepSummary { message_idx: usize, kind: StepKind },
    /// A table cell.
    TableCell {
        message_idx: usize,
        block_idx: usize,
        cell_idx: usize,
        cursor: SemanticCursor,
        /// Original cell text, before padding and wrapping.
        cell_text: String,
        /// Every visible line of the cell.
        cell_segments: Vec<TableCellSegment>,
    },
    /// Other content.
    Content { cursor: SemanticCursor },
    /// Inside the drawn transcript, between regions.
    ContentGap,
    /// Outside everything.
    Dead,
}

/// Whether `target` is what the point `(x, y)` of `layout` means.
pub open spec fn is_click_target(layout: LayoutView, x: int, y: int, target: ClickTarget) -> bool {
    match cursor_hit(layout.regions, x, y) {
        Some(cursor) => if cursor.message_idx == INPUT_MSG_IDX {
            target == (ClickTarget::InputBox { cursor })
        } else {
            match (summary_of(cursor), cell_hit(layout.cells, x, y)) {
                (Some((message_idx, kind)), _) => target == (ClickTarget::StepSummary {
                    message_idx,
                    kind,
                }),
                (None, Some(hit)) => {
                    &&& target is TableCell
                    &&& target->TableCell_message_idx == hit.message_idx
                    &&& target->block_idx == hit.block_idx
                    &&& target->cell_idx == hit.cell_idx
                    &&& target->TableCell_cursor == cursor
                    &&& target->cell_text == hit.cell_text
                    &&& target->cell_segments@ == cell_segments(
                        layout.cells,
                        hit.message_idx,
                        hit.block_idx,
                        hit.cell_idx,
                    )
                },
                (None, None) => target == (ClickTarget::Content { cursor }),
            }
        },
        None => match layout.content_rect {
            Some(rect) => target == (if rect.covers(x, y) {
                ClickTarget::ContentGap
            } else {
                ClickTarget::Dead
            }),
            None => target == ClickTarget::Dead,
        },
    }
}

/// Classifies the screen point `(x, y)`.
pub fn classify_click(layout_map: &LayoutMap, x: u16, y: u16) -> (target: ClickTarget)
    requires
        point_fits(layout_map@, x as int, y as int),
    ensures
        is_click_target(layout_map@, x as int, y as int, target),
{
    if let Some(cursor) = layout_map.cursor_at(x, y) {
        if cursor.message_idx == INPUT_MSG_IDX {
            return ClickTarget::InputBox { cursor };
        }
        if let Some((message_idx, kind)) = summary_at(&cursor) {
            return ClickTarget::StepSummary { message_idx, kind };
        }
        if let Some(hit) = layout_map.table_cell_at(x, y) {
            return ClickTarget::TableCell {
                message_idx: hit.message_idx,
                block_idx: hit.block_idx,
                cell_idx: hit.cell_idx,
                cursor,
                cell_text: hit.cell_text.clone(),
                cell_segments: layout_map.table_cell_segments(
                    hit.message_idx,
                    hit.block_idx,
                    hit.cell_idx,
                ),
            };
        }
        return ClickTarget::Content { cursor };
    }
    if let Some(rect) = layout_map.transcript_content_rect() {
        if rect.contains(x, y) {
            return ClickTarget::ContentGap;
        }
    }
    ClickTarget::Dead
}

/// A point means one thing: its kind and its place are determined by the
/// layout.
pub proof fn law_click_is_unambiguous(
    layout: LayoutView,
    x: int,
    y: int,
    a: ClickTarget,
    b: ClickTarget,
)
    requires
        is_click_target(layout, x, y, a),
        is_click_target(layout, x, y, b),
    ensures
        a is TableCell == b is TableCell,
        !(a is TableCell) ==> a == b,
        a is TableCell ==> {
            &&& a->TableCell_message_idx == b->TableCell_message_idx
            &&& a->block_idx == b->block_idx
            &&& a->cell_idx == b->cell_idx
            &&& a->TableCell_cursor == b->TableCell_cursor
            &&& a->cell_text == b->cell_text
            &&& a->cell_segments@ == b->cell_segments@
        },
{
}

/// The input box comes before everything else: a point of it is never taken
/// for a step, a cell or other content.
pub proof fn law_input_box_comes_first(layout: LayoutView, x: int, y: int, target: ClickTarget)
    requires
        is_click_target(layout, x, y, target),
        cursor_hit(layout.regions, x, y) matches Some(cursor) && cursor.message_idx
            == INPUT_MSG_IDX,
    ensures
        target is InputBox,
{
}

/// A summary comes before the table cell that may be drawn there.
pub proof fn law_summary_comes_before_cell(layout: LayoutView, x: int, y: int, target: ClickTarget)
    requires
        is_click_target(layout, x, y, target),
        cursor_hit(layout.regions, x, y) matches Some(cursor) && cursor.message_idx
            != INPUT_MSG_IDX && summary_of(cursor) is Some,
    ensures
        target is StepSummary,
{
}

} // verus!
