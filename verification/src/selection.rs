//! Text selection and the drag gesture that makes it.
use crate::layout::before;
use crate::layout::cursor_hit;
use crate::layout::point_fits;
use crate::layout::LayoutMap;
use crate::layout::LayoutView;
use crate::layout::SemanticCursor;
use crate::layout::TableCellSegment;
use vstd::prelude::*;

verus! {

/// What is selected.
#[derive(Debug, Clone, Copy, PartialEq, Eq, Structural)]
pub enum SelectionState {
    Empty,
    /// A whole block.
    Block { message_idx: usize, block_idx: usize },
    /// A whole table cell.
    TableCell { message_idx: usize, block_idx: usize, cell_idx: usize },
    /// The text between two positions, in the order they were set.
    Range { anchor: SemanticCursor, head: SemanticCursor },
}

impl SelectionState {
    /// Whether the selection covers something.
    pub open spec fn covers_something(self) -> bool {
        match self {
            SelectionState::Empty => false,
            SelectionState::Range { anchor, head } => anchor != head,
            _ => true,
        }
    }

    /// The two ends of a range in document order; nothing for a range that
    /// covers nothing.
    pub open spec fn normalized(self) -> Option<(SemanticCursor, SemanticCursor)> {
        match self {
            SelectionState::Range { anchor, head } => if anchor == head {
                None
            } else if before(head, anchor) {
                Some((head, anchor))
            } else {
                Some((anchor, head))
            },
            _ => None,
        }
    }

    pub fn is_active(&self) -> (active: bool)
        ensures
            active == self.covers_something(),
    {
        match self {
            SelectionState::Empty => false,
            SelectionState::Range { anchor, head } => *anchor != *head,
            _ => true,
        }
    }

    pub fn active_normalized_range(&self) -> (ends: Option<(SemanticCursor, SemanticCursor)>)
        ensures
            ends == self.normalized(),
    {
        match self {
            SelectionState::Range { anchor, head } => {
                if *anchor == *head {
                    None
                } else if *head < *anchor {
                    Some((*head, *anchor))
                } else {
                    Some((*anchor, *head))
                }
            },
            _ => None,
        }
    }
}

/// The table cell that a drag is confined to.
#[derive(Debug)]
pub struct CellDragInfo {
    pub message_idx: usize,
    pub block_idx: usize,
    /// Original cell text.
    pub cell_text: String,
    pub segments: Vec<TableCellSegment>,
}

/// State of the drag gesture.
#[derive(Debug)]
pub struct SelectionDrag {
    pub active: bool,
    pub anchor: Option<SemanticCursor>,
    pub cell_info: Option<CellDragInfo>,
}

/// No gesture under way.
pub open spec fn idle_drag() -> SelectionDrag {
    SelectionDrag { active: false, anchor: None, cell_info: None }
}

impl Default for SelectionDrag {
    fn default() -> (drag: Self)
        ensures
            drag == idle_drag(),
    {
        SelectionDrag { active: false, anchor: None, cell_info: None }
    }
}

/// `offset` pulled into the text of one of `segments`: the nearest text
/// boundary of the first segment that ends at or behind it, else the end of
/// the last one.
pub open spec fn clamped_to_cell(segments: Seq<TableCellSegment>, offset: usize) -> usize
    decreases segments.len(),
{
    if segments.len() == 0 {
        offset
    } else if offset <= segments[0].content_range.1 || segments.len() == 1 {
        if offset < segments[0].content_range.0 {
            segments[0].content_range.0
        } else if offset > segments[0].content_range.1 {
            segments[0].content_range.1
        } else {
            offset
        }
    } else {
        clamped_to_cell(segments.drop_first(), offset)
    }
}

fn clamp_to_cell(segments: &Vec<TableCellSegment>, offset: usize) -> (clamped: usize)
    ensures
        clamped == clamped_to_cell(segments@, offset),
{
    let count: usize = segments.len();
    let mut i: usize = 0;
    proof {
        assert(segments@.skip(0) =~= segments@);
    }
    while i < count
        invariant
            i <= count,
            count == segments@.len(),
            clamped_to_cell(segments@, offset) == clamped_to_cell(segments@.skip(i as int), offset),
        decreases count - i,
    {
        let segment: TableCellSegment = segments[i];
        proof {
            assert(segments@.skip(i as int)[0] == segment);
            assert(segments@.skip(i as int).drop_first() =~= segments@.skip(i + 1));
        }
        if offset <= segment.content_range.1 || i + 1 == count {
            return if offset < segment.content_range.0 {
                segment.content_range.0
            } else if offset > segment.content_range.1 {
                segment.content_range.1
            } else {
                offset
            };
        }
        i += 1;
    }
    offset
}

impl SelectionDrag {
    /// Starts a gesture at `cursor`.
    pub fn start(&mut self, cursor: SemanticCursor)
        ensures
            *final(self) == (SelectionDrag {
                active: true,
                anchor: Some(cursor),
                cell_info: None,
            }),
    {
        self.active = true;
        self.anchor = Some(cursor);
        self.cell_info = None;
    }

    /// Ends the gesture; what it selected stays.
    pub fn end(&mut self)
        ensures
            *final(self) == (SelectionDrag { active: false, ..*old(self) }),
    {
        self.active = false;
    }

    /// Forgets the gesture.
    pub fn cancel(&mut self)
        ensures
            *final(self) == idle_drag(),
    {
        self.active = false;
        self.anchor = None;
        self.cell_info = None;
    }

    /// Starts a gesture that extends an empty range at `cursor`.
    pub fn begin_range(&mut self, selection: &mut SelectionState, cursor: SemanticCursor)
        ensures
            *final(self) == (SelectionDrag {
                active: true,
                anchor: Some(cursor),
                cell_info: None,
            }),
            *final(selection) == (SelectionState::Range { anchor: cursor, head: cursor }),
    {
        self.start(cursor);
        *selection = SelectionState::Range { anchor: cursor, head: cursor };
    }

    /// Starts a gesture that stays inside one table cell.
    pub fn begin_cell(
        &mut self,
        selection: &mut SelectionState,
        cursor: SemanticCursor,
        cell: CellDragInfo,
    )
        ensures
            final(self).active,
            final(self).cell_info == Some(cell),
            ({
                let at = SemanticCursor {
                    byte_offset: clamped_to_cell(cell.segments@, cursor.byte_offset),
                    ..cursor
                };
                final(self).anchor == Some(at) && *final(selection) == (SelectionState::Range {
                    anchor: at,
                    head: at,
                })
            }),
    {
        let at = SemanticCursor::new(
            cursor.message_idx,
            cursor.block_idx,
            clamp_to_cell(&cell.segments, cursor.byte_offset),
        );
        self.active = true;
        self.anchor = Some(at);
        self.cell_info = Some(cell);
        *selection = SelectionState::Range { anchor: at, head: at };
    }

    /// Where the gesture's free end goes when the pointer reaches the document
    /// position `at`.
    pub open spec fn head_at(self, at: SemanticCursor) -> Option<SemanticCursor> {
        match self.cell_info {
            None => Some(at),
            Some(cell) => if at.message_idx == cell.message_idx && at.block_idx
                == cell.block_idx {
                Some(
                    SemanticCursor {
                        byte_offset: clamped_to_cell(cell.segments@, at.byte_offset),
                        ..at
                    },
                )
            } else {
                None
            },
        }
    }

    /// The selection once the pointer has reached `(x, y)`.
    pub open spec fn dragged(
        self,
        selection: SelectionState,
        layout: LayoutView,
        x: int,
        y: int,
    ) -> SelectionState {
        match (self.anchor, cursor_hit(layout.regions, x, y)) {
            (Some(anchor), Some(at)) => match self.head_at(at) {
                Some(head) => SelectionState::Range { anchor, head },
                None => selection,
            },
            _ => selection,
        }
    }

    /// Moves the free end of the selection to the screen point `(x, y)`.
    pub fn update_from_point(
        &self,
        selection: &mut SelectionState,
        layout_map: &LayoutMap,
        x: u16,
        y: u16,
    )
        requires
            point_fits(layout_map@, x as int, y as int),
        ensures
            *final(selection) == self.dragged(*old(selection), layout_map@, x as int, y as int),
    {
        if let (Some(anchor), Some(at)) = (self.anchor, layout_map.cursor_at(x, y)) {
            match &self.cell_info {
                None => {
                    *selection = SelectionState::Range { anchor, head: at };
                },
                Some(cell) => {
                    if at.message_idx == cell.message_idx && at.block_idx == cell.block_idx {
                        let head = SemanticCursor::new(
                            at.message_idx,
                            at.block_idx,
                            clamp_to_cell(&cell.segments, at.byte_offset),
                        );
                        *selection = SelectionState::Range { anchor, head };
                    }
                },
            }
        }
    }

    /// Closes the gesture: a range that covers nothing is dropped.
    pub fn finish(&mut self, selection: &mut SelectionState)
        ensures
            *final(self) == (SelectionDrag { active: false, ..*old(self) }),
            *final(selection) == (if old(selection).covers_something() {
                *old(selection)
            } else {
                SelectionState::Empty
            }),
    {
        self.active = false;
        if !selection.is_active() {
            *selection = SelectionState::Empty;
        }
    }
}

/// The ends of a range come in document order, whichever way it was dragged.
pub proof fn law_range_is_normalized(anchor: SemanticCursor, head: SemanticCursor)
    requires
        anchor != head,
    ensures
        ({
            let forward = (SelectionState::Range { anchor, head }).normalized();
            let backward = (SelectionState::Range { anchor: head, head: anchor }).normalized();
            &&& forward == backward
            &&& forward matches Some((start, end)) && before(start, end) && ((start == anchor && end
                == head) || (start == head && end == anchor))
        }),
{
}

/// A drag that began in a table cell stays in that cell: another block leaves the
/// selection as it is, and within the block the end stays in the cell's text.
pub proof fn law_cell_drag_stays_in_cell(
    drag: SelectionDrag,
    cell: CellDragInfo,
    at: SemanticCursor,
)
    requires
        drag.cell_info == Some(cell),
    ensures
        at.message_idx != cell.message_idx || at.block_idx != cell.block_idx ==> drag.head_at(
            at,
        ) is None,
        at.message_idx == cell.message_idx && at.block_idx == cell.block_idx && cell.segments@.len()
            == 1 && cell.segments@[0].content_range.0 <= cell.segments@[0].content_range.1 ==> (
        drag.head_at(at) matches Some(head) && cell.segments@[0].content_range.0
            <= head.byte_offset <= cell.segments@[0].content_range.1 && head.message_idx
            == at.message_idx && head.block_idx == at.block_idx && (
        cell.segments@[0].content_range.0 <= at.byte_offset
            <= cell.segments@[0].content_range.1 ==> head == at)),
{
}

/// A drag without a cell takes the end to the point itself.
pub proof fn law_free_drag_reaches_point(drag: SelectionDrag, at: SemanticCursor)
    requires
        drag.cell_info is None,
    ensures
        drag.head_at(at) == Some(at),
{
}

} // verus!
