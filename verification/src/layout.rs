//! Where blocks land on screen, and which block a screen point belongs to.
//!
//! Rendering records a region for each visible slice of a block; hit-testing
//! resolves a point back to a position in the document.
use crate::graphemes::cells_within;
use crate::graphemes::grapheme_cells;
use crate::graphemes::grapheme_clusters;
use crate::graphemes::lemma_cells_in_order;
use crate::graphemes::measure;
use crate::graphemes::tiles;
use crate::graphemes::GraphemeCell;
use crate::order::first_occurrences;
use crate::order::law_first_occurrences;
use crate::order::law_stable_order;
use crate::order::sort_by_key;
use crate::order::stable_order;
use crate::text::byte_len;
use std::cmp::Ordering;
use vstd::prelude::*;
use vstd::std_specs::cmp::PartialOrdSpecImpl;

verus! {

/// Block index of the summary line of a tool step.
pub const TOOL_STEP_BLOCK_IDX: usize = usize::MAX;

/// Block index of the summary line of a reasoning trace.
pub const THINKING_BLOCK_IDX: usize = usize::MAX - 1;

/// Message index of the live input box.
pub const INPUT_MSG_IDX: usize = usize::MAX;

/// A rectangle of terminal cells.
#[derive(Debug, Clone, Copy, PartialEq, Eq, Structural)]
pub struct Rect {
    pub x: u16,
    pub y: u16,
    pub width: u16,
    pub height: u16,
}

impl Rect {
    pub fn new(x: u16, y: u16, width: u16, height: u16) -> (rect: Self)
        ensures
            rect == (Rect { x, y, width, height }),
    {
        Rect { x, y, width, height }
    }

    /// Whether the cell at `(x, y)` belongs to the rectangle.
    pub open spec fn covers(self, x: int, y: int) -> bool {
        self.x <= x < self.x + self.width && self.y <= y < self.y + self.height
    }

    /// Whether the cell at `(x, y)` belongs to the rectangle.
    pub fn contains(&self, x: u16, y: u16) -> (inside: bool)
        ensures
            inside == self.covers(x as int, y as int),
    {
        self.x <= x && (x as u32) < self.x as u32 + self.width as u32 && self.y <= y
            && (y as u32) < self.y as u32 + self.height as u32
    }
}

/// A position in the document.
#[derive(Debug, Clone, Copy, PartialEq, Eq, Ord, Structural)]
pub struct SemanticCursor {
    /// Index into the message list.
    pub message_idx: usize,
    /// Index into the message's block list.
    pub block_idx: usize,
    /// Byte offset inside the block's raw text. Hit-testing may place this
    /// inside a grapheme cluster; whoever slices text snaps it to a cluster
    /// boundary first.
    pub byte_offset: usize,
}

impl SemanticCursor {
    pub fn new(message_idx: usize, block_idx: usize, byte_offset: usize) -> (cursor: Self)
        ensures
            cursor == (SemanticCursor { message_idx, block_idx, byte_offset }),
    {
        SemanticCursor { message_idx, block_idx, byte_offset }
    }
}

/// Document order of positions: by message, then by block, then by byte.
pub open spec fn before(a: SemanticCursor, b: SemanticCursor) -> bool {
    a.message_idx < b.message_idx || (a.message_idx == b.message_idx && (a.block_idx < b.block_idx
        || (a.block_idx == b.block_idx && a.byte_offset < b.byte_offset)))
}

impl PartialOrd for SemanticCursor {
    fn partial_cmp(&self, other: &Self) -> (order: Option<Ordering>) {
        if self.message_idx < other.message_idx {
            Some(Ordering::Less)
        } else if self.message_idx > other.message_idx {
            Some(Ordering::Greater)
        } else if self.block_idx < other.block_idx {
            Some(Ordering::Less)
        } else if self.block_idx > other.block_idx {
            Some(Ordering::Greater)
        } else if self.byte_offset < other.byte_offset {
            Some(Ordering::Less)
        } else if self.byte_offset > other.byte_offset {
            Some(Ordering::Greater)
        } else {
            Some(Ordering::Equal)
        }
    }
}

impl PartialOrdSpecImpl for SemanticCursor {
    open spec fn obeys_partial_cmp_spec() -> bool {
        true
    }

    open spec fn partial_cmp_spec(&self, other: &Self) -> Option<Ordering> {
        if before(*self, *other) {
            Some(Ordering::Less)
        } else if before(*other, *self) {
            Some(Ordering::Greater)
        } else {
            Some(Ordering::Equal)
        }
    }
}

/// Document order is a strict total order.
pub proof fn law_document_order(a: SemanticCursor, b: SemanticCursor, c: SemanticCursor)
    ensures
        !before(a, a),
        before(a, b) && before(b, c) ==> before(a, c),
        before(a, b) || before(b, a) || a == b,
        !(before(a, b) && before(b, a)),
{
}

/// Category of an activatable target.
#[derive(Debug, Clone, Copy, PartialEq, Eq, Structural)]
pub enum InteractiveTargetKind {
    ToolStep,
    Thinking,
}

/// Something in the transcript that the user can activate.
#[derive(Debug, Clone, Copy, PartialEq, Eq, Structural)]
pub struct InteractiveTarget {
    pub message_idx: usize,
    pub block_idx: usize,
    pub kind: InteractiveTargetKind,
}

pub open spec fn tool_step_target(message_idx: usize) -> InteractiveTarget {
    InteractiveTarget {
        message_idx,
        block_idx: TOOL_STEP_BLOCK_IDX,
        kind: InteractiveTargetKind::ToolStep,
    }
}

pub open spec fn thinking_target(message_idx: usize) -> InteractiveTarget {
    InteractiveTarget {
        message_idx,
        block_idx: THINKING_BLOCK_IDX,
        kind: InteractiveTargetKind::Thinking,
    }
}

impl InteractiveTarget {
    pub fn tool_step(message_idx: usize) -> (target: Self)
        ensures
            target == tool_step_target(message_idx),
    {
        InteractiveTarget {
            message_idx,
            block_idx: TOOL_STEP_BLOCK_IDX,
            kind: InteractiveTargetKind::ToolStep,
        }
    }

    pub fn thinking(message_idx: usize) -> (target: Self)
        ensures
            target == thinking_target(message_idx),
    {
        InteractiveTarget {
            message_idx,
            block_idx: THINKING_BLOCK_IDX,
            kind: InteractiveTargetKind::Thinking,
        }
    }
}

/// A rectangle on screen that shows a slice of a block.
#[derive(Debug, PartialEq, Eq)]
pub struct BlockRegion {
    pub message_idx: usize,
    pub block_idx: usize,
    /// Byte offset of the first character shown in this region.
    pub start_byte: usize,
    /// Byte offset of the first character after this region.
    pub end_byte: usize,
    /// The text slice shown, without indent or prefix.
    pub text: String,
    /// Columns taken by decoration in front of the text.
    pub prefix_cols: u16,
    pub rect: Rect,
    /// Byte ranges of `text` that are kept in the source but take no columns,
    /// such as the delimiters of bold markup.
    pub hidden_ranges: Vec<(usize, usize)>,
}

/// One rendered line of a table cell.
#[derive(Debug, Clone, Copy, PartialEq, Eq)]
pub struct TableCellSegment {
    /// Byte range of the padded cell content in the rendered grid.
    pub rendered_range: (usize, usize),
    /// Byte range of the cell text in the rendered grid, without padding.
    pub content_range: (usize, usize),
    /// Byte range of the original cell text that this line shows.
    pub source_range: (usize, usize),
}

/// A clickable line of a table cell.
#[derive(Debug)]
pub struct TableCellHit {
    pub message_idx: usize,
    pub block_idx: usize,
    pub cell_idx: usize,
    pub rect: Rect,
    /// Original cell text, before padding and wrapping.
    pub cell_text: String,
    pub segment: TableCellSegment,
}

/// The layout of one frame.
#[derive(Debug)]
pub struct LayoutMap {
    regions: Vec<BlockRegion>,
    /// Shown grid text of each table; a later entry replaces an earlier one
    /// for the same block.
    table_grids: Vec<((usize, usize), String)>,
    table_cell_hits: Vec<TableCellHit>,
    transcript_content_rect: Option<Rect>,
}

/// What a layout holds.
pub ghost struct LayoutView {
    pub regions: Seq<BlockRegion>,
    pub grids: Map<(usize, usize), Seq<char>>,
    pub cells: Seq<TableCellHit>,
    pub content_rect: Option<Rect>,
}

/// A layout of nothing.
pub open spec fn empty_layout() -> LayoutView {
    LayoutView {
        regions: Seq::empty(),
        grids: Map::empty(),
        cells: Seq::empty(),
        content_rect: None,
    }
}

spec fn grid_map(entries: Seq<((usize, usize), String)>) -> Map<(usize, usize), Seq<char>>
    decreases entries.len(),
{
    if entries.len() == 0 {
        Map::empty()
    } else {
        grid_map(entries.drop_last()).insert(entries.last().0, entries.last().1@)
    }
}

/// The first region under the point `(x, y)`.
pub open spec fn region_hit(regions: Seq<BlockRegion>, x: int, y: int) -> Option<BlockRegion>
    decreases regions.len(),
{
    if regions.len() == 0 {
        None
    } else if regions[0].rect.covers(x, y) {
        Some(regions[0])
    } else {
        region_hit(regions.drop_first(), x, y)
    }
}

/// The first table cell line under the point `(x, y)`.
pub open spec fn cell_hit(cells: Seq<TableCellHit>, x: int, y: int) -> Option<TableCellHit>
    decreases cells.len(),
{
    if cells.len() == 0 {
        None
    } else if cells[0].rect.covers(x, y) {
        Some(cells[0])
    } else {
        cell_hit(cells.drop_first(), x, y)
    }
}

/// Whether the byte offset `at` lies in one of `ranges`.
pub open spec fn in_ranges(ranges: Seq<(usize, usize)>, at: usize) -> bool {
    exists|i: int| 0 <= i < ranges.len() && (#[trigger] ranges[i]).0 <= at < ranges[i].1
}

/// The byte offset that stands for column `col` of a line made of `cells`, or
/// nothing past its end.
///
/// The first column of a cluster stands for its first byte. The other columns
/// of a wide cluster stand for the byte behind it, inside the cluster, so that
/// a drag across the glyph differs from a click on it. Hidden clusters take no
/// columns.
pub open spec fn column_target(
    cells: Seq<GraphemeCell>,
    hidden: Seq<(usize, usize)>,
    col: int,
) -> Option<int>
    decreases cells.len(),
{
    if cells.len() == 0 {
        None
    } else if in_ranges(hidden, cells[0].offset) {
        column_target(cells.drop_first(), hidden, col)
    } else if col < cells[0].width {
        Some(
            if col == 0 || cells[0].single_byte {
                cells[0].offset as int
            } else {
                cells[0].offset + 1
            },
        )
    } else {
        column_target(cells.drop_first(), hidden, col - cells[0].width)
    }
}

/// The column of `region`'s text under the screen column `x`.
pub open spec fn text_column(region: BlockRegion, x: int) -> int {
    if x - region.rect.x - region.prefix_cols > 0 {
        x - region.rect.x - region.prefix_cols
    } else {
        0
    }
}

/// Whether the byte offsets of the region's text fit in a machine word.
pub open spec fn region_fits(region: BlockRegion) -> bool {
    region.start_byte + byte_len(region.text@) <= usize::MAX
}

/// Whether the byte offsets of the text under the point `(x, y)` fit in a
/// machine word.
pub open spec fn point_fits(layout: LayoutView, x: int, y: int) -> bool {
    region_hit(layout.regions, x, y) matches Some(region) ==> region_fits(region)
}

/// The byte offset in its block that stands for the screen column `x` of
/// `region`, whose text is cut into `cells`.
pub open spec fn region_offset(region: BlockRegion, cells: Seq<GraphemeCell>, x: int) -> int {
    match column_target(cells, region.hidden_ranges@, text_column(region, x)) {
        Some(target) => region.start_byte + target,
        None => if region.end_byte >= region.start_byte {
            region.end_byte as int
        } else {
            region.start_byte as int
        },
    }
}

/// The document position under the point `(x, y)`.
pub open spec fn cursor_hit(regions: Seq<BlockRegion>, x: int, y: int) -> Option<SemanticCursor> {
    match region_hit(regions, x, y) {
        Some(region) => Some(
            SemanticCursor {
                message_idx: region.message_idx,
                block_idx: region.block_idx,
                byte_offset: region_offset(region, grapheme_cells(region.text@), x) as usize,
            },
        ),
        None => None,
    }
}

/// The segments recorded for one table cell, in recording order.
pub open spec fn cell_segments(
    cells: Seq<TableCellHit>,
    message_idx: usize,
    block_idx: usize,
    cell_idx: usize,
) -> Seq<TableCellSegment>
    decreases cells.len(),
{
    if cells.len() == 0 {
        Seq::empty()
    } else {
        let before = cell_segments(cells.drop_last(), message_idx, block_idx, cell_idx);
        let hit = cells.last();
        if hit.message_idx == message_idx && hit.block_idx == block_idx && hit.cell_idx
            == cell_idx {
            before.push(hit.segment)
        } else {
            before
        }
    }
}

/// Whether the region shows something that the user can activate.
pub open spec fn is_activatable(region: BlockRegion) -> bool {
    region.block_idx == TOOL_STEP_BLOCK_IDX || region.block_idx == THINKING_BLOCK_IDX
}

/// What activating the region refers to.
pub open spec fn target_of(region: BlockRegion) -> InteractiveTarget {
    if region.block_idx == TOOL_STEP_BLOCK_IDX {
        tool_step_target(region.message_idx)
    } else {
        thinking_target(region.message_idx)
    }
}

/// Position in reading order: row first, then column.
pub open spec fn screen_key(region: BlockRegion) -> i64 {
    (region.rect.y * 65536 + region.rect.x) as i64
}

/// The activatable regions, in recording order.
pub open spec fn activatable(regions: Seq<BlockRegion>) -> Seq<BlockRegion> {
    regions.filter(|r: BlockRegion| is_activatable(r))
}

/// The activatable targets in reading order, each one once.
pub open spec fn targets_in_order(regions: Seq<BlockRegion>) -> Seq<InteractiveTarget> {
    let shown = activatable(regions);
    let keys = shown.map_values(|r: BlockRegion| screen_key(r));
    first_occurrences(
        stable_order(keys, keys.len() as int).map_values(|i: int| target_of(shown[i])),
    )
}

/// Whether `at` lies in one of `ranges`.
fn hidden_at(ranges: &Vec<(usize, usize)>, at: usize) -> (hidden: bool)
    ensures
        hidden == in_ranges(ranges@, at),
{
    let count: usize = ranges.len();
    let mut i: usize = 0;
    while i < count
        invariant
            i <= count,
            count == ranges@.len(),
            forall|k: int| 0 <= k < i ==> !((#[trigger] ranges@[k]).0 <= at < ranges@[k].1),
        decreases count - i,
    {
        if ranges[i].0 <= at && at < ranges[i].1 {
            assert(ranges@[i as int].0 <= at < ranges@[i as int].1);
            return true;
        }
        i += 1;
    }
    false
}

/// Finds the byte offset that stands for column `col` of a line.
///
/// `cells` are the measured clusters of the line, `hidden` the byte ranges
/// that take no columns.
pub fn byte_at_column(
    cells: &Vec<GraphemeCell>,
    hidden: &Vec<(usize, usize)>,
    col: usize,
) -> (target: Option<usize>)
    requires
        cells_within(cells@, usize::MAX as int),
    ensures
        match target {
            Some(t) => column_target(cells@, hidden@, col as int) == Some(t as int),
            None => column_target(cells@, hidden@, col as int) is None,
        },
{
    let count: usize = cells.len();
    let mut left: usize = col;
    let mut i: usize = 0;
    proof {
        assert(cells@.skip(0) =~= cells@);
    }
    while i < count
        invariant
            i <= count,
            count == cells@.len(),
            cells_within(cells@, usize::MAX as int),
            column_target(cells@, hidden@, col as int) == column_target(
                cells@.skip(i as int),
                hidden@,
                left as int,
            ),
        decreases count - i,
    {
        let cell: GraphemeCell = cells[i];
        proof {
            assert(cells@.skip(i as int)[0] == cell);
            assert(cells@.skip(i as int).drop_first() =~= cells@.skip(i + 1));
        }
        if !hidden_at(hidden, cell.offset) {
            if left < cell.width {
                return Some(
                    if left == 0 || cell.single_byte {
                        cell.offset
                    } else {
                        cell.offset + 1
                    },
                );
            }
            left -= cell.width;
        }
        i += 1;
    }
    None
}

proof fn lemma_column_target_within(
    cells: Seq<GraphemeCell>,
    hidden: Seq<(usize, usize)>,
    col: int,
    len: int,
)
    requires
        cells_within(cells, len),
    ensures
        column_target(cells, hidden, col) matches Some(t) ==> 0 <= t < len,
    decreases cells.len(),
{
    if cells.len() > 0 {
        let rest = cells.drop_first();
        assert forall|i: int| 0 <= i < rest.len() implies (#[trigger] rest[i]).offset + (
        if rest[i].single_byte {
            1int
        } else {
            2int
        }) <= len by {
            assert(rest[i] == cells[i + 1]);
        }
        lemma_column_target_within(rest, hidden, col, len);
        lemma_column_target_within(rest, hidden, col - cells[0].width, len);
    }
}

impl View for LayoutMap {
    type V = LayoutView;

    closed spec fn view(&self) -> LayoutView {
        LayoutView {
            regions: self.regions@,
            grids: grid_map(self.table_grids@),
            cells: self.table_cell_hits@,
            content_rect: self.transcript_content_rect,
        }
    }
}

impl Default for LayoutMap {
    fn default() -> (map: Self)
        ensures
            map@ == empty_layout(),
    {
        LayoutMap {
            regions: Vec::new(),
            table_grids: Vec::new(),
            table_cell_hits: Vec::new(),
            transcript_content_rect: None,
        }
    }
}

impl LayoutMap {
    /// A layout of nothing.
    pub fn new() -> (map: Self)
        ensures
            map@ == empty_layout(),
    {
        LayoutMap {
            regions: Vec::new(),
            table_grids: Vec::new(),
            table_cell_hits: Vec::new(),
            transcript_content_rect: None,
        }
    }

    /// Records that a slice of a block occupies a screen rectangle.
    pub fn push(&mut self, region: BlockRegion)
        ensures
            final(self)@ == (LayoutView { regions: old(self)@.regions.push(region), ..old(self)@ }),
    {
        self.regions.push(region);
    }

    /// Records the rectangle in which transcript content was drawn.
    pub fn set_transcript_content_rect(&mut self, rect: Rect)
        ensures
            final(self)@ == (LayoutView { content_rect: Some(rect), ..old(self)@ }),
    {
        self.transcript_content_rect = Some(rect);
    }

    /// The rectangle in which transcript content was drawn, if any was.
    pub fn transcript_content_rect(&self) -> (rect: Option<Rect>)
        ensures
            rect == self@.content_rect,
    {
        self.transcript_content_rect
    }

    /// Records the shown grid text of a table block.
    pub fn record_table_grid(&mut self, message_idx: usize, block_idx: usize, text: String)
        ensures
            final(self)@ == (LayoutView {
                grids: old(self)@.grids.insert((message_idx, block_idx), text@),
                ..old(self)@
            }),
    {
        self.table_grids.push(((message_idx, block_idx), text));
        proof {
            assert(self.table_grids@.drop_last() =~= old(self).table_grids@);
        }
    }

    /// The grid text last recorded for a table block.
    pub fn table_grid(&self, message_idx: usize, block_idx: usize) -> (text: Option<&str>)
        ensures
            match text {
                Some(t) => self@.grids.contains_key((message_idx, block_idx)) && t@
                    == self@.grids[(message_idx, block_idx)],
                None => !self@.grids.contains_key((message_idx, block_idx)),
            },
    {
        let mut i: usize = self.table_grids.len();
        let ghost all = self.table_grids@;
        let ghost key = (message_idx, block_idx);
        proof {
            assert(all.take(i as int) =~= all);
        }
        while i > 0
            invariant
                i <= self.table_grids@.len(),
                all == self.table_grids@,
                key == (message_idx, block_idx),
                grid_map(all).contains_key(key) == grid_map(all.take(i as int)).contains_key(key),
                grid_map(all)[key] == grid_map(all.take(i as int))[key],
            decreases i,
        {
            i -= 1;
            proof {
                assert(all.take(i + 1).drop_last() =~= all.take(i as int));
                assert(all.take(i + 1).last() == all[i as int]);
            }
            if self.table_grids[i].0.0 == message_idx && self.table_grids[i].0.1 == block_idx {
                return Some(self.table_grids[i].1.as_str());
            }
        }
        None
    }

    /// Records one clickable line of a table cell.
    pub fn push_table_cell_hit(&mut self, hit: TableCellHit)
        ensures
            final(self)@ == (LayoutView { cells: old(self)@.cells.push(hit), ..old(self)@ }),
    {
        self.table_cell_hits.push(hit);
    }

    /// The table cell line under a screen point.
    pub fn table_cell_at(&self, x: u16, y: u16) -> (hit: Option<&TableCellHit>)
        ensures
            match hit {
                Some(h) => cell_hit(self@.cells, x as int, y as int) == Some(*h),
                None => cell_hit(self@.cells, x as int, y as int) is None,
            },
    {
        let count: usize = self.table_cell_hits.len();
        let ghost all = self.table_cell_hits@;
        let mut i: usize = 0;
        proof {
            assert(all.skip(0) =~= all);
        }
        while i < count
            invariant
                i <= count,
                count == self.table_cell_hits@.len(),
                all == self.table_cell_hits@,
                cell_hit(all, x as int, y as int) == cell_hit(all.skip(i as int), x as int, y as int),
            decreases count - i,
        {
            proof {
                assert(all.skip(i as int)[0] == all[i as int]);
                assert(all.skip(i as int).drop_first() =~= all.skip(i + 1));
            }
            if self.table_cell_hits[i].rect.contains(x, y) {
                return Some(&self.table_cell_hits[i]);
            }
            i += 1;
        }
        None
    }

    /// The segments recorded for one table cell.
    pub fn table_cell_segments(
        &self,
        message_idx: usize,
        block_idx: usize,
        cell_idx: usize,
    ) -> (segments: Vec<TableCellSegment>)
        ensures
            segments@ == cell_segments(self@.cells, message_idx, block_idx, cell_idx),
    {
        let count: usize = self.table_cell_hits.len();
        let ghost all = self.table_cell_hits@;
        let mut segments: Vec<TableCellSegment> = Vec::new();
        let mut i: usize = 0;
        while i < count
            invariant
                i <= count,
                count == self.table_cell_hits@.len(),
                all == self.table_cell_hits@,
                segments@ == cell_segments(all.take(i as int), message_idx, block_idx, cell_idx),
            decreases count - i,
        {
            let hit: &TableCellHit = &self.table_cell_hits[i];
            if hit.message_idx == message_idx && hit.block_idx == block_idx && hit.cell_idx
                == cell_idx {
                segments.push(hit.segment);
            }
            i += 1;
            proof {
                assert(all.take(i as int).drop_last() =~= all.take(i - 1));
            }
        }
        proof {
            assert(all.take(count as int) =~= all);
        }
        segments
    }

    /// The region under a screen point.
    pub fn region_at(&self, x: u16, y: u16) -> (region: Option<&BlockRegion>)
        ensures
            match region {
                Some(r) => region_hit(self@.regions, x as int, y as int) == Some(*r),
                None => region_hit(self@.regions, x as int, y as int) is None,
            },
    {
        let count: usize = self.regions.len();
        let ghost all = self.regions@;
        let mut i: usize = 0;
        proof {
            assert(all.skip(0) =~= all);
        }
        while i < count
            invariant
                i <= count,
                count == self.regions@.len(),
                all == self.regions@,
                region_hit(all, x as int, y as int) == region_hit(
                    all.skip(i as int),
                    x as int,
                    y as int,
                ),
            decreases count - i,
        {
            proof {
                assert(all.skip(i as int)[0] == all[i as int]);
                assert(all.skip(i as int).drop_first() =~= all.skip(i + 1));
            }
            if self.regions[i].rect.contains(x, y) {
                return Some(&self.regions[i]);
            }
            i += 1;
        }
        None
    }

    /// The document position under a screen point.
    pub fn cursor_at(&self, x: u16, y: u16) -> (cursor: Option<SemanticCursor>)
        requires
            point_fits(self@, x as int, y as int),
        ensures
            cursor == cursor_hit(self@.regions, x as int, y as int),
            cursor is Some ==> tiles(
                region_hit(self@.regions, x as int, y as int)->Some_0.text@,
                grapheme_clusters(region_hit(self@.regions, x as int, y as int)->Some_0.text@),
            ),
    {
        match self.region_at(x, y) {
            Some(region) => {
                let col_in_rect: u16 = if x >= region.rect.x {
                    x - region.rect.x
                } else {
                    0
                };
                let col: usize = if col_in_rect >= region.prefix_cols {
                    (col_in_rect - region.prefix_cols) as usize
                } else {
                    0
                };
                let cells: Vec<GraphemeCell> = measure(region.text.as_str());
                proof {
                    lemma_column_target_within(
                        cells@,
                        region.hidden_ranges@,
                        col as int,
                        byte_len(region.text@) as int,
                    );
                    assert(region_fits(*region));
                    assert(cells_within(cells@, usize::MAX as int));
                }
                let byte_offset: usize = match byte_at_column(&cells, &region.hidden_ranges, col) {
                    Some(target) => region.start_byte + target,
                    None => if region.end_byte >= region.start_byte {
                        region.end_byte
                    } else {
                        region.start_byte
                    },
                };
                Some(SemanticCursor::new(region.message_idx, region.block_idx, byte_offset))
            },
            None => None,
        }
    }

    /// The activatable targets on screen in reading order, each one once.
    pub fn interactive_targets(&self) -> (targets: Vec<InteractiveTarget>)
        ensures
            targets@ == targets_in_order(self@.regions),
    {
        let count: usize = self.regions.len();
        let ghost all = self.regions@;
        let ghost wanted = |r: BlockRegion| is_activatable(r);
        let mut keys: Vec<i64> = Vec::new();
        let mut found: Vec<InteractiveTarget> = Vec::new();
        let mut i: usize = 0;
        while i < count
            invariant
                i <= count,
                count == self.regions@.len(),
                all == self.regions@,
                wanted == (|r: BlockRegion| is_activatable(r)),
                keys@ == all.take(i as int).filter(wanted).map_values(
                    |r: BlockRegion| screen_key(r),
                ),
                found@ == all.take(i as int).filter(wanted).map_values(
                    |r: BlockRegion| target_of(r),
                ),
            decreases count - i,
        {
            proof {
                assert(all.take(i + 1).drop_last() =~= all.take(i as int));
                reveal(Seq::filter);
            }
            let region: &BlockRegion = &self.regions[i];
            if region.block_idx == TOOL_STEP_BLOCK_IDX || region.block_idx == THINKING_BLOCK_IDX {
                keys.push(region.rect.y as i64 * 65536 + region.rect.x as i64);
                found.push(
                    if region.block_idx == TOOL_STEP_BLOCK_IDX {
                        InteractiveTarget::tool_step(region.message_idx)
                    } else {
                        InteractiveTarget::thinking(region.message_idx)
                    },
                );
            }
            i += 1;
            proof {
                let shown = all.take(i as int).filter(wanted);
                assert(keys@ =~= shown.map_values(|r: BlockRegion| screen_key(r)));
                assert(found@ =~= shown.map_values(|r: BlockRegion| target_of(r)));
            }
        }
        let ghost shown = activatable(all);
        proof {
            assert(all.take(count as int) =~= all);
        }
        let order: Vec<usize> = sort_by_key(&keys);
        let ghost listed = stable_order(keys@, keys@.len() as int).map_values(
            |i: int| target_of(shown[i]),
        );
        let mut targets: Vec<InteractiveTarget> = Vec::new();
        let total: usize = order.len();
        let mut n: usize = 0;
        proof {
            assert(listed.take(0) =~= Seq::<InteractiveTarget>::empty());
        }
        while n < total
            invariant
                n <= total,
                total == order@.len(),
                found@ == shown.map_values(|r: BlockRegion| target_of(r)),
                keys@.len() == shown.len(),
                order@.len() == keys@.len(),
                order@.map_values(|i: usize| i as int) == stable_order(
                    keys@,
                    keys@.len() as int,
                ),
                forall|i: int| 0 <= i < order@.len() ==> (#[trigger] order@[i]) < keys@.len(),
                listed == stable_order(keys@, keys@.len() as int).map_values(
                    |i: int| target_of(shown[i]),
                ),
                targets@ == first_occurrences(listed.take(n as int)),
            decreases total - n,
        {
            let target: InteractiveTarget = found[order[n]];
            proof {
                assert(order@.map_values(|i: usize| i as int)[n as int] == order@[n as int]);
                assert(listed[n as int] == target);
                assert(listed.take(n + 1).drop_last() =~= listed.take(n as int));
                assert(listed.take(n + 1).last() == target);
            }
            if !has_target(&targets, target) {
                targets.push(target);
            }
            n += 1;
        }
        proof {
            assert(listed.take(total as int) =~= listed);
            assert(keys@ == shown.map_values(|r: BlockRegion| screen_key(r)));
        }
        targets
    }
}

/// Whether `targets` holds `target`.
pub fn has_target(targets: &Vec<InteractiveTarget>, target: InteractiveTarget) -> (found: bool)
    ensures
        found == targets@.contains(target),
{
    let count: usize = targets.len();
    let mut i: usize = 0;
    while i < count
        invariant
            i <= count,
            count == targets@.len(),
            forall|k: int| 0 <= k < i ==> targets@[k] != target,
        decreases count - i,
    {
        if targets[i] == target {
            assert(targets@[i as int] == target);
            return true;
        }
        i += 1;
    }
    false
}

/// A point belongs to the region that was recorded first among those that
/// cover it.
pub proof fn law_first_region_wins(regions: Seq<BlockRegion>, x: int, y: int)
    ensures
        match region_hit(regions, x, y) {
            Some(region) => exists|i: int|
                {
                    &&& 0 <= i < regions.len()
                    &&& #[trigger] regions[i] == region
                    &&& region.rect.covers(x, y)
                    &&& forall|k: int| 0 <= k < i ==> !(#[trigger] regions[k]).rect.covers(x, y)
                },
            None => forall|k: int|
                0 <= k < regions.len() ==> !(#[trigger] regions[k]).rect.covers(x, y),
        },
    decreases regions.len(),
{
    if regions.len() > 0 {
        let rest = regions.drop_first();
        law_first_region_wins(rest, x, y);
        if regions[0].rect.covers(x, y) {
            assert(regions[0] == region_hit(regions, x, y)->Some_0);
        } else {
            match region_hit(rest, x, y) {
                Some(region) => {
                    let i = choose|i: int|
                        {
                            &&& 0 <= i < rest.len()
                            &&& #[trigger] rest[i] == region
                            &&& region.rect.covers(x, y)
                            &&& forall|k: int|
                                0 <= k < i ==> !(#[trigger] rest[k]).rect.covers(x, y)
                        };
                    assert(regions[i + 1] == region);
                    assert forall|k: int| 0 <= k < i + 1 implies !(
                    #[trigger] regions[k]).rect.covers(x, y) by {
                        if k > 0 {
                            assert(regions[k] == rest[k - 1]);
                        }
                    }
                },
                None => {
                    assert forall|k: int| 0 <= k < regions.len() implies !(
                    #[trigger] regions[k]).rect.covers(x, y) by {
                        if k > 0 {
                            assert(regions[k] == rest[k - 1]);
                        }
                    }
                },
            }
        }
    }
}

/// Whether the clusters lie one behind the other, in order.
spec fn cells_ordered(cells: Seq<GraphemeCell>) -> bool {
    forall|i: int, j: int|
        0 <= i < j < cells.len() ==> (#[trigger] cells[i]).offset + (if cells[i].single_byte {
            1int
        } else {
            2int
        }) <= (#[trigger] cells[j]).offset
}

proof fn lemma_column_target_at_least(
    cells: Seq<GraphemeCell>,
    hidden: Seq<(usize, usize)>,
    col: int,
    least: int,
)
    requires
        forall|i: int| 0 <= i < cells.len() ==> least <= (#[trigger] cells[i]).offset,
    ensures
        column_target(cells, hidden, col) matches Some(t) ==> least <= t,
    decreases cells.len(),
{
    if cells.len() > 0 {
        let rest = cells.drop_first();
        assert forall|i: int| 0 <= i < rest.len() implies least <= (#[trigger] rest[i]).offset by {
            assert(rest[i] == cells[i + 1]);
        }
        lemma_column_target_at_least(rest, hidden, col, least);
        lemma_column_target_at_least(rest, hidden, col - cells[0].width, least);
    }
}

proof fn lemma_column_target_monotone(
    cells: Seq<GraphemeCell>,
    hidden: Seq<(usize, usize)>,
    left: int,
    right: int,
)
    requires
        cells_ordered(cells),
        0 <= left <= right,
    ensures
        match (column_target(cells, hidden, left), column_target(cells, hidden, right)) {
            (Some(s), Some(t)) => s <= t,
            (None, Some(_)) => false,
            _ => true,
        },
    decreases cells.len(),
{
    if cells.len() > 0 {
        let rest = cells.drop_first();
        let first = cells[0];
        assert(cells_ordered(rest)) by {
            assert forall|i: int, j: int| 0 <= i < j < rest.len() implies (
            #[trigger] rest[i]).offset + (if rest[i].single_byte {
                1int
            } else {
                2int
            }) <= (#[trigger] rest[j]).offset by {
                assert(rest[i] == cells[i + 1]);
                assert(rest[j] == cells[j + 1]);
            }
        }
        if in_ranges(hidden, first.offset) {
            lemma_column_target_monotone(rest, hidden, left, right);
        } else if left >= first.width {
            lemma_column_target_monotone(
                rest,
                hidden,
                left - first.width,
                right - first.width,
            );
        } else if right >= first.width {
            let least = first.offset + (if first.single_byte {
                1int
            } else {
                2int
            });
            assert forall|i: int| 0 <= i < rest.len() implies least <= (
            #[trigger] rest[i]).offset by {
                assert(rest[i] == cells[i + 1]);
            }
            lemma_column_target_at_least(rest, hidden, right - first.width, least);
        }
    }
}

/// Along a row of one region the document position under the pointer stays in
/// the region's message and block, does not fall from left to right, and lies
/// between the region's first and last byte.
pub proof fn law_cursor_follows_pointer(
    regions: Seq<BlockRegion>,
    region: BlockRegion,
    left: int,
    right: int,
    y: int,
)
    requires
        left <= right,
        region_hit(regions, left, y) == Some(region),
        region_hit(regions, right, y) == Some(region),
        tiles(region.text@, grapheme_clusters(region.text@)),
        region.end_byte >= region.start_byte + byte_len(region.text@),
    ensures
        match (cursor_hit(regions, left, y), cursor_hit(regions, right, y)) {
            (Some(a), Some(b)) => {
                &&& a.message_idx == region.message_idx == b.message_idx
                &&& a.block_idx == region.block_idx == b.block_idx
                &&& region.start_byte <= a.byte_offset <= b.byte_offset <= region.end_byte
            },
            _ => false,
        },
{
    let cells = grapheme_cells(region.text@);
    let hidden = region.hidden_ranges@;
    lemma_cells_in_order(region.text@);
    assert(cells_ordered(cells));
    lemma_column_target_monotone(
        cells,
        hidden,
        text_column(region, left),
        text_column(region, right),
    );
    let len = byte_len(region.text@) as int;
    lemma_column_target_within(cells, hidden, text_column(region, left), len);
    lemma_column_target_within(cells, hidden, text_column(region, right), len);
}

/// There is a document position under a point exactly where a region covers it.
pub proof fn law_cursor_only_on_regions(regions: Seq<BlockRegion>, x: int, y: int)
    ensures
        cursor_hit(regions, x, y) is Some <==> exists|i: int|
            0 <= i < regions.len() && (#[trigger] regions[i]).rect.covers(x, y),
{
    law_first_region_wins(regions, x, y);
}

/// Every activatable region can be reached by the keyboard, and none twice:
/// the targets are distinct and are those of the activatable regions.
pub proof fn law_targets_are_complete(regions: Seq<BlockRegion>)
    ensures
        targets_in_order(regions).no_duplicates(),
        forall|t: InteractiveTarget| #[trigger]
            targets_in_order(regions).contains(t) <==> exists|i: int|
                0 <= i < regions.len() && is_activatable(#[trigger] regions[i]) && target_of(
                    regions[i],
                ) == t,
{
    let shown = activatable(regions);
    let keys = shown.map_values(|r: BlockRegion| screen_key(r));
    let order = stable_order(keys, keys.len() as int);
    let all = order.map_values(|i: int| target_of(shown[i]));
    law_stable_order(keys, keys.len() as int);
    law_first_occurrences(all);
    let keep = |r: BlockRegion| is_activatable(r);
    assert forall|t: InteractiveTarget| #[trigger] targets_in_order(regions).contains(t) implies (
    exists|i: int|
        0 <= i < regions.len() && is_activatable(#[trigger] regions[i]) && target_of(regions[i])
            == t) by {
        assert(all.contains(t));
        let k = choose|k: int| 0 <= k < all.len() && all[k] == t;
        let region = shown[order[k]];
        regions.lemma_filter_contains_rev(keep, region);
        let i = choose|i: int| 0 <= i < regions.len() && regions[i] == region;
        regions.lemma_filter_pred(keep, order[k]);
        assert(is_activatable(regions[i]));
    }
    assert forall|t: InteractiveTarget|
        (exists|i: int|
            0 <= i < regions.len() && is_activatable(#[trigger] regions[i]) && target_of(
                regions[i],
            ) == t) implies #[trigger] targets_in_order(regions).contains(t) by {
        let i = choose|i: int|
            0 <= i < regions.len() && is_activatable(#[trigger] regions[i]) && target_of(
                regions[i],
            ) == t;
        regions.lemma_filter_contains(keep, i);
        let k = choose|k: int| 0 <= k < shown.len() && shown[k] == regions[i];
        assert(order.contains(k));
        let n = choose|n: int| 0 <= n < order.len() && order[n] == k;
        assert(all[n] == t);
    }
}

/// The columns that the first `n` clusters take.
pub open spec fn columns_before(cells: Seq<GraphemeCell>, n: int) -> int
    decreases n,
{
    if n <= 0 {
        0
    } else {
        columns_before(cells, n - 1) + cells[n - 1].width
    }
}

/// Without hidden text, the column at which a cluster is drawn stands for its
/// first byte, and a further column of a wide one for the byte behind that.
pub proof fn law_column_finds_cluster(cells: Seq<GraphemeCell>, k: int, more: int)
    requires
        0 <= k < cells.len(),
        0 <= more < cells[k].width,
    ensures
        column_target(cells, Seq::empty(), columns_before(cells, k) + more) == Some(
            if more == 0 || cells[k].single_byte {
                cells[k].offset as int
            } else {
                cells[k].offset + 1
            },
        ),
    decreases k,
{
    assert(!in_ranges(Seq::empty(), cells[0].offset));
    if k > 0 {
        let rest = cells.drop_first();
        lemma_columns_drop_first(cells, k);
        lemma_columns_nonnegative(rest, k - 1);
        law_column_finds_cluster(rest, k - 1, more);
        assert(rest[k - 1] == cells[k]);
    }
}

proof fn lemma_columns_drop_first(cells: Seq<GraphemeCell>, k: int)
    requires
        0 < k <= cells.len(),
    ensures
        columns_before(cells, k) == cells[0].width + columns_before(cells.drop_first(), k - 1),
    decreases k,
{
    if k > 1 {
        lemma_columns_drop_first(cells, k - 1);
        assert(cells.drop_first()[k - 2] == cells[k - 1]);
    } else {
        assert(columns_before(cells, 0) == 0);
    }
}

proof fn lemma_columns_nonnegative(cells: Seq<GraphemeCell>, k: int)
    ensures
        columns_before(cells, k) >= 0,
    decreases k,
{
    if k > 0 {
        lemma_columns_nonnegative(cells, k - 1);
    }
}

/// Behind the last cluster a line stands for its end, and text that is hidden
/// takes no column.
pub proof fn law_columns_behind_line(cells: Seq<GraphemeCell>, hidden: Seq<(usize, usize)>, col: int)
    requires
        0 <= col,
    ensures
        col >= columns_before(cells, cells.len() as int) ==> column_target(
            cells,
            Seq::empty(),
            col,
        ) is None,
        (forall|i: int| 0 <= i < cells.len() ==> in_ranges(hidden, (#[trigger] cells[i]).offset))
            ==> column_target(cells, hidden, col) is None,
    decreases cells.len(),
{
    if cells.len() > 0 {
        let rest = cells.drop_first();
        assert(!in_ranges(Seq::empty(), cells[0].offset));
        lemma_columns_drop_first(cells, cells.len() as int);
        lemma_columns_nonnegative(rest, rest.len() as int);
        if col >= columns_before(cells, cells.len() as int) {
            law_columns_behind_line(rest, hidden, col - cells[0].width);
        }
        if forall|i: int| 0 <= i < cells.len() ==> in_ranges(hidden, (#[trigger] cells[i]).offset) {
            assert(in_ranges(hidden, cells[0].offset));
            assert forall|i: int| 0 <= i < rest.len() implies in_ranges(
                hidden,
                (#[trigger] rest[i]).offset,
            ) by {
                assert(rest[i] == cells[i + 1]);
            }
            law_columns_behind_line(rest, hidden, col);
        }
    }
}

/// A rectangle holds the cells from its corner on, and those at its far edges no
/// longer.
pub proof fn law_rect_holds(rect: Rect, x: int, y: int)
    ensures
        rect.covers(x, y) <==> rect.x <= x < rect.x + rect.width && rect.y <= y < rect.y
            + rect.height,
{
}

} // verus!
