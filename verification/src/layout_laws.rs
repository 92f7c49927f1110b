//! What the layout is for: finding what is shown at a point of the screen.
use crate::graphemes::grapheme_cells;
use crate::graphemes::GraphemeCell;
use crate::interaction::is_click_target;
use crate::interaction::ClickTarget;
use crate::layout::activatable;
use crate::layout::cell_hit;
use crate::layout::cell_segments;
use crate::layout::column_target;
use crate::layout::columns_before;
use crate::layout::cursor_hit;
use crate::layout::in_ranges;
use crate::layout::is_activatable;
use crate::layout::law_column_finds_cluster;
use crate::layout::region_hit;
use crate::layout::screen_key;
use crate::layout::target_of;
use crate::layout::targets_in_order;
use crate::layout::BlockRegion;
use crate::layout::InteractiveTarget;
use crate::layout::LayoutView;
use crate::layout::SemanticCursor;
use crate::layout::TableCellHit;
use crate::layout::TableCellSegment;
use crate::layout::INPUT_MSG_IDX;
use crate::layout::THINKING_BLOCK_IDX;
use crate::layout::TOOL_STEP_BLOCK_IDX;
use crate::order::first_occurrences;
use crate::order::law_first_occurrences;
use crate::order::law_stable_order;
use crate::order::stable_order;
use crate::selection::clamped_to_cell;
use vstd::prelude::*;

verus! {

/// Whether `a` begins above `b` on the screen, or left of it on the same row.
pub open spec fn comes_before(a: BlockRegion, b: BlockRegion) -> bool {
    a.rect.y < b.rect.y || (a.rect.y == b.rect.y && a.rect.x < b.rect.x)
}

/// What occurs earlier in a list is kept in front of what occurs later.
pub proof fn law_first_occurrences_keep_order<T>(s: Seq<T>, p: int, y: T)
    requires
        0 <= p < s.len(),
        s.contains(y),
        forall|q: int| 0 <= q < s.len() && #[trigger] s[q] == y ==> p < q,
    ensures
        exists|i: int, j: int|
            0 <= i < j < first_occurrences(s).len() && #[trigger] first_occurrences(s)[i] == s[p]
                && #[trigger] first_occurrences(s)[j] == y,
    decreases s.len(),
{
    let rest = s.drop_last();
    let kept = first_occurrences(rest);
    let all = first_occurrences(s);
    law_first_occurrences(rest);
    if rest.contains(y) {
        let q = choose|q: int| 0 <= q < rest.len() && rest[q] == y;
        assert(s[q] == y);
        assert forall|q: int| 0 <= q < rest.len() && #[trigger] rest[q] == y implies p < q by {
            assert(s[q] == y);
        }
        law_first_occurrences_keep_order(rest, p, y);
        let (i, j) = choose|i: int, j: int|
            0 <= i < j < kept.len() && #[trigger] kept[i] == rest[p] && #[trigger] kept[j] == y;
        assert(all[i] == s[p] && all[j] == y);
    } else {
        let q = choose|q: int| 0 <= q < s.len() && s[q] == y;
        assert(q == s.len() - 1) by {
            if q < s.len() - 1 {
                assert(rest[q] == y);
            }
        }
        assert(rest[p] == s[p]);
        assert(rest.contains(s[p]));
        assert(kept.contains(s[p]));
        assert(!kept.contains(y));
        let i = choose|i: int| 0 <= i < kept.len() && kept[i] == s[p];
        assert(all[i] == s[p] && all[kept.len() as int] == y);
    }
}

/// The steps on screen are walked from the top down, and on one row from left to
/// right: a step that shows in front of every place where another shows comes
/// before that one.
pub proof fn law_targets_from_top_down(regions: Seq<BlockRegion>, i: int, t: InteractiveTarget)
    requires
        0 <= i < regions.len(),
        is_activatable(regions[i]),
        targets_in_order(regions).contains(t),
        forall|k: int|
            0 <= k < regions.len() && is_activatable(#[trigger] regions[k]) && target_of(regions[k])
                == t ==> comes_before(regions[i], regions[k]),
    ensures
        exists|m: int, n: int|
            0 <= m < n < targets_in_order(regions).len() && #[trigger] targets_in_order(regions)[m]
                == target_of(regions[i]) && #[trigger] targets_in_order(regions)[n] == t,
{
    let shown = activatable(regions);
    let keep = |r: BlockRegion| is_activatable(r);
    let keys = shown.map_values(|r: BlockRegion| screen_key(r));
    let order = stable_order(keys, keys.len() as int);
    let all = order.map_values(|k: int| target_of(shown[k]));
    law_stable_order(keys, keys.len() as int);
    law_first_occurrences(all);
    regions.lemma_filter_contains(keep, i);
    let k = choose|k: int| 0 <= k < shown.len() && shown[k] == regions[i];
    assert(order.contains(k));
    let p = choose|p: int| 0 <= p < order.len() && order[p] == k;
    assert(all[p] == target_of(regions[i]));
    assert(all.contains(t));
    assert forall|q: int| 0 <= q < all.len() && #[trigger] all[q] == t implies p < q by {
        let region = shown[order[q]];
        assert(keys[order[q]] == screen_key(region));
        assert(keys[k] == screen_key(regions[i]));
        regions.lemma_filter_pred(keep, order[q]);
        regions.lemma_filter_contains_rev(keep, region);
        let r = choose|r: int| 0 <= r < regions.len() && regions[r] == region;
        assert(comes_before(regions[i], regions[r]));
        assert(screen_key(regions[i]) < screen_key(region));
        if q < p {
            assert(keys[order[q]] <= keys[order[p]]);
        }
    }
    law_first_occurrences_keep_order(all, p, t);
}

/// Hidden characters take no columns: a column finds what it would find with
/// them taken out.
pub proof fn law_hidden_text_takes_no_columns(
    cells: Seq<GraphemeCell>,
    hidden: Seq<(usize, usize)>,
    col: int,
)
    ensures
        column_target(cells, hidden, col) == column_target(
            cells.filter(|c: GraphemeCell| !in_ranges(hidden, c.offset)),
            Seq::empty(),
            col,
        ),
    decreases cells.len(),
{
    let keep = |c: GraphemeCell| !in_ranges(hidden, c.offset);
    if cells.len() > 0 {
        let rest = cells.drop_first();
        let one = seq![cells[0]];
        assert(cells =~= one + rest);
        Seq::filter_distributes_over_add(one, rest, keep);
        reveal(Seq::filter);
        assert(one.drop_last() =~= Seq::empty());
        assert(one.drop_last().filter(keep) =~= Seq::empty());
        let shown = rest.filter(keep);
        if in_ranges(hidden, cells[0].offset) {
            assert(one.filter(keep) =~= Seq::empty());
            assert(cells.filter(keep) =~= shown);
            law_hidden_text_takes_no_columns(rest, hidden, col);
        } else {
            assert(one.filter(keep) =~= one);
            assert(cells.filter(keep) =~= one + shown);
            assert((one + shown).drop_first() =~= shown);
            assert(!in_ranges(Seq::empty(), cells[0].offset));
            law_hidden_text_takes_no_columns(rest, hidden, col - cells[0].width);
        }
    } else {
        reveal(Seq::filter);
    }
}

/// A point on the text of a row finds the cluster that is shown there: the text
/// begins behind the columns of the prefix, and a point on the prefix finds the
/// beginning.
pub proof fn law_point_finds_text(
    regions: Seq<BlockRegion>,
    region: BlockRegion,
    x: int,
    y: int,
    k: int,
)
    requires
        region_hit(regions, x, y) == Some(region),
        region.hidden_ranges@.len() == 0,
        0 <= k < grapheme_cells(region.text@).len(),
        grapheme_cells(region.text@)[k].width > 0,
        region.start_byte + grapheme_cells(region.text@)[k].offset + 1 <= usize::MAX,
    ensures
        ({
            let cells = grapheme_cells(region.text@);
            let left = region.rect.x + region.prefix_cols;
            &&& x == left + columns_before(cells, k) ==> cursor_hit(regions, x, y) == Some(
                SemanticCursor {
                    message_idx: region.message_idx,
                    block_idx: region.block_idx,
                    byte_offset: (region.start_byte + cells[k].offset) as usize,
                },
            )
            &&& k == 0 && x <= left ==> cursor_hit(regions, x, y) == Some(
                SemanticCursor {
                    message_idx: region.message_idx,
                    block_idx: region.block_idx,
                    byte_offset: (region.start_byte + cells[0].offset) as usize,
                },
            )
        }),
{
    let cells = grapheme_cells(region.text@);
    assert(region.hidden_ranges@ =~= Seq::empty());
    law_column_finds_cluster(cells, k, 0);
    lemma_columns_before(cells, k);
    if k == 0 {
        law_column_finds_cluster(cells, 0, 0);
    }
}

proof fn lemma_columns_before(cells: Seq<GraphemeCell>, n: int)
    requires
        0 <= n <= cells.len(),
    ensures
        columns_before(cells, n) >= 0,
    decreases n,
{
    if n > 0 {
        lemma_columns_before(cells, n - 1);
    }
}

/// Of the table cells over a point the first one is hit, and none where none is.
pub proof fn law_first_cell_wins(cells: Seq<TableCellHit>, i: int, x: int, y: int)
    ensures
        0 <= i < cells.len() && cells[i].rect.covers(x, y) && (forall|k: int|
            0 <= k < i ==> !(#[trigger] cells[k]).rect.covers(x, y)) ==> cell_hit(cells, x, y)
            == Some(cells[i]),
        (forall|k: int| 0 <= k < cells.len() ==> !(#[trigger] cells[k]).rect.covers(x, y))
            ==> cell_hit(cells, x, y) is None,
    decreases cells.len(),
{
    if cells.len() > 0 {
        let rest = cells.drop_first();
        law_first_cell_wins(rest, i - 1, x, y);
        if 0 < i < cells.len() && (forall|k: int|
            0 <= k < i ==> !(#[trigger] cells[k]).rect.covers(x, y)) {
            assert(!cells[0].rect.covers(x, y));
            assert forall|k: int| 0 <= k < i - 1 implies !(#[trigger] rest[k]).rect.covers(
                x,
                y,
            ) by {
                assert(rest[k] == cells[k + 1]);
            }
            assert(rest[i - 1] == cells[i]);
        }
        if forall|k: int| 0 <= k < cells.len() ==> !(#[trigger] cells[k]).rect.covers(x, y) {
            assert(!cells[0].rect.covers(x, y));
            assert forall|k: int| 0 <= k < rest.len() implies !(#[trigger] rest[k]).rect.covers(
                x,
                y,
            ) by {
                assert(rest[k] == cells[k + 1]);
            }
        }
    }
}

/// The segments of a table cell are those of its own rows, in the order in which
/// the rows were laid out.
pub proof fn law_segments_in_order(
    cells: Seq<TableCellHit>,
    hit: TableCellHit,
    message_idx: usize,
    block_idx: usize,
    cell_idx: usize,
)
    ensures
        cell_segments(Seq::empty(), message_idx, block_idx, cell_idx).len() == 0,
        hit.message_idx == message_idx && hit.block_idx == block_idx && hit.cell_idx == cell_idx
            ==> cell_segments(cells.push(hit), message_idx, block_idx, cell_idx) == cell_segments(
            cells,
            message_idx,
            block_idx,
            cell_idx,
        ).push(hit.segment),
        hit.message_idx != message_idx || hit.block_idx != block_idx || hit.cell_idx != cell_idx
            ==> cell_segments(cells.push(hit), message_idx, block_idx, cell_idx) == cell_segments(
            cells,
            message_idx,
            block_idx,
            cell_idx,
        ),
{
    assert(cells.push(hit).drop_last() =~= cells);
}

/// A position in the text of a cell stays; one in front of the cell goes to its
/// beginning, one behind it to its end, and one between two rows of it to the
/// beginning of the later row.
pub proof fn law_clamped_into_cell(segments: Seq<TableCellSegment>, k: int, offset: usize)
    requires
        0 <= k < segments.len(),
        forall|i: int|
            0 <= i < segments.len() ==> (#[trigger] segments[i]).content_range.0
                <= segments[i].content_range.1,
        forall|i: int, j: int|
            0 <= i < j < segments.len() ==> (#[trigger] segments[i]).content_range.1 < (
            #[trigger] segments[j]).content_range.0,
    ensures
        segments[k].content_range.0 <= offset <= segments[k].content_range.1 ==> clamped_to_cell(
            segments,
            offset,
        ) == offset,
        k == 0 && offset < segments[0].content_range.0 ==> clamped_to_cell(segments, offset)
            == segments[0].content_range.0,
        k == segments.len() - 1 && offset > segments[k].content_range.1 ==> clamped_to_cell(
            segments,
            offset,
        ) == segments[k].content_range.1,
        k > 0 && segments[k - 1].content_range.1 < offset < segments[k].content_range.0
            ==> clamped_to_cell(segments, offset) == segments[k].content_range.0,
    decreases segments.len(),
{
    if k > 0 {
        let rest = segments.drop_first();
        assert forall|i: int| 0 <= i < rest.len() implies (#[trigger] rest[i]).content_range.0
            <= rest[i].content_range.1 by {
            assert(rest[i] == segments[i + 1]);
        }
        assert forall|i: int, j: int| 0 <= i < j < rest.len() implies (
        #[trigger] rest[i]).content_range.1 < (#[trigger] rest[j]).content_range.0 by {
            assert(rest[i] == segments[i + 1] && rest[j] == segments[j + 1]);
        }
        law_clamped_into_cell(rest, k - 1, offset);
        assert(rest[k - 1] == segments[k]);
        assert(segments[0].content_range.1 < segments[k].content_range.0);
        if k > 1 {
            assert(rest[k - 2] == segments[k - 1]);
            assert(segments[0].content_range.1 < segments[k - 1].content_range.0);
            assert(segments[k - 1].content_range.0 <= segments[k - 1].content_range.1);
        }
        assert(segments[k].content_range.0 <= segments[k].content_range.1);
        if k == 1 && segments[0].content_range.1 < offset < segments[1].content_range.0 {
            law_clamped_into_cell(rest, 0, offset);
        }
    }
}

/// What a press means where no summary is: the table cell over it with all its
/// segments, else the text under it, else the gap inside the transcript, and
/// outside of it nothing.
pub proof fn law_press_beside_summaries(layout: LayoutView, x: int, y: int, target: ClickTarget)
    requires
        is_click_target(layout, x, y, target),
    ensures
        cursor_hit(layout.regions, x, y) matches Some(cursor) && cursor.message_idx
            != INPUT_MSG_IDX && cursor.block_idx != TOOL_STEP_BLOCK_IDX && cursor.block_idx
            != THINKING_BLOCK_IDX ==> {
            let cursor = cursor_hit(layout.regions, x, y)->Some_0;
            match cell_hit(layout.cells, x, y) {
                Some(hit) => {
                    &&& target is TableCell
                    &&& target->TableCell_message_idx == hit.message_idx
                    &&& target->cell_idx == hit.cell_idx
                    &&& target->TableCell_cursor == cursor
                    &&& target->cell_text == hit.cell_text
                },
                None => target == (ClickTarget::Content { cursor }),
            }
        },
        cursor_hit(layout.regions, x, y) is None && (layout.content_rect matches Some(rect)
            && rect.x <= x < rect.x + rect.width && rect.y <= y < rect.y + rect.height) ==> target
            == ClickTarget::ContentGap,
        cursor_hit(layout.regions, x, y) is None && !(layout.content_rect matches Some(rect)
            && rect.x <= x < rect.x + rect.width && rect.y <= y < rect.y + rect.height) ==> target
            == ClickTarget::Dead,
{
}

} // verus!
