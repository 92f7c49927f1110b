//! Grapheme clusters of a text and the columns they take on screen.
use crate::text::byte_len;
use crate::text::lemma_byte_len_bounds;
use crate::text::lemma_byte_len_concat;
use crate::text::same_text;
use crate::text::utf8_len;
use unicode_segmentation::UnicodeSegmentation;
use unicode_width::UnicodeWidthStr;
use vstd::prelude::*;

verus! {

/// The first `n` clusters of `clusters`, put together.
pub open spec fn joined(clusters: Seq<(usize, Seq<char>)>, n: int) -> Seq<char>
    decreases n,
{
    if n <= 0 {
        Seq::empty()
    } else {
        joined(clusters, n - 1) + clusters[n - 1].1
    }
}

/// Whether `clusters` cuts `text` into non-empty pieces, each with its byte
/// offset in `text`.
pub open spec fn tiles(text: Seq<char>, clusters: Seq<(usize, Seq<char>)>) -> bool {
    &&& joined(clusters, clusters.len() as int) == text
    &&& forall|i: int|
        0 <= i < clusters.len() ==> {
            &&& (#[trigger] clusters[i]).0 == byte_len(joined(clusters, i))
            &&& clusters[i].1.len() > 0
        }
}

/// The extended grapheme clusters of a text with their byte offsets, as
/// `UnicodeSegmentation::grapheme_indices` finds them.
pub uninterp spec fn grapheme_clusters(text: Seq<char>) -> Seq<(usize, Seq<char>)>;

/// The columns a text takes on screen, as `UnicodeWidthStr::width` counts them.
pub uninterp spec fn display_width(text: Seq<char>) -> usize;

pub open spec fn cluster_views(clusters: Seq<(usize, String)>) -> Seq<(usize, Seq<char>)> {
    clusters.map_values(|c: (usize, String)| (c.0, c.1@))
}

/// Calls `UnicodeSegmentation::grapheme_indices` for extended clusters.
///
/// Taken on trust: the result depends on the text alone, and the clusters are
/// non-empty pieces that make up the text in order, each with the byte offset
/// at which it starts. Where the boundaries fall is left to the named result.
#[verifier::external_body]
pub(crate) fn grapheme_indices(text: &str) -> (clusters: Vec<(usize, String)>)
    ensures
        cluster_views(clusters@) == grapheme_clusters(text@),
        tiles(text@, cluster_views(clusters@)),
{
    UnicodeSegmentation::grapheme_indices(text, true).map(|(at, g)| (at, g.to_string())).collect()
}

/// Calls `UnicodeWidthStr::width`.
///
/// Taken on trust: the result depends on the text alone.
#[verifier::external_body]
pub(crate) fn text_width(text: &str) -> (width: usize)
    ensures
        width == display_width(text@),
{
    UnicodeWidthStr::width(text)
}

/// One grapheme cluster as hit-testing sees it.
#[derive(Debug, Clone, Copy, PartialEq, Eq, Structural)]
pub struct GraphemeCell {
    /// Byte offset of the cluster in its text.
    pub offset: usize,
    /// Whether the cluster is a single byte.
    pub single_byte: bool,
    /// Columns that the cluster takes: none for a line break, else at least
    /// one.
    pub width: usize,
}

/// The cell of one cluster.
pub open spec fn cell_of(cluster: (usize, Seq<char>)) -> GraphemeCell {
    GraphemeCell {
        offset: cluster.0,
        single_byte: byte_len(cluster.1) <= 1,
        width: if cluster.1 == seq!['\n'] {
            0
        } else if display_width(cluster.1) == 0 {
            1
        } else {
            display_width(cluster.1)
        },
    }
}

/// The cells of a text.
pub open spec fn grapheme_cells(text: Seq<char>) -> Seq<GraphemeCell> {
    grapheme_clusters(text).map_values(|c: (usize, Seq<char>)| cell_of(c))
}

/// Whether the cells stay inside a text of `len` bytes: a cell starts before
/// the end, and one of several bytes leaves room for its second byte.
pub open spec fn cells_within(cells: Seq<GraphemeCell>, len: int) -> bool {
    forall|i: int|
        0 <= i < cells.len() ==> (#[trigger] cells[i]).offset + (if cells[i].single_byte {
            1int
        } else {
            2int
        }) <= len
}

proof fn lemma_joined_monotone(clusters: Seq<(usize, Seq<char>)>, i: int, n: int)
    requires
        0 <= i <= n,
    ensures
        byte_len(joined(clusters, i)) <= byte_len(joined(clusters, n)),
    decreases n - i,
{
    if i < n {
        lemma_joined_monotone(clusters, i, n - 1);
        lemma_byte_len_concat(joined(clusters, n - 1), clusters[n - 1].1);
    }
}

/// The cells of a text lie inside it, one behind the other.
pub proof fn lemma_cells_in_order(text: Seq<char>)
    requires
        tiles(text, grapheme_clusters(text)),
    ensures
        cells_within(grapheme_cells(text), byte_len(text) as int),
        forall|i: int, j: int|
            #![trigger grapheme_cells(text)[i], grapheme_cells(text)[j]]
            0 <= i < j < grapheme_cells(text).len() ==> grapheme_cells(text)[i].offset + (
            if grapheme_cells(text)[i].single_byte {
                1int
            } else {
                2int
            }) <= grapheme_cells(text)[j].offset,
{
    let clusters = grapheme_clusters(text);
    let cells = grapheme_cells(text);
    assert forall|i: int, n: int| 0 <= i < n <= cells.len() implies #[trigger] cells[i].offset + (
    if cells[i].single_byte {
        1int
    } else {
        2int
    }) <= byte_len(#[trigger] joined(clusters, n)) by {
        lemma_byte_len_bounds(clusters[i].1);
        lemma_byte_len_concat(joined(clusters, i), clusters[i].1);
        lemma_joined_monotone(clusters, i + 1, n);
    }
    assert forall|i: int| 0 <= i < cells.len() implies (#[trigger] cells[i]).offset + (
    if cells[i].single_byte {
        1int
    } else {
        2int
    }) <= byte_len(text) by {
        assert(joined(clusters, clusters.len() as int) == text);
    }
    assert forall|i: int, j: int|
        #![trigger cells[i], cells[j]]
        0 <= i < j < cells.len() implies cells[i].offset + (if cells[i].single_byte {
        1int
    } else {
        2int
    }) <= cells[j].offset by {
        assert(clusters[j].0 == byte_len(joined(clusters, j)));
    }
}

/// Measures the grapheme clusters of `text`.
pub fn measure(text: &str) -> (cells: Vec<GraphemeCell>)
    ensures
        cells@ == grapheme_cells(text@),
        tiles(text@, grapheme_clusters(text@)),
        cells_within(cells@, byte_len(text@) as int),
{
    let clusters: Vec<(usize, String)> = grapheme_indices(text);
    let ghost views = cluster_views(clusters@);
    let count: usize = clusters.len();
    let mut cells: Vec<GraphemeCell> = Vec::new();
    let mut i: usize = 0;
    while i < count
        invariant
            i <= count,
            count == clusters@.len(),
            views == cluster_views(clusters@),
            tiles(text@, views),
            cells@ == views.take(i as int).map_values(|c: (usize, Seq<char>)| cell_of(c)),
            cells_within(cells@, byte_len(text@) as int),
        decreases count - i,
    {
        let cluster: &str = clusters[i].1.as_str();
        let bytes: u128 = utf8_len(cluster);
        proof {
            reveal_strlit("\n");
            assert("\n"@ =~= seq!['\n']);
            assert(views[i as int] == (clusters@[i as int].0, cluster@));
            lemma_byte_len_bounds(cluster@);
            lemma_byte_len_concat(joined(views, i as int), cluster@);
            assert(joined(views, i + 1) == joined(views, i as int) + cluster@);
            lemma_joined_monotone(views, i + 1, views.len() as int);
        }
        let width: usize = if same_text(cluster, "\n") {
            0
        } else {
            let w: usize = text_width(cluster);
            if w == 0 {
                1
            } else {
                w
            }
        };
        cells.push(GraphemeCell { offset: clusters[i].0, single_byte: bytes <= 1, width });
        i += 1;
        proof {
            assert(views.take(i as int).drop_last() =~= views.take(i - 1));
            assert(cells@ =~= views.take(i as int).map_values(|c: (usize, Seq<char>)| cell_of(c)));
        }
    }
    proof {
        assert(views.take(count as int) =~= views);
    }
    cells
}

} // verus!
