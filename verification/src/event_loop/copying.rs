//! Copying the selection, and what Control+C does besides.
use crate::agent::AgentRequest;
use crate::app::composer::history_draft_restored;
use crate::app::navigate::left_side_view;
use crate::app::switching::switched;
use crate::app::App;
use crate::app::Composer;
use crate::app::Effect;
use crate::app::Overlay;
use crate::app::Toast;
use crate::clipboard_ops::later;
use crate::clipboard_ops::show_local_toast;
use crate::clipboard_ops::toasted;
use crate::event_loop::permission::send;
use crate::graphemes::cluster_views;
use crate::graphemes::grapheme_clusters;
use crate::graphemes::grapheme_indices;
use crate::graphemes::joined;
use crate::graphemes::tiles;
use crate::layout::SemanticCursor;
use crate::layout::INPUT_MSG_IDX;
use crate::modal::Modal;
use crate::selection::SelectionState;
use crate::text::byte_len;
use crate::text::char_count;
use crate::text::lemma_byte_len_concat;
use crate::text::utf8_len;
use vstd::prelude::*;

verus! {

/// Ticks in which a second key press does what the first one announced.
pub const ARMED_TICKS: u8 = 20;

/// The position of the cluster that the byte offset `at` falls into: the
/// number of clusters that end at or before it.
pub open spec fn cluster_at(clusters: Seq<(usize, Seq<char>)>, at: usize) -> nat
    decreases clusters.len(),
{
    if clusters.len() == 0 || at < clusters[0].0 + byte_len(clusters[0].1) {
        0
    } else {
        1 + cluster_at(clusters.drop_first(), at)
    }
}

/// The clusters from the one that `start` falls into up to and including the
/// one that `end` falls into.
pub open spec fn clusters_between(text: Seq<char>, start: usize, end: usize) -> Seq<
    (usize, Seq<char>),
> {
    let clusters = grapheme_clusters(text);
    let from = cluster_at(clusters, start) as int;
    let last = cluster_at(clusters, end) as int;
    let to = if last < clusters.len() {
        last + 1
    } else {
        last
    };
    if from < to {
        clusters.subrange(from, to)
    } else {
        Seq::empty()
    }
}

/// Whether the selection lies in the input box.
pub open spec fn is_on_input(sel: SelectionState) -> bool {
    match sel {
        SelectionState::Empty => false,
        SelectionState::Block { message_idx, .. } => message_idx == INPUT_MSG_IDX,
        SelectionState::TableCell { message_idx, .. } => message_idx == INPUT_MSG_IDX,
        SelectionState::Range { anchor, head } => anchor.message_idx == INPUT_MSG_IDX
            && head.message_idx == INPUT_MSG_IDX,
    }
}

/// The selected text: what is selected of the transcript, or of the input
/// box, there in whole clusters.
pub open spec fn selected_text(
    sel: SelectionState,
    transcript: Option<Seq<char>>,
    input: Seq<char>,
) -> Option<Seq<char>> {
    if !is_on_input(sel) {
        transcript
    } else {
        match sel {
            SelectionState::Block { .. } => Some(input),
            SelectionState::Range { .. } => match sel.normalized() {
                Some((start, end)) => {
                    let pieces = clusters_between(input, start.byte_offset, end.byte_offset);
                    if pieces.len() > 0 {
                        Some(joined(pieces, pieces.len() as int))
                    } else {
                        None
                    }
                },
                None => None,
            },
            _ => None,
        }
    }
}

/// An optional text as a sequence of characters.
pub open spec fn text_view(text: Option<String>) -> Option<Seq<char>> {
    match text {
        Some(t) => Some(t@),
        None => None,
    }
}

fn find_cluster(clusters: &Vec<(usize, String)>, at: usize) -> (i: usize)
    ensures
        i == cluster_at(cluster_views(clusters@), at),
        i <= clusters@.len(),
{
    let count: usize = clusters.len();
    let ghost views = cluster_views(clusters@);
    let mut i: usize = 0;
    proof {
        assert(views.skip(0) =~= views);
    }
    while i < count
        invariant
            i <= count,
            count == clusters@.len(),
            views == cluster_views(clusters@),
            cluster_at(views, at) == i + cluster_at(views.skip(i as int), at),
        decreases count - i,
    {
        let piece: &str = clusters[i].1.as_str();
        let bytes: u128 = utf8_len(piece);
        proof {
            assert(views.skip(i as int)[0] == (clusters@[i as int].0, piece@));
            assert(views.skip(i as int).drop_first() =~= views.skip(i + 1));
        }
        if (at as u128) < clusters[i].0 as u128 + bytes {
            return i;
        }
        i += 1;
    }
    i
}

fn join_clusters(clusters: &Vec<(usize, String)>, from: usize, to: usize) -> (text: String)
    requires
        from <= to <= clusters@.len(),
    ensures
        text@ == joined(cluster_views(clusters@).subrange(from as int, to as int), to - from),
{
    let mut text: String = String::new();
    let ghost pieces = cluster_views(clusters@).subrange(from as int, to as int);
    let mut i: usize = from;
    while i < to
        invariant
            from <= i <= to,
            to <= clusters@.len(),
            pieces == cluster_views(clusters@).subrange(from as int, to as int),
            text@ == joined(pieces, i - from),
        decreases to - i,
    {
        text.append(clusters[i].1.as_str());
        i += 1;
        proof {
            assert(pieces[i - 1 - from] == (clusters@[i - 1].0, clusters@[i - 1].1@));
        }
    }
    text
}

/// The selected text. `transcript_text` is what is selected of the
/// transcript.
pub fn extract_selection_text(
    sel: &SelectionState,
    transcript_text: Option<String>,
    input: &str,
) -> (text: Option<String>)
    ensures
        text_view(text) == selected_text(*sel, text_view(transcript_text), input@),
{
    let on_input: bool = match sel {
        SelectionState::Empty => false,
        SelectionState::Block { message_idx, .. } => *message_idx == INPUT_MSG_IDX,
        SelectionState::TableCell { message_idx, .. } => *message_idx == INPUT_MSG_IDX,
        SelectionState::Range { anchor, head } => anchor.message_idx == INPUT_MSG_IDX
            && head.message_idx == INPUT_MSG_IDX,
    };
    if !on_input {
        return transcript_text;
    }
    match sel {
        SelectionState::Block { .. } => Some(input.to_owned()),
        SelectionState::Range { .. } => match sel.active_normalized_range() {
            Some((start, end)) => {
                let clusters: Vec<(usize, String)> = grapheme_indices(input);
                let from: usize = find_cluster(&clusters, start.byte_offset);
                let last: usize = find_cluster(&clusters, end.byte_offset);
                let to: usize = if last < clusters.len() {
                    last + 1
                } else {
                    last
                };
                if from < to {
                    Some(join_clusters(&clusters, from, to))
                } else {
                    None
                }
            },
            None => None,
        },
        _ => None,
    }
}

/// Whether the selected text was asked to be copied, where there is some.
pub open spec fn selection_copied(a: App, text: Option<Seq<char>>, b: App) -> bool {
    match text {
        Some(text) => {
            &&& b.outbox@.len() == a.outbox@.len() + 1
            &&& b.outbox@.drop_last() == a.outbox@
            &&& b.outbox@.last() matches Effect::Copy(copied) && copied@ == text
            &&& b == (App { outbox: b.outbox, ..a })
        },
        None => b == a,
    }
}

/// What is selected, given what is selected of the transcript.
pub open spec fn selected_in(a: App, transcript_text: Option<String>) -> Option<Seq<char>> {
    selected_text(a.view.selection, text_view(transcript_text), a.composer.input@)
}

/// Asks to copy the selected text. Says whether there is some.
pub fn copy_selection(app: &mut App, transcript_text: Option<String>) -> (copied: bool)
    ensures
        copied == selected_in(*old(app), transcript_text) is Some,
        selection_copied(*old(app), selected_in(*old(app), transcript_text), *final(app)),
{
    match extract_selection_text(
        &app.view.selection,
        transcript_text,
        app.composer.input.as_str(),
    ) {
        Some(text) => {
            app.outbox.push(Effect::Copy(text));
            proof {
                assert(app.outbox@.drop_last() =~= old(app).outbox@);
            }
            true
        },
        None => false,
    }
}

/// Whether the side conversation was left and the agent told.
pub open spec fn side_view_exited(a: App, b: App) -> bool {
    &&& b.outbox@ == a.outbox@.push(Effect::Send(AgentRequest::ExitSideView))
    &&& left_side_view(App { outbox: b.outbox, ..a }, b)
}

/// Leaves the side conversation.
pub fn exit_side_conversation(app: &mut App)
    ensures
        side_view_exited(*old(app), *final(app)),
{
    app.exit_side_view();
    send(app, AgentRequest::ExitSideView);
}

/// The state with a second Control+C armed to leave.
pub open spec fn armed(a: App) -> App {
    App { toast: Toast { ctrl_c_armed_ticks: ARMED_TICKS, ..a.toast }, ..a }
}

/// Whether the input was cleared and leaving armed.
pub open spec fn input_cleared(a: App, now: u64, b: App) -> bool {
    &&& b.composer.input@ == Seq::<char>::empty()
    &&& toasted(
        App {
            composer: Composer {
                input: b.composer.input,
                cursor_position: 0,
                cursor_sync_pending: true,
                input_scroll: 0,
                ..a.composer
            },
            ..armed(a)
        },
        "input cleared — Ctrl+C again to exit"@,
        false,
        later(now, 2000),
        b,
    )
}

fn clear_input(app: &mut App, now: u64)
    ensures
        input_cleared(*old(app), now, *final(app)),
{
    app.composer.input = String::new();
    app.set_cursor(0);
    app.composer.input_scroll = 0;
    app.toast.ctrl_c_armed_ticks = ARMED_TICKS;
    show_local_toast(app, "input cleared — Ctrl+C again to exit".to_owned(), false, now, 2000);
}

/// What Control+C did. In this order: copy the selection, close the overlay,
/// leave the side conversation, clear the input, leave; the last one needs
/// two presses. A running turn is left alone.
pub open spec fn ctrl_c_pressed(a: App, transcript_text: Option<String>, now: u64, b: App) -> bool {
    let selected = selected_in(a, transcript_text);
    let shut = App { overlay: Overlay { active_modal: Modal::Closed, ..a.overlay }, ..a };
    if selected is Some {
        selection_copied(a, selected, b)
    } else if a.overlay.active_modal == Modal::HistorySearch {
        history_draft_restored(shut, b)
    } else if a.overlay.active_modal != Modal::Closed && a.overlay.active_modal
        != Modal::Permission {
        switched(a, Modal::Closed, b)
    } else if a.view.in_side_view {
        side_view_exited(a, b)
    } else if a.composer.input@.len() > 0 {
        input_cleared(a, now, b)
    } else if a.toast.ctrl_c_armed_ticks > 0 {
        b == (App { should_quit: true, ..a })
    } else {
        b == armed(a)
    }
}

/// Handles Control+C. `transcript_text` is what is selected of the
/// transcript, `now` the host's clock.
pub fn handle_ctrl_c(app: &mut App, transcript_text: Option<String>, now: u64)
    ensures
        ctrl_c_pressed(*old(app), transcript_text, now, *final(app)),
{
    if copy_selection(app, transcript_text) {
        return ;
    }
    if app.overlay.active_modal == Modal::HistorySearch {
        app.restore_history_draft();
        app.overlay.active_modal = Modal::Closed;
    } else if app.overlay.active_modal != Modal::Closed && app.overlay.active_modal
        != Modal::Permission {
        app.switch_modal(Modal::Closed);
    } else if app.view.in_side_view {
        exit_side_conversation(app);
    } else if char_count(app.composer.input.as_str()) > 0 {
        clear_input(app, now);
    } else if app.toast.ctrl_c_armed_ticks > 0 {
        app.should_quit = true;
    } else {
        app.toast.ctrl_c_armed_ticks = ARMED_TICKS;
    }
}

/// What `Esc` did to a running turn: the first press arms, the second
/// interrupts.
pub open spec fn interrupt_pressed(a: App, b: App) -> bool {
    if a.toast.esc_armed_ticks > 0 {
        &&& b.outbox@ == a.outbox@.push(Effect::Send(AgentRequest::Interrupt))
        &&& b == (App {
            outbox: b.outbox,
            toast: Toast { esc_armed_ticks: 0, ..a.toast },
            ..a
        })
    } else {
        b == (App { toast: Toast { esc_armed_ticks: ARMED_TICKS, ..a.toast }, ..a })
    }
}

/// Handles `Esc` while a turn runs.
pub fn handle_interrupt(app: &mut App)
    ensures
        interrupt_pressed(*old(app), *final(app)),
{
    if app.toast.esc_armed_ticks > 0 {
        app.toast.esc_armed_ticks = 0;
        send(app, AgentRequest::Interrupt);
    } else {
        app.toast.esc_armed_ticks = ARMED_TICKS;
    }
}

/// A selection of the input box that covers nothing is not copied.
pub proof fn law_collapsed_selection_copies_nothing(
    sel: SelectionState,
    transcript: Option<Seq<char>>,
    input: Seq<char>,
)
    requires
        is_on_input(sel),
        !sel.covers_something(),
    ensures
        selected_text(sel, transcript, input) is None,
{
}

/// Control+C never sends an interrupt: it sends at most one request, and that
/// one leaves the side conversation.
pub proof fn law_ctrl_c_never_interrupts(a: App, transcript_text: Option<String>, now: u64, b: App)
    requires
        ctrl_c_pressed(a, transcript_text, now, b),
    ensures
        b.outbox@.len() <= a.outbox@.len() + 1,
        b.outbox@.len() > a.outbox@.len() ==> b.outbox@.last() is Copy || b.outbox@.last()
            == Effect::Send(AgentRequest::ExitSideView),
        forall|i: int| 0 <= i < a.outbox@.len() ==> b.outbox@[i] == a.outbox@[i],
{
    assert forall|i: int| 0 <= i < a.outbox@.len() implies b.outbox@[i] == a.outbox@[i] by {
        if b.outbox@.len() > a.outbox@.len() && b.outbox@.last() is Copy {
            assert(b.outbox@.drop_last()[i] == a.outbox@[i]);
        }
    }
}

/// From an unselected, overlay-free composer, two presses of Control+C leave,
/// whatever is typed.
pub proof fn law_two_presses_leave(
    a: App,
    first: Option<String>,
    b: App,
    second: Option<String>,
    c: App,
    now: u64,
    later_on: u64,
)
    requires
        a.overlay.active_modal == Modal::Closed,
        !a.view.in_side_view,
        selected_in(a, first) is None,
        selected_in(b, second) is None,
        ctrl_c_pressed(a, first, now, b),
        ctrl_c_pressed(b, second, later_on, c),
    ensures
        b.should_quit || c.should_quit,
{
}

/// One press of `Esc` interrupts nothing; a second one does.
pub proof fn law_interrupt_takes_two_presses(a: App, b: App, c: App)
    requires
        a.toast.esc_armed_ticks == 0,
        interrupt_pressed(a, b),
        interrupt_pressed(b, c),
    ensures
        b.outbox@ == a.outbox@,
        c.outbox@ == a.outbox@.push(Effect::Send(AgentRequest::Interrupt)),
{
}

proof fn lemma_joined_split(clusters: Seq<(usize, Seq<char>)>, from: int, to: int)
    requires
        0 <= from <= to <= clusters.len(),
    ensures
        joined(clusters, to) == joined(clusters, from) + joined(
            clusters.subrange(from, to),
            to - from,
        ),
    decreases to - from,
{
    if from < to {
        lemma_joined_split(clusters, from, to - 1);
        let (few, all) = (clusters.subrange(from, to - 1), clusters.subrange(from, to));
        lemma_joined_prefix(few, all, to - 1 - from);
        assert(all[to - 1 - from] == clusters[to - 1]);
        assert(joined(clusters, to) =~= joined(clusters, from) + joined(all, to - from));
    } else {
        assert(joined(clusters, to) =~= joined(clusters, from) + Seq::<char>::empty());
    }
}

proof fn lemma_joined_prefix(x: Seq<(usize, Seq<char>)>, y: Seq<(usize, Seq<char>)>, n: int)
    requires
        0 <= n <= x.len(),
        n <= y.len(),
        forall|i: int| 0 <= i < n ==> x[i] == y[i],
    ensures
        joined(x, n) == joined(y, n),
    decreases n,
{
    if n > 0 {
        lemma_joined_prefix(x, y, n - 1);
    }
}

proof fn lemma_cluster_at(clusters: Seq<(usize, Seq<char>)>, at: usize)
    ensures
        cluster_at(clusters, at) <= clusters.len(),
        cluster_at(clusters, at) > 0 ==> ({
            let last = clusters[cluster_at(clusters, at) - 1];
            last.0 + byte_len(last.1) <= at
        }),
        cluster_at(clusters, at) < clusters.len() ==> ({
            let here = clusters[cluster_at(clusters, at) as int];
            at < here.0 + byte_len(here.1)
        }),
    decreases clusters.len(),
{
    if clusters.len() > 0 && at >= clusters[0].0 + byte_len(clusters[0].1) {
        let rest = clusters.drop_first();
        lemma_cluster_at(rest, at);
        let n = cluster_at(rest, at);
        if n > 0 {
            assert(rest[n - 1] == clusters[n as int]);
        }
        if n < rest.len() {
            assert(rest[n as int] == clusters[n as int + 1]);
        }
    }
}

/// What is copied of the input box is one piece of its text, which begins at or
/// before the first selected byte and reaches behind the last one, or to the end
/// of the text.
pub proof fn law_copied_input_is_a_piece(
    anchor: SemanticCursor,
    head: SemanticCursor,
    transcript: Option<Seq<char>>,
    input: Seq<char>,
)
    requires
        anchor.message_idx == INPUT_MSG_IDX,
        head.message_idx == INPUT_MSG_IDX,
        anchor.block_idx == head.block_idx,
        anchor.byte_offset < head.byte_offset,
        tiles(input, grapheme_clusters(input)),
    ensures
        selected_text(SelectionState::Range { anchor, head }, transcript, input) matches Some(text)
            ==> exists|from: int, to: int|
            {
                &&& 0 <= from <= to <= input.len()
                &&& text == #[trigger] input.subrange(from, to)
                &&& byte_len(input.take(from)) <= anchor.byte_offset
                &&& to == input.len() || head.byte_offset < byte_len(input.take(to))
            },
        selected_text(SelectionState::Range { anchor, head }, transcript, input) is None
            ==> byte_len(input) <= anchor.byte_offset,
{
    let clusters = grapheme_clusters(input);
    let from = cluster_at(clusters, anchor.byte_offset) as int;
    let last = cluster_at(clusters, head.byte_offset) as int;
    let to = if last < clusters.len() {
        last + 1
    } else {
        last
    };
    lemma_cluster_at(clusters, anchor.byte_offset);
    lemma_cluster_at(clusters, head.byte_offset);
    let n = clusters.len() as int;
    assert forall|k: int| 0 < k <= n implies byte_len(#[trigger] joined(clusters, k))
        == clusters[k - 1].0 + byte_len(clusters[k - 1].1) by {
        lemma_byte_len_concat(joined(clusters, k - 1), clusters[k - 1].1);
    }
    if from < to {
        lemma_joined_split(clusters, from, to);
        lemma_joined_split(clusters, to, n);
        let text = joined(clusters.subrange(from, to), to - from);
        let (i, j) = (joined(clusters, from).len() as int, joined(clusters, to).len() as int);
        assert(clusters.subrange(from, to).len() == to - from);
        assert(input.take(i) =~= joined(clusters, from));
        assert(input.take(j) =~= joined(clusters, to));
        assert(input.subrange(i, j) =~= text);
        if from == 0 {
            assert(joined(clusters, 0).len() == 0);
            assert(byte_len(joined(clusters, 0)) == 0);
        }
    } else {
        lemma_cluster_at_monotone(clusters, anchor.byte_offset, head.byte_offset);
        assert(from == n);
        if n == 0 {
            assert(byte_len(input) == 0);
        }
    }
}

proof fn lemma_cluster_at_monotone(clusters: Seq<(usize, Seq<char>)>, x: usize, y: usize)
    requires
        x <= y,
    ensures
        cluster_at(clusters, x) <= cluster_at(clusters, y),
    decreases clusters.len(),
{
    if clusters.len() > 0 && x >= clusters[0].0 + byte_len(clusters[0].1) {
        lemma_cluster_at_monotone(clusters.drop_first(), x, y);
    }
}

/// A selection outside the input box copies what is selected of the transcript,
/// and a whole input box is copied whole.
pub proof fn law_copied_text(sel: SelectionState, transcript: Option<Seq<char>>, input: Seq<char>)
    ensures
        sel == SelectionState::Empty ==> selected_text(sel, transcript, input) == transcript,
        (sel matches SelectionState::Range { anchor, head } && (anchor.message_idx != INPUT_MSG_IDX
            || head.message_idx != INPUT_MSG_IDX)) ==> selected_text(sel, transcript, input)
            == transcript,
        (sel matches SelectionState::Block { message_idx, .. } && message_idx == INPUT_MSG_IDX)
            ==> selected_text(sel, transcript, input) == Some(input),
{
}

} // verus!
