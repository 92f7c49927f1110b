//! The composer: attachments, completion, history and parked drafts.
use crate::app::App;
use crate::app::Picker;
use crate::app::Overlay;
use crate::app::Composer;
use crate::app::Effect;
use crate::app::QueuedDispatch;
use crate::document::DeliveryStatus;
use crate::document::Role;
use crate::document::TranscriptMessage;
use crate::order::sort_by_key;
use crate::order::stable_order;
use crate::providers::FuzzyMatch;
use crate::staging::image_flags;
use crate::staging::kept;
use crate::staging::paste_flags;
use crate::staging::reconcile;
use crate::staging::renumbered;
use crate::text::char_count;
use crate::text::char_index;
use crate::text::char_index_at;
use crate::text::ends_with_char;
use crate::text::is_blank;
use crate::text::is_boundary;
use crate::text::is_whitespace;
use crate::text::same_text;
use crate::text::starts_with_char;
use crate::text::take_string;
use vstd::prelude::*;

verus! {

/// A completion: its label replaces a byte range of the line.
#[derive(Debug, PartialEq, Eq)]
pub struct Completion {
    pub label: String,
    pub replace_start: usize,
    pub replace_end: usize,
}

/// Whether a message is a user message that waits in the queue.
pub open spec fn is_queued_marker(message: TranscriptMessage) -> bool {
    message.role == Role::User && message.delivery == DeliveryStatus::Queued
}

/// The transcript without the last of its queued markers.
pub open spec fn without_last_marker(messages: Seq<TranscriptMessage>) -> Seq<TranscriptMessage>
    decreases messages.len(),
{
    if messages.len() == 0 {
        messages
    } else if is_queued_marker(messages.last()) {
        messages.drop_last()
    } else {
        without_last_marker(messages.drop_last()).push(messages.last())
    }
}

/// The text that accepting `label` puts in: a file gets a space behind it
/// unless one follows, a command or a directory does not.
pub open spec fn accepted_label(label: Seq<char>, rest: Seq<char>) -> Seq<char> {
    let slash = label.len() > 0 && label[0] == '/';
    let dir = label.len() > 0 && label.last() == '/';
    if !slash && !dir && !(rest.len() > 0 && is_blank(rest[0])) {
        label.push(' ')
    } else {
        label
    }
}

/// The rows of the history overlay, as positions in the history: newest first,
/// or while searching the matching ones, best match first.
pub open spec fn history_order(
    count: int,
    searching: bool,
    matches: Seq<Option<FuzzyMatch>>,
) -> Seq<int> {
    if !searching {
        Seq::new(count as nat, |i: int| count - 1 - i)
    } else {
        let found = matching(matches, count);
        let keys = found.map_values(|i: int| worst_first(matches[i]));
        stable_order(keys, keys.len() as int).map_values(|k: int| found[k])
    }
}

/// The positions among the first `n` that have a match.
pub open spec fn matching(matches: Seq<Option<FuzzyMatch>>, n: int) -> Seq<int>
    decreases n,
{
    if n <= 0 {
        Seq::empty()
    } else if matches[n - 1] is Some {
        matching(matches, n - 1).push(n - 1)
    } else {
        matching(matches, n - 1)
    }
}

/// A key that is smaller for better matches.
pub open spec fn worst_first(m: Option<FuzzyMatch>) -> i64 {
    match m {
        Some(found) => (-1 - found.score) as i64,
        None => 0,
    }
}

/// Whether a history entry is worth keeping: not empty, and not the newest
/// one again.
pub open spec fn is_new_entry(history: Seq<String>, entry: Seq<char>) -> bool {
    entry.len() > 0 && !(history.len() > 0 && history.last()@ == entry)
}

/// Whether `b` is `a` with its attachments reconciled with the line.
pub open spec fn reconciled(a: App, b: App) -> bool {
    &&& ({
        let images = image_flags(a.composer.input@, a.composer.pending_images@.len());
        let pastes = paste_flags(a.composer.input@, a.composer.pending_text_pastes@.len());
        &&& b.composer.input@ == renumbered(a.composer.input@, 0, images, pastes)
        &&& b.composer.pending_images@ == kept(a.composer.pending_images@, images)
        &&& b.composer.pending_text_pastes@ == kept(
            a.composer.pending_text_pastes@,
            pastes,
        )
        &&& b == (App {
            composer: Composer {
                input: b.composer.input,
                pending_images: b.composer.pending_images,
                pending_text_pastes: b.composer.pending_text_pastes,
                ..a.composer
            },
            ..a
        })
    })
}

/// Whether `b` is `a` after accepting completion `idx`.
pub open spec fn accepted_completion(a: App, completions: Seq<Completion>, idx: usize, b: App) -> bool {
    &&& idx >= completions.len() ==> b == a
    &&& idx < completions.len() ==> ({
        let completion = completions[idx as int];
        let text = a.composer.input@;
        let start = char_index(text, completion.replace_start as int);
        let rest = text.skip(char_index(text, completion.replace_end as int));
        let label = accepted_label(completion.label@, rest);
        let slash = completion.label@.len() > 0 && completion.label@[0] == '/';
        &&& b.composer.input@ == text.take(start) + label + rest
        &&& b.composer.cursor_position == start + label.len()
        &&& b == (App {
            composer: Composer {
                input: b.composer.input,
                cursor_position: b.composer.cursor_position,
                cursor_sync_pending: true,
                path_scan_cached: false,
                suggestion_index: if slash {
                    None
                } else {
                    a.composer.suggestion_index
                },
                completion_dismissed: slash || a.composer.completion_dismissed,
                ..a.composer
            },
            ..a
        })
    })
}

/// Whether `b` is `a` with `entry` recorded in its history.
pub open spec fn recorded_history(a: App, entry: String, b: App) -> bool {
    &&& ({
        let new = is_new_entry(a.composer.input_history@, entry@);
        &&& b.composer.input_history@ == (if new {
            a.composer.input_history@.push(entry)
        } else {
            a.composer.input_history@
        })
        &&& b.outbox@ == (if new {
            a.outbox@.push(Effect::SaveHistory(entry))
        } else {
            a.outbox@
        })
        &&& b == (App {
            composer: Composer {
                history_index: None,
                input_history: b.composer.input_history,
                ..a.composer
            },
            outbox: b.outbox,
            ..a
        })
    })
}

/// Whether `b` is `a` with the draft back from the history overlay.
pub open spec fn history_draft_restored(a: App, b: App) -> bool {
    &&& b.composer.stashed_input@ == Seq::<char>::empty()
    &&& b == (App {
            composer: Composer {
                input: a.composer.stashed_input,
                stashed_input: b.composer.stashed_input,
                cursor_position: a.composer.stashed_input@.len() as usize,
                cursor_sync_pending: true,
                input_scroll: 0,
                suggestion_index: None,
                ..a.composer
            },
            overlay: Overlay {
                modal_index: 0,
                history_search: false,
                history_preview: false,
                ..a.overlay
            },
            ..a
        })
}

/// Whether `b` is `a` with the draft back from the picker.
pub open spec fn model_draft_restored(a: App, b: App) -> bool {
    &&& b.composer.stashed_input@ == Seq::<char>::empty()
    &&& b == (App {
            composer: Composer {
                input: a.composer.stashed_input,
                stashed_input: b.composer.stashed_input,
                cursor_position: a.composer.stashed_input@.len() as usize,
                cursor_sync_pending: true,
                input_scroll: 0,
                suggestion_index: None,
                ..a.composer
            },
            overlay: Overlay {
                modal_index: 0,
                ..a.overlay
            },
            picker: Picker {
                model_search: false,
                picker_provider: None,
                model_scroll: 0,
                model_modal_follow: true,
                ..a.picker
            },
            ..a
        })
}

/// Whether `b` is `a` with its draft parked.
pub open spec fn draft_parked(a: App, b: App) -> bool {
    &&& b.composer.input@ == Seq::<char>::empty()
    &&& b == (App {
            composer: Composer {
                input: b.composer.input,
                stashed_input: a.composer.input,
                cursor_position: 0,
                cursor_sync_pending: true,
                input_scroll: 0,
                suggestion_index: None,
                ..a.composer
            },
            ..a
        })
}

/// Whether `b` is `a` with its parked draft back.
pub open spec fn draft_restored(a: App, b: App) -> bool {
    &&& b.composer.stashed_input@ == Seq::<char>::empty()
    &&& b == (App {
            composer: Composer {
                input: a.composer.stashed_input,
                stashed_input: b.composer.stashed_input,
                cursor_position: a.composer.stashed_input@.len() as usize,
                cursor_sync_pending: true,
                input_scroll: 0,
                suggestion_index: None,
                ..a.composer
            },
            overlay: Overlay {
                modal_index: 0,
                ..a.overlay
            },
            ..a
        })
}

/// Whether the latest queued message was taken back: `a` and `before` became
/// `b` and `after`.
pub open spec fn recalled_queued(
    a: App,
    before: Seq<TranscriptMessage>,
    b: App,
    after: Seq<TranscriptMessage>,
) -> bool {
    let last = a.composer.pending_dispatch@.last();
    if a.composer.pending_dispatch@.len() == 0 {
        b == a && after == before
    } else {
        &&& after == without_last_marker(before)
        &&& b.composer.pending_dispatch@ == a.composer.pending_dispatch@.drop_last()
        &&& b == (App {
            composer: Composer {
                pending_dispatch: b.composer.pending_dispatch,
                input: last.text,
                cursor_position: last.text@.len() as usize,
                cursor_sync_pending: true,
                pending_images: if last.images@.len() > 0 {
                    last.images
                } else {
                    a.composer.pending_images
                },
                pending_text_pastes: if last.text_pastes@.len() > 0 {
                    last.text_pastes
                } else {
                    a.composer.pending_text_pastes
                },
                history_index: None,
                suggestion_index: None,
                completion_dismissed: true,
                ..a.composer
            },
            ..a
        })
    }
}

impl App {
    /// Drops the staged attachments that the line no longer mentions and
    /// renumbers the chips of the others.
    pub fn reconcile_attachments(&mut self)
        ensures
            reconciled(*old(self), *final(self)),
    {
        let out: String = reconcile(
            self.composer.input.as_str(),
            &mut self.composer.pending_images,
            &mut self.composer.pending_text_pastes,
        );
        self.composer.input = out;
    }

    /// Takes the latest queued message back into the line, with its
    /// attachments, and its marker out of the transcript. Says whether there
    /// was one.
    pub fn recall_queued(&mut self, messages: &mut Vec<TranscriptMessage>) -> (recalled: bool)
        ensures
            recalled == (old(self).composer.pending_dispatch@.len() > 0),
            recalled_queued(*old(self), old(messages)@, *final(self), final(messages)@),
    {
        if self.composer.pending_dispatch.len() == 0 {
            return false;
        }
        let dispatch: QueuedDispatch = match self.composer.pending_dispatch.pop_back() {
            Some(dispatch) => dispatch,
            None => {
                return false;
            },
        };
        proof {
            assert(self.composer.pending_dispatch@ =~= old(self).composer.pending_dispatch@.drop_last());
        }
        remove_last_marker(messages);
        self.composer.input = dispatch.text;
        self.set_cursor_end();
        if dispatch.images.len() > 0 {
            self.composer.pending_images = dispatch.images;
        }
        if dispatch.text_pastes.len() > 0 {
            self.composer.pending_text_pastes = dispatch.text_pastes;
        }
        self.composer.history_index = None;
        self.composer.suggestion_index = None;
        self.composer.completion_dismissed = true;
        true
    }

    /// Puts the label of completion `idx` into the line and the caret behind
    /// it. A command closes the menu; a path leaves it open.
    pub fn accept_completion(&mut self, completions: &Vec<Completion>, idx: usize)
        requires
            idx < completions@.len() ==> is_boundary(
                old(self).composer.input@,
                completions@[idx as int].replace_start as int,
            ) && is_boundary(old(self).composer.input@, completions@[idx as int].replace_end as int)
                && old(self).composer.input@.len() + completions@[idx as int].label@.len() + 1 <= usize::MAX,
        ensures
            accepted_completion(*old(self), completions@, idx, *final(self)),
    {
        if idx >= completions.len() {
            return ;
        }
        let completion: &Completion = &completions[idx];
        let is_slash: bool = starts_with_char(completion.label.as_str(), '/');
        let is_dir: bool = ends_with_char(completion.label.as_str(), '/');
        let total: usize = char_count(self.composer.input.as_str());
        let (start, end): (usize, usize) = match (
            char_index_at(self.composer.input.as_str(), completion.replace_start),
            char_index_at(self.composer.input.as_str(), completion.replace_end),
        ) {
            (Some(s), Some(e)) => (s, e),
            _ => (0, 0),
        };
        let mut label: String = completion.label.clone();
        if !is_dir && !is_slash {
            let blank_follows: bool = end < total && is_whitespace(
                self.composer.input.as_str().get_char(end),
            );
            if !blank_follows {
                label.push(' ');
            }
        }
        let ghost rest = self.composer.input@.skip(end as int);
        proof {
            if end < total {
                assert(rest[0] == self.composer.input@[end as int]);
            }
            assert(label@ =~= accepted_label(completion.label@, rest));
        }
        let mut out: String = self.composer.input.as_str().substring_char(0, start).to_owned();
        out.append(label.as_str());
        out.append(self.composer.input.as_str().substring_char(end, total));
        proof {
            assert(out@ =~= self.composer.input@.take(start as int) + label@ + rest);
        }
        self.composer.input = out;
        self.set_cursor(start + char_count(label.as_str()));
        self.composer.path_scan_cached = false;
        if is_slash {
            self.composer.suggestion_index = None;
            self.composer.completion_dismissed = true;
        }
    }

    /// The rows of the history overlay with their matches. `matches` says how
    /// each entry matches the line; it is read only while searching.
    pub fn history_rows(&self, matches: &Vec<Option<FuzzyMatch>>) -> (rows: Vec<
        (usize, FuzzyMatch),
    >)
        requires
            self.overlay.history_search && self.composer.input@.len() > 0 ==> matches@.len()
                == self.composer.input_history@.len(),
        ensures
            ({
                let searching = self.overlay.history_search && self.composer.input@.len() > 0;
                let order = history_order(
                    self.composer.input_history@.len() as int,
                    searching,
                    matches@,
                );
                &&& rows@.len() == order.len()
                &&& forall|k: int|
                    0 <= k < rows@.len() ==> {
                        &&& (#[trigger] rows@[k]).0 == order[k]
                        &&& rows@[k].1.score == (if searching {
                            matches@[order[k]]->Some_0.score
                        } else {
                            0
                        })
                        &&& rows@[k].1.positions@ == (if searching {
                            matches@[order[k]]->Some_0.positions@
                        } else {
                            Seq::empty()
                        })
                    }
            }),
            forall|k: int|
                0 <= k < rows@.len() ==> (#[trigger] rows@[k]).0
                    < self.composer.input_history@.len(),
    {
        let count: usize = self.composer.input_history.len();
        let mut rows: Vec<(usize, FuzzyMatch)> = Vec::new();
        if !self.overlay.history_search || char_count(self.composer.input.as_str()) == 0 {
            let mut i: usize = 0;
            while i < count
                invariant
                    i <= count,
                    rows@.len() == i,
                    forall|k: int|
                        0 <= k < i ==> {
                            &&& (#[trigger] rows@[k]).0 == count - 1 - k
                            &&& rows@[k].0 < count
                            &&& rows@[k].1.score == 0
                            &&& rows@[k].1.positions@ == Seq::<usize>::empty()
                        },
                decreases count - i,
            {
                rows.push((count - 1 - i, FuzzyMatch { score: 0, positions: Vec::new() }));
                i += 1;
            }
            return rows;
        }
        let mut found: Vec<usize> = Vec::new();
        let mut keys: Vec<i64> = Vec::new();
        let mut i: usize = 0;
        while i < count
            invariant
                i <= count,
                count == matches@.len(),
                found@.map_values(|k: usize| k as int) == matching(matches@, i as int),
                forall|k: int|
                    0 <= k < found@.len() ==> (#[trigger] found@[k]) < i && matches@[found@[k] as int] is Some,
                keys@ == matching(matches@, i as int).map_values(
                    |k: int| worst_first(matches@[k]),
                ),
            decreases count - i,
        {
            if let Some(m) = &matches[i] {
                found.push(i);
                keys.push(-1 - m.score);
                proof {
                    assert(found@.map_values(|k: usize| k as int) =~= matching(
                        matches@,
                        i + 1,
                    ));
                    assert(keys@ =~= matching(matches@, i + 1).map_values(
                        |k: int| worst_first(matches@[k]),
                    ));
                }
            }
            i += 1;
        }
        let order: Vec<usize> = sort_by_key(&keys);
        let ghost expected = history_order(count as int, true, matches@);
        let total: usize = order.len();
        let mut n: usize = 0;
        while n < total
            invariant
                n <= total,
                total == order@.len(),
                count == matches@.len(),
                order@.len() == keys@.len(),
                keys@.len() == found@.len(),
                order@.map_values(|k: usize| k as int) == stable_order(
                    keys@,
                    keys@.len() as int,
                ),
                forall|k: int| 0 <= k < order@.len() ==> (#[trigger] order@[k]) < keys@.len(),
                found@.map_values(|k: usize| k as int) == matching(matches@, count as int),
                keys@ == matching(matches@, count as int).map_values(
                    |k: int| worst_first(matches@[k]),
                ),
                forall|k: int|
                    0 <= k < found@.len() ==> (#[trigger] found@[k]) < count && matches@[found@[k] as int] is Some,
                expected == history_order(count as int, true, matches@),
                rows@.len() == n,
                forall|k: int|
                    0 <= k < n ==> {
                        &&& (#[trigger] rows@[k]).0 == expected[k]
                        &&& rows@[k].0 < count
                        &&& rows@[k].1.score == matches@[expected[k]]->Some_0.score
                        &&& rows@[k].1.positions@ == matches@[expected[k]]->Some_0.positions@
                    },
            decreases total - n,
        {
            let at: usize = found[order[n]];
            proof {
                let listed = matching(matches@, count as int);
                assert(order@.map_values(|k: usize| k as int)[n as int] == order@[n as int]);
                assert(found@.map_values(|k: usize| k as int)[order@[n as int] as int] == at);
                assert(expected[n as int] == at);
            }
            if let Some(m) = &matches[at] {
                rows.push((at, m.clone()));
            }
            n += 1;
        }
        proof {
            assert(expected.len() == total);
        }
        rows
    }

    /// Records an entry of the input history and has it stored.
    pub fn record_input_history(&mut self, entry: String)
        ensures
            recorded_history(*old(self), entry, *final(self)),
    {
        self.composer.history_index = None;
        let count: usize = self.composer.input_history.len();
        if char_count(entry.as_str()) == 0 || (count > 0 && same_text(
            self.composer.input_history[count - 1].as_str(),
            entry.as_str(),
        )) {
            return ;
        }
        let copy: String = entry.clone();
        self.composer.input_history.push(entry);
        self.outbox.push(Effect::SaveHistory(copy));
    }

    /// Hands the parked draft back when the history overlay goes away.
    pub fn restore_history_draft(&mut self)
        ensures
            history_draft_restored(*old(self), *final(self)),
    {
        self.restore_input_draft();
        self.overlay.history_search = false;
        self.overlay.history_preview = false;
    }

    /// Hands the parked draft back when the picker goes away.
    pub fn restore_model_draft(&mut self)
        ensures
            model_draft_restored(*old(self), *final(self)),
    {
        self.restore_input_draft();
        self.picker.model_search = false;
        self.picker.picker_provider = None;
        self.picker.model_scroll = 0;
        self.picker.model_modal_follow = true;
    }

    /// Parks the draft so that an overlay can borrow the line.
    pub fn park_input_draft(&mut self)
        ensures
            draft_parked(*old(self), *final(self)),
    {
        self.composer.stashed_input = take_string(&mut self.composer.input);
        self.set_cursor(0);
        self.composer.input_scroll = 0;
        self.composer.suggestion_index = None;
    }

    /// Hands the parked draft back.
    pub fn restore_input_draft(&mut self)
        ensures
            draft_restored(*old(self), *final(self)),
    {
        self.composer.input = take_string(&mut self.composer.stashed_input);
        self.set_cursor_end();
        self.composer.input_scroll = 0;
        self.composer.suggestion_index = None;
        self.overlay.modal_index = 0;
    }
}

/// Removes the last queued marker.
pub fn remove_last_marker(messages: &mut Vec<TranscriptMessage>)
    ensures
        final(messages)@ == without_last_marker(old(messages)@),
{
    let mut i: usize = messages.len();
    let ghost all = messages@;
    proof {
        assert(all.take(i as int) =~= all);
        assert(without_last_marker(all.take(i as int)) + all.skip(i as int)
            =~= without_last_marker(all));
    }
    while i > 0
        invariant
            i <= messages@.len(),
            messages@ == all,
            all == old(messages)@,
            without_last_marker(all) == without_last_marker(all.take(i as int)) + all.skip(
                i as int,
            ),
        decreases i,
    {
        i -= 1;
        proof {
            assert(all.take(i + 1).drop_last() =~= all.take(i as int));
            assert(all.take(i + 1).last() == all[i as int]);
        }
        if messages[i].role == Role::User && messages[i].delivery == DeliveryStatus::Queued {
            let _ = messages.remove(i);
            proof {
                assert(is_queued_marker(all.take(i + 1).last()));
                assert(without_last_marker(all.take(i + 1)) == all.take(i as int));
                assert(messages@ =~= all.take(i as int) + all.skip(i + 1));
            }
            return ;
        }
        proof {
            assert(without_last_marker(all.take(i as int)).push(all[i as int]) + all.skip(i + 1)
                =~= without_last_marker(all.take(i as int)) + all.skip(i as int));
        }
    }
    proof {
        assert(all.take(0) =~= Seq::<TranscriptMessage>::empty());
        assert(Seq::<TranscriptMessage>::empty() + all.skip(0) =~= all);
    }
}

/// A parked draft comes back as it was.
pub proof fn law_parked_draft_comes_back(a: App, b: App, c: App)
    requires
        draft_parked(a, b),
        draft_restored(b, c),
    ensures
        c.composer.input == a.composer.input,
        c.composer.cursor_position == a.composer.input@.len() as usize,
{
}

/// Recalling a queued message twice without a new one in between takes the
/// latest two, newest first.
pub proof fn law_recall_is_last_in_first_out(
    a: App,
    x: Seq<TranscriptMessage>,
    b: App,
    y: Seq<TranscriptMessage>,
    c: App,
    z: Seq<TranscriptMessage>,
)
    requires
        a.composer.pending_dispatch@.len() >= 2,
        recalled_queued(a, x, b, y),
        recalled_queued(b, y, c, z),
    ensures
        b.composer.input == a.composer.pending_dispatch@.last().text,
        c.composer.input == a.composer.pending_dispatch@[a.composer.pending_dispatch@.len()
            - 2].text,
{
}

/// An accepted entry is the newest one of the history.
pub proof fn law_recorded_entry_is_newest(a: App, entry: String, b: App)
    requires
        recorded_history(a, entry, b),
        entry@.len() > 0,
    ensures
        b.composer.input_history@.len() > 0,
        b.composer.input_history@.last()@ == entry@,
{
}

/// The history ends in what was sent last; what was sent twice in a row stands in
/// it once, and a new entry is stored.
pub proof fn law_history_records(a: App, entry: String, b: App)
    requires
        recorded_history(a, entry, b),
        entry@.len() > 0,
    ensures
        b.composer.input_history@.len() > 0,
        b.composer.input_history@.last()@ == entry@,
        a.composer.input_history@.len() > 0 && a.composer.input_history@.last()@ == entry@
            ==> b.composer.input_history@ == a.composer.input_history@ && b.outbox@ == a.outbox@,
        !(a.composer.input_history@.len() > 0 && a.composer.input_history@.last()@ == entry@)
            ==> b.composer.input_history@.drop_last() == a.composer.input_history@ && b.outbox@
            == a.outbox@.push(Effect::SaveHistory(entry)),
        b.composer.history_index is None,
{
    if b.composer.input_history@.len() > a.composer.input_history@.len() {
        assert(b.composer.input_history@.drop_last() =~= a.composer.input_history@);
    }
}

/// Recalling removes exactly the last message that waits, and leaves every other
/// message in its place.
pub proof fn law_last_marker_goes(messages: Seq<TranscriptMessage>, i: int)
    requires
        0 <= i < messages.len(),
        messages[i].role == Role::User,
        messages[i].delivery == DeliveryStatus::Queued,
        forall|k: int|
            i < k < messages.len() ==> !((#[trigger] messages[k]).role == Role::User
                && messages[k].delivery == DeliveryStatus::Queued),
    ensures
        without_last_marker(messages) == messages.remove(i),
    decreases messages.len(),
{
    if i < messages.len() - 1 {
        let rest = messages.drop_last();
        assert forall|k: int| i < k < rest.len() implies !((#[trigger] rest[k]).role == Role::User
            && rest[k].delivery == DeliveryStatus::Queued) by {
            assert(rest[k] == messages[k]);
        }
        law_last_marker_goes(rest, i);
        assert(!is_queued_marker(messages[messages.len() - 1]));
        assert(rest.remove(i).push(messages.last()) =~= messages.remove(i));
    } else {
        assert(messages.drop_last() =~= messages.remove(i));
    }
}

} // verus!
