//! Staged attachments: which of them the composer's text still mentions, and
//! what their chips stand for.
use crate::attachments::chip_label;
use crate::attachments::chip_number;
use crate::attachments::chip_of;
use crate::attachments::image_chip;
use crate::attachments::law_chip_of_label;
use crate::attachments::lemma_label_layout;
use crate::attachments::parse_chip;
use crate::attachments::paste_chip;
use crate::attachments::Chip;
use crate::attachments::ImagePart;
use crate::text::to_chars;
use vstd::prelude::*;

verus! {

/// Position of the first `]` at or behind `i`, or the length of `s`.
pub open spec fn close_after(s: Seq<char>, i: int) -> int
    decreases s.len() - i,
{
    if i >= s.len() {
        s.len() as int
    } else if s[i] == ']' {
        i
    } else {
        close_after(s, i + 1)
    }
}

/// The chip whose label begins at `i`, with the position behind the label.
pub open spec fn chip_at(s: Seq<char>, i: int) -> Option<(Chip, int)> {
    let close = close_after(s, i);
    if 0 <= i && i <= close && close < s.len() && s[i] == '[' {
        match chip_of(s.subrange(i, close + 1)) {
            Some(chip) => Some((chip, close + 1)),
            None => None,
        }
    } else {
        None
    }
}

/// The chips of `s` from position `i` on, from left to right.
pub open spec fn chips_from(s: Seq<char>, i: int) -> Seq<Chip>
    decreases s.len() - i,
{
    if i >= s.len() {
        Seq::empty()
    } else {
        match chip_at(s, i) {
            Some((chip, end)) => seq![chip] + chips_from(s, end),
            None => chips_from(s, i + 1),
        }
    }
}

/// Whether one of `chips` refers to the `n`-th image.
pub open spec fn mentions_image(chips: Seq<Chip>, n: int) -> bool {
    exists|i: int| 0 <= i < chips.len() && (#[trigger] chips[i] matches Chip::Image { n: m } && m == n)
}

/// Whether one of `chips` refers to the `n`-th text.
pub open spec fn mentions_paste(chips: Seq<Chip>, n: int) -> bool {
    exists|i: int|
        0 <= i < chips.len() && (#[trigger] chips[i] matches Chip::Paste { n: m, .. } && m == n)
}

/// For each of `count` images, whether `s` mentions it.
pub open spec fn image_flags(s: Seq<char>, count: nat) -> Seq<bool> {
    Seq::new(count, |k: int| mentions_image(chips_from(s, 0), k + 1))
}

/// For each of `count` texts, whether `s` mentions it.
pub open spec fn paste_flags(s: Seq<char>, count: nat) -> Seq<bool> {
    Seq::new(count, |k: int| mentions_paste(chips_from(s, 0), k + 1))
}

/// How many of the first `n` flags are set.
pub open spec fn rank(flags: Seq<bool>, n: int) -> nat
    decreases n,
{
    if n <= 0 || n > flags.len() {
        0
    } else if flags[n - 1] {
        rank(flags, n - 1) + 1
    } else {
        rank(flags, n - 1)
    }
}

/// The items whose flag is set, in order.
pub open spec fn kept<T>(items: Seq<T>, flags: Seq<bool>) -> Seq<T>
    decreases items.len(),
{
    if items.len() == 0 {
        items
    } else if flags[items.len() - 1] {
        kept(items.drop_last(), flags).push(items.last())
    } else {
        kept(items.drop_last(), flags)
    }
}

/// The chip under its new number; a number that refers to nothing stays.
pub open spec fn relabeled(chip: Chip, images: Seq<bool>, pastes: Seq<bool>) -> Chip {
    match chip {
        Chip::Image { n } => if n <= images.len() {
            Chip::Image { n: rank(images, n as int) as usize }
        } else {
            chip
        },
        Chip::Paste { n, lines } => if n <= pastes.len() {
            Chip::Paste { n: rank(pastes, n as int) as usize, lines }
        } else {
            chip
        },
    }
}

/// `s` from position `i` on, its chips under their new numbers.
pub open spec fn renumbered(s: Seq<char>, i: int, images: Seq<bool>, pastes: Seq<bool>) -> Seq<char>
    decreases s.len() - i,
{
    if i >= s.len() {
        Seq::empty()
    } else {
        match chip_at(s, i) {
            Some((chip, end)) => chip_label(relabeled(chip, images, pastes)) + renumbered(
                s,
                end,
                images,
                pastes,
            ),
            None => seq![s[i]] + renumbered(s, i + 1, images, pastes),
        }
    }
}

/// `s` from position `i` on, each chip of a staged text replaced by the text.
pub open spec fn expanded(s: Seq<char>, i: int, pastes: Seq<String>) -> Seq<char>
    decreases s.len() - i,
{
    if i >= s.len() {
        Seq::empty()
    } else {
        match chip_at(s, i) {
            Some((chip, end)) => (match chip {
                Chip::Paste { n, .. } => if n <= pastes.len() {
                    pastes[n - 1]@
                } else {
                    s.subrange(i, end)
                },
                Chip::Image { .. } => s.subrange(i, end),
            }) + expanded(s, end, pastes),
            None => seq![s[i]] + expanded(s, i + 1, pastes),
        }
    }
}

/// Finds the chip whose label begins at `i`.
fn find_chip(input: &str, chars: &Vec<char>, i: usize) -> (found: Option<(Chip, usize)>)
    requires
        chars@ == input@,
        i < chars@.len(),
    ensures
        match found {
            Some((chip, end)) => chip_at(input@, i as int) == Some((chip, end as int)) && i < end
                <= chars@.len() && chip_number(chip) >= 1,
            None => chip_at(input@, i as int) is None,
        },
{
    if chars[i] != '[' {
        return None;
    }
    let count: usize = chars.len();
    let mut k: usize = i;
    while k < count && chars[k] != ']'
        invariant
            i <= k <= count,
            count == chars@.len(),
            close_after(chars@, i as int) == close_after(chars@, k as int),
        decreases count - k,
    {
        k += 1;
    }
    if k == count {
        return None;
    }
    match parse_chip(input.substring_char(i, k + 1)) {
        Some(chip) => Some((chip, k + 1)),
        None => None,
    }
}

fn no_flags(count: usize) -> (flags: Vec<bool>)
    ensures
        flags@ == Seq::new(count as nat, |k: int| false),
{
    let mut flags: Vec<bool> = Vec::new();
    let mut i: usize = 0;
    while i < count
        invariant
            i <= count,
            flags@ == Seq::new(i as nat, |k: int| false),
        decreases count - i,
    {
        flags.push(false);
        i += 1;
        proof {
            assert(flags@ =~= Seq::new(i as nat, |k: int| false));
        }
    }
    flags
}

/// Finds which of the staged images and texts `input` mentions.
fn mentioned(input: &str, images: usize, pastes: usize) -> (flags: (Vec<bool>, Vec<bool>))
    ensures
        flags.0@ == image_flags(input@, images as nat),
        flags.1@ == paste_flags(input@, pastes as nat),
{
    let chars: Vec<char> = to_chars(input);
    let count: usize = chars.len();
    let mut image_set: Vec<bool> = no_flags(images);
    let mut paste_set: Vec<bool> = no_flags(pastes);
    let ghost mut seen: Seq<Chip> = Seq::empty();
    let ghost all = chips_from(input@, 0);
    let mut i: usize = 0;
    while i < count
        invariant
            i <= count,
            count == chars@.len(),
            chars@ == input@,
            image_set@.len() == images,
            paste_set@.len() == pastes,
            all == seen + chips_from(input@, i as int),
            forall|k: int|
                0 <= k < images ==> (#[trigger] image_set@[k] <==> mentions_image(seen, k + 1)),
            forall|k: int|
                0 <= k < pastes ==> (#[trigger] paste_set@[k] <==> mentions_paste(seen, k + 1)),
        decreases count - i,
    {
        match find_chip(input, &chars, i) {
            Some((chip, end)) => {
                let ghost before = seen;
                proof {
                    seen = seen.push(chip);
                    assert(all =~= seen + chips_from(input@, end as int));
                    assert forall|n: int|
                        mentions_image(seen, n) <==> (mentions_image(before, n) || (chip matches Chip::Image {
                            n: m,
                        } && m == n)) by {
                        lemma_mentions_push(before, chip, n);
                    }
                    assert forall|n: int|
                        mentions_paste(seen, n) <==> (mentions_paste(before, n) || (chip matches Chip::Paste {
                            n: m,
                            ..
                        } && m == n)) by {
                        lemma_mentions_push(before, chip, n);
                    }
                }
                match chip {
                    Chip::Image { n } => {
                        if n <= images {
                            image_set.set(n - 1, true);
                        }
                    },
                    Chip::Paste { n, .. } => {
                        if n <= pastes {
                            paste_set.set(n - 1, true);
                        }
                    },
                }
                i = end;
            },
            None => {
                i += 1;
            },
        }
    }
    proof {
        assert(all =~= seen);
        assert(image_set@ =~= image_flags(input@, images as nat));
        assert(paste_set@ =~= paste_flags(input@, pastes as nat));
    }
    (image_set, paste_set)
}

proof fn lemma_mentions_push(chips: Seq<Chip>, chip: Chip, n: int)
    ensures
        mentions_image(chips.push(chip), n) <==> (mentions_image(chips, n) || (chip matches Chip::Image {
            n: m,
        } && m == n)),
        mentions_paste(chips.push(chip), n) <==> (mentions_paste(chips, n) || (chip matches Chip::Paste {
            n: m,
            ..
        } && m == n)),
{
    let more = chips.push(chip);
    assert(more[chips.len() as int] == chip);
    if mentions_image(chips, n) {
        let i = choose|i: int|
            0 <= i < chips.len() && (#[trigger] chips[i] matches Chip::Image { n: m } && m == n);
        assert(more[i] == chips[i]);
    }
    if mentions_image(more, n) {
        let i = choose|i: int|
            0 <= i < more.len() && (#[trigger] more[i] matches Chip::Image { n: m } && m == n);
        if i < chips.len() {
            assert(more[i] == chips[i]);
        }
    }
    if mentions_paste(chips, n) {
        let i = choose|i: int|
            0 <= i < chips.len() && (#[trigger] chips[i] matches Chip::Paste { n: m, .. } && m == n);
        assert(more[i] == chips[i]);
    }
    if mentions_paste(more, n) {
        let i = choose|i: int|
            0 <= i < more.len() && (#[trigger] more[i] matches Chip::Paste { n: m, .. } && m == n);
        if i < chips.len() {
            assert(more[i] == chips[i]);
        }
    }
}

fn count_set(flags: &Vec<bool>, n: usize) -> (count: usize)
    requires
        n <= flags@.len(),
    ensures
        count == rank(flags@, n as int),
{
    let mut count: usize = 0;
    let mut i: usize = 0;
    while i < n
        invariant
            i <= n <= flags@.len(),
            count == rank(flags@, i as int),
            count <= i,
        decreases n - i,
    {
        if flags[i] {
            count += 1;
        }
        i += 1;
    }
    count
}

/// Puts the chips of `input` under their new numbers.
fn renumber(input: &str, images: &Vec<bool>, pastes: &Vec<bool>) -> (out: String)
    ensures
        out@ == renumbered(input@, 0, images@, pastes@),
{
    let chars: Vec<char> = to_chars(input);
    let count: usize = chars.len();
    let mut out: String = String::new();
    let ghost whole = renumbered(input@, 0, images@, pastes@);
    let mut i: usize = 0;
    proof {
        assert(Seq::<char>::empty() + whole =~= whole);
    }
    while i < count
        invariant
            i <= count,
            count == chars@.len(),
            chars@ == input@,
            whole == out@ + renumbered(input@, i as int, images@, pastes@),
        decreases count - i,
    {
        let ghost done = out@;
        match find_chip(input, &chars, i) {
            Some((chip, end)) => {
                let label: String = match chip {
                    Chip::Image { n } => image_chip(
                        if n <= images.len() {
                            count_set(images, n)
                        } else {
                            n
                        },
                    ),
                    Chip::Paste { n, lines } => paste_chip(
                        if n <= pastes.len() {
                            count_set(pastes, n)
                        } else {
                            n
                        },
                        lines,
                    ),
                };
                proof {
                    assert(label@ == chip_label(relabeled(chip, images@, pastes@)));
                }
                out.append(label.as_str());
                proof {
                    assert(whole =~= out@ + renumbered(input@, end as int, images@, pastes@));
                }
                i = end;
            },
            None => {
                out.push(chars[i]);
                proof {
                    assert(whole =~= out@ + renumbered(input@, i + 1, images@, pastes@));
                }
                i += 1;
            },
        }
    }
    proof {
        assert(whole =~= out@);
    }
    out
}

fn keep_images(items: &mut Vec<ImagePart>, flags: &Vec<bool>)
    requires
        flags@.len() == old(items)@.len(),
    ensures
        final(items)@ == kept(old(items)@, flags@),
{
    let mut left: Vec<ImagePart> = Vec::new();
    let count: usize = items.len();
    let mut i: usize = 0;
    while i < count
        invariant
            i <= count,
            count == items@.len(),
            count == flags@.len(),
            left@ == kept(items@.take(i as int), flags@),
        decreases count - i,
    {
        if flags[i] {
            left.push(items[i].clone());
        }
        i += 1;
        proof {
            assert(items@.take(i as int).drop_last() =~= items@.take(i - 1));
        }
    }
    proof {
        assert(items@.take(count as int) =~= items@);
    }
    *items = left;
}

fn keep_texts(items: &mut Vec<String>, flags: &Vec<bool>)
    requires
        flags@.len() == old(items)@.len(),
    ensures
        final(items)@ == kept(old(items)@, flags@),
{
    let mut left: Vec<String> = Vec::new();
    let count: usize = items.len();
    let mut i: usize = 0;
    while i < count
        invariant
            i <= count,
            count == items@.len(),
            count == flags@.len(),
            left@ == kept(items@.take(i as int), flags@),
        decreases count - i,
    {
        if flags[i] {
            left.push(items[i].clone());
        }
        i += 1;
        proof {
            assert(items@.take(i as int).drop_last() =~= items@.take(i - 1));
        }
    }
    proof {
        assert(items@.take(count as int) =~= items@);
    }
    *items = left;
}

/// Drops the staged images and texts that `input` no longer mentions and
/// returns `input` with the remaining chips numbered from one again.
pub fn reconcile(
    input: &str,
    images: &mut Vec<ImagePart>,
    pastes: &mut Vec<String>,
) -> (out: String)
    ensures
        ({
            let image_set = image_flags(input@, old(images)@.len());
            let paste_set = paste_flags(input@, old(pastes)@.len());
            &&& out@ == renumbered(input@, 0, image_set, paste_set)
            &&& final(images)@ == kept(old(images)@, image_set)
            &&& final(pastes)@ == kept(old(pastes)@, paste_set)
        }),
{
    let (image_set, paste_set): (Vec<bool>, Vec<bool>) = mentioned(
        input,
        images.len(),
        pastes.len(),
    );
    let out: String = renumber(input, &image_set, &paste_set);
    keep_images(images, &image_set);
    keep_texts(pastes, &paste_set);
    out
}

/// Replaces each chip of a staged text by the text. Image chips stay.
pub fn expand_paste_chips(input: &str, pastes: &Vec<String>) -> (out: String)
    ensures
        out@ == expanded(input@, 0, pastes@),
{
    let chars: Vec<char> = to_chars(input);
    let count: usize = chars.len();
    let mut out: String = String::new();
    let ghost whole = expanded(input@, 0, pastes@);
    let mut i: usize = 0;
    proof {
        assert(Seq::<char>::empty() + whole =~= whole);
    }
    while i < count
        invariant
            i <= count,
            count == chars@.len(),
            chars@ == input@,
            whole == out@ + expanded(input@, i as int, pastes@),
        decreases count - i,
    {
        match find_chip(input, &chars, i) {
            Some((chip, end)) => {
                let mut staged: Option<usize> = None;
                if let Chip::Paste { n, .. } = chip {
                    if n <= pastes.len() {
                        staged = Some(n - 1);
                    }
                }
                match staged {
                    Some(k) => out.append(pastes[k].as_str()),
                    None => out.append(input.substring_char(i, end)),
                }
                proof {
                    assert(whole =~= out@ + expanded(input@, end as int, pastes@));
                }
                i = end;
            },
            None => {
                out.push(chars[i]);
                proof {
                    assert(whole =~= out@ + expanded(input@, i + 1, pastes@));
                }
                i += 1;
            },
        }
    }
    proof {
        assert(whole =~= out@);
    }
    out
}

proof fn lemma_kept_len<T>(items: Seq<T>, flags: Seq<bool>)
    requires
        items.len() <= flags.len(),
    ensures
        kept(items, flags).len() == rank(flags, items.len() as int),
    decreases items.len(),
{
    if items.len() > 0 {
        lemma_kept_len(items.drop_last(), flags);
    }
}

/// A kept item is found under its new number.
pub proof fn law_kept_item_has_new_number<T>(items: Seq<T>, flags: Seq<bool>, n: int)
    requires
        1 <= n <= items.len(),
        items.len() <= flags.len(),
        flags[n - 1],
    ensures
        1 <= rank(flags, n) <= kept(items, flags).len(),
        kept(items, flags)[rank(flags, n) - 1] == items[n - 1],
    decreases items.len(),
{
    let rest = items.drop_last();
    lemma_kept_len(rest, flags);
    lemma_kept_len(items, flags);
    if n == items.len() {
    } else {
        law_kept_item_has_new_number(rest, flags, n);
        lemma_rank_monotone(flags, n, items.len() as int);
    }
}

proof fn lemma_rank_monotone(flags: Seq<bool>, m: int, n: int)
    requires
        0 <= m <= n <= flags.len(),
    ensures
        rank(flags, m) <= rank(flags, n),
    decreases n - m,
{
    if m < n {
        lemma_rank_monotone(flags, m, n - 1);
    }
}

/// Reconciling keeps what chips refer to: an image chip in the text, under
/// its new number, refers to the image it referred to before.
pub proof fn law_reconcile_keeps_images(text: Seq<char>, images: Seq<ImagePart>, n: usize)
    requires
        1 <= n <= images.len(),
        chips_from(text, 0).contains(Chip::Image { n }),
    ensures
        ({
            let flags = image_flags(text, images.len());
            let left = kept(images, flags);
            let now = rank(flags, n as int);
            1 <= now <= left.len() && left[now - 1] == images[n - 1]
        }),
{
    let chips = chips_from(text, 0);
    let flags = image_flags(text, images.len());
    let i = choose|i: int| 0 <= i < chips.len() && chips[i] == (Chip::Image { n });
    assert(chips[i] matches Chip::Image { n: m } && m == n);
    assert(flags[n - 1]);
    law_kept_item_has_new_number(images, flags, n as int);
}

/// Reconciling keeps what chips refer to: a text chip, under its new number,
/// refers to the staged text it referred to before.
pub proof fn law_reconcile_keeps_pastes(
    text: Seq<char>,
    pastes: Seq<String>,
    n: usize,
    lines: usize,
)
    requires
        1 <= n <= pastes.len(),
        chips_from(text, 0).contains(Chip::Paste { n, lines }),
    ensures
        ({
            let flags = paste_flags(text, pastes.len());
            let left = kept(pastes, flags);
            let now = rank(flags, n as int);
            1 <= now <= left.len() && left[now - 1] == pastes[n - 1]
        }),
{
    let chips = chips_from(text, 0);
    let flags = paste_flags(text, pastes.len());
    let i = choose|i: int| 0 <= i < chips.len() && chips[i] == (Chip::Paste { n, lines });
    assert(chips[i] matches Chip::Paste { n: m, .. } && m == n);
    assert(flags[n - 1]);
    law_kept_item_has_new_number(pastes, flags, n as int);
}

/// Reconciling with a text that mentions no image leaves none staged.
pub proof fn law_reconcile_drops_unmentioned(text: Seq<char>, images: Seq<ImagePart>)
    requires
        forall|n: int| !mentions_image(chips_from(text, 0), n),
    ensures
        kept(images, image_flags(text, images.len())).len() == 0,
{
    let flags = image_flags(text, images.len());
    lemma_kept_len(images, flags);
    lemma_rank_none(flags, images.len() as int);
}

proof fn lemma_rank_none(flags: Seq<bool>, n: int)
    requires
        0 <= n <= flags.len(),
        forall|k: int| 0 <= k < flags.len() ==> !flags[k],
    ensures
        rank(flags, n) == 0,
    decreases n,
{
    if n > 0 {
        lemma_rank_none(flags, n - 1);
    }
}

/// A text without `[` has no chips: it is neither renumbered nor expanded.
pub proof fn law_plain_text_unchanged(
    text: Seq<char>,
    i: int,
    images: Seq<bool>,
    pastes: Seq<bool>,
    staged: Seq<String>,
)
    requires
        0 <= i <= text.len(),
        forall|k: int| 0 <= k < text.len() ==> text[k] != '[',
    ensures
        renumbered(text, i, images, pastes) == text.skip(i),
        expanded(text, i, staged) == text.skip(i),
    decreases text.len() - i,
{
    if i < text.len() {
        law_plain_text_unchanged(text, i + 1, images, pastes, staged);
        assert(seq![text[i]] + text.skip(i + 1) =~= text.skip(i));
    } else {
        assert(text.skip(i) =~= Seq::empty());
    }
}

proof fn lemma_close_after(s: Seq<char>, i: int, k: int)
    requires
        0 <= i <= k < s.len(),
        s[k] == ']',
        forall|j: int| i <= j < k ==> s[j] != ']',
    ensures
        close_after(s, i) == k,
    decreases k - i,
{
    if i < k {
        lemma_close_after(s, i + 1, k);
    }
}

/// A label is found wherever it stands.
proof fn lemma_chip_at_label(before: Seq<char>, chip: Chip, rest: Seq<char>)
    requires
        chip_number(chip) >= 1,
    ensures
        chip_at(before + chip_label(chip) + rest, before.len() as int) == Some(
            (chip, (before + chip_label(chip)).len() as int),
        ),
{
    let label = chip_label(chip);
    let s = before + label + rest;
    let n = before.len() as int;
    lemma_label_layout(chip);
    law_chip_of_label(chip);
    let k = n + label.len() - 1;
    assert forall|j: int| n <= j < k implies s[j] != ']' by {
        assert(s[j] == label[j - n]);
    }
    assert(s[k] == label[label.len() - 1]);
    assert(s[n] == label[0]);
    lemma_close_after(s, n, k);
    assert(s.subrange(n, k + 1) =~= label);
}

/// What stands behind a position decides what the text there expands to.
proof fn lemma_expanded_suffix(s: Seq<char>, t: Seq<char>, i: int, j: int, pastes: Seq<String>)
    requires
        0 <= i <= s.len(),
        0 <= j <= t.len(),
        s.skip(i) == t.skip(j),
    ensures
        expanded(s, i, pastes) == expanded(t, j, pastes),
    decreases s.len() - i,
{
    assert(s.len() - i == s.skip(i).len());
    assert(t.len() - j == t.skip(j).len());
    if i < s.len() {
        assert(s[i] == s.skip(i)[0]);
        assert(t[j] == t.skip(j)[0]);
        lemma_close_suffix(s, t, i, j);
        let (c, d) = (close_after(s, i), close_after(t, j));
        if c < s.len() {
            assert(s.subrange(i, c + 1) =~= s.skip(i).take(c + 1 - i));
            assert(t.subrange(j, d + 1) =~= t.skip(j).take(d + 1 - j));
            assert(s.skip(c + 1) =~= s.skip(i).skip(c + 1 - i));
            assert(t.skip(d + 1) =~= t.skip(j).skip(d + 1 - j));
            lemma_expanded_suffix(s, t, c + 1, d + 1, pastes);
        }
        assert(s.skip(i + 1) =~= s.skip(i).skip(1));
        assert(t.skip(j + 1) =~= t.skip(j).skip(1));
        lemma_expanded_suffix(s, t, i + 1, j + 1, pastes);
    }
}

proof fn lemma_close_suffix(s: Seq<char>, t: Seq<char>, i: int, j: int)
    requires
        0 <= i <= s.len(),
        0 <= j <= t.len(),
        s.skip(i) == t.skip(j),
    ensures
        close_after(s, i) - i == close_after(t, j) - j,
        i <= close_after(s, i) <= s.len(),
    decreases s.len() - i,
{
    assert(s.len() - i == s.skip(i).len());
    assert(t.len() - j == t.skip(j).len());
    if i < s.len() {
        assert(s[i] == s.skip(i)[0]);
        assert(t[j] == t.skip(j)[0]);
        if s[i] != ']' {
            assert(s.skip(i + 1) =~= s.skip(i).skip(1));
            assert(t.skip(j + 1) =~= t.skip(j).skip(1));
            lemma_close_suffix(s, t, i + 1, j + 1);
        }
    }
}

/// What stands behind a position decides how the chips there are renumbered.
proof fn lemma_renumbered_suffix(
    s: Seq<char>,
    t: Seq<char>,
    i: int,
    j: int,
    images: Seq<bool>,
    pastes: Seq<bool>,
)
    requires
        0 <= i <= s.len(),
        0 <= j <= t.len(),
        s.skip(i) == t.skip(j),
    ensures
        renumbered(s, i, images, pastes) == renumbered(t, j, images, pastes),
    decreases s.len() - i,
{
    assert(s.len() - i == s.skip(i).len());
    assert(t.len() - j == t.skip(j).len());
    if i < s.len() {
        assert(s[i] == s.skip(i)[0]);
        assert(t[j] == t.skip(j)[0]);
        lemma_close_suffix(s, t, i, j);
        let (c, d) = (close_after(s, i), close_after(t, j));
        if c < s.len() {
            assert(s.subrange(i, c + 1) =~= s.skip(i).take(c + 1 - i));
            assert(t.subrange(j, d + 1) =~= t.skip(j).take(d + 1 - j));
            assert(s.skip(c + 1) =~= s.skip(i).skip(c + 1 - i));
            assert(t.skip(d + 1) =~= t.skip(j).skip(d + 1 - j));
            lemma_renumbered_suffix(s, t, c + 1, d + 1, images, pastes);
        }
        assert(s.skip(i + 1) =~= s.skip(i).skip(1));
        assert(t.skip(j + 1) =~= t.skip(j).skip(1));
        lemma_renumbered_suffix(s, t, i + 1, j + 1, images, pastes);
    }
}

/// Text without `[` in front of the rest stays as it is.
proof fn lemma_plain_front(before: Seq<char>, rest: Seq<char>, i: int, pastes: Seq<String>)
    requires
        0 <= i <= before.len(),
        forall|k: int| 0 <= k < before.len() ==> before[k] != '[',
    ensures
        expanded(before + rest, i, pastes) == before.skip(i) + expanded(
            before + rest,
            before.len() as int,
            pastes,
        ),
    decreases before.len() - i,
{
    let s = before + rest;
    if i < before.len() {
        lemma_plain_front(before, rest, i + 1, pastes);
        assert(s[i] == before[i]);
        assert(seq![s[i]] + (before.skip(i + 1) + expanded(s, before.len() as int, pastes))
            =~= before.skip(i) + expanded(s, before.len() as int, pastes));
    } else {
        assert(before.skip(i) + expanded(s, i, pastes) =~= expanded(s, i, pastes));
    }
}

/// Sending puts a staged text in the place of its chip, word for word, whatever
/// stands around it; a chip of an image, or one that no staged text belongs to,
/// stays in the text.
pub proof fn law_chip_expands_to_its_text(
    before: Seq<char>,
    chip: Chip,
    rest: Seq<char>,
    pastes: Seq<String>,
)
    requires
        chip_number(chip) >= 1,
        forall|k: int| 0 <= k < before.len() ==> before[k] != '[',
    ensures
        ({
            let sent = expanded(before + chip_label(chip) + rest, 0, pastes);
            let tail = expanded(rest, 0, pastes);
            match chip {
                Chip::Paste { n, .. } => if n <= pastes.len() {
                    sent == before + pastes[n - 1]@ + tail
                } else {
                    sent == before + chip_label(chip) + tail
                },
                Chip::Image { .. } => sent == before + chip_label(chip) + tail,
            }
        }),
{
    let label = chip_label(chip);
    let s = before + label + rest;
    let n = before.len() as int;
    let e = (before + label).len() as int;
    lemma_chip_at_label(before, chip, rest);
    lemma_label_layout(chip);
    assert(s =~= before + (label + rest));
    lemma_plain_front(before, label + rest, 0, pastes);
    assert(before.skip(0) =~= before);
    assert(s.skip(e) =~= rest);
    assert(rest.skip(0) =~= rest);
    lemma_expanded_suffix(s, rest, e, 0, pastes);
    assert(s.subrange(n, e) =~= label);
    let tail = expanded(rest, 0, pastes);
    match chip {
        Chip::Paste { n: m, .. } => if m <= pastes.len() {
            assert(before + (pastes[m - 1]@ + tail) =~= before + pastes[m - 1]@ + tail);
        } else {
            assert(before + (label + tail) =~= before + label + tail);
        },
        Chip::Image { .. } => {
            assert(before + (label + tail) =~= before + label + tail);
        },
    }
}

proof fn lemma_plain_front_renumbered(
    before: Seq<char>,
    rest: Seq<char>,
    i: int,
    images: Seq<bool>,
    pastes: Seq<bool>,
)
    requires
        0 <= i <= before.len(),
        forall|k: int| 0 <= k < before.len() ==> before[k] != '[',
    ensures
        renumbered(before + rest, i, images, pastes) == before.skip(i) + renumbered(
            before + rest,
            before.len() as int,
            images,
            pastes,
        ),
    decreases before.len() - i,
{
    let s = before + rest;
    if i < before.len() {
        lemma_plain_front_renumbered(before, rest, i + 1, images, pastes);
        assert(s[i] == before[i]);
        assert(seq![s[i]] + (before.skip(i + 1) + renumbered(
            s,
            before.len() as int,
            images,
            pastes,
        )) =~= before.skip(i) + renumbered(s, before.len() as int, images, pastes));
    } else {
        assert(before.skip(i) + renumbered(s, i, images, pastes) =~= renumbered(
            s,
            i,
            images,
            pastes,
        ));
    }
}

/// How many of the first `n` items are still mentioned.
pub open spec fn survivors(flags: Seq<bool>, n: int) -> nat
    decreases n,
{
    if n <= 0 {
        0
    } else {
        survivors(flags, n - 1) + (if flags[n - 1] {
            1nat
        } else {
            0nat
        })
    }
}

proof fn lemma_rank_counts(flags: Seq<bool>, n: int)
    requires
        0 <= n <= flags.len(),
    ensures
        rank(flags, n) == survivors(flags, n),
    decreases n,
{
    if n > 0 {
        lemma_rank_counts(flags, n - 1);
    }
}

/// Reconciling gives a chip the number of its item among those that are still
/// mentioned, changes nothing else of it, and leaves the text around it alone.
pub proof fn law_chip_gets_new_number(
    before: Seq<char>,
    chip: Chip,
    rest: Seq<char>,
    images: Seq<bool>,
    pastes: Seq<bool>,
)
    requires
        chip_number(chip) >= 1,
        forall|k: int| 0 <= k < before.len() ==> before[k] != '[',
    ensures
        ({
            let text = renumbered(before + chip_label(chip) + rest, 0, images, pastes);
            let tail = renumbered(rest, 0, images, pastes);
            match chip {
                Chip::Image { n } => text == before + chip_label(
                    Chip::Image {
                        n: if n <= images.len() {
                            survivors(images, n as int) as usize
                        } else {
                            n
                        },
                    },
                ) + tail,
                Chip::Paste { n, lines } => text == before + chip_label(
                    Chip::Paste {
                        n: if n <= pastes.len() {
                            survivors(pastes, n as int) as usize
                        } else {
                            n
                        },
                        lines,
                    },
                ) + tail,
            }
        }),
{
    let label = chip_label(chip);
    let s = before + label + rest;
    let e = (before + label).len() as int;
    lemma_chip_at_label(before, chip, rest);
    lemma_label_layout(chip);
    assert(s =~= before + (label + rest));
    lemma_plain_front_renumbered(before, label + rest, 0, images, pastes);
    assert(before.skip(0) =~= before);
    assert(s.skip(e) =~= rest);
    assert(rest.skip(0) =~= rest);
    lemma_renumbered_suffix(s, rest, e, 0, images, pastes);
    let tail = renumbered(rest, 0, images, pastes);
    match chip {
        Chip::Image { n } => if n <= images.len() {
            lemma_rank_counts(images, n as int);
        },
        Chip::Paste { n, .. } => if n <= pastes.len() {
            lemma_rank_counts(pastes, n as int);
        },
    }
    let new = chip_label(relabeled(chip, images, pastes));
    assert(before + (new + tail) =~= before + new + tail);
}

/// What stays staged is exactly what the line still mentions, in the order in
/// which it was staged.
pub proof fn law_kept_in_order<T>(items: Seq<T>, flags: Seq<bool>)
    requires
        items.len() <= flags.len(),
    ensures
        kept(items, flags).len() == survivors(flags, items.len() as int),
        forall|n: int|
            1 <= n <= items.len() && flags[n - 1] ==> kept(items, flags)[#[trigger] survivors(
                flags,
                n,
            ) - 1] == items[n - 1],
{
    lemma_kept_len(items, flags);
    lemma_rank_counts(flags, items.len() as int);
    assert forall|n: int| 1 <= n <= items.len() && flags[n - 1] implies kept(
        items,
        flags,
    )[#[trigger] survivors(flags, n) - 1] == items[n - 1] by {
        law_kept_item_has_new_number(items, flags, n);
        lemma_rank_counts(flags, n);
    }
}

/// The item whose chip stands in the line is mentioned.
pub proof fn law_chip_mentions_item(before: Seq<char>, chip: Chip, rest: Seq<char>)
    requires
        chip_number(chip) >= 1,
        forall|k: int| 0 <= k < before.len() ==> before[k] != '[',
    ensures
        chips_from(before + chip_label(chip) + rest, 0).len() > 0,
        chips_from(before + chip_label(chip) + rest, 0)[0] == chip,
{
    let label = chip_label(chip);
    let s = before + label + rest;
    lemma_chip_at_label(before, chip, rest);
    lemma_label_layout(chip);
    assert(s =~= before + (label + rest));
    lemma_no_chips_front(before, label + rest, 0);
}

proof fn lemma_no_chips_front(before: Seq<char>, rest: Seq<char>, i: int)
    requires
        0 <= i <= before.len(),
        forall|k: int| 0 <= k < before.len() ==> before[k] != '[',
    ensures
        chips_from(before + rest, i) == chips_from(before + rest, before.len() as int),
    decreases before.len() - i,
{
    let s = before + rest;
    if i < before.len() {
        assert(s[i] == before[i]);
        lemma_no_chips_front(before, rest, i + 1);
    }
}

} // verus!
