//! The chip grammar: staged attachments show up in the composer as short
//! labels, `[Image #N]` for a pasted image and `[Pasted text #N +M lines]` for
//! a long pasted text.

use crate::text::{
    decimal, decimal_string, is_digit, law_decimal_injective, law_parse_undoes_decimal,
    lemma_decimal_digits, parse_number, same_text, starts_with, to_chars,
};
use vstd::prelude::*;

verus! {

/// A staged image, ready to travel with the next message.
#[derive(Debug, PartialEq, Eq)]
pub struct ImagePart {
    /// Media type of the payload.
    pub mime: String,
    /// The encoded payload.
    pub data: String,
}

impl Clone for ImagePart {
    fn clone(&self) -> (copy: Self)
        ensures
            copy == *self,
    {
        ImagePart { mime: self.mime.clone(), data: self.data.clone() }
    }
}

/// The label of the `n`-th staged image.
pub open spec fn image_label(n: nat) -> Seq<char> {
    "[Image #"@ + decimal(n) + "]"@
}

/// The label of the `n`-th staged text of `lines` lines.
pub open spec fn paste_label(n: nat, lines: nat) -> Seq<char> {
    "[Pasted text #"@ + decimal(n) + " +"@ + decimal(lines) + " lines]"@
}

/// The chip for the `n`-th staged image.
pub fn image_chip(n: usize) -> (chip: String)
    ensures
        chip@ == image_label(n as nat),
{
    let mut chip: String = "[Image #".to_owned();
    let number: String = decimal_string(n as u64);
    chip.append(number.as_str());
    chip.append("]");
    chip
}

/// The chip for the `n`-th staged text.
pub fn paste_chip(n: usize, line_count: usize) -> (chip: String)
    ensures
        chip@ == paste_label(n as nat, line_count as nat),
{
    let mut chip: String = "[Pasted text #".to_owned();
    let number: String = decimal_string(n as u64);
    chip.append(number.as_str());
    chip.append(" +");
    let lines: String = decimal_string(line_count as u64);
    chip.append(lines.as_str());
    chip.append(" lines]");
    chip
}

/// What a chip label refers to.
#[derive(Debug, PartialEq, Eq, Clone, Copy)]
pub enum Chip {
    /// The `n`-th staged image.
    Image { n: usize },
    /// The `n`-th staged text, shown as holding `lines` lines.
    Paste { n: usize, lines: usize },
}

/// The label of a chip.
pub open spec fn chip_label(chip: Chip) -> Seq<char> {
    match chip {
        Chip::Image { n } => image_label(n as nat),
        Chip::Paste { n, lines } => paste_label(n as nat, lines as nat),
    }
}

/// Whether `t` is the label of some chip. Chips are numbered from one.
pub open spec fn is_chip_label(t: Seq<char>) -> bool {
    exists|chip: Chip| #[trigger] chip_label(chip) == t && chip_number(chip) >= 1
}

/// The position that a chip refers to, counted from one.
pub open spec fn chip_number(chip: Chip) -> usize {
    match chip {
        Chip::Image { n } => n,
        Chip::Paste { n, .. } => n,
    }
}

/// The chip that the text `t` spells, if it spells one.
pub open spec fn chip_of(t: Seq<char>) -> Option<Chip> {
    if is_chip_label(t) {
        Some(choose|chip: Chip| #[trigger] chip_label(chip) == t && chip_number(chip) >= 1)
    } else {
        None
    }
}

/// Length of the run of digits that begins at `i`.
pub open spec fn digit_run(s: Seq<char>, i: int) -> int
    decreases s.len() - i,
{
    if 0 <= i < s.len() && is_digit(s[i]) {
        1 + digit_run(s, i + 1)
    } else {
        0
    }
}

proof fn lemma_digit_run(s: Seq<char>, i: int, k: int)
    requires
        0 <= i,
        0 <= k,
        i + k <= s.len(),
        forall|j: int| i <= j < i + k ==> is_digit(#[trigger] s[j]),
        i + k < s.len() ==> !is_digit(s[i + k]),
    ensures
        digit_run(s, i) == k,
    decreases k,
{
    if k > 0 {
        assert(is_digit(s[i]));
        lemma_digit_run(s, i + 1, k - 1);
    }
}

/// Where the parts of a label stand.
pub proof fn lemma_label_layout(chip: Chip)
    ensures
        chip matches Chip::Image { n } ==> {
            let t = image_label(n as nat);
            &&& t.len() == 9 + decimal(n as nat).len()
            &&& t.subrange(0, 8) == "[Image #"@
            &&& t.subrange(8, t.len() - 1) == decimal(n as nat)
            &&& t[0] == '['
            &&& t[1] == 'I'
            &&& t.last() == ']'
        },
        chip matches Chip::Paste { n, lines } ==> {
            let t = paste_label(n as nat, lines as nat);
            let d = decimal(n as nat).len();
            &&& t.len() == 23 + d + decimal(lines as nat).len()
            &&& t.subrange(0, 14) == "[Pasted text #"@
            &&& t.subrange(14, 14 + d as int) == decimal(n as nat)
            &&& t.subrange(16 + d as int, t.len() - 7) == decimal(lines as nat)
            &&& digit_run(t, 14) == d
            &&& t[0] == '['
            &&& t[1] == 'P'
            &&& t.last() == ']'
        },
        forall|i: int|
            0 < i < chip_label(chip).len() - 1 ==> #[trigger] chip_label(chip)[i] != '['
                && chip_label(chip)[i] != ']',
{
    reveal_strlit("[Image #");
    reveal_strlit("]");
    reveal_strlit("[Pasted text #");
    reveal_strlit(" +");
    reveal_strlit(" lines]");
    match chip {
        Chip::Image { n } => {
            let t = image_label(n as nat);
            lemma_decimal_digits(n as nat);
            assert(t.subrange(0, 8) =~= "[Image #"@);
            assert(t.subrange(8, t.len() - 1) =~= decimal(n as nat));
            assert forall|i: int| 0 < i < t.len() - 1 implies #[trigger] t[i] != '[' && t[i] != ']' by {
                if i >= 8 {
                    assert(t[i] == decimal(n as nat)[i - 8]);
                }
            }
        },
        Chip::Paste { n, lines } => {
            let t = paste_label(n as nat, lines as nat);
            let d = decimal(n as nat).len();
            lemma_decimal_digits(n as nat);
            lemma_decimal_digits(lines as nat);
            assert(t.subrange(0, 14) =~= "[Pasted text #"@);
            assert(t.subrange(14, 14 + d as int) =~= decimal(n as nat));
            assert(t.subrange(16 + d as int, t.len() - 7) =~= decimal(lines as nat));
            assert forall|j: int| 14 <= j < 14 + d implies is_digit(#[trigger] t[j]) by {
                assert(t[j] == decimal(n as nat)[j - 14]);
            }
            lemma_digit_run(t, 14, d as int);
            assert forall|i: int| 0 < i < t.len() - 1 implies #[trigger] t[i] != '[' && t[i] != ']' by {
                if 14 <= i < 14 + d {
                    assert(t[i] == decimal(n as nat)[i - 14]);
                } else if 16 + d <= i < t.len() - 7 {
                    assert(t[i] == decimal(lines as nat)[i - 16 - d]);
                }
            }
        },
    }
}

/// Different chips have different labels.
pub proof fn law_chip_label_injective(a: Chip, b: Chip)
    requires
        chip_label(a) == chip_label(b),
    ensures
        a == b,
{
    lemma_label_layout(a);
    lemma_label_layout(b);
    match (a, b) {
        (Chip::Image { n: m }, Chip::Image { n }) => {
            law_decimal_injective(m as nat, n as nat);
        },
        (Chip::Paste { n: m, lines: k }, Chip::Paste { n, lines }) => {
            law_decimal_injective(m as nat, n as nat);
            law_decimal_injective(k as nat, lines as nat);
        },
        _ => {},
    }
}

/// A chip is read back from its own label.
pub proof fn law_chip_of_label(chip: Chip)
    requires
        chip_number(chip) >= 1,
    ensures
        chip_of(chip_label(chip)) == Some(chip),
{
    let t = chip_label(chip);
    let found = choose|c: Chip| #[trigger] chip_label(c) == t && chip_number(c) >= 1;
    law_chip_label_injective(found, chip);
}

/// Reads a chip label.
pub fn parse_chip(t: &str) -> (r: Option<Chip>)
    ensures
        r == chip_of(t@),
{
    let len: usize = t.unicode_len();
    proof {
        if is_chip_label(t@) {
            let c = choose|chip: Chip| #[trigger] chip_label(chip) == t@ && chip_number(chip) >= 1;
            lemma_label_layout(c);
            law_parse_undoes_decimal(chip_number(c) as nat, usize::MAX as nat);
            if let Chip::Paste { n, lines } = c {
                law_parse_undoes_decimal(lines as nat, usize::MAX as nat);
            }
        }
        reveal_strlit("[Image #");
        reveal_strlit("[Pasted text #");
    }
    if len >= 9 && starts_with(t, "[Image #") {
        proof {
            assert(t@[1] == t@.subrange(0, 8)[1]);
        }
        if let Some(n) = parse_number(t.substring_char(8, len - 1), usize::MAX) {
            let label: String = image_chip(n);
            if n >= 1 && same_text(label.as_str(), t) {
                proof {
                    law_chip_of_label(Chip::Image { n });
                }
                return Some(Chip::Image { n });
            }
        }
        return None;
    }
    if len >= 23 && starts_with(t, "[Pasted text #") {
        proof {
            assert(t@[1] == t@.subrange(0, 14)[1]);
        }
        let chars: Vec<char> = to_chars(t);
        let mut k: usize = 14;
        while k < len && chars[k] >= '0' && chars[k] <= '9'
            invariant
                len == chars@.len(),
                14 <= k <= len,
                forall|j: int| 14 <= j < k ==> is_digit(#[trigger] chars@[j]),
            decreases len - k,
        {
            k += 1;
        }
        proof {
            lemma_digit_run(chars@, 14, k - 14);
        }
        if len - k >= 9 {
            let number: Option<usize> = parse_number(t.substring_char(14, k), usize::MAX);
            let count: Option<usize> = parse_number(t.substring_char(k + 2, len - 7), usize::MAX);
            if let (Some(n), Some(lines)) = (number, count) {
                let label: String = paste_chip(n, lines);
                if n >= 1 && same_text(label.as_str(), t) {
                    proof {
                        law_chip_of_label(Chip::Paste { n, lines });
                    }
                    return Some(Chip::Paste { n, lines });
                }
            }
        }
        return None;
    }
    None
}

/// Position of the last `[` before `e`, or -1.
pub open spec fn last_open(s: Seq<char>, e: int) -> int
    decreases e,
{
    if e <= 0 {
        -1
    } else if s[e - 1] == '[' {
        e - 1
    } else {
        last_open(s, e - 1)
    }
}

/// Start of the chip whose label ends just before `e`.
pub open spec fn chip_start(s: Seq<char>, e: int) -> Option<int> {
    let k = last_open(s, e);
    if 0 <= k && chip_of(s.subrange(k, e)) is Some {
        Some(k)
    } else {
        None
    }
}

/// The characters that one backspace at `p` removes as a unit: the chip right
/// before `p`, with the single space that may stand between the two.
pub open spec fn chip_before(s: Seq<char>, p: int) -> Option<(int, int)> {
    match chip_start(s, p) {
        Some(k) => Some((k, p)),
        None => if p > 0 && s[p - 1] == ' ' {
            match chip_start(s, p - 1) {
                Some(k) => Some((k, p)),
                None => None,
            }
        } else {
            None
        },
    }
}

pub proof fn lemma_last_open(s: Seq<char>, e: int)
    requires
        0 <= e <= s.len(),
    ensures
        -1 <= last_open(s, e) < e || (e == 0 && last_open(s, e) == -1),
        last_open(s, e) >= 0 ==> s[last_open(s, e)] == '[',
        forall|i: int| last_open(s, e) < i < e ==> #[trigger] s[i] != '[',
    decreases e,
{
    if e > 0 && s[e - 1] != '[' {
        lemma_last_open(s, e - 1);
    }
}

/// The chip right before `p` is found whatever stands in front of it: text
/// that ends with a chip label has that label removed as a unit.
pub proof fn law_chip_before_finds_label(before: Seq<char>, chip: Chip)
    requires
        chip_number(chip) >= 1,
    ensures
        chip_before(before + chip_label(chip), (before + chip_label(chip)).len() as int) == Some(
            (before.len() as int, (before + chip_label(chip)).len() as int),
        ),
        chip_before(
            before + chip_label(chip) + seq![' '],
            (before + chip_label(chip)).len() as int + 1,
        ) == Some((before.len() as int, (before + chip_label(chip)).len() as int + 1)),
{
    let t = chip_label(chip);
    let s = before + t;
    let e = s.len() as int;
    lemma_label_layout(chip);
    assert(s.subrange(before.len() as int, e) =~= t);
    lemma_chip_start_at(s, before.len() as int, e, chip);
    let padded = s + seq![' '];
    assert(padded.subrange(before.len() as int, e) =~= t);
    lemma_chip_start_at(padded, before.len() as int, e, chip);
    lemma_last_open(padded, e + 1);
    assert(chip_start(padded, e + 1) is None) by {
        let k = last_open(padded, e + 1);
        let sub = padded.subrange(k, e + 1);
        if 0 <= k && is_chip_label(sub) {
            let c = choose|c: Chip| #[trigger] chip_label(c) == sub && chip_number(c) >= 1;
            lemma_label_layout(c);
            assert(sub.last() == ' ');
        }
    }
}

proof fn lemma_chip_start_at(s: Seq<char>, k: int, e: int, chip: Chip)
    requires
        0 <= k <= e <= s.len(),
        chip_number(chip) >= 1,
        s.subrange(k, e) == chip_label(chip),
    ensures
        chip_start(s, e) == Some(k),
{
    let t = chip_label(chip);
    lemma_label_layout(chip);
    lemma_last_open(s, e);
    assert(s[k] == t[0]);
    assert forall|i: int| k < i < e implies s[i] != '[' by {
        assert(s[i] == t[i - k]);
    }
    law_chip_of_label(chip);
}

/// The character range that one backspace at `cursor` removes as a unit.
pub fn chip_range_for_backspace(input: &str, cursor: usize) -> (r: Option<(usize, usize)>)
    requires
        cursor <= input@.len(),
    ensures
        match r {
            Some((start, end)) => chip_before(input@, cursor as int) == Some(
                (start as int, end as int),
            ) && start < end == cursor,
            None => chip_before(input@, cursor as int) is None,
        },
{
    if let Some(k) = find_chip_start(input, cursor) {
        return Some((k, cursor));
    }
    if cursor > 0 && input.get_char(cursor - 1) == ' ' {
        if let Some(k) = find_chip_start(input, cursor - 1) {
            return Some((k, cursor));
        }
    }
    None
}

/// Start of the chip that ends just before `e`.
fn find_chip_start(input: &str, e: usize) -> (r: Option<usize>)
    requires
        e <= input@.len(),
    ensures
        match r {
            Some(k) => chip_start(input@, e as int) == Some(k as int) && k < e,
            None => chip_start(input@, e as int) is None,
        },
{
    let chars: Vec<char> = to_chars(input);
    let mut i: usize = e;
    while i > 0 && chars[i - 1] != '['
        invariant
            chars@ == input@,
            i <= e <= chars@.len(),
            last_open(chars@, e as int) == last_open(chars@, i as int),
        decreases i,
    {
        i -= 1;
    }
    if i == 0 {
        return None;
    }
    match parse_chip(input.substring_char(i - 1, e)) {
        Some(_) => Some(i - 1),
        None => None,
    }
}

/// What a backspace removes as a unit is a label of a chip, with at most one
/// space behind it, and ends at the caret.
pub proof fn law_chip_before_is_a_label(s: Seq<char>, p: int)
    requires
        0 <= p <= s.len(),
    ensures
        chip_before(s, p) matches Some((start, end)) ==> {
            &&& 0 <= start < end == p
            &&& (exists|chip: Chip| #[trigger] chip_label(chip) == s.subrange(start, p)) || (s[p - 1]
                == ' ' && exists|chip: Chip| #[trigger] chip_label(chip) == s.subrange(start, p - 1))
        },
{
    lemma_last_open(s, p);
    if p > 0 {
        lemma_last_open(s, p - 1);
    }
}

/// The labels that the user sees.
pub proof fn law_labels(n: usize, lines: usize)
    ensures
        chip_label(Chip::Image { n }) == "[Image #"@ + decimal(n as nat) + "]"@,
        chip_label(Chip::Paste { n, lines }) == "[Pasted text #"@ + decimal(n as nat) + " +"@
            + decimal(lines as nat) + " lines]"@,
{
}

} // verus!
