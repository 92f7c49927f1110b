//! What the text helpers do to texts that are put together from known parts.
use crate::text::begins_with;
use crate::text::char_bytes;
use crate::text::clipped;
use crate::text::contains_text;
use crate::text::decimal;
use crate::text::first_line;
use crate::text::is_blank;
use crate::text::is_digit;
use crate::text::lemma_decimal_digits;
use crate::text::lemma_end_of_text_unique;
use crate::text::lemma_first_newline_unique;
use crate::text::lemma_leading_blanks_unique;
use crate::text::occurs_at;
use crate::text::parsed_number;
use crate::text::second_word_of;
use crate::text::trimmed;
use crate::text::trimmed_end;
use crate::text::trimmed_start;
use crate::text::without_plus;
use crate::text::word_len;
use vstd::prelude::*;

verus! {

/// Whether every character is whitespace.
pub open spec fn all_blank(s: Seq<char>) -> bool {
    forall|i: int| 0 <= i < s.len() ==> is_blank(#[trigger] s[i])
}

/// Whether the text is one word: not empty, and without whitespace.
pub open spec fn is_word(s: Seq<char>) -> bool {
    s.len() > 0 && forall|i: int| 0 <= i < s.len() ==> !is_blank(#[trigger] s[i])
}

/// Spaces, tabs and line breaks are whitespace; no other ASCII character that is
/// shown is.
pub proof fn law_blanks(c: char)
    ensures
        c == ' ' || c == '\t' || c == '\n' || c == '\r' ==> is_blank(c),
        '!' <= c <= '~' ==> !is_blank(c),
{
}

/// Trimming gives back what stands between the blanks around it.
pub proof fn law_trim_removes_outer_blanks(before: Seq<char>, text: Seq<char>, after: Seq<char>)
    requires
        all_blank(before),
        all_blank(after),
        text.len() > 0,
        !is_blank(text[0]),
        !is_blank(text.last()),
    ensures
        trimmed(before + text + after) == text,
        trimmed_start(before + text + after) == text + after,
        trimmed_end(before + text + after) == before + text,
{
    let s = before + text + after;
    lemma_leading_blanks_unique(s, before.len() as int);
    assert(trimmed_start(s) =~= text + after);
    lemma_end_of_text_unique(text + after, text.len() as int);
    assert(trimmed(s) =~= text);
    lemma_end_of_text_unique(s, (before.len() + text.len()) as int);
    assert(trimmed_end(s) =~= before + text);
}

/// Nothing is left of a text of blanks.
pub proof fn law_trim_of_blanks_is_empty(s: Seq<char>)
    requires
        all_blank(s),
    ensures
        trimmed(s).len() == 0,
        trimmed_start(s).len() == 0,
{
    lemma_leading_blanks_unique(s, s.len() as int);
}

/// The first line ends before the first line break, or with the text.
pub proof fn law_first_line(line: Seq<char>, rest: Seq<char>)
    requires
        forall|i: int| 0 <= i < line.len() ==> #[trigger] line[i] != '\n',
    ensures
        first_line(line) == line,
        first_line(line + seq!['\n'] + rest) == line,
{
    lemma_first_newline_unique(line, line.len() as int);
    assert(line.take(line.len() as int) =~= line);
    let s = line + seq!['\n'] + rest;
    lemma_first_newline_unique(s, line.len() as int);
    assert(first_line(s) =~= line);
}

/// A text within the limit stays; of a longer one the beginning stays, marked as
/// cut.
pub proof fn law_clip_keeps_beginning(kept: Seq<char>, rest: Seq<char>)
    ensures
        clipped(kept, kept.len()) == kept,
        rest.len() > 0 ==> clipped(kept + rest, kept.len()) == kept + "..."@,
{
    if rest.len() > 0 {
        assert((kept + rest).take(kept.len() as int) =~= kept);
    }
}

/// A text holds each of its pieces, and what it holds is a piece of it.
pub proof fn law_contains_pieces(before: Seq<char>, piece: Seq<char>, after: Seq<char>, s: Seq<char>)
    ensures
        contains_text(before + piece + after, piece),
        contains_text(s, piece) ==> exists|x: Seq<char>, y: Seq<char>|
            s == #[trigger] ((x + piece) + y),
        begins_with(piece + after, piece),
        begins_with(s, piece) ==> exists|y: Seq<char>| s == #[trigger] (piece + y),
{
    let whole = before + piece + after;
    assert(whole.subrange(before.len() as int, (before.len() + piece.len()) as int) =~= piece);
    assert(occurs_at(whole, piece, before.len() as int));
    if contains_text(s, piece) {
        let at = choose|at: int| occurs_at(s, piece, at);
        let (x, y) = (s.take(at), s.skip((at + piece.len()) as int));
        assert(s =~= (x + piece) + y) by {
            assert forall|i: int| 0 <= i < s.len() implies s[i] == ((x + piece) + y)[i] by {
                if at <= i < at + piece.len() {
                    assert(s.subrange(at, (at + piece.len()) as int)[i - at] == s[i]);
                }
            }
        }
    }
    assert((piece + after).subrange(0, piece.len() as int) =~= piece);
    if begins_with(s, piece) {
        let y = s.skip(piece.len() as int);
        assert(s =~= piece + y) by {
            assert forall|i: int| 0 <= i < s.len() implies s[i] == (piece + y)[i] by {
                if i < piece.len() {
                    assert(s.subrange(0, piece.len() as int)[i] == s[i]);
                }
            }
        }
    }
}

proof fn lemma_word_len(word: Seq<char>, rest: Seq<char>)
    requires
        forall|i: int| 0 <= i < word.len() ==> !is_blank(#[trigger] word[i]),
        rest.len() == 0 || is_blank(rest[0]),
    ensures
        word_len(word + rest) == word.len(),
    decreases word.len(),
{
    if word.len() > 0 {
        let tail = word.drop_first();
        assert((word + rest)[0] == word[0]);
        assert((word + rest).drop_first() =~= tail + rest);
        assert forall|i: int| 0 <= i < tail.len() implies !is_blank(#[trigger] tail[i]) by {
            assert(tail[i] == word[i + 1]);
        }
        lemma_word_len(tail, rest);
    } else {
        assert(word + rest =~= rest);
    }
}

/// The second word is found behind the first one, whatever blanks stand around
/// the two; a single word has no second.
pub proof fn law_second_word(
    lead: Seq<char>,
    first: Seq<char>,
    gap: Seq<char>,
    second: Seq<char>,
    rest: Seq<char>,
)
    requires
        all_blank(lead),
        all_blank(gap),
        gap.len() > 0,
        is_word(first),
        is_word(second),
        rest.len() == 0 || is_blank(rest[0]),
    ensures
        second_word_of(lead + first + gap + second + rest) == Some(second),
        second_word_of(lead + first + gap) is None,
{
    let whole = lead + first + gap + second + rest;
    lemma_leading_blanks_unique(whole, lead.len() as int);
    let from_first = first + (gap + second + rest);
    assert(trimmed_start(whole) =~= from_first);
    lemma_word_len(first, gap + second + rest);
    let behind = gap + second + rest;
    assert(from_first.skip(first.len() as int) =~= behind);
    lemma_leading_blanks_unique(behind, gap.len() as int);
    assert(trimmed_start(behind) =~= second + rest);
    lemma_word_len(second, rest);
    assert((second + rest).take(second.len() as int) =~= second);

    let short = lead + first + gap;
    lemma_leading_blanks_unique(short, lead.len() as int);
    assert(trimmed_start(short) =~= first + gap);
    lemma_word_len(first, gap);
    assert((first + gap).skip(first.len() as int) =~= gap);
    law_trim_of_blanks_is_empty(gap);
}

/// A number is read with or without a leading `+`; what is no number, or more
/// than the limit, is not read.
pub proof fn law_number_is_read(n: nat, max: nat, s: Seq<char>, i: int)
    ensures
        n <= max ==> parsed_number(decimal(n), max) == Some(n) && parsed_number(
            seq!['+'] + decimal(n),
            max,
        ) == Some(n),
        n > max ==> parsed_number(decimal(n), max) is None,
        s.len() == 0 ==> parsed_number(s, max) is None,
        0 < i < s.len() && !('0' <= s[i] <= '9') ==> parsed_number(s, max) is None,
        s.len() > 0 && s[0] != '+' && !('0' <= s[0] <= '9') ==> parsed_number(s, max) is None,
{
    lemma_decimal_digits(n);
    assert(is_digit(decimal(n)[0]));
    assert((seq!['+'] + decimal(n)).drop_first() =~= decimal(n));
    if 0 < i < s.len() && !('0' <= s[i] <= '9') {
        let digits = without_plus(s);
        if s[0] == '+' {
            assert(!is_digit(digits[i - 1]));
        } else {
            assert(!is_digit(digits[i]));
        }
    }
    if s.len() > 0 && s[0] != '+' && !('0' <= s[0] <= '9') {
        assert(!is_digit(without_plus(s)[0]));
    }
}

/// A further digit behind a number counts ten times the number and the digit.
pub proof fn law_numbers_are_decimal(n: nat, d: nat)
    requires
        n > 0,
        d < 10,
    ensures
        decimal(10 * n + d) == decimal(n).push((('0' as u8) + d) as u8 as char),
        decimal(d) == seq![(('0' as u8) + d) as u8 as char],
{
    assert((10 * n + d) / 10 == n && (10 * n + d) % 10 == d);
}

/// A character takes one byte while it is ASCII, and at most four, by the planes
/// of UTF-8.
pub proof fn law_char_sizes(c: char)
    ensures
        c <= '~' ==> char_bytes(c) == 1,
        '\u{80}' <= c <= '\u{7ff}' ==> char_bytes(c) == 2,
        '\u{800}' <= c <= '\u{ffff}' ==> char_bytes(c) == 3,
        '\u{10000}' <= c ==> char_bytes(c) == 4,
        1 <= char_bytes(c) <= 4,
{
}

} // verus!
