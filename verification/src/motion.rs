//! Caret motion over a multi-line buffer: line ends, word boundaries and the
//! column-preserving step between lines. Positions are character indices.

use crate::text::{is_blank, is_whitespace, to_chars};
use vstd::prelude::*;

verus! {

/// `p` pulled back into the buffer.
pub open spec fn clamp(p: int, len: int) -> int {
    if p < len {
        p
    } else {
        len
    }
}

/// Start of the logical line that holds position `p`.
pub open spec fn line_start(s: Seq<char>, p: int) -> int
    decreases p,
{
    if p <= 0 {
        0
    } else if s[p - 1] == '\n' {
        p
    } else {
        line_start(s, p - 1)
    }
}

/// End of the logical line that holds position `p`: the next newline, or the
/// end of the buffer.
pub open spec fn line_end(s: Seq<char>, p: int) -> int
    decreases s.len() - p,
{
    if p >= s.len() {
        s.len() as int
    } else if s[p] == '\n' {
        p
    } else {
        line_end(s, p + 1)
    }
}

/// Left end of the whitespace run that ends at `p`.
pub open spec fn back_over_blanks(s: Seq<char>, p: int) -> int
    decreases p,
{
    if p > 0 && is_blank(s[p - 1]) {
        back_over_blanks(s, p - 1)
    } else {
        p
    }
}

/// Left end of the non-whitespace run that ends at `p`.
pub open spec fn back_over_word(s: Seq<char>, p: int) -> int
    decreases p,
{
    if p > 0 && !is_blank(s[p - 1]) {
        back_over_word(s, p - 1)
    } else {
        p
    }
}

/// Right end of the whitespace run that begins at `p`.
pub open spec fn over_blanks(s: Seq<char>, p: int) -> int
    decreases s.len() - p,
{
    if p < s.len() && is_blank(s[p]) {
        over_blanks(s, p + 1)
    } else {
        p
    }
}

/// Right end of the non-whitespace run that begins at `p`.
pub open spec fn over_word(s: Seq<char>, p: int) -> int
    decreases s.len() - p,
{
    if p < s.len() && !is_blank(s[p]) {
        over_word(s, p + 1)
    } else {
        p
    }
}

/// Start of the word before `p`: the whitespace before `p` is skipped first,
/// newlines with it.
pub open spec fn word_start(s: Seq<char>, p: int) -> int {
    back_over_word(s, back_over_blanks(s, clamp(p, s.len() as int)))
}

/// End of the word after `p`: the whitespace after `p` is skipped first,
/// newlines with it.
pub open spec fn word_end(s: Seq<char>, p: int) -> int {
    over_word(s, over_blanks(s, clamp(p, s.len() as int)))
}

/// The position on the line above `p` in the same column, or at that line's
/// end when it is shorter. `None` on the first line.
pub open spec fn position_above(s: Seq<char>, p: int) -> Option<int> {
    let pos = clamp(p, s.len() as int);
    let start = line_start(s, pos);
    if start == 0 {
        None
    } else {
        let above = line_start(s, start - 1);
        Some(above + clamp(pos - start, start - 1 - above))
    }
}

/// The position on the line below `p` in the same column, or at that line's
/// end when it is shorter. `None` on the last line.
pub open spec fn position_below(s: Seq<char>, p: int) -> Option<int> {
    let pos = clamp(p, s.len() as int);
    let end = line_end(s, pos);
    if end >= s.len() {
        None
    } else {
        let below = end + 1;
        Some(below + clamp(pos - line_start(s, pos), line_end(s, below) - below))
    }
}

pub proof fn lemma_line_start_bounds(s: Seq<char>, p: int)
    requires
        0 <= p <= s.len(),
    ensures
        0 <= line_start(s, p) <= p,
        line_start(s, p) > 0 ==> s[line_start(s, p) - 1] == '\n',
        forall|i: int| line_start(s, p) <= i < p ==> #[trigger] s[i] != '\n',
    decreases p,
{
    if p > 0 && s[p - 1] != '\n' {
        lemma_line_start_bounds(s, p - 1);
    }
}

pub proof fn lemma_line_end_bounds(s: Seq<char>, p: int)
    requires
        0 <= p <= s.len(),
    ensures
        p <= line_end(s, p) <= s.len(),
        line_end(s, p) < s.len() ==> s[line_end(s, p)] == '\n',
        forall|i: int| p <= i < line_end(s, p) ==> #[trigger] s[i] != '\n',
    decreases s.len() - p,
{
    if p < s.len() && s[p] != '\n' {
        lemma_line_end_bounds(s, p + 1);
    }
}

/// Character index of the start of the line that holds `cursor_position`.
pub fn cursor_line_start_char(chars: &[char], cursor_position: usize) -> (start: usize)
    ensures
        start == line_start(chars@, clamp(cursor_position as int, chars@.len() as int)),
{
    let mut i: usize = if cursor_position < chars.len() {
        cursor_position
    } else {
        chars.len()
    };
    let ghost pos = i as int;
    while i > 0 && chars[i - 1] != '\n'
        invariant
            i <= chars@.len(),
            line_start(chars@, pos) == line_start(chars@, i as int),
        decreases i,
    {
        i -= 1;
    }
    i
}

/// Character index of the end of the line that holds `cursor_position`.
pub fn cursor_line_end_char(chars: &[char], cursor_position: usize) -> (end: usize)
    ensures
        end == line_end(chars@, clamp(cursor_position as int, chars@.len() as int)),
{
    let n: usize = chars.len();
    let mut i: usize = if cursor_position < n {
        cursor_position
    } else {
        n
    };
    let ghost pos = i as int;
    while i < n && chars[i] != '\n'
        invariant
            n == chars@.len(),
            i <= n,
            line_end(chars@, pos) == line_end(chars@, i as int),
        decreases n - i,
    {
        i += 1;
    }
    i
}

/// Moves the caret to the start of its line (`Home`, `Ctrl+A`).
pub fn cursor_line_start(input: &str, cursor_position: &mut usize)
    ensures
        *final(cursor_position) == line_start(
            input@,
            clamp(*old(cursor_position) as int, input@.len() as int),
        ),
{
    let chars: Vec<char> = to_chars(input);
    *cursor_position = cursor_line_start_char(chars.as_slice(), *cursor_position);
}

/// Moves the caret to the end of its line (`End`, `Ctrl+E`).
pub fn cursor_line_end(input: &str, cursor_position: &mut usize)
    ensures
        *final(cursor_position) == line_end(
            input@,
            clamp(*old(cursor_position) as int, input@.len() as int),
        ),
{
    let chars: Vec<char> = to_chars(input);
    *cursor_position = cursor_line_end_char(chars.as_slice(), *cursor_position);
}

/// Start of the whitespace-delimited word before the caret.
pub fn prev_word_start(input: &str, cursor_position: usize) -> (start: usize)
    ensures
        start == word_start(input@, cursor_position as int),
{
    let chars: Vec<char> = to_chars(input);
    let mut i: usize = if cursor_position < chars.len() {
        cursor_position
    } else {
        chars.len()
    };
    let ghost pos = i as int;
    while i > 0 && is_whitespace(chars[i - 1])
        invariant
            i <= chars@.len(),
            back_over_blanks(chars@, pos) == back_over_blanks(chars@, i as int),
        decreases i,
    {
        i -= 1;
    }
    let ghost edge = i as int;
    while i > 0 && !is_whitespace(chars[i - 1])
        invariant
            i <= chars@.len(),
            back_over_word(chars@, edge) == back_over_word(chars@, i as int),
        decreases i,
    {
        i -= 1;
    }
    i
}

/// End of the whitespace-delimited word after the caret.
pub fn next_word_end(input: &str, cursor_position: usize) -> (end: usize)
    ensures
        end == word_end(input@, cursor_position as int),
{
    let chars: Vec<char> = to_chars(input);
    let n: usize = chars.len();
    let mut i: usize = if cursor_position < n {
        cursor_position
    } else {
        n
    };
    let ghost pos = i as int;
    while i < n && is_whitespace(chars[i])
        invariant
            n == chars@.len(),
            i <= n,
            over_blanks(chars@, pos) == over_blanks(chars@, i as int),
        decreases n - i,
    {
        i += 1;
    }
    let ghost edge = i as int;
    while i < n && !is_whitespace(chars[i])
        invariant
            n == chars@.len(),
            i <= n,
            over_word(chars@, edge) == over_word(chars@, i as int),
        decreases n - i,
    {
        i += 1;
    }
    i
}

/// Moves the caret one line up, keeping its column. Reports whether there was
/// a line above; the caret stays where it is when there was none.
pub fn cursor_line_up(input: &str, cursor_position: &mut usize) -> (moved: bool)
    ensures
        match position_above(input@, *old(cursor_position) as int) {
            Some(target) => moved && *final(cursor_position) == target,
            None => !moved && *final(cursor_position) == *old(cursor_position),
        },
{
    let chars: Vec<char> = to_chars(input);
    let pos: usize = if *cursor_position < chars.len() {
        *cursor_position
    } else {
        chars.len()
    };
    let start: usize = cursor_line_start_char(chars.as_slice(), pos);
    proof {
        lemma_line_start_bounds(chars@, pos as int);
    }
    if start == 0 {
        return false;
    }
    let col: usize = pos - start;
    let above: usize = cursor_line_start_char(chars.as_slice(), start - 1);
    proof {
        lemma_line_start_bounds(chars@, start - 1);
    }
    let width: usize = start - 1 - above;
    *cursor_position = above + if col < width {
        col
    } else {
        width
    };
    true
}

/// Moves the caret one line down, keeping its column. Reports whether there
/// was a line below; the caret stays where it is when there was none.
pub fn cursor_line_down(input: &str, cursor_position: &mut usize) -> (moved: bool)
    ensures
        match position_below(input@, *old(cursor_position) as int) {
            Some(target) => moved && *final(cursor_position) == target,
            None => !moved && *final(cursor_position) == *old(cursor_position),
        },
{
    let chars: Vec<char> = to_chars(input);
    let pos: usize = if *cursor_position < chars.len() {
        *cursor_position
    } else {
        chars.len()
    };
    let end: usize = cursor_line_end_char(chars.as_slice(), pos);
    proof {
        lemma_line_end_bounds(chars@, pos as int);
        lemma_line_start_bounds(chars@, pos as int);
    }
    if end >= chars.len() {
        return false;
    }
    let col: usize = pos - cursor_line_start_char(chars.as_slice(), pos);
    let below: usize = end + 1;
    proof {
        lemma_line_end_bounds(chars@, below as int);
    }
    let width: usize = cursor_line_end_char(chars.as_slice(), below) - below;
    *cursor_position = below + if col < width {
        col
    } else {
        width
    };
    true
}

/// The step down undoes the step up where the line above is long enough to
/// keep the column.
pub proof fn law_down_undoes_up(s: Seq<char>, p: int)
    requires
        0 <= p <= s.len(),
        position_above(s, p) is Some,
        ({
            let start = line_start(s, p);
            p - start <= start - 1 - line_start(s, start - 1)
        }),
    ensures
        position_below(s, position_above(s, p)->Some_0) == Some(p),
{
    let start = line_start(s, p);
    lemma_line_start_bounds(s, p);
    let above = line_start(s, start - 1);
    lemma_line_start_bounds(s, start - 1);
    let q = above + (p - start);
    assert(position_above(s, p) == Some(q));
    lemma_line_end_is(s, q, start - 1);
    lemma_line_start_is(s, q, above);
    lemma_line_end_bounds(s, start);
    lemma_line_end_reaches(s, start, p);
}

/// The step up undoes the step down where the line below is long enough to keep
/// the column.
pub proof fn law_up_undoes_down(s: Seq<char>, p: int)
    requires
        0 <= p <= s.len(),
        position_below(s, p) is Some,
        p - line_start(s, p) <= line_end(s, line_end(s, p) + 1) - (line_end(s, p) + 1),
    ensures
        position_above(s, position_below(s, p)->Some_0) == Some(p),
{
    let start = line_start(s, p);
    lemma_line_start_bounds(s, p);
    let end = line_end(s, p);
    lemma_line_end_bounds(s, p);
    lemma_line_end_bounds(s, end + 1);
    let q = end + 1 + (p - start);
    assert(position_below(s, p) == Some(q));
    lemma_line_start_is(s, q, end + 1);
    lemma_line_start_is(s, end, start);
}

proof fn lemma_line_end_is(s: Seq<char>, p: int, e: int)
    requires
        0 <= p <= e < s.len(),
        s[e] == '\n',
        forall|i: int| p <= i < e ==> s[i] != '\n',
    ensures
        line_end(s, p) == e,
    decreases e - p,
{
    if p < e {
        lemma_line_end_is(s, p + 1, e);
    }
}

proof fn lemma_line_start_is(s: Seq<char>, p: int, b: int)
    requires
        0 <= b <= p <= s.len(),
        b == 0 || s[b - 1] == '\n',
        forall|i: int| b <= i < p ==> s[i] != '\n',
    ensures
        line_start(s, p) == b,
    decreases p - b,
{
    if b < p {
        lemma_line_start_is(s, p - 1, b);
    }
}

proof fn lemma_line_end_reaches(s: Seq<char>, b: int, p: int)
    requires
        0 <= b <= p <= s.len(),
        forall|i: int| b <= i < p ==> s[i] != '\n',
    ensures
        p <= line_end(s, b),
    decreases p - b,
{
    lemma_line_end_bounds(s, b);
    if b < p {
        lemma_line_end_reaches(s, b + 1, p);
    }
}

/// Whether the text is one line, without a line break.
pub open spec fn is_one_line(s: Seq<char>) -> bool {
    forall|i: int| 0 <= i < s.len() ==> #[trigger] s[i] != '\n'
}

/// Whether a line can begin behind the text: it is empty or ends in a line break.
pub open spec fn ends_a_line(s: Seq<char>) -> bool {
    s.len() == 0 || s.last() == '\n'
}

proof fn lemma_start_of_line(s: Seq<char>, start: int, p: int)
    requires
        0 <= start <= p <= s.len(),
        start > 0 ==> s[start - 1] == '\n',
        forall|i: int| start <= i < p ==> #[trigger] s[i] != '\n',
    ensures
        line_start(s, p) == start,
    decreases p,
{
    if start < p {
        assert(s[p - 1] != '\n');
        lemma_start_of_line(s, start, p - 1);
    }
}

proof fn lemma_end_of_line(s: Seq<char>, p: int, end: int)
    requires
        0 <= p <= end <= s.len(),
        end < s.len() ==> s[end] == '\n',
        forall|i: int| p <= i < end ==> #[trigger] s[i] != '\n',
    ensures
        line_end(s, p) == end,
    decreases end - p,
{
    if p < end {
        assert(s[p] != '\n');
        lemma_end_of_line(s, p + 1, end);
    }
}

/// A step up goes to the line above, to the same column of it, or to its end
/// where it is shorter; on the first line there is no step up.
pub proof fn law_up_keeps_column(
    lines: Seq<char>,
    above: Seq<char>,
    before: Seq<char>,
    after: Seq<char>,
)
    requires
        ends_a_line(lines),
        is_one_line(above),
        is_one_line(before),
    ensures
        ({
            let s = lines + above + seq!['\n'] + before + after;
            let p = lines.len() + above.len() + 1 + before.len();
            position_above(s, p as int) == Some(
                lines.len() + (if before.len() < above.len() {
                    before.len() as int
                } else {
                    above.len() as int
                }),
            )
        }),
        position_above(before + after, before.len() as int) is None,
{
    let s = lines + above + seq!['\n'] + before + after;
    let start = (lines.len() + above.len() + 1) as int;
    let p = start + before.len();
    assert forall|i: int| start <= i < p implies #[trigger] s[i] != '\n' by {
        assert(s[i] == before[i - start]);
    }
    assert(s[start - 1] == '\n');
    lemma_start_of_line(s, start, p);
    assert forall|i: int| lines.len() <= i < start - 1 implies #[trigger] s[i] != '\n' by {
        assert(s[i] == above[i - lines.len()]);
    }
    if lines.len() > 0 {
        assert(s[lines.len() - 1] == lines.last());
    }
    lemma_start_of_line(s, lines.len() as int, start - 1);
    let t = before + after;
    assert forall|i: int| 0 <= i < before.len() implies #[trigger] t[i] != '\n' by {
        assert(t[i] == before[i]);
    }
    lemma_start_of_line(t, 0, before.len() as int);
}

/// A step down goes to the line below, to the same column of it, or to its end
/// where it is shorter; on the last line there is no step down.
pub proof fn law_down_keeps_column(
    lines: Seq<char>,
    before: Seq<char>,
    after: Seq<char>,
    below: Seq<char>,
    rest: Seq<char>,
)
    requires
        ends_a_line(lines),
        is_one_line(before),
        is_one_line(after),
        is_one_line(below),
        rest.len() == 0 || rest[0] == '\n',
    ensures
        ({
            let s = lines + before + after + seq!['\n'] + below + rest;
            let p = lines.len() + before.len();
            position_below(s, p as int) == Some(
                p + after.len() + 1 + (if before.len() < below.len() {
                    before.len() as int
                } else {
                    below.len() as int
                }),
            )
        }),
        position_below(lines + before + after, (lines.len() + before.len()) as int) is None,
{
    let s = lines + before + after + seq!['\n'] + below + rest;
    let p = (lines.len() + before.len()) as int;
    let end = p + after.len();
    assert forall|i: int| lines.len() <= i < p implies #[trigger] s[i] != '\n' by {
        assert(s[i] == before[i - lines.len()]);
    }
    if lines.len() > 0 {
        assert(s[lines.len() - 1] == lines.last());
    }
    lemma_start_of_line(s, lines.len() as int, p);
    assert forall|i: int| p <= i < end implies #[trigger] s[i] != '\n' by {
        assert(s[i] == after[i - p]);
    }
    assert(s[end] == '\n');
    lemma_end_of_line(s, p, end);
    let last = end + 1 + below.len();
    assert forall|i: int| end + 1 <= i < last implies #[trigger] s[i] != '\n' by {
        assert(s[i] == below[i - end - 1]);
    }
    if rest.len() > 0 {
        assert(s[last] == rest[0]);
    }
    lemma_end_of_line(s, end + 1, last);
    let t = lines + before + after;
    assert forall|i: int| p <= i < t.len() implies #[trigger] t[i] != '\n' by {
        assert(t[i] == after[i - p]);
    }
    lemma_end_of_line(t, p, t.len() as int);
}

} // verus!
