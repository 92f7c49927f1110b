//! Edits of the input line. The caret is a character index.
use crate::attachments::chip_before;
use crate::attachments::chip_range_for_backspace;
use crate::modal::Modal;
use crate::motion::back_over_blanks;
use crate::motion::back_over_word;
use crate::motion::clamp;
use crate::motion::cursor_line_end;
use crate::motion::cursor_line_start;
use crate::motion::lemma_line_end_bounds;
use crate::motion::lemma_line_start_bounds;
use crate::motion::line_end;
use crate::motion::line_start;
use crate::motion::next_word_end;
use crate::motion::over_blanks;
use crate::motion::over_word;
use crate::motion::prev_word_start;
use crate::motion::word_end;
use crate::motion::word_start;
use crate::text::char_count;
use crate::text::char_string;
use crate::text::is_blank;
use crate::text::splice;
use crate::text::spliced;
use vstd::prelude::*;

verus! {

/// The input line: its text and the caret, which may lie behind the end.
pub ghost struct Line {
    pub text: Seq<char>,
    pub caret: int,
}

impl Line {
    /// The caret pulled back into the text.
    pub open spec fn at(self) -> int {
        clamp(self.caret, self.text.len() as int)
    }

    /// The line with `piece` put in at the caret, which moves behind it.
    pub open spec fn with_inserted(self, piece: Seq<char>) -> Line {
        Line {
            text: spliced(self.text, self.at(), self.at(), piece),
            caret: self.caret + piece.len(),
        }
    }

    /// The line without the characters of `[from, to)`.
    pub open spec fn without(self, from: int, to: int) -> Seq<char> {
        spliced(
            self.text,
            clamp(from, self.text.len() as int),
            clamp(to, self.text.len() as int),
            Seq::empty(),
        )
    }

    /// The line without the word before the caret.
    pub open spec fn without_previous_word(self) -> Line {
        let start = word_start(self.text, self.caret);
        Line { text: self.without(start, self.caret), caret: start }
    }

    /// The line without what stands between the start of the logical line and
    /// the caret.
    pub open spec fn without_line_head(self) -> Line {
        let start = line_start(self.text, self.at());
        Line { text: self.without(start, self.caret), caret: start }
    }

    /// The line without the rest of the logical line behind the caret.
    pub open spec fn without_line_tail(self) -> Line {
        Line {
            text: self.without(self.caret, line_end(self.text, self.at())),
            caret: self.caret,
        }
    }

    /// The line without the word behind the caret.
    pub open spec fn without_next_word(self) -> Line {
        Line {
            text: self.without(self.caret, word_end(self.text, self.caret)),
            caret: self.caret,
        }
    }

    /// The line after one backspace: a chip before the caret goes as a unit,
    /// else a single character does.
    pub open spec fn after_backspace(self) -> Line {
        match chip_before(self.text, self.at()) {
            Some((start, end)) => Line {
                text: self.without(start, end),
                caret: self.caret - (end - start),
            },
            None => Line { text: self.without(self.caret - 1, self.caret), caret: self.caret - 1 },
        }
    }

    /// The line with the caret at `caret`.
    pub open spec fn moved(self, caret: int) -> Line {
        Line { text: self.text, caret }
    }
}

/// The line held by an input buffer.
pub open spec fn line_of(input: &String, caret: usize) -> Line {
    Line { text: input@, caret: caret as int }
}

fn clamped(position: usize, len: usize) -> (p: usize)
    ensures
        p == clamp(position as int, len as int),
{
    if position < len {
        position
    } else {
        len
    }
}

/// Puts `piece` in at the caret and moves the caret behind it.
pub fn insert_text(input: &mut String, cursor_position: &mut usize, piece: &str)
    requires
        *old(cursor_position) + piece@.len() <= usize::MAX,
    ensures
        line_of(final(input), *final(cursor_position)) == line_of(
            old(input),
            *old(cursor_position),
        ).with_inserted(piece@),
{
    let at: usize = clamped(*cursor_position, char_count(input.as_str()));
    let out: String = splice(input.as_str(), at, at, piece);
    *input = out;
    *cursor_position = *cursor_position + char_count(piece);
}

/// Types `c` at the caret.
pub fn insert_char(input: &mut String, cursor_position: &mut usize, c: char)
    requires
        *old(cursor_position) < usize::MAX,
    ensures
        line_of(final(input), *final(cursor_position)) == line_of(
            old(input),
            *old(cursor_position),
        ).with_inserted(seq![c]),
{
    let piece: String = char_string(c);
    insert_text(input, cursor_position, piece.as_str());
}

/// Types a line break at the caret, on the main prompt only.
pub fn insert_newline(input: &mut String, cursor_position: &mut usize, active_modal: Modal)
    requires
        *old(cursor_position) < usize::MAX,
    ensures
        line_of(final(input), *final(cursor_position)) == ({
            let line = line_of(old(input), *old(cursor_position));
            if active_modal == Modal::Closed {
                line.with_inserted(seq!['\n'])
            } else {
                line
            }
        }),
{
    if active_modal == Modal::Closed {
        insert_char(input, cursor_position, '\n');
    }
}

fn erase(input: &mut String, from: usize, to: usize)
    requires
        clamp(from as int, old(input)@.len() as int) <= clamp(to as int, old(input)@.len() as int),
    ensures
        final(input)@ == spliced(
            old(input)@,
            clamp(from as int, old(input)@.len() as int),
            clamp(to as int, old(input)@.len() as int),
            Seq::empty(),
        ),
{
    let len: usize = char_count(input.as_str());
    let out: String = splice(input.as_str(), clamped(from, len), clamped(to, len), "");
    proof {
        reveal_strlit("");
        assert(""@ =~= Seq::<char>::empty());
    }
    *input = out;
}

proof fn lemma_back_over(s: Seq<char>, p: int)
    requires
        0 <= p <= s.len(),
    ensures
        0 <= back_over_blanks(s, p) <= p,
        0 <= back_over_word(s, p) <= p,
    decreases p,
{
    if p > 0 {
        lemma_back_over(s, p - 1);
    }
}

proof fn lemma_over(s: Seq<char>, p: int)
    requires
        0 <= p <= s.len(),
    ensures
        p <= over_blanks(s, p) <= s.len(),
        p <= over_word(s, p) <= s.len(),
    decreases s.len() - p,
{
    if p < s.len() {
        lemma_over(s, p + 1);
    }
}

/// The word before a position starts at or before it, inside the text.
pub proof fn lemma_word_start_bounds(s: Seq<char>, p: int)
    requires
        0 <= p,
    ensures
        0 <= word_start(s, p) <= clamp(p, s.len() as int),
        p > 0 && s.len() > 0 ==> word_start(s, p) < p,
{
    let q = clamp(p, s.len() as int);
    lemma_back_over(s, q);
    let b = back_over_blanks(s, q);
    lemma_back_over(s, b);
    if q > 0 {
        if is_blank(s[q - 1]) {
            lemma_back_over(s, q - 1);
        } else {
            lemma_back_over(s, q - 1);
        }
    }
}

/// The word behind a position ends at or behind it, inside the text.
pub proof fn lemma_word_end_bounds(s: Seq<char>, p: int)
    requires
        0 <= p,
    ensures
        clamp(p, s.len() as int) <= word_end(s, p) <= s.len(),
{
    let q = clamp(p, s.len() as int);
    lemma_over(s, q);
    lemma_over(s, over_blanks(s, q));
}

/// Removes the word before the caret; says whether the caret moved.
pub fn delete_previous_word(input: &mut String, cursor_position: &mut usize) -> (removed: bool)
    ensures
        ({
            let line = line_of(old(input), *old(cursor_position));
            &&& removed == (word_start(line.text, line.caret) < line.caret)
            &&& line_of(final(input), *final(cursor_position)) == (if removed {
                line.without_previous_word()
            } else {
                line
            })
        }),
{
    let start: usize = prev_word_start(input.as_str(), *cursor_position);
    proof {
        lemma_word_start_bounds(input@, *cursor_position as int);
    }
    if start < *cursor_position {
        erase(input, start, *cursor_position);
        *cursor_position = start;
        true
    } else {
        false
    }
}

/// Removes what stands between the start of the logical line and the caret;
/// says whether the caret moved.
pub fn delete_line_head(input: &mut String, cursor_position: &mut usize) -> (removed: bool)
    ensures
        ({
            let line = line_of(old(input), *old(cursor_position));
            &&& removed == (line_start(line.text, line.at()) < line.caret)
            &&& line_of(final(input), *final(cursor_position)) == (if removed {
                line.without_line_head()
            } else {
                line
            })
        }),
{
    let mut start: usize = *cursor_position;
    cursor_line_start(input.as_str(), &mut start);
    proof {
        lemma_line_start_bounds(input@, line_of(input, *cursor_position).at());
    }
    if start < *cursor_position {
        erase(input, start, *cursor_position);
        *cursor_position = start;
        true
    } else {
        false
    }
}

/// Removes the rest of the logical line; says whether there was any.
pub fn delete_line_tail(input: &mut String, cursor_position: usize) -> (removed: bool)
    ensures
        ({
            let line = line_of(old(input), cursor_position);
            &&& removed == (line_end(line.text, line.at()) > line.caret)
            &&& line_of(final(input), cursor_position) == (if removed {
                line.without_line_tail()
            } else {
                line
            })
        }),
{
    let mut end: usize = cursor_position;
    cursor_line_end(input.as_str(), &mut end);
    proof {
        lemma_line_end_bounds(input@, line_of(input, cursor_position).at());
    }
    if end > cursor_position {
        erase(input, cursor_position, end);
        true
    } else {
        false
    }
}

/// Removes the word behind the caret; says whether there was any.
pub fn delete_next_word(input: &mut String, cursor_position: usize) -> (removed: bool)
    ensures
        ({
            let line = line_of(old(input), cursor_position);
            &&& removed == (word_end(line.text, line.caret) > line.caret)
            &&& line_of(final(input), cursor_position) == (if removed {
                line.without_next_word()
            } else {
                line
            })
        }),
{
    let end: usize = next_word_end(input.as_str(), cursor_position);
    proof {
        lemma_word_end_bounds(input@, cursor_position as int);
    }
    if end > cursor_position {
        erase(input, cursor_position, end);
        true
    } else {
        false
    }
}

/// Removes the chip or the character before the caret.
pub fn delete_backward(input: &mut String, cursor_position: &mut usize)
    requires
        *old(cursor_position) > 0,
        *old(cursor_position) <= old(input)@.len() || chip_before(
            old(input)@,
            old(input)@.len() as int,
        ) is Some,
    ensures
        line_of(final(input), *final(cursor_position)) == line_of(
            old(input),
            *old(cursor_position),
        ).after_backspace(),
{
    let at: usize = clamped(*cursor_position, char_count(input.as_str()));
    if let Some((start, end)) = chip_range_for_backspace(input.as_str(), at) {
        erase(input, start, end);
        *cursor_position = *cursor_position - (end - start);
    } else {
        erase(input, *cursor_position - 1, *cursor_position);
        *cursor_position = *cursor_position - 1;
    }
}

} // verus!
