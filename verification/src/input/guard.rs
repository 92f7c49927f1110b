//! Keeps fragments of mouse reports out of the input line.
//!
//! A mouse report that arrives in two pieces can come back as a run of
//! ordinary keys: `Esc`, `[`, `<`, digits and semicolons, `M`. The guard
//! watches for that run and drops everything behind the `Esc`.
use crate::input::events::Event;
use crate::input::events::KeyCode;
use crate::text::decimal;
use crate::text::is_digit;
use crate::text::lemma_decimal_digits;
use vstd::prelude::*;

verus! {

/// How far into a leaked mouse report the guard is.
#[derive(Debug, Clone, Copy, PartialEq, Eq, Structural)]
pub enum SgrState {
    Idle,
    /// Behind `ESC`.
    SawEsc,
    /// Behind `ESC [`.
    SawCsi,
    /// Behind `ESC [ <`, inside the report.
    InSgr,
}

/// What becomes of an event.
#[derive(Debug, Clone, Copy, PartialEq, Eq, Structural)]
pub enum Feed {
    /// It is handled as usual.
    Accept,
    /// It is part of a leaked report.
    Drop,
}

/// The guard.
#[derive(Debug, Clone, Copy)]
pub struct SgrLeakGuard {
    state: SgrState,
}

impl View for SgrLeakGuard {
    type V = SgrState;

    closed spec fn view(&self) -> SgrState {
        self.state
    }
}

impl Default for SgrLeakGuard {
    fn default() -> (guard: Self)
        ensures
            guard@ == SgrState::Idle,
    {
        SgrLeakGuard { state: SgrState::Idle }
    }
}

/// The character that an event stands for in a leaked report.
pub open spec fn leak_char(event: Event) -> Option<char> {
    match event {
        Event::Key(key) => match key.code {
            KeyCode::Char(c) => Some(c),
            KeyCode::Esc => Some('\x1b'),
            _ => None,
        },
        _ => None,
    }
}

/// A character that can stand inside a report.
pub open spec fn is_payload(c: char) -> bool {
    ('0' <= c && c <= '9') || c == ';'
}

/// Where a character takes the guard, and what becomes of it.
pub open spec fn char_step(state: SgrState, c: char) -> (SgrState, Feed) {
    match state {
        SgrState::Idle => if c == '\x1b' {
            (SgrState::SawEsc, Feed::Accept)
        } else {
            (SgrState::Idle, Feed::Accept)
        },
        SgrState::SawEsc => if c == '[' {
            (SgrState::SawCsi, Feed::Drop)
        } else if c == '\x1b' {
            (SgrState::SawEsc, Feed::Accept)
        } else {
            (SgrState::Idle, Feed::Accept)
        },
        SgrState::SawCsi => if c == '<' {
            (SgrState::InSgr, Feed::Drop)
        } else {
            (SgrState::Idle, Feed::Accept)
        },
        SgrState::InSgr => if c == 'M' || c == 'm' {
            (SgrState::Idle, Feed::Drop)
        } else if is_payload(c) {
            (SgrState::InSgr, Feed::Drop)
        } else if c == '\x1b' {
            (SgrState::SawEsc, Feed::Accept)
        } else {
            (SgrState::Idle, Feed::Accept)
        },
    }
}

/// Where an event takes the guard, and what becomes of it.
pub open spec fn event_step(state: SgrState, event: Event) -> (SgrState, Feed) {
    match leak_char(event) {
        Some(c) => char_step(state, c),
        None => (SgrState::Idle, Feed::Accept),
    }
}

/// The state behind a run of characters, and those of them that were handled.
pub open spec fn run(state: SgrState, typed: Seq<char>) -> (SgrState, Seq<char>)
    decreases typed.len(),
{
    if typed.len() == 0 {
        (state, typed)
    } else {
        let (before, kept) = run(state, typed.drop_last());
        let (after, feed) = char_step(before, typed.last());
        (
            after,
            if feed == Feed::Accept {
                kept.push(typed.last())
            } else {
                kept
            },
        )
    }
}

impl SgrLeakGuard {
    /// Feeds one event; says whether it is still to be handled.
    pub fn feed(&mut self, event: &Event) -> (feed: Feed)
        ensures
            (final(self)@, feed) == event_step(old(self)@, *event),
    {
        let c: char = match event {
            Event::Key(key) => match key.code {
                KeyCode::Char(c) => c,
                KeyCode::Esc => '\x1b',
                _ => {
                    self.state = SgrState::Idle;
                    return Feed::Accept;
                },
            },
            _ => {
                self.state = SgrState::Idle;
                return Feed::Accept;
            },
        };
        let (next, feed): (SgrState, Feed) = match self.state {
            SgrState::Idle => if c == '\x1b' {
                (SgrState::SawEsc, Feed::Accept)
            } else {
                (SgrState::Idle, Feed::Accept)
            },
            SgrState::SawEsc => if c == '[' {
                (SgrState::SawCsi, Feed::Drop)
            } else if c == '\x1b' {
                (SgrState::SawEsc, Feed::Accept)
            } else {
                (SgrState::Idle, Feed::Accept)
            },
            SgrState::SawCsi => if c == '<' {
                (SgrState::InSgr, Feed::Drop)
            } else {
                (SgrState::Idle, Feed::Accept)
            },
            SgrState::InSgr => if c == 'M' || c == 'm' {
                (SgrState::Idle, Feed::Drop)
            } else if ('0' <= c && c <= '9') || c == ';' {
                (SgrState::InSgr, Feed::Drop)
            } else if c == '\x1b' {
                (SgrState::SawEsc, Feed::Accept)
            } else {
                (SgrState::Idle, Feed::Accept)
            },
        };
        self.state = next;
        feed
    }

    /// Starts over.
    pub fn reset(&mut self)
        ensures
            final(self)@ == SgrState::Idle,
    {
        self.state = SgrState::Idle;
    }

    /// Whether no report is under way.
    pub fn is_idle(&self) -> (idle: bool)
        ensures
            idle == (self@ == SgrState::Idle),
    {
        self.state == SgrState::Idle
    }
}

/// An `Esc` is never dropped, wherever the guard is.
pub proof fn law_escape_is_delivered(state: SgrState)
    ensures
        char_step(state, '\x1b').1 == Feed::Accept,
{
}

/// A run of characters without an `Esc` is handled unchanged.
pub proof fn law_typing_passes(typed: Seq<char>)
    requires
        forall|i: int| 0 <= i < typed.len() ==> typed[i] != '\x1b',
    ensures
        run(SgrState::Idle, typed) == (SgrState::Idle, typed),
    decreases typed.len(),
{
    if typed.len() > 0 {
        law_typing_passes(typed.drop_last());
        assert(typed.drop_last().push(typed.last()) =~= typed);
    }
}

/// Of a whole leaked report only the `Esc` in front is handled, and the guard
/// is idle behind it.
pub proof fn law_leaked_report_is_dropped(payload: Seq<char>, end: char)
    requires
        end == 'M' || end == 'm',
        forall|i: int| 0 <= i < payload.len() ==> is_payload(#[trigger] payload[i]),
    ensures
        run(SgrState::Idle, seq!['\x1b', '[', '<'] + payload + seq![end]) == (
            SgrState::Idle,
            seq!['\x1b'],
        ),
{
    lemma_leaked_prefix(payload);
    let whole = seq!['\x1b', '[', '<'] + payload + seq![end];
    assert(whole.drop_last() =~= seq!['\x1b', '[', '<'] + payload);
}

proof fn lemma_leaked_prefix(payload: Seq<char>)
    requires
        forall|i: int| 0 <= i < payload.len() ==> is_payload(#[trigger] payload[i]),
    ensures
        run(SgrState::Idle, seq!['\x1b', '[', '<'] + payload) == (SgrState::InSgr, seq!['\x1b']),
    decreases payload.len(),
{
    let whole = seq!['\x1b', '[', '<'] + payload;
    if payload.len() == 0 {
        assert(whole =~= seq!['\x1b', '[', '<']);
        assert(whole.drop_last() =~= seq!['\x1b', '[']);
        assert(whole.drop_last().drop_last() =~= seq!['\x1b']);
        assert(whole.drop_last().drop_last().drop_last() =~= Seq::<char>::empty());
        reveal_with_fuel(run, 4);
        assert(Seq::<char>::empty().push('\x1b') =~= seq!['\x1b']);
    } else {
        lemma_leaked_prefix(payload.drop_last());
        assert(whole.drop_last() =~= seq!['\x1b', '[', '<'] + payload.drop_last());
    }
}

/// A mouse report that leaks as typing is dropped but for its `Esc`, whatever
/// its three numbers are.
pub proof fn law_leaked_mouse_report_is_dropped(button: nat, column: nat, row: nat, pressed: bool)
    ensures
        ({
            let end = if pressed {
                'M'
            } else {
                'm'
            };
            run(
                SgrState::Idle,
                seq!['\x1b', '[', '<'] + (decimal(button) + seq![';'] + decimal(column) + seq![';']
                    + decimal(row)) + seq![end],
            ) == (SgrState::Idle, seq!['\x1b'])
        }),
{
    let payload = decimal(button) + seq![';'] + decimal(column) + seq![';'] + decimal(row);
    lemma_decimal_digits(button);
    lemma_decimal_digits(column);
    lemma_decimal_digits(row);
    assert forall|i: int| 0 <= i < payload.len() implies is_payload(#[trigger] payload[i]) by {
        let (x, y) = (decimal(button).len() as int, decimal(column).len() as int);
        if i < x {
            assert(is_digit(decimal(button)[i]));
        } else if x < i < x + 1 + y {
            assert(is_digit(decimal(column)[i - x - 1]));
        } else if i > x + 1 + y {
            assert(is_digit(decimal(row)[i - x - y - 2]));
        }
    }
    law_leaked_report_is_dropped(
        payload,
        if pressed {
            'M'
        } else {
            'm'
        },
    );
}

/// A character that no report holds ends the report and is handled.
pub proof fn law_broken_report_ends(n: nat, c: char)
    requires
        !('0' <= c <= '9'),
        c != ';',
        c != 'M',
        c != 'm',
        c != '\x1b',
    ensures
        run(SgrState::Idle, seq!['\x1b', '[', '<'] + decimal(n) + seq![c]) == (
            SgrState::Idle,
            seq!['\x1b', c],
        ),
{
    lemma_decimal_digits(n);
    assert forall|i: int| 0 <= i < decimal(n).len() implies is_payload(
        #[trigger] decimal(n)[i],
    ) by {
        assert(is_digit(decimal(n)[i]));
    }
    lemma_leaked_prefix(decimal(n));
    let whole = seq!['\x1b', '[', '<'] + decimal(n) + seq![c];
    assert(whole.drop_last() =~= seq!['\x1b', '[', '<'] + decimal(n));
    assert(seq!['\x1b'].push(c) =~= seq!['\x1b', c]);
}

/// Only typed characters and `Esc` can be part of a leaked report: every other
/// event is handled, and ends one.
pub proof fn law_other_events_pass(state: SgrState, event: Event, c: char)
    ensures
        !(event is Key) ==> event_step(state, event) == (SgrState::Idle, Feed::Accept),
        (event matches Event::Key(key) && !(key.code is Char) && key.code != KeyCode::Esc)
            ==> event_step(state, event) == (SgrState::Idle, Feed::Accept),
        (event matches Event::Key(key) && key.code == KeyCode::Esc) ==> event_step(state, event).1
            == Feed::Accept,
        (event matches Event::Key(key) && key.code == KeyCode::Char(c)) && state == SgrState::Idle
            ==> event_step(state, event).1 == Feed::Accept,
{
}

} // verus!
