//! What holds of every event.
use crate::attachments::chip_before;
use crate::attachments::chip_label;
use crate::attachments::chip_number;
use crate::attachments::last_open;
use crate::attachments::law_chip_before_finds_label;
use crate::attachments::lemma_last_open;
use crate::attachments::Chip;
use crate::input::action::ActionView;
use crate::input::action::InputAction;
use crate::input::context::InputContext;
use crate::input::editing::lemma_word_end_bounds;
use crate::input::editing::lemma_word_start_bounds;
use crate::input::editing::Line;
use crate::input::events::Event;
use crate::input::events::KeyCode;
use crate::input::events::KeyEvent;
use crate::input::keys::on_alt;
use crate::input::keys::on_control;
use crate::input::keys::on_key;
use crate::input::keys::only;
use crate::input::on_event;
use crate::modal::Modal;
use crate::motion::lemma_line_end_bounds;
use crate::motion::lemma_line_start_bounds;
use crate::motion::line_end;
use crate::motion::line_start;
use crate::motion::position_above;
use crate::motion::position_below;
use vstd::prelude::*;

verus! {

/// Whether an action edits the line or sends it.
pub open spec fn edits_or_sends(action: ActionView) -> bool {
    match action {
        ActionView::Plain(plain) => plain is InsertChar || plain is Backspace || plain is Paste,
        ActionView::SendChat(_)
        | ActionView::SendSlash(_)
        | ActionView::SendShell(_)
        | ActionView::BracketedPaste(_)
        | ActionView::AcceptSuggestion(_)
        | ActionView::CommitSuggestion(_) => true,
    }
}

/// Unless the user can edit the line, no event changes the line or moves its
/// caret, and none asks for an edit or for sending.
pub proof fn law_line_changes_only_while_editing(
    event: Event,
    line: Line,
    ctx: InputContext,
    dragging: bool,
)
    requires
        !ctx.editing(),
    ensures
        on_event(event, line, ctx, dragging).line == line,
        !edits_or_sends(on_event(event, line, ctx, dragging).action),
{
}

/// Whether the caret lies in the text.
pub open spec fn caret_in_text(line: Line) -> bool {
    0 <= line.caret <= line.text.len()
}

/// A caret inside the text stays inside the text, whatever comes in.
pub proof fn law_caret_stays_in_text(
    event: Event,
    line: Line,
    ctx: InputContext,
    dragging: bool,
)
    requires
        caret_in_text(line),
    ensures
        caret_in_text(on_event(event, line, ctx, dragging).line),
{
    if let Event::Key(key) = event {
        lemma_caret_after_key(key, line, ctx);
    }
}

proof fn lemma_caret_after_key(key: KeyEvent, line: Line, ctx: InputContext)
    requires
        caret_in_text(line),
    ensures
        caret_in_text(on_key(key, line, ctx).line),
{
    match key.code {
        KeyCode::Char(c) => {
            lemma_caret_control(c, line, ctx);
            lemma_caret_alt(c, line, ctx);
        },
        KeyCode::Backspace => {
            lemma_word_start_bounds(line.text, line.caret);
            lemma_chip_before_bounds(line.text, line.caret);
        },
        KeyCode::Left => {
            lemma_word_start_bounds(line.text, line.caret);
        },
        KeyCode::Right => {
            lemma_word_end_bounds(line.text, line.caret);
        },
        KeyCode::Up | KeyCode::Down => {
            lemma_above_below_bounds(line.text, line.caret);
        },
        KeyCode::Home => {
            lemma_line_start_bounds(line.text, line.caret);
        },
        KeyCode::End => {
            lemma_line_end_bounds(line.text, line.caret);
        },
        _ => {},
    }
}

proof fn lemma_caret_control(c: char, line: Line, ctx: InputContext)
    requires
        caret_in_text(line),
    ensures
        on_control(c, line, ctx) matches Some(o) ==> caret_in_text(o.line),
{
    lemma_word_start_bounds(line.text, line.caret);
    lemma_line_start_bounds(line.text, line.caret);
    lemma_line_end_bounds(line.text, line.caret);
}

proof fn lemma_caret_alt(c: char, line: Line, ctx: InputContext)
    requires
        caret_in_text(line),
    ensures
        on_alt(c, line, ctx) matches Some(o) ==> caret_in_text(o.line),
{
    lemma_word_start_bounds(line.text, line.caret);
    lemma_word_end_bounds(line.text, line.caret);
}

proof fn lemma_above_below_bounds(s: Seq<char>, p: int)
    requires
        0 <= p <= s.len(),
    ensures
        position_above(s, p) matches Some(t) ==> 0 <= t <= s.len(),
        position_below(s, p) matches Some(t) ==> 0 <= t <= s.len(),
{
    lemma_line_start_bounds(s, p);
    lemma_line_end_bounds(s, p);
    let start = line_start(s, p);
    if start > 0 {
        lemma_line_start_bounds(s, start - 1);
    }
    let end = line_end(s, p);
    if end < s.len() {
        lemma_line_end_bounds(s, end + 1);
    }
}

proof fn lemma_chip_before_bounds(s: Seq<char>, p: int)
    requires
        0 <= p <= s.len(),
    ensures
        chip_before(s, p) matches Some((start, end)) ==> 0 <= start < end == p,
{
    lemma_last_open(s, p);
    if p > 0 {
        lemma_last_open(s, p - 1);
    }
}

proof fn lemma_last_open_prefix(s: Seq<char>, t: Seq<char>, e: int)
    requires
        0 <= e <= s.len(),
        e <= t.len(),
        forall|i: int| 0 <= i < e ==> s[i] == t[i],
    ensures
        last_open(s, e) == last_open(t, e),
    decreases e,
{
    if e > 0 && s[e - 1] != '[' {
        lemma_last_open_prefix(s, t, e - 1);
    }
}

/// Which chip stands before a position depends only on the text before it.
pub proof fn law_chip_before_looks_back_only(s: Seq<char>, t: Seq<char>, p: int)
    requires
        0 <= p <= s.len(),
        p <= t.len(),
        s.subrange(0, p) == t.subrange(0, p),
    ensures
        chip_before(s, p) == chip_before(t, p),
{
    assert forall|i: int| 0 <= i < p implies s[i] == t[i] by {
        assert(s[i] == s.subrange(0, p)[i]);
        assert(t[i] == t.subrange(0, p)[i]);
    }
    lemma_last_open_prefix(s, t, p);
    lemma_last_open(s, p);
    let k = last_open(s, p);
    if k >= 0 {
        assert(s.subrange(k, p) =~= t.subrange(k, p));
    }
    if p > 0 {
        lemma_last_open_prefix(s, t, p - 1);
        lemma_last_open(s, p - 1);
        let m = last_open(s, p - 1);
        if m >= 0 {
            assert(s.subrange(m, p - 1) =~= t.subrange(m, p - 1));
        }
    }
}

/// One backspace takes back a chip that was put in with a space behind it,
/// wherever the caret was.
pub proof fn law_backspace_takes_back_chip(line: Line, chip: Chip)
    requires
        0 <= line.caret <= line.text.len(),
        chip_number(chip) >= 1,
    ensures
        line.with_inserted(chip_label(chip) + seq![' ']).after_backspace() == line,
{
    let piece = chip_label(chip) + seq![' '];
    let before = line.text.subrange(0, line.caret);
    let typed = line.with_inserted(piece);
    law_chip_before_finds_label(before, chip);
    let shown = before + chip_label(chip) + seq![' '];
    assert(typed.text.subrange(0, typed.caret) =~= shown);
    assert(shown.subrange(0, typed.caret) =~= shown);
    law_chip_before_looks_back_only(typed.text, shown, typed.caret);
    assert(typed.after_backspace().text =~= line.text);
}

/// A backspace takes back a typed character that does not complete a chip.
pub proof fn law_backspace_takes_back_typing(line: Line, c: char)
    requires
        0 <= line.caret <= line.text.len(),
        chip_before(line.with_inserted(seq![c]).text, line.caret + 1) is None,
    ensures
        line.with_inserted(seq![c]).after_backspace() == line,
{
    assert(line.with_inserted(seq![c]).after_backspace().text =~= line.text);
}

/// A `Backspace` undoes the typing of a character that does not complete a chip,
/// in the text and in the caret, wherever both keys reach the line.
pub proof fn law_backspace_undoes_typing(
    typed: KeyEvent,
    c: char,
    erased: KeyEvent,
    line: Line,
    ctx: InputContext,
    next: InputContext,
    dragging: bool,
)
    requires
        caret_in_text(line),
        typed.code == KeyCode::Char(c),
        on_event(Event::Key(typed), line, ctx, dragging).action == ActionView::Plain(
            InputAction::InsertChar(c),
        ),
        erased.code == KeyCode::Backspace,
        !erased.modifiers.control,
        !erased.modifiers.alt,
        next.editing(),
        chip_before(line.with_inserted(seq![c]).text, line.caret + 1) is None,
    ensures
        ({
            let after = on_event(Event::Key(typed), line, ctx, dragging).line;
            let back = on_event(Event::Key(erased), after, next, dragging);
            &&& after == line.with_inserted(seq![c])
            &&& back.line == line
            &&& back.action == ActionView::Plain(InputAction::Backspace)
        }),
{
    law_backspace_takes_back_typing(line, c);
}

/// A character without modifiers is typed on the main prompt, except for the
/// two that leaf through siblings in an empty envoy view.
pub proof fn law_prompt_takes_typing(typed: KeyEvent, c: char, line: Line, ctx: InputContext)
    requires
        typed.code == KeyCode::Char(c),
        !typed.modifiers.control,
        !typed.modifiers.alt,
        !typed.modifiers.super_key,
        ctx.active_modal == Modal::Closed,
        !(ctx.in_envoy_view && line.text.len() == 0 && (c == '[' || c == ']')),
    ensures
        on_event(Event::Key(typed), line, ctx, false) == only(
            InputAction::InsertChar(c),
            line.with_inserted(seq![c]),
        ),
{
}

/// Deleting to the start or to the end of the line removes no line break.
pub proof fn law_kill_stays_on_line(line: Line, i: int)
    requires
        0 <= line.caret <= line.text.len(),
        line_start(line.text, line.caret) <= i < line_end(line.text, line.caret),
    ensures
        line.text[i] != '\n',
        line.without_line_head() == (Line {
            text: line.text.subrange(0, line_start(line.text, line.caret)) + line.text.subrange(
                line.caret,
                line.text.len() as int,
            ),
            caret: line_start(line.text, line.caret),
        }),
        line.without_line_tail() == (Line {
            text: line.text.subrange(0, line.caret) + line.text.subrange(
                line_end(line.text, line.caret),
                line.text.len() as int,
            ),
            caret: line.caret,
        }),
{
    lemma_line_start_bounds(line.text, line.caret);
    lemma_line_end_bounds(line.text, line.caret);
    assert(line.without_line_head().text =~= line.text.subrange(
        0,
        line_start(line.text, line.caret),
    ) + line.text.subrange(line.caret, line.text.len() as int));
    assert(line.without_line_tail().text =~= line.text.subrange(0, line.caret)
        + line.text.subrange(line_end(line.text, line.caret), line.text.len() as int));
}

/// Plain Control+C never interrupts a turn: it asks for the same thing
/// whether or not one is running.
pub proof fn law_control_c_never_interrupts(key: KeyEvent, line: Line, ctx: InputContext)
    requires
        key.code == KeyCode::Char('c'),
        key.modifiers.control,
    ensures
        on_key(key, line, ctx).action != ActionView::Plain(
            InputAction::Interrupt,
        ),
        on_key(key, line, ctx).line == line,
{
}

/// `Esc` leaves the picker step by step: first its search, then a model list,
/// then the picker itself.
pub proof fn law_escape_leaves_picker_by_steps(key: KeyEvent, line: Line, ctx: InputContext)
    requires
        key.code == KeyCode::Esc,
        ctx.active_modal == Modal::Provider,
    ensures
        on_event(Event::Key(key), line, ctx, false) == only(
            if ctx.model_searching {
                InputAction::ModelExitSearch
            } else if ctx.picker_in_models_stage {
                InputAction::ProviderPickerBack
            } else {
                InputAction::CloseModal
            },
            line,
        ),
{
}

} // verus!
