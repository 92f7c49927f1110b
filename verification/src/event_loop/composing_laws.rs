//! What the composer's actions are for: the history, the suggestions, the
//! clipboard, and the two keys that stop things.
use crate::agent::AgentRequest;
use crate::app::composer::Completion;
use crate::app::App;
use crate::app::Effect;
use crate::clipboard_ops::pasted;
use crate::clipboard_ops::ClipboardRead;
use crate::event_loop::composing::named_accepted;
use crate::event_loop::copying::selected_in;
use crate::event_loop::dispatch::carried_out;
use crate::event_loop::dispatch::on_composing;
use crate::event_loop::dispatch::on_sending;
use crate::event_loop::dispatch::ActionFacts;
use crate::event_loop::frame::ticked;
use crate::event_loop::UiRuntime;
use crate::input::context::InputContext;
use crate::input::editing::Line;
use crate::input::events::Event;
use crate::input::events::KeyCode;
use crate::input::events::KeyEvent;
use crate::input::key_laws::bare_prompt;
use crate::input::key_laws::law_escape_interrupts_running_turn;
use crate::input::on_event;
use crate::input::InputAction;
use crate::modal::Modal;
use crate::text::byte_len;
use crate::text::decimal;
use crate::text::is_blank;
use crate::text::law_parse_undoes_decimal;
use crate::text::lemma_char_index;
use vstd::prelude::*;

verus! {

/// Two presses of `Esc` on the main prompt while a turn runs send an interrupt,
/// and the first one alone sends nothing.
pub proof fn law_two_escapes_interrupt(
    key: KeyEvent,
    line: Line,
    ctx: InputContext,
    first: InputAction,
    second: InputAction,
    a: App,
    r: UiRuntime,
    facts: ActionFacts,
    b: App,
    s: UiRuntime,
    later: ActionFacts,
    c: App,
    t: UiRuntime,
)
    requires
        key.code == KeyCode::Esc,
        bare_prompt(ctx),
        ctx.is_responding,
        a.toast.esc_armed_ticks == 0,
        first@ == on_event(Event::Key(key), line, ctx, false).action,
        second@ == on_event(Event::Key(key), line, ctx, false).action,
        carried_out(a, r, first, facts, b, s),
        carried_out(b, s, second, later, c, t),
    ensures
        b.outbox@ == a.outbox@,
        b.toast.esc_armed_ticks > 0,
        c.outbox@ == a.outbox@.push(Effect::Send(AgentRequest::Interrupt)),
        c.toast.esc_armed_ticks == 0,
        t.is_responding == r.is_responding,
{
    law_escape_interrupts_running_turn(key, line, ctx);
    assert(first == InputAction::Interrupt);
    assert(second == InputAction::Interrupt);
    reveal(on_sending);
}

/// What is armed runs out on its own: without a second press it is gone after as
/// many ticks as it was armed for, and once no turn runs at the next tick.
pub proof fn law_armed_escape_runs_out(a: App)
    ensures
        ticked(a, false).toast.esc_armed_ticks == 0,
        a.toast.esc_armed_ticks > 0 ==> ticked(a, true).toast.esc_armed_ticks + 1
            == a.toast.esc_armed_ticks,
        a.toast.esc_armed_ticks == 0 ==> ticked(a, true).toast.esc_armed_ticks == 0,
        a.toast.ctrl_c_armed_ticks > 0 ==> ticked(a, true).toast.ctrl_c_armed_ticks + 1
            == a.toast.ctrl_c_armed_ticks,
        a.toast.ctrl_c_armed_ticks == 0 ==> ticked(a, true).toast.ctrl_c_armed_ticks == 0,
        ticked(a, true).toast.ctrl_c_armed_ticks == ticked(a, false).toast.ctrl_c_armed_ticks,
{
}

/// What Control+C does, in this order: it copies what is selected, closes an
/// overlay, leaves the side conversation, clears the line, and leaves the
/// program on a second press. It never touches the turn.
pub proof fn law_control_c_chain(
    a: App,
    r: UiRuntime,
    facts: ActionFacts,
    b: App,
    s: UiRuntime,
)
    requires
        carried_out(a, r, InputAction::CtrlC, facts, b, s),
    ensures
        ({
            let selected = selected_in(a, facts.transcript_text);
            let modal = a.overlay.active_modal;
            let covered = modal != Modal::Closed && modal != Modal::Permission;
            &&& s == r
            &&& selected is Some ==> b.outbox@.len() == a.outbox@.len() + 1 && (
            b.outbox@.last() matches Effect::Copy(text) && Some(text@) == selected)
                && b.overlay.active_modal == modal && b.composer.input == a.composer.input
                && b.should_quit == a.should_quit
            &&& selected is None && covered ==> b.overlay.active_modal == Modal::Closed && b.outbox
                == a.outbox && b.should_quit == a.should_quit
            &&& selected is None && modal == Modal::HistorySearch ==> b.composer.input
                == a.composer.stashed_input
            &&& selected is None && !covered && a.view.in_side_view ==> b.outbox@
                == a.outbox@.push(Effect::Send(AgentRequest::ExitSideView))
                && !b.view.in_side_view && b.should_quit == a.should_quit && b.composer.input
                == a.composer.input
            &&& selected is None && !covered && !a.view.in_side_view
                && a.composer.input@.len() > 0 ==> b.composer.input@.len() == 0
                && b.composer.cursor_position == 0 && b.toast.ctrl_c_armed_ticks > 0 && b.outbox
                == a.outbox && b.should_quit == a.should_quit
            &&& selected is None && !covered && !a.view.in_side_view && a.composer.input@.len()
                == 0 && a.toast.ctrl_c_armed_ticks > 0 ==> b.should_quit && b.outbox == a.outbox
            &&& selected is None && !covered && !a.view.in_side_view && a.composer.input@.len()
                == 0 && a.toast.ctrl_c_armed_ticks == 0 ==> b.toast.ctrl_c_armed_ticks > 0
                && b.should_quit == a.should_quit && b.outbox == a.outbox
        }),
{
    reveal(on_sending);
}

/// Copying the selection asks for exactly the selected text, and does nothing
/// else.
pub proof fn law_copy_asks_for_selection(
    a: App,
    r: UiRuntime,
    facts: ActionFacts,
    b: App,
    s: UiRuntime,
)
    requires
        carried_out(a, r, InputAction::CopySelection, facts, b, s),
    ensures
        s == r,
        selected_in(a, facts.transcript_text) is None ==> b == a,
        selected_in(a, facts.transcript_text) matches Some(text) ==> {
            &&& b.outbox@.len() == a.outbox@.len() + 1
            &&& b.outbox@.drop_last() == a.outbox@
            &&& b.outbox@.last() matches Effect::Copy(copied) && copied@ == text
            &&& b.composer == a.composer
            &&& b.overlay == a.overlay
        },
{
    reveal(on_sending);
}

/// `Quit` leaves the program, and no other action of the prompt but Control+C
/// does.
pub proof fn law_quit_leaves(a: App, r: UiRuntime, facts: ActionFacts, b: App, s: UiRuntime)
    requires
        carried_out(a, r, InputAction::Quit, facts, b, s),
    ensures
        b.should_quit,
        b.outbox == a.outbox,
        s == r,
{
    reveal(on_sending);
}

/// A walk back in the history shows the entries from the newest on, one by one,
/// stops at the oldest, and keeps the draft.
pub proof fn law_history_walk_back(
    a: App,
    r: UiRuntime,
    facts: ActionFacts,
    b: App,
    s: UiRuntime,
)
    requires
        carried_out(a, r, InputAction::HistoryPrev, facts, b, s),
        a.composer.history_index matches Some(i) ==> i < a.composer.input_history@.len(),
    ensures
        ({
            let history = a.composer.input_history@;
            let n = history.len() as int;
            &&& b.composer.input_history == a.composer.input_history
            &&& n == 0 ==> b == a
            &&& n > 0 && a.composer.history_index is None ==> b.composer.input == history[n - 1]
                && b.composer.history_index == Some((n - 1) as usize) && b.composer.history_draft
                == a.composer.input
            &&& n > 0 && (a.composer.history_index matches Some(i) && i > 0) ==> b.composer.input
                == history[a.composer.history_index->Some_0 - 1] && b.composer.history_index
                == Some((a.composer.history_index->Some_0 - 1) as usize)
                && b.composer.history_draft == a.composer.history_draft
            &&& n > 0 && a.composer.history_index == Some(0usize) ==> b.composer.input
                == history[0] && b.composer.history_index == Some(0usize)
            &&& n > 0 ==> b.composer.cursor_position == b.composer.input@.len() as usize
        }),
{
    reveal(on_composing);
    let count: usize = a.composer.input_history.len();
}

/// A walk forward shows the next newer entry, and behind the newest one the draft
/// as it was left.
pub proof fn law_history_walk_forward(
    a: App,
    r: UiRuntime,
    facts: ActionFacts,
    b: App,
    s: UiRuntime,
)
    requires
        carried_out(a, r, InputAction::HistoryNext, facts, b, s),
    ensures
        a.composer.history_index is None ==> b == a,
        a.composer.history_index matches Some(i) ==> {
            let history = a.composer.input_history@;
            &&& i + 1 < history.len() ==> b.composer.input == history[i + 1]
                && b.composer.history_index == Some((i + 1) as usize) && b.composer.history_draft
                == a.composer.history_draft
            &&& i + 1 >= history.len() ==> b.composer.input == a.composer.history_draft
                && b.composer.history_index is None && b.composer.history_draft@.len() == 0
            &&& b.composer.cursor_position == b.composer.input@.len() as usize
        },
{
    reveal(on_composing);
}

/// The highlight of the suggestions moves one down or up and goes around at the
/// ends; from no highlight it begins at the near end. The line stays.
pub proof fn law_suggestion_highlight_moves(
    a: App,
    r: UiRuntime,
    forward: bool,
    facts: ActionFacts,
    b: App,
    s: UiRuntime,
)
    requires
        carried_out(
            a,
            r,
            if forward {
                InputAction::SuggestNext
            } else {
                InputAction::SuggestPrev
            },
            facts,
            b,
            s,
        ),
    ensures
        ({
            let n = facts.completions@.len();
            let at = a.composer.suggestion_index;
            &&& b.composer.input == a.composer.input
            &&& n == 0 ==> b == a
            &&& n > 0 && at is None ==> b.composer.suggestion_index == Some(
                if forward {
                    0usize
                } else {
                    (n - 1) as usize
                },
            )
            &&& n > 0 && forward && (at matches Some(i) && i + 1 < n)
                ==> b.composer.suggestion_index == Some((at->Some_0 + 1) as usize)
            &&& n > 0 && forward && (at matches Some(i) && i + 1 == n)
                ==> b.composer.suggestion_index == Some(0usize)
            &&& n > 0 && !forward && (at matches Some(i) && 0 < i) ==> b.composer.suggestion_index
                == Some((at->Some_0 - 1) as usize)
            &&& n > 0 && !forward && at == Some(0usize) ==> b.composer.suggestion_index == Some(
                (n - 1) as usize,
            )
        }),
{
    reveal(on_composing);
    let count: usize = facts.completions.len();
    let n = facts.completions@.len();
    if let Some(i) = a.composer.suggestion_index {
        if i + 1 < n {
            vstd::arithmetic::div_mod::lemma_small_mod((i + 1) as nat, n);
        } else if i + 1 == n {
            vstd::arithmetic::div_mod::lemma_mod_self_0(n as int);
        }
    }
}

/// An accepted suggestion takes the place of exactly the text that it replaces,
/// with a space behind a file name unless one follows; the caret stands behind
/// it. `from` and `to` are the characters that its byte range covers.
pub proof fn law_suggestion_takes_its_place(
    a: App,
    completions: Seq<Completion>,
    idx: usize,
    from: int,
    to: int,
    b: App,
)
    requires
        idx < completions.len(),
        0 <= from <= to <= a.composer.input@.len(),
        completions[idx as int].replace_start == byte_len(a.composer.input@.take(from)),
        completions[idx as int].replace_end == byte_len(a.composer.input@.take(to)),
        named_accepted(a, completions, decimal(idx as nat), b),
    ensures
        ({
            let text = a.composer.input@;
            let label = completions[idx as int].label@;
            let plain = text.take(from) + label + text.skip(to);
            let spaced = text.take(from) + label.push(' ') + text.skip(to);
            let command = label.len() > 0 && label[0] == '/';
            let folder = label.len() > 0 && label.last() == '/';
            let follows = to < text.len() && is_blank(text[to]);
            &&& command || folder || follows ==> b.composer.input@ == plain
                && b.composer.cursor_position == from + label.len()
            &&& !command && !folder && !follows ==> b.composer.input@ == spaced
                && b.composer.cursor_position == from + label.len() + 1
            &&& b.outbox == a.outbox
        }),
{
    law_parse_undoes_decimal(idx as nat, usize::MAX as nat);
    lemma_char_index(a.composer.input@, from);
    lemma_char_index(a.composer.input@, to);
    let rest = a.composer.input@.skip(to);
    if to < a.composer.input@.len() {
        assert(rest[0] == a.composer.input@[to]);
    }
}

/// A committed suggestion is accepted and closes the menu until the next edit;
/// closing the menu alone leaves the line as it is.
pub proof fn law_menu_closes(
    a: App,
    r: UiRuntime,
    index: String,
    facts: ActionFacts,
    b: App,
    s: UiRuntime,
)
    ensures
        carried_out(a, r, InputAction::CommitSuggestion(index), facts, b, s)
            ==> b.composer.completion_dismissed && b.composer.suggestion_index is None && exists|
            mid: App,
        | #[trigger]
            named_accepted(a, facts.completions@, index@, mid) && b.composer.input
                == mid.composer.input && b.composer.cursor_position
                == mid.composer.cursor_position,
        carried_out(a, r, InputAction::AcceptSuggestion(index), facts, b, s) ==> named_accepted(
            a,
            facts.completions@,
            index@,
            b,
        ),
        carried_out(a, r, InputAction::CloseCompletion, facts, b, s)
            ==> b.composer.completion_dismissed && b.composer.suggestion_index is None
            && b.composer.input == a.composer.input && b.composer.cursor_position
            == a.composer.cursor_position,
{
    reveal(on_composing);
    if carried_out(a, r, InputAction::CommitSuggestion(index), facts, b, s) {
        let mid = choose|mid: App| #[trigger]
            named_accepted(a, facts.completions@, index@, mid) && b
                == crate::event_loop::composing::menu_closed(mid);
        assert(named_accepted(a, facts.completions@, index@, mid));
    }
}

/// An edit brings the menu back, takes the focus off the transcript, and sends
/// nothing.
pub proof fn law_edit_brings_menu_back(
    a: App,
    r: UiRuntime,
    c: char,
    facts: ActionFacts,
    b: App,
    s: UiRuntime,
)
    requires
        carried_out(a, r, InputAction::InsertChar(c), facts, b, s) || carried_out(
            a,
            r,
            InputAction::Backspace,
            facts,
            b,
            s,
        ),
    ensures
        !b.composer.completion_dismissed,
        b.composer.suggestion_index is None,
        b.view.focused_target is None,
        b.outbox == a.outbox,
        b.composer.pending_dispatch == a.composer.pending_dispatch,
        s == r,
{
    reveal(on_composing);
}

/// The command palette is a line that holds a `/` with the caret behind it; a
/// command under way stays.
pub proof fn law_palette_is_a_slash(
    a: App,
    r: UiRuntime,
    facts: ActionFacts,
    b: App,
    s: UiRuntime,
)
    requires
        carried_out(a, r, InputAction::OpenCommands, facts, b, s),
    ensures
        a.composer.input@.len() > 0 && a.composer.input@[0] == '/' ==> b.composer.input
            == a.composer.input && b.composer.cursor_position == a.composer.cursor_position,
        !(a.composer.input@.len() > 0 && a.composer.input@[0] == '/') ==> b.composer.input@
            == seq!['/'] && b.composer.cursor_position == 1,
{
    reveal(on_composing);
    reveal_strlit("/");
    assert("/"@ =~= seq!['/']);
}

/// A paste key asks the host for the clipboard and changes nothing else.
pub proof fn law_paste_key_reads_clipboard(
    a: App,
    r: UiRuntime,
    facts: ActionFacts,
    b: App,
    s: UiRuntime,
)
    requires
        carried_out(a, r, InputAction::Paste, facts, b, s),
    ensures
        b.outbox@ == a.outbox@.push(Effect::ReadClipboard),
        b.composer == a.composer,
        s == r,
{
    reveal(on_composing);
}

/// A short text that is pasted into the prompt stands at the caret as it is, and
/// the caret behind it.
pub proof fn law_short_paste_goes_inline(a: App, text: String, vision: bool, now: u64, b: App)
    requires
        a.overlay.active_modal == Modal::Closed,
        a.composer.cursor_position <= a.composer.input@.len(),
        a.composer.cursor_position + text@.len() <= usize::MAX,
        pasted(a, ClipboardRead::Text { text, chip_lines: None }, vision, now, b),
    ensures
        b.composer.input@ == a.composer.input@.take(a.composer.cursor_position as int) + text@
            + a.composer.input@.skip(a.composer.cursor_position as int),
        b.composer.cursor_position == a.composer.cursor_position + text@.len(),
        b.composer.pending_text_pastes@ == a.composer.pending_text_pastes@,
        b.composer.pending_images == a.composer.pending_images,
        !b.toast.copy_toast_failed,
{
    let at = a.composer.cursor_position as int;
    let after = crate::clipboard_ops::composer_line(b.composer);
    assert(after.text == b.composer.input@);
    assert(after.caret == b.composer.cursor_position);
    assert(b.composer.input@ =~= a.composer.input@.take(at) + text@ + a.composer.input@.skip(at));
}

/// A long text is staged whole behind the texts that are staged already, and a
/// chip with its number stands at the caret in its place.
pub proof fn law_long_paste_is_staged(
    a: App,
    text: String,
    lines: usize,
    vision: bool,
    now: u64,
    b: App,
)
    requires
        a.overlay.active_modal == Modal::Closed,
        a.composer.cursor_position <= a.composer.input@.len(),
        pasted(a, ClipboardRead::Text { text, chip_lines: Some(lines) }, vision, now, b),
    ensures
        b.composer.pending_text_pastes@ == a.composer.pending_text_pastes@.push(text),
        b.composer.input@ == a.composer.input@.take(a.composer.cursor_position as int)
            + "[Pasted text #"@ + decimal(b.composer.pending_text_pastes@.len()) + " +"@ + decimal(
            lines as nat,
        ) + " lines]"@ + " "@ + a.composer.input@.skip(a.composer.cursor_position as int),
        b.composer.pending_images == a.composer.pending_images,
{
    let at = a.composer.cursor_position as int;
    let after = crate::clipboard_ops::composer_line(b.composer);
    assert(after.text == b.composer.input@);
    assert(b.composer.input@ =~= a.composer.input@.take(at) + "[Pasted text #"@ + decimal(
        b.composer.pending_text_pastes@.len(),
    ) + " +"@ + decimal(lines as nat) + " lines]"@ + " "@ + a.composer.input@.skip(at));
}

/// An image is staged behind the images that are staged already, with a chip at
/// the caret, where the model sees images; where it does not, the line and the
/// staged images stay, and the user is told.
pub proof fn law_image_paste_is_staged(
    a: App,
    data: String,
    mime: String,
    vision: bool,
    now: u64,
    b: App,
)
    requires
        a.overlay.active_modal == Modal::Closed,
        a.composer.cursor_position <= a.composer.input@.len(),
        pasted(a, ClipboardRead::Image { data, mime }, vision, now, b),
    ensures
        vision ==> {
            &&& b.composer.pending_images@.len() == a.composer.pending_images@.len() + 1
            &&& b.composer.pending_images@.drop_last() == a.composer.pending_images@
            &&& b.composer.pending_images@.last().data == data
            &&& b.composer.pending_images@.last().mime == mime
            &&& b.composer.input@ == a.composer.input@.take(a.composer.cursor_position as int)
                + "[Image #"@ + decimal(b.composer.pending_images@.len()) + "]"@ + " "@
                + a.composer.input@.skip(a.composer.cursor_position as int)
        },
        !vision ==> b.composer == a.composer && b.toast.copy_toast_failed
            && b.toast.copy_toast_message@ == a.session.current_model@
            + " does not support images — paste ignored"@,
        now <= u64::MAX - 2000 ==> b.toast.copy_toast_until == Some(
            (now + (if vision {
                1800int
            } else {
                2000int
            })) as u64,
        ),
        vision ==> !b.toast.copy_toast_failed,
        vision && b.composer.pending_images@.len() > 1 ==> b.toast.copy_toast_message@ == decimal(
            b.composer.pending_images@.len(),
        ) + " image"@ + "s"@ + " attached — enter to send"@,
{
    if vision {
        let at = a.composer.cursor_position as int;
        let after = crate::clipboard_ops::composer_line(b.composer);
        assert(after.text == b.composer.input@);
        assert(b.composer.pending_images@.drop_last() =~= a.composer.pending_images@);
        assert(b.composer.input@ =~= a.composer.input@.take(at) + "[Image #"@ + decimal(
            b.composer.pending_images@.len(),
        ) + "]"@ + " "@ + a.composer.input@.skip(at));
    }
}

/// A text that is pasted into a field goes in at the caret, without its line
/// breaks and with everything else; overlays without a field drop it.
pub proof fn law_field_paste(a: App, text: String, chip: Option<usize>, vision: bool, now: u64, b: App)
    requires
        a.overlay.active_modal != Modal::Closed,
        a.composer.cursor_position <= a.composer.input@.len(),
        forall|i: int| 0 <= i < text@.len() ==> text@[i] != '\n' && text@[i] != '\r',
        text@.len() > 0,
        a.composer.cursor_position + text@.len() <= usize::MAX,
        pasted(a, ClipboardRead::Text { text, chip_lines: chip }, vision, now, b),
    ensures
        ({
            let modal = a.overlay.active_modal;
            let field = modal == Modal::HistorySearch || modal == Modal::Provider || modal
                == Modal::ModelEditor || modal == Modal::CustomProvider || modal
                == Modal::AddModel || modal == Modal::InputInjection;
            let at = a.composer.cursor_position as int;
            &&& field ==> b.composer.input@ == a.composer.input@.take(at) + text@
                + a.composer.input@.skip(at) && b.composer.cursor_position == at + text@.len()
            &&& !field ==> b == a
            &&& b.composer.pending_text_pastes == a.composer.pending_text_pastes
        }),
{
    lemma_one_line_whole(text@, text@.len() as int);
    assert(text@.take(text@.len() as int) =~= text@);
    let at = a.composer.cursor_position as int;
    let after = crate::clipboard_ops::composer_line(b.composer);
    assert(after.text == b.composer.input@);
    assert(after.caret == b.composer.cursor_position);
    if b.composer.input@ != a.composer.input@ {
        assert(b.composer.input@ =~= a.composer.input@.take(at) + text@ + a.composer.input@.skip(
            at,
        ));
    }
    assert(a.composer.input@.len() < (a.composer.input@.take(at) + text@ + a.composer.input@.skip(
        at,
    )).len());
}

proof fn lemma_one_line_whole(text: Seq<char>, n: int)
    requires
        0 <= n <= text.len(),
        forall|i: int| 0 <= i < text.len() ==> text[i] != '\n' && text[i] != '\r',
    ensures
        crate::clipboard_ops::one_line(text, n) == text.take(n),
    decreases n,
{
    if n > 0 {
        lemma_one_line_whole(text, n - 1);
        assert(text.take(n - 1).push(text[n - 1]) =~= text.take(n));
    } else {
        assert(text.take(0) =~= Seq::<char>::empty());
    }
}

/// A first press arms the key for twenty frames.
pub proof fn law_keys_stay_armed(a: App, r: UiRuntime, facts: ActionFacts, b: App, s: UiRuntime)
    ensures
        carried_out(a, r, InputAction::Interrupt, facts, b, s) && a.toast.esc_armed_ticks == 0
            ==> b.toast.esc_armed_ticks == 20 && b.toast.ctrl_c_armed_ticks
            == a.toast.ctrl_c_armed_ticks && b.composer == a.composer,
        carried_out(a, r, InputAction::CtrlC, facts, b, s) && selected_in(
            a,
            facts.transcript_text,
        ) is None && a.overlay.active_modal == Modal::Closed && !a.view.in_side_view
            && !b.should_quit && !a.should_quit ==> b.toast.ctrl_c_armed_ticks == 20,
{
    reveal(on_sending);
}

/// Clearing the line says so, and for how long leaving stays armed.
pub proof fn law_cleared_line_is_told(
    a: App,
    r: UiRuntime,
    facts: ActionFacts,
    b: App,
    s: UiRuntime,
)
    requires
        carried_out(a, r, InputAction::CtrlC, facts, b, s),
        selected_in(a, facts.transcript_text) is None,
        a.overlay.active_modal == Modal::Closed,
        !a.view.in_side_view,
        a.composer.input@.len() > 0,
        facts.now <= u64::MAX - 2000,
    ensures
        b.toast.copy_toast_message@ == "input cleared — Ctrl+C again to exit"@,
        !b.toast.copy_toast_failed,
        b.toast.copy_toast_until == Some((facts.now + 2000) as u64),
        b.composer.pending_images == a.composer.pending_images,
        b.composer.pending_text_pastes == a.composer.pending_text_pastes,
        b.composer.input_history == a.composer.input_history,
{
    reveal(on_sending);
}

/// An edit gives the keys back to the line and leaves the history walk where it
/// is.
pub proof fn law_edit_takes_focus_back(
    a: App,
    r: UiRuntime,
    c: char,
    facts: ActionFacts,
    b: App,
    s: UiRuntime,
)
    requires
        carried_out(a, r, InputAction::InsertChar(c), facts, b, s) || carried_out(
            a,
            r,
            InputAction::Backspace,
            facts,
            b,
            s,
        ),
    ensures
        b.view.focused_target is None,
        b.composer.suggestion_index is None,
        !b.composer.completion_dismissed,
        b.composer.input_history == a.composer.input_history,
        b.composer.pending_dispatch == a.composer.pending_dispatch,
        b.outbox == a.outbox,
        s == r,
{
    reveal(on_composing);
}

} // verus!
