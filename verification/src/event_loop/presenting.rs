//! What a frame shows: the decisions that the renderer takes over.
use crate::app::composer::Completion;
use crate::app::navigate::position_of;
use crate::app::navigate::task_ids;
use crate::app::App;
use crate::document::Role;
use crate::document::TranscriptMessage;
use crate::document::UserMessageOrigin;
use crate::layout::InteractiveTarget;
use crate::layout::Rect;
use crate::modal::CompletionKind;
use crate::modal::Modal;
use crate::text::char_count;
use crate::text::same_text;
use crate::text::starts_with_char;
use vstd::prelude::*;

verus! {

/// The text that the line shows: a key is masked, character by character.
pub open spec fn shown_line(a: App) -> Seq<char> {
    if a.overlay.active_modal == Modal::ModelEditor && a.key_editor.editor_field == 0 {
        Seq::new(a.composer.input@.len(), |i: int| '•')
    } else {
        a.composer.input@
    }
}

/// The text that the line shows.
pub fn displayed_input(app: &App) -> (text: String)
    ensures
        text@ == shown_line(*app),
{
    if app.overlay.active_modal == Modal::ModelEditor && app.key_editor.editor_field == 0 {
        let count: usize = char_count(app.composer.input.as_str());
        let mut masked: String = String::new();
        let mut i: usize = 0;
        while i < count
            invariant
                i <= count,
                masked@ == Seq::new(i as nat, |k: int| '•'),
            decreases count - i,
        {
            masked.push('•');
            i += 1;
            proof {
                assert(masked@ =~= Seq::new(i as nat, |k: int| '•'));
            }
        }
        masked
    } else {
        app.composer.input.clone()
    }
}

/// Whether a message is a prompt for the model, not a command.
pub open spec fn is_prompt(message: TranscriptMessage) -> bool {
    message.role == Role::User && message.origin == UserMessageOrigin::Chat
}

/// The prompt that the turn works on: the latest one for the model.
pub open spec fn latest_prompt(messages: Seq<TranscriptMessage>) -> Option<String>
    decreases messages.len(),
{
    if messages.len() == 0 {
        None
    } else if is_prompt(messages.last()) {
        Some(messages.last().raw)
    } else {
        latest_prompt(messages.drop_last())
    }
}

/// The prompt that the turn works on.
pub fn driving_prompt(messages: &[TranscriptMessage]) -> (prompt: Option<String>)
    ensures
        prompt == latest_prompt(messages@),
{
    let mut i: usize = messages.len();
    proof {
        assert(messages@.take(i as int) =~= messages@);
    }
    while i > 0
        invariant
            i <= messages@.len(),
            latest_prompt(messages@) == latest_prompt(messages@.take(i as int)),
        decreases i,
    {
        i -= 1;
        proof {
            assert(messages@.take(i + 1).drop_last() =~= messages@.take(i as int));
        }
        if messages[i].role == Role::User && messages[i].origin == UserMessageOrigin::Chat {
            return Some(messages[i].raw.clone());
        }
    }
    None
}

/// Where the zoomed envoy task stands among the tasks of the conversation:
/// its number, from 1, and their count.
pub open spec fn task_place(a: App) -> Option<(int, int)> {
    let ids = task_ids(a.view.messages@);
    let at = position_of(ids, a.view.focus_stack@.last().call_id@);
    if a.view.focus_stack@.len() == 0 || at >= ids.len() {
        None
    } else {
        Some((at + 1, ids.len() as int))
    }
}

/// Where the zoomed envoy task stands among the tasks of the conversation.
pub fn envoy_place(app: &App) -> (place: Option<(usize, usize)>)
    ensures
        match place {
            Some((number, count)) => task_place(*app) == Some((number as int, count as int)),
            None => task_place(*app) is None,
        },
{
    if app.view.focus_stack.len() == 0 {
        return None;
    }
    let id: &str = app.view.focus_stack[app.view.focus_stack.len() - 1].call_id.as_str();
    let messages: &Vec<TranscriptMessage> = &app.view.messages;
    let total: usize = messages.len();
    let mut count: usize = 0;
    let mut number: usize = 0;
    let mut i: usize = 0;
    while i < total
        invariant
            i <= total,
            total == messages@.len(),
            count <= i,
            number <= count,
            count == task_ids(messages@.take(i as int)).len(),
            ({
                let ids = task_ids(messages@.take(i as int));
                let at = position_of(ids, id@);
                if number == 0 {
                    at == ids.len()
                } else {
                    at == number - 1
                }
            }),
        decreases total - i,
    {
        let ghost before = task_ids(messages@.take(i as int));
        proof {
            assert(messages@.take(i + 1).drop_last() =~= messages@.take(i as int));
            assert(messages@.take(i + 1).last() == messages@[i as int]);
        }
        if messages[i].is_envoy_task() {
            count += 1;
            if let Some(call) = messages[i].tool_step_call_id() {
                proof {
                    let ids = task_ids(messages@.take(i + 1));
                    lemma_position_push(before, ids.last(), id@);
                    assert(ids == before.push(ids.last()));
                }
                if number == 0 && same_text(call, id) {
                    number = count;
                }
            }
        }
        i += 1;
    }
    proof {
        assert(messages@.take(total as int) =~= messages@);
    }
    if number == 0 {
        None
    } else {
        Some((number, count))
    }
}

proof fn lemma_position_push(ids: Seq<String>, last: String, id: Seq<char>)
    ensures
        0 <= position_of(ids, id) <= ids.len(),
        position_of(ids.push(last), id) == (if position_of(ids, id) < ids.len() {
            position_of(ids, id)
        } else if last@ == id {
            ids.len() as int
        } else {
            ids.len() as int + 1
        }),
    decreases ids.len(),
{
    reveal_with_fuel(position_of, 2);
    let all = ids.push(last);
    if ids.len() == 0 {
        assert(all.drop_first() =~= Seq::<String>::empty());
    } else {
        lemma_position_push(ids.drop_first(), last, id);
        assert(all.drop_first() =~= ids.drop_first().push(last));
        assert(all[0] == ids[0]);
    }
}

/// Whether the transcript shows what the pointer and the focus are on: no
/// overlay is open over it, or only the permission sheet.
pub open spec fn is_interactive(a: App) -> bool {
    a.overlay.active_modal == Modal::Closed || a.overlay.active_modal == Modal::Permission
}

/// The step that lights up under the pointer, and the target that shows the
/// focus.
pub fn highlights(app: &App) -> (shown: (Option<usize>, Option<InteractiveTarget>))
    ensures
        shown == (if is_interactive(*app) {
            (app.view.hovered_step, app.view.focused_target)
        } else {
            (None, None)
        }),
{
    if app.overlay.active_modal == Modal::Closed || app.overlay.active_modal
        == Modal::Permission {
        (app.view.hovered_step, app.view.focused_target)
    } else {
        (None, None)
    }
}

/// Whether the hint bar says that the line is a shell command.
pub fn shell_active(app: &App) -> (shell: bool)
    ensures
        shell == (app.view.focused_target is None && app.overlay.active_modal == Modal::Closed
            && app.composer.input@.len() > 0 && app.composer.input@[0] == '!'),
{
    app.view.focused_target.is_none() && app.overlay.active_modal == Modal::Closed
        && starts_with_char(app.composer.input.as_str(), '!')
}

/// The place of the permission sheet: the input box and the hint line below
/// it.
pub fn permission_rect(input: Rect, hint: Rect) -> (rect: Rect)
    requires
        input.height + hint.height <= u16::MAX,
    ensures
        rect == (Rect { height: (input.height + hint.height) as u16, ..input }),
{
    Rect::new(input.x, input.y, input.width, input.height + hint.height)
}

/// Whether the composer shows its caret: the next key goes into the line, and
/// nothing is selected.
pub fn shows_caret(app: &App) -> (shows: bool)
    ensures
        shows == (app.view.focused_target is None && app.overlay.active_modal == Modal::Closed
            && !app.view.selection.covers_something()),
{
    app.view.focused_target.is_none() && app.overlay.active_modal == Modal::Closed
        && !app.view.selection.is_active()
}

/// Whether the completion menu is drawn.
pub fn menu_visible(app: &App, completions: &Vec<Completion>, kind: CompletionKind) -> (visible:
    bool)
    ensures
        visible == (app.overlay.active_modal == Modal::Closed && !app.composer.completion_dismissed
            && kind != CompletionKind::Closed && completions@.len() > 0),
{
    app.overlay.active_modal == Modal::Closed && !app.composer.completion_dismissed && kind
        != CompletionKind::Closed && completions.len() > 0
}

/// The message above the composer.
#[derive(Debug, Clone, Copy, PartialEq, Eq, Structural)]
pub enum ToastLine {
    Hidden,
    /// What happened last.
    Message,
    /// That a second Control+C leaves.
    LeaveArmed,
}

/// The message above the composer: what happened last goes before what is
/// armed.
pub open spec fn toast_shown(a: App) -> ToastLine {
    if a.toast.copy_toast_until is Some {
        ToastLine::Message
    } else if a.toast.ctrl_c_armed_ticks > 0 {
        ToastLine::LeaveArmed
    } else {
        ToastLine::Hidden
    }
}

/// The message above the composer.
pub fn toast_line(app: &App) -> (line: ToastLine)
    ensures
        line == toast_shown(*app),
{
    if app.toast.copy_toast_until.is_some() {
        ToastLine::Message
    } else if app.toast.ctrl_c_armed_ticks > 0 {
        ToastLine::LeaveArmed
    } else {
        ToastLine::Hidden
    }
}

/// Whether the frame says that a second `Esc` interrupts the turn.
pub fn interrupt_armed(app: &App) -> (armed: bool)
    ensures
        armed == (app.toast.esc_armed_ticks > 0),
{
    app.toast.esc_armed_ticks > 0
}

/// How long to wait for the next event, in milliseconds: not at all while
/// events are at hand, briefly while a copy is under way.
pub fn poll_timeout(events_drained: bool, copies_pending: usize) -> (ms: u64)
    ensures
        ms == (if events_drained {
            0u64
        } else if copies_pending > 0 {
            16
        } else {
            100
        }),
{
    if events_drained {
        0
    } else if copies_pending > 0 {
        16
    } else {
        100
    }
}

/// The key being edited is never shown: its mask has the length of the key
/// and nothing else of it.
pub proof fn law_key_is_never_shown(a: App, b: App)
    requires
        a.overlay.active_modal == Modal::ModelEditor,
        a.key_editor.editor_field == 0,
        b.overlay.active_modal == Modal::ModelEditor,
        b.key_editor.editor_field == 0,
        a.composer.input@.len() == b.composer.input@.len(),
    ensures
        shown_line(a) == shown_line(b),
{
}

/// Commands do not count as the prompt that the turn works on.
pub proof fn law_commands_are_no_prompt(messages: Seq<TranscriptMessage>, command: TranscriptMessage)
    requires
        command.origin != UserMessageOrigin::Chat,
    ensures
        latest_prompt(messages.push(command)) == latest_prompt(messages),
{
    assert(messages.push(command).drop_last() =~= messages);
}

} // verus!
