//! What a frame shows of the state, and what the client starts from.
use crate::agent::AgentRequest;
use crate::app::App;
use crate::app::Effect;
use crate::app::composer::Completion;
use crate::clipboard_ops::CopyOutcome;
use crate::clipboard_ops::copy_message;
use crate::clipboard_ops::one_line;
use crate::event_loop::UiRuntime;
use crate::event_loop::dispatch::ActionFacts;
use crate::event_loop::dispatch::ActionGroup;
use crate::event_loop::dispatch::carried_out;
use crate::event_loop::dispatch::group_of;
use crate::event_loop::dispatch::on_sending;
use crate::event_loop::permission::QuestionEffect;
use crate::event_loop::permission::question_effects_applied;
use crate::event_loop::presenting::highlights;
use crate::event_loop::presenting::interrupt_armed;
use crate::event_loop::presenting::menu_visible;
use crate::event_loop::presenting::permission_rect;
use crate::event_loop::presenting::poll_timeout;
use crate::event_loop::presenting::shell_active;
use crate::event_loop::presenting::shows_caret;
use crate::event_loop::sending::serve_started_text;
use crate::input::InputAction;
use crate::layout::InteractiveTarget;
use crate::layout::Rect;
use crate::modal::CompletionKind;
use crate::modal::Modal;
use crate::providers::ModelInfo;
use crate::providers::model_context_window;
use crate::selection::SelectionState;
use crate::status::display_status;
use crate::text::byte_len;
use crate::text::decimal;
use vstd::prelude::*;

verus! {

/// The caret shows only where typing goes into the line: with no overlay, no
/// focused step and no selected text.
pub proof fn law_caret_shows_where_typing_goes(app: App, shows: bool)
    requires
        call_ensures(shows_caret, (&app,), shows),
    ensures
        app.overlay.active_modal != Modal::Closed ==> !shows,
        app.view.focused_target is Some ==> !shows,
        (app.view.selection matches SelectionState::Range { anchor, head } && anchor != head)
            ==> !shows,
        app.overlay.active_modal == Modal::Closed && app.view.focused_target is None
            && app.view.selection == SelectionState::Empty ==> shows,
{
}

/// The hint bar speaks of the shell exactly while the prompt begins with `!` and
/// has the keys.
pub proof fn law_shell_hint(app: App, rest: Seq<char>, c: char, shell: bool)
    requires
        call_ensures(shell_active, (&app,), shell),
    ensures
        app.composer.input@ == seq![c] + rest && app.overlay.active_modal == Modal::Closed
            && app.view.focused_target is None ==> shell == (c == '!'),
        app.composer.input@.len() == 0 ==> !shell,
        app.overlay.active_modal != Modal::Closed || app.view.focused_target is Some ==> !shell,
{
}

/// A menu is drawn only over the prompt, with something to list, and not once it
/// was dismissed.
pub proof fn law_menu_needs_entries(
    app: App,
    completions: Vec<Completion>,
    kind: CompletionKind,
    visible: bool,
)
    requires
        call_ensures(menu_visible, (&app, &completions, kind), visible),
    ensures
        completions@.len() == 0 || kind == CompletionKind::Closed ==> !visible,
        app.composer.completion_dismissed || app.overlay.active_modal != Modal::Closed ==> !visible,
        completions@.len() > 0 && kind != CompletionKind::Closed
            && !app.composer.completion_dismissed && app.overlay.active_modal == Modal::Closed
            ==> visible,
{
}

/// What the pointer and the focus light up goes dark under an overlay, but not
/// under the permission sheet.
pub proof fn law_overlays_hide_highlights(
    app: App,
    shown: (Option<usize>, Option<InteractiveTarget>),
)
    requires
        call_ensures(highlights, (&app,), shown),
    ensures
        app.overlay.active_modal == Modal::Closed || app.overlay.active_modal == Modal::Permission
            ==> shown.0 == app.view.hovered_step && shown.1 == app.view.focused_target,
        app.overlay.active_modal != Modal::Closed && app.overlay.active_modal != Modal::Permission
            ==> shown.0 is None && shown.1 is None,
{
}

/// The permission sheet covers the input box and reaches down over the hint line,
/// and covers nothing else.
pub proof fn law_sheet_covers_input_and_hint(input: Rect, hint: Rect, rect: Rect, x: int, y: int)
    requires
        input.height + hint.height <= u16::MAX,
        hint.x == input.x,
        hint.width == input.width,
        hint.y == input.y + input.height,
        call_ensures(permission_rect, (input, hint), rect),
    ensures
        rect.covers(x, y) <==> input.covers(x, y) || hint.covers(x, y),
{
}

/// The client never waits while events are at hand, and waits less while a copy
/// is under way than while nothing happens.
pub proof fn law_waits(copies: usize, drained: u64, copying: u64, idle: u64)
    requires
        call_ensures(poll_timeout, (true, copies), drained),
        copies > 0,
        call_ensures(poll_timeout, (false, copies), copying),
        call_ensures(poll_timeout, (false, 0usize), idle),
    ensures
        drained == 0,
        0 < copying < idle,
        copying == 16,
        idle == 100,
{
}

/// What the user reads of a copy, whichever way it went: a failure is told with
/// the beginning of its reason.
pub proof fn law_copy_is_told(error: String)
    ensures
        copy_message(Ok(CopyOutcome::Native)) == "copied to clipboard"@,
        copy_message(Ok(CopyOutcome::Osc52)) == "copy sent via OSC52"@,
        error@.len() <= 48 ==> copy_message(Err(error)) == "copy failed: "@ + error@,
        error@.len() > 48 ==> copy_message(Err(error)) == "copy failed: "@ + (error@.take(48)
            + "..."@),
{
}

/// A pasted field keeps every character but the line breaks, in order: pieces
/// without one are joined.
pub proof fn law_field_paste_joins_lines(s: Seq<char>, c: char)
    ensures
        one_line(Seq::empty(), 0).len() == 0,
        c == '\n' || c == '\r' ==> one_line(s.push(c), (s.len() + 1) as int) == one_line(
            s,
            s.len() as int,
        ),
        c != '\n' && c != '\r' ==> one_line(s.push(c), (s.len() + 1) as int) == one_line(
            s,
            s.len() as int,
        ).push(c),
{
    lemma_one_line_prefix(s.push(c), s, s.len() as int);
}

proof fn lemma_one_line_prefix(x: Seq<char>, y: Seq<char>, n: int)
    requires
        0 <= n <= x.len(),
        n <= y.len(),
        forall|i: int| 0 <= i < n ==> x[i] == y[i],
    ensures
        one_line(x, n) == one_line(y, n),
    decreases n,
{
    if n > 0 {
        lemma_one_line_prefix(x, y, n - 1);
    }
}

/// The client starts at the bare prompt: nothing is typed, queued, selected or
/// open, the newest content is followed, and the given history is at hand.
pub proof fn law_client_starts_at_prompt(
    provider: String,
    model: String,
    history: Vec<String>,
    app: App,
)
    requires
        call_ensures(App::new, (provider, model, history), app),
    ensures
        app.composer.input@.len() == 0,
        app.composer.cursor_position == 0,
        app.composer.pending_dispatch@.len() == 0,
        app.composer.pending_images@.len() == 0,
        app.composer.pending_text_pastes@.len() == 0,
        app.composer.stashed_input@.len() == 0,
        app.composer.input_history == history,
        app.composer.history_index is None,
        !app.composer.completion_dismissed,
        app.overlay.active_modal == Modal::Closed,
        app.overlay.modal_index == 0,
        app.view.follow_bottom,
        app.view.selection == SelectionState::Empty,
        app.view.focus_stack@.len() == 0,
        !app.view.in_side_view,
        app.view.focused_target is None,
        app.view.messages@.len() == 0,
        app.screen.layout_map@.regions.len() == 0,
        app.screen.modal_rect is None,
        app.screen.hint_context_rect is None,
        app.permission.pending_permission is None,
        app.question is None,
        app.session.current_provider == provider,
        app.session.current_model == model,
        app.session.loop_status@ == "idle"@,
        app.session.round_count == 0,
        app.session.todos is None,
        app.picker.provider_picker.rows@.len() == 0,
        app.picker.picker_provider is None,
        app.key_editor.editor_effort@ == "high"@,
        app.key_editor.editor_thinking,
        app.toast.copy_toast_until is None,
        app.toast.ctrl_c_armed_ticks == 0,
        app.toast.esc_armed_ticks == 0,
        !app.should_quit,
        app.outbox@.len() == 0,
        crate::app::switching::overlays_settled(app),
{
}

/// A session starts idle, with the given transcript and nothing that waits.
pub proof fn law_session_starts_idle(
    messages: Vec<crate::document::TranscriptMessage>,
    runtime: UiRuntime,
)
    requires
        call_ensures(UiRuntime::new, (messages,), runtime),
    ensures
        runtime.messages == messages,
        runtime.side_messages@.len() == 0,
        !runtime.is_responding,
        runtime.activity_status@.len() == 0,
        runtime.pending_permission@.len() == 0,
        runtime.pending_question@.len() == 0,
        runtime.side_id is None,
        runtime.turn_started_at is None,
{
}

/// Effects of a question are carried out one after the other: the last one acts
/// on what the ones before it left.
pub proof fn law_question_effects_in_order(
    a: App,
    r: UiRuntime,
    first: QuestionEffect,
    second: QuestionEffect,
    m: App,
    n: UiRuntime,
    b: App,
    s: UiRuntime,
)
    ensures
        question_effects_applied(a, r, Seq::empty(), b, s) ==> b == a && s == r,
        question_effects_applied(a, r, seq![first], m, n)
            && crate::event_loop::permission::question_effect_applied(m, n, second, b, s)
            ==> question_effects_applied(a, r, seq![first, second], b, s),
        question_effects_applied(a, r, seq![first], b, s)
            ==> crate::event_loop::permission::question_effect_applied(a, r, first, b, s),
{
    assert(seq![first, second].drop_last() =~= seq![first]);
    assert(seq![first].drop_last() =~= Seq::empty());
    reveal_with_fuel(question_effects_applied, 2);
    let both = seq![first, second];
    if question_effects_applied(a, r, seq![first], m, n)
        && crate::event_loop::permission::question_effect_applied(m, n, second, b, s) {
        assert(question_effects_applied(a, r, both.drop_last(), m, n));
        assert(crate::event_loop::permission::question_effect_applied(m, n, both.last(), b, s));
    }
}

/// The caret in bytes is the size of the text in front of it, and at the end of
/// the line the size of the line.
pub proof fn law_byte_cursor(app: App, front: Seq<char>, rest: Seq<char>, offset: usize)
    requires
        call_ensures(App::byte_cursor, (&app,), offset),
        app.composer.input@ == front + rest,
    ensures
        app.composer.cursor_position == front.len() ==> offset == byte_len(front),
        app.composer.cursor_position >= app.composer.input@.len() ==> offset == byte_len(
            app.composer.input@,
        ),
{
    assert((front + rest).take(front.len() as int) =~= front);
    assert(app.composer.input@.take(app.composer.input@.len() as int) =~= app.composer.input@);
}

/// No caret shows while text is selected, nor while a step or a task has the keys.
pub proof fn law_caret_is_visible(app: App, modal_owns_caret: bool, visible: bool)
    requires
        call_ensures(App::caret_visible, (&app, modal_owns_caret), visible),
    ensures
        (app.view.selection matches SelectionState::Range { anchor, head } && anchor != head)
            ==> !visible,
        app.overlay.active_modal == Modal::Closed && (app.view.focused_target is Some
            || app.view.focus_stack@.len() > 0) ==> !visible,
        app.overlay.active_modal == Modal::Closed && app.view.focused_target is None
            && app.view.focus_stack@.len() == 0 && app.view.selection == SelectionState::Empty
            ==> visible,
        app.overlay.active_modal != Modal::Closed && modal_owns_caret && app.view.selection
            == SelectionState::Empty ==> visible,
{
}

/// A request for permission that waits is what the status line says.
pub proof fn law_waiting_permission_is_shown(
    loop_status: &str,
    activity: &str,
    waiting: bool,
    status: String,
)
    requires
        call_ensures(display_status, (loop_status, activity, waiting), status),
    ensures
        waiting && (loop_status@ == "idle"@ || loop_status@ == "running"@) ==> status@
            == "awaiting permission"@,
        !waiting && activity@.len() > 0 && (loop_status@ == "idle"@ || loop_status@ == "running"@)
            ==> status@ == activity@,
        !waiting && activity@.len() == 0 && loop_status@ == "idle"@ ==> status@ == "idle"@,
        !waiting && activity@.len() == 0 && loop_status@ == "running"@ ==> status@ == "preparing"@,
{
    reveal_strlit("awaiting permission");
    reveal_strlit("idle");
    reveal_strlit("running");
    assert("idle"@[0] != "running"@[0]);
}

/// A second `Esc` is announced exactly while it would interrupt.
pub proof fn law_interrupt_is_announced(
    app: App,
    armed: bool,
    r: UiRuntime,
    facts: ActionFacts,
    b: App,
    s: UiRuntime,
)
    requires
        call_ensures(interrupt_armed, (&app,), armed),
        carried_out(app, r, InputAction::Interrupt, facts, b, s),
    ensures
        armed ==> b.outbox@ == app.outbox@.push(Effect::Send(AgentRequest::Interrupt)),
        !armed ==> b.outbox@ == app.outbox@,
{
    reveal(on_sending);
}

/// The context window of a registered model is its own, and that of another one
/// is not known.
pub proof fn law_context_window(registry: Vec<ModelInfo>, model: &str, tokens: usize)
    requires
        call_ensures(model_context_window, (&registry, model), tokens),
    ensures
        registry@.len() > 0 && registry@[0].id@ == model@ ==> tokens
            == registry@[0].context_window,
        (forall|k: int| 0 <= k < registry@.len() ==> (#[trigger] registry@[k]).id@ != model@)
            ==> tokens == 0,
{
    if forall|k: int| 0 <= k < registry@.len() ==> (#[trigger] registry@[k]).id@ != model@ {
        crate::app::editing_laws::lemma_no_model_entry(registry@, model@);
    }
}

/// An announced server names its port twice: alone and in its address.
pub proof fn law_server_is_announced(port: nat)
    ensures
        serve_started_text(port) == "Serve mode started on port "@ + decimal(port)
            + ". Open ws://localhost:"@ + decimal(port) + " in a WebSocket client."@,
{
}

/// What only the host can do is left to the host, and changes nothing here.
pub proof fn law_host_does_the_rest(
    action: InputAction,
    a: App,
    r: UiRuntime,
    facts: ActionFacts,
    b: App,
    s: UiRuntime,
)
    requires
        action is SubmitCustomProvider || action is CancelCustomProvider || action is
            CustomProviderNextField || action is CustomProviderPrevField || action is
            MoveCustomSuggestion || action is MoveProviderTemplate || action is
            SelectProviderTemplate || action is CancelProviderTemplate || action is
            ProviderPickerRemoveModel || action is DeleteProvider || action is MoveAddModel ||
            action is SubmitAddModel || action is CancelAddModel || action is SkillsReload ||
            action is McpToggle || action is McpReconnect || action is ConfigActivate || action
            is ConfigBack || action is ConfigNudgeToggle || action is ConfigNudgeAdjust ||
            action is ConfigLayoutApply || action is TokenReportActivate || action is
            DebugActivate || action is InputSubmit || action is InputCancel || action is
            TerminalResized,
    ensures
        group_of(action) == ActionGroup::Host,
        carried_out(a, r, action, facts, b, s) ==> b == a && s == r,
{
}

} // verus!
