//! What the keys are for: what each one does to the line and what it asks for.
use crate::attachments::chip_before;
use crate::input::action::ActionView;
use crate::input::action::InputAction;
use crate::input::context::InputContext;
use crate::input::drag_after;
use crate::input::editing::Line;
use crate::input::events::Event;
use crate::input::events::KeyCode;
use crate::input::events::KeyEvent;
use crate::input::events::KeyModifiers;
use crate::input::events::MouseButton;
use crate::input::events::MouseEventKind;
use crate::input::keys::Outcome;
use crate::input::on_event;
use crate::modal::CompletionKind;
use crate::modal::Modal;
use crate::motion::lemma_line_end_bounds;
use crate::motion::lemma_line_start_bounds;
use crate::selection::SelectionDrag;
use crate::text::is_blank;
use vstd::prelude::*;

verus! {

/// What a key does.
pub open spec fn pressed(key: KeyEvent, line: Line, ctx: InputContext) -> Outcome {
    on_event(Event::Key(key), line, ctx, false)
}

/// Whether a key asks for `action` and leaves the line alone.
pub open spec fn asks(o: Outcome, action: InputAction, line: Line) -> bool {
    o.action == ActionView::Plain(action) && o.line == line
}

/// Whether a key does nothing but change the line.
pub open spec fn quiet(o: Outcome) -> bool {
    o.action == ActionView::Plain(InputAction::Ignored)
}

/// Whether no modifier is held down.
pub open spec fn unmodified(modifiers: KeyModifiers) -> bool {
    !modifiers.shift && !modifiers.control && !modifiers.alt && !modifiers.super_key
}

/// Whether a menu of suggestions is up.
pub open spec fn suggesting(ctx: InputContext) -> bool {
    ctx.completion_kind != CompletionKind::Closed && ctx.suggestion_count > 0
}

/// Whether the main prompt has the keyboard to itself.
pub open spec fn bare_prompt(ctx: InputContext) -> bool {
    &&& ctx.active_modal == Modal::Closed
    &&& !ctx.in_side_view
    &&& !ctx.in_envoy_view
    &&& !ctx.has_focused_target
    &&& !suggesting(ctx)
}

/// Whether the keys edit the line: the main prompt and the overlays with a
/// field of their own, the lists only while they are searched.
pub open spec fn line_is_open(ctx: InputContext) -> bool {
    ||| ctx.active_modal == Modal::Closed
    ||| ctx.active_modal == Modal::ModelEditor
    ||| ctx.active_modal == Modal::AddModel
    ||| ctx.active_modal == Modal::InputInjection
    ||| ctx.active_modal == Modal::Provider && ctx.model_searching
    ||| ctx.active_modal == Modal::HistorySearch && ctx.history_searching
    ||| ctx.active_modal == Modal::CustomProvider && ctx.custom_provider_field is Some
}

/// `Esc` never changes the line.
pub proof fn law_escape_keeps_line(key: KeyEvent, line: Line, ctx: InputContext)
    requires
        key.code == KeyCode::Esc,
    ensures
        pressed(key, line, ctx).line == line,
{
}

/// On the bare prompt `Esc` interrupts exactly when a turn runs.
pub proof fn law_escape_interrupts_running_turn(key: KeyEvent, line: Line, ctx: InputContext)
    requires
        key.code == KeyCode::Esc,
        bare_prompt(ctx),
    ensures
        ctx.is_responding <==> asks(pressed(key, line, ctx), InputAction::Interrupt, line),
        !ctx.is_responding ==> asks(pressed(key, line, ctx), InputAction::Ignored, line),
{
}

/// While something stands in front of the prompt, `Esc` undoes that and never
/// interrupts: the side view goes first, then the envoy view, then the focus,
/// then the menu.
pub proof fn law_escape_undoes_innermost(key: KeyEvent, line: Line, ctx: InputContext)
    requires
        key.code == KeyCode::Esc,
        ctx.active_modal == Modal::Closed,
    ensures
        ctx.in_side_view ==> asks(pressed(key, line, ctx), InputAction::ExitSideView, line),
        !ctx.in_side_view && ctx.in_envoy_view ==> asks(
            pressed(key, line, ctx),
            InputAction::ExitEnvoy,
            line,
        ),
        !ctx.in_side_view && !ctx.in_envoy_view && ctx.has_focused_target ==> asks(
            pressed(key, line, ctx),
            InputAction::ClearFocusedTarget,
            line,
        ),
        !ctx.in_side_view && !ctx.in_envoy_view && !ctx.has_focused_target && suggesting(ctx)
            ==> asks(pressed(key, line, ctx), InputAction::CloseCompletion, line),
{
}

/// `Esc` in an overlay steps back one layer or closes it, and never interrupts.
pub proof fn law_escape_backs_out_of_overlay(key: KeyEvent, line: Line, ctx: InputContext)
    requires
        key.code == KeyCode::Esc,
        ctx.active_modal != Modal::Closed,
    ensures
        ({
            let o = pressed(key, line, ctx);
            let modal = ctx.active_modal;
            &&& o.action != ActionView::Plain(InputAction::Interrupt)
            &&& !quiet(o)
            &&& modal == Modal::Permission && ctx.permission_confirm_always ==> asks(
                o,
                InputAction::PermissionBack,
                line,
            )
            &&& modal == Modal::Permission && !ctx.permission_confirm_always
                && ctx.has_focused_target ==> asks(o, InputAction::ClearFocusedTarget, line)
            &&& modal == Modal::Permission && !ctx.permission_confirm_always
                && !ctx.has_focused_target ==> asks(o, InputAction::PermissionReject, line)
            &&& modal == Modal::Question ==> asks(o, InputAction::QuestionCancel, line)
            &&& modal == Modal::InputInjection ==> asks(o, InputAction::InputCancel, line)
            &&& modal == Modal::ProviderTemplate ==> asks(
                o,
                InputAction::CancelProviderTemplate,
                line,
            )
            &&& modal == Modal::CustomProvider ==> asks(o, InputAction::CancelCustomProvider, line)
            &&& modal == Modal::AddModel ==> asks(o, InputAction::CancelAddModel, line)
            &&& modal == Modal::ConfigNudge || modal == Modal::ConfigLayout ==> asks(
                o,
                InputAction::ConfigBack,
                line,
            )
            &&& modal == Modal::HistorySearch ==> asks(
                o,
                if ctx.history_searching {
                    InputAction::HistoryExitSearch
                } else {
                    InputAction::CloseModal
                },
                line,
            )
            &&& modal == Modal::Help || modal == Modal::Tools || modal == Modal::Mcp || modal
                == Modal::Skills || modal == Modal::Permissions || modal == Modal::Config || modal
                == Modal::Sessions || modal == Modal::Activity || modal == Modal::TokenReport
                || modal == Modal::Debug || modal == Modal::ModelEditor ==> asks(
                o,
                InputAction::CloseModal,
                line,
            )
        }),
{
}

/// `Enter` on the prompt sends what is typed, as it is typed, and leaves an
/// empty line: a prompt as a message, a line behind `!` as a shell command, one
/// behind `/` as a command.
pub proof fn law_enter_sends_line(key: KeyEvent, line: Line, ctx: InputContext)
    requires
        key.code == KeyCode::Enter,
        !key.modifiers.alt,
        ctx.active_modal == Modal::Closed,
        !ctx.has_focused_target,
        ctx.completion_kind == CompletionKind::Closed,
        line.text.len() > 0,
    ensures
        ({
            let o = pressed(key, line, ctx);
            let text = line.text;
            &&& o.line.text.len() == 0
            &&& o.line.caret == 0
            &&& text[0] != '/' && text[0] != '!' ==> o.action == ActionView::SendChat(text)
            &&& text[0] == '!' ==> match o.action {
                ActionView::SendShell(command) => {
                    let gap = text.len() - command.len();
                    &&& command.len() > 0
                    &&& gap >= 1
                    &&& command == text.skip(gap)
                    &&& !is_blank(command[0])
                    &&& forall|i: int| 1 <= i < gap ==> is_blank(#[trigger] text[i])
                },
                _ => quiet(o) && forall|i: int| 1 <= i < text.len() ==> is_blank(#[trigger] text[i]),
            }
            &&& text[0] == '/' ==> (o.action matches ActionView::SendSlash(command) ==> command
                == text)
            &&& text[0] == '/' ==> !(o.action is SendChat || o.action is SendShell)
        }),
{
    let text = line.text;
    if text[0] == '!' {
        let rest = text.drop_first();
        lemma_leading_run(rest);
        let n = crate::text::leading_blanks(rest) as int;
        assert(rest.skip(n) =~= text.skip(n + 1));
        assert forall|i: int| 1 <= i < n + 1 implies is_blank(#[trigger] text[i]) by {
            assert(rest[i - 1] == text[i]);
        }
        if n == rest.len() {
            assert(rest.skip(n).len() == 0);
        } else {
            assert(text.skip(n + 1)[0] == rest[n]);
        }
    }
}

/// The leading run of blanks is one: it holds blanks only, and what stands
/// behind it is none.
pub proof fn lemma_leading_run(s: Seq<char>)
    ensures
        crate::text::leading_blanks(s) <= s.len(),
        forall|i: int| 0 <= i < crate::text::leading_blanks(s) ==> is_blank(#[trigger] s[i]),
        crate::text::leading_blanks(s) < s.len() ==> !is_blank(
            s[crate::text::leading_blanks(s) as int],
        ),
    decreases s.len(),
{
    if s.len() > 0 && is_blank(s[0]) {
        let rest = s.drop_first();
        lemma_leading_run(rest);
        assert forall|i: int| 0 <= i < crate::text::leading_blanks(s) implies is_blank(
            #[trigger] s[i],
        ) by {
            if i > 0 {
                assert(rest[i - 1] == s[i]);
            }
        }
    }
}

/// Whether `text` is `name` with nothing but blanks behind it.
pub open spec fn is_padded(text: Seq<char>, name: Seq<char>) -> bool {
    &&& name.len() <= text.len()
    &&& text.take(name.len() as int) == name
    &&& forall|i: int| name.len() <= i < text.len() ==> is_blank(#[trigger] text[i])
}

proof fn lemma_padded(text: Seq<char>, name: Seq<char>)
    requires
        is_padded(text, name),
        name.len() > 0,
        !is_blank(name[0]),
        !is_blank(name.last()),
    ensures
        crate::text::trimmed(text) == name,
{
    assert(text[0] == text.take(name.len() as int)[0]);
    assert(text[name.len() - 1] == text.take(name.len() as int)[name.len() - 1]);
    crate::text::lemma_leading_blanks_unique(text, 0);
    assert(text.skip(0) =~= text);
    crate::text::lemma_end_of_text_unique(text, name.len() as int);
}

/// The commands that this client carries out itself open their overlay or leave
/// the program, and are never sent.
pub proof fn law_local_commands(key: KeyEvent, line: Line, ctx: InputContext)
    requires
        key.code == KeyCode::Enter,
        !key.modifiers.alt,
        ctx.active_modal == Modal::Closed,
        !ctx.has_focused_target,
        ctx.completion_kind == CompletionKind::Closed,
    ensures
        ({
            let o = pressed(key, line, ctx);
            let text = line.text;
            &&& is_padded(text, "/provider"@) ==> o.action == ActionView::Plain(
                InputAction::OpenProvider,
            )
            &&& is_padded(text, "/permissions"@) ==> o.action == ActionView::Plain(
                InputAction::OpenPermissions,
            )
            &&& is_padded(text, "/tools"@) ==> o.action == ActionView::Plain(
                InputAction::OpenTools,
            )
            &&& is_padded(text, "/mcp"@) ==> o.action == ActionView::Plain(InputAction::OpenMcp)
            &&& is_padded(text, "/skills"@) ==> o.action == ActionView::Plain(
                InputAction::OpenSkills,
            )
            &&& is_padded(text, "/config"@) ==> o.action == ActionView::Plain(
                InputAction::OpenConfig,
            )
            &&& is_padded(text, "/exit"@) ==> o.action == ActionView::Plain(InputAction::Quit)
        }),
{
    reveal_strlit("/provider");
    reveal_strlit("/permissions");
    reveal_strlit("/tools");
    reveal_strlit("/mcp");
    reveal_strlit("/skills");
    reveal_strlit("/config");
    reveal_strlit("/exit");
    let text = line.text;
    assert("/tools"@[1] != "/exit"@[1]);
    assert("/tools"@[1] != "/skills"@[1]);
    assert("/skills"@[1] != "/config"@[1]);
    if is_padded(text, "/provider"@) {
        lemma_padded(text, "/provider"@);
        assert(text[0] == text.take(9)[0]);
    }
    if is_padded(text, "/permissions"@) {
        lemma_padded(text, "/permissions"@);
        assert(text[0] == text.take(12)[0]);
    }
    if is_padded(text, "/tools"@) {
        lemma_padded(text, "/tools"@);
        assert(text[0] == text.take(6)[0]);
    }
    if is_padded(text, "/mcp"@) {
        lemma_padded(text, "/mcp"@);
        assert(text[0] == text.take(4)[0]);
    }
    if is_padded(text, "/skills"@) {
        lemma_padded(text, "/skills"@);
        assert(text[0] == text.take(7)[0]);
    }
    if is_padded(text, "/config"@) {
        lemma_padded(text, "/config"@);
        assert(text[0] == text.take(7)[0]);
    }
    if is_padded(text, "/exit"@) {
        lemma_padded(text, "/exit"@);
        assert(text[0] == text.take(5)[0]);
    }
}

/// Any other command is sent to the agent as it is typed.
pub proof fn law_other_commands_are_sent(key: KeyEvent, line: Line, ctx: InputContext)
    requires
        key.code == KeyCode::Enter,
        !key.modifiers.alt,
        ctx.active_modal == Modal::Closed,
        !ctx.has_focused_target,
        ctx.completion_kind == CompletionKind::Closed,
        line.text.len() > 0,
        line.text[0] == '/',
        !is_padded(line.text, "/provider"@),
        !is_padded(line.text, "/permissions"@),
        !is_padded(line.text, "/tools"@),
        !is_padded(line.text, "/mcp"@),
        !is_padded(line.text, "/skills"@),
        !is_padded(line.text, "/config"@),
        !is_padded(line.text, "/exit"@),
    ensures
        pressed(key, line, ctx).action == ActionView::SendSlash(line.text),
{
    lemma_trimmed_pads(line.text);
}

proof fn lemma_trimmed_pads(text: Seq<char>)
    requires
        text.len() > 0,
        !is_blank(text[0]),
    ensures
        is_padded(text, crate::text::trimmed(text)),
{
    crate::text::lemma_leading_blanks_unique(text, 0);
    assert(text.skip(0) =~= text);
    lemma_trailing_run(text);
    let n = crate::text::end_of_text(text) as int;
    assert(text.take(n).len() == n);
}

proof fn lemma_trailing_run(s: Seq<char>)
    ensures
        crate::text::end_of_text(s) <= s.len(),
        forall|i: int| crate::text::end_of_text(s) <= i < s.len() ==> is_blank(#[trigger] s[i]),
        crate::text::end_of_text(s) > 0 ==> !is_blank(s[crate::text::end_of_text(s) - 1]),
    decreases s.len(),
{
    if s.len() > 0 && is_blank(s.last()) {
        let rest = s.drop_last();
        lemma_trailing_run(rest);
        assert forall|i: int| crate::text::end_of_text(s) <= i < s.len() implies is_blank(
            #[trigger] s[i],
        ) by {
            if i < rest.len() {
                assert(rest[i] == s[i]);
            }
        }
    }
}

/// `Enter` on an empty prompt sends nothing.
pub proof fn law_enter_on_empty_prompt(key: KeyEvent, line: Line, ctx: InputContext)
    requires
        key.code == KeyCode::Enter,
        !key.modifiers.alt,
        ctx.active_modal == Modal::Closed,
        !ctx.has_focused_target,
        ctx.completion_kind == CompletionKind::Closed,
        line.text.len() == 0,
    ensures
        quiet(pressed(key, line, ctx)),
        pressed(key, line, ctx).line.text.len() == 0,
{
}

/// `Enter` activates a focused step before anything else.
pub proof fn law_enter_activates_focus(key: KeyEvent, line: Line, ctx: InputContext)
    requires
        key.code == KeyCode::Enter,
        !key.modifiers.alt,
        ctx.active_modal == Modal::Closed,
        ctx.has_focused_target,
    ensures
        asks(pressed(key, line, ctx), InputAction::ActivateFocusedTarget, line),
{
}

/// `Enter` commits the highlighted suggestion, or the first command where none
/// is highlighted and the line is no command of its own; the line stays.
pub proof fn law_enter_commits_suggestion(key: KeyEvent, line: Line, ctx: InputContext)
    requires
        key.code == KeyCode::Enter,
        !key.modifiers.alt,
        ctx.active_modal == Modal::Closed,
        !ctx.has_focused_target,
        suggesting(ctx),
    ensures
        ({
            let o = pressed(key, line, ctx);
            &&& ctx.suggestion_index is Some ==> (o.action matches ActionView::CommitSuggestion(
                index,
            ) && index == crate::text::decimal(ctx.suggestion_index->Some_0 as nat)) && o.line
                == line
            &&& ctx.suggestion_index is None && ctx.completion_kind == CompletionKind::Slash
                && !ctx.has_exact_suggestion ==> (o.action matches ActionView::CommitSuggestion(
                index,
            ) && index == "0"@) && o.line == line
        }),
{
}

/// Alt+Enter and Control+J break the line at the caret of the prompt, and do
/// nothing in an overlay.
pub proof fn law_line_break_keys(key: KeyEvent, line: Line, ctx: InputContext)
    requires
        0 <= line.caret <= line.text.len(),
        (key.code == KeyCode::Enter && key.modifiers.alt) || (key.code == KeyCode::Char('j')
            && key.modifiers.control),
    ensures
        quiet(pressed(key, line, ctx)),
        ctx.active_modal != Modal::Closed ==> pressed(key, line, ctx).line == line,
        ctx.active_modal == Modal::Closed ==> pressed(key, line, ctx).line == (Line {
            text: line.text.take(line.caret).push('\n') + line.text.skip(line.caret),
            caret: line.caret + 1,
        }),
{
    if ctx.active_modal == Modal::Closed {
        assert(pressed(key, line, ctx).line.text =~= line.text.take(line.caret).push('\n')
            + line.text.skip(line.caret));
    }
}

/// `Enter` in an overlay carries its selected row out.
pub proof fn law_enter_in_overlay(key: KeyEvent, line: Line, ctx: InputContext)
    requires
        key.code == KeyCode::Enter,
        !key.modifiers.alt,
        ctx.active_modal != Modal::Closed,
    ensures
        ({
            let o = pressed(key, line, ctx);
            let modal = ctx.active_modal;
            &&& o.line == line
            &&& modal == Modal::Provider ==> asks(o, InputAction::ProviderPickerActivate, line)
            &&& modal == Modal::ModelEditor ==> asks(o, InputAction::SubmitModelEditor, line)
            &&& modal == Modal::CustomProvider ==> asks(o, InputAction::SubmitCustomProvider, line)
            &&& modal == Modal::ProviderTemplate ==> asks(
                o,
                InputAction::SelectProviderTemplate,
                line,
            )
            &&& modal == Modal::AddModel ==> asks(o, InputAction::SubmitAddModel, line)
            &&& modal == Modal::HistorySearch ==> asks(o, InputAction::HistoryInsert, line)
            &&& modal == Modal::Sessions ==> asks(o, InputAction::OpenSelectedSession, line)
            &&& modal == Modal::Permission ==> asks(o, InputAction::PermissionSubmit, line)
            &&& modal == Modal::Question ==> asks(o, InputAction::QuestionSubmit, line)
            &&& modal == Modal::InputInjection ==> asks(o, InputAction::InputSubmit, line)
            &&& modal == Modal::Skills ==> asks(o, InputAction::SkillsToggleDetail, line)
            &&& modal == Modal::Config ==> asks(o, InputAction::ConfigActivate, line)
            &&& modal == Modal::ConfigNudge ==> asks(o, InputAction::ConfigNudgeToggle, line)
            &&& modal == Modal::ConfigLayout ==> asks(o, InputAction::ConfigLayoutApply, line)
            &&& modal == Modal::TokenReport ==> asks(o, InputAction::TokenReportActivate, line)
            &&& modal == Modal::Debug ==> asks(o, InputAction::DebugActivate, line)
            &&& modal == Modal::Help || modal == Modal::Tools || modal == Modal::Mcp || modal
                == Modal::Permissions || modal == Modal::Activity ==> asks(
                o,
                InputAction::CloseModal,
                line,
            )
        }),
{
}

/// A character goes in at the caret wherever the line is open and the overlay
/// gives it no meaning of its own, and everything around it stays.
pub proof fn law_typing_inserts_at_caret(key: KeyEvent, c: char, line: Line, ctx: InputContext)
    requires
        key.code == KeyCode::Char(c),
        unmodified(key.modifiers),
        0 <= line.caret <= line.text.len(),
        line_is_open(ctx),
        ctx.active_modal == Modal::ModelEditor ==> ctx.editor_field != Some(2u8),
        !(ctx.active_modal == Modal::Closed && ctx.in_envoy_view && line.text.len() == 0 && (c
            == '[' || c == ']')),
    ensures
        ({
            let o = pressed(key, line, ctx);
            &&& o.action == ActionView::Plain(InputAction::InsertChar(c))
            &&& o.line.text == line.text.take(line.caret).push(c) + line.text.skip(line.caret)
            &&& o.line.caret == line.caret + 1
        }),
{
    assert(pressed(key, line, ctx).line.text =~= line.text.take(line.caret).push(c)
        + line.text.skip(line.caret));
}

/// Only where the line is open does a key or a paste reach it.
pub proof fn law_closed_line_takes_nothing(event: Event, line: Line, ctx: InputContext)
    requires
        !line_is_open(ctx),
    ensures
        on_event(event, line, ctx, false).line == line,
        !(on_event(event, line, ctx, false).action is BracketedPaste),
{
}

/// A paste is handed on as it came wherever the line is open.
pub proof fn law_paste_is_handed_on(text: String, line: Line, ctx: InputContext, dragging: bool)
    requires
        line_is_open(ctx),
    ensures
        on_event(Event::Paste(text), line, ctx, dragging).action == ActionView::BracketedPaste(
            text@,
        ),
        on_event(Event::Paste(text), line, ctx, dragging).line == line,
{
}

/// A plain `Backspace` removes the one character before the caret, where no
/// chip ends there.
pub proof fn law_backspace_removes_one(key: KeyEvent, line: Line, ctx: InputContext)
    requires
        key.code == KeyCode::Backspace,
        !key.modifiers.control,
        !key.modifiers.alt,
        line_is_open(ctx),
        0 <= line.caret <= line.text.len(),
        chip_before(line.text, line.caret) is None,
    ensures
        line.caret == 0 ==> asks(pressed(key, line, ctx), InputAction::Ignored, line),
        line.caret > 0 ==> pressed(key, line, ctx).action == ActionView::Plain(
            InputAction::Backspace,
        ) && pressed(key, line, ctx).line == (Line {
            text: line.text.take(line.caret - 1) + line.text.skip(line.caret),
            caret: line.caret - 1,
        }),
{
    if line.caret > 0 {
        assert(pressed(key, line, ctx).line.text =~= line.text.take(line.caret - 1)
            + line.text.skip(line.caret));
    }
}

/// Whether `[from, to)` is a word with the blanks behind it: blanks up to `to`,
/// the word in front of them, and a blank or the start before that.
pub open spec fn is_word_back(s: Seq<char>, from: int, gap: int, to: int) -> bool {
    &&& 0 <= from <= gap <= to <= s.len()
    &&& forall|i: int| gap <= i < to ==> is_blank(#[trigger] s[i])
    &&& forall|i: int| from <= i < gap ==> !is_blank(#[trigger] s[i])
    &&& gap > 0 ==> from < gap
    &&& from > 0 ==> is_blank(s[from - 1])
}

/// Whether `[from, to)` is a word with the blanks in front of it.
pub open spec fn is_word_ahead(s: Seq<char>, from: int, gap: int, to: int) -> bool {
    &&& 0 <= from <= gap <= to <= s.len()
    &&& forall|i: int| from <= i < gap ==> is_blank(#[trigger] s[i])
    &&& forall|i: int| gap <= i < to ==> !is_blank(#[trigger] s[i])
    &&& gap < s.len() ==> gap < to
    &&& to < s.len() ==> is_blank(s[to])
}

proof fn lemma_back_blanks(s: Seq<char>, p: int)
    requires
        0 <= p <= s.len(),
    ensures
        ({
            let g = crate::motion::back_over_blanks(s, p);
            &&& 0 <= g <= p
            &&& forall|i: int| g <= i < p ==> is_blank(#[trigger] s[i])
            &&& g > 0 ==> !is_blank(s[g - 1])
        }),
    decreases p,
{
    if p > 0 && is_blank(s[p - 1]) {
        lemma_back_blanks(s, p - 1);
    }
}

proof fn lemma_back_word(s: Seq<char>, p: int)
    requires
        0 <= p <= s.len(),
    ensures
        ({
            let g = crate::motion::back_over_word(s, p);
            &&& 0 <= g <= p
            &&& forall|i: int| g <= i < p ==> !is_blank(#[trigger] s[i])
            &&& g > 0 ==> is_blank(s[g - 1])
            &&& p > 0 && !is_blank(s[p - 1]) ==> g < p
        }),
    decreases p,
{
    if p > 0 && !is_blank(s[p - 1]) {
        lemma_back_word(s, p - 1);
    }
}

proof fn lemma_ahead_blanks(s: Seq<char>, p: int)
    requires
        0 <= p <= s.len(),
    ensures
        ({
            let g = crate::motion::over_blanks(s, p);
            &&& p <= g <= s.len()
            &&& forall|i: int| p <= i < g ==> is_blank(#[trigger] s[i])
            &&& g < s.len() ==> !is_blank(s[g])
        }),
    decreases s.len() - p,
{
    if p < s.len() && is_blank(s[p]) {
        lemma_ahead_blanks(s, p + 1);
    }
}

proof fn lemma_ahead_word(s: Seq<char>, p: int)
    requires
        0 <= p <= s.len(),
    ensures
        ({
            let g = crate::motion::over_word(s, p);
            &&& p <= g <= s.len()
            &&& forall|i: int| p <= i < g ==> !is_blank(#[trigger] s[i])
            &&& g < s.len() ==> is_blank(s[g])
            &&& p < s.len() && !is_blank(s[p]) ==> p < g
        }),
    decreases s.len() - p,
{
    if p < s.len() && !is_blank(s[p]) {
        lemma_ahead_word(s, p + 1);
    }
}

/// Whether a key goes back by a word.
pub open spec fn goes_word_back(key: KeyEvent) -> bool {
    ||| key.code == KeyCode::Left && (key.modifiers.control || key.modifiers.alt)
    ||| key.code == KeyCode::Char('b') && key.modifiers.alt && !key.modifiers.control
}

/// Whether a key goes ahead by a word.
pub open spec fn goes_word_ahead(key: KeyEvent) -> bool {
    ||| key.code == KeyCode::Right && (key.modifiers.control || key.modifiers.alt)
    ||| key.code == KeyCode::Char('f') && key.modifiers.alt && !key.modifiers.control
}

/// A word motion back lands on the start of the word before the caret, and the
/// text stays.
pub proof fn law_word_motion_back(key: KeyEvent, line: Line, ctx: InputContext)
    requires
        goes_word_back(key),
        ctx.active_modal == Modal::Closed,
        0 <= line.caret <= line.text.len(),
    ensures
        ({
            let o = pressed(key, line, ctx);
            &&& quiet(o)
            &&& o.line.text == line.text
            &&& exists|gap: int| is_word_back(line.text, o.line.caret, gap, line.caret)
        }),
{
    let gap = crate::motion::back_over_blanks(line.text, line.caret);
    lemma_back_blanks(line.text, line.caret);
    lemma_back_word(line.text, gap);
    let o = pressed(key, line, ctx);
    assert(is_word_back(line.text, o.line.caret, gap, line.caret));
}

/// A word motion ahead lands behind the word behind the caret, and the text
/// stays.
pub proof fn law_word_motion_ahead(key: KeyEvent, line: Line, ctx: InputContext)
    requires
        goes_word_ahead(key),
        ctx.active_modal == Modal::Closed,
        0 <= line.caret <= line.text.len(),
    ensures
        ({
            let o = pressed(key, line, ctx);
            &&& quiet(o)
            &&& o.line.text == line.text
            &&& exists|gap: int| is_word_ahead(line.text, line.caret, gap, o.line.caret)
        }),
{
    let gap = crate::motion::over_blanks(line.text, line.caret);
    lemma_ahead_blanks(line.text, line.caret);
    lemma_ahead_word(line.text, gap);
    let o = pressed(key, line, ctx);
    assert(is_word_ahead(line.text, line.caret, gap, o.line.caret));
}

/// Deleting a word back removes that word and the blanks behind it, and leaves
/// the caret where they stood; at the start there is nothing to remove.
pub proof fn law_word_deletion_back(key: KeyEvent, line: Line, ctx: InputContext)
    requires
        key.code == KeyCode::Char('w') && key.modifiers.control,
        line_is_open(ctx),
        0 <= line.caret <= line.text.len(),
    ensures
        line.caret == 0 ==> asks(pressed(key, line, ctx), InputAction::Ignored, line),
        line.caret > 0 ==> ({
            let o = pressed(key, line, ctx);
            &&& o.action == ActionView::Plain(InputAction::Backspace)
            &&& o.line.text == line.text.take(o.line.caret) + line.text.skip(line.caret)
            &&& exists|gap: int| is_word_back(line.text, o.line.caret, gap, line.caret)
        }),
{
    let gap = crate::motion::back_over_blanks(line.text, line.caret);
    lemma_back_blanks(line.text, line.caret);
    lemma_back_word(line.text, gap);
    if line.caret > 0 {
        let o = pressed(key, line, ctx);
        assert(is_word_back(line.text, o.line.caret, gap, line.caret));
        assert(o.line.text =~= line.text.take(o.line.caret) + line.text.skip(line.caret));
    }
}

/// Deleting a word ahead removes the blanks behind the caret and the word behind
/// them; the caret stays.
pub proof fn law_word_deletion_ahead(key: KeyEvent, line: Line, ctx: InputContext)
    requires
        key.code == KeyCode::Char('d') && key.modifiers.alt && !key.modifiers.control,
        line_is_open(ctx),
        0 <= line.caret <= line.text.len(),
    ensures
        line.caret == line.text.len() ==> asks(
            pressed(key, line, ctx),
            InputAction::Ignored,
            line,
        ),
        line.caret < line.text.len() ==> ({
            let o = pressed(key, line, ctx);
            &&& o.action == ActionView::Plain(InputAction::Backspace)
            &&& o.line.caret == line.caret
            &&& exists|gap: int, end: int|
                is_word_ahead(line.text, line.caret, gap, end) && o.line.text == line.text.take(
                    line.caret,
                ) + line.text.skip(end)
        }),
{
    let gap = crate::motion::over_blanks(line.text, line.caret);
    lemma_ahead_blanks(line.text, line.caret);
    lemma_ahead_word(line.text, gap);
    let end = crate::motion::over_word(line.text, gap);
    if line.caret < line.text.len() {
        let o = pressed(key, line, ctx);
        assert(is_word_ahead(line.text, line.caret, gap, end));
        assert(o.line.text =~= line.text.take(line.caret) + line.text.skip(end));
    }
}

/// Whether `[from, to)` is the logical line around `at`.
pub open spec fn is_logical_line(s: Seq<char>, from: int, at: int, to: int) -> bool {
    &&& 0 <= from <= at <= to <= s.len()
    &&& forall|i: int| from <= i < to ==> #[trigger] s[i] != '\n'
    &&& from > 0 ==> s[from - 1] == '\n'
    &&& to < s.len() ==> s[to] == '\n'
}

/// Control+A and Control+E go to the ends of the logical line, and so do `Home`
/// and `End` on the prompt.
pub proof fn law_line_motions(first: KeyEvent, last: KeyEvent, line: Line, ctx: InputContext)
    requires
        (first.code == KeyCode::Char('a') && first.modifiers.control && last.code
            == KeyCode::Char('e') && last.modifiers.control) || (first.code == KeyCode::Home
            && last.code == KeyCode::End),
        ctx.active_modal == Modal::Closed,
        !ctx.has_focused_target,
        0 <= line.caret <= line.text.len(),
    ensures
        ({
            let o = pressed(first, line, ctx);
            let p = pressed(last, line, ctx);
            &&& quiet(o)
            &&& quiet(p)
            &&& o.line.text == line.text
            &&& p.line.text == line.text
            &&& is_logical_line(line.text, o.line.caret, line.caret, p.line.caret)
        }),
{
    lemma_line_start_bounds(line.text, line.caret);
    lemma_line_end_bounds(line.text, line.caret);
}

/// Control+U removes the logical line in front of the caret and Control+K what
/// is behind it.
pub proof fn law_line_deletions(head: KeyEvent, tail: KeyEvent, line: Line, ctx: InputContext)
    requires
        head.code == KeyCode::Char('u') && head.modifiers.control,
        tail.code == KeyCode::Char('k') && tail.modifiers.control,
        line_is_open(ctx),
        0 <= line.caret <= line.text.len(),
    ensures
        exists|from: int, to: int| #[trigger]
            is_logical_line(line.text, from, line.caret, to) && pressed(head, line, ctx).line == (
            Line { text: line.text.take(from) + line.text.skip(line.caret), caret: from })
                && pressed(tail, line, ctx).line == (Line {
                text: line.text.take(line.caret) + line.text.skip(to),
                caret: line.caret,
            }) && (pressed(head, line, ctx).action == ActionView::Plain(
                if from < line.caret {
                    InputAction::Backspace
                } else {
                    InputAction::Ignored
                },
            )) && (pressed(tail, line, ctx).action == ActionView::Plain(
                if line.caret < to {
                    InputAction::Backspace
                } else {
                    InputAction::Ignored
                },
            )),
{
    lemma_line_start_bounds(line.text, line.caret);
    lemma_line_end_bounds(line.text, line.caret);
    let from = crate::motion::line_start(line.text, line.caret);
    let to = crate::motion::line_end(line.text, line.caret);
    assert(is_logical_line(line.text, from, line.caret, to));
    assert(pressed(head, line, ctx).line.text =~= line.text.take(from) + line.text.skip(
        line.caret,
    ));
    assert(pressed(tail, line, ctx).line.text =~= line.text.take(line.caret) + line.text.skip(to));
}

/// The plain arrows move the caret by one character and stop at the ends of the
/// text; one step right undoes one step left.
pub proof fn law_arrows_step_by_one(
    left: KeyEvent,
    right: KeyEvent,
    line: Line,
    ctx: InputContext,
)
    requires
        left.code == KeyCode::Left && unmodified(left.modifiers),
        right.code == KeyCode::Right && unmodified(right.modifiers),
        line_is_open(ctx),
        ctx.active_modal == Modal::ModelEditor ==> ctx.editor_field != Some(1u8),
        0 <= line.caret <= line.text.len(),
    ensures
        ({
            let o = pressed(left, line, ctx);
            let p = pressed(right, line, ctx);
            &&& quiet(o) && quiet(p)
            &&& o.line.text == line.text && p.line.text == line.text
            &&& line.caret > 0 ==> o.line.caret == line.caret - 1
            &&& line.caret == 0 ==> o.line.caret == 0
            &&& line.caret < line.text.len() ==> p.line.caret == line.caret + 1
            &&& line.caret == line.text.len() ==> p.line.caret == line.caret
            &&& line.caret > 0 ==> pressed(right, o.line, ctx).line == line
        }),
{
}

/// Control+B steps back by one character.
pub proof fn law_control_b_steps_back(key: KeyEvent, line: Line, ctx: InputContext)
    requires
        key.code == KeyCode::Char('b') && key.modifiers.control,
        line_is_open(ctx),
        0 < line.caret,
    ensures
        quiet(pressed(key, line, ctx)),
        pressed(key, line, ctx).line == (Line { text: line.text, caret: line.caret - 1 }),
{
}

/// The Control keys that open something do so on the main prompt and nothing
/// elsewhere.
pub proof fn law_opening_keys(key: KeyEvent, c: char, line: Line, ctx: InputContext)
    requires
        key.code == KeyCode::Char(c),
        key.modifiers.control,
        !key.modifiers.super_key,
        c == 'r' || c == 'p' || c == 'h' || c == 'm',
    ensures
        asks(
            pressed(key, line, ctx),
            if ctx.active_modal != Modal::Closed {
                InputAction::Ignored
            } else if c == 'r' {
                InputAction::OpenHistory
            } else if c == 'p' {
                InputAction::OpenCommands
            } else if c == 'h' {
                InputAction::OpenHelp
            } else {
                InputAction::OpenProvider
            },
            line,
        ),
{
}

/// Control+V pastes where the line is open; Control+T folds the steps on the
/// main prompt; Control+C and its copying variants leave the line alone.
pub proof fn law_clipboard_keys(key: KeyEvent, c: char, line: Line, ctx: InputContext)
    requires
        key.code == KeyCode::Char(c),
        key.modifiers.control,
        !key.modifiers.alt,
    ensures
        c == 'v' ==> asks(
            pressed(key, line, ctx),
            if line_is_open(ctx) {
                InputAction::Paste
            } else {
                InputAction::Ignored
            },
            line,
        ),
        c == 't' && ctx.active_modal == Modal::Closed ==> asks(
            pressed(key, line, ctx),
            InputAction::ToggleToolSteps,
            line,
        ),
        c == 'c' && !key.modifiers.shift && !key.modifiers.super_key ==> asks(
            pressed(key, line, ctx),
            InputAction::CtrlC,
            line,
        ),
        c == 'c' && (key.modifiers.shift || key.modifiers.super_key) ==> asks(
            pressed(key, line, ctx),
            InputAction::CopySelection,
            line,
        ),
{
}

/// `Up` on the prompt: the focus, then the menu, then the queue, then the line
/// above, then the history; only a move to the line above touches the caret.
pub proof fn law_up_on_prompt(key: KeyEvent, line: Line, ctx: InputContext)
    requires
        key.code == KeyCode::Up,
        ctx.active_modal == Modal::Closed,
        0 <= line.caret <= line.text.len(),
    ensures
        ({
            let o = pressed(key, line, ctx);
            let focusing = key.modifiers.control || ctx.has_focused_target;
            let first_line = forall|i: int| 0 <= i < line.caret ==> #[trigger] line.text[i] != '\n';
            &&& focusing ==> asks(o, InputAction::FocusPrevTarget, line)
            &&& !focusing && suggesting(ctx) ==> asks(o, InputAction::SuggestPrev, line)
            &&& !focusing && !suggesting(ctx) && ctx.has_queued ==> asks(
                o,
                InputAction::RecallQueued,
                line,
            )
            &&& !focusing && !suggesting(ctx) && !ctx.has_queued && first_line ==> asks(
                o,
                InputAction::HistoryPrev,
                line,
            )
            &&& !focusing && !suggesting(ctx) && !ctx.has_queued && !first_line ==> quiet(o)
                && o.line.text == line.text && o.line.caret < line.caret
        }),
{
    lemma_line_start_bounds(line.text, line.caret);
    let start = crate::motion::line_start(line.text, line.caret);
    if start > 0 {
        assert(line.text[start - 1] == '\n');
        lemma_line_start_bounds(line.text, start - 1);
    }
}

/// `Down` on the prompt: the focus, then the menu, then the line below, then the
/// history.
pub proof fn law_down_on_prompt(key: KeyEvent, line: Line, ctx: InputContext)
    requires
        key.code == KeyCode::Down,
        ctx.active_modal == Modal::Closed,
        0 <= line.caret <= line.text.len(),
    ensures
        ({
            let o = pressed(key, line, ctx);
            let focusing = key.modifiers.control || ctx.has_focused_target;
            let last_line = forall|i: int|
                line.caret <= i < line.text.len() ==> #[trigger] line.text[i] != '\n';
            &&& focusing ==> asks(o, InputAction::FocusNextTarget, line)
            &&& !focusing && suggesting(ctx) ==> asks(o, InputAction::SuggestNext, line)
            &&& !focusing && !suggesting(ctx) && last_line ==> asks(
                o,
                InputAction::HistoryNext,
                line,
            )
            &&& !focusing && !suggesting(ctx) && !last_line ==> quiet(o) && o.line.text
                == line.text && o.line.caret > line.caret
        }),
{
    lemma_line_start_bounds(line.text, line.caret);
    lemma_line_end_bounds(line.text, line.caret);
    let end = crate::motion::line_end(line.text, line.caret);
    if end < line.text.len() {
        assert(line.text[end] == '\n');
        lemma_line_end_bounds(line.text, end + 1);
    }
}

/// The arrows in an overlay move through its list or scroll its body: `Down`
/// asks for the step that undoes the one of `Up`.
pub proof fn law_arrows_in_overlay(up: KeyEvent, down: KeyEvent, line: Line, ctx: InputContext)
    requires
        up.code == KeyCode::Up,
        down.code == KeyCode::Down,
        ctx.active_modal != Modal::Closed,
    ensures
        ({
            let o = pressed(up, line, ctx);
            let p = pressed(down, line, ctx);
            let modal = ctx.active_modal;
            &&& o.line == line && p.line == line
            &&& modal == Modal::Provider || modal == Modal::HistorySearch || modal
                == Modal::Sessions || modal == Modal::Permissions || modal == Modal::Config || modal
                == Modal::ConfigNudge || modal == Modal::ConfigLayout || modal
                == Modal::TokenReport || modal == Modal::Debug ==> asks(
                o,
                InputAction::ModalUp,
                line,
            ) && asks(p, InputAction::ModalDown, line)
            &&& modal == Modal::Question ==> asks(o, InputAction::QuestionUp, line) && asks(
                p,
                InputAction::QuestionDown,
                line,
            )
            &&& modal == Modal::Tools || modal == Modal::Mcp || modal == Modal::Skills ==> asks(
                o,
                InputAction::SessionSelect { forward: false },
                line,
            ) && asks(p, InputAction::SessionSelect { forward: true }, line)
            &&& modal == Modal::Activity || modal == Modal::Help ==> asks(
                o,
                InputAction::ScrollUp,
                line,
            ) && asks(p, InputAction::ScrollDown, line)
            &&& modal == Modal::ProviderTemplate ==> asks(
                o,
                InputAction::MoveProviderTemplate { forward: false },
                line,
            ) && asks(p, InputAction::MoveProviderTemplate { forward: true }, line)
            &&& modal == Modal::CustomProvider ==> asks(
                o,
                InputAction::MoveCustomSuggestion { forward: false },
                line,
            ) && asks(p, InputAction::MoveCustomSuggestion { forward: true }, line)
            &&& modal == Modal::AddModel ==> asks(
                o,
                InputAction::MoveAddModel { forward: false },
                line,
            ) && asks(p, InputAction::MoveAddModel { forward: true }, line)
            &&& modal == Modal::ModelEditor || modal == Modal::InputInjection ==> quiet(o)
                && quiet(p)
            &&& modal == Modal::Permission && ctx.has_focused_target ==> asks(
                o,
                InputAction::FocusPrevTarget,
                line,
            ) && asks(p, InputAction::FocusNextTarget, line)
            &&& modal == Modal::Permission && !ctx.has_focused_target
                && ctx.permission_show_details ==> asks(
                o,
                InputAction::PermissionDetailsUp,
                line,
            ) && asks(p, InputAction::PermissionDetailsDown, line)
            &&& modal == Modal::Permission && !ctx.has_focused_target
                && !ctx.permission_show_details ==> asks(o, InputAction::ScrollUp, line) && asks(
                p,
                InputAction::ScrollDown,
                line,
            )
        }),
{
}

/// `Left` and `Right` choose among the rows of the permission sheet and change
/// the value of a focused choice.
pub proof fn law_side_arrows_in_overlay(
    left: KeyEvent,
    right: KeyEvent,
    line: Line,
    ctx: InputContext,
)
    requires
        left.code == KeyCode::Left,
        right.code == KeyCode::Right,
    ensures
        ctx.active_modal == Modal::Permission ==> asks(
            pressed(left, line, ctx),
            InputAction::ModalUp,
            line,
        ) && asks(pressed(right, line, ctx), InputAction::ModalDown, line),
        ctx.active_modal == Modal::ModelEditor && ctx.editor_field == Some(1u8) ==> (pressed(
            left,
            line,
            ctx,
        ).action matches ActionView::Plain(InputAction::ModelEditorEffortCycle { delta }) && delta
            == -1) && (pressed(right, line, ctx).action matches ActionView::Plain(
            InputAction::ModelEditorEffortCycle { delta },
        ) && delta == 1) && pressed(left, line, ctx).line == line && pressed(right, line, ctx).line
            == line,
        ctx.active_modal == Modal::ConfigNudge ==> (pressed(left, line, ctx).action matches ActionView::Plain(
            InputAction::ConfigNudgeAdjust { delta },
        ) && delta == -1) && (pressed(right, line, ctx).action matches ActionView::Plain(
            InputAction::ConfigNudgeAdjust { delta },
        ) && delta == 1),
{
}

/// `Tab` takes the suggestion behind the highlighted one, the first where none
/// is, and goes around at the end; in the editors it moves the focus.
pub proof fn law_tab(key: KeyEvent, line: Line, ctx: InputContext)
    requires
        key.code == KeyCode::Tab,
    ensures
        ({
            let o = pressed(key, line, ctx);
            let modal = ctx.active_modal;
            &&& o.line == line
            &&& modal == Modal::Closed && suggesting(ctx) && ctx.suggestion_index is None
                ==> o.action == ActionView::AcceptSuggestion(crate::text::decimal(0))
            &&& modal == Modal::Closed && suggesting(ctx) && (ctx.suggestion_index matches Some(i)
                && i + 1 < ctx.suggestion_count) ==> o.action == ActionView::AcceptSuggestion(
                crate::text::decimal((ctx.suggestion_index->Some_0 + 1) as nat),
            )
            &&& modal == Modal::Closed && suggesting(ctx) && (ctx.suggestion_index matches Some(i)
                && i + 1 == ctx.suggestion_count) ==> o.action == ActionView::AcceptSuggestion(
                crate::text::decimal(0),
            )
            &&& modal == Modal::Closed && !suggesting(ctx) ==> quiet(o)
            &&& modal == Modal::ModelEditor ==> asks(o, InputAction::ModelEditorNextField, line)
            &&& modal == Modal::CustomProvider ==> asks(
                o,
                InputAction::CustomProviderNextField,
                line,
            )
            &&& modal == Modal::HistorySearch ==> asks(o, InputAction::HistoryTogglePreview, line)
        }),
{
    if let Some(i) = ctx.suggestion_index {
        if i + 1 < ctx.suggestion_count {
            vstd::arithmetic::div_mod::lemma_small_mod(
                (i + 1) as nat,
                ctx.suggestion_count as nat,
            );
        } else if i + 1 == ctx.suggestion_count {
            vstd::arithmetic::div_mod::lemma_mod_self_0(ctx.suggestion_count as int);
        }
    }
}

/// The letters of the lists act only while the list is browsed: in a search they
/// are typed.
pub proof fn law_picker_letters(key: KeyEvent, c: char, line: Line, ctx: InputContext)
    requires
        key.code == KeyCode::Char(c),
        unmodified(key.modifiers) || (c == 'D' && !key.modifiers.control && !key.modifiers.alt
            && !key.modifiers.super_key),
        ctx.active_modal == Modal::Provider,
    ensures
        ({
            let o = pressed(key, line, ctx);
            let providers = !ctx.picker_in_models_stage;
            &&& ctx.model_searching ==> o.action == ActionView::Plain(InputAction::InsertChar(c))
            &&& !ctx.model_searching && c == '/' ==> asks(o, InputAction::ModelEnterSearch, line)
            &&& !ctx.model_searching && c == '*' && providers ==> asks(
                o,
                InputAction::ProviderPickerToggleFavorite,
                line,
            )
            &&& !ctx.model_searching && c == 'e' ==> asks(o, InputAction::OpenModelEditor, line)
            &&& !ctx.model_searching && c == 'd' && !providers ==> asks(
                o,
                InputAction::ProviderPickerRemoveModel,
                line,
            )
            &&& !ctx.model_searching && c == 'D' && providers ==> asks(
                o,
                InputAction::DeleteProvider,
                line,
            )
            &&& !ctx.model_searching && c != '/' && c != '*' && c != 'e' && c != 'd' && c != 'D'
                ==> asks(o, InputAction::Ignored, line)
        }),
{
}

/// What the letters do in the other overlays; an unbound one is ignored there.
pub proof fn law_overlay_letters(key: KeyEvent, c: char, line: Line, ctx: InputContext)
    requires
        key.code == KeyCode::Char(c),
        unmodified(key.modifiers),
    ensures
        ({
            let o = pressed(key, line, ctx);
            let modal = ctx.active_modal;
            &&& modal == Modal::Tools ==> asks(
                o,
                if c == ' ' {
                    InputAction::SessionActivate
                } else {
                    InputAction::Ignored
                },
                line,
            )
            &&& modal == Modal::Mcp ==> asks(
                o,
                if c == ' ' {
                    InputAction::McpToggle
                } else if c == 'r' {
                    InputAction::McpReconnect
                } else {
                    InputAction::Ignored
                },
                line,
            )
            &&& modal == Modal::Skills ==> asks(
                o,
                if c == 'r' {
                    InputAction::SkillsReload
                } else {
                    InputAction::Ignored
                },
                line,
            )
            &&& modal == Modal::Permissions ==> asks(
                o,
                if c == ' ' {
                    InputAction::PermissionsActivate
                } else if c == 'c' {
                    InputAction::PermissionsClearAll
                } else {
                    InputAction::Ignored
                },
                line,
            )
            &&& modal == Modal::Sessions ==> asks(
                o,
                if c == 'd' {
                    InputAction::DeleteSelectedSession
                } else {
                    InputAction::Ignored
                },
                line,
            )
            &&& modal == Modal::Config && c == ' ' ==> asks(o, InputAction::ConfigActivate, line)
            &&& modal == Modal::ConfigNudge && c == ' ' ==> asks(
                o,
                InputAction::ConfigNudgeToggle,
                line,
            )
            &&& modal == Modal::ConfigLayout && c == ' ' ==> asks(
                o,
                InputAction::ConfigLayoutApply,
                line,
            )
            &&& modal == Modal::HistorySearch && !ctx.history_searching ==> asks(
                o,
                if c == '/' {
                    InputAction::HistoryEnterSearch
                } else {
                    InputAction::Ignored
                },
                line,
            )
            &&& modal == Modal::ModelEditor && ctx.editor_field == Some(2u8) ==> asks(
                o,
                if c == ' ' {
                    InputAction::ModelEditorThinkingToggle
                } else {
                    InputAction::Ignored
                },
                line,
            )
        }),
{
}

/// In a question a digit picks the option of that number, a space toggles the
/// highlighted one, and any other character goes into the free text; on the
/// free-text row a space does too.
pub proof fn law_question_letters(key: KeyEvent, c: char, line: Line, ctx: InputContext)
    requires
        key.code == KeyCode::Char(c),
        unmodified(key.modifiers),
        ctx.active_modal == Modal::Question,
    ensures
        ({
            let o = pressed(key, line, ctx);
            let digit = '1' <= c && c <= '9';
            &&& o.line == line
            &&& digit ==> (o.action matches ActionView::Plain(InputAction::QuestionSelect(n)) && n
                == (c as u32) - 48)
            &&& c == ' ' && !ctx.question_other_highlighted ==> asks(
                o,
                InputAction::QuestionToggle,
                line,
            )
            &&& c == ' ' && ctx.question_other_highlighted ==> asks(
                o,
                InputAction::QuestionInsertChar(' '),
                line,
            )
            &&& !digit && c != ' ' ==> asks(o, InputAction::QuestionInsertChar(c), line)
        }),
{
}

/// `Backspace` in a question edits the free text.
pub proof fn law_question_backspace(key: KeyEvent, line: Line, ctx: InputContext)
    requires
        key.code == KeyCode::Backspace,
        ctx.active_modal == Modal::Question,
    ensures
        asks(pressed(key, line, ctx), InputAction::QuestionBackspace, line),
{
}

/// In an envoy view with an empty line the brackets leaf through the siblings.
pub proof fn law_brackets_leaf_through_siblings(
    key: KeyEvent,
    c: char,
    line: Line,
    ctx: InputContext,
)
    requires
        key.code == KeyCode::Char(c),
        unmodified(key.modifiers),
        ctx.active_modal == Modal::Closed,
        ctx.in_envoy_view,
        line.text.len() == 0,
    ensures
        c == '[' ==> asks(pressed(key, line, ctx), InputAction::PrevSibling, line),
        c == ']' ==> asks(pressed(key, line, ctx), InputAction::NextSibling, line),
{
}

/// The paging keys scroll by a page in their direction where the transcript or
/// a question is in view; `Home` and `End` go to its ends while a step is
/// focused or the permission sheet is open.
pub proof fn law_paging_keys(key: KeyEvent, line: Line, ctx: InputContext)
    ensures
        ({
            let o = pressed(key, line, ctx);
            let modal = ctx.active_modal;
            let pages = modal == Modal::Closed || modal == Modal::Permission || modal
                == Modal::Question;
            let ends = modal == Modal::Permission || (modal == Modal::Closed
                && ctx.has_focused_target);
            &&& key.code == KeyCode::PageUp ==> asks(
                o,
                if pages {
                    InputAction::ScrollPageUp
                } else {
                    InputAction::Ignored
                },
                line,
            )
            &&& key.code == KeyCode::PageDown ==> asks(
                o,
                if pages {
                    InputAction::ScrollPageDown
                } else {
                    InputAction::Ignored
                },
                line,
            )
            &&& key.code == KeyCode::Home && ends ==> asks(o, InputAction::ScrollTop, line)
            &&& key.code == KeyCode::End && ends ==> asks(o, InputAction::ScrollBottom, line)
        }),
{
}

/// What the pointer asks for: the wheel scrolls its way, a press and a release
/// begin and end a selection, and nothing on the transcript is reached behind an
/// overlay that covers it.
pub proof fn law_pointer_events(event: Event, line: Line, ctx: InputContext, dragging: bool)
    requires
        event is Mouse,
    ensures
        ({
            let mouse = event->Mouse_0;
            let o = on_event(event, line, ctx, dragging);
            let (x, y) = (mouse.column, mouse.row);
            let live = ctx.active_modal == Modal::Closed || ctx.active_modal == Modal::Permission;
            &&& o.line == line
            &&& mouse.kind == MouseEventKind::ScrollUp ==> asks(o, InputAction::ScrollUp, line)
            &&& mouse.kind == MouseEventKind::ScrollDown ==> asks(o, InputAction::ScrollDown, line)
            &&& mouse.kind == MouseEventKind::Down(MouseButton::Left) && (live || ctx.active_modal
                == Modal::Question || ctx.modal_dismissable) ==> asks(
                o,
                InputAction::SelectionStart { x, y },
                line,
            )
            &&& mouse.kind == MouseEventKind::Drag(MouseButton::Left) && dragging && live ==> asks(
                o,
                InputAction::SelectionUpdate { x, y },
                line,
            )
            &&& mouse.kind == MouseEventKind::Up(MouseButton::Left) && dragging ==> asks(
                o,
                InputAction::SelectionEnd,
                line,
            )
            &&& mouse.kind == MouseEventKind::Down(MouseButton::Middle) && live ==> asks(
                o,
                InputAction::SelectBlock { x, y },
                line,
            )
            &&& mouse.kind == MouseEventKind::Down(MouseButton::Right) && live ==> asks(
                o,
                InputAction::RightClick { x, y },
                line,
            )
            &&& mouse.kind == MouseEventKind::Moved && live ==> asks(
                o,
                InputAction::Hover { x, y },
                line,
            )
            &&& !live && (mouse.kind == MouseEventKind::Moved || mouse.kind
                == MouseEventKind::Down(MouseButton::Right) || mouse.kind
                == MouseEventKind::Down(MouseButton::Middle) || mouse.kind
                == MouseEventKind::Drag(MouseButton::Left)) ==> asks(
                o,
                InputAction::Ignored,
                line,
            )
            &&& !live && ctx.active_modal != Modal::Question && !ctx.modal_dismissable
                && mouse.kind == MouseEventKind::Down(MouseButton::Left) ==> asks(
                o,
                InputAction::Ignored,
                line,
            )
        }),
{
}

/// A resize is reported as such and leaves the line alone.
pub proof fn law_resize_is_reported(w: u16, h: u16, line: Line, ctx: InputContext, dragging: bool)
    ensures
        asks(
            on_event(Event::Resize(w, h), line, ctx, dragging),
            InputAction::TerminalResized,
            line,
        ),
{
}

/// Capital letters and other shifted characters are typed like plain ones.
pub proof fn law_shifted_typing(key: KeyEvent, c: char, line: Line, ctx: InputContext)
    requires
        key.code == KeyCode::Char(c),
        key.modifiers.shift,
        !key.modifiers.control,
        !key.modifiers.alt,
        !key.modifiers.super_key,
        0 <= line.caret <= line.text.len(),
        ctx.active_modal == Modal::Closed,
        !ctx.in_envoy_view,
    ensures
        ({
            let o = pressed(key, line, ctx);
            &&& o.action == ActionView::Plain(InputAction::InsertChar(c))
            &&& o.line.text == line.text.take(line.caret).push(c) + line.text.skip(line.caret)
            &&& o.line.caret == line.caret + 1
        }),
{
    assert(pressed(key, line, ctx).line.text =~= line.text.take(line.caret).push(c)
        + line.text.skip(line.caret));
}

/// While a menu is open and none of its entries is highlighted, `Enter` sends the
/// line where the menu lists no commands, or lists exactly the one that is typed.
pub proof fn law_enter_sends_past_menu(key: KeyEvent, line: Line, ctx: InputContext)
    requires
        key.code == KeyCode::Enter,
        !key.modifiers.alt,
        ctx.active_modal == Modal::Closed,
        !ctx.has_focused_target,
        ctx.suggestion_index is None,
        ctx.completion_kind != CompletionKind::Slash || ctx.has_exact_suggestion,
        line.text.len() > 0,
    ensures
        ({
            let o = pressed(key, line, ctx);
            &&& !(o.action is CommitSuggestion)
            &&& o.line.text.len() == 0
            &&& o.line.caret == 0
            &&& line.text[0] != '/' && line.text[0] != '!' ==> o.action == ActionView::SendChat(
                line.text,
            )
        }),
{
}

/// Control+T unfolds and folds the calls from the prompt; in an overlay it does
/// not.
pub proof fn law_control_t(key: KeyEvent, line: Line, ctx: InputContext)
    requires
        key.code == KeyCode::Char('t'),
        key.modifiers.control,
        !key.modifiers.super_key,
    ensures
        ctx.active_modal == Modal::Closed ==> asks(
            pressed(key, line, ctx),
            InputAction::ToggleToolSteps,
            line,
        ),
        ctx.active_modal != Modal::Closed ==> pressed(key, line, ctx).action != ActionView::Plain(
            InputAction::ToggleToolSteps,
        ),
{
}

/// Shift+Tab leads back over the fields of the provider editor and has no other
/// meaning.
pub proof fn law_shift_tab(key: KeyEvent, line: Line, ctx: InputContext)
    requires
        key.code == KeyCode::BackTab,
    ensures
        asks(
            pressed(key, line, ctx),
            if ctx.active_modal == Modal::CustomProvider {
                InputAction::CustomProviderPrevField
            } else {
                InputAction::Ignored
            },
            line,
        ),
{
}

/// `Backspace` with Control or Alt removes the word before the caret, with the
/// blanks behind the word.
pub proof fn law_modified_backspace(key: KeyEvent, line: Line, ctx: InputContext)
    requires
        key.code == KeyCode::Backspace,
        key.modifiers.control || key.modifiers.alt,
        line_is_open(ctx),
        0 < line.caret <= line.text.len(),
    ensures
        ({
            let o = pressed(key, line, ctx);
            &&& o.action == ActionView::Plain(InputAction::Backspace)
            &&& o.line.text == line.text.take(o.line.caret) + line.text.skip(line.caret)
            &&& exists|gap: int| is_word_back(line.text, o.line.caret, gap, line.caret)
        }),
{
    let gap = crate::motion::back_over_blanks(line.text, line.caret);
    lemma_back_blanks(line.text, line.caret);
    lemma_back_word(line.text, gap);
    let o = pressed(key, line, ctx);
    assert(is_word_back(line.text, o.line.caret, gap, line.caret));
    assert(o.line.text =~= line.text.take(o.line.caret) + line.text.skip(line.caret));
}

/// `Backspace` at the beginning of the line removes nothing.
pub proof fn law_backspace_at_start(key: KeyEvent, line: Line, ctx: InputContext)
    requires
        key.code == KeyCode::Backspace,
        ctx.active_modal != Modal::Question,
        line.caret == 0,
    ensures
        asks(pressed(key, line, ctx), InputAction::Ignored, line),
{
}

/// Keys without a meaning, and the terminal's focus, change nothing.
pub proof fn law_other_keys_do_nothing(
    key: KeyEvent,
    n: u8,
    line: Line,
    ctx: InputContext,
    dragging: bool,
)
    ensures
        key.code == KeyCode::Delete || key.code == KeyCode::Insert || key.code == KeyCode::Other
            || key.code == KeyCode::F(n) ==> asks(
            pressed(key, line, ctx),
            InputAction::Ignored,
            line,
        ),
        asks(on_event(Event::FocusGained, line, ctx, dragging), InputAction::Ignored, line),
        asks(on_event(Event::FocusLost, line, ctx, dragging), InputAction::Ignored, line),
{
}

/// A key is handled the same way whether or not the pointer is dragging.
pub proof fn law_keys_ignore_dragging(key: KeyEvent, line: Line, ctx: InputContext)
    ensures
        on_event(Event::Key(key), line, ctx, true) == on_event(Event::Key(key), line, ctx, false),
{
}

/// A drag begins with a press on the live transcript and ends with the release;
/// nothing else begins or ends one.
pub proof fn law_drag_lasts_from_press_to_release(
    event: Event,
    ctx: InputContext,
    drag: SelectionDrag,
)
    ensures
        ({
            let after = drag_after(event, ctx, drag);
            let live = ctx.active_modal == Modal::Closed || ctx.active_modal == Modal::Permission;
            let press = event matches Event::Mouse(mouse) && mouse.kind == MouseEventKind::Down(
                MouseButton::Left,
            );
            let release = event matches Event::Mouse(mouse) && mouse.kind == MouseEventKind::Up(
                MouseButton::Left,
            );
            &&& press && live ==> after.active && after.anchor is Some && after.cell_info is None
            &&& press && !live ==> after == drag
            &&& release ==> !after.active && after.anchor == drag.anchor
            &&& !press && !release ==> after == drag
        }),
{
}

/// Over an overlay that covers the transcript, the pointer selects nothing and
/// lights nothing; a drag that did not begin selects nothing anywhere.
pub proof fn law_pointer_is_shielded(event: Event, line: Line, ctx: InputContext, dragging: bool)
    requires
        event is Mouse,
    ensures
        ({
            let kind = event->Mouse_0.kind;
            let o = on_event(event, line, ctx, dragging);
            let live = ctx.active_modal == Modal::Closed || ctx.active_modal == Modal::Permission;
            &&& !live && (kind == MouseEventKind::Drag(MouseButton::Left) || kind
                == MouseEventKind::Down(MouseButton::Middle) || kind == MouseEventKind::Down(
                MouseButton::Right,
            ) || kind == MouseEventKind::Moved) ==> asks(o, InputAction::Ignored, line)
            &&& !live && ctx.active_modal != Modal::Question && !ctx.modal_dismissable && kind
                == MouseEventKind::Down(MouseButton::Left) ==> asks(o, InputAction::Ignored, line)
            &&& !dragging && (kind == MouseEventKind::Drag(MouseButton::Left) || kind
                == MouseEventKind::Up(MouseButton::Left)) ==> asks(o, InputAction::Ignored, line)
            &&& kind == MouseEventKind::ScrollLeft || kind == MouseEventKind::ScrollRight || kind
                == MouseEventKind::Up(MouseButton::Right) || kind == MouseEventKind::Drag(
                MouseButton::Right,
            ) ==> asks(o, InputAction::Ignored, line)
        }),
{
}

} // verus!
