//! The key bindings.
use crate::attachments::chip_before;
use crate::input::action::ActionView;
use crate::input::action::InputAction;
use crate::input::context::InputContext;
use crate::input::editing::delete_backward;
use crate::input::editing::delete_line_head;
use crate::input::editing::delete_line_tail;
use crate::input::editing::delete_next_word;
use crate::input::editing::delete_previous_word;
use crate::input::editing::insert_char;
use crate::input::editing::insert_newline;
use crate::input::editing::lemma_word_start_bounds;
use crate::input::editing::line_of;
use crate::input::editing::Line;
use crate::input::events::KeyCode;
use crate::input::events::KeyEvent;
use crate::input::events::KeyModifiers;
use crate::modal::CompletionKind;
use crate::modal::Modal;
use crate::motion::cursor_line_down;
use crate::motion::cursor_line_end;
use crate::motion::cursor_line_start;
use crate::motion::cursor_line_up;
use crate::motion::line_end;
use crate::motion::line_start;
use crate::motion::next_word_end;
use crate::motion::position_above;
use crate::motion::position_below;
use crate::motion::prev_word_start;
use crate::motion::word_end;
use crate::motion::word_start;
use crate::text::char_count;
use crate::text::decimal;
use crate::text::decimal_string;
use crate::text::same_text;
use crate::text::starts_with_char;
use crate::text::take_string;
use crate::text::trim;
use crate::text::trim_start;
use crate::text::trimmed;
use crate::text::trimmed_start;
use vstd::prelude::*;

verus! {

/// What a key does: the action it asks for and the line it leaves.
pub ghost struct Outcome {
    pub action: ActionView,
    pub line: Line,
}

/// The action `action`, with the line left as it is.
pub open spec fn only(action: InputAction, line: Line) -> Outcome {
    Outcome { action: ActionView::Plain(action), line }
}

/// A change of the line that the completion menu and the attachments have to
/// hear of, if there is one.
pub open spec fn deletion(removed: bool, after: Line, line: Line) -> Outcome {
    if removed {
        Outcome { action: ActionView::Plain(InputAction::Backspace), line: after }
    } else {
        only(InputAction::Ignored, line)
    }
}

/// `Esc` undoes the innermost thing first.
pub open spec fn on_escape(ctx: InputContext) -> InputAction {
    match ctx.active_modal {
        Modal::Permission => if ctx.permission_confirm_always {
            InputAction::PermissionBack
        } else if ctx.has_focused_target {
            InputAction::ClearFocusedTarget
        } else {
            InputAction::PermissionReject
        },
        Modal::Question => InputAction::QuestionCancel,
        Modal::ProviderTemplate => InputAction::CancelProviderTemplate,
        Modal::CustomProvider => InputAction::CancelCustomProvider,
        Modal::AddModel => InputAction::CancelAddModel,
        Modal::InputInjection => InputAction::InputCancel,
        Modal::HistorySearch => if ctx.history_searching {
            InputAction::HistoryExitSearch
        } else {
            InputAction::CloseModal
        },
        Modal::Provider => if ctx.model_searching {
            InputAction::ModelExitSearch
        } else if ctx.picker_in_models_stage {
            InputAction::ProviderPickerBack
        } else {
            InputAction::CloseModal
        },
        Modal::ConfigNudge | Modal::ConfigLayout => InputAction::ConfigBack,
        Modal::Closed => if ctx.in_side_view {
            InputAction::ExitSideView
        } else if ctx.in_envoy_view {
            InputAction::ExitEnvoy
        } else if ctx.has_focused_target {
            InputAction::ClearFocusedTarget
        } else if ctx.menu_open() {
            InputAction::CloseCompletion
        } else if ctx.is_responding {
            InputAction::Interrupt
        } else {
            InputAction::Ignored
        },
        _ => InputAction::CloseModal,
    }
}

pub(crate) fn escape(ctx: &InputContext) -> (action: InputAction)
    ensures
        action == on_escape(*ctx),
{
    match ctx.active_modal {
        Modal::Permission => if ctx.permission_confirm_always {
            InputAction::PermissionBack
        } else if ctx.has_focused_target {
            InputAction::ClearFocusedTarget
        } else {
            InputAction::PermissionReject
        },
        Modal::Question => InputAction::QuestionCancel,
        Modal::ProviderTemplate => InputAction::CancelProviderTemplate,
        Modal::CustomProvider => InputAction::CancelCustomProvider,
        Modal::AddModel => InputAction::CancelAddModel,
        Modal::InputInjection => InputAction::InputCancel,
        Modal::HistorySearch => if ctx.history_searching {
            InputAction::HistoryExitSearch
        } else {
            InputAction::CloseModal
        },
        Modal::Provider => if ctx.model_searching {
            InputAction::ModelExitSearch
        } else if ctx.picker_in_models_stage {
            InputAction::ProviderPickerBack
        } else {
            InputAction::CloseModal
        },
        Modal::ConfigNudge | Modal::ConfigLayout => InputAction::ConfigBack,
        Modal::Closed => if ctx.in_side_view {
            InputAction::ExitSideView
        } else if ctx.in_envoy_view {
            InputAction::ExitEnvoy
        } else if ctx.has_focused_target {
            InputAction::ClearFocusedTarget
        } else if ctx.has_menu() {
            InputAction::CloseCompletion
        } else if ctx.is_responding {
            InputAction::Interrupt
        } else {
            InputAction::Ignored
        },
        _ => InputAction::CloseModal,
    }
}

/// What sending the text of the main prompt asks for.
pub open spec fn submitted(text: Seq<char>) -> ActionView {
    if text.len() > 0 && text[0] == '/' {
        let command = trimmed(text);
        if command == "/provider"@ {
            ActionView::Plain(InputAction::OpenProvider)
        } else if command == "/permissions"@ {
            ActionView::Plain(InputAction::OpenPermissions)
        } else if command == "/tools"@ {
            ActionView::Plain(InputAction::OpenTools)
        } else if command == "/mcp"@ {
            ActionView::Plain(InputAction::OpenMcp)
        } else if command == "/skills"@ {
            ActionView::Plain(InputAction::OpenSkills)
        } else if command == "/config"@ {
            ActionView::Plain(InputAction::OpenConfig)
        } else if command == "/exit"@ {
            ActionView::Plain(InputAction::Quit)
        } else {
            ActionView::SendSlash(text)
        }
    } else if text.len() > 0 && text[0] == '!' {
        let command = trimmed_start(text.drop_first());
        if command.len() == 0 {
            ActionView::Plain(InputAction::Ignored)
        } else {
            ActionView::SendShell(command)
        }
    } else if text.len() > 0 {
        ActionView::SendChat(text)
    } else {
        ActionView::Plain(InputAction::Ignored)
    }
}

/// What to do with the text of the main prompt once it is sent.
pub fn submit(text: String) -> (action: InputAction)
    ensures
        action@ == submitted(text@),
{
    let len: usize = char_count(text.as_str());
    if starts_with_char(text.as_str(), '/') {
        let trimmed_text: String = trim(text.as_str());
        let command: &str = trimmed_text.as_str();
        if same_text(command, "/provider") {
            InputAction::OpenProvider
        } else if same_text(command, "/permissions") {
            InputAction::OpenPermissions
        } else if same_text(command, "/tools") {
            InputAction::OpenTools
        } else if same_text(command, "/mcp") {
            InputAction::OpenMcp
        } else if same_text(command, "/skills") {
            InputAction::OpenSkills
        } else if same_text(command, "/config") {
            InputAction::OpenConfig
        } else if same_text(command, "/exit") {
            InputAction::Quit
        } else {
            InputAction::SendSlash(text)
        }
    } else if starts_with_char(text.as_str(), '!') {
        let rest: &str = text.as_str().substring_char(1, len);
        proof {
            assert(rest@ =~= text@.drop_first());
        }
        let command: String = trim_start(rest);
        if char_count(command.as_str()) == 0 {
            InputAction::Ignored
        } else {
            InputAction::SendShell(command)
        }
    } else if len > 0 {
        InputAction::SendChat(text)
    } else {
        InputAction::Ignored
    }
}

/// `Enter` on the main prompt: a focused target is activated, else an open
/// menu is committed, else the text is sent.
pub open spec fn on_prompt_enter(line: Line, ctx: InputContext) -> Outcome {
    if ctx.has_focused_target {
        only(InputAction::ActivateFocusedTarget, line)
    } else if ctx.completion_kind == CompletionKind::Slash && ctx.suggestion_count > 0
        && ctx.suggestion_index is None && !ctx.has_exact_suggestion {
        Outcome { action: ActionView::CommitSuggestion("0"@), line }
    } else if ctx.suggestion_index is Some && ctx.menu_open() {
        Outcome {
            action: ActionView::CommitSuggestion(decimal(ctx.suggestion_index->Some_0 as nat)),
            line,
        }
    } else {
        Outcome { action: submitted(line.text), line: Line { text: Seq::empty(), caret: 0 } }
    }
}

/// `Enter` in an overlay.
pub open spec fn on_modal_enter(modal: Modal) -> InputAction {
    match modal {
        Modal::Provider => InputAction::ProviderPickerActivate,
        Modal::ModelEditor => InputAction::SubmitModelEditor,
        Modal::ProviderTemplate => InputAction::SelectProviderTemplate,
        Modal::CustomProvider => InputAction::SubmitCustomProvider,
        Modal::AddModel => InputAction::SubmitAddModel,
        Modal::HistorySearch => InputAction::HistoryInsert,
        Modal::Sessions => InputAction::OpenSelectedSession,
        Modal::Permission => InputAction::PermissionSubmit,
        Modal::Question => InputAction::QuestionSubmit,
        Modal::InputInjection => InputAction::InputSubmit,
        Modal::Skills => InputAction::SkillsToggleDetail,
        Modal::Config => InputAction::ConfigActivate,
        Modal::ConfigNudge => InputAction::ConfigNudgeToggle,
        Modal::ConfigLayout => InputAction::ConfigLayoutApply,
        Modal::TokenReport => InputAction::TokenReportActivate,
        Modal::Debug => InputAction::DebugActivate,
        Modal::Help | Modal::Tools | Modal::Mcp | Modal::Permissions
        | Modal::Activity => InputAction::CloseModal,
        Modal::Closed => InputAction::Ignored,
    }
}

fn modal_enter(modal: Modal) -> (action: InputAction)
    ensures
        action == on_modal_enter(modal),
{
    match modal {
        Modal::Provider => InputAction::ProviderPickerActivate,
        Modal::ModelEditor => InputAction::SubmitModelEditor,
        Modal::ProviderTemplate => InputAction::SelectProviderTemplate,
        Modal::CustomProvider => InputAction::SubmitCustomProvider,
        Modal::AddModel => InputAction::SubmitAddModel,
        Modal::HistorySearch => InputAction::HistoryInsert,
        Modal::Sessions => InputAction::OpenSelectedSession,
        Modal::Permission => InputAction::PermissionSubmit,
        Modal::Question => InputAction::QuestionSubmit,
        Modal::InputInjection => InputAction::InputSubmit,
        Modal::Skills => InputAction::SkillsToggleDetail,
        Modal::Config => InputAction::ConfigActivate,
        Modal::ConfigNudge => InputAction::ConfigNudgeToggle,
        Modal::ConfigLayout => InputAction::ConfigLayoutApply,
        Modal::TokenReport => InputAction::TokenReportActivate,
        Modal::Debug => InputAction::DebugActivate,
        Modal::Help | Modal::Tools | Modal::Mcp | Modal::Permissions
        | Modal::Activity => InputAction::CloseModal,
        Modal::Closed => InputAction::Ignored,
    }
}

/// `Enter`: with Alt it breaks the line on the main prompt.
pub open spec fn on_enter(modifiers: KeyModifiers, line: Line, ctx: InputContext) -> Outcome {
    if modifiers.alt {
        on_line_break(line, ctx)
    } else if ctx.active_modal == Modal::Closed {
        on_prompt_enter(line, ctx)
    } else {
        only(on_modal_enter(ctx.active_modal), line)
    }
}

/// A literal line break.
pub open spec fn on_line_break(line: Line, ctx: InputContext) -> Outcome {
    only(
        InputAction::Ignored,
        if ctx.active_modal == Modal::Closed {
            line.with_inserted(seq!['\n'])
        } else {
            line
        },
    )
}

pub(crate) fn enter(
    modifiers: KeyModifiers,
    input: &mut String,
    cursor_position: &mut usize,
    ctx: &InputContext,
) -> (action: InputAction)
    requires
        *old(cursor_position) < usize::MAX,
    ensures
        ({
            let o = on_enter(modifiers, line_of(old(input), *old(cursor_position)), *ctx);
            action@ == o.action && line_of(final(input), *final(cursor_position)) == o.line
        }),
{
    if modifiers.alt {
        insert_newline(input, cursor_position, ctx.active_modal);
        return InputAction::Ignored;
    }
    if ctx.active_modal != Modal::Closed {
        return modal_enter(ctx.active_modal);
    }
    if ctx.has_focused_target {
        return InputAction::ActivateFocusedTarget;
    }
    if ctx.completion_kind == CompletionKind::Slash && ctx.suggestion_count > 0
        && ctx.suggestion_index.is_none() && !ctx.has_exact_suggestion {
        return InputAction::CommitSuggestion("0".to_owned());
    }
    if let Some(i) = ctx.suggestion_index {
        if ctx.has_menu() {
            return InputAction::CommitSuggestion(decimal_string(i as u64));
        }
    }
    let text: String = take_string(input);
    *cursor_position = 0;
    submit(text)
}

/// The suggestion that `Tab` accepts: the one behind the highlight, wrapping.
pub open spec fn next_suggestion(ctx: InputContext) -> nat {
    match ctx.suggestion_index {
        Some(i) => ((i + 1) % ctx.suggestion_count as int) as nat,
        None => 0,
    }
}

/// `Tab`.
pub open spec fn on_tab(ctx: InputContext) -> ActionView {
    match ctx.active_modal {
        Modal::Closed => if ctx.menu_open() {
            ActionView::AcceptSuggestion(decimal(next_suggestion(ctx)))
        } else {
            ActionView::Plain(InputAction::Ignored)
        },
        Modal::ModelEditor => ActionView::Plain(InputAction::ModelEditorNextField),
        Modal::CustomProvider => ActionView::Plain(InputAction::CustomProviderNextField),
        Modal::HistorySearch => ActionView::Plain(InputAction::HistoryTogglePreview),
        _ => ActionView::Plain(InputAction::Ignored),
    }
}

pub(crate) fn tab(ctx: &InputContext) -> (action: InputAction)
    requires
        ctx.suggestion_index matches Some(i) ==> i < usize::MAX,
    ensures
        action@ == on_tab(*ctx),
{
    match ctx.active_modal {
        Modal::Closed => {
            if ctx.has_menu() {
                let next: usize = match ctx.suggestion_index {
                    Some(i) => (i + 1) % ctx.suggestion_count,
                    None => 0,
                };
                InputAction::AcceptSuggestion(decimal_string(next as u64))
            } else {
                InputAction::Ignored
            }
        },
        Modal::ModelEditor => InputAction::ModelEditorNextField,
        Modal::CustomProvider => InputAction::CustomProviderNextField,
        Modal::HistorySearch => InputAction::HistoryTogglePreview,
        _ => InputAction::Ignored,
    }
}

/// An action of the main view, ignored while an overlay is open.
pub open spec fn unless_modal(action: InputAction, ctx: InputContext) -> InputAction {
    if ctx.active_modal == Modal::Closed {
        action
    } else {
        InputAction::Ignored
    }
}

/// Control with a letter; `None` where the combination has no meaning of its
/// own.
pub open spec fn on_control(c: char, line: Line, ctx: InputContext) -> Option<Outcome> {
    if c == 'r' {
        Some(only(unless_modal(InputAction::OpenHistory, ctx), line))
    } else if c == 'p' {
        Some(only(unless_modal(InputAction::OpenCommands, ctx), line))
    } else if c == 'h' {
        Some(only(unless_modal(InputAction::OpenHelp, ctx), line))
    } else if c == 'm' {
        Some(only(unless_modal(InputAction::OpenProvider, ctx), line))
    } else if c == 'j' {
        Some(on_line_break(line, ctx))
    } else if c == 'v' {
        Some(
            only(
                if ctx.editing() {
                    InputAction::Paste
                } else {
                    InputAction::Ignored
                },
                line,
            ),
        )
    } else if c == 'b' {
        Some(
            only(
                InputAction::Ignored,
                if ctx.editing() && line.caret > 0 {
                    line.moved(line.caret - 1)
                } else {
                    line
                },
            ),
        )
    } else if c == 'a' {
        Some(
            only(
                InputAction::Ignored,
                if ctx.editing() {
                    line.moved(line_start(line.text, line.at()))
                } else {
                    line
                },
            ),
        )
    } else if c == 'e' {
        Some(
            only(
                InputAction::Ignored,
                if ctx.editing() {
                    line.moved(line_end(line.text, line.at()))
                } else {
                    line
                },
            ),
        )
    } else if c == 'w' {
        Some(
            deletion(
                ctx.editing() && word_start(line.text, line.caret) < line.caret,
                line.without_previous_word(),
                line,
            ),
        )
    } else if c == 'u' {
        Some(
            deletion(
                ctx.editing() && line_start(line.text, line.at()) < line.caret,
                line.without_line_head(),
                line,
            ),
        )
    } else if c == 'k' {
        Some(
            deletion(
                ctx.editing() && line_end(line.text, line.at()) > line.caret,
                line.without_line_tail(),
                line,
            ),
        )
    } else {
        None
    }
}

fn unless_open(action: InputAction, ctx: &InputContext) -> (r: InputAction)
    ensures
        r == unless_modal(action, *ctx),
{
    if ctx.active_modal == Modal::Closed {
        action
    } else {
        InputAction::Ignored
    }
}

fn deleted(removed: bool) -> (action: InputAction)
    ensures
        action == (if removed {
            InputAction::Backspace
        } else {
            InputAction::Ignored
        }),
{
    if removed {
        InputAction::Backspace
    } else {
        InputAction::Ignored
    }
}

fn control(
    c: char,
    input: &mut String,
    cursor_position: &mut usize,
    ctx: &InputContext,
) -> (action: Option<InputAction>)
    requires
        *old(cursor_position) < usize::MAX,
    ensures
        ({
            let line = line_of(old(input), *old(cursor_position));
            let after = line_of(final(input), *final(cursor_position));
            match on_control(c, line, *ctx) {
                Some(o) => action is Some && action->Some_0@ == o.action && after == o.line,
                None => action is None && after == line,
            }
        }),
{
    let edits: bool = ctx.edits_line();
    if c == 'r' {
        Some(unless_open(InputAction::OpenHistory, ctx))
    } else if c == 'p' {
        Some(unless_open(InputAction::OpenCommands, ctx))
    } else if c == 'h' {
        Some(unless_open(InputAction::OpenHelp, ctx))
    } else if c == 'm' {
        Some(unless_open(InputAction::OpenProvider, ctx))
    } else if c == 'j' {
        insert_newline(input, cursor_position, ctx.active_modal);
        Some(InputAction::Ignored)
    } else if c == 'v' {
        if edits {
            Some(InputAction::Paste)
        } else {
            Some(InputAction::Ignored)
        }
    } else if c == 'b' {
        if edits && *cursor_position > 0 {
            *cursor_position = *cursor_position - 1;
        }
        Some(InputAction::Ignored)
    } else if c == 'a' {
        if edits {
            cursor_line_start(input.as_str(), cursor_position);
        }
        Some(InputAction::Ignored)
    } else if c == 'e' {
        if edits {
            cursor_line_end(input.as_str(), cursor_position);
        }
        Some(InputAction::Ignored)
    } else if c == 'w' {
        let removed: bool = edits && delete_previous_word(input, cursor_position);
        Some(deleted(removed))
    } else if c == 'u' {
        let removed: bool = edits && delete_line_head(input, cursor_position);
        Some(deleted(removed))
    } else if c == 'k' {
        let removed: bool = edits && delete_line_tail(input, *cursor_position);
        Some(deleted(removed))
    } else {
        None
    }
}

/// Alt with a letter; `None` where the combination has no meaning of its own.
pub open spec fn on_alt(c: char, line: Line, ctx: InputContext) -> Option<Outcome> {
    if c == 'b' {
        Some(
            only(
                InputAction::Ignored,
                if ctx.editing() {
                    line.moved(word_start(line.text, line.caret))
                } else {
                    line
                },
            ),
        )
    } else if c == 'f' {
        Some(
            only(
                InputAction::Ignored,
                if ctx.editing() {
                    line.moved(word_end(line.text, line.caret))
                } else {
                    line
                },
            ),
        )
    } else if c == 'd' {
        Some(
            deletion(
                ctx.editing() && word_end(line.text, line.caret) > line.caret,
                line.without_next_word(),
                line,
            ),
        )
    } else {
        None
    }
}

fn alt(
    c: char,
    input: &mut String,
    cursor_position: &mut usize,
    ctx: &InputContext,
) -> (action: Option<InputAction>)
    ensures
        ({
            let line = line_of(old(input), *old(cursor_position));
            let after = line_of(final(input), *final(cursor_position));
            match on_alt(c, line, *ctx) {
                Some(o) => action is Some && action->Some_0@ == o.action && after == o.line,
                None => action is None && after == line,
            }
        }),
{
    let edits: bool = ctx.edits_line();
    if c == 'b' {
        if edits {
            *cursor_position = prev_word_start(input.as_str(), *cursor_position);
        }
        Some(InputAction::Ignored)
    } else if c == 'f' {
        if edits {
            *cursor_position = next_word_end(input.as_str(), *cursor_position);
        }
        Some(InputAction::Ignored)
    } else if c == 'd' {
        let removed: bool = edits && delete_next_word(input, *cursor_position);
        Some(deleted(removed))
    } else {
        None
    }
}

/// The meaning that an overlay gives to a character; `None` where the
/// character may be typed.
pub open spec fn on_modal_char(c: char, ctx: InputContext) -> Option<InputAction> {
    match ctx.active_modal {
        Modal::Question => if c == ' ' && !ctx.question_other_highlighted {
            Some(InputAction::QuestionToggle)
        } else if '1' <= c && c <= '9' {
            Some(InputAction::QuestionSelect((c as u32 - '0' as u32) as usize))
        } else {
            Some(InputAction::QuestionInsertChar(c))
        },
        Modal::Tools => if c == ' ' {
            Some(InputAction::SessionActivate)
        } else {
            None
        },
        Modal::Mcp => if c == ' ' {
            Some(InputAction::McpToggle)
        } else if c == 'r' {
            Some(InputAction::McpReconnect)
        } else {
            None
        },
        Modal::Skills => if c == 'r' {
            Some(InputAction::SkillsReload)
        } else {
            None
        },
        Modal::Permissions => if c == ' ' {
            Some(InputAction::PermissionsActivate)
        } else if c == 'c' {
            Some(InputAction::PermissionsClearAll)
        } else {
            None
        },
        Modal::Config => if c == ' ' {
            Some(InputAction::ConfigActivate)
        } else {
            None
        },
        Modal::ConfigNudge => if c == ' ' {
            Some(InputAction::ConfigNudgeToggle)
        } else {
            None
        },
        Modal::ConfigLayout => if c == ' ' {
            Some(InputAction::ConfigLayoutApply)
        } else {
            None
        },
        Modal::Sessions => if c == 'd' {
            Some(InputAction::DeleteSelectedSession)
        } else {
            None
        },
        Modal::Provider => if ctx.model_searching {
            None
        } else if c == '/' {
            Some(InputAction::ModelEnterSearch)
        } else if c == '*' && !ctx.picker_in_models_stage {
            Some(InputAction::ProviderPickerToggleFavorite)
        } else if c == 'e' {
            Some(InputAction::OpenModelEditor)
        } else if c == 'd' && ctx.picker_in_models_stage {
            Some(InputAction::ProviderPickerRemoveModel)
        } else if c == 'D' && !ctx.picker_in_models_stage {
            Some(InputAction::DeleteProvider)
        } else {
            None
        },
        Modal::ModelEditor => if ctx.editor_field == Some(2u8) {
            if c == ' ' {
                Some(InputAction::ModelEditorThinkingToggle)
            } else {
                Some(InputAction::Ignored)
            }
        } else {
            None
        },
        Modal::HistorySearch => if c == '/' && !ctx.history_searching {
            Some(InputAction::HistoryEnterSearch)
        } else {
            None
        },
        _ => None,
    }
}

fn modal_char(c: char, ctx: &InputContext) -> (action: Option<InputAction>)
    ensures
        action == on_modal_char(c, *ctx),
{
    match ctx.active_modal {
        Modal::Question => if c == ' ' && !ctx.question_other_highlighted {
            Some(InputAction::QuestionToggle)
        } else if '1' <= c && c <= '9' {
            Some(InputAction::QuestionSelect((c as u32 - '0' as u32) as usize))
        } else {
            Some(InputAction::QuestionInsertChar(c))
        },
        Modal::Tools => if c == ' ' {
            Some(InputAction::SessionActivate)
        } else {
            None
        },
        Modal::Mcp => if c == ' ' {
            Some(InputAction::McpToggle)
        } else if c == 'r' {
            Some(InputAction::McpReconnect)
        } else {
            None
        },
        Modal::Skills => if c == 'r' {
            Some(InputAction::SkillsReload)
        } else {
            None
        },
        Modal::Permissions => if c == ' ' {
            Some(InputAction::PermissionsActivate)
        } else if c == 'c' {
            Some(InputAction::PermissionsClearAll)
        } else {
            None
        },
        Modal::Config => if c == ' ' {
            Some(InputAction::ConfigActivate)
        } else {
            None
        },
        Modal::ConfigNudge => if c == ' ' {
            Some(InputAction::ConfigNudgeToggle)
        } else {
            None
        },
        Modal::ConfigLayout => if c == ' ' {
            Some(InputAction::ConfigLayoutApply)
        } else {
            None
        },
        Modal::Sessions => if c == 'd' {
            Some(InputAction::DeleteSelectedSession)
        } else {
            None
        },
        Modal::Provider => if ctx.model_searching {
            None
        } else if c == '/' {
            Some(InputAction::ModelEnterSearch)
        } else if c == '*' && !ctx.picker_in_models_stage {
            Some(InputAction::ProviderPickerToggleFavorite)
        } else if c == 'e' {
            Some(InputAction::OpenModelEditor)
        } else if c == 'd' && ctx.picker_in_models_stage {
            Some(InputAction::ProviderPickerRemoveModel)
        } else if c == 'D' && !ctx.picker_in_models_stage {
            Some(InputAction::DeleteProvider)
        } else {
            None
        },
        Modal::ModelEditor => if let Some(field) = ctx.editor_field {
            if field != 2 {
                None
            } else if c == ' ' {
                Some(InputAction::ModelEditorThinkingToggle)
            } else {
                Some(InputAction::Ignored)
            }
        } else {
            None
        },
        Modal::HistorySearch => if c == '/' && !ctx.history_searching {
            Some(InputAction::HistoryEnterSearch)
        } else {
            None
        },
        _ => None,
    }
}

/// A character without a binding of its own: siblings in an empty envoy view,
/// then the overlay's shortcuts, then typing.
pub open spec fn on_plain_char(c: char, line: Line, ctx: InputContext) -> Outcome {
    if ctx.active_modal == Modal::Closed && ctx.in_envoy_view && line.text.len() == 0 && c
        == '[' {
        only(InputAction::PrevSibling, line)
    } else if ctx.active_modal == Modal::Closed && ctx.in_envoy_view && line.text.len() == 0 && c
        == ']' {
        only(InputAction::NextSibling, line)
    } else {
        match on_modal_char(c, ctx) {
            Some(action) => only(action, line),
            None => if ctx.editing() {
                only(InputAction::InsertChar(c), line.with_inserted(seq![c]))
            } else {
                only(InputAction::Ignored, line)
            },
        }
    }
}

/// A character key.
pub open spec fn on_char(
    c: char,
    modifiers: KeyModifiers,
    line: Line,
    ctx: InputContext,
) -> Outcome {
    if c == 'c' && ((modifiers.shift && modifiers.control) || modifiers.super_key) {
        only(InputAction::CopySelection, line)
    } else if c == 'c' && modifiers.control {
        only(InputAction::CtrlC, line)
    } else if c == 't' && modifiers.control && ctx.active_modal == Modal::Closed {
        only(InputAction::ToggleToolSteps, line)
    } else if modifiers.control && on_control(c, line, ctx) is Some {
        on_control(c, line, ctx)->Some_0
    } else if modifiers.alt && on_alt(c, line, ctx) is Some {
        on_alt(c, line, ctx)->Some_0
    } else {
        on_plain_char(c, line, ctx)
    }
}

pub(crate) fn character(
    c: char,
    modifiers: KeyModifiers,
    input: &mut String,
    cursor_position: &mut usize,
    ctx: &InputContext,
) -> (action: InputAction)
    requires
        *old(cursor_position) < usize::MAX,
    ensures
        ({
            let o = on_char(c, modifiers, line_of(old(input), *old(cursor_position)), *ctx);
            action@ == o.action && line_of(final(input), *final(cursor_position)) == o.line
        }),
{
    if c == 'c' && ((modifiers.shift && modifiers.control) || modifiers.super_key) {
        return InputAction::CopySelection;
    }
    if c == 'c' && modifiers.control {
        return InputAction::CtrlC;
    }
    if c == 't' && modifiers.control && ctx.active_modal == Modal::Closed {
        return InputAction::ToggleToolSteps;
    }
    if modifiers.control {
        if let Some(action) = control(c, input, cursor_position, ctx) {
            return action;
        }
    }
    if modifiers.alt {
        if let Some(action) = alt(c, input, cursor_position, ctx) {
            return action;
        }
    }
    if ctx.active_modal == Modal::Closed && ctx.in_envoy_view && char_count(input.as_str()) == 0 {
        if c == '[' {
            return InputAction::PrevSibling;
        }
        if c == ']' {
            return InputAction::NextSibling;
        }
    }
    match modal_char(c, ctx) {
        Some(action) => action,
        None => {
            if ctx.edits_line() {
                insert_char(input, cursor_position, c);
                InputAction::InsertChar(c)
            } else {
                InputAction::Ignored
            }
        },
    }
}

/// `Backspace`: with Control or Alt a word goes, else a chip or a character.
pub open spec fn on_backspace(modifiers: KeyModifiers, line: Line, ctx: InputContext) -> Outcome {
    if ctx.active_modal == Modal::Question {
        only(InputAction::QuestionBackspace, line)
    } else if !ctx.editing() || line.caret <= 0 {
        only(InputAction::Ignored, line)
    } else if (modifiers.control || modifiers.alt) && word_start(line.text, line.caret)
        < line.caret {
        only(InputAction::Backspace, line.without_previous_word())
    } else {
        only(InputAction::Backspace, line.after_backspace())
    }
}

/// Whether a plain backspace has something to remove: the caret lies in the
/// text, or the text ends with a chip.
pub open spec fn backspace_fits(modifiers: KeyModifiers, line: Line, ctx: InputContext) -> bool {
    ctx.active_modal == Modal::Question || !ctx.editing() || line.caret <= 0
        || modifiers.control || modifiers.alt || line.caret <= line.text.len() || chip_before(
        line.text,
        line.text.len() as int,
    ) is Some
}

pub(crate) fn backspace(
    modifiers: KeyModifiers,
    input: &mut String,
    cursor_position: &mut usize,
    ctx: &InputContext,
) -> (action: InputAction)
    requires
        backspace_fits(modifiers, line_of(old(input), *old(cursor_position)), *ctx),
    ensures
        ({
            let o = on_backspace(modifiers, line_of(old(input), *old(cursor_position)), *ctx);
            action@ == o.action && line_of(final(input), *final(cursor_position)) == o.line
        }),
{
    if ctx.active_modal == Modal::Question {
        return InputAction::QuestionBackspace;
    }
    if !ctx.edits_line() || *cursor_position == 0 {
        return InputAction::Ignored;
    }
    if modifiers.control || modifiers.alt {
        proof {
            lemma_word_start_bounds(input@, *cursor_position as int);
        }
        if delete_previous_word(input, cursor_position) {
            return InputAction::Backspace;
        }
    }
    delete_backward(input, cursor_position);
    InputAction::Backspace
}

/// `Left`.
pub open spec fn on_left(modifiers: KeyModifiers, line: Line, ctx: InputContext) -> Outcome {
    if ctx.active_modal == Modal::Permission {
        only(InputAction::ModalUp, line)
    } else if ctx.active_modal == Modal::ModelEditor && ctx.editor_field == Some(1u8) {
        only(InputAction::ModelEditorEffortCycle { delta: (-1) as i8 }, line)
    } else if ctx.active_modal == Modal::ConfigNudge {
        only(InputAction::ConfigNudgeAdjust { delta: (-1) as i32 }, line)
    } else if ctx.editing() && line.caret > 0 {
        only(
            InputAction::Ignored,
            line.moved(
                if modifiers.control || modifiers.alt {
                    word_start(line.text, line.caret)
                } else {
                    line.caret - 1
                },
            ),
        )
    } else {
        only(InputAction::Ignored, line)
    }
}

fn effort_focused(ctx: &InputContext) -> (focused: bool)
    ensures
        focused == (ctx.active_modal == Modal::ModelEditor && ctx.editor_field == Some(1u8)),
{
    if ctx.active_modal == Modal::ModelEditor {
        if let Some(field) = ctx.editor_field {
            return field == 1;
        }
    }
    false
}

pub(crate) fn left(
    modifiers: KeyModifiers,
    input: &str,
    cursor_position: &mut usize,
    ctx: &InputContext,
) -> (action: InputAction)
    ensures
        ({
            let line = Line { text: input@, caret: *old(cursor_position) as int };
            let o = on_left(modifiers, line, *ctx);
            action@ == o.action && line.moved(*final(cursor_position) as int) == o.line
        }),
{
    if ctx.active_modal == Modal::Permission {
        return InputAction::ModalUp;
    }
    if effort_focused(ctx) {
        return InputAction::ModelEditorEffortCycle { delta: -1 };
    }
    if ctx.active_modal == Modal::ConfigNudge {
        return InputAction::ConfigNudgeAdjust { delta: -1 };
    }
    if ctx.edits_line() && *cursor_position > 0 {
        if modifiers.control || modifiers.alt {
            *cursor_position = prev_word_start(input, *cursor_position);
        } else {
            *cursor_position = *cursor_position - 1;
        }
    }
    InputAction::Ignored
}

/// `Right`.
pub open spec fn on_right(modifiers: KeyModifiers, line: Line, ctx: InputContext) -> Outcome {
    if ctx.active_modal == Modal::Permission {
        only(InputAction::ModalDown, line)
    } else if ctx.active_modal == Modal::ModelEditor && ctx.editor_field == Some(1u8) {
        only(InputAction::ModelEditorEffortCycle { delta: 1 }, line)
    } else if ctx.active_modal == Modal::ConfigNudge {
        only(InputAction::ConfigNudgeAdjust { delta: 1 }, line)
    } else if ctx.editing() && line.caret < line.text.len() {
        only(
            InputAction::Ignored,
            line.moved(
                if modifiers.control || modifiers.alt {
                    word_end(line.text, line.caret)
                } else {
                    line.caret + 1
                },
            ),
        )
    } else {
        only(InputAction::Ignored, line)
    }
}

pub(crate) fn right(
    modifiers: KeyModifiers,
    input: &str,
    cursor_position: &mut usize,
    ctx: &InputContext,
) -> (action: InputAction)
    ensures
        ({
            let line = Line { text: input@, caret: *old(cursor_position) as int };
            let o = on_right(modifiers, line, *ctx);
            action@ == o.action && line.moved(*final(cursor_position) as int) == o.line
        }),
{
    if ctx.active_modal == Modal::Permission {
        return InputAction::ModalDown;
    }
    if effort_focused(ctx) {
        return InputAction::ModelEditorEffortCycle { delta: 1 };
    }
    if ctx.active_modal == Modal::ConfigNudge {
        return InputAction::ConfigNudgeAdjust { delta: 1 };
    }
    if ctx.edits_line() && *cursor_position < char_count(input) {
        if modifiers.control || modifiers.alt {
            *cursor_position = next_word_end(input, *cursor_position);
        } else {
            *cursor_position = *cursor_position + 1;
        }
    }
    InputAction::Ignored
}

/// What `Up` and `Down` do in an overlay.
pub open spec fn on_modal_step(forward: bool, ctx: InputContext) -> InputAction {
    match ctx.active_modal {
        Modal::Question => if forward {
            InputAction::QuestionDown
        } else {
            InputAction::QuestionUp
        },
        Modal::Permission => if ctx.has_focused_target {
            if forward {
                InputAction::FocusNextTarget
            } else {
                InputAction::FocusPrevTarget
            }
        } else if ctx.permission_show_details {
            if forward {
                InputAction::PermissionDetailsDown
            } else {
                InputAction::PermissionDetailsUp
            }
        } else if forward {
            InputAction::ScrollDown
        } else {
            InputAction::ScrollUp
        },
        Modal::Activity | Modal::Help => if forward {
            InputAction::ScrollDown
        } else {
            InputAction::ScrollUp
        },
        Modal::Tools | Modal::Mcp | Modal::Skills => InputAction::SessionSelect { forward },
        Modal::ProviderTemplate => InputAction::MoveProviderTemplate { forward },
        Modal::CustomProvider => InputAction::MoveCustomSuggestion { forward },
        Modal::AddModel => InputAction::MoveAddModel { forward },
        Modal::ModelEditor | Modal::InputInjection => InputAction::Ignored,
        _ => if forward {
            InputAction::ModalDown
        } else {
            InputAction::ModalUp
        },
    }
}

fn modal_step(forward: bool, ctx: &InputContext) -> (action: InputAction)
    ensures
        action == on_modal_step(forward, *ctx),
{
    match ctx.active_modal {
        Modal::Question => if forward {
            InputAction::QuestionDown
        } else {
            InputAction::QuestionUp
        },
        Modal::Permission => if ctx.has_focused_target {
            if forward {
                InputAction::FocusNextTarget
            } else {
                InputAction::FocusPrevTarget
            }
        } else if ctx.permission_show_details {
            if forward {
                InputAction::PermissionDetailsDown
            } else {
                InputAction::PermissionDetailsUp
            }
        } else if forward {
            InputAction::ScrollDown
        } else {
            InputAction::ScrollUp
        },
        Modal::Activity | Modal::Help => if forward {
            InputAction::ScrollDown
        } else {
            InputAction::ScrollUp
        },
        Modal::Tools | Modal::Mcp | Modal::Skills => InputAction::SessionSelect { forward },
        Modal::ProviderTemplate => InputAction::MoveProviderTemplate { forward },
        Modal::CustomProvider => InputAction::MoveCustomSuggestion { forward },
        Modal::AddModel => InputAction::MoveAddModel { forward },
        Modal::ModelEditor | Modal::InputInjection => InputAction::Ignored,
        _ => if forward {
            InputAction::ModalDown
        } else {
            InputAction::ModalUp
        },
    }
}

/// `Up`.
pub open spec fn on_up(modifiers: KeyModifiers, line: Line, ctx: InputContext) -> Outcome {
    if ctx.active_modal != Modal::Closed {
        only(on_modal_step(false, ctx), line)
    } else if modifiers.control || ctx.has_focused_target {
        only(InputAction::FocusPrevTarget, line)
    } else if ctx.menu_open() {
        only(InputAction::SuggestPrev, line)
    } else if ctx.has_queued {
        only(InputAction::RecallQueued, line)
    } else {
        match position_above(line.text, line.caret) {
            Some(target) => only(InputAction::Ignored, line.moved(target)),
            None => only(InputAction::HistoryPrev, line),
        }
    }
}

pub(crate) fn up(
    modifiers: KeyModifiers,
    input: &str,
    cursor_position: &mut usize,
    ctx: &InputContext,
) -> (action: InputAction)
    ensures
        ({
            let line = Line { text: input@, caret: *old(cursor_position) as int };
            let o = on_up(modifiers, line, *ctx);
            action@ == o.action && line.moved(*final(cursor_position) as int) == o.line
        }),
{
    if ctx.active_modal != Modal::Closed {
        return modal_step(false, ctx);
    }
    if modifiers.control || ctx.has_focused_target {
        InputAction::FocusPrevTarget
    } else if ctx.has_menu() {
        InputAction::SuggestPrev
    } else if ctx.has_queued {
        InputAction::RecallQueued
    } else if cursor_line_up(input, cursor_position) {
        InputAction::Ignored
    } else {
        InputAction::HistoryPrev
    }
}

/// `Down`.
pub open spec fn on_down(modifiers: KeyModifiers, line: Line, ctx: InputContext) -> Outcome {
    if ctx.active_modal != Modal::Closed {
        only(on_modal_step(true, ctx), line)
    } else if modifiers.control || ctx.has_focused_target {
        only(InputAction::FocusNextTarget, line)
    } else if ctx.menu_open() {
        only(InputAction::SuggestNext, line)
    } else {
        match position_below(line.text, line.caret) {
            Some(target) => only(InputAction::Ignored, line.moved(target)),
            None => only(InputAction::HistoryNext, line),
        }
    }
}

pub(crate) fn down(
    modifiers: KeyModifiers,
    input: &str,
    cursor_position: &mut usize,
    ctx: &InputContext,
) -> (action: InputAction)
    ensures
        ({
            let line = Line { text: input@, caret: *old(cursor_position) as int };
            let o = on_down(modifiers, line, *ctx);
            action@ == o.action && line.moved(*final(cursor_position) as int) == o.line
        }),
{
    if ctx.active_modal != Modal::Closed {
        return modal_step(true, ctx);
    }
    if modifiers.control || ctx.has_focused_target {
        InputAction::FocusNextTarget
    } else if ctx.has_menu() {
        InputAction::SuggestNext
    } else if cursor_line_down(input, cursor_position) {
        InputAction::Ignored
    } else {
        InputAction::HistoryNext
    }
}

/// Whether `Home` and `End` scroll rather than move the caret.
pub open spec fn scrolls_to_ends(ctx: InputContext) -> bool {
    ctx.active_modal == Modal::Permission || (ctx.active_modal == Modal::Closed
        && ctx.has_focused_target)
}

/// `Home`.
pub open spec fn on_home(line: Line, ctx: InputContext) -> Outcome {
    if scrolls_to_ends(ctx) {
        only(InputAction::ScrollTop, line)
    } else if ctx.editing() {
        only(InputAction::Ignored, line.moved(line_start(line.text, line.at())))
    } else {
        only(InputAction::Ignored, line)
    }
}

/// `End`.
pub open spec fn on_end(line: Line, ctx: InputContext) -> Outcome {
    if scrolls_to_ends(ctx) {
        only(InputAction::ScrollBottom, line)
    } else if ctx.editing() {
        only(InputAction::Ignored, line.moved(line_end(line.text, line.at())))
    } else {
        only(InputAction::Ignored, line)
    }
}

pub(crate) fn home(input: &str, cursor_position: &mut usize, ctx: &InputContext) -> (action:
    InputAction)
    ensures
        ({
            let line = Line { text: input@, caret: *old(cursor_position) as int };
            let o = on_home(line, *ctx);
            action@ == o.action && line.moved(*final(cursor_position) as int) == o.line
        }),
{
    if ctx.active_modal == Modal::Permission || (ctx.active_modal == Modal::Closed
        && ctx.has_focused_target) {
        return InputAction::ScrollTop;
    }
    if ctx.edits_line() {
        cursor_line_start(input, cursor_position);
    }
    InputAction::Ignored
}

pub(crate) fn end(input: &str, cursor_position: &mut usize, ctx: &InputContext) -> (action:
    InputAction)
    ensures
        ({
            let line = Line { text: input@, caret: *old(cursor_position) as int };
            let o = on_end(line, *ctx);
            action@ == o.action && line.moved(*final(cursor_position) as int) == o.line
        }),
{
    if ctx.active_modal == Modal::Permission || (ctx.active_modal == Modal::Closed
        && ctx.has_focused_target) {
        return InputAction::ScrollBottom;
    }
    if ctx.edits_line() {
        cursor_line_end(input, cursor_position);
    }
    InputAction::Ignored
}

/// `PageUp` and `PageDown` scroll where the body behind can scroll.
pub open spec fn on_page(forward: bool, ctx: InputContext) -> InputAction {
    match ctx.active_modal {
        Modal::Closed | Modal::Permission | Modal::Question => if forward {
            InputAction::ScrollPageDown
        } else {
            InputAction::ScrollPageUp
        },
        _ => InputAction::Ignored,
    }
}

pub(crate) fn page(forward: bool, ctx: &InputContext) -> (action: InputAction)
    ensures
        action == on_page(forward, *ctx),
{
    match ctx.active_modal {
        Modal::Closed | Modal::Permission | Modal::Question => if forward {
            InputAction::ScrollPageDown
        } else {
            InputAction::ScrollPageUp
        },
        _ => InputAction::Ignored,
    }
}

/// What a key does.
pub open spec fn on_key(key: KeyEvent, line: Line, ctx: InputContext) -> Outcome {
    match key.code {
        KeyCode::Char(c) => on_char(c, key.modifiers, line, ctx),
        KeyCode::Esc => only(on_escape(ctx), line),
        KeyCode::Enter => on_enter(key.modifiers, line, ctx),
        KeyCode::Tab => Outcome { action: on_tab(ctx), line },
        KeyCode::BackTab => only(
            if ctx.active_modal == Modal::CustomProvider {
                InputAction::CustomProviderPrevField
            } else {
                InputAction::Ignored
            },
            line,
        ),
        KeyCode::Backspace => on_backspace(key.modifiers, line, ctx),
        KeyCode::Left => on_left(key.modifiers, line, ctx),
        KeyCode::Right => on_right(key.modifiers, line, ctx),
        KeyCode::Up => on_up(key.modifiers, line, ctx),
        KeyCode::Down => on_down(key.modifiers, line, ctx),
        KeyCode::PageUp => only(on_page(false, ctx), line),
        KeyCode::PageDown => only(on_page(true, ctx), line),
        KeyCode::Home => on_home(line, ctx),
        KeyCode::End => on_end(line, ctx),
        _ => only(InputAction::Ignored, line),
    }
}

/// Handles a key.
pub fn process_key(
    key: KeyEvent,
    input: &mut String,
    cursor_position: &mut usize,
    context: &InputContext,
) -> (action: InputAction)
    requires
        *old(cursor_position) < usize::MAX,
        context.suggestion_index matches Some(i) ==> i < usize::MAX,
        key.code == KeyCode::Backspace ==> backspace_fits(
            key.modifiers,
            line_of(old(input), *old(cursor_position)),
            *context,
        ),
    ensures
        ({
            let o = on_key(key, line_of(old(input), *old(cursor_position)), *context);
            action@ == o.action && line_of(final(input), *final(cursor_position)) == o.line
        }),
{
    match key.code {
        KeyCode::Char(c) => character(c, key.modifiers, input, cursor_position, context),
        KeyCode::Esc => escape(context),
        KeyCode::Enter => enter(key.modifiers, input, cursor_position, context),
        KeyCode::Tab => tab(context),
        KeyCode::BackTab => if context.active_modal == Modal::CustomProvider {
            InputAction::CustomProviderPrevField
        } else {
            InputAction::Ignored
        },
        KeyCode::Backspace => backspace(key.modifiers, input, cursor_position, context),
        KeyCode::Left => left(key.modifiers, input.as_str(), cursor_position, context),
        KeyCode::Right => right(key.modifiers, input.as_str(), cursor_position, context),
        KeyCode::Up => up(key.modifiers, input.as_str(), cursor_position, context),
        KeyCode::Down => down(key.modifiers, input.as_str(), cursor_position, context),
        KeyCode::PageUp => page(false, context),
        KeyCode::PageDown => page(true, context),
        KeyCode::Home => home(input.as_str(), cursor_position, context),
        KeyCode::End => end(input.as_str(), cursor_position, context),
        _ => InputAction::Ignored,
    }
}

} // verus!
