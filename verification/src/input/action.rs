//! What a terminal event asks for.
use vstd::prelude::*;

verus! {

/// What a terminal event asks for.
#[allow(inconsistent_fields)]
#[derive(Debug, PartialEq)]
pub enum InputAction {
    /// Nothing.
    Ignored,
    /// Leave the program.
    Quit,
    /// Send a chat message.
    SendChat(String),
    /// Send a slash command.
    SendSlash(String),
    /// Run a shell command; the leading `!` is gone.
    SendShell(String),
    /// Activate the highlighted picker row.
    ProviderPickerActivate,
    /// Step back from the picker's model list to its provider list.
    ProviderPickerBack,
    /// Flip the favorite flag of the highlighted provider.
    ProviderPickerToggleFavorite,
    /// Edit the highlighted picker row.
    OpenModelEditor,
    /// Submit the key editor.
    SubmitModelEditor,
    /// Focus the key editor's next field.
    ModelEditorNextField,
    /// Step the effort level by one, wrapping.
    ModelEditorEffortCycle { delta: i8 },
    /// Flip extended thinking.
    ModelEditorThinkingToggle,
    /// Submit the provider editor.
    SubmitCustomProvider,
    /// Leave the provider editor for the picker.
    CancelCustomProvider,
    /// Focus the provider editor's next field.
    CustomProviderNextField,
    /// Focus the provider editor's previous field.
    CustomProviderPrevField,
    /// Move the highlight of the provider editor's model suggestions.
    MoveCustomSuggestion { forward: bool },
    /// Move the highlight of the template chooser.
    MoveProviderTemplate { forward: bool },
    /// Open the provider editor on the highlighted template.
    SelectProviderTemplate,
    /// Leave the template chooser for the picker.
    CancelProviderTemplate,
    /// Remove the highlighted model of a custom provider.
    ProviderPickerRemoveModel,
    /// Delete the highlighted custom provider.
    DeleteProvider,
    /// Move the highlight of the add-model suggestions.
    MoveAddModel { forward: bool },
    /// Submit the add-model overlay.
    SubmitAddModel,
    /// Leave the add-model overlay for the model list.
    CancelAddModel,
    /// Interrupt the running turn.
    Interrupt,
    /// Open the provider picker.
    OpenProvider,
    /// Open the input history.
    OpenHistory,
    /// Open the command palette.
    OpenCommands,
    /// Open the list of key bindings.
    OpenHelp,
    /// Open the permissions manager.
    OpenPermissions,
    /// Open the tools manager.
    OpenTools,
    /// Open the server manager.
    OpenMcp,
    /// Open the skills list.
    OpenSkills,
    /// Unfold or fold the selected skill.
    SkillsToggleDetail,
    /// Reload the skills.
    SkillsReload,
    /// Open the configuration root.
    OpenConfig,
    /// Connect or disconnect the selected server.
    McpToggle,
    /// Reconnect the selected server.
    McpReconnect,
    /// Revoke the selected rule.
    PermissionsActivate,
    /// Revoke every rule.
    PermissionsClearAll,
    /// Open the selected configuration page.
    ConfigActivate,
    /// Return to the configuration root.
    ConfigBack,
    /// Flip the nudge switch.
    ConfigNudgeToggle,
    /// Change the selected nudge threshold.
    ConfigNudgeAdjust { delta: i32 },
    /// Apply the selected transcript layout.
    ConfigLayoutApply,
    /// Move the selection of the tools, server or skills list.
    SessionSelect { forward: bool },
    /// Flip the selected tool.
    SessionActivate,
    /// Open the selected session.
    OpenSelectedSession,
    /// Open the selected line of the token report.
    TokenReportActivate,
    /// Open or close a section of the inspector.
    DebugActivate,
    /// Delete the selected session.
    DeleteSelectedSession,
    /// Close the overlay.
    CloseModal,
    ScrollUp,
    ScrollDown,
    /// Scroll up by a page.
    ScrollPageUp,
    /// Scroll down by a page.
    ScrollPageDown,
    /// Scroll to the top.
    ScrollTop,
    /// Scroll to the bottom and follow it.
    ScrollBottom,
    /// Copy the selection.
    CopySelection,
    /// Copy the selection, clear the input, or arm leaving.
    CtrlC,
    /// Unfold or fold all tool steps.
    ToggleToolSteps,
    /// Focus the next activatable target.
    FocusNextTarget,
    /// Focus the previous activatable target.
    FocusPrevTarget,
    /// Activate the focused target.
    ActivateFocusedTarget,
    /// Drop the focus.
    ClearFocusedTarget,
    /// Paste from the system clipboard.
    Paste,
    /// Paste text that came with the event.
    BracketedPaste(String),
    /// A character was typed into the line.
    InsertChar(char),
    /// Something was deleted from the line.
    Backspace,
    /// Highlight the next suggestion.
    SuggestNext,
    /// Highlight the previous suggestion.
    SuggestPrev,
    /// Accept the suggestion with this index; the menu stays open.
    AcceptSuggestion(String),
    /// Accept the suggestion with this index and close the menu.
    CommitSuggestion(String),
    /// Close the completion menu.
    CloseCompletion,
    /// Older history entry.
    HistoryPrev,
    /// Newer history entry.
    HistoryNext,
    /// Take the latest queued message back into the line.
    RecallQueued,
    /// Insert the selected history entry.
    HistoryInsert,
    /// Show or hide the whole text of the selected history entry.
    HistoryTogglePreview,
    /// Start searching the history.
    HistoryEnterSearch,
    /// Stop searching the history.
    HistoryExitSearch,
    /// Start searching the picker.
    ModelEnterSearch,
    /// Stop searching the picker.
    ModelExitSearch,
    /// Move the overlay's selection up.
    ModalUp,
    /// Move the overlay's selection down.
    ModalDown,
    /// Submit the selected permission decision.
    PermissionSubmit,
    /// Reject the permission request.
    PermissionReject,
    /// Return from the always-allow confirmation.
    PermissionBack,
    /// Scroll the permission details up.
    PermissionDetailsUp,
    /// Scroll the permission details down.
    PermissionDetailsDown,
    QuestionUp,
    QuestionDown,
    /// Flip the highlighted option.
    QuestionToggle,
    /// Submit the answers.
    QuestionSubmit,
    /// Cancel the question.
    QuestionCancel,
    /// Submit the text asked for by a running command.
    InputSubmit,
    /// Refuse the text asked for by a running command.
    InputCancel,
    /// Select the option with this number, from 1.
    QuestionSelect(usize),
    /// Type into the free-text answer.
    QuestionInsertChar(char),
    /// Delete from the free-text answer.
    QuestionBackspace,
    /// Press at a screen point.
    SelectionStart { x: u16, y: u16 },
    /// Drag to a screen point.
    SelectionUpdate { x: u16, y: u16 },
    /// Release.
    SelectionEnd,
    /// Select the block at a screen point.
    SelectBlock { x: u16, y: u16 },
    /// Open the details of what is at a screen point.
    RightClick { x: u16, y: u16 },
    /// The pointer moved.
    Hover { x: u16, y: u16 },
    /// Leave the envoy view.
    ExitEnvoy,
    /// Leave the side conversation.
    ExitSideView,
    /// Previous sibling envoy task.
    PrevSibling,
    /// Next sibling envoy task.
    NextSibling,
    /// The terminal changed size.
    TerminalResized,
}

/// An action, with its text as a sequence of characters.
pub ghost enum ActionView {
    /// An action that carries no text.
    Plain(InputAction),
    SendChat(Seq<char>),
    SendSlash(Seq<char>),
    SendShell(Seq<char>),
    BracketedPaste(Seq<char>),
    AcceptSuggestion(Seq<char>),
    CommitSuggestion(Seq<char>),
}

impl View for InputAction {
    type V = ActionView;

    open spec fn view(&self) -> ActionView {
        match *self {
            InputAction::SendChat(text) => ActionView::SendChat(text@),
            InputAction::SendSlash(text) => ActionView::SendSlash(text@),
            InputAction::SendShell(text) => ActionView::SendShell(text@),
            InputAction::BracketedPaste(text) => ActionView::BracketedPaste(text@),
            InputAction::AcceptSuggestion(text) => ActionView::AcceptSuggestion(text@),
            InputAction::CommitSuggestion(text) => ActionView::CommitSuggestion(text@),
            _ => ActionView::Plain(*self),
        }
    }
}

} // verus!
