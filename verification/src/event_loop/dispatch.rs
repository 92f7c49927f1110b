//! Carries out the actions that events ask for.
//!
//! The actions fall into groups, and each group says what its actions do. The
//! actions of the last group are the host's own.
use crate::app::composer::history_order;
use crate::app::composer::recalled_queued;
use crate::app::composer::Completion;
use crate::app::composer::reconciled;
use crate::app::navigate::cycled_sibling;
use crate::app::navigate::left_envoy;
use crate::app::navigate::moved_focus;
use crate::app::picker;
use crate::app::picker::listed;
use crate::app::App;
use crate::app::Effect;
use crate::app::QuestionAction;
use crate::app::TranscriptView;
use crate::clipboard_ops::apply_clipboard_paste;
use crate::clipboard_ops::paste_fits;
use crate::clipboard_ops::pasted;
use crate::clipboard_ops::ClipboardRead;
use crate::event_loop::composing::accept_suggestion;
use crate::event_loop::composing::close_completion;
use crate::event_loop::composing::commit_suggestion;
use crate::event_loop::composing::committed;
use crate::event_loop::composing::completions_fit;
use crate::event_loop::composing::history_next;
use crate::event_loop::composing::history_prev;
use crate::event_loop::composing::menu_closed;
use crate::event_loop::composing::move_suggestion;
use crate::event_loop::composing::named_accepted;
use crate::event_loop::composing::note_edit;
use crate::event_loop::composing::open_commands;
use crate::event_loop::composing::palette_opened;
use crate::event_loop::composing::suggestion_moved;
use crate::event_loop::composing::touched;
use crate::event_loop::composing::walked_back;
use crate::event_loop::composing::walked_forward;
use crate::event_loop::copying::copy_selection;
use crate::event_loop::copying::ctrl_c_pressed;
use crate::event_loop::copying::exit_side_conversation;
use crate::event_loop::copying::handle_ctrl_c;
use crate::event_loop::copying::handle_interrupt;
use crate::event_loop::copying::interrupt_pressed;
use crate::event_loop::copying::selected_in;
use crate::event_loop::copying::selection_copied;
use crate::event_loop::copying::side_view_exited;
use crate::event_loop::overlays::clear_permissions;
use crate::event_loop::overlays::close_modal;
use crate::event_loop::overlays::config_opened;
use crate::event_loop::overlays::confirmation_left;
use crate::event_loop::overlays::delete_selected_session;
use crate::event_loop::overlays::enter_history_search;
use crate::event_loop::overlays::entry_inserted;
use crate::event_loop::overlays::exit_history_search;
use crate::event_loop::overlays::flip_selected_tool;
use crate::event_loop::overlays::forward_question;
use crate::event_loop::overlays::help_opened;
use crate::event_loop::overlays::history_opened;
use crate::event_loop::overlays::history_restarted;
use crate::event_loop::overlays::insert_history;
use crate::event_loop::overlays::leave_confirmation;
use crate::event_loop::overlays::manager_opened;
use crate::event_loop::overlays::manager_row_moved;
use crate::event_loop::overlays::matches_fit;
use crate::event_loop::overlays::modal_closed;
use crate::event_loop::overlays::move_manager_row;
use crate::event_loop::overlays::move_row;
use crate::event_loop::overlays::open_config;
use crate::event_loop::overlays::open_help;
use crate::event_loop::overlays::open_history;
use crate::event_loop::overlays::open_manager;
use crate::event_loop::overlays::open_permissions;
use crate::event_loop::overlays::open_selected_session;
use crate::event_loop::overlays::permissions_opened;
use crate::event_loop::overlays::preview_toggled;
use crate::event_loop::overlays::question_forwarded;
use crate::event_loop::overlays::revoke_selected;
use crate::event_loop::overlays::row_moved;
use crate::event_loop::overlays::rule_revoked;
use crate::event_loop::overlays::rules_cleared;
use crate::event_loop::overlays::searches_history;
use crate::event_loop::overlays::session_deleted;
use crate::event_loop::overlays::session_opened;
use crate::event_loop::overlays::skill_toggled;
use crate::event_loop::overlays::toggle_history_preview;
use crate::event_loop::overlays::toggle_skill;
use crate::event_loop::overlays::tool_flipped;
use crate::event_loop::permission::handle_permission_reject;
use crate::event_loop::permission::handle_permission_submit;
use crate::event_loop::permission::permission_rejected;
use crate::event_loop::permission::permission_submitted;
use crate::event_loop::picking::activate_picker_row;
use crate::event_loop::picking::cycle_effort;
use crate::event_loop::picking::editor_submitted;
use crate::event_loop::picking::effort_cycled;
use crate::event_loop::picking::enter_model_search;
use crate::event_loop::picking::entries;
use crate::event_loop::picking::exit_model_search;
use crate::event_loop::picking::favorite_toggled;
use crate::event_loop::picking::field_cycled;
use crate::event_loop::picking::leave_models;
use crate::event_loop::picking::line_emptied;
use crate::event_loop::picking::model_search_entered;
use crate::event_loop::picking::model_search_left;
use crate::event_loop::picking::models_left;
use crate::event_loop::picking::next_editor_field;
use crate::event_loop::picking::open_model_editor;
use crate::event_loop::picking::open_provider;
use crate::event_loop::picking::picker_entries;
use crate::event_loop::picking::picker_opened;
use crate::event_loop::picking::row_activated;
use crate::event_loop::picking::row_edited;
use crate::event_loop::picking::submit_model_editor;
use crate::event_loop::picking::thinking_toggled;
use crate::event_loop::picking::toggle_favorite;
use crate::event_loop::picking::toggle_thinking;
use crate::event_loop::pointer::block_selected;
use crate::event_loop::pointer::drag_ended;
use crate::event_loop::pointer::drag_to;
use crate::event_loop::pointer::dragged_to;
use crate::event_loop::pointer::end_drag;
use crate::event_loop::pointer::hover;
use crate::event_loop::pointer::hovered;
use crate::event_loop::pointer::press;
use crate::event_loop::pointer::pressed;
use crate::event_loop::pointer::right_press;
use crate::event_loop::pointer::right_pressed;
use crate::event_loop::pointer::select_block;
use crate::event_loop::pointer::PointerHits;
use crate::event_loop::scrolling::details_scrolled;
use crate::event_loop::scrolling::edge_scrolled;
use crate::event_loop::scrolling::page_scrolled;
use crate::event_loop::scrolling::scroll_details;
use crate::event_loop::scrolling::scroll_edge;
use crate::event_loop::scrolling::scroll_page;
use crate::event_loop::scrolling::scroll_wheel;
use crate::event_loop::scrolling::wheel_scrolled;
use crate::event_loop::sending::prompt_submitted;
use crate::event_loop::sending::send_chat;
use crate::event_loop::sending::send_shell;
use crate::event_loop::sending::send_slash;
use crate::event_loop::sending::shell_sent;
use crate::event_loop::sending::slash_sent;
use crate::event_loop::steps::activate_focused_target;
use crate::event_loop::steps::steps_toggled;
use crate::event_loop::steps::target_activated;
use crate::event_loop::steps::toggle_tool_steps;
use crate::event_loop::UiRuntime;
use crate::input::InputAction;
use crate::layout::point_fits;
use crate::modal::Modal;
use crate::providers::FuzzyMatch;
use vstd::prelude::*;

verus! {

/// What the host knows when an action comes in.
#[derive(Debug)]
pub struct ActionFacts {
    /// What the line suggests.
    pub completions: Vec<Completion>,
    /// How each name that the picker can list matches its query.
    pub picker_matches: Vec<Option<FuzzyMatch>>,
    /// How each history entry matches the line.
    pub history_matches: Vec<Option<FuzzyMatch>>,
    /// What is selected of the transcript.
    pub transcript_text: Option<String>,
    /// Default model of the provider that the key editor is open for.
    pub default_model: Option<String>,
    /// Line count of a pasted text that is too large for the line.
    pub paste_chip_lines: Option<usize>,
    /// Whether the current model sees images.
    pub vision: bool,
    /// Whether the session server is attached.
    pub serving: bool,
    /// What the overlays drew under the pointer.
    pub hits: PointerHits,
    /// The host's clock in milliseconds.
    pub now: u64,
}

/// The paste that an action brings along.
pub open spec fn paste_of(text: String, facts: ActionFacts) -> ClipboardRead {
    ClipboardRead::Text { text, chip_lines: facts.paste_chip_lines }
}

/// The number of rows that the history overlay lists.
pub open spec fn history_row_count(a: App, facts: ActionFacts) -> usize {
    history_order(
        a.composer.input_history@.len() as int,
        searches_history(a),
        facts.history_matches@,
    ).len() as usize
}

/// The number of rows that the picker lists.
pub open spec fn picker_row_count(a: App, facts: ActionFacts) -> nat {
    listed(a, facts.picker_matches@).len()
}

/// Whether the facts say how the picker's names match, and its rows leave room
/// for one more.
pub open spec fn picker_fits(a: App, facts: ActionFacts) -> bool {
    &&& picker::matches_fit(a, facts.picker_matches@)
    &&& picker_row_count(a, facts) < usize::MAX
}

/// Whether the facts belong to the state, as far as `action` needs them, and
/// the positions leave room for a step.
pub open spec fn facts_fit(a: App, action: InputAction, facts: ActionFacts) -> bool {
    match action {
        InputAction::SuggestNext | InputAction::SuggestPrev => {
            a.composer.suggestion_index matches Some(i) ==> i < usize::MAX
        },
        InputAction::AcceptSuggestion(_) | InputAction::CommitSuggestion(_) => completions_fit(
            a,
            facts.completions@,
        ),
        InputAction::HistoryPrev => {
            a.composer.history_index matches Some(i) ==> i <= a.composer.input_history@.len()
        },
        InputAction::BracketedPaste(text) => paste_fits(a, paste_of(text, facts)),
        InputAction::HistoryInsert => matches_fit(a, facts.history_matches@),
        InputAction::ModalUp | InputAction::ModalDown => {
            &&& a.overlay.modal_index < usize::MAX
            &&& a.overlay.active_modal == Modal::Provider ==> picker_fits(a, facts)
            &&& a.overlay.active_modal == Modal::HistorySearch ==> matches_fit(
                a,
                facts.history_matches@,
            )
        },
        InputAction::SessionSelect { .. } => a.overlay.modal_index < usize::MAX,
        InputAction::ProviderPickerActivate
        | InputAction::ProviderPickerToggleFavorite
        | InputAction::OpenModelEditor => picker::matches_fit(a, facts.picker_matches@),
        InputAction::SelectionStart { x, y } => {
            &&& point_fits(a.screen.layout_map@, x as int, y as int)
            &&& facts.hits.question_option matches Some(n) ==> n < usize::MAX
        },
        InputAction::SelectionUpdate { x, y }
        | InputAction::RightClick { x, y }
        | InputAction::Hover { x, y } => point_fits(
            a.screen.layout_map@,
            x as int,
            y as int,
        ),
        _ => true,
    }
}

/// A group of actions.
#[derive(Debug, Clone, Copy, PartialEq, Eq, Structural)]
pub enum ActionGroup {
    Sending,
    Composing,
    Picking,
    Lists,
    Overlays,
    Scrolling,
    Deciding,
    Viewing,
    Pointing,
    /// Actions that the host carries out.
    Host,
}

/// The group of an action.
pub open spec fn group_of(action: InputAction) -> ActionGroup {
    match action {
        InputAction::Ignored
        | InputAction::Quit
        | InputAction::SendChat(_)
        | InputAction::SendSlash(_)
        | InputAction::SendShell(_)
        | InputAction::Interrupt
        | InputAction::RecallQueued
        | InputAction::CtrlC
        | InputAction::CopySelection => ActionGroup::Sending,
        InputAction::InsertChar(_)
        | InputAction::Backspace
        | InputAction::Paste
        | InputAction::BracketedPaste(_)
        | InputAction::SuggestNext
        | InputAction::SuggestPrev
        | InputAction::AcceptSuggestion(_)
        | InputAction::CommitSuggestion(_)
        | InputAction::CloseCompletion
        | InputAction::HistoryPrev
        | InputAction::HistoryNext
        | InputAction::OpenCommands => ActionGroup::Composing,
        InputAction::OpenProvider
        | InputAction::ProviderPickerActivate
        | InputAction::ProviderPickerBack
        | InputAction::ProviderPickerToggleFavorite
        | InputAction::OpenModelEditor
        | InputAction::ModelEditorNextField
        | InputAction::ModelEditorEffortCycle { .. }
        | InputAction::ModelEditorThinkingToggle
        | InputAction::SubmitModelEditor
        | InputAction::ModelEnterSearch
        | InputAction::ModelExitSearch => ActionGroup::Picking,
        InputAction::OpenHistory
        | InputAction::HistoryEnterSearch
        | InputAction::HistoryExitSearch
        | InputAction::HistoryInsert
        | InputAction::HistoryTogglePreview
        | InputAction::ModalUp
        | InputAction::ModalDown
        | InputAction::SessionSelect { .. } => ActionGroup::Lists,
        InputAction::OpenHelp
        | InputAction::OpenPermissions
        | InputAction::OpenTools
        | InputAction::OpenMcp
        | InputAction::OpenSkills
        | InputAction::OpenConfig
        | InputAction::SkillsToggleDetail
        | InputAction::PermissionsActivate
        | InputAction::PermissionsClearAll
        | InputAction::SessionActivate
        | InputAction::OpenSelectedSession
        | InputAction::DeleteSelectedSession
        | InputAction::CloseModal => ActionGroup::Overlays,
        InputAction::ScrollUp
        | InputAction::ScrollDown
        | InputAction::ScrollPageUp
        | InputAction::ScrollPageDown
        | InputAction::ScrollTop
        | InputAction::ScrollBottom
        | InputAction::PermissionDetailsUp
        | InputAction::PermissionDetailsDown => ActionGroup::Scrolling,
        InputAction::PermissionSubmit
        | InputAction::PermissionReject
        | InputAction::PermissionBack
        | InputAction::QuestionUp
        | InputAction::QuestionDown
        | InputAction::QuestionToggle
        | InputAction::QuestionSelect(_)
        | InputAction::QuestionSubmit
        | InputAction::QuestionCancel
        | InputAction::QuestionInsertChar(_)
        | InputAction::QuestionBackspace => ActionGroup::Deciding,
        InputAction::ToggleToolSteps
        | InputAction::FocusNextTarget
        | InputAction::FocusPrevTarget
        | InputAction::ClearFocusedTarget
        | InputAction::ActivateFocusedTarget
        | InputAction::ExitEnvoy
        | InputAction::ExitSideView
        | InputAction::PrevSibling
        | InputAction::NextSibling => ActionGroup::Viewing,
        InputAction::SelectionStart { .. }
        | InputAction::SelectionUpdate { .. }
        | InputAction::SelectionEnd
        | InputAction::SelectBlock { .. }
        | InputAction::RightClick { .. }
        | InputAction::Hover { .. } => ActionGroup::Pointing,
        _ => ActionGroup::Host,
    }
}

fn find_group(action: &InputAction) -> (group: ActionGroup)
    ensures
        group == group_of(*action),
{
    match action {
        InputAction::Ignored
        | InputAction::Quit
        | InputAction::SendChat(_)
        | InputAction::SendSlash(_)
        | InputAction::SendShell(_)
        | InputAction::Interrupt
        | InputAction::RecallQueued
        | InputAction::CtrlC
        | InputAction::CopySelection => ActionGroup::Sending,
        InputAction::InsertChar(_)
        | InputAction::Backspace
        | InputAction::Paste
        | InputAction::BracketedPaste(_)
        | InputAction::SuggestNext
        | InputAction::SuggestPrev
        | InputAction::AcceptSuggestion(_)
        | InputAction::CommitSuggestion(_)
        | InputAction::CloseCompletion
        | InputAction::HistoryPrev
        | InputAction::HistoryNext
        | InputAction::OpenCommands => ActionGroup::Composing,
        InputAction::OpenProvider
        | InputAction::ProviderPickerActivate
        | InputAction::ProviderPickerBack
        | InputAction::ProviderPickerToggleFavorite
        | InputAction::OpenModelEditor
        | InputAction::ModelEditorNextField
        | InputAction::ModelEditorEffortCycle { .. }
        | InputAction::ModelEditorThinkingToggle
        | InputAction::SubmitModelEditor
        | InputAction::ModelEnterSearch
        | InputAction::ModelExitSearch => ActionGroup::Picking,
        InputAction::OpenHistory
        | InputAction::HistoryEnterSearch
        | InputAction::HistoryExitSearch
        | InputAction::HistoryInsert
        | InputAction::HistoryTogglePreview
        | InputAction::ModalUp
        | InputAction::ModalDown
        | InputAction::SessionSelect { .. } => ActionGroup::Lists,
        InputAction::OpenHelp
        | InputAction::OpenPermissions
        | InputAction::OpenTools
        | InputAction::OpenMcp
        | InputAction::OpenSkills
        | InputAction::OpenConfig
        | InputAction::SkillsToggleDetail
        | InputAction::PermissionsActivate
        | InputAction::PermissionsClearAll
        | InputAction::SessionActivate
        | InputAction::OpenSelectedSession
        | InputAction::DeleteSelectedSession
        | InputAction::CloseModal => ActionGroup::Overlays,
        InputAction::ScrollUp
        | InputAction::ScrollDown
        | InputAction::ScrollPageUp
        | InputAction::ScrollPageDown
        | InputAction::ScrollTop
        | InputAction::ScrollBottom
        | InputAction::PermissionDetailsUp
        | InputAction::PermissionDetailsDown => ActionGroup::Scrolling,
        InputAction::PermissionSubmit
        | InputAction::PermissionReject
        | InputAction::PermissionBack
        | InputAction::QuestionUp
        | InputAction::QuestionDown
        | InputAction::QuestionToggle
        | InputAction::QuestionSelect(_)
        | InputAction::QuestionSubmit
        | InputAction::QuestionCancel
        | InputAction::QuestionInsertChar(_)
        | InputAction::QuestionBackspace => ActionGroup::Deciding,
        InputAction::ToggleToolSteps
        | InputAction::FocusNextTarget
        | InputAction::FocusPrevTarget
        | InputAction::ClearFocusedTarget
        | InputAction::ActivateFocusedTarget
        | InputAction::ExitEnvoy
        | InputAction::ExitSideView
        | InputAction::PrevSibling
        | InputAction::NextSibling => ActionGroup::Viewing,
        InputAction::SelectionStart { .. }
        | InputAction::SelectionUpdate { .. }
        | InputAction::SelectionEnd
        | InputAction::SelectBlock { .. }
        | InputAction::RightClick { .. }
        | InputAction::Hover { .. } => ActionGroup::Pointing,
        _ => ActionGroup::Host,
    }
}

/// Whether only the client's state changed, and as `done` says.
pub open spec fn quietly(done: bool, r: UiRuntime, s: UiRuntime) -> bool {
    done && s == r
}

/// Actions that send something, or keep from it.
#[verifier::opaque]
pub open spec fn on_sending(
    a: App,
    r: UiRuntime,
    action: InputAction,
    facts: ActionFacts,
    b: App,
    s: UiRuntime,
) -> bool {
    match action {
        InputAction::Ignored => quietly(b == a, r, s),
        InputAction::Quit => quietly(b == (App { should_quit: true, ..a }), r, s),
        InputAction::SendChat(text) => prompt_submitted(a, r, text, b, s),
        InputAction::SendSlash(cmd) => slash_sent(a, r, cmd, facts.serving, b, s),
        InputAction::SendShell(command) => shell_sent(a, r, command, b, s),
        InputAction::Interrupt => quietly(interrupt_pressed(a, b), r, s),
        InputAction::RecallQueued => {
            &&& recalled_queued(a, r.messages@, b, s.messages@)
            &&& s == (UiRuntime { messages: s.messages, ..r })
        },
        InputAction::CtrlC => quietly(
            ctrl_c_pressed(a, facts.transcript_text, facts.now, b),
            r,
            s,
        ),
        InputAction::CopySelection => quietly(
            selection_copied(a, selected_in(a, facts.transcript_text), b),
            r,
            s,
        ),
        _ => b == a && s == r,
    }
}

/// Actions that edit the line.
#[verifier::opaque]
pub open spec fn on_composing(
    a: App,
    r: UiRuntime,
    action: InputAction,
    facts: ActionFacts,
    b: App,
    s: UiRuntime,
) -> bool {
    let count = facts.completions@.len() as usize;
    match action {
        InputAction::InsertChar(_) | InputAction::Backspace => quietly(
            reconciled(touched(a), b),
            r,
            s,
        ),
        InputAction::Paste => quietly(
            b.outbox@ == a.outbox@.push(Effect::ReadClipboard) && b == (App {
                outbox: b.outbox,
                ..a
            }),
            r,
            s,
        ),
        InputAction::BracketedPaste(text) => quietly(
            pasted(a, paste_of(text, facts), facts.vision, facts.now, b),
            r,
            s,
        ),
        InputAction::SuggestNext => quietly(b == suggestion_moved(a, true, count), r, s),
        InputAction::SuggestPrev => quietly(b == suggestion_moved(a, false, count), r, s),
        InputAction::AcceptSuggestion(index) => quietly(
            named_accepted(a, facts.completions@, index@, b),
            r,
            s,
        ),
        InputAction::CommitSuggestion(index) => quietly(
            committed(a, facts.completions@, index@, b),
            r,
            s,
        ),
        InputAction::CloseCompletion => quietly(b == menu_closed(a), r, s),
        InputAction::HistoryPrev => quietly(walked_back(a, b), r, s),
        InputAction::HistoryNext => quietly(walked_forward(a, b), r, s),
        InputAction::OpenCommands => quietly(palette_opened(a, b), r, s),
        _ => b == a && s == r,
    }
}

/// Actions of the provider picker and the key editor.
#[verifier::opaque]
pub open spec fn on_picking(
    a: App,
    r: UiRuntime,
    action: InputAction,
    facts: ActionFacts,
    b: App,
    s: UiRuntime,
) -> bool {
    let rows = entries(a, facts.picker_matches@);
    match action {
        InputAction::OpenProvider => quietly(picker_opened(a, b), r, s),
        InputAction::ProviderPickerActivate => quietly(row_activated(a, rows, b), r, s),
        InputAction::ProviderPickerBack => quietly(models_left(a, b), r, s),
        InputAction::ProviderPickerToggleFavorite => quietly(favorite_toggled(a, rows, b), r, s),
        InputAction::OpenModelEditor => quietly(row_edited(a, rows, b), r, s),
        InputAction::ModelEditorNextField => quietly(field_cycled(a, b), r, s),
        InputAction::ModelEditorEffortCycle { delta } => quietly(effort_cycled(a, delta, b), r, s),
        InputAction::ModelEditorThinkingToggle => quietly(b == thinking_toggled(a), r, s),
        InputAction::SubmitModelEditor => quietly(
            editor_submitted(a, facts.default_model, b),
            r,
            s,
        ),
        InputAction::ModelEnterSearch => quietly(b == model_search_entered(a), r, s),
        InputAction::ModelExitSearch => quietly(model_search_left(a, b), r, s),
        _ => b == a && s == r,
    }
}

/// Actions of the history overlay, and of lists in general.
#[verifier::opaque]
pub open spec fn on_lists(
    a: App,
    r: UiRuntime,
    action: InputAction,
    facts: ActionFacts,
    b: App,
    s: UiRuntime,
) -> bool {
    let picker_rows = picker_row_count(a, facts) as usize;
    let history_rows = history_row_count(a, facts);
    match action {
        InputAction::OpenHistory => quietly(history_opened(a, b), r, s),
        InputAction::HistoryEnterSearch => quietly(b == history_restarted(a, true), r, s),
        InputAction::HistoryExitSearch => quietly(
            line_emptied(history_restarted(a, false), b),
            r,
            s,
        ),
        InputAction::HistoryInsert => quietly(
            entry_inserted(a, facts.history_matches@, b),
            r,
            s,
        ),
        InputAction::HistoryTogglePreview => quietly(b == preview_toggled(a), r, s),
        InputAction::ModalUp => quietly(
            b == row_moved(a, false, picker_rows, history_rows),
            r,
            s,
        ),
        InputAction::ModalDown => quietly(
            b == row_moved(a, true, picker_rows, history_rows),
            r,
            s,
        ),
        InputAction::SessionSelect { forward } => quietly(
            b == manager_row_moved(a, forward),
            r,
            s,
        ),
        _ => b == a && s == r,
    }
}

/// Actions that open and close overlays, and act on their selection.
#[verifier::opaque]
pub open spec fn on_overlays(
    a: App,
    r: UiRuntime,
    action: InputAction,
    b: App,
    s: UiRuntime,
) -> bool {
    match action {
        InputAction::OpenHelp => quietly(help_opened(a, b), r, s),
        InputAction::OpenPermissions => quietly(permissions_opened(a, b), r, s),
        InputAction::OpenTools => quietly(manager_opened(a, Modal::Tools, b), r, s),
        InputAction::OpenMcp => quietly(manager_opened(a, Modal::Mcp, b), r, s),
        InputAction::OpenSkills => quietly(manager_opened(a, Modal::Skills, b), r, s),
        InputAction::OpenConfig => quietly(config_opened(a, b), r, s),
        InputAction::SkillsToggleDetail => quietly(b == skill_toggled(a), r, s),
        InputAction::PermissionsActivate => quietly(rule_revoked(a, b), r, s),
        InputAction::PermissionsClearAll => quietly(rules_cleared(a, b), r, s),
        InputAction::SessionActivate => quietly(tool_flipped(a, b), r, s),
        InputAction::OpenSelectedSession => quietly(session_opened(a, b), r, s),
        InputAction::DeleteSelectedSession => quietly(session_deleted(a, b), r, s),
        InputAction::CloseModal => quietly(modal_closed(a, b), r, s),
        _ => b == a && s == r,
    }
}

/// Actions that scroll.
#[verifier::opaque]
pub open spec fn on_scrolling(
    a: App,
    r: UiRuntime,
    action: InputAction,
    b: App,
    s: UiRuntime,
) -> bool {
    match action {
        InputAction::ScrollUp => quietly(b == wheel_scrolled(a, true), r, s),
        InputAction::ScrollDown => quietly(b == wheel_scrolled(a, false), r, s),
        InputAction::ScrollPageUp => quietly(b == page_scrolled(a, true), r, s),
        InputAction::ScrollPageDown => quietly(b == page_scrolled(a, false), r, s),
        InputAction::ScrollTop => quietly(b == edge_scrolled(a, true), r, s),
        InputAction::ScrollBottom => quietly(b == edge_scrolled(a, false), r, s),
        InputAction::PermissionDetailsUp => quietly(b == details_scrolled(a, true), r, s),
        InputAction::PermissionDetailsDown => quietly(b == details_scrolled(a, false), r, s),
        _ => b == a && s == r,
    }
}

/// Actions that decide on permissions and answer questions.
#[verifier::opaque]
pub open spec fn on_deciding(
    a: App,
    r: UiRuntime,
    action: InputAction,
    b: App,
    s: UiRuntime,
) -> bool {
    match action {
        InputAction::PermissionSubmit => permission_submitted(a, r, b, s),
        InputAction::PermissionReject => permission_rejected(a, r, b, s),
        InputAction::PermissionBack => quietly(b == confirmation_left(a), r, s),
        InputAction::QuestionUp => quietly(question_forwarded(a, QuestionAction::Up, b), r, s),
        InputAction::QuestionDown => quietly(
            question_forwarded(a, QuestionAction::Down, b),
            r,
            s,
        ),
        InputAction::QuestionToggle => quietly(
            question_forwarded(a, QuestionAction::Toggle, b),
            r,
            s,
        ),
        InputAction::QuestionSelect(n) => quietly(
            question_forwarded(a, QuestionAction::Select(n), b),
            r,
            s,
        ),
        InputAction::QuestionSubmit => quietly(
            question_forwarded(a, QuestionAction::Submit, b),
            r,
            s,
        ),
        InputAction::QuestionCancel => quietly(
            question_forwarded(a, QuestionAction::Cancel, b),
            r,
            s,
        ),
        InputAction::QuestionInsertChar(c) => quietly(
            question_forwarded(a, QuestionAction::InsertChar(c), b),
            r,
            s,
        ),
        InputAction::QuestionBackspace => quietly(
            question_forwarded(a, QuestionAction::Backspace, b),
            r,
            s,
        ),
        _ => b == a && s == r,
    }
}

/// Actions that move about in the transcript.
#[verifier::opaque]
pub open spec fn on_viewing(
    a: App,
    r: UiRuntime,
    action: InputAction,
    b: App,
    s: UiRuntime,
) -> bool {
    match action {
        InputAction::ToggleToolSteps => steps_toggled(a, r, b, s),
        InputAction::FocusNextTarget => quietly(moved_focus(a, false, b), r, s),
        InputAction::FocusPrevTarget => quietly(moved_focus(a, true, b), r, s),
        InputAction::ClearFocusedTarget => quietly(
            b == (App { view: TranscriptView { focused_target: None, ..a.view }, ..a }),
            r,
            s,
        ),
        InputAction::ActivateFocusedTarget => target_activated(a, r, b, s),
        InputAction::ExitEnvoy => quietly(
            if a.view.focus_stack@.len() > 0 {
                left_envoy(a, b)
            } else {
                b == a
            },
            r,
            s,
        ),
        InputAction::ExitSideView => quietly(
            if a.view.in_side_view {
                side_view_exited(a, b)
            } else {
                b == a
            },
            r,
            s,
        ),
        InputAction::PrevSibling => quietly(cycled_sibling(a, (-1) as i8, b), r, s),
        InputAction::NextSibling => quietly(cycled_sibling(a, 1, b), r, s),
        _ => b == a && s == r,
    }
}

/// Actions of the mouse.
#[verifier::opaque]
pub open spec fn on_pointing(
    a: App,
    r: UiRuntime,
    action: InputAction,
    facts: ActionFacts,
    b: App,
    s: UiRuntime,
) -> bool {
    match action {
        InputAction::SelectionStart { x, y } => pressed(a, r, x, y, facts.hits, b, s),
        InputAction::SelectionUpdate { x, y } => quietly(b == dragged_to(a, x, y), r, s),
        InputAction::SelectionEnd => quietly(b == drag_ended(a), r, s),
        InputAction::SelectBlock { x, y } => quietly(b == block_selected(a, x, y), r, s),
        InputAction::RightClick { x, y } => quietly(right_pressed(a, x, y, b), r, s),
        InputAction::Hover { x, y } => quietly(hovered(a, r.messages@, x, y, b), r, s),
        _ => b == a && s == r,
    }
}

fn copy_text(text: &Option<String>) -> (copy: Option<String>)
    ensures
        copy == *text,
{
    match text {
        Some(t) => Some(t.clone()),
        None => None,
    }
}

fn carry_out_sending(
    app: &mut App,
    runtime: &mut UiRuntime,
    action: InputAction,
    facts: &ActionFacts,
)
    ensures
        on_sending(*old(app), *old(runtime), action, *facts, *final(app), *final(runtime)),
{
    proof {
        reveal(on_sending);
    }
    match action {
        InputAction::Ignored => {},
        InputAction::Quit => {
            app.should_quit = true;
        },
        InputAction::SendChat(text) => send_chat(app, runtime, text),
        InputAction::SendSlash(cmd) => send_slash(app, runtime, cmd, facts.serving),
        InputAction::SendShell(command) => send_shell(app, runtime, command),
        InputAction::Interrupt => handle_interrupt(app),
        InputAction::RecallQueued => {
            let _ = app.recall_queued(&mut runtime.messages);
        },
        InputAction::CtrlC => handle_ctrl_c(app, copy_text(&facts.transcript_text), facts.now),
        InputAction::CopySelection => {
            let _ = copy_selection(app, copy_text(&facts.transcript_text));
        },
        _ => {},
    }
}

fn carry_out_composing(
    app: &mut App,
    runtime: &mut UiRuntime,
    action: InputAction,
    facts: &ActionFacts,
)
    requires
        facts_fit(*old(app), action, *facts),
    ensures
        on_composing(*old(app), *old(runtime), action, *facts, *final(app), *final(runtime)),
{
    proof {
        reveal(on_composing);
    }
    match action {
        InputAction::InsertChar(_) | InputAction::Backspace => note_edit(app),
        InputAction::Paste => app.outbox.push(Effect::ReadClipboard),
        InputAction::BracketedPaste(text) => apply_clipboard_paste(
            app,
            ClipboardRead::Text { text, chip_lines: facts.paste_chip_lines },
            facts.vision,
            facts.now,
        ),
        InputAction::SuggestNext => move_suggestion(app, true, facts.completions.len()),
        InputAction::SuggestPrev => move_suggestion(app, false, facts.completions.len()),
        InputAction::AcceptSuggestion(index) => accept_suggestion(
            app,
            &facts.completions,
            index.as_str(),
        ),
        InputAction::CommitSuggestion(index) => commit_suggestion(
            app,
            &facts.completions,
            index.as_str(),
        ),
        InputAction::CloseCompletion => close_completion(app),
        InputAction::HistoryPrev => history_prev(app),
        InputAction::HistoryNext => history_next(app),
        InputAction::OpenCommands => open_commands(app),
        _ => {},
    }
}

fn carry_out_picking(
    app: &mut App,
    runtime: &mut UiRuntime,
    action: InputAction,
    facts: &ActionFacts,
)
    requires
        facts_fit(*old(app), action, *facts),
    ensures
        on_picking(*old(app), *old(runtime), action, *facts, *final(app), *final(runtime)),
{
    proof {
        reveal(on_picking);
    }
    match action {
        InputAction::OpenProvider => open_provider(app),
        InputAction::ProviderPickerActivate => activate_picker_row(app, &facts.picker_matches),
        InputAction::ProviderPickerBack => leave_models(app),
        InputAction::ProviderPickerToggleFavorite => toggle_favorite(app, &facts.picker_matches),
        InputAction::OpenModelEditor => open_model_editor(app, &facts.picker_matches),
        InputAction::ModelEditorNextField => next_editor_field(app),
        InputAction::ModelEditorEffortCycle { delta } => cycle_effort(app, delta),
        InputAction::ModelEditorThinkingToggle => toggle_thinking(app),
        InputAction::SubmitModelEditor => submit_model_editor(app, &facts.default_model),
        InputAction::ModelEnterSearch => enter_model_search(app),
        InputAction::ModelExitSearch => exit_model_search(app),
        _ => {},
    }
}

fn list_rows(app: &App, facts: &ActionFacts) -> (count: usize)
    requires
        matches_fit(*app, facts.history_matches@),
    ensures
        count == history_row_count(*app, *facts),
{
    let rows: Vec<(usize, FuzzyMatch)> = app.history_rows(&facts.history_matches);
    rows.len()
}

fn move_selection(app: &mut App, down: bool, facts: &ActionFacts)
    requires
        old(app).overlay.modal_index < usize::MAX,
        old(app).overlay.active_modal == Modal::Provider ==> picker_fits(*old(app), *facts),
        old(app).overlay.active_modal == Modal::HistorySearch ==> matches_fit(
            *old(app),
            facts.history_matches@,
        ),
    ensures
        *final(app) == row_moved(
            *old(app),
            down,
            picker_row_count(*old(app), *facts) as usize,
            history_row_count(*old(app), *facts),
        ),
{
    let history_rows: usize = if app.overlay.active_modal == Modal::HistorySearch {
        list_rows(app, facts)
    } else {
        0
    };
    let picker_rows: usize = if app.overlay.active_modal == Modal::Provider {
        picker_entries(app, &facts.picker_matches).len()
    } else {
        0
    };
    move_row(app, down, picker_rows, history_rows);
}

fn carry_out_lists(
    app: &mut App,
    runtime: &mut UiRuntime,
    action: InputAction,
    facts: &ActionFacts,
)
    requires
        facts_fit(*old(app), action, *facts),
    ensures
        on_lists(*old(app), *old(runtime), action, *facts, *final(app), *final(runtime)),
{
    proof {
        reveal(on_lists);
    }
    match action {
        InputAction::OpenHistory => open_history(app),
        InputAction::HistoryEnterSearch => enter_history_search(app),
        InputAction::HistoryExitSearch => exit_history_search(app),
        InputAction::HistoryInsert => insert_history(app, &facts.history_matches),
        InputAction::HistoryTogglePreview => toggle_history_preview(app),
        InputAction::ModalUp => move_selection(app, false, facts),
        InputAction::ModalDown => move_selection(app, true, facts),
        InputAction::SessionSelect { forward } => move_manager_row(app, forward),
        _ => {},
    }
}

fn carry_out_overlays(
    app: &mut App,
    runtime: &mut UiRuntime,
    action: InputAction,
)
    ensures
        on_overlays(*old(app), *old(runtime), action, *final(app), *final(runtime)),
{
    proof {
        reveal(on_overlays);
    }
    match action {
        InputAction::OpenHelp => open_help(app),
        InputAction::OpenPermissions => open_permissions(app),
        InputAction::OpenTools => open_manager(app, Modal::Tools),
        InputAction::OpenMcp => open_manager(app, Modal::Mcp),
        InputAction::OpenSkills => open_manager(app, Modal::Skills),
        InputAction::OpenConfig => open_config(app),
        InputAction::SkillsToggleDetail => toggle_skill(app),
        InputAction::PermissionsActivate => revoke_selected(app),
        InputAction::PermissionsClearAll => clear_permissions(app),
        InputAction::SessionActivate => flip_selected_tool(app),
        InputAction::OpenSelectedSession => open_selected_session(app),
        InputAction::DeleteSelectedSession => delete_selected_session(app),
        InputAction::CloseModal => close_modal(app),
        _ => {},
    }
}

fn carry_out_scrolling(
    app: &mut App,
    runtime: &mut UiRuntime,
    action: InputAction,
)
    ensures
        on_scrolling(*old(app), *old(runtime), action, *final(app), *final(runtime)),
{
    proof {
        reveal(on_scrolling);
    }
    match action {
        InputAction::ScrollUp => scroll_wheel(app, true),
        InputAction::ScrollDown => scroll_wheel(app, false),
        InputAction::ScrollPageUp => scroll_page(app, true),
        InputAction::ScrollPageDown => scroll_page(app, false),
        InputAction::ScrollTop => scroll_edge(app, true),
        InputAction::ScrollBottom => scroll_edge(app, false),
        InputAction::PermissionDetailsUp => scroll_details(app, true),
        InputAction::PermissionDetailsDown => scroll_details(app, false),
        _ => {},
    }
}

fn carry_out_deciding(
    app: &mut App,
    runtime: &mut UiRuntime,
    action: InputAction,
)
    ensures
        on_deciding(*old(app), *old(runtime), action, *final(app), *final(runtime)),
{
    proof {
        reveal(on_deciding);
    }
    match action {
        InputAction::PermissionSubmit => handle_permission_submit(app, runtime),
        InputAction::PermissionReject => handle_permission_reject(app, runtime),
        InputAction::PermissionBack => leave_confirmation(app),
        InputAction::QuestionUp => forward_question(app, QuestionAction::Up),
        InputAction::QuestionDown => forward_question(app, QuestionAction::Down),
        InputAction::QuestionToggle => forward_question(app, QuestionAction::Toggle),
        InputAction::QuestionSelect(n) => forward_question(app, QuestionAction::Select(n)),
        InputAction::QuestionSubmit => forward_question(app, QuestionAction::Submit),
        InputAction::QuestionCancel => forward_question(app, QuestionAction::Cancel),
        InputAction::QuestionInsertChar(c) => forward_question(app, QuestionAction::InsertChar(c)),
        InputAction::QuestionBackspace => forward_question(app, QuestionAction::Backspace),
        _ => {},
    }
}

fn carry_out_viewing(
    app: &mut App,
    runtime: &mut UiRuntime,
    action: InputAction,
)
    ensures
        on_viewing(*old(app), *old(runtime), action, *final(app), *final(runtime)),
{
    proof {
        reveal(on_viewing);
    }
    match action {
        InputAction::ToggleToolSteps => toggle_tool_steps(app, runtime),
        InputAction::FocusNextTarget => app.focus_interactive_target(1),
        InputAction::FocusPrevTarget => app.focus_interactive_target(-1),
        InputAction::ClearFocusedTarget => {
            app.view.focused_target = None;
        },
        InputAction::ActivateFocusedTarget => activate_focused_target(app, runtime),
        InputAction::ExitEnvoy => {
            let _ = app.exit_envoy();
        },
        InputAction::ExitSideView => {
            if app.view.in_side_view {
                exit_side_conversation(app);
            }
        },
        InputAction::PrevSibling => app.cycle_sibling(-1),
        InputAction::NextSibling => app.cycle_sibling(1),
        _ => {},
    }
}

fn carry_out_pointing(
    app: &mut App,
    runtime: &mut UiRuntime,
    action: InputAction,
    facts: &ActionFacts,
)
    requires
        facts_fit(*old(app), action, *facts),
    ensures
        on_pointing(*old(app), *old(runtime), action, *facts, *final(app), *final(runtime)),
{
    proof {
        reveal(on_pointing);
    }
    match action {
        InputAction::SelectionStart { x, y } => press(app, runtime, x, y, facts.hits),
        InputAction::SelectionUpdate { x, y } => drag_to(app, x, y),
        InputAction::SelectionEnd => end_drag(app),
        InputAction::SelectBlock { x, y } => select_block(app, x, y),
        InputAction::RightClick { x, y } => right_press(app, x, y),
        InputAction::Hover { x, y } => hover(app, &runtime.messages, x, y),
        _ => {},
    }
}

/// What `action` did: what its group says. The host's actions change nothing
/// here.
pub open spec fn carried_out(
    a: App,
    r: UiRuntime,
    action: InputAction,
    facts: ActionFacts,
    b: App,
    s: UiRuntime,
) -> bool {
    match group_of(action) {
        ActionGroup::Sending => on_sending(a, r, action, facts, b, s),
        ActionGroup::Composing => on_composing(a, r, action, facts, b, s),
        ActionGroup::Picking => on_picking(a, r, action, facts, b, s),
        ActionGroup::Lists => on_lists(a, r, action, facts, b, s),
        ActionGroup::Overlays => on_overlays(a, r, action, b, s),
        ActionGroup::Scrolling => on_scrolling(a, r, action, b, s),
        ActionGroup::Deciding => on_deciding(a, r, action, b, s),
        ActionGroup::Viewing => on_viewing(a, r, action, b, s),
        ActionGroup::Pointing => on_pointing(a, r, action, facts, b, s),
        ActionGroup::Host => b == a && s == r,
    }
}

/// Carries `action` out. One of the host's actions comes back.
pub fn dispatch(
    app: &mut App,
    runtime: &mut UiRuntime,
    action: InputAction,
    facts: &ActionFacts,
) -> (left: Option<InputAction>)
    requires
        facts_fit(*old(app), action, *facts),
    ensures
        left == (if group_of(action) == ActionGroup::Host {
            Some(action)
        } else {
            None
        }),
        carried_out(*old(app), *old(runtime), action, *facts, *final(app), *final(runtime)),
{
    match find_group(&action) {
        ActionGroup::Sending => carry_out_sending(app, runtime, action, facts),
        ActionGroup::Composing => carry_out_composing(app, runtime, action, facts),
        ActionGroup::Picking => carry_out_picking(app, runtime, action, facts),
        ActionGroup::Lists => carry_out_lists(app, runtime, action, facts),
        ActionGroup::Overlays => carry_out_overlays(app, runtime, action),
        ActionGroup::Scrolling => carry_out_scrolling(app, runtime, action),
        ActionGroup::Deciding => carry_out_deciding(app, runtime, action),
        ActionGroup::Viewing => carry_out_viewing(app, runtime, action),
        ActionGroup::Pointing => carry_out_pointing(app, runtime, action, facts),
        ActionGroup::Host => {
            return Some(action);
        },
    }
    None
}

} // verus!
