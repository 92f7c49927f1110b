//! The state that gives an event its meaning.
use crate::modal::CompletionKind;
use crate::modal::Modal;
use vstd::prelude::*;

verus! {

/// The state that gives an event its meaning.
#[derive(Debug, Clone, Copy, PartialEq, Eq)]
pub struct InputContext {
    pub active_modal: Modal,
    /// Whether a click outside the open overlay closes it.
    pub modal_dismissable: bool,
    /// Whether a turn is running.
    pub is_responding: bool,
    /// The completion menu, if any is open.
    pub completion_kind: CompletionKind,
    pub suggestion_count: usize,
    /// Whether the line is exactly one of the suggestions.
    pub has_exact_suggestion: bool,
    /// The highlighted suggestion.
    pub suggestion_index: Option<usize>,
    pub permission_confirm_always: bool,
    /// Whether the permission sheet shows its details.
    pub permission_show_details: bool,
    /// Whether the view is zoomed into an envoy task.
    pub in_envoy_view: bool,
    /// Whether the view is in a side conversation.
    pub in_side_view: bool,
    /// Whether a transcript target holds the keyboard focus.
    pub has_focused_target: bool,
    /// Whether a message waits in the send queue.
    pub has_queued: bool,
    /// Whether the history overlay is searching.
    pub history_searching: bool,
    /// Whether the picker is searching.
    pub model_searching: bool,
    /// Whether the picker shows the models of one provider.
    pub picker_in_models_stage: bool,
    /// The focused field of the provider editor.
    pub custom_provider_field: Option<u8>,
    /// The focused field of the key editor: 0 the key, 1 the effort, 2 the
    /// thinking switch.
    pub editor_field: Option<u8>,
    /// Whether the question overlay's free-text row is highlighted.
    pub question_other_highlighted: bool,
}

impl Default for InputContext {
    fn default() -> (context: Self)
        ensures
            context == (InputContext {
                active_modal: Modal::Closed,
                modal_dismissable: false,
                is_responding: false,
                completion_kind: CompletionKind::Closed,
                suggestion_count: 0,
                has_exact_suggestion: false,
                suggestion_index: None,
                permission_confirm_always: false,
                permission_show_details: false,
                in_envoy_view: false,
                in_side_view: false,
                has_focused_target: false,
                has_queued: false,
                history_searching: false,
                model_searching: false,
                picker_in_models_stage: false,
                custom_provider_field: None,
                editor_field: None,
                question_other_highlighted: false,
            }),
    {
        InputContext {
            active_modal: Modal::Closed,
            modal_dismissable: false,
            is_responding: false,
            completion_kind: CompletionKind::Closed,
            suggestion_count: 0,
            has_exact_suggestion: false,
            suggestion_index: None,
            permission_confirm_always: false,
            permission_show_details: false,
            in_envoy_view: false,
            in_side_view: false,
            has_focused_target: false,
            has_queued: false,
            history_searching: false,
            model_searching: false,
            picker_in_models_stage: false,
            custom_provider_field: None,
            editor_field: None,
            question_other_highlighted: false,
        }
    }
}

/// Whether an overlay lets the user edit the input line.
pub open spec fn is_editing_surface(
    modal: Modal,
    history_searching: bool,
    model_searching: bool,
    custom_text_field: bool,
) -> bool {
    match modal {
        Modal::Closed | Modal::ModelEditor | Modal::AddModel | Modal::InputInjection => true,
        Modal::Provider => model_searching,
        Modal::HistorySearch => history_searching,
        Modal::CustomProvider => custom_text_field,
        _ => false,
    }
}

/// Whether an overlay lets the user edit the input line. The history and the
/// picker do so only while they search.
pub fn edits_input_field(
    modal: Modal,
    history_searching: bool,
    model_searching: bool,
    custom_text_field: bool,
) -> (edits: bool)
    ensures
        edits == is_editing_surface(modal, history_searching, model_searching, custom_text_field),
{
    match modal {
        Modal::Closed | Modal::ModelEditor | Modal::AddModel | Modal::InputInjection => true,
        Modal::Provider => model_searching,
        Modal::HistorySearch => history_searching,
        Modal::CustomProvider => custom_text_field,
        _ => false,
    }
}

impl InputContext {
    /// Whether the user can edit the input line.
    pub open spec fn editing(self) -> bool {
        is_editing_surface(
            self.active_modal,
            self.history_searching,
            self.model_searching,
            self.custom_provider_field is Some,
        )
    }

    /// Whether a completion menu with suggestions is open.
    pub open spec fn menu_open(self) -> bool {
        self.completion_kind != CompletionKind::Closed && self.suggestion_count > 0
    }

    /// Whether a field of the provider editor is focused.
    pub fn custom_text_field_focused(&self) -> (focused: bool)
        ensures
            focused == self.custom_provider_field is Some,
    {
        self.custom_provider_field.is_some()
    }

    /// Whether the user can edit the input line.
    pub fn edits_line(&self) -> (edits: bool)
        ensures
            edits == self.editing(),
    {
        edits_input_field(
            self.active_modal,
            self.history_searching,
            self.model_searching,
            self.custom_text_field_focused(),
        )
    }

    /// Whether a completion menu with suggestions is open.
    pub fn has_menu(&self) -> (open: bool)
        ensures
            open == self.menu_open(),
    {
        self.completion_kind != CompletionKind::Closed && self.suggestion_count > 0
    }
}

} // verus!
