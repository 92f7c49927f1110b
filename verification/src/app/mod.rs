//! The state of the client.
pub mod caret;
pub mod composer;
pub mod editing_laws;
pub mod focus;
pub mod navigate;
pub mod picker;
pub mod switching;

use crate::agent::AgentRequest;
use crate::agent::ParentStatus;
use crate::agent::PermissionRequest;
use crate::agent::Pursuit;
use crate::agent::SessionContextSnapshot;
use crate::agent::SessionOverview;
use crate::agent::TodoList;
use crate::attachments::ImagePart;
use crate::document::TranscriptMessage;
use crate::layout::empty_layout;
use crate::layout::InteractiveTarget;
use crate::layout::LayoutMap;
use crate::layout::Rect;
use crate::modal::ActivityTab;
use crate::modal::Modal;
use crate::providers::ProviderPickerRow;
use crate::providers::ProviderPickerSnapshot;
use crate::selection::idle_drag;
use crate::selection::SelectionDrag;
use crate::selection::SelectionState;
use std::collections::VecDeque;
use vstd::prelude::*;

verus! {

/// A user message that waits for the running turn to finish.
#[derive(Debug)]
pub struct QueuedDispatch {
    /// The prompt as typed.
    pub text: String,
    pub images: Vec<ImagePart>,
    /// The staged texts behind the chips of `text`.
    pub text_pastes: Vec<String>,
}

/// The surface that owns the terminal cursor.
#[derive(Debug, Clone, Copy, PartialEq, Eq, Structural)]
pub enum CaretOwner {
    /// The composer.
    Composer,
    /// The open overlay.
    Modal,
    /// No surface takes text; the cursor is hidden.
    Nobody,
}

/// A scroll position.
#[derive(Debug, Clone, Copy, PartialEq, Eq, Structural)]
pub struct ScrollSnapshot {
    pub offset: u16,
    pub follow_bottom: bool,
}

impl Default for ScrollSnapshot {
    fn default() -> (snapshot: Self)
        ensures
            snapshot == (ScrollSnapshot { offset: 0, follow_bottom: false }),
    {
        ScrollSnapshot { offset: 0, follow_bottom: false }
    }
}

/// An envoy task that the view is zoomed into, with the scroll position of
/// the view behind it.
#[derive(Debug, PartialEq)]
pub struct ZoomFrame {
    pub call_id: String,
    pub saved_scroll: ScrollSnapshot,
}

impl Clone for ZoomFrame {
    fn clone(&self) -> (copy: Self)
        ensures
            copy == *self,
    {
        ZoomFrame { call_id: self.call_id.clone(), saved_scroll: self.saved_scroll }
    }
}

/// The open question, as far as routing needs it.
#[derive(Debug)]
pub struct QuestionState {
    pub request_id: String,
    /// Whether the free-text row is highlighted.
    pub other_highlighted: bool,
}

/// A field of the provider editor.
#[derive(Debug, Clone, Copy, PartialEq, Eq, Structural)]
pub enum CustomField {
    Name,
    BaseUrl,
    Token,
    Model,
}

/// What the host has to do.
#[derive(Debug)]
pub enum Effect {
    /// Send a request to the agent.
    Send(AgentRequest),
    /// Put text on the system clipboard.
    Copy(String),
    /// Read the system clipboard.
    ReadClipboard,
    /// Add an entry to the stored history.
    SaveHistory(String),
    /// Show the whole output of a tool step.
    OpenStepDetail(usize),
    /// Forward an action to the question overlay.
    Question(QuestionAction),
    /// Attach or detach the live session server.
    Serve(ServeCommand),
}

/// What the user does in the question overlay.
#[derive(Debug, Clone, Copy, PartialEq, Eq, Structural)]
pub enum QuestionAction {
    Up,
    Down,
    Toggle,
    Select(usize),
    Submit,
    Cancel,
    InsertChar(char),
    Backspace,
}

/// What becomes of the live session server.
#[derive(Debug, Clone, Copy, PartialEq, Eq, Structural)]
pub enum ServeCommand {
    /// Listen on a port; 0 leaves the choice to the system.
    Start(u16),
    Stop,
}

/// The input line and what belongs to it.
#[derive(Debug)]
pub struct Composer {
    /// The text of the line.
    pub input: String,
    /// The caret, as a character index.
    pub cursor_position: usize,
    /// Whether the terminal cursor has to follow before the next frame.
    pub cursor_sync_pending: bool,
    pub input_scroll: usize,
    /// Where the line was drawn in the latest frame.
    pub last_input_rect: Rect,
    /// The highlighted suggestion.
    pub suggestion_index: Option<usize>,
    /// Whether the completion menu stays closed until the next edit.
    pub completion_dismissed: bool,
    /// Whether a project scan for path completion is at hand.
    pub path_scan_cached: bool,
    /// The draft that an overlay has parked while it borrows the line.
    pub stashed_input: String,
    /// Images staged behind `[Image #N]` chips.
    pub pending_images: Vec<ImagePart>,
    /// Texts staged behind `[Pasted text #N +M lines]` chips.
    pub pending_text_pastes: Vec<String>,
    /// Messages that wait for the running turn.
    pub pending_dispatch: VecDeque<QueuedDispatch>,
    pub input_history: Vec<String>,
    /// The history entry shown in the line.
    pub history_index: Option<usize>,
    /// What was in the line before walking the history.
    pub history_draft: String,
}

/// The transcript and how much of it is in view.
#[derive(Debug)]
pub struct TranscriptView {
    pub messages: Vec<TranscriptMessage>,
    pub side_messages: Vec<TranscriptMessage>,
    pub in_side_view: bool,
    pub side_session_id: Option<String>,
    pub parent_status: ParentStatus,
    pub scroll: u16,
    /// Whether the view follows the newest content.
    pub follow_bottom: bool,
    pub content_lines: usize,
    pub view_height: u16,
    pub max_scroll: u16,
    /// The step whose header is pinned to the top of the view.
    pub sticky_step: Option<usize>,
    pub sticky_rect: Option<Rect>,
    /// Content line of the pinned header.
    pub sticky_summary_line: Option<usize>,
    /// Content line that the scroll limit has to let reach the top.
    pub pin_summary_line: Option<usize>,
    /// Envoy tasks that the view is zoomed into, innermost last.
    pub focus_stack: Vec<ZoomFrame>,
    pub selection: SelectionState,
    pub drag: SelectionDrag,
    pub hovered_step: Option<usize>,
    /// The transcript target that holds the keyboard focus.
    pub focused_target: Option<InteractiveTarget>,
}

/// Where things were drawn in the latest frame.
#[derive(Debug)]
pub struct Screen {
    pub layout_map: LayoutMap,
    pub activity_rect: Option<Rect>,
    pub todos_rect: Option<Rect>,
    /// The context meter in the hint bar.
    pub hint_context_rect: Option<Rect>,
    /// Panel of the open overlay, where a click beside it closes it.
    pub modal_rect: Option<Rect>,
}

/// The open overlay and the scroll positions of the overlays.
#[derive(Debug)]
pub struct Overlay {
    pub active_modal: Modal,
    /// Selected row.
    pub modal_index: usize,
    pub session_scroll: usize,
    pub session_modal_follow: bool,
    pub permissions_scroll: usize,
    pub config_scroll: usize,
    pub skills_expanded: Option<usize>,
    pub history_scroll: usize,
    pub history_modal_follow: bool,
    pub history_preview: bool,
    pub history_search: bool,
    pub activity_tab: ActivityTab,
    pub activity_scroll: usize,
    pub help_scroll: usize,
    pub question_scroll: usize,
    pub question_modal_follow: bool,
}

/// The permission sheet.
#[derive(Debug)]
pub struct PermissionSheet {
    pub pending_permission: Option<PermissionRequest>,
    pub permission_confirm_always: bool,
    pub permission_show_details: bool,
    pub permission_scroll: usize,
    pub permission_max_scroll: usize,
}

/// What is known of the session.
#[derive(Debug)]
pub struct SessionMirror {
    pub sessions_overview: Vec<SessionOverview>,
    pub session_context: Option<SessionContextSnapshot>,
    pub current_provider: String,
    pub current_model: String,
    pub current_pursuit: Option<Pursuit>,
    pub loop_status: String,
    pub activity_status: String,
    pub unattended: bool,
    pub todos: Option<TodoList>,
    pub round_count: u64,
    pub current_turn: u64,
    pub review_alert: String,
    /// Whether new tool steps start unfolded.
    pub tool_density: bool,
}

/// The provider and model picker.
#[derive(Debug)]
pub struct Picker {
    pub provider_picker: ProviderPickerSnapshot,
    /// Which providers have a key, as far as is known; a later entry replaces
    /// an earlier one.
    pub key_status: Vec<(String, bool)>,
    pub model_search: bool,
    /// The provider whose models are shown.
    pub picker_provider: Option<usize>,
    pub model_scroll: usize,
    pub model_modal_follow: bool,
    /// The provider that the add-model overlay is open for.
    pub add_model_provider: Option<String>,
    pub add_model_choice: usize,
    /// Selected row of the template chooser.
    pub template_choice: usize,
}

/// The key editor.
#[derive(Debug)]
pub struct KeyEditor {
    /// The provider whose key is edited.
    pub editor_target: Option<String>,
    /// Focused field: 0 is the key, 1 the effort, 2 the thinking switch.
    pub editor_field: u8,
    /// The key while another field is focused.
    pub editor_key: String,
    /// The model to use once the key is there.
    pub editor_model: String,
    /// The chosen reasoning effort.
    pub editor_effort: String,
    /// Whether extended thinking is chosen.
    pub editor_thinking: bool,
}

/// The provider editor. The focused field lives in the input line.
#[derive(Debug)]
pub struct ProviderEditor {
    /// Focused field, as a position in `custom_fields`.
    pub custom_field: u8,
    pub custom_fields: Vec<CustomField>,
    pub custom_protocol_wire: String,
    pub custom_models: Vec<String>,
    pub custom_url_hint: String,
    pub custom_suggest_index: usize,
    /// The provider being edited; nothing while one is created.
    pub custom_edit_id: Option<String>,
    pub custom_name: String,
    pub custom_base_url: String,
    pub custom_token: String,
    pub custom_model: String,
}

/// A short message above the composer, and what a second key press would do.
#[derive(Debug)]
pub struct Toast {
    pub copy_toast_message: String,
    pub copy_toast_failed: bool,
    /// When the message goes away, in milliseconds of the host's clock.
    pub copy_toast_until: Option<u64>,
    /// Ticks left in which a second Control+C leaves.
    pub ctrl_c_armed_ticks: u8,
    /// Ticks left in which a second `Esc` interrupts.
    pub esc_armed_ticks: u8,
}

/// The state of the client.
#[derive(Debug)]
pub struct App {
    pub composer: Composer,
    pub view: TranscriptView,
    pub screen: Screen,
    pub overlay: Overlay,
    pub permission: PermissionSheet,
    pub question: Option<QuestionState>,
    pub session: SessionMirror,
    pub picker: Picker,
    pub key_editor: KeyEditor,
    pub provider_editor: ProviderEditor,
    pub toast: Toast,
    pub should_quit: bool,
    /// What the host has yet to do, oldest first.
    pub outbox: Vec<Effect>,
}

/// Whether `composer` is an empty line behind `history`.
pub open spec fn is_fresh_composer(composer: Composer, history: Vec<String>) -> bool {
    &&& composer.input@ == Seq::<char>::empty()
    &&& composer.cursor_position == 0
    &&& !composer.cursor_sync_pending
    &&& composer.input_scroll == 0
    &&& composer.last_input_rect == (Rect { x: 0, y: 0, width: 0, height: 0 })
    &&& composer.suggestion_index is None
    &&& !composer.completion_dismissed
    &&& !composer.path_scan_cached
    &&& composer.stashed_input@ == Seq::<char>::empty()
    &&& composer.pending_images@ == Seq::<ImagePart>::empty()
    &&& composer.pending_text_pastes@ == Seq::<String>::empty()
    &&& composer.pending_dispatch@ == Seq::<QueuedDispatch>::empty()
    &&& composer.input_history == history
    &&& composer.history_index is None
    &&& composer.history_draft@ == Seq::<char>::empty()
}

/// Whether `view` is an empty transcript that follows its bottom.
pub open spec fn is_fresh_view(view: TranscriptView) -> bool {
    &&& view.messages@ == Seq::<TranscriptMessage>::empty()
    &&& view.side_messages@ == Seq::<TranscriptMessage>::empty()
    &&& view.focus_stack@ == Seq::<ZoomFrame>::empty()
    &&& view == (TranscriptView {
        messages: view.messages,
        side_messages: view.side_messages,
        in_side_view: false,
        side_session_id: None,
        parent_status: ParentStatus::Idle,
        scroll: 0,
        follow_bottom: true,
        content_lines: 0,
        view_height: 0,
        max_scroll: 0,
        sticky_step: None,
        sticky_rect: None,
        sticky_summary_line: None,
        pin_summary_line: None,
        focus_stack: view.focus_stack,
        selection: SelectionState::Empty,
        drag: idle_drag(),
        hovered_step: None,
        focused_target: None,
    })
}

/// The overlays as they are when none has been open yet.
pub open spec fn fresh_overlay() -> Overlay {
    Overlay {
        active_modal: Modal::Closed,
        modal_index: 0,
        session_scroll: 0,
        session_modal_follow: true,
        permissions_scroll: 0,
        config_scroll: 0,
        skills_expanded: None,
        history_scroll: 0,
        history_modal_follow: true,
        history_preview: false,
        history_search: false,
        activity_tab: ActivityTab::Activity,
        activity_scroll: 0,
        help_scroll: 0,
        question_scroll: 0,
        question_modal_follow: true,
    }
}

/// Whether nothing is known of `session` but the model in use.
pub open spec fn is_fresh_session(session: SessionMirror, provider: String, model: String) -> bool {
    &&& session.sessions_overview@ == Seq::<SessionOverview>::empty()
    &&& session.loop_status@ == "idle"@
    &&& session.activity_status@ == Seq::<char>::empty()
    &&& session.review_alert@ == Seq::<char>::empty()
    &&& session == (SessionMirror {
        sessions_overview: session.sessions_overview,
        session_context: None,
        current_provider: provider,
        current_model: model,
        current_pursuit: None,
        loop_status: session.loop_status,
        activity_status: session.activity_status,
        unattended: false,
        todos: None,
        round_count: 0,
        current_turn: 0,
        review_alert: session.review_alert,
        tool_density: false,
    })
}

/// Whether `picker` lists nothing yet.
pub open spec fn is_fresh_picker(picker: Picker) -> bool {
    &&& picker.provider_picker.default_id@ == Seq::<char>::empty()
    &&& picker.provider_picker.rows@ == Seq::<ProviderPickerRow>::empty()
    &&& picker.key_status@ == Seq::<(String, bool)>::empty()
    &&& picker == (Picker {
        provider_picker: picker.provider_picker,
        key_status: picker.key_status,
        model_search: false,
        picker_provider: None,
        model_scroll: 0,
        model_modal_follow: true,
        add_model_provider: None,
        add_model_choice: 0,
        template_choice: 0,
    })
}

/// Whether no key or provider is being edited.
pub open spec fn are_fresh_editors(key: KeyEditor, provider: ProviderEditor) -> bool {
    &&& key.editor_target is None
    &&& key.editor_field == 0
    &&& key.editor_key@ == Seq::<char>::empty()
    &&& key.editor_model@ == Seq::<char>::empty()
    &&& key.editor_effort@ == "high"@
    &&& key.editor_thinking
    &&& provider.custom_field == 0
    &&& provider.custom_fields@ == Seq::<CustomField>::empty()
    &&& provider.custom_protocol_wire@ == Seq::<char>::empty()
    &&& provider.custom_models@ == Seq::<String>::empty()
    &&& provider.custom_url_hint@ == Seq::<char>::empty()
    &&& provider.custom_suggest_index == 0
    &&& provider.custom_edit_id is None
    &&& provider.custom_name@ == Seq::<char>::empty()
    &&& provider.custom_base_url@ == Seq::<char>::empty()
    &&& provider.custom_token@ == Seq::<char>::empty()
    &&& provider.custom_model@ == Seq::<char>::empty()
}

impl Composer {
    /// An empty line behind `history`.
    pub fn new(history: Vec<String>) -> (composer: Self)
        ensures
            is_fresh_composer(composer, history),
    {
        Composer {
            input: String::new(),
            cursor_position: 0,
            cursor_sync_pending: false,
            input_scroll: 0,
            last_input_rect: Rect::new(0, 0, 0, 0),
            suggestion_index: None,
            completion_dismissed: false,
            path_scan_cached: false,
            stashed_input: String::new(),
            pending_images: Vec::new(),
            pending_text_pastes: Vec::new(),
            pending_dispatch: VecDeque::new(),
            input_history: history,
            history_index: None,
            history_draft: String::new(),
        }
    }
}

impl TranscriptView {
    /// An empty transcript that follows its bottom.
    pub fn new() -> (view: Self)
        ensures
            is_fresh_view(view),
    {
        TranscriptView {
            messages: Vec::new(),
            side_messages: Vec::new(),
            in_side_view: false,
            side_session_id: None,
            parent_status: ParentStatus::Idle,
            scroll: 0,
            follow_bottom: true,
            content_lines: 0,
            view_height: 0,
            max_scroll: 0,
            sticky_step: None,
            sticky_rect: None,
            sticky_summary_line: None,
            pin_summary_line: None,
            focus_stack: Vec::new(),
            selection: SelectionState::Empty,
            drag: SelectionDrag { active: false, anchor: None, cell_info: None },
            hovered_step: None,
            focused_target: None,
        }
    }
}

impl Overlay {
    /// No overlay open.
    pub fn new() -> (overlay: Self)
        ensures
            overlay == fresh_overlay(),
    {
        Overlay {
            active_modal: Modal::Closed,
            modal_index: 0,
            session_scroll: 0,
            session_modal_follow: true,
            permissions_scroll: 0,
            config_scroll: 0,
            skills_expanded: None,
            history_scroll: 0,
            history_modal_follow: true,
            history_preview: false,
            history_search: false,
            activity_tab: ActivityTab::Activity,
            activity_scroll: 0,
            help_scroll: 0,
            question_scroll: 0,
            question_modal_follow: true,
        }
    }
}

impl SessionMirror {
    /// A session of which nothing is known but the model in use.
    pub fn new(provider: String, model: String) -> (session: Self)
        ensures
            is_fresh_session(session, provider, model),
    {
        SessionMirror {
            sessions_overview: Vec::new(),
            session_context: None,
            current_provider: provider,
            current_model: model,
            current_pursuit: None,
            loop_status: "idle".to_owned(),
            activity_status: String::new(),
            unattended: false,
            todos: None,
            round_count: 0,
            current_turn: 0,
            review_alert: String::new(),
            tool_density: false,
        }
    }
}

impl Picker {
    /// A picker that lists nothing yet.
    pub fn new() -> (picker: Self)
        ensures
            is_fresh_picker(picker),
    {
        Picker {
            provider_picker: ProviderPickerSnapshot {
                default_id: String::new(),
                rows: Vec::new(),
            },
            key_status: Vec::new(),
            model_search: false,
            picker_provider: None,
            model_scroll: 0,
            model_modal_follow: true,
            add_model_provider: None,
            add_model_choice: 0,
            template_choice: 0,
        }
    }
}

impl ProviderEditor {
    /// An editor that is not open.
    pub fn new() -> (editor: Self)
        ensures
            editor.custom_field == 0,
            editor.custom_fields@ == Seq::<CustomField>::empty(),
            editor.custom_protocol_wire@ == Seq::<char>::empty(),
            editor.custom_models@ == Seq::<String>::empty(),
            editor.custom_url_hint@ == Seq::<char>::empty(),
            editor.custom_suggest_index == 0,
            editor.custom_edit_id is None,
            editor.custom_name@ == Seq::<char>::empty(),
            editor.custom_base_url@ == Seq::<char>::empty(),
            editor.custom_token@ == Seq::<char>::empty(),
            editor.custom_model@ == Seq::<char>::empty(),
    {
        ProviderEditor {
            custom_field: 0,
            custom_fields: Vec::new(),
            custom_protocol_wire: String::new(),
            custom_models: Vec::new(),
            custom_url_hint: String::new(),
            custom_suggest_index: 0,
            custom_edit_id: None,
            custom_name: String::new(),
            custom_base_url: String::new(),
            custom_token: String::new(),
            custom_model: String::new(),
        }
    }
}

impl App {
    /// The client as it starts, with the model in use and the history of
    /// earlier sessions.
    pub fn new(provider: String, model: String, input_history: Vec<String>) -> (app: Self)
        ensures
            is_fresh_composer(app.composer, input_history),
            is_fresh_view(app.view),
            app.screen.layout_map@ == empty_layout(),
            app.screen.activity_rect is None,
            app.screen.todos_rect is None,
            app.screen.hint_context_rect is None,
            app.screen.modal_rect is None,
            app.overlay == fresh_overlay(),
            app.permission == (PermissionSheet {
                pending_permission: None,
                permission_confirm_always: false,
                permission_show_details: false,
                permission_scroll: 0,
                permission_max_scroll: 0,
            }),
            app.question is None,
            is_fresh_session(app.session, provider, model),
            is_fresh_picker(app.picker),
            are_fresh_editors(app.key_editor, app.provider_editor),
            app.toast.copy_toast_message@ == Seq::<char>::empty(),
            !app.toast.copy_toast_failed,
            app.toast.copy_toast_until is None,
            app.toast.ctrl_c_armed_ticks == 0,
            app.toast.esc_armed_ticks == 0,
            !app.should_quit,
            app.outbox@ == Seq::<Effect>::empty(),
    {
        App {
            composer: Composer::new(input_history),
            view: TranscriptView::new(),
            screen: Screen {
                layout_map: LayoutMap::new(),
                activity_rect: None,
                todos_rect: None,
                hint_context_rect: None,
                modal_rect: None,
            },
            overlay: Overlay::new(),
            permission: PermissionSheet {
                pending_permission: None,
                permission_confirm_always: false,
                permission_show_details: false,
                permission_scroll: 0,
                permission_max_scroll: 0,
            },
            question: None,
            session: SessionMirror::new(provider, model),
            picker: Picker::new(),
            key_editor: KeyEditor {
                editor_target: None,
                editor_field: 0,
                editor_key: String::new(),
                editor_model: String::new(),
                editor_effort: "high".to_owned(),
                editor_thinking: true,
            },
            provider_editor: ProviderEditor::new(),
            toast: Toast {
                copy_toast_message: String::new(),
                copy_toast_failed: false,
                copy_toast_until: None,
                ctrl_c_armed_ticks: 0,
                esc_armed_ticks: 0,
            },
            should_quit: false,
            outbox: Vec::new(),
        }
    }
}

} // verus!
