use neenee_code::agent::{
    AgentRequest, PermissionRequest, PermissionRule, SessionContextSnapshot, SessionOverview,
    ToolInfo, UserQuestionRequest,
};
use neenee_code::app::composer::Completion;
use neenee_code::app::{App, CustomField, Effect, QuestionAction, QueuedDispatch, ServeCommand};
use neenee_code::attachments::ImagePart;
use neenee_code::document::{
    DeliveryStatus, MessageKind, Role, ToolStepStatus, TranscriptMessage, UserMessageOrigin,
};
use neenee_code::event_loop::copying::extract_selection_text;
use neenee_code::event_loop::dispatch::{dispatch, ActionFacts};
use neenee_code::event_loop::frame::{
    begin_frame, finish_frame, input_context, FrameMeasure, StickyHeader,
};
use neenee_code::event_loop::picking::picker_entries;
use neenee_code::event_loop::pointer::PointerHits;
use neenee_code::event_loop::presenting::{
    displayed_input, driving_prompt, envoy_place, highlights, interrupt_armed, menu_visible,
    permission_rect,
    poll_timeout, shell_active, shows_caret, toast_line, ToastLine,
};
use neenee_code::event_loop::sending::report_serving;
use neenee_code::event_loop::{SideViewSignal, UiRuntime};
use neenee_code::input::InputAction;
use neenee_code::layout::{
    BlockRegion, InteractiveTarget, LayoutMap, Rect, SemanticCursor, TableCellHit,
    TableCellSegment, INPUT_MSG_IDX, THINKING_BLOCK_IDX, TOOL_STEP_BLOCK_IDX,
};
use neenee_code::modal::{ActivityTab, CompletionKind, Modal};
use neenee_code::providers::{FuzzyMatch, ProviderPickerRow};
use neenee_code::selection::SelectionState;

fn app() -> App {
    App::new("openai".to_string(), "gpt-4o".to_string(), Vec::new())
}

fn runtime() -> UiRuntime {
    UiRuntime::new(Vec::new())
}

fn facts() -> ActionFacts {
    ActionFacts {
        completions: Vec::new(),
        picker_matches: Vec::new(),
        history_matches: Vec::new(),
        transcript_text: None,
        default_model: None,
        paste_chip_lines: None,
        vision: true,
        serving: false,
        hits: PointerHits {
            question_option: None,
            permission_action: None,
            permission_sheet: false,
        },
        now: 1_000,
    }
}

fn act(app: &mut App, runtime: &mut UiRuntime, action: InputAction) {
    assert_eq!(dispatch(app, runtime, action, &facts()), None);
}

fn chat(app: &mut App, runtime: &mut UiRuntime, text: &str) {
    act(app, runtime, InputAction::SendChat(text.to_string()));
}

fn sent(app: &App) -> Vec<&AgentRequest> {
    app.outbox
        .iter()
        .filter_map(|effect| match effect {
            Effect::Send(request) => Some(request),
            _ => None,
        })
        .collect()
}

fn request(id: &str) -> PermissionRequest {
    PermissionRequest {
        id: id.to_string(),
        tool: "bash".to_string(),
        description: String::new(),
    }
}

fn step(id: &str) -> TranscriptMessage {
    TranscriptMessage::tool_step(id.to_string(), "bash".to_string(), "{}".to_string())
}

fn envoy(id: &str, children: Vec<TranscriptMessage>) -> TranscriptMessage {
    let mut message = step(id);
    if let MessageKind::ToolStep(step) = &mut message.kind {
        step.children = Some(children);
    }
    message
}

fn region(message_idx: usize, block_idx: usize, text: &str, y: u16) -> BlockRegion {
    BlockRegion {
        message_idx,
        block_idx,
        start_byte: 0,
        end_byte: text.len(),
        text: text.to_string(),
        prefix_cols: 0,
        rect: Rect::new(0, y, 20, 1),
        hidden_ranges: Vec::new(),
    }
}

#[test]
fn input_collapsed_selection_copies_nothing() {
    let cursor = SemanticCursor::new(INPUT_MSG_IDX, 0, 0);
    let sel = SelectionState::Range {
        anchor: cursor,
        head: cursor,
    };

    assert_eq!(extract_selection_text(&sel, None, "中文"), None);
}

#[test]
fn input_wide_glyph_drag_copies_one_grapheme() {
    let sel = SelectionState::Range {
        anchor: SemanticCursor::new(INPUT_MSG_IDX, 0, 0),
        head: SemanticCursor::new(INPUT_MSG_IDX, 0, 1),
    };

    assert_eq!(
        extract_selection_text(&sel, None, "中文"),
        Some("中".to_string())
    );
}

#[test]
fn selections_elsewhere_take_the_transcript_text() {
    let sel = SelectionState::Block {
        message_idx: 0,
        block_idx: 0,
    };
    assert_eq!(
        extract_selection_text(&sel, Some("shown".to_string()), "typed"),
        Some("shown".to_string())
    );
    assert_eq!(
        extract_selection_text(&SelectionState::Empty, None, "typed"),
        None
    );
    let input_block = SelectionState::Block {
        message_idx: INPUT_MSG_IDX,
        block_idx: 0,
    };
    assert_eq!(
        extract_selection_text(&input_block, None, "typed"),
        Some("typed".to_string())
    );
    let cell = SelectionState::TableCell {
        message_idx: INPUT_MSG_IDX,
        block_idx: 0,
        cell_idx: 0,
    };
    assert_eq!(
        extract_selection_text(&cell, Some("x".to_string()), "typed"),
        None
    );
}

#[test]
fn input_selection_includes_the_cluster_under_its_end() {
    let sel = |from: usize, to: usize| SelectionState::Range {
        anchor: SemanticCursor::new(INPUT_MSG_IDX, 0, from),
        head: SemanticCursor::new(INPUT_MSG_IDX, 0, to),
    };
    assert_eq!(
        extract_selection_text(&sel(0, 1), None, "abc"),
        Some("ab".to_string())
    );
    assert_eq!(
        extract_selection_text(&sel(2, 0), None, "abc"),
        Some("abc".to_string())
    );
    assert_eq!(
        extract_selection_text(&sel(1, 99), None, "ae\u{301}b"),
        Some("e\u{301}b".to_string())
    );
    assert_eq!(extract_selection_text(&sel(3, 4), None, "abc"), None);
}

#[test]
fn a_prompt_goes_to_the_agent_when_idle() {
    let (mut a, mut r) = (app(), runtime());
    a.composer.pending_images.push(ImagePart {
        mime: "image/png".to_string(),
        data: "AAAA".to_string(),
    });
    a.composer.pending_text_pastes.push("long\ntext".to_string());
    a.overlay.active_modal = Modal::Help;
    a.view.follow_bottom = false;
    chat(&mut a, &mut r, "see [Pasted text #1 +2 lines]");
    assert!(r.is_responding);
    assert_eq!(r.activity_status, "queued");
    assert_eq!(r.messages.len(), 1);
    assert_eq!(r.messages[0].raw, "see [Pasted text #1 +2 lines]");
    assert_eq!(r.messages[0].delivery, DeliveryStatus::Delivered);
    assert_eq!(r.messages[0].role, Role::User);
    match sent(&a).as_slice() {
        [AgentRequest::Chat { text, images }] => {
            assert_eq!(text, "see long\ntext");
            assert_eq!(images.len(), 1);
        }
        other => panic!("{other:?}"),
    }
    assert!(a.composer.pending_images.is_empty());
    assert!(a.composer.pending_text_pastes.is_empty());
    assert_eq!(a.overlay.active_modal, Modal::Closed);
    assert!(a.view.follow_bottom);
    assert_eq!(
        a.composer.input_history,
        vec!["see [Pasted text #1 +2 lines]".to_string()]
    );
    assert!(matches!(&a.outbox[0], Effect::SaveHistory(entry) if entry.starts_with("see ")));
}

#[test]
fn the_queue_is_sent_in_order_and_recalled_from_its_end() {
    let (mut a, mut r) = (app(), runtime());
    r.is_responding = true;
    chat(&mut a, &mut r, "one");
    chat(&mut a, &mut r, "two");
    chat(&mut a, &mut r, "three");
    assert!(sent(&a).is_empty());
    assert_eq!(a.composer.pending_dispatch.len(), 3);
    assert!(r
        .messages
        .iter()
        .all(|m| m.delivery == DeliveryStatus::Queued));

    act(&mut a, &mut r, InputAction::RecallQueued);
    assert_eq!(a.composer.input, "three");
    assert_eq!(a.composer.cursor_position, 5);
    assert_eq!(r.messages.len(), 2);

    begin_frame(&mut a, &mut r, 0);
    assert!(sent(&a).is_empty());
    r.is_responding = false;
    begin_frame(&mut a, &mut r, 0);
    assert_eq!(
        sent(&a),
        vec![&AgentRequest::Chat {
            text: "one".to_string(),
            images: Vec::new()
        }]
    );
    assert_eq!(r.messages[0].delivery, DeliveryStatus::Delivered);
    assert_eq!(r.messages[1].delivery, DeliveryStatus::Queued);
    assert!(r.is_responding);
    begin_frame(&mut a, &mut r, 0);
    assert_eq!(sent(&a).len(), 1);
}

#[test]
fn a_queued_message_waits_for_an_idle_loop() {
    let (mut a, mut r) = (app(), runtime());
    a.composer.pending_dispatch.push_back(QueuedDispatch {
        text: "x [Pasted text #1 +1 lines]".to_string(),
        images: Vec::new(),
        text_pastes: vec!["P".to_string()],
    });
    a.session.loop_status = "running".to_string();
    begin_frame(&mut a, &mut r, 0);
    assert!(sent(&a).is_empty());
    a.session.loop_status = "idle".to_string();
    begin_frame(&mut a, &mut r, 0);
    assert_eq!(
        sent(&a),
        vec![&AgentRequest::Chat {
            text: "x P".to_string(),
            images: Vec::new()
        }]
    );
}

#[test]
fn an_empty_prompt_opens_the_selected_step() {
    let (mut a, mut r) = (app(), runtime());
    r.messages.push(step("c1"));
    a.view.selection = SelectionState::Range {
        anchor: SemanticCursor::new(0, 0, 0),
        head: SemanticCursor::new(0, 0, 3),
    };
    chat(&mut a, &mut r, "");
    assert_eq!(r.messages[0].tool_step_expanded(), Some(true));
    assert_eq!(a.view.selection, SelectionState::Empty);
    assert!(sent(&a).is_empty());
    assert!(!r.is_responding);

    r.messages.push(envoy("c2", Vec::new()));
    a.view.selection = SelectionState::Range {
        anchor: SemanticCursor::new(1, 0, 0),
        head: SemanticCursor::new(1, 0, 3),
    };
    chat(&mut a, &mut r, "");
    assert_eq!(a.view.focus_stack.len(), 1);
    assert_eq!(a.view.focus_stack[0].call_id, "c2");
}

#[test]
fn slash_commands_go_to_the_agent() {
    let (mut a, mut r) = (app(), runtime());
    act(&mut a, &mut r, InputAction::SendSlash("/review".to_string()));
    assert_eq!(
        sent(&a),
        vec![&AgentRequest::SlashCommand("/review".to_string())]
    );
    assert!(r.is_responding);
    assert_eq!(r.messages[0].origin, UserMessageOrigin::Slash);
}

#[test]
fn serving_is_attached_and_detached_here() {
    let (mut a, mut r) = (app(), runtime());
    act(
        &mut a,
        &mut r,
        InputAction::SendSlash("/serve 8080".to_string()),
    );
    assert!(matches!(
        a.outbox.last(),
        Some(Effect::Serve(ServeCommand::Start(8080)))
    ));
    assert!(!r.is_responding);
    report_serving(&mut r, 8080);
    assert_eq!(
        r.messages.last().unwrap().raw,
        "Serve mode started on port 8080. Open ws://localhost:8080 in a WebSocket client."
    );
    act(
        &mut a,
        &mut r,
        InputAction::SendSlash("/serve x".to_string()),
    );
    assert!(matches!(
        a.outbox.last(),
        Some(Effect::Serve(ServeCommand::Start(0)))
    ));

    let mut known = facts();
    known.serving = true;
    let count = a.outbox.len();
    dispatch(
        &mut a,
        &mut r,
        InputAction::SendSlash("/serve 1".to_string()),
        &known,
    );
    assert_eq!(a.outbox.len(), count + 1);
    assert_eq!(
        r.messages.last().unwrap().raw,
        "Serve already active. Use /serve (no port) to stop."
    );
    dispatch(
        &mut a,
        &mut r,
        InputAction::SendSlash("/serve".to_string()),
        &known,
    );
    assert!(matches!(
        a.outbox.last(),
        Some(Effect::Serve(ServeCommand::Stop))
    ));
    assert_eq!(r.messages.last().unwrap().raw, "Serve mode stopped.");
    act(
        &mut a,
        &mut r,
        InputAction::SendSlash("/serverless".to_string()),
    );
    assert!(matches!(
        a.outbox.last(),
        Some(Effect::Send(AgentRequest::SlashCommand(_)))
    ));
}

#[test]
fn shell_commands_are_shown_with_their_mark() {
    let (mut a, mut r) = (app(), runtime());
    a.overlay.active_modal = Modal::Help;
    act(&mut a, &mut r, InputAction::SendShell("ls".to_string()));
    assert_eq!(r.messages[0].raw, "!ls");
    assert_eq!(r.messages[0].origin, UserMessageOrigin::Shell);
    assert_eq!(a.composer.input_history, vec!["!ls".to_string()]);
    assert_eq!(
        sent(&a),
        vec![&AgentRequest::ShellCommand {
            command: "ls".to_string()
        }]
    );
    assert_eq!(a.overlay.active_modal, Modal::Closed);
}

#[test]
fn the_history_is_walked_and_the_draft_comes_back() {
    let (mut a, mut r) = (app(), runtime());
    a.composer.input_history = vec!["old".to_string(), "newer".to_string()];
    a.composer.input = "draft".to_string();
    act(&mut a, &mut r, InputAction::HistoryNext);
    assert_eq!(a.composer.input, "draft");
    act(&mut a, &mut r, InputAction::HistoryPrev);
    assert_eq!(a.composer.input, "newer");
    assert_eq!(a.composer.cursor_position, 5);
    act(&mut a, &mut r, InputAction::HistoryPrev);
    act(&mut a, &mut r, InputAction::HistoryPrev);
    assert_eq!(a.composer.input, "old");
    act(&mut a, &mut r, InputAction::HistoryNext);
    assert_eq!(a.composer.input, "newer");
    act(&mut a, &mut r, InputAction::HistoryNext);
    assert_eq!(a.composer.input, "draft");
    assert_eq!(a.composer.history_index, None);
    assert!(a.composer.completion_dismissed);
}

#[test]
fn suggestions_are_walked_and_accepted() {
    let (mut a, mut r) = (app(), runtime());
    a.composer.input = "see @sr".to_string();
    let mut known = facts();
    for label in ["@src/", "@src.rs"] {
        known.completions.push(Completion {
            label: label.to_string(),
            replace_start: 4,
            replace_end: 7,
        });
    }
    dispatch(&mut a, &mut r, InputAction::SuggestPrev, &known);
    assert_eq!(a.composer.suggestion_index, Some(1));
    dispatch(&mut a, &mut r, InputAction::SuggestNext, &known);
    assert_eq!(a.composer.suggestion_index, Some(0));
    dispatch(&mut a, &mut r, InputAction::SuggestPrev, &known);
    assert_eq!(a.composer.suggestion_index, Some(1));
    dispatch(
        &mut a,
        &mut r,
        InputAction::AcceptSuggestion("x".to_string()),
        &known,
    );
    assert_eq!(a.composer.input, "see @sr");
    dispatch(
        &mut a,
        &mut r,
        InputAction::CommitSuggestion("1".to_string()),
        &known,
    );
    assert_eq!(a.composer.input, "see @src.rs ");
    assert_eq!(a.composer.suggestion_index, None);
    assert!(a.composer.completion_dismissed);
    act(&mut a, &mut r, InputAction::SuggestNext);
    assert_eq!(a.composer.suggestion_index, None);
}

#[test]
fn an_edit_reopens_the_menu_and_drops_stale_attachments() {
    let (mut a, mut r) = (app(), runtime());
    for data in ["first", "second"] {
        a.composer.pending_images.push(ImagePart {
            mime: "image/png".to_string(),
            data: data.to_string(),
        });
    }
    a.composer.input = "[Image #2] x".to_string();
    a.composer.completion_dismissed = true;
    a.view.focused_target = Some(InteractiveTarget::tool_step(0));
    act(&mut a, &mut r, InputAction::InsertChar('x'));
    assert_eq!(a.composer.input, "[Image #1] x");
    assert_eq!(a.composer.pending_images.len(), 1);
    assert_eq!(a.composer.pending_images[0].data, "second");
    assert!(!a.composer.completion_dismissed);
    assert_eq!(a.view.focused_target, None);
}

#[test]
fn the_command_palette_starts_with_a_slash() {
    let (mut a, mut r) = (app(), runtime());
    a.composer.input = "typed".to_string();
    act(&mut a, &mut r, InputAction::OpenCommands);
    assert_eq!(a.composer.input, "/");
    assert_eq!(a.composer.cursor_position, 1);
    a.composer.input = "/he".to_string();
    act(&mut a, &mut r, InputAction::OpenCommands);
    assert_eq!(a.composer.input, "/he");
}

#[test]
fn pasted_text_lands_in_the_prompt() {
    let (mut a, mut r) = (app(), runtime());
    act(&mut a, &mut r, InputAction::BracketedPaste("a\nb".to_string()));
    assert_eq!(a.composer.input, "a\nb");
    assert_eq!(a.toast.copy_toast_message, "pasted 3 chars");
    assert_eq!(a.toast.copy_toast_until, Some(2_200));
    let mut known = facts();
    known.paste_chip_lines = Some(2);
    dispatch(
        &mut a,
        &mut r,
        InputAction::BracketedPaste("x\ny".to_string()),
        &known,
    );
    assert_eq!(a.composer.input, "a\nb[Pasted text #1 +2 lines] ");
    assert_eq!(a.composer.pending_text_pastes, vec!["x\ny".to_string()]);
    act(&mut a, &mut r, InputAction::Paste);
    assert!(matches!(a.outbox.last(), Some(Effect::ReadClipboard)));
}

#[test]
fn control_c_copies_closes_clears_and_leaves() {
    let (mut a, mut r) = (app(), runtime());
    r.is_responding = true;
    let mut known = facts();
    known.transcript_text = Some("selected".to_string());
    a.view.selection = SelectionState::Block {
        message_idx: 0,
        block_idx: 0,
    };
    dispatch(&mut a, &mut r, InputAction::CtrlC, &known);
    assert!(matches!(a.outbox.last(), Some(Effect::Copy(text)) if text == "selected"));

    a.composer.stashed_input = "parked".to_string();
    a.overlay.active_modal = Modal::HistorySearch;
    act(&mut a, &mut r, InputAction::CtrlC);
    assert_eq!(a.composer.input, "parked");
    assert_eq!(a.overlay.active_modal, Modal::Closed);

    a.overlay.active_modal = Modal::Help;
    act(&mut a, &mut r, InputAction::CtrlC);
    assert_eq!(a.overlay.active_modal, Modal::Closed);
    assert_eq!(a.composer.input, "parked");

    a.view.in_side_view = true;
    act(&mut a, &mut r, InputAction::CtrlC);
    assert!(!a.view.in_side_view);
    assert_eq!(sent(&a), vec![&AgentRequest::ExitSideView]);

    act(&mut a, &mut r, InputAction::CtrlC);
    assert_eq!(a.composer.input, "");
    assert_eq!(a.toast.ctrl_c_armed_ticks, 20);
    assert_eq!(
        a.toast.copy_toast_message,
        "input cleared — Ctrl+C again to exit"
    );
    assert!(!a.should_quit);
    act(&mut a, &mut r, InputAction::CtrlC);
    assert!(a.should_quit);
    assert!(r.is_responding);
    assert!(!sent(&a).contains(&&AgentRequest::Interrupt));
}

#[test]
fn interrupting_takes_two_presses_in_time() {
    let (mut a, mut r) = (app(), runtime());
    r.is_responding = true;
    assert!(!interrupt_armed(&a));
    act(&mut a, &mut r, InputAction::Interrupt);
    assert!(sent(&a).is_empty());
    assert_eq!(a.toast.esc_armed_ticks, 20);
    assert!(interrupt_armed(&a));
    act(&mut a, &mut r, InputAction::Interrupt);
    assert_eq!(sent(&a), vec![&AgentRequest::Interrupt]);
    assert!(!interrupt_armed(&a));
    act(&mut a, &mut r, InputAction::Interrupt);
    for _ in 0..20 {
        begin_frame(&mut a, &mut r, 0);
    }
    assert_eq!(a.toast.esc_armed_ticks, 0);
    act(&mut a, &mut r, InputAction::Interrupt);
    assert_eq!(sent(&a).len(), 1);
    r.is_responding = false;
    begin_frame(&mut a, &mut r, 0);
    assert_eq!(a.toast.esc_armed_ticks, 0);
}

#[test]
fn quitting_is_asked_for() {
    let (mut a, mut r) = (app(), runtime());
    act(&mut a, &mut r, InputAction::Ignored);
    assert!(!a.should_quit);
    act(&mut a, &mut r, InputAction::Quit);
    assert!(a.should_quit);
}

#[test]
fn host_actions_come_back() {
    let (mut a, mut r) = (app(), runtime());
    assert_eq!(
        dispatch(&mut a, &mut r, InputAction::SubmitCustomProvider, &facts()),
        Some(InputAction::SubmitCustomProvider)
    );
    assert!(a.outbox.is_empty());
}

#[test]
fn the_transcript_scrolls_and_follows() {
    let (mut a, mut r) = (app(), runtime());
    a.view.max_scroll = 50;
    a.view.scroll = 50;
    a.view.view_height = 11;
    act(&mut a, &mut r, InputAction::ScrollUp);
    assert_eq!((a.view.scroll, a.view.follow_bottom), (46, false));
    act(&mut a, &mut r, InputAction::ScrollPageUp);
    assert_eq!(a.view.scroll, 36);
    act(&mut a, &mut r, InputAction::ScrollTop);
    assert_eq!(a.view.scroll, 0);
    act(&mut a, &mut r, InputAction::ScrollPageDown);
    assert_eq!((a.view.scroll, a.view.follow_bottom), (10, false));
    a.view.scroll = 48;
    act(&mut a, &mut r, InputAction::ScrollDown);
    assert_eq!((a.view.scroll, a.view.follow_bottom), (50, true));
    act(&mut a, &mut r, InputAction::ScrollTop);
    act(&mut a, &mut r, InputAction::ScrollBottom);
    assert_eq!((a.view.scroll, a.view.follow_bottom), (50, true));
    a.overlay.active_modal = Modal::Permission;
    act(&mut a, &mut r, InputAction::ScrollUp);
    assert_eq!(a.view.scroll, 46);
}

#[test]
fn overlays_scroll_their_own_bodies() {
    let (mut a, mut r) = (app(), runtime());
    a.view.view_height = 6;
    a.view.scroll = 9;
    for modal in [
        Modal::Tools,
        Modal::Permissions,
        Modal::Config,
        Modal::HistorySearch,
        Modal::Provider,
        Modal::Help,
        Modal::Activity,
        Modal::Question,
    ] {
        a.overlay.active_modal = modal;
        act(&mut a, &mut r, InputAction::ScrollDown);
        act(&mut a, &mut r, InputAction::ScrollPageDown);
        act(&mut a, &mut r, InputAction::ScrollUp);
        assert_eq!(a.view.scroll, 9);
    }
    assert_eq!(a.overlay.session_scroll, 5);
    assert_eq!(a.overlay.permissions_scroll, 5);
    assert_eq!(a.overlay.config_scroll, 5);
    assert_eq!(a.overlay.history_scroll, 5);
    assert_eq!(a.picker.model_scroll, 5);
    assert_eq!(a.overlay.help_scroll, 5);
    assert_eq!(a.overlay.activity_scroll, 5);
    assert_eq!(a.overlay.question_scroll, 5);
    assert!(!a.overlay.session_modal_follow);
    assert!(!a.overlay.history_modal_follow);
    assert!(!a.picker.model_modal_follow);
    assert!(!a.overlay.question_modal_follow);
    act(&mut a, &mut r, InputAction::ScrollBottom);
    assert_eq!(a.overlay.question_scroll, usize::MAX);
    act(&mut a, &mut r, InputAction::ScrollDown);
    assert_eq!(a.overlay.question_scroll, usize::MAX);
    act(&mut a, &mut r, InputAction::ScrollTop);
    assert_eq!(a.overlay.question_scroll, 0);
}

#[test]
fn permission_details_scroll_within_their_bounds() {
    let (mut a, mut r) = (app(), runtime());
    a.permission.permission_max_scroll = 1;
    act(&mut a, &mut r, InputAction::PermissionDetailsUp);
    assert_eq!(a.permission.permission_scroll, 0);
    act(&mut a, &mut r, InputAction::PermissionDetailsDown);
    act(&mut a, &mut r, InputAction::PermissionDetailsDown);
    assert_eq!(a.permission.permission_scroll, 1);
}

#[test]
fn the_picker_opens_on_the_current_model() {
    let (mut a, mut r) = (app(), runtime());
    a.composer.input = "draft".to_string();
    a.picker.provider_picker.rows = vec![
        provider("zeta", &["z"], false),
        provider("openai", &["gpt-4o"], true),
        provider("kimi", &["kimi-k2"], true),
    ];
    a.picker.model_search = true;
    act(&mut a, &mut r, InputAction::OpenProvider);
    assert_eq!(a.overlay.active_modal, Modal::Provider);
    assert!(!a.picker.model_search);
    assert_eq!(a.overlay.modal_index, 1);
    assert_eq!(a.composer.input, "");
    act(&mut a, &mut r, InputAction::ProviderPickerToggleFavorite);
    assert_eq!(
        sent(&a),
        vec![&AgentRequest::ToggleFavorite {
            id: "openai".to_string()
        }]
    );
    act(&mut a, &mut r, InputAction::ProviderPickerActivate);
    assert_eq!(
        sent(&a)[1],
        &AgentRequest::SwitchProvider {
            provider_type: "openai".to_string(),
            model: "gpt-4o".to_string(),
            api_key: None,
            base_url: None,
            effort: None,
            thinking: None,
        }
    );
    assert_eq!(a.composer.input, "draft");
    assert_eq!(a.overlay.active_modal, Modal::Closed);

    a.session.current_model = "gone".to_string();
    a.picker.provider_picker.default_id = "zeta".to_string();
    act(&mut a, &mut r, InputAction::OpenProvider);
    assert_eq!(a.overlay.modal_index, 2);
    act(&mut a, &mut r, InputAction::CloseModal);
    a.picker.provider_picker.default_id = "nobody".to_string();
    act(&mut a, &mut r, InputAction::OpenProvider);
    assert_eq!(a.overlay.modal_index, 0);
}

#[test]
fn a_missing_key_opens_the_key_editor() {
    let (mut a, mut r) = (app(), runtime());
    a.composer.input = "draft".to_string();
    a.picker.provider_picker.rows = vec![provider("openai", &["gpt-4o"], true)];
    a.picker.key_status = vec![
        ("openai".to_string(), true),
        ("openai".to_string(), false),
    ];
    let mut known = facts();
    known.default_model = Some("gpt-default".to_string());
    act(&mut a, &mut r, InputAction::OpenProvider);
    act(&mut a, &mut r, InputAction::ProviderPickerActivate);
    assert_eq!(a.overlay.active_modal, Modal::ModelEditor);
    assert_eq!(a.key_editor.editor_target, Some("openai".to_string()));
    assert_eq!(a.key_editor.editor_model, "gpt-4o");

    a.composer.input = " sk-1 ".to_string();
    assert_eq!(displayed_input(&a), "••••••");
    act(&mut a, &mut r, InputAction::ModelEditorNextField);
    assert_eq!(a.key_editor.editor_field, 0);
    assert_eq!(a.composer.input, " sk-1 ");
    dispatch(&mut a, &mut r, InputAction::SubmitModelEditor, &known);
    assert_eq!(
        sent(&a),
        vec![&AgentRequest::SwitchProvider {
            provider_type: "openai".to_string(),
            model: "gpt-4o".to_string(),
            api_key: Some("sk-1".to_string()),
            base_url: None,
            effort: None,
            thinking: None,
        }]
    );
    assert_eq!(a.composer.input, "draft");
    assert_eq!(a.overlay.active_modal, Modal::Closed);
    assert_eq!(a.key_editor.editor_target, None);
}

#[test]
fn effort_and_thinking_are_chosen_for_one_provider() {
    let (mut a, mut r) = (app(), runtime());
    a.picker.provider_picker.rows = vec![provider("anthropic", &["opus"], true)];
    act(&mut a, &mut r, InputAction::OpenProvider);
    act(&mut a, &mut r, InputAction::OpenModelEditor);
    a.composer.input = "sk-1".to_string();
    a.composer.cursor_position = 4;
    act(&mut a, &mut r, InputAction::ModelEditorEffortCycle { delta: 1 });
    assert_eq!(a.key_editor.editor_effort, "high");
    act(&mut a, &mut r, InputAction::ModelEditorNextField);
    assert_eq!(a.key_editor.editor_field, 1);
    assert_eq!(a.composer.input, "");
    assert_eq!(a.composer.cursor_position, 0);
    let mut seen = Vec::new();
    for _ in 0..5 {
        act(&mut a, &mut r, InputAction::ModelEditorEffortCycle { delta: 1 });
        seen.push(a.key_editor.editor_effort.clone());
    }
    assert_eq!(seen, vec!["xhigh", "max", "low", "medium", "high"]);
    act(&mut a, &mut r, InputAction::ModelEditorEffortCycle { delta: -1 });
    assert_eq!(a.key_editor.editor_effort, "medium");
    act(&mut a, &mut r, InputAction::ModelEditorThinkingToggle);
    assert!(a.key_editor.editor_thinking);
    act(&mut a, &mut r, InputAction::ModelEditorNextField);
    assert_eq!(a.key_editor.editor_field, 2);
    act(&mut a, &mut r, InputAction::ModelEditorThinkingToggle);
    assert!(!a.key_editor.editor_thinking);
    act(&mut a, &mut r, InputAction::ModelEditorNextField);
    assert_eq!(a.key_editor.editor_field, 0);
    assert_eq!(a.composer.input, "sk-1");
    assert_eq!(a.composer.cursor_position, 4);
    act(&mut a, &mut r, InputAction::ModelEditorNextField);
    let mut known = facts();
    known.default_model = Some("other".to_string());
    dispatch(&mut a, &mut r, InputAction::SubmitModelEditor, &known);
    assert_eq!(
        sent(&a),
        vec![&AgentRequest::SwitchProvider {
            provider_type: "anthropic".to_string(),
            model: "opus".to_string(),
            api_key: Some("sk-1".to_string()),
            base_url: None,
            effort: Some("medium".to_string()),
            thinking: Some(false),
        }]
    );
}

#[test]
fn a_missing_model_means_the_default_model() {
    let (mut a, mut r) = (app(), runtime());
    a.overlay.active_modal = Modal::ModelEditor;
    a.key_editor.editor_target = Some("openai".to_string());
    a.key_editor.editor_model = "  ".to_string();
    let mut known = facts();
    known.default_model = Some("gpt-default".to_string());
    dispatch(&mut a, &mut r, InputAction::SubmitModelEditor, &known);
    assert_eq!(
        sent(&a),
        vec![&AgentRequest::SwitchProvider {
            provider_type: "openai".to_string(),
            model: "gpt-default".to_string(),
            api_key: None,
            base_url: None,
            effort: None,
            thinking: None,
        }]
    );
    a.overlay.active_modal = Modal::ModelEditor;
    a.key_editor.editor_target = Some("unknown".to_string());
    act(&mut a, &mut r, InputAction::SubmitModelEditor);
    assert_eq!(sent(&a).len(), 1);
    assert_eq!(a.overlay.active_modal, Modal::Closed);
}

#[test]
fn the_picker_search_starts_over_and_keeps_the_draft() {
    let (mut a, mut r) = (app(), runtime());
    a.composer.input = "draft".to_string();
    act(&mut a, &mut r, InputAction::OpenProvider);
    act(&mut a, &mut r, InputAction::ModelEnterSearch);
    assert!(a.picker.model_search);
    a.composer.input = "gpt".to_string();
    act(&mut a, &mut r, InputAction::ModelExitSearch);
    assert!(!a.picker.model_search);
    assert_eq!(a.composer.input, "");
    act(&mut a, &mut r, InputAction::CloseModal);
    assert_eq!(a.composer.input, "draft");
    act(&mut a, &mut r, InputAction::ModelEnterSearch);
    assert!(!a.picker.model_search);
}

#[test]
fn cancelling_the_key_editor_returns_to_the_picker() {
    let (mut a, mut r) = (app(), runtime());
    a.picker.provider_picker.rows = vec![provider("openai", &["gpt-4o"], true)];
    a.composer.input = "draft".to_string();
    act(&mut a, &mut r, InputAction::OpenProvider);
    act(&mut a, &mut r, InputAction::OpenModelEditor);
    assert_eq!(a.overlay.active_modal, Modal::ModelEditor);
    a.composer.input = "sk".to_string();
    act(&mut a, &mut r, InputAction::CloseModal);
    assert_eq!(a.overlay.active_modal, Modal::Provider);
    assert_eq!(a.composer.input, "");
    act(&mut a, &mut r, InputAction::CloseModal);
    assert_eq!(a.overlay.active_modal, Modal::Closed);
    assert_eq!(a.composer.input, "draft");
}

#[test]
fn the_history_overlay_inserts_its_selected_entry() {
    let (mut a, mut r) = (app(), runtime());
    a.composer.input_history = vec!["one".to_string(), "two".to_string(), "three".to_string()];
    a.composer.input = "draft".to_string();
    act(&mut a, &mut r, InputAction::OpenHistory);
    assert_eq!(a.composer.input, "");
    act(&mut a, &mut r, InputAction::ModalDown);
    act(&mut a, &mut r, InputAction::HistoryInsert);
    assert_eq!(a.composer.input, "two");
    assert_eq!(a.composer.stashed_input, "");
    assert_eq!(a.overlay.active_modal, Modal::Closed);
    assert!(sent(&a).is_empty());

    act(&mut a, &mut r, InputAction::OpenHistory);
    act(&mut a, &mut r, InputAction::HistoryEnterSearch);
    a.composer.input = "e".to_string();
    let mut known = facts();
    known.history_matches = vec![
        Some(FuzzyMatch {
            score: 1,
            positions: vec![2],
        }),
        None,
        Some(FuzzyMatch {
            score: 5,
            positions: vec![3],
        }),
    ];
    dispatch(&mut a, &mut r, InputAction::ModalUp, &known);
    assert_eq!(a.overlay.modal_index, 1);
    dispatch(&mut a, &mut r, InputAction::ModalUp, &known);
    dispatch(&mut a, &mut r, InputAction::HistoryInsert, &known);
    assert_eq!(a.composer.input, "three");
}

#[test]
fn leaving_the_history_overlay_keeps_the_draft() {
    let (mut a, mut r) = (app(), runtime());
    a.composer.input = "draft".to_string();
    act(&mut a, &mut r, InputAction::OpenHistory);
    act(&mut a, &mut r, InputAction::HistoryEnterSearch);
    a.composer.input = "query".to_string();
    act(&mut a, &mut r, InputAction::HistoryExitSearch);
    assert_eq!(a.composer.input, "");
    act(&mut a, &mut r, InputAction::HistoryTogglePreview);
    assert!(a.overlay.history_preview);
    act(&mut a, &mut r, InputAction::CloseModal);
    assert_eq!(a.composer.input, "draft");
    assert!(!a.overlay.history_preview);
    act(&mut a, &mut r, InputAction::OpenHistory);
    act(&mut a, &mut r, InputAction::HistoryInsert);
    assert_eq!(a.composer.input, "");
    assert_eq!(a.overlay.active_modal, Modal::Closed);
}

#[test]
fn managers_ask_for_the_session_state() {
    let (mut a, mut r) = (app(), runtime());
    a.overlay.skills_expanded = Some(3);
    for (action, modal) in [
        (InputAction::OpenTools, Modal::Tools),
        (InputAction::OpenMcp, Modal::Mcp),
        (InputAction::OpenSkills, Modal::Skills),
        (InputAction::OpenPermissions, Modal::Permissions),
    ] {
        act(&mut a, &mut r, action);
        assert_eq!(a.overlay.active_modal, modal);
    }
    assert_eq!(sent(&a), vec![&AgentRequest::QuerySessionContext; 4]);
    assert_eq!(a.overlay.skills_expanded, None);
    act(&mut a, &mut r, InputAction::SkillsToggleDetail);
    assert_eq!(a.overlay.skills_expanded, Some(0));
    act(&mut a, &mut r, InputAction::SkillsToggleDetail);
    assert_eq!(a.overlay.skills_expanded, None);
    act(&mut a, &mut r, InputAction::OpenHelp);
    assert_eq!(a.overlay.active_modal, Modal::Help);
    act(&mut a, &mut r, InputAction::OpenConfig);
    assert_eq!(a.overlay.active_modal, Modal::Config);
}

#[test]
fn managers_act_on_their_selected_row() {
    let (mut a, mut r) = (app(), runtime());
    act(&mut a, &mut r, InputAction::SessionSelect { forward: true });
    assert_eq!(a.overlay.session_scroll, 1);
    act(&mut a, &mut r, InputAction::SessionActivate);
    act(&mut a, &mut r, InputAction::PermissionsActivate);
    assert!(sent(&a).is_empty());
    a.session.session_context = Some(SessionContextSnapshot {
        tools: vec![
            ToolInfo {
                name: "bash".to_string(),
                enabled: true,
            },
            ToolInfo {
                name: "grep".to_string(),
                enabled: false,
            },
        ],
        permissions: vec![PermissionRule {
            tool: "bash".to_string(),
            scope: "ls".to_string(),
        }],
    });
    act(&mut a, &mut r, InputAction::SessionSelect { forward: false });
    assert_eq!(a.overlay.modal_index, 1);
    act(&mut a, &mut r, InputAction::SessionActivate);
    act(&mut a, &mut r, InputAction::PermissionsActivate);
    assert_eq!(
        sent(&a),
        vec![&AgentRequest::ToggleTool {
            name: "grep".to_string(),
            enabled: true
        }]
    );
    act(&mut a, &mut r, InputAction::SessionSelect { forward: true });
    act(&mut a, &mut r, InputAction::PermissionsActivate);
    assert_eq!(
        sent(&a)[1],
        &AgentRequest::RevokePermission {
            tool: "bash".to_string(),
            scope: "ls".to_string()
        }
    );
    act(&mut a, &mut r, InputAction::PermissionsClearAll);
    assert_eq!(sent(&a)[2], &AgentRequest::ClearAllPermissions);
}

#[test]
fn sessions_are_opened_and_deleted_by_row() {
    let (mut a, mut r) = (app(), runtime());
    act(&mut a, &mut r, InputAction::OpenSelectedSession);
    act(&mut a, &mut r, InputAction::DeleteSelectedSession);
    assert!(sent(&a).is_empty());
    for id in ["s1", "s2"] {
        a.session.sessions_overview.push(SessionOverview {
            id: id.to_string(),
            title: String::new(),
        });
    }
    a.overlay.active_modal = Modal::Sessions;
    act(&mut a, &mut r, InputAction::ModalUp);
    assert_eq!(a.overlay.modal_index, 1);
    act(&mut a, &mut r, InputAction::DeleteSelectedSession);
    a.overlay.modal_index = 7;
    act(&mut a, &mut r, InputAction::OpenSelectedSession);
    assert_eq!(
        sent(&a),
        vec![
            &AgentRequest::DeleteSession {
                id: "s2".to_string()
            },
            &AgentRequest::SlashCommand("/session open s2".to_string())
        ]
    );
    assert_eq!(a.overlay.active_modal, Modal::Closed);
}

#[test]
fn list_selections_wrap() {
    let (mut a, mut r) = (app(), runtime());
    a.overlay.active_modal = Modal::Permission;
    act(&mut a, &mut r, InputAction::ModalUp);
    assert_eq!(a.overlay.modal_index, 3);
    act(&mut a, &mut r, InputAction::ModalDown);
    assert_eq!(a.overlay.modal_index, 0);
    a.permission.permission_confirm_always = true;
    act(&mut a, &mut r, InputAction::ModalUp);
    assert_eq!(a.overlay.modal_index, 1);
    act(&mut a, &mut r, InputAction::PermissionBack);
    assert!(!a.permission.permission_confirm_always);
    assert_eq!(a.overlay.modal_index, 1);
    a.overlay.active_modal = Modal::Permissions;
    a.overlay.modal_index = 4;
    act(&mut a, &mut r, InputAction::ModalDown);
    assert_eq!(a.overlay.modal_index, 0);
    a.overlay.active_modal = Modal::Help;
    act(&mut a, &mut r, InputAction::ModalDown);
    assert_eq!(a.overlay.modal_index, 0);
}

#[test]
fn questions_are_forwarded_while_they_are_open() {
    let (mut a, mut r) = (app(), runtime());
    act(&mut a, &mut r, InputAction::QuestionUp);
    assert!(a.outbox.is_empty());
    r.pending_question.push_back(UserQuestionRequest {
        id: "q1".to_string(),
        question: "?".to_string(),
    });
    begin_frame(&mut a, &mut r, 0);
    assert_eq!(a.overlay.active_modal, Modal::Question);
    a.overlay.question_modal_follow = false;
    act(&mut a, &mut r, InputAction::QuestionToggle);
    assert!(!a.overlay.question_modal_follow);
    act(&mut a, &mut r, InputAction::QuestionSelect(2));
    assert!(a.overlay.question_modal_follow);
    let forwarded: Vec<&Effect> = a.outbox.iter().collect();
    assert!(matches!(
        forwarded.as_slice(),
        [
            Effect::Question(QuestionAction::Toggle),
            Effect::Question(QuestionAction::Select(2))
        ]
    ));
    let mut known = facts();
    known.hits.question_option = Some(0);
    dispatch(
        &mut a,
        &mut r,
        InputAction::SelectionStart { x: 1, y: 1 },
        &known,
    );
    assert!(matches!(
        a.outbox.last(),
        Some(Effect::Question(QuestionAction::Select(1)))
    ));
    act(&mut a, &mut r, InputAction::QuestionCancel);
    assert!(matches!(
        a.outbox.last(),
        Some(Effect::Question(QuestionAction::Cancel))
    ));
    assert!(a.question.is_none());
    let count = a.outbox.len();
    act(&mut a, &mut r, InputAction::QuestionUp);
    assert_eq!(a.outbox.len(), count);
    begin_frame(&mut a, &mut r, 0);
    assert!(a.question.is_some());
    r.pending_question.clear();
    begin_frame(&mut a, &mut r, 0);
    assert_eq!(a.overlay.active_modal, Modal::Closed);
    assert!(a.question.is_none());
}

#[test]
fn the_permission_sheet_follows_its_queue() {
    let (mut a, mut r) = (app(), runtime());
    a.view.focused_target = Some(InteractiveTarget::tool_step(0));
    r.pending_permission.push_back(request("p1"));
    begin_frame(&mut a, &mut r, 0);
    assert_eq!(a.overlay.active_modal, Modal::Permission);
    assert_eq!(a.view.focused_target, None);
    r.open_sessions = true;
    begin_frame(&mut a, &mut r, 0);
    assert_eq!(a.overlay.active_modal, Modal::Permission);
    assert!(!r.open_sessions);
    r.pending_permission.clear();
    begin_frame(&mut a, &mut r, 0);
    assert_eq!(a.overlay.active_modal, Modal::Closed);
    a.overlay.active_modal = Modal::Help;
    r.pending_permission.push_back(request("p2"));
    begin_frame(&mut a, &mut r, 0);
    assert_eq!(a.overlay.active_modal, Modal::Help);
    assert!(a.permission.pending_permission.is_some());
    r.open_sessions = true;
    begin_frame(&mut a, &mut r, 0);
    assert_eq!(a.overlay.active_modal, Modal::Sessions);
}

#[test]
fn a_frame_takes_over_the_transcripts() {
    let (mut a, mut r) = (app(), runtime());
    r.messages.push(envoy("c1", vec![step("c2")]));
    r.side_messages
        .push(TranscriptMessage::new(Role::User, "aside".to_string()));
    r.activity_status = "thinking".to_string();
    a.view.max_scroll = 12;
    begin_frame(&mut a, &mut r, 0);
    assert_eq!(a.view.messages.len(), 1);
    assert!(a.view.messages[0].is_envoy_task());
    match &a.view.messages[0].kind {
        MessageKind::ToolStep(step) => {
            assert_eq!(step.children.as_ref().unwrap()[0].tool_step_call_id(), Some("c2"));
        }
        other => panic!("{other:?}"),
    }
    assert_eq!(a.view.side_messages[0].raw, "aside");
    assert_eq!(a.session.activity_status, "thinking");
    assert_eq!(a.view.scroll, 12);
    r.side_view_signal = Some(SideViewSignal::Opened {
        side_id: "side".to_string(),
    });
    begin_frame(&mut a, &mut r, 0);
    assert!(a.view.in_side_view);
    assert_eq!(a.view.side_session_id, Some("side".to_string()));
    assert!(r.side_view_signal.is_none());
    r.side_view_signal = Some(SideViewSignal::Closed);
    begin_frame(&mut a, &mut r, 0);
    assert!(!a.view.in_side_view);
}

#[test]
fn messages_expire_and_images_are_remembered() {
    let (mut a, mut r) = (app(), runtime());
    a.toast.copy_toast_until = Some(500);
    begin_frame(&mut a, &mut r, 499);
    assert_eq!(toast_line(&a), ToastLine::Message);
    begin_frame(&mut a, &mut r, 500);
    assert_eq!(toast_line(&a), ToastLine::Hidden);
    a.composer.pending_images.push(ImagePart {
        mime: String::new(),
        data: String::new(),
    });
    begin_frame(&mut a, &mut r, 1_000);
    assert_eq!(a.toast.copy_toast_message, "1 image attached — enter to send");
    assert_eq!(a.toast.copy_toast_until, Some(1_600));
    a.toast.copy_toast_until = None;
    a.toast.ctrl_c_armed_ticks = 2;
    begin_frame(&mut a, &mut r, 1_000);
    assert_eq!(a.toast.copy_toast_until, None);
    assert_eq!(a.toast.ctrl_c_armed_ticks, 1);
    assert_eq!(toast_line(&a), ToastLine::LeaveArmed);
}

fn measure(content_lines: usize, view_height: u16) -> FrameMeasure {
    FrameMeasure {
        content_lines,
        view_height,
        activity_rect: None,
        hint_context_rect: None,
        todos_rect: None,
        sticky: None,
        layout_map: LayoutMap::new(),
        modal_rect: None,
        modal_dismissable: false,
        permission_max_scroll: None,
    }
}

#[test]
fn a_drawn_frame_settles_the_scroll_position() {
    let mut a = app();
    a.view.scroll = 90;
    a.view.follow_bottom = false;
    finish_frame(&mut a, measure(100, 40));
    assert_eq!((a.view.max_scroll, a.view.scroll), (60, 60));
    a.view.pin_summary_line = Some(80);
    a.view.scroll = 90;
    finish_frame(&mut a, measure(100, 40));
    assert_eq!((a.view.max_scroll, a.view.scroll), (60, 80));
    a.view.follow_bottom = true;
    a.view.scroll = 90;
    finish_frame(&mut a, measure(10, 40));
    assert_eq!((a.view.max_scroll, a.view.scroll), (0, 90));
}

#[test]
fn a_drawn_frame_keeps_what_it_found() {
    let mut a = app();
    a.permission.permission_scroll = 9;
    a.view.focused_target = Some(InteractiveTarget::tool_step(3));
    let mut found = measure(1, 1);
    found.sticky = Some(StickyHeader {
        message_idx: 4,
        rect: Rect::new(0, 0, 5, 1),
        summary_line: 7,
    });
    found.modal_rect = Some(Rect::new(1, 1, 2, 2));
    found.permission_max_scroll = Some(5);
    finish_frame(&mut a, found);
    assert_eq!(a.view.sticky_step, Some(4));
    assert_eq!(a.view.sticky_summary_line, Some(7));
    assert_eq!(a.screen.modal_rect, None);
    assert_eq!(a.permission.permission_scroll, 5);
    assert_eq!(a.view.focused_target, None);
    let mut found = measure(1, 1);
    found.modal_rect = Some(Rect::new(1, 1, 2, 2));
    found.modal_dismissable = true;
    found.layout_map.push(region(3, TOOL_STEP_BLOCK_IDX, "x", 0));
    a.view.focused_target = Some(InteractiveTarget::tool_step(3));
    finish_frame(&mut a, found);
    assert_eq!(a.screen.modal_rect, Some(Rect::new(1, 1, 2, 2)));
    assert_eq!(a.view.sticky_step, None);
    assert_eq!(a.view.focused_target, Some(InteractiveTarget::tool_step(3)));
}

#[test]
fn the_context_of_an_event_hides_closed_menus() {
    let mut a = app();
    a.composer.input = "/né".to_string();
    let completions = vec![Completion {
        label: "/né".to_string(),
        replace_start: 0,
        replace_end: 4,
    }];
    let context = input_context(&a, true, &completions, CompletionKind::Slash, true);
    assert!(context.has_exact_suggestion);
    assert_eq!(context.suggestion_count, 1);
    assert!(context.is_responding);
    assert!(context.modal_dismissable);
    assert!(menu_visible(&a, &completions, CompletionKind::Slash));
    a.composer.completion_dismissed = true;
    let context = input_context(&a, false, &completions, CompletionKind::Slash, false);
    assert!(!context.has_exact_suggestion);
    assert_eq!(context.suggestion_count, 0);
    assert_eq!(context.completion_kind, CompletionKind::Closed);
    assert!(!menu_visible(&a, &completions, CompletionKind::Slash));
    a.composer.completion_dismissed = false;
    a.composer.input = "/n".to_string();
    let context = input_context(&a, false, &completions, CompletionKind::Slash, false);
    assert!(!context.has_exact_suggestion);
    a.overlay.active_modal = Modal::ModelEditor;
    a.key_editor.editor_field = 1;
    let context = input_context(&a, false, &completions, CompletionKind::Slash, false);
    assert_eq!(context.editor_field, Some(1));
    assert_eq!(context.custom_provider_field, None);
}

#[test]
fn a_click_in_text_selects_only_when_dragged() {
    let (mut a, mut r) = (app(), runtime());
    a.screen.layout_map.push(region(0, 0, "hello", 0));
    act(&mut a, &mut r, InputAction::SelectionStart { x: 1, y: 0 });
    act(&mut a, &mut r, InputAction::SelectionEnd);
    assert_eq!(a.view.selection, SelectionState::Empty);
    act(&mut a, &mut r, InputAction::SelectionStart { x: 1, y: 0 });
    act(&mut a, &mut r, InputAction::SelectionUpdate { x: 3, y: 0 });
    act(&mut a, &mut r, InputAction::SelectionEnd);
    assert_eq!(
        a.view.selection,
        SelectionState::Range {
            anchor: SemanticCursor::new(0, 0, 1),
            head: SemanticCursor::new(0, 0, 3)
        }
    );
    act(&mut a, &mut r, InputAction::SelectionStart { x: 60, y: 60 });
    assert_eq!(a.view.selection, SelectionState::Empty);
    act(&mut a, &mut r, InputAction::SelectBlock { x: 2, y: 0 });
    assert_eq!(
        a.view.selection,
        SelectionState::Block {
            message_idx: 0,
            block_idx: 0
        }
    );
    act(&mut a, &mut r, InputAction::SelectBlock { x: 2, y: 9 });
    assert!(a.view.selection.is_active());
}

#[test]
fn a_drag_in_a_table_stays_in_its_cell() {
    let (mut a, mut r) = (app(), runtime());
    a.screen.layout_map.push(region(0, 0, "| ab | cd |", 0));
    a.screen.layout_map.push_table_cell_hit(TableCellHit {
        message_idx: 0,
        block_idx: 0,
        cell_idx: 0,
        rect: Rect::new(1, 0, 4, 1),
        cell_text: "ab".to_string(),
        segment: TableCellSegment {
            rendered_range: (1, 5),
            content_range: (2, 4),
            source_range: (0, 2),
        },
    });
    act(&mut a, &mut r, InputAction::SelectionStart { x: 1, y: 0 });
    act(&mut a, &mut r, InputAction::SelectionUpdate { x: 9, y: 0 });
    assert_eq!(
        a.view.selection,
        SelectionState::Range {
            anchor: SemanticCursor::new(0, 0, 2),
            head: SemanticCursor::new(0, 0, 4)
        }
    );
    assert_eq!(a.view.drag.cell_info.as_ref().unwrap().cell_text, "ab");
}

#[test]
fn clicks_open_steps() {
    let (mut a, mut r) = (app(), runtime());
    r.messages.push(step("c1"));
    r.messages.push(envoy("c2", Vec::new()));
    r.messages
        .push(TranscriptMessage::thinking("why".to_string()));
    a.screen
        .layout_map
        .push(region(0, TOOL_STEP_BLOCK_IDX, "step", 0));
    a.screen
        .layout_map
        .push(region(1, TOOL_STEP_BLOCK_IDX, "task", 1));
    a.screen
        .layout_map
        .push(region(2, THINKING_BLOCK_IDX, "thought", 2));
    act(&mut a, &mut r, InputAction::SelectionStart { x: 0, y: 0 });
    assert_eq!(r.messages[0].tool_step_expanded(), Some(true));
    assert_eq!(a.view.focused_target, Some(InteractiveTarget::tool_step(0)));
    act(&mut a, &mut r, InputAction::SelectionStart { x: 0, y: 2 });
    assert_eq!(r.messages[2].thinking_expanded(), Some(true));
    act(&mut a, &mut r, InputAction::RightClick { x: 0, y: 0 });
    assert!(matches!(a.outbox.last(), Some(Effect::OpenStepDetail(0))));
    act(&mut a, &mut r, InputAction::RightClick { x: 0, y: 2 });
    assert_eq!(a.outbox.len(), 1);
    act(&mut a, &mut r, InputAction::Hover { x: 0, y: 1 });
    assert_eq!(a.view.hovered_step, Some(1));
    act(&mut a, &mut r, InputAction::Hover { x: 0, y: 9 });
    assert_eq!(a.view.hovered_step, None);
    act(&mut a, &mut r, InputAction::SelectionStart { x: 0, y: 1 });
    assert_eq!(a.view.focus_stack[0].call_id, "c2");
    assert_eq!(a.view.focused_target, None);
    act(&mut a, &mut r, InputAction::ExitEnvoy);
    assert!(a.view.focus_stack.is_empty());
    act(&mut a, &mut r, InputAction::ExitEnvoy);
    assert!(a.view.focus_stack.is_empty());
}

#[test]
fn the_pinned_header_takes_clicks_and_hovers() {
    let (mut a, mut r) = (app(), runtime());
    r.messages.push(step("c1"));
    begin_frame(&mut a, &mut r, 0);
    a.view.sticky_rect = Some(Rect::new(0, 0, 10, 1));
    a.view.sticky_step = Some(0);
    a.view.sticky_summary_line = Some(33);
    act(&mut a, &mut r, InputAction::Hover { x: 3, y: 0 });
    assert_eq!(a.view.hovered_step, Some(0));
    act(&mut a, &mut r, InputAction::SelectionStart { x: 3, y: 0 });
    assert_eq!(r.messages[0].tool_step_expanded(), Some(true));
    assert_eq!(a.view.focused_target, Some(InteractiveTarget::tool_step(0)));
    assert_eq!(a.view.scroll, 33);
    assert_eq!(a.view.pin_summary_line, Some(33));
    assert!(!a.view.follow_bottom);
}

#[test]
fn a_click_beside_an_overlay_closes_it() {
    let (mut a, mut r) = (app(), runtime());
    a.overlay.active_modal = Modal::HistorySearch;
    a.composer.stashed_input = "draft".to_string();
    a.screen.modal_rect = Some(Rect::new(5, 5, 5, 5));
    act(&mut a, &mut r, InputAction::SelectionStart { x: 6, y: 6 });
    assert_eq!(a.overlay.active_modal, Modal::HistorySearch);
    act(&mut a, &mut r, InputAction::SelectionStart { x: 0, y: 0 });
    assert_eq!(a.overlay.active_modal, Modal::Closed);
    assert_eq!(a.composer.input, "draft");
}

#[test]
fn the_activity_bar_opens_its_panel() {
    let (mut a, mut r) = (app(), runtime());
    a.screen.activity_rect = Some(Rect::new(0, 0, 20, 1));
    a.screen.todos_rect = Some(Rect::new(10, 0, 5, 1));
    act(&mut a, &mut r, InputAction::SelectionStart { x: 1, y: 0 });
    assert_eq!(a.overlay.active_modal, Modal::Activity);
    assert_eq!(a.overlay.activity_tab, ActivityTab::Activity);
    a.overlay.active_modal = Modal::Closed;
    act(&mut a, &mut r, InputAction::SelectionStart { x: 11, y: 0 });
    assert_eq!(a.overlay.activity_tab, ActivityTab::Todos);
    a.overlay.active_modal = Modal::Permission;
    act(&mut a, &mut r, InputAction::SelectionStart { x: 11, y: 0 });
    assert_eq!(a.overlay.active_modal, Modal::Permission);
}

#[test]
fn focus_walks_the_targets_and_activates_them() {
    let (mut a, mut r) = (app(), runtime());
    r.messages.push(step("c1"));
    r.messages
        .push(TranscriptMessage::thinking("why".to_string()));
    a.screen
        .layout_map
        .push(region(0, TOOL_STEP_BLOCK_IDX, "step", 0));
    a.screen
        .layout_map
        .push(region(1, THINKING_BLOCK_IDX, "thought", 1));
    act(&mut a, &mut r, InputAction::FocusPrevTarget);
    assert_eq!(a.view.focused_target, Some(InteractiveTarget::thinking(1)));
    act(&mut a, &mut r, InputAction::ActivateFocusedTarget);
    assert_eq!(r.messages[1].thinking_expanded(), Some(true));
    act(&mut a, &mut r, InputAction::FocusNextTarget);
    assert_eq!(a.view.focused_target, Some(InteractiveTarget::tool_step(0)));
    act(&mut a, &mut r, InputAction::ActivateFocusedTarget);
    assert!(matches!(a.outbox.last(), Some(Effect::OpenStepDetail(0))));
    act(&mut a, &mut r, InputAction::ClearFocusedTarget);
    assert_eq!(a.view.focused_target, None);
}

#[test]
fn all_steps_unfold_and_fold_together() {
    let (mut a, mut r) = (app(), runtime());
    r.messages.push(step("c1"));
    r.messages.push(envoy("c2", vec![step("c3")]));
    begin_frame(&mut a, &mut r, 0);
    act(&mut a, &mut r, InputAction::ToggleToolSteps);
    assert_eq!(r.messages[0].tool_step_expanded(), Some(true));
    assert_eq!(r.messages[1].tool_step_expanded(), Some(false));
    assert!(a.session.tool_density);
    begin_frame(&mut a, &mut r, 0);
    act(&mut a, &mut r, InputAction::ToggleToolSteps);
    assert_eq!(r.messages[0].tool_step_expanded(), Some(false));
    assert!(!a.session.tool_density);
}

#[test]
fn sibling_tasks_are_cycled() {
    let (mut a, mut r) = (app(), runtime());
    for id in ["t1", "t2", "t3"] {
        r.messages.push(envoy(id, Vec::new()));
    }
    begin_frame(&mut a, &mut r, 0);
    assert_eq!(envoy_place(&a), None);
    a.enter_envoy("t3".to_string());
    assert_eq!(envoy_place(&a), Some((3, 3)));
    act(&mut a, &mut r, InputAction::NextSibling);
    assert_eq!(envoy_place(&a), Some((1, 3)));
    act(&mut a, &mut r, InputAction::PrevSibling);
    assert_eq!(envoy_place(&a), Some((3, 3)));
    a.view.focus_stack[0].call_id = "gone".to_string();
    assert_eq!(envoy_place(&a), None);
}

#[test]
fn the_side_conversation_is_left_once() {
    let (mut a, mut r) = (app(), runtime());
    act(&mut a, &mut r, InputAction::ExitSideView);
    assert!(sent(&a).is_empty());
    a.enter_side_view("side".to_string());
    act(&mut a, &mut r, InputAction::ExitSideView);
    assert!(!a.view.in_side_view);
    assert_eq!(sent(&a), vec![&AgentRequest::ExitSideView]);
}

#[test]
fn what_a_frame_shows() {
    let mut a = app();
    assert!(shows_caret(&a));
    a.composer.input = "!ls".to_string();
    assert!(shell_active(&a));
    a.view.hovered_step = Some(2);
    assert_eq!(highlights(&a), (Some(2), None));
    a.overlay.active_modal = Modal::Help;
    assert_eq!(highlights(&a), (None, None));
    assert!(!shell_active(&a));
    assert!(!shows_caret(&a));
    assert_eq!(
        permission_rect(Rect::new(1, 2, 3, 4), Rect::new(1, 6, 3, 2)),
        Rect::new(1, 2, 3, 6)
    );
    assert_eq!(poll_timeout(true, 3), 0);
    assert_eq!(poll_timeout(false, 1), 16);
    assert_eq!(poll_timeout(false, 0), 100);
    let messages = vec![
        TranscriptMessage::new(Role::User, "first".to_string()),
        TranscriptMessage::new(Role::User, "prompt".to_string()),
        TranscriptMessage::new(Role::Assistant, "answer".to_string()),
        TranscriptMessage::new(Role::User, "/help".to_string())
            .with_origin(UserMessageOrigin::Slash),
    ];
    assert_eq!(driving_prompt(&messages), Some("prompt".to_string()));
    assert_eq!(driving_prompt(&[]), None);
    assert!(matches!(
        step("x").kind,
        MessageKind::ToolStep(s) if s.status == ToolStepStatus::Running
    ));
}

fn provider(id: &str, models: &[&str], builtin: bool) -> ProviderPickerRow {
    ProviderPickerRow {
        id: id.to_string(),
        name: id.to_string(),
        model: models[0].to_string(),
        models: models.iter().map(|m| m.to_string()).collect(),
        builtin,
        protocol: String::new(),
        base_url: String::new(),
        key_ready: true,
        favorite: false,
        last_used_ms: None,
    }
}

fn with_providers() -> App {
    let mut a = app();
    a.picker.provider_picker.rows = vec![
        provider("relay", &["glm"], false),
        provider("openai", &["gpt-4o", "gpt-4o-mini"], true),
        provider("kimi", &["kimi-k2"], true),
    ];
    a
}

#[test]
fn the_picker_lists_its_current_stage() {
    let mut a = with_providers();
    let rows = |a: &App| -> Vec<(usize, String, String)> {
        picker_entries(a, &Vec::new())
            .into_iter()
            .map(|row| (row.row_idx, row.provider_id, row.model))
            .collect()
    };
    let entry = |at: usize, id: &str, model: &str| (at, id.to_string(), model.to_string());
    assert_eq!(
        rows(&a),
        vec![
            entry(2, "kimi", "kimi-k2"),
            entry(1, "openai", "gpt-4o"),
            entry(0, "relay", "glm"),
        ]
    );
    a.picker.picker_provider = Some(1);
    assert_eq!(
        rows(&a),
        vec![entry(1, "openai", "gpt-4o"), entry(1, "openai", "gpt-4o-mini")]
    );
    a.picker.picker_provider = Some(9);
    assert!(rows(&a).is_empty());
}

#[test]
fn a_provider_with_several_models_opens_its_model_list() {
    let (mut a, mut r) = (with_providers(), runtime());
    a.composer.input = "draft".to_string();
    act(&mut a, &mut r, InputAction::OpenProvider);
    assert_eq!(a.overlay.modal_index, 1);
    act(&mut a, &mut r, InputAction::ProviderPickerActivate);
    assert_eq!(a.picker.picker_provider, Some(1));
    assert_eq!(a.overlay.active_modal, Modal::Provider);
    assert_eq!(a.overlay.modal_index, 0);
    assert!(sent(&a).is_empty());

    act(&mut a, &mut r, InputAction::ProviderPickerBack);
    assert_eq!(a.picker.picker_provider, None);
    assert_eq!(a.overlay.active_modal, Modal::Provider);
    act(&mut a, &mut r, InputAction::ProviderPickerBack);
    assert_eq!(a.overlay.active_modal, Modal::Provider);

    act(&mut a, &mut r, InputAction::ModalDown);
    act(&mut a, &mut r, InputAction::ProviderPickerActivate);
    assert_eq!(a.picker.picker_provider, Some(1));
    act(&mut a, &mut r, InputAction::ModalDown);
    act(&mut a, &mut r, InputAction::ProviderPickerActivate);
    assert_eq!(
        sent(&a),
        vec![&AgentRequest::SwitchProvider {
            provider_type: "openai".to_string(),
            model: "gpt-4o-mini".to_string(),
            api_key: None,
            base_url: None,
            effort: None,
            thinking: None,
        }]
    );
    assert_eq!(a.overlay.active_modal, Modal::Closed);
    assert_eq!(a.picker.picker_provider, None);
    assert_eq!(a.composer.input, "draft");
}

#[test]
fn a_provider_with_one_model_is_activated_directly() {
    let (mut a, mut r) = (with_providers(), runtime());
    act(&mut a, &mut r, InputAction::OpenProvider);
    act(&mut a, &mut r, InputAction::ModalUp);
    assert_eq!(a.overlay.modal_index, 0);
    act(&mut a, &mut r, InputAction::ProviderPickerActivate);
    assert!(matches!(
        sent(&a).as_slice(),
        [AgentRequest::SwitchProvider { provider_type, model, .. }]
            if provider_type == "kimi" && model == "kimi-k2"
    ));
}

#[test]
fn the_last_row_adds_a_provider() {
    let (mut a, mut r) = (with_providers(), runtime());
    a.composer.input = "draft".to_string();
    act(&mut a, &mut r, InputAction::OpenProvider);
    act(&mut a, &mut r, InputAction::ModalDown);
    act(&mut a, &mut r, InputAction::ModalDown);
    assert_eq!(a.overlay.modal_index, 3);
    act(&mut a, &mut r, InputAction::ProviderPickerToggleFavorite);
    act(&mut a, &mut r, InputAction::OpenModelEditor);
    assert!(sent(&a).is_empty());
    assert_eq!(a.overlay.active_modal, Modal::Provider);
    act(&mut a, &mut r, InputAction::ModalDown);
    assert_eq!(a.overlay.modal_index, 0);
    act(&mut a, &mut r, InputAction::ModalUp);
    assert_eq!(a.overlay.modal_index, 3);
    act(&mut a, &mut r, InputAction::ProviderPickerActivate);
    assert_eq!(a.overlay.active_modal, Modal::ProviderTemplate);
    assert_eq!(a.composer.stashed_input, "draft");
    assert!(sent(&a).is_empty());
}

#[test]
fn a_model_is_added_to_a_user_defined_provider_only() {
    let (mut a, mut r) = (with_providers(), runtime());
    a.overlay.active_modal = Modal::Provider;
    a.picker.picker_provider = Some(0);
    act(&mut a, &mut r, InputAction::ModalDown);
    assert_eq!(a.overlay.modal_index, 1);
    act(&mut a, &mut r, InputAction::ProviderPickerActivate);
    assert_eq!(a.overlay.active_modal, Modal::AddModel);
    assert_eq!(a.picker.add_model_provider, Some("relay".to_string()));

    a.overlay.active_modal = Modal::Provider;
    a.overlay.modal_index = 1;
    a.picker.picker_provider = Some(1);
    act(&mut a, &mut r, InputAction::ModalDown);
    assert_eq!(a.overlay.modal_index, 0);
}

#[test]
fn the_picker_opens_on_the_providers() {
    let (mut a, mut r) = (with_providers(), runtime());
    a.picker.picker_provider = Some(0);
    act(&mut a, &mut r, InputAction::OpenProvider);
    assert_eq!(a.overlay.modal_index, 1);
    assert_eq!(a.picker.picker_provider, None);
    a.picker.picker_provider = Some(1);
    a.overlay.active_modal = Modal::ModelEditor;
    a.key_editor.editor_target = Some("openai".to_string());
    act(&mut a, &mut r, InputAction::SubmitModelEditor);
    assert_eq!(a.picker.picker_provider, None);
}

#[test]
fn a_query_narrows_what_the_picker_lists() {
    let (mut a, mut r) = (with_providers(), runtime());
    act(&mut a, &mut r, InputAction::OpenProvider);
    act(&mut a, &mut r, InputAction::ModelEnterSearch);
    a.composer.input = "ki".to_string();
    let mut known = facts();
    let hit = || Some(FuzzyMatch { score: 1, positions: vec![0] });
    known.picker_matches = vec![None, None, hit()];
    dispatch(&mut a, &mut r, InputAction::ModalUp, &known);
    assert_eq!(a.overlay.modal_index, 1);
    dispatch(&mut a, &mut r, InputAction::ModalUp, &known);
    dispatch(&mut a, &mut r, InputAction::ProviderPickerActivate, &known);
    assert!(matches!(
        sent(&a).as_slice(),
        [AgentRequest::SwitchProvider { provider_type, .. }] if provider_type == "kimi"
    ));

    a.overlay.active_modal = Modal::Provider;
    a.picker.picker_provider = Some(1);
    a.picker.model_search = true;
    a.composer.input = "mini".to_string();
    let entries = picker_entries(&a, &vec![None, hit()]);
    assert_eq!(entries.len(), 1);
    assert_eq!(entries[0].model, "gpt-4o-mini");
}

#[test]
fn control_c_leaves_nothing_of_an_overlay() {
    for modal in [Modal::Provider, Modal::AddModel, Modal::CustomProvider, Modal::ModelEditor] {
        let (mut a, mut r) = (with_providers(), runtime());
        a.overlay.active_modal = modal;
        a.picker.picker_provider = Some(1);
        a.picker.add_model_provider = Some("relay".to_string());
        a.provider_editor.custom_fields = vec![CustomField::Name];
        act(&mut a, &mut r, InputAction::CtrlC);
        assert_eq!(a.overlay.active_modal, Modal::Closed);
        assert_eq!(a.picker.picker_provider, None);
        assert_eq!(a.picker.add_model_provider, None);
        assert!(a.provider_editor.custom_fields.is_empty());
    }
}

#[test]
fn no_step_is_lit_up_behind_an_overlay() {
    for action in [
        InputAction::OpenHelp,
        InputAction::OpenConfig,
        InputAction::OpenTools,
        InputAction::OpenPermissions,
        InputAction::OpenHistory,
        InputAction::OpenProvider,
    ] {
        let (mut a, mut r) = (app(), runtime());
        a.view.hovered_step = Some(3);
        act(&mut a, &mut r, action);
        assert_eq!(a.view.hovered_step, None);
    }
    let (mut a, mut r) = (app(), runtime());
    a.view.hovered_step = Some(3);
    r.pending_permission.push_back(request("p1"));
    begin_frame(&mut a, &mut r, 0);
    assert_eq!(a.overlay.active_modal, Modal::Permission);
    assert_eq!(a.view.hovered_step, Some(3));
}

#[test]
fn sending_drops_the_draft_behind_the_history() {
    for action in [
        InputAction::SendChat("hi".to_string()),
        InputAction::SendSlash("/compact".to_string()),
        InputAction::SendShell("ls".to_string()),
    ] {
        let (mut a, mut r) = (app(), runtime());
        a.composer.history_draft = "unsent".to_string();
        act(&mut a, &mut r, action);
        assert_eq!(a.composer.history_draft, "");
    }
}

#[test]
fn a_click_on_the_context_meter_opens_the_token_report() {
    let (mut a, mut r) = (app(), runtime());
    a.screen.hint_context_rect = Some(Rect::new(10, 20, 5, 1));
    a.overlay.modal_index = 4;
    act(&mut a, &mut r, InputAction::SelectionStart { x: 15, y: 20 });
    assert_eq!(a.overlay.active_modal, Modal::Closed);
    act(&mut a, &mut r, InputAction::SelectionStart { x: 14, y: 20 });
    assert_eq!(a.overlay.active_modal, Modal::TokenReport);
    assert_eq!(a.overlay.modal_index, 0);
}

#[test]
fn a_resize_goes_to_the_host() {
    let (mut a, mut r) = (app(), runtime());
    assert_eq!(
        dispatch(&mut a, &mut r, InputAction::TerminalResized, &facts()),
        Some(InputAction::TerminalResized)
    );
}
