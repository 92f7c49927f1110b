use neenee_code::agent::{AgentRequest, SessionContextSnapshot, ToolInfo};
use neenee_code::app::composer::{remove_last_marker, Completion};
use neenee_code::app::focus::{messages_in_view, resolve_focused, resolve_focused_mut};
use neenee_code::app::navigate::{message_target, step_wrapping};
use neenee_code::app::picker::{edit_fields, model_suggestions, ring_step, ProviderTemplate};
use neenee_code::app::{App, CaretOwner, CustomField, QuestionState, QueuedDispatch, ZoomFrame};
use neenee_code::attachments::{
    chip_range_for_backspace, image_chip, parse_chip, paste_chip, Chip, ImagePart,
};
use neenee_code::clipboard_ops::{
    apply_clipboard_paste, count_text, finish_copy, set_copy_feedback, show_local_toast, ClipboardRead,
    CopyOutcome,
};
use neenee_code::document::{MessageKind, Role, TranscriptMessage};
use neenee_code::interaction::{classify_click, summary_at, ClickTarget, StepKind};
use neenee_code::layout::{
    BlockRegion, InteractiveTarget, LayoutMap, Rect, SemanticCursor, INPUT_MSG_IDX,
    THINKING_BLOCK_IDX, TOOL_STEP_BLOCK_IDX,
};
use neenee_code::modal::Modal;
use neenee_code::motion::{
    cursor_line_down, cursor_line_end, cursor_line_start, cursor_line_up, next_word_end,
    prev_word_start,
};
use neenee_code::providers::{
    FuzzyMatch, ModelInfo, ProviderPickerRow, ProviderPickerSnapshot, WireFormat,
};
use neenee_code::selection::{SelectionDrag, SelectionState};
use neenee_code::staging::{expand_paste_chips, reconcile};

fn app() -> App {
    App::new("openai".to_string(), "gpt-4o".to_string(), Vec::new())
}

fn strings(list: &[&str]) -> Vec<String> {
    list.iter().map(|s| s.to_string()).collect()
}

fn image(data: &str) -> ImagePart {
    ImagePart {
        mime: "image/png".to_string(),
        data: data.to_string(),
    }
}

fn task(id: &str, children: Option<Vec<TranscriptMessage>>) -> TranscriptMessage {
    let mut message =
        TranscriptMessage::tool_step(id.to_string(), "task".to_string(), "{}".to_string());
    if let MessageKind::ToolStep(step) = &mut message.kind {
        step.children = children;
    }
    message
}

fn found(score: i64) -> Option<FuzzyMatch> {
    Some(FuzzyMatch {
        score,
        positions: Vec::new(),
    })
}

fn region(message_idx: usize, block_idx: usize, text: &str, y: u16) -> BlockRegion {
    BlockRegion {
        message_idx,
        block_idx,
        start_byte: 0,
        end_byte: text.len(),
        text: text.to_string(),
        prefix_cols: 0,
        rect: Rect::new(0, y, 10, 1),
        hidden_ranges: Vec::new(),
    }
}

#[test]
fn line_motions() {
    let text = "one\nthree\nab";
    let mut at = 8;
    cursor_line_start(text, &mut at);
    assert_eq!(at, 4);
    cursor_line_end(text, &mut at);
    assert_eq!(at, 9);
    assert!(cursor_line_up(text, &mut at));
    assert_eq!(at, 3);
    assert!(!cursor_line_up(text, &mut at));
    assert_eq!(at, 3);
    assert!(cursor_line_down(text, &mut at));
    assert_eq!(at, 7);
    assert!(cursor_line_up(text, &mut at));
    assert_eq!(at, 3);
    at = 9;
    assert!(cursor_line_down(text, &mut at));
    assert_eq!(at, 12);
    assert!(!cursor_line_down(text, &mut at));
}

#[test]
fn a_step_up_undoes_a_step_down_where_the_column_fits() {
    let text = "one\nthree\nab";
    for start in 0..=3 {
        let mut at = start;
        assert!(cursor_line_down(text, &mut at));
        assert_eq!(at, start + 4);
        assert!(cursor_line_up(text, &mut at));
        assert_eq!(at, start);
    }
    let mut at = 8;
    assert!(cursor_line_down(text, &mut at));
    assert_eq!(at, 12);
    assert!(cursor_line_up(text, &mut at));
    assert_eq!(at, 6);
}

#[test]
fn word_motions() {
    let text = "ab  cd\nef";
    assert_eq!(prev_word_start(text, 9), 7);
    assert_eq!(prev_word_start(text, 7), 4);
    assert_eq!(prev_word_start(text, 4), 0);
    assert_eq!(prev_word_start(text, 0), 0);
    assert_eq!(prev_word_start(text, 99), 7);
    assert_eq!(next_word_end(text, 0), 2);
    assert_eq!(next_word_end(text, 2), 6);
    assert_eq!(next_word_end(text, 6), 9);
    assert_eq!(next_word_end(text, 99), 9);
}

#[test]
fn chips_are_written_and_read() {
    assert_eq!(image_chip(12), "[Image #12]");
    assert_eq!(paste_chip(3, 40), "[Pasted text #3 +40 lines]");
    assert!(matches!(
        parse_chip("[Image #12]"),
        Some(Chip::Image { n: 12 })
    ));
    assert!(matches!(
        parse_chip("[Pasted text #3 +40 lines]"),
        Some(Chip::Paste { n: 3, lines: 40 })
    ));
    for text in [
        "[Image #0]",
        "[Image #01]",
        "[Image #]",
        "[Image 1]",
        "[Pasted text #1 lines]",
        "",
    ] {
        assert!(parse_chip(text).is_none(), "{text}");
    }
}

#[test]
fn a_backspace_takes_a_whole_chip() {
    let text = "é[Image #1] x";
    assert_eq!(chip_range_for_backspace(text, 11), Some((1, 11)));
    assert_eq!(chip_range_for_backspace(text, 12), Some((1, 12)));
    assert_eq!(chip_range_for_backspace(text, 13), None);
    assert_eq!(chip_range_for_backspace(text, 10), None);
    assert_eq!(chip_range_for_backspace(text, 0), None);
}

#[test]
fn chips_are_renumbered_with_their_attachments() {
    let mut images = vec![image("a"), image("b"), image("c")];
    let mut pastes = strings(&["p", "q"]);
    let out = reconcile(
        "[Image #3] [Pasted text #2 +5 lines] [Image #1] [Image #9]",
        &mut images,
        &mut pastes,
    );
    assert_eq!(
        out,
        "[Image #2] [Pasted text #1 +5 lines] [Image #1] [Image #9]"
    );
    assert_eq!(images, vec![image("a"), image("c")]);
    assert_eq!(pastes, strings(&["q"]));
    let mut none = Vec::new();
    assert_eq!(reconcile("plain", &mut none, &mut pastes), "plain");
    assert!(pastes.is_empty());
}

#[test]
fn only_text_chips_are_expanded() {
    let pastes = strings(&["one", "[Image #1]"]);
    assert_eq!(
        expand_paste_chips(
            "[Pasted text #1 +1 lines]/[Pasted text #2 +1 lines]/[Pasted text #3 +1 lines]/[Image #1]",
            &pastes
        ),
        "one/[Image #1]/[Pasted text #3 +1 lines]/[Image #1]"
    );
}

#[test]
fn counts_agree_with_their_nouns() {
    assert_eq!(count_text(0, " line"), "0 lines");
    assert_eq!(count_text(1, " line"), "1 line");
    assert_eq!(count_text(2, " line"), "2 lines");
}

#[test]
fn an_image_is_staged_behind_a_chip() {
    let mut a = app();
    a.composer.input = "ab".to_string();
    a.composer.cursor_position = 1;
    let read = || ClipboardRead::Image {
        data: "AA".to_string(),
        mime: "image/png".to_string(),
    };
    apply_clipboard_paste(&mut a, read(), false, 10);
    assert!(a.composer.pending_images.is_empty());
    assert!(a.toast.copy_toast_failed);
    assert_eq!(
        a.toast.copy_toast_message,
        "gpt-4o does not support images — paste ignored"
    );
    assert_eq!(a.toast.copy_toast_until, Some(2_010));
    apply_clipboard_paste(&mut a, read(), true, 10);
    assert_eq!(a.composer.input, "a[Image #1] b");
    assert_eq!(a.composer.cursor_position, 12);
    assert!(a.composer.cursor_sync_pending);
    assert_eq!(
        a.toast.copy_toast_message,
        "1 image attached — enter to send"
    );
    assert_eq!(a.toast.copy_toast_until, Some(1_810));
    apply_clipboard_paste(&mut a, read(), true, u64::MAX);
    assert_eq!(a.composer.input, "a[Image #1] [Image #2] b");
    assert_eq!(
        a.toast.copy_toast_message,
        "2 images attached — enter to send"
    );
    assert_eq!(a.toast.copy_toast_until, Some(u64::MAX));
}

#[test]
fn a_large_text_is_staged_behind_a_chip() {
    let mut a = app();
    apply_clipboard_paste(
        &mut a,
        ClipboardRead::Text {
            text: "x\ny".to_string(),
            chip_lines: Some(1),
        },
        false,
        0,
    );
    assert_eq!(a.composer.input, "[Pasted text #1 +1 lines] ");
    assert_eq!(a.toast.copy_toast_message, "pasted 1 line as a chip");
    apply_clipboard_paste(&mut a, ClipboardRead::Empty, false, 0);
    assert_eq!(a.toast.copy_toast_message, "clipboard is empty");
    assert!(a.toast.copy_toast_failed);
}

#[test]
fn a_field_takes_one_line_of_text() {
    let mut a = app();
    a.overlay.active_modal = Modal::ModelEditor;
    let text = |s: &str| ClipboardRead::Text {
        text: s.to_string(),
        chip_lines: Some(3),
    };
    apply_clipboard_paste(&mut a, text("a\r\nb\n"), true, 0);
    assert_eq!(a.composer.input, "ab");
    assert!(a.composer.cursor_sync_pending);
    assert_eq!(a.toast.copy_toast_message, "pasted 2 chars");
    assert!(a.composer.pending_text_pastes.is_empty());
    apply_clipboard_paste(&mut a, text("\n"), true, 0);
    assert_eq!(a.toast.copy_toast_message, "pasted 2 chars");
    apply_clipboard_paste(
        &mut a,
        ClipboardRead::Image {
            data: String::new(),
            mime: String::new(),
        },
        true,
        0,
    );
    assert_eq!(
        a.toast.copy_toast_message,
        "can't paste image into this field"
    );
    a.overlay.active_modal = Modal::Help;
    apply_clipboard_paste(&mut a, text("x"), true, 0);
    assert_eq!(a.composer.input, "ab");
}

#[test]
fn a_copy_is_reported() {
    let mut a = app();
    show_local_toast(&mut a, "hi".to_string(), false, 5, 7);
    set_copy_feedback(&mut a, Ok(CopyOutcome::Native));
    assert_eq!(a.toast.copy_toast_message, "copied to clipboard");
    assert_eq!(a.toast.copy_toast_until, Some(12));
    set_copy_feedback(&mut a, Ok(CopyOutcome::Osc52));
    assert_eq!(a.toast.copy_toast_message, "copy sent via OSC52");
    assert!(!a.toast.copy_toast_failed);
    set_copy_feedback(&mut a, Err("no display".to_string()));
    assert_eq!(a.toast.copy_toast_message, "copy failed: no display");
    assert!(a.toast.copy_toast_failed);
}

#[test]
fn completions_replace_their_range() {
    let mut a = app();
    let complete = |a: &mut App, input: &str, label: &str, from: usize, to: usize| {
        a.composer.input = input.to_string();
        a.accept_completion(
            &vec![Completion {
                label: label.to_string(),
                replace_start: from,
                replace_end: to,
            }],
            0,
        );
        (a.composer.input.clone(), a.composer.cursor_position)
    };
    assert_eq!(
        complete(&mut a, "é @m", "@main.rs", 3, 5),
        ("é @main.rs ".to_string(), 11)
    );
    assert_eq!(
        complete(&mut a, "@m x", "@main.rs", 0, 2),
        ("@main.rs x".to_string(), 8)
    );
    assert_eq!(
        complete(&mut a, "@s", "@src/", 0, 2),
        ("@src/".to_string(), 5)
    );
    assert!(!a.composer.completion_dismissed);
    assert_eq!(
        complete(&mut a, "/he", "/help", 0, 3),
        ("/help".to_string(), 5)
    );
    assert!(a.composer.completion_dismissed);
    a.accept_completion(&Vec::new(), 0);
    assert_eq!(a.composer.input, "/help");
}

#[test]
fn the_history_is_listed_newest_first_or_best_first() {
    let mut a = app();
    a.composer.input_history = strings(&["a", "b", "c"]);
    let order = |a: &App, matches: &Vec<Option<FuzzyMatch>>| -> Vec<usize> {
        a.history_rows(matches).into_iter().map(|row| row.0).collect()
    };
    assert_eq!(order(&a, &Vec::new()), vec![2, 1, 0]);
    a.overlay.history_search = true;
    assert_eq!(order(&a, &Vec::new()), vec![2, 1, 0]);
    a.composer.input = "q".to_string();
    assert_eq!(order(&a, &vec![found(1), None, found(9)]), vec![2, 0]);
    assert_eq!(
        order(
            &a,
            &vec![found(i64::MIN), found(i64::MIN + 1), found(i64::MAX)]
        ),
        vec![2, 1, 0]
    );
    assert_eq!(order(&a, &vec![found(4), found(4), found(4)]), vec![0, 1, 2]);
}

#[test]
fn entries_are_recorded_once() {
    let mut a = app();
    a.composer.history_index = Some(0);
    for entry in ["x", "x", "", "y", "x"] {
        a.record_input_history(entry.to_string());
    }
    assert_eq!(a.composer.input_history, strings(&["x", "y", "x"]));
    assert_eq!(a.composer.history_index, None);
}

#[test]
fn a_parked_draft_comes_back() {
    let mut a = app();
    a.composer.input = "draft é".to_string();
    a.park_input_draft();
    assert_eq!(a.composer.input, "");
    assert_eq!(a.composer.stashed_input, "draft é");
    a.composer.input = "query".to_string();
    a.overlay.history_search = true;
    a.restore_history_draft();
    assert_eq!(a.composer.input, "draft é");
    assert_eq!(a.composer.cursor_position, 7);
    assert!(!a.overlay.history_search);
    assert_eq!(a.composer.stashed_input, "");
}

#[test]
fn recalling_takes_the_last_queued_message() {
    let mut a = app();
    let mut messages = Vec::new();
    assert!(!a.recall_queued(&mut messages));
    for text in ["one", "two"] {
        a.composer.pending_dispatch.push_back(QueuedDispatch {
            text: text.to_string(),
            images: vec![image(text)],
            text_pastes: strings(&[text]),
        });
        messages.push(TranscriptMessage::new(Role::User, text.to_string()).queued());
    }
    messages.push(TranscriptMessage::new(Role::Assistant, "busy".to_string()));
    assert!(a.recall_queued(&mut messages));
    assert_eq!(a.composer.input, "two");
    assert_eq!(a.composer.pending_images, vec![image("two")]);
    assert_eq!(a.composer.pending_text_pastes, strings(&["two"]));
    let left: Vec<&str> = messages.iter().map(|m| m.raw.as_str()).collect();
    assert_eq!(left, vec!["one", "busy"]);
    remove_last_marker(&mut messages);
    remove_last_marker(&mut messages);
    assert_eq!(messages.len(), 1);
}

#[test]
fn the_caret_belongs_to_one_surface() {
    let mut a = app();
    a.composer.input = "né".to_string();
    a.set_cursor_end();
    assert_eq!(a.byte_cursor(), 3);
    a.set_cursor(1);
    assert_eq!(a.byte_cursor(), 1);
    a.set_cursor(99);
    assert_eq!(a.byte_cursor(), 3);
    assert_eq!(a.caret_owner(false), CaretOwner::Composer);
    assert!(a.caret_visible(false));
    a.view.selection = SelectionState::Block {
        message_idx: 0,
        block_idx: 0,
    };
    assert!(!a.caret_visible(false));
    a.view.selection = SelectionState::Empty;
    a.view.focused_target = Some(InteractiveTarget::thinking(0));
    assert_eq!(a.caret_owner(true), CaretOwner::Nobody);
    a.overlay.active_modal = Modal::Provider;
    assert_eq!(a.caret_owner(true), CaretOwner::Modal);
    assert_eq!(a.caret_owner(false), CaretOwner::Nobody);
    a.overlay.active_modal = Modal::Question;
    a.question = Some(QuestionState {
        request_id: String::new(),
        other_highlighted: true,
    });
    assert_eq!(a.caret_owner(false), CaretOwner::Modal);
    a.observe_input_rect(Rect::new(1, 2, 3, 4));
    assert_eq!(a.composer.last_input_rect, Rect::new(1, 2, 3, 4));
    a.composer.cursor_sync_pending = false;
    a.note_cursor_moved();
    assert!(a.composer.cursor_sync_pending);
}

#[test]
fn leaving_an_envoy_restores_the_scroll_position() {
    let mut a = app();
    a.view.messages = vec![task("outer", Some(vec![task("inner", Some(Vec::new()))]))];
    a.view.scroll = 17;
    a.view.follow_bottom = false;
    a.enter_envoy("outer".to_string());
    assert!(a.in_envoy_view());
    assert_eq!((a.view.scroll, a.view.follow_bottom), (0, true));
    assert_eq!(a.focused_messages().len(), 1);
    assert_eq!(a.focused_messages()[0].tool_step_call_id(), Some("inner"));
    a.enter_envoy("inner".to_string());
    assert!(a.focused_messages().is_empty());
    assert!(a.exit_envoy());
    assert!(a.exit_envoy());
    assert_eq!((a.view.scroll, a.view.follow_bottom), (17, false));
    assert!(!a.exit_envoy());
}

#[test]
fn the_focused_conversation_is_resolved() {
    let mut messages = vec![
        task("plain", None),
        task("outer", Some(vec![task("inner", None)])),
    ];
    let stack = vec![ZoomFrame {
        call_id: "outer".to_string(),
        saved_scroll: Default::default(),
    }];
    let lost = vec![ZoomFrame {
        call_id: "gone".to_string(),
        saved_scroll: Default::default(),
    }];
    assert_eq!(messages_in_view(&messages, &Vec::new()).len(), 2);
    assert_eq!(messages_in_view(&messages, &stack).len(), 1);
    assert_eq!(messages_in_view(&messages, &lost).len(), 0);
    assert!(resolve_focused(&messages, &stack, 1).is_none());
    assert_eq!(
        resolve_focused(&messages, &stack, 0)
            .unwrap()
            .tool_step_call_id(),
        Some("inner")
    );
    resolve_focused_mut(&mut messages, &stack, 0)
        .unwrap()
        .raw
        .push('x');
    assert_eq!(messages_in_view(&messages, &stack)[0].raw, "x");
    assert!(resolve_focused_mut(&mut messages, &lost, 0).is_none());
}

#[test]
fn toggling_pins_a_step() {
    let mut a = app();
    let mut messages = vec![
        task("c", None),
        TranscriptMessage::thinking("t".to_string()),
        TranscriptMessage::new(Role::User, "u".to_string()),
    ];
    assert!(a.toggle_step_pinned(&mut messages, 0));
    assert!(a.toggle_step_pinned(&mut messages, 1));
    assert!(!a.toggle_step_pinned(&mut messages, 2));
    assert!(!a.toggle_step_pinned(&mut messages, 3));
    assert_eq!(messages[0].tool_step_expanded(), Some(true));
    assert_eq!(messages[1].thinking_expanded(), Some(true));
    messages[0].set_tool_step_expanded(false);
    assert_eq!(messages[0].tool_step_expanded(), Some(true));
    assert_eq!(
        message_target(&messages, 0),
        Some(InteractiveTarget::tool_step(0))
    );
    assert_eq!(
        message_target(&messages, 1),
        Some(InteractiveTarget::thinking(1))
    );
    assert_eq!(message_target(&messages, 2), None);
}

#[test]
fn focus_goes_round() {
    let mut a = app();
    a.focus_interactive_target(1);
    assert_eq!(a.view.focused_target, None);
    a.view.messages = vec![task("c", None)];
    a.screen
        .layout_map
        .push(region(1, THINKING_BLOCK_IDX, "t", 0));
    a.view.sticky_step = Some(0);
    let all = a.visible_interactive_targets();
    assert_eq!(all.len(), 2);
    assert!(all.contains(&InteractiveTarget::tool_step(0)));
    a.focus_interactive_target(1);
    let first = a.view.focused_target;
    a.focus_interactive_target(1);
    a.focus_interactive_target(1);
    assert_eq!(a.view.focused_target, first);
    a.focus_interactive_target(-1);
    assert_ne!(a.view.focused_target, first);
    a.focus_interactive_target(1);
    assert_eq!(a.view.focused_target, first);
    a.retain_visible_focused_target();
    assert_eq!(a.view.focused_target, first);
    a.overlay.active_modal = Modal::Help;
    a.retain_visible_focused_target();
    assert_eq!(a.view.focused_target, None);
    assert_eq!(step_wrapping(0, -1, 3), 2);
    assert_eq!(step_wrapping(2, 1, 3), 0);
    assert_eq!(ring_step(0, false, 3), 2);
    assert_eq!(ring_step(2, true, 3), 0);
}

#[test]
fn the_side_view_starts_and_ends_empty() {
    let mut a = app();
    a.view.messages = vec![task("c", None)];
    a.view.scroll = 4;
    a.enter_side_view("side".to_string());
    assert!(a.view.in_side_view);
    assert!(a.focused_messages().is_empty());
    assert_eq!(a.view.scroll, 0);
    a.exit_side_view();
    assert_eq!(a.view.side_session_id, None);
    assert_eq!(a.focused_messages().len(), 1);
}

fn info(id: &str, format: WireFormat) -> ModelInfo {
    ModelInfo {
        id: id.to_string(),
        name: String::new(),
        format,
        context_window: 1,
        vision: false,
    }
}

fn registry() -> Vec<ModelInfo> {
    vec![
        info("gpt-a", WireFormat::OpenAiCompat),
        info("gem", WireFormat::Gemini),
        info("gpt-b", WireFormat::OpenAiCompat),
    ]
}

fn row(id: &str, builtin: bool, models: &[&str]) -> ProviderPickerRow {
    ProviderPickerRow {
        id: id.to_string(),
        name: id.to_string(),
        model: models[0].to_string(),
        models: strings(models),
        builtin,
        protocol: "openai".to_string(),
        base_url: String::new(),
        key_ready: true,
        favorite: false,
        last_used_ms: None,
    }
}

#[test]
fn suggestions_hold_the_query() {
    let ids = strings(&["gpt-a", "gem"]);
    assert_eq!(model_suggestions(&ids, "", &Vec::new()), ids);
    assert_eq!(
        model_suggestions(&ids, "gpt", &vec![false, false]),
        strings(&["gpt-a", "gpt"])
    );
    assert_eq!(
        model_suggestions(&ids, "gem", &vec![true, false]),
        strings(&["gpt-a", "gem"])
    );
    assert_eq!(
        edit_fields("gemini"),
        vec![CustomField::Name, CustomField::Token]
    );
    assert_eq!(
        edit_fields("openai"),
        vec![CustomField::Name, CustomField::BaseUrl, CustomField::Token]
    );
}

#[test]
fn a_provider_is_written_field_by_field() {
    let mut a = app();
    a.open_provider_template_chooser();
    assert_eq!(a.overlay.active_modal, Modal::ProviderTemplate);
    a.move_template_choice(false, 4);
    assert_eq!(a.picker.template_choice, 3);
    a.move_template_choice(true, 4);
    assert_eq!(a.picker.template_choice, 0);
    a.move_template_choice(true, 0);
    assert_eq!(a.picker.template_choice, 0);
    let template = ProviderTemplate {
        protocol: "openai".to_string(),
        models: strings(&["gpt-a"]),
        url_hint: "https://".to_string(),
        fields: vec![CustomField::Name, CustomField::Model],
    };
    a.open_custom_provider_editor(&template, &registry());
    assert!(!a.custom_is_editing());
    assert_eq!(a.current_custom_field(), Some(CustomField::Name));
    assert_eq!(a.provider_editor.custom_model, "gpt-a");
    a.composer.input = "mine".to_string();
    a.cycle_custom_field(true, &registry());
    assert_eq!(a.current_custom_field(), Some(CustomField::Model));
    assert_eq!(a.composer.input, "");
    assert_eq!(
        a.custom_model_candidates(&registry()),
        strings(&["gpt-a", "gpt-b"])
    );
    a.move_custom_suggestion(false, &registry(), &Vec::new());
    assert_eq!(a.provider_editor.custom_model, "gpt-b");
    a.composer.input = "new".to_string();
    a.on_custom_filter_changed(&registry(), &vec![false, false]);
    assert_eq!(a.provider_editor.custom_model, "new");
    a.cycle_custom_field(true, &registry());
    assert_eq!(a.composer.input, "mine");
    assert_eq!(a.composer.cursor_position, 4);
    a.move_custom_suggestion(true, &registry(), &vec![false, false]);
    assert_eq!(a.provider_editor.custom_model, "new");
    a.open_edit_provider_editor(
        "id".to_string(),
        "name".to_string(),
        "openai".to_string(),
        "url".to_string(),
    );
    assert!(a.custom_is_editing());
    assert_eq!(a.composer.input, "name");
    a.cycle_custom_field(true, &registry());
    assert_eq!(a.composer.input, "url");
    a.cycle_custom_field(false, &registry());
    assert_eq!(a.composer.input, "name");
}

#[test]
fn the_picker_counts_its_rows() {
    let mut a = app();
    a.picker.provider_picker = ProviderPickerSnapshot {
        default_id: String::new(),
        rows: vec![
            row("built", true, &["gpt-a"]),
            row("own", false, &["gpt-b", "gem"]),
        ],
    };
    let none = Vec::new();
    assert_eq!(a.providers_filtered(&none).len(), 2);
    assert_eq!(a.picker_row_count(&registry(), &none), 3);
    a.overlay.modal_index = 2;
    assert!(a.picker_on_add_row(&registry(), &none));
    assert!(!a.picker_on_add_model_row(&registry(), &none));
    a.picker.picker_provider = Some(0);
    assert!(!a.picker_provider_is_custom());
    assert_eq!(a.picker_row_count(&registry(), &none), 1);
    a.picker.picker_provider = Some(1);
    assert!(a.picker_provider_is_custom());
    assert_eq!(a.picker_row_count(&registry(), &none), 3);
    assert!(a.picker_on_add_model_row(&registry(), &none));
    assert_eq!(
        a.provider_models_filtered(&registry(), &none)
            .iter()
            .map(|m| m.model.as_str())
            .collect::<Vec<_>>(),
        vec!["gpt-b", "gem"]
    );
    a.picker.model_search = true;
    a.composer.input = " g ".to_string();
    assert_eq!(
        a.provider_models_filtered(&registry(), &vec![None, found(1)])
            .len(),
        1
    );
}

#[test]
fn a_model_is_added_to_a_provider() {
    let mut a = app();
    a.picker.provider_picker = ProviderPickerSnapshot {
        default_id: String::new(),
        rows: vec![row("own", false, &["gpt-b"])],
    };
    assert!(a.add_model_candidates(&registry()).is_empty());
    a.open_add_model_overlay("own".to_string());
    assert_eq!(a.overlay.active_modal, Modal::AddModel);
    assert_eq!(
        a.add_model_candidates(&registry()),
        strings(&["gpt-a", "gpt-b"])
    );
    a.move_add_model(false, &registry(), &Vec::new());
    assert_eq!(a.add_model_selected(&registry(), &Vec::new()), "gpt-b");
    a.composer.input = "own-model".to_string();
    a.on_add_model_filter_changed();
    let loose = vec![false, false];
    assert_eq!(
        a.add_model_suggestions(&registry(), &loose),
        strings(&["own-model"])
    );
    assert_eq!(a.add_model_selected(&registry(), &loose), "own-model");
    a.picker.add_model_choice = 5;
    assert_eq!(a.add_model_selected(&registry(), &loose), "");
}

#[test]
fn the_selected_tool_is_flipped() {
    let mut a = app();
    assert_eq!(a.session_tools_len(), 0);
    assert_eq!(a.session_activate_request(), None);
    a.session.session_context = Some(SessionContextSnapshot {
        tools: vec![ToolInfo {
            name: "bash".to_string(),
            enabled: true,
        }],
        permissions: Vec::new(),
    });
    assert_eq!(a.session_tools_len(), 1);
    assert_eq!(
        a.session_activate_request(),
        Some(AgentRequest::ToggleTool {
            name: "bash".to_string(),
            enabled: false
        })
    );
    a.overlay.modal_index = 1;
    assert_eq!(a.session_activate_request(), None);
}

#[test]
fn ranges_are_put_in_order() {
    let early = SemanticCursor::new(0, 5, 9);
    let late = SemanticCursor::new(1, 0, 0);
    let range = |anchor, head| SelectionState::Range { anchor, head };
    assert_eq!(
        range(late, early).active_normalized_range(),
        Some((early, late))
    );
    assert_eq!(
        range(early, late).active_normalized_range(),
        Some((early, late))
    );
    assert_eq!(range(early, early).active_normalized_range(), None);
    assert!(!range(early, early).is_active());
    assert!(range(early, late).is_active());
    assert_eq!(SelectionState::Empty.active_normalized_range(), None);
}

#[test]
fn a_gesture_ends_without_a_trace() {
    let mut drag = SelectionDrag::default();
    let mut selection = SelectionState::Empty;
    let cursor = SemanticCursor::new(0, 0, 1);
    drag.begin_range(&mut selection, cursor);
    assert!(drag.active);
    assert_eq!(drag.anchor, Some(cursor));
    drag.finish(&mut selection);
    assert!(!drag.active);
    assert_eq!(selection, SelectionState::Empty);
    drag.start(cursor);
    drag.end();
    assert!(!drag.active);
    drag.start(cursor);
    drag.cancel();
    assert!(!drag.active);
    assert_eq!(drag.anchor, None);
}

#[test]
fn clicks_are_classified() {
    let mut map = LayoutMap::new();
    assert!(matches!(classify_click(&map, 0, 0), ClickTarget::Dead));
    map.push(region(INPUT_MSG_IDX, 0, "typed", 0));
    map.push(region(2, TOOL_STEP_BLOCK_IDX, "step", 1));
    map.push(region(3, 0, "text", 2));
    assert!(matches!(
        classify_click(&map, 1, 0),
        ClickTarget::InputBox { cursor } if cursor.byte_offset == 1
    ));
    assert!(matches!(
        classify_click(&map, 1, 1),
        ClickTarget::StepSummary {
            message_idx: 2,
            kind: StepKind::ToolStep
        }
    ));
    assert!(matches!(
        classify_click(&map, 1, 2),
        ClickTarget::Content { cursor } if cursor.message_idx == 3
    ));
    assert_eq!(
        summary_at(&SemanticCursor::new(4, THINKING_BLOCK_IDX, 0)),
        Some((4, StepKind::Thinking))
    );
    assert_eq!(summary_at(&SemanticCursor::new(4, 0, 0)), None);
    assert_eq!(
        StepKind::Thinking.focus_target(4),
        InteractiveTarget::thinking(4)
    );
}

#[test]
fn every_text_field_takes_a_paste_in_one_line() {
    for modal in [
        Modal::HistorySearch,
        Modal::Provider,
        Modal::ModelEditor,
        Modal::CustomProvider,
        Modal::AddModel,
        Modal::InputInjection,
    ] {
        let mut a = App::new("openai".to_string(), "gpt-4o".to_string(), Vec::new());
        a.overlay.active_modal = modal;
        a.composer.input = "ab".to_string();
        a.composer.cursor_position = 1;
        let read = ClipboardRead::Text {
            text: "x\r\ny\n".to_string(),
            chip_lines: Some(2),
        };
        apply_clipboard_paste(&mut a, read, true, 5);
        assert_eq!(a.composer.input, "axyb");
        assert_eq!(a.composer.cursor_position, 3);
        assert_eq!(a.toast.copy_toast_message, "pasted 2 chars");
    }
}

#[test]
fn the_outcome_of_a_copy_is_shown_for_a_while() {
    let mut a = App::new("openai".to_string(), "gpt-4o".to_string(), Vec::new());
    finish_copy(&mut a, Ok(CopyOutcome::Native), 100);
    assert_eq!(a.toast.copy_toast_message, "copied to clipboard");
    assert_eq!(a.toast.copy_toast_until, Some(1_900));
    finish_copy(&mut a, Err("no display".to_string()), u64::MAX);
    assert!(a.toast.copy_toast_failed);
    assert_eq!(a.toast.copy_toast_message, "copy failed: no display");
    assert_eq!(a.toast.copy_toast_until, Some(u64::MAX));
}

#[test]
fn the_last_byte_of_a_field_index_steps_forward() {
    let mut a = App::new("openai".to_string(), "gpt-4o".to_string(), Vec::new());
    a.provider_editor.custom_fields = vec![CustomField::Name, CustomField::Token];
    a.provider_editor.custom_field = 254;
    a.cycle_custom_field(true, &Vec::new());
    assert_eq!(a.provider_editor.custom_field, 1);
}
