use neenee_code::attachments::{image_chip, paste_chip};
use neenee_code::input::events::{
    Event, KeyCode, KeyEvent, KeyModifiers, MouseEvent, MouseEventKind,
};
use neenee_code::input::{process_event, InputAction, InputContext};
use neenee_code::modal::{CompletionKind, Modal};
use neenee_code::selection::SelectionDrag;

const NONE: KeyModifiers = KeyModifiers {
    shift: false,
    control: false,
    alt: false,
    super_key: false,
};
const CONTROL: KeyModifiers = KeyModifiers {
    shift: false,
    control: true,
    alt: false,
    super_key: false,
};
const ALT: KeyModifiers = KeyModifiers {
    shift: false,
    control: false,
    alt: true,
    super_key: false,
};


fn enter(input: &mut String, exact: bool) -> InputAction {
    let mut cursor = input.chars().count();
    let mut drag = SelectionDrag::default();
    process_event(
        Event::Key(KeyEvent {
            code: KeyCode::Enter,
            modifiers: NONE,
        }),
        input,
        &mut cursor,
        InputContext {
            active_modal: Modal::Closed,
            is_responding: false,
            completion_kind: CompletionKind::Slash,
            suggestion_count: 1,
            has_exact_suggestion: exact,
            suggestion_index: None,
            permission_confirm_always: false,
            permission_show_details: false,
            in_envoy_view: false,
            in_side_view: false,
            has_focused_target: false,
            has_queued: false,
            history_searching: false,
            model_searching: false,
            ..InputContext::default()
        },
        &mut drag,
    )
}

#[allow(clippy::too_many_arguments)]
fn enter_with_completion(
    input: &mut String,
    kind: CompletionKind,
    suggestion_count: usize,
    suggestion_index: Option<usize>,
    has_exact_suggestion: bool,
) -> InputAction {
    let mut cursor = input.chars().count();
    let mut drag = SelectionDrag::default();
    process_event(
        Event::Key(KeyEvent {
            code: KeyCode::Enter,
            modifiers: NONE,
        }),
        input,
        &mut cursor,
        InputContext {
            active_modal: Modal::Closed,
            is_responding: false,
            completion_kind: kind,
            suggestion_count,
            has_exact_suggestion,
            suggestion_index,
            permission_confirm_always: false,
            permission_show_details: false,
            in_envoy_view: false,
            in_side_view: false,
            has_focused_target: false,
            has_queued: false,
            history_searching: false,
            model_searching: false,
            ..InputContext::default()
        },
        &mut drag,
    )
}

#[test]
fn tests_enter_executes_an_exact_slash_command() {
    let mut input = "/pursue".to_string();
    assert_eq!(
        enter(&mut input, true),
        InputAction::SendSlash("/pursue".to_string())
    );
}

#[test]
fn tests_enter_completes_a_slash_prefix() {
    let mut input = "/go".to_string();
    assert_eq!(
        enter(&mut input, false),
        InputAction::CommitSuggestion("0".to_string())
    );
}

#[test]
fn tests_enter_accepts_a_highlighted_slash_suggestion() {
    let mut input = "/m".to_string();
    assert_eq!(
        enter_with_completion(
            &mut input,
            CompletionKind::Slash,
            3,
            Some(1),
            false,
        ),
        InputAction::CommitSuggestion("1".to_string())
    );
}

#[test]
fn tests_enter_accepts_a_highlighted_path_suggestion() {
    let mut input = "@src/foo".to_string();
    assert_eq!(
        enter_with_completion(
            &mut input,
            CompletionKind::Path,
            3,
            Some(2),
            false,
        ),
        InputAction::CommitSuggestion("2".to_string())
    );
}

#[test]
fn tests_enter_highlight_wins_over_exact_slash_match() {
    let mut input = "/mcp".to_string();
    assert_eq!(
        enter_with_completion(
            &mut input,
            CompletionKind::Slash,
            2,
            Some(1),
            true,
        ),
        InputAction::CommitSuggestion("1".to_string())
    );
}

#[test]
fn tests_enter_without_highlight_still_sends_path_message() {
    let mut input = "@src/foo".to_string();
    assert_eq!(
        enter_with_completion(&mut input, CompletionKind::Path, 3, None, false,),
        InputAction::SendChat("@src/foo".to_string())
    );
}

#[test]
fn tests_esc_closes_slash_completion_menu() {
    let mut input = "/mc".to_string();
    let mut cursor = 3;
    let mut drag = SelectionDrag::default();
    let action = process_event(
        Event::Key(KeyEvent {
            code: KeyCode::Esc,
            modifiers: NONE,
        }),
        &mut input,
        &mut cursor,
        InputContext {
            active_modal: Modal::Closed,
            is_responding: false,
            completion_kind: CompletionKind::Slash,
            suggestion_count: 2,
            has_exact_suggestion: false,
            suggestion_index: None,
            permission_confirm_always: false,
            permission_show_details: false,
            in_envoy_view: false,
            in_side_view: false,
            has_focused_target: false,
            has_queued: false,
            history_searching: false,
            model_searching: false,
            ..InputContext::default()
        },
        &mut drag,
    );
    assert_eq!(action, InputAction::CloseCompletion);
    assert_eq!(input, "/mc");
}

#[test]
fn tests_esc_closes_path_completion_menu() {
    let mut input = "@src".to_string();
    let mut cursor = 4;
    let mut drag = SelectionDrag::default();
    let action = process_event(
        Event::Key(KeyEvent {
            code: KeyCode::Esc,
            modifiers: NONE,
        }),
        &mut input,
        &mut cursor,
        InputContext {
            active_modal: Modal::Closed,
            is_responding: false,
            completion_kind: CompletionKind::Path,
            suggestion_count: 3,
            has_exact_suggestion: false,
            suggestion_index: Some(1),
            permission_confirm_always: false,
            permission_show_details: false,
            in_envoy_view: false,
            in_side_view: false,
            has_focused_target: false,
            has_queued: false,
            history_searching: false,
            model_searching: false,
            ..InputContext::default()
        },
        &mut drag,
    );
    assert_eq!(action, InputAction::CloseCompletion);
}

#[test]
fn tests_esc_falls_through_when_no_completion_is_open() {
    let mut input = String::new();
    let mut cursor = 0;
    let mut drag = SelectionDrag::default();
    let action = process_event(
        Event::Key(KeyEvent {
            code: KeyCode::Esc,
            modifiers: NONE,
        }),
        &mut input,
        &mut cursor,
        InputContext {
            active_modal: Modal::Closed,
            is_responding: false,
            completion_kind: CompletionKind::Closed,
            suggestion_count: 0,
            has_exact_suggestion: false,
            suggestion_index: None,
            permission_confirm_always: false,
            permission_show_details: false,
            in_envoy_view: false,
            in_side_view: false,
            has_focused_target: false,
            has_queued: false,
            history_searching: false,
            model_searching: false,
            ..InputContext::default()
        },
        &mut drag,
    );
    assert_eq!(action, InputAction::Ignored);
}

#[test]
fn tests_typing_in_compose_returns_insert_char() {
    let mut input = "/mc".to_string();
    let mut cursor = 3;
    let mut drag = SelectionDrag::default();
    let action = process_event(
        Event::Key(KeyEvent::new(KeyCode::Char('p'), NONE)),
        &mut input,
        &mut cursor,
        InputContext {
            active_modal: Modal::Closed,
            is_responding: false,
            completion_kind: CompletionKind::Slash,
            suggestion_count: 2,
            has_exact_suggestion: false,
            suggestion_index: None,
            permission_confirm_always: false,
            permission_show_details: false,
            in_envoy_view: false,
            in_side_view: false,
            has_focused_target: false,
            has_queued: false,
            history_searching: false,
            model_searching: false,
            ..InputContext::default()
        },
        &mut drag,
    );
    assert_eq!(action, InputAction::InsertChar('p'));
    assert_eq!(input, "/mcp");
    assert_eq!(cursor, 4);
}

#[test]
fn tests_backspace_in_compose_returns_backspace_action() {
    let mut input = "/mcp".to_string();
    let mut cursor = 4;
    let mut drag = SelectionDrag::default();
    let action = process_event(
        Event::Key(KeyEvent::new(KeyCode::Backspace, NONE)),
        &mut input,
        &mut cursor,
        InputContext {
            active_modal: Modal::Closed,
            is_responding: false,
            completion_kind: CompletionKind::Slash,
            suggestion_count: 1,
            has_exact_suggestion: true,
            suggestion_index: None,
            permission_confirm_always: false,
            permission_show_details: false,
            in_envoy_view: false,
            in_side_view: false,
            has_focused_target: false,
            has_queued: false,
            history_searching: false,
            model_searching: false,
            ..InputContext::default()
        },
        &mut drag,
    );
    assert_eq!(action, InputAction::Backspace);
    assert_eq!(input, "/mc");
    assert_eq!(cursor, 3);
}

#[test]
fn tests_backspace_atomically_deletes_an_image_chip() {
    let chip = image_chip(1);
    let mut input = format!("look {chip} ");
    let mut cursor = input.chars().count();
    let mut drag = SelectionDrag::default();
    let action = process_event(
        Event::Key(KeyEvent::new(KeyCode::Backspace, NONE)),
        &mut input,
        &mut cursor,
        InputContext {
            active_modal: Modal::Closed,
            is_responding: false,
            completion_kind: CompletionKind::Closed,
            suggestion_count: 0,
            has_exact_suggestion: false,
            suggestion_index: None,
            permission_confirm_always: false,
            permission_show_details: false,
            in_envoy_view: false,
            in_side_view: false,
            has_focused_target: false,
            has_queued: false,
            history_searching: false,
            model_searching: false,
            ..InputContext::default()
        },
        &mut drag,
    );
    assert_eq!(action, InputAction::Backspace);
    assert_eq!(input, "look ");
    assert_eq!(cursor, "look ".chars().count());
}

#[test]
fn tests_backspace_atomically_deletes_a_paste_chip_without_trailing_space() {
    let chip = paste_chip(1, 5);
    let mut input = format!("see {chip}!");
    let prefix_chars = "see ".chars().count() + chip.chars().count();
    let mut cursor = prefix_chars;
    let mut drag = SelectionDrag::default();
    let action = process_event(
        Event::Key(KeyEvent::new(KeyCode::Backspace, NONE)),
        &mut input,
        &mut cursor,
        InputContext {
            active_modal: Modal::Closed,
            is_responding: false,
            completion_kind: CompletionKind::Closed,
            suggestion_count: 0,
            has_exact_suggestion: false,
            suggestion_index: None,
            permission_confirm_always: false,
            permission_show_details: false,
            in_envoy_view: false,
            in_side_view: false,
            has_focused_target: false,
            has_queued: false,
            history_searching: false,
            model_searching: false,
            ..InputContext::default()
        },
        &mut drag,
    );
    assert_eq!(action, InputAction::Backspace);
    assert_eq!(input, "see !");
    assert_eq!(cursor, "see ".chars().count());
}

#[test]
fn tests_backspace_falls_through_to_single_char_outside_a_chip() {
    let mut input = "hello".to_string();
    let mut cursor = 5;
    let mut drag = SelectionDrag::default();
    let action = process_event(
        Event::Key(KeyEvent::new(KeyCode::Backspace, NONE)),
        &mut input,
        &mut cursor,
        InputContext {
            active_modal: Modal::Closed,
            is_responding: false,
            completion_kind: CompletionKind::Closed,
            suggestion_count: 0,
            has_exact_suggestion: false,
            suggestion_index: None,
            permission_confirm_always: false,
            permission_show_details: false,
            in_envoy_view: false,
            in_side_view: false,
            has_focused_target: false,
            has_queued: false,
            history_searching: false,
            model_searching: false,
            ..InputContext::default()
        },
        &mut drag,
    );
    assert_eq!(action, InputAction::Backspace);
    assert_eq!(input, "hell");
    assert_eq!(cursor, 4);
}

#[test]
fn tests_bang_prefix_dispatches_a_shell_command() {
    let mut input = "!git status".to_string();
    assert_eq!(
        enter_shell(&mut input),
        InputAction::SendShell("git status".to_string())
    );
}

#[test]
fn tests_bang_prefix_tolerates_leading_whitespace() {
    let mut input = "!   ls -la".to_string();
    assert_eq!(
        enter_shell(&mut input),
        InputAction::SendShell("ls -la".to_string())
    );
}

#[test]
fn tests_bare_bang_is_a_no_op() {
    let mut input = "!".to_string();
    assert_eq!(enter_shell(&mut input), InputAction::Ignored);
    assert_eq!(input, "");
}

#[test]
fn tests_bang_only_with_whitespace_is_a_no_op() {
    let mut input = "!   ".to_string();
    assert_eq!(enter_shell(&mut input), InputAction::Ignored);
}

fn enter_shell(input: &mut String) -> InputAction {
    let mut cursor = input.chars().count();
    let mut drag = SelectionDrag::default();
    process_event(
        Event::Key(KeyEvent {
            code: KeyCode::Enter,
            modifiers: NONE,
        }),
        input,
        &mut cursor,
        InputContext {
            active_modal: Modal::Closed,
            is_responding: false,
            completion_kind: CompletionKind::Closed,
            suggestion_count: 0,
            has_exact_suggestion: false,
            suggestion_index: None,
            permission_confirm_always: false,
            permission_show_details: false,
            in_envoy_view: false,
            in_side_view: false,
            has_focused_target: false,
            has_queued: false,
            history_searching: false,
            model_searching: false,
            ..InputContext::default()
        },
        &mut drag,
    )
}

#[test]
fn tests_escape_returns_from_always_confirmation() {
    let mut input = String::new();
    let mut cursor = 0;
    let mut drag = SelectionDrag::default();
    let action = process_event(
        Event::Key(KeyEvent {
            code: KeyCode::Esc,
            modifiers: NONE,
        }),
        &mut input,
        &mut cursor,
        InputContext {
            active_modal: Modal::Permission,
            is_responding: true,
            completion_kind: CompletionKind::Closed,
            suggestion_count: 0,
            has_exact_suggestion: false,
            suggestion_index: None,
            permission_confirm_always: true,
            permission_show_details: false,
            in_envoy_view: false,
            in_side_view: false,
            has_focused_target: false,
            has_queued: false,
            history_searching: false,
            model_searching: false,
            ..InputContext::default()
        },
        &mut drag,
    );
    assert_eq!(action, InputAction::PermissionBack);
}

#[test]
fn tests_plain_ctrl_c_maps_to_semantic_ctrl_c() {
    let mut input = String::new();
    let mut cursor = 0;
    let mut drag = SelectionDrag::default();
    let action = process_event(
        Event::Key(KeyEvent::new(KeyCode::Char('c'), CONTROL)),
        &mut input,
        &mut cursor,
        InputContext {
            active_modal: Modal::Closed,
            is_responding: false,
            completion_kind: CompletionKind::Closed,
            suggestion_count: 0,
            has_exact_suggestion: false,
            suggestion_index: None,
            permission_confirm_always: false,
            permission_show_details: false,
            in_envoy_view: false,
            in_side_view: false,
            has_focused_target: false,
            has_queued: false,
            history_searching: false,
            model_searching: false,
            ..InputContext::default()
        },
        &mut drag,
    );
    assert_eq!(action, InputAction::CtrlC);
}

#[test]
fn tests_star_in_models_modal_toggles_favorite() {
    let mut input = String::new();
    let mut cursor = 0;
    let mut drag = SelectionDrag::default();
    let action = process_event(
        Event::Key(KeyEvent::new(KeyCode::Char('*'), NONE)),
        &mut input,
        &mut cursor,
        InputContext {
            active_modal: Modal::Provider,
            is_responding: false,
            completion_kind: CompletionKind::Closed,
            suggestion_count: 0,
            has_exact_suggestion: false,
            suggestion_index: None,
            permission_confirm_always: false,
            permission_show_details: false,
            in_envoy_view: false,
            in_side_view: false,
            has_focused_target: false,
            has_queued: false,
            history_searching: false,
            model_searching: false,
            ..InputContext::default()
        },
        &mut drag,
    );
    assert_eq!(action, InputAction::ProviderPickerToggleFavorite);
}

#[test]
fn tests_letter_in_models_modal_feeds_the_fuzzy_filter() {
    let mut input = String::new();
    let mut cursor = 0;
    let mut drag = SelectionDrag::default();
    let action = process_event(
        Event::Key(KeyEvent::new(KeyCode::Char('k'), NONE)),
        &mut input,
        &mut cursor,
        InputContext {
            active_modal: Modal::Provider,
            is_responding: false,
            completion_kind: CompletionKind::Closed,
            suggestion_count: 0,
            has_exact_suggestion: false,
            suggestion_index: None,
            permission_confirm_always: false,
            permission_show_details: false,
            in_envoy_view: false,
            in_side_view: false,
            has_focused_target: false,
            has_queued: false,
            history_searching: false,
            model_searching: true,
            ..InputContext::default()
        },
        &mut drag,
    );
    assert_eq!(action, InputAction::InsertChar('k'));
    assert_eq!(input, "k");
}

#[test]
fn tests_ctrl_t_toggles_tool_steps() {
    let mut input = String::new();
    let mut cursor = 0;
    let mut drag = SelectionDrag::default();
    let action = process_event(
        Event::Key(KeyEvent::new(
            KeyCode::Char('t'),
            CONTROL,
        )),
        &mut input,
        &mut cursor,
        InputContext {
            active_modal: Modal::Closed,
            is_responding: false,
            completion_kind: CompletionKind::Closed,
            suggestion_count: 0,
            has_exact_suggestion: false,
            suggestion_index: None,
            permission_confirm_always: false,
            permission_show_details: false,
            in_envoy_view: false,
            in_side_view: false,
            has_focused_target: false,
            has_queued: false,
            history_searching: false,
            model_searching: false,
            ..InputContext::default()
        },
        &mut drag,
    );
    assert_eq!(action, InputAction::ToggleToolSteps);
}

#[test]
fn tests_ctrl_m_opens_models_modal_when_no_modal_is_open() {
    let mut input = String::new();
    let mut cursor = 0;
    let mut drag = SelectionDrag::default();
    let context = InputContext {
        active_modal: Modal::Closed,
        is_responding: false,
        completion_kind: CompletionKind::Closed,
        suggestion_count: 0,
        has_exact_suggestion: false,
        suggestion_index: None,
        permission_confirm_always: false,
        permission_show_details: false,
        in_envoy_view: false,
        in_side_view: false,
        has_focused_target: false,
        has_queued: false,
        history_searching: false,
        model_searching: false,
        ..InputContext::default()
    };
    let action = process_event(
        Event::Key(KeyEvent::new(
            KeyCode::Char('m'),
            CONTROL,
        )),
        &mut input,
        &mut cursor,
        context,
        &mut drag,
    );
    assert_eq!(action, InputAction::OpenProvider);

    let action = process_event(
        Event::Key(KeyEvent::new(
            KeyCode::Char('m'),
            CONTROL,
        )),
        &mut input,
        &mut cursor,
        InputContext {
            active_modal: Modal::Help,
            is_responding: false,
            completion_kind: CompletionKind::Closed,
            suggestion_count: 0,
            has_exact_suggestion: false,
            suggestion_index: None,
            permission_confirm_always: false,
            permission_show_details: false,
            in_envoy_view: false,
            in_side_view: false,
            has_focused_target: false,
            has_queued: false,
            history_searching: false,
            model_searching: false,
            ..InputContext::default()
        },
        &mut drag,
    );
    assert_eq!(action, InputAction::Ignored);
}

fn key_in_view(code: KeyCode, in_envoy_view: bool, input: &mut String) -> InputAction {
    let mut cursor = input.chars().count();
    let mut drag = SelectionDrag::default();
    process_event(
        Event::Key(KeyEvent::new(code, NONE)),
        input,
        &mut cursor,
        InputContext {
            active_modal: Modal::Closed,
            is_responding: false,
            completion_kind: CompletionKind::Closed,
            suggestion_count: 0,
            has_exact_suggestion: false,
            suggestion_index: None,
            permission_confirm_always: false,
            permission_show_details: false,
            in_envoy_view,
            in_side_view: false,
            has_focused_target: false,
            has_queued: false,
            history_searching: false,
            model_searching: false,
            ..InputContext::default()
        },
        &mut drag,
    )
}

fn key_with_focus(code: KeyCode) -> InputAction {
    let mut input = String::new();
    let mut cursor = 0;
    let mut drag = SelectionDrag::default();
    process_event(
        Event::Key(KeyEvent::new(code, NONE)),
        &mut input,
        &mut cursor,
        InputContext {
            active_modal: Modal::Closed,
            is_responding: false,
            completion_kind: CompletionKind::Closed,
            suggestion_count: 0,
            has_exact_suggestion: false,
            suggestion_index: None,
            permission_confirm_always: false,
            permission_show_details: false,
            in_envoy_view: false,
            in_side_view: false,
            has_focused_target: true,
            has_queued: false,
            history_searching: false,
            model_searching: false,
            ..InputContext::default()
        },
        &mut drag,
    )
}

#[test]
fn tests_tab_in_compose_without_suggestions_is_noop() {
    let mut input = String::new();
    assert_eq!(
        key_in_view(KeyCode::Tab, false, &mut input),
        InputAction::Ignored
    );
    let mut input = String::from("draft");
    assert_eq!(
        key_in_view(KeyCode::Tab, false, &mut input),
        InputAction::Ignored
    );
    let mut input = String::new();
    assert_eq!(
        key_in_view(KeyCode::BackTab, false, &mut input),
        InputAction::Ignored
    );
}

#[test]
fn tests_ctrl_b_moves_caret_back_one_char() {
    let mut input = String::from("abc");
    let mut cursor = 3;
    let action = run_key(
        &mut input,
        &mut cursor,
        KeyCode::Char('b'),
        CONTROL,
        Modal::Closed,
        false,
    );
    assert_eq!(action, InputAction::Ignored);
    assert_eq!(cursor, 2, "Ctrl+B moves the caret back one character");
}

#[test]
fn tests_ctrl_arrows_drive_focus() {
    let mut input = String::new();
    let mut cursor = 0;
    assert_eq!(
        run_key(
            &mut input,
            &mut cursor,
            KeyCode::Up,
            CONTROL,
            Modal::Closed,
            false,
        ),
        InputAction::FocusPrevTarget
    );
    assert_eq!(
        run_key(
            &mut input,
            &mut cursor,
            KeyCode::Down,
            CONTROL,
            Modal::Closed,
            true,
        ),
        InputAction::FocusNextTarget
    );
    assert_eq!(key_with_focus(KeyCode::Tab), InputAction::Ignored);
}

#[test]
fn tests_arrows_cycle_steps_while_focused() {
    assert_eq!(key_with_focus(KeyCode::Up), InputAction::FocusPrevTarget);
    assert_eq!(key_with_focus(KeyCode::Down), InputAction::FocusNextTarget);
}

#[test]
fn tests_enter_activates_focused_target_space_inserts() {
    assert_eq!(
        key_with_focus(KeyCode::Enter),
        InputAction::ActivateFocusedTarget
    );
    assert_eq!(
        key_with_focus(KeyCode::Char(' ')),
        InputAction::InsertChar(' ')
    );
}

#[test]
fn tests_escape_clears_focus() {
    assert_eq!(
        key_with_focus(KeyCode::Esc),
        InputAction::ClearFocusedTarget
    );
}

#[test]
fn tests_typing_while_focused_inserts_and_keeps_focus() {
    let action = key_with_focus(KeyCode::Char('a'));
    assert_eq!(action, InputAction::InsertChar('a'));
}

#[test]
fn tests_q_while_focused_inserts_instead_of_quitting() {
    let mut input = String::new();
    let mut cursor = 0;
    let action = run_key(
        &mut input,
        &mut cursor,
        KeyCode::Char('q'),
        NONE,
        Modal::Closed,
        true,
    );
    assert_eq!(action, InputAction::InsertChar('q'));
    assert_eq!(input, "q");
}

#[test]
fn escape_exits_subagent_view() {
    let mut input = String::new();
    assert_eq!(
        key_in_view(KeyCode::Esc, true, &mut input),
        InputAction::ExitEnvoy
    );
    assert_eq!(
        key_in_view(KeyCode::Esc, false, &mut input),
        InputAction::Ignored
    );
}

#[test]
fn tests_bracket_keys_cycle_siblings_only_when_typing_is_empty() {
    let mut input = String::new();
    assert_eq!(
        key_in_view(KeyCode::Char('['), true, &mut input),
        InputAction::PrevSibling
    );
    assert_eq!(
        key_in_view(KeyCode::Char(']'), true, &mut input),
        InputAction::NextSibling
    );

    let mut typing = "x".to_string();
    key_in_view(KeyCode::Char('['), true, &mut typing);
    assert_eq!(typing, "x[");

    let mut other = String::new();
    key_in_view(KeyCode::Char(']'), false, &mut other);
    assert_eq!(other, "]");
}

fn run_key(
    input: &mut String,
    cursor: &mut usize,
    code: KeyCode,
    modifiers: KeyModifiers,
    modal: Modal,
    has_focus: bool,
) -> InputAction {
    let mut drag = SelectionDrag::default();
    process_event(
        Event::Key(KeyEvent {
            code,
            modifiers,
        }),
        input,
        cursor,
        InputContext {
            active_modal: modal,
            is_responding: false,
            completion_kind: CompletionKind::Closed,
            suggestion_count: 0,
            has_exact_suggestion: false,
            suggestion_index: None,
            permission_confirm_always: false,
            permission_show_details: false,
            in_envoy_view: false,
            in_side_view: false,
            has_focused_target: has_focus,
            has_queued: false,
            history_searching: modal == Modal::HistorySearch,
            model_searching: modal == Modal::Provider,
            ..InputContext::default()
        },
        &mut drag,
    )
}

#[test]
fn tests_home_and_end_move_caret_in_compose_zone() {
    let mut input = "hello".to_string();
    let mut cursor = 3;

    let action = run_key(
        &mut input,
        &mut cursor,
        KeyCode::Home,
        NONE,
        Modal::Closed,
        false,
    );
    assert_eq!(action, InputAction::Ignored);
    assert_eq!(input, "hello");
    assert_eq!(cursor, 0);

    let action = run_key(
        &mut input,
        &mut cursor,
        KeyCode::End,
        NONE,
        Modal::Closed,
        false,
    );
    assert_eq!(action, InputAction::Ignored);
    assert_eq!(input, "hello");
    assert_eq!(cursor, 5);
}

#[test]
fn tests_home_and_end_scroll_in_browse_zone() {
    let mut input = "hello".to_string();
    let mut cursor = 3;
    assert_eq!(
        run_key(
            &mut input,
            &mut cursor,
            KeyCode::Home,
            NONE,
            Modal::Closed,
            true
        ),
        InputAction::ScrollTop
    );
    assert_eq!(cursor, 3, "Browse Home must not touch the caret");
    assert_eq!(
        run_key(
            &mut input,
            &mut cursor,
            KeyCode::End,
            NONE,
            Modal::Closed,
            true
        ),
        InputAction::ScrollBottom
    );
    assert_eq!(cursor, 3);
}

#[test]
fn tests_home_and_end_scroll_in_permission_modal() {
    let mut input = String::new();
    let mut cursor = 0;
    assert_eq!(
        run_key(
            &mut input,
            &mut cursor,
            KeyCode::Home,
            NONE,
            Modal::Permission,
            false
        ),
        InputAction::ScrollTop
    );
    assert_eq!(
        run_key(
            &mut input,
            &mut cursor,
            KeyCode::End,
            NONE,
            Modal::Permission,
            false
        ),
        InputAction::ScrollBottom
    );
}

fn mouse_ctx_for(modal: Modal) -> InputContext {
    InputContext {
        active_modal: modal,
        is_responding: false,
        completion_kind: CompletionKind::Closed,
        suggestion_count: 0,
        has_exact_suggestion: false,
        suggestion_index: None,
        permission_confirm_always: false,
        permission_show_details: false,
        in_envoy_view: false,
        in_side_view: false,
        has_focused_target: false,
        has_queued: false,
        history_searching: modal == Modal::HistorySearch,
        model_searching: modal == Modal::Provider,
        ..InputContext::default()
    }
}

#[test]
fn mouse_wheel_still_scrolls_when_no_modal_open() {
    
    let mk = |kind| {
        let mut input = String::new();
        let mut cursor = 0;
        let mut drag = SelectionDrag::default();
        process_event(
            Event::Mouse(MouseEvent {
                kind,
                column: 5,
                row: 5,
                modifiers: NONE,
            }),
            &mut input,
            &mut cursor,
            mouse_ctx_for(Modal::Closed),
            &mut drag,
        )
    };

    assert_eq!(mk(MouseEventKind::ScrollUp), InputAction::ScrollUp);
    assert_eq!(mk(MouseEventKind::ScrollDown), InputAction::ScrollDown);
}

#[test]
fn tests_home_and_end_move_caret_in_free_text_modals() {
    for modal in [
        Modal::ModelEditor,
        Modal::HistorySearch,
    ] {
        let mut input = "abc".to_string();
        let mut cursor = 2;
        let action = run_key(
            &mut input,
            &mut cursor,
            KeyCode::Home,
            NONE,
            modal,
            false,
        );
        assert_eq!(action, InputAction::Ignored);
        assert_eq!(cursor, 0, "Home should reach line start");

        let action = run_key(
            &mut input,
            &mut cursor,
            KeyCode::End,
            NONE,
            modal,
            false,
        );
        assert_eq!(action, InputAction::Ignored);
        assert_eq!(cursor, 3, "End should reach line end");
    }
}

#[test]
fn tests_ctrl_a_and_ctrl_e_move_caret_in_compose_zone() {
    let mut input = "hello".to_string();
    let mut cursor = 2;

    let action = run_key(
        &mut input,
        &mut cursor,
        KeyCode::Char('a'),
        CONTROL,
        Modal::Closed,
        false,
    );
    assert_eq!(action, InputAction::Ignored);
    assert_eq!(cursor, 0);
    assert_eq!(input, "hello", "Ctrl+A must not insert a literal 'a'");

    let action = run_key(
        &mut input,
        &mut cursor,
        KeyCode::Char('e'),
        CONTROL,
        Modal::Closed,
        false,
    );
    assert_eq!(action, InputAction::Ignored);
    assert_eq!(cursor, 5);
    assert_eq!(input, "hello");
}

#[test]
fn tests_ctrl_a_and_ctrl_e_are_noop_in_browse_zone() {
    let mut input = String::new();
    let mut cursor = 0;
    assert_eq!(
        run_key(
            &mut input,
            &mut cursor,
            KeyCode::Char('a'),
            CONTROL,
            Modal::Closed,
            true
        ),
        InputAction::Ignored
    );
    assert_eq!(
        run_key(
            &mut input,
            &mut cursor,
            KeyCode::Char('e'),
            CONTROL,
            Modal::Closed,
            true
        ),
        InputAction::Ignored
    );
}

#[test]
fn tests_line_aware_movement_respects_newlines() {
    let mut input = "line1\nline2\nline3".to_string();
    let mut cursor = 8;

    run_key(
        &mut input,
        &mut cursor,
        KeyCode::Home,
        NONE,
        Modal::Closed,
        false,
    );
    assert_eq!(cursor, 6, "Home should land at start of current line");

    run_key(
        &mut input,
        &mut cursor,
        KeyCode::End,
        NONE,
        Modal::Closed,
        false,
    );
    assert_eq!(cursor, 11, "End should land at end of current line");

    run_key(
        &mut input,
        &mut cursor,
        KeyCode::Char('a'),
        CONTROL,
        Modal::Closed,
        false,
    );
    assert_eq!(cursor, 6);
    run_key(
        &mut input,
        &mut cursor,
        KeyCode::Char('e'),
        CONTROL,
        Modal::Closed,
        false,
    );
    assert_eq!(cursor, 11);
}

#[test]
fn tests_ctrl_w_deletes_previous_word() {
    let mut input = "hello world".to_string();
    let mut cursor = 11;
    let action = run_key(
        &mut input,
        &mut cursor,
        KeyCode::Char('w'),
        CONTROL,
        Modal::Closed,
        false,
    );
    assert_eq!(action, InputAction::Backspace);
    assert_eq!(input, "hello ");
    assert_eq!(cursor, 6);
}

#[test]
fn tests_ctrl_w_eats_trailing_whitespace_and_previous_word() {
    let mut input = "hello world   ".to_string();
    let mut cursor = 14;
    run_key(
        &mut input,
        &mut cursor,
        KeyCode::Char('w'),
        CONTROL,
        Modal::Closed,
        false,
    );
    assert_eq!(input, "hello ");
    assert_eq!(cursor, 6);
}

#[test]
fn tests_ctrl_w_is_noop_at_line_start() {
    let mut input = "hello world".to_string();
    let mut cursor = 0;
    let action = run_key(
        &mut input,
        &mut cursor,
        KeyCode::Char('w'),
        CONTROL,
        Modal::Closed,
        false,
    );
    assert_eq!(action, InputAction::Ignored);
    assert_eq!(input, "hello world");
    assert_eq!(cursor, 0);
}

#[test]
fn ctrl_w_does_not_cross_newline() {
    let mut input = "line1\nworld".to_string();
    let mut cursor = 11;
    run_key(
        &mut input,
        &mut cursor,
        KeyCode::Char('w'),
        CONTROL,
        Modal::Closed,
        false,
    );
    assert_eq!(input, "line1\n");
    assert_eq!(cursor, 6);
}

#[test]
fn tests_ctrl_w_is_noop_in_question_modal() {
    let mut input = "abc".to_string();
    let mut cursor = 3;
    let action = run_key(
        &mut input,
        &mut cursor,
        KeyCode::Char('w'),
        CONTROL,
        Modal::Question,
        false,
    );
    assert_eq!(action, InputAction::Ignored);
    assert_eq!(input, "abc");
    assert_eq!(cursor, 3);
}

#[test]
fn tests_ctrl_u_deletes_to_line_start() {
    let mut input = "hello world".to_string();
    let mut cursor = 7;
    let action = run_key(
        &mut input,
        &mut cursor,
        KeyCode::Char('u'),
        CONTROL,
        Modal::Closed,
        false,
    );
    assert_eq!(action, InputAction::Backspace);
    assert_eq!(input, "orld");
    assert_eq!(cursor, 0);
}

#[test]
fn tests_ctrl_u_keeps_other_lines_in_multiline_draft() {
    let mut input = "keep me\nwipe me".to_string();
    let mut cursor = 15;
    run_key(
        &mut input,
        &mut cursor,
        KeyCode::Char('u'),
        CONTROL,
        Modal::Closed,
        false,
    );
    assert_eq!(input, "keep me\n");
    assert_eq!(cursor, 8);
}

#[test]
fn tests_ctrl_k_deletes_to_line_end() {
    let mut input = "hello world".to_string();
    let mut cursor = 5;
    let action = run_key(
        &mut input,
        &mut cursor,
        KeyCode::Char('k'),
        CONTROL,
        Modal::Closed,
        false,
    );
    assert_eq!(action, InputAction::Backspace);
    assert_eq!(input, "hello");
    assert_eq!(cursor, 5, "Ctrl+K keeps the caret put");
}

#[test]
fn tests_ctrl_k_does_not_eat_next_line() {
    let mut input = "first\nsecond".to_string();
    let mut cursor = 3;
    run_key(
        &mut input,
        &mut cursor,
        KeyCode::Char('k'),
        CONTROL,
        Modal::Closed,
        false,
    );
    assert_eq!(input, "fir\nsecond");
    assert_eq!(cursor, 3);
}

#[test]
fn tests_alt_d_deletes_next_word() {
    let mut input = "hello world".to_string();
    let mut cursor = 5;
    let action = run_key(
        &mut input,
        &mut cursor,
        KeyCode::Char('d'),
        ALT,
        Modal::Closed,
        false,
    );
    assert_eq!(action, InputAction::Backspace);
    assert_eq!(input, "hello");
    assert_eq!(cursor, 5, "Alt+D keeps the caret put");
}

#[test]
fn tests_alt_b_jumps_back_one_word() {
    let mut input = "the quick fox".to_string();
    let mut cursor = 13;
    run_key(
        &mut input,
        &mut cursor,
        KeyCode::Char('b'),
        ALT,
        Modal::Closed,
        false,
    );
    assert_eq!(cursor, 10);
    run_key(
        &mut input,
        &mut cursor,
        KeyCode::Char('b'),
        ALT,
        Modal::Closed,
        false,
    );
    assert_eq!(cursor, 4);
}

#[test]
fn tests_alt_f_jumps_forward_one_word() {
    let mut input = "the quick fox".to_string();
    let mut cursor = 0;
    run_key(
        &mut input,
        &mut cursor,
        KeyCode::Char('f'),
        ALT,
        Modal::Closed,
        false,
    );
    assert_eq!(cursor, 3);
    run_key(
        &mut input,
        &mut cursor,
        KeyCode::Char('f'),
        ALT,
        Modal::Closed,
        false,
    );
    assert_eq!(cursor, 9);
}

#[test]
fn tests_ctrl_left_right_move_word_by_word() {
    let mut input = "alpha bravo charlie".to_string();
    let mut cursor = 19;
    run_key(
        &mut input,
        &mut cursor,
        KeyCode::Left,
        CONTROL,
        Modal::Closed,
        false,
    );
    assert_eq!(cursor, 12, "Ctrl+Left snaps to the start of 'charlie'");
    run_key(
        &mut input,
        &mut cursor,
        KeyCode::Left,
        CONTROL,
        Modal::Closed,
        false,
    );
    assert_eq!(cursor, 6, "Ctrl+Left snaps to the start of 'bravo'");
    run_key(
        &mut input,
        &mut cursor,
        KeyCode::Right,
        CONTROL,
        Modal::Closed,
        false,
    );
    assert_eq!(cursor, 11, "Ctrl+Right snaps to the end of 'bravo'");
}

#[test]
fn tests_alt_backspace_deletes_previous_word() {
    let mut input = "foo bar baz".to_string();
    let mut cursor = 11;
    let action = run_key(
        &mut input,
        &mut cursor,
        KeyCode::Backspace,
        ALT,
        Modal::Closed,
        false,
    );
    assert_eq!(action, InputAction::Backspace);
    assert_eq!(input, "foo bar ");
    assert_eq!(cursor, 8);
}

#[test]
fn tests_ctrl_backspace_deletes_previous_word() {
    let mut input = "foo bar baz".to_string();
    let mut cursor = 11;
    run_key(
        &mut input,
        &mut cursor,
        KeyCode::Backspace,
        CONTROL,
        Modal::Closed,
        false,
    );
    assert_eq!(input, "foo bar ");
    assert_eq!(cursor, 8);
}

#[test]
fn tests_ctrl_w_works_in_history_modal() {
    let mut input = "fuzzy query".to_string();
    let mut cursor = 11;
    run_key(
        &mut input,
        &mut cursor,
        KeyCode::Char('w'),
        CONTROL,
        Modal::HistorySearch,
        false,
    );
    assert_eq!(input, "fuzzy ");
    assert_eq!(cursor, 6);
}

#[test]
fn tests_ctrl_keys_do_not_insert_literal_chars() {
    let mut input = String::new();
    let mut cursor = 0;
    for (code, mods) in [
        (KeyCode::Char('w'), CONTROL),
        (KeyCode::Char('u'), CONTROL),
        (KeyCode::Char('k'), CONTROL),
        (KeyCode::Char('b'), ALT),
        (KeyCode::Char('f'), ALT),
        (KeyCode::Char('d'), ALT),
    ] {
        let action = run_key(
            &mut input,
            &mut cursor,
            code,
            mods,
            Modal::Closed,
            false,
        );
        assert_eq!(action, InputAction::Ignored);
        assert!(input.is_empty());
        assert_eq!(cursor, 0);
    }
}

fn run_history_key(
    input: &mut String,
    cursor: &mut usize,
    code: KeyCode,
    modifiers: KeyModifiers,
) -> InputAction {
    let mut drag = SelectionDrag::default();
    process_event(
        Event::Key(KeyEvent {
            code,
            modifiers,
        }),
        input,
        cursor,
        InputContext {
            active_modal: Modal::HistorySearch,
            is_responding: false,
            completion_kind: CompletionKind::Closed,
            suggestion_count: 0,
            has_exact_suggestion: false,
            suggestion_index: None,
            permission_confirm_always: false,
            permission_show_details: false,
            in_envoy_view: false,
            in_side_view: false,
            has_focused_target: false,
            has_queued: false,
            history_searching: true,
            model_searching: false,
            ..InputContext::default()
        },
        &mut drag,
    )
}

#[test]
fn tests_typing_in_history_modal_appends_to_query() {
    let mut input = String::new();
    let mut cursor = 0;
    run_history_key(
        &mut input,
        &mut cursor,
        KeyCode::Char('g'),
        NONE,
    );
    run_history_key(
        &mut input,
        &mut cursor,
        KeyCode::Char('i'),
        NONE,
    );
    run_history_key(
        &mut input,
        &mut cursor,
        KeyCode::Char('t'),
        NONE,
    );
    assert_eq!(input, "git");
    assert_eq!(cursor, 3);
}

#[test]
fn tests_backspace_in_history_modal_trims_query() {
    let mut input = "rust".to_string();
    let mut cursor = 4;
    run_history_key(
        &mut input,
        &mut cursor,
        KeyCode::Backspace,
        NONE,
    );
    assert_eq!(input, "rus");
    assert_eq!(cursor, 3);
}

#[test]
fn tests_enter_in_history_modal_emits_history_insert() {
    let mut input = "go".to_string();
    let mut cursor = 2;
    let action = run_history_key(&mut input, &mut cursor, KeyCode::Enter, NONE);
    assert_eq!(action, InputAction::HistoryInsert);
    assert_eq!(input, "go", "Enter must not consume the query");
    assert_eq!(cursor, 2);
}

#[test]
fn tests_ctrl_r_opens_history_modal_when_no_modal_is_open() {
    let mut input = String::new();
    let mut cursor = 0;
    let mut drag = SelectionDrag::default();
    let action = process_event(
        Event::Key(KeyEvent::new(
            KeyCode::Char('r'),
            CONTROL,
        )),
        &mut input,
        &mut cursor,
        InputContext {
            active_modal: Modal::Closed,
            is_responding: false,
            completion_kind: CompletionKind::Closed,
            suggestion_count: 0,
            has_exact_suggestion: false,
            suggestion_index: None,
            permission_confirm_always: false,
            permission_show_details: false,
            in_envoy_view: false,
            in_side_view: false,
            has_focused_target: false,
            has_queued: false,
            history_searching: false,
            model_searching: false,
            ..InputContext::default()
        },
        &mut drag,
    );
    assert_eq!(action, InputAction::OpenHistory);

    let action = process_event(
        Event::Key(KeyEvent::new(
            KeyCode::Char('r'),
            CONTROL,
        )),
        &mut input,
        &mut cursor,
        InputContext {
            active_modal: Modal::HistorySearch,
            is_responding: false,
            completion_kind: CompletionKind::Closed,
            suggestion_count: 0,
            has_exact_suggestion: false,
            suggestion_index: None,
            permission_confirm_always: false,
            permission_show_details: false,
            in_envoy_view: false,
            in_side_view: false,
            has_focused_target: false,
            has_queued: false,
            history_searching: true,
            model_searching: false,
            ..InputContext::default()
        },
        &mut drag,
    );
    assert_eq!(action, InputAction::Ignored);
}

fn up_with_queued(has_queued: bool) -> InputAction {
    let mut input = String::new();
    let mut cursor = 0;
    let mut drag = SelectionDrag::default();
    process_event(
        Event::Key(KeyEvent::new(
            KeyCode::Up,
            NONE,
        )),
        &mut input,
        &mut cursor,
        InputContext {
            active_modal: Modal::Closed,
            is_responding: false,
            completion_kind: CompletionKind::Closed,
            suggestion_count: 0,
            has_exact_suggestion: false,
            suggestion_index: None,
            permission_confirm_always: false,
            permission_show_details: false,
            in_envoy_view: false,
            in_side_view: false,
            has_focused_target: false,
            has_queued,
            history_searching: false,
            model_searching: false,
            ..InputContext::default()
        },
        &mut drag,
    )
}

#[test]
fn tests_up_arrow_recalls_queued_when_queue_nonempty() {
    assert_eq!(up_with_queued(true), InputAction::RecallQueued);
}

#[test]
fn tests_up_arrow_walks_history_when_queue_empty() {
    assert_eq!(up_with_queued(false), InputAction::HistoryPrev);
}

#[test]
fn tests_up_arrow_in_browse_does_not_recall_queued() {
    let mut input = String::new();
    let mut cursor = 0;
    let mut drag = SelectionDrag::default();
    let action = process_event(
        Event::Key(KeyEvent::new(
            KeyCode::Up,
            NONE,
        )),
        &mut input,
        &mut cursor,
        InputContext {
            active_modal: Modal::Closed,
            is_responding: false,
            completion_kind: CompletionKind::Closed,
            suggestion_count: 0,
            has_exact_suggestion: false,
            suggestion_index: None,
            permission_confirm_always: false,
            permission_show_details: false,
            in_envoy_view: false,
            in_side_view: false,
            has_focused_target: true,
            has_queued: true,
            history_searching: false,
            model_searching: false,
            ..InputContext::default()
        },
        &mut drag,
    );
    assert_eq!(action, InputAction::FocusPrevTarget);
}

fn run_paste(
    text: &str,
    input: &mut String,
    cursor: &mut usize,
    modal: Modal,
) -> InputAction {
    let mut drag = SelectionDrag::default();
    process_event(
        Event::Paste(text.to_string()),
        input,
        cursor,
        InputContext {
            active_modal: modal,
            is_responding: false,
            completion_kind: CompletionKind::Closed,
            suggestion_count: 0,
            has_exact_suggestion: false,
            suggestion_index: None,
            permission_confirm_always: false,
            permission_show_details: false,
            in_envoy_view: false,
            in_side_view: false,
            has_focused_target: false,
            has_queued: false,
            history_searching: modal == Modal::HistorySearch,
            model_searching: modal == Modal::Provider,
            ..InputContext::default()
        },
        &mut drag,
    )
}

#[test]
fn tests_ctrl_v_returns_paste_in_free_text_modals() {
    let free_text_modals = [
        Modal::Closed,
        Modal::ModelEditor,
        Modal::Provider,
        Modal::HistorySearch,
    ];
    for modal in free_text_modals {
        let mut input = String::new();
        let mut cursor = 0;
        let action = run_key(
            &mut input,
            &mut cursor,
            KeyCode::Char('v'),
            CONTROL,
            modal,
            false,
        );
        assert_eq!(
            action,
            InputAction::Paste,
            "Ctrl+V should paste in free-text modal"
        );
        assert!(input.is_empty(), "Ctrl+V must not mutate the buffer itself");
    }

    for modal in [
        Modal::Permission,
        Modal::Question,
        Modal::Help,
        Modal::Sessions,
    ] {
        let mut input = String::new();
        let mut cursor = 0;
        let action = run_key(
            &mut input,
            &mut cursor,
            KeyCode::Char('v'),
            CONTROL,
            modal,
            false,
        );
        assert_eq!(
            action,
            InputAction::Ignored,
            "Ctrl+V should be a no-op in non-text modal"
        );
    }
}

#[test]
fn tests_bracketed_paste_routes_in_free_text_modals() {
    let payload = "sk-test-1234";
    for modal in [
        Modal::Closed,
        Modal::ModelEditor,
        Modal::Provider,
        Modal::HistorySearch,
    ] {
        let mut input = String::new();
        let mut cursor = 0;
        let action = run_paste(payload, &mut input, &mut cursor, modal);
        match action {
            InputAction::BracketedPaste(text) => assert_eq!(
                text, payload,
                "bracketed paste payload should pass through in free-text modal"
            ),
            other => panic!("expected BracketedPaste in free-text modal, got {other:?}"),
        }
        assert!(
            input.is_empty(),
            "BracketedPaste must not mutate the buffer itself"
        );
    }

    let mut input = String::new();
    let mut cursor = 0;
    let action = run_paste(payload, &mut input, &mut cursor, Modal::Help);
    assert_eq!(
        action,
        InputAction::Ignored,
        "bracketed paste should be dropped in Help"
    );
}

fn multiline_arrow(seed: &str, cursor: usize, code: KeyCode) -> (InputAction, usize) {
    let mut input = seed.to_string();
    let mut cur = cursor;
    let mut drag = SelectionDrag::default();
    let action = process_event(
        Event::Key(KeyEvent::new(code, NONE)),
        &mut input,
        &mut cur,
        InputContext {
            active_modal: Modal::Closed,
            is_responding: false,
            completion_kind: CompletionKind::Closed,
            suggestion_count: 0,
            has_exact_suggestion: false,
            suggestion_index: None,
            permission_confirm_always: false,
            permission_show_details: false,
            in_envoy_view: false,
            in_side_view: false,
            has_focused_target: false,
            has_queued: false,
            history_searching: false,
            model_searching: false,
            ..InputContext::default()
        },
        &mut drag,
    );
    (action, cur)
}

#[test]
fn tests_up_arrow_walks_lines_in_multiline_before_history() {
    let seed = "hello\nworld";
    let (action, cur) = multiline_arrow(seed, "hello\nworld".chars().count(), KeyCode::Up);
    assert_eq!(action, InputAction::Ignored);
    assert_eq!(cur, 5, "up should land at col 5 on the first line");

    let (action, _) = multiline_arrow(seed, 5, KeyCode::Up);
    assert_eq!(action, InputAction::HistoryPrev);
}

#[test]
fn tests_down_arrow_walks_lines_in_multiline_before_history() {
    let seed = "hello\nworld";
    let (action, cur) = multiline_arrow(seed, 0, KeyCode::Down);
    assert_eq!(action, InputAction::Ignored);
    assert_eq!(cur, 6, "down should land at col 0 of the second line");

    let (action, _) = multiline_arrow(seed, "hello\nworld".chars().count(), KeyCode::Down);
    assert_eq!(action, InputAction::HistoryNext);
}

#[test]
fn tests_up_arrow_clamps_column_to_shorter_line() {
    let seed = "hi\nlonger line";
    let start = "hi\n".chars().count() + 7;
    let (action, cur) = multiline_arrow(seed, start, KeyCode::Up);
    assert_eq!(action, InputAction::Ignored);
    assert_eq!(cur, 2, "column should clamp to the first line's length");
}

fn feed(event: Event, input: &mut String, cursor: &mut usize, modal: Modal) -> InputAction {
    let mut drag = SelectionDrag::default();
    let context = InputContext {
        active_modal: modal,
        ..InputContext::default()
    };
    process_event(event, input, cursor, context, &mut drag)
}

#[test]
fn a_backspace_undoes_a_typed_character() {
    for (text, caret, c) in [("", 0, 'x'), ("héllo", 2, '世'), ("ab", 2, ']'), ("a\nb", 1, ' ')] {
        let mut input = text.to_string();
        let mut cursor = caret;
        let typed = Event::Key(KeyEvent::new(KeyCode::Char(c), NONE));
        assert_eq!(
            feed(typed, &mut input, &mut cursor, Modal::Closed),
            InputAction::InsertChar(c)
        );
        assert_eq!(cursor, caret + 1);
        let erased = Event::Key(KeyEvent::new(KeyCode::Backspace, NONE));
        assert_eq!(
            feed(erased, &mut input, &mut cursor, Modal::Closed),
            InputAction::Backspace
        );
        assert_eq!((input.as_str(), cursor), (text, caret));
    }
}

#[test]
fn nothing_edits_the_line_behind_a_list() {
    let events = || {
        let keys = [
            (KeyCode::Char('x'), NONE),
            (KeyCode::Char('v'), CONTROL),
            (KeyCode::Char('w'), CONTROL),
            (KeyCode::Char('b'), ALT),
            (KeyCode::Backspace, NONE),
            (KeyCode::Enter, NONE),
            (KeyCode::Enter, ALT),
            (KeyCode::Left, NONE),
            (KeyCode::Home, NONE),
        ];
        keys.into_iter()
            .map(|(code, modifiers)| Event::Key(KeyEvent::new(code, modifiers)))
            .chain([Event::Paste("pasted".to_string()), Event::Resize(80, 24)])
    };
    for modal in [Modal::Provider, Modal::Sessions, Modal::Help, Modal::Question] {
        for event in events() {
            let mut input = "draft".to_string();
            let mut cursor = 3;
            let action = feed(event, &mut input, &mut cursor, modal);
            assert_eq!((input.as_str(), cursor), ("draft", 3));
            assert!(!matches!(
                action,
                InputAction::InsertChar(_)
                    | InputAction::Backspace
                    | InputAction::Paste
                    | InputAction::BracketedPaste(_)
                    | InputAction::SendChat(_)
                    | InputAction::SendSlash(_)
                    | InputAction::SendShell(_)
            ));
        }
    }
}

#[test]
fn escape_leaves_the_picker_step_by_step() {
    let mut context = InputContext {
        active_modal: Modal::Provider,
        model_searching: true,
        picker_in_models_stage: true,
        ..InputContext::default()
    };
    let mut escape = |context: InputContext| {
        process_event(
            Event::Key(KeyEvent::new(KeyCode::Esc, NONE)),
            &mut String::new(),
            &mut 0,
            context,
            &mut SelectionDrag::default(),
        )
    };
    assert_eq!(escape(context), InputAction::ModelExitSearch);
    context.model_searching = false;
    assert_eq!(escape(context), InputAction::ProviderPickerBack);
    context.picker_in_models_stage = false;
    assert_eq!(escape(context), InputAction::CloseModal);
}
