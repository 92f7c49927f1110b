use neenee_code::agent::{Pursuit, TodoItem, TodoList, TodoStatus};
use neenee_code::status::{
    compact_retry_reason, describe_pursuit_change, describe_todos_change, display_status,
    tool_activity_status,
};

fn item(id: u64, status: TodoStatus) -> TodoItem {
    TodoItem {
        id,
        content: format!("step {id}"),
        status,
    }
}

fn list(items: &[TodoItem]) -> TodoList {
    TodoList {
        items: items.to_vec(),
    }
}

#[test]
fn first_appearance_announces_started_with_tally() {
    let new = list(&[
        item(1, TodoStatus::InProgress),
        item(2, TodoStatus::Pending),
        item(3, TodoStatus::Pending),
    ]);
    assert_eq!(
        describe_todos_change(None, Some(&new)),
        Some("tasks started · 0/3".to_string())
    );
}

#[test]
fn multiple_status_changes_collapse_to_one_line() {
    let prev = list(&[
        item(1, TodoStatus::Pending),
        item(2, TodoStatus::Pending),
        item(3, TodoStatus::InProgress),
        item(4, TodoStatus::Pending),
        item(5, TodoStatus::Pending),
    ]);
    let new = list(&[
        item(1, TodoStatus::Completed),
        item(2, TodoStatus::Completed),
        item(3, TodoStatus::Completed),
        item(4, TodoStatus::InProgress),
        item(5, TodoStatus::Cancelled),
    ]);
    assert_eq!(
        describe_todos_change(Some(&prev), Some(&new)),
        Some("tasks · 3/5 · 5 updated".to_string())
    );
}

#[test]
fn single_status_change_counts_one() {
    let prev = list(&[
        item(1, TodoStatus::Pending),
        item(2, TodoStatus::InProgress),
    ]);
    let new = list(&[item(1, TodoStatus::Pending), item(2, TodoStatus::Completed)]);
    assert_eq!(
        describe_todos_change(Some(&prev), Some(&new)),
        Some("tasks · 1/2 · 1 updated".to_string())
    );
}

#[test]
fn no_change_emits_nothing() {
    let same = list(&[
        item(1, TodoStatus::InProgress),
        item(2, TodoStatus::Pending),
    ]);
    assert_eq!(describe_todos_change(Some(&same), Some(&same)), None);
}

#[test]
fn size_only_change_drops_the_updated_suffix() {
    let prev = list(&[item(1, TodoStatus::Pending)]);
    let new = list(&[
        item(1, TodoStatus::Pending),
        item(2, TodoStatus::Pending),
        item(3, TodoStatus::Pending),
    ]);
    assert_eq!(
        describe_todos_change(Some(&prev), Some(&new)),
        Some("tasks · 0/3".to_string())
    );
}

#[test]
fn empty_new_list_emits_nothing() {
    let prev = list(&[item(1, TodoStatus::Pending)]);
    assert_eq!(describe_todos_change(Some(&prev), Some(&list(&[]))), None);
    assert_eq!(describe_todos_change(None, Some(&list(&[]))), None);
    assert_eq!(describe_todos_change(Some(&prev), None), None);
}

#[test]
fn pursuit_notices_come_for_new_goals_and_completion() {
    let goal = |objective: &str, is_complete: bool| Pursuit {
        objective: objective.to_string(),
        is_complete,
    };
    assert_eq!(describe_pursuit_change(None, &goal("a", false)), None);
    assert_eq!(
        describe_pursuit_change(None, &goal("a", true)),
        Some("✓ pursuit complete · a".to_string())
    );
    assert_eq!(
        describe_pursuit_change(Some(&goal("a", false)), &goal("b", false)),
        Some("pursue · b".to_string())
    );
    assert_eq!(
        describe_pursuit_change(Some(&goal("a", false)), &goal("a", false)),
        None
    );
    assert_eq!(
        describe_pursuit_change(Some(&goal("a", true)), &goal("b", true)),
        Some("pursue · b".to_string())
    );
    assert_eq!(
        describe_pursuit_change(Some(&goal("a", true)), &goal("a", true)),
        None
    );
}

#[test]
fn status_line_drops_what_the_spinner_says() {
    assert_eq!(display_status("idle", "", false), "idle");
    assert_eq!(display_status("idle", "queued", false), "queued");
    assert_eq!(display_status("running", "", false), "preparing");
    assert_eq!(display_status("running", "thinking", false), "thinking");
    assert_eq!(display_status("loop 2/5", "", false), "loop 2/5");
    assert_eq!(
        display_status("loop 2/5", "thinking", false),
        "loop 2/5 · thinking"
    );
    assert_eq!(
        display_status("running", "thinking", true),
        "awaiting permission"
    );
}

#[test]
fn tools_are_named_by_what_they_do() {
    for name in ["read_file", "read_image", "list_dir", "use_skill"] {
        assert_eq!(tool_activity_status(name), "exploring");
    }
    assert_eq!(tool_activity_status("grep"), "searching codebase");
    assert_eq!(tool_activity_status("write_file"), "making edits");
    assert_eq!(tool_activity_status("edit_file"), "making edits");
    assert_eq!(tool_activity_status("bash"), "running command");
    assert_eq!(tool_activity_status("mcp__db__query"), "using MCP");
    assert_eq!(tool_activity_status("other"), "using tool");
}

#[test]
fn retry_reasons_keep_one_short_line() {
    assert_eq!(compact_retry_reason("  timed out \nmore"), "timed out");
    assert_eq!(compact_retry_reason(""), "");
    let long = "x".repeat(57);
    assert_eq!(
        compact_retry_reason(&long),
        format!("{}...", "x".repeat(56))
    );
    let fits = "y".repeat(56);
    assert_eq!(compact_retry_reason(&fits), fits);
}
