//! Short texts that tell the user what is going on.
use crate::agent::status_count;
use crate::agent::Pursuit;
use crate::agent::TodoItem;
use crate::agent::TodoList;
use crate::agent::TodoStatus;
use crate::text::append_text;
use crate::text::begins_with;
use crate::text::char_count;
use crate::text::clip;
use crate::text::clipped;
use crate::text::decimal;
use crate::text::decimal_string;
use crate::text::first_line;
use crate::text::is_blank;
use crate::text::lemma_end_of_text_unique;
use crate::text::lemma_first_newline_unique;
use crate::text::lemma_leading_blanks_unique;
use crate::text::same_text;
use crate::text::starts_with;
use crate::text::take_first_line;
use crate::text::trim;
use crate::text::trimmed;
use vstd::prelude::*;

verus! {

/// What the user sees while the tool `name` runs.
pub open spec fn tool_activity(name: Seq<char>) -> Seq<char> {
    if name == "read_file"@ || name == "read_image"@ || name == "list_dir"@ || name
        == "use_skill"@ {
        "exploring"@
    } else if name == "grep"@ {
        "searching codebase"@
    } else if name == "write_file"@ || name == "edit_file"@ {
        "making edits"@
    } else if name == "bash"@ {
        "running command"@
    } else if begins_with(name, "mcp__"@) {
        "using MCP"@
    } else {
        "using tool"@
    }
}

/// What the user sees while the tool `name` runs.
pub fn tool_activity_status(name: &str) -> (status: String)
    ensures
        status@ == tool_activity(name@),
{
    if same_text(name, "read_file") || same_text(name, "read_image") || same_text(name, "list_dir")
        || same_text(name, "use_skill") {
        "exploring".to_owned()
    } else if same_text(name, "grep") {
        "searching codebase".to_owned()
    } else if same_text(name, "write_file") || same_text(name, "edit_file") {
        "making edits".to_owned()
    } else if same_text(name, "bash") {
        "running command".to_owned()
    } else if starts_with(name, "mcp__") {
        "using MCP".to_owned()
    } else {
        "using tool".to_owned()
    }
}

/// The first line of a failure message, shortened to fit the status line.
pub open spec fn retry_reason(message: Seq<char>) -> Seq<char> {
    clipped(trimmed(first_line(message)), 56)
}

/// The first line of a failure message, shortened to fit the status line.
pub fn compact_retry_reason(message: &str) -> (reason: String)
    ensures
        reason@ == retry_reason(message@),
{
    let line: String = take_first_line(message);
    let text: String = trim(line.as_str());
    clip(text.as_str(), 56)
}

/// The status line: what the loop does and what it is busy with.
pub open spec fn status_line(loop_status: Seq<char>, activity: Seq<char>) -> Seq<char> {
    if loop_status == "idle"@ {
        if activity.len() == 0 {
            "idle"@
        } else {
            activity
        }
    } else if loop_status == "running"@ {
        if activity.len() == 0 {
            "preparing"@
        } else {
            activity
        }
    } else if activity.len() == 0 {
        loop_status
    } else {
        loop_status + " · "@ + activity
    }
}

/// The status line; a pending permission request hides the activity.
pub fn display_status(loop_status: &str, activity: &str, awaiting_permission: bool) -> (status:
    String)
    ensures
        status@ == status_line(
            loop_status@,
            if awaiting_permission {
                "awaiting permission"@
            } else {
                activity@
            },
        ),
{
    let activity: &str = if awaiting_permission {
        "awaiting permission"
    } else {
        activity
    };
    let quiet: bool = char_count(activity) == 0;
    if same_text(loop_status, "idle") {
        if quiet {
            "idle".to_owned()
        } else {
            activity.to_owned()
        }
    } else if same_text(loop_status, "running") {
        if quiet {
            "preparing".to_owned()
        } else {
            activity.to_owned()
        }
    } else if quiet {
        loop_status.to_owned()
    } else {
        let mut status: String = loop_status.to_owned();
        status.append(" · ");
        status.append(activity);
        status
    }
}

/// The notice for a change of the agent's goal.
pub open spec fn pursuit_notice(prev: Option<Pursuit>, new: Pursuit) -> Option<Seq<char>> {
    if new.is_complete && !(prev matches Some(p) && p.is_complete) {
        Some("✓ pursuit complete"@ + " · "@ + new.objective@)
    } else {
        match prev {
            Some(p) => if p.objective@ != new.objective@ {
                Some("pursue"@ + " · "@ + new.objective@)
            } else {
                None
            },
            None => None,
        }
    }
}

fn titled(prefix: &str, text: &str) -> (out: String)
    ensures
        out@ == prefix@ + " · "@ + text@,
{
    let mut out: String = prefix.to_owned();
    out.append(" · ");
    out.append(text);
    out
}

/// The notice for a change of the agent's goal, where the user has something
/// to see.
pub fn describe_pursuit_change(prev: Option<&Pursuit>, new: &Pursuit) -> (notice: Option<String>)
    ensures
        match (
            notice,
            pursuit_notice(
                match prev {
                    Some(p) => Some(*p),
                    None => None,
                },
                *new,
            ),
        ) {
            (Some(text), Some(expected)) => text@ == expected,
            (None, None) => true,
            _ => false,
        },
{
    let was_complete: bool = match prev {
        Some(p) => p.is_complete,
        None => false,
    };
    if new.is_complete && !was_complete {
        return Some(titled("✓ pursuit complete", new.objective.as_str()));
    }
    match prev {
        Some(p) => {
            if !same_text(p.objective.as_str(), new.objective.as_str()) {
                Some(titled("pursue", new.objective.as_str()))
            } else {
                None
            }
        },
        None => None,
    }
}

/// In how many of the first `n` positions the two lists differ in status.
pub open spec fn status_changes(prev: Seq<TodoItem>, new: Seq<TodoItem>, n: int) -> nat
    decreases n,
{
    if n <= 0 {
        0
    } else if prev[n - 1].status != new[n - 1].status {
        status_changes(prev, new, n - 1) + 1
    } else {
        status_changes(prev, new, n - 1)
    }
}

/// The shorter of two lengths.
pub open spec fn common_len(a: nat, b: nat) -> int {
    if a < b {
        a as int
    } else {
        b as int
    }
}

/// Finished tasks out of all tasks.
pub open spec fn tally(items: Seq<TodoItem>) -> Seq<char> {
    decimal(status_count(items, TodoStatus::Completed, items.len() as int)) + "/"@ + decimal(
        items.len(),
    )
}

/// The notice for a change of the task list: at most one line.
pub open spec fn todos_notice(prev: Seq<TodoItem>, new: Seq<TodoItem>) -> Option<Seq<char>> {
    let changed = status_changes(prev, new, common_len(prev.len(), new.len()));
    if new.len() == 0 {
        None
    } else if prev.len() == 0 {
        Some("tasks started · "@ + tally(new))
    } else if changed > 0 {
        Some("tasks · "@ + tally(new) + " · "@ + decimal(changed) + " updated"@)
    } else if prev.len() == new.len() {
        None
    } else {
        Some("tasks · "@ + tally(new))
    }
}

/// The items of a list that may be missing.
pub open spec fn items_of(list: Option<&TodoList>) -> Seq<TodoItem> {
    match list {
        Some(l) => l.items@,
        None => Seq::empty(),
    }
}

fn append_tally(out: &mut String, list: &TodoList)
    ensures
        final(out)@ == old(out)@ + tally(list.items@),
{
    let done: String = decimal_string(list.count(TodoStatus::Completed) as u64);
    let total: String = decimal_string(list.items.len() as u64);
    let mut text: String = done;
    text.append("/");
    text.append(total.as_str());
    append_text(out, text.as_str());
}

/// The notice for a change of the task list, where the user has something to
/// see.
pub fn describe_todos_change(prev: Option<&TodoList>, new: Option<&TodoList>) -> (notice: Option<
    String,
>)
    ensures
        match (notice, todos_notice(items_of(prev), items_of(new))) {
            (Some(text), Some(expected)) => text@ == expected,
            (None, None) => true,
            _ => false,
        },
{
    let new: &TodoList = match new {
        Some(list) => list,
        None => {
            return None;
        },
    };
    if new.items.len() == 0 {
        return None;
    }
    let mut out: String = "tasks · ".to_owned();
    if let Some(old) = prev {
        if old.items.len() > 0 {
            let common: usize = if old.items.len() < new.items.len() {
                old.items.len()
            } else {
                new.items.len()
            };
            let mut changed: usize = 0;
            let mut i: usize = 0;
            while i < common
                invariant
                    i <= common,
                    common <= old.items@.len(),
                    common <= new.items@.len(),
                    changed == status_changes(old.items@, new.items@, i as int),
                    changed <= i,
                decreases common - i,
            {
                if old.items[i].status != new.items[i].status {
                    changed += 1;
                }
                i += 1;
            }
            if changed == 0 && old.items.len() == new.items.len() {
                return None;
            }
            append_tally(&mut out, new);
            if changed > 0 {
                out.append(" · ");
                let count: String = decimal_string(changed as u64);
                out.append(count.as_str());
                out.append(" updated");
            }
            return Some(out);
        }
    }
    out = "tasks started · ".to_owned();
    append_tally(&mut out, new);
    Some(out)
}

/// A change that only re-sends the same goal says nothing.
pub proof fn law_same_pursuit_is_silent(pursuit: Pursuit)
    ensures
        pursuit_notice(Some(pursuit), pursuit) is None,
{
}

/// A list that has not changed says nothing.
pub proof fn law_same_todos_are_silent(items: Seq<TodoItem>)
    ensures
        todos_notice(items, items) is None,
{
    lemma_no_changes(items, items.len() as int);
}

proof fn lemma_no_changes(items: Seq<TodoItem>, n: int)
    ensures
        status_changes(items, items, n) == 0,
    decreases n,
{
    if n > 0 {
        lemma_no_changes(items, n - 1);
    }
}

/// The status line names what the agent is busy with; without that it says idle,
/// that a turn is being prepared, or the state as it is named. Any other state
/// stands in front of the activity.
pub proof fn law_status_line(state: Seq<char>, activity: Seq<char>)
    ensures
        activity.len() > 0 && (state == "idle"@ || state == "running"@) ==> status_line(
            state,
            activity,
        ) == activity,
        activity.len() == 0 && state == "idle"@ ==> status_line(state, activity) == "idle"@,
        activity.len() == 0 && state == "running"@ ==> status_line(state, activity)
            == "preparing"@,
        activity.len() == 0 && state != "idle"@ && state != "running"@ ==> status_line(
            state,
            activity,
        ) == state,
        activity.len() > 0 && state != "idle"@ && state != "running"@ ==> status_line(
            state,
            activity,
        ) == state + " · "@ + activity,
{
    reveal_strlit("idle");
    reveal_strlit("running");
    assert("idle"@[0] != "running"@[0]);
}

/// What a running tool is shown as: reading, searching, editing and commands have
/// names of their own, the tools of outside servers are told by their prefix, and
/// any other is a tool.
pub proof fn law_tool_activities(rest: Seq<char>)
    ensures
        tool_activity("read_file"@) == "exploring"@,
        tool_activity("read_image"@) == "exploring"@,
        tool_activity("list_dir"@) == "exploring"@,
        tool_activity("use_skill"@) == "exploring"@,
        tool_activity("grep"@) == "searching codebase"@,
        tool_activity("write_file"@) == "making edits"@,
        tool_activity("edit_file"@) == "making edits"@,
        tool_activity("bash"@) == "running command"@,
        tool_activity("mcp__"@ + rest) == "using MCP"@,
{
    reveal_strlit("read_file");
    reveal_strlit("read_image");
    reveal_strlit("list_dir");
    reveal_strlit("use_skill");
    reveal_strlit("grep");
    reveal_strlit("write_file");
    reveal_strlit("edit_file");
    reveal_strlit("bash");
    reveal_strlit("mcp__");
    let name = "mcp__"@ + rest;
    assert(name.subrange(0, 5) =~= "mcp__"@);
    assert(name[0] == 'm');
    assert("read_file"@[0] == 'r' && "read_image"@[0] == 'r' && "list_dir"@[0] == 'l'
        && "use_skill"@[0] == 'u' && "grep"@[0] == 'g' && "write_file"@[0] == 'w'
        && "edit_file"@[0] == 'e' && "bash"@[0] == 'b');
}

/// The reason of a retry is a piece of the first line of the message, no longer
/// than fits, marked where it was cut; a short first line without blanks around
/// it is shown whole.
pub proof fn law_retry_reason_fits(message: Seq<char>)
    ensures
        retry_reason(message).len() <= 59,
        message.len() > 0 && message.len() <= 56 && !is_blank(message[0]) && !is_blank(
            message.last(),
        ) && (forall|i: int| 0 <= i < message.len() ==> message[i] != '\n') ==> retry_reason(
            message,
        ) == message,
{
    reveal_strlit("...");
    if message.len() > 0 && message.len() <= 56 && !is_blank(message[0]) && !is_blank(
        message.last(),
    ) && (forall|i: int| 0 <= i < message.len() ==> message[i] != '\n') {
        lemma_first_newline_unique(message, message.len() as int);
        assert(message.take(message.len() as int) =~= message);
        lemma_leading_blanks_unique(message, 0);
        assert(message.skip(0) =~= message);
        lemma_end_of_text_unique(message, message.len() as int);
    }
}

/// A list of tasks that appears is announced, one that goes is not, and one whose
/// tasks changed says how many did and how many are done.
pub proof fn law_todo_changes(prev: Seq<TodoItem>, new: Seq<TodoItem>)
    ensures
        new.len() == 0 ==> todos_notice(prev, new) is None,
        new.len() > 0 && prev.len() == 0 ==> todos_notice(prev, new) == Some(
            "tasks started · "@ + decimal(
                status_count(new, TodoStatus::Completed, new.len() as int),
            ) + "/"@ + decimal(new.len()),
        ),
        new.len() > 0 && prev.len() == new.len() ==> (todos_notice(prev, new) is None <==> forall|
            i: int,
        |
            0 <= i < new.len() ==> (#[trigger] prev[i]).status == new[i].status),
        new.len() > 0 && prev.len() > 0 && prev.len() != new.len() ==> todos_notice(
            prev,
            new,
        ) is Some,
{
    if new.len() > 0 && prev.len() == new.len() {
        lemma_changes_counted(prev, new, new.len() as int);
    }
    if new.len() > 0 && prev.len() == 0 {
        assert("tasks started · "@ + tally(new) =~= "tasks started · "@ + decimal(
            status_count(new, TodoStatus::Completed, new.len() as int),
        ) + "/"@ + decimal(new.len()));
    }
}

proof fn lemma_changes_counted(prev: Seq<TodoItem>, new: Seq<TodoItem>, n: int)
    requires
        0 <= n <= prev.len(),
        n <= new.len(),
    ensures
        status_changes(prev, new, n) == 0 <==> forall|i: int|
            0 <= i < n ==> (#[trigger] prev[i]).status == new[i].status,
    decreases n,
{
    if n > 0 {
        lemma_changes_counted(prev, new, n - 1);
        if prev[n - 1].status != new[n - 1].status {
            assert(!(forall|i: int| 0 <= i < n ==> (#[trigger] prev[i]).status == new[i].status));
        }
    }
}

} // verus!
