//! What the client and the agent say to each other.
use crate::attachments::ImagePart;
use vstd::prelude::*;

verus! {

/// Answer to a permission request.
#[derive(Debug, Clone, Copy, PartialEq, Eq, Structural)]
pub enum PermissionDecision {
    Once,
    Always,
    Reject,
}

/// A tool call that waits for permission.
#[derive(Debug, PartialEq, Eq)]
pub struct PermissionRequest {
    pub id: String,
    pub tool: String,
    pub description: String,
}

impl Clone for PermissionRequest {
    fn clone(&self) -> (copy: Self)
        ensures
            copy == *self,
    {
        PermissionRequest {
            id: self.id.clone(),
            tool: self.tool.clone(),
            description: self.description.clone(),
        }
    }
}

/// A question that waits for the user's answer.
#[derive(Debug, PartialEq, Eq)]
pub struct UserQuestionRequest {
    pub id: String,
    pub question: String,
}

impl Clone for UserQuestionRequest {
    fn clone(&self) -> (copy: Self)
        ensures
            copy == *self,
    {
        UserQuestionRequest { id: self.id.clone(), question: self.question.clone() }
    }
}

/// What the client asks of the agent.
#[derive(Debug, PartialEq, Eq)]
pub enum AgentRequest {
    Chat { text: String, images: Vec<ImagePart> },
    SlashCommand(String),
    ShellCommand { command: String },
    /// Stop the running turn.
    Interrupt,
    PermissionReply {
        request_id: String,
        decision: PermissionDecision,
        /// The tool call whose envoy asked, where one did.
        parent_call_id: Option<String>,
    },
    UserQuestionReply {
        request_id: String,
        answers: Vec<String>,
        parent_call_id: Option<String>,
    },
    SwitchProvider {
        provider_type: String,
        model: String,
        api_key: Option<String>,
        base_url: Option<String>,
        /// Reasoning effort, where the provider has the choice.
        effort: Option<String>,
        /// Extended thinking, where the provider has the choice.
        thinking: Option<bool>,
    },
    ToggleFavorite { id: String },
    QuerySessionContext,
    RevokePermission { tool: String, scope: String },
    ClearAllPermissions,
    ToggleTool { name: String, enabled: bool },
    DeleteSession { id: String },
    ExitSideView,
}

/// The goal that the agent works towards.
#[derive(Debug, PartialEq, Eq)]
pub struct Pursuit {
    pub objective: String,
    pub is_complete: bool,
}

impl Clone for Pursuit {
    fn clone(&self) -> (copy: Self)
        ensures
            copy == *self,
    {
        Pursuit { objective: self.objective.clone(), is_complete: self.is_complete }
    }
}

#[derive(Debug, Clone, Copy, PartialEq, Eq, Structural)]
pub enum TodoStatus {
    Pending,
    InProgress,
    Completed,
    Cancelled,
}

#[derive(Debug, PartialEq, Eq)]
pub struct TodoItem {
    pub id: u64,
    pub content: String,
    pub status: TodoStatus,
}

impl Clone for TodoItem {
    fn clone(&self) -> (copy: Self)
        ensures
            copy == *self,
    {
        TodoItem { id: self.id, content: self.content.clone(), status: self.status }
    }
}

/// The agent's task list.
#[derive(Debug, PartialEq, Eq)]
pub struct TodoList {
    pub items: Vec<TodoItem>,
}

/// How many of the first `n` items have the given status.
pub open spec fn status_count(items: Seq<TodoItem>, status: TodoStatus, n: int) -> nat
    decreases n,
{
    if n <= 0 {
        0
    } else if items[n - 1].status == status {
        status_count(items, status, n - 1) + 1
    } else {
        status_count(items, status, n - 1)
    }
}

impl TodoList {
    /// How many items have the given status.
    pub fn count(&self, status: TodoStatus) -> (n: usize)
        ensures
            n == status_count(self.items@, status, self.items@.len() as int),
    {
        let total: usize = self.items.len();
        let mut n: usize = 0;
        let mut i: usize = 0;
        while i < total
            invariant
                i <= total,
                total == self.items@.len(),
                n == status_count(self.items@, status, i as int),
                n <= i,
            decreases total - i,
        {
            if self.items[i].status == status {
                n += 1;
            }
            i += 1;
        }
        n
    }
}

/// Coarse state of the primary session, shown while in a side conversation.
#[derive(Debug, Clone, Copy, PartialEq, Eq, Structural)]
pub enum ParentStatus {
    Idle,
    Running,
    AwaitingUser,
    Finished,
}

/// State of the agent loop.
#[derive(Debug, PartialEq, Eq)]
pub struct HarnessSnapshot {
    pub pursuit: Option<Pursuit>,
    pub loop_status: String,
    pub unattended: bool,
}

/// A row of the sessions list.
#[derive(Debug, PartialEq, Eq)]
pub struct SessionOverview {
    pub id: String,
    pub title: String,
}

/// A tool of the session.
#[derive(Debug, PartialEq, Eq)]
pub struct ToolInfo {
    pub name: String,
    pub enabled: bool,
}

/// A cached "always allow" rule.
#[derive(Debug, PartialEq, Eq)]
pub struct PermissionRule {
    pub tool: String,
    pub scope: String,
}

/// What the managers show of the session.
#[derive(Debug, PartialEq, Eq)]
pub struct SessionContextSnapshot {
    pub tools: Vec<ToolInfo>,
    pub permissions: Vec<PermissionRule>,
}

} // verus!
