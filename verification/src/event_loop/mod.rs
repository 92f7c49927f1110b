//! The event loop: what each frame and each action does to the state.
pub mod composing;
pub mod composing_laws;
pub mod copying;
pub mod decision_laws;
pub mod dispatch;
pub mod frame;
pub mod frame_laws;
pub mod laws;
pub mod overlay_laws;
pub mod overlays;
pub mod permission;
pub mod picking;
pub mod picking_laws;
pub mod pointer;
pub mod pointing_laws;
pub mod presenting;
pub mod presenting_laws;
pub mod queue_laws;
pub mod routing;
pub mod scrolling;
pub mod sending;
pub mod steps;
pub mod viewing_laws;
pub mod zoom_laws;

use crate::agent::ParentStatus;
use crate::agent::PermissionRequest;
use crate::agent::UserQuestionRequest;
use crate::document::TranscriptMessage;
use std::collections::VecDeque;
use vstd::prelude::*;

verus! {

/// A change of view that the agent asked for.
#[derive(Debug)]
pub enum SideViewSignal {
    Opened { side_id: String },
    Closed,
}

/// The live state of the session, written as responses arrive.
#[derive(Debug)]
pub struct UiRuntime {
    pub activity_status: String,
    /// Permission requests, oldest first; the first is on the sheet.
    pub pending_permission: VecDeque<PermissionRequest>,
    /// Questions, oldest first; the first is in the overlay.
    pub pending_question: VecDeque<UserQuestionRequest>,
    /// Whether a turn is running.
    pub is_responding: bool,
    /// Which tool call's envoy sent a permission request.
    pub envoy_permission_parent: Vec<(String, String)>,
    /// Which tool call's envoy asked a question.
    pub envoy_question_parent: Vec<(String, String)>,
    pub messages: Vec<TranscriptMessage>,
    pub side_messages: Vec<TranscriptMessage>,
    pub parent_status: ParentStatus,
    pub side_view_signal: Option<SideViewSignal>,
    /// Whether the sessions list is to be opened.
    pub open_sessions: bool,
    /// The side session whose events go to the side transcript.
    pub side_id: Option<String>,
    /// When the current reasoning began, in milliseconds of the host's clock.
    pub reasoning_start: Option<u64>,
    /// When the current turn began, in milliseconds of the host's clock.
    pub turn_started_at: Option<u64>,
}

impl UiRuntime {
    /// An idle session with the given transcript.
    pub fn new(messages: Vec<TranscriptMessage>) -> (runtime: Self)
        ensures
            runtime.messages == messages,
            runtime.activity_status@ == Seq::<char>::empty(),
            runtime.pending_permission@ == Seq::<PermissionRequest>::empty(),
            runtime.pending_question@ == Seq::<UserQuestionRequest>::empty(),
            !runtime.is_responding,
            runtime.envoy_permission_parent@ == Seq::<(String, String)>::empty(),
            runtime.envoy_question_parent@ == Seq::<(String, String)>::empty(),
            runtime.side_messages@ == Seq::<TranscriptMessage>::empty(),
            runtime.parent_status == ParentStatus::Idle,
            runtime.side_view_signal is None,
            !runtime.open_sessions,
            runtime.side_id is None,
            runtime.reasoning_start is None,
            runtime.turn_started_at is None,
    {
        UiRuntime {
            activity_status: String::new(),
            pending_permission: VecDeque::new(),
            pending_question: VecDeque::new(),
            is_responding: false,
            envoy_permission_parent: Vec::new(),
            envoy_question_parent: Vec::new(),
            messages,
            side_messages: Vec::new(),
            parent_status: ParentStatus::Idle,
            side_view_signal: None,
            open_sessions: false,
            side_id: None,
            reasoning_start: None,
            turn_started_at: None,
        }
    }
}

} // verus!
