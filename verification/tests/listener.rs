use neenee_code::agent::{
    AgentRequest, HarnessSnapshot, ParentStatus, PermissionDecision, PermissionRequest, Pursuit,
    SessionContextSnapshot, SessionOverview, TodoList, UserQuestionRequest,
};
use neenee_code::app::{App, Effect};
use neenee_code::document::{
    MessageKind, NoticeSeverity, Role, ToolStep, ToolStepStatus, TranscriptMessage,
};
use neenee_code::event_loop::permission::{
    apply_question_effects, handle_permission_reject, handle_permission_submit, QuestionEffect,
};
use neenee_code::event_loop::{SideViewSignal, UiRuntime};
use neenee_code::listener::transcript::CallResult;
use neenee_code::listener::{apply_response, AgentResponse, EnvoyEvent, ResponseFacts, TurnEvent};
use neenee_code::modal::Modal;
use neenee_code::providers::ProviderPickerSnapshot;

fn app() -> App {
    App::new("openai".to_string(), "gpt-4o".to_string(), Vec::new())
}

fn runtime() -> UiRuntime {
    UiRuntime::new(Vec::new())
}

fn facts(now: u64) -> ResponseFacts {
    ResponseFacts {
        now,
        thinking_expanded: false,
        success_expanded: false,
    }
}

fn turn(a: &mut App, r: &mut UiRuntime, event: TurnEvent) {
    turn_at(a, r, event, 1_000);
}

fn turn_at(a: &mut App, r: &mut UiRuntime, event: TurnEvent, now: u64) {
    let response = AgentResponse::Turn {
        session_id: "main".to_string(),
        event,
    };
    apply_response(a, r, response, facts(now));
}

fn aside(a: &mut App, r: &mut UiRuntime, event: TurnEvent) {
    let response = AgentResponse::Turn {
        session_id: "side".to_string(),
        event,
    };
    apply_response(a, r, response, facts(1_000));
}

fn answer(a: &mut App, r: &mut UiRuntime, response: AgentResponse) {
    apply_response(a, r, response, facts(1_000));
}

fn call(id: &str, name: &str) -> TurnEvent {
    TurnEvent::ToolCall {
        id: id.to_string(),
        name: name.to_string(),
        arguments: "{\"a\":1}".to_string(),
    }
}

fn result(id: &str, output: &str, status: ToolStepStatus) -> TurnEvent {
    TurnEvent::ToolResult(CallResult {
        id: id.to_string(),
        name: "bash".to_string(),
        output: output.to_string(),
        status,
        duration_ms: Some(7),
    })
}

fn request(id: &str) -> PermissionRequest {
    PermissionRequest {
        id: id.to_string(),
        tool: "bash".to_string(),
        description: String::new(),
    }
}

fn question(id: &str) -> UserQuestionRequest {
    UserQuestionRequest {
        id: id.to_string(),
        question: "?".to_string(),
    }
}

fn step(message: &TranscriptMessage) -> &ToolStep {
    match &message.kind {
        MessageKind::ToolStep(step) => step,
        other => panic!("{other:?}"),
    }
}

fn trace_ms(message: &TranscriptMessage) -> Option<u64> {
    match &message.kind {
        MessageKind::Thinking(trace) => trace.duration_ms,
        other => panic!("{other:?}"),
    }
}

fn notice(message: &TranscriptMessage) -> (NoticeSeverity, &str) {
    match &message.kind {
        MessageKind::Notice(severity) => (*severity, message.raw.as_str()),
        other => panic!("{other:?}"),
    }
}

fn harness(status: &str) -> TurnEvent {
    TurnEvent::HarnessState(HarnessSnapshot {
        pursuit: None,
        loop_status: status.to_string(),
        unattended: true,
    })
}

#[test]
fn streamed_pieces_add_up() {
    let (mut a, mut r) = (app(), runtime());
    turn(&mut a, &mut r, TurnEvent::StreamDelta("lost".to_string()));
    assert!(r.messages.is_empty());
    turn(&mut a, &mut r, TurnEvent::StreamStart);
    assert_eq!(r.activity_status, "responding");
    assert!(r.is_responding);
    turn(&mut a, &mut r, TurnEvent::StreamDelta("Hel".to_string()));
    turn(&mut a, &mut r, TurnEvent::StreamDelta("lo".to_string()));
    assert_eq!(r.messages[0].raw, "Hello");
    assert_eq!(r.messages[0].role, Role::Assistant);
    assert_eq!(r.messages[0].provider, "openai");
    assert_eq!(r.messages[0].model, "gpt-4o");
    turn(&mut a, &mut r, TurnEvent::StreamEnd("Hello!".to_string()));
    assert_eq!(r.messages[0].raw, "Hello!");
    assert_eq!(r.activity_status, "finalizing response");
    turn(&mut a, &mut r, TurnEvent::StreamDiscard);
    assert!(r.messages.is_empty());
    turn(
        &mut a,
        &mut r,
        TurnEvent::Notice {
            severity: NoticeSeverity::Warning,
            text: "careful".to_string(),
        },
    );
    turn(&mut a, &mut r, TurnEvent::StreamDiscard);
    assert_eq!(
        notice(&r.messages[0]),
        (NoticeSeverity::Warning, "careful")
    );
    turn(&mut a, &mut r, TurnEvent::Text("whole".to_string()));
    assert_eq!(r.messages[1].raw, "whole");
    assert!(!r.is_responding);
    assert_eq!(r.activity_status, "");
}

#[test]
fn reasoning_takes_the_place_of_the_empty_answer() {
    let (mut a, mut r) = (app(), runtime());
    turn(&mut a, &mut r, TurnEvent::StreamStart);
    turn_at(
        &mut a,
        &mut r,
        TurnEvent::StreamReasoningDelta("so".to_string()),
        100,
    );
    assert_eq!(r.messages.len(), 1);
    assert!(r.messages[0].is_thinking());
    assert_eq!(trace_ms(&r.messages[0]), None);
    assert_eq!(r.reasoning_start, Some(100));
    turn_at(
        &mut a,
        &mut r,
        TurnEvent::StreamReasoningDelta(" be it".to_string()),
        200,
    );
    assert_eq!(r.messages[0].raw, "so be it");
    assert_eq!(r.reasoning_start, Some(100));
    turn_at(
        &mut a,
        &mut r,
        TurnEvent::StreamReasoningEnd("So be it.".to_string()),
        350,
    );
    assert_eq!(r.messages[0].raw, "So be it.");
    assert_eq!(trace_ms(&r.messages[0]), Some(250));
    assert_eq!(r.reasoning_start, None);
    turn(&mut a, &mut r, TurnEvent::Text("x".to_string()));
    let mut unfolded = facts(0);
    unfolded.thinking_expanded = true;
    apply_response(
        &mut a,
        &mut r,
        AgentResponse::Turn {
            session_id: String::new(),
            event: TurnEvent::StreamReasoningDelta("y".to_string()),
        },
        unfolded,
    );
    assert_eq!(r.messages.len(), 3);
    assert_eq!(r.messages[2].thinking_expanded(), Some(true));
}

#[test]
fn a_turn_boundary_stops_reasoning() {
    let (mut a, mut r) = (app(), runtime());
    turn_at(
        &mut a,
        &mut r,
        TurnEvent::StreamReasoningDelta("hm".to_string()),
        10,
    );
    a.session.review_alert = "old".to_string();
    a.session.current_turn = 4;
    r.activity_status = "thinking".to_string();
    turn_at(&mut a, &mut r, harness("running"), 60);
    assert_eq!(trace_ms(&r.messages[0]), Some(50));
    assert_eq!(r.messages[0].raw, "hm");
    assert!(r.is_responding);
    assert_eq!(r.activity_status, "thinking");
    assert_eq!(r.turn_started_at, Some(60));
    assert_eq!(a.session.round_count, 1);
    assert_eq!(a.session.current_turn, 0);
    assert_eq!(a.session.review_alert, "");
    assert_eq!(a.session.loop_status, "running");
    assert!(a.session.unattended);
    turn_at(&mut a, &mut r, harness("idle"), 90);
    assert!(!r.is_responding);
    assert_eq!(r.activity_status, "");
    assert_eq!(r.turn_started_at, None);
    assert_eq!(a.session.round_count, 1);
}

#[test]
fn calls_begin_and_end() {
    let (mut a, mut r) = (app(), runtime());
    turn(&mut a, &mut r, call("c1", "bash"));
    assert!(r.is_responding);
    assert_eq!(step(&r.messages[0]).status, ToolStepStatus::Running);
    assert_eq!(step(&r.messages[0]).arguments, "{\"a\":1}");
    turn(
        &mut a,
        &mut r,
        TurnEvent::ToolStream {
            id: "c1".to_string(),
            chunk: "li".to_string(),
        },
    );
    turn(
        &mut a,
        &mut r,
        TurnEvent::ToolStream {
            id: "nobody".to_string(),
            chunk: "x".to_string(),
        },
    );
    assert_eq!(step(&r.messages[0]).output, "li");
    turn(&mut a, &mut r, result("c1", "live", ToolStepStatus::Succeeded));
    assert_eq!(step(&r.messages[0]).output, "live");
    assert_eq!(step(&r.messages[0]).status, ToolStepStatus::Succeeded);
    assert_eq!(step(&r.messages[0]).duration_ms, Some(7));
    assert!(!step(&r.messages[0]).expanded);
    assert_eq!(r.activity_status, "thinking");

    turn(&mut a, &mut r, call("c2", "bash"));
    turn(&mut a, &mut r, result("c2", "no", ToolStepStatus::Failed));
    assert!(step(&r.messages[1]).expanded);
    turn(&mut a, &mut r, call("c3", "bash"));
    turn(&mut a, &mut r, result("c3", "no", ToolStepStatus::Denied));
    assert!(step(&r.messages[2]).expanded);
    turn(&mut a, &mut r, result("c9", "late", ToolStepStatus::Succeeded));
    assert_eq!(r.messages.len(), 4);
    assert_eq!(step(&r.messages[3]).arguments, "{}");
    assert_eq!(step(&r.messages[3]).output, "late");
}

#[test]
fn what_the_user_unfolded_stays() {
    let (mut a, mut r) = (app(), runtime());
    turn(&mut a, &mut r, call("c1", "bash"));
    r.messages[0].pin_tool_step_expanded(true);
    turn(&mut a, &mut r, result("c1", "x", ToolStepStatus::Succeeded));
    assert!(step(&r.messages[0]).expanded);
    turn(&mut a, &mut r, call("c2", "bash"));
    r.messages[1].pin_tool_step_expanded(false);
    turn(&mut a, &mut r, result("c2", "x", ToolStepStatus::Failed));
    assert!(!step(&r.messages[1]).expanded);
}

#[test]
fn a_result_goes_to_the_running_call() {
    let (mut a, mut r) = (app(), runtime());
    turn(&mut a, &mut r, call("c1", "bash"));
    turn(&mut a, &mut r, result("c1", "first", ToolStepStatus::Succeeded));
    turn(&mut a, &mut r, call("c1", "bash"));
    turn(&mut a, &mut r, result("c1", "second", ToolStepStatus::Succeeded));
    assert_eq!(step(&r.messages[0]).output, "first");
    assert_eq!(step(&r.messages[1]).output, "second");
}

#[test]
fn cancelling_reaches_nested_calls() {
    let (mut a, mut r) = (app(), runtime());
    turn(&mut a, &mut r, call("task", "task"));
    for id in ["done", "open"] {
        let mut entry = TranscriptMessage::tool_step(
            id.to_string(),
            "bash".to_string(),
            "{}".to_string(),
        );
        if id == "done" {
            if let MessageKind::ToolStep(step) = &mut entry.kind {
                step.status = ToolStepStatus::Succeeded;
            }
        }
        turn(
            &mut a,
            &mut r,
            TurnEvent::Envoy {
                parent_call_id: "task".to_string(),
                event: EnvoyEvent::Entry(entry),
            },
        );
    }
    turn(
        &mut a,
        &mut r,
        TurnEvent::ToolCancelled {
            id: "task".to_string(),
        },
    );
    let task = step(&r.messages[0]);
    assert_eq!(task.status, ToolStepStatus::Cancelled);
    let children = task.children.as_ref().unwrap();
    assert_eq!(step(&children[0]).status, ToolStepStatus::Succeeded);
    assert_eq!(step(&children[1]).status, ToolStepStatus::Cancelled);
    turn(
        &mut a,
        &mut r,
        TurnEvent::ToolCancelled {
            id: "unknown".to_string(),
        },
    );
    assert_eq!(step(&r.messages[1]).status, ToolStepStatus::Cancelled);
    assert_eq!(step(&r.messages[1]).name, "tool");
}

#[test]
fn an_entry_without_its_call_is_dropped() {
    let (mut a, mut r) = (app(), runtime());
    turn(
        &mut a,
        &mut r,
        TurnEvent::Envoy {
            parent_call_id: "gone".to_string(),
            event: EnvoyEvent::Entry(TranscriptMessage::new(Role::User, "x".to_string())),
        },
    );
    assert!(r.messages.is_empty());
}

#[test]
fn side_events_stay_aside() {
    let (mut a, mut r) = (app(), runtime());
    r.side_messages
        .push(TranscriptMessage::new(Role::User, "old".to_string()));
    answer(
        &mut a,
        &mut r,
        AgentResponse::SideViewOpened {
            side_id: "side".to_string(),
        },
    );
    assert!(r.side_messages.is_empty());
    assert!(matches!(
        &r.side_view_signal,
        Some(SideViewSignal::Opened { side_id }) if side_id == "side"
    ));
    aside(&mut a, &mut r, TurnEvent::StreamStart);
    aside(&mut a, &mut r, TurnEvent::StreamDelta("aside".to_string()));
    aside(&mut a, &mut r, harness("running"));
    aside(&mut a, &mut r, TurnEvent::RoundStarted { round: 3 });
    aside(&mut a, &mut r, TurnEvent::UnattendedChanged(true));
    assert_eq!(r.side_messages[0].raw, "aside");
    assert!(r.messages.is_empty());
    assert!(!r.is_responding);
    assert_eq!(r.activity_status, "");
    assert_eq!(a.session.round_count, 0);
    assert_eq!(a.session.current_turn, 0);
    assert!(!a.session.unattended);
    turn(&mut a, &mut r, TurnEvent::Text("main".to_string()));
    assert_eq!(r.side_messages.len(), 1);
    assert_eq!(r.messages.len(), 1);
    aside(&mut a, &mut r, TurnEvent::PermissionRequest(request("p")));
    assert_eq!(r.pending_permission.len(), 1);
    assert!(!r.is_responding);
    answer(&mut a, &mut r, AgentResponse::SideViewClosed);
    assert_eq!(r.side_id, None);
    assert!(matches!(r.side_view_signal, Some(SideViewSignal::Closed)));
    aside(&mut a, &mut r, TurnEvent::Text("back".to_string()));
    assert_eq!(r.messages.len(), 2);
}

#[test]
fn states_are_mirrored() {
    let (mut a, mut r) = (app(), runtime());
    turn(&mut a, &mut r, TurnEvent::Activity("reading".to_string()));
    assert_eq!(r.activity_status, "reading");
    assert!(r.is_responding);
    turn(&mut a, &mut r, TurnEvent::RoundStarted { round: 0 });
    assert_eq!(a.session.current_turn, 1);
    turn(
        &mut a,
        &mut r,
        TurnEvent::Compacted {
            archived_messages: 3,
            before_chars: 10,
            after_chars: 4,
        },
    );
    assert_eq!(
        notice(&r.messages[0]),
        (
            NoticeSeverity::Info,
            "Compacted 3 messages: 10 -> 4 chars."
        )
    );
    turn(
        &mut a,
        &mut r,
        TurnEvent::TodosUpdated(TodoList { items: Vec::new() }),
    );
    assert!(a.session.todos.is_some());
    turn(&mut a, &mut r, TurnEvent::UnattendedChanged(true));
    assert!(a.session.unattended);
    turn(
        &mut a,
        &mut r,
        TurnEvent::SessionReview {
            alert: "drift".to_string(),
        },
    );
    assert_eq!(a.session.review_alert, "drift");
    turn(&mut a, &mut r, TurnEvent::Error("boom".to_string()));
    assert_eq!(notice(&r.messages[1]), (NoticeSeverity::Error, "boom"));
    assert!(!r.is_responding);
    assert_eq!(r.activity_status, "");
}

#[test]
fn retry_seconds_are_rounded_up() {
    let (mut a, mut r) = (app(), runtime());
    for (delay_ms, shown) in [(0, "0"), (1, "1"), (1_000, "1"), (1_001, "2")] {
        turn(
            &mut a,
            &mut r,
            TurnEvent::RetryScheduled {
                attempt: 1,
                max_attempts: 3,
                delay_ms,
                message: "overloaded".to_string(),
            },
        );
        assert_eq!(
            r.activity_status,
            format!("retry 1/3 in {shown}s · overloaded")
        );
        assert!(r.is_responding);
    }
}

#[test]
fn the_goal_is_announced_when_it_changes() {
    let (mut a, mut r) = (app(), runtime());
    let goal = |objective: &str, is_complete: bool| Pursuit {
        objective: objective.to_string(),
        is_complete,
    };
    turn(&mut a, &mut r, TurnEvent::PursuitUpdated(goal("ship", false)));
    assert!(r.messages.is_empty());
    assert_eq!(a.session.current_pursuit, Some(goal("ship", false)));
    turn(&mut a, &mut r, TurnEvent::PursuitUpdated(goal("ship", false)));
    assert!(r.messages.is_empty());
    turn(&mut a, &mut r, TurnEvent::PursuitUpdated(goal("test", false)));
    assert_eq!(notice(&r.messages[0]), (NoticeSeverity::Info, "pursue · test"));
    turn(&mut a, &mut r, TurnEvent::PursuitUpdated(goal("test", true)));
    assert_eq!(
        notice(&r.messages[1]),
        (NoticeSeverity::Info, "✓ pursuit complete · test")
    );
    turn(&mut a, &mut r, TurnEvent::PursuitCleared);
    assert_eq!(a.session.current_pursuit, None);
}

#[test]
fn responses_outside_a_turn() {
    let (mut a, mut r) = (app(), runtime());
    answer(
        &mut a,
        &mut r,
        AgentResponse::ParentStatus(ParentStatus::AwaitingUser),
    );
    assert_eq!(r.parent_status, ParentStatus::AwaitingUser);
    r.pending_permission.push_back(request("p"));
    r.activity_status = "awaiting permission".to_string();
    answer(&mut a, &mut r, AgentResponse::PermissionsCleared);
    assert!(r.pending_permission.is_empty());
    assert_eq!(r.activity_status, "");
    answer(
        &mut a,
        &mut r,
        AgentResponse::ProviderKeys(vec![("openai".to_string(), false)]),
    );
    assert_eq!(a.picker.key_status, vec![("openai".to_string(), false)]);
    answer(
        &mut a,
        &mut r,
        AgentResponse::ProviderPicker(ProviderPickerSnapshot {
            default_id: "d".to_string(),
            rows: Vec::new(),
        }),
    );
    assert_eq!(a.picker.provider_picker.default_id, "d");
    answer(
        &mut a,
        &mut r,
        AgentResponse::ConversationReplaced(vec![TranscriptMessage::new(
            Role::User,
            "restored".to_string(),
        )]),
    );
    assert_eq!(r.messages[0].raw, "restored");
    answer(
        &mut a,
        &mut r,
        AgentResponse::ProviderSwitched {
            provider: "p".to_string(),
            model: "m".to_string(),
        },
    );
    assert_eq!(a.session.current_provider, "p");
    assert_eq!(a.session.current_model, "m");
    assert_eq!(
        notice(&r.messages[1]),
        (NoticeSeverity::Info, "Provider switched to p (m)")
    );
    answer(&mut a, &mut r, AgentResponse::Error("bad".to_string()));
    assert_eq!(notice(&r.messages[2]), (NoticeSeverity::Error, "bad"));
    answer(&mut a, &mut r, AgentResponse::ConversationCleared);
    assert!(r.messages.is_empty());
    answer(
        &mut a,
        &mut r,
        AgentResponse::SessionsOverview(vec![SessionOverview {
            id: "s".to_string(),
            title: String::new(),
        }]),
    );
    assert!(r.open_sessions);
    assert_eq!(a.session.sessions_overview.len(), 1);
    answer(
        &mut a,
        &mut r,
        AgentResponse::SessionContext(SessionContextSnapshot {
            tools: Vec::new(),
            permissions: Vec::new(),
        }),
    );
    assert!(a.session.session_context.is_some());
    assert!(!a.should_quit);
    answer(&mut a, &mut r, AgentResponse::Exit);
    assert!(a.should_quit);
}

fn shown(a: &mut App, r: &UiRuntime) {
    a.permission.pending_permission = r.pending_permission.front().cloned();
    a.overlay.active_modal = Modal::Permission;
}

fn replies(a: &App) -> Vec<(&str, PermissionDecision, Option<&str>)> {
    a.outbox
        .iter()
        .filter_map(|effect| match effect {
            Effect::Send(AgentRequest::PermissionReply {
                request_id,
                decision,
                parent_call_id,
            }) => Some((request_id.as_str(), *decision, parent_call_id.as_deref())),
            _ => None,
        })
        .collect()
}

#[test]
fn an_envoys_request_is_answered_by_way_of_its_call() {
    let (mut a, mut r) = (app(), runtime());
    turn(&mut a, &mut r, TurnEvent::PermissionRequest(request("p1")));
    assert_eq!(r.activity_status, "awaiting permission");
    turn(
        &mut a,
        &mut r,
        TurnEvent::Envoy {
            parent_call_id: "task".to_string(),
            event: EnvoyEvent::PermissionRequest(request("p2")),
        },
    );
    shown(&mut a, &r);
    handle_permission_submit(&mut a, &mut r);
    assert_eq!(a.overlay.active_modal, Modal::Permission);
    assert_eq!(a.permission.pending_permission, Some(request("p2")));
    a.overlay.modal_index = 1;
    handle_permission_submit(&mut a, &mut r);
    assert!(a.permission.permission_confirm_always);
    assert_eq!(replies(&a).len(), 1);
    handle_permission_submit(&mut a, &mut r);
    assert_eq!(
        replies(&a),
        vec![
            ("p1", PermissionDecision::Once, None),
            ("p2", PermissionDecision::Always, Some("task"))
        ]
    );
    assert!(r.pending_permission.is_empty());
    assert!(r.envoy_permission_parent.is_empty());
    assert_eq!(a.overlay.active_modal, Modal::Closed);
}

#[test]
fn backing_out_of_always_keeps_the_request() {
    let (mut a, mut r) = (app(), runtime());
    turn(&mut a, &mut r, TurnEvent::PermissionRequest(request("p1")));
    shown(&mut a, &r);
    a.overlay.modal_index = 3;
    handle_permission_submit(&mut a, &mut r);
    assert!(a.permission.permission_show_details);
    a.overlay.modal_index = 1;
    handle_permission_submit(&mut a, &mut r);
    a.overlay.modal_index = 1;
    handle_permission_submit(&mut a, &mut r);
    assert!(!a.permission.permission_confirm_always);
    assert_eq!(r.pending_permission.len(), 1);
    assert!(replies(&a).is_empty());
}

#[test]
fn a_rejection_answers_all_requests() {
    for dismissed in [true, false] {
        let (mut a, mut r) = (app(), runtime());
        turn(&mut a, &mut r, TurnEvent::PermissionRequest(request("p1")));
        turn(
            &mut a,
            &mut r,
            TurnEvent::Envoy {
                parent_call_id: "task".to_string(),
                event: EnvoyEvent::PermissionRequest(request("p2")),
            },
        );
        shown(&mut a, &r);
        if dismissed {
            handle_permission_reject(&mut a, &mut r);
        } else {
            a.overlay.modal_index = 2;
            handle_permission_submit(&mut a, &mut r);
        }
        assert_eq!(
            replies(&a),
            vec![
                ("p1", PermissionDecision::Reject, None),
                ("p2", PermissionDecision::Reject, Some("task")),
            ]
        );
        assert!(r.pending_permission.is_empty());
        assert!(r.envoy_permission_parent.is_empty());
        assert!(a.permission.pending_permission.is_none());
        assert_eq!(a.overlay.active_modal, Modal::Closed);
    }
}

#[test]
fn answers_to_questions_find_their_way() {
    let (mut a, mut r) = (app(), runtime());
    turn(
        &mut a,
        &mut r,
        TurnEvent::Envoy {
            parent_call_id: "task".to_string(),
            event: EnvoyEvent::UserQuestionRequest(question("q1")),
        },
    );
    turn(
        &mut a,
        &mut r,
        TurnEvent::UserQuestionRequest(question("q2")),
    );
    assert_eq!(r.activity_status, "awaiting user input");
    a.overlay.active_modal = Modal::Question;
    apply_question_effects(
        &mut a,
        &mut r,
        vec![
            QuestionEffect::Reply {
                request_id: "q1".to_string(),
                answers: vec!["yes".to_string()],
            },
            QuestionEffect::Closed {
                request_id: "q1".to_string(),
            },
        ],
    );
    assert!(matches!(
        a.outbox.as_slice(),
        [Effect::Send(AgentRequest::UserQuestionReply { request_id, answers, parent_call_id })]
            if request_id == "q1"
                && answers == &vec!["yes".to_string()]
                && parent_call_id.as_deref() == Some("task")
    ));
    assert_eq!(r.pending_question.len(), 1);
    assert_eq!(a.overlay.active_modal, Modal::Question);
    apply_question_effects(
        &mut a,
        &mut r,
        vec![QuestionEffect::Closed {
            request_id: "q2".to_string(),
        }],
    );
    assert!(r.pending_question.is_empty());
    assert_eq!(a.overlay.active_modal, Modal::Closed);
    assert!(a.question.is_none());
}

#[test]
fn rejecting_an_envoy_request_answers_it_once_with_its_parent() {
    let (mut a, mut r) = (app(), runtime());
    turn(
        &mut a,
        &mut r,
        TurnEvent::Envoy {
            parent_call_id: "task".to_string(),
            event: EnvoyEvent::PermissionRequest(request("p1")),
        },
    );
    turn(&mut a, &mut r, TurnEvent::PermissionRequest(request("p2")));
    turn(&mut a, &mut r, TurnEvent::PermissionRequest(request("p3")));
    shown(&mut a, &r);
    a.overlay.modal_index = 2;
    handle_permission_submit(&mut a, &mut r);
    assert_eq!(
        replies(&a),
        vec![
            ("p1", PermissionDecision::Reject, Some("task")),
            ("p2", PermissionDecision::Reject, None),
            ("p3", PermissionDecision::Reject, None),
        ]
    );
    assert!(r.pending_permission.is_empty());
    assert!(r.envoy_permission_parent.is_empty());
}

#[test]
fn a_reply_alone_removes_its_question() {
    let (mut a, mut r) = (app(), runtime());
    turn(&mut a, &mut r, TurnEvent::UserQuestionRequest(question("q1")));
    turn(&mut a, &mut r, TurnEvent::UserQuestionRequest(question("q2")));
    a.overlay.active_modal = Modal::Question;
    apply_question_effects(
        &mut a,
        &mut r,
        vec![QuestionEffect::Reply {
            request_id: "q1".to_string(),
            answers: Vec::new(),
        }],
    );
    assert_eq!(r.pending_question.len(), 1);
    assert_eq!(r.pending_question[0].id, "q2");
    assert_eq!(a.outbox.len(), 1);
    assert_eq!(a.overlay.active_modal, Modal::Question);
}
