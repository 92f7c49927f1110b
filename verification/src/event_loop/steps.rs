//! What happens when the user activates a step of the transcript.
use crate::app::focus::in_view;
use crate::app::focus::pin_steps_in_view;
use crate::app::focus::resolve_focused;
use crate::app::focus::step_pinned;
use crate::app::focus::view_replaced;
use crate::app::navigate::can_toggle;
use crate::app::navigate::entered_envoy;
use crate::app::navigate::focused;
use crate::app::navigate::toggled_step;
use crate::app::App;
use crate::app::Effect;
use crate::app::SessionMirror;
use crate::app::TranscriptView;
use crate::app::ZoomFrame;
use crate::document::MessageKind;
use crate::document::TranscriptMessage;
use crate::event_loop::UiRuntime;
use crate::layout::InteractiveTargetKind;
use crate::selection::SelectionState;
use vstd::prelude::*;

verus! {

/// The call id of the envoy task at `mi` of the messages in view.
pub open spec fn task_at(
    messages: Seq<TranscriptMessage>,
    stack: Seq<ZoomFrame>,
    mi: usize,
) -> Option<String> {
    let shown = in_view(messages, stack);
    if mi < shown.len() {
        match shown[mi as int].kind {
            MessageKind::ToolStep(step) => if step.children is Some {
                Some(step.id)
            } else {
                None
            },
            _ => None,
        }
    } else {
        None
    }
}

fn find_task_at(app: &App, runtime: &UiRuntime, mi: usize) -> (id: Option<String>)
    ensures
        id == task_at(runtime.messages@, app.view.focus_stack@, mi),
{
    match resolve_focused(&runtime.messages, &app.view.focus_stack, mi) {
        Some(message) => match &message.kind {
            MessageKind::ToolStep(step) => {
                if step.children.is_some() {
                    Some(step.id.clone())
                } else {
                    None
                }
            },
            _ => None,
        },
        None => None,
    }
}

/// Whether a step was unfolded or folded: `a` and `r` became `b` and `s`.
pub open spec fn toggled(a: App, r: UiRuntime, mi: usize, b: App, s: UiRuntime) -> bool {
    &&& toggled_step(a, r.messages@, mi, b, s.messages@)
    &&& s == (UiRuntime { messages: s.messages, ..r })
}

/// Whether the step at `mi` was unfolded or folded and, if there was one, the
/// selection dropped.
pub open spec fn toggled_and_deselected(
    a: App,
    r: UiRuntime,
    mi: usize,
    b: App,
    s: UiRuntime,
) -> bool {
    let selection = if can_toggle(a, r.messages@, mi) {
        SelectionState::Empty
    } else {
        a.view.selection
    };
    &&& b.view.selection == selection
    &&& toggled(App { view: TranscriptView { selection, ..a.view }, ..a }, r, mi, b, s)
}

/// Unfolds or folds the step at `mi` and, if there was one, drops the
/// selection.
pub fn toggle_and_deselect(app: &mut App, runtime: &mut UiRuntime, mi: usize)
    ensures
        toggled_and_deselected(*old(app), *old(runtime), mi, *final(app), *final(runtime)),
{
    if app.toggle_step_pinned(&mut runtime.messages, mi) {
        app.view.selection = SelectionState::Empty;
    }
}

/// Whether the step at `mi` was opened: an envoy task is entered, another
/// step unfolded or folded.
pub open spec fn step_opened(a: App, r: UiRuntime, mi: usize, b: App, s: UiRuntime) -> bool {
    match task_at(r.messages@, a.view.focus_stack@, mi) {
        Some(id) => entered_envoy(a, id, b) && s == r,
        None => toggled(a, r, mi, b, s),
    }
}

/// Enters the envoy task at `mi`, or unfolds or folds another step.
pub fn open_step(app: &mut App, runtime: &mut UiRuntime, mi: usize)
    ensures
        step_opened(*old(app), *old(runtime), mi, *final(app), *final(runtime)),
{
    match find_task_at(app, runtime, mi) {
        Some(id) => app.enter_envoy(id),
        None => {
            let _ = app.toggle_step_pinned(&mut runtime.messages, mi);
        },
    }
}

/// Whether the selected step was opened; a selection that spans messages
/// opens nothing.
pub open spec fn selected_step_opened(a: App, r: UiRuntime, b: App, s: UiRuntime) -> bool {
    match a.view.selection.normalized() {
        Some((start, end)) => if start.message_idx == end.message_idx {
            match task_at(r.messages@, a.view.focus_stack@, start.message_idx) {
                Some(id) => entered_envoy(a, id, b) && s == r,
                None => toggled_and_deselected(a, r, start.message_idx, b, s),
            }
        } else {
            b == a && s == r
        },
        None => b == a && s == r,
    }
}

/// Opens the selected step.
pub fn open_selected_step(app: &mut App, runtime: &mut UiRuntime)
    ensures
        selected_step_opened(*old(app), *old(runtime), *final(app), *final(runtime)),
{
    if let Some((start, end)) = app.view.selection.active_normalized_range() {
        if start.message_idx == end.message_idx {
            match find_task_at(app, runtime, start.message_idx) {
                Some(id) => app.enter_envoy(id),
                None => toggle_and_deselect(app, runtime, start.message_idx),
            }
        }
    }
}

/// Whether the focused target was activated: an envoy task is entered, the
/// output of another tool step shown, a reasoning trace unfolded or folded.
pub open spec fn target_activated(a: App, r: UiRuntime, b: App, s: UiRuntime) -> bool {
    match a.view.focused_target {
        Some(target) => match target.kind {
            InteractiveTargetKind::ToolStep => match task_at(
                r.messages@,
                a.view.focus_stack@,
                target.message_idx,
            ) {
                Some(id) => entered_envoy(a, id, b) && s == r,
                None => {
                    &&& s == r
                    &&& b.outbox@ == a.outbox@.push(Effect::OpenStepDetail(target.message_idx))
                    &&& b == (App { outbox: b.outbox, ..a })
                },
            },
            InteractiveTargetKind::Thinking => toggled_and_deselected(
                a,
                r,
                target.message_idx,
                b,
                s,
            ),
        },
        None => b == a && s == r,
    }
}

/// Activates the focused target.
pub fn activate_focused_target(app: &mut App, runtime: &mut UiRuntime)
    ensures
        target_activated(*old(app), *old(runtime), *final(app), *final(runtime)),
{
    if let Some(target) = app.view.focused_target {
        match target.kind {
            InteractiveTargetKind::ToolStep => match find_task_at(
                app,
                runtime,
                target.message_idx,
            ) {
                Some(id) => app.enter_envoy(id),
                None => app.outbox.push(Effect::OpenStepDetail(target.message_idx)),
            },
            InteractiveTargetKind::Thinking => toggle_and_deselect(
                app,
                runtime,
                target.message_idx,
            ),
        }
    }
}

/// Whether a message is a folded tool step other than an envoy task.
pub open spec fn is_folded_step(message: TranscriptMessage) -> bool {
    message.kind matches MessageKind::ToolStep(step) && step.children is None && !step.expanded
}

/// Whether the user sees a folded tool step.
pub open spec fn any_folded(messages: Seq<TranscriptMessage>) -> bool {
    exists|i: int| 0 <= i < messages.len() && is_folded_step(#[trigger] messages[i])
}

fn has_folded_step(messages: &[TranscriptMessage]) -> (found: bool)
    ensures
        found == any_folded(messages@),
{
    let count: usize = messages.len();
    let mut i: usize = 0;
    while i < count
        invariant
            i <= count,
            count == messages@.len(),
            forall|k: int| 0 <= k < i ==> !is_folded_step(#[trigger] messages@[k]),
        decreases count - i,
    {
        if !messages[i].is_envoy_task() {
            if let Some(expanded) = messages[i].tool_step_expanded() {
                if !expanded {
                    assert(is_folded_step(messages@[i as int]));
                    return true;
                }
            }
        }
        i += 1;
    }
    false
}

/// Whether all tool steps in view were unfolded or folded: they unfold if the
/// user sees a folded one. Steps to come follow the choice.
pub open spec fn steps_toggled(a: App, r: UiRuntime, b: App, s: UiRuntime) -> bool {
    let expand = any_folded(focused(a.view));
    &&& view_replaced(
        r.messages@,
        a.view.focus_stack@,
        in_view(r.messages@, a.view.focus_stack@).map_values(
            |m: TranscriptMessage| step_pinned(m, expand),
        ),
        s.messages@,
    )
    &&& s == (UiRuntime { messages: s.messages, ..r })
    &&& b == (App {
        session: SessionMirror { tool_density: expand, ..a.session },
        view: TranscriptView { selection: SelectionState::Empty, ..a.view },
        ..a
    })
}

/// Unfolds or folds all tool steps in view.
pub fn toggle_tool_steps(app: &mut App, runtime: &mut UiRuntime)
    ensures
        steps_toggled(*old(app), *old(runtime), *final(app), *final(runtime)),
{
    let expand: bool = has_folded_step(app.focused_messages());
    pin_steps_in_view(&mut runtime.messages, &app.view.focus_stack, expand);
    app.session.tool_density = expand;
    app.view.selection = SelectionState::Empty;
}

} // verus!
