//! What moving about in the transcript is for: scrolling, focus, zoom and
//! folding.
use crate::agent::AgentRequest;
use crate::app::App;
use crate::app::Effect;
use crate::app::TranscriptView;
use crate::document::MessageKind;
use crate::document::TranscriptMessage;
use crate::event_loop::dispatch::carried_out;
use crate::event_loop::dispatch::on_scrolling;
use crate::event_loop::dispatch::on_viewing;
use crate::event_loop::dispatch::ActionFacts;
use crate::event_loop::frame::frame_finished;
use crate::event_loop::frame::FrameMeasure;
use crate::event_loop::UiRuntime;
use crate::input::InputAction;
use crate::layout::InteractiveTarget;
use crate::layout::InteractiveTargetKind;
use crate::modal::Modal;
use crate::selection::SelectionState;
use vstd::prelude::*;

verus! {

/// Whether an overlay scrolls a body of its own.
pub open spec fn has_body(modal: Modal) -> bool {
    ||| modal == Modal::Tools
    ||| modal == Modal::Mcp
    ||| modal == Modal::Skills
    ||| modal == Modal::Permissions
    ||| modal == Modal::Config
    ||| modal == Modal::ConfigNudge
    ||| modal == Modal::ConfigLayout
    ||| modal == Modal::HistorySearch
    ||| modal == Modal::Provider
    ||| modal == Modal::Help
    ||| modal == Modal::Activity
    ||| modal == Modal::Question
}

/// `at` lessened by `n`, and no further than to the top.
pub open spec fn less(at: int, n: int) -> int {
    if at >= n {
        at - n
    } else {
        0
    }
}

/// How far a page goes.
pub open spec fn page(view: TranscriptView) -> int {
    if view.view_height >= 2 {
        view.view_height - 1
    } else {
        1
    }
}

/// Scrolling up moves the transcript towards its top by the lines of the step and
/// no further, and lets go of the bottom.
pub proof fn law_scroll_up(
    a: App,
    r: UiRuntime,
    facts: ActionFacts,
    b: App,
    s: UiRuntime,
    n: int,
)
    requires
        !has_body(a.overlay.active_modal),
        (carried_out(a, r, InputAction::ScrollUp, facts, b, s) && n == 4) || (carried_out(
            a,
            r,
            InputAction::ScrollPageUp,
            facts,
            b,
            s,
        ) && n == page(a.view)),
    ensures
        b.view.scroll == less(a.view.scroll as int, n),
        !b.view.follow_bottom,
        b.overlay == a.overlay,
        s == r,
{
    reveal(on_scrolling);
}

/// Scrolling down moves the transcript towards its bottom and no further, and
/// follows the newest content again once the bottom is reached.
pub proof fn law_scroll_down(
    a: App,
    r: UiRuntime,
    facts: ActionFacts,
    b: App,
    s: UiRuntime,
    n: int,
)
    requires
        !has_body(a.overlay.active_modal),
        (carried_out(a, r, InputAction::ScrollDown, facts, b, s) && n == 4) || (carried_out(
            a,
            r,
            InputAction::ScrollPageDown,
            facts,
            b,
            s,
        ) && n == page(a.view)),
    ensures
        a.view.scroll + n < a.view.max_scroll ==> b.view.scroll == a.view.scroll + n
            && b.view.follow_bottom == a.view.follow_bottom,
        a.view.scroll + n >= a.view.max_scroll ==> b.view.scroll == a.view.max_scroll
            && b.view.follow_bottom,
        b.overlay == a.overlay,
        s == r,
{
    reveal(on_scrolling);
}

/// The jumps go to the very top and to the very bottom, where the newest content
/// is followed.
pub proof fn law_scroll_ends(a: App, r: UiRuntime, facts: ActionFacts, b: App, s: UiRuntime)
    requires
        !has_body(a.overlay.active_modal),
    ensures
        carried_out(a, r, InputAction::ScrollTop, facts, b, s) ==> b.view.scroll == 0
            && !b.view.follow_bottom,
        carried_out(a, r, InputAction::ScrollBottom, facts, b, s) ==> b.view.scroll
            == a.view.max_scroll && b.view.follow_bottom,
{
    reveal(on_scrolling);
}

/// While an overlay has a body, scrolling moves that body and leaves the
/// transcript alone.
pub proof fn law_scroll_moves_open_body(
    a: App,
    r: UiRuntime,
    up: bool,
    facts: ActionFacts,
    b: App,
    s: UiRuntime,
)
    requires
        has_body(a.overlay.active_modal),
        carried_out(
            a,
            r,
            if up {
                InputAction::ScrollUp
            } else {
                InputAction::ScrollDown
            },
            facts,
            b,
            s,
        ),
    ensures
        ({
            let modal = a.overlay.active_modal;
            let step = |at: usize, to: usize|
                if up {
                    to == less(at as int, 1)
                } else {
                    at < usize::MAX ==> to == at + 1
                };
            &&& b.view == a.view
            &&& b.overlay.active_modal == modal
            &&& modal == Modal::Help ==> step(a.overlay.help_scroll, b.overlay.help_scroll)
            &&& modal == Modal::Activity ==> step(
                a.overlay.activity_scroll,
                b.overlay.activity_scroll,
            )
            &&& modal == Modal::Permissions ==> step(
                a.overlay.permissions_scroll,
                b.overlay.permissions_scroll,
            )
            &&& modal == Modal::Config || modal == Modal::ConfigNudge || modal
                == Modal::ConfigLayout ==> step(a.overlay.config_scroll, b.overlay.config_scroll)
            &&& modal == Modal::Tools || modal == Modal::Mcp || modal == Modal::Skills ==> step(
                a.overlay.session_scroll,
                b.overlay.session_scroll,
            ) && !b.overlay.session_modal_follow
            &&& modal == Modal::HistorySearch ==> step(
                a.overlay.history_scroll,
                b.overlay.history_scroll,
            ) && !b.overlay.history_modal_follow
            &&& modal == Modal::Question ==> step(
                a.overlay.question_scroll,
                b.overlay.question_scroll,
            ) && !b.overlay.question_modal_follow
            &&& modal == Modal::Provider ==> step(a.picker.model_scroll, b.picker.model_scroll)
                && !b.picker.model_modal_follow
        }),
{
    reveal(on_scrolling);
}

/// The details of the permission sheet scroll by a line and stay in bounds.
pub proof fn law_details_scroll(a: App, r: UiRuntime, facts: ActionFacts, b: App, s: UiRuntime)
    requires
        a.permission.permission_scroll <= a.permission.permission_max_scroll,
    ensures
        carried_out(a, r, InputAction::PermissionDetailsUp, facts, b, s)
            ==> b.permission.permission_scroll == less(
            a.permission.permission_scroll as int,
            1,
        ) && b.view == a.view,
        carried_out(a, r, InputAction::PermissionDetailsDown, facts, b, s)
            ==> b.permission.permission_scroll == (if a.permission.permission_scroll
            < a.permission.permission_max_scroll {
            a.permission.permission_scroll + 1
        } else {
            a.permission.permission_scroll as int
        }) && b.view == a.view,
{
    reveal(on_scrolling);
}

/// A frame that was drawn says how far the transcript scrolls: the lines that do
/// not fit. A position that the user chose is pulled back into that range.
pub proof fn law_frame_measures_bottom(a: App, m: FrameMeasure)
    requires
        m.content_lines <= u16::MAX,
        a.view.pin_summary_line is None,
    ensures
        ({
            let b = frame_finished(a, m);
            let bottom = less(m.content_lines as int, m.view_height as int);
            &&& b.view.max_scroll == bottom
            &&& !a.view.follow_bottom && a.view.scroll > bottom ==> b.view.scroll == bottom
            &&& !a.view.follow_bottom && a.view.scroll <= bottom ==> b.view.scroll
                == a.view.scroll
            &&& b.view.follow_bottom == a.view.follow_bottom
            &&& b.screen.layout_map == m.layout_map
            &&& b.screen.todos_rect == m.todos_rect
            &&& b.screen.activity_rect == m.activity_rect
            &&& b.screen.hint_context_rect == m.hint_context_rect
            &&& b.screen.modal_rect == (if m.modal_dismissable {
                m.modal_rect
            } else {
                None
            })
        }),
{
}

/// Clearing the focus gives the keys back to the prompt and changes nothing else.
pub proof fn law_focus_is_cleared(a: App, r: UiRuntime, facts: ActionFacts, b: App, s: UiRuntime)
    requires
        carried_out(a, r, InputAction::ClearFocusedTarget, facts, b, s),
    ensures
        b.view.focused_target is None,
        b.composer == a.composer,
        b.view.scroll == a.view.scroll,
        s == r,
{
    reveal(on_viewing);
}

/// Moving the focus goes to a target on screen: from none to the first one, or
/// backward to the last one, then one by one and around at the ends.
pub proof fn law_focus_moves_over_screen(
    a: App,
    r: UiRuntime,
    i: int,
    facts: ActionFacts,
    b: App,
    s: UiRuntime,
)
    requires
        a.view.sticky_step is None,
        crate::layout::targets_in_order(a.screen.layout_map@.regions).len() > 0,
        a.view.focused_target is None || (0 <= i < crate::layout::targets_in_order(
            a.screen.layout_map@.regions,
        ).len() && a.view.focused_target == Some(
            crate::layout::targets_in_order(a.screen.layout_map@.regions)[i],
        )),
    ensures
        ({
            let targets = crate::layout::targets_in_order(a.screen.layout_map@.regions);
            let n = targets.len() as int;
            let ahead = carried_out(a, r, InputAction::FocusNextTarget, facts, b, s);
            let back = carried_out(a, r, InputAction::FocusPrevTarget, facts, b, s);
            &&& ahead && a.view.focused_target is None ==> b.view.focused_target == Some(
                targets[0],
            )
            &&& back && a.view.focused_target is None ==> b.view.focused_target == Some(
                targets[n - 1],
            )
            &&& ahead && a.view.focused_target is Some && i + 1 < n ==> b.view.focused_target
                == Some(targets[i + 1])
            &&& ahead && a.view.focused_target is Some && i + 1 == n ==> b.view.focused_target
                == Some(targets[0])
            &&& back && a.view.focused_target is Some && i > 0 ==> b.view.focused_target == Some(
                targets[i - 1],
            )
            &&& back && a.view.focused_target is Some && i == 0 ==> b.view.focused_target == Some(
                targets[n - 1],
            )
            &&& ahead || back ==> b.view.selection == SelectionState::Empty && b.composer
                == a.composer && s == r
        }),
{
    reveal(on_viewing);
    let targets = crate::layout::targets_in_order(a.screen.layout_map@.regions);
    crate::layout::law_targets_are_complete(a.screen.layout_map@.regions);
    if let Some(target) = a.view.focused_target {
        assert(targets[i] == target);
        assert(targets.contains(target));
        targets.index_of_first_ensures(target);
        assert(targets.index_of_first(target)->Some_0 == i);
    }
}

/// Leaving an envoy view shows the parent view as it was scrolled when it was
/// left; leaving the side view tells the agent.
pub proof fn law_views_are_left(a: App, r: UiRuntime, facts: ActionFacts, b: App, s: UiRuntime)
    ensures
        carried_out(a, r, InputAction::ExitEnvoy, facts, b, s) && a.view.focus_stack@.len() > 0
            ==> b.view.focus_stack@ == a.view.focus_stack@.drop_last() && b.view.scroll
            == a.view.focus_stack@.last().saved_scroll.offset && b.view.follow_bottom
            == a.view.focus_stack@.last().saved_scroll.follow_bottom && b.outbox == a.outbox,
        carried_out(a, r, InputAction::ExitEnvoy, facts, b, s) && a.view.focus_stack@.len() == 0
            ==> b == a,
        carried_out(a, r, InputAction::ExitSideView, facts, b, s) && a.view.in_side_view
            ==> !b.view.in_side_view && b.view.side_session_id is None && b.outbox@
            == a.outbox@.push(Effect::Send(AgentRequest::ExitSideView)),
        carried_out(a, r, InputAction::ExitSideView, facts, b, s) && !a.view.in_side_view ==> b
            == a,
{
    reveal(on_viewing);
}

/// The id of the envoy task in a message.
pub open spec fn task_of(message: TranscriptMessage) -> Option<Seq<char>> {
    match message.kind {
        MessageKind::ToolStep(step) => if step.children is Some {
            Some(step.id@)
        } else {
            None
        },
        _ => None,
    }
}

/// `Enter` on a focused step of the main transcript enters an envoy task, shows
/// the details of another call, and unfolds or folds a reasoning trace.
pub proof fn law_focused_step_is_activated(
    a: App,
    r: UiRuntime,
    target: InteractiveTarget,
    facts: ActionFacts,
    b: App,
    s: UiRuntime,
)
    requires
        a.view.focus_stack@.len() == 0,
        a.view.focused_target == Some(target),
        target.message_idx < r.messages@.len(),
        carried_out(a, r, InputAction::ActivateFocusedTarget, facts, b, s),
    ensures
        ({
            let mi = target.message_idx as int;
            let message = r.messages@[mi];
            let task = task_of(message);
            &&& target.kind == InteractiveTargetKind::ToolStep && task is Some
                ==> b.view.focus_stack@.len() == 1 && b.view.focus_stack@[0].call_id@
                == task->Some_0 && b.view.focus_stack@[0].saved_scroll.offset == a.view.scroll
                && b.view.focus_stack@[0].saved_scroll.follow_bottom == a.view.follow_bottom && s
                == r
            &&& target.kind == InteractiveTargetKind::ToolStep && task is None ==> b.outbox@
                == a.outbox@.push(Effect::OpenStepDetail(target.message_idx)) && s == r
            &&& target.kind == InteractiveTargetKind::Thinking && message.kind is Thinking
                ==> s.messages@.len() == r.messages@.len() && s.messages@[mi].kind is Thinking
                && s.messages@[mi].kind->Thinking_0.expanded
                == !message.kind->Thinking_0.expanded && s.messages@[mi].kind->Thinking_0.pinned
                && s.messages@[mi].kind->Thinking_0.content == message.kind->Thinking_0.content
                && b.outbox == a.outbox && forall|k: int|
                0 <= k < r.messages@.len() && k != mi ==> #[trigger] s.messages@[k]
                    == r.messages@[k]
        }),
{
    reveal(on_viewing);
}

/// Control+T unfolds every call in view while one of them is folded, and folds
/// them all once none is; messages that are no calls and envoy tasks stay, and new
/// calls follow the choice.
pub proof fn law_all_steps_fold_together(
    a: App,
    r: UiRuntime,
    facts: ActionFacts,
    b: App,
    s: UiRuntime,
)
    requires
        a.view.focus_stack@.len() == 0,
        !a.view.in_side_view,
        a.view.messages@.len() == r.messages@.len(),
        forall|k: int|
            0 <= k < r.messages@.len() ==> (#[trigger] a.view.messages@[k]).kind
                == r.messages@[k].kind,
        carried_out(a, r, InputAction::ToggleToolSteps, facts, b, s),
    ensures
        ({
            let folded = exists|k: int|
                0 <= k < r.messages@.len() && (#[trigger] r.messages@[k]).kind is ToolStep
                    && r.messages@[k].kind->ToolStep_0.children is None
                    && !r.messages@[k].kind->ToolStep_0.expanded;
            &&& s.messages@.len() == r.messages@.len()
            &&& b.session.tool_density == folded
            &&& forall|k: int|
                0 <= k < r.messages@.len() && (#[trigger] r.messages@[k]).kind is ToolStep
                    && r.messages@[k].kind->ToolStep_0.children is None
                    ==> s.messages@[k].kind is ToolStep
                    && s.messages@[k].kind->ToolStep_0.expanded == folded
                    && s.messages@[k].kind->ToolStep_0.output
                    == r.messages@[k].kind->ToolStep_0.output
            &&& forall|k: int|
                0 <= k < r.messages@.len() && (!((#[trigger] r.messages@[k]).kind is ToolStep)
                    || r.messages@[k].kind->ToolStep_0.children is Some) ==> s.messages@[k]
                    == r.messages@[k]
        }),
{
    reveal(on_viewing);
    let shown = a.view.messages@;
    let folded = exists|k: int|
        0 <= k < r.messages@.len() && (#[trigger] r.messages@[k]).kind is ToolStep
            && r.messages@[k].kind->ToolStep_0.children is None
            && !r.messages@[k].kind->ToolStep_0.expanded;
    assert(crate::event_loop::steps::any_folded(shown) == folded) by {
        if crate::event_loop::steps::any_folded(shown) {
            let k = choose|k: int|
                0 <= k < shown.len() && crate::event_loop::steps::is_folded_step(
                    #[trigger] shown[k],
                );
            assert(shown[k].kind == r.messages@[k].kind);
        }
        if folded {
            let k = choose|k: int|
                0 <= k < r.messages@.len() && (#[trigger] r.messages@[k]).kind is ToolStep
                    && r.messages@[k].kind->ToolStep_0.children is None
                    && !r.messages@[k].kind->ToolStep_0.expanded;
            assert(shown[k].kind == r.messages@[k].kind);
            assert(crate::event_loop::steps::is_folded_step(shown[k]));
        }
    }
}

} // verus!
