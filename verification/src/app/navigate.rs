//! Moving through the transcript: focus, envoy views and the side view.
use crate::agent::ParentStatus;
use crate::app::focus::in_view;
use crate::app::focus::messages_in_view;
use crate::app::focus::resolve_focused;
use crate::app::focus::resolve_focused_mut;
use crate::app::focus::view_replaced;
use crate::app::App;
use crate::app::ScrollSnapshot;
use crate::app::TranscriptView;
use crate::app::ZoomFrame;
use crate::document::MessageKind;
use crate::document::TranscriptMessage;
use crate::layout::has_target;
use crate::layout::targets_in_order;
use crate::layout::thinking_target;
use crate::layout::tool_step_target;
use crate::layout::InteractiveTarget;
use crate::modal::Modal;
use crate::selection::idle_drag;
use crate::selection::SelectionState;
use crate::text::same_text;
use vstd::prelude::*;

verus! {

/// The messages that the user sees.
pub open spec fn focused(view: TranscriptView) -> Seq<TranscriptMessage> {
    if view.in_side_view {
        view.side_messages@
    } else {
        in_view(view.messages@, view.focus_stack@)
    }
}

/// What the message at `mi` offers for activation.
pub open spec fn target_in(messages: Seq<TranscriptMessage>, mi: usize) -> Option<
    InteractiveTarget,
> {
    if mi >= messages.len() {
        None
    } else {
        match messages[mi as int].kind {
            MessageKind::Thinking(_) => Some(thinking_target(mi)),
            MessageKind::ToolStep(_) => Some(tool_step_target(mi)),
            _ => None,
        }
    }
}

/// What the message at `mi` offers for activation.
pub fn message_target(messages: &[TranscriptMessage], mi: usize) -> (target: Option<
    InteractiveTarget,
>)
    ensures
        target == target_in(messages@, mi),
{
    if mi >= messages.len() {
        return None;
    }
    if messages[mi].is_thinking() {
        Some(InteractiveTarget::thinking(mi))
    } else if messages[mi].is_tool_step() {
        Some(InteractiveTarget::tool_step(mi))
    } else {
        None
    }
}

/// The targets on screen: the pinned header first, where the layout does not
/// show its step, then those of the layout in reading order.
pub open spec fn targets_on_screen(app: App) -> Seq<InteractiveTarget> {
    let targets = targets_in_order(app.screen.layout_map@.regions);
    let pinned = match app.view.sticky_step {
        Some(mi) => target_in(focused(app.view), mi),
        None => None,
    };
    match pinned {
        Some(target) => if targets.contains(target) {
            targets
        } else {
            targets.insert(0, target)
        },
        None => targets,
    }
}

/// The position of the focused target among `targets`.
pub open spec fn focus_position(
    targets: Seq<InteractiveTarget>,
    focused: Option<InteractiveTarget>,
) -> Option<int> {
    match focused {
        Some(target) => if targets.contains(target) {
            Some(targets.index_of_first(target)->Some_0)
        } else {
            None
        },
        None => None,
    }
}

/// The position that the focus moves to, wrapping at the ends; from no focus
/// it enters at the end it comes from.
pub open spec fn next_position(current: Option<int>, backward: bool, count: int) -> int {
    match current {
        Some(i) => if backward {
            if i == 0 {
                count - 1
            } else {
                i - 1
            }
        } else if i + 1 == count {
            0
        } else {
            i + 1
        },
        None => if backward {
            count - 1
        } else {
            0
        },
    }
}

/// The view as it is when other messages come into view.
pub open spec fn fresh(view: TranscriptView) -> TranscriptView {
    TranscriptView {
        scroll: 0,
        follow_bottom: true,
        selection: SelectionState::Empty,
        drag: idle_drag(),
        sticky_step: None,
        sticky_rect: None,
        sticky_summary_line: None,
        pin_summary_line: None,
        focused_target: None,
        ..view
    }
}

/// The call ids of the envoy tasks, in order.
pub open spec fn task_ids(messages: Seq<TranscriptMessage>) -> Seq<String>
    decreases messages.len(),
{
    if messages.len() == 0 {
        Seq::empty()
    } else {
        let before = task_ids(messages.drop_last());
        match messages.last().kind {
            MessageKind::ToolStep(step) => if step.children is Some {
                before.push(step.id)
            } else {
                before
            },
            _ => before,
        }
    }
}

/// The first position of `id` in `ids`, or their number.
pub open spec fn position_of(ids: Seq<String>, id: Seq<char>) -> int
    decreases ids.len(),
{
    if ids.len() == 0 {
        0
    } else if ids[0]@ == id {
        0
    } else {
        1 + position_of(ids.drop_first(), id)
    }
}

/// The view's scroll position.
pub open spec fn scroll_of(view: TranscriptView) -> ScrollSnapshot {
    ScrollSnapshot { offset: view.scroll, follow_bottom: view.follow_bottom }
}

/// The view after the user unfolded or folded the step at `mi`: the header
/// stays where the user saw it.
pub open spec fn view_after_toggle(view: TranscriptView, mi: usize) -> TranscriptView {
    if view.sticky_step == Some(mi) {
        match view.sticky_summary_line {
            Some(line) => TranscriptView {
                follow_bottom: false,
                scroll: if line <= u16::MAX {
                    line as u16
                } else {
                    u16::MAX
                },
                pin_summary_line: Some(line),
                ..view
            },
            None => TranscriptView { follow_bottom: false, ..view },
        }
    } else {
        TranscriptView { follow_bottom: false, pin_summary_line: None, ..view }
    }
}

/// Whether `b` is `a` zoomed into the envoy task `call_id`.
pub open spec fn entered_envoy(a: App, call_id: String, b: App) -> bool {
    &&& b.view.focus_stack@ == a.view.focus_stack@.push(
        ZoomFrame { call_id, saved_scroll: scroll_of(a.view) },
    )
    &&& b == (App {
        view: TranscriptView { focus_stack: b.view.focus_stack, ..fresh(a.view) },
        ..a
    })
}

/// Whether `b` is `a` back from its innermost envoy task.
pub open spec fn left_envoy(a: App, b: App) -> bool {
    let frame = a.view.focus_stack@.last();
    &&& b.view.focus_stack@ == a.view.focus_stack@.drop_last()
    &&& b == (App {
        view: TranscriptView {
            focus_stack: b.view.focus_stack,
            scroll: frame.saved_scroll.offset,
            follow_bottom: frame.saved_scroll.follow_bottom,
            ..fresh(a.view)
        },
        ..a
    })
}

/// Whether `b` is `a` in the side conversation `side_id`.
pub open spec fn entered_side_view(a: App, side_id: String, b: App) -> bool {
    &&& b.view.side_messages@ == Seq::<TranscriptMessage>::empty()
    &&& b == (App {
        view: TranscriptView {
            side_session_id: Some(side_id),
            in_side_view: true,
            side_messages: b.view.side_messages,
            parent_status: ParentStatus::Idle,
            ..fresh(a.view)
        },
        ..a
    })
}

/// Whether `b` is `a` back from the side conversation.
pub open spec fn left_side_view(a: App, b: App) -> bool {
    &&& b.view.side_messages@ == Seq::<TranscriptMessage>::empty()
    &&& b == (App {
        view: TranscriptView {
            side_session_id: None,
            in_side_view: false,
            side_messages: b.view.side_messages,
            ..fresh(a.view)
        },
        ..a
    })
}

/// Whether `b` is `a` moved to the sibling task `dir` places on.
pub open spec fn cycled_sibling(a: App, dir: i8, b: App) -> bool {
    let stack = a.view.focus_stack@;
    let ids = task_ids(a.view.messages@);
    let at = position_of(ids, stack.last().call_id@);
    if stack.len() == 0 || at >= ids.len() || ids.len() < 2 {
        b == a
    } else {
        &&& b.view.focus_stack@ == stack.update(
            stack.len() - 1,
            ZoomFrame { call_id: ids[(at + dir) % ids.len() as int], ..stack.last() },
        )
        &&& b == (App {
            view: TranscriptView { focus_stack: b.view.focus_stack, ..fresh(a.view) },
            ..a
        })
    }
}

/// Whether `b` is `a` with the focus on the next or previous target.
pub open spec fn moved_focus(a: App, backward: bool, b: App) -> bool {
    let targets = targets_on_screen(a);
    let at = next_position(
        focus_position(targets, a.view.focused_target),
        backward,
        targets.len() as int,
    );
    b == (App {
        view: if targets.len() == 0 {
            TranscriptView { focused_target: None, ..a.view }
        } else {
            TranscriptView {
                focused_target: Some(targets[at]),
                selection: SelectionState::Empty,
                drag: idle_drag(),
                ..a.view
            }
        },
        ..a
    })
}

/// The state without a focus that an overlay hides or that has left the
/// screen.
pub open spec fn focus_retained(a: App) -> App {
    App {
        view: TranscriptView {
            focused_target: match a.view.focused_target {
                Some(target) => if a.overlay.active_modal == Modal::Closed && targets_on_screen(
                    a,
                ).contains(target) {
                    Some(target)
                } else {
                    None
                },
                None => None,
            },
            ..a.view
        },
        ..a
    }
}

/// Whether the step at `mi` of the messages in view was unfolded or folded:
/// `a` and `before` became `b` and `after`.
pub open spec fn toggled_step(
    a: App,
    before: Seq<TranscriptMessage>,
    mi: usize,
    b: App,
    after: Seq<TranscriptMessage>,
) -> bool {
    let shown = in_view(before, a.view.focus_stack@);
    if can_toggle(a, before, mi) {
        &&& view_replaced(
            before,
            a.view.focus_stack@,
            shown.update(
                mi as int,
                shown[mi as int].with_pinned(!shown[mi as int].disclosure()->Some_0),
            ),
            after,
        )
        &&& b == (App { view: view_after_toggle(a.view, mi), ..a })
    } else {
        after == before && b == a
    }
}

/// Whether the message at `mi` in view can be unfolded or folded.
pub open spec fn can_toggle(a: App, messages: Seq<TranscriptMessage>, mi: usize) -> bool {
    let shown = in_view(messages, a.view.focus_stack@);
    mi < shown.len() && shown[mi as int].disclosure() is Some
}

impl App {
    /// Whether the view is zoomed into an envoy task.
    pub fn in_envoy_view(&self) -> (zoomed: bool)
        ensures
            zoomed == (self.view.focus_stack@.len() > 0),
    {
        self.view.focus_stack.len() > 0
    }

    /// The messages that the user sees.
    pub fn focused_messages(&self) -> (messages: &[TranscriptMessage])
        ensures
            messages@ == focused(self.view),
    {
        if self.view.in_side_view {
            self.view.side_messages.as_slice()
        } else {
            messages_in_view(&self.view.messages, &self.view.focus_stack)
        }
    }

    /// Unfolds or folds the step at `mi` of the messages in view, which
    /// `messages` is the transcript of. Says whether there was one.
    pub fn toggle_step_pinned(&mut self, messages: &mut Vec<TranscriptMessage>, mi: usize) -> (
    toggled: bool)
        ensures
            toggled == can_toggle(*old(self), old(messages)@, mi),
            toggled_step(*old(self), old(messages)@, mi, *final(self), final(messages)@),
    {
        let expanded: bool = match resolve_focused(messages, &self.view.focus_stack, mi) {
            Some(message) => match message.tool_step_expanded() {
                Some(expanded) => expanded,
                None => match message.thinking_expanded() {
                    Some(expanded) => expanded,
                    None => {
                        return false;
                    },
                },
            },
            None => {
                return false;
            },
        };
        if let Some(message) = resolve_focused_mut(messages, &self.view.focus_stack, mi) {
            if message.is_tool_step() {
                message.pin_tool_step_expanded(!expanded);
            } else {
                message.pin_thinking_expanded(!expanded);
            }
        }
        let pinned_to_top: bool = match self.view.sticky_step {
            Some(step) => step == mi,
            None => false,
        };
        self.view.follow_bottom = false;
        if pinned_to_top {
            if let Some(line) = self.view.sticky_summary_line {
                self.view.scroll = if line <= u16::MAX as usize {
                    line as u16
                } else {
                    u16::MAX
                };
                self.view.pin_summary_line = Some(line);
            }
        } else {
            self.view.pin_summary_line = None;
        }
        true
    }

    /// The targets on screen.
    pub fn visible_interactive_targets(&self) -> (targets: Vec<InteractiveTarget>)
        ensures
            targets@ == targets_on_screen(*self),
    {
        let mut targets: Vec<InteractiveTarget> = self.screen.layout_map.interactive_targets();
        if let Some(mi) = self.view.sticky_step {
            if let Some(target) = message_target(self.focused_messages(), mi) {
                if !has_target(&targets, target) {
                    targets.insert(0, target);
                }
            }
        }
        targets
    }

    /// Drops a focus that an overlay hides or that has left the screen.
    pub fn retain_visible_focused_target(&mut self)
        ensures
            *final(self) == focus_retained(*old(self)),
    {
        if self.overlay.active_modal != Modal::Closed {
            self.view.focused_target = None;
            return ;
        }
        if let Some(target) = self.view.focused_target {
            let targets: Vec<InteractiveTarget> = self.visible_interactive_targets();
            if !has_target(&targets, target) {
                self.view.focused_target = None;
            }
        }
    }

    /// Moves the focus to the next or, for a negative direction, the previous
    /// target on screen.
    pub fn focus_interactive_target(&mut self, direction: i8)
        ensures
            moved_focus(*old(self), direction < 0, *final(self)),
    {
        let targets: Vec<InteractiveTarget> = self.visible_interactive_targets();
        let count: usize = targets.len();
        if count == 0 {
            self.view.focused_target = None;
            return ;
        }
        let current: Option<usize> = match self.view.focused_target {
            Some(target) => position_of_target(&targets, target),
            None => None,
        };
        let backward: bool = direction < 0;
        let next: usize = match current {
            Some(i) => if backward {
                if i == 0 {
                    count - 1
                } else {
                    i - 1
                }
            } else if i + 1 == count {
                0
            } else {
                i + 1
            },
            None => if backward {
                count - 1
            } else {
                0
            },
        };
        self.view.focused_target = Some(targets[next]);
        self.view.selection = SelectionState::Empty;
        self.view.drag.cancel();
    }

    /// Starts afresh when other messages come into view.
    pub fn reset_view_state(&mut self)
        ensures
            *final(self) == (App { view: fresh(old(self).view), ..*old(self) }),
    {
        self.view.scroll = 0;
        self.view.follow_bottom = true;
        self.view.selection = SelectionState::Empty;
        self.view.drag.cancel();
        self.view.sticky_step = None;
        self.view.sticky_rect = None;
        self.view.sticky_summary_line = None;
        self.view.pin_summary_line = None;
        self.view.focused_target = None;
    }

    /// Zooms into an envoy task.
    pub fn enter_envoy(&mut self, call_id: String)
        ensures
            entered_envoy(*old(self), call_id, *final(self)),
    {
        let saved_scroll = ScrollSnapshot {
            offset: self.view.scroll,
            follow_bottom: self.view.follow_bottom,
        };
        self.view.focus_stack.push(ZoomFrame { call_id, saved_scroll });
        self.reset_view_state();
    }

    /// Returns from the innermost envoy task to where the view was. Says
    /// whether it was zoomed.
    pub fn exit_envoy(&mut self) -> (left: bool)
        ensures
            left == (old(self).view.focus_stack@.len() > 0),
            !left ==> *final(self) == *old(self),
            left ==> left_envoy(*old(self), *final(self)),
    {
        if self.view.focus_stack.len() == 0 {
            return false;
        }
        match self.view.focus_stack.pop() {
            Some(frame) => {
                self.reset_view_state();
                self.view.scroll = frame.saved_scroll.offset;
                self.view.follow_bottom = frame.saved_scroll.follow_bottom;
                true
            },
            None => false,
        }
    }

    /// Enters the side conversation.
    pub fn enter_side_view(&mut self, side_id: String)
        ensures
            entered_side_view(*old(self), side_id, *final(self)),
    {
        self.view.side_session_id = Some(side_id);
        self.view.in_side_view = true;
        self.view.side_messages = Vec::new();
        self.view.parent_status = ParentStatus::Idle;
        self.reset_view_state();
    }

    /// Leaves the side conversation.
    pub fn exit_side_view(&mut self)
        ensures
            left_side_view(*old(self), *final(self)),
    {
        self.view.in_side_view = false;
        self.view.side_session_id = None;
        self.view.side_messages = Vec::new();
        self.reset_view_state();
    }

    /// Moves to the previous (`dir < 0`) or next (`dir > 0`) sibling of the
    /// innermost envoy task, wrapping at the ends.
    pub fn cycle_sibling(&mut self, dir: i8)
        ensures
            cycled_sibling(*old(self), dir, *final(self)),
    {
        let depth: usize = self.view.focus_stack.len();
        if depth == 0 {
            return ;
        }
        let ids: Vec<String> = list_task_ids(&self.view.messages);
        let n: usize = ids.len();
        let at: usize = find_id(&ids, self.view.focus_stack[depth - 1].call_id.as_str());
        if at >= n || n < 2 {
            return ;
        }
        let next: usize = step_wrapping(at, dir, n);
        let frame = ZoomFrame {
            call_id: ids[next].clone(),
            saved_scroll: self.view.focus_stack[depth - 1].saved_scroll,
        };
        self.view.focus_stack.set(depth - 1, frame);
        self.reset_view_state();
    }
}

/// `at` moved by `dir` around a ring of `n` places.
pub fn step_wrapping(at: usize, dir: i8, n: usize) -> (next: usize)
    requires
        at < n,
    ensures
        next == (at + dir) % (n as int),
        next < n,
{
    let ring: i128 = n as i128;
    let mut target: i128 = at as i128 + dir as i128;
    let ghost start = target as int;
    while target < 0
        invariant
            ring == n,
            n > 0,
            -128 <= target,
            target < ring + 128,
            target as int % ring as int == start % ring as int,
        decreases ring - target,
    {
        proof {
            vstd::arithmetic::div_mod::lemma_mod_add_multiples_vanish(target as int, ring as int);
        }
        target = target + ring;
    }
    while target >= ring
        invariant
            ring == n,
            n > 0,
            0 <= target,
            target < ring + 128,
            target as int % ring as int == start % ring as int,
        decreases target,
    {
        proof {
            vstd::arithmetic::div_mod::lemma_mod_add_multiples_vanish(
                target as int - ring as int,
                ring as int,
            );
        }
        target = target - ring;
    }
    proof {
        vstd::arithmetic::div_mod::lemma_small_mod(target as nat, ring as nat);
    }
    target as usize
}

fn position_of_target(targets: &Vec<InteractiveTarget>, target: InteractiveTarget) -> (at: Option<
    usize,
>)
    ensures
        match at {
            Some(i) => focus_position(targets@, Some(target)) == Some(i as int) && i
                < targets@.len(),
            None => focus_position(targets@, Some(target)) is None,
        },
{
    let count: usize = targets.len();
    let mut i: usize = 0;
    proof {
        targets@.index_of_first_ensures(target);
    }
    while i < count
        invariant
            i <= count,
            count == targets@.len(),
            forall|k: int| 0 <= k < i ==> targets@[k] != target,
        decreases count - i,
    {
        if targets[i] == target {
            proof {
                targets@.index_of_first_ensures(target);
                assert(targets@.contains(target));
                let first = targets@.index_of_first(target)->Some_0;
                assert(targets@[i as int] == target);
            }
            return Some(i);
        }
        i += 1;
    }
    None
}

fn list_task_ids(messages: &Vec<TranscriptMessage>) -> (ids: Vec<String>)
    ensures
        ids@ == task_ids(messages@),
{
    let count: usize = messages.len();
    let mut ids: Vec<String> = Vec::new();
    let mut i: usize = 0;
    while i < count
        invariant
            i <= count,
            count == messages@.len(),
            ids@ == task_ids(messages@.take(i as int)),
        decreases count - i,
    {
        proof {
            assert(messages@.take(i + 1).drop_last() =~= messages@.take(i as int));
        }
        if let MessageKind::ToolStep(step) = &messages[i].kind {
            if step.children.is_some() {
                ids.push(step.id.clone());
            }
        }
        i += 1;
    }
    proof {
        assert(messages@.take(count as int) =~= messages@);
    }
    ids
}

fn find_id(ids: &Vec<String>, id: &str) -> (at: usize)
    ensures
        at == position_of(ids@, id@),
        at <= ids@.len(),
{
    let count: usize = ids.len();
    let mut i: usize = 0;
    proof {
        assert(ids@.skip(0) =~= ids@);
    }
    while i < count
        invariant
            i <= count,
            count == ids@.len(),
            position_of(ids@, id@) == i + position_of(ids@.skip(i as int), id@),
        decreases count - i,
    {
        proof {
            assert(ids@.skip(i as int)[0] == ids@[i as int]);
            assert(ids@.skip(i as int).drop_first() =~= ids@.skip(i + 1));
        }
        if same_text(ids[i].as_str(), id) {
            return i;
        }
        i += 1;
    }
    i
}

/// Leaving an envoy task brings the view back to the scroll position at which
/// it was entered, and to the same stack.
pub proof fn law_leaving_restores_scroll(before: App, inside: App, after: App, call_id: String)
    requires
        entered_envoy(before, call_id, inside),
        left_envoy(inside, after),
    ensures
        scroll_of(after.view) == scroll_of(before.view),
        after.view.focus_stack@ == before.view.focus_stack@,
{
    assert(after.view.focus_stack@ =~= before.view.focus_stack@);
}

/// Going on and back again from a focused target returns to it.
pub proof fn law_focus_steps_are_inverse(i: int, count: int)
    requires
        0 <= i < count,
    ensures
        next_position(Some(next_position(Some(i), false, count)), true, count) == i,
        next_position(Some(next_position(Some(i), true, count)), false, count) == i,
{
}

/// The focus stays on a target that exists.
pub proof fn law_focus_stays_in_range(current: Option<int>, backward: bool, count: int)
    requires
        count > 0,
        current matches Some(i) ==> 0 <= i < count,
    ensures
        0 <= next_position(current, backward, count) < count,
{
}

/// Entering an envoy task shows that task's messages from their bottom, and
/// leaving it shows the parent's again, where they were left.
pub proof fn law_envoy_round_trip(a: App, call_id: String, b: App, c: App)
    requires
        entered_envoy(a, call_id, b),
        left_envoy(b, c),
    ensures
        b.view.focus_stack@.len() == a.view.focus_stack@.len() + 1,
        b.view.focus_stack@.last().call_id == call_id,
        b.view.follow_bottom,
        b.view.selection == SelectionState::Empty,
        c.view.focus_stack@ == a.view.focus_stack@,
        c.view.scroll == a.view.scroll,
        c.view.follow_bottom == a.view.follow_bottom,
        c.outbox == a.outbox,
{
    assert(b.view.focus_stack@.drop_last() =~= a.view.focus_stack@);
}

/// What the user sees: the side conversation while it is open, the messages of
/// the innermost envoy task while one is entered, else the conversation.
pub proof fn law_messages_in_view(view: TranscriptView, i: int)
    ensures
        view.in_side_view ==> focused(view) == view.side_messages@,
        !view.in_side_view && view.focus_stack@.len() == 0 ==> focused(view) == view.messages@,
        !view.in_side_view && view.focus_stack@.len() > 0 && 0 <= i < view.messages@.len() && (
        view.messages@[i].kind matches MessageKind::ToolStep(step) && step.children is Some
            && step.id@ == view.focus_stack@.last().call_id@) && (forall|k: int|
            0 <= k < i ==> !((#[trigger] view.messages@[k]).kind matches MessageKind::ToolStep(
                step,
            ) && step.children is Some && step.id@ == view.focus_stack@.last().call_id@))
            ==> focused(view) == view.messages@[i].kind->ToolStep_0.children->Some_0@,
{
    if !view.in_side_view && view.focus_stack@.len() > 0 && 0 <= i < view.messages@.len() {
        crate::document::lemma_task_index(
            view.messages@,
            view.focus_stack@.last().call_id@,
        );
    }
}

/// The siblings are leafed through in the order of the conversation, around at
/// its ends: with two tasks each way leads to the other.
pub proof fn law_two_siblings_alternate(a: App, dir: i8, b: App)
    requires
        dir == 1 || dir == -1,
        a.view.focus_stack@.len() > 0,
        task_ids(a.view.messages@).len() == 2,
        task_ids(a.view.messages@)[0]@ != task_ids(a.view.messages@)[1]@,
        cycled_sibling(a, dir, b),
    ensures
        a.view.focus_stack@.last().call_id@ == task_ids(a.view.messages@)[0]@
            ==> b.view.focus_stack@.last().call_id == task_ids(a.view.messages@)[1],
        a.view.focus_stack@.last().call_id@ == task_ids(a.view.messages@)[1]@
            ==> b.view.focus_stack@.last().call_id == task_ids(a.view.messages@)[0],
        b.view.focus_stack@.len() == a.view.focus_stack@.len(),
        b.view.focus_stack@.drop_last() == a.view.focus_stack@.drop_last(),
{
    let ids = task_ids(a.view.messages@);
    reveal_with_fuel(position_of, 3);
    assert(ids.drop_first()[0] == ids[1]);
    assert(b.view.focus_stack@.drop_last() =~= a.view.focus_stack@.drop_last());
}

/// A step forward among the siblings goes to the next task of the conversation.
pub proof fn law_next_sibling(a: App, i: int, b: App)
    requires
        a.view.focus_stack@.len() > 0,
        0 <= i,
        i + 1 < task_ids(a.view.messages@).len(),
        position_of(task_ids(a.view.messages@), a.view.focus_stack@.last().call_id@) == i,
        cycled_sibling(a, 1, b),
    ensures
        b.view.focus_stack@.last().call_id == task_ids(a.view.messages@)[i + 1],
{
    vstd::arithmetic::div_mod::lemma_small_mod(
        (i + 1) as nat,
        task_ids(a.view.messages@).len(),
    );
}

} // verus!
