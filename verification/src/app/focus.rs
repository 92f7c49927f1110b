//! The messages in view.
use crate::app::ZoomFrame;
use crate::document::find_task;
use crate::document::lemma_task_index;
use crate::document::same_but_children;
use crate::document::task_index;
use crate::document::MessageKind;
use crate::document::TranscriptMessage;
use vstd::prelude::*;

verus! {

/// The messages in view: the whole transcript, or those of the innermost
/// envoy task.
pub open spec fn in_view(messages: Seq<TranscriptMessage>, stack: Seq<ZoomFrame>) -> Seq<
    TranscriptMessage,
> {
    if stack.len() == 0 {
        messages
    } else {
        match task_index(messages, stack.last().call_id@) {
            Some(i) => messages[i].child_seq(),
            None => Seq::empty(),
        }
    }
}

/// Whether `after` is `before` with the messages in view replaced by `view`.
pub open spec fn view_replaced(
    before: Seq<TranscriptMessage>,
    stack: Seq<ZoomFrame>,
    view: Seq<TranscriptMessage>,
    after: Seq<TranscriptMessage>,
) -> bool {
    if stack.len() == 0 {
        after == view
    } else {
        match task_index(before, stack.last().call_id@) {
            Some(i) => {
                &&& after.len() == before.len()
                &&& forall|k: int| 0 <= k < before.len() && k != i ==> after[k] == before[k]
                &&& same_but_children(before[i], after[i])
                &&& after[i].child_seq() == view
            },
            None => after == before,
        }
    }
}

/// The message at `mi` in view, for change.
pub fn resolve_focused_mut<'a>(
    messages: &'a mut Vec<TranscriptMessage>,
    focus_stack: &Vec<ZoomFrame>,
    mi: usize,
) -> (found: Option<&'a mut TranscriptMessage>)
    ensures
        match found {
            Some(message) => {
                let view = in_view(old(messages)@, focus_stack@);
                &&& mi < view.len()
                &&& *message == view[mi as int]
                &&& view_replaced(
                    old(messages)@,
                    focus_stack@,
                    view.update(mi as int, *final(message)),
                    final(messages)@,
                )
            },
            None => mi >= in_view(old(messages)@, focus_stack@).len() && final(messages)@ == old(
                messages,
            )@,
        },
{
    if focus_stack.len() == 0 {
        if mi < messages.len() {
            return Some(&mut messages[mi]);
        }
        return None;
    }
    let ghost before = messages@;
    let frame: &ZoomFrame = &focus_stack[focus_stack.len() - 1];
    match find_task(messages.as_slice(), frame.call_id.as_str()) {
        Some(i) => {
            proof {
                lemma_task_index(messages@, frame.call_id@);
            }
            match &mut messages[i].kind {
                MessageKind::ToolStep(step) => match &mut step.children {
                    Some(children) => {
                        if mi < children.len() {
                            Some(&mut children[mi])
                        } else {
                            None
                        }
                    },
                    None => None,
                },
                _ => None,
            }
        },
        None => None,
    }
}

/// The message at `mi` in view.
pub fn resolve_focused<'a>(
    messages: &'a Vec<TranscriptMessage>,
    focus_stack: &Vec<ZoomFrame>,
    mi: usize,
) -> (found: Option<&'a TranscriptMessage>)
    ensures
        match found {
            Some(message) => mi < in_view(messages@, focus_stack@).len() && *message == in_view(
                messages@,
                focus_stack@,
            )[mi as int],
            None => mi >= in_view(messages@, focus_stack@).len(),
        },
{
    let view: &[TranscriptMessage] = messages_in_view(messages, focus_stack);
    if mi < view.len() {
        Some(&view[mi])
    } else {
        None
    }
}

/// The messages in view.
pub fn messages_in_view<'a>(
    messages: &'a Vec<TranscriptMessage>,
    focus_stack: &Vec<ZoomFrame>,
) -> (view: &'a [TranscriptMessage])
    ensures
        view@ == in_view(messages@, focus_stack@),
{
    if focus_stack.len() == 0 {
        return messages.as_slice();
    }
    let frame: &ZoomFrame = &focus_stack[focus_stack.len() - 1];
    if let Some(i) = find_task(messages.as_slice(), frame.call_id.as_str()) {
        proof {
            lemma_task_index(messages@, frame.call_id@);
        }
        if let MessageKind::ToolStep(step) = &messages[i].kind {
            if let Some(children) = &step.children {
                return children.as_slice();
            }
        }
    }
    &[]
}

/// A message after a bulk change: tool steps follow it, envoy tasks and other
/// messages do not.
pub open spec fn step_pinned(message: TranscriptMessage, expanded: bool) -> TranscriptMessage {
    if message.kind is ToolStep && !message.envoy_task() {
        message.with_pinned(expanded)
    } else {
        message
    }
}

fn pin_steps(list: &mut Vec<TranscriptMessage>, expanded: bool)
    ensures
        final(list)@ == old(list)@.map_values(|m: TranscriptMessage| step_pinned(m, expanded)),
{
    let count: usize = list.len();
    let mut i: usize = 0;
    while i < count
        invariant
            i <= count,
            count == list@.len(),
            list@.len() == old(list)@.len(),
            forall|k: int| 0 <= k < i ==> list@[k] == step_pinned(old(list)@[k], expanded),
            forall|k: int| i <= k < count ==> list@[k] == old(list)@[k],
        decreases count - i,
    {
        if !list[i].is_envoy_task() {
            list[i].pin_tool_step_expanded(expanded);
        }
        i += 1;
    }
    proof {
        assert(list@ =~= old(list)@.map_values(|m: TranscriptMessage| step_pinned(m, expanded)));
    }
}

/// The list of the messages in view, for change; nothing where the view is
/// zoomed into a task that is gone.
pub fn focused_messages_mut<'a>(
    messages: &'a mut Vec<TranscriptMessage>,
    focus_stack: &Vec<ZoomFrame>,
) -> (list: Option<&'a mut Vec<TranscriptMessage>>)
    ensures
        match list {
            Some(view) => view@ == in_view(old(messages)@, focus_stack@) && view_replaced(
                old(messages)@,
                focus_stack@,
                final(view)@,
                final(messages)@,
            ),
            None => {
                &&& focus_stack@.len() > 0
                &&& task_index(old(messages)@, focus_stack@.last().call_id@) is None
                &&& final(messages)@ == old(messages)@
            },
        },
{
    if focus_stack.len() == 0 {
        return Some(messages);
    }
    let frame: &ZoomFrame = &focus_stack[focus_stack.len() - 1];
    match find_task(messages.as_slice(), frame.call_id.as_str()) {
        Some(i) => {
            proof {
                lemma_task_index(messages@, frame.call_id@);
            }
            match &mut messages[i].kind {
                MessageKind::ToolStep(step) => match &mut step.children {
                    Some(children) => Some(children),
                    None => None,
                },
                _ => None,
            }
        },
        None => None,
    }
}

/// Unfolds or folds every tool step in view.
pub fn pin_steps_in_view(
    messages: &mut Vec<TranscriptMessage>,
    focus_stack: &Vec<ZoomFrame>,
    expanded: bool,
)
    ensures
        view_replaced(
            old(messages)@,
            focus_stack@,
            in_view(old(messages)@, focus_stack@).map_values(
                |m: TranscriptMessage| step_pinned(m, expanded),
            ),
            final(messages)@,
        ),
{
    if let Some(list) = focused_messages_mut(messages, focus_stack) {
        pin_steps(list, expanded);
    }
}

} // verus!
