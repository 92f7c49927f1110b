//! What a frame is for: what it shows is what the agent said, and keys are read
//! against what is shown.
use crate::app::composer::Completion;
use crate::app::App;
use crate::document::same_message;
use crate::document::MessageKind;
use crate::document::TranscriptMessage;
use crate::event_loop::frame::context_of;
use crate::event_loop::frame::frame_begun;
use crate::event_loop::frame::frame_finished;
use crate::event_loop::frame::overlays_synced;
use crate::event_loop::frame::signals_taken;
use crate::event_loop::frame::tick_passed;
use crate::event_loop::frame::transcript_taken;
use crate::event_loop::frame::FrameMeasure;
use crate::event_loop::presenting::latest_prompt;
use crate::event_loop::presenting::shown_line;
use crate::event_loop::presenting::toast_shown;
use crate::event_loop::presenting::ToastLine;
use crate::event_loop::scrolling::view_followed;
use crate::event_loop::sending::queue_drained;
use crate::event_loop::SideViewSignal;
use crate::event_loop::UiRuntime;
use crate::document::Role;
use crate::document::UserMessageOrigin;
use crate::layout::targets_in_order;
use crate::layout::InteractiveTarget;
use crate::modal::CompletionKind;
use crate::modal::Modal;
use vstd::prelude::*;

verus! {

/// The next event is read against the state as it is: the overlay that is open,
/// whether a turn runs, what is focused, what waits, and where the fields stand.
pub proof fn law_context_is_the_state(
    a: App,
    responding: bool,
    completions: Seq<Completion>,
    kind: CompletionKind,
    dismissable: bool,
)
    requires
        completions.len() <= usize::MAX,
    ensures
        ({
            let ctx = context_of(a, responding, completions, kind, dismissable);
            let hidden = a.overlay.active_modal == Modal::HistorySearch
                || a.composer.completion_dismissed;
            &&& ctx.active_modal == a.overlay.active_modal
            &&& ctx.modal_dismissable == dismissable
            &&& ctx.is_responding == responding
            &&& hidden ==> ctx.completion_kind == CompletionKind::Closed && ctx.suggestion_count
                == 0 && !ctx.has_exact_suggestion
            &&& !hidden ==> ctx.completion_kind == kind && ctx.suggestion_count
                == completions.len()
            &&& !hidden && ctx.has_exact_suggestion ==> exists|i: int|
                0 <= i < completions.len() && (#[trigger] completions[i]).label@
                    == a.composer.input@
            &&& ctx.suggestion_index == a.composer.suggestion_index
            &&& ctx.permission_confirm_always == a.permission.permission_confirm_always
            &&& ctx.permission_show_details == a.permission.permission_show_details
            &&& ctx.in_envoy_view == (a.view.focus_stack@.len() > 0)
            &&& ctx.in_side_view == a.view.in_side_view
            &&& ctx.has_focused_target == (a.view.focused_target is Some)
            &&& ctx.has_queued == (a.composer.pending_dispatch@.len() > 0)
            &&& ctx.history_searching == a.overlay.history_search
            &&& ctx.model_searching == a.picker.model_search
            &&& ctx.picker_in_models_stage == (a.picker.picker_provider is Some)
            &&& a.overlay.active_modal == Modal::ModelEditor ==> ctx.editor_field == Some(
                a.key_editor.editor_field,
            )
            &&& a.overlay.active_modal != Modal::ModelEditor ==> ctx.editor_field is None
            &&& a.overlay.active_modal == Modal::CustomProvider ==> ctx.custom_provider_field
                == Some(a.provider_editor.custom_field)
            &&& a.overlay.active_modal != Modal::CustomProvider
                ==> ctx.custom_provider_field is None
            &&& ctx.question_other_highlighted == (a.question matches Some(q)
                && q.other_highlighted)
        }),
{
    let ctx = context_of(a, responding, completions, kind, dismissable);
    if ctx.has_exact_suggestion {
        let i = choose|i: int|
            0 <= i < completions.len() && crate::event_loop::frame::is_exact(
                #[trigger] completions[i],
                a.composer.input@,
            );
        assert(completions[i].label@ == a.composer.input@);
    }
}

/// What a message shows.
pub open spec fn shows_same(x: TranscriptMessage, y: TranscriptMessage) -> bool {
    &&& y.role == x.role
    &&& y.raw@ == x.raw@
    &&& y.delivery == x.delivery
    &&& y.origin == x.origin
    &&& match (x.kind, y.kind) {
        (MessageKind::Text, MessageKind::Text) => true,
        (MessageKind::Notice(p), MessageKind::Notice(q)) => p == q,
        (MessageKind::Thinking(p), MessageKind::Thinking(q)) => {
            &&& q.content@ == p.content@
            &&& q.duration_ms == p.duration_ms
            &&& q.expanded == p.expanded
        },
        (MessageKind::ToolStep(p), MessageKind::ToolStep(q)) => {
            &&& q.id@ == p.id@
            &&& q.name@ == p.name@
            &&& q.output@ == p.output@
            &&& q.status == p.status
            &&& q.expanded == p.expanded
            &&& q.children is Some == p.children is Some
        },
        _ => false,
    }
}

proof fn lemma_same_message_shows_same(x: TranscriptMessage, y: TranscriptMessage)
    requires
        same_message(x, y),
    ensures
        shows_same(x, y),
{
}

/// Taking the transcripts over shows what the agent's responses left, message by
/// message, unless the side view has just been entered or left; an asked-for
/// change of the view is made.
pub proof fn law_frame_shows_transcript(a: App, r: UiRuntime, b: App)
    requires
        transcript_taken(a, r, b),
    ensures
        b.view.messages@.len() == r.messages@.len(),
        forall|k: int|
            0 <= k < r.messages@.len() ==> shows_same(
                #[trigger] r.messages@[k],
                b.view.messages@[k],
            ),
        b.session.activity_status == r.activity_status,
        r.side_view_signal is None ==> b.view.in_side_view == a.view.in_side_view
            && b.view.parent_status == r.parent_status && b.view.side_messages@.len()
            == r.side_messages@.len() && forall|k: int|
            0 <= k < r.side_messages@.len() ==> shows_same(
                #[trigger] r.side_messages@[k],
                b.view.side_messages@[k],
            ),
        r.side_view_signal matches Some(SideViewSignal::Opened { side_id }) ==> b.view.in_side_view
            && b.view.side_session_id == Some(side_id) && b.view.follow_bottom,
        r.side_view_signal matches Some(SideViewSignal::Closed) ==> !b.view.in_side_view
            && b.view.side_session_id is None,
        b.composer == a.composer,
        b.outbox == a.outbox,
{
    let mid = choose|mid: App| #[trigger]
        crate::event_loop::frame::mirrored(a, r, mid) && crate::event_loop::frame::signal_followed(
            mid,
            r.side_view_signal,
            b,
        );
    assert forall|k: int| 0 <= k < r.messages@.len() implies shows_same(
        #[trigger] r.messages@[k],
        b.view.messages@[k],
    ) by {
        assert(same_message(r.messages@[k], mid.view.messages@[k]));
        lemma_same_message_shows_same(r.messages@[k], mid.view.messages@[k]);
    }
    if r.side_view_signal is None {
        assert forall|k: int| 0 <= k < r.side_messages@.len() implies shows_same(
            #[trigger] r.side_messages@[k],
            b.view.side_messages@[k],
        ) by {
            assert(same_message(r.side_messages@[k], mid.view.side_messages@[k]));
            lemma_same_message_shows_same(r.side_messages@[k], mid.view.side_messages@[k]);
        }
    }
}

/// A message goes once its time is over and stays until then; staged images are
/// brought to mind unless leaving is armed.
pub proof fn law_messages_run_out(a: App, responding: bool, now: u64, b: App)
    requires
        tick_passed(a, responding, now, b),
    ensures
        ({
            let reminds = a.composer.pending_images@.len() > 0 && a.toast.ctrl_c_armed_ticks == 0;
            &&& !reminds && (a.toast.copy_toast_until matches Some(until) && now >= until)
                ==> b.toast.copy_toast_until is None
            &&& !reminds && (a.toast.copy_toast_until matches Some(until) && now < until)
                ==> b.toast.copy_toast_until == a.toast.copy_toast_until
                && b.toast.copy_toast_message == a.toast.copy_toast_message
            &&& !reminds && a.toast.copy_toast_until is None ==> b.toast.copy_toast_until is None
            &&& reminds ==> b.toast.copy_toast_until is Some && !b.toast.copy_toast_failed
            &&& reminds && a.composer.pending_images@.len() == 1 ==> b.toast.copy_toast_message@
                == "1"@ + " image"@ + " attached — enter to send"@
            &&& b.composer == a.composer
            &&& b.outbox == a.outbox
        }),
{
    let mid = choose|mid: App| #[trigger]
        crate::event_loop::frame::reminded(
            crate::event_loop::frame::toast_expired(a, now),
            now,
            mid,
        ) && b == crate::event_loop::frame::ticked(mid, responding);
    reveal_strlit("1");
    reveal_strlit("s");
    reveal_strlit("");
    reveal_with_fuel(crate::text::decimal, 2);
    assert("1"@ =~= crate::text::decimal(1));
}

/// The message above the composer is what happened last, else that leaving is
/// armed, else nothing.
pub proof fn law_toast_order(a: App)
    ensures
        a.toast.copy_toast_until is Some ==> toast_shown(a) == ToastLine::Message,
        a.toast.copy_toast_until is None && a.toast.ctrl_c_armed_ticks > 0 ==> toast_shown(a)
            == ToastLine::LeaveArmed,
        a.toast.copy_toast_until is None && a.toast.ctrl_c_armed_ticks == 0 ==> toast_shown(a)
            == ToastLine::Hidden,
{
}

/// A key that is being typed shows as one dot per character, and any other line
/// as it is.
pub proof fn law_line_is_shown(a: App)
    ensures
        shown_line(a).len() == a.composer.input@.len(),
        a.overlay.active_modal == Modal::ModelEditor && a.key_editor.editor_field == 0 ==> forall|
            i: int,
        |
            0 <= i < shown_line(a).len() ==> #[trigger] shown_line(a)[i] == '•',
        !(a.overlay.active_modal == Modal::ModelEditor && a.key_editor.editor_field == 0)
            ==> shown_line(a) == a.composer.input@,
{
}

/// The prompt that a turn works on is the last one that the user sent to the
/// model, whatever stands behind it.
pub proof fn law_driving_prompt_is_the_last(messages: Seq<TranscriptMessage>, i: int)
    requires
        0 <= i < messages.len(),
        messages[i].role == Role::User,
        messages[i].origin == UserMessageOrigin::Chat,
        forall|k: int|
            i < k < messages.len() ==> !((#[trigger] messages[k]).role == Role::User
                && messages[k].origin == UserMessageOrigin::Chat),
    ensures
        latest_prompt(messages) == Some(messages[i].raw),
    decreases messages.len(),
{
    if i < messages.len() - 1 {
        let rest = messages.drop_last();
        assert forall|k: int| i < k < rest.len() implies !((#[trigger] rest[k]).role == Role::User
            && rest[k].origin == UserMessageOrigin::Chat) by {
            assert(rest[k] == messages[k]);
        }
        law_driving_prompt_is_the_last(rest, i);
        assert(!(messages[messages.len() - 1].role == Role::User && messages[messages.len()
            - 1].origin == UserMessageOrigin::Chat));
    }
}

/// While the newest content is followed, a frame shows the bottom; a position
/// that the user chose stays.
pub proof fn law_frame_follows_newest(a: App, r: UiRuntime, now: u64, b: App, s: UiRuntime)
    requires
        frame_begun(a, r, now, b, s),
    ensures
        b.view.follow_bottom ==> b.view.scroll == b.view.max_scroll,
        !b.view.follow_bottom && r.side_view_signal is None ==> b.view.scroll == a.view.scroll,
{
    let (synced, aged, taken, sent) = choose|synced: App, aged: App, taken: App, sent: App|
        {
            &&& overlays_synced(a, r, synced)
            &&& #[trigger] tick_passed(synced, r.is_responding, now, aged)
            &&& #[trigger] transcript_taken(aged, r, taken)
            &&& #[trigger] queue_drained(taken, signals_taken(r), sent, s)
            &&& b == (App { view: view_followed(sent.view), ..sent })
        };
    lemma_scroll_synced(a, r, synced);
    lemma_scroll_aged(synced, r.is_responding, now, aged);
    lemma_scroll_taken(aged, r, taken);
}

proof fn lemma_scroll_synced(a: App, r: UiRuntime, b: App)
    requires
        overlays_synced(a, r, b),
    ensures
        b.view.scroll == a.view.scroll,
        b.view.follow_bottom == a.view.follow_bottom,
{
}

proof fn lemma_scroll_aged(a: App, responding: bool, now: u64, b: App)
    requires
        tick_passed(a, responding, now, b),
    ensures
        b.view == a.view,
{
}

proof fn lemma_scroll_taken(a: App, r: UiRuntime, b: App)
    requires
        transcript_taken(a, r, b),
    ensures
        r.side_view_signal is None ==> b.view.scroll == a.view.scroll && b.view.follow_bottom
            == a.view.follow_bottom,
{
}

/// The focus stays on a step for as long as the step is on screen and no overlay
/// is open.
pub proof fn law_focus_needs_its_target(a: App, m: FrameMeasure, target: InteractiveTarget)
    requires
        a.view.focused_target == Some(target),
        m.sticky is None,
    ensures
        ({
            let b = frame_finished(a, m);
            let shown = targets_in_order(m.layout_map@.regions);
            &&& a.overlay.active_modal != Modal::Closed ==> b.view.focused_target is None
            &&& a.overlay.active_modal == Modal::Closed && shown.contains(target)
                ==> b.view.focused_target == Some(target)
            &&& !shown.contains(target) ==> b.view.focused_target is None
        }),
{
}

/// What a frame found of the step whose summary stays at the top is known to the
/// next event, and the details of a permission request stay within what there is
/// to show.
pub proof fn law_frame_is_measured(a: App, m: FrameMeasure)
    ensures
        ({
            let b = frame_finished(a, m);
            &&& m.sticky matches Some(header) ==> b.view.sticky_step == Some(header.message_idx)
                && b.view.sticky_rect == Some(header.rect) && b.view.sticky_summary_line == Some(
                header.summary_line,
            )
            &&& m.sticky is None ==> b.view.sticky_step is None && b.view.sticky_rect is None
                && b.view.sticky_summary_line is None
            &&& m.permission_max_scroll matches Some(max) ==> {
                &&& b.permission.permission_max_scroll == max
                &&& b.permission.permission_scroll <= max
                &&& a.permission.permission_scroll <= max ==> b.permission.permission_scroll
                    == a.permission.permission_scroll
                &&& a.permission.permission_scroll > max ==> b.permission.permission_scroll == max
            }
            &&& m.permission_max_scroll is None ==> b.permission == a.permission
            &&& b.view.content_lines == m.content_lines
            &&& b.view.view_height == m.view_height
            &&& b.composer == a.composer
            &&& b.overlay == a.overlay
            &&& b.outbox == a.outbox
        }),
{
}

/// The first frame after a permission request came shows its sheet, unless an
/// overlay is open; the first one after a question came shows the question.
pub proof fn law_frame_shows_requests(a: App, r: UiRuntime, now: u64, b: App, s: UiRuntime)
    requires
        frame_begun(a, r, now, b, s),
        !r.open_sessions,
    ensures
        a.overlay.active_modal == Modal::Closed && a.question is None
            && r.pending_question@.len() == 0 && r.pending_permission@.len() > 0
            ==> b.overlay.active_modal == Modal::Permission && b.overlay.modal_index == 0
            && b.permission.pending_permission == Some(r.pending_permission@[0]),
        a.question is None && r.pending_question@.len() > 0 ==> b.overlay.active_modal
            == Modal::Question && (b.question matches Some(q) && q.request_id
            == r.pending_question@[0].id),
        a.overlay.active_modal == Modal::Permission && a.question is None
            && r.pending_question@.len() == 0 && r.pending_permission@.len() == 0
            ==> b.overlay.active_modal == Modal::Closed,
{
    let (synced, aged, taken, sent) = choose|synced: App, aged: App, taken: App, sent: App|
        {
            &&& overlays_synced(a, r, synced)
            &&& #[trigger] tick_passed(synced, r.is_responding, now, aged)
            &&& #[trigger] transcript_taken(aged, r, taken)
            &&& #[trigger] queue_drained(taken, signals_taken(r), sent, s)
            &&& b == (App { view: view_followed(sent.view), ..sent })
        };
    lemma_requests_synced(a, r, synced);
    lemma_sheet_aged(synced, r.is_responding, now, aged);
    lemma_sheet_taken(aged, r, taken);
    lemma_sheet_drained(taken, signals_taken(r), sent, s);
}

proof fn lemma_requests_synced(a: App, r: UiRuntime, b: App)
    requires
        overlays_synced(a, r, b),
        !r.open_sessions,
    ensures
        a.overlay.active_modal == Modal::Closed && a.question is None
            && r.pending_question@.len() == 0 && r.pending_permission@.len() > 0
            ==> b.overlay.active_modal == Modal::Permission && b.overlay.modal_index == 0
            && b.permission.pending_permission == Some(r.pending_permission@[0]),
        a.question is None && r.pending_question@.len() > 0 ==> b.overlay.active_modal
            == Modal::Question && (b.question matches Some(q) && q.request_id
            == r.pending_question@[0].id),
        a.overlay.active_modal == Modal::Permission && a.question is None
            && r.pending_question@.len() == 0 && r.pending_permission@.len() == 0
            ==> b.overlay.active_modal == Modal::Closed,
{
}

proof fn lemma_sheet_aged(a: App, responding: bool, now: u64, b: App)
    requires
        tick_passed(a, responding, now, b),
    ensures
        b.overlay == a.overlay,
        b.permission == a.permission,
        b.question == a.question,
{
}

proof fn lemma_sheet_taken(a: App, r: UiRuntime, b: App)
    requires
        transcript_taken(a, r, b),
    ensures
        b.overlay == a.overlay,
        b.permission == a.permission,
        b.question == a.question,
{
}

proof fn lemma_sheet_drained(a: App, r: UiRuntime, b: App, s: UiRuntime)
    requires
        queue_drained(a, r, b, s),
    ensures
        b.overlay == a.overlay,
        b.permission == a.permission,
        b.question == a.question,
{
}

} // verus!
