//! The work of a frame: taking over what arrived before it is drawn, and
//! keeping what was measured once it is.
use crate::agent::PermissionRequest;
use crate::agent::UserQuestionRequest;
use crate::app::composer::Completion;
use crate::app::navigate::entered_side_view;
use crate::app::navigate::focus_retained;
use crate::app::navigate::left_side_view;
use crate::app::switching::fields_given_up;
use crate::app::switching::overlays_settled;
use crate::app::switching::with_modal;
use crate::app::App;
use crate::app::Overlay;
use crate::app::PermissionSheet;
use crate::app::QuestionState;
use crate::app::Screen;
use crate::app::SessionMirror;
use crate::app::Toast;
use crate::app::TranscriptView;
use crate::clipboard_ops::count_text;
use crate::clipboard_ops::counted;
use crate::clipboard_ops::later;
use crate::clipboard_ops::show_local_toast;
use crate::clipboard_ops::toasted;
use crate::document::copy_messages;
use crate::document::same_messages;
use crate::event_loop::scrolling::follow_newest;
use crate::event_loop::scrolling::settle_scroll;
use crate::event_loop::scrolling::view_followed;
use crate::event_loop::scrolling::view_settled;
use crate::event_loop::sending::drain_queue;
use crate::event_loop::sending::queue_drained;
use crate::event_loop::SideViewSignal;
use crate::event_loop::UiRuntime;
use crate::input::InputContext;
use crate::layout::LayoutMap;
use crate::layout::Rect;
use crate::modal::CompletionKind;
use crate::modal::Modal;
use crate::text::byte_len;
use crate::text::same_text;
use crate::text::utf8_len;
use std::collections::VecDeque;
use vstd::prelude::*;

verus! {

/// The oldest of a queue.
pub open spec fn front<T>(queue: Seq<T>) -> Option<T> {
    if queue.len() > 0 {
        Some(queue[0])
    } else {
        None
    }
}

/// The permission sheet in step with its queue: it opens for a request while
/// no overlay is open, and closes once none is left.
pub open spec fn permission_synced(a: App, request: Option<PermissionRequest>) -> App {
    let sheet = PermissionSheet { pending_permission: request, ..a.permission };
    if request is Some && a.overlay.active_modal == Modal::Closed {
        App {
            permission: PermissionSheet {
                permission_scroll: 0,
                permission_show_details: false,
                ..sheet
            },
            overlay: Overlay { active_modal: Modal::Permission, modal_index: 0, ..a.overlay },
            view: TranscriptView { focused_target: None, ..a.view },
            ..a
        }
    } else if request is None && a.overlay.active_modal == Modal::Permission {
        App {
            permission: PermissionSheet {
                permission_confirm_always: false,
                permission_scroll: 0,
                permission_max_scroll: 0,
                permission_show_details: false,
                ..sheet
            },
            overlay: Overlay { active_modal: Modal::Closed, modal_index: 0, ..a.overlay },
            ..a
        }
    } else {
        App { permission: sheet, ..a }
    }
}

/// Brings the permission sheet in step with its queue.
pub fn sync_permission(app: &mut App, queue: &VecDeque<PermissionRequest>)
    ensures
        *final(app) == permission_synced(*old(app), front(queue@)),
{
    let mut request: Option<PermissionRequest> = None;
    if queue.len() > 0 {
        request = Some(queue[0].clone());
    }
    let waiting: bool = request.is_some();
    app.permission.pending_permission = request;
    if waiting && app.overlay.active_modal == Modal::Closed {
        app.overlay.active_modal = Modal::Permission;
        app.overlay.modal_index = 0;
        app.permission.permission_scroll = 0;
        app.permission.permission_show_details = false;
        app.view.focused_target = None;
    } else if !waiting && app.overlay.active_modal == Modal::Permission {
        app.overlay.active_modal = Modal::Closed;
        app.overlay.modal_index = 0;
        app.permission.permission_confirm_always = false;
        app.permission.permission_scroll = 0;
        app.permission.permission_max_scroll = 0;
        app.permission.permission_show_details = false;
    }
}

/// Whether the open question is the oldest one asked.
pub open spec fn shows_question(
    question: Option<QuestionState>,
    request: Option<UserQuestionRequest>,
) -> bool {
    match (question, request) {
        (Some(q), Some(asked)) => q.request_id@ == asked.id@,
        (None, None) => true,
        _ => false,
    }
}

/// The question overlay in step with its queue: a new question opens it, and
/// it closes once none is left.
pub open spec fn question_synced(a: App, request: Option<UserQuestionRequest>, b: App) -> bool {
    if shows_question(a.question, request) {
        b == a
    } else {
        match request {
            Some(asked) => {
                let shown = with_modal(a, Modal::Question, b);
                &&& fields_given_up(Modal::Question, b)
                &&& b == (App {
                    question: Some(
                        QuestionState { request_id: asked.id, other_highlighted: false },
                    ),
                    overlay: Overlay {
                        question_scroll: 0,
                        question_modal_follow: true,
                        modal_index: 0,
                        ..shown.overlay
                    },
                    view: TranscriptView { focused_target: None, ..shown.view },
                    ..shown
                })
            },
            None => b == (App {
                question: None,
                overlay: if a.overlay.active_modal == Modal::Question {
                    Overlay { active_modal: Modal::Closed, modal_index: 0, ..a.overlay }
                } else {
                    a.overlay
                },
                ..a
            }),
        }
    }
}

fn is_shown(question: &Option<QuestionState>, queue: &VecDeque<UserQuestionRequest>) -> (shown:
    bool)
    ensures
        shown == shows_question(*question, front(queue@)),
{
    match question {
        Some(q) => queue.len() > 0 && same_text(q.request_id.as_str(), queue[0].id.as_str()),
        None => queue.len() == 0,
    }
}

/// Brings the question overlay in step with its queue.
pub fn sync_question(app: &mut App, queue: &VecDeque<UserQuestionRequest>)
    ensures
        question_synced(*old(app), front(queue@), *final(app)),
{
    if is_shown(&app.question, queue) {
        return ;
    }
    if queue.len() > 0 {
        app.question = Some(
            QuestionState { request_id: queue[0].id.clone(), other_highlighted: false },
        );
        app.overlay.question_scroll = 0;
        app.overlay.question_modal_follow = true;
        app.switch_modal(Modal::Question);
        app.overlay.modal_index = 0;
        app.view.focused_target = None;
    } else {
        app.question = None;
        if app.overlay.active_modal == Modal::Question {
            app.overlay.active_modal = Modal::Closed;
            app.overlay.modal_index = 0;
        }
    }
}

/// The sessions list open where it was asked for; a permission sheet goes
/// first.
pub open spec fn sessions_synced(a: App, wanted: bool, b: App) -> bool {
    if wanted && a.overlay.active_modal != Modal::Permission {
        let shown = with_modal(a, Modal::Sessions, b);
        &&& fields_given_up(Modal::Sessions, b)
        &&& b == (App { overlay: Overlay { modal_index: 0, ..shown.overlay }, ..shown })
    } else {
        b == a
    }
}

/// Opens the sessions list where it was asked for.
pub fn sync_sessions(app: &mut App, wanted: bool)
    ensures
        sessions_synced(*old(app), wanted, *final(app)),
{
    if wanted && app.overlay.active_modal != Modal::Permission {
        app.switch_modal(Modal::Sessions);
        app.overlay.modal_index = 0;
    }
}

/// The state without a message whose time is over.
pub open spec fn toast_expired(a: App, now: u64) -> App {
    App {
        toast: Toast {
            copy_toast_until: match a.toast.copy_toast_until {
                Some(until) => if now >= until {
                    None
                } else {
                    Some(until)
                },
                None => None,
            },
            ..a.toast
        },
        ..a
    }
}

/// Whether the user was reminded of the staged images. While leaving is
/// armed, the message that says so keeps its place.
pub open spec fn reminded(a: App, now: u64, b: App) -> bool {
    let n = a.composer.pending_images@.len();
    if n > 0 && a.toast.ctrl_c_armed_ticks == 0 {
        toasted(
            a,
            counted(n, " image"@) + " attached — enter to send"@,
            false,
            later(now, 600),
            b,
        )
    } else {
        b == a
    }
}

/// The state one tick later: what a key press armed runs out, and an armed
/// `Esc` at once when no turn is left to interrupt.
pub open spec fn ticked(a: App, responding: bool) -> App {
    let toast = a.toast;
    App {
        toast: Toast {
            ctrl_c_armed_ticks: if toast.ctrl_c_armed_ticks > 0 {
                (toast.ctrl_c_armed_ticks - 1) as u8
            } else {
                0
            },
            esc_armed_ticks: if toast.esc_armed_ticks > 0 && responding {
                (toast.esc_armed_ticks - 1) as u8
            } else {
                0
            },
            ..toast
        },
        ..a
    }
}

/// Whether a tick passed for the messages and what is armed.
pub open spec fn tick_passed(a: App, responding: bool, now: u64, b: App) -> bool {
    exists|mid: App| #[trigger] reminded(toast_expired(a, now), now, mid) && b == ticked(
        mid,
        responding,
    )
}

/// Lets a tick pass for the messages and what is armed.
pub fn tick(app: &mut App, responding: bool, now: u64)
    ensures
        tick_passed(*old(app), responding, now, *final(app)),
{
    if let Some(until) = app.toast.copy_toast_until {
        if now >= until {
            app.toast.copy_toast_until = None;
        }
    }
    let n: usize = app.composer.pending_images.len();
    if n > 0 && app.toast.ctrl_c_armed_ticks == 0 {
        let mut message: String = count_text(n, " image");
        message.append(" attached — enter to send");
        show_local_toast(app, message, false, now, 600);
    }
    assert(reminded(toast_expired(*old(app), now), now, *app));
    if app.toast.ctrl_c_armed_ticks > 0 {
        app.toast.ctrl_c_armed_ticks -= 1;
    }
    if app.toast.esc_armed_ticks > 0 {
        if responding {
            app.toast.esc_armed_ticks -= 1;
        } else {
            app.toast.esc_armed_ticks = 0;
        }
    }
}

/// Whether the transcripts and the activity were taken over for drawing.
pub open spec fn mirrored(a: App, r: UiRuntime, b: App) -> bool {
    &&& same_messages(r.messages@, b.view.messages@)
    &&& same_messages(r.side_messages@, b.view.side_messages@)
    &&& b == (App {
        view: TranscriptView {
            messages: b.view.messages,
            side_messages: b.view.side_messages,
            parent_status: r.parent_status,
            ..a.view
        },
        session: SessionMirror { activity_status: r.activity_status, ..a.session },
        ..a
    })
}

/// Takes the transcripts and the activity over for drawing.
pub fn mirror(app: &mut App, runtime: &UiRuntime)
    ensures
        mirrored(*old(app), *runtime, *final(app)),
{
    app.session.activity_status = runtime.activity_status.clone();
    app.view.messages = copy_messages(&runtime.messages);
    app.view.side_messages = copy_messages(&runtime.side_messages);
    app.view.parent_status = runtime.parent_status;
}

/// Whether the view changed as the agent asked.
pub open spec fn signal_followed(a: App, signal: Option<SideViewSignal>, b: App) -> bool {
    match signal {
        Some(SideViewSignal::Opened { side_id }) => entered_side_view(a, side_id, b),
        Some(SideViewSignal::Closed) => left_side_view(a, b),
        None => b == a,
    }
}

fn follow_signal(app: &mut App, signal: Option<SideViewSignal>)
    ensures
        signal_followed(*old(app), signal, *final(app)),
{
    match signal {
        Some(SideViewSignal::Opened { side_id }) => app.enter_side_view(side_id),
        Some(SideViewSignal::Closed) => app.exit_side_view(),
        None => {},
    }
}

/// Whether the overlays were brought in step with what the agent asked for.
pub open spec fn overlays_synced(a: App, r: UiRuntime, b: App) -> bool {
    exists|mid: App| #[trigger]
        question_synced(
            permission_synced(a, front(r.pending_permission@)),
            front(r.pending_question@),
            mid,
        ) && sessions_synced(mid, r.open_sessions, b)
}

/// The runtime with its one-time signals taken.
pub open spec fn signals_taken(r: UiRuntime) -> UiRuntime {
    UiRuntime { open_sessions: false, side_view_signal: None, ..r }
}

/// Whether the transcripts were taken over and the view changed as asked.
pub open spec fn transcript_taken(a: App, r: UiRuntime, b: App) -> bool {
    exists|mid: App| #[trigger] mirrored(a, r, mid) && signal_followed(
        mid,
        r.side_view_signal,
        b,
    )
}

/// Whether the frame was prepared: `a` and `r` became `b` and `s`. The
/// overlays are brought in step, a tick passes, the transcripts are taken
/// over, the next queued message leaves if it is due, and the view follows the
/// newest content.
pub open spec fn frame_begun(a: App, r: UiRuntime, now: u64, b: App, s: UiRuntime) -> bool {
    exists|synced: App, aged: App, taken: App, sent: App|
        {
            &&& overlays_synced(a, r, synced)
            &&& #[trigger] tick_passed(synced, r.is_responding, now, aged)
            &&& #[trigger] transcript_taken(aged, r, taken)
            &&& #[trigger] queue_drained(taken, signals_taken(r), sent, s)
            &&& b == (App { view: view_followed(sent.view), ..sent })
        }
}

/// Prepares a frame. `now` is the host's clock.
pub fn begin_frame(app: &mut App, runtime: &mut UiRuntime, now: u64)
    ensures
        frame_begun(*old(app), *old(runtime), now, *final(app), *final(runtime)),
{
    sync_permission(app, &runtime.pending_permission);
    sync_question(app, &runtime.pending_question);
    let ghost asked = *app;
    sync_sessions(app, runtime.open_sessions);
    let ghost synced = *app;
    proof {
        assert(question_synced(
            permission_synced(*old(app), front(runtime.pending_permission@)),
            front(runtime.pending_question@),
            asked,
        ));
        assert(overlays_synced(*old(app), *old(runtime), synced));
    }
    tick(app, runtime.is_responding, now);
    let ghost aged = *app;
    mirror(app, runtime);
    let ghost mid = *app;
    runtime.open_sessions = false;
    let signal: Option<SideViewSignal> = runtime.side_view_signal.take();
    follow_signal(app, signal);
    let ghost taken = *app;
    proof {
        assert(mirrored(aged, *old(runtime), mid));
        assert(transcript_taken(aged, *old(runtime), taken));
        assert(*runtime == signals_taken(*old(runtime)));
    }
    drain_queue(app, runtime);
    let ghost sent = *app;
    proof {
        assert(queue_drained(taken, signals_taken(*old(runtime)), sent, *runtime));
    }
    follow_newest(app);
}

/// A header that is pinned to the top of the view.
#[derive(Debug, Clone, Copy, PartialEq, Eq)]
pub struct StickyHeader {
    pub message_idx: usize,
    pub rect: Rect,
    /// Content line of the header.
    pub summary_line: usize,
}

/// What drawing a frame found out.
#[derive(Debug)]
pub struct FrameMeasure {
    pub content_lines: usize,
    pub view_height: u16,
    pub activity_rect: Option<Rect>,
    pub todos_rect: Option<Rect>,
    pub hint_context_rect: Option<Rect>,
    pub sticky: Option<StickyHeader>,
    pub layout_map: LayoutMap,
    /// Panel of the open overlay.
    pub modal_rect: Option<Rect>,
    /// Whether a click beside the open overlay closes it.
    pub modal_dismissable: bool,
    /// How far the details of the permission sheet scroll, where it is drawn.
    pub permission_max_scroll: Option<usize>,
}

/// The state with what drawing found out.
pub open spec fn measured(a: App, m: FrameMeasure) -> App {
    App {
        view: TranscriptView {
            content_lines: m.content_lines,
            view_height: m.view_height,
            sticky_step: match m.sticky {
                Some(header) => Some(header.message_idx),
                None => None,
            },
            sticky_rect: match m.sticky {
                Some(header) => Some(header.rect),
                None => None,
            },
            sticky_summary_line: match m.sticky {
                Some(header) => Some(header.summary_line),
                None => None,
            },
            ..a.view
        },
        screen: Screen {
            layout_map: m.layout_map,
            activity_rect: m.activity_rect,
            todos_rect: m.todos_rect,
            hint_context_rect: m.hint_context_rect,
            modal_rect: if m.modal_dismissable {
                m.modal_rect
            } else {
                None
            },
        },
        permission: match m.permission_max_scroll {
            Some(max) => PermissionSheet {
                permission_max_scroll: max,
                permission_scroll: if a.permission.permission_scroll > max {
                    max
                } else {
                    a.permission.permission_scroll
                },
                ..a.permission
            },
            None => a.permission,
        },
        ..a
    }
}

/// The state once a frame is drawn: the scroll position is settled, and a
/// focus that left the screen dropped.
pub open spec fn frame_finished(a: App, m: FrameMeasure) -> App {
    let known = measured(a, m);
    focus_retained(App { view: view_settled(known.view), ..known })
}

/// Keeps what drawing a frame found out.
pub fn finish_frame(app: &mut App, measure: FrameMeasure)
    ensures
        *final(app) == frame_finished(*old(app), measure),
{
    app.view.content_lines = measure.content_lines;
    app.view.view_height = measure.view_height;
    app.screen.activity_rect = measure.activity_rect;
    app.screen.todos_rect = measure.todos_rect;
    app.screen.hint_context_rect = measure.hint_context_rect;
    match measure.sticky {
        Some(header) => {
            app.view.sticky_step = Some(header.message_idx);
            app.view.sticky_rect = Some(header.rect);
            app.view.sticky_summary_line = Some(header.summary_line);
        },
        None => {
            app.view.sticky_step = None;
            app.view.sticky_rect = None;
            app.view.sticky_summary_line = None;
        },
    }
    if let Some(max) = measure.permission_max_scroll {
        app.permission.permission_max_scroll = max;
        if app.permission.permission_scroll > max {
            app.permission.permission_scroll = max;
        }
    }
    app.screen.layout_map = measure.layout_map;
    app.screen.modal_rect = if measure.modal_dismissable {
        measure.modal_rect
    } else {
        None
    };
    settle_scroll(app);
    app.retain_visible_focused_target();
}

/// Whether the line is exactly `completion`, which replaces all of it.
pub open spec fn is_exact(completion: Completion, input: Seq<char>) -> bool {
    &&& completion.replace_start == 0
    &&& completion.replace_end == byte_len(input)
    &&& completion.label@ == input
}

fn has_exact(completions: &Vec<Completion>, input: &str) -> (found: bool)
    ensures
        found == exists|i: int|
            0 <= i < completions@.len() && is_exact(#[trigger] completions@[i], input@),
{
    let bytes: u128 = utf8_len(input);
    let count: usize = completions.len();
    let mut i: usize = 0;
    while i < count
        invariant
            i <= count,
            count == completions@.len(),
            bytes == byte_len(input@),
            forall|k: int| 0 <= k < i ==> !is_exact(#[trigger] completions@[k], input@),
        decreases count - i,
    {
        let completion: &Completion = &completions[i];
        if completion.replace_start == 0 && completion.replace_end as u128 == bytes && same_text(
            completion.label.as_str(),
            input,
        ) {
            assert(is_exact(completions@[i as int], input@));
            return true;
        }
        i += 1;
    }
    false
}

/// Whether completions stay away: the history overlay borrows the line, or
/// the menu was closed.
pub open spec fn completions_hidden(a: App) -> bool {
    a.overlay.active_modal == Modal::HistorySearch || a.composer.completion_dismissed
}

/// What the next event is read against. `completions` is what the line
/// suggests, `kind` the menu it opens, `dismissable` whether a click beside
/// the open overlay closes it.
pub open spec fn context_of(
    a: App,
    responding: bool,
    completions: Seq<Completion>,
    kind: CompletionKind,
    dismissable: bool,
) -> InputContext {
    let hidden = completions_hidden(a);
    InputContext {
        active_modal: a.overlay.active_modal,
        modal_dismissable: dismissable,
        is_responding: responding,
        completion_kind: if hidden {
            CompletionKind::Closed
        } else {
            kind
        },
        suggestion_count: if hidden {
            0
        } else {
            completions.len() as usize
        },
        has_exact_suggestion: !hidden && exists|i: int|
            0 <= i < completions.len() && is_exact(#[trigger] completions[i], a.composer.input@),
        suggestion_index: a.composer.suggestion_index,
        permission_confirm_always: a.permission.permission_confirm_always,
        permission_show_details: a.permission.permission_show_details,
        in_envoy_view: a.view.focus_stack@.len() > 0,
        in_side_view: a.view.in_side_view,
        has_focused_target: a.view.focused_target is Some,
        has_queued: a.composer.pending_dispatch@.len() > 0,
        history_searching: a.overlay.history_search,
        model_searching: a.picker.model_search,
        picker_in_models_stage: a.picker.picker_provider is Some,
        custom_provider_field: if a.overlay.active_modal == Modal::CustomProvider {
            Some(a.provider_editor.custom_field)
        } else {
            None
        },
        editor_field: if a.overlay.active_modal == Modal::ModelEditor {
            Some(a.key_editor.editor_field)
        } else {
            None
        },
        question_other_highlighted: match a.question {
            Some(question) => question.other_highlighted,
            None => false,
        },
    }
}

/// What the next event is read against.
pub fn input_context(
    app: &App,
    responding: bool,
    completions: &Vec<Completion>,
    kind: CompletionKind,
    dismissable: bool,
) -> (context: InputContext)
    ensures
        context == context_of(*app, responding, completions@, kind, dismissable),
{
    let hidden: bool = app.overlay.active_modal == Modal::HistorySearch
        || app.composer.completion_dismissed;
    InputContext {
        active_modal: app.overlay.active_modal,
        modal_dismissable: dismissable,
        is_responding: responding,
        completion_kind: if hidden {
            CompletionKind::Closed
        } else {
            kind
        },
        suggestion_count: if hidden {
            0
        } else {
            completions.len()
        },
        has_exact_suggestion: !hidden && has_exact(completions, app.composer.input.as_str()),
        suggestion_index: app.composer.suggestion_index,
        permission_confirm_always: app.permission.permission_confirm_always,
        permission_show_details: app.permission.permission_show_details,
        in_envoy_view: app.in_envoy_view(),
        in_side_view: app.view.in_side_view,
        has_focused_target: app.view.focused_target.is_some(),
        has_queued: app.composer.pending_dispatch.len() > 0,
        history_searching: app.overlay.history_search,
        model_searching: app.picker.model_search,
        picker_in_models_stage: app.picker.picker_provider.is_some(),
        custom_provider_field: if app.overlay.active_modal == Modal::CustomProvider {
            Some(app.provider_editor.custom_field)
        } else {
            None
        },
        editor_field: if app.overlay.active_modal == Modal::ModelEditor {
            Some(app.key_editor.editor_field)
        } else {
            None
        },
        question_other_highlighted: match &app.question {
            Some(question) => question.other_highlighted,
            None => false,
        },
    }
}

/// A permission request is never left without its sheet while no overlay is
/// open, and the sheet never stays without a request.
pub proof fn law_permission_sheet_follows_queue(a: App, request: Option<PermissionRequest>)
    ensures
        permission_synced(a, request).permission.pending_permission == request,
        a.overlay.active_modal == Modal::Closed && request is Some ==> permission_synced(
            a,
            request,
        ).overlay.active_modal == Modal::Permission,
        request is None ==> permission_synced(a, request).overlay.active_modal
            != Modal::Permission,
{
}

/// Once synced, the question overlay shows the oldest question, and syncing
/// again changes nothing.
pub proof fn law_question_sync_is_stable(
    a: App,
    request: Option<UserQuestionRequest>,
    b: App,
    c: App,
)
    requires
        question_synced(a, request, b),
        question_synced(b, request, c),
    ensures
        shows_question(b.question, request),
        c == b,
{
}

/// What a key press armed runs out by itself: after a tick less is left.
pub proof fn law_armed_keys_run_out(a: App, responding: bool)
    ensures
        a.toast.ctrl_c_armed_ticks > 0 ==> ticked(a, responding).toast.ctrl_c_armed_ticks
            == a.toast.ctrl_c_armed_ticks - 1,
        !responding ==> ticked(a, responding).toast.esc_armed_ticks == 0,
        a.toast.esc_armed_ticks > 0 ==> ticked(a, responding).toast.esc_armed_ticks
            < a.toast.esc_armed_ticks,
{
}

/// Bringing the overlays in step leaves nothing of an overlay that made way for
/// another.
pub proof fn law_sync_settles_overlays(a: App, r: UiRuntime, b: App)
    requires
        overlays_settled(a),
        overlays_synced(a, r, b),
    ensures
        overlays_settled(b),
{
}

} // verus!
