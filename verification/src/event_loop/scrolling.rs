//! Scrolling: the body of the open overlay, or the transcript.
use crate::app::App;
use crate::app::Overlay;
use crate::app::PermissionSheet;
use crate::app::Picker;
use crate::app::TranscriptView;
use crate::modal::Modal;
use vstd::prelude::*;

verus! {

/// Lines that a wheel tick moves the transcript by.
pub const WHEEL_LINES: u16 = 4;

/// A move of a scroll position.
#[derive(Debug, Clone, Copy, PartialEq, Eq, Structural)]
pub enum ScrollMove {
    Up(u16),
    Down(u16),
    Top,
    Bottom,
}

/// Where `at` moves to. The renderer keeps the bodies of overlays in bounds,
/// so the bottom is as far as it goes.
pub open spec fn moved(at: usize, by: ScrollMove) -> usize {
    match by {
        ScrollMove::Up(n) => if at >= n {
            (at - n) as usize
        } else {
            0
        },
        ScrollMove::Down(n) => if at + n <= usize::MAX {
            (at + n) as usize
        } else {
            usize::MAX
        },
        ScrollMove::Top => 0,
        ScrollMove::Bottom => usize::MAX,
    }
}

fn move_scroll(at: usize, by: ScrollMove) -> (to: usize)
    ensures
        to == moved(at, by),
{
    match by {
        ScrollMove::Up(n) => at.saturating_sub(n as usize),
        ScrollMove::Down(n) => at.saturating_add(n as usize),
        ScrollMove::Top => 0,
        ScrollMove::Bottom => usize::MAX,
    }
}

/// The state with the body of the open overlay scrolled; nothing where the
/// overlay has no body of its own. Bodies that follow a selection stop
/// following it.
pub open spec fn body_scrolled(a: App, by: ScrollMove) -> Option<App> {
    let overlay = a.overlay;
    match overlay.active_modal {
        Modal::Tools | Modal::Mcp | Modal::Skills => Some(
            App {
                overlay: Overlay {
                    session_modal_follow: false,
                    session_scroll: moved(overlay.session_scroll, by),
                    ..overlay
                },
                ..a
            },
        ),
        Modal::Permissions => Some(
            App {
                overlay: Overlay {
                    permissions_scroll: moved(overlay.permissions_scroll, by),
                    ..overlay
                },
                ..a
            },
        ),
        Modal::Config | Modal::ConfigNudge | Modal::ConfigLayout => Some(
            App {
                overlay: Overlay { config_scroll: moved(overlay.config_scroll, by), ..overlay },
                ..a
            },
        ),
        Modal::HistorySearch => Some(
            App {
                overlay: Overlay {
                    history_modal_follow: false,
                    history_scroll: moved(overlay.history_scroll, by),
                    ..overlay
                },
                ..a
            },
        ),
        Modal::Provider => Some(
            App {
                picker: Picker {
                    model_modal_follow: false,
                    model_scroll: moved(a.picker.model_scroll, by),
                    ..a.picker
                },
                ..a
            },
        ),
        Modal::Help => Some(
            App {
                overlay: Overlay { help_scroll: moved(overlay.help_scroll, by), ..overlay },
                ..a
            },
        ),
        Modal::Activity => Some(
            App {
                overlay: Overlay {
                    activity_scroll: moved(overlay.activity_scroll, by),
                    ..overlay
                },
                ..a
            },
        ),
        Modal::Question => Some(
            App {
                overlay: Overlay {
                    question_modal_follow: false,
                    question_scroll: moved(overlay.question_scroll, by),
                    ..overlay
                },
                ..a
            },
        ),
        _ => None,
    }
}

/// Scrolls the body of the open overlay. Says whether it has one.
fn scroll_body(app: &mut App, by: ScrollMove) -> (scrolled: bool)
    ensures
        match body_scrolled(*old(app), by) {
            Some(b) => scrolled && *final(app) == b,
            None => !scrolled && *final(app) == *old(app),
        },
{
    match app.overlay.active_modal {
        Modal::Tools | Modal::Mcp | Modal::Skills => {
            app.overlay.session_modal_follow = false;
            app.overlay.session_scroll = move_scroll(app.overlay.session_scroll, by);
        },
        Modal::Permissions => {
            app.overlay.permissions_scroll = move_scroll(app.overlay.permissions_scroll, by);
        },
        Modal::Config | Modal::ConfigNudge | Modal::ConfigLayout => {
            app.overlay.config_scroll = move_scroll(app.overlay.config_scroll, by);
        },
        Modal::HistorySearch => {
            app.overlay.history_modal_follow = false;
            app.overlay.history_scroll = move_scroll(app.overlay.history_scroll, by);
        },
        Modal::Provider => {
            app.picker.model_modal_follow = false;
            app.picker.model_scroll = move_scroll(app.picker.model_scroll, by);
        },
        Modal::Help => {
            app.overlay.help_scroll = move_scroll(app.overlay.help_scroll, by);
        },
        Modal::Activity => {
            app.overlay.activity_scroll = move_scroll(app.overlay.activity_scroll, by);
        },
        Modal::Question => {
            app.overlay.question_modal_follow = false;
            app.overlay.question_scroll = move_scroll(app.overlay.question_scroll, by);
        },
        _ => {
            return false;
        },
    }
    true
}

/// The view scrolled. Scrolling up stops following the newest content;
/// reaching the bottom takes it up again.
pub open spec fn view_scrolled(view: TranscriptView, by: ScrollMove) -> TranscriptView {
    match by {
        ScrollMove::Up(n) => TranscriptView {
            follow_bottom: false,
            pin_summary_line: None,
            scroll: if view.scroll >= n {
                (view.scroll - n) as u16
            } else {
                0
            },
            ..view
        },
        ScrollMove::Down(n) => {
            let reached = view.scroll + n >= view.max_scroll;
            TranscriptView {
                follow_bottom: view.follow_bottom || reached,
                pin_summary_line: None,
                scroll: if reached {
                    view.max_scroll
                } else {
                    (view.scroll + n) as u16
                },
                ..view
            }
        },
        ScrollMove::Top => TranscriptView {
            follow_bottom: false,
            pin_summary_line: None,
            scroll: 0,
            ..view
        },
        ScrollMove::Bottom => TranscriptView {
            follow_bottom: true,
            pin_summary_line: None,
            scroll: view.max_scroll,
            ..view
        },
    }
}

fn scroll_view(view: &mut TranscriptView, by: ScrollMove)
    ensures
        *final(view) == view_scrolled(*old(view), by),
{
    view.pin_summary_line = None;
    match by {
        ScrollMove::Up(n) => {
            view.follow_bottom = false;
            view.scroll = view.scroll.saturating_sub(n);
        },
        ScrollMove::Down(n) => {
            let to: u16 = view.scroll.saturating_add(n);
            if to >= view.max_scroll {
                view.scroll = view.max_scroll;
                view.follow_bottom = true;
            } else {
                view.scroll = to;
            }
        },
        ScrollMove::Top => {
            view.follow_bottom = false;
            view.scroll = 0;
        },
        ScrollMove::Bottom => {
            view.scroll = view.max_scroll;
            view.follow_bottom = true;
        },
    }
}

/// The state once the user has scrolled: the open overlay's body takes `body`,
/// else the transcript takes `transcript`.
pub open spec fn scrolled(a: App, body: ScrollMove, transcript: ScrollMove) -> App {
    match body_scrolled(a, body) {
        Some(b) => b,
        None => App { view: view_scrolled(a.view, transcript), ..a },
    }
}

fn scroll(app: &mut App, body: ScrollMove, transcript: ScrollMove)
    ensures
        *final(app) == scrolled(*old(app), body, transcript),
{
    if !scroll_body(app, body) {
        scroll_view(&mut app.view, transcript);
    }
}

/// What a wheel tick does.
pub open spec fn wheel_scrolled(a: App, up: bool) -> App {
    if up {
        scrolled(a, ScrollMove::Up(1), ScrollMove::Up(WHEEL_LINES))
    } else {
        scrolled(a, ScrollMove::Down(1), ScrollMove::Down(WHEEL_LINES))
    }
}

/// Lines of a page: the height of the view less one line of context.
pub open spec fn page_lines(view: TranscriptView) -> u16 {
    if view.view_height >= 2 {
        (view.view_height - 1) as u16
    } else {
        1
    }
}

/// What a page key does.
pub open spec fn page_scrolled(a: App, up: bool) -> App {
    let n = page_lines(a.view);
    if up {
        scrolled(a, ScrollMove::Up(n), ScrollMove::Up(n))
    } else {
        scrolled(a, ScrollMove::Down(n), ScrollMove::Down(n))
    }
}

/// What a jump to the first or last line does.
pub open spec fn edge_scrolled(a: App, top: bool) -> App {
    if top {
        scrolled(a, ScrollMove::Top, ScrollMove::Top)
    } else {
        scrolled(a, ScrollMove::Bottom, ScrollMove::Bottom)
    }
}

/// Scrolls by a wheel tick: one line of an overlay, several of the transcript.
pub fn scroll_wheel(app: &mut App, up: bool)
    ensures
        *final(app) == wheel_scrolled(*old(app), up),
{
    if up {
        scroll(app, ScrollMove::Up(1), ScrollMove::Up(WHEEL_LINES));
    } else {
        scroll(app, ScrollMove::Down(1), ScrollMove::Down(WHEEL_LINES));
    }
}

/// Scrolls by a page.
pub fn scroll_page(app: &mut App, up: bool)
    ensures
        *final(app) == page_scrolled(*old(app), up),
{
    let n: u16 = if app.view.view_height >= 2 {
        app.view.view_height - 1
    } else {
        1
    };
    if up {
        scroll(app, ScrollMove::Up(n), ScrollMove::Up(n));
    } else {
        scroll(app, ScrollMove::Down(n), ScrollMove::Down(n));
    }
}

/// Scrolls to the first or the last line.
pub fn scroll_edge(app: &mut App, top: bool)
    ensures
        *final(app) == edge_scrolled(*old(app), top),
{
    if top {
        scroll(app, ScrollMove::Top, ScrollMove::Top);
    } else {
        scroll(app, ScrollMove::Bottom, ScrollMove::Bottom);
    }
}

/// The permission sheet with its details scrolled by a line.
pub open spec fn details_scrolled(a: App, up: bool) -> App {
    let sheet = a.permission;
    let to = moved(
        sheet.permission_scroll,
        if up {
            ScrollMove::Up(1)
        } else {
            ScrollMove::Down(1)
        },
    );
    App {
        permission: PermissionSheet {
            permission_scroll: if !up && to > sheet.permission_max_scroll {
                sheet.permission_max_scroll
            } else {
                to
            },
            ..sheet
        },
        ..a
    }
}

/// Scrolls the details of the permission sheet by a line.
pub fn scroll_details(app: &mut App, up: bool)
    ensures
        *final(app) == details_scrolled(*old(app), up),
{
    let at: usize = app.permission.permission_scroll;
    if up {
        app.permission.permission_scroll = at.saturating_sub(1);
    } else {
        let to: usize = at.saturating_add(1);
        app.permission.permission_scroll = if to > app.permission.permission_max_scroll {
            app.permission.permission_max_scroll
        } else {
            to
        };
    }
}

/// The bottom of `lines` lines in a view of `height` lines.
pub open spec fn bottom_of(lines: usize, height: u16) -> u16 {
    (if lines >= height {
        (lines - height) as usize
    } else {
        0usize
    }) as u16
}

/// The view once a frame has measured its content: the bottom is known anew,
/// and a position that the user chose stays in bounds. A pinned header may
/// stand at the top even where little content is left below it.
pub open spec fn view_settled(view: TranscriptView) -> TranscriptView {
    let bottom = bottom_of(view.content_lines, view.view_height);
    let limit = match view.pin_summary_line {
        Some(line) => {
            let line = if line <= u16::MAX {
                line as u16
            } else {
                u16::MAX
            };
            if line > bottom {
                line
            } else {
                bottom
            }
        },
        None => bottom,
    };
    TranscriptView {
        max_scroll: bottom,
        scroll: if !view.follow_bottom && view.scroll > limit {
            limit
        } else {
            view.scroll
        },
        ..view
    }
}

/// Brings the scroll position in line with what the latest frame measured.
pub fn settle_scroll(app: &mut App)
    ensures
        *final(app) == (App { view: view_settled(old(app).view), ..*old(app) }),
{
    let bottom: u16 = app.view.content_lines.saturating_sub(app.view.view_height as usize) as u16;
    app.view.max_scroll = bottom;
    if !app.view.follow_bottom {
        let mut limit: u16 = bottom;
        if let Some(line) = app.view.pin_summary_line {
            let line: u16 = if line <= u16::MAX as usize {
                line as u16
            } else {
                u16::MAX
            };
            if line > limit {
                limit = line;
            }
        }
        if app.view.scroll > limit {
            app.view.scroll = limit;
        }
    }
}

/// The view at the start of a frame: while it follows, it shows the bottom
/// that the previous frame measured.
pub open spec fn view_followed(view: TranscriptView) -> TranscriptView {
    TranscriptView {
        scroll: if view.follow_bottom {
            view.max_scroll
        } else {
            view.scroll
        },
        ..view
    }
}

/// Keeps the newest content in view while following.
pub fn follow_newest(app: &mut App)
    ensures
        *final(app) == (App { view: view_followed(old(app).view), ..*old(app) }),
{
    if app.view.follow_bottom {
        app.view.scroll = app.view.max_scroll;
    }
}

/// Scrolling the body of an overlay leaves the transcript where it is.
pub proof fn law_overlay_scroll_keeps_transcript(a: App, body: ScrollMove, transcript: ScrollMove)
    requires
        body_scrolled(a, body) is Some,
    ensures
        scrolled(a, body, transcript).view == a.view,
{
}

/// While only the permission sheet is open, scrolling moves the transcript
/// behind it.
pub proof fn law_permission_sheet_leaves_transcript_scrollable(
    a: App,
    body: ScrollMove,
    transcript: ScrollMove,
)
    requires
        a.overlay.active_modal == Modal::Permission,
    ensures
        scrolled(a, body, transcript) == (App { view: view_scrolled(a.view, transcript), ..a }),
{
}

/// No move takes the transcript past its bottom.
pub proof fn law_scroll_stays_in_bounds(view: TranscriptView, by: ScrollMove)
    requires
        view.scroll <= view.max_scroll,
    ensures
        view_scrolled(view, by).scroll <= view.max_scroll,
{
}

/// A move up or to the top stops following the newest content; one that ends
/// at the bottom takes it up.
pub proof fn law_following_ends_at_bottom(view: TranscriptView, by: ScrollMove)
    ensures
        by is Up || by is Top ==> !view_scrolled(view, by).follow_bottom,
        by is Bottom ==> view_scrolled(view, by).follow_bottom,
        by is Down && view_scrolled(view, by).scroll >= view.max_scroll ==> view_scrolled(
            view,
            by,
        ).follow_bottom,
{
}

/// Settling a view twice changes no more than settling it once. A settled
/// view without a pinned header is in bounds, and one that follows the newest
/// content ends at the bottom.
pub proof fn law_settling_is_stable(view: TranscriptView)
    ensures
        view_settled(view_settled(view)) == view_settled(view),
        view.pin_summary_line is None && !view.follow_bottom ==> view_settled(view).scroll
            <= view_settled(view).max_scroll,
        view.follow_bottom ==> view_followed(view_settled(view)).scroll == view_settled(
            view,
        ).max_scroll,
{
}

} // verus!
