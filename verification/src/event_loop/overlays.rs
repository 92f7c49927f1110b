//! Overlays: opening, closing, and moving about in them.
use crate::agent::AgentRequest;
use crate::agent::SessionOverview;
use crate::app::composer::draft_parked;
use crate::app::composer::history_draft_restored;
use crate::app::composer::history_order;
use crate::app::composer::model_draft_restored;
use crate::app::picker::ends_in_adding_row;
use crate::app::switching::fields_given_up;
use crate::app::switching::switched;
use crate::app::switching::with_modal;
use crate::app::App;
use crate::app::Composer;
use crate::app::Effect;
use crate::app::KeyEditor;
use crate::app::Overlay;
use crate::app::PermissionSheet;
use crate::app::Picker;
use crate::app::QuestionAction;
use crate::event_loop::permission::send;
use crate::event_loop::picking::empty_line;
use crate::event_loop::picking::line_emptied;
use crate::modal::Modal;
use crate::providers::FuzzyMatch;
use vstd::prelude::*;

verus! {

/// The history overlay at the top of its list, searching or not.
pub open spec fn history_restarted(a: App, searching: bool) -> App {
    App {
        overlay: Overlay {
            history_search: searching,
            modal_index: 0,
            history_scroll: 0,
            history_modal_follow: true,
            history_preview: false,
            ..a.overlay
        },
        ..a
    }
}

fn restart_history(app: &mut App, searching: bool)
    ensures
        *final(app) == history_restarted(*old(app), searching),
{
    app.overlay.history_search = searching;
    app.overlay.modal_index = 0;
    app.overlay.history_scroll = 0;
    app.overlay.history_modal_follow = true;
    app.overlay.history_preview = false;
}

/// Whether the history overlay was opened: the draft is parked.
pub open spec fn history_opened(a: App, b: App) -> bool {
    &&& fields_given_up(Modal::HistorySearch, b)
    &&& draft_parked(with_modal(history_restarted(a, false), Modal::HistorySearch, b), b)
}

/// Opens the history overlay.
pub fn open_history(app: &mut App)
    ensures
        history_opened(*old(app), *final(app)),
{
    app.park_input_draft();
    restart_history(app, false);
    app.switch_modal(Modal::HistorySearch);
}

/// Starts searching the history.
pub fn enter_history_search(app: &mut App)
    ensures
        *final(app) == history_restarted(*old(app), true),
{
    restart_history(app, true);
}

/// Stops searching the history: the query is dropped, the parked draft stays
/// parked.
pub fn exit_history_search(app: &mut App)
    ensures
        line_emptied(history_restarted(*old(app), false), *final(app)),
{
    restart_history(app, false);
    empty_line(app);
}

/// Whether the history overlay filters its list by the line.
pub open spec fn searches_history(a: App) -> bool {
    a.overlay.history_search && a.composer.input@.len() > 0
}

/// The history entry that the selected row stands for: that of the first row
/// where the selection is beyond the list.
pub open spec fn selected_entry(a: App, matches: Seq<Option<FuzzyMatch>>) -> Option<int> {
    let rows = history_order(
        a.composer.input_history@.len() as int,
        searches_history(a),
        matches,
    );
    if a.overlay.modal_index < rows.len() {
        Some(rows[a.overlay.modal_index as int])
    } else if rows.len() > 0 {
        Some(rows[0])
    } else {
        None
    }
}

/// The line with the selected history entry in it.
pub open spec fn line_with_entry(a: App, matches: Seq<Option<FuzzyMatch>>) -> Composer {
    match selected_entry(a, matches) {
        Some(i) => {
            let text = a.composer.input_history@[i];
            Composer {
                input: text,
                cursor_position: text@.len() as usize,
                cursor_sync_pending: true,
                ..a.composer
            }
        },
        None => a.composer,
    }
}

/// Whether the selected history entry was put into the line, in place of the
/// parked draft.
pub open spec fn entry_inserted(a: App, matches: Seq<Option<FuzzyMatch>>, b: App) -> bool {
    let shown = with_modal(a, Modal::Closed, b);
    &&& fields_given_up(Modal::Closed, b)
    &&& b.composer.stashed_input@ == Seq::<char>::empty()
    &&& b == (App {
        composer: Composer {
            stashed_input: b.composer.stashed_input,
            input_scroll: 0,
            suggestion_index: None,
            completion_dismissed: true,
            ..line_with_entry(a, matches)
        },
        overlay: Overlay { modal_index: 0, ..shown.overlay },
        ..shown
    })
}

/// Whether `matches` says of every history entry whether it matches the line,
/// where the overlay filters by it.
pub open spec fn matches_fit(a: App, matches: Seq<Option<FuzzyMatch>>) -> bool {
    searches_history(a) ==> matches.len() == a.composer.input_history@.len()
}

fn find_selected_entry(app: &App, matches: &Vec<Option<FuzzyMatch>>) -> (at: Option<usize>)
    requires
        matches_fit(*app, matches@),
    ensures
        match at {
            Some(i) => selected_entry(*app, matches@) == Some(i as int) && i
                < app.composer.input_history@.len(),
            None => selected_entry(*app, matches@) is None,
        },
{
    let rows: Vec<(usize, FuzzyMatch)> = app.history_rows(matches);
    if app.overlay.modal_index < rows.len() {
        Some(rows[app.overlay.modal_index].0)
    } else if rows.len() > 0 {
        Some(rows[0].0)
    } else {
        None
    }
}

fn take_entry(app: &mut App, matches: &Vec<Option<FuzzyMatch>>)
    requires
        matches_fit(*old(app), matches@),
    ensures
        final(app).composer.stashed_input@ == Seq::<char>::empty(),
        *final(app) == (App {
            composer: Composer {
                stashed_input: final(app).composer.stashed_input,
                input_scroll: 0,
                suggestion_index: None,
                completion_dismissed: true,
                ..line_with_entry(*old(app), matches@)
            },
            ..*old(app)
        }),
{
    if let Some(at) = find_selected_entry(app, matches) {
        app.composer.input = app.composer.input_history[at].clone();
        app.set_cursor_end();
    }
    app.composer.stashed_input = String::new();
    app.composer.input_scroll = 0;
    app.composer.suggestion_index = None;
    app.composer.completion_dismissed = true;
}

/// Puts the selected history entry into the line.
pub fn insert_history(app: &mut App, matches: &Vec<Option<FuzzyMatch>>)
    requires
        matches_fit(*old(app), matches@),
    ensures
        entry_inserted(*old(app), matches@, *final(app)),
{
    take_entry(app, matches);
    app.switch_modal(Modal::Closed);
    app.overlay.modal_index = 0;
}

/// The state with the whole text of the selected history entry shown, or
/// hidden if it was.
pub open spec fn preview_toggled(a: App) -> App {
    App {
        overlay: Overlay {
            history_preview: !a.overlay.history_preview,
            history_scroll: 0,
            history_modal_follow: true,
            ..a.overlay
        },
        ..a
    }
}

/// Shows or hides the whole text of the selected history entry.
pub fn toggle_history_preview(app: &mut App)
    ensures
        *final(app) == preview_toggled(*old(app)),
{
    app.overlay.history_preview = !app.overlay.history_preview;
    app.overlay.history_scroll = 0;
    app.overlay.history_modal_follow = true;
}

/// Whether the key bindings were shown.
pub open spec fn help_opened(a: App, b: App) -> bool {
    let shown = with_modal(a, Modal::Help, b);
    &&& fields_given_up(Modal::Help, b)
    &&& b == (App {
        overlay: Overlay { modal_index: 0, help_scroll: 0, ..shown.overlay },
        ..shown
    })
}

/// Shows the key bindings.
pub fn open_help(app: &mut App)
    ensures
        help_opened(*old(app), *final(app)),
{
    app.switch_modal(Modal::Help);
    app.overlay.modal_index = 0;
    app.overlay.help_scroll = 0;
}

/// Whether `b` is `a` with a request behind it.
pub open spec fn requested(a: App, request: AgentRequest, b: App) -> bool {
    &&& b.outbox@ == a.outbox@.push(Effect::Send(request))
    &&& b == (App { outbox: b.outbox, ..a })
}

/// Whether one of the managers of the session was opened and the session's
/// state asked for.
pub open spec fn manager_opened(a: App, modal: Modal, b: App) -> bool {
    let shown = with_modal(a, modal, b);
    &&& fields_given_up(modal, b)
    &&& requested(
        App {
            overlay: Overlay {
                modal_index: 0,
                session_scroll: 0,
                session_modal_follow: true,
                skills_expanded: None,
                ..shown.overlay
            },
            ..shown
        },
        AgentRequest::QuerySessionContext,
        b,
    )
}

/// Opens one of the managers of the session.
pub fn open_manager(app: &mut App, modal: Modal)
    ensures
        manager_opened(*old(app), modal, *final(app)),
{
    app.switch_modal(modal);
    app.overlay.modal_index = 0;
    app.overlay.session_scroll = 0;
    app.overlay.session_modal_follow = true;
    app.overlay.skills_expanded = None;
    send(app, AgentRequest::QuerySessionContext);
}

/// Whether the permissions manager was opened and the session's state asked
/// for.
pub open spec fn permissions_opened(a: App, b: App) -> bool {
    let shown = with_modal(a, Modal::Permissions, b);
    &&& fields_given_up(Modal::Permissions, b)
    &&& requested(
        App {
            overlay: Overlay { modal_index: 0, permissions_scroll: 0, ..shown.overlay },
            ..shown
        },
        AgentRequest::QuerySessionContext,
        b,
    )
}

/// Opens the permissions manager.
pub fn open_permissions(app: &mut App)
    ensures
        permissions_opened(*old(app), *final(app)),
{
    app.switch_modal(Modal::Permissions);
    app.overlay.modal_index = 0;
    app.overlay.permissions_scroll = 0;
    send(app, AgentRequest::QuerySessionContext);
}

/// Whether the configuration root was shown.
pub open spec fn config_opened(a: App, b: App) -> bool {
    let shown = with_modal(a, Modal::Config, b);
    &&& fields_given_up(Modal::Config, b)
    &&& b == (App {
        overlay: Overlay { modal_index: 0, config_scroll: 0, ..shown.overlay },
        ..shown
    })
}

/// Shows the configuration root.
pub fn open_config(app: &mut App)
    ensures
        config_opened(*old(app), *final(app)),
{
    app.switch_modal(Modal::Config);
    app.overlay.modal_index = 0;
    app.overlay.config_scroll = 0;
}

/// Whether the selected rule was asked to be revoked.
pub open spec fn rule_revoked(a: App, b: App) -> bool {
    match a.session.session_context {
        Some(context) => if a.overlay.modal_index < context.permissions@.len() {
            let rule = context.permissions@[a.overlay.modal_index as int];
            requested(a, AgentRequest::RevokePermission { tool: rule.tool, scope: rule.scope }, b)
        } else {
            b == a
        },
        None => b == a,
    }
}

/// Asks to revoke the selected rule.
pub fn revoke_selected(app: &mut App)
    ensures
        rule_revoked(*old(app), *final(app)),
{
    let mut request: Option<AgentRequest> = None;
    if let Some(context) = &app.session.session_context {
        if app.overlay.modal_index < context.permissions.len() {
            let rule = &context.permissions[app.overlay.modal_index];
            request = Some(
                AgentRequest::RevokePermission { tool: rule.tool.clone(), scope: rule.scope.clone() },
            );
        }
    }
    if let Some(request) = request {
        send(app, request);
    }
}

/// Whether all rules were asked to be revoked.
pub open spec fn rules_cleared(a: App, b: App) -> bool {
    requested(
        App { overlay: Overlay { modal_index: 0, ..a.overlay }, ..a },
        AgentRequest::ClearAllPermissions,
        b,
    )
}

/// Asks to revoke all rules.
pub fn clear_permissions(app: &mut App)
    ensures
        rules_cleared(*old(app), *final(app)),
{
    app.overlay.modal_index = 0;
    send(app, AgentRequest::ClearAllPermissions);
}

/// The selection one row up in a list of `count` rows, wrapping.
pub open spec fn row_above(at: usize, count: usize) -> usize {
    if count == 0 {
        0
    } else if at == 0 {
        (count - 1) as usize
    } else {
        (at - 1) as usize
    }
}

/// The selection one row down in a list of `count` rows, wrapping; an empty
/// list counts as one row.
pub open spec fn row_below(at: usize, count: usize) -> usize {
    if count == 0 {
        0
    } else {
        ((at + 1) % count as int) as usize
    }
}

fn step_row(at: usize, down: bool, count: usize) -> (next: usize)
    requires
        at < usize::MAX,
    ensures
        next == if down {
            row_below(at, count)
        } else {
            row_above(at, count)
        },
{
    if count == 0 {
        0
    } else if down {
        (at + 1) % count
    } else if at == 0 {
        count - 1
    } else {
        at - 1
    }
}

/// The number of tools that the tools manager lists.
pub open spec fn tool_count(a: App) -> usize {
    match a.session.session_context {
        Some(context) => context.tools@.len() as usize,
        None => 0,
    }
}

/// The number of rules that the permissions manager lists.
pub open spec fn rule_count(a: App) -> usize {
    match a.session.session_context {
        Some(context) => context.permissions@.len() as usize,
        None => 0,
    }
}

/// The state with the selection of a session manager moved. While it lists
/// nothing, its body scrolls instead.
pub open spec fn manager_row_moved(a: App, down: bool) -> App {
    let count = tool_count(a);
    let at = a.overlay.modal_index;
    let scroll = a.overlay.session_scroll;
    if count > 0 {
        App {
            overlay: Overlay {
                modal_index: if down {
                    row_below(at, count)
                } else {
                    row_above(at, count)
                },
                session_modal_follow: true,
                ..a.overlay
            },
            ..a
        }
    } else {
        App {
            overlay: Overlay {
                session_scroll: if down {
                    if scroll == usize::MAX {
                        scroll
                    } else {
                        (scroll + 1) as usize
                    }
                } else if scroll == 0 {
                    0
                } else {
                    (scroll - 1) as usize
                },
                ..a.overlay
            },
            ..a
        }
    }
}

/// Moves the selection of a session manager.
pub fn move_manager_row(app: &mut App, down: bool)
    requires
        old(app).overlay.modal_index < usize::MAX,
    ensures
        *final(app) == manager_row_moved(*old(app), down),
{
    let count: usize = app.session_tools_len();
    if count > 0 {
        app.overlay.modal_index = step_row(app.overlay.modal_index, down, count);
        app.overlay.session_modal_follow = true;
    } else if down {
        app.overlay.session_scroll = app.overlay.session_scroll.saturating_add(1);
    } else {
        app.overlay.session_scroll = app.overlay.session_scroll.saturating_sub(1);
    }
}

/// Whether the selected tool was asked to flip.
pub open spec fn tool_flipped(a: App, b: App) -> bool {
    match a.session.session_context {
        Some(context) => if a.overlay.modal_index < context.tools@.len() {
            let tool = context.tools@[a.overlay.modal_index as int];
            requested(
                a,
                AgentRequest::ToggleTool { name: tool.name, enabled: !tool.enabled },
                b,
            )
        } else {
            b == a
        },
        None => b == a,
    }
}

/// Asks to flip the selected tool.
pub fn flip_selected_tool(app: &mut App)
    ensures
        tool_flipped(*old(app), *final(app)),
{
    if let Some(request) = app.session_activate_request() {
        send(app, request);
    }
}

/// Whether the selected skill was unfolded or folded.
pub open spec fn skill_toggled(a: App) -> App {
    App {
        overlay: Overlay {
            skills_expanded: if a.overlay.skills_expanded == Some(a.overlay.modal_index) {
                None
            } else {
                Some(a.overlay.modal_index)
            },
            ..a.overlay
        },
        ..a
    }
}

/// Unfolds or folds the selected skill.
pub fn toggle_skill(app: &mut App)
    ensures
        *final(app) == skill_toggled(*old(app)),
{
    let at: usize = app.overlay.modal_index;
    let open: bool = match app.overlay.skills_expanded {
        Some(row) => row == at,
        None => false,
    };
    app.overlay.skills_expanded = if open {
        None
    } else {
        Some(at)
    };
}

/// The session that the selected row stands for: the last one where the
/// selection is beyond the list.
pub open spec fn selected_session(a: App) -> Option<SessionOverview> {
    let list = a.session.sessions_overview@;
    let at = a.overlay.modal_index as int;
    if list.len() == 0 {
        None
    } else if at < list.len() {
        Some(list[at])
    } else {
        Some(list.last())
    }
}

fn selected_session_id(app: &App) -> (id: Option<String>)
    ensures
        match id {
            Some(text) => selected_session(*app) matches Some(session) && text == session.id,
            None => selected_session(*app) is None,
        },
{
    let count: usize = app.session.sessions_overview.len();
    if count == 0 {
        return None;
    }
    let at: usize = if app.overlay.modal_index < count {
        app.overlay.modal_index
    } else {
        count - 1
    };
    Some(app.session.sessions_overview[at].id.clone())
}

/// Whether the selected session was asked to open.
pub open spec fn session_opened(a: App, b: App) -> bool {
    match selected_session(a) {
        Some(session) => {
            &&& b.outbox@.len() == a.outbox@.len() + 1
            &&& b.outbox@.drop_last() == a.outbox@
            &&& b.outbox@.last() matches Effect::Send(AgentRequest::SlashCommand(command))
                && command@ == "/session open "@ + session.id@
            &&& fields_given_up(Modal::Closed, b)
            &&& b == (App {
                outbox: b.outbox,
                overlay: Overlay { active_modal: Modal::Closed, modal_index: 0, ..a.overlay },
                ..with_modal(a, Modal::Closed, b)
            })
        },
        None => b == a,
    }
}

/// Asks to open the selected session.
pub fn open_selected_session(app: &mut App)
    ensures
        session_opened(*old(app), *final(app)),
{
    if let Some(id) = selected_session_id(app) {
        app.switch_modal(Modal::Closed);
        app.overlay.modal_index = 0;
        let mut command: String = "/session open ".to_owned();
        command.append(id.as_str());
        send(app, AgentRequest::SlashCommand(command));
        proof {
            assert(app.outbox@.drop_last() =~= old(app).outbox@);
        }
    }
}

/// Whether the selected session was asked to be deleted.
pub open spec fn session_deleted(a: App, b: App) -> bool {
    match selected_session(a) {
        Some(session) => requested(a, AgentRequest::DeleteSession { id: session.id }, b),
        None => b == a,
    }
}

/// Asks to delete the selected session.
pub fn delete_selected_session(app: &mut App)
    ensures
        session_deleted(*old(app), *final(app)),
{
    if let Some(id) = selected_session_id(app) {
        send(app, AgentRequest::DeleteSession { id });
    }
}

/// Whether the open overlay was closed: those that borrow the line give the
/// draft back; the key editor steps back to the picker.
pub open spec fn modal_closed(a: App, b: App) -> bool {
    let shut = App { overlay: Overlay { active_modal: Modal::Closed, ..a.overlay }, ..a };
    match a.overlay.active_modal {
        Modal::HistorySearch => history_draft_restored(shut, b),
        Modal::Provider => model_draft_restored(shut, b),
        Modal::ModelEditor => {
            let shown = with_modal(a, Modal::Provider, b);
            &&& fields_given_up(Modal::Provider, b)
            &&& b.composer.input@ == Seq::<char>::empty()
            &&& b == (App {
                key_editor: KeyEditor { editor_target: None, ..a.key_editor },
                composer: Composer {
                    input: b.composer.input,
                    cursor_position: 0,
                    cursor_sync_pending: true,
                    ..a.composer
                },
                picker: Picker { model_search: false, model_modal_follow: true, ..shown.picker },
                ..shown
            })
        },
        _ => switched(a, Modal::Closed, b),
    }
}

/// Closes the open overlay.
pub fn close_modal(app: &mut App)
    ensures
        modal_closed(*old(app), *final(app)),
{
    match app.overlay.active_modal {
        Modal::HistorySearch => {
            app.restore_history_draft();
            app.overlay.active_modal = Modal::Closed;
        },
        Modal::Provider => {
            app.restore_model_draft();
            app.overlay.active_modal = Modal::Closed;
        },
        Modal::ModelEditor => {
            app.key_editor.editor_target = None;
            app.composer.input = String::new();
            app.set_cursor(0);
            app.picker.model_search = false;
            app.picker.model_modal_follow = true;
            app.switch_modal(Modal::Provider);
        },
        _ => app.switch_modal(Modal::Closed),
    }
}

/// The number of rows that the open overlay's selection walks; nothing where
/// it has no list. The picker and the history list what they were filtered
/// to, the picker with a row for adding behind it where it has one.
pub open spec fn row_count(a: App, picker_rows: usize, history_rows: usize) -> Option<usize> {
    match a.overlay.active_modal {
        Modal::Provider => Some(
            if ends_in_adding_row(a) {
                (picker_rows + 1) as usize
            } else {
                picker_rows
            },
        ),
        Modal::HistorySearch => Some(history_rows),
        Modal::Permission => Some(
            if a.permission.permission_confirm_always {
                2
            } else {
                4
            },
        ),
        Modal::Sessions => Some(a.session.sessions_overview@.len() as usize),
        Modal::Permissions => Some(rule_count(a)),
        _ => None,
    }
}

/// The state with the open overlay's selection moved by a row. The body
/// follows the selection; a preview starts at its top again.
pub open spec fn row_moved(a: App, down: bool, picker_rows: usize, history_rows: usize) -> App {
    match row_count(a, picker_rows, history_rows) {
        Some(count) => {
            let at = if down {
                row_below(a.overlay.modal_index, count)
            } else {
                row_above(a.overlay.modal_index, count)
            };
            let in_history = a.overlay.active_modal == Modal::HistorySearch;
            App {
                overlay: Overlay {
                    modal_index: at,
                    history_modal_follow: in_history || a.overlay.history_modal_follow,
                    history_scroll: if in_history && a.overlay.history_preview {
                        0
                    } else {
                        a.overlay.history_scroll
                    },
                    ..a.overlay
                },
                picker: Picker {
                    model_modal_follow: a.overlay.active_modal == Modal::Provider
                        || a.picker.model_modal_follow,
                    ..a.picker
                },
                ..a
            }
        },
        None => a,
    }
}

fn rules_listed(app: &App) -> (count: usize)
    ensures
        count == rule_count(*app),
{
    match &app.session.session_context {
        Some(context) => context.permissions.len(),
        None => 0,
    }
}

/// Moves the open overlay's selection by a row.
pub fn move_row(app: &mut App, down: bool, picker_rows: usize, history_rows: usize)
    requires
        old(app).overlay.modal_index < usize::MAX,
        old(app).overlay.active_modal == Modal::Provider ==> picker_rows < usize::MAX,
    ensures
        *final(app) == row_moved(*old(app), down, picker_rows, history_rows),
{
    let at: usize = app.overlay.modal_index;
    match app.overlay.active_modal {
        Modal::Provider => {
            let count: usize = if app.offers_adding() {
                picker_rows + 1
            } else {
                picker_rows
            };
            app.overlay.modal_index = step_row(at, down, count);
            app.picker.model_modal_follow = true;
        },
        Modal::HistorySearch => {
            app.overlay.modal_index = step_row(at, down, history_rows);
            app.overlay.history_modal_follow = true;
            if app.overlay.history_preview {
                app.overlay.history_scroll = 0;
            }
        },
        Modal::Permission => {
            let count: usize = if app.permission.permission_confirm_always {
                2
            } else {
                4
            };
            app.overlay.modal_index = step_row(at, down, count);
        },
        Modal::Sessions => {
            app.overlay.modal_index = step_row(at, down, app.session.sessions_overview.len());
        },
        Modal::Permissions => {
            app.overlay.modal_index = step_row(at, down, rules_listed(app));
        },
        _ => {},
    }
}

/// The permission sheet back from its confirmation.
pub open spec fn confirmation_left(a: App) -> App {
    App {
        permission: PermissionSheet { permission_confirm_always: false, ..a.permission },
        overlay: Overlay { modal_index: 1, ..a.overlay },
        ..a
    }
}

/// Goes back from the confirmation of the permission sheet.
pub fn leave_confirmation(app: &mut App)
    ensures
        *final(app) == confirmation_left(*old(app)),
{
    app.permission.permission_confirm_always = false;
    app.overlay.modal_index = 1;
}

/// Whether a question action moves the highlight.
pub open spec fn moves_highlight(action: QuestionAction) -> bool {
    action is Up || action is Down || action is Select
}

/// Whether the open question was handed `action`. The body follows a moved
/// highlight; a cancelled question takes no further action.
pub open spec fn question_forwarded(a: App, action: QuestionAction, b: App) -> bool {
    if a.overlay.active_modal == Modal::Question && a.question is Some {
        &&& b.outbox@ == a.outbox@.push(Effect::Question(action))
        &&& b == (App {
            outbox: b.outbox,
            overlay: Overlay {
                question_modal_follow: moves_highlight(action) || a.overlay.question_modal_follow,
                ..a.overlay
            },
            question: if action is Cancel {
                None
            } else {
                a.question
            },
            ..a
        })
    } else {
        b == a
    }
}

/// Hands `action` to the open question.
pub fn forward_question(app: &mut App, action: QuestionAction)
    ensures
        question_forwarded(*old(app), action, *final(app)),
{
    if app.overlay.active_modal == Modal::Question && app.question.is_some() {
        match action {
            QuestionAction::Up | QuestionAction::Down | QuestionAction::Select(_) => {
                app.overlay.question_modal_follow = true;
            },
            QuestionAction::Cancel => {
                app.question = None;
            },
            _ => {},
        }
        app.outbox.push(Effect::Question(action));
    }
}

/// Opening the history overlay and closing it again gives the draft back.
pub proof fn law_closing_history_gives_draft_back(a: App, b: App, c: App)
    requires
        history_opened(a, b),
        modal_closed(b, c),
    ensures
        c.composer.input == a.composer.input,
        c.overlay.active_modal == Modal::Closed,
{
}

/// A search in the history does not touch the parked draft.
pub proof fn law_history_search_keeps_draft(a: App, b: App, c: App, d: App)
    requires
        history_opened(a, b),
        line_emptied(history_restarted(history_restarted(b, true), false), c),
        modal_closed(c, d),
    ensures
        d.composer.input == a.composer.input,
{
}

/// Cancelling the key editor leads back to the picker, and cancelling the
/// picker gives the draft back.
pub proof fn law_cancelling_key_editor_keeps_draft(a: App, b: App, c: App)
    requires
        a.overlay.active_modal == Modal::ModelEditor,
        modal_closed(a, b),
        modal_closed(b, c),
    ensures
        b.overlay.active_modal == Modal::Provider,
        c.composer.input == a.composer.stashed_input,
        c.overlay.active_modal == Modal::Closed,
{
}

/// The selection stays on a row of a list that is not empty.
pub proof fn law_selection_stays_on_a_row(a: App, down: bool, picker_rows: usize, history_rows: usize)
    requires
        row_count(a, picker_rows, history_rows) matches Some(count) && count > 0
            && a.overlay.modal_index < count,
    ensures
        row_moved(a, down, picker_rows, history_rows).overlay.modal_index < row_count(
            a,
            picker_rows,
            history_rows,
        )->Some_0,
{
    let count = row_count(a, picker_rows, history_rows)->Some_0;
    vstd::arithmetic::div_mod::lemma_mod_bound(a.overlay.modal_index + 1, count as int);
}

/// A step down and a step up of the selection are inverse to each other.
pub proof fn law_row_steps_are_inverse(at: usize, count: usize)
    requires
        at < count,
    ensures
        row_above(row_below(at, count), count) == at,
        row_below(row_above(at, count), count) == at,
{
    if at + 1 < count {
        vstd::arithmetic::div_mod::lemma_small_mod((at + 1) as nat, count as nat);
    } else {
        vstd::arithmetic::div_mod::lemma_mod_self_0(count as int);
    }
    let above = row_above(at, count);
    if above + 1 < count {
        vstd::arithmetic::div_mod::lemma_small_mod((above + 1) as nat, count as nat);
    } else {
        vstd::arithmetic::div_mod::lemma_mod_self_0(count as int);
    }
}

} // verus!
