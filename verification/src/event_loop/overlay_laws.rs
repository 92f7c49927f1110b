//! What the overlays are for: what they open on, what their rows do, and what
//! closing them gives back.
use crate::agent::AgentRequest;
use crate::agent::PermissionRequest;
use crate::agent::UserQuestionRequest;
use crate::app::composer::history_order;
use crate::app::composer::matching;
use crate::app::composer::worst_first;
use crate::app::App;
use crate::app::Effect;
use crate::event_loop::dispatch::carried_out;
use crate::event_loop::dispatch::on_lists;
use crate::event_loop::dispatch::on_overlays;
use crate::event_loop::dispatch::ActionFacts;
use crate::event_loop::frame::permission_synced;
use crate::event_loop::frame::question_synced;
use crate::event_loop::frame::sessions_synced;
use crate::event_loop::UiRuntime;
use crate::input::InputAction;
use crate::modal::Modal;
use crate::order::law_stable_order;
use crate::order::stable_order;
use crate::providers::FuzzyMatch;
use vstd::prelude::*;

verus! {

/// Whether `b` is `a` with one request sent.
pub open spec fn one_request(a: App, request: AgentRequest, b: App) -> bool {
    b.outbox@ == a.outbox@.push(Effect::Send(request))
}

/// Each key or command opens its own overlay, from its top; those that show the
/// session ask for its state, and the others send nothing.
pub proof fn law_overlays_open(a: App, r: UiRuntime, facts: ActionFacts, b: App, s: UiRuntime)
    ensures
        carried_out(a, r, InputAction::OpenHelp, facts, b, s) ==> b.overlay.active_modal
            == Modal::Help && b.overlay.help_scroll == 0 && b.outbox == a.outbox,
        carried_out(a, r, InputAction::OpenConfig, facts, b, s) ==> b.overlay.active_modal
            == Modal::Config && b.overlay.config_scroll == 0 && b.overlay.modal_index == 0
            && b.outbox == a.outbox,
        carried_out(a, r, InputAction::OpenTools, facts, b, s) ==> b.overlay.active_modal
            == Modal::Tools && b.overlay.modal_index == 0 && b.overlay.session_scroll == 0
            && one_request(a, AgentRequest::QuerySessionContext, b),
        carried_out(a, r, InputAction::OpenMcp, facts, b, s) ==> b.overlay.active_modal
            == Modal::Mcp && b.overlay.modal_index == 0 && one_request(
            a,
            AgentRequest::QuerySessionContext,
            b,
        ),
        carried_out(a, r, InputAction::OpenSkills, facts, b, s) ==> b.overlay.active_modal
            == Modal::Skills && b.overlay.modal_index == 0 && b.overlay.skills_expanded is None
            && one_request(a, AgentRequest::QuerySessionContext, b),
        carried_out(a, r, InputAction::OpenPermissions, facts, b, s) ==> b.overlay.active_modal
            == Modal::Permissions && b.overlay.modal_index == 0 && b.overlay.permissions_scroll
            == 0 && one_request(a, AgentRequest::QuerySessionContext, b),
        carried_out(a, r, InputAction::OpenHistory, facts, b, s) ==> b.overlay.active_modal
            == Modal::HistorySearch && b.overlay.modal_index == 0 && !b.overlay.history_search
            && !b.overlay.history_preview && b.composer.stashed_input == a.composer.input
            && b.composer.input@.len() == 0 && b.outbox == a.outbox,
{
    reveal(on_overlays);
    reveal(on_lists);
}

/// Closing an overlay leads back to the prompt, and from the key editor to the
/// picker; what borrowed the line gives the draft back, and nothing is sent.
pub proof fn law_overlays_close(a: App, r: UiRuntime, facts: ActionFacts, b: App, s: UiRuntime)
    requires
        carried_out(a, r, InputAction::CloseModal, facts, b, s),
    ensures
        b.outbox == a.outbox,
        s == r,
        a.overlay.active_modal == Modal::ModelEditor ==> b.overlay.active_modal == Modal::Provider
            && b.composer.input@.len() == 0 && b.composer.stashed_input
            == a.composer.stashed_input && b.key_editor.editor_target is None,
        a.overlay.active_modal != Modal::ModelEditor ==> b.overlay.active_modal == Modal::Closed,
        a.overlay.active_modal == Modal::HistorySearch || a.overlay.active_modal
            == Modal::Provider ==> b.composer.input == a.composer.stashed_input
            && b.composer.stashed_input@.len() == 0,
        a.overlay.active_modal != Modal::ModelEditor && a.overlay.active_modal
            != Modal::HistorySearch && a.overlay.active_modal != Modal::Provider ==> b.composer
            == a.composer,
{
    reveal(on_overlays);
}

/// What the selected row of a manager does: a rule is revoked, a tool flips, a
/// session opens or is deleted, a skill unfolds; each names the row's own thing.
pub proof fn law_rows_do_their_own_thing(
    a: App,
    r: UiRuntime,
    facts: ActionFacts,
    b: App,
    s: UiRuntime,
)
    ensures
        ({
            let at = a.overlay.modal_index as int;
            &&& carried_out(a, r, InputAction::PermissionsActivate, facts, b, s) && (
            a.session.session_context matches Some(context) && at < context.permissions@.len())
                ==> one_request(
                a,
                AgentRequest::RevokePermission {
                    tool: a.session.session_context->Some_0.permissions@[at].tool,
                    scope: a.session.session_context->Some_0.permissions@[at].scope,
                },
                b,
            )
            &&& carried_out(a, r, InputAction::PermissionsClearAll, facts, b, s) ==> one_request(
                a,
                AgentRequest::ClearAllPermissions,
                b,
            )
            &&& carried_out(a, r, InputAction::SessionActivate, facts, b, s) && (
            a.session.session_context matches Some(context) && at < context.tools@.len())
                ==> one_request(
                a,
                AgentRequest::ToggleTool {
                    name: a.session.session_context->Some_0.tools@[at].name,
                    enabled: !a.session.session_context->Some_0.tools@[at].enabled,
                },
                b,
            )
            &&& carried_out(a, r, InputAction::DeleteSelectedSession, facts, b, s) && at
                < a.session.sessions_overview@.len() ==> one_request(
                a,
                AgentRequest::DeleteSession { id: a.session.sessions_overview@[at].id },
                b,
            )
            &&& carried_out(a, r, InputAction::OpenSelectedSession, facts, b, s) && at
                < a.session.sessions_overview@.len() ==> b.outbox@.len() == a.outbox@.len() + 1 && (
            b.outbox@.last() matches Effect::Send(AgentRequest::SlashCommand(command)) && command@
                == "/session open "@ + a.session.sessions_overview@[at].id@)
                && b.overlay.active_modal == Modal::Closed
            &&& carried_out(a, r, InputAction::SkillsToggleDetail, facts, b, s)
                ==> b.overlay.skills_expanded == (if a.overlay.skills_expanded == Some(
                a.overlay.modal_index,
            ) {
                None
            } else {
                Some(a.overlay.modal_index)
            }) && b.outbox == a.outbox
        }),
{
    reveal(on_overlays);
}

/// The selection of a list moves by one row and goes around at the ends.
pub proof fn law_selection_walks_list(
    a: App,
    r: UiRuntime,
    n: int,
    facts: ActionFacts,
    b: App,
    s: UiRuntime,
)
    requires
        (a.overlay.active_modal == Modal::Sessions && n == a.session.sessions_overview@.len()) || (
        a.overlay.active_modal == Modal::Permissions && (
        a.session.session_context matches Some(context) && n == context.permissions@.len())),
        a.overlay.modal_index < n,
    ensures
        carried_out(a, r, InputAction::ModalDown, facts, b, s) ==> b.overlay.modal_index == (
        if a.overlay.modal_index + 1 < n {
            a.overlay.modal_index + 1
        } else {
            0
        }) && b.outbox == a.outbox && b.overlay.active_modal == a.overlay.active_modal,
        carried_out(a, r, InputAction::ModalUp, facts, b, s) ==> b.overlay.modal_index == (
        if a.overlay.modal_index > 0 {
            a.overlay.modal_index - 1
        } else {
            n - 1
        }) && b.outbox == a.outbox && b.overlay.active_modal == a.overlay.active_modal,
{
    reveal(on_lists);
    let count: usize = a.session.sessions_overview.len();
    if let Some(context) = a.session.session_context {
        let rules: usize = context.permissions.len();
    }
    if a.overlay.modal_index + 1 < n {
        vstd::arithmetic::div_mod::lemma_small_mod((a.overlay.modal_index + 1) as nat, n as nat);
    } else {
        vstd::arithmetic::div_mod::lemma_mod_self_0(n);
    }
}

/// The selection of the tools manager moves by one tool and goes around at the
/// ends.
pub proof fn law_selection_walks_tools(
    a: App,
    r: UiRuntime,
    forward: bool,
    facts: ActionFacts,
    b: App,
    s: UiRuntime,
)
    requires
        a.session.session_context matches Some(context) && a.overlay.modal_index
            < context.tools@.len(),
        carried_out(a, r, InputAction::SessionSelect { forward }, facts, b, s),
    ensures
        ({
            let n = a.session.session_context->Some_0.tools@.len();
            let at = a.overlay.modal_index;
            &&& b.overlay.modal_index == (if forward {
                if at + 1 < n {
                    at + 1
                } else {
                    0
                }
            } else if at > 0 {
                at - 1
            } else {
                n - 1
            })
            &&& b.overlay.session_modal_follow
            &&& b.outbox == a.outbox
        }),
{
    reveal(on_lists);
    let n = a.session.session_context->Some_0.tools@.len();
    let count: usize = a.session.session_context->Some_0.tools.len();
    if a.overlay.modal_index + 1 < n {
        vstd::arithmetic::div_mod::lemma_small_mod((a.overlay.modal_index + 1) as nat, n);
    } else {
        vstd::arithmetic::div_mod::lemma_mod_self_0(n as int);
    }
}

/// Browsing, the history overlay lists the newest entry first, and its selected
/// row is put into the line with the caret behind it; nothing is sent.
pub proof fn law_history_inserts_selected(
    a: App,
    r: UiRuntime,
    facts: ActionFacts,
    b: App,
    s: UiRuntime,
)
    requires
        !a.overlay.history_search,
        a.overlay.modal_index < a.composer.input_history@.len(),
        carried_out(a, r, InputAction::HistoryInsert, facts, b, s),
    ensures
        b.composer.input == a.composer.input_history@[a.composer.input_history@.len() - 1
            - a.overlay.modal_index],
        b.composer.cursor_position == b.composer.input@.len() as usize,
        b.composer.stashed_input@.len() == 0,
        b.overlay.active_modal == Modal::Closed,
        b.outbox == a.outbox,
        s == r,
{
    reveal(on_lists);
}

/// While it searches, the history overlay lists exactly the entries that match,
/// the better match first and of equal ones the older.
pub proof fn law_history_search_order(count: int, matches: Seq<Option<FuzzyMatch>>)
    requires
        0 <= count <= matches.len(),
        forall|i: int| 0 <= i < matches.len() ==> ((#[trigger] matches[i]) matches Some(m) ==> m.score
            < i64::MAX && m.score > i64::MIN),
    ensures
        ({
            let rows = history_order(count, true, matches);
            &&& forall|k: int|
                0 <= k < rows.len() ==> 0 <= #[trigger] rows[k] < count
                    && matches[rows[k]] is Some
            &&& forall|i: int|
                0 <= i < count && (#[trigger] matches[i]) is Some ==> rows.contains(i)
            &&& forall|p: int, q: int|
                0 <= p < q < rows.len() ==> matches[#[trigger] rows[p]]->Some_0.score
                    > matches[#[trigger] rows[q]]->Some_0.score || (matches[rows[p]]->Some_0.score
                    == matches[rows[q]]->Some_0.score && rows[p] < rows[q])
        }),
{
    let found = matching(matches, count);
    let keys = found.map_values(|i: int| worst_first(matches[i]));
    let order = stable_order(keys, keys.len() as int);
    let rows = history_order(count, true, matches);
    lemma_matching(matches, count);
    law_stable_order(keys, keys.len() as int);
    assert forall|k: int| 0 <= k < rows.len() implies 0 <= #[trigger] rows[k] < count
        && matches[rows[k]] is Some by {
        assert(rows[k] == found[order[k]]);
    }
    assert forall|i: int| 0 <= i < count && (#[trigger] matches[i]) is Some implies rows.contains(
        i,
    ) by {
        assert(found.contains(i));
        let j = choose|j: int| 0 <= j < found.len() && found[j] == i;
        assert(order.contains(j));
        let k = choose|k: int| 0 <= k < order.len() && order[k] == j;
        assert(rows[k] == i);
    }
    assert forall|p: int, q: int| 0 <= p < q < rows.len() implies matches[
        #[trigger] rows[p]
    ]->Some_0.score > matches[#[trigger] rows[q]]->Some_0.score || (matches[rows[p]]->Some_0.score
        == matches[rows[q]]->Some_0.score && rows[p] < rows[q]) by {
        assert(rows[p] == found[order[p]]);
        assert(rows[q] == found[order[q]]);
        assert(keys[order[p]] <= keys[order[q]]);
        assert(keys[order[p]] == worst_first(matches[rows[p]]));
        assert(keys[order[q]] == worst_first(matches[rows[q]]));
    }
}

proof fn lemma_matching(matches: Seq<Option<FuzzyMatch>>, n: int)
    requires
        0 <= n <= matches.len(),
    ensures
        forall|k: int|
            0 <= k < matching(matches, n).len() ==> 0 <= #[trigger] matching(matches, n)[k] < n
                && matches[matching(matches, n)[k]] is Some,
        forall|i: int|
            0 <= i < n && (#[trigger] matches[i]) is Some ==> matching(matches, n).contains(i),
        forall|p: int, q: int|
            0 <= p < q < matching(matches, n).len() ==> (#[trigger] matching(matches, n)[p]) < (
            #[trigger] matching(matches, n)[q]),
    decreases n,
{
    if n > 0 {
        lemma_matching(matches, n - 1);
        let rest = matching(matches, n - 1);
        let all = matching(matches, n);
        assert forall|i: int| 0 <= i < n && (#[trigger] matches[i]) is Some implies all.contains(
            i,
        ) by {
            if i == n - 1 {
                assert(all[all.len() - 1] == i);
            } else {
                assert(rest.contains(i));
                let k = choose|k: int| 0 <= k < rest.len() && rest[k] == i;
                assert(all[k] == i);
            }
        }
    }
}

/// The layers of the history overlay: searching starts at the top of the list,
/// leaving the search empties the line and keeps the draft parked, and the
/// preview goes on and off.
pub proof fn law_history_layers(a: App, r: UiRuntime, facts: ActionFacts, b: App, s: UiRuntime)
    ensures
        carried_out(a, r, InputAction::HistoryEnterSearch, facts, b, s) ==> b.overlay.history_search
            && b.overlay.modal_index == 0 && b.composer == a.composer && b.outbox == a.outbox,
        carried_out(a, r, InputAction::HistoryExitSearch, facts, b, s)
            ==> !b.overlay.history_search && b.composer.input@.len() == 0 && b.overlay.modal_index
            == 0 && b.composer.stashed_input == a.composer.stashed_input && b.outbox == a.outbox
            && b.overlay.active_modal == a.overlay.active_modal,
        carried_out(a, r, InputAction::HistoryTogglePreview, facts, b, s)
            ==> b.overlay.history_preview == !a.overlay.history_preview && b.overlay.modal_index
            == a.overlay.modal_index && b.composer == a.composer,
{
    reveal(on_lists);
}

/// A permission request opens its sheet once no overlay is open, on its first
/// row; the sheet goes when no request is left, and never takes the place of
/// another overlay.
pub proof fn law_sheet_opens_for_request(a: App, request: Option<PermissionRequest>)
    ensures
        ({
            let b = permission_synced(a, request);
            &&& b.permission.pending_permission == request
            &&& request is Some && a.overlay.active_modal == Modal::Closed
                ==> b.overlay.active_modal == Modal::Permission && b.overlay.modal_index == 0
                && b.view.focused_target is None && b.permission.permission_scroll == 0
                && !b.permission.permission_show_details
            &&& request is Some && a.overlay.active_modal == Modal::Permission ==> b.overlay
                == a.overlay && b.permission.permission_scroll == a.permission.permission_scroll
                && b.permission.permission_show_details == a.permission.permission_show_details
            &&& request is None && a.overlay.active_modal == Modal::Permission
                ==> b.overlay.active_modal == Modal::Closed
                && !b.permission.permission_confirm_always
                && !b.permission.permission_show_details
            &&& a.overlay.active_modal != Modal::Closed && a.overlay.active_modal
                != Modal::Permission ==> b.overlay == a.overlay
            &&& request is None && a.overlay.active_modal == Modal::Closed ==> b.overlay
                == a.overlay
            &&& b.outbox == a.outbox
            &&& b.composer == a.composer
        }),
{
}

/// A question that is new opens its overlay from the top; one that is shown
/// already is left alone; the overlay goes when no question is left.
pub proof fn law_question_opens_for_request(a: App, request: Option<UserQuestionRequest>, b: App)
    requires
        question_synced(a, request, b),
    ensures
        (request matches Some(asked) && !(a.question matches Some(q) && q.request_id@ == asked.id@))
            ==> b.overlay.active_modal == Modal::Question && b.overlay.question_scroll == 0
            && b.overlay.question_modal_follow && b.overlay.modal_index == 0
            && b.view.focused_target is None && (b.question matches Some(q)
            && !q.other_highlighted) && (b.question matches Some(q) && q.request_id == request->Some_0.id),
        (request matches Some(asked) && a.question matches Some(q) && q.request_id@ == asked.id@)
            ==> b == a,
        request is None ==> b.question is None,
        request is None && a.question is Some && a.overlay.active_modal == Modal::Question
            ==> b.overlay.active_modal == Modal::Closed,
        b.outbox == a.outbox,
{
}

/// The sessions list opens when it was asked for, unless a permission is being
/// decided.
pub proof fn law_sessions_open_when_asked(a: App, wanted: bool, b: App)
    requires
        sessions_synced(a, wanted, b),
    ensures
        wanted && a.overlay.active_modal != Modal::Permission ==> b.overlay.active_modal
            == Modal::Sessions && b.overlay.modal_index == 0,
        !wanted || a.overlay.active_modal == Modal::Permission ==> b == a,
{
}

/// The selection of the picker walks over the rows that are listed and over the
/// row that adds one where there is such a row; that of the history walks over the
/// entries that are listed. Both go around at the ends and bring the row into view.
pub proof fn law_selection_walks_shown_rows(
    a: App,
    r: UiRuntime,
    n: int,
    facts: ActionFacts,
    b: App,
    s: UiRuntime,
)
    requires
        (a.overlay.active_modal == Modal::HistorySearch && !a.overlay.history_search && n
            == a.composer.input_history@.len()) || (a.overlay.active_modal == Modal::Provider
            && a.picker.picker_provider is None && n == crate::app::picker::listed(
            a,
            facts.picker_matches@,
        ).len() + 1) || (a.overlay.active_modal == Modal::Provider && (
        a.picker.picker_provider matches Some(idx) && idx < a.picker.provider_picker.rows@.len()
            && a.picker.provider_picker.rows@[idx as int].builtin) && n
            == crate::app::picker::listed(a, facts.picker_matches@).len()) || (
        a.overlay.active_modal == Modal::Provider && (a.picker.picker_provider matches Some(idx)
            && idx < a.picker.provider_picker.rows@.len()
            && !a.picker.provider_picker.rows@[idx as int].builtin) && n
            == crate::app::picker::listed(a, facts.picker_matches@).len() + 1),
        a.overlay.modal_index < n <= usize::MAX,
    ensures
        carried_out(a, r, InputAction::ModalDown, facts, b, s) ==> b.overlay.modal_index == (
        if a.overlay.modal_index + 1 < n {
            a.overlay.modal_index + 1
        } else {
            0
        }),
        carried_out(a, r, InputAction::ModalUp, facts, b, s) ==> b.overlay.modal_index == (
        if a.overlay.modal_index > 0 {
            a.overlay.modal_index - 1
        } else {
            n - 1
        }),
        carried_out(a, r, InputAction::ModalDown, facts, b, s) || carried_out(
            a,
            r,
            InputAction::ModalUp,
            facts,
            b,
            s,
        ) ==> {
            &&& b.composer == a.composer
            &&& b.outbox == a.outbox
            &&& b.overlay.active_modal == a.overlay.active_modal
            &&& a.overlay.active_modal == Modal::Provider ==> b.picker.model_modal_follow
            &&& a.overlay.active_modal == Modal::HistorySearch ==> b.overlay.history_modal_follow
            &&& a.overlay.active_modal == Modal::HistorySearch && a.overlay.history_preview
                ==> b.overlay.history_scroll == 0
        },
{
    reveal(on_lists);
    let count: usize = a.composer.input_history.len();
    if a.overlay.modal_index + 1 < n {
        vstd::arithmetic::div_mod::lemma_small_mod((a.overlay.modal_index + 1) as nat, n as nat);
    } else {
        vstd::arithmetic::div_mod::lemma_mod_self_0(n);
    }
}

/// Overlays without rows take no step, and an empty list stays on its top.
pub proof fn law_no_rows_no_step(a: App, r: UiRuntime, facts: ActionFacts, b: App, s: UiRuntime)
    requires
        carried_out(a, r, InputAction::ModalDown, facts, b, s) || carried_out(
            a,
            r,
            InputAction::ModalUp,
            facts,
            b,
            s,
        ),
    ensures
        a.overlay.active_modal == Modal::Closed || a.overlay.active_modal == Modal::Help
            || a.overlay.active_modal == Modal::Activity || a.overlay.active_modal
            == Modal::Question ==> b == a,
        a.overlay.active_modal == Modal::Sessions && a.session.sessions_overview@.len() == 0
            ==> b.overlay.modal_index == 0,
        a.overlay.active_modal == Modal::Permissions && a.session.session_context is None
            ==> b.overlay.modal_index == 0,
        s == r,
{
    reveal(on_lists);
}

/// Without tools to select, the tools manager scrolls by a line.
pub proof fn law_manager_without_tools_scrolls(
    a: App,
    r: UiRuntime,
    forward: bool,
    facts: ActionFacts,
    b: App,
    s: UiRuntime,
)
    requires
        a.session.session_context is None,
        carried_out(a, r, InputAction::SessionSelect { forward }, facts, b, s),
    ensures
        b.overlay.modal_index == a.overlay.modal_index,
        forward && a.overlay.session_scroll < usize::MAX ==> b.overlay.session_scroll
            == a.overlay.session_scroll + 1,
        !forward && a.overlay.session_scroll > 0 ==> b.overlay.session_scroll
            == a.overlay.session_scroll - 1,
        !forward && a.overlay.session_scroll == 0 ==> b.overlay.session_scroll == 0,
        b.outbox == a.outbox,
{
    reveal(on_lists);
}

/// A selection behind its list: no rule is revoked and no tool flips; of the
/// sessions it means the last one. An empty list does nothing.
pub proof fn law_selection_behind_rows(
    a: App,
    r: UiRuntime,
    facts: ActionFacts,
    b: App,
    s: UiRuntime,
)
    ensures
        ({
            let at = a.overlay.modal_index as int;
            let list = a.session.sessions_overview@;
            let nothing = a.session.session_context is None;
            &&& carried_out(a, r, InputAction::PermissionsActivate, facts, b, s) && (nothing || at
                >= a.session.session_context->Some_0.permissions@.len()) ==> b == a
            &&& carried_out(a, r, InputAction::SessionActivate, facts, b, s) && (nothing || at
                >= a.session.session_context->Some_0.tools@.len()) ==> b == a
            &&& carried_out(a, r, InputAction::DeleteSelectedSession, facts, b, s) && list.len()
                == 0 ==> b == a
            &&& carried_out(a, r, InputAction::OpenSelectedSession, facts, b, s) && list.len() == 0
                ==> b == a
            &&& carried_out(a, r, InputAction::DeleteSelectedSession, facts, b, s) && list.len() > 0
                && at >= list.len() ==> one_request(
                a,
                AgentRequest::DeleteSession { id: list[list.len() - 1].id },
                b,
            )
            &&& carried_out(a, r, InputAction::OpenSelectedSession, facts, b, s) && list.len() > 0
                && at >= list.len() ==> (b.outbox@.last() matches Effect::Send(
                AgentRequest::SlashCommand(command),
            ) && command@ == "/session open "@ + list[list.len() - 1].id@)
        }),
{
    reveal(on_overlays);
}

/// While it searches, the history overlay inserts the entry of the selected row
/// of what was found; with nothing found the line stays as it is typed.
pub proof fn law_history_inserts_found(
    a: App,
    r: UiRuntime,
    facts: ActionFacts,
    b: App,
    s: UiRuntime,
)
    requires
        a.overlay.history_search,
        a.composer.input@.len() > 0,
        carried_out(a, r, InputAction::HistoryInsert, facts, b, s),
    ensures
        ({
            let rows = history_order(
                a.composer.input_history@.len() as int,
                true,
                facts.history_matches@,
            );
            &&& a.overlay.modal_index < rows.len() ==> b.composer.input
                == a.composer.input_history@[rows[a.overlay.modal_index as int]]
            &&& a.overlay.modal_index >= rows.len() && rows.len() > 0 ==> b.composer.input
                == a.composer.input_history@[rows[0]]
            &&& rows.len() == 0 ==> b.composer.input == a.composer.input
            &&& rows.len() > 0 ==> b.composer.cursor_position == b.composer.input@.len() as usize
        }),
        b.overlay.active_modal == Modal::Closed,
        b.composer.stashed_input@.len() == 0,
        b.composer.completion_dismissed,
        b.outbox == a.outbox,
{
    reveal(on_lists);
}

/// Opening a plain overlay leaves the line, the draft and the queue alone, and
/// forgets what belonged to another overlay.
pub proof fn law_opening_leaves_the_line(
    a: App,
    r: UiRuntime,
    facts: ActionFacts,
    b: App,
    s: UiRuntime,
)
    requires
        carried_out(a, r, InputAction::OpenHelp, facts, b, s) || carried_out(
            a,
            r,
            InputAction::OpenConfig,
            facts,
            b,
            s,
        ) || carried_out(a, r, InputAction::OpenTools, facts, b, s) || carried_out(
            a,
            r,
            InputAction::OpenPermissions,
            facts,
            b,
            s,
        ),
    ensures
        b.composer == a.composer,
        b.view.hovered_step is None,
        b.picker.picker_provider is None,
        b.picker.add_model_provider is None,
        b.provider_editor.custom_fields@.len() == 0,
        s == r,
{
    reveal(on_overlays);
}

/// Clearing all rules leaves the selection on the top row.
pub proof fn law_clearing_rules_returns_to_top(
    a: App,
    r: UiRuntime,
    facts: ActionFacts,
    b: App,
    s: UiRuntime,
)
    requires
        carried_out(a, r, InputAction::PermissionsClearAll, facts, b, s),
    ensures
        b.overlay.modal_index == 0,
        b.overlay.active_modal == a.overlay.active_modal,
        b.session == a.session,
{
    reveal(on_overlays);
}

} // verus!
