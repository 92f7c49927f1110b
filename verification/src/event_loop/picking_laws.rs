//! What the picker and the key editor are for: the row that the user chooses is
//! the model that is switched to.
use crate::agent::AgentRequest;
use crate::app::picker::listed;
use crate::app::App;
use crate::app::Effect;
use crate::event_loop::dispatch::carried_out;
use crate::event_loop::dispatch::on_picking;
use crate::event_loop::dispatch::ActionFacts;
use crate::event_loop::picking::entry_for;
use crate::event_loop::picking::has_key;
use crate::event_loop::picking::opening_entries;
use crate::event_loop::picking::picker_fresh;
use crate::event_loop::UiRuntime;
use crate::input::InputAction;
use crate::modal::Modal;
use crate::providers::law_browsing_lists_each_once;
use crate::providers::law_browsing_shows_all;
use crate::providers::provider_list;
use crate::providers::ProviderPickerRow;
use crate::text::trimmed;
use vstd::prelude::*;

verus! {

/// Whether the last thing said of the provider `id` is that it has no key.
pub open spec fn lacks_key(status: Seq<(String, bool)>, id: Seq<char>) -> bool {
    exists|i: int|
        {
            &&& 0 <= i < status.len()
            &&& (#[trigger] status[i]).0@ == id
            &&& !status[i].1
            &&& forall|k: int| i < k < status.len() ==> (#[trigger] status[k]).0@ != id
        }
}

proof fn lemma_key_status(status: Seq<(String, bool)>, id: Seq<char>)
    ensures
        has_key(status, id) <==> !lacks_key(status, id),
    decreases status.len(),
{
    if status.len() > 0 {
        let n = status.len() - 1;
        let rest = status.drop_last();
        lemma_key_status(rest, id);
        if status[n].0@ == id {
            if !status[n].1 {
                assert(status[n].0@ == id);
            }
            if lacks_key(status, id) {
                let i = choose|i: int|
                    {
                        &&& 0 <= i < status.len()
                        &&& (#[trigger] status[i]).0@ == id
                        &&& !status[i].1
                        &&& forall|k: int|
                            i < k < status.len() ==> (#[trigger] status[k]).0@ != id
                    };
                assert(i == n) by {
                    if i < n {
                        assert(status[n].0@ != id);
                    }
                }
            }
        } else {
            if lacks_key(status, id) {
                let i = choose|i: int|
                    {
                        &&& 0 <= i < status.len()
                        &&& (#[trigger] status[i]).0@ == id
                        &&& !status[i].1
                        &&& forall|k: int|
                            i < k < status.len() ==> (#[trigger] status[k]).0@ != id
                    };
                assert(rest[i] == status[i]);
                assert forall|k: int| i < k < rest.len() implies (#[trigger] rest[k]).0@ != id by {
                    assert(rest[k] == status[k]);
                }
                assert(lacks_key(rest, id));
            }
            if lacks_key(rest, id) {
                let i = choose|i: int|
                    {
                        &&& 0 <= i < rest.len()
                        &&& (#[trigger] rest[i]).0@ == id
                        &&& !rest[i].1
                        &&& forall|k: int| i < k < rest.len() ==> (#[trigger] rest[k]).0@ != id
                    };
                assert(status[i] == rest[i]);
                assert forall|k: int| i < k < status.len() implies (
                #[trigger] status[k]).0@ != id by {
                    if k < n {
                        assert(status[k] == rest[k]);
                    }
                }
                assert(lacks_key(status, id));
            }
        }
    }
}

/// Whether the model was switched to and the picker is gone, with the draft back.
pub open spec fn switched_to(a: App, id: String, model: String, b: App) -> bool {
    &&& b.outbox@ == a.outbox@.push(
        Effect::Send(
            AgentRequest::SwitchProvider {
                provider_type: id,
                model,
                api_key: None,
                base_url: None,
                effort: None,
                thinking: None,
            },
        ),
    )
    &&& b.overlay.active_modal == Modal::Closed
    &&& b.composer.input == a.composer.stashed_input
    &&& b.picker.picker_provider is None
    &&& !b.picker.model_search
}

/// Whether the key editor is open for a model, with an empty line for the key,
/// and nothing was sent.
pub open spec fn key_asked_for(a: App, id: String, model: String, b: App) -> bool {
    &&& b.outbox == a.outbox
    &&& b.overlay.active_modal == Modal::ModelEditor
    &&& b.key_editor.editor_target == Some(id)
    &&& b.key_editor.editor_model == model
    &&& b.key_editor.editor_field == 0
    &&& b.composer.input@.len() == 0
    &&& b.composer.stashed_input == a.composer.stashed_input
}

/// `Enter` on a row of a model list switches to that model of that provider;
/// where the provider has no key, the key is asked for first.
pub proof fn law_model_row_is_switched_to(
    a: App,
    r: UiRuntime,
    idx: usize,
    facts: ActionFacts,
    b: App,
    s: UiRuntime,
)
    requires
        a.overlay.active_modal == Modal::Provider,
        !a.picker.model_search,
        a.picker.picker_provider == Some(idx),
        idx < a.picker.provider_picker.rows@.len(),
        a.overlay.modal_index < a.picker.provider_picker.rows@[idx as int].models@.len(),
        carried_out(a, r, InputAction::ProviderPickerActivate, facts, b, s),
    ensures
        ({
            let row = a.picker.provider_picker.rows@[idx as int];
            let model = row.models@[a.overlay.modal_index as int];
            &&& s == r
            &&& !lacks_key(a.picker.key_status@, row.id@) ==> switched_to(a, row.id, model, b)
            &&& lacks_key(a.picker.key_status@, row.id@) ==> key_asked_for(a, row.id, model, b)
        }),
{
    reveal(on_picking);
    let row = a.picker.provider_picker.rows@[idx as int];
    law_browsing_shows_all(facts.picker_matches@, row.models@.len() as int);
    lemma_key_status(a.picker.key_status@, row.id@);
}

/// `Enter` on a row of the provider list opens the models of a provider that has
/// several, with nothing sent; the only model of another one is switched to.
pub proof fn law_provider_row_is_activated(
    a: App,
    r: UiRuntime,
    facts: ActionFacts,
    b: App,
    s: UiRuntime,
)
    requires
        a.overlay.active_modal == Modal::Provider,
        !a.picker.model_search,
        a.picker.picker_provider is None,
        a.overlay.modal_index < a.picker.provider_picker.rows@.len(),
        carried_out(a, r, InputAction::ProviderPickerActivate, facts, b, s),
    ensures
        ({
            let rows = a.picker.provider_picker.rows@;
            let list = provider_list(rows, Seq::empty(), facts.picker_matches@);
            let i = list[a.overlay.modal_index as int];
            &&& s == r
            &&& list.len() == rows.len()
            &&& 0 <= i < rows.len()
            &&& rows[i].models@.len() > 1 ==> b.picker.picker_provider == Some(i as usize)
                && b.overlay.active_modal == Modal::Provider && b.overlay.modal_index == 0
                && b.outbox == a.outbox
            &&& rows[i].models@.len() <= 1 && !lacks_key(a.picker.key_status@, rows[i].id@)
                ==> switched_to(a, rows[i].id, rows[i].model, b)
            &&& rows[i].models@.len() <= 1 && lacks_key(a.picker.key_status@, rows[i].id@)
                ==> key_asked_for(a, rows[i].id, rows[i].model, b)
        }),
{
    reveal(on_picking);
    let rows = a.picker.provider_picker.rows@;
    let count: usize = a.picker.provider_picker.rows.len();
    let list = provider_list(rows, Seq::empty(), facts.picker_matches@);
    law_browsing_lists_each_once(rows, facts.picker_matches@);
    let i = list[a.overlay.modal_index as int];
    assert(list.contains(i));
    lemma_key_status(a.picker.key_status@, rows[i].id@);
    assert(entry_for(a, i).row_idx == i);
}

/// The row behind the last provider adds one, and the row behind the last model
/// adds a model to a user-defined provider; both send nothing.
pub proof fn law_adding_rows(a: App, r: UiRuntime, facts: ActionFacts, b: App, s: UiRuntime)
    requires
        a.overlay.active_modal == Modal::Provider,
        !a.picker.model_search,
        carried_out(a, r, InputAction::ProviderPickerActivate, facts, b, s),
    ensures
        a.picker.picker_provider is None && a.overlay.modal_index
            == a.picker.provider_picker.rows@.len() ==> b.overlay.active_modal
            == Modal::ProviderTemplate && b.picker.template_choice == 0 && b.outbox == a.outbox,
        (a.picker.picker_provider matches Some(idx) && idx < a.picker.provider_picker.rows@.len()
            && !a.picker.provider_picker.rows@[idx as int].builtin && a.overlay.modal_index
            == a.picker.provider_picker.rows@[idx as int].models@.len())
            ==> b.overlay.active_modal == Modal::AddModel && b.picker.add_model_provider == Some(
            a.picker.provider_picker.rows@[a.picker.picker_provider->Some_0 as int].id,
        ) && b.outbox == a.outbox,
{
    reveal(on_picking);
    law_browsing_lists_each_once(a.picker.provider_picker.rows@, facts.picker_matches@);
    if let Some(idx) = a.picker.picker_provider {
        if idx < a.picker.provider_picker.rows@.len() {
            law_browsing_shows_all(
                facts.picker_matches@,
                a.picker.provider_picker.rows@[idx as int].models@.len() as int,
            );
        }
    }
}

/// Starring asks for the favorite flag of the selected provider, and editing
/// opens the key editor for the selected provider and its model.
pub proof fn law_provider_row_is_starred_and_edited(
    a: App,
    r: UiRuntime,
    facts: ActionFacts,
    b: App,
    s: UiRuntime,
)
    requires
        a.overlay.active_modal == Modal::Provider,
        !a.picker.model_search,
        a.picker.picker_provider is None,
        a.overlay.modal_index < a.picker.provider_picker.rows@.len(),
    ensures
        ({
            let rows = a.picker.provider_picker.rows@;
            let i = provider_list(rows, Seq::empty(), facts.picker_matches@)[a.overlay.modal_index as int];
            &&& carried_out(a, r, InputAction::ProviderPickerToggleFavorite, facts, b, s)
                ==> b.outbox@ == a.outbox@.push(
                Effect::Send(AgentRequest::ToggleFavorite { id: rows[i].id }),
            ) && b.picker == a.picker && b.overlay == a.overlay
            &&& carried_out(a, r, InputAction::OpenModelEditor, facts, b, s) ==> key_asked_for(
                a,
                rows[i].id,
                rows[i].model,
                b,
            )
        }),
{
    reveal(on_picking);
    let rows = a.picker.provider_picker.rows@;
    let count: usize = a.picker.provider_picker.rows.len();
    let list = provider_list(rows, Seq::empty(), facts.picker_matches@);
    law_browsing_lists_each_once(rows, facts.picker_matches@);
    let i = list[a.overlay.modal_index as int];
    assert(list.contains(i));
}

/// Going back shows the provider list; the search sub-layer empties the line
/// when it is left, and neither gives up the draft or sends anything.
pub proof fn law_picker_layers(a: App, r: UiRuntime, facts: ActionFacts, b: App, s: UiRuntime)
    requires
        a.overlay.active_modal == Modal::Provider,
    ensures
        carried_out(a, r, InputAction::ProviderPickerBack, facts, b, s)
            && a.picker.picker_provider is Some ==> b.picker.picker_provider is None
            && b.overlay.active_modal == Modal::Provider && b.outbox == a.outbox
            && b.composer.stashed_input == a.composer.stashed_input,
        carried_out(a, r, InputAction::ModelEnterSearch, facts, b, s) ==> b.picker.model_search
            && b.overlay.modal_index == 0 && b.picker.picker_provider == a.picker.picker_provider
            && b.composer == a.composer && b.outbox == a.outbox,
        carried_out(a, r, InputAction::ModelExitSearch, facts, b, s) ==> !b.picker.model_search
            && b.composer.input@.len() == 0 && b.overlay.modal_index == 0
            && b.picker.picker_provider == a.picker.picker_provider && b.overlay.active_modal
            == Modal::Provider && b.composer.stashed_input == a.composer.stashed_input && b.outbox
            == a.outbox,
{
    reveal(on_picking);
}

/// Opening the picker parks the draft and shows the provider list from a browse
/// without a query; the selection is on the model in use where that is listed.
pub proof fn law_picker_opens(a: App, r: UiRuntime, facts: ActionFacts, b: App, s: UiRuntime)
    requires
        carried_out(a, r, InputAction::OpenProvider, facts, b, s),
    ensures
        b.overlay.active_modal == Modal::Provider,
        b.composer.stashed_input == a.composer.input,
        b.composer.input@.len() == 0,
        b.picker.picker_provider is None,
        !b.picker.model_search,
        b.outbox == a.outbox,
        ({
            let rows = a.picker.provider_picker.rows@;
            let list = provider_list(rows, Seq::empty(), Seq::empty());
            let used = |row: ProviderPickerRow|
                row.id@ == a.session.current_provider@ && row.model@ == a.session.current_model@;
            (exists|p: int| 0 <= p < list.len() && used(rows[#[trigger] list[p]])) ==> {
                &&& b.overlay.modal_index < list.len()
                &&& used(rows[list[b.overlay.modal_index as int]])
            }
        }),
{
    reveal(on_picking);
    let rows = a.picker.provider_picker.rows@;
    let list = provider_list(rows, Seq::empty(), Seq::empty());
    let fresh = picker_fresh(a);
    assert(listed(fresh, Seq::empty()) == list);
    let shown = opening_entries(a);
    assert(shown.len() == list.len());
    if exists|p: int|
        0 <= p < list.len() && rows[#[trigger] list[p]].id@ == a.session.current_provider@
            && rows[list[p]].model@ == a.session.current_model@ {
        let p = choose|p: int|
            0 <= p < list.len() && rows[#[trigger] list[p]].id@ == a.session.current_provider@
                && rows[list[p]].model@ == a.session.current_model@;
        assert(shown[p] == entry_for(fresh, list[p]));
        assert(crate::event_loop::picking::is_current(a, shown[p]));
        let at = b.overlay.modal_index as int;
        assert(crate::event_loop::picking::is_current(a, shown[at]));
        assert(shown[at] == entry_for(fresh, list[at]));
    }
}

/// Submitting the key editor switches to its provider with its model and the key
/// that was typed, without the blanks around it; the draft comes back.
pub proof fn law_key_editor_submits(
    a: App,
    r: UiRuntime,
    id: String,
    fallback: String,
    facts: ActionFacts,
    b: App,
    s: UiRuntime,
)
    requires
        a.overlay.active_modal == Modal::ModelEditor,
        a.key_editor.editor_target == Some(id),
        facts.default_model == Some(fallback),
        carried_out(a, r, InputAction::SubmitModelEditor, facts, b, s),
    ensures
        ({
            let key = trimmed(
                if a.key_editor.editor_field == 0 {
                    a.composer.input@
                } else {
                    a.key_editor.editor_key@
                },
            );
            let model = trimmed(a.key_editor.editor_model@);
            &&& b.outbox@.len() == a.outbox@.len() + 1
            &&& b.outbox@.drop_last() == a.outbox@
            &&& b.outbox@.last() matches Effect::Send(
                AgentRequest::SwitchProvider {
                    provider_type,
                    model: used,
                    api_key,
                    base_url,
                    effort,
                    thinking,
                },
            ) && {
                &&& provider_type@ == id@
                &&& model.len() > 0 ==> used@ == model
                &&& model.len() == 0 ==> used@ == fallback@
                &&& key.len() == 0 ==> api_key is None
                &&& key.len() > 0 ==> (api_key matches Some(k) && k@ == key)
                &&& base_url is None
                &&& id@ == "anthropic"@ ==> (effort matches Some(e) && e@
                    == a.key_editor.editor_effort@) && thinking == Some(
                    a.key_editor.editor_thinking,
                )
                &&& id@ != "anthropic"@ ==> effort is None && thinking is None
            }
            &&& b.overlay.active_modal == Modal::Closed
            &&& b.composer.input == a.composer.stashed_input
            &&& b.key_editor.editor_target is None
        }),
{
    reveal(on_picking);
}

/// The fields of the key editor: the focus goes around key, effort and thinking
/// for the one provider that has them, and stays on the key for any other; the
/// key is in the line exactly while it is focused.
pub proof fn law_key_editor_fields(
    a: App,
    r: UiRuntime,
    id: String,
    facts: ActionFacts,
    b: App,
    s: UiRuntime,
)
    requires
        a.overlay.active_modal == Modal::ModelEditor,
        a.key_editor.editor_target == Some(id),
        a.key_editor.editor_field <= 2,
        carried_out(a, r, InputAction::ModelEditorNextField, facts, b, s),
    ensures
        b.outbox == a.outbox,
        b.key_editor.editor_model == a.key_editor.editor_model,
        b.key_editor.editor_target == a.key_editor.editor_target,
        id@ != "anthropic"@ && a.key_editor.editor_field == 0 ==> b == a,
        id@ == "anthropic"@ && a.key_editor.editor_field == 0 ==> b.key_editor.editor_field == 1
            && b.key_editor.editor_key == a.composer.input && b.composer.input@.len() == 0,
        id@ == "anthropic"@ && a.key_editor.editor_field == 1 ==> b.key_editor.editor_field == 2
            && b.key_editor.editor_key == a.key_editor.editor_key,
        id@ == "anthropic"@ && a.key_editor.editor_field == 2 ==> b.key_editor.editor_field == 0
            && b.composer.input == a.key_editor.editor_key,
{
    reveal(on_picking);
}

/// The effort is the next stronger or weaker one, going around; the thinking
/// switch flips. Each moves only while it is focused.
pub proof fn law_reasoning_choices(
    a: App,
    r: UiRuntime,
    delta: i8,
    facts: ActionFacts,
    b: App,
    s: UiRuntime,
)
    requires
        a.overlay.active_modal == Modal::ModelEditor,
        delta == 1 || delta == -1,
    ensures
        carried_out(a, r, InputAction::ModelEditorThinkingToggle, facts, b, s)
            ==> b.key_editor.editor_thinking == (if a.key_editor.editor_field == 2 {
            !a.key_editor.editor_thinking
        } else {
            a.key_editor.editor_thinking
        }) && b.key_editor.editor_effort == a.key_editor.editor_effort,
        carried_out(a, r, InputAction::ModelEditorEffortCycle { delta }, facts, b, s)
            && a.key_editor.editor_field != 1 ==> b == a,
        carried_out(a, r, InputAction::ModelEditorEffortCycle { delta }, facts, b, s)
            && a.key_editor.editor_field == 1 ==> ({
            let old_effort = a.key_editor.editor_effort@;
            let new_effort = b.key_editor.editor_effort@;
            &&& delta == 1 && old_effort == "low"@ ==> new_effort == "medium"@
            &&& delta == 1 && old_effort == "medium"@ ==> new_effort == "high"@
            &&& delta == 1 && old_effort == "high"@ ==> new_effort == "xhigh"@
            &&& delta == 1 && old_effort == "xhigh"@ ==> new_effort == "max"@
            &&& delta == 1 && old_effort == "max"@ ==> new_effort == "low"@
            &&& delta == -1 && old_effort == "medium"@ ==> new_effort == "low"@
            &&& delta == -1 && old_effort == "high"@ ==> new_effort == "medium"@
            &&& delta == -1 && old_effort == "xhigh"@ ==> new_effort == "high"@
            &&& delta == -1 && old_effort == "max"@ ==> new_effort == "xhigh"@
            &&& delta == -1 && old_effort == "low"@ ==> new_effort == "max"@
        }),
{
    reveal(on_picking);
    reveal_strlit("low");
    reveal_strlit("medium");
    reveal_strlit("high");
    reveal_strlit("xhigh");
    reveal_strlit("max");
    assert("low"@[0] != "max"@[0]);
}

/// While the user searches, `Enter` takes the row that is highlighted among those
/// that were found: a model of the provider whose models are listed.
pub proof fn law_found_model_is_switched_to(
    a: App,
    r: UiRuntime,
    idx: usize,
    facts: ActionFacts,
    b: App,
    s: UiRuntime,
)
    requires
        a.overlay.active_modal == Modal::Provider,
        a.picker.picker_provider == Some(idx),
        a.overlay.modal_index < listed(a, facts.picker_matches@).len(),
        carried_out(a, r, InputAction::ProviderPickerActivate, facts, b, s),
    ensures
        ({
            let row = a.picker.provider_picker.rows@[idx as int];
            let model = row.models@[listed(a, facts.picker_matches@)[a.overlay.modal_index as int]];
            &&& s == r
            &&& !lacks_key(a.picker.key_status@, row.id@) ==> switched_to(a, row.id, model, b)
            &&& lacks_key(a.picker.key_status@, row.id@) ==> key_asked_for(a, row.id, model, b)
        }),
{
    reveal(on_picking);
    lemma_key_status(a.picker.key_status@, a.picker.provider_picker.rows@[idx as int].id@);
}

/// A search that found nothing leaves nothing to activate, to star or to edit.
pub proof fn law_nothing_found_nothing_done(
    a: App,
    r: UiRuntime,
    facts: ActionFacts,
    b: App,
    s: UiRuntime,
)
    requires
        a.overlay.active_modal == Modal::Provider,
        listed(a, facts.picker_matches@).len() == 0,
        a.overlay.modal_index > 0,
        carried_out(a, r, InputAction::ProviderPickerActivate, facts, b, s) || carried_out(
            a,
            r,
            InputAction::ProviderPickerToggleFavorite,
            facts,
            b,
            s,
        ) || carried_out(a, r, InputAction::OpenModelEditor, facts, b, s),
    ensures
        b == a,
        s == r,
{
    reveal(on_picking);
}

/// A selection behind the list, where no row adds anything, stands for the first
/// row.
pub proof fn law_selection_behind_list(
    a: App,
    r: UiRuntime,
    idx: usize,
    facts: ActionFacts,
    b: App,
    s: UiRuntime,
)
    requires
        a.overlay.active_modal == Modal::Provider,
        a.picker.picker_provider == Some(idx),
        idx < a.picker.provider_picker.rows@.len(),
        a.picker.provider_picker.rows@[idx as int].builtin,
        listed(a, facts.picker_matches@).len() > 0,
        a.overlay.modal_index >= listed(a, facts.picker_matches@).len(),
        !lacks_key(
            a.picker.key_status@,
            a.picker.provider_picker.rows@[idx as int].id@,
        ),
        carried_out(a, r, InputAction::ProviderPickerActivate, facts, b, s),
    ensures
        ({
            let row = a.picker.provider_picker.rows@[idx as int];
            switched_to(a, row.id, row.models@[listed(a, facts.picker_matches@)[0]], b)
        }),
{
    reveal(on_picking);
    lemma_key_status(a.picker.key_status@, a.picker.provider_picker.rows@[idx as int].id@);
}

/// In a model list too, starring means the provider, and editing means the
/// highlighted model of it.
pub proof fn law_model_row_is_starred_and_edited(
    a: App,
    r: UiRuntime,
    idx: usize,
    facts: ActionFacts,
    b: App,
    s: UiRuntime,
)
    requires
        a.overlay.active_modal == Modal::Provider,
        a.picker.picker_provider == Some(idx),
        a.overlay.modal_index < listed(a, facts.picker_matches@).len(),
    ensures
        ({
            let row = a.picker.provider_picker.rows@[idx as int];
            let model = row.models@[listed(a, facts.picker_matches@)[a.overlay.modal_index as int]];
            &&& carried_out(a, r, InputAction::ProviderPickerToggleFavorite, facts, b, s)
                ==> b.outbox@ == a.outbox@.push(
                Effect::Send(AgentRequest::ToggleFavorite { id: row.id }),
            ) && b.picker == a.picker && b.overlay == a.overlay
            &&& carried_out(a, r, InputAction::OpenModelEditor, facts, b, s) ==> key_asked_for(
                a,
                row.id,
                model,
                b,
            )
        }),
{
    reveal(on_picking);
}

/// The key editor opens with high effort, with thinking on, and without a key of
/// another provider.
pub proof fn law_key_editor_opens_fresh(
    a: App,
    r: UiRuntime,
    facts: ActionFacts,
    b: App,
    s: UiRuntime,
)
    requires
        a.overlay.active_modal == Modal::Provider,
        carried_out(a, r, InputAction::OpenModelEditor, facts, b, s),
        b.overlay.active_modal == Modal::ModelEditor,
    ensures
        b.key_editor.editor_effort@ == "high"@,
        b.key_editor.editor_thinking,
        b.key_editor.editor_key@.len() == 0,
        b.composer.cursor_position == 0,
        !b.picker.model_search,
        b.picker.picker_provider == a.picker.picker_provider,
{
    reveal(on_picking);
}

/// A key editor for a provider that is not known sends nothing, and closes with
/// the draft back.
pub proof fn law_unknown_provider_is_not_switched_to(
    a: App,
    r: UiRuntime,
    facts: ActionFacts,
    b: App,
    s: UiRuntime,
)
    requires
        a.overlay.active_modal == Modal::ModelEditor,
        a.key_editor.editor_target is Some,
        facts.default_model is None,
        carried_out(a, r, InputAction::SubmitModelEditor, facts, b, s),
    ensures
        b.outbox@ == a.outbox@,
        b.overlay.active_modal == Modal::Closed,
        b.composer.input == a.composer.stashed_input,
{
    reveal(on_picking);
}

/// Where the model in use is not listed, the picker opens on the default
/// provider, and on the first row where that is not listed either.
pub proof fn law_picker_opens_on_default(
    a: App,
    r: UiRuntime,
    facts: ActionFacts,
    b: App,
    s: UiRuntime,
)
    requires
        carried_out(a, r, InputAction::OpenProvider, facts, b, s),
        forall|i: int|
            0 <= i < a.picker.provider_picker.rows@.len() ==> !((
            #[trigger] a.picker.provider_picker.rows@[i]).id@ == a.session.current_provider@
                && a.picker.provider_picker.rows@[i].model@ == a.session.current_model@),
    ensures
        ({
            let rows = a.picker.provider_picker.rows@;
            let list = provider_list(rows, Seq::empty(), Seq::empty());
            let at = b.overlay.modal_index as int;
            &&& (exists|p: int|
                0 <= p < list.len() && rows[#[trigger] list[p]].id@
                    == a.picker.provider_picker.default_id@) ==> at < list.len()
                && rows[list[at]].id@ == a.picker.provider_picker.default_id@
            &&& (forall|i: int|
                0 <= i < rows.len() ==> (#[trigger] rows[i]).id@
                    != a.picker.provider_picker.default_id@) ==> at == 0
        }),
{
    reveal(on_picking);
    let rows = a.picker.provider_picker.rows@;
    let count: usize = a.picker.provider_picker.rows.len();
    let list = provider_list(rows, Seq::empty(), Seq::empty());
    law_browsing_lists_each_once(rows, Seq::empty());
    let fresh = picker_fresh(a);
    assert(listed(fresh, Seq::empty()) == list);
    let shown = opening_entries(a);
    assert(shown.len() == list.len());
    assert forall|p: int| 0 <= p < shown.len() implies !crate::event_loop::picking::is_current(
        a,
        #[trigger] shown[p],
    ) by {
        assert(shown[p] == entry_for(fresh, list[p]));
        assert(list.contains(list[p]));
        assert(0 <= list[p] < rows.len());
        assert(!(rows[list[p]].id@ == a.session.current_provider@ && rows[list[p]].model@
            == a.session.current_model@));
    }
    if exists|p: int|
        0 <= p < list.len() && rows[#[trigger] list[p]].id@
            == a.picker.provider_picker.default_id@ {
        let p = choose|p: int|
            0 <= p < list.len() && rows[#[trigger] list[p]].id@
                == a.picker.provider_picker.default_id@;
        assert(shown[p] == entry_for(fresh, list[p]));
        assert(crate::event_loop::picking::is_default(a, shown[p]));
        let at = b.overlay.modal_index as int;
        assert(crate::event_loop::picking::is_default(a, shown[at]));
        assert(shown[at] == entry_for(fresh, list[at]));
    }
    if forall|i: int|
        0 <= i < rows.len() ==> (#[trigger] rows[i]).id@ != a.picker.provider_picker.default_id@ {
        assert forall|p: int| 0 <= p < shown.len() implies !crate::event_loop::picking::is_default(
            a,
            #[trigger] shown[p],
        ) by {
            assert(shown[p] == entry_for(fresh, list[p]));
            assert(list.contains(list[p]));
            assert(rows[list[p]].id@ != a.picker.provider_picker.default_id@);
        }
    }
}

} // verus!
