//! What the provider editor, the add-model overlay and their suggestions are for.
use crate::app::picker::add_model_opened;
use crate::app::picker::add_suggestions;
use crate::app::picker::addable;
use crate::app::picker::addition_reset;
use crate::app::picker::addition_turned;
use crate::app::picker::committed;
use crate::app::picker::editor_suggestions;
use crate::app::picker::field_loaded;
use crate::app::picker::field_stashed;
use crate::app::picker::field_turned;
use crate::app::picker::fields_for_edit;
use crate::app::picker::filter_followed;
use crate::app::picker::fits;
use crate::app::picker::fitting;
use crate::app::picker::listed;
use crate::app::picker::provider_edited;
use crate::app::picker::ring_next;
use crate::app::picker::row_of;
use crate::app::picker::suggested;
use crate::app::picker::suggestion_turned;
use crate::app::picker::template_chooser_opened;
use crate::app::picker::template_edited;
use crate::app::picker::template_moved;
use crate::app::picker::texts;
use crate::app::picker::ProviderTemplate;
use crate::app::App;
use crate::app::CustomField;
use crate::modal::Modal;
use crate::providers::display_name;
use crate::providers::ids_of_format;
use crate::providers::model_entry;
use crate::providers::wire_format;
use crate::providers::FuzzyMatch;
use crate::providers::ModelInfo;
use crate::providers::ProviderPickerRow;
use crate::providers::WireFormat;
use crate::text::contains_text;
use crate::text::occurs_at;
use crate::text::trimmed;
use vstd::prelude::*;

verus! {

/// Without a query every candidate is suggested, in order, and nothing else.
pub proof fn law_no_query_suggests_all(candidates: Seq<String>, loose: Seq<bool>)
    ensures
        suggested(candidates, Seq::empty(), loose).len() == candidates.len(),
        forall|i: int|
            0 <= i < candidates.len() ==> #[trigger] suggested(candidates, Seq::empty(), loose)[i]
                == candidates[i]@,
{
    lemma_all_fit(candidates, loose, candidates.len() as int);
}

proof fn lemma_all_fit(candidates: Seq<String>, loose: Seq<bool>, n: int)
    requires
        0 <= n <= candidates.len(),
    ensures
        fitting(candidates, Seq::empty(), loose, n).len() == n,
        forall|i: int|
            0 <= i < n ==> #[trigger] fitting(candidates, Seq::empty(), loose, n)[i]
                == candidates[i]@,
    decreases n,
{
    if n > 0 {
        lemma_all_fit(candidates, loose, n - 1);
    }
}

/// A query suggests every candidate that holds it and every one whose name
/// matches it loosely, and what is typed can always be taken as it is.
pub proof fn law_query_suggests_matches(
    candidates: Seq<String>,
    query: Seq<char>,
    loose: Seq<bool>,
    i: int,
    at: int,
)
    requires
        query.len() > 0,
        loose.len() == candidates.len(),
        0 <= i < candidates.len(),
    ensures
        loose[i] ==> suggested(candidates, query, loose).contains(candidates[i]@),
        0 <= at && at + query.len() <= candidates[i]@.len() && candidates[i]@.subrange(
            at,
            at + query.len(),
        ) == query ==> suggested(candidates, query, loose).contains(candidates[i]@),
        suggested(candidates, query, loose).contains(query),
{
    let found = fitting(candidates, query, loose, candidates.len() as int);
    let all = suggested(candidates, query, loose);
    lemma_fitting_contains(candidates, query, loose, candidates.len() as int, i);
    if 0 <= at && at + query.len() <= candidates[i]@.len() && candidates[i]@.subrange(
        at,
        at + query.len(),
    ) == query {
        assert(occurs_at(candidates[i]@, query, at));
        assert(contains_text(candidates[i]@, query));
    }
    if found.contains(candidates[i]@) {
        let k = choose|k: int| 0 <= k < found.len() && found[k] == candidates[i]@;
        assert(all[k] == candidates[i]@);
    }
    if !found.contains(query) {
        assert(all[found.len() as int] == query);
    } else {
        assert(all == found);
    }
}

proof fn lemma_fitting_contains(
    candidates: Seq<String>,
    query: Seq<char>,
    loose: Seq<bool>,
    n: int,
    i: int,
)
    requires
        0 <= i < n <= candidates.len(),
        loose.len() == candidates.len(),
    ensures
        query.len() == 0 || contains_text(candidates[i]@, query) || loose[i] ==> fitting(
            candidates,
            query,
            loose,
            n,
        ).contains(candidates[i]@),
    decreases n,
{
    let all = fitting(candidates, query, loose, n);
    if i == n - 1 {
        if query.len() == 0 || contains_text(candidates[i]@, query) || loose[i] {
            assert(all[all.len() - 1] == candidates[i]@);
        }
    } else {
        lemma_fitting_contains(candidates, query, loose, n - 1, i);
        let rest = fitting(candidates, query, loose, n - 1);
        if rest.contains(candidates[i]@) {
            let k = choose|k: int| 0 <= k < rest.len() && rest[k] == candidates[i]@;
            assert(all[k] == candidates[i]@);
        }
    }
}

/// A query suggests nothing that neither holds it nor matches it loosely, apart
/// from itself.
pub proof fn law_query_suggests_nothing_else(
    candidates: Seq<String>,
    query: Seq<char>,
    loose: Seq<bool>,
    text: Seq<char>,
)
    requires
        query.len() > 0,
        loose.len() == candidates.len(),
        suggested(candidates, query, loose).contains(text),
        text != query,
    ensures
        exists|i: int|
            0 <= i < candidates.len() && (#[trigger] candidates[i])@ == text && (contains_text(
                text,
                query,
            ) || loose[i]),
{
    let found = fitting(candidates, query, loose, candidates.len() as int);
    let all = suggested(candidates, query, loose);
    let k = choose|k: int| 0 <= k < all.len() && all[k] == text;
    assert(k < found.len());
    assert(found[k] == text);
    lemma_fitting_member(candidates, query, loose, candidates.len() as int, k);
}

proof fn lemma_fitting_member(
    candidates: Seq<String>,
    query: Seq<char>,
    loose: Seq<bool>,
    n: int,
    k: int,
)
    requires
        query.len() > 0,
        0 <= n <= candidates.len(),
        loose.len() == candidates.len(),
        0 <= k < fitting(candidates, query, loose, n).len(),
    ensures
        exists|i: int|
            0 <= i < n && (#[trigger] candidates[i])@ == fitting(candidates, query, loose, n)[k]
                && (contains_text(candidates[i]@, query) || loose[i]),
    decreases n,
{
    if n > 0 {
        let rest = fitting(candidates, query, loose, n - 1);
        if k < rest.len() {
            lemma_fitting_member(candidates, query, loose, n - 1, k);
        } else {
            assert(candidates[n - 1]@ == fitting(candidates, query, loose, n)[k]);
        }
    }
}

/// The models that can be chosen for a protocol are exactly those of its wire
/// format.
pub proof fn law_candidates_speak_protocol(
    registry: Seq<ModelInfo>,
    protocol: Seq<char>,
    i: int,
    k: int,
)
    requires
        0 <= i < registry.len(),
    ensures
        protocol == "anthropic"@ && registry[i].format == WireFormat::AnthropicCompat
            ==> ids_of_format(registry, wire_format(protocol)).contains(registry[i].id),
        protocol == "gemini"@ && registry[i].format == WireFormat::Gemini ==> ids_of_format(
            registry,
            wire_format(protocol),
        ).contains(registry[i].id),
        protocol == "openai"@ && registry[i].format == WireFormat::OpenAiCompat ==> ids_of_format(
            registry,
            wire_format(protocol),
        ).contains(registry[i].id),
        0 <= k < ids_of_format(registry, wire_format(protocol)).len() ==> exists|j: int|
            0 <= j < registry.len() && (#[trigger] registry[j]).format == wire_format(protocol)
                && registry[j].id == ids_of_format(registry, wire_format(protocol))[k],
{
    reveal_strlit("anthropic");
    reveal_strlit("gemini");
    reveal_strlit("openai");
    assert("openai"@[0] != "gemini"@[0]);
    assert("openai"@[0] != "anthropic"@[0]);
    assert("gemini"@[0] != "anthropic"@[0]);
    let format = wire_format(protocol);
    let list = ids_of_format(registry, format);
    lemma_ids_of_format(registry, format);
    if 0 <= k < list.len() {
        let id = list[k];
        let j = choose|j: int|
            0 <= j < registry.len() && (#[trigger] registry[j]).format == format && registry[j].id
                == id;
        assert(registry[j].format == format);
    }
}

proof fn lemma_ids_of_format(registry: Seq<ModelInfo>, format: WireFormat)
    ensures
        forall|i: int|
            0 <= i < registry.len() && (#[trigger] registry[i]).format == format ==> ids_of_format(
                registry,
                format,
            ).contains(registry[i].id),
        forall|k: int|
            #![trigger ids_of_format(registry, format)[k]]
            0 <= k < ids_of_format(registry, format).len() ==> exists|j: int|
                0 <= j < registry.len() && (#[trigger] registry[j]).format == format
                    && registry[j].id == ids_of_format(registry, format)[k],
    decreases registry.len(),
{
    if registry.len() > 0 {
        let rest = registry.drop_last();
        lemma_ids_of_format(rest, format);
        let (few, all) = (ids_of_format(rest, format), ids_of_format(registry, format));
        assert forall|i: int|
            0 <= i < registry.len() && (#[trigger] registry[i]).format == format implies all.contains(
            registry[i].id,
        ) by {
            if i < rest.len() {
                assert(rest[i] == registry[i]);
                assert(few.contains(registry[i].id));
                let k = choose|k: int| 0 <= k < few.len() && few[k] == registry[i].id;
                assert(all[k] == registry[i].id);
            } else {
                assert(all[all.len() - 1] == registry[i].id);
            }
        }
        assert forall|k: int|
            #![trigger all[k]]
            0 <= k < all.len() implies exists|j: int|
            0 <= j < registry.len() && (#[trigger] registry[j]).format == format && registry[j].id
                == all[k] by {
            if k < few.len() {
                assert(few[k] == all[k]);
                let j = choose|j: int|
                    0 <= j < rest.len() && (#[trigger] rest[j]).format == format && rest[j].id
                        == few[k];
                assert(registry[j] == rest[j]);
            } else {
                assert(registry[registry.len() - 1].id == all[k]);
            }
        }
    }
}

/// A model is shown under its registered name, and under its id where it has
/// none.
pub proof fn law_models_are_named(registry: Seq<ModelInfo>, i: int)
    requires
        0 <= i < registry.len(),
        forall|k: int| 0 <= k < i ==> (#[trigger] registry[k]).id@ != registry[i].id@,
    ensures
        registry[i].name@.len() > 0 ==> display_name(registry, registry[i].id@)
            == registry[i].name@,
        registry[i].name@.len() == 0 ==> display_name(registry, registry[i].id@)
            == registry[i].id@,
    decreases i,
{
    if i > 0 {
        let rest = registry.drop_first();
        assert(registry[0].id@ != registry[i].id@);
        assert forall|k: int| 0 <= k < i - 1 implies (#[trigger] rest[k]).id@
            != rest[i - 1].id@ by {
            assert(rest[k] == registry[k + 1]);
        }
        law_models_are_named(rest, i - 1);
        assert(rest[i - 1] == registry[i]);
    }
}

/// What is typed in a field of the provider editor is kept in that field, and no
/// other one changes; the model field keeps its choice.
pub proof fn law_field_is_kept(a: App, b: App)
    requires
        field_stashed(a, b),
        a.provider_editor.custom_field < a.provider_editor.custom_fields@.len(),
    ensures
        ({
            let field = a.provider_editor.custom_fields@[a.provider_editor.custom_field as int];
            let (x, y) = (a.provider_editor, b.provider_editor);
            let typed = a.composer.input;
            &&& y.custom_name == (if field == CustomField::Name {
                typed
            } else {
                x.custom_name
            })
            &&& y.custom_base_url == (if field == CustomField::BaseUrl {
                typed
            } else {
                x.custom_base_url
            })
            &&& y.custom_token == (if field == CustomField::Token {
                typed
            } else {
                x.custom_token
            })
            &&& y.custom_model == x.custom_model
            &&& y.custom_field == x.custom_field
        }),
{
}

/// The line shows what the focused field holds, and begins empty on the model
/// field.
pub proof fn law_field_is_shown(a: App, registry: Seq<ModelInfo>, b: App)
    requires
        field_loaded(a, registry, b),
        a.provider_editor.custom_field < a.provider_editor.custom_fields@.len(),
    ensures
        ({
            let field = a.provider_editor.custom_fields@[a.provider_editor.custom_field as int];
            &&& field == CustomField::Name ==> b.composer.input@ == a.provider_editor.custom_name@
            &&& field == CustomField::BaseUrl ==> b.composer.input@
                == a.provider_editor.custom_base_url@
            &&& field == CustomField::Token ==> b.composer.input@ == a.provider_editor.custom_token@
            &&& field == CustomField::Model ==> b.composer.input@.len() == 0
            &&& b.provider_editor.custom_model == a.provider_editor.custom_model
        }),
{
}

/// An existing provider is edited by name, address and token; a Gemini one has no
/// address.
pub proof fn law_fields_for_edit(protocol: Seq<char>)
    ensures
        protocol == "gemini"@ ==> fields_for_edit(protocol) == seq![
            CustomField::Name,
            CustomField::Token,
        ],
        protocol != "gemini"@ ==> fields_for_edit(protocol) == seq![
            CustomField::Name,
            CustomField::BaseUrl,
            CustomField::Token,
        ],
{
}

/// The choosers open empty, on their first row, for the provider in question, and
/// send nothing.
pub proof fn law_choosers_open(a: App, id: String, b: App)
    ensures
        template_chooser_opened(a, b) ==> b.overlay.active_modal == Modal::ProviderTemplate
            && b.picker.template_choice == 0 && b.composer.input@.len() == 0
            && b.composer.stashed_input == a.composer.stashed_input && b.outbox == a.outbox,
        add_model_opened(a, id, b) ==> b.overlay.active_modal == Modal::AddModel
            && b.picker.add_model_provider == Some(id) && b.picker.add_model_choice == 0
            && b.composer.input@.len() == 0 && b.picker.picker_provider
            == a.picker.picker_provider && b.outbox == a.outbox,
{
}

/// The highlighted suggestion is the model that the editor submits.
pub proof fn law_highlight_is_committed(a: App, suggestions: Seq<Seq<char>>, index: usize, b: App)
    requires
        committed(a, suggestions, index, b),
        index < suggestions.len(),
    ensures
        b.provider_editor.custom_model@ == suggestions[index as int],
        b.provider_editor.custom_suggest_index == index,
        b.composer == a.composer,
        b.outbox == a.outbox,
{
}

/// The indices below `n` of the candidates that are suggested.
spec fn places(candidates: Seq<String>, query: Seq<char>, loose: Seq<bool>, n: int) -> Seq<int>
    decreases n,
{
    if n <= 0 {
        Seq::empty()
    } else if fits(candidates, query, loose, n - 1) {
        places(candidates, query, loose, n - 1).push(n - 1)
    } else {
        places(candidates, query, loose, n - 1)
    }
}

proof fn lemma_places(candidates: Seq<String>, query: Seq<char>, loose: Seq<bool>, n: int)
    requires
        0 <= n <= candidates.len(),
    ensures
        ({
            let at = places(candidates, query, loose, n);
            let found = fitting(candidates, query, loose, n);
            &&& at.len() == found.len()
            &&& forall|k: int|
                0 <= k < at.len() ==> 0 <= #[trigger] at[k] < n && candidates[at[k]]@ == found[k]
            &&& forall|k: int, l: int| 0 <= k < l < at.len() ==> #[trigger] at[k] < #[trigger] at[l]
        }),
    decreases n,
{
    if n > 0 {
        lemma_places(candidates, query, loose, n - 1);
    }
}

/// Suggestions come in the order of the candidates, and what is typed comes behind
/// them where it is none of them.
pub proof fn law_suggestions_keep_order(
    candidates: Seq<String>,
    query: Seq<char>,
    loose: Seq<bool>,
    k: int,
    l: int,
)
    requires
        0 <= k < l < suggested(candidates, query, loose).len(),
    ensures
        suggested(candidates, query, loose)[k] == query ==> exists|i: int|
            0 <= i < candidates.len() && (#[trigger] candidates[i])@ == query,
        (exists|i: int, j: int|
            0 <= i < j < candidates.len() && (#[trigger] candidates[i])@ == suggested(
                candidates,
                query,
                loose,
            )[k] && (#[trigger] candidates[j])@ == suggested(candidates, query, loose)[l]) || (l
            == suggested(candidates, query, loose).len() - 1 && suggested(
            candidates,
            query,
            loose,
        )[l] == query),
{
    let n = candidates.len() as int;
    lemma_places(candidates, query, loose, n);
    let at = places(candidates, query, loose, n);
    let found = fitting(candidates, query, loose, n);
    assert(k < found.len());
    assert(candidates[at[k]]@ == found[k]);
    if l < found.len() {
        assert(candidates[at[l]]@ == found[l]);
        assert(at[k] < at[l]);
    }
}

/// The add-model overlay offers the models that speak as the provider's own model
/// does, and the common format where that model is not registered.
pub proof fn law_addable_models(app: App, registry: Seq<ModelInfo>, id: String, i: int, j: int)
    requires
        app.picker.add_model_provider == Some(id),
        0 <= i < app.picker.provider_picker.rows@.len(),
        app.picker.provider_picker.rows@[i].id@ == id@,
        forall|k: int|
            0 <= k < i ==> (#[trigger] app.picker.provider_picker.rows@[k]).id@ != id@,
        0 <= j < registry.len(),
    ensures
        ({
            let model = app.picker.provider_picker.rows@[i].model@;
            &&& registry[j].id@ == model && (forall|k: int|
                0 <= k < j ==> (#[trigger] registry[k]).id@ != model) ==> addable(app, registry)
                == ids_of_format(registry, registry[j].format)
            &&& (forall|k: int| 0 <= k < registry.len() ==> (#[trigger] registry[k]).id@ != model)
                ==> addable(app, registry) == ids_of_format(registry, WireFormat::OpenAiCompat)
        }),
{
    let rows = app.picker.provider_picker.rows@;
    lemma_row_of(rows, id@, i);
    let model = rows[i].model@;
    if registry[j].id@ == model && (forall|k: int|
        0 <= k < j ==> (#[trigger] registry[k]).id@ != model) {
        lemma_model_entry(registry, model, j);
    }
    if forall|k: int| 0 <= k < registry.len() ==> (#[trigger] registry[k]).id@ != model {
        lemma_no_model_entry(registry, model);
    }
}

/// Without a provider to add to nothing is offered.
pub proof fn law_nothing_addable(app: App, registry: Seq<ModelInfo>)
    requires
        app.picker.add_model_provider is None,
    ensures
        addable(app, registry).len() == 0,
{
}

proof fn lemma_row_of(rows: Seq<ProviderPickerRow>, id: Seq<char>, i: int)
    requires
        0 <= i < rows.len(),
        rows[i].id@ == id,
        forall|k: int| 0 <= k < i ==> (#[trigger] rows[k]).id@ != id,
    ensures
        row_of(rows, id) == Some(rows[i]),
    decreases i,
{
    if i > 0 {
        let rest = rows.drop_first();
        assert(rows[0].id@ != id);
        assert forall|k: int| 0 <= k < i - 1 implies (#[trigger] rest[k]).id@ != id by {
            assert(rest[k] == rows[k + 1]);
        }
        assert(rest[i - 1] == rows[i]);
        lemma_row_of(rest, id, i - 1);
    }
}

proof fn lemma_model_entry(registry: Seq<ModelInfo>, id: Seq<char>, i: int)
    requires
        0 <= i < registry.len(),
        registry[i].id@ == id,
        forall|k: int| 0 <= k < i ==> (#[trigger] registry[k]).id@ != id,
    ensures
        model_entry(registry, id) == Some(registry[i]),
    decreases i,
{
    if i > 0 {
        let rest = registry.drop_first();
        assert(registry[0].id@ != id);
        assert forall|k: int| 0 <= k < i - 1 implies (#[trigger] rest[k]).id@ != id by {
            assert(rest[k] == registry[k + 1]);
        }
        assert(rest[i - 1] == registry[i]);
        lemma_model_entry(rest, id, i - 1);
    }
}

pub proof fn lemma_no_model_entry(registry: Seq<ModelInfo>, id: Seq<char>)
    requires
        forall|k: int| 0 <= k < registry.len() ==> (#[trigger] registry[k]).id@ != id,
    ensures
        model_entry(registry, id) is None,
    decreases registry.len(),
{
    if registry.len() > 0 {
        let rest = registry.drop_first();
        assert(registry[0].id@ != id);
        assert forall|k: int| 0 <= k < rest.len() implies (#[trigger] rest[k]).id@ != id by {
            assert(rest[k] == registry[k + 1]);
        }
        lemma_no_model_entry(rest, id);
    }
}

/// The model field opens on the model that was chosen, where it is a candidate,
/// and else on the first one.
pub proof fn law_model_field_opens_on_choice(a: App, registry: Seq<ModelInfo>, b: App)
    requires
        field_loaded(a, registry, b),
        a.provider_editor.custom_field < a.provider_editor.custom_fields@.len(),
        a.provider_editor.custom_fields@[a.provider_editor.custom_field as int]
            == CustomField::Model,
    ensures
        ({
            let list = ids_of_format(
                registry,
                wire_format(a.provider_editor.custom_protocol_wire@),
            );
            let at = b.provider_editor.custom_suggest_index as int;
            &&& (exists|k: int|
                0 <= k < list.len() && (#[trigger] list[k])@ == a.provider_editor.custom_model@)
                ==> at < list.len() && list[at]@ == a.provider_editor.custom_model@
            &&& (forall|k: int|
                0 <= k < list.len() ==> (#[trigger] list[k])@ != a.provider_editor.custom_model@)
                ==> at == 0
        }),
{
    let list = ids_of_format(registry, wire_format(a.provider_editor.custom_protocol_wire@));
    let (all, model) = (texts(list), a.provider_editor.custom_model@);
    if all.contains(model) {
        all.index_of_first_ensures(model);
        let k = all.index_of_first(model)->Some_0;
        assert(all[k] == list[k]@);
    } else if exists|k: int| 0 <= k < list.len() && (#[trigger] list[k])@ == model {
        let k = choose|k: int| 0 <= k < list.len() && (#[trigger] list[k])@ == model;
        assert(all[k] == model);
    }
}

/// The place after or before `i` of `n` places on a ring.
pub open spec fn beside(i: int, forward: bool, n: int) -> int {
    if forward {
        if i + 1 < n {
            i + 1
        } else {
            0
        }
    } else if i > 0 {
        i - 1
    } else {
        n - 1
    }
}

proof fn lemma_ring(i: int, forward: bool, n: int)
    requires
        0 <= i < n,
    ensures
        ring_next(i, forward, n) == beside(i, forward, n),
{
    if forward {
        if i + 1 < n {
            vstd::arithmetic::div_mod::lemma_small_mod((i + 1) as nat, n as nat);
        } else {
            vstd::arithmetic::div_mod::lemma_mod_self_0(n);
        }
    } else if i > 0 {
        vstd::arithmetic::div_mod::lemma_mod_add_multiples_vanish(i - 1, n);
        vstd::arithmetic::div_mod::lemma_small_mod((i - 1) as nat, n as nat);
        assert(i + n - 1 == n + (i - 1));
    } else {
        vstd::arithmetic::div_mod::lemma_small_mod((n - 1) as nat, n as nat);
    }
}

/// The choosers move by one row and go around at their ends; a changed query
/// starts over at the top. Nothing else moves.
pub proof fn law_choosers_move(
    a: App,
    forward: bool,
    count: usize,
    registry: Seq<ModelInfo>,
    loose: Seq<bool>,
    b: App,
)
    ensures
        template_moved(a, forward, count, b) && a.picker.template_choice < count
            ==> b.picker.template_choice == beside(
            a.picker.template_choice as int,
            forward,
            count as int,
        ) && b.composer == a.composer && b.overlay == a.overlay && b.outbox == a.outbox,
        template_moved(a, forward, 0, b) ==> b == a,
        addition_turned(a, forward, registry, loose, b) && a.picker.add_model_choice
            < add_suggestions(a, registry, loose).len() <= usize::MAX ==> b.picker.add_model_choice
            == beside(
            a.picker.add_model_choice as int,
            forward,
            add_suggestions(a, registry, loose).len() as int,
        ) && b.composer == a.composer && b.picker.add_model_provider
            == a.picker.add_model_provider,
        addition_turned(a, forward, registry, loose, b) && add_suggestions(
            a,
            registry,
            loose,
        ).len() == 0 ==> b == a,
        addition_reset(a, b) ==> b.picker.add_model_choice == 0 && b.composer == a.composer
            && b.picker.add_model_provider == a.picker.add_model_provider,
{
    if a.picker.template_choice < count {
        lemma_ring(a.picker.template_choice as int, forward, count as int);
    }
    if a.picker.add_model_choice < add_suggestions(a, registry, loose).len() {
        lemma_ring(
            a.picker.add_model_choice as int,
            forward,
            add_suggestions(a, registry, loose).len() as int,
        );
    }
}

/// On the model field the highlight moves by one suggestion and the model under it
/// is chosen; what is typed there chooses the first suggestion. On another field
/// neither chooses anything.
pub proof fn law_model_is_chosen_by_highlight(
    a: App,
    forward: bool,
    registry: Seq<ModelInfo>,
    loose: Seq<bool>,
    b: App,
)
    requires
        a.provider_editor.custom_field < a.provider_editor.custom_fields@.len(),
    ensures
        ({
            let field = a.provider_editor.custom_fields@[a.provider_editor.custom_field as int];
            let list = editor_suggestions(a, registry, loose);
            let at = a.provider_editor.custom_suggest_index as int;
            &&& suggestion_turned(a, forward, registry, loose, b) && field == CustomField::Model
                && at < list.len() <= usize::MAX ==> {
                &&& b.provider_editor.custom_suggest_index == beside(
                    at,
                    forward,
                    list.len() as int,
                )
                &&& b.provider_editor.custom_model@ == list[beside(at, forward, list.len() as int)]
                &&& b.composer == a.composer
            }
            &&& filter_followed(a, registry, loose, b) && field == CustomField::Model && list.len()
                > 0 ==> b.provider_editor.custom_suggest_index == 0
                && b.provider_editor.custom_model@ == list[0] && b.composer == a.composer
            &&& field != CustomField::Model && (suggestion_turned(a, forward, registry, loose, b)
                || filter_followed(a, registry, loose, b)) ==> b == a
        }),
{
    let list = editor_suggestions(a, registry, loose);
    if a.provider_editor.custom_suggest_index < list.len() {
        lemma_ring(
            a.provider_editor.custom_suggest_index as int,
            forward,
            list.len() as int,
        );
    }
}

/// Tab and Shift+Tab move the focus by one field, around at the ends; what was
/// typed stays in the field that is left, and the line shows the other one.
pub proof fn law_fields_are_cycled(a: App, forward: bool, registry: Seq<ModelInfo>, b: App)
    requires
        field_turned(a, forward, registry, b),
        a.provider_editor.custom_field < a.provider_editor.custom_fields@.len() < 256,
    ensures
        ({
            let fields = a.provider_editor.custom_fields@;
            let from = a.provider_editor.custom_field as int;
            let to = beside(from, forward, fields.len() as int);
            let (x, y) = (a.provider_editor, b.provider_editor);
            let typed = a.composer.input@;
            &&& y.custom_field == to
            &&& y.custom_fields@ == fields
            &&& y.custom_name@ == (if fields[from] == CustomField::Name {
                typed
            } else {
                x.custom_name@
            })
            &&& y.custom_base_url@ == (if fields[from] == CustomField::BaseUrl {
                typed
            } else {
                x.custom_base_url@
            })
            &&& y.custom_token@ == (if fields[from] == CustomField::Token {
                typed
            } else {
                x.custom_token@
            })
            &&& y.custom_model == x.custom_model
            &&& fields[to] == CustomField::Name ==> b.composer.input@ == y.custom_name@
            &&& fields[to] == CustomField::BaseUrl ==> b.composer.input@ == y.custom_base_url@
            &&& fields[to] == CustomField::Token ==> b.composer.input@ == y.custom_token@
            &&& fields[to] == CustomField::Model ==> b.composer.input@.len() == 0
            &&& b.composer.cursor_position == b.composer.input@.len() as usize
            &&& b.outbox == a.outbox
            &&& b.composer.stashed_input == a.composer.stashed_input
        }),
{
    let n = a.provider_editor.custom_fields@.len() as int;
    lemma_ring(a.provider_editor.custom_field as int, forward, n);
    vstd::arithmetic::div_mod::lemma_small_mod(n as nat, 256);
}

/// The provider editor opens for a new provider with every field empty and the
/// first model of its protocol, and for an existing one with what is known of it;
/// a stored token is never put into it.
pub proof fn law_provider_editor_opens(
    a: App,
    template: ProviderTemplate,
    registry: Seq<ModelInfo>,
    id: String,
    name: String,
    protocol: String,
    base_url: String,
    b: App,
)
    ensures
        template_edited(a, template, registry, b) || provider_edited(
            a,
            id,
            name,
            protocol,
            base_url,
            b,
        ) ==> {
            &&& b.overlay.active_modal == Modal::CustomProvider
            &&& b.provider_editor.custom_field == 0
            &&& b.provider_editor.custom_token@.len() == 0
            &&& b.composer.stashed_input == a.composer.stashed_input
            &&& b.outbox == a.outbox
        },
        template_edited(a, template, registry, b) ==> {
            &&& b.provider_editor.custom_edit_id is None
            &&& b.provider_editor.custom_fields@ == template.fields@
            &&& b.provider_editor.custom_protocol_wire == template.protocol
            &&& b.provider_editor.custom_name@.len() == 0
            &&& b.provider_editor.custom_base_url@.len() == 0
            &&& b.composer.input@.len() == 0
            &&& b.provider_editor.custom_url_hint == template.url_hint
            &&& ids_of_format(registry, wire_format(template.protocol@)).len() > 0
                ==> b.provider_editor.custom_model@ == ids_of_format(
                registry,
                wire_format(template.protocol@),
            )[0]@
        },
        provider_edited(a, id, name, protocol, base_url, b) ==> {
            &&& b.provider_editor.custom_edit_id == Some(id)
            &&& b.provider_editor.custom_name == name
            &&& b.provider_editor.custom_base_url == base_url
            &&& b.provider_editor.custom_protocol_wire == protocol
            &&& b.composer.input == name
            &&& b.composer.cursor_position == name@.len() as usize
        },
{
}

/// The rows that add something are the ones behind the last row that is listed: a
/// provider in the provider list, a model in the list of a user-defined one.
pub proof fn law_adding_rows_come_last(
    app: App,
    registry: Vec<ModelInfo>,
    matches: Vec<Option<FuzzyMatch>>,
    adds_provider: bool,
    adds_model: bool,
)
    requires
        call_ensures(App::picker_on_add_row, (&app, &registry, &matches), adds_provider),
        call_ensures(App::picker_on_add_model_row, (&app, &registry, &matches), adds_model),
    ensures
        app.overlay.modal_index < listed(app, matches@).len() ==> !adds_provider && !adds_model,
        app.overlay.modal_index == listed(app, matches@).len() && app.picker.picker_provider is None
            ==> adds_provider,
        !(adds_provider && adds_model),
        (app.picker.picker_provider matches Some(idx) && idx
            < app.picker.provider_picker.rows@.len()) && app.overlay.modal_index == listed(
            app,
            matches@,
        ).len() ==> adds_model
            == !app.picker.provider_picker.rows@[app.picker.picker_provider->Some_0 as int].builtin,
{
}

/// The model that is added is the highlighted suggestion.
pub proof fn law_highlighted_model_is_added(
    app: App,
    registry: Vec<ModelInfo>,
    loose: Vec<bool>,
    model: String,
)
    requires
        call_ensures(App::add_model_selected, (&app, &registry, &loose), model),
    ensures
        app.picker.add_model_choice < add_suggestions(app, registry@, loose@).len() ==> model@
            == add_suggestions(app, registry@, loose@)[app.picker.add_model_choice as int],
        app.picker.add_model_choice >= add_suggestions(app, registry@, loose@).len()
            ==> model@.len() == 0,
{
}

/// The suggestions of both overlays are those for what is typed, without the
/// blanks around it.
pub proof fn law_suggestions_follow_typing(
    app: App,
    registry: Seq<ModelInfo>,
    loose: Seq<bool>,
    query: Seq<char>,
)
    requires
        trimmed(app.composer.input@) == query,
    ensures
        add_suggestions(app, registry, loose) == suggested(addable(app, registry), query, loose),
        editor_suggestions(app, registry, loose) == suggested(
            ids_of_format(registry, wire_format(app.provider_editor.custom_protocol_wire@)),
            query,
            loose,
        ),
{
}

} // verus!
