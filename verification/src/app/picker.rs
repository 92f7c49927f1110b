//! The provider picker, the provider editor and the add-model overlay.
use crate::agent::AgentRequest;
use crate::app::switching::fields_given_up;
use crate::app::switching::with_modal;
use crate::app::App;
use crate::app::Composer;
use crate::app::CustomField;
use crate::app::Picker;
use crate::app::ProviderEditor;
use crate::modal::Modal;
use crate::providers::copy_names;
use crate::providers::ids_of_format;
use crate::providers::model_entry;
use crate::providers::model_list;
use crate::providers::models_of_format;
use crate::providers::protocol_model_candidates;
use crate::providers::provider_list;
use crate::providers::provider_models_filtered_from;
use crate::providers::providers_filtered_from;
use crate::providers::resolve_model;
use crate::providers::shown_match;
use crate::providers::shows_model;
use crate::providers::shows_provider;
use crate::providers::wire_format;
use crate::providers::FuzzyMatch;
use crate::providers::ModelInfo;
use crate::providers::ProviderPickerRow;
use crate::providers::RankedModel;
use crate::providers::RankedProvider;
use crate::providers::WireFormat;
use crate::text::char_count;
use crate::text::contains;
use crate::text::contains_text;
use crate::text::same_text;
use crate::text::take_string;
use crate::text::trim;
use crate::text::trimmed;
use vstd::prelude::*;

verus! {

/// A starting point for a new provider.
#[derive(Debug)]
pub struct ProviderTemplate {
    /// Protocol id.
    pub protocol: String,
    pub models: Vec<String>,
    /// What a base URL looks like.
    pub url_hint: String,
    /// The fields that the editor shows.
    pub fields: Vec<CustomField>,
}

/// The place after or before `i` on a ring of `n`.
pub open spec fn ring_next(i: int, forward: bool, n: int) -> int {
    if forward {
        (i + 1) % n
    } else {
        (i + n - 1) % n
    }
}

/// The place after or before `i` on a ring of `n`.
pub fn ring_step(i: usize, forward: bool, n: usize) -> (next: usize)
    requires
        n > 0,
        forward ==> i < usize::MAX,
        !forward ==> i + n <= usize::MAX,
    ensures
        next == ring_next(i as int, forward, n as int),
        next < n,
{
    if forward {
        (i + 1) % n
    } else {
        (i + n - 1) % n
    }
}

/// One step forward undoes one step back, and the other way round.
pub proof fn law_ring_steps_are_inverse(i: int, n: int)
    requires
        0 <= i < n,
    ensures
        ring_next(ring_next(i, true, n), false, n) == i,
        ring_next(ring_next(i, false, n), true, n) == i,
{
    if i + 1 == n {
        vstd::arithmetic::div_mod::lemma_mod_self_0(n);
        assert((i + 1) % n == 0);
        assert((0 + n - 1) % n == n - 1) by {
            vstd::arithmetic::div_mod::lemma_small_mod((n - 1) as nat, n as nat);
        }
    } else {
        vstd::arithmetic::div_mod::lemma_small_mod((i + 1) as nat, n as nat);
        assert((i + 1 + n - 1) % n == i) by {
            vstd::arithmetic::div_mod::lemma_mod_add_multiples_vanish(i, n);
            vstd::arithmetic::div_mod::lemma_small_mod(i as nat, n as nat);
        }
    }
    if i == 0 {
        vstd::arithmetic::div_mod::lemma_small_mod((n - 1) as nat, n as nat);
        vstd::arithmetic::div_mod::lemma_mod_self_0(n);
    } else {
        assert((i + n - 1) % n == i - 1) by {
            vstd::arithmetic::div_mod::lemma_mod_add_multiples_vanish(i - 1, n);
            vstd::arithmetic::div_mod::lemma_small_mod((i - 1) as nat, n as nat);
        }
        vstd::arithmetic::div_mod::lemma_small_mod(i as nat, n as nat);
    }
}

/// The texts of a list.
pub open spec fn texts(list: Seq<String>) -> Seq<Seq<char>> {
    list.map_values(|s: String| s@)
}

/// Whether candidate `i` fits the query: it holds the query, or its display
/// name matches it loosely.
pub open spec fn fits(
    candidates: Seq<String>,
    query: Seq<char>,
    loose: Seq<bool>,
    i: int,
) -> bool {
    query.len() == 0 || contains_text(candidates[i]@, query) || (i < loose.len() && loose[i])
}

/// Those of the first `n` candidates that fit the query.
pub open spec fn fitting(
    candidates: Seq<String>,
    query: Seq<char>,
    loose: Seq<bool>,
    n: int,
) -> Seq<Seq<char>>
    decreases n,
{
    if n <= 0 {
        Seq::empty()
    } else if fits(candidates, query, loose, n - 1) {
        fitting(candidates, query, loose, n - 1).push(candidates[n - 1]@)
    } else {
        fitting(candidates, query, loose, n - 1)
    }
}

/// The suggestions for a query: the candidates that fit, and the query itself
/// where it is none of them.
pub open spec fn suggested(
    candidates: Seq<String>,
    query: Seq<char>,
    loose: Seq<bool>,
) -> Seq<Seq<char>> {
    let found = fitting(candidates, query, loose, candidates.len() as int);
    if query.len() > 0 && !found.contains(query) {
        found.push(query)
    } else {
        found
    }
}

/// The suggestions for a query. `loose` says which candidates' display names
/// match it loosely; it is read only for a query that is not empty.
pub fn model_suggestions(candidates: &Vec<String>, query: &str, loose: &Vec<bool>) -> (list: Vec<
    String,
>)
    requires
        query@.len() > 0 ==> loose@.len() == candidates@.len(),
    ensures
        texts(list@) == suggested(candidates@, query@, loose@),
{
    let browsing: bool = char_count(query) == 0;
    let count: usize = candidates.len();
    let mut list: Vec<String> = Vec::new();
    let mut present: bool = false;
    let mut i: usize = 0;
    while i < count
        invariant
            i <= count,
            count == candidates@.len(),
            browsing == (query@.len() == 0),
            !browsing ==> loose@.len() == count,
            texts(list@) == fitting(candidates@, query@, loose@, i as int),
            present == texts(list@).contains(query@),
        decreases count - i,
    {
        if browsing || contains(candidates[i].as_str(), query) || loose[i] {
            let ghost before = texts(list@);
            if same_text(candidates[i].as_str(), query) {
                present = true;
            }
            list.push(candidates[i].clone());
            proof {
                assert(texts(list@) =~= before.push(candidates@[i as int]@));
                lemma_push_contains(before, candidates@[i as int]@, query@);
            }
        }
        i += 1;
    }
    if !browsing && !present {
        let ghost before = texts(list@);
        list.push(query.to_owned());
        proof {
            assert(texts(list@) =~= before.push(query@));
        }
    }
    list
}

proof fn lemma_push_contains(s: Seq<Seq<char>>, x: Seq<char>, y: Seq<char>)
    ensures
        s.push(x).contains(y) == (s.contains(y) || x == y),
{
    assert(s.push(x)[s.len() as int] == x);
    if s.contains(y) {
        let i = choose|i: int| 0 <= i < s.len() && s[i] == y;
        assert(s.push(x)[i] == y);
    }
}

/// The fields of the editor for an existing provider: models are managed
/// elsewhere, and a Gemini provider has no base URL.
pub open spec fn fields_for_edit(protocol: Seq<char>) -> Seq<CustomField> {
    if protocol == "gemini"@ {
        seq![CustomField::Name, CustomField::Token]
    } else {
        seq![CustomField::Name, CustomField::BaseUrl, CustomField::Token]
    }
}

/// The fields of the editor for an existing provider.
pub fn edit_fields(protocol: &str) -> (fields: Vec<CustomField>)
    ensures
        fields@ == fields_for_edit(protocol@),
{
    let mut fields: Vec<CustomField> = Vec::new();
    fields.push(CustomField::Name);
    if !same_text(protocol, "gemini") {
        fields.push(CustomField::BaseUrl);
    }
    fields.push(CustomField::Token);
    proof {
        assert(fields@ =~= fields_for_edit(protocol@));
    }
    fields
}

/// The focused field of the provider editor.
pub open spec fn focused_field(editor: ProviderEditor) -> Option<CustomField> {
    if editor.custom_field < editor.custom_fields@.len() {
        Some(editor.custom_fields@[editor.custom_field as int])
    } else {
        None
    }
}

/// The models that the provider editor can suggest.
pub open spec fn editor_candidates(editor: ProviderEditor, registry: Seq<ModelInfo>) -> Seq<
    String,
> {
    ids_of_format(registry, wire_format(editor.custom_protocol_wire@))
}

/// What the provider editor suggests for the line.
pub open spec fn editor_suggestions(
    app: App,
    registry: Seq<ModelInfo>,
    loose: Seq<bool>,
) -> Seq<Seq<char>> {
    suggested(
        editor_candidates(app.provider_editor, registry),
        trimmed(app.composer.input@),
        loose,
    )
}

/// Whether `loose` speaks of the editor's candidates where the line is read.
pub open spec fn loose_fits_editor(
    app: App,
    registry: Seq<ModelInfo>,
    loose: Seq<bool>,
) -> bool {
    trimmed(app.composer.input@).len() > 0 ==> loose.len() == editor_candidates(
        app.provider_editor,
        registry,
    ).len()
}

/// Whether `b` is `a` with suggestion `index` committed as the model.
pub open spec fn committed(a: App, suggestions: Seq<Seq<char>>, index: usize, b: App) -> bool {
    &&& b == (App {
        provider_editor: ProviderEditor {
            custom_suggest_index: index,
            custom_model: b.provider_editor.custom_model,
            ..a.provider_editor
        },
        ..a
    })
    &&& if index < suggestions.len() {
        b.provider_editor.custom_model@ == suggestions[index as int]
    } else {
        b.provider_editor.custom_model == a.provider_editor.custom_model
    }
}

/// Whether `b` is `a` with the line saved in the focused field.
pub open spec fn field_stashed(a: App, b: App) -> bool {
    let value = a.composer.input;
    &&& b.composer.input@ == Seq::<char>::empty()
    &&& b == (App {
        composer: Composer { input: b.composer.input, ..a.composer },
        provider_editor: match focused_field(a.provider_editor) {
            Some(CustomField::Name) => ProviderEditor {
                custom_name: value,
                ..a.provider_editor
            },
            Some(CustomField::BaseUrl) => ProviderEditor {
                custom_base_url: value,
                ..a.provider_editor
            },
            Some(CustomField::Token) => ProviderEditor {
                custom_token: value,
                ..a.provider_editor
            },
            _ => a.provider_editor,
        },
        ..a
    })
}

/// What the focused field shows in the line.
pub open spec fn field_text(editor: ProviderEditor) -> Seq<char> {
    match focused_field(editor) {
        Some(CustomField::Name) => editor.custom_name@,
        Some(CustomField::BaseUrl) => editor.custom_base_url@,
        Some(CustomField::Token) => editor.custom_token@,
        _ => Seq::empty(),
    }
}

/// The first position of `text` in `list`, or 0.
pub open spec fn position_or_zero(list: Seq<String>, text: Seq<char>) -> int {
    if texts(list).contains(text) {
        texts(list).index_of_first(text)->Some_0
    } else {
        0
    }
}

/// Whether `b` is `a` with the focused field loaded into the line.
pub open spec fn field_loaded(a: App, registry: Seq<ModelInfo>, b: App) -> bool {
    &&& b.composer.input@ == field_text(a.provider_editor)
    &&& b == (App {
        composer: Composer {
            input: b.composer.input,
            cursor_position: field_text(a.provider_editor).len() as usize,
            cursor_sync_pending: true,
            ..a.composer
        },
        provider_editor: ProviderEditor {
            custom_suggest_index: b.provider_editor.custom_suggest_index,
            ..a.provider_editor
        },
        ..a
    })
    &&& b.provider_editor.custom_suggest_index == (if focused_field(a.provider_editor) == Some(
        CustomField::Model,
    ) {
        position_or_zero(
            editor_candidates(a.provider_editor, registry),
            a.provider_editor.custom_model@,
        )
    } else {
        a.provider_editor.custom_suggest_index as int
    })
}

/// The query of the picker: the line while searching, nothing while browsing.
pub open spec fn query_of(app: App) -> Seq<char> {
    if app.picker.model_search {
        trimmed(app.composer.input@)
    } else {
        Seq::empty()
    }
}

/// Whether the picker shows the models of a user-defined provider.
pub open spec fn shows_custom(app: App) -> bool {
    match app.picker.picker_provider {
        Some(idx) => idx < app.picker.provider_picker.rows@.len()
            && !app.picker.provider_picker.rows@[idx as int].builtin,
        None => false,
    }
}

/// The rows that the picker lists in its current stage, as positions in the
/// snapshot.
pub open spec fn listed(app: App, matches: Seq<Option<FuzzyMatch>>) -> Seq<int> {
    match app.picker.picker_provider {
        Some(idx) => model_list(
            app.picker.provider_picker.rows@,
            idx as int,
            query_of(app),
            matches,
        ),
        None => provider_list(app.picker.provider_picker.rows@, query_of(app), matches),
    }
}

/// Whether `matches` speaks of the rows of the current stage where the query
/// is read.
pub open spec fn matches_fit(app: App, matches: Seq<Option<FuzzyMatch>>) -> bool {
    query_of(app).len() > 0 ==> match app.picker.picker_provider {
        Some(idx) => idx < app.picker.provider_picker.rows@.len() ==> matches.len()
            == app.picker.provider_picker.rows@[idx as int].models@.len(),
        None => matches.len() == app.picker.provider_picker.rows@.len(),
    }
}

/// The first row with the given provider id.
pub open spec fn row_of(rows: Seq<ProviderPickerRow>, id: Seq<char>) -> Option<ProviderPickerRow>
    decreases rows.len(),
{
    if rows.len() == 0 {
        None
    } else if rows[0].id@ == id {
        Some(rows[0])
    } else {
        row_of(rows.drop_first(), id)
    }
}

/// The models that can be added to the provider of the add-model overlay:
/// those with the wire format of its active model.
pub open spec fn addable(app: App, registry: Seq<ModelInfo>) -> Seq<String> {
    match app.picker.add_model_provider {
        Some(id) => match row_of(app.picker.provider_picker.rows@, id@) {
            Some(row) => ids_of_format(
                registry,
                match model_entry(registry, row.model@) {
                    Some(entry) => entry.format,
                    None => WireFormat::OpenAiCompat,
                },
            ),
            None => Seq::empty(),
        },
        None => Seq::empty(),
    }
}

/// What the add-model overlay suggests for the line.
pub open spec fn add_suggestions(
    app: App,
    registry: Seq<ModelInfo>,
    loose: Seq<bool>,
) -> Seq<Seq<char>> {
    suggested(addable(app, registry), trimmed(app.composer.input@), loose)
}

/// Whether `loose` speaks of the addable models where the line is read.
pub open spec fn loose_fits_addable(
    app: App,
    registry: Seq<ModelInfo>,
    loose: Seq<bool>,
) -> bool {
    trimmed(app.composer.input@).len() > 0 ==> loose.len() == addable(app, registry).len()
}

/// Whether `b` is `a` with the template chooser open.
pub open spec fn template_chooser_opened(a: App, b: App) -> bool {
    let shown = with_modal(a, Modal::ProviderTemplate, b);
    &&& fields_given_up(Modal::ProviderTemplate, b)
    &&& b.composer.input@ == Seq::<char>::empty()
    &&& b == (App {
        picker: Picker { template_choice: 0, ..shown.picker },
        composer: Composer {
            input: b.composer.input,
            cursor_position: 0,
            cursor_sync_pending: true,
            ..a.composer
        },
        ..shown
    })
}

/// Whether `b` is `a` with the add-model overlay open for the provider `id`.
pub open spec fn add_model_opened(a: App, id: String, b: App) -> bool {
    let shown = with_modal(a, Modal::AddModel, b);
    &&& fields_given_up(Modal::AddModel, b)
    &&& b.composer.input@ == Seq::<char>::empty()
    &&& b == (App {
        picker: Picker { add_model_provider: Some(id), add_model_choice: 0, ..shown.picker },
        composer: Composer {
            input: b.composer.input,
            cursor_position: 0,
            cursor_sync_pending: true,
            ..a.composer
        },
        ..shown
    })
}

/// Whether the list of the current stage ends in a row for adding: a provider
/// can always be added, a model only to a user-defined provider.
pub open spec fn ends_in_adding_row(app: App) -> bool {
    app.picker.picker_provider is None || shows_custom(app)
}

impl App {
    /// Opens the template chooser.
    pub fn open_provider_template_chooser(&mut self)
        ensures
            template_chooser_opened(*old(self), *final(self)),
    {
        self.switch_modal(Modal::ProviderTemplate);
        self.picker.template_choice = 0;
        self.composer.input = String::new();
        self.set_cursor(0);
    }

    /// Moves the selection of the template chooser, which has `count` rows,
    /// wrapping at the ends.
    pub fn move_template_choice(&mut self, forward: bool, count: usize)
        requires
            forward ==> old(self).picker.template_choice < usize::MAX,
            !forward ==> old(self).picker.template_choice + count <= usize::MAX,
        ensures
            template_moved(*old(self), forward, count, *final(self)),
    {
        if count == 0 {
            return ;
        }
        self.picker.template_choice = ring_step(self.picker.template_choice, forward, count);
    }

    /// Opens the provider editor on a template, with the focus on the name.
    pub fn open_custom_provider_editor(
        &mut self,
        template: &ProviderTemplate,
        registry: &Vec<ModelInfo>,
    )
        ensures
            template_edited(*old(self), *template, registry@, *final(self)),
    {
        self.switch_modal(Modal::CustomProvider);
        let candidates: Vec<String> = protocol_model_candidates(
            registry,
            template.protocol.as_str(),
        );
        let custom_model: String = if candidates.len() > 0 {
            candidates[0].clone()
        } else {
            String::new()
        };
        self.provider_editor = ProviderEditor {
            custom_field: 0,
            custom_fields: copy_fields(&template.fields),
            custom_protocol_wire: template.protocol.clone(),
            custom_models: copy_names(&template.models),
            custom_url_hint: template.url_hint.clone(),
            custom_suggest_index: 0,
            custom_edit_id: None,
            custom_name: String::new(),
            custom_base_url: String::new(),
            custom_token: String::new(),
            custom_model,
        };
        self.composer.input = String::new();
        self.set_cursor(0);
    }

    /// Opens the provider editor on an existing provider.
    pub fn open_edit_provider_editor(
        &mut self,
        id: String,
        name: String,
        protocol: String,
        base_url: String,
    )
        ensures
            provider_edited(*old(self), id, name, protocol, base_url, *final(self)),
    {
        self.switch_modal(Modal::CustomProvider);
        self.provider_editor = ProviderEditor {
            custom_field: 0,
            custom_fields: edit_fields(protocol.as_str()),
            custom_protocol_wire: protocol,
            custom_models: Vec::new(),
            custom_url_hint: String::new(),
            custom_suggest_index: 0,
            custom_edit_id: Some(id),
            custom_name: name.clone(),
            custom_base_url: base_url,
            custom_token: String::new(),
            custom_model: String::new(),
        };
        self.composer.input = name;
        self.set_cursor_end();
    }

    /// Whether the provider editor edits an existing provider.
    pub fn custom_is_editing(&self) -> (editing: bool)
        ensures
            editing == self.provider_editor.custom_edit_id is Some,
    {
        self.provider_editor.custom_edit_id.is_some()
    }

    /// The focused field of the provider editor.
    pub fn current_custom_field(&self) -> (field: Option<CustomField>)
        ensures
            field == focused_field(self.provider_editor),
    {
        let at: usize = self.provider_editor.custom_field as usize;
        if at < self.provider_editor.custom_fields.len() {
            Some(self.provider_editor.custom_fields[at])
        } else {
            None
        }
    }

    /// The models that the provider editor can suggest.
    pub fn custom_model_candidates(&self, registry: &Vec<ModelInfo>) -> (ids: Vec<String>)
        ensures
            ids@ == editor_candidates(self.provider_editor, registry@),
    {
        protocol_model_candidates(registry, self.provider_editor.custom_protocol_wire.as_str())
    }

    /// What the provider editor suggests for the line. `loose` says which
    /// candidates' display names match the line loosely.
    pub fn custom_model_suggestions(&self, registry: &Vec<ModelInfo>, loose: &Vec<bool>) -> (list:
        Vec<String>)
        requires
            loose_fits_editor(*self, registry@, loose@),
        ensures
            texts(list@) == editor_suggestions(*self, registry@, loose@),
    {
        let query: String = trim(self.composer.input.as_str());
        let candidates: Vec<String> = self.custom_model_candidates(registry);
        model_suggestions(&candidates, query.as_str(), loose)
    }

    /// Commits suggestion `index` as the model.
    fn commit_custom_suggestion(&mut self, suggestions: &Vec<String>, index: usize)
        ensures
            committed(*old(self), texts(suggestions@), index, *final(self)),
    {
        self.provider_editor.custom_suggest_index = index;
        if index < suggestions.len() {
            self.provider_editor.custom_model = suggestions[index].clone();
        }
    }

    /// Moves the highlight of the model suggestions and commits the model
    /// under it. Nothing happens while another field is focused.
    pub fn move_custom_suggestion(
        &mut self,
        forward: bool,
        registry: &Vec<ModelInfo>,
        loose: &Vec<bool>,
    )
        requires
            loose_fits_editor(*old(self), registry@, loose@),
            forward ==> old(self).provider_editor.custom_suggest_index < usize::MAX,
            !forward ==> old(self).provider_editor.custom_suggest_index + editor_suggestions(
                *old(self),
                registry@,
                loose@,
            ).len() <= usize::MAX,
        ensures
            suggestion_turned(*old(self), forward, registry@, loose@, *final(self)),
    {
        if !self.model_field_focused() {
            return ;
        }
        let suggestions: Vec<String> = self.custom_model_suggestions(registry, loose);
        proof {
            assert(suggestions@.len() == texts(suggestions@).len());
        }
        if suggestions.len() == 0 {
            return ;
        }
        let next: usize = ring_step(
            self.provider_editor.custom_suggest_index,
            forward,
            suggestions.len(),
        );
        self.commit_custom_suggestion(&suggestions, next);
    }

    fn model_field_focused(&self) -> (focused: bool)
        ensures
            focused == (focused_field(self.provider_editor) == Some(CustomField::Model)),
    {
        match self.current_custom_field() {
            Some(field) => field == CustomField::Model,
            None => false,
        }
    }

    /// Highlights and commits the first suggestion after the query changed.
    pub fn on_custom_filter_changed(&mut self, registry: &Vec<ModelInfo>, loose: &Vec<bool>)
        requires
            loose_fits_editor(*old(self), registry@, loose@),
        ensures
            filter_followed(*old(self), registry@, loose@, *final(self)),
    {
        if self.model_field_focused() {
            let suggestions: Vec<String> = self.custom_model_suggestions(registry, loose);
            self.commit_custom_suggestion(&suggestions, 0);
        }
    }

    /// Saves the line in the focused field. The model field has nothing to
    /// save: its line is only a query.
    pub fn stash_custom_field(&mut self)
        ensures
            field_stashed(*old(self), *final(self)),
    {
        let value: String = take_string(&mut self.composer.input);
        match self.current_custom_field() {
            Some(CustomField::Name) => {
                self.provider_editor.custom_name = value;
            },
            Some(CustomField::BaseUrl) => {
                self.provider_editor.custom_base_url = value;
            },
            Some(CustomField::Token) => {
                self.provider_editor.custom_token = value;
            },
            _ => {},
        }
    }

    /// Loads the focused field into the line. The model field starts with an
    /// empty query and the highlight on the committed model.
    pub fn load_custom_field(&mut self, registry: &Vec<ModelInfo>)
        ensures
            field_loaded(*old(self), registry@, *final(self)),
    {
        let text: String = match self.current_custom_field() {
            Some(CustomField::Name) => self.provider_editor.custom_name.clone(),
            Some(CustomField::BaseUrl) => self.provider_editor.custom_base_url.clone(),
            Some(CustomField::Token) => self.provider_editor.custom_token.clone(),
            _ => String::new(),
        };
        self.composer.input = text;
        self.set_cursor_end();
        if self.model_field_focused() {
            let candidates: Vec<String> = self.custom_model_candidates(registry);
            self.provider_editor.custom_suggest_index = find_text_or_zero(
                &candidates,
                self.provider_editor.custom_model.as_str(),
            );
        }
    }

    /// Moves the focus of the provider editor, wrapping at the ends.
    pub fn cycle_custom_field(&mut self, forward: bool, registry: &Vec<ModelInfo>)
        requires
            field_count(old(self).provider_editor) > 0,
            forward ==> old(self).provider_editor.custom_field < 255,
            !forward ==> old(self).provider_editor.custom_field + field_count(
                old(self).provider_editor,
            ) <= 255,
        ensures
            field_turned(*old(self), forward, registry@, *final(self)),
    {
        self.stash_custom_field();
        let ghost mid = *self;
        let fields: usize = self.provider_editor.custom_fields.len();
        let n: usize = if fields == 0 {
            1
        } else {
            fields % 256
        };
        let at: usize = self.provider_editor.custom_field as usize;
        self.provider_editor.custom_field = ring_step(at, forward, n) as u8;
        let ghost turned = *self;
        self.load_custom_field(registry);
        proof {
            assert(field_stashed(*old(self), mid));
            assert(field_loaded(turned, registry@, *self));
        }
    }

    /// The query of the picker.
    pub fn picker_query(&self) -> (query: String)
        ensures
            query@ == query_of(*self),
    {
        if self.picker.model_search {
            trim(self.composer.input.as_str())
        } else {
            String::new()
        }
    }

    /// The provider list. `matches` says how each provider's name matches the
    /// query.
    pub fn providers_filtered(&self, matches: &Vec<Option<FuzzyMatch>>) -> (list: Vec<
        RankedProvider,
    >)
        requires
            query_of(*self).len() > 0 ==> matches@.len()
                == self.picker.provider_picker.rows@.len(),
        ensures
            ({
                let rows = self.picker.provider_picker.rows@;
                let order = provider_list(rows, query_of(*self), matches@);
                &&& list@.len() == order.len()
                &&& forall|k: int|
                    0 <= k < order.len() ==> shows_provider(
                        #[trigger] list@[k],
                        rows,
                        order[k],
                        shown_match(query_of(*self), matches@, order[k]),
                    )
            }),
    {
        let query: String = self.picker_query();
        providers_filtered_from(&self.picker.provider_picker, query.as_str(), matches)
    }

    /// The model list of the provider that the picker shows; none while it
    /// shows the providers.
    pub fn provider_models_filtered(
        &self,
        registry: &Vec<ModelInfo>,
        matches: &Vec<Option<FuzzyMatch>>,
    ) -> (list: Vec<RankedModel>)
        requires
            self.picker.picker_provider is Some ==> matches_fit(*self, matches@),
        ensures
            match self.picker.picker_provider {
                Some(idx) => {
                    let rows = self.picker.provider_picker.rows@;
                    let shown = model_list(rows, idx as int, query_of(*self), matches@);
                    &&& list@.len() == shown.len()
                    &&& forall|k: int|
                        0 <= k < shown.len() ==> shows_model(
                            #[trigger] list@[k],
                            registry@,
                            rows[idx as int],
                            shown[k],
                            shown_match(query_of(*self), matches@, shown[k]),
                        )
                },
                None => list@.len() == 0,
            },
    {
        match self.picker.picker_provider {
            Some(idx) => {
                let query: String = self.picker_query();
                provider_models_filtered_from(
                    &self.picker.provider_picker,
                    registry,
                    idx,
                    query.as_str(),
                    matches,
                )
            },
            None => Vec::new(),
        }
    }

    /// Whether the picker shows the models of a user-defined provider.
    pub fn picker_provider_is_custom(&self) -> (custom: bool)
        ensures
            custom == shows_custom(*self),
    {
        match self.picker.picker_provider {
            Some(idx) => idx < self.picker.provider_picker.rows.len()
                && !self.picker.provider_picker.rows[idx].builtin,
            None => false,
        }
    }

    /// Whether the list of the current stage ends in a row for adding.
    pub fn offers_adding(&self) -> (yes: bool)
        ensures
            yes == ends_in_adding_row(*self),
    {
        self.picker.picker_provider.is_none() || self.picker_provider_is_custom()
    }

    /// How many rows the picker lists in its current stage, without the row
    /// for adding.
    fn picker_listed(&self, registry: &Vec<ModelInfo>, matches: &Vec<Option<FuzzyMatch>>) -> (
    count: usize)
        requires
            matches_fit(*self, matches@),
        ensures
            count == listed(*self, matches@).len(),
    {
        if self.picker.picker_provider.is_some() {
            self.provider_models_filtered(registry, matches).len()
        } else {
            self.providers_filtered(matches).len()
        }
    }

    /// How many rows the selection can reach: a provider can always be added,
    /// a model only to a user-defined provider.
    pub fn picker_row_count(
        &self,
        registry: &Vec<ModelInfo>,
        matches: &Vec<Option<FuzzyMatch>>,
    ) -> (count: usize)
        requires
            matches_fit(*self, matches@),
            listed(*self, matches@).len() < usize::MAX,
        ensures
            count == listed(*self, matches@).len() + (if ends_in_adding_row(*self) {
                1int
            } else {
                0int
            }),
    {
        let rows: usize = self.picker_listed(registry, matches);
        if self.offers_adding() {
            rows + 1
        } else {
            rows
        }
    }

    /// Whether the row for adding a provider is selected.
    pub fn picker_on_add_row(
        &self,
        registry: &Vec<ModelInfo>,
        matches: &Vec<Option<FuzzyMatch>>,
    ) -> (yes: bool)
        requires
            matches_fit(*self, matches@),
        ensures
            yes == (self.picker.picker_provider is None && self.overlay.modal_index == listed(
                *self,
                matches@,
            ).len()),
    {
        self.picker.picker_provider.is_none() && self.overlay.modal_index == self.picker_listed(
            registry,
            matches,
        )
    }

    /// Whether the row for adding a model is selected.
    pub fn picker_on_add_model_row(
        &self,
        registry: &Vec<ModelInfo>,
        matches: &Vec<Option<FuzzyMatch>>,
    ) -> (yes: bool)
        requires
            matches_fit(*self, matches@),
        ensures
            yes == (self.picker.picker_provider is Some && shows_custom(*self)
                && self.overlay.modal_index == listed(*self, matches@).len()),
    {
        self.picker.picker_provider.is_some() && self.picker_provider_is_custom()
            && self.overlay.modal_index == self.picker_listed(registry, matches)
    }

    /// The models that can be added to the provider of the add-model overlay.
    pub fn add_model_candidates(&self, registry: &Vec<ModelInfo>) -> (ids: Vec<String>)
        ensures
            ids@ == addable(*self, registry@),
    {
        let id: &String = match &self.picker.add_model_provider {
            Some(id) => id,
            None => {
                return Vec::new();
            },
        };
        let row: &ProviderPickerRow = match find_row(
            &self.picker.provider_picker.rows,
            id.as_str(),
        ) {
            Some(row) => row,
            None => {
                return Vec::new();
            },
        };
        let format: WireFormat = match resolve_model(registry, row.model.as_str()) {
            Some(entry) => entry.format,
            None => WireFormat::OpenAiCompat,
        };
        models_of_format(registry, format)
    }

    /// Opens the add-model overlay for the user-defined provider `id`.
    pub fn open_add_model_overlay(&mut self, id: String)
        ensures
            add_model_opened(*old(self), id, *final(self)),
    {
        self.picker.add_model_provider = Some(id);
        self.picker.add_model_choice = 0;
        self.composer.input = String::new();
        self.set_cursor(0);
        self.switch_modal(Modal::AddModel);
    }

    /// What the add-model overlay suggests for the line. `loose` says which
    /// candidates' display names match the line loosely.
    pub fn add_model_suggestions(&self, registry: &Vec<ModelInfo>, loose: &Vec<bool>) -> (list: Vec<
        String,
    >)
        requires
            loose_fits_addable(*self, registry@, loose@),
        ensures
            texts(list@) == add_suggestions(*self, registry@, loose@),
    {
        let query: String = trim(self.composer.input.as_str());
        let candidates: Vec<String> = self.add_model_candidates(registry);
        model_suggestions(&candidates, query.as_str(), loose)
    }

    /// Moves the highlight of the add-model suggestions.
    pub fn move_add_model(&mut self, forward: bool, registry: &Vec<ModelInfo>, loose: &Vec<bool>)
        requires
            loose_fits_addable(*old(self), registry@, loose@),
            forward ==> old(self).picker.add_model_choice < usize::MAX,
            !forward ==> old(self).picker.add_model_choice + add_suggestions(
                *old(self),
                registry@,
                loose@,
            ).len() <= usize::MAX,
        ensures
            addition_turned(*old(self), forward, registry@, loose@, *final(self)),
    {
        let suggestions: Vec<String> = self.add_model_suggestions(registry, loose);
        proof {
            assert(suggestions@.len() == texts(suggestions@).len());
        }
        if suggestions.len() == 0 {
            return ;
        }
        self.picker.add_model_choice = ring_step(
            self.picker.add_model_choice,
            forward,
            suggestions.len(),
        );
    }

    /// Highlights the first add-model suggestion after the query changed.
    pub fn on_add_model_filter_changed(&mut self)
        ensures
            addition_reset(*old(self), *final(self)),
    {
        self.picker.add_model_choice = 0;
    }

    /// The model that the add-model overlay would submit; empty where nothing
    /// is highlighted.
    pub fn add_model_selected(&self, registry: &Vec<ModelInfo>, loose: &Vec<bool>) -> (model:
        String)
        requires
            loose_fits_addable(*self, registry@, loose@),
        ensures
            ({
                let list = add_suggestions(*self, registry@, loose@);
                model@ == (if self.picker.add_model_choice < list.len() {
                    list[self.picker.add_model_choice as int]
                } else {
                    Seq::empty()
                })
            }),
    {
        let suggestions: Vec<String> = self.add_model_suggestions(registry, loose);
        proof {
            assert(suggestions@.len() == texts(suggestions@).len());
        }
        if self.picker.add_model_choice < suggestions.len() {
            suggestions[self.picker.add_model_choice].clone()
        } else {
            String::new()
        }
    }

    /// How many tools the tools manager lists.
    pub fn session_tools_len(&self) -> (count: usize)
        ensures
            count == (match self.session.session_context {
                Some(context) => context.tools@.len(),
                None => 0,
            }),
    {
        match &self.session.session_context {
            Some(context) => context.tools.len(),
            None => 0,
        }
    }

    /// The request that flips the selected tool.
    pub fn session_activate_request(&self) -> (request: Option<AgentRequest>)
        ensures
            match self.session.session_context {
                Some(context) => if self.overlay.modal_index < context.tools@.len() {
                    let tool = context.tools@[self.overlay.modal_index as int];
                    request == Some(
                        AgentRequest::ToggleTool { name: tool.name, enabled: !tool.enabled },
                    )
                } else {
                    request is None
                },
                None => request is None,
            },
    {
        match &self.session.session_context {
            Some(context) => {
                if self.overlay.modal_index < context.tools.len() {
                    let tool = &context.tools[self.overlay.modal_index];
                    Some(AgentRequest::ToggleTool { name: tool.name.clone(), enabled: !tool.enabled })
                } else {
                    None
                }
            },
            None => None,
        }
    }
}

/// How many fields the focus of the editor moves among, counted in a byte.
pub open spec fn field_count(editor: ProviderEditor) -> int {
    if editor.custom_fields@.len() == 0 {
        1
    } else {
        editor.custom_fields@.len() as int % 256
    }
}

fn copy_fields(fields: &Vec<CustomField>) -> (copy: Vec<CustomField>)
    ensures
        copy@ == fields@,
{
    let mut copy: Vec<CustomField> = Vec::new();
    let count: usize = fields.len();
    let mut i: usize = 0;
    while i < count
        invariant
            i <= count,
            count == fields@.len(),
            copy@ == fields@.take(i as int),
        decreases count - i,
    {
        copy.push(fields[i]);
        i += 1;
        proof {
            assert(fields@.take(i as int) =~= fields@.take(i - 1).push(fields@[i - 1]));
        }
    }
    proof {
        assert(fields@.take(count as int) =~= fields@);
    }
    copy
}

fn find_text_or_zero(list: &Vec<String>, text: &str) -> (at: usize)
    ensures
        at == position_or_zero(list@, text@),
{
    let count: usize = list.len();
    let ghost views = texts(list@);
    let mut i: usize = 0;
    proof {
        views.index_of_first_ensures(text@);
    }
    while i < count
        invariant
            i <= count,
            count == list@.len(),
            views == texts(list@),
            forall|k: int| 0 <= k < i ==> views[k] != text@,
        decreases count - i,
    {
        proof {
            assert(views[i as int] == list@[i as int]@);
        }
        if same_text(list[i].as_str(), text) {
            proof {
                views.index_of_first_ensures(text@);
                assert(views.contains(text@));
            }
            return i;
        }
        i += 1;
    }
    0
}

fn find_row<'a>(rows: &'a Vec<ProviderPickerRow>, id: &str) -> (row: Option<&'a ProviderPickerRow>)
    ensures
        match row {
            Some(r) => row_of(rows@, id@) == Some(*r),
            None => row_of(rows@, id@) is None,
        },
{
    let count: usize = rows.len();
    let mut i: usize = 0;
    proof {
        assert(rows@.skip(0) =~= rows@);
    }
    while i < count
        invariant
            i <= count,
            count == rows@.len(),
            row_of(rows@, id@) == row_of(rows@.skip(i as int), id@),
        decreases count - i,
    {
        proof {
            assert(rows@.skip(i as int)[0] == rows@[i as int]);
            assert(rows@.skip(i as int).drop_first() =~= rows@.skip(i + 1));
        }
        if same_text(rows[i].id.as_str(), id) {
            return Some(&rows[i]);
        }
        i += 1;
    }
    None
}

/// What was typed into a field is there again when the focus comes back to
/// it. The model field starts over: it filters by the line.
pub proof fn law_field_text_comes_back(a: App, b: App, registry: Seq<ModelInfo>, c: App)
    requires
        field_stashed(a, b),
        field_loaded(b, registry, c),
        focused_field(a.provider_editor) matches Some(field) && field != CustomField::Model,
    ensures
        c.composer.input@ == a.composer.input@,
{
}

/// Whether the selection of the template chooser moved by one of `count` rows.
pub open spec fn template_moved(a: App, forward: bool, count: usize, b: App) -> bool {
    b == (App {
        picker: Picker {
            template_choice: if count == 0 {
                a.picker.template_choice
            } else {
                ring_next(a.picker.template_choice as int, forward, count as int) as usize
            },
            ..a.picker
        },
        ..a
    })
}

/// Whether the provider editor opened on a template: its fields are empty, and
/// the first model that speaks the protocol is chosen.
pub open spec fn template_edited(
    a: App,
    template: ProviderTemplate,
    registry: Seq<ModelInfo>,
    b: App,
) -> bool {
    let editor = b.provider_editor;
    let candidates = ids_of_format(registry, wire_format(template.protocol@));
    &&& b.composer.input@ == Seq::<char>::empty()
    &&& editor.custom_fields@ == template.fields@
    &&& editor.custom_models@ == template.models@
    &&& editor.custom_name@ == Seq::<char>::empty()
    &&& editor.custom_base_url@ == Seq::<char>::empty()
    &&& editor.custom_token@ == Seq::<char>::empty()
    &&& editor.custom_model@ == (if candidates.len() > 0 {
        candidates[0]@
    } else {
        Seq::empty()
    })
    &&& b == (App {
        composer: Composer {
            input: b.composer.input,
            cursor_position: 0,
            cursor_sync_pending: true,
            ..a.composer
        },
        provider_editor: ProviderEditor {
            custom_field: 0,
            custom_fields: editor.custom_fields,
            custom_protocol_wire: template.protocol,
            custom_models: editor.custom_models,
            custom_url_hint: template.url_hint,
            custom_suggest_index: 0,
            custom_edit_id: None,
            custom_name: editor.custom_name,
            custom_base_url: editor.custom_base_url,
            custom_token: editor.custom_token,
            custom_model: editor.custom_model,
        },
        ..with_modal(a, Modal::CustomProvider, b)
    })
}

/// Whether the provider editor opened on an existing provider, with its name in
/// the line and without its token.
pub open spec fn provider_edited(
    a: App,
    id: String,
    name: String,
    protocol: String,
    base_url: String,
    b: App,
) -> bool {
    let editor = b.provider_editor;
    &&& editor.custom_fields@ == fields_for_edit(protocol@)
    &&& editor.custom_models@ == Seq::<String>::empty()
    &&& editor.custom_url_hint@ == Seq::<char>::empty()
    &&& editor.custom_token@ == Seq::<char>::empty()
    &&& editor.custom_model@ == Seq::<char>::empty()
    &&& b == (App {
        composer: Composer {
            input: name,
            cursor_position: name@.len() as usize,
            cursor_sync_pending: true,
            ..a.composer
        },
        provider_editor: ProviderEditor {
            custom_field: 0,
            custom_fields: editor.custom_fields,
            custom_protocol_wire: protocol,
            custom_models: editor.custom_models,
            custom_url_hint: editor.custom_url_hint,
            custom_suggest_index: 0,
            custom_edit_id: Some(id),
            custom_name: name,
            custom_base_url: base_url,
            custom_token: editor.custom_token,
            custom_model: editor.custom_model,
        },
        ..with_modal(a, Modal::CustomProvider, b)
    })
}

/// Whether the highlight of the model suggestions moved, and the model under it
/// is chosen; nothing happens while another field is focused.
pub open spec fn suggestion_turned(
    a: App,
    forward: bool,
    registry: Seq<ModelInfo>,
    loose: Seq<bool>,
    b: App,
) -> bool {
    let list = editor_suggestions(a, registry, loose);
    if focused_field(a.provider_editor) != Some(CustomField::Model) || list.len() == 0 {
        b == a
    } else {
        committed(
            a,
            list,
            ring_next(
                a.provider_editor.custom_suggest_index as int,
                forward,
                list.len() as int,
            ) as usize,
            b,
        )
    }
}

/// Whether the first suggestion for the changed query is highlighted and chosen.
pub open spec fn filter_followed(
    a: App,
    registry: Seq<ModelInfo>,
    loose: Seq<bool>,
    b: App,
) -> bool {
    if focused_field(a.provider_editor) == Some(CustomField::Model) {
        committed(a, editor_suggestions(a, registry, loose), 0, b)
    } else {
        b == a
    }
}

/// Whether the focus of the provider editor moved by one field: what was typed is
/// kept, and the line shows the field that has the focus now.
pub open spec fn field_turned(a: App, forward: bool, registry: Seq<ModelInfo>, b: App) -> bool {
    exists|mid: App, turned: App| #[trigger]
        field_stashed(a, mid) && #[trigger] field_loaded(turned, registry, b) && turned == (App {
            provider_editor: ProviderEditor {
                custom_field: ring_next(
                    a.provider_editor.custom_field as int,
                    forward,
                    field_count(a.provider_editor),
                ) as u8,
                ..mid.provider_editor
            },
            ..mid
        })
}

/// Whether the highlight of the add-model suggestions moved by one.
pub open spec fn addition_turned(
    a: App,
    forward: bool,
    registry: Seq<ModelInfo>,
    loose: Seq<bool>,
    b: App,
) -> bool {
    let n = add_suggestions(a, registry, loose).len();
    b == (App {
        picker: Picker {
            add_model_choice: if n == 0 {
                a.picker.add_model_choice
            } else {
                ring_next(a.picker.add_model_choice as int, forward, n as int) as usize
            },
            ..a.picker
        },
        ..a
    })
}

/// Whether the first add-model suggestion is highlighted.
pub open spec fn addition_reset(a: App, b: App) -> bool {
    b == (App { picker: Picker { add_model_choice: 0, ..a.picker }, ..a })
}

} // verus!
