//! The provider picker and the key editor behind it.
use crate::agent::AgentRequest;
use crate::app::composer::draft_parked;
use crate::app::composer::model_draft_restored;
use crate::app::picker::add_model_opened;
use crate::app::picker::ends_in_adding_row;
use crate::app::picker::listed;
use crate::app::picker::matches_fit;
use crate::app::picker::query_of;
use crate::app::picker::template_chooser_opened;
use crate::app::switching::fields_given_up;
use crate::app::switching::with_modal;
use crate::app::App;
use crate::app::Composer;
use crate::app::Effect;
use crate::app::KeyEditor;
use crate::app::Overlay;
use crate::app::Picker;
use crate::event_loop::permission::send;
use crate::modal::Modal;
use crate::providers::shown_match;
use crate::providers::shown_rows;
use crate::providers::shows_provider;
use crate::providers::FuzzyMatch;
use crate::providers::ProviderPickerRow;
use crate::providers::RankedProvider;
use crate::text::char_count;
use crate::text::same_text;
use crate::text::take_string;
use crate::text::trim;
use crate::text::trimmed;
use vstd::prelude::*;

verus! {

/// A row of the picker: in the provider list a provider with its active model,
/// in a model list one of the provider's models.
#[derive(Debug)]
pub struct PickerEntry {
    /// The provider's position in the snapshot.
    pub row_idx: usize,
    pub provider_id: String,
    pub model: String,
}

/// The row for position `i` of what the picker lists.
pub open spec fn entry_for(a: App, i: int) -> PickerEntry {
    let rows = a.picker.provider_picker.rows@;
    match a.picker.picker_provider {
        Some(idx) => PickerEntry {
            row_idx: idx,
            provider_id: rows[idx as int].id,
            model: rows[idx as int].models@[i],
        },
        None => PickerEntry {
            row_idx: i as usize,
            provider_id: rows[i].id,
            model: rows[i].model,
        },
    }
}

/// The rows that the picker lists in its current stage.
pub open spec fn entries(a: App, matches: Seq<Option<FuzzyMatch>>) -> Seq<PickerEntry> {
    listed(a, matches).map_values(|i: int| entry_for(a, i))
}

/// The rows that the picker lists in its current stage. `matches` says how each
/// name matches the query.
pub fn picker_entries(app: &App, matches: &Vec<Option<FuzzyMatch>>) -> (list: Vec<PickerEntry>)
    requires
        matches_fit(*app, matches@),
    ensures
        list@ == entries(*app, matches@),
{
    match app.picker.picker_provider {
        Some(idx) => model_entries(app, idx, matches),
        None => provider_entries(app, matches),
    }
}

fn model_entries(app: &App, idx: usize, matches: &Vec<Option<FuzzyMatch>>) -> (list: Vec<
    PickerEntry,
>)
    requires
        matches_fit(*app, matches@),
        app.picker.picker_provider == Some(idx),
    ensures
        list@ == entries(*app, matches@),
{
    let query: String = app.picker_query();
    let browsing: bool = char_count(query.as_str()) == 0;
    let mut list: Vec<PickerEntry> = Vec::new();
    if idx >= app.picker.provider_picker.rows.len() {
        assert(list@ =~= entries(*app, matches@));
        return list;
    }
    let row: &ProviderPickerRow = &app.picker.provider_picker.rows[idx];
    let count: usize = row.models.len();
    let mut i: usize = 0;
    proof {
        assert(list@ =~= shown_rows(query@, matches@, 0).map_values(
            |i: int| entry_for(*app, i),
        ));
    }
    while i < count
        invariant
            i <= count,
            count == row.models@.len(),
            app.picker.picker_provider == Some(idx),
            idx < app.picker.provider_picker.rows@.len(),
            *row == app.picker.provider_picker.rows@[idx as int],
            query@ == query_of(*app),
            browsing == (query@.len() == 0),
            !browsing ==> matches@.len() == count,
            list@ == shown_rows(query@, matches@, i as int).map_values(
                |i: int| entry_for(*app, i),
            ),
        decreases count - i,
    {
        if browsing || matches[i].is_some() {
            list.push(
                PickerEntry {
                    row_idx: idx,
                    provider_id: row.id.clone(),
                    model: row.models[i].clone(),
                },
            );
            proof {
                assert(list@ =~= shown_rows(query@, matches@, i + 1).map_values(
                    |i: int| entry_for(*app, i),
                ));
            }
        }
        i += 1;
    }
    list
}

fn provider_entries(app: &App, matches: &Vec<Option<FuzzyMatch>>) -> (list: Vec<PickerEntry>)
    requires
        matches_fit(*app, matches@),
        app.picker.picker_provider is None,
    ensures
        list@ == entries(*app, matches@),
{
    let providers: Vec<RankedProvider> = app.providers_filtered(matches);
    let mut list: Vec<PickerEntry> = Vec::new();
    let mut i: usize = 0;
    while i < providers.len()
        invariant
            i <= providers@.len(),
            app.picker.picker_provider is None,
            providers@.len() == listed(*app, matches@).len(),
            forall|k: int|
                0 <= k < providers@.len() ==> shows_provider(
                    #[trigger] providers@[k],
                    app.picker.provider_picker.rows@,
                    listed(*app, matches@)[k],
                    shown_match(query_of(*app), matches@, listed(*app, matches@)[k]),
                ),
            list@ == entries(*app, matches@).take(i as int),
        decreases providers@.len() - i,
    {
        let shown: &RankedProvider = &providers[i];
        list.push(
            PickerEntry {
                row_idx: shown.row_idx,
                provider_id: shown.id.clone(),
                model: shown.model.clone(),
            },
        );
        i += 1;
        proof {
            assert(list@ =~= entries(*app, matches@).take(i as int));
        }
    }
    proof {
        assert(entries(*app, matches@).take(i as int) =~= entries(*app, matches@));
    }
    list
}

/// Whether the provider `id` has a key; one that nothing is known of is taken
/// to have one.
pub open spec fn has_key(status: Seq<(String, bool)>, id: Seq<char>) -> bool
    decreases status.len(),
{
    if status.len() == 0 {
        true
    } else if status.last().0@ == id {
        status.last().1
    } else {
        has_key(status.drop_last(), id)
    }
}

/// Whether the provider `id` has a key.
pub fn key_ready(status: &Vec<(String, bool)>, id: &str) -> (ready: bool)
    ensures
        ready == has_key(status@, id@),
{
    let mut i: usize = status.len();
    proof {
        assert(status@.take(i as int) =~= status@);
    }
    while i > 0
        invariant
            i <= status@.len(),
            has_key(status@, id@) == has_key(status@.take(i as int), id@),
        decreases i,
    {
        i -= 1;
        proof {
            assert(status@.take(i + 1).drop_last() =~= status@.take(i as int));
        }
        if same_text(status[i].0.as_str(), id) {
            return status[i].1;
        }
    }
    true
}

/// Whether the selection is on the row for adding, behind the `rows` listed
/// ones.
pub open spec fn on_adding_row(a: App, rows: nat) -> bool {
    ends_in_adding_row(a) && a.overlay.modal_index == rows
}

/// The row that the selection stands for: none on the row for adding, and the
/// first one where the selection is beyond the list.
pub open spec fn picked(a: App, rows: Seq<PickerEntry>) -> Option<PickerEntry> {
    let at = a.overlay.modal_index;
    if on_adding_row(a, rows.len()) {
        None
    } else if at < rows.len() {
        Some(rows[at as int])
    } else if rows.len() > 0 {
        Some(rows[0])
    } else {
        None
    }
}

fn pick<'a>(app: &App, rows: &'a Vec<PickerEntry>) -> (row: Option<&'a PickerEntry>)
    ensures
        match row {
            Some(entry) => picked(*app, rows@) == Some(*entry),
            None => picked(*app, rows@) is None,
        },
{
    let at: usize = app.overlay.modal_index;
    if at == rows.len() && app.offers_adding() {
        None
    } else if at < rows.len() {
        Some(&rows[at])
    } else if rows.len() > 0 {
        Some(&rows[0])
    } else {
        None
    }
}

/// The request to use a model of a provider.
pub open spec fn switch_to(row: PickerEntry) -> Effect {
    Effect::Send(
        AgentRequest::SwitchProvider {
            provider_type: row.provider_id,
            model: row.model,
            api_key: None,
            base_url: None,
            effort: None,
            thinking: None,
        },
    )
}

/// Whether `b` is `a` with the key editor open on `row`.
pub open spec fn editor_opened(a: App, row: PickerEntry, b: App) -> bool {
    let shown = with_modal(a, Modal::ModelEditor, b);
    &&& fields_given_up(Modal::ModelEditor, b)
    &&& b.composer.input@ == Seq::<char>::empty()
    &&& b.key_editor.editor_key@ == Seq::<char>::empty()
    &&& b.key_editor.editor_effort@ == "high"@
    &&& b == (App {
        key_editor: KeyEditor {
            editor_target: Some(row.provider_id),
            editor_field: 0,
            editor_key: b.key_editor.editor_key,
            editor_model: row.model,
            editor_effort: b.key_editor.editor_effort,
            editor_thinking: true,
        },
        composer: Composer {
            input: b.composer.input,
            cursor_position: 0,
            cursor_sync_pending: true,
            ..a.composer
        },
        picker: Picker { model_search: false, ..shown.picker },
        ..shown
    })
}

fn open_editor(app: &mut App, row: &PickerEntry)
    ensures
        editor_opened(*old(app), *row, *final(app)),
{
    app.key_editor.editor_target = Some(row.provider_id.clone());
    app.key_editor.editor_field = 0;
    app.key_editor.editor_key = String::new();
    app.key_editor.editor_model = row.model.clone();
    app.key_editor.editor_effort = "high".to_owned();
    app.key_editor.editor_thinking = true;
    app.composer.input = String::new();
    app.set_cursor(0);
    app.picker.model_search = false;
    app.switch_modal(Modal::ModelEditor);
}

/// Whether activating `row` opens the model list of its provider: it has
/// several models, and the picker shows the providers.
pub open spec fn opens_models(a: App, row: PickerEntry) -> bool {
    let rows = a.picker.provider_picker.rows@;
    a.picker.picker_provider is None && row.row_idx < rows.len()
        && rows[row.row_idx as int].models@.len() > 1
}

/// Whether `b` is `a` with the picker at the top of another list: the models of
/// the provider at `stage`, or the providers. A query is dropped.
pub open spec fn stage_shown(a: App, stage: Option<usize>, b: App) -> bool {
    line_emptied(
        list_restarted(
            App { picker: Picker { picker_provider: stage, ..a.picker }, ..a },
            false,
        ),
        b,
    )
}

fn show_stage(app: &mut App, stage: Option<usize>)
    ensures
        stage_shown(*old(app), stage, *final(app)),
{
    app.picker.picker_provider = stage;
    app.picker.model_search = false;
    app.overlay.modal_index = 0;
    app.picker.model_scroll = 0;
    app.picker.model_modal_follow = true;
    empty_line(app);
}

/// Whether the model of `row` was chosen: it is switched to and the draft comes
/// back, or the key editor opens where the key is missing.
pub open spec fn model_chosen(a: App, row: PickerEntry, b: App) -> bool {
    if has_key(a.picker.key_status@, row.provider_id@) {
        &&& b.outbox@ == a.outbox@.push(switch_to(row))
        &&& b.overlay.active_modal == Modal::Closed
        &&& model_draft_restored(
            App {
                outbox: b.outbox,
                overlay: Overlay { active_modal: Modal::Closed, ..a.overlay },
                ..a
            },
            b,
        )
    } else {
        editor_opened(a, row, b)
    }
}

fn choose_model(app: &mut App, row: &PickerEntry)
    ensures
        model_chosen(*old(app), *row, *final(app)),
{
    if key_ready(&app.picker.key_status, row.provider_id.as_str()) {
        send(
            app,
            AgentRequest::SwitchProvider {
                provider_type: row.provider_id.clone(),
                model: row.model.clone(),
                api_key: None,
                base_url: None,
                effort: None,
                thinking: None,
            },
        );
        app.restore_model_draft();
        app.overlay.active_modal = Modal::Closed;
    } else {
        open_editor(app, row);
    }
}

/// Whether the row for adding was activated: a provider is added by a
/// template, a model in the add-model overlay.
pub open spec fn adding_started(a: App, b: App) -> bool {
    match a.picker.picker_provider {
        Some(idx) => add_model_opened(a, a.picker.provider_picker.rows@[idx as int].id, b),
        None => template_chooser_opened(a, b),
    }
}

/// Whether the selected row was activated: the row for adding starts adding, a
/// provider with several models opens its model list, and any other row chooses
/// its model.
pub open spec fn row_activated(a: App, rows: Seq<PickerEntry>, b: App) -> bool {
    if a.overlay.active_modal != Modal::Provider {
        b == a
    } else if on_adding_row(a, rows.len()) {
        adding_started(a, b)
    } else {
        match picked(a, rows) {
            Some(row) => if opens_models(a, row) {
                stage_shown(a, Some(row.row_idx), b)
            } else {
                model_chosen(a, row, b)
            },
            None => b == a,
        }
    }
}

/// Activates the selected row of the picker. `matches` says how each name
/// matches the query.
pub fn activate_picker_row(app: &mut App, matches: &Vec<Option<FuzzyMatch>>)
    requires
        matches_fit(*old(app), matches@),
    ensures
        row_activated(*old(app), entries(*old(app), matches@), *final(app)),
{
    if app.overlay.active_modal != Modal::Provider {
        return ;
    }
    let rows: Vec<PickerEntry> = picker_entries(app, matches);
    if app.overlay.modal_index == rows.len() && app.offers_adding() {
        match app.picker.picker_provider {
            Some(idx) => {
                let id: String = app.picker.provider_picker.rows[idx].id.clone();
                app.open_add_model_overlay(id);
            },
            None => app.open_provider_template_chooser(),
        }
        return ;
    }
    if let Some(row) = pick(app, &rows) {
        if app.picker.picker_provider.is_none() && row.row_idx
            < app.picker.provider_picker.rows.len()
            && app.picker.provider_picker.rows[row.row_idx].models.len() > 1 {
            show_stage(app, Some(row.row_idx));
        } else {
            choose_model(app, row);
        }
    }
}

/// Whether the picker went back from a model list to the providers.
pub open spec fn models_left(a: App, b: App) -> bool {
    if a.overlay.active_modal == Modal::Provider && a.picker.picker_provider is Some {
        stage_shown(a, None, b)
    } else {
        b == a
    }
}

/// Goes back from a model list to the providers.
pub fn leave_models(app: &mut App)
    ensures
        models_left(*old(app), *final(app)),
{
    if app.overlay.active_modal == Modal::Provider && app.picker.picker_provider.is_some() {
        show_stage(app, None);
    }
}

/// Whether the key editor was opened on the selected row.
pub open spec fn row_edited(a: App, rows: Seq<PickerEntry>, b: App) -> bool {
    match picked(a, rows) {
        Some(row) => if a.overlay.active_modal == Modal::Provider {
            editor_opened(a, row, b)
        } else {
            b == a
        },
        None => b == a,
    }
}

/// Opens the key editor on the selected row.
pub fn open_model_editor(app: &mut App, matches: &Vec<Option<FuzzyMatch>>)
    requires
        matches_fit(*old(app), matches@),
    ensures
        row_edited(*old(app), entries(*old(app), matches@), *final(app)),
{
    if app.overlay.active_modal == Modal::Provider {
        let rows: Vec<PickerEntry> = picker_entries(app, matches);
        if let Some(row) = pick(app, &rows) {
            open_editor(app, row);
        }
    }
}

/// Whether the favorite flag of the selected row's provider was asked to flip.
pub open spec fn favorite_toggled(a: App, rows: Seq<PickerEntry>, b: App) -> bool {
    match picked(a, rows) {
        Some(row) => if a.overlay.active_modal == Modal::Provider {
            &&& b.outbox@ == a.outbox@.push(
                Effect::Send(AgentRequest::ToggleFavorite { id: row.provider_id }),
            )
            &&& b == (App { outbox: b.outbox, ..a })
        } else {
            b == a
        },
        None => b == a,
    }
}

/// Asks to flip the favorite flag of the selected row's provider.
pub fn toggle_favorite(app: &mut App, matches: &Vec<Option<FuzzyMatch>>)
    requires
        matches_fit(*old(app), matches@),
    ensures
        favorite_toggled(*old(app), entries(*old(app), matches@), *final(app)),
{
    if app.overlay.active_modal == Modal::Provider {
        let rows: Vec<PickerEntry> = picker_entries(app, matches);
        if let Some(row) = pick(app, &rows) {
            send(app, AgentRequest::ToggleFavorite { id: row.provider_id.clone() });
        }
    }
}

/// The picker at the top of its list, searching or not.
pub open spec fn list_restarted(a: App, searching: bool) -> App {
    App {
        picker: Picker {
            model_search: searching,
            model_scroll: 0,
            model_modal_follow: true,
            ..a.picker
        },
        overlay: Overlay { modal_index: 0, ..a.overlay },
        ..a
    }
}

/// The picker searching, where it is open.
pub open spec fn model_search_entered(a: App) -> App {
    if a.overlay.active_modal == Modal::Provider {
        list_restarted(a, true)
    } else {
        a
    }
}

/// Starts searching the picker.
pub fn enter_model_search(app: &mut App)
    ensures
        *final(app) == model_search_entered(*old(app)),
{
    if app.overlay.active_modal == Modal::Provider {
        app.picker.model_search = true;
        app.overlay.modal_index = 0;
        app.picker.model_scroll = 0;
        app.picker.model_modal_follow = true;
    }
}

/// Whether `b` is `a` with an empty line.
pub open spec fn line_emptied(a: App, b: App) -> bool {
    &&& b.composer.input@ == Seq::<char>::empty()
    &&& b == (App {
        composer: Composer {
            input: b.composer.input,
            cursor_position: 0,
            cursor_sync_pending: true,
            input_scroll: 0,
            suggestion_index: None,
            ..a.composer
        },
        ..a
    })
}

/// Empties the line.
pub fn empty_line(app: &mut App)
    ensures
        line_emptied(*old(app), *final(app)),
{
    app.composer.input = String::new();
    app.set_cursor(0);
    app.composer.input_scroll = 0;
    app.composer.suggestion_index = None;
}

/// Whether searching the picker stopped: the query is dropped, the parked
/// draft stays parked.
pub open spec fn model_search_left(a: App, b: App) -> bool {
    if a.overlay.active_modal == Modal::Provider {
        line_emptied(list_restarted(a, false), b)
    } else {
        b == a
    }
}

/// Stops searching the picker.
pub fn exit_model_search(app: &mut App)
    ensures
        model_search_left(*old(app), *final(app)),
{
    if app.overlay.active_modal == Modal::Provider {
        app.picker.model_search = false;
        app.overlay.modal_index = 0;
        app.picker.model_scroll = 0;
        app.picker.model_modal_follow = true;
        empty_line(app);
    }
}

/// Whether the key editor offers the effort and the thinking switch: only the
/// provider `anthropic` has them.
pub open spec fn has_reasoning(editor: KeyEditor) -> bool {
    editor.editor_target matches Some(id) && id@ == "anthropic"@
}

fn offers_reasoning(editor: &KeyEditor) -> (yes: bool)
    ensures
        yes == has_reasoning(*editor),
{
    match &editor.editor_target {
        Some(id) => same_text(id.as_str(), "anthropic"),
        None => false,
    }
}

/// The field behind the focused one, wrapping; the key is the only field where
/// there is nothing else to choose.
pub open spec fn next_field(editor: KeyEditor) -> u8 {
    if has_reasoning(editor) && editor.editor_field < 2 {
        (editor.editor_field + 1) as u8
    } else {
        0
    }
}

/// Whether the key editor's focus moved to its next field. The line holds the
/// key while that is focused, and nothing else.
pub open spec fn field_cycled(a: App, b: App) -> bool {
    let next = next_field(a.key_editor);
    if a.overlay.active_modal != Modal::ModelEditor || next == a.key_editor.editor_field {
        b == a
    } else if next == 0 {
        &&& b.key_editor.editor_key@ == Seq::<char>::empty()
        &&& b == (App {
            key_editor: KeyEditor {
                editor_field: 0,
                editor_key: b.key_editor.editor_key,
                ..a.key_editor
            },
            composer: Composer {
                input: a.key_editor.editor_key,
                cursor_position: a.key_editor.editor_key@.len() as usize,
                cursor_sync_pending: true,
                ..a.composer
            },
            ..a
        })
    } else {
        &&& b.composer.input@ == Seq::<char>::empty()
        &&& b == (App {
            key_editor: KeyEditor {
                editor_field: next,
                editor_key: if a.key_editor.editor_field == 0 {
                    a.composer.input
                } else {
                    a.key_editor.editor_key
                },
                ..a.key_editor
            },
            composer: Composer {
                input: b.composer.input,
                cursor_position: 0,
                cursor_sync_pending: true,
                ..a.composer
            },
            ..a
        })
    }
}

/// Moves the key editor's focus to its next field.
pub fn next_editor_field(app: &mut App)
    ensures
        field_cycled(*old(app), *final(app)),
{
    if app.overlay.active_modal != Modal::ModelEditor {
        return ;
    }
    let field: u8 = app.key_editor.editor_field;
    let next: u8 = if field < 2 && offers_reasoning(&app.key_editor) {
        field + 1
    } else {
        0
    };
    if next == field {
        return ;
    }
    let typed: String = take_string(&mut app.composer.input);
    app.key_editor.editor_field = next;
    if next == 0 {
        app.composer.input = take_string(&mut app.key_editor.editor_key);
        app.set_cursor_end();
    } else {
        if field == 0 {
            app.key_editor.editor_key = typed;
        }
        app.set_cursor(0);
    }
}

/// The reasoning efforts, weakest first.
pub open spec fn efforts() -> Seq<Seq<char>> {
    seq!["low"@, "medium"@, "high"@, "xhigh"@, "max"@]
}

/// The place of an effort among all; an unknown one counts as `high`.
pub open spec fn effort_rank(effort: Seq<char>) -> int {
    if effort == "low"@ {
        0
    } else if effort == "medium"@ {
        1
    } else if effort == "xhigh"@ {
        3
    } else if effort == "max"@ {
        4
    } else {
        2
    }
}

/// The effort next to `effort` in the direction of `delta`, wrapping.
pub open spec fn effort_next(effort: Seq<char>, delta: int) -> Seq<char> {
    let rank = effort_rank(effort);
    efforts()[if delta > 0 {
        (rank + 1) % 5
    } else if delta < 0 {
        (rank + 4) % 5
    } else {
        rank
    }]
}

fn rank_of(effort: &str) -> (rank: usize)
    ensures
        rank == effort_rank(effort@),
        rank < 5,
{
    if same_text(effort, "low") {
        0
    } else if same_text(effort, "medium") {
        1
    } else if same_text(effort, "xhigh") {
        3
    } else if same_text(effort, "max") {
        4
    } else {
        2
    }
}

fn effort_name(rank: usize) -> (effort: String)
    requires
        rank < 5,
    ensures
        effort@ == efforts()[rank as int],
{
    match rank {
        0 => "low".to_owned(),
        1 => "medium".to_owned(),
        2 => "high".to_owned(),
        3 => "xhigh".to_owned(),
        _ => "max".to_owned(),
    }
}

/// Whether the effort was changed, where it is focused.
pub open spec fn effort_cycled(a: App, delta: i8, b: App) -> bool {
    if a.overlay.active_modal == Modal::ModelEditor && a.key_editor.editor_field == 1 {
        &&& b.key_editor.editor_effort@ == effort_next(
            a.key_editor.editor_effort@,
            delta as int,
        )
        &&& b == (App {
            key_editor: KeyEditor { editor_effort: b.key_editor.editor_effort, ..a.key_editor },
            ..a
        })
    } else {
        b == a
    }
}

/// Changes the effort by a step, where it is focused.
pub fn cycle_effort(app: &mut App, delta: i8)
    ensures
        effort_cycled(*old(app), delta, *final(app)),
{
    if app.overlay.active_modal == Modal::ModelEditor && app.key_editor.editor_field == 1 {
        let rank: usize = rank_of(app.key_editor.editor_effort.as_str());
        let next: usize = if delta > 0 {
            (rank + 1) % 5
        } else if delta < 0 {
            (rank + 4) % 5
        } else {
            rank
        };
        app.key_editor.editor_effort = effort_name(next);
    }
}

/// The state with extended thinking switched, where that is focused.
pub open spec fn thinking_toggled(a: App) -> App {
    if a.overlay.active_modal == Modal::ModelEditor && a.key_editor.editor_field == 2 {
        App {
            key_editor: KeyEditor {
                editor_thinking: !a.key_editor.editor_thinking,
                ..a.key_editor
            },
            ..a
        }
    } else {
        a
    }
}

/// Switches extended thinking, where that is focused.
pub fn toggle_thinking(app: &mut App)
    ensures
        *final(app) == thinking_toggled(*old(app)),
{
    if app.overlay.active_modal == Modal::ModelEditor && app.key_editor.editor_field == 2 {
        app.key_editor.editor_thinking = !app.key_editor.editor_thinking;
    }
}

/// Whether `effect` switches to what the key editor holds: its model, or the
/// provider's default where it has none, the key if one is typed, and the
/// effort and the thinking switch where the provider has them.
pub open spec fn switches_to(
    effect: Effect,
    id: Seq<char>,
    editor: KeyEditor,
    default_model: Seq<char>,
) -> bool {
    effect matches Effect::Send(
        AgentRequest::SwitchProvider {
            provider_type,
            model: used,
            api_key,
            base_url,
            effort,
            thinking,
        },
    ) && {
        let key = trimmed(editor.editor_key@);
        let model = trimmed(editor.editor_model@);
        &&& provider_type@ == id
        &&& used@ == (if model.len() == 0 {
            default_model
        } else {
            model
        })
        &&& match api_key {
            Some(k) => k@ == key && key.len() > 0,
            None => key.len() == 0,
        }
        &&& base_url is None
        &&& if id == "anthropic"@ {
            &&& effort matches Some(chosen) && chosen@ == editor.editor_effort@
            &&& thinking == Some(editor.editor_thinking)
        } else {
            effort is None && thinking is None
        }
    }
}

/// The key editor with the key that the line holds while it is focused.
pub open spec fn buffers(a: App) -> KeyEditor {
    if a.key_editor.editor_field == 0 {
        KeyEditor { editor_key: a.composer.input, ..a.key_editor }
    } else {
        a.key_editor
    }
}

/// Whether the key editor was submitted: a known provider is switched to, and
/// the draft comes back.
pub open spec fn editor_submitted(a: App, default_model: Option<String>, b: App) -> bool {
    match a.key_editor.editor_target {
        Some(id) => if a.overlay.active_modal == Modal::ModelEditor {
            &&& match default_model {
                Some(model) => {
                    &&& b.outbox@.len() == a.outbox@.len() + 1
                    &&& b.outbox@.drop_last() == a.outbox@
                    &&& switches_to(b.outbox@.last(), id@, buffers(a), model@)
                },
                None => b.outbox@ == a.outbox@,
            }
            &&& b.composer.stashed_input@ == Seq::<char>::empty()
            &&& b == (App {
                key_editor: KeyEditor { editor_target: None, ..buffers(a) },
                composer: Composer {
                    input: a.composer.stashed_input,
                    stashed_input: b.composer.stashed_input,
                    cursor_position: a.composer.stashed_input@.len() as usize,
                    cursor_sync_pending: true,
                    ..a.composer
                },
                picker: Picker { picker_provider: None, ..a.picker },
                overlay: Overlay { active_modal: Modal::Closed, ..a.overlay },
                outbox: b.outbox,
                ..a
            })
        } else {
            b == a
        },
        None => b == a,
    }
}

fn switch_from_editor(app: &mut App, id: String, default_model: &String)
    ensures
        final(app).outbox@.len() == old(app).outbox@.len() + 1,
        final(app).outbox@.drop_last() == old(app).outbox@,
        switches_to(final(app).outbox@.last(), id@, old(app).key_editor, default_model@),
        *final(app) == (App { outbox: final(app).outbox, ..*old(app) }),
{
    let key: String = trim(app.key_editor.editor_key.as_str());
    let typed: String = trim(app.key_editor.editor_model.as_str());
    let model: String = if char_count(typed.as_str()) == 0 {
        default_model.clone()
    } else {
        typed
    };
    let api_key: Option<String> = if char_count(key.as_str()) == 0 {
        None
    } else {
        Some(key)
    };
    let reasons: bool = same_text(id.as_str(), "anthropic");
    let effort: Option<String> = if reasons {
        Some(app.key_editor.editor_effort.clone())
    } else {
        None
    };
    let thinking: Option<bool> = if reasons {
        Some(app.key_editor.editor_thinking)
    } else {
        None
    };
    send(
        app,
        AgentRequest::SwitchProvider {
            provider_type: id,
            model,
            api_key,
            base_url: None,
            effort,
            thinking,
        },
    );
    proof {
        assert(app.outbox@.drop_last() =~= old(app).outbox@);
    }
}

/// Takes the target out of the key editor, and the key out of the line.
fn close_buffers(app: &mut App) -> (target: Option<String>)
    ensures
        target == old(app).key_editor.editor_target,
        *final(app) == (App {
            key_editor: KeyEditor { editor_target: None, ..buffers(*old(app)) },
            composer: Composer { input: final(app).composer.input, ..old(app).composer },
            ..*old(app)
        }),
{
    let typed: String = take_string(&mut app.composer.input);
    if app.key_editor.editor_field == 0 {
        app.key_editor.editor_key = typed;
    }
    app.key_editor.editor_target.take()
}

fn leave_editor(app: &mut App)
    ensures
        final(app).composer.stashed_input@ == Seq::<char>::empty(),
        *final(app) == (App {
            composer: Composer {
                input: old(app).composer.stashed_input,
                stashed_input: final(app).composer.stashed_input,
                cursor_position: old(app).composer.stashed_input@.len() as usize,
                cursor_sync_pending: true,
                ..old(app).composer
            },
            picker: Picker { picker_provider: None, ..old(app).picker },
            overlay: Overlay { active_modal: Modal::Closed, ..old(app).overlay },
            ..*old(app)
        }),
{
    app.composer.input = take_string(&mut app.composer.stashed_input);
    app.set_cursor_end();
    app.picker.picker_provider = None;
    app.overlay.active_modal = Modal::Closed;
}

/// Submits the key editor. `default_model` is the default model of the
/// provider it is open for; nothing where the provider is unknown.
pub fn submit_model_editor(app: &mut App, default_model: &Option<String>)
    ensures
        editor_submitted(*old(app), *default_model, *final(app)),
{
    if app.overlay.active_modal != Modal::ModelEditor || app.key_editor.editor_target.is_none() {
        return ;
    }
    if let Some(id) = close_buffers(app) {
        if let Some(model) = default_model {
            switch_from_editor(app, id, model);
        }
        leave_editor(app);
    }
}

/// Whether `row` is the model in use.
pub open spec fn is_current(a: App, row: PickerEntry) -> bool {
    row.provider_id@ == a.session.current_provider@ && row.model@ == a.session.current_model@
}

/// Whether `row` belongs to the default provider.
pub open spec fn is_default(a: App, row: PickerEntry) -> bool {
    row.provider_id@ == a.picker.provider_picker.default_id@
}

/// Whether `at` is the row that the picker opens on: that of the model in
/// use, else the first of the default provider, else the top.
pub open spec fn opens_on(a: App, rows: Seq<PickerEntry>, at: usize) -> bool {
    if exists|i: int| 0 <= i < rows.len() && is_current(a, #[trigger] rows[i]) {
        &&& at < rows.len()
        &&& is_current(a, rows[at as int])
        &&& forall|i: int| 0 <= i < at ==> !is_current(a, #[trigger] rows[i])
    } else if exists|i: int| 0 <= i < rows.len() && is_default(a, #[trigger] rows[i]) {
        &&& at < rows.len()
        &&& is_default(a, rows[at as int])
        &&& forall|i: int| 0 <= i < at ==> !is_default(a, #[trigger] rows[i])
    } else {
        at == 0
    }
}

fn opening_row(app: &App, rows: &Vec<PickerEntry>) -> (at: usize)
    ensures
        opens_on(*app, rows@, at),
{
    let count: usize = rows.len();
    let mut i: usize = 0;
    while i < count
        invariant
            i <= count,
            count == rows@.len(),
            forall|k: int| 0 <= k < i ==> !is_current(*app, #[trigger] rows@[k]),
        decreases count - i,
    {
        if same_text(rows[i].provider_id.as_str(), app.session.current_provider.as_str())
            && same_text(rows[i].model.as_str(), app.session.current_model.as_str()) {
            assert(is_current(*app, rows@[i as int]));
            return i;
        }
        i += 1;
    }
    let mut j: usize = 0;
    while j < count
        invariant
            j <= count,
            count == rows@.len(),
            forall|k: int| 0 <= k < count ==> !is_current(*app, #[trigger] rows@[k]),
            forall|k: int| 0 <= k < j ==> !is_default(*app, #[trigger] rows@[k]),
        decreases count - j,
    {
        if same_text(
            rows[j].provider_id.as_str(),
            app.picker.provider_picker.default_id.as_str(),
        ) {
            assert(is_default(*app, rows@[j as int]));
            return j;
        }
        j += 1;
    }
    0
}

/// The picker as it opens: on the provider list, with nothing searched for.
pub open spec fn picker_fresh(a: App) -> App {
    App {
        picker: Picker {
            model_search: false,
            picker_provider: None,
            model_scroll: 0,
            model_modal_follow: true,
            ..a.picker
        },
        ..a
    }
}

/// The provider list that the picker opens on.
pub open spec fn opening_entries(a: App) -> Seq<PickerEntry> {
    entries(picker_fresh(a), Seq::empty())
}

/// Whether the picker was opened: the draft is parked, and the selection is
/// where `opens_on` says.
pub open spec fn picker_opened(a: App, b: App) -> bool {
    let shown = with_modal(picker_fresh(a), Modal::Provider, b);
    &&& fields_given_up(Modal::Provider, b)
    &&& opens_on(a, opening_entries(a), b.overlay.modal_index)
    &&& draft_parked(
        App {
            overlay: Overlay { modal_index: b.overlay.modal_index, ..shown.overlay },
            ..shown
        },
        b,
    )
}

/// Opens the picker.
pub fn open_provider(app: &mut App)
    ensures
        picker_opened(*old(app), *final(app)),
{
    app.picker.model_search = false;
    app.picker.picker_provider = None;
    app.picker.model_scroll = 0;
    app.picker.model_modal_follow = true;
    let matches: Vec<Option<FuzzyMatch>> = Vec::new();
    let rows: Vec<PickerEntry> = picker_entries(app, &matches);
    proof {
        assert(matches@ =~= Seq::empty());
    }
    app.overlay.modal_index = opening_row(app, &rows);
    app.park_input_draft();
    app.switch_modal(Modal::Provider);
}

/// Opening the picker and leaving it again by choosing a model with a key gives
/// the draft back.
pub proof fn law_picker_gives_draft_back(
    a: App,
    b: App,
    row: PickerEntry,
    c: App,
)
    requires
        picker_opened(a, b),
        model_chosen(b, row, c),
        has_key(b.picker.key_status@, row.provider_id@),
    ensures
        c.composer.input == a.composer.input,
        c.overlay.active_modal == Modal::Closed,
{
}

/// The draft comes back as well where the model is chosen from a model list.
pub proof fn law_model_list_gives_draft_back(
    a: App,
    b: App,
    stage: Option<usize>,
    c: App,
    row: PickerEntry,
    d: App,
)
    requires
        picker_opened(a, b),
        stage_shown(b, stage, c),
        model_chosen(c, row, d),
        has_key(c.picker.key_status@, row.provider_id@),
    ensures
        d.composer.input == a.composer.input,
        d.overlay.active_modal == Modal::Closed,
{
}

/// Opening the picker and activating the row it opens on keeps the model in
/// use, if it is listed and its provider has no other model.
pub proof fn law_open_then_activate_keeps_model(a: App, b: App, c: App)
    requires
        picker_opened(a, b),
        row_activated(b, entries(b, Seq::empty()), c),
        exists|i: int|
            0 <= i < opening_entries(a).len() && is_current(a, #[trigger] opening_entries(a)[i]),
        has_key(
            b.picker.key_status@,
            opening_entries(a)[b.overlay.modal_index as int].provider_id@,
        ),
        !opens_models(b, opening_entries(a)[b.overlay.modal_index as int]),
    ensures
        c.outbox@.last() matches Effect::Send(
            AgentRequest::SwitchProvider { provider_type, model, .. },
        ) && provider_type@ == a.session.current_provider@ && model@
            == a.session.current_model@,
{
    assert(entries(b, Seq::empty()) =~= opening_entries(a));
}

/// Going back from a model list leads to the provider list, with nothing sent
/// and the draft still parked.
pub proof fn law_back_leads_to_providers(
    a: App,
    rows: Seq<PickerEntry>,
    row: PickerEntry,
    b: App,
    c: App,
)
    requires
        a.overlay.active_modal == Modal::Provider,
        picked(a, rows) == Some(row),
        opens_models(a, row),
        row_activated(a, rows, b),
        models_left(b, c),
    ensures
        b.picker.picker_provider == Some(row.row_idx),
        c.picker.picker_provider is None,
        c.overlay.active_modal == Modal::Provider,
        c.outbox == a.outbox,
        c.composer.stashed_input == a.composer.stashed_input,
{
}

/// Moving the key editor's focus once around leaves the key as it was typed, in
/// the line and with the caret behind it.
pub proof fn law_field_focus_round_trip(a: App, b: App, c: App, d: App)
    requires
        a.overlay.active_modal == Modal::ModelEditor,
        a.key_editor.editor_field == 0,
        has_reasoning(a.key_editor),
        field_cycled(a, b),
        field_cycled(b, c),
        field_cycled(c, d),
    ensures
        b.key_editor.editor_field == 1,
        c.key_editor.editor_field == 2,
        d.key_editor.editor_field == 0,
        d.composer.input == a.composer.input,
        d.composer.cursor_position == a.composer.input@.len() as usize,
        d.key_editor.editor_model == a.key_editor.editor_model,
{
}

/// Wherever the focus goes, the key editor never changes the model it was
/// opened for.
pub proof fn law_key_editor_keeps_model(a: App, b: App)
    requires
        field_cycled(a, b) || b == thinking_toggled(a) || exists|delta: i8|
            effort_cycled(a, delta, b),
    ensures
        b.key_editor.editor_model == a.key_editor.editor_model,
        b.key_editor.editor_target == a.key_editor.editor_target,
{
}

/// A step to the next effort and a step back lead to where they began, and the
/// strongest effort stands next to the weakest.
pub proof fn law_effort_steps_wrap(rank: int)
    requires
        0 <= rank < 5,
    ensures
        effort_next(effort_next(efforts()[rank], 1), -1) == efforts()[rank],
        effort_next(efforts()[rank], 1) == efforts()[(rank + 1) % 5],
        effort_next(efforts()[rank], -1) == efforts()[(rank + 4) % 5],
{
    lemma_effort_rank(rank);
    lemma_effort_rank((rank + 1) % 5);
}

proof fn lemma_effort_rank(rank: int)
    requires
        0 <= rank < 5,
    ensures
        effort_rank(efforts()[rank]) == rank,
{
    reveal_strlit("low");
    reveal_strlit("medium");
    reveal_strlit("high");
    reveal_strlit("xhigh");
    reveal_strlit("max");
    assert("low"@ != "max"@) by {
        assert("low"@[0] != "max"@[0]);
    }
    assert("high"@.len() == 4 && "medium"@.len() == 6 && "xhigh"@.len() == 5);
}

} // verus!
