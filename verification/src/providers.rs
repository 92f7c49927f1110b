//! The provider and model picker: which rows it shows and in what order.
//!
//! The picker has two stages. The first lists the providers of the latest
//! snapshot, the second the models of one of them.
use crate::text::char_count;
use crate::text::same_text;
use crate::text::to_chars;
use vstd::prelude::*;

verus! {

/// Wire format of a model.
#[derive(Debug, Clone, Copy, PartialEq, Eq, Structural)]
pub enum WireFormat {
    OpenAiCompat,
    AnthropicCompat,
    Gemini,
}

/// A model of the registry.
#[derive(Debug, PartialEq, Eq)]
pub struct ModelInfo {
    pub id: String,
    /// Display name; may be empty.
    pub name: String,
    pub format: WireFormat,
    /// Context window in tokens.
    pub context_window: usize,
    /// Whether the model takes images.
    pub vision: bool,
}

/// A provider as the picker shows it.
#[derive(Debug, PartialEq, Eq)]
pub struct ProviderPickerRow {
    pub id: String,
    pub name: String,
    /// The active model.
    pub model: String,
    /// Every model the provider serves.
    pub models: Vec<String>,
    pub builtin: bool,
    pub protocol: String,
    pub base_url: String,
    pub key_ready: bool,
    pub favorite: bool,
    pub last_used_ms: Option<u64>,
}

/// The providers the picker chooses from.
#[derive(Debug, PartialEq, Eq)]
pub struct ProviderPickerSnapshot {
    pub default_id: String,
    pub rows: Vec<ProviderPickerRow>,
}

/// How a label matches a query.
#[derive(Debug, PartialEq, Eq)]
pub struct FuzzyMatch {
    pub score: i64,
    /// Matched character positions of the label.
    pub positions: Vec<usize>,
}

/// Whether two match results say the same.
pub open spec fn same_match(a: Option<FuzzyMatch>, b: Option<FuzzyMatch>) -> bool {
    match (a, b) {
        (None, None) => true,
        (Some(x), Some(y)) => x.score == y.score && x.positions@ == y.positions@,
        _ => false,
    }
}

impl Clone for FuzzyMatch {
    fn clone(&self) -> (copy: Self)
        ensures
            copy.score == self.score,
            copy.positions@ == self.positions@,
    {
        let positions: Vec<usize> = self.positions.clone();
        proof {
            assert(positions@ =~= self.positions@);
        }
        FuzzyMatch { score: self.score, positions }
    }
}

/// A row of the model list.
#[derive(Debug, PartialEq, Eq)]
pub struct RankedModel {
    /// The provider that serves the model.
    pub provider_id: String,
    pub model: String,
    /// The model's display name.
    pub label: String,
    /// How `label` matches the query; nothing while browsing.
    pub m: Option<FuzzyMatch>,
}

/// A row of the provider list.
#[derive(Debug, PartialEq, Eq)]
pub struct RankedProvider {
    /// Position in the snapshot.
    pub row_idx: usize,
    pub id: String,
    pub name: String,
    /// The active model.
    pub model: String,
    pub models: Vec<String>,
    pub builtin: bool,
    pub favorite: bool,
    pub label: String,
    /// How `label` matches the query; nothing while browsing.
    pub m: Option<FuzzyMatch>,
}

impl RankedProvider {
    /// Whether activating the row opens the model list.
    pub fn is_multi_model(&self) -> (multi: bool)
        ensures
            multi == (self.models@.len() > 1),
    {
        self.models.len() > 1
    }
}

/// The registry entry of a model id: the first with that id.
pub open spec fn model_entry(registry: Seq<ModelInfo>, id: Seq<char>) -> Option<ModelInfo>
    decreases registry.len(),
{
    if registry.len() == 0 {
        None
    } else if registry[0].id@ == id {
        Some(registry[0])
    } else {
        model_entry(registry.drop_first(), id)
    }
}

/// The registry entry of a model id.
pub fn resolve_model<'a>(registry: &'a Vec<ModelInfo>, id: &str) -> (entry: Option<&'a ModelInfo>)
    ensures
        match entry {
            Some(e) => model_entry(registry@, id@) == Some(*e),
            None => model_entry(registry@, id@) is None,
        },
{
    let count: usize = registry.len();
    let mut i: usize = 0;
    proof {
        assert(registry@.skip(0) =~= registry@);
    }
    while i < count
        invariant
            i <= count,
            count == registry@.len(),
            model_entry(registry@, id@) == model_entry(registry@.skip(i as int), id@),
        decreases count - i,
    {
        proof {
            assert(registry@.skip(i as int)[0] == registry@[i as int]);
            assert(registry@.skip(i as int).drop_first() =~= registry@.skip(i + 1));
        }
        if same_text(registry[i].id.as_str(), id) {
            return Some(&registry[i]);
        }
        i += 1;
    }
    None
}

/// The name a model is shown under: its registry name, or its id where the
/// registry has none.
pub open spec fn display_name(registry: Seq<ModelInfo>, model: Seq<char>) -> Seq<char> {
    match model_entry(registry, model) {
        Some(entry) => if entry.name@.len() == 0 {
            model
        } else {
            entry.name@
        },
        None => model,
    }
}

/// The name a model is shown under.
pub fn model_display_name(registry: &Vec<ModelInfo>, model: &str) -> (name: String)
    ensures
        name@ == display_name(registry@, model@),
{
    if let Some(entry) = resolve_model(registry, model) {
        if char_count(entry.name.as_str()) > 0 {
            return entry.name.clone();
        }
    }
    model.to_owned()
}

/// The context window of a model, 0 where the registry does not know it.
pub fn model_context_window(registry: &Vec<ModelInfo>, model: &str) -> (tokens: usize)
    ensures
        tokens == (match model_entry(registry@, model@) {
            Some(entry) => entry.context_window,
            None => 0usize,
        }),
{
    match resolve_model(registry, model) {
        Some(entry) => entry.context_window,
        None => 0,
    }
}

/// The wire format that a protocol id stands for.
pub open spec fn wire_format(protocol: Seq<char>) -> WireFormat {
    if protocol == "anthropic"@ {
        WireFormat::AnthropicCompat
    } else if protocol == "gemini"@ {
        WireFormat::Gemini
    } else {
        WireFormat::OpenAiCompat
    }
}

/// The ids of the registry models with the given format, in order.
pub open spec fn ids_of_format(registry: Seq<ModelInfo>, format: WireFormat) -> Seq<String>
    decreases registry.len(),
{
    if registry.len() == 0 {
        Seq::empty()
    } else if registry.last().format == format {
        ids_of_format(registry.drop_last(), format).push(registry.last().id)
    } else {
        ids_of_format(registry.drop_last(), format)
    }
}

/// The ids of the registry models with the given format.
pub fn models_of_format(registry: &Vec<ModelInfo>, format: WireFormat) -> (ids: Vec<String>)
    ensures
        ids@ == ids_of_format(registry@, format),
{
    let count: usize = registry.len();
    let mut ids: Vec<String> = Vec::new();
    let mut i: usize = 0;
    while i < count
        invariant
            i <= count,
            count == registry@.len(),
            ids@ == ids_of_format(registry@.take(i as int), format),
        decreases count - i,
    {
        if registry[i].format == format {
            ids.push(registry[i].id.clone());
        }
        i += 1;
        proof {
            assert(registry@.take(i as int).drop_last() =~= registry@.take(i - 1));
        }
    }
    proof {
        assert(registry@.take(count as int) =~= registry@);
    }
    ids
}

/// The registry models that a custom protocol can serve.
pub fn protocol_model_candidates(registry: &Vec<ModelInfo>, protocol_wire: &str) -> (ids: Vec<
    String,
>)
    ensures
        ids@ == ids_of_format(registry@, wire_format(protocol_wire@)),
{
    let format: WireFormat = if same_text(protocol_wire, "anthropic") {
        WireFormat::AnthropicCompat
    } else if same_text(protocol_wire, "gemini") {
        WireFormat::Gemini
    } else {
        WireFormat::OpenAiCompat
    };
    models_of_format(registry, format)
}

/// Order of texts: by the first character in which they differ, the shorter
/// one first where none does.
pub open spec fn text_le(a: Seq<char>, b: Seq<char>) -> bool
    decreases a.len(),
{
    if a.len() == 0 {
        true
    } else if b.len() == 0 {
        false
    } else if a[0] == b[0] {
        text_le(a.drop_first(), b.drop_first())
    } else {
        a[0] < b[0]
    }
}

fn text_at_most(a: &str, b: &str) -> (yes: bool)
    ensures
        yes == text_le(a@, b@),
{
    let left: Vec<char> = to_chars(a);
    let right: Vec<char> = to_chars(b);
    let mut i: usize = 0;
    proof {
        assert(left@.skip(0) =~= left@);
        assert(right@.skip(0) =~= right@);
    }
    while i < left.len() && i < right.len()
        invariant
            left@ == a@,
            right@ == b@,
            i <= left@.len(),
            i <= right@.len(),
            text_le(a@, b@) == text_le(left@.skip(i as int), right@.skip(i as int)),
        decreases left@.len() - i,
    {
        proof {
            assert(left@.skip(i as int)[0] == left@[i as int]);
            assert(right@.skip(i as int)[0] == right@[i as int]);
            assert(left@.skip(i as int).drop_first() =~= left@.skip(i + 1));
            assert(right@.skip(i as int).drop_first() =~= right@.skip(i + 1));
        }
        if left[i] != right[i] {
            return left[i] < right[i];
        }
        i += 1;
    }
    i == left.len()
}

/// The live signals of a provider id: favorite, and when it was last used
/// (-1 for never). The first row with that id counts.
pub open spec fn signal(rows: Seq<ProviderPickerRow>, id: Seq<char>) -> (bool, int)
    decreases rows.len(),
{
    if rows.len() == 0 {
        (false, -1)
    } else if rows[0].id@ == id {
        (
            rows[0].favorite,
            match rows[0].last_used_ms {
                Some(t) => t as int,
                None => -1,
            },
        )
    } else {
        signal(rows.drop_first(), id)
    }
}

fn live_signal(rows: &Vec<ProviderPickerRow>, id: &str) -> (s: (bool, i128))
    ensures
        (s.0, s.1 as int) == signal(rows@, id@),
{
    let count: usize = rows.len();
    let mut i: usize = 0;
    proof {
        assert(rows@.skip(0) =~= rows@);
    }
    while i < count
        invariant
            i <= count,
            count == rows@.len(),
            signal(rows@, id@) == signal(rows@.skip(i as int), id@),
        decreases count - i,
    {
        proof {
            assert(rows@.skip(i as int)[0] == rows@[i as int]);
            assert(rows@.skip(i as int).drop_first() =~= rows@.skip(i + 1));
        }
        if same_text(rows[i].id.as_str(), id) {
            let used: i128 = match rows[i].last_used_ms {
                Some(t) => t as i128,
                None => -1,
            };
            return (rows[i].favorite, used);
        }
        i += 1;
    }
    (false, -1)
}

/// Whether row `i` may stand before row `j`: built-in providers first, then
/// favorites, then the most recently used, then by name.
pub open spec fn row_le(rows: Seq<ProviderPickerRow>, i: int, j: int) -> bool {
    let (a, b) = (rows[i], rows[j]);
    let (sa, sb) = (signal(rows, a.id@), signal(rows, b.id@));
    if a.builtin != b.builtin {
        a.builtin
    } else if sa.0 != sb.0 {
        sa.0
    } else if sa.1 != sb.1 {
        sa.1 > sb.1
    } else {
        text_le(a.name@, b.name@)
    }
}

fn row_at_most(rows: &Vec<ProviderPickerRow>, i: usize, j: usize) -> (yes: bool)
    requires
        i < rows@.len(),
        j < rows@.len(),
    ensures
        yes == row_le(rows@, i as int, j as int),
{
    let a: &ProviderPickerRow = &rows[i];
    let b: &ProviderPickerRow = &rows[j];
    if a.builtin != b.builtin {
        return a.builtin;
    }
    let (a_fav, a_used): (bool, i128) = live_signal(rows, a.id.as_str());
    let (b_fav, b_used): (bool, i128) = live_signal(rows, b.id.as_str());
    if a_fav != b_fav {
        return a_fav;
    }
    if a_used != b_used {
        return a_used > b_used;
    }
    text_at_most(a.name.as_str(), b.name.as_str())
}

/// Where row `k` goes into `order`: behind the last row that may stand before
/// it.
pub open spec fn row_slot(rows: Seq<ProviderPickerRow>, order: Seq<int>, k: int) -> int
    decreases order.len(),
{
    if order.len() == 0 {
        0
    } else if row_le(rows, order.last(), k) {
        order.len() as int
    } else {
        row_slot(rows, order.drop_last(), k)
    }
}

/// `picked` rows in picker order; equal rows keep their order.
pub open spec fn rows_in_order(rows: Seq<ProviderPickerRow>, picked: Seq<int>) -> Seq<int>
    decreases picked.len(),
{
    if picked.len() == 0 {
        Seq::empty()
    } else {
        let order = rows_in_order(rows, picked.drop_last());
        order.insert(row_slot(rows, order, picked.last()), picked.last())
    }
}

/// Whether row `i` is shown: browsing shows all, a query those that match.
pub open spec fn is_shown(query: Seq<char>, matches: Seq<Option<FuzzyMatch>>, i: int) -> bool {
    query.len() == 0 || (i < matches.len() && matches[i] is Some)
}

/// The first `n` rows that are shown.
pub open spec fn shown_rows(query: Seq<char>, matches: Seq<Option<FuzzyMatch>>, n: int) -> Seq<int>
    decreases n,
{
    if n <= 0 {
        Seq::empty()
    } else if is_shown(query, matches, n - 1) {
        shown_rows(query, matches, n - 1).push(n - 1)
    } else {
        shown_rows(query, matches, n - 1)
    }
}

/// The match shown for row `i`.
pub open spec fn shown_match(
    query: Seq<char>,
    matches: Seq<Option<FuzzyMatch>>,
    i: int,
) -> Option<FuzzyMatch> {
    if query.len() == 0 {
        None
    } else {
        matches[i]
    }
}

/// The rows of the provider list, as positions in the snapshot.
pub open spec fn provider_list(
    rows: Seq<ProviderPickerRow>,
    query: Seq<char>,
    matches: Seq<Option<FuzzyMatch>>,
) -> Seq<int> {
    rows_in_order(rows, shown_rows(query, matches, rows.len() as int))
}

/// Whether `ranked` shows row `i` of the snapshot with match `m`.
pub open spec fn shows_provider(
    ranked: RankedProvider,
    rows: Seq<ProviderPickerRow>,
    i: int,
    m: Option<FuzzyMatch>,
) -> bool {
    &&& ranked.row_idx == i
    &&& ranked.id == rows[i].id
    &&& ranked.name == rows[i].name
    &&& ranked.model == rows[i].model
    &&& ranked.models@ == rows[i].models@
    &&& ranked.builtin == rows[i].builtin
    &&& ranked.favorite == rows[i].favorite
    &&& ranked.label == rows[i].name
    &&& same_match(ranked.m, m)
}

/// A copy of a list of names.
pub fn copy_names(names: &Vec<String>) -> (copy: Vec<String>)
    ensures
        copy@ == names@,
{
    let mut copy: Vec<String> = Vec::new();
    let count: usize = names.len();
    let mut i: usize = 0;
    while i < count
        invariant
            i <= count,
            count == names@.len(),
            copy@ == names@.take(i as int),
        decreases count - i,
    {
        copy.push(names[i].clone());
        i += 1;
        proof {
            assert(names@.take(i as int) =~= names@.take(i - 1).push(names@[i - 1]));
        }
    }
    proof {
        assert(names@.take(count as int) =~= names@);
    }
    copy
}

fn copy_match(m: &Option<FuzzyMatch>) -> (copy: Option<FuzzyMatch>)
    ensures
        same_match(copy, *m),
{
    match m {
        Some(found) => Some(found.clone()),
        None => None,
    }
}

/// Builds the provider list. `matches` says how each provider's name matches
/// `query`; it is not read while browsing, when `query` is empty.
pub fn providers_filtered_from(
    picker: &ProviderPickerSnapshot,
    query: &str,
    matches: &Vec<Option<FuzzyMatch>>,
) -> (list: Vec<RankedProvider>)
    requires
        query@.len() > 0 ==> matches@.len() == picker.rows@.len(),
    ensures
        ({
            let order = provider_list(picker.rows@, query@, matches@);
            &&& list@.len() == order.len()
            &&& forall|k: int|
                0 <= k < order.len() ==> shows_provider(
                    #[trigger] list@[k],
                    picker.rows@,
                    order[k],
                    shown_match(query@, matches@, order[k]),
                )
        }),
{
    let browsing: bool = char_count(query) == 0;
    let count: usize = picker.rows.len();
    let ghost rows = picker.rows@;
    let mut order: Vec<usize> = Vec::new();
    let mut i: usize = 0;
    while i < count
        invariant
            i <= count,
            count == picker.rows@.len(),
            rows == picker.rows@,
            browsing == (query@.len() == 0),
            !browsing ==> matches@.len() == count,
            order@.map_values(|k: usize| k as int) == rows_in_order(
                rows,
                shown_rows(query@, matches@, i as int),
            ),
            forall|k: int| 0 <= k < order@.len() ==> (#[trigger] order@[k]) < i,
            forall|k: int|
                0 <= k < order@.len() ==> is_shown(query@, matches@, #[trigger] order@[k] as int),
        decreases count - i,
    {
        if browsing || matches[i].is_some() {
            let ghost before = rows_in_order(rows, shown_rows(query@, matches@, i as int));
            let mut p: usize = order.len();
            proof {
                assert(before.take(p as int) =~= before);
            }
            while p > 0 && !row_at_most(&picker.rows, order[p - 1], i)
                invariant
                    p <= order@.len(),
                    i < count,
                    count == picker.rows@.len(),
                    rows == picker.rows@,
                    before == order@.map_values(|k: usize| k as int),
                    forall|k: int| 0 <= k < order@.len() ==> (#[trigger] order@[k]) < i,
                    row_slot(rows, before, i as int) == row_slot(
                        rows,
                        before.take(p as int),
                        i as int,
                    ),
                decreases p,
            {
                proof {
                    let prefix = before.take(p as int);
                    assert(prefix.last() == order@[p - 1]);
                    assert(prefix.drop_last() =~= before.take(p - 1));
                }
                p -= 1;
            }
            proof {
                if p > 0 {
                    assert(before.take(p as int).last() == order@[p - 1]);
                }
                assert(row_slot(rows, before, i as int) == p);
                let picked = shown_rows(query@, matches@, i + 1);
                assert(picked.drop_last() =~= shown_rows(query@, matches@, i as int));
            }
            let ghost old_order = order@;
            order.insert(p, i);
            proof {
                assert(order@.map_values(|k: usize| k as int) =~= before.insert(
                    p as int,
                    i as int,
                ));
                assert forall|k: int| 0 <= k < order@.len() implies is_shown(
                    query@,
                    matches@,
                    #[trigger] order@[k] as int,
                ) by {
                    if k < p {
                        assert(order@[k] == old_order[k]);
                    } else if k > p {
                        assert(order@[k] == old_order[k - 1]);
                    }
                }
            }
        }
        i += 1;
    }
    let mut list: Vec<RankedProvider> = Vec::new();
    let total: usize = order.len();
    let mut n: usize = 0;
    let ghost expected = provider_list(rows, query@, matches@);
    while n < total
        invariant
            n <= total,
            total == order@.len(),
            count == picker.rows@.len(),
            rows == picker.rows@,
            browsing == (query@.len() == 0),
            !browsing ==> matches@.len() == count,
            expected == order@.map_values(|k: usize| k as int),
            forall|k: int| 0 <= k < order@.len() ==> (#[trigger] order@[k]) < count,
            list@.len() == n,
            forall|k: int|
                0 <= k < n ==> shows_provider(
                    #[trigger] list@[k],
                    rows,
                    expected[k],
                    shown_match(query@, matches@, expected[k]),
                ),
        decreases total - n,
    {
        let at: usize = order[n];
        let row: &ProviderPickerRow = &picker.rows[at];
        let m: Option<FuzzyMatch> = if browsing {
            None
        } else {
            copy_match(&matches[at])
        };
        list.push(
            RankedProvider {
                row_idx: at,
                id: row.id.clone(),
                name: row.name.clone(),
                model: row.model.clone(),
                models: copy_names(&row.models),
                builtin: row.builtin,
                favorite: row.favorite,
                label: row.name.clone(),
                m,
            },
        );
        proof {
            assert(expected[n as int] == at);
        }
        n += 1;
    }
    list
}

/// Whether `ranked` shows model `j` of a provider.
pub open spec fn shows_model(
    ranked: RankedModel,
    registry: Seq<ModelInfo>,
    row: ProviderPickerRow,
    j: int,
    m: Option<FuzzyMatch>,
) -> bool {
    &&& ranked.provider_id == row.id
    &&& ranked.model == row.models@[j]
    &&& ranked.label@ == display_name(registry, row.models@[j]@)
    &&& same_match(ranked.m, m)
}

/// The models of provider `row_idx` that are shown, in snapshot order.
pub open spec fn model_list(
    rows: Seq<ProviderPickerRow>,
    row_idx: int,
    query: Seq<char>,
    matches: Seq<Option<FuzzyMatch>>,
) -> Seq<int> {
    if 0 <= row_idx < rows.len() {
        shown_rows(query, matches, rows[row_idx].models@.len() as int)
    } else {
        Seq::empty()
    }
}

/// Builds the model list of one provider; a position outside the snapshot has
/// none. `matches` says how each model's display name matches `query`; it is
/// not read while browsing.
pub fn provider_models_filtered_from(
    picker: &ProviderPickerSnapshot,
    registry: &Vec<ModelInfo>,
    row_idx: usize,
    query: &str,
    matches: &Vec<Option<FuzzyMatch>>,
) -> (list: Vec<RankedModel>)
    requires
        query@.len() > 0 && row_idx < picker.rows@.len() ==> matches@.len()
            == picker.rows@[row_idx as int].models@.len(),
    ensures
        ({
            let shown = model_list(picker.rows@, row_idx as int, query@, matches@);
            &&& list@.len() == shown.len()
            &&& forall|k: int|
                0 <= k < shown.len() ==> shows_model(
                    #[trigger] list@[k],
                    registry@,
                    picker.rows@[row_idx as int],
                    shown[k],
                    shown_match(query@, matches@, shown[k]),
                )
        }),
{
    let mut list: Vec<RankedModel> = Vec::new();
    if row_idx >= picker.rows.len() {
        return list;
    }
    let browsing: bool = char_count(query) == 0;
    let row: &ProviderPickerRow = &picker.rows[row_idx];
    let count: usize = row.models.len();
    let mut j: usize = 0;
    while j < count
        invariant
            j <= count,
            count == row.models@.len(),
            browsing == (query@.len() == 0),
            !browsing ==> matches@.len() == count,
            list@.len() == shown_rows(query@, matches@, j as int).len(),
            forall|k: int|
                0 <= k < list@.len() ==> shows_model(
                    #[trigger] list@[k],
                    registry@,
                    *row,
                    shown_rows(query@, matches@, j as int)[k],
                    shown_match(query@, matches@, shown_rows(query@, matches@, j as int)[k]),
                ),
        decreases count - j,
    {
        if browsing || matches[j].is_some() {
            let m: Option<FuzzyMatch> = if browsing {
                None
            } else {
                copy_match(&matches[j])
            };
            list.push(
                RankedModel {
                    provider_id: row.id.clone(),
                    model: row.models[j].clone(),
                    label: model_display_name(registry, row.models[j].as_str()),
                    m,
                },
            );
        }
        j += 1;
    }
    list
}

proof fn lemma_text_le_total(a: Seq<char>, b: Seq<char>)
    ensures
        text_le(a, b) || text_le(b, a),
    decreases a.len(),
{
    if a.len() > 0 && b.len() > 0 && a[0] == b[0] {
        lemma_text_le_total(a.drop_first(), b.drop_first());
    }
}

proof fn lemma_text_le_transitive(a: Seq<char>, b: Seq<char>, c: Seq<char>)
    requires
        text_le(a, b),
        text_le(b, c),
    ensures
        text_le(a, c),
    decreases a.len(),
{
    if a.len() > 0 && b.len() > 0 && c.len() > 0 && a[0] == b[0] && b[0] == c[0] {
        lemma_text_le_transitive(a.drop_first(), b.drop_first(), c.drop_first());
    }
}

proof fn lemma_row_le_total(rows: Seq<ProviderPickerRow>, i: int, j: int)
    ensures
        row_le(rows, i, j) || row_le(rows, j, i),
{
    lemma_text_le_total(rows[i].name@, rows[j].name@);
}

proof fn lemma_row_le_transitive(rows: Seq<ProviderPickerRow>, i: int, j: int, k: int)
    requires
        row_le(rows, i, j),
        row_le(rows, j, k),
    ensures
        row_le(rows, i, k),
{
    if text_le(rows[i].name@, rows[j].name@) && text_le(rows[j].name@, rows[k].name@) {
        lemma_text_le_transitive(rows[i].name@, rows[j].name@, rows[k].name@);
    }
}

proof fn lemma_row_slot(rows: Seq<ProviderPickerRow>, order: Seq<int>, k: int)
    ensures
        0 <= row_slot(rows, order, k) <= order.len(),
        row_slot(rows, order, k) > 0 ==> row_le(rows, order[row_slot(rows, order, k) - 1], k),
        forall|j: int|
            row_slot(rows, order, k) <= j < order.len() ==> !row_le(rows, #[trigger] order[j], k),
    decreases order.len(),
{
    if order.len() > 0 && !row_le(rows, order.last(), k) {
        lemma_row_slot(rows, order.drop_last(), k);
        let p = row_slot(rows, order, k);
        assert forall|j: int| p <= j < order.len() implies !row_le(
            rows,
            #[trigger] order[j],
            k,
        ) by {
            if j < order.len() - 1 {
                assert(order.drop_last()[j] == order[j]);
            }
        }
    }
}

/// The list is in picker order and shows exactly the picked rows.
pub proof fn law_rows_in_order(rows: Seq<ProviderPickerRow>, picked: Seq<int>)
    ensures
        rows_in_order(rows, picked).to_multiset() == picked.to_multiset(),
        forall|a: int, b: int|
            #![trigger rows_in_order(rows, picked)[a], rows_in_order(rows, picked)[b]]
            0 <= a < b < rows_in_order(rows, picked).len() ==> row_le(
                rows,
                rows_in_order(rows, picked)[a],
                rows_in_order(rows, picked)[b],
            ),
    decreases picked.len(),
{
    broadcast use vstd::seq_lib::group_to_multiset_ensures;

    if picked.len() > 0 {
        let rest = picked.drop_last();
        law_rows_in_order(rows, rest);
        let before = rows_in_order(rows, rest);
        let k = picked.last();
        let p = row_slot(rows, before, k);
        lemma_row_slot(rows, before, k);
        let after = rows_in_order(rows, picked);
        assert(after == before.insert(p, k));
        assert(rest.push(k) =~= picked);
        assert(picked.to_multiset() == rest.to_multiset().insert(k));
        assert(after.to_multiset() == before.to_multiset().insert(k));
        assert forall|a: int, b: int|
            #![trigger after[a], after[b]]
            0 <= a < b < after.len() implies row_le(rows, after[a], after[b]) by {
            if b == p {
                assert(after[a] == before[a]);
                if a < p - 1 {
                    lemma_row_le_transitive(rows, before[a], before[p - 1], k);
                }
            } else if a == p {
                assert(after[b] == before[b - 1]);
                lemma_row_le_total(rows, before[b - 1], k);
            } else {
                let a0 = if a < p { a } else { a - 1 };
                let b0 = if b < p { b } else { b - 1 };
                assert(after[a] == before[a0] && after[b] == before[b0]);
            }
        }
    } else {
        assert(rows_in_order(rows, picked) =~= picked);
    }
}

/// Built-in providers come before user-defined ones, whatever else holds of
/// them.
pub proof fn law_builtins_come_first(rows: Seq<ProviderPickerRow>, picked: Seq<int>, a: int, b: int)
    requires
        0 <= a < b < rows_in_order(rows, picked).len(),
        rows[rows_in_order(rows, picked)[b]].builtin,
    ensures
        rows[rows_in_order(rows, picked)[a]].builtin,
{
    law_rows_in_order(rows, picked);
}

/// Browsing shows every provider.
pub proof fn law_browsing_shows_all(matches: Seq<Option<FuzzyMatch>>, n: int)
    requires
        0 <= n,
    ensures
        shown_rows(Seq::empty(), matches, n) == Seq::new(n as nat, |i: int| i),
    decreases n,
{
    if n > 0 {
        law_browsing_shows_all(matches, n - 1);
        assert(Seq::new((n - 1) as nat, |i: int| i).push(n - 1) =~= Seq::new(n as nat, |i: int| i));
    } else {
        assert(Seq::new(0, |i: int| i) =~= Seq::<int>::empty());
    }
}

/// The provider list while browsing is a permutation of the snapshot's rows.
pub proof fn law_browsing_lists_each_once(
    rows: Seq<ProviderPickerRow>,
    matches: Seq<Option<FuzzyMatch>>,
)
    ensures
        provider_list(rows, Seq::empty(), matches).len() == rows.len(),
        provider_list(rows, Seq::empty(), matches).no_duplicates(),
        forall|i: int|
            0 <= i < rows.len() <==> #[trigger] provider_list(
                rows,
                Seq::empty(),
                matches,
            ).contains(i),
{
    let all = Seq::new(rows.len(), |i: int| i);
    let list = provider_list(rows, Seq::empty(), matches);
    law_browsing_shows_all(matches, rows.len() as int);
    law_rows_in_order(rows, all);
    assert(list.to_multiset() == all.to_multiset());
    vstd::seq_lib::to_multiset_len(list);
    vstd::seq_lib::to_multiset_len(all);
    all.lemma_multiset_has_no_duplicates();
    list.lemma_multiset_has_no_duplicates_conv();
    assert forall|i: int| 0 <= i < rows.len() <==> #[trigger] list.contains(i) by {
        if 0 <= i < rows.len() {
            assert(all[i] == i);
        }
        vstd::seq_lib::to_multiset_contains(list, i);
        vstd::seq_lib::to_multiset_contains(all, i);
    }
}

proof fn lemma_row_slot_is(
    rows: Seq<ProviderPickerRow>,
    front: Seq<int>,
    back: Seq<int>,
    k: int,
)
    requires
        front.len() > 0 ==> row_le(rows, front.last(), k),
        forall|j: int| 0 <= j < back.len() ==> !row_le(rows, #[trigger] back[j], k),
    ensures
        row_slot(rows, front + back, k) == front.len(),
    decreases back.len(),
{
    let order = front + back;
    if back.len() > 0 {
        assert(order.last() == back[back.len() - 1]);
        assert(order.drop_last() =~= front + back.drop_last());
        lemma_row_slot_is(rows, front, back.drop_last(), k);
    } else {
        assert(order =~= front);
    }
}

/// Filtering a list with `k` put between `front` and `back`.
proof fn lemma_filter_around(
    front: Seq<int>,
    back: Seq<int>,
    keep: spec_fn(int) -> bool,
    k: int,
)
    ensures
        (front + back).filter(keep) == front.filter(keep) + back.filter(keep),
        (front + seq![k] + back).filter(keep) == (if keep(k) {
            front.filter(keep) + seq![k] + back.filter(keep)
        } else {
            front.filter(keep) + back.filter(keep)
        }),
{
    Seq::filter_distributes_over_add(front, back, keep);
    Seq::filter_distributes_over_add(front + seq![k], back, keep);
    Seq::filter_distributes_over_add(front, seq![k], keep);
    assert(seq![k].filter(keep) =~= (if keep(k) {
        seq![k]
    } else {
        Seq::empty()
    })) by {
        reveal_with_fuel(Seq::filter, 2);
        assert(seq![k].drop_last() =~= Seq::<int>::empty());
    }
    assert(front.filter(keep) + Seq::<int>::empty() =~= front.filter(keep));
}

/// Where a row goes in a filtered list in picker order: behind what is left of
/// the rows it would go behind in the whole list.
proof fn lemma_slot_in_filtered(
    rows: Seq<ProviderPickerRow>,
    order: Seq<int>,
    keep: spec_fn(int) -> bool,
    k: int,
)
    requires
        forall|a: int, b: int|
            #![trigger order[a], order[b]]
            0 <= a < b < order.len() ==> row_le(rows, order[a], order[b]),
    ensures
        ({
            let p = row_slot(rows, order, k);
            let front = order.take(p).filter(keep);
            row_slot(rows, front + order.skip(p).filter(keep), k) == front.len()
        }),
{
    let p = row_slot(rows, order, k);
    lemma_row_slot(rows, order, k);
    let front = order.take(p);
    let back = order.skip(p);
    let kept = front.filter(keep);
    let rest = back.filter(keep);
    if kept.len() > 0 {
        assert(kept.contains(kept[kept.len() - 1]));
        front.lemma_filter_contains_rev(keep, kept.last());
        let i = choose|i: int| 0 <= i < front.len() && front[i] == kept.last();
        assert(order[i] == kept.last());
        if i < p - 1 {
            assert(row_le(rows, order[i], order[p - 1]));
            lemma_row_le_transitive(rows, order[i], order[p - 1], k);
        }
    }
    assert forall|j: int| 0 <= j < rest.len() implies !row_le(rows, #[trigger] rest[j], k) by {
        assert(rest.contains(rest[j]));
        back.lemma_filter_contains_rev(keep, rest[j]);
        let i = choose|i: int| 0 <= i < back.len() && back[i] == rest[j];
        assert(order[p + i] == rest[j]);
    }
    lemma_row_slot_is(rows, kept, rest, k);
}

/// A filtered list in picker order with one more row put in is the list with
/// that row put in, filtered.
proof fn lemma_filter_after_insert(
    rows: Seq<ProviderPickerRow>,
    order: Seq<int>,
    keep: spec_fn(int) -> bool,
    k: int,
)
    requires
        forall|a: int, b: int|
            #![trigger order[a], order[b]]
            0 <= a < b < order.len() ==> row_le(rows, order[a], order[b]),
    ensures
        order.insert(row_slot(rows, order, k), k).filter(keep) == (if keep(k) {
            order.filter(keep).insert(row_slot(rows, order.filter(keep), k), k)
        } else {
            order.filter(keep)
        }),
{
    let p = row_slot(rows, order, k);
    lemma_row_slot(rows, order, k);
    let front = order.take(p);
    let back = order.skip(p);
    assert(order =~= front + back);
    assert(order.insert(p, k) =~= front + seq![k] + back);
    lemma_filter_around(front, back, keep, k);
    lemma_slot_in_filtered(rows, order, keep, k);
    let kept = front.filter(keep);
    let rest = back.filter(keep);
    assert((kept + rest).insert(kept.len() as int, k) =~= kept + seq![k] + rest);
}

proof fn lemma_query_filters(
    rows: Seq<ProviderPickerRow>,
    query: Seq<char>,
    matches: Seq<Option<FuzzyMatch>>,
    n: int,
)
    ensures
        rows_in_order(rows, shown_rows(query, matches, n)) == rows_in_order(
            rows,
            shown_rows(Seq::empty(), matches, n),
        ).filter(|i: int| is_shown(query, matches, i)),
    decreases n,
{
    let keep = |i: int| is_shown(query, matches, i);
    if n > 0 {
        lemma_query_filters(rows, query, matches, n - 1);
        let all = shown_rows(Seq::empty(), matches, n - 1);
        let some = shown_rows(query, matches, n - 1);
        law_rows_in_order(rows, all);
        lemma_filter_after_insert(rows, rows_in_order(rows, all), keep, n - 1);
        assert(all.push(n - 1).drop_last() =~= all);
        assert(some.push(n - 1).drop_last() =~= some);
    } else {
        reveal(Seq::filter);
    }
}

/// A query lists exactly the rows that match it, in the order in which browsing
/// lists them.
pub proof fn law_query_keeps_order(
    rows: Seq<ProviderPickerRow>,
    query: Seq<char>,
    matches: Seq<Option<FuzzyMatch>>,
)
    ensures
        provider_list(rows, query, matches) == provider_list(
            rows,
            Seq::empty(),
            matches,
        ).filter(|i: int| is_shown(query, matches, i)),
{
    lemma_query_filters(rows, query, matches, rows.len() as int);
}

/// Whether no two providers share an id.
pub open spec fn ids_are_distinct(rows: Seq<ProviderPickerRow>) -> bool {
    forall|i: int, j: int|
        0 <= i < j < rows.len() ==> (#[trigger] rows[i]).id@ != (#[trigger] rows[j]).id@
}

proof fn lemma_own_signal(rows: Seq<ProviderPickerRow>, i: int)
    requires
        ids_are_distinct(rows),
        0 <= i < rows.len(),
    ensures
        signal(rows, rows[i].id@).0 == rows[i].favorite,
        signal(rows, rows[i].id@).1 == (match rows[i].last_used_ms {
            Some(t) => t as int,
            None => -1,
        }),
    decreases rows.len(),
{
    if i > 0 {
        let rest = rows.drop_first();
        assert forall|k: int, l: int| 0 <= k < l < rest.len() implies (#[trigger] rest[k]).id@ != (
        #[trigger] rest[l]).id@ by {
            assert(rest[k] == rows[k + 1]);
            assert(rest[l] == rows[l + 1]);
        }
        lemma_own_signal(rest, i - 1);
        assert(rest[i - 1] == rows[i]);
        assert(rows[0].id@ != rows[i].id@);
    }
}

proof fn lemma_listed_rows(
    rows: Seq<ProviderPickerRow>,
    query: Seq<char>,
    matches: Seq<Option<FuzzyMatch>>,
    p: int,
)
    requires
        0 <= p < provider_list(rows, query, matches).len(),
    ensures
        0 <= provider_list(rows, query, matches)[p] < rows.len(),
{
    let all = provider_list(rows, Seq::empty(), matches);
    let keep = |i: int| is_shown(query, matches, i);
    law_query_keeps_order(rows, query, matches);
    law_browsing_lists_each_once(rows, matches);
    let list = provider_list(rows, query, matches);
    assert(list.contains(list[p]));
    all.lemma_filter_contains_rev(keep, list[p]);
}

/// How the picker ranks: of two listed providers the built-in one stands first;
/// among those alike in that a favorite stands before one that is none, whatever
/// else holds of them; among those alike in that too the one that was used last,
/// and one that was never used last of all; among those the first by name.
pub proof fn law_listed_by_rank(
    rows: Seq<ProviderPickerRow>,
    query: Seq<char>,
    matches: Seq<Option<FuzzyMatch>>,
    p: int,
    q: int,
)
    requires
        ids_are_distinct(rows),
        0 <= p < q < provider_list(rows, query, matches).len(),
    ensures
        ({
            let list = provider_list(rows, query, matches);
            let (front, back) = (rows[list[p]], rows[list[q]]);
            &&& 0 <= list[p] < rows.len() && 0 <= list[q] < rows.len()
            &&& back.builtin ==> front.builtin
            &&& front.builtin == back.builtin && back.favorite ==> front.favorite
            &&& front.builtin == back.builtin && front.favorite == back.favorite ==> match (
                front.last_used_ms,
                back.last_used_ms,
            ) {
                (Some(x), Some(y)) => x >= y,
                (None, Some(_)) => false,
                _ => true,
            }
            &&& front.builtin == back.builtin && front.favorite == back.favorite
                && front.last_used_ms == back.last_used_ms ==> !name_precedes(
                back.name@,
                front.name@,
            )
        }),
{
    let list = provider_list(rows, query, matches);
    lemma_listed_rows(rows, query, matches, p);
    lemma_listed_rows(rows, query, matches, q);
    law_rows_in_order(rows, shown_rows(query, matches, rows.len() as int));
    assert(row_le(rows, list[p], list[q]));
    lemma_own_signal(rows, list[p]);
    lemma_own_signal(rows, list[q]);
    if name_precedes(rows[list[q]].name@, rows[list[p]].name@) {
        lemma_name_precedes(rows[list[q]].name@, rows[list[p]].name@);
    }
}

/// Whether `a` stands strictly before `b` in a dictionary: it is a proper
/// beginning of `b`, or smaller where the two differ first.
pub open spec fn name_precedes(a: Seq<char>, b: Seq<char>) -> bool {
    exists|k: int|
        {
            &&& 0 <= k <= a.len()
            &&& k < b.len()
            &&& #[trigger] a.take(k) == b.take(k)
            &&& k < a.len() ==> a[k] < b[k]
        }
}

proof fn lemma_name_precedes(a: Seq<char>, b: Seq<char>)
    requires
        name_precedes(a, b),
    ensures
        !text_le(b, a),
    decreases a.len(),
{
    let k = choose|k: int|
        {
            &&& 0 <= k <= a.len()
            &&& k < b.len()
            &&& #[trigger] a.take(k) == b.take(k)
            &&& k < a.len() ==> a[k] < b[k]
        };
    if k > 0 {
        assert(a.take(k)[0] == a[0]);
        assert(b.take(k)[0] == b[0]);
        let (x, y) = (a.drop_first(), b.drop_first());
        assert(x.take(k - 1) =~= a.take(k).drop_first());
        assert(y.take(k - 1) =~= b.take(k).drop_first());
        assert(k < a.len() ==> x[k - 1] == a[k]);
        assert(y[k - 1] == b[k]);
        assert(x.take(k - 1) == y.take(k - 1));
        lemma_name_precedes(x, y);
    }
}

/// A query lists a provider exactly when its name matches.
pub proof fn law_query_lists_matches(
    rows: Seq<ProviderPickerRow>,
    query: Seq<char>,
    matches: Seq<Option<FuzzyMatch>>,
    i: int,
)
    requires
        query.len() > 0,
        matches.len() == rows.len(),
        0 <= i < rows.len(),
    ensures
        provider_list(rows, query, matches).contains(i) <==> matches[i] is Some,
{
    let all = provider_list(rows, Seq::empty(), matches);
    let keep = |k: int| is_shown(query, matches, k);
    law_query_keeps_order(rows, query, matches);
    law_browsing_lists_each_once(rows, matches);
    assert(all.contains(i));
    let list = provider_list(rows, query, matches);
    if list.contains(i) {
        let p = choose|p: int| 0 <= p < list.len() && list[p] == i;
        all.lemma_filter_pred(keep, p);
    }
    if matches[i] is Some {
        let q = choose|q: int| 0 <= q < all.len() && all[q] == i;
        all.lemma_filter_contains(keep, q);
    }
}

/// A model list shows the provider's models in their own order: all of them while
/// browsing, those whose name matches under a query.
pub proof fn law_models_in_own_order(
    rows: Seq<ProviderPickerRow>,
    row_idx: int,
    query: Seq<char>,
    matches: Seq<Option<FuzzyMatch>>,
)
    requires
        0 <= row_idx < rows.len(),
        query.len() > 0 ==> matches.len() == rows[row_idx].models@.len(),
    ensures
        ({
            let list = model_list(rows, row_idx, query, matches);
            let count = rows[row_idx].models@.len() as int;
            &&& forall|p: int, q: int|
                0 <= p < q < list.len() ==> 0 <= (#[trigger] list[p]) < (#[trigger] list[q])
                    < count
            &&& forall|j: int|
                0 <= j < count ==> (#[trigger] list.contains(j) <==> query.len() == 0
                    || matches[j] is Some)
        }),
{
    lemma_shown_rows(query, matches, rows[row_idx].models@.len() as int);
}

proof fn lemma_shown_rows(query: Seq<char>, matches: Seq<Option<FuzzyMatch>>, n: int)
    requires
        0 <= n,
    ensures
        ({
            let list = shown_rows(query, matches, n);
            &&& forall|p: int| 0 <= p < list.len() ==> 0 <= #[trigger] list[p] < n
            &&& forall|p: int, q: int|
                0 <= p < q < list.len() ==> (#[trigger] list[p]) < (#[trigger] list[q])
            &&& forall|j: int|
                0 <= j < n ==> (#[trigger] list.contains(j) <==> is_shown(query, matches, j))
        }),
    decreases n,
{
    if n > 0 {
        lemma_shown_rows(query, matches, n - 1);
        let rest = shown_rows(query, matches, n - 1);
        let list = shown_rows(query, matches, n);
        assert forall|j: int| 0 <= j < n implies (#[trigger] list.contains(j) <==> is_shown(
            query,
            matches,
            j,
        )) by {
            if is_shown(query, matches, n - 1) {
                assert(list[list.len() - 1] == n - 1);
                if j < n - 1 {
                    assert(rest.contains(j) <==> is_shown(query, matches, j));
                    if rest.contains(j) {
                        let k = choose|k: int| 0 <= k < rest.len() && rest[k] == j;
                        assert(list[k] == j);
                    }
                    if list.contains(j) {
                        let k = choose|k: int| 0 <= k < list.len() && list[k] == j;
                        assert(rest[k] == j);
                    }
                }
            } else if j < n - 1 {
                assert(rest.contains(j) <==> is_shown(query, matches, j));
            } else if list.contains(j) {
                let k = choose|k: int| 0 <= k < list.len() && list[k] == j;
                assert(rest[k] < n - 1);
            }
        }
    }
}

} // verus!
