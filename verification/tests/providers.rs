use neenee_code::providers::{
    model_context_window, model_display_name, protocol_model_candidates,
    provider_models_filtered_from, providers_filtered_from, FuzzyMatch, ModelInfo,
    ProviderPickerRow, ProviderPickerSnapshot, WireFormat,
};

fn model(id: &str, name: &str, format: WireFormat, context_window: usize) -> ModelInfo {
    ModelInfo {
        id: id.to_string(),
        name: name.to_string(),
        format,
        context_window,
        vision: false,
    }
}

fn registry() -> Vec<ModelInfo> {
    vec![
        model("glm-5.2", "GLM-5.2", WireFormat::OpenAiCompat, 200_000),
        model("gpt-4o", "GPT-4o", WireFormat::OpenAiCompat, 128_000),
        model(
            "opus-4-8",
            "Opus 4.8",
            WireFormat::AnthropicCompat,
            1_000_000,
        ),
        model("gemini-3", "", WireFormat::Gemini, 0),
    ]
}

fn row(id: &str, name: &str, models: &[&str], builtin: bool) -> ProviderPickerRow {
    ProviderPickerRow {
        id: id.to_string(),
        name: name.to_string(),
        model: models.first().copied().unwrap_or("").to_string(),
        models: models.iter().map(|m| m.to_string()).collect(),
        builtin,
        protocol: String::new(),
        base_url: String::new(),
        key_ready: true,
        favorite: false,
        last_used_ms: None,
    }
}

fn sample() -> ProviderPickerSnapshot {
    ProviderPickerSnapshot {
        default_id: "openai".to_string(),
        rows: vec![
            row("kimi-code", "Kimi Code", &["kimi-k2.7-code"], true),
            row("openai", "OpenAI", &["gpt-4o", "gpt-4o-mini"], true),
            row(
                "anthropic",
                "Anthropic",
                &["opus-4-8", "sonnet-4-6"],
                true,
            ),
            row("my-relay", "My Relay", &["glm-5.2", "glm-5.1"], false),
        ],
    }
}

fn hit(score: i64) -> Option<FuzzyMatch> {
    Some(FuzzyMatch {
        score,
        positions: vec![0],
    })
}

#[test]
fn display_name_resolves_from_model_registry() {
    assert_eq!(model_display_name(&registry(), "glm-5.2"), "GLM-5.2");
    assert_eq!(model_display_name(&registry(), "gpt-4o"), "GPT-4o");
}

#[test]
fn display_name_falls_back_to_raw_id_for_unknown_models() {
    assert_eq!(model_display_name(&registry(), "acme-7b"), "acme-7b");
}

#[test]
fn a_model_without_a_name_shows_its_id() {
    assert_eq!(model_display_name(&registry(), "gemini-3"), "gemini-3");
}

#[test]
fn context_window_is_zero_for_unknown_models() {
    assert_eq!(model_context_window(&registry(), "gpt-4o"), 128_000);
    assert_eq!(model_context_window(&registry(), "acme-7b"), 0);
}

#[test]
fn protocol_candidates_filter_by_wire_format() {
    let openai = protocol_model_candidates(&registry(), "openai");
    assert!(openai.contains(&"gpt-4o".to_string()));
    assert!(!openai.contains(&"opus-4-8".to_string()));
    let anthropic = protocol_model_candidates(&registry(), "anthropic");
    assert!(anthropic.contains(&"opus-4-8".to_string()));
    assert!(!anthropic.contains(&"gpt-4o".to_string()));
    assert_eq!(
        protocol_model_candidates(&registry(), "gemini"),
        vec!["gemini-3".to_string()]
    );
    assert_eq!(
        protocol_model_candidates(&registry(), "something else"),
        vec!["glm-5.2".to_string(), "gpt-4o".to_string()]
    );
}

#[test]
fn stage1_lists_one_row_per_provider_including_custom() {
    let snapshot = sample();
    let rows = providers_filtered_from(&snapshot, "", &Vec::new());
    assert_eq!(rows.len(), snapshot.rows.len());
    assert!(rows.iter().any(|r| r.id == "my-relay"));
}

#[test]
fn stage1_fuzzy_filters_by_provider_name() {
    let snapshot = sample();
    let matches = vec![None, None, hit(50), None];
    let rows = providers_filtered_from(&snapshot, "anthro", &matches);
    assert!(rows.iter().all(|r| r.id == "anthropic"));
    assert_eq!(rows.len(), 1);
    assert_eq!(rows[0].m, hit(50));
    assert_eq!(rows[0].row_idx, 2);
}

#[test]
fn stage1_keeps_its_order_while_searching() {
    let snapshot = sample();
    let matches = vec![hit(1), hit(9), None, hit(99)];
    let rows = providers_filtered_from(&snapshot, "o", &matches);
    let ids: Vec<&str> = rows.iter().map(|r| r.id.as_str()).collect();
    assert_eq!(ids, vec!["kimi-code", "openai", "my-relay"]);
}

#[test]
fn stage1_puts_recently_used_before_unused_and_names_last() {
    let mut snapshot = sample();
    snapshot.rows[1].last_used_ms = Some(10);
    snapshot.rows[0].last_used_ms = Some(20);
    let rows = providers_filtered_from(&snapshot, "", &Vec::new());
    let ids: Vec<&str> = rows.iter().map(|r| r.id.as_str()).collect();
    assert_eq!(ids, vec!["kimi-code", "openai", "anthropic", "my-relay"]);
    snapshot.rows[1].last_used_ms = Some(30);
    let rows = providers_filtered_from(&snapshot, "", &Vec::new());
    let ids: Vec<&str> = rows.iter().map(|r| r.id.as_str()).collect();
    assert_eq!(ids, vec!["openai", "kimi-code", "anthropic", "my-relay"]);
}

#[test]
fn stage1_sorts_favorites_first_within_group() {
    let mut snapshot = sample();
    for r in &mut snapshot.rows {
        r.favorite = r.id == "anthropic";
    }
    let rows = providers_filtered_from(&snapshot, "", &Vec::new());
    assert_eq!(rows[0].id, "anthropic");
    assert!(rows[0].favorite);
    let custom_pos = rows.iter().position(|r| r.id == "my-relay").unwrap();
    assert!(rows[..custom_pos].iter().all(|r| r.builtin));
}

#[test]
fn stage1_groups_builtins_before_custom() {
    let snapshot = sample();
    let rows = providers_filtered_from(&snapshot, "", &Vec::new());
    let first_custom = rows.iter().position(|r| !r.builtin).unwrap();
    assert!(rows[..first_custom].iter().all(|r| r.builtin));
    assert!(rows[first_custom..].iter().all(|r| !r.builtin));
}

#[test]
fn is_multi_model_tracks_model_count() {
    let snapshot = sample();
    let rows = providers_filtered_from(&snapshot, "", &Vec::new());
    let kimi = rows.iter().find(|r| r.id == "kimi-code").unwrap();
    assert!(!kimi.is_multi_model());
    let openai = rows.iter().find(|r| r.id == "openai").unwrap();
    assert!(openai.is_multi_model());
}

#[test]
fn stage2_lists_a_single_providers_models() {
    let snapshot = sample();
    let idx = snapshot.rows.iter().position(|r| r.id == "openai").unwrap();
    let rows = provider_models_filtered_from(&snapshot, &registry(), idx, "", &Vec::new());
    assert_eq!(rows.len(), 2);
    assert!(rows.iter().all(|r| r.provider_id == "openai"));
    assert!(rows.iter().any(|r| r.model == "gpt-4o"));
    assert_eq!(rows[0].label, "GPT-4o");
    assert_eq!(rows[1].label, "gpt-4o-mini");
}

#[test]
fn stage2_single_model_provider_yields_one_row() {
    let snapshot = sample();
    let idx = snapshot
        .rows
        .iter()
        .position(|r| r.id == "kimi-code")
        .unwrap();
    let rows = provider_models_filtered_from(&snapshot, &registry(), idx, "", &Vec::new());
    assert_eq!(rows.len(), 1);
    assert_eq!(rows[0].model, "kimi-k2.7-code");
}

#[test]
fn stage2_keeps_catalog_order_among_matches() {
    let snapshot = sample();
    let rows =
        provider_models_filtered_from(&snapshot, &registry(), 2, "s", &vec![None, hit(3)]);
    assert_eq!(rows.len(), 1);
    assert_eq!(rows[0].model, "sonnet-4-6");
    assert_eq!(rows[0].m, hit(3));
}

#[test]
fn stage2_of_a_missing_provider_is_empty() {
    let snapshot = sample();
    assert!(
        provider_models_filtered_from(&snapshot, &registry(), 99, "", &Vec::new()).is_empty()
    );
}

#[test]
fn a_query_keeps_the_order_of_browsing() {
    let mut snapshot = sample();
    snapshot.rows[3].favorite = true;
    snapshot.rows[2].last_used_ms = Some(7);
    let ids = |query: &str, matches: Vec<Option<FuzzyMatch>>| -> Vec<usize> {
        providers_filtered_from(&snapshot, query, &matches)
            .iter()
            .map(|row| row.row_idx)
            .collect()
    };
    assert_eq!(ids("", Vec::new()), vec![2, 0, 1, 3]);
    assert_eq!(ids("o", vec![hit(9), hit(1), None, hit(5)]), vec![0, 1, 3]);
    assert_eq!(ids("o", vec![None, hit(1), hit(4), None]), vec![2, 1]);
    assert_eq!(ids("zz", vec![None, None, None, None]), Vec::<usize>::new());
}
