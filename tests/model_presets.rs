use model_presets::ReasoningEffort::{High, Low, Medium, Minimal};
use model_presets::{
    all_model_presets, builtin_model_presets, resolve_upgrade, resolve_upgrade_in,
    select_offered, AuthMode, ModelPreset, ModelUpgrade, ReasoningEffort,
    ReasoningEffortPreset,
};

fn ids(presets: &[ModelPreset]) -> Vec<String> {
    presets.iter().map(|p| p.id.clone()).collect()
}

fn option(effort: ReasoningEffort) -> ReasoningEffortPreset {
    ReasoningEffortPreset { effort, description: format!("{:?}", effort) }
}

fn custom_preset(
    id: &str,
    default_effort: ReasoningEffort,
    efforts: &[ReasoningEffort],
    is_default: bool,
    upgrade: Option<ModelUpgrade>,
) -> ModelPreset {
    ModelPreset {
        id: id.to_string(),
        model: id.to_string(),
        display_name: id.to_string(),
        description: String::new(),
        default_reasoning_effort: default_effort,
        supported_reasoning_efforts: efforts.iter().map(|e| option(*e)).collect(),
        is_default,
        upgrade,
    }
}

#[test]
fn only_one_default_model_is_configured() {
    let default_models = all_model_presets().iter().filter(|preset| preset.is_default).count();
    assert!(default_models == 1);
}

#[test]
fn default_model_is_first_entry() {
    let all = all_model_presets();
    assert!(all[0].is_default);
    assert_eq!(all[0].id, "gpt-5.1-codex");
}

#[test]
fn default_effort_is_supported_everywhere() {
    for p in all_model_presets() {
        assert!(
            p.supported_reasoning_efforts.iter().any(|o| o.effort == p.default_reasoning_effort),
            "{}",
            p.id
        );
        for (i, a) in p.supported_reasoning_efforts.iter().enumerate() {
            for b in &p.supported_reasoning_efforts[i + 1..] {
                assert_ne!(a.effort, b.effort);
            }
        }
    }
}

#[test]
fn ids_are_unique() {
    let all = ids(&all_model_presets());
    for (i, a) in all.iter().enumerate() {
        for b in &all[i + 1..] {
            assert_ne!(a, b);
        }
    }
}

#[test]
fn upgrade_targets_exist_and_are_current() {
    let all = all_model_presets();
    for p in &all {
        if let Some(u) = &p.upgrade {
            let target = all.iter().find(|q| q.id == u.id).expect("target present");
            assert!(target.upgrade.is_none());
        }
    }
}

#[test]
fn catalog_has_fourteen_presets_three_superseded() {
    let all = all_model_presets();
    assert_eq!(all.len(), 14);
    assert_eq!(all.iter().filter(|p| p.upgrade.is_some()).count(), 3);
}

#[test]
fn non_gated_listing_drops_superseded_presets() {
    let expected = vec![
        "gpt-5.1-codex",
        "gpt-5.1-codex-mini",
        "gpt-5.1",
        "o4-mini",
        "o3",
        "gemini-2-5-pro-preview-03-25",
        "gemini-2-0-flash",
        "openrouter-polaris-alpha",
        "moonshotai-kimi-linear-48b-a3b-instruct",
        "grok-code-fast-1",
        "grok-4-fast-reasoning",
    ];
    for mode in [None, Some(AuthMode::ApiKey)] {
        let listed = builtin_model_presets(mode);
        assert_eq!(listed.len(), 11);
        assert_eq!(ids(&listed), expected);
        assert!(listed.iter().all(|p| p.upgrade.is_none()));
    }
}

#[test]
fn gated_listing_drops_denylisted_ids() {
    let listed = builtin_model_presets(Some(AuthMode::ChatGPT));
    assert_eq!(listed.len(), 9);
    let listed_ids = ids(&listed);
    assert!(!listed_ids.contains(&"o3".to_string()));
    assert!(!listed_ids.contains(&"o4-mini".to_string()));
    assert!(listed.iter().all(|p| p.upgrade.is_none()));
}

#[test]
fn gated_listing_is_a_subset_of_others() {
    let gated = ids(&builtin_model_presets(Some(AuthMode::ChatGPT)));
    let open = ids(&builtin_model_presets(None));
    let kept: Vec<String> =
        open.into_iter().filter(|id| id != "o3" && id != "o4-mini").collect();
    assert_eq!(gated, kept);
}

#[test]
fn listings_repeat_exactly() {
    assert_eq!(all_model_presets(), all_model_presets());
    for mode in [None, Some(AuthMode::ApiKey), Some(AuthMode::ChatGPT)] {
        assert_eq!(builtin_model_presets(mode), builtin_model_presets(mode));
    }
}

#[test]
fn listing_keeps_full_preset_data() {
    let listed = builtin_model_presets(None);
    let o3 = listed.iter().find(|p| p.id == "o3").expect("o3 listed");
    assert_eq!(o3.model, "o3");
    assert_eq!(o3.description, "OpenAI's long-context reasoning model.");
    assert_eq!(o3.default_reasoning_effort, ReasoningEffort::High);
    assert_eq!(o3.supported_reasoning_efforts.len(), 2);
    assert_eq!(o3.supported_reasoning_efforts[1].description, "Full-depth reasoning for complex audits");
}

#[test]
fn upgrade_uses_remap_entry() {
    let r = resolve_upgrade("gpt-5", ReasoningEffort::Minimal).expect("known preset");
    assert_eq!(r.preset_id, "gpt-5.1");
    assert_eq!(r.effort, ReasoningEffort::Low);
}

#[test]
fn upgrade_keeps_supported_effort() {
    let r = resolve_upgrade("gpt-5-codex", ReasoningEffort::High).expect("known preset");
    assert_eq!(r.preset_id, "gpt-5.1-codex");
    assert_eq!(r.effort, ReasoningEffort::High);
    let r = resolve_upgrade("gpt-5", ReasoningEffort::High).expect("known preset");
    assert_eq!(r.preset_id, "gpt-5.1");
    assert_eq!(r.effort, ReasoningEffort::High);
}

#[test]
fn upgrade_falls_back_to_target_default() {
    let r = resolve_upgrade("gpt-5-codex-mini", ReasoningEffort::Low).expect("known preset");
    assert_eq!(r.preset_id, "gpt-5.1-codex-mini");
    assert_eq!(r.effort, ReasoningEffort::Medium);
    let r = resolve_upgrade("gpt-5-codex", ReasoningEffort::Minimal).expect("known preset");
    assert_eq!(r.preset_id, "gpt-5.1-codex");
    assert_eq!(r.effort, ReasoningEffort::Medium);
}

#[test]
fn upgrade_of_unknown_id_is_not_found() {
    assert!(resolve_upgrade("unknown-id", ReasoningEffort::Medium).is_none());
    assert!(resolve_upgrade("", ReasoningEffort::Medium).is_none());
}

#[test]
fn current_preset_resolves_to_itself() {
    let r = resolve_upgrade("o3", ReasoningEffort::Minimal).expect("known preset");
    assert_eq!(r.preset_id, "o3");
    assert_eq!(r.effort, ReasoningEffort::Minimal);
}

#[test]
fn resolution_in_custom_catalog() {
    let catalog = vec![
        custom_preset("new", Medium, &[Low, Medium], true, None),
        custom_preset(
            "old",
            High,
            &[Minimal, High],
            false,
            Some(ModelUpgrade {
                id: "new".to_string(),
                reasoning_effort_mapping: Some(vec![(High, Medium), (Minimal, Low)]),
            }),
        ),
        custom_preset(
            "older",
            Low,
            &[Low, High],
            false,
            Some(ModelUpgrade { id: "new".to_string(), reasoning_effort_mapping: None }),
        ),
    ];
    let r = resolve_upgrade_in(&catalog, "old", High).unwrap();
    assert_eq!((r.preset_id.as_str(), r.effort), ("new", Medium));
    let r = resolve_upgrade_in(&catalog, "old", Minimal).unwrap();
    assert_eq!((r.preset_id.as_str(), r.effort), ("new", Low));
    let r = resolve_upgrade_in(&catalog, "old", Low).unwrap();
    assert_eq!((r.preset_id.as_str(), r.effort), ("new", Low));
    let r = resolve_upgrade_in(&catalog, "older", High).unwrap();
    assert_eq!((r.preset_id.as_str(), r.effort), ("new", Medium));
    assert!(resolve_upgrade_in(&catalog, "newest", High).is_none());
}

#[test]
fn select_offered_on_custom_list() {
    let list = vec![
        custom_preset("o3", High, &[High], false, None),
        custom_preset("a", Low, &[Low], true, None),
        custom_preset(
            "b",
            Low,
            &[Low],
            false,
            Some(ModelUpgrade { id: "a".to_string(), reasoning_effort_mapping: None }),
        ),
        custom_preset("o4-mini", Low, &[Low], false, None),
    ];
    assert_eq!(ids(&select_offered(list.clone(), None)), vec!["o3", "a", "o4-mini"]);
    assert_eq!(ids(&select_offered(list.clone(), Some(AuthMode::ChatGPT))), vec!["a"]);
    assert!(select_offered(Vec::new(), Some(AuthMode::ChatGPT)).is_empty());
}
