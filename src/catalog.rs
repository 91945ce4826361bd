use vstd::prelude::*;

use crate::types::{
    effort_descriptions, effort_levels, presets_view, text, ModelPreset, ModelUpgrade, PresetView, ReasoningEffort, ReasoningEffortPreset,
    UpgradeView,
};

verus! {

/// No two presets share an id.
pub open spec fn ids_unique(s: Seq<PresetView>) -> bool {
    forall|i: int, j: int| 0 <= i < s.len() && 0 <= j < s.len() && i != j ==> s[i].id != s[j].id
}

/// Exactly one preset is marked as the default.
pub open spec fn single_default(s: Seq<PresetView>) -> bool {
    exists|i: int|
        0 <= i < s.len() && #[trigger] s[i].is_default && forall|j: int|
            0 <= j < s.len() && j != i ==> !(#[trigger] s[j].is_default)
}

/// The default effort is one of the supported efforts, which are listed once
/// each.
pub open spec fn efforts_well_formed(p: PresetView) -> bool {
    &&& p.efforts.contains(p.default_effort)
    &&& p.efforts.no_duplicates()
}

/// The previous efforts that a remapping has entries for.
pub open spec fn remap_keys(m: Seq<(ReasoningEffort, ReasoningEffort)>) -> Seq<ReasoningEffort> {
    m.map_values(|e: (ReasoningEffort, ReasoningEffort)| e.0)
}

/// The previous efforts of a remapping are distinct.
pub open spec fn remap_keys_unique(u: UpgradeView) -> bool {
    u.remap matches Some(m) ==> remap_keys(m).no_duplicates()
}

/// An upgrade, if set, names a preset of the catalog that has no upgrade of
/// its own.
pub open spec fn upgrade_resolves(s: Seq<PresetView>, p: PresetView) -> bool {
    p.upgrade matches Some(u) ==> exists|j: int|
        0 <= j < s.len() && #[trigger] s[j].id == u.target && s[j].upgrade is None
}

/// Every invariant that a catalog of presets keeps.
pub open spec fn catalog_well_formed(s: Seq<PresetView>) -> bool {
    &&& ids_unique(s)
    &&& single_default(s)
    &&& forall|i: int| 0 <= i < s.len() ==> efforts_well_formed(#[trigger] s[i])
    &&& forall|i: int| 0 <= i < s.len() ==> upgrade_resolves(s, #[trigger] s[i])
    &&& forall|i: int|
        0 <= i < s.len() && (#[trigger] s[i]).upgrade is Some ==> remap_keys_unique(
            s[i].upgrade->0,
        )
}

/// One preset of the catalog, field by field.
pub open spec fn entry(
    id: Seq<char>,
    model: Seq<char>,
    display_name: Seq<char>,
    description: Seq<char>,
    default_effort: ReasoningEffort,
    efforts: Seq<ReasoningEffort>,
    effort_descriptions: Seq<Seq<char>>,
    is_default: bool,
    upgrade: Option<UpgradeView>,
) -> PresetView {
    PresetView {
        id,
        model,
        display_name,
        description,
        default_effort,
        efforts,
        effort_descriptions,
        is_default,
        upgrade,
    }
}

/// The built-in catalog, in the order in which it is listed.
pub open spec fn preset_catalog() -> Seq<PresetView> {
    let min = ReasoningEffort::Minimal;
    let low = ReasoningEffort::Low;
    let med = ReasoningEffort::Medium;
    let high = ReasoningEffort::High;
    seq![
        entry(
            "gpt-5.1-codex"@,
            "gpt-5.1-codex"@,
            "gpt-5.1-codex"@,
            "Optimized for codex."@,
            med,
            seq![low, med, high],
            seq![
                "Fastest responses with limited reasoning"@,
                "Dynamically adjusts reasoning based on the task"@,
                "Maximizes reasoning depth for complex or ambiguous problems"@,
            ],
            true,
            None,
        ),
        entry(
            "gpt-5.1-codex-mini"@,
            "gpt-5.1-codex-mini"@,
            "gpt-5.1-codex-mini"@,
            "Optimized for codex. Cheaper, faster, but less capable."@,
            med,
            seq![med, high],
            seq![
                "Dynamically adjusts reasoning based on the task"@,
                "Maximizes reasoning depth for complex or ambiguous problems"@,
            ],
            false,
            None,
        ),
        entry(
            "gpt-5.1"@,
            "gpt-5.1"@,
            "gpt-5.1"@,
            "Broad world knowledge with strong general reasoning."@,
            med,
            seq![low, med, high],
            seq![
                "Balances speed with some reasoning; useful for straightforward queries and short explanations"@,
                "Provides a solid balance of reasoning depth and latency for general-purpose tasks"@,
                "Maximizes reasoning depth for complex or ambiguous problems"@,
            ],
            false,
            None,
        ),
        entry(
            "o4-mini"@,
            "o4-mini"@,
            "o4-mini"@,
            "OpenAI's fast agentic model (default for most CLI sessions)."@,
            med,
            seq![min, low, med, high],
            seq![
                "Fastest hand-offs with minimal deliberation"@,
                "Balances speed with solid lightweight reasoning"@,
                "Great general-purpose autonomy"@,
                "Max reasoning depth for tricky refactors"@,
            ],
            false,
            None,
        ),
        entry(
            "o3"@,
            "o3"@,
            "o3"@,
            "OpenAI's long-context reasoning model."@,
            high,
            seq![med, high],
            seq![
                "Balanced output quality for large files"@,
                "Full-depth reasoning for complex audits"@,
            ],
            false,
            None,
        ),
        entry(
            "gemini-2-5-pro-preview-03-25"@,
            "gemini-2.5-pro-preview-03-25"@,
            "Gemini 2.5 Pro (Preview)"@,
            "Google Gemini's most capable public model via OpenAI-compatible API."@,
            med,
            seq![min, low, med, high],
            seq![
                "Prioritize latency when drafting or ideating"@,
                "Balanced option for everyday coding help"@,
                "Extra deliberation for multi-step plans"@,
                "Deep dives when troubleshooting tough bugs"@,
            ],
            false,
            None,
        ),
        entry(
            "gemini-2-0-flash"@,
            "gemini-2.0-flash"@,
            "Gemini 2.0 Flash"@,
            "Fast Gemini model for quick iterations and reviews."@,
            low,
            seq![min, low, med],
            seq![
                "Ultra-fast responses for simple edits"@,
                "Use when you want quick summaries or reviews"@,
                "Adds deliberation while staying responsive"@,
            ],
            false,
            None,
        ),
        entry(
            "openrouter-polaris-alpha"@,
            "openrouter/polaris-alpha"@,
            "Polaris Alpha (OpenRouter)"@,
            "Community-favorite reasoning model hosted via OpenRouter."@,
            med,
            seq![min, low, med, high],
            seq![
                "Quick rough drafts or shell plans"@,
                "Everyday work with solid stability"@,
                "Recommended for longer coding sessions"@,
                "Dig deep into gnarly issues (slower/pricey)"@,
            ],
            false,
            None,
        ),
        entry(
            "moonshotai-kimi-linear-48b-a3b-instruct"@,
            "moonshotai/kimi-linear-48b-a3b-instruct"@,
            "Kimi Linear 48B (OpenRouter)"@,
            "Moonshot's linear-algebra-focused instruct model via OpenRouter."@,
            med,
            seq![min, low, med],
            seq![
                "Tight latency for small patches"@,
                "Adds reasoning for testing or refactors"@,
                "Best overall mix of reasoning and speed"@,
            ],
            false,
            None,
        ),
        entry(
            "grok-code-fast-1"@,
            "grok-code-fast-1"@,
            "Grok Code Fast 1 (xAI)"@,
            "xAI's streamlined Grok variant tuned for coding throughput."@,
            low,
            seq![min, low, med],
            seq![
                "Extremely fast single-file edits"@,
                "Recommended default for day-to-day work"@,
                "Adds deliberation for multi-step plans"@,
            ],
            false,
            None,
        ),
        entry(
            "grok-4-fast-reasoning"@,
            "grok-4-fast-reasoning"@,
            "Grok 4 Fast Reasoning (xAI)"@,
            "Structured-output capable Grok model that excels at document extraction."@,
            med,
            seq![low, med, high],
            seq![
                "Keep latency low while parsing reports"@,
                "Best balance for long-lived autonomy"@,
                "Maximum reasoning depth when accuracy matters most"@,
            ],
            false,
            None,
        ),
        entry(
            "gpt-5-codex"@,
            "gpt-5-codex"@,
            "gpt-5-codex"@,
            "Optimized for codex."@,
            med,
            seq![low, med, high],
            seq![
                "Fastest responses with limited reasoning"@,
                "Dynamically adjusts reasoning based on the task"@,
                "Maximizes reasoning depth for complex or ambiguous problems"@,
            ],
            false,
            Some(UpgradeView { target: "gpt-5.1-codex"@, remap: None }),
        ),
        entry(
            "gpt-5-codex-mini"@,
            "gpt-5-codex-mini"@,
            "gpt-5-codex-mini"@,
            "Optimized for codex. Cheaper, faster, but less capable."@,
            med,
            seq![med, high],
            seq![
                "Dynamically adjusts reasoning based on the task"@,
                "Maximizes reasoning depth for complex or ambiguous problems"@,
            ],
            false,
            Some(UpgradeView { target: "gpt-5.1-codex-mini"@, remap: None }),
        ),
        entry(
            "gpt-5"@,
            "gpt-5"@,
            "gpt-5"@,
            "Broad world knowledge with strong general reasoning."@,
            med,
            seq![min, low, med, high],
            seq![
                "Fastest responses with little reasoning"@,
                "Balances speed with some reasoning; useful for straightforward queries and short explanations"@,
                "Provides a solid balance of reasoning depth and latency for general-purpose tasks"@,
                "Maximizes reasoning depth for complex or ambiguous problems"@,
            ],
            false,
            Some(UpgradeView { target: "gpt-5.1"@, remap: Some(seq![(min, low)]) }),
        ),
    ]
}

/// The built-in catalog keeps every invariant of a catalog.
pub proof fn lemma_catalog_well_formed()
    ensures
        catalog_well_formed(preset_catalog()),
{
    let s = preset_catalog();
    reveal_strlit("gpt-5.1-codex");
    reveal_strlit("gpt-5.1-codex-mini");
    reveal_strlit("gpt-5.1");
    reveal_strlit("o4-mini");
    reveal_strlit("o3");
    reveal_strlit("gemini-2-5-pro-preview-03-25");
    reveal_strlit("gemini-2-0-flash");
    reveal_strlit("openrouter-polaris-alpha");
    reveal_strlit("moonshotai-kimi-linear-48b-a3b-instruct");
    reveal_strlit("grok-code-fast-1");
    reveal_strlit("grok-4-fast-reasoning");
    reveal_strlit("gpt-5-codex");
    reveal_strlit("gpt-5-codex-mini");
    reveal_strlit("gpt-5");
    assert(s[0].id.len() == 13 && s[0].id[1] == 'p');
    assert(s[1].id.len() == 18 && s[1].id[1] == 'p');
    assert(s[2].id.len() == 7 && s[2].id[1] == 'p');
    assert(s[3].id.len() == 7 && s[3].id[1] == '4');
    assert(s[4].id.len() == 2 && s[4].id[1] == '3');
    assert(s[5].id.len() == 28 && s[5].id[1] == 'e');
    assert(s[6].id.len() == 16 && s[6].id[1] == 'e');
    assert(s[7].id.len() == 24 && s[7].id[1] == 'p');
    assert(s[8].id.len() == 39 && s[8].id[1] == 'o');
    assert(s[9].id.len() == 16 && s[9].id[1] == 'r');
    assert(s[10].id.len() == 21 && s[10].id[1] == 'r');
    assert(s[11].id.len() == 11 && s[11].id[1] == 'p');
    assert(s[12].id.len() == 16 && s[12].id[1] == 'p');
    assert(s[13].id.len() == 5 && s[13].id[1] == 'p');
    assert(ids_unique(s)) by {
        assert forall|i: int, j: int|
            0 <= i < s.len() && 0 <= j < s.len() && i != j implies s[i].id != s[j].id by {
            assert(i == 0 || i == 1 || i == 2 || i == 3 || i == 4 || i == 5 || i == 6 || i == 7 || i == 8 || i == 9 || i == 10 || i == 11 || i == 12 || i == 13);
            assert(j == 0 || j == 1 || j == 2 || j == 3 || j == 4 || j == 5 || j == 6 || j == 7 || j == 8 || j == 9 || j == 10 || j == 11 || j == 12 || j == 13);
        }
    }
    assert(single_default(s)) by {
        assert(s[0].is_default);
    }
    assert(s[0].id == s[11].upgrade->0.target);
    assert(s[1].id == s[12].upgrade->0.target);
    assert(s[2].id == s[13].upgrade->0.target);
    assert forall|i: int| 0 <= i < s.len() implies {
        &&& efforts_well_formed(#[trigger] s[i])
        &&& upgrade_resolves(s, s[i])
        &&& s[i].upgrade is Some ==> remap_keys_unique(s[i].upgrade->0)
    } by {
        assert(i == 0 || i == 1 || i == 2 || i == 3 || i == 4 || i == 5 || i == 6 || i == 7 || i == 8 || i == 9 || i == 10 || i == 11 || i == 12 || i == 13);
    }
}

fn effort_option(effort: ReasoningEffort, description: &str) -> (r: ReasoningEffortPreset)
    ensures
        r.effort == effort,
        r.description@ == description@,
{
    ReasoningEffortPreset { effort, description: text(description) }
}

fn upgrade_to(id: &str, mapping: Option<Vec<(ReasoningEffort, ReasoningEffort)>>) -> (r:
    ModelUpgrade)
    ensures
        r.id@ == id@,
        r.reasoning_effort_mapping == mapping,
{
    ModelUpgrade { id: text(id), reasoning_effort_mapping: mapping }
}

#[allow(clippy::too_many_arguments)]
fn preset(
    id: &str,
    model: &str,
    display_name: &str,
    description: &str,
    default_reasoning_effort: ReasoningEffort,
    supported_reasoning_efforts: Vec<ReasoningEffortPreset>,
    is_default: bool,
    upgrade: Option<ModelUpgrade>,
) -> (r: ModelPreset)
    ensures
        r.id@ == id@,
        r.model@ == model@,
        r.display_name@ == display_name@,
        r.description@ == description@,
        r.default_reasoning_effort == default_reasoning_effort,
        r.supported_reasoning_efforts == supported_reasoning_efforts,
        r.is_default == is_default,
        r.upgrade == upgrade,
{
    ModelPreset {
        id: text(id),
        model: text(model),
        display_name: text(display_name),
        description: text(description),
        default_reasoning_effort,
        supported_reasoning_efforts,
        is_default,
        upgrade,
    }
}

/// Builds the full catalog, superseded presets included, in its fixed order.
/// The catalog keeps every invariant of a catalog: ids are unique, exactly
/// one preset is the default, each default effort is supported, and each
/// upgrade names a preset that is not superseded itself.
pub fn all_model_presets() -> (r: Vec<ModelPreset>)
    ensures
        presets_view(r@) == preset_catalog(),
        ids_unique(presets_view(r@)),
        single_default(presets_view(r@)),
        forall|i: int|
            0 <= i < r@.len() ==> efforts_well_formed(#[trigger] presets_view(r@)[i]),
        forall|i: int|
            0 <= i < r@.len() ==> upgrade_resolves(presets_view(r@), #[trigger] presets_view(r@)[i]),
        catalog_well_formed(presets_view(r@)),
{
    let mut v: Vec<ModelPreset> = Vec::new();
    v.push(
        preset(
            "gpt-5.1-codex",
            "gpt-5.1-codex",
            "gpt-5.1-codex",
            "Optimized for codex.",
            ReasoningEffort::Medium,
            vec![
                effort_option(ReasoningEffort::Low, "Fastest responses with limited reasoning"),
                effort_option(ReasoningEffort::Medium, "Dynamically adjusts reasoning based on the task"),
                effort_option(ReasoningEffort::High, "Maximizes reasoning depth for complex or ambiguous problems"),
            ],
            true,
            None,
        ),
    );
    v.push(
        preset(
            "gpt-5.1-codex-mini",
            "gpt-5.1-codex-mini",
            "gpt-5.1-codex-mini",
            "Optimized for codex. Cheaper, faster, but less capable.",
            ReasoningEffort::Medium,
            vec![
                effort_option(ReasoningEffort::Medium, "Dynamically adjusts reasoning based on the task"),
                effort_option(ReasoningEffort::High, "Maximizes reasoning depth for complex or ambiguous problems"),
            ],
            false,
            None,
        ),
    );
    v.push(
        preset(
            "gpt-5.1",
            "gpt-5.1",
            "gpt-5.1",
            "Broad world knowledge with strong general reasoning.",
            ReasoningEffort::Medium,
            vec![
                effort_option(ReasoningEffort::Low, "Balances speed with some reasoning; useful for straightforward queries and short explanations"),
                effort_option(ReasoningEffort::Medium, "Provides a solid balance of reasoning depth and latency for general-purpose tasks"),
                effort_option(ReasoningEffort::High, "Maximizes reasoning depth for complex or ambiguous problems"),
            ],
            false,
            None,
        ),
    );
    v.push(
        preset(
            "o4-mini",
            "o4-mini",
            "o4-mini",
            "OpenAI's fast agentic model (default for most CLI sessions).",
            ReasoningEffort::Medium,
            vec![
                effort_option(ReasoningEffort::Minimal, "Fastest hand-offs with minimal deliberation"),
                effort_option(ReasoningEffort::Low, "Balances speed with solid lightweight reasoning"),
                effort_option(ReasoningEffort::Medium, "Great general-purpose autonomy"),
                effort_option(ReasoningEffort::High, "Max reasoning depth for tricky refactors"),
            ],
            false,
            None,
        ),
    );
    v.push(
        preset(
            "o3",
            "o3",
            "o3",
            "OpenAI's long-context reasoning model.",
            ReasoningEffort::High,
            vec![
                effort_option(ReasoningEffort::Medium, "Balanced output quality for large files"),
                effort_option(ReasoningEffort::High, "Full-depth reasoning for complex audits"),
            ],
            false,
            None,
        ),
    );
    v.push(
        preset(
            "gemini-2-5-pro-preview-03-25",
            "gemini-2.5-pro-preview-03-25",
            "Gemini 2.5 Pro (Preview)",
            "Google Gemini's most capable public model via OpenAI-compatible API.",
            ReasoningEffort::Medium,
            vec![
                effort_option(ReasoningEffort::Minimal, "Prioritize latency when drafting or ideating"),
                effort_option(ReasoningEffort::Low, "Balanced option for everyday coding help"),
                effort_option(ReasoningEffort::Medium, "Extra deliberation for multi-step plans"),
                effort_option(ReasoningEffort::High, "Deep dives when troubleshooting tough bugs"),
            ],
            false,
            None,
        ),
    );
    v.push(
        preset(
            "gemini-2-0-flash",
            "gemini-2.0-flash",
            "Gemini 2.0 Flash",
            "Fast Gemini model for quick iterations and reviews.",
            ReasoningEffort::Low,
            vec![
                effort_option(ReasoningEffort::Minimal, "Ultra-fast responses for simple edits"),
                effort_option(ReasoningEffort::Low, "Use when you want quick summaries or reviews"),
                effort_option(ReasoningEffort::Medium, "Adds deliberation while staying responsive"),
            ],
            false,
            None,
        ),
    );
    v.push(
        preset(
            "openrouter-polaris-alpha",
            "openrouter/polaris-alpha",
            "Polaris Alpha (OpenRouter)",
            "Community-favorite reasoning model hosted via OpenRouter.",
            ReasoningEffort::Medium,
            vec![
                effort_option(ReasoningEffort::Minimal, "Quick rough drafts or shell plans"),
                effort_option(ReasoningEffort::Low, "Everyday work with solid stability"),
                effort_option(ReasoningEffort::Medium, "Recommended for longer coding sessions"),
                effort_option(ReasoningEffort::High, "Dig deep into gnarly issues (slower/pricey)"),
            ],
            false,
            None,
        ),
    );
    v.push(
        preset(
            "moonshotai-kimi-linear-48b-a3b-instruct",
            "moonshotai/kimi-linear-48b-a3b-instruct",
            "Kimi Linear 48B (OpenRouter)",
            "Moonshot's linear-algebra-focused instruct model via OpenRouter.",
            ReasoningEffort::Medium,
            vec![
                effort_option(ReasoningEffort::Minimal, "Tight latency for small patches"),
                effort_option(ReasoningEffort::Low, "Adds reasoning for testing or refactors"),
                effort_option(ReasoningEffort::Medium, "Best overall mix of reasoning and speed"),
            ],
            false,
            None,
        ),
    );
    v.push(
        preset(
            "grok-code-fast-1",
            "grok-code-fast-1",
            "Grok Code Fast 1 (xAI)",
            "xAI's streamlined Grok variant tuned for coding throughput.",
            ReasoningEffort::Low,
            vec![
                effort_option(ReasoningEffort::Minimal, "Extremely fast single-file edits"),
                effort_option(ReasoningEffort::Low, "Recommended default for day-to-day work"),
                effort_option(ReasoningEffort::Medium, "Adds deliberation for multi-step plans"),
            ],
            false,
            None,
        ),
    );
    v.push(
        preset(
            "grok-4-fast-reasoning",
            "grok-4-fast-reasoning",
            "Grok 4 Fast Reasoning (xAI)",
            "Structured-output capable Grok model that excels at document extraction.",
            ReasoningEffort::Medium,
            vec![
                effort_option(ReasoningEffort::Low, "Keep latency low while parsing reports"),
                effort_option(ReasoningEffort::Medium, "Best balance for long-lived autonomy"),
                effort_option(ReasoningEffort::High, "Maximum reasoning depth when accuracy matters most"),
            ],
            false,
            None,
        ),
    );
    v.push(
        preset(
            "gpt-5-codex",
            "gpt-5-codex",
            "gpt-5-codex",
            "Optimized for codex.",
            ReasoningEffort::Medium,
            vec![
                effort_option(ReasoningEffort::Low, "Fastest responses with limited reasoning"),
                effort_option(ReasoningEffort::Medium, "Dynamically adjusts reasoning based on the task"),
                effort_option(ReasoningEffort::High, "Maximizes reasoning depth for complex or ambiguous problems"),
            ],
            false,
            Some(upgrade_to("gpt-5.1-codex", None)),
        ),
    );
    v.push(
        preset(
            "gpt-5-codex-mini",
            "gpt-5-codex-mini",
            "gpt-5-codex-mini",
            "Optimized for codex. Cheaper, faster, but less capable.",
            ReasoningEffort::Medium,
            vec![
                effort_option(ReasoningEffort::Medium, "Dynamically adjusts reasoning based on the task"),
                effort_option(ReasoningEffort::High, "Maximizes reasoning depth for complex or ambiguous problems"),
            ],
            false,
            Some(upgrade_to("gpt-5.1-codex-mini", None)),
        ),
    );
    v.push(
        preset(
            "gpt-5",
            "gpt-5",
            "gpt-5",
            "Broad world knowledge with strong general reasoning.",
            ReasoningEffort::Medium,
            vec![
                effort_option(ReasoningEffort::Minimal, "Fastest responses with little reasoning"),
                effort_option(ReasoningEffort::Low, "Balances speed with some reasoning; useful for straightforward queries and short explanations"),
                effort_option(ReasoningEffort::Medium, "Provides a solid balance of reasoning depth and latency for general-purpose tasks"),
                effort_option(ReasoningEffort::High, "Maximizes reasoning depth for complex or ambiguous problems"),
            ],
            false,
            Some(upgrade_to("gpt-5.1", Some(vec![(ReasoningEffort::Minimal, ReasoningEffort::Low)]))),
        ),
    );
    proof {
        lemma_catalog_well_formed();
        assert(effort_levels(v@[0].supported_reasoning_efforts@) =~= preset_catalog()[0].efforts);
        assert(effort_levels(v@[1].supported_reasoning_efforts@) =~= preset_catalog()[1].efforts);
        assert(effort_levels(v@[2].supported_reasoning_efforts@) =~= preset_catalog()[2].efforts);
        assert(effort_levels(v@[3].supported_reasoning_efforts@) =~= preset_catalog()[3].efforts);
        assert(effort_levels(v@[4].supported_reasoning_efforts@) =~= preset_catalog()[4].efforts);
        assert(effort_levels(v@[5].supported_reasoning_efforts@) =~= preset_catalog()[5].efforts);
        assert(effort_levels(v@[6].supported_reasoning_efforts@) =~= preset_catalog()[6].efforts);
        assert(effort_levels(v@[7].supported_reasoning_efforts@) =~= preset_catalog()[7].efforts);
        assert(effort_levels(v@[8].supported_reasoning_efforts@) =~= preset_catalog()[8].efforts);
        assert(effort_levels(v@[9].supported_reasoning_efforts@) =~= preset_catalog()[9].efforts);
        assert(effort_levels(v@[10].supported_reasoning_efforts@) =~= preset_catalog()[10].efforts);
        assert(effort_levels(v@[11].supported_reasoning_efforts@) =~= preset_catalog()[11].efforts);
        assert(effort_levels(v@[12].supported_reasoning_efforts@) =~= preset_catalog()[12].efforts);
        assert(effort_levels(v@[13].supported_reasoning_efforts@) =~= preset_catalog()[13].efforts);
        assert(effort_descriptions(v@[0].supported_reasoning_efforts@) =~= preset_catalog()[0].effort_descriptions);
        assert(effort_descriptions(v@[1].supported_reasoning_efforts@) =~= preset_catalog()[1].effort_descriptions);
        assert(effort_descriptions(v@[2].supported_reasoning_efforts@) =~= preset_catalog()[2].effort_descriptions);
        assert(effort_descriptions(v@[3].supported_reasoning_efforts@) =~= preset_catalog()[3].effort_descriptions);
        assert(effort_descriptions(v@[4].supported_reasoning_efforts@) =~= preset_catalog()[4].effort_descriptions);
        assert(effort_descriptions(v@[5].supported_reasoning_efforts@) =~= preset_catalog()[5].effort_descriptions);
        assert(effort_descriptions(v@[6].supported_reasoning_efforts@) =~= preset_catalog()[6].effort_descriptions);
        assert(effort_descriptions(v@[7].supported_reasoning_efforts@) =~= preset_catalog()[7].effort_descriptions);
        assert(effort_descriptions(v@[8].supported_reasoning_efforts@) =~= preset_catalog()[8].effort_descriptions);
        assert(effort_descriptions(v@[9].supported_reasoning_efforts@) =~= preset_catalog()[9].effort_descriptions);
        assert(effort_descriptions(v@[10].supported_reasoning_efforts@) =~= preset_catalog()[10].effort_descriptions);
        assert(effort_descriptions(v@[11].supported_reasoning_efforts@) =~= preset_catalog()[11].effort_descriptions);
        assert(effort_descriptions(v@[12].supported_reasoning_efforts@) =~= preset_catalog()[12].effort_descriptions);
        assert(effort_descriptions(v@[13].supported_reasoning_efforts@) =~= preset_catalog()[13].effort_descriptions);
        assert(v@[13].upgrade->0.reasoning_effort_mapping->0@ =~= seq![
            (ReasoningEffort::Minimal, ReasoningEffort::Low),
        ]);
        assert(presets_view(v@) =~= preset_catalog());
    }
    v
}

} // verus!
