use vstd::prelude::*;

verus! {

/// How much deliberation a model applies, from the least to the most.
#[derive(Clone, Copy, Debug, PartialEq, Eq, Hash, Structural)]
pub enum ReasoningEffort {
    Minimal,
    Low,
    Medium,
    High,
}

/// How the caller authenticated. Signing in with a ChatGPT account is the
/// gated mode, under which fewer presets are offered.
#[derive(Clone, Copy, Debug, PartialEq, Eq, Hash, Structural)]
pub enum AuthMode {
    ApiKey,
    ChatGPT,
}

/// A reasoning effort option that can be surfaced for a model.
#[derive(Debug, Clone, PartialEq, Eq)]
pub struct ReasoningEffortPreset {
    /// Effort level that the model supports.
    pub effort: ReasoningEffort,
    /// Short human description shown next to the effort in UIs.
    pub description: String,
}

/// The link from a superseded preset to the preset that replaces it.
#[derive(Debug, Clone, PartialEq, Eq)]
pub struct ModelUpgrade {
    /// Id of the preset that replaces this one.
    pub id: String,
    /// Efforts to use on the successor in place of a previous choice, as
    /// pairs `(previous, replacement)` with distinct previous efforts.
    pub reasoning_effort_mapping: Option<Vec<(ReasoningEffort, ReasoningEffort)>>,
}

/// Metadata describing a supported model.
#[derive(Debug, Clone, PartialEq, Eq)]
pub struct ModelPreset {
    /// Stable identifier for the preset.
    pub id: String,
    /// Model slug (e.g., "gpt-5").
    pub model: String,
    /// Display name shown in UIs.
    pub display_name: String,
    /// Short human description shown in UIs.
    pub description: String,
    /// Reasoning effort applied when none is explicitly chosen.
    pub default_reasoning_effort: ReasoningEffort,
    /// Supported reasoning effort options.
    pub supported_reasoning_efforts: Vec<ReasoningEffortPreset>,
    /// Whether this is the default model for new users.
    pub is_default: bool,
    /// Recommended upgrade, set on superseded presets only.
    pub upgrade: Option<ModelUpgrade>,
}

/// What an upgrade link means: the successor's id and the effort remapping.
pub struct UpgradeView {
    pub target: Seq<char>,
    pub remap: Option<Seq<(ReasoningEffort, ReasoningEffort)>>,
}

/// What a preset means to selection and upgrade resolution.
pub struct PresetView {
    pub id: Seq<char>,
    pub model: Seq<char>,
    pub display_name: Seq<char>,
    pub description: Seq<char>,
    pub default_effort: ReasoningEffort,
    /// The supported effort levels, in the order they are listed.
    pub efforts: Seq<ReasoningEffort>,
    /// The description shown beside each supported effort level.
    pub effort_descriptions: Seq<Seq<char>>,
    pub is_default: bool,
    pub upgrade: Option<UpgradeView>,
}

impl View for ModelUpgrade {
    type V = UpgradeView;

    open spec fn view(&self) -> UpgradeView {
        UpgradeView {
            target: self.id@,
            remap: match self.reasoning_effort_mapping {
                Some(m) => Some(m@),
                None => None,
            },
        }
    }
}

impl View for ModelPreset {
    type V = PresetView;

    open spec fn view(&self) -> PresetView {
        PresetView {
            id: self.id@,
            model: self.model@,
            display_name: self.display_name@,
            description: self.description@,
            default_effort: self.default_reasoning_effort,
            efforts: effort_levels(self.supported_reasoning_efforts@),
            effort_descriptions: effort_descriptions(self.supported_reasoning_efforts@),
            is_default: self.is_default,
            upgrade: match self.upgrade {
                Some(u) => Some(u@),
                None => None,
            },
        }
    }
}

/// The effort levels of a list of effort options.
pub open spec fn effort_levels(options: Seq<ReasoningEffortPreset>) -> Seq<ReasoningEffort> {
    options.map_values(|o: ReasoningEffortPreset| o.effort)
}

/// The descriptions of a list of effort options.
pub open spec fn effort_descriptions(options: Seq<ReasoningEffortPreset>) -> Seq<Seq<char>> {
    options.map_values(|o: ReasoningEffortPreset| o.description@)
}

/// The views of a list of presets.
pub open spec fn presets_view(presets: Seq<ModelPreset>) -> Seq<PresetView> {
    presets.map_values(|p: ModelPreset| p@)
}

/// An owned copy of `s`.
pub(crate) fn text(s: &str) -> (r: String)
    ensures
        r@ == s@,
{
    s.to_string()
}

} // verus!
