//! A static catalog of model presets, the selection of the presets that a
//! caller is offered, and the resolution of a superseded preset onto its
//! successor.

pub mod catalog;
pub mod selection;
pub mod types;
pub mod upgrade;

pub use catalog::all_model_presets;
pub use selection::{builtin_model_presets, select_offered};
pub use types::{
    AuthMode, ModelPreset, ModelUpgrade, PresetView, ReasoningEffort, ReasoningEffortPreset,
    UpgradeView,
};
pub use upgrade::{resolve_upgrade, resolve_upgrade_in, ResolvedUpgrade};
