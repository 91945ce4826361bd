use vstd::prelude::*;

use crate::catalog::{
    all_model_presets, catalog_well_formed, preset_catalog, remap_keys, remap_keys_unique,
    upgrade_resolves,
};
use crate::types::{effort_levels, presets_view, text, ModelPreset, PresetView, ReasoningEffort, UpgradeView};

verus! {

/// The preset and effort that a stored choice resolves to.
#[derive(Debug, Clone, PartialEq, Eq)]
pub struct ResolvedUpgrade {
    /// Id of the preset to use from now on.
    pub preset_id: String,
    /// Effort to use with that preset.
    pub effort: ReasoningEffort,
}

/// Whether some preset of `s` has the id `id`.
pub open spec fn has_preset(s: Seq<PresetView>, id: Seq<char>) -> bool {
    exists|i: int| 0 <= i < s.len() && (#[trigger] s[i]).id == id
}

/// The preset of `s` with the id `id`, where there is one.
pub open spec fn preset_with_id(s: Seq<PresetView>, id: Seq<char>) -> PresetView
    recommends
        has_preset(s, id),
{
    s[choose|i: int| 0 <= i < s.len() && (#[trigger] s[i]).id == id]
}

/// Whether a remapping has an entry for `previous`.
pub open spec fn has_entry(m: Seq<(ReasoningEffort, ReasoningEffort)>, previous: ReasoningEffort) -> bool {
    exists|k: int| 0 <= k < m.len() && (#[trigger] m[k]).0 == previous
}

/// The position of the entry for `previous` in a remapping.
pub open spec fn entry_index(m: Seq<(ReasoningEffort, ReasoningEffort)>, previous: ReasoningEffort) -> int
    recommends
        has_entry(m, previous),
{
    choose|k: int| 0 <= k < m.len() && (#[trigger] m[k]).0 == previous
}

/// The effort that a remapping gives for `previous`, where it has an entry.
pub open spec fn remapped(remap: Option<Seq<(ReasoningEffort, ReasoningEffort)>>, previous: ReasoningEffort) -> Option<
    ReasoningEffort,
> {
    match remap {
        Some(m) => if has_entry(m, previous) {
            Some(m[entry_index(m, previous)].1)
        } else {
            None
        },
        None => None,
    }
}

/// The effort to use on the successor `target` of an upgrade `u`: the
/// remapped effort if the remapping has one for `previous`; else `previous`
/// if the target supports it; else the target's default effort.
pub open spec fn successor_effort(u: UpgradeView, target: PresetView, previous: ReasoningEffort) -> ReasoningEffort {
    match remapped(u.remap, previous) {
        Some(e) => e,
        None => if target.efforts.contains(previous) {
            previous
        } else {
            target.default_effort
        },
    }
}

/// What a stored choice of preset `id` and effort `previous` resolves to in
/// the catalog `s`: nothing if no preset has that id; the same choice if
/// the preset is not superseded; else the successor and its effort.
pub open spec fn resolution(s: Seq<PresetView>, id: Seq<char>, previous: ReasoningEffort) -> Option<
    (Seq<char>, ReasoningEffort),
> {
    if !has_preset(s, id) {
        None
    } else {
        match preset_with_id(s, id).upgrade {
            None => Some((id, previous)),
            Some(u) => Some(
                (u.target, successor_effort(u, preset_with_id(s, u.target), previous)),
            ),
        }
    }
}

/// The view of a resolution result.
pub open spec fn resolved_view(r: Option<ResolvedUpgrade>) -> Option<(Seq<char>, ReasoningEffort)> {
    match r {
        Some(x) => Some((x.preset_id@, x.effort)),
        None => None,
    }
}

/// Index of the preset with id `id`, if any.
fn find_preset(presets: &Vec<ModelPreset>, id: &String) -> (r: Option<usize>)
    ensures
        match r {
            Some(i) => i < presets@.len() && presets@[i as int].id@ == id@,
            None => !has_preset(presets_view(presets@), id@),
        },
{
    let mut i: usize = 0;
    while i < presets.len()
        invariant
            i <= presets@.len(),
            forall|k: int| 0 <= k < i ==> presets@[k].id@ != id@,
        decreases presets.len() - i,
    {
        if presets[i].id == *id {
            return Some(i);
        }
        i = i + 1;
    }
    assert forall|k: int| 0 <= k < presets@.len() implies (#[trigger] presets_view(presets@)[k]).id != id@ by {
        assert(presets_view(presets@)[k] == presets@[k]@);
    }
    None
}

/// The effort that a remapping gives for `previous`, where it has an entry.
fn lookup_remap(
    mapping: &Option<Vec<(ReasoningEffort, ReasoningEffort)>>,
    previous: ReasoningEffort,
) -> (r: Option<ReasoningEffort>)
    requires
        mapping matches Some(m) ==> remap_keys(m@).no_duplicates(),
    ensures
        r == remapped(
            match mapping {
                Some(m) => Some(m@),
                None => None,
            },
            previous,
        ),
{
    match mapping {
        None => None,
        Some(m) => {
            let mut k: usize = 0;
            while k < m.len()
                invariant
                    k <= m@.len(),
                    *mapping == Some(*m),
                    remap_keys(m@).no_duplicates(),
                    forall|j: int| 0 <= j < k ==> m@[j].0 != previous,
                decreases m.len() - k,
            {
                if m[k].0 == previous {
                    proof {
                        assert(m@[k as int].0 == previous);
                        let ms = m@;
                        let c = entry_index(ms, previous);
                        let keys = remap_keys(ms);
                        assert(keys[c] == keys[k as int]);
                    }
                    return Some(m[k].1);
                }
                k = k + 1;
            }
            None
        },
    }
}

/// Whether `p` lists `effort` among its supported efforts.
fn supports(p: &ModelPreset, effort: ReasoningEffort) -> (r: bool)
    ensures
        r == p@.efforts.contains(effort),
{
    let options = &p.supported_reasoning_efforts;
    let ghost levels = p@.efforts;
    assert(levels =~= effort_levels(options@));
    let mut k: usize = 0;
    while k < options.len()
        invariant
            k <= options@.len(),
            levels == p@.efforts,
            levels == effort_levels(options@),
            forall|j: int| 0 <= j < k ==> levels[j] != effort,
        decreases options.len() - k,
    {
        assert(levels[k as int] == options@[k as int].effort);
        if options[k].effort == effort {
            return true;
        }
        k = k + 1;
    }
    false
}

/// Resolves a stored choice of preset `preset_id` and effort
/// `previous_effort` against the catalog `presets`. Returns `None` exactly
/// when no preset has that id. A preset that is not superseded resolves to
/// itself with the same effort; a superseded one to its successor, with the
/// remapped effort, else the same effort where the successor supports it,
/// else the successor's default effort.
pub fn resolve_upgrade_in(
    presets: &Vec<ModelPreset>,
    preset_id: &str,
    previous_effort: ReasoningEffort,
) -> (r: Option<ResolvedUpgrade>)
    requires
        catalog_well_formed(presets_view(presets@)),
    ensures
        r is None <==> !has_preset(presets_view(presets@), preset_id@),
        resolved_view(r) == resolution(presets_view(presets@), preset_id@, previous_effort),
{
    let ghost s = presets_view(presets@);
    let id = text(preset_id);
    match find_preset(presets, &id) {
        None => None,
        Some(i) => {
            proof {
                assert(s[i as int].id == id@);
                assert(preset_with_id(s, id@) == s[i as int]);
            }
            let p = &presets[i];
            match &p.upgrade {
                None => Some(ResolvedUpgrade { preset_id: id, effort: previous_effort }),
                Some(u) => {
                    proof {
                        assert(s[i as int].upgrade == Some(u@));
                        assert(upgrade_resolves(s, s[i as int]));
                    }
                    let target_id = u.id.clone();
                    match find_preset(presets, &target_id) {
                        None => None,
                        Some(t) => {
                            proof {
                                assert(s[t as int].id == u@.target);
                                assert(preset_with_id(s, u@.target) == s[t as int]);
                                assert(remap_keys_unique(s[i as int].upgrade->0));
                            }
                            let effort = match lookup_remap(&u.reasoning_effort_mapping, previous_effort) {
                                Some(e) => e,
                                None => if supports(&presets[t], previous_effort) {
                                    previous_effort
                                } else {
                                    presets[t].default_reasoning_effort
                                },
                            };
                            Some(ResolvedUpgrade { preset_id: target_id, effort })
                        },
                    }
                },
            }
        },
    }
}

/// Resolves a stored choice of preset `preset_id` and effort
/// `previous_effort` against the built-in catalog, as `resolve_upgrade_in`
/// does. Returns `None` exactly when no built-in preset has that id.
pub fn resolve_upgrade(preset_id: &str, previous_effort: ReasoningEffort) -> (r: Option<
    ResolvedUpgrade,
>)
    ensures
        r is None <==> !has_preset(preset_catalog(), preset_id@),
        resolved_view(r) == resolution(preset_catalog(), preset_id@, previous_effort),
{
    let presets = all_model_presets();
    resolve_upgrade_in(&presets, preset_id, previous_effort)
}

} // verus!
