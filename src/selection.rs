use vstd::prelude::*;

use crate::catalog::{all_model_presets, preset_catalog};
use crate::types::{presets_view, text, AuthMode, ModelPreset, PresetView};

verus! {

/// Whether the caller signed in under the gated mode.
pub open spec fn is_gated(auth_mode: Option<AuthMode>) -> bool {
    auth_mode == Some(AuthMode::ChatGPT)
}

/// The ids of the presets that are not offered under the gated mode.
pub open spec fn gated_denylist() -> Seq<Seq<char>> {
    seq!["o3"@, "o4-mini"@]
}

/// Whether a preset is offered for new selection: it is not superseded, and
/// under the gated mode its id is not on the denylist.
pub open spec fn is_offered(p: PresetView, gated: bool) -> bool {
    &&& p.upgrade is None
    &&& !(gated && gated_denylist().contains(p.id))
}

/// The presets of `s` that are offered, in their order in `s`.
pub open spec fn offered_presets(s: Seq<PresetView>, gated: bool) -> Seq<PresetView> {
    s.filter(|p: PresetView| is_offered(p, gated))
}

/// Whether a preset survives the gated mode's denylist.
pub open spec fn allowed_when_gated(p: PresetView) -> bool {
    !gated_denylist().contains(p.id)
}

/// The presets of `s` whose ids are not on the gated mode's denylist.
pub open spec fn without_denylisted(s: Seq<PresetView>) -> Seq<PresetView> {
    s.filter(|p: PresetView| allowed_when_gated(p))
}

proof fn lemma_offered_prepend(p: PresetView, rest: Seq<PresetView>, gated: bool)
    ensures
        offered_presets(seq![p] + rest, gated) == (if is_offered(p, gated) {
            seq![p]
        } else {
            Seq::empty()
        }) + offered_presets(rest, gated),
{
    let f = |q: PresetView| is_offered(q, gated);
    Seq::filter_distributes_over_add(seq![p], rest, f);
    reveal_with_fuel(Seq::filter, 2);
    assert(seq![p].drop_last() =~= Seq::<PresetView>::empty());
}

fn denylisted(id: &String) -> (r: bool)
    ensures
        r == gated_denylist().contains(id@),
{
    let is_o3 = *id == text("o3");
    let is_o4_mini = *id == text("o4-mini");
    proof {
        if gated_denylist().contains(id@) {
            let k = choose|k: int| 0 <= k < 2 && gated_denylist()[k] == id@;
            assert(k == 0 || k == 1);
        }
        if is_o3 {
            assert(gated_denylist()[0] == id@);
        }
        if is_o4_mini {
            assert(gated_denylist()[1] == id@);
        }
    }
    is_o3 || is_o4_mini
}

/// Keeps the presets of `presets` that are offered to a caller under
/// `auth_mode`, in their order.
pub fn select_offered(presets: Vec<ModelPreset>, auth_mode: Option<AuthMode>) -> (r: Vec<
    ModelPreset,
>)
    ensures
        presets_view(r@) == offered_presets(presets_view(presets@), is_gated(auth_mode)),
{
    let gated = matches!(auth_mode, Some(AuthMode::ChatGPT));
    let ghost all = presets_view(presets@);
    let mut rest = presets;
    let mut out: Vec<ModelPreset> = Vec::new();
    while rest.len() > 0
        invariant
            gated == is_gated(auth_mode),
            // the selection so far, as taken in order from `all`
            offered_presets(all, gated) == presets_view(out@) + offered_presets(
                presets_view(rest@),
                gated,
            ),
        decreases rest.len(),
    {
        let ghost before = rest@;
        let p = rest.remove(0);
        proof {
            assert(presets_view(before) =~= seq![p@] + presets_view(rest@));
            lemma_offered_prepend(p@, presets_view(rest@), gated);
        }
        let keep = p.upgrade.is_none() && !(gated && denylisted(&p.id));
        if keep {
            out.push(p);
        }
        proof {
            assert(keep == is_offered(p@, gated));
        }
    }
    out
}

/// The presets offered for new selection to a caller under `auth_mode`: the
/// built-in catalog without superseded presets, and under the gated mode
/// also without the denylisted ids, in catalog order.
pub fn builtin_model_presets(auth_mode: Option<AuthMode>) -> (r: Vec<ModelPreset>)
    ensures
        presets_view(r@) == offered_presets(preset_catalog(), is_gated(auth_mode)),
{
    select_offered(all_model_presets(), auth_mode)
}

/// No offered preset is superseded, whatever the presets and the mode.
pub proof fn lemma_offered_never_superseded(s: Seq<PresetView>, gated: bool)
    ensures
        forall|i: int|
            0 <= i < offered_presets(s, gated).len() ==> (#[trigger] offered_presets(
                s,
                gated,
            )[i]).upgrade is None,
{
    broadcast use Seq::lemma_filter_pred;

}

/// The gated mode only removes presets: what it offers is what any other
/// mode offers without the denylisted ids, in the same order, so every
/// preset offered under the gated mode is offered under the others too.
pub proof fn lemma_gated_only_removes(s: Seq<PresetView>)
    ensures
        offered_presets(s, true) == without_denylisted(offered_presets(s, false)),
        forall|p: PresetView|
            #[trigger] offered_presets(s, true).contains(p) ==> offered_presets(
                s,
                false,
            ).contains(p),
    decreases s.len(),
{
    if s.len() > 0 {
        let init = s.drop_last();
        let last = s.last();
        lemma_gated_only_removes(init);
        reveal(Seq::filter);
        let open_init = offered_presets(init, false);
        if is_offered(last, false) {
            assert(offered_presets(s, false).drop_last() =~= open_init);
        }
    } else {
        reveal(Seq::filter);
    }
    let gated = offered_presets(s, true);
    let open = offered_presets(s, false);
    assert forall|p: PresetView| #[trigger] gated.contains(p) implies open.contains(p) by {
        Seq::lemma_filter_contains_rev(open, |q: PresetView| allowed_when_gated(q), p);
    }
}

/// Listing is a pure function of the caller's mode: any two results of
/// `all_model_presets`, and any two results of `builtin_model_presets` for
/// one mode, are equal, entry for entry and in the same order.
pub proof fn lemma_listings_repeat(
    first_all: Seq<ModelPreset>,
    second_all: Seq<ModelPreset>,
    first_offered: Seq<ModelPreset>,
    second_offered: Seq<ModelPreset>,
    auth_mode: Option<AuthMode>,
)
    requires
        presets_view(first_all) == preset_catalog(),
        presets_view(second_all) == preset_catalog(),
        presets_view(first_offered) == offered_presets(preset_catalog(), is_gated(auth_mode)),
        presets_view(second_offered) == offered_presets(preset_catalog(), is_gated(auth_mode)),
    ensures
        presets_view(first_all) == presets_view(second_all),
        presets_view(first_offered) == presets_view(second_offered),
{
}

} // verus!
