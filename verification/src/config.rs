//! Surface configurations and the rule that selects one of them.

use vstd::prelude::*;

verus! {

/// A pixel format that the platform offers for a drawable surface.
#[derive(Clone, Copy, Debug, PartialEq, Eq, Structural)]
pub struct SurfaceConfig {
    /// Samples per pixel used for multisampling.
    pub samples: u8,
    /// Whether surfaces of this format can be composited with what lies
    /// behind them; `None` where the platform cannot tell.
    pub transparency: Option<bool>,
}

impl SurfaceConfig {
    /// A configuration counts as transparent only when the platform says so.
    pub open spec fn transparent(self) -> bool {
        self.transparency == Some(true)
    }

    /// Whether the configuration is known to support transparency.
    pub fn supports_transparency(&self) -> (known: bool)
        ensures
            known == self.transparent(),
    {
        match self.transparency {
            Some(flag) => flag,
            None => false,
        }
    }
}

/// What is asked of the platform when it lists the configurations it offers.
#[derive(Clone, Copy, Debug, PartialEq, Eq, Structural)]
pub struct ConfigTemplate {
    /// Bits of the alpha channel.
    pub alpha_size: u8,
    /// Whether only configurations that support transparency are wanted.
    pub transparency: bool,
}

/// Bits of alpha that every run asks for.
pub const ALPHA_SIZE: u8 = 8;

/// The template of a run. Transparency is demanded only of the backend
/// family that cannot add it later, which `demands_transparency` tells.
pub fn config_template(demands_transparency: bool) -> (template: ConfigTemplate)
    ensures
        template == (ConfigTemplate { alpha_size: ALPHA_SIZE, transparency: demands_transparency }),
{
    ConfigTemplate { alpha_size: ALPHA_SIZE, transparency: demands_transparency }
}

/// The step of the selection: `candidate` takes the place of `best` when it
/// brings transparency that `best` lacks, or when it has strictly more samples.
pub open spec fn displaces(best: SurfaceConfig, candidate: SurfaceConfig) -> bool {
    (candidate.transparent() && !best.transparent()) || candidate.samples > best.samples
}

/// Position of the configuration that a left-to-right pass over `configs`
/// ends up holding: the first candidate seeds the pass, and each later one
/// takes over exactly when it [`displaces`] the one held so far.
pub open spec fn selected_index(configs: Seq<SurfaceConfig>) -> int
    decreases configs.len(),
{
    if configs.len() <= 1 {
        0
    } else {
        let held = selected_index(configs.drop_last());
        if displaces(configs[held], configs.last()) {
            configs.len() - 1
        } else {
            held
        }
    }
}

/// The configuration at [`selected_index`].
pub open spec fn selected(configs: Seq<SurfaceConfig>) -> SurfaceConfig {
    configs[selected_index(configs)]
}

/// The selected position lies inside a non-empty sequence.
pub proof fn lemma_selected_index_in_range(configs: Seq<SurfaceConfig>)
    requires
        configs.len() > 0,
    ensures
        0 <= selected_index(configs) < configs.len(),
    decreases configs.len(),
{
    if configs.len() > 1 {
        lemma_selected_index_in_range(configs.drop_last());
    }
}

/// Selection is a function of the candidates and their order: two passes
/// over the same candidates in the same order select the same position.
pub proof fn lemma_selection_is_deterministic(first: Seq<SurfaceConfig>, second: Seq<SurfaceConfig>)
    requires
        first.len() == second.len(),
        forall|k: int| 0 <= k < first.len() ==> first[k] == second[k],
    ensures
        selected_index(first) == selected_index(second),
        selected(first) == selected(second),
{
    assert(first =~= second);
}

/// A transparent candidate beats one that is not transparent and has no more
/// samples, whichever of the two comes first.
pub proof fn lemma_transparency_dominates(transparent: SurfaceConfig, other: SurfaceConfig)
    requires
        transparent.transparent(),
        !other.transparent(),
        other.samples <= transparent.samples,
    ensures
        displaces(other, transparent),
        !displaces(transparent, other),
        selected(seq![other, transparent]) == transparent,
        selected(seq![transparent, other]) == transparent,
{
    reveal_with_fuel(selected_index, 3);
    assert(seq![other, transparent].drop_last() =~= seq![other]);
    assert(seq![transparent, other].drop_last() =~= seq![transparent]);
}

/// Among candidates of which one alone is transparent, and none has more
/// samples than it, that one is selected wherever it stands.
pub proof fn lemma_lone_transparent_candidate_wins(configs: Seq<SurfaceConfig>, at: int)
    requires
        0 <= at < configs.len(),
        configs[at].transparent(),
        forall|k: int|
            0 <= k < configs.len() && k != at ==> !(#[trigger] configs[k]).transparent()
                && configs[k].samples <= configs[at].samples,
    ensures
        selected_index(configs) == at,
    decreases configs.len(),
{
    if configs.len() > 1 {
        let front = configs.drop_last();
        if at == configs.len() - 1 {
            lemma_selected_index_in_range(front);
            let held = selected_index(front);
            assert(front[held] == configs[held]);
        } else {
            assert(front[at] == configs[at]);
            assert forall|k: int| 0 <= k < front.len() && k != at implies !(#[trigger] front[k]).transparent()
                && front[k].samples <= front[at].samples by {
                assert(front[k] == configs[k]);
            }
            lemma_lone_transparent_candidate_wins(front, at);
        }
    }
}

/// No candidate after the selected one displaces it, and the selected one,
/// unless it is the first, displaced what the pass held when it came.
pub proof fn lemma_selected_is_last_to_displace(configs: Seq<SurfaceConfig>)
    requires
        configs.len() > 0,
    ensures
        forall|later: int|
            selected_index(configs) < later < configs.len() ==> !displaces(
                selected(configs),
                #[trigger] configs[later],
            ),
        selected_index(configs) > 0 ==> displaces(
            selected(configs.take(selected_index(configs))),
            selected(configs),
        ),
    decreases configs.len(),
{
    if configs.len() > 1 {
        let front = configs.drop_last();
        lemma_selected_index_in_range(front);
        lemma_selected_is_last_to_displace(front);
        let held = selected_index(front);
        assert(front[held] == configs[held]);
        if displaces(configs[held], configs.last()) {
            assert(configs.take(configs.len() - 1) =~= front);
        } else {
            assert(front.take(held) =~= configs.take(held));
            assert forall|later: int| held < later < configs.len() implies !displaces(
                selected(configs),
                #[trigger] configs[later],
            ) by {
                if later < configs.len() - 1 {
                    assert(front[later] == configs[later]);
                }
            }
        }
    }
}

/// Decides whether `candidate` takes the place of `best`.
pub fn prefers(best: &SurfaceConfig, candidate: &SurfaceConfig) -> (takes_over: bool)
    ensures
        takes_over == displaces(*best, *candidate),
{
    let newly_transparent = candidate.supports_transparency() && !best.supports_transparency();
    newly_transparent || candidate.samples > best.samples
}

/// Picks one of the offered configurations and returns its position.
///
/// The candidates are visited in order; see [`selected_index`] for the rule.
/// The position rather than the value is returned so that a caller holding
/// the platform's own descriptors in the same order can take the matching one.
pub fn gl_config_picker(configs: &[SurfaceConfig]) -> (best: usize)
    requires
        configs@.len() > 0,
    ensures
        best == selected_index(configs@),
        best < configs@.len(),
        forall|later: int|
            best < later < configs@.len() ==> !displaces(configs@[best as int], #[trigger] configs@[later]),
{
    let mut best: usize = 0;
    let mut next: usize = 1;
    proof {
        assert(configs@.take(1).len() == 1);
    }
    while next < configs.len()
        invariant
            1 <= next <= configs@.len(),
            best < next,
            best == selected_index(configs@.take(next as int)),
            forall|later: int|
                best < later < next ==> !displaces(configs@[best as int], #[trigger] configs@[later]),
        decreases configs@.len() - next,
    {
        proof {
            let upto = configs@.take(next as int + 1);
            assert(upto.drop_last() =~= configs@.take(next as int));
            assert(upto.last() == configs@[next as int]);
            assert(upto[best as int] == configs@[best as int]);
        }
        if prefers(&configs[best], &configs[next]) {
            best = next;
        }
        next = next + 1;
    }
    proof {
        assert(configs@.take(next as int) =~= configs@);
    }
    best
}

} // verus!
