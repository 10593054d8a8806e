use vstd::prelude::*;
use crate::species::{Species, Stage};

verus! {

/// Which random duration an octopus's den timer is restarted with.
#[derive(Clone, Copy, PartialEq, Eq, Debug, Structural)]
pub enum DenTimer {
    /// The timer keeps running.
    Keep,
    /// The octopus has just come out: draw how long it stays out.
    Emerged,
    /// The octopus has just gone back into its den: draw how long it hides.
    Hidden,
}

/// One tick of a living octopus's hide-and-emerge cycle and ink reflex.
#[derive(Clone, Copy, PartialEq, Eq, Debug, Structural)]
pub struct OctopusStep {
    /// Whether the octopus is in its den after this tick.
    pub hidden: bool,
    /// How its den timer restarts.
    pub timer: DenTimer,
    /// Whether it squirts ink this tick.
    pub inks: bool,
}

/// When its den timer runs out, a hidden octopus comes out and an emerged one
/// goes back into its den. An octopus that is out after this, whose ink is
/// ready, squirts ink when a hunting piranha is near (`threatened`) or any fish
/// has come right up to it (`fish_approached`).
pub open spec fn spec_octopus_step(
    hidden: bool,
    timer_expired: bool,
    ink_ready: bool,
    threatened: bool,
    fish_approached: bool,
) -> OctopusStep {
    let (now_hidden, timer) = if timer_expired {
        if hidden { (false, DenTimer::Emerged) } else { (true, DenTimer::Hidden) }
    } else {
        (hidden, DenTimer::Keep)
    };
    OctopusStep {
        hidden: now_hidden,
        timer,
        inks: !now_hidden && ink_ready && (threatened || fish_approached),
    }
}

/// One tick of an octopus's den cycle and ink reflex (see `spec_octopus_step`).
pub fn octopus_step(
    hidden: bool,
    timer_expired: bool,
    ink_ready: bool,
    threatened: bool,
    fish_approached: bool,
) -> (r: OctopusStep)
    ensures
        r == spec_octopus_step(hidden, timer_expired, ink_ready, threatened, fish_approached),
{
    let (now_hidden, timer) = if timer_expired {
        if hidden { (false, DenTimer::Emerged) } else { (true, DenTimer::Hidden) }
    } else {
        (hidden, DenTimer::Keep)
    };
    OctopusStep {
        hidden: now_hidden,
        timer,
        inks: !now_hidden && ink_ready && (threatened || fish_approached),
    }
}

/// Whether a fish counts as having come right up to an octopus (before the
/// distance is measured): any living fish that is not an octopus and is not
/// hidden, neither in a den nor in plants or rocks.
pub fn startles_octopus(species: Species, dead: bool, hidden: bool, in_cover: bool) -> (r: bool)
    ensures
        r == (species != Species::Octopus && !dead && !hidden && !in_cover),
{
    species != Species::Octopus && !dead && !hidden && !in_cover
}

/// Whether the fish at `biter_index` may bite the emerged octopus at
/// `octopus_index` (before the distance is measured): any other living adult
/// that is not an octopus, piranhas included.
pub fn can_bite_octopus(
    biter_index: usize,
    octopus_index: usize,
    species: Species,
    dead: bool,
    stage: Stage,
) -> (r: bool)
    ensures
        r == (biter_index != octopus_index && species != Species::Octopus && !dead && stage
            == Stage::Adult),
{
    !(biter_index == octopus_index || species == Species::Octopus || dead || stage != Stage::Adult)
}

/// An octopus in its den never squirts ink, and its visibility changes exactly
/// when its den timer runs out.
pub proof fn law_hidden_octopus_never_inks(
    hidden: bool,
    timer_expired: bool,
    ink_ready: bool,
    threatened: bool,
    fish_approached: bool,
)
    ensures
        ({
            let step = spec_octopus_step(hidden, timer_expired, ink_ready, threatened, fish_approached);
            &&& step.inks ==> !step.hidden && ink_ready
            &&& (step.hidden != hidden) <==> timer_expired
            &&& (step.timer == DenTimer::Keep) <==> !timer_expired
        }),
{
}


/// An octopus that is out (or has just come out) and whose ink is ready
/// squirts ink exactly when threatened or approached; with its timer running it
/// keeps its place, in or out of the den.
pub proof fn law_emerged_octopus_inks_when_threatened(
    hidden: bool,
    timer_expired: bool,
    ink_ready: bool,
    threatened: bool,
    fish_approached: bool,
)
    ensures
        ({
            let step = spec_octopus_step(hidden, timer_expired, ink_ready, threatened, fish_approached);
            &&& !step.hidden && ink_ready ==> (step.inks <==> (threatened || fish_approached))
            &&& !timer_expired ==> step.hidden == hidden
            &&& timer_expired && hidden ==> !step.hidden && step.timer == DenTimer::Emerged
            &&& timer_expired && !hidden ==> step.hidden && step.timer == DenTimer::Hidden && !step.inks
        }),
{
}

} // verus!
