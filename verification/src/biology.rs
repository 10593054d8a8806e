use vstd::prelude::*;
use crate::species::Stage;

verus! {

/// Size stages an adult grows through when kept well fed (0..=3).
pub const GENERAL_MAX_GROWTH_STAGE: u8 = 3;
/// Largest size stage, reached only by fish whose growth cap varies upwards.
pub const GENERAL_MAX_GROWTH_STAGE_WITH_VARIANCE: u8 = GENERAL_MAX_GROWTH_STAGE + 1;

/// The size stage a fish stops growing at: the general maximum shifted by the
/// fish's own variance, kept within `1..=GENERAL_MAX_GROWTH_STAGE_WITH_VARIANCE`.
pub open spec fn spec_effective_growth_cap(variance: i8) -> u8 {
    let c = GENERAL_MAX_GROWTH_STAGE + variance;
    if c < 1 {
        1
    } else if c > GENERAL_MAX_GROWTH_STAGE_WITH_VARIANCE {
        GENERAL_MAX_GROWTH_STAGE_WITH_VARIANCE
    } else {
        c as u8
    }
}

/// Growth cap of a fish with the given variance.
pub fn effective_growth_cap(variance: i8) -> (r: u8)
    requires
        variance <= 124,
    ensures
        r == spec_effective_growth_cap(variance),
{
    let c: i8 = GENERAL_MAX_GROWTH_STAGE as i8 + variance;
    if c < 1 {
        1
    } else if c > GENERAL_MAX_GROWTH_STAGE_WITH_VARIANCE as i8 {
        GENERAL_MAX_GROWTH_STAGE_WITH_VARIANCE
    } else {
        c as u8
    }
}

/// Stage and size stage of a healthy fish after one tick of growth.
/// A fry that has stayed well fed long enough (`grow_time_reached`) becomes an
/// adult; an adult below its growth cap that has stayed well fed long enough
/// (`size_time_reached`) grows one size stage. Both checks are made in that
/// order within the same tick.
pub open spec fn spec_grow(
    stage: Stage,
    growth_stage: u8,
    variance: i8,
    grow_time_reached: bool,
    size_time_reached: bool,
) -> (Stage, u8) {
    let new_stage = if stage == Stage::Fry && grow_time_reached { Stage::Adult } else { stage };
    let new_growth = if new_stage == Stage::Adult && growth_stage < spec_effective_growth_cap(
        variance,
    ) && size_time_reached {
        (growth_stage + 1) as u8
    } else {
        growth_stage
    };
    (new_stage, new_growth)
}

/// One tick of growth of a healthy fish (see `spec_grow`).
pub fn grow(
    stage: Stage,
    growth_stage: u8,
    variance: i8,
    grow_time_reached: bool,
    size_time_reached: bool,
) -> (r: (Stage, u8))
    requires
        variance <= 124,
    ensures
        r == spec_grow(stage, growth_stage, variance, grow_time_reached, size_time_reached),
{
    let new_stage = if stage == Stage::Fry && grow_time_reached { Stage::Adult } else { stage };
    let cap = effective_growth_cap(variance);
    let new_growth = if new_stage == Stage::Adult && growth_stage < cap && size_time_reached {
        growth_stage + 1
    } else {
        growth_stage
    };
    (new_stage, new_growth)
}


/// What becomes of an egg whose hatching time has come.
#[derive(Clone, Copy, PartialEq, Eq, Debug, Structural)]
pub enum EggFate {
    /// It failed to hatch (bad water or purifier).
    Failed,
    /// A fry came out.
    Hatched,
    /// The tank was full, so the egg vanished.
    Discarded,
}

/// Number of `Hatched` entries in `fates`.
pub open spec fn spec_hatched_count(fates: Seq<EggFate>) -> nat
    decreases fates.len(),
{
    if fates.len() == 0 {
        0
    } else {
        spec_hatched_count(fates.drop_last()) + if fates.last() == EggFate::Hatched {
            1nat
        } else {
            0nat
        }
    }
}

/// Fates of the eggs due to hatch, in order: an egg that failed fails; otherwise it
/// hatches while the living fish plus those already hatched this tick are fewer than
/// `cap`, and is discarded once they are not.
pub open spec fn spec_egg_fates(alive: int, cap: int, failed: Seq<bool>) -> Seq<EggFate>
    decreases failed.len(),
{
    if failed.len() == 0 {
        Seq::empty()
    } else {
        let before = spec_egg_fates(alive, cap, failed.drop_last());
        let fate = if failed.last() {
            EggFate::Failed
        } else if alive + spec_hatched_count(before) < cap {
            EggFate::Hatched
        } else {
            EggFate::Discarded
        };
        before.push(fate)
    }
}

/// Decides the fate of each egg that is due to hatch. `failed[i]` tells whether
/// egg `i` failed its hatching roll; `alive` is the number of living fish and
/// `cap` the tank's capacity.
pub fn hatch_ready_eggs(alive: usize, cap: usize, failed: &Vec<bool>) -> (r: Vec<EggFate>)
    ensures
        r@ == spec_egg_fates(alive as int, cap as int, failed@),
{
    let mut r: Vec<EggFate> = Vec::new();
    let mut hatched: usize = 0;
    let mut i: usize = 0;
    while i < failed.len()
        invariant
            i <= failed.len(),
            r@ == spec_egg_fates(alive as int, cap as int, failed@.take(i as int)),
            hatched == spec_hatched_count(r@),
            hatched <= i,
        decreases failed.len() - i,
    {
        proof {
            assert(failed@.take(i + 1).drop_last() =~= failed@.take(i as int));
        }
        let fate = if failed[i] {
            EggFate::Failed
        } else if alive < cap && hatched < cap - alive {
            EggFate::Hatched
        } else {
            EggFate::Discarded
        };
        r.push(fate);
        proof {
            assert(r@.drop_last() =~= spec_egg_fates(alive as int, cap as int, failed@.take(i as int)));
        }
        if fate == EggFate::Hatched {
            hatched = hatched + 1;
        }
        i = i + 1;
    }
    assert(failed@.take(failed.len() as int) =~= failed@);
    r
}


/// Every fish stops growing somewhere between size stage 1 and
/// `GENERAL_MAX_GROWTH_STAGE_WITH_VARIANCE`.
pub proof fn law_growth_cap_range(variance: i8)
    ensures
        1 <= spec_effective_growth_cap(variance) <= GENERAL_MAX_GROWTH_STAGE_WITH_VARIANCE,
{
}

/// Growth never undoes itself and never passes the fish's cap: an adult stays
/// an adult, the size stage never shrinks and, once within the cap, stays within it.
pub proof fn law_growth_is_monotone_and_capped(
    stage: Stage,
    growth_stage: u8,
    variance: i8,
    grow_time_reached: bool,
    size_time_reached: bool,
)
    requires
        growth_stage <= spec_effective_growth_cap(variance),
    ensures
        ({
            let (s, g) = spec_grow(stage, growth_stage, variance, grow_time_reached, size_time_reached);
            &&& stage == Stage::Adult ==> s == Stage::Adult
            &&& growth_stage <= g <= spec_effective_growth_cap(variance)
            &&& g <= GENERAL_MAX_GROWTH_STAGE_WITH_VARIANCE
        }),
{
}

proof fn lemma_egg_fates_len(alive: int, cap: int, failed: Seq<bool>)
    ensures
        spec_egg_fates(alive, cap, failed).len() == failed.len(),
    decreases failed.len(),
{
    if failed.len() > 0 {
        lemma_egg_fates_len(alive, cap, failed.drop_last());
    }
}

/// Hatching never takes the living population beyond the tank's capacity: with
/// `alive <= cap`, the fry hatched in one tick number at most `cap - alive`.
/// Each egg gets exactly one fate, and an egg fails exactly when its roll failed.
pub proof fn law_hatching_respects_capacity(alive: int, cap: int, failed: Seq<bool>)
    requires
        0 <= alive <= cap,
    ensures
        alive + spec_hatched_count(spec_egg_fates(alive, cap, failed)) <= cap,
        spec_egg_fates(alive, cap, failed).len() == failed.len(),
        forall|i: int|
            0 <= i < failed.len() ==> (#[trigger] spec_egg_fates(alive, cap, failed)[i]
                == EggFate::Failed <==> failed[i]),
    decreases failed.len(),
{
    lemma_egg_fates_len(alive, cap, failed);
    if failed.len() > 0 {
        law_hatching_respects_capacity(alive, cap, failed.drop_last());
        let before = spec_egg_fates(alive, cap, failed.drop_last());
        let fates = spec_egg_fates(alive, cap, failed);
        assert(fates.drop_last() =~= before);
        assert forall|i: int| 0 <= i < failed.len() implies (#[trigger] fates[i] == EggFate::Failed
            <==> failed[i]) by {
            if i < failed.len() - 1 {
                assert(fates[i] == before[i]);
                assert(failed[i] == failed.drop_last()[i]);
            }
        }
    }
}


/// The growth cap is the general maximum of 3 shifted by the variance, cut to
/// 1..=4: variance -1, 0, +1 give caps 2, 3, 4.
pub proof fn law_growth_cap_follows_variance(variance: i8)
    ensures
        -2 <= variance <= 1 ==> spec_effective_growth_cap(variance) == 3 + variance,
        variance >= 1 ==> spec_effective_growth_cap(variance) == 4,
        variance <= -2 ==> spec_effective_growth_cap(variance) == 1,
{
}

/// A size stage is gained only when the size timer has run its course: without
/// it the size stage stays as it is. With it, an adult (or a fry growing up this
/// tick) below its cap gains exactly one stage. A fry becomes an adult exactly
/// when its grow time is reached, and an adult stays an adult.
pub proof fn law_growth_waits_for_its_timers(
    stage: Stage,
    growth_stage: u8,
    variance: i8,
    grow_time_reached: bool,
    size_time_reached: bool,
)
    ensures
        !size_time_reached ==> spec_grow(stage, growth_stage, variance, grow_time_reached, size_time_reached).1
            == growth_stage,
        size_time_reached && spec_grow(stage, growth_stage, variance, grow_time_reached, size_time_reached).0
            == Stage::Adult && growth_stage < spec_effective_growth_cap(variance) ==> spec_grow(
            stage,
            growth_stage,
            variance,
            grow_time_reached,
            size_time_reached,
        ).1 == growth_stage + 1,
        spec_grow(stage, growth_stage, variance, grow_time_reached, size_time_reached).0 == (
        if stage == Stage::Fry && !grow_time_reached { Stage::Fry } else { Stage::Adult }),
        spec_grow(stage, growth_stage, variance, grow_time_reached, size_time_reached).0 == Stage::Fry
            ==> spec_grow(stage, growth_stage, variance, grow_time_reached, size_time_reached).1
            == growth_stage,
{
}

/// Number of `false` flags in `failed` (eggs whose hatching roll succeeded).
pub open spec fn spec_not_failed_count(failed: Seq<bool>) -> nat
    decreases failed.len(),
{
    if failed.len() == 0 {
        0
    } else {
        spec_not_failed_count(failed.drop_last()) + if failed.last() { 0nat } else { 1nat }
    }
}

/// As many fry hatch as there are eggs whose roll succeeded, but no more than
/// the room left in the tank (`cap - alive`, none when the tank is already full).
pub proof fn law_hatched_count_is_room_limited(alive: int, cap: int, failed: Seq<bool>)
    ensures
        spec_hatched_count(spec_egg_fates(alive, cap, failed)) == if alive >= cap {
            0
        } else if spec_not_failed_count(failed) <= cap - alive {
            spec_not_failed_count(failed) as int
        } else {
            cap - alive
        },
    decreases failed.len(),
{
    lemma_egg_fates_len(alive, cap, failed);
    if failed.len() > 0 {
        law_hatched_count_is_room_limited(alive, cap, failed.drop_last());
        let before = spec_egg_fates(alive, cap, failed.drop_last());
        let fates = spec_egg_fates(alive, cap, failed);
        assert(fates.drop_last() =~= before);
    }
}

} // verus!
