use vstd::prelude::*;
use crate::species::Species;

verus! {

/// Height of the sand layer, in logical pixels, for a tank `pix_h` pixels tall.
pub open spec fn spec_sand_height(pix_h: int) -> int {
    if pix_h / 12 >= 2 { pix_h / 12 } else { 2 }
}

/// The most fish a tank of `pix_w` x `pix_h` logical pixels holds:
/// one per 1200 square pixels, never fewer than 5 and never more than 100.
pub open spec fn spec_capacity(pix_w: int, pix_h: int) -> int {
    let raw = (pix_w * pix_h) / 1200;
    if raw < 5 { 5 } else if raw > 100 { 100 } else { raw }
}

/// Height of the sand layer (at least two pixels).
pub fn sand_height(pix_h: usize) -> (r: usize)
    ensures
        r == spec_sand_height(pix_h as int),
{
    let h = pix_h / 12;
    if h >= 2 { h } else { 2 }
}

/// Population limit for a tank of the given size.
pub fn capacity(pix_w: usize, pix_h: usize) -> (r: usize)
    requires
        pix_w * pix_h <= usize::MAX,
    ensures
        r == spec_capacity(pix_w as int, pix_h as int),
{
    let raw = (pix_w * pix_h) / 1200;
    if raw < 5 { 5 } else if raw > 100 { 100 } else { raw }
}


/// Fish added by hand (`+`, `S`, `O`, `W`) stop at this many; beyond it the
/// tank only grows by hatching.
pub const ADD_FISH_MANUAL_CAP: usize = 25;
/// Crabs placed when crabs are shown.
pub const CRAB_COUNT: usize = 3;
/// Shrimp placed on the seabed.
pub const SHRIMP_COUNT: usize = 2;
/// Seahorses placed near the plants.
pub const SEAHORSE_COUNT: usize = 2;
/// Plants placed on the seabed.
pub const PLANT_COUNT: usize = 5;
/// Rocks placed on the seabed.
pub const ROCK_COUNT: usize = 3;
/// Octopus dens placed on the seabed.
pub const DEN_COUNT: usize = 1;
/// Automatic restocking adds a fish once this many living common fish or fewer remain.
pub const AUTO_REPLENISH_THRESHOLD: usize = 3;
/// Automatic feeding drops food only while fewer pellets than this are sinking.
pub const AUTO_FEED_FLOAT_THRESHOLD: usize = 3;
/// Automatic medication drops medicine only while fewer pills than this are sinking.
pub const AUTO_MEDICATE_FLOAT_THRESHOLD: usize = 3;
/// Most pellets one automatic feeding drops.
pub const AUTO_FEED_COUNT_CAP: usize = 30;
/// Most pills one automatic medication drops.
pub const AUTO_MEDICATE_COUNT_CAP: usize = 20;

/// Why adding a fish by hand was refused, or that it may go ahead.
#[derive(Clone, Copy, PartialEq, Eq, Debug, Structural)]
pub enum AddFishGate {
    /// `ADD_FISH_MANUAL_CAP` fish (living or dead) are already in the tank.
    ManualCapReached,
    /// The living fish already fill the tank's capacity.
    TankFull,
    /// The fish may be added.
    Allowed,
}

/// Adding a fish by hand is refused while the tank holds `ADD_FISH_MANUAL_CAP`
/// fish or more, else while the living fish reach the capacity.
pub open spec fn spec_add_fish_gate(fish_len: int, living: int, pix_w: int, pix_h: int) -> AddFishGate {
    if fish_len >= ADD_FISH_MANUAL_CAP {
        AddFishGate::ManualCapReached
    } else if living >= spec_capacity(pix_w, pix_h) {
        AddFishGate::TankFull
    } else {
        AddFishGate::Allowed
    }
}

/// Whether a fish may be added by hand to a tank holding `fish_len` fish, of
/// which `living` are alive.
pub fn add_fish_gate(fish_len: usize, living: usize, pix_w: usize, pix_h: usize) -> (r: AddFishGate)
    requires
        pix_w * pix_h <= usize::MAX,
    ensures
        r == spec_add_fish_gate(fish_len as int, living as int, pix_w as int, pix_h as int),
{
    if fish_len >= ADD_FISH_MANUAL_CAP {
        AddFishGate::ManualCapReached
    } else if living >= capacity(pix_w, pix_h) {
        AddFishGate::TankFull
    } else {
        AddFishGate::Allowed
    }
}

/// Number of breeding pairs placed in a fresh tank: one per species in the
/// pool, but no more than half the capacity (and at least one).
pub open spec fn spec_initial_pair_count(pool_len: int, cap: int) -> int {
    let max_pairs = if cap / 2 >= 1 { cap / 2 } else { 1 };
    if pool_len <= max_pairs { pool_len } else { max_pairs }
}

/// Species of the fish placed in a fresh tank, in placement order: a tank too
/// small for a pair gets one fish of the pool's first species; otherwise each
/// pair is two adults of one species, the pairs taking the pool's species in
/// turn.
pub open spec fn spec_initial_population(pool: Seq<Species>, pix_w: int, pix_h: int) -> Seq<Species> {
    let cap = spec_capacity(pix_w, pix_h);
    if cap < 2 {
        seq![pool[0]]
    } else {
        let n = spec_initial_pair_count(pool.len() as int, cap);
        Seq::new((2 * n) as nat, |k: int| pool[(k / 2) % (pool.len() as int)])
    }
}

/// Species of the fish to place in a fresh tank, from the spawn pool `pool`.
pub fn initial_population(pool: &Vec<Species>, pix_w: usize, pix_h: usize) -> (r: Vec<Species>)
    requires
        pool.len() > 0,
        pix_w * pix_h <= usize::MAX,
    ensures
        r@ == spec_initial_population(pool@, pix_w as int, pix_h as int),
{
    let cap = capacity(pix_w, pix_h);
    let mut r: Vec<Species> = Vec::new();
    if cap < 2 {
        r.push(pool[0]);
        assert(r@ =~= seq![pool@[0]]);
        return r;
    }
    let max_pairs = if cap / 2 >= 1 { cap / 2 } else { 1 };
    let num_pairs = if pool.len() <= max_pairs { pool.len() } else { max_pairs };
    let ghost target = spec_initial_population(pool@, pix_w as int, pix_h as int);
    let mut i: usize = 0;
    while i < num_pairs
        invariant
            i <= num_pairs,
            num_pairs <= pool.len(),
            num_pairs == spec_initial_pair_count(pool.len() as int, cap as int),
            cap == spec_capacity(pix_w as int, pix_h as int),
            cap >= 2,
            target == spec_initial_population(pool@, pix_w as int, pix_h as int),
            r@ =~= target.take(2 * i as int),
            target.len() == 2 * num_pairs,
        decreases num_pairs - i,
    {
        let sp = pool[i % pool.len()];
        r.push(sp);
        r.push(sp);
        proof {
            assert(((2 * i) as int) / 2 == i as int);
            assert(((2 * i + 1) as int) / 2 == i as int);
            assert(target[2 * i as int] == sp);
            assert(target[2 * i + 1] == sp);
            assert(r@ =~= target.take(2 * (i + 1) as int));
        }
        i = i + 1;
    }
    assert(target.take(2 * num_pairs as int) =~= target);
    r
}

/// How many pellets (or pills) automatic care drops: as many as there are fish
/// in need, capped at `count_cap`, but only when some fish is in need and fewer
/// than `float_threshold` items are still sinking. `None` means nothing is dropped.
pub open spec fn spec_auto_drop_count(needy: int, floating: int, float_threshold: int, count_cap: int) -> Option<int> {
    if needy > 0 && floating < float_threshold {
        Some(if needy <= count_cap { needy } else { count_cap })
    } else {
        None
    }
}

/// Number of items automatic care drops, given `needy` fish in need (hungry or
/// sick) and `floating` items still sinking.
pub fn auto_drop_count(needy: usize, floating: usize, float_threshold: usize, count_cap: usize) -> (r: Option<usize>)
    ensures
        r matches Some(n) ==> spec_auto_drop_count(needy as int, floating as int, float_threshold as int, count_cap as int) == Some(n as int),
        r is None <==> spec_auto_drop_count(needy as int, floating as int, float_threshold as int, count_cap as int) is None,
{
    if needy > 0 && floating < float_threshold {
        Some(if needy <= count_cap { needy } else { count_cap })
    } else {
        None
    }
}

/// Whether automatic restocking adds a fish when `common_living` living common fish remain.
pub fn needs_replenish(common_living: usize) -> (r: bool)
    ensures
        r == (common_living <= AUTO_REPLENISH_THRESHOLD),
{
    common_living <= AUTO_REPLENISH_THRESHOLD
}

/// How many decorative creatures and objects of each kind to add.
#[derive(Clone, Copy, PartialEq, Eq, Debug, Structural)]
pub struct DecorRefill {
    pub crabs: usize,
    pub shrimp: usize,
    pub plants: usize,
    pub seahorses: usize,
    pub rocks: usize,
    pub dens: usize,
}

/// Each kind of decoration that is missing entirely gets its initial count;
/// crabs only while crabs are shown. Kinds already present get nothing.
pub open spec fn spec_decor_refill(
    crab_toggle: bool,
    crabs: int,
    shrimp: int,
    plants: int,
    seahorses: int,
    rocks: int,
    dens: int,
) -> DecorRefill {
    DecorRefill {
        crabs: if crab_toggle && crabs == 0 { CRAB_COUNT } else { 0 },
        shrimp: if shrimp == 0 { SHRIMP_COUNT } else { 0 },
        plants: if plants == 0 { PLANT_COUNT } else { 0 },
        seahorses: if seahorses == 0 { SEAHORSE_COUNT } else { 0 },
        rocks: if rocks == 0 { ROCK_COUNT } else { 0 },
        dens: if dens == 0 { DEN_COUNT } else { 0 },
    }
}

/// Decorations to add to a tank holding the given numbers of each kind.
pub fn decor_refill(
    crab_toggle: bool,
    crabs: usize,
    shrimp: usize,
    plants: usize,
    seahorses: usize,
    rocks: usize,
    dens: usize,
) -> (r: DecorRefill)
    ensures
        r == spec_decor_refill(
            crab_toggle,
            crabs as int,
            shrimp as int,
            plants as int,
            seahorses as int,
            rocks as int,
            dens as int,
        ),
{
    DecorRefill {
        crabs: if crab_toggle && crabs == 0 { CRAB_COUNT } else { 0 },
        shrimp: if shrimp == 0 { SHRIMP_COUNT } else { 0 },
        plants: if plants == 0 { PLANT_COUNT } else { 0 },
        seahorses: if seahorses == 0 { SEAHORSE_COUNT } else { 0 },
        rocks: if rocks == 0 { ROCK_COUNT } else { 0 },
        dens: if dens == 0 { DEN_COUNT } else { 0 },
    }
}

/// Repositioning the dens rebuilds exactly one den per living octopus; with no
/// den and no octopus there is nothing to reposition (`None`).
pub fn den_reposition_count(dens: usize, living_octopuses: usize) -> (r: Option<usize>)
    ensures
        r is None <==> (dens == 0 && living_octopuses == 0),
        r matches Some(n) ==> n == living_octopuses,
{
    if dens == 0 && living_octopuses == 0 {
        None
    } else {
        Some(living_octopuses)
    }
}

/// What removing one fish did.
#[derive(Clone, Copy, PartialEq, Eq, Debug, Structural)]
pub enum Removal {
    /// The newest fish was removed; `clear_dens` tells that no octopus is left,
    /// so the dens go too.
    Fish { clear_dens: bool },
    /// There was no fish, so a crab is removed instead.
    Crab,
}

/// Removes the newest fish from the tank's species list `fish` (or, with no
/// fish left, reports that a crab goes instead).
pub fn remove_fish(fish: &mut Vec<Species>) -> (r: Removal)
    ensures
        old(fish)@.len() == 0 ==> r == Removal::Crab && final(fish)@ == old(fish)@,
        old(fish)@.len() > 0 ==> final(fish)@ == old(fish)@.drop_last() && r == (Removal::Fish {
            clear_dens: !final(fish)@.contains(Species::Octopus),
        }),
{
    if fish.len() == 0 {
        return Removal::Crab;
    }
    fish.pop();
    let mut any_octopus = false;
    let mut i: usize = 0;
    while i < fish.len()
        invariant
            i <= fish.len(),
            any_octopus <==> exists|j: int| 0 <= j < i && fish@[j] == Species::Octopus,
        decreases fish.len() - i,
    {
        if fish[i] == Species::Octopus {
            any_octopus = true;
        }
        i = i + 1;
    }
    Removal::Fish { clear_dens: !any_octopus }
}


/// Every tank holds at least 5 and at most 100 fish.
pub proof fn law_capacity_bounds(pix_w: int, pix_h: int)
    ensures
        5 <= spec_capacity(pix_w, pix_h) <= 100,
{
}

/// A tank at least as wide and at least as tall as another holds at least as many fish.
pub proof fn law_capacity_monotone(w1: int, h1: int, w2: int, h2: int)
    requires
        0 <= w1 <= w2,
        0 <= h1 <= h2,
    ensures
        spec_capacity(w1, h1) <= spec_capacity(w2, h2),
{
    assert(w1 * h1 <= w2 * h2) by (nonlinear_arith)
        requires
            0 <= w1 <= w2,
            0 <= h1 <= h2,
    ;
    assert((w1 * h1) / 1200 <= (w2 * h2) / 1200) by (nonlinear_arith)
        requires
            0 <= w1 * h1 <= w2 * h2,
    ;
}

/// The sand layer is always at least two pixels high.
pub proof fn law_sand_height_at_least_two(pix_h: int)
    ensures
        spec_sand_height(pix_h) >= 2,
{
}

/// A fresh tank never holds more fish than its capacity; every fish is of a
/// species of the pool, and the fish come in pairs of one species.
pub proof fn law_initial_population_fits(pool: Seq<Species>, pix_w: int, pix_h: int)
    requires
        pool.len() > 0,
    ensures
        spec_initial_population(pool, pix_w, pix_h).len() <= spec_capacity(pix_w, pix_h),
        forall|k: int|
            0 <= k < spec_initial_population(pool, pix_w, pix_h).len() ==> pool.contains(
                #[trigger] spec_initial_population(pool, pix_w, pix_h)[k],
            ),
        spec_initial_population(pool, pix_w, pix_h).len() % 2 == 0,
        forall|k: int|
            0 <= k && 2 * k + 1 < spec_initial_population(pool, pix_w, pix_h).len() ==> #[trigger]
            spec_initial_population(pool, pix_w, pix_h)[2 * k] == spec_initial_population(
                pool,
                pix_w,
                pix_h,
            )[2 * k + 1],
{
    let pop = spec_initial_population(pool, pix_w, pix_h);
    let cap = spec_capacity(pix_w, pix_h);
    assert(cap >= 5);
    assert forall|k: int| 0 <= k < pop.len() implies pool.contains(#[trigger] pop[k]) by {
        let m = (k / 2) % (pool.len() as int);
        assert(0 <= m < pool.len());
        assert(pop[k] == pool[m]);
    }
    assert forall|k: int| 0 <= k && 2 * k + 1 < pop.len() implies #[trigger] pop[2 * k] == pop[2 * k + 1] by {
        assert((2 * k) / 2 == k);
        assert((2 * k + 1) / 2 == k);
    }
}

/// A fish added by hand never takes the tank beyond `ADD_FISH_MANUAL_CAP` fish
/// or its living fish beyond the capacity.
pub proof fn law_added_fish_stays_within_limits(fish_len: int, living: int, pix_w: int, pix_h: int)
    requires
        spec_add_fish_gate(fish_len, living, pix_w, pix_h) == AddFishGate::Allowed,
    ensures
        fish_len + 1 <= ADD_FISH_MANUAL_CAP,
        living + 1 <= spec_capacity(pix_w, pix_h),
{
}

/// Automatic care drops at least one and at most `count_cap` items, and never
/// more than there are fish in need.
pub proof fn law_auto_drop_bounded(needy: int, floating: int, float_threshold: int, count_cap: int)
    requires
        count_cap >= 1,
    ensures
        spec_auto_drop_count(needy, floating, float_threshold, count_cap) matches Some(n) ==> 1 <= n
            <= count_cap && n <= needy,
{
}


/// Automatic care drops something exactly when some fish is in need and fewer
/// than `float_threshold` items are still sinking; it then drops one item per
/// fish in need, up to `count_cap`, however many items are sinking.
pub proof fn law_auto_drop_one_per_fish_in_need(needy: int, floating: int, float_threshold: int, count_cap: int)
    ensures
        (spec_auto_drop_count(needy, floating, float_threshold, count_cap) is Some) <==> (needy > 0
            && floating < float_threshold),
        needy > 0 && floating < float_threshold && needy <= count_cap ==> spec_auto_drop_count(
            needy,
            floating,
            float_threshold,
            count_cap,
        ) == Some(needy),
        needy > 0 && floating < float_threshold && needy > count_cap ==> spec_auto_drop_count(
            needy,
            floating,
            float_threshold,
            count_cap,
        ) == Some(count_cap),
        0 <= floating < float_threshold ==> spec_auto_drop_count(needy, 0, float_threshold, count_cap)
            == spec_auto_drop_count(needy, floating, float_threshold, count_cap),
{
}

/// Adding a fish by hand is refused for the manual cap exactly when the tank
/// holds `ADD_FISH_MANUAL_CAP` fish or more, refused as full exactly when below
/// that cap the living fish fill the capacity, and allowed otherwise.
pub proof fn law_add_fish_gate_cases(fish_len: int, living: int, pix_w: int, pix_h: int)
    ensures
        (spec_add_fish_gate(fish_len, living, pix_w, pix_h) == AddFishGate::ManualCapReached) <==> fish_len
            >= ADD_FISH_MANUAL_CAP,
        (spec_add_fish_gate(fish_len, living, pix_w, pix_h) == AddFishGate::TankFull) <==> (fish_len
            < ADD_FISH_MANUAL_CAP && living >= spec_capacity(pix_w, pix_h)),
        (spec_add_fish_gate(fish_len, living, pix_w, pix_h) == AddFishGate::Allowed) <==> (fish_len
            < ADD_FISH_MANUAL_CAP && living < spec_capacity(pix_w, pix_h)),
{
}

/// Between its bounds the capacity is one fish per full 1200 square pixels.
pub proof fn law_capacity_per_area(pix_w: int, pix_h: int)
    requires
        pix_w >= 0,
        pix_h >= 0,
    ensures
        6000 <= pix_w * pix_h < 121200 ==> 1200 * spec_capacity(pix_w, pix_h) <= pix_w * pix_h < 1200 * (
        spec_capacity(pix_w, pix_h) + 1),
        pix_w * pix_h < 6000 ==> spec_capacity(pix_w, pix_h) == 5,
        pix_w * pix_h >= 121200 ==> spec_capacity(pix_w, pix_h) == 100,
{
}

/// A fresh tank (of any size, its capacity being at least 5) gets one pair per
/// pool species up to half its capacity: the first `n` species of the pool, in
/// order, two fish each.
pub proof fn law_initial_population_is_pairs_of_the_pool(pool: Seq<Species>, pix_w: int, pix_h: int)
    requires
        pool.len() > 0,
    ensures
        ({
            let cap = spec_capacity(pix_w, pix_h);
            let n = if pool.len() <= cap / 2 { pool.len() as int } else { cap / 2 };
            &&& spec_initial_population(pool, pix_w, pix_h).len() == 2 * n
            &&& forall|k: int|
                0 <= k < n ==> #[trigger] spec_initial_population(pool, pix_w, pix_h)[2 * k] == pool[k]
                    && spec_initial_population(pool, pix_w, pix_h)[2 * k + 1] == pool[k]
        }),
{
    let pop = spec_initial_population(pool, pix_w, pix_h);
    assert forall|k: int| 0 <= k < pop.len() / 2 implies #[trigger] pop[2 * k] == pool[k] && pop[2 * k + 1] == pool[k] by {
        assert((2 * k) / 2 == k);
        assert((2 * k + 1) / 2 == k);
        assert(k < pool.len());
        vstd::arithmetic::div_mod::lemma_small_mod(k as nat, pool.len());
    }
}


/// Each kind of decoration gets its initial count exactly when none is present
/// (crabs only while shown), and nothing otherwise.
pub proof fn law_decor_refill_only_missing_kinds(
    crab_toggle: bool,
    crabs: int,
    shrimp: int,
    plants: int,
    seahorses: int,
    rocks: int,
    dens: int,
)
    ensures
        ({
            let r = spec_decor_refill(crab_toggle, crabs, shrimp, plants, seahorses, rocks, dens);
            &&& r.crabs == (if crab_toggle && crabs == 0 { 3usize } else { 0 })
            &&& r.shrimp == (if shrimp == 0 { 2usize } else { 0 })
            &&& r.plants == (if plants == 0 { 5usize } else { 0 })
            &&& r.seahorses == (if seahorses == 0 { 2usize } else { 0 })
            &&& r.rocks == (if rocks == 0 { 3usize } else { 0 })
            &&& r.dens == (if dens == 0 { 1usize } else { 0 })
        }),
{
}


/// The sand is a twelfth of the tank's height (rounded down), but never less
/// than two pixels.
pub proof fn law_sand_height_is_a_twelfth(pix_h: int)
    requires
        pix_h >= 0,
    ensures
        pix_h >= 24 ==> 12 * spec_sand_height(pix_h) <= pix_h < 12 * (spec_sand_height(pix_h) + 1),
        pix_h < 24 ==> spec_sand_height(pix_h) == 2,
{
}

} // verus!
