use vstd::prelude::*;
use crate::species::{Species, spec_common_species, common_species, spec_is_predator};
use crate::tank::CRAB_COUNT;

verus! {

/// Number of feeding amount levels (0..=4).
pub const FEED_AMOUNT_LEVELS: usize = 5;
/// Feeding amount level of a fresh tank.
pub const FEED_AMOUNT_DEFAULT: usize = 1;

/// Inclusive range of the number of pellets dropped at each feeding level;
/// unknown levels drop as much as the default level.
pub open spec fn spec_feed_amount_count_range(level: int) -> (usize, usize) {
    if level == 0 {
        (5, 10)
    } else if level == 1 {
        (15, 25)
    } else if level == 2 {
        (40, 60)
    } else if level == 3 {
        (100, 140)
    } else if level == 4 {
        (250, 350)
    } else {
        (15, 25)
    }
}

/// Inclusive range of pellets dropped at a feeding level.
pub fn feed_amount_count_range(level: usize) -> (r: (usize, usize))
    ensures
        r == spec_feed_amount_count_range(level as int),
{
    match level {
        0 => (5, 10),
        1 => (15, 25),
        2 => (40, 60),
        3 => (100, 140),
        4 => (250, 350),
        _ => (15, 25),
    }
}

/// The common species enabled by `toggle`, among the first `n`, in toggle order.
pub open spec fn spec_enabled_common(toggle: Seq<bool>, n: nat) -> Seq<Species>
    decreases n,
{
    if n == 0 {
        Seq::empty()
    } else {
        let before = spec_enabled_common(toggle, (n - 1) as nat);
        if toggle[n - 1] {
            before.push(spec_common_species()[n - 1])
        } else {
            before
        }
    }
}

/// Species new fish are drawn from: the enabled common species in toggle
/// order, or all five when none is enabled.
pub open spec fn spec_spawn_pool(toggle: Seq<bool>) -> Seq<Species> {
    let enabled = spec_enabled_common(toggle, 5);
    if enabled.len() == 0 { spec_common_species() } else { enabled }
}

/// The spawn toggles after flipping the `idx`-th one; an index out of range
/// leaves them as they are.
pub open spec fn spec_toggled(toggle: Seq<bool>, idx: int) -> Seq<bool> {
    if 0 <= idx < toggle.len() { toggle.update(idx, !toggle[idx]) } else { toggle }
}

/// What toggling the crabs asks of the tank.
#[derive(Clone, Copy, PartialEq, Eq, Debug, Structural)]
pub enum CrabChange {
    /// Crabs were hidden: remove them all.
    RemoveAll,
    /// Crabs are shown again and none are left: place this many.
    Place(usize),
    /// Crabs are shown and some are already there: keep them.
    Keep,
}

/// Settings of a tank that the player changes from the settings screen.
pub struct TankSettings {
    /// Whether each common species (in toggle order) may be drawn for new fish.
    pub species_toggle: [bool; 5],
    /// Feeding amount level.
    pub feed_amount: usize,
    /// Whether crabs are shown.
    pub crab_toggle: bool,
}

impl TankSettings {
    /// Settings of a fresh tank: every species enabled, the default feeding
    /// level, crabs shown.
    pub fn new() -> (r: TankSettings)
        ensures
            forall|i: int| 0 <= i < 5 ==> r.species_toggle@[i],
            r.feed_amount == FEED_AMOUNT_DEFAULT,
            r.crab_toggle,
    {
        TankSettings { species_toggle: [true; 5], feed_amount: FEED_AMOUNT_DEFAULT, crab_toggle: true }
    }

    /// Flips the spawn toggle of the `idx`-th common species; an index out of
    /// range changes nothing.
    pub fn toggle_common_species(&mut self, idx: usize)
        ensures
            final(self).species_toggle@ == spec_toggled(old(self).species_toggle@, idx as int),
            final(self).feed_amount == old(self).feed_amount,
            final(self).crab_toggle == old(self).crab_toggle,
    {
        if idx < 5 {
            let v = self.species_toggle[idx];
            self.species_toggle[idx] = !v;
        }
    }

    /// Moves the feeding amount to the next level, wrapping from the largest to
    /// the smallest.
    pub fn cycle_feed_amount(&mut self)
        requires
            old(self).feed_amount < usize::MAX,
        ensures
            final(self).feed_amount == (old(self).feed_amount + 1) % (FEED_AMOUNT_LEVELS as int),
            final(self).species_toggle@ == old(self).species_toggle@,
            final(self).crab_toggle == old(self).crab_toggle,
    {
        self.feed_amount = (self.feed_amount + 1) % FEED_AMOUNT_LEVELS;
    }

    /// Shows or hides the crabs. `crabs_present` is the number of crabs in the
    /// tank; the result tells what to do with them.
    pub fn toggle_crabs(&mut self, crabs_present: usize) -> (r: CrabChange)
        ensures
            final(self).crab_toggle == !old(self).crab_toggle,
            final(self).species_toggle@ == old(self).species_toggle@,
            final(self).feed_amount == old(self).feed_amount,
            !final(self).crab_toggle ==> r == CrabChange::RemoveAll,
            final(self).crab_toggle && crabs_present == 0 ==> r == CrabChange::Place(CRAB_COUNT),
            final(self).crab_toggle && crabs_present > 0 ==> r == CrabChange::Keep,
    {
        self.crab_toggle = !self.crab_toggle;
        if !self.crab_toggle {
            CrabChange::RemoveAll
        } else if crabs_present == 0 {
            CrabChange::Place(CRAB_COUNT)
        } else {
            CrabChange::Keep
        }
    }

    /// Whether feeding at the current level is the largest drop, which the
    /// status line announces.
    pub fn feeds_at_max(&self) -> (r: bool)
        ensures
            r == (self.feed_amount == FEED_AMOUNT_LEVELS - 1),
    {
        self.feed_amount == FEED_AMOUNT_LEVELS - 1
    }

    /// Inclusive range of pellets one feeding drops at the current level.
    pub fn feed_count_range(&self) -> (r: (usize, usize))
        ensures
            r == spec_feed_amount_count_range(self.feed_amount as int),
    {
        feed_amount_count_range(self.feed_amount)
    }

    /// Species that new fish are drawn from.
    pub fn spawn_pool(&self) -> (r: Vec<Species>)
        ensures
            r@ == spec_spawn_pool(self.species_toggle@),
    {
        let common = common_species();
        let mut pool: Vec<Species> = Vec::new();
        let mut i: usize = 0;
        while i < 5
            invariant
                i <= 5,
                common@ == spec_common_species(),
                pool@ == spec_enabled_common(self.species_toggle@, i as nat),
            decreases 5 - i,
        {
            if self.species_toggle[i] {
                pool.push(common[i]);
            }
            i = i + 1;
        }
        if pool.len() == 0 {
            common
        } else {
            pool
        }
    }
}


/// The feeding level after one step of the cycle.
pub open spec fn spec_next_feed_amount(level: int) -> int {
    (level + 1) % (FEED_AMOUNT_LEVELS as int)
}

/// The feeding level after `n` steps of the cycle.
pub open spec fn spec_cycle_feed_amount(level: int, n: nat) -> int
    decreases n,
{
    if n == 0 { level } else { spec_next_feed_amount(spec_cycle_feed_amount(level, (n - 1) as nat)) }
}

/// Cycling the feeding amount always lands on a valid level, and cycling it
/// `FEED_AMOUNT_LEVELS` times from a valid level comes back to where it started.
pub proof fn law_feed_amount_cycle(level: int)
    requires
        0 <= level,
    ensures
        0 <= spec_next_feed_amount(level) < FEED_AMOUNT_LEVELS,
        level < FEED_AMOUNT_LEVELS ==> spec_cycle_feed_amount(level, FEED_AMOUNT_LEVELS as nat) == level,
{
    reveal_with_fuel(spec_cycle_feed_amount, 6);
}

/// Toggling the same species twice restores every setting.
pub proof fn law_toggle_twice_restores(toggle: Seq<bool>, idx: int)
    ensures
        spec_toggled(spec_toggled(toggle, idx), idx) == toggle,
{
    assert(spec_toggled(spec_toggled(toggle, idx), idx) =~= toggle);
}

proof fn lemma_enabled_common_facts(toggle: Seq<bool>, n: nat)
    requires
        n <= 5,
        toggle.len() == 5,
    ensures
        spec_enabled_common(toggle, n).len() <= n,
        forall|k: int|
            0 <= k < spec_enabled_common(toggle, n).len() ==> spec_common_species().contains(
                #[trigger] spec_enabled_common(toggle, n)[k],
            ),
    decreases n,
{
    if n > 0 {
        lemma_enabled_common_facts(toggle, (n - 1) as nat);
        let before = spec_enabled_common(toggle, (n - 1) as nat);
        let cur = spec_enabled_common(toggle, n);
        assert forall|k: int| 0 <= k < cur.len() implies spec_common_species().contains(#[trigger] cur[k]) by {
            if k < before.len() {
                assert(cur[k] == before[k]);
            } else {
                assert(spec_common_species()[n - 1] == cur[k]);
            }
        }
    }
}

/// New fish are always drawn from a non-empty pool of at most five common
/// species; no predator and no whale is ever in it.
pub proof fn law_spawn_pool_is_common(toggle: Seq<bool>)
    requires
        toggle.len() == 5,
    ensures
        0 < spec_spawn_pool(toggle).len() <= 5,
        forall|k: int|
            0 <= k < spec_spawn_pool(toggle).len() ==> spec_common_species().contains(
                #[trigger] spec_spawn_pool(toggle)[k],
            ),
        forall|k: int|
            0 <= k < spec_spawn_pool(toggle).len() ==> !spec_is_predator(#[trigger] spec_spawn_pool(toggle)[k])
                && spec_spawn_pool(toggle)[k] != Species::Whale,
{
    lemma_enabled_common_facts(toggle, 5);
    let pool = spec_spawn_pool(toggle);
    assert forall|k: int| 0 <= k < pool.len() implies spec_common_species().contains(#[trigger] pool[k]) by {
        if spec_enabled_common(toggle, 5).len() == 0 {
            assert(spec_common_species()[k] == pool[k]);
        }
    }
    assert forall|k: int| 0 <= k < pool.len() implies !spec_is_predator(#[trigger] pool[k]) && pool[k] != Species::Whale by {
        assert(spec_common_species().contains(pool[k]));
        let m = choose|m: int| 0 <= m < spec_common_species().len() && spec_common_species()[m] == pool[k];
        assert(0 <= m < 5);
    }
}


proof fn lemma_enabled_common_contains(toggle: Seq<bool>, n: nat, i: int)
    requires
        n <= 5,
        toggle.len() == 5,
        0 <= i < 5,
    ensures
        spec_enabled_common(toggle, n).contains(spec_common_species()[i]) <==> (i < n && toggle[i]),
    decreases n,
{
    if n > 0 {
        lemma_enabled_common_contains(toggle, (n - 1) as nat, i);
        let before = spec_enabled_common(toggle, (n - 1) as nat);
        let cur = spec_enabled_common(toggle, n);
        let c = spec_common_species();
        if toggle[n - 1] {
            assert(cur == before.push(c[n - 1]));
            if cur.contains(c[i]) {
                let k = choose|k: int| 0 <= k < cur.len() && cur[k] == c[i];
                if k < before.len() {
                    assert(before[k] == c[i]);
                }
            }
            if i < n && toggle[i] && i < n - 1 {
                let k = choose|k: int| 0 <= k < before.len() && before[k] == c[i];
                assert(cur[k] == c[i]);
            }
            if i == n - 1 {
                assert(cur[before.len() as int] == c[i]);
            }
        }
    }
}

/// A common species is in the spawn pool exactly when its toggle is on, unless
/// every toggle is off, in which case all five common species are in it.
pub proof fn law_spawn_pool_follows_toggles(toggle: Seq<bool>, i: int)
    requires
        toggle.len() == 5,
        0 <= i < 5,
    ensures
        (exists|j: int| 0 <= j < 5 && #[trigger] toggle[j]) ==> (spec_spawn_pool(toggle).contains(
            spec_common_species()[i],
        ) <==> toggle[i]),
        (forall|j: int| 0 <= j < 5 ==> !#[trigger] toggle[j]) ==> spec_spawn_pool(toggle)
            == spec_common_species(),
{
    lemma_enabled_common_contains(toggle, 5, i);
    if exists|j: int| 0 <= j < 5 && #[trigger] toggle[j] {
        let j = choose|j: int| 0 <= j < 5 && #[trigger] toggle[j];
        lemma_enabled_common_contains(toggle, 5, j);
        assert(spec_enabled_common(toggle, 5).len() > 0);
    }
    if forall|j: int| 0 <= j < 5 ==> !#[trigger] toggle[j] {
        if spec_enabled_common(toggle, 5).len() > 0 {
            let sp = spec_enabled_common(toggle, 5)[0];
            lemma_enabled_common_facts(toggle, 5);
            assert(spec_common_species().contains(sp));
            let k = choose|k: int| 0 <= k < 5 && spec_common_species()[k] == sp;
            lemma_enabled_common_contains(toggle, 5, k);
            assert(spec_enabled_common(toggle, 5).contains(sp));
        }
    }
}

/// Larger feeding levels drop more pellets, each range is non-empty, and an
/// unknown level drops as much as the default level.
pub proof fn law_feed_amount_ranges_grow(level: int)
    ensures
        spec_feed_amount_count_range(level).0 < spec_feed_amount_count_range(level).1,
        0 <= level < 4 ==> spec_feed_amount_count_range(level).1 < spec_feed_amount_count_range(level + 1).0,
        !(0 <= level < FEED_AMOUNT_LEVELS) ==> spec_feed_amount_count_range(level)
            == spec_feed_amount_count_range(FEED_AMOUNT_DEFAULT as int),
        spec_feed_amount_count_range(0).0 >= 1,
{
}

} // verus!
