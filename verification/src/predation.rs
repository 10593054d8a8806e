use vstd::prelude::*;
use crate::species::{Species, Stage, spec_is_predator};

verus! {

/// A piranha may eat another piranha only when it is at least this many size
/// steps (growth stage plus kill stage) larger.
pub const PIRANHA_CANNIBALISM_MIN_SIZE_ADVANTAGE: i32 = 2;
/// Consecutive piranha bites that kill a fish.
pub const PIRANHA_BITES_TO_KILL: u8 = 3;
/// Bites by adult fish that kill an octopus.
pub const OCTOPUS_BITES_TO_DIE: u8 = 5;
/// A piranha grows one kill stage per meal, up to this stage.
pub const PIRANHA_MAX_KILL_STAGE: u8 = 3;
/// Meals a piranha takes, once it has started eating, before it counts as full.
pub const PIRANHA_KILLS_TO_FULL: u32 = 3;

/// Whether the candidate fish at `candidate_index` is out of reach as prey for
/// the predator at `self_index`. The rules apply in this order:
/// a fish never eats itself or a corpse; whales, octopuses hidden in their den,
/// fish hidden in plants or rocks, and invincible fish are never prey; an
/// invincible fish hunts only predators; an octopus eats neither piranhas nor
/// adults; within one species only a much larger piranha eats a piranha.
/// Sickness and hunger of the candidate play no part.
pub open spec fn spec_excluded_as_prey(
    predator_species: Species,
    predator_growth_stage: u8,
    predator_kill_stage: u8,
    predator_invincible: bool,
    self_index: usize,
    candidate_index: usize,
    candidate_species: Species,
    candidate_dead: bool,
    candidate_hidden: bool,
    candidate_invincible: bool,
    candidate_hidden_in_cover: bool,
    candidate_growth_stage: u8,
    candidate_kill_stage: u8,
    candidate_stage: Stage,
) -> bool {
    if self_index == candidate_index || candidate_dead {
        true
    } else if candidate_species == Species::Whale {
        true
    } else if candidate_species == Species::Octopus && candidate_hidden {
        true
    } else if candidate_hidden_in_cover || candidate_invincible {
        true
    } else if predator_invincible {
        !spec_is_predator(candidate_species)
    } else if predator_species == Species::Octopus && candidate_species == Species::Piranha {
        true
    } else if predator_species == Species::Octopus && candidate_stage == Stage::Adult {
        true
    } else if candidate_species == predator_species {
        if predator_species == Species::Piranha {
            (predator_growth_stage + predator_kill_stage) - (candidate_growth_stage
                + candidate_kill_stage) < PIRANHA_CANNIBALISM_MIN_SIZE_ADVANTAGE
        } else {
            true
        }
    } else {
        false
    }
}

/// Decides whether a candidate fish is excluded as prey for a predator
/// (see `spec_excluded_as_prey`).
pub fn is_excluded_as_prey(
    predator_species: Species,
    predator_growth_stage: u8,
    predator_kill_stage: u8,
    predator_invincible: bool,
    self_index: usize,
    candidate_index: usize,
    candidate_species: Species,
    candidate_dead: bool,
    candidate_hidden: bool,
    candidate_invincible: bool,
    candidate_hidden_in_cover: bool,
    candidate_growth_stage: u8,
    candidate_kill_stage: u8,
    candidate_stage: Stage,
    _candidate_sick: bool,
    _candidate_hungry: bool,
) -> (r: bool)
    ensures
        r == spec_excluded_as_prey(
            predator_species,
            predator_growth_stage,
            predator_kill_stage,
            predator_invincible,
            self_index,
            candidate_index,
            candidate_species,
            candidate_dead,
            candidate_hidden,
            candidate_invincible,
            candidate_hidden_in_cover,
            candidate_growth_stage,
            candidate_kill_stage,
            candidate_stage,
        ),
{
    if self_index == candidate_index || candidate_dead {
        return true;
    }
    if candidate_species == Species::Whale {
        return true;
    }
    if candidate_species == Species::Octopus && candidate_hidden {
        return true;
    }
    if candidate_hidden_in_cover {
        return true;
    }
    if candidate_invincible {
        return true;
    }
    if predator_invincible {
        return !candidate_species.is_predator();
    }
    if predator_species == Species::Octopus && candidate_species == Species::Piranha {
        return true;
    }
    if predator_species == Species::Octopus && candidate_stage == Stage::Adult {
        return true;
    }
    if candidate_species == predator_species {
        if predator_species == Species::Piranha {
            let predator_size = predator_growth_stage as i32 + predator_kill_stage as i32;
            let candidate_size = candidate_growth_stage as i32 + candidate_kill_stage as i32;
            return predator_size - candidate_size < PIRANHA_CANNIBALISM_MIN_SIZE_ADVANTAGE;
        }
        return true;
    }
    false
}

/// Whether a piranha keeps hunting: while its hunger is below the hunting
/// threshold, or while it has eaten at least once but fewer than
/// `PIRANHA_KILLS_TO_FULL` times since it was last full.
pub open spec fn spec_piranha_still_hungry(below_hunt_threshold: bool, meals_since_full: u32) -> bool {
    below_hunt_threshold || (0 < meals_since_full < PIRANHA_KILLS_TO_FULL)
}

/// Whether a piranha keeps hunting. `below_hunt_threshold` tells whether its
/// hunger is below the hunting threshold.
pub fn piranha_still_hungry(below_hunt_threshold: bool, meals_since_full: u32) -> (r: bool)
    ensures
        r == spec_piranha_still_hungry(below_hunt_threshold, meals_since_full),
{
    below_hunt_threshold || (meals_since_full > 0 && meals_since_full < PIRANHA_KILLS_TO_FULL)
}


/// What a bite does to a fish that had already taken `bite_count` bites.
#[derive(Clone, Copy, PartialEq, Eq, Debug, Structural)]
pub enum BiteOutcome {
    /// The fish survives, now marked with this many bites.
    Wounded(u8),
    /// The bite was the last one the fish could take.
    Killed,
}

/// A bite kills when it is the `bites_to_die`-th one; otherwise the count grows by one.
pub open spec fn spec_bite_outcome(bite_count: u8, bites_to_die: u8) -> BiteOutcome {
    if bite_count + 1 >= bites_to_die {
        BiteOutcome::Killed
    } else {
        BiteOutcome::Wounded((bite_count + 1) as u8)
    }
}

/// Outcome of one more bite on a fish that has taken `bite_count` bites.
pub fn bite_outcome(bite_count: u8, bites_to_die: u8) -> (r: BiteOutcome)
    requires
        bite_count < u8::MAX,
    ensures
        r == spec_bite_outcome(bite_count, bites_to_die),
{
    if bite_count + 1 >= bites_to_die {
        BiteOutcome::Killed
    } else {
        BiteOutcome::Wounded(bite_count + 1)
    }
}

/// A piranha bite on a fish that has taken `bite_count` piranha bites.
pub fn piranha_bite(bite_count: u8) -> (r: BiteOutcome)
    requires
        bite_count < u8::MAX,
    ensures
        r == spec_bite_outcome(bite_count, PIRANHA_BITES_TO_KILL),
{
    bite_outcome(bite_count, PIRANHA_BITES_TO_KILL)
}

/// An adult fish's bite on an octopus that has taken `bite_count` bites.
pub fn octopus_bite(bite_count: u8) -> (r: BiteOutcome)
    requires
        bite_count < u8::MAX,
    ensures
        r == spec_bite_outcome(bite_count, OCTOPUS_BITES_TO_DIE),
{
    bite_outcome(bite_count, OCTOPUS_BITES_TO_DIE)
}

/// How the status line words a bite.
#[derive(Clone, Copy, PartialEq, Eq, Debug, Structural)]
pub enum BiteMessage {
    /// The first bite.
    FirstBite,
    /// A later bite that does not kill.
    Weakened,
    /// The killing bite.
    Fatal,
}

/// The wording of the `bite_number`-th bite: the killing bite is fatal, else the
/// first bite is a first bite, else the fish is weakened.
pub open spec fn spec_bite_message(bite_number: u8, bites_to_die: u8) -> BiteMessage {
    if bite_number >= bites_to_die {
        BiteMessage::Fatal
    } else if bite_number == 1 {
        BiteMessage::FirstBite
    } else {
        BiteMessage::Weakened
    }
}

/// Chooses the wording of the `bite_number`-th bite.
pub fn bite_message(bite_number: u8, bites_to_die: u8) -> (r: BiteMessage)
    ensures
        r == spec_bite_message(bite_number, bites_to_die),
{
    if bite_number >= bites_to_die {
        BiteMessage::Fatal
    } else if bite_number == 1 {
        BiteMessage::FirstBite
    } else {
        BiteMessage::Weakened
    }
}

/// One step of healing: a wounded fish loses one bite mark once a full
/// recovery interval has passed without a new bite.
pub open spec fn spec_heal_bite(bite_count: u8, interval_elapsed: bool) -> u8 {
    if bite_count > 0 && interval_elapsed { (bite_count - 1) as u8 } else { bite_count }
}

/// Heals one bite mark when `interval_elapsed` tells that the recovery interval has passed.
pub fn heal_bite(bite_count: u8, interval_elapsed: bool) -> (r: u8)
    ensures
        r == spec_heal_bite(bite_count, interval_elapsed),
{
    if bite_count > 0 && interval_elapsed { bite_count - 1 } else { bite_count }
}

/// A piranha grows one kill stage per meal until `PIRANHA_MAX_KILL_STAGE`.
pub open spec fn spec_next_kill_stage(kill_stage: u8) -> u8 {
    if kill_stage < PIRANHA_MAX_KILL_STAGE { (kill_stage + 1) as u8 } else { kill_stage }
}

/// Kill stage of a piranha after one more meal.
pub fn next_kill_stage(kill_stage: u8) -> (r: u8)
    ensures
        r == spec_next_kill_stage(kill_stage),
{
    if kill_stage < PIRANHA_MAX_KILL_STAGE { kill_stage + 1 } else { kill_stage }
}

/// Meal count of a piranha after one more meal: it grows by one, and falls back
/// to zero once it reaches `PIRANHA_KILLS_TO_FULL` while the piranha is sated
/// (its hunger at or above the hunting threshold).
pub open spec fn spec_meals_after_meal(meals_since_full: u32, sated: bool) -> u32 {
    if meals_since_full + 1 >= PIRANHA_KILLS_TO_FULL && sated {
        0
    } else {
        (meals_since_full + 1) as u32
    }
}

/// Meal count of a piranha after one more meal; `sated` tells whether its hunger,
/// after the meal, is at or above the hunting threshold.
pub fn meals_after_meal(meals_since_full: u32, sated: bool) -> (r: u32)
    requires
        meals_since_full < u32::MAX,
    ensures
        r == spec_meals_after_meal(meals_since_full, sated),
{
    let m = meals_since_full + 1;
    if m >= PIRANHA_KILLS_TO_FULL && sated { 0 } else { m }
}

/// A piranha that has started its meal quota but fails to finish it within the
/// grace period gives it up: its meal count returns to zero.
pub open spec fn spec_meals_after_grace(meals_since_full: u32, grace_elapsed: bool) -> u32 {
    if 0 < meals_since_full < PIRANHA_KILLS_TO_FULL && grace_elapsed { 0 } else { meals_since_full }
}

/// Meal count of a piranha after the quota check; `grace_elapsed` tells whether the
/// grace period has run out.
pub fn meals_after_grace(meals_since_full: u32, grace_elapsed: bool) -> (r: u32)
    ensures
        r == spec_meals_after_grace(meals_since_full, grace_elapsed),
{
    if meals_since_full > 0 && meals_since_full < PIRANHA_KILLS_TO_FULL && grace_elapsed {
        0
    } else {
        meals_since_full
    }
}


/// No fish ever preys on itself, on a corpse, on a whale, on an octopus hidden
/// in its den, on a fish hidden in plants or rocks, or on an invincible fish.
pub proof fn law_protected_fish_are_never_prey(
    predator_species: Species,
    predator_growth_stage: u8,
    predator_kill_stage: u8,
    predator_invincible: bool,
    self_index: usize,
    candidate_index: usize,
    candidate_species: Species,
    candidate_dead: bool,
    candidate_hidden: bool,
    candidate_invincible: bool,
    candidate_hidden_in_cover: bool,
    candidate_growth_stage: u8,
    candidate_kill_stage: u8,
    candidate_stage: Stage,
)
    requires
        self_index == candidate_index || candidate_dead || candidate_species == Species::Whale
            || (candidate_species == Species::Octopus && candidate_hidden)
            || candidate_hidden_in_cover || candidate_invincible,
    ensures
        spec_excluded_as_prey(
            predator_species,
            predator_growth_stage,
            predator_kill_stage,
            predator_invincible,
            self_index,
            candidate_index,
            candidate_species,
            candidate_dead,
            candidate_hidden,
            candidate_invincible,
            candidate_hidden_in_cover,
            candidate_growth_stage,
            candidate_kill_stage,
            candidate_stage,
        ),
{
}

/// An octopus (not made invincible) only ever preys on fry, and never on a piranha.
pub proof fn law_octopus_preys_only_on_fry(
    predator_growth_stage: u8,
    predator_kill_stage: u8,
    self_index: usize,
    candidate_index: usize,
    candidate_species: Species,
    candidate_dead: bool,
    candidate_hidden: bool,
    candidate_invincible: bool,
    candidate_hidden_in_cover: bool,
    candidate_growth_stage: u8,
    candidate_kill_stage: u8,
    candidate_stage: Stage,
)
    requires
        !spec_excluded_as_prey(
            Species::Octopus,
            predator_growth_stage,
            predator_kill_stage,
            false,
            self_index,
            candidate_index,
            candidate_species,
            candidate_dead,
            candidate_hidden,
            candidate_invincible,
            candidate_hidden_in_cover,
            candidate_growth_stage,
            candidate_kill_stage,
            candidate_stage,
        ),
    ensures
        candidate_stage == Stage::Fry,
        candidate_species != Species::Piranha,
        candidate_species != Species::Octopus,
{
}

/// A fish made invincible hunts only predators (piranhas and octopuses).
pub proof fn law_invincible_fish_hunt_only_predators(
    predator_species: Species,
    predator_growth_stage: u8,
    predator_kill_stage: u8,
    self_index: usize,
    candidate_index: usize,
    candidate_species: Species,
    candidate_dead: bool,
    candidate_hidden: bool,
    candidate_invincible: bool,
    candidate_hidden_in_cover: bool,
    candidate_growth_stage: u8,
    candidate_kill_stage: u8,
    candidate_stage: Stage,
)
    requires
        !spec_excluded_as_prey(
            predator_species,
            predator_growth_stage,
            predator_kill_stage,
            true,
            self_index,
            candidate_index,
            candidate_species,
            candidate_dead,
            candidate_hidden,
            candidate_invincible,
            candidate_hidden_in_cover,
            candidate_growth_stage,
            candidate_kill_stage,
            candidate_stage,
        ),
    ensures
        spec_is_predator(candidate_species),
{
}

/// Apart from piranhas, no species (not made invincible) preys on its own kind;
/// a piranha preys on a piranha only when it is at least
/// `PIRANHA_CANNIBALISM_MIN_SIZE_ADVANTAGE` size steps larger.
pub proof fn law_no_cannibalism_without_size_advantage(
    species: Species,
    predator_growth_stage: u8,
    predator_kill_stage: u8,
    self_index: usize,
    candidate_index: usize,
    candidate_dead: bool,
    candidate_hidden: bool,
    candidate_invincible: bool,
    candidate_hidden_in_cover: bool,
    candidate_growth_stage: u8,
    candidate_kill_stage: u8,
    candidate_stage: Stage,
)
    requires
        !spec_excluded_as_prey(
            species,
            predator_growth_stage,
            predator_kill_stage,
            false,
            self_index,
            candidate_index,
            species,
            candidate_dead,
            candidate_hidden,
            candidate_invincible,
            candidate_hidden_in_cover,
            candidate_growth_stage,
            candidate_kill_stage,
            candidate_stage,
        ),
    ensures
        species == Species::Piranha,
        (predator_growth_stage + predator_kill_stage) - (candidate_growth_stage
            + candidate_kill_stage) >= PIRANHA_CANNIBALISM_MIN_SIZE_ADVANTAGE,
{
}

/// Bites on a fish that has taken fewer than `bites_to_die` bites: a bite kills
/// exactly when it is the `bites_to_die`-th, and otherwise leaves the count one
/// higher and still below `bites_to_die`.
pub proof fn law_bite_kills_on_the_last_bite(bite_count: u8, bites_to_die: u8)
    requires
        bite_count < bites_to_die,
    ensures
        spec_bite_outcome(bite_count, bites_to_die) == BiteOutcome::Killed <==> bite_count + 1
            == bites_to_die,
        spec_bite_outcome(bite_count, bites_to_die) matches BiteOutcome::Wounded(w) ==> w
            == bite_count + 1 && w < bites_to_die,
{
}

/// Healing never adds bite marks and removes at most one.
pub proof fn law_healing_removes_at_most_one_mark(bite_count: u8, interval_elapsed: bool)
    ensures
        spec_heal_bite(bite_count, interval_elapsed) <= bite_count,
        spec_heal_bite(bite_count, interval_elapsed) + 1 >= bite_count,
{
}

/// A piranha's kill stage never grows beyond `PIRANHA_MAX_KILL_STAGE`, and never shrinks.
pub proof fn law_kill_stage_capped(kill_stage: u8)
    requires
        kill_stage <= PIRANHA_MAX_KILL_STAGE,
    ensures
        kill_stage <= spec_next_kill_stage(kill_stage) <= PIRANHA_MAX_KILL_STAGE,
{
}

/// Once a piranha has eaten, it keeps hunting until it has eaten
/// `PIRANHA_KILLS_TO_FULL` times, however full it is; when it reaches that number
/// sated, its count starts over and it hunts again only once hungry.
pub proof fn law_piranha_hunts_until_quota(meals_since_full: u32, sated: bool, below_hunt_threshold: bool)
    requires
        meals_since_full < u32::MAX,
    ensures
        meals_since_full + 1 < PIRANHA_KILLS_TO_FULL ==> spec_piranha_still_hungry(
            below_hunt_threshold,
            spec_meals_after_meal(meals_since_full, sated),
        ),
        meals_since_full + 1 >= PIRANHA_KILLS_TO_FULL && sated ==> spec_meals_after_meal(
            meals_since_full,
            sated,
        ) == 0 && (spec_piranha_still_hungry(
            below_hunt_threshold,
            spec_meals_after_meal(meals_since_full, sated),
        ) <==> below_hunt_threshold),
{
}

/// A piranha that gives up its meal quota hunts again only when hungry.
pub proof fn law_piranha_gives_up_quota(meals_since_full: u32, below_hunt_threshold: bool)
    requires
        meals_since_full < PIRANHA_KILLS_TO_FULL,
    ensures
        spec_piranha_still_hungry(below_hunt_threshold, spec_meals_after_grace(meals_since_full, true))
            <==> below_hunt_threshold,
{
}


/// How a fish hunts this tick, which decides how close it must get to strike.
#[derive(Clone, Copy, PartialEq, Eq, Debug, Structural)]
pub enum HuntKind {
    /// A hungry piranha (or an invincible one).
    Piranha,
    /// A hungry, emerged octopus (or an invincible one).
    Octopus,
    /// A common fish made invincible by a star.
    Star,
}

/// Whether (and how) a fish hunts this tick. Dead fish, fish still in their
/// hunting cooldown and octopuses in their den never hunt; a piranha hunts while
/// it is still hungry, an octopus while its hunger is below its hunting
/// threshold, and any other fish only while invincible; invincibility also lifts
/// the hunger condition of piranhas and octopuses.
pub open spec fn spec_hunt_kind(
    species: Species,
    invincible: bool,
    dead: bool,
    hidden: bool,
    cooldown_over: bool,
    piranha_hungry: bool,
    octopus_hungry: bool,
) -> Option<HuntKind> {
    if (!spec_is_predator(species) && !invincible) || dead || !cooldown_over {
        None
    } else if species == Species::Octopus && hidden {
        None
    } else if species == Species::Piranha {
        if !piranha_hungry && !invincible { None } else { Some(HuntKind::Piranha) }
    } else if species == Species::Octopus {
        if !octopus_hungry && !invincible { None } else { Some(HuntKind::Octopus) }
    } else if !invincible {
        None
    } else {
        Some(HuntKind::Star)
    }
}

/// Decides whether and how a fish hunts this tick (see `spec_hunt_kind`).
/// `piranha_hungry` is whether a piranha is still hungry (`piranha_still_hungry`),
/// `octopus_hungry` whether an octopus's hunger is below its hunting threshold.
pub fn hunt_kind(
    species: Species,
    invincible: bool,
    dead: bool,
    hidden: bool,
    cooldown_over: bool,
    piranha_hungry: bool,
    octopus_hungry: bool,
) -> (r: Option<HuntKind>)
    ensures
        r == spec_hunt_kind(species, invincible, dead, hidden, cooldown_over, piranha_hungry, octopus_hungry),
{
    if (!species.is_predator() && !invincible) || dead || !cooldown_over {
        return None;
    }
    if species == Species::Octopus && hidden {
        return None;
    }
    match species {
        Species::Piranha => {
            if !piranha_hungry && !invincible { None } else { Some(HuntKind::Piranha) }
        },
        Species::Octopus => {
            if !octopus_hungry && !invincible { None } else { Some(HuntKind::Octopus) }
        },
        _ => {
            if !invincible { None } else { Some(HuntKind::Star) }
        },
    }
}

/// Corpses, fish in their cooldown and octopuses in their den never hunt, and a
/// common fish hunts only while invincible.
pub proof fn law_who_hunts(
    species: Species,
    invincible: bool,
    dead: bool,
    hidden: bool,
    cooldown_over: bool,
    piranha_hungry: bool,
    octopus_hungry: bool,
)
    ensures
        (dead || !cooldown_over || (species == Species::Octopus && hidden)) ==> spec_hunt_kind(
            species,
            invincible,
            dead,
            hidden,
            cooldown_over,
            piranha_hungry,
            octopus_hungry,
        ) is None,
        !spec_is_predator(species) && spec_hunt_kind(
            species,
            invincible,
            dead,
            hidden,
            cooldown_over,
            piranha_hungry,
            octopus_hungry,
        ) is Some ==> invincible,
{
}


/// A fish that is living, visible (neither in a den nor in cover) and not
/// invincible is fair prey for an ordinary piranha whenever it is of another
/// species and not a whale, whatever its life stage.
pub proof fn law_piranha_preys_on_any_other_visible_fish(
    predator_growth_stage: u8,
    predator_kill_stage: u8,
    self_index: usize,
    candidate_index: usize,
    candidate_species: Species,
    candidate_growth_stage: u8,
    candidate_kill_stage: u8,
    candidate_stage: Stage,
)
    requires
        self_index != candidate_index,
        candidate_species != Species::Piranha,
        candidate_species != Species::Whale,
    ensures
        !spec_excluded_as_prey(
            Species::Piranha,
            predator_growth_stage,
            predator_kill_stage,
            false,
            self_index,
            candidate_index,
            candidate_species,
            false,
            false,
            false,
            false,
            candidate_growth_stage,
            candidate_kill_stage,
            candidate_stage,
        ),
{
}

/// An ordinary octopus preys on any living, visible, non-invincible fry that
/// is neither a piranha, an octopus nor a whale.
pub proof fn law_octopus_preys_on_visible_fry(
    predator_growth_stage: u8,
    predator_kill_stage: u8,
    self_index: usize,
    candidate_index: usize,
    candidate_species: Species,
    candidate_growth_stage: u8,
    candidate_kill_stage: u8,
)
    requires
        self_index != candidate_index,
        candidate_species != Species::Piranha,
        candidate_species != Species::Octopus,
        candidate_species != Species::Whale,
    ensures
        !spec_excluded_as_prey(
            Species::Octopus,
            predator_growth_stage,
            predator_kill_stage,
            false,
            self_index,
            candidate_index,
            candidate_species,
            false,
            false,
            false,
            false,
            candidate_growth_stage,
            candidate_kill_stage,
            Stage::Fry,
        ),
{
}

/// An invincible fish may prey on any living, visible, non-invincible piranha
/// or octopus, whatever its own species and the prey's stage and size.
pub proof fn law_invincible_fish_preys_on_visible_predators(
    predator_species: Species,
    predator_growth_stage: u8,
    predator_kill_stage: u8,
    self_index: usize,
    candidate_index: usize,
    candidate_species: Species,
    candidate_growth_stage: u8,
    candidate_kill_stage: u8,
    candidate_stage: Stage,
)
    requires
        self_index != candidate_index,
        candidate_species == Species::Piranha || candidate_species == Species::Octopus,
    ensures
        !spec_excluded_as_prey(
            predator_species,
            predator_growth_stage,
            predator_kill_stage,
            true,
            self_index,
            candidate_index,
            candidate_species,
            false,
            false,
            false,
            false,
            candidate_growth_stage,
            candidate_kill_stage,
            candidate_stage,
        ),
{
}

/// A piranha at least two size steps (growth plus kill stage) larger than a
/// living, visible, non-invincible piranha may prey on it.
pub proof fn law_large_piranha_preys_on_small_piranha(
    predator_growth_stage: u8,
    predator_kill_stage: u8,
    self_index: usize,
    candidate_index: usize,
    candidate_growth_stage: u8,
    candidate_kill_stage: u8,
    candidate_stage: Stage,
)
    requires
        self_index != candidate_index,
        predator_growth_stage + predator_kill_stage >= candidate_growth_stage + candidate_kill_stage + 2,
    ensures
        !spec_excluded_as_prey(
            Species::Piranha,
            predator_growth_stage,
            predator_kill_stage,
            false,
            self_index,
            candidate_index,
            Species::Piranha,
            false,
            false,
            false,
            false,
            candidate_growth_stage,
            candidate_kill_stage,
            candidate_stage,
        ),
{
}

/// Whether a living, emerged fish whose cooldown is over hunts: a piranha
/// exactly when it is still hungry or invincible, an octopus exactly when its
/// hunger is below its hunting threshold or it is invincible, any other fish
/// exactly when invincible; a full, ordinary piranha or octopus never hunts.
pub proof fn law_hunting_follows_hunger(
    species: Species,
    invincible: bool,
    hidden: bool,
    piranha_hungry: bool,
    octopus_hungry: bool,
)
    ensures
        species == Species::Piranha ==> (spec_hunt_kind(species, invincible, false, hidden, true, piranha_hungry, octopus_hungry)
            == if piranha_hungry || invincible { Some(HuntKind::Piranha) } else { None }),
        species == Species::Octopus && !hidden ==> (spec_hunt_kind(species, invincible, false, hidden, true, piranha_hungry, octopus_hungry)
            == if octopus_hungry || invincible { Some(HuntKind::Octopus) } else { None }),
        species != Species::Piranha && species != Species::Octopus ==> (spec_hunt_kind(species, invincible, false, hidden, true, piranha_hungry, octopus_hungry)
            == if invincible { Some(HuntKind::Star) } else { None }),
        species == Species::Octopus && !invincible && !octopus_hungry ==> spec_hunt_kind(
            species, invincible, false, hidden, true, piranha_hungry, octopus_hungry) is None,
        species == Species::Piranha && !invincible && !piranha_hungry ==> spec_hunt_kind(
            species, invincible, false, hidden, true, piranha_hungry, octopus_hungry) is None,
{
}

/// Healing after a full recovery interval removes exactly one bite mark from a
/// wounded fish (so one mark heals completely); without the interval, or with
/// no mark, nothing changes.
pub proof fn law_healing_removes_one_mark_per_interval(bite_count: u8, interval_elapsed: bool)
    ensures
        interval_elapsed && bite_count > 0 ==> spec_heal_bite(bite_count, interval_elapsed) + 1 == bite_count,
        !interval_elapsed ==> spec_heal_bite(bite_count, interval_elapsed) == bite_count,
        bite_count == 0 ==> spec_heal_bite(bite_count, interval_elapsed) == 0,
{
}

/// A fish that has already taken `bites_to_die - 1` bites or more dies of the next one.
pub proof fn law_bite_beyond_the_limit_kills(bite_count: u8, bites_to_die: u8)
    requires
        bite_count + 1 >= bites_to_die,
    ensures
        spec_bite_outcome(bite_count, bites_to_die) == BiteOutcome::Killed,
{
}

/// Each meal below the cap adds exactly one kill stage; at the cap it stays.
pub proof fn law_kill_stage_grows_by_one(kill_stage: u8)
    ensures
        kill_stage < PIRANHA_MAX_KILL_STAGE ==> spec_next_kill_stage(kill_stage) == kill_stage + 1,
        kill_stage >= PIRANHA_MAX_KILL_STAGE ==> spec_next_kill_stage(kill_stage) == kill_stage,
{
}

/// A meal adds one to a piranha's meal count, unless that reaches the quota
/// while the piranha is sated, in which case the count starts over at zero.
pub proof fn law_meal_count_after_a_meal(meals_since_full: u32, sated: bool)
    requires
        meals_since_full < u32::MAX,
    ensures
        (spec_meals_after_meal(meals_since_full, sated) == 0) <==> (meals_since_full + 1
            >= PIRANHA_KILLS_TO_FULL && sated),
        spec_meals_after_meal(meals_since_full, sated) != 0 ==> spec_meals_after_meal(
            meals_since_full,
            sated,
        ) == meals_since_full + 1,
{
}

/// When the grace period runs out, an unfinished quota (some meals, fewer than
/// `PIRANHA_KILLS_TO_FULL`) is dropped to zero; in every other case the count stays.
pub proof fn law_quota_is_dropped_only_when_unfinished_and_late(meals_since_full: u32, grace_elapsed: bool)
    ensures
        (spec_meals_after_grace(meals_since_full, grace_elapsed) != meals_since_full) <==> (
        grace_elapsed && 0 < meals_since_full < PIRANHA_KILLS_TO_FULL),
        spec_meals_after_grace(meals_since_full, grace_elapsed) == meals_since_full
            || spec_meals_after_grace(meals_since_full, grace_elapsed) == 0,
{
}


/// A piranha that has not eaten since it was last full hunts exactly while
/// hungry; one in the middle of its meal quota (1 or 2 meals) always hunts; one
/// that has reached the quota hunts exactly while hungry.
pub proof fn law_piranha_hunger_and_quota(below_hunt_threshold: bool, meals_since_full: u32)
    ensures
        meals_since_full == 0 ==> (spec_piranha_still_hungry(below_hunt_threshold, meals_since_full)
            <==> below_hunt_threshold),
        0 < meals_since_full < PIRANHA_KILLS_TO_FULL ==> spec_piranha_still_hungry(
            below_hunt_threshold,
            meals_since_full,
        ),
        meals_since_full >= PIRANHA_KILLS_TO_FULL ==> (spec_piranha_still_hungry(
            below_hunt_threshold,
            meals_since_full,
        ) <==> below_hunt_threshold),
{
}

/// The killing bite is worded as fatal; otherwise the first bite is worded as a
/// first bite and every later one as weakening.
pub proof fn law_bite_message_cases(bite_number: u8, bites_to_die: u8)
    ensures
        bite_number >= bites_to_die ==> spec_bite_message(bite_number, bites_to_die) == BiteMessage::Fatal,
        bite_number == 1 && 1 < bites_to_die ==> spec_bite_message(bite_number, bites_to_die)
            == BiteMessage::FirstBite,
        1 < bite_number < bites_to_die ==> spec_bite_message(bite_number, bites_to_die)
            == BiteMessage::Weakened,
{
}

} // verus!
