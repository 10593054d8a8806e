use aquarium::predation::is_excluded_as_prey;
use aquarium::species::{species_name, Species, Stage};

fn octopus_excludes(candidate_stage: Stage, candidate_sick: bool, candidate_hungry: bool) -> bool {
    is_excluded_as_prey(
        Species::Octopus,
        0,
        0,
        false,
        0,
        1,
        Species::Neon,
        false,
        false,
        false,
        false,
        0,
        0,
        candidate_stage,
        candidate_sick,
        candidate_hungry,
    )
}

#[test]
fn invincible_candidate_is_always_excluded_as_prey() {
    assert!(
        is_excluded_as_prey(
            Species::Piranha,
            0,
            0,
            false,
            0,
            1,
            Species::Neon,
            false,
            false,
            true,
            false,
            0,
            0,
            Stage::Adult,
            false,
            false,
        ),
        "an invincible fish is never prey"
    );
}

#[test]
fn octopus_always_targets_fry_regardless_of_condition() {
    assert!(!octopus_excludes(Stage::Fry, false, false), "a healthy, fed fry is prey for an octopus");
    assert!(!octopus_excludes(Stage::Fry, true, true), "a sick, hungry fry is prey for an octopus");
}

#[test]
fn octopus_excludes_every_adult_regardless_of_condition() {
    assert!(octopus_excludes(Stage::Adult, false, false));
    assert!(octopus_excludes(Stage::Adult, true, false));
    assert!(octopus_excludes(Stage::Adult, false, true));
    assert!(octopus_excludes(Stage::Adult, true, true));
}

#[test]
fn piranha_still_targets_a_healthy_well_fed_adult() {
    assert!(!is_excluded_as_prey(
        Species::Piranha,
        0,
        0,
        false,
        0,
        1,
        Species::Neon,
        false,
        false,
        false,
        false,
        0,
        0,
        Stage::Adult,
        false,
        false,
    ));
}

#[test]
fn whale_is_never_valid_prey() {
    assert!(is_excluded_as_prey(
        Species::Piranha,
        0,
        0,
        false,
        0,
        1,
        Species::Whale,
        false,
        false,
        false,
        false,
        0,
        0,
        Stage::Adult,
        false,
        false,
    ));
    assert!(is_excluded_as_prey(
        Species::Neon,
        0,
        0,
        true,
        0,
        1,
        Species::Whale,
        false,
        false,
        false,
        false,
        0,
        0,
        Stage::Adult,
        false,
        false,
    ));
}

#[test]
fn species_name_of_whale_is_kujira() {
    assert_eq!(species_name(Species::Whale), "クジラ");
}

#[test]
fn every_species_has_its_display_name() {
    assert_eq!(species_name(Species::Neon), "ネオン");
    assert_eq!(species_name(Species::Goldfish), "金魚");
    assert_eq!(species_name(Species::Guppy), "グッピー");
    assert_eq!(species_name(Species::Piranha), "ピラニア");
    assert_eq!(species_name(Species::Angelfish), "エンゼルフィッシュ");
    assert_eq!(species_name(Species::Betta), "ベタ");
    assert_eq!(species_name(Species::Octopus), "タコ");
}

#[test]
fn no_fish_preys_on_itself_or_a_corpse() {
    // same index
    assert!(is_excluded_as_prey(
        Species::Piranha, 0, 0, false, 3, 3, Species::Neon, false, false, false, false, 0, 0,
        Stage::Adult, false, false,
    ));
    // corpse
    assert!(is_excluded_as_prey(
        Species::Piranha, 0, 0, false, 0, 1, Species::Neon, true, false, false, false, 0, 0,
        Stage::Adult, false, false,
    ));
}

#[test]
fn hidden_octopus_and_fish_in_cover_are_not_prey() {
    assert!(is_excluded_as_prey(
        Species::Piranha, 0, 0, false, 0, 1, Species::Octopus, false, true, false, false, 0, 0,
        Stage::Adult, false, false,
    ));
    // an emerged octopus is prey for a piranha
    assert!(!is_excluded_as_prey(
        Species::Piranha, 0, 0, false, 0, 1, Species::Octopus, false, false, false, false, 0, 0,
        Stage::Adult, false, false,
    ));
    // hidden in plants, even for an invincible hunter
    assert!(is_excluded_as_prey(
        Species::Neon, 0, 0, true, 0, 1, Species::Piranha, false, false, false, true, 0, 0,
        Stage::Adult, false, false,
    ));
}

#[test]
fn invincible_fish_hunts_predators_only() {
    assert!(!is_excluded_as_prey(
        Species::Neon, 0, 0, true, 0, 1, Species::Piranha, false, false, false, false, 0, 0,
        Stage::Adult, false, false,
    ));
    assert!(!is_excluded_as_prey(
        Species::Goldfish, 0, 0, true, 0, 1, Species::Octopus, false, false, false, false, 0, 0,
        Stage::Adult, false, false,
    ));
    assert!(is_excluded_as_prey(
        Species::Neon, 0, 0, true, 0, 1, Species::Guppy, false, false, false, false, 0, 0,
        Stage::Fry, false, false,
    ));
}

#[test]
fn octopus_never_eats_a_piranha_fry() {
    assert!(is_excluded_as_prey(
        Species::Octopus, 0, 0, false, 0, 1, Species::Piranha, false, false, false, false, 0, 0,
        Stage::Fry, false, false,
    ));
}

#[test]
fn piranha_cannibalism_needs_a_size_advantage_of_two() {
    // predator size 3 (2 + 1) against size 1: advantage 2, allowed
    assert!(!is_excluded_as_prey(
        Species::Piranha, 2, 1, false, 0, 1, Species::Piranha, false, false, false, false, 1, 0,
        Stage::Adult, false, false,
    ));
    // advantage 1: excluded
    assert!(is_excluded_as_prey(
        Species::Piranha, 1, 1, false, 0, 1, Species::Piranha, false, false, false, false, 1, 0,
        Stage::Adult, false, false,
    ));
    // a smaller piranha never eats a larger one
    assert!(is_excluded_as_prey(
        Species::Piranha, 0, 0, false, 0, 1, Species::Piranha, false, false, false, false, 3, 3,
        Stage::Adult, false, false,
    ));
}

#[test]
fn other_species_never_eat_their_own_kind() {
    assert!(is_excluded_as_prey(
        Species::Octopus, 0, 0, false, 0, 1, Species::Octopus, false, false, false, false, 0, 0,
        Stage::Fry, false, false,
    ));
}
