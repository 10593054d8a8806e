use aquarium::species::Species;
use aquarium::tank::{
    add_fish_gate, auto_drop_count, capacity, decor_refill, den_reposition_count,
    initial_population, needs_replenish, remove_fish, sand_height, AddFishGate, DecorRefill,
    Removal, ADD_FISH_MANUAL_CAP, AUTO_FEED_COUNT_CAP, AUTO_FEED_FLOAT_THRESHOLD,
    AUTO_MEDICATE_COUNT_CAP, AUTO_MEDICATE_FLOAT_THRESHOLD,
};

#[test]
fn capacity_scales_with_size_and_is_bounded() {
    assert!(capacity(40, 20) >= 5);
    assert!(capacity(1000, 800) <= 100, "at most 100 fish");
    assert_eq!(capacity(1000, 800), 100, "a large terminal reaches 100 fish");
    assert!(capacity(200, 100) >= capacity(80, 40));
}

#[test]
fn capacity_is_one_fish_per_1200_square_pixels() {
    assert_eq!(capacity(120, 100), 10);
    assert_eq!(capacity(120, 109), 10);
    assert_eq!(capacity(0, 0), 5);
    assert_eq!(capacity(60, 100), 5);
    assert_eq!(capacity(130, 60), 6);
}

#[test]
fn sand_height_is_a_twelfth_of_the_height_but_at_least_two() {
    assert_eq!(sand_height(0), 2);
    assert_eq!(sand_height(24), 2);
    assert_eq!(sand_height(35), 2);
    assert_eq!(sand_height(36), 3);
    assert_eq!(sand_height(120), 10);
}

#[test]
fn manual_additions_stop_at_the_manual_cap_then_at_capacity() {
    assert_eq!(add_fish_gate(ADD_FISH_MANUAL_CAP, 0, 1000, 800), AddFishGate::ManualCapReached);
    assert_eq!(add_fish_gate(24, 24, 1000, 800), AddFishGate::Allowed);
    // a 40x20 tank holds 5 fish
    assert_eq!(add_fish_gate(5, 5, 40, 20), AddFishGate::TankFull);
    // dead fish count toward the manual cap but not toward the capacity
    assert_eq!(add_fish_gate(7, 4, 40, 20), AddFishGate::Allowed);
}

#[test]
fn fresh_tank_gets_one_pair_per_species() {
    let pool = vec![Species::Neon, Species::Goldfish, Species::Guppy, Species::Angelfish, Species::Betta];
    // capacity 100: five pairs
    let pop = initial_population(&pool, 1000, 800);
    assert_eq!(
        pop,
        vec![
            Species::Neon, Species::Neon, Species::Goldfish, Species::Goldfish, Species::Guppy,
            Species::Guppy, Species::Angelfish, Species::Angelfish, Species::Betta, Species::Betta,
        ]
    );
    // capacity 5: two pairs fit
    let small = initial_population(&pool, 40, 20);
    assert_eq!(small, vec![Species::Neon, Species::Neon, Species::Goldfish, Species::Goldfish]);
    // a pool of one species gives one pair
    let one = initial_population(&vec![Species::Betta], 1000, 800);
    assert_eq!(one, vec![Species::Betta, Species::Betta]);
}

#[test]
fn automatic_care_matches_needs_and_caps_the_drop() {
    assert_eq!(auto_drop_count(4, 0, AUTO_FEED_FLOAT_THRESHOLD, AUTO_FEED_COUNT_CAP), Some(4));
    assert_eq!(auto_drop_count(0, 0, AUTO_FEED_FLOAT_THRESHOLD, AUTO_FEED_COUNT_CAP), None);
    assert_eq!(auto_drop_count(5, 3, AUTO_FEED_FLOAT_THRESHOLD, AUTO_FEED_COUNT_CAP), None);
    assert_eq!(auto_drop_count(80, 2, AUTO_FEED_FLOAT_THRESHOLD, AUTO_FEED_COUNT_CAP), Some(30));
    assert_eq!(auto_drop_count(50, 0, AUTO_MEDICATE_FLOAT_THRESHOLD, AUTO_MEDICATE_COUNT_CAP), Some(20));
}

#[test]
fn restocking_starts_at_three_common_fish_or_fewer() {
    assert!(needs_replenish(0));
    assert!(needs_replenish(3));
    assert!(!needs_replenish(4));
}

#[test]
fn decorations_are_refilled_only_when_missing() {
    assert_eq!(
        decor_refill(true, 0, 0, 0, 0, 0, 0),
        DecorRefill { crabs: 3, shrimp: 2, plants: 5, seahorses: 2, rocks: 3, dens: 1 }
    );
    assert_eq!(
        decor_refill(false, 0, 1, 4, 2, 3, 1),
        DecorRefill { crabs: 0, shrimp: 0, plants: 0, seahorses: 0, rocks: 0, dens: 0 }
    );
    assert_eq!(decor_refill(true, 2, 0, 0, 0, 0, 0).crabs, 0);
}

#[test]
fn dens_follow_the_number_of_living_octopuses() {
    assert_eq!(den_reposition_count(0, 0), None);
    assert_eq!(den_reposition_count(3, 1), Some(1));
    assert_eq!(den_reposition_count(1, 2), Some(2));
    assert_eq!(den_reposition_count(2, 0), Some(0));
}

#[test]
fn removing_fish_clears_dens_with_the_last_octopus_then_falls_back_to_crabs() {
    let mut fish = vec![Species::Neon, Species::Octopus, Species::Octopus];
    assert_eq!(remove_fish(&mut fish), Removal::Fish { clear_dens: false });
    assert_eq!(fish, vec![Species::Neon, Species::Octopus]);
    assert_eq!(remove_fish(&mut fish), Removal::Fish { clear_dens: true });
    assert_eq!(fish, vec![Species::Neon]);
    assert_eq!(remove_fish(&mut fish), Removal::Fish { clear_dens: true });
    assert_eq!(remove_fish(&mut fish), Removal::Crab);
    assert!(fish.is_empty());
}
