use aquarium::settings::{feed_amount_count_range, CrabChange, TankSettings, FEED_AMOUNT_LEVELS};
use aquarium::species::Species;

#[test]
fn fresh_settings_enable_everything_at_the_default_level() {
    let s = TankSettings::new();
    assert_eq!(s.species_toggle, [true; 5]);
    assert_eq!(s.feed_amount, 1);
    assert!(s.crab_toggle);
    assert_eq!(s.feed_count_range(), (15, 25));
}

#[test]
fn feed_amount_levels_drop_increasing_counts() {
    assert_eq!(feed_amount_count_range(0), (5, 10));
    assert_eq!(feed_amount_count_range(1), (15, 25));
    assert_eq!(feed_amount_count_range(2), (40, 60));
    assert_eq!(feed_amount_count_range(3), (100, 140));
    assert_eq!(feed_amount_count_range(4), (250, 350));
    assert_eq!(feed_amount_count_range(9), (15, 25));
}

#[test]
fn cycling_the_feed_amount_wraps_from_max_to_min() {
    let mut s = TankSettings::new();
    s.feed_amount = FEED_AMOUNT_LEVELS - 1;
    assert!(s.feeds_at_max());
    s.cycle_feed_amount();
    assert_eq!(s.feed_amount, 0);
    assert!(!s.feeds_at_max());
    for _ in 0..FEED_AMOUNT_LEVELS {
        s.cycle_feed_amount();
    }
    assert_eq!(s.feed_amount, 0);
}

#[test]
fn toggling_a_species_flips_only_that_flag_and_twice_restores_it() {
    let mut s = TankSettings::new();
    s.toggle_common_species(2);
    assert_eq!(s.species_toggle, [true, true, false, true, true]);
    s.toggle_common_species(7);
    assert_eq!(s.species_toggle, [true, true, false, true, true]);
    s.toggle_common_species(2);
    assert_eq!(s.species_toggle, [true; 5]);
}

#[test]
fn disabled_species_leave_the_spawn_pool_and_all_disabled_falls_back() {
    let mut s = TankSettings::new();
    assert_eq!(
        s.spawn_pool(),
        vec![Species::Neon, Species::Goldfish, Species::Guppy, Species::Angelfish, Species::Betta]
    );
    s.toggle_common_species(0);
    s.toggle_common_species(3);
    assert_eq!(s.spawn_pool(), vec![Species::Goldfish, Species::Guppy, Species::Betta]);
    for i in [1usize, 2, 4] {
        s.toggle_common_species(i);
    }
    assert_eq!(s.species_toggle, [false; 5]);
    assert_eq!(s.spawn_pool().len(), 5);
}

#[test]
fn toggling_crabs_clears_and_repopulates() {
    let mut s = TankSettings::new();
    assert_eq!(s.toggle_crabs(3), CrabChange::RemoveAll);
    assert!(!s.crab_toggle);
    assert_eq!(s.toggle_crabs(0), CrabChange::Place(3));
    assert!(s.crab_toggle);
    s.crab_toggle = false;
    assert_eq!(s.toggle_crabs(2), CrabChange::Keep);
}
