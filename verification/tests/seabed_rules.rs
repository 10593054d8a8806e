use aquarium::courtship::pair_ready_fish;
use aquarium::seabed::trim_landed;
use aquarium::species::Species;

#[test]
fn seabed_items_are_capped_removing_oldest_first() {
    // (id, landed)
    let mut items = vec![(1, true), (2, false), (3, true), (4, true), (5, false), (6, true)];
    trim_landed(&mut items, |it: &(u32, bool)| it.1, 2);
    assert_eq!(items, vec![(2, false), (4, true), (5, false), (6, true)]);
}

#[test]
fn trimming_below_the_cap_changes_nothing() {
    let mut items = vec![(1, true), (2, false), (3, true)];
    trim_landed(&mut items, |it: &(u32, bool)| it.1, 2);
    assert_eq!(items, vec![(1, true), (2, false), (3, true)]);
    trim_landed(&mut items, |it: &(u32, bool)| it.1, 0);
    assert_eq!(items, vec![(2, false)]);
}

#[test]
fn ready_fish_are_paired_by_species_in_order() {
    let ready = vec![
        (0, Species::Neon),
        (2, Species::Guppy),
        (3, Species::Neon),
        (5, Species::Neon),
        (6, Species::Guppy),
        (8, Species::Betta),
        (9, Species::Neon),
    ];
    assert_eq!(pair_ready_fish(&ready), vec![(0, 3), (5, 9), (2, 6)]);
    assert!(pair_ready_fish(&vec![(1, Species::Betta)]).is_empty());
    assert!(pair_ready_fish(&vec![(1, Species::Betta), (4, Species::Neon)]).is_empty());
}
