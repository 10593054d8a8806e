use aquarium::octopus::{can_bite_octopus, octopus_step, startles_octopus, DenTimer, OctopusStep};
use aquarium::predation::{hunt_kind, HuntKind};
use aquarium::seabed::remove_marked;
use aquarium::species::{Species, Stage};

#[test]
fn octopus_comes_out_and_goes_back_when_its_timer_runs_out() {
    assert_eq!(
        octopus_step(true, true, false, false, false),
        OctopusStep { hidden: false, timer: DenTimer::Emerged, inks: false }
    );
    assert_eq!(
        octopus_step(false, true, true, true, true),
        OctopusStep { hidden: true, timer: DenTimer::Hidden, inks: false }
    );
    assert_eq!(
        octopus_step(true, false, true, true, true),
        OctopusStep { hidden: true, timer: DenTimer::Keep, inks: false }
    );
}

#[test]
fn emerged_octopus_inks_when_threatened_and_ready() {
    assert!(octopus_step(false, false, true, true, false).inks);
    assert!(octopus_step(false, false, true, false, true).inks);
    assert!(!octopus_step(false, false, false, true, true).inks, "ink on cooldown");
    assert!(!octopus_step(false, false, true, false, false).inks, "nothing nearby");
    // just emerged this tick and already threatened
    assert!(octopus_step(true, true, true, true, false).inks);
}

#[test]
fn only_visible_living_non_octopus_fish_startle_an_octopus() {
    assert!(startles_octopus(Species::Neon, false, false, false));
    assert!(startles_octopus(Species::Piranha, false, false, false));
    assert!(!startles_octopus(Species::Octopus, false, false, false));
    assert!(!startles_octopus(Species::Neon, true, false, false));
    assert!(!startles_octopus(Species::Neon, false, false, true));
}

#[test]
fn any_other_living_adult_may_bite_an_octopus() {
    assert!(can_bite_octopus(1, 0, Species::Piranha, false, Stage::Adult));
    assert!(can_bite_octopus(2, 0, Species::Goldfish, false, Stage::Adult));
    assert!(!can_bite_octopus(2, 0, Species::Goldfish, false, Stage::Fry));
    assert!(!can_bite_octopus(0, 0, Species::Goldfish, false, Stage::Adult));
    assert!(!can_bite_octopus(3, 0, Species::Octopus, false, Stage::Adult));
    assert!(!can_bite_octopus(3, 0, Species::Neon, true, Stage::Adult));
}

#[test]
fn hunters_are_hungry_predators_or_invincible_fish() {
    assert_eq!(hunt_kind(Species::Piranha, false, false, false, true, true, false), Some(HuntKind::Piranha));
    assert_eq!(hunt_kind(Species::Piranha, false, false, false, true, false, true), None);
    assert_eq!(hunt_kind(Species::Piranha, true, false, false, true, false, false), Some(HuntKind::Piranha));
    assert_eq!(hunt_kind(Species::Octopus, false, false, false, true, false, true), Some(HuntKind::Octopus));
    assert_eq!(hunt_kind(Species::Octopus, false, false, true, true, false, true), None);
    assert_eq!(hunt_kind(Species::Neon, false, false, false, true, true, true), None);
    assert_eq!(hunt_kind(Species::Neon, true, false, false, true, false, false), Some(HuntKind::Star));
    assert_eq!(hunt_kind(Species::Neon, true, false, false, false, false, false), None);
    assert_eq!(hunt_kind(Species::Piranha, true, true, false, true, true, true), None);
}

#[test]
fn marked_items_are_removed_and_the_rest_keep_their_order() {
    let mut items = vec!['a', 'b', 'c', 'd', 'e'];
    remove_marked(&mut items, &vec![true, false, false, true, false]);
    assert_eq!(items, vec!['b', 'c', 'e']);
    let mut none: Vec<u8> = vec![];
    remove_marked(&mut none, &vec![]);
    assert!(none.is_empty());
}
