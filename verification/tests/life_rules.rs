use aquarium::biology::{effective_growth_cap, grow, hatch_ready_eggs, EggFate};
use aquarium::predation::{
    bite_message, bite_outcome, heal_bite, meals_after_grace, meals_after_meal, next_kill_stage,
    octopus_bite, piranha_bite, piranha_still_hungry, BiteMessage, BiteOutcome,
    OCTOPUS_BITES_TO_DIE, PIRANHA_BITES_TO_KILL,
};
use aquarium::species::Stage;

#[test]
fn third_piranha_bite_kills() {
    assert_eq!(piranha_bite(0), BiteOutcome::Wounded(1));
    assert_eq!(piranha_bite(1), BiteOutcome::Wounded(2));
    assert_eq!(piranha_bite(2), BiteOutcome::Killed);
}

#[test]
fn fifth_octopus_bite_kills() {
    let mut count = 0u8;
    for _ in 0..4 {
        match octopus_bite(count) {
            BiteOutcome::Wounded(c) => count = c,
            BiteOutcome::Killed => panic!("killed too early"),
        }
    }
    assert_eq!(count, 4);
    assert_eq!(octopus_bite(count), BiteOutcome::Killed);
    assert_eq!(bite_outcome(0, 1), BiteOutcome::Killed);
}

#[test]
fn bite_messages_follow_the_bite_number() {
    assert_eq!(bite_message(1, PIRANHA_BITES_TO_KILL), BiteMessage::FirstBite);
    assert_eq!(bite_message(2, PIRANHA_BITES_TO_KILL), BiteMessage::Weakened);
    assert_eq!(bite_message(3, PIRANHA_BITES_TO_KILL), BiteMessage::Fatal);
    assert_eq!(bite_message(4, OCTOPUS_BITES_TO_DIE), BiteMessage::Weakened);
    assert_eq!(bite_message(5, OCTOPUS_BITES_TO_DIE), BiteMessage::Fatal);
}

#[test]
fn bite_marks_heal_one_at_a_time() {
    assert_eq!(heal_bite(2, true), 1);
    assert_eq!(heal_bite(2, false), 2);
    assert_eq!(heal_bite(0, true), 0);
}

#[test]
fn kill_stage_grows_up_to_three() {
    assert_eq!(next_kill_stage(0), 1);
    assert_eq!(next_kill_stage(2), 3);
    assert_eq!(next_kill_stage(3), 3);
}

#[test]
fn piranha_needs_three_meals_before_it_stops_hunting() {
    // a sated piranha that has not eaten does not hunt
    assert!(!piranha_still_hungry(false, 0));
    assert!(piranha_still_hungry(true, 0));
    let m1 = meals_after_meal(0, true);
    assert_eq!(m1, 1);
    assert!(piranha_still_hungry(false, m1));
    let m2 = meals_after_meal(m1, true);
    assert_eq!(m2, 2);
    assert!(piranha_still_hungry(false, m2));
    let m3 = meals_after_meal(m2, true);
    assert_eq!(m3, 0);
    assert!(!piranha_still_hungry(false, m3));
    // reaching three meals while still hungry keeps counting
    assert_eq!(meals_after_meal(2, false), 3);
    assert!(!piranha_still_hungry(false, 3));
}

#[test]
fn piranha_gives_up_the_quota_after_the_grace_period() {
    assert_eq!(meals_after_grace(1, true), 0);
    assert_eq!(meals_after_grace(2, true), 0);
    assert_eq!(meals_after_grace(1, false), 1);
    assert_eq!(meals_after_grace(0, true), 0);
    assert_eq!(meals_after_grace(3, true), 3);
}

#[test]
fn growth_cap_varies_by_one_stage() {
    assert_eq!(effective_growth_cap(0), 3);
    assert_eq!(effective_growth_cap(1), 4);
    assert_eq!(effective_growth_cap(-1), 2);
    assert_eq!(effective_growth_cap(-5), 1);
    assert_eq!(effective_growth_cap(9), 4);
}

#[test]
fn fry_grows_up_and_adults_grow_until_their_cap() {
    assert_eq!(grow(Stage::Fry, 0, 0, true, false), (Stage::Adult, 0));
    assert_eq!(grow(Stage::Fry, 0, 0, true, true), (Stage::Adult, 1));
    assert_eq!(grow(Stage::Fry, 0, 0, false, true), (Stage::Fry, 0));
    assert_eq!(grow(Stage::Adult, 2, 0, false, true), (Stage::Adult, 3));
    assert_eq!(grow(Stage::Adult, 3, 0, false, true), (Stage::Adult, 3));
    assert_eq!(grow(Stage::Adult, 3, 1, false, true), (Stage::Adult, 4));
    assert_eq!(grow(Stage::Adult, 2, -1, false, true), (Stage::Adult, 2));
}

#[test]
fn eggs_hatch_only_while_the_tank_has_room() {
    let fates = hatch_ready_eggs(3, 5, &vec![false, true, false, false]);
    assert_eq!(fates, vec![EggFate::Hatched, EggFate::Failed, EggFate::Hatched, EggFate::Discarded]);
    let full = hatch_ready_eggs(5, 5, &vec![false]);
    assert_eq!(full, vec![EggFate::Discarded]);
    let over = hatch_ready_eggs(7, 5, &vec![false, true]);
    assert_eq!(over, vec![EggFate::Discarded, EggFate::Failed]);
}
