use vstd::prelude::*;

verus! {

/// Kind of a short-lived visual effect (what was dropped or what happened),
/// which decides its colour.
#[derive(Clone, Copy, PartialEq, Eq, Debug, Structural)]
pub enum EffectKind {
    Food,
    Medicine,
    Knock,
    Blood,
    Spawn,
    Tap,
    Meat,
    Purify,
    Mate,
    Hatch,
    Decompose,
}

/// A sound the simulation asks the front end to play.
#[derive(Clone, Copy, PartialEq, Eq, Debug, Structural)]
pub enum SfxEvent {
    Bubble,
    Feed,
    Medicate,
    Purify,
    SickOnset,
    Cured,
    HungryOnset,
    GlassKnock,
    Predation,
    Ink,
    Tap,
    UiClick,
    StarPickup,
}

/// Kind of a passing cameo creature, which takes no part in the simulation.
#[derive(Clone, Copy, PartialEq, Eq, Debug, Structural)]
pub enum CameoKind {
    Turtle,
    Jellyfish,
    FishSchool,
}

} // verus!
