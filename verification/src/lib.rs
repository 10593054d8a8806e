//! Integer and decision logic of a terminal aquarium simulation: tank
//! geometry, species rules, predation state machines, feeding settings and
//! the bookkeeping of items that settle on the seabed.

pub mod biology;
pub mod courtship;
pub mod effects;
pub mod octopus;
pub mod predation;
pub mod seabed;
pub mod settings;
pub mod species;
pub mod tank;
