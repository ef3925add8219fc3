//! Verified core of the Borovylo gamepad/MIDI controller suite, the Oko media
//! browser and the screenwriter notebook: stores, state machines, lookup tables
//! and message builders, each with its contract.

pub mod borovylo;
pub mod borovylo2;
pub mod oko;
pub mod oko2;
pub mod screenwriter;
pub mod text;
