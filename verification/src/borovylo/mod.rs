//! Borovylo: a gamepad turned into a MIDI controller.

pub mod action;
pub mod channel;
pub mod edit_param;
pub mod gamepad;
pub mod podulo;
pub mod settings;
pub mod schema;
pub mod subscribe;
