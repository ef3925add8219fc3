//! Borovylo, second generation: the gamepad edits the parameters of a Csound
//! granular synthesizer directly, and a separate window shows the layout.

pub mod models;
pub mod store;
pub mod view;
