//! Oko, second generation: the picture service and its desktop viewer.

pub mod model;
