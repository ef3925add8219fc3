//! Oko: a tray application that shows random pictures of a library in the
//! browser, and lets the viewer like them or move them to a trash folder.

pub mod app;
pub mod config;
pub mod media;
pub mod store;
