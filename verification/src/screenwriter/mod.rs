//! The screenwriter's notebook: the events of a story, day by day over one
//! summer of 92 days.

pub mod gamedata;
pub mod day;
