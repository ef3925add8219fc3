//! Synthesizer parameters that the gamepad can edit.

use vstd::prelude::*;
use crate::borovylo::schema::Data;

verus! {

/// A parameter: its MIDI id and label.
#[derive(Clone, Debug)]
pub struct Param {
    pub id: u8,
    pub label: String,
}

pub struct ParamView {
    pub id: u8,
    pub label: Seq<char>,
}

impl View for Param {
    type V = ParamView;

    open spec fn view(&self) -> ParamView {
        ParamView { id: self.id, label: self.label@ }
    }
}

impl Param {
    pub fn new(id: u8, label: String) -> (r: Param)
        ensures
            r@ == (ParamView { id, label: label@ }),
    {
        Param { id, label }
    }

    /// A copy of the parameter.
    pub fn duplicate(&self) -> (r: Param)
        ensures
            r@ == self@,
    {
        Param { id: self.id, label: self.label.clone() }
    }
}

/// Kind of change of the parameter under edit.
#[derive(Eq, PartialEq, Structural, Copy, Clone, Debug)]
pub enum Event {
    Select,
    Updated,
}

/// Whether a subscriber that asked for `filter` hears of `event`.
pub fn passes(filter: Option<Event>, event: Event) -> (r: bool)
    ensures
        r == (match filter {
            Some(f) => f == event,
            None => true,
        }),
{
    match filter {
        Some(f) => f == event,
        None => true,
    }
}

/// Notice that the parameter with index `id` was taken up for editing.
#[derive(Eq, PartialEq, Structural, Copy, Clone, Debug)]
pub struct Mutation {
    pub mutation: Event,
    pub id: u8,
}


impl Mutation {
    /// The parameter that a selection notice is about; other notices carry none.
    pub fn item(&self, db: &Data) -> (r: Option<Param>)
        ensures
            match r {
                Some(p) => self.mutation == Event::Select && db@.params.contains_key(self.id as usize)
                    && p@ == db@.params[self.id as usize],
                None => self.mutation != Event::Select || !db@.params.contains_key(self.id as usize),
            },
    {
        match self.mutation {
            Event::Select => db.get_param_by_id(self.id as usize),
            _ => None,
        }
    }
}

} // verus!
