//! MIDI actions that the data service asks the MIDI driver to carry out.

use vstd::prelude::*;

verus! {

/// A MIDI action; its number on the wire is given by [`MidiAction::code`].
#[derive(Eq, PartialEq, Structural, Copy, Clone, Debug)]
pub enum MidiAction {
    /// load a layout
    LoadLayout,
    /// set the active parameter
    ActivateParam,
    /// change the parameter
    ParamUpdate,
    /// stop changing the parameter
    ParamWaiting,
    /// load a layout locally
    LoadLayoutLocal,
}

pub open spec fn midi_action_code(a: MidiAction) -> u8 {
    match a {
        MidiAction::LoadLayout => 1,
        MidiAction::ActivateParam => 2,
        MidiAction::ParamUpdate => 3,
        MidiAction::ParamWaiting => 4,
        MidiAction::LoadLayoutLocal => 5,
    }
}

impl MidiAction {
    /// Number of the action on the wire.
    pub fn code(&self) -> (r: u8)
        ensures
            r == midi_action_code(*self),
    {
        match self {
            MidiAction::LoadLayout => 1,
            MidiAction::ActivateParam => 2,
            MidiAction::ParamUpdate => 3,
            MidiAction::ParamWaiting => 4,
            MidiAction::LoadLayoutLocal => 5,
        }
    }
}

/// Whether a subscriber that asked for `filter` hears of `event`.
pub fn passes(filter: Option<MidiAction>, event: MidiAction) -> (r: bool)
    ensures
        r == (match filter {
            Some(f) => f == event,
            None => true,
        }),
{
    match filter {
        Some(f) => f == event,
        None => true,
    }
}

/// A MIDI action with the three-byte message to send, if any.
#[derive(Copy, Clone, Debug)]
pub struct OnMidiAction {
    pub mutation: MidiAction,
    pub midi: Option<[u8; 3]>,
}

impl OnMidiAction {
    pub fn new(mutation: MidiAction, midi: Option<[u8; 3]>) -> (r: Self)
        ensures
            r == (OnMidiAction { mutation, midi }),
    {
        OnMidiAction { mutation, midi }
    }

    /// Number of the action on the wire.
    pub fn id(&self) -> (r: u8)
        ensures
            r == midi_action_code(self.mutation),
    {
        self.mutation.code()
    }
}

} // verus!
