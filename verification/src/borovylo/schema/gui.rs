//! Updates for the web interface.

use vstd::prelude::*;

verus! {

/// Kind of update of the web interface.
#[derive(Eq, PartialEq, Structural, Copy, Clone, Debug)]
pub enum Event {
    PageUpdate,
    ButtonUpdate,
    LogUpdate,
}

pub open spec fn gui_event_code(e: Event) -> u8 {
    match e {
        Event::PageUpdate => 1,
        Event::ButtonUpdate => 2,
        Event::LogUpdate => 3,
    }
}

impl Event {
    /// Number of the update kind on the wire.
    pub fn code(&self) -> (r: u8)
        ensures
            r == gui_event_code(*self),
    {
        match self {
            Event::PageUpdate => 1,
            Event::ButtonUpdate => 2,
            Event::LogUpdate => 3,
        }
    }
}

/// Whether a subscriber that asked for `filter` hears of `event`.
pub fn passes(filter: Option<Event>, event: Event) -> (r: bool)
    ensures
        r == (match filter {
            Some(f) => f == event,
            None => true,
        }),
{
    match filter {
        Some(f) => f == event,
        None => true,
    }
}

/// One block of the web page. The opacity is in percent.
#[derive(Clone, Debug)]
pub struct Block {
    pub id: u8,
    pub bg: Option<String>,
    pub opacity: Option<u8>,
    pub label: Option<String>,
}

pub struct BlockView {
    pub id: u8,
    pub bg: Option<Seq<char>>,
    pub opacity: Option<u8>,
    pub label: Option<Seq<char>>,
}

pub open spec fn opt_string_view(s: Option<String>) -> Option<Seq<char>> {
    match s {
        Some(x) => Some(x@),
        None => None,
    }
}

impl View for Block {
    type V = BlockView;

    open spec fn view(&self) -> BlockView {
        BlockView {
            id: self.id,
            bg: opt_string_view(self.bg),
            opacity: self.opacity,
            label: opt_string_view(self.label),
        }
    }
}

/// An update of the web interface with its blocks.
#[derive(Clone, Debug)]
pub struct Mutation {
    pub mutation: Event,
    pub data: Vec<Block>,
}

pub struct MutationView {
    pub mutation: Event,
    pub data: Seq<BlockView>,
}

impl View for Mutation {
    type V = MutationView;

    open spec fn view(&self) -> MutationView {
        MutationView { mutation: self.mutation, data: self.data@.map_values(|b: Block| b@) }
    }
}

impl Mutation {
    pub fn new(mutation: Event, data: Vec<Block>) -> (r: Self)
        ensures
            r@ == (MutationView { mutation, data: data@.map_values(|b: Block| b@) }),
    {
        Mutation { mutation, data }
    }

    /// Number of the update kind on the wire.
    pub fn id(&self) -> (r: u8)
        ensures
            r == gui_event_code(self.mutation),
    {
        self.mutation.code()
    }
}

} // verus!
