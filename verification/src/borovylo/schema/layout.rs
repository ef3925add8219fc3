//! Layouts: the buttons that the gamepad offers at one time.

use vstd::prelude::*;
use crate::borovylo::schema::button::{Button, ButtonView};
use crate::borovylo::schema::Data;

verus! {

/// A layout: its buttons, colour and label.
#[derive(Clone, Debug)]
pub struct Layout {
    pub buttons: Vec<Button>,
    pub color: String,
    pub label: String,
}

/// A layout as mathematical values.
pub struct LayoutView {
    pub buttons: Seq<ButtonView>,
    pub color: Seq<char>,
    pub label: Seq<char>,
}

impl View for Layout {
    type V = LayoutView;

    open spec fn view(&self) -> LayoutView {
        LayoutView {
            buttons: self.buttons@.map_values(|b: Button| b@),
            color: self.color@,
            label: self.label@,
        }
    }
}

/// Colour of every layout.
pub open spec fn layout_color() -> Seq<char> {
    "#343c46"@
}

impl Default for Layout {
    /// An empty layout named "New layout".
    fn default() -> (r: Layout)
        ensures
            r@ == (LayoutView { buttons: Seq::empty(), color: layout_color(), label: "New layout"@ }),
    {
        let r = Layout {
            label: String::from_str("New layout"),
            color: String::from_str("#343c46"),
            buttons: Vec::new(),
        };
        assert(r.buttons@.map_values(|b: Button| b@) =~= Seq::<ButtonView>::empty());
        r
    }
}

impl Layout {
    /// A layout with this label and these buttons, in the layout colour.
    pub fn new(label: String, buttons: Vec<Button>) -> (r: Layout)
        ensures
            r@ == (LayoutView { buttons: buttons@.map_values(|b: Button| b@), color: layout_color(), label: label@ }),
    {
        Layout { label, buttons, color: String::from_str("#343c46") }
    }

    /// A copy of the layout.
    pub fn duplicate(&self) -> (r: Layout)
        ensures
            r@ == self@,
    {
        let mut buttons: Vec<Button> = Vec::new();
        let mut i: usize = 0;
        while i < self.buttons.len()
            invariant
                i <= self.buttons.len(),
                buttons@.len() == i,
                forall|k: int| 0 <= k < i ==> (#[trigger] buttons@[k])@ == self.buttons@[k]@,
            decreases self.buttons.len() - i,
        {
            buttons.push(self.buttons[i].duplicate());
            i = i + 1;
        }
        let r = Layout { buttons, color: self.color.clone(), label: self.label.clone() };
        assert(r.buttons@.map_values(|b: Button| b@) =~= self.buttons@.map_values(|b: Button| b@));
        r
    }
}

/// Kind of change of a layout.
#[derive(Eq, PartialEq, Structural, Copy, Clone, Debug)]
pub enum Event {
    Updated,
}

/// Whether a subscriber that asked for `filter` hears of `event`.
pub fn passes(filter: Option<Event>, event: Event) -> (r: bool)
    ensures
        r == (match filter {
            Some(f) => f == event,
            None => true,
        }),
{
    match filter {
        Some(f) => f == event,
        None => true,
    }
}

/// Notice that the layout with index `id` was loaded.
#[derive(Eq, PartialEq, Structural, Copy, Clone, Debug)]
pub struct Mutation {
    pub mutation: Event,
    pub id: usize,
}

impl Mutation {
    pub fn new(id: usize, mutation: Event) -> (r: Mutation)
        ensures
            r == (Mutation { mutation, id }),
    {
        Mutation { id, mutation }
    }
}


impl Mutation {
    /// The layout that the notice is about.
    pub fn layout(&self, db: &Data) -> (r: Option<Layout>)
        ensures
            match r {
                Some(l) => db@.layouts.contains_key(self.id) && l@ == db@.layouts[self.id],
                None => !db@.layouts.contains_key(self.id),
            },
    {
        db.get_layout_by_id(self.id)
    }
}

} // verus!
