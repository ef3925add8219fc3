//! Buttons of the layout shown on the gamepad.

use vstd::prelude::*;
use slab::Slab;
use crate::borovylo::action::Action;
use crate::borovylo::schema::layout::Layout;
use crate::borovylo::schema::slabs::{button_slab_contents, button_slab_packed, new_button_slab, insert_button};
use crate::borovylo::schema::{Data, DataView, dense_buttons, slab_buttons};
use crate::text::{decimal, usize_to_string};

verus! {

/// A button: what it does, the ids it does it with, and its colour.
#[derive(Clone, Debug)]
pub struct Button {
    /// what the button does
    pub action: Action,
    /// ids that the action works on; the first is the target
    pub data: Vec<usize>,
    pub color: String,
}

/// A button as mathematical values.
pub struct ButtonView {
    pub action: Action,
    pub data: Seq<usize>,
    pub color: Seq<char>,
}

impl View for Button {
    type V = ButtonView;

    open spec fn view(&self) -> ButtonView {
        ButtonView { action: self.action, data: self.data@, color: self.color@ }
    }
}

/// Colour of a button that was not given one.
pub open spec fn default_color() -> Seq<char> {
    "0.5"@
}

impl Default for Button {
    /// A button that does nothing, in the default colour.
    fn default() -> (r: Button)
        ensures
            r@ == (ButtonView { action: Action::NoAction, data: Seq::empty(), color: default_color() }),
    {
        Button { action: Action::NoAction, data: Vec::new(), color: String::from_str("0.5") }
    }
}

impl Button {
    /// A button with its action and data, in the default colour.
    pub fn new(data: Vec<usize>, action: Action) -> (r: Button)
        ensures
            r@ == (ButtonView { action, data: data@, color: default_color() }),
    {
        Button { action, data, color: String::from_str("0.5") }
    }

    /// A copy of the button.
    pub fn duplicate(&self) -> (r: Button)
        ensures
            r@ == self@,
    {
        let mut data: Vec<usize> = Vec::new();
        let mut i: usize = 0;
        while i < self.data.len()
            invariant
                i <= self.data.len(),
                data@ == self.data@.subrange(0, i as int),
            decreases self.data.len() - i,
        {
            data.push(self.data[i]);
            i = i + 1;
        }
        assert(self.data@.subrange(0, self.data.len() as int) == self.data@);
        Button { action: self.action, data, color: self.color.clone() }
    }

    /// The id that the button works on last: the last of its data.
    pub fn id(&self) -> (r: Option<usize>)
        ensures
            r == (if self.data@.len() == 0 { None } else { Some(self.data@.last()) }),
    {
        if self.data.len() == 0 {
            None
        } else {
            Some(self.data[self.data.len() - 1])
        }
    }
}


impl Button {
    /// The buttons of a layout, in a slab keyed `0, 1, ...` in their order.
    pub fn init(layout: &Layout) -> (r: Slab<Button>)
        ensures
            dense_buttons(r),
            slab_buttons(r) == layout@.buttons,
    {
        let mut buttons = new_button_slab();
        let mut i: usize = 0;
        while i < layout.buttons.len()
            invariant
                i <= layout.buttons.len(),
                button_slab_contents(buttons).dom().finite(),
                button_slab_contents(buttons).dom().len() == i,
                button_slab_packed(buttons),
                forall|k: usize| #[trigger] button_slab_contents(buttons).dom().contains(k) <==> k < i,
                forall|k: usize| k < i ==> (#[trigger] button_slab_contents(buttons)[k])@ == layout.buttons@[k as int]@,
            decreases layout.buttons.len() - i,
        {
            let b = layout.buttons[i].duplicate();
            let key = insert_button(&mut buttons, b);
            assert(key == i);
            i = i + 1;
        }
        assert(slab_buttons(buttons) =~= layout@.buttons);
        buttons
    }
}

/// Kind of change of a button.
#[derive(Eq, PartialEq, Structural, Copy, Clone, Debug)]
pub enum Event {
    Created,
    Updated,
}

/// Whether a subscriber that asked for `filter` (all changes when `None`)
/// hears of a change of kind `event`.
pub fn passes(filter: Option<Event>, event: Event) -> (r: bool)
    ensures
        r == (match filter {
            Some(f) => f == event,
            None => true,
        }),
{
    match filter {
        Some(f) => f == event,
        None => true,
    }
}

/// Notice that the button with index `id` changed.
#[derive(Eq, PartialEq, Structural, Copy, Clone, Debug)]
pub struct Mutation {
    pub mutation: Event,
    pub id: usize,
}

impl Mutation {
    pub fn new(id: usize, mutation: Event) -> (r: Mutation)
        ensures
            r == (Mutation { mutation, id }),
    {
        Mutation { id, mutation }
    }
}


/// A button's label can be shown: the parameter or layout that it names exists,
/// and a channel number can be counted from one.
pub open spec fn label_defined(b: ButtonView, d: DataView) -> bool {
    b.data.len() > 0 ==> {
        &&& b.action == Action::EditParam ==> d.params.contains_key(b.data[0])
        &&& b.action == Action::LoadLayout ==> d.layouts.contains_key(b.data[0])
        &&& b.action == Action::SelectChan ==> b.data[0] < usize::MAX
    }
}

/// The label of a button: the parameter or layout it names, or the channel
/// it selects counted from one; empty for a button without a target.
pub open spec fn spec_label(b: ButtonView, d: DataView) -> Seq<char> {
    if b.data.len() == 0 {
        Seq::empty()
    } else {
        match b.action {
            Action::EditParam => d.params[b.data[0]].label,
            Action::LoadLayout => d.layouts[b.data[0]].label,
            Action::SelectChan => "CHAN "@ + decimal((b.data[0] + 1) as nat),
            Action::NoAction => Seq::empty(),
        }
    }
}

impl Button {
    /// The label of the button, as the web interface shows it.
    pub fn label(&self, db: &Data) -> (r: String)
        requires
            label_defined(self@, db@),
        ensures
            r@ == spec_label(self@, db@),
    {
        if self.data.len() == 0 {
            return String::new();
        }
        match self.action {
            Action::EditParam => db.get_param_by_id(self.data[0]).unwrap().label,
            Action::LoadLayout => db.get_layout_by_id(self.data[0]).unwrap().label,
            Action::SelectChan => {
                let number = usize_to_string(self.data[0] + 1);
                let mut text = String::from_str("CHAN ");
                text.append(number.as_str());
                text
            },
            Action::NoAction => String::new(),
        }
    }
}

impl Mutation {
    /// The button that the notice is about, as it is now.
    pub fn item(&self, db: &Data) -> (r: Option<Button>)
        ensures
            match r {
                Some(b) => (self.id as int) < db@.buttons.len() && b@ == db@.buttons[self.id as int],
                None => (self.id as int) >= db@.buttons.len(),
            },
    {
        db.get_button_by_id(self.id)
    }
}

} // verus!
