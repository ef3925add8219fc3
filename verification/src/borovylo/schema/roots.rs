//! The queries and mutations that the data service answers.

use vstd::prelude::*;
use crate::borovylo::action::Action;
use crate::borovylo::schema::{Data, DataError, DataView, Pressed, spec_set_layout};
use crate::borovylo::schema::button::Button;
use crate::borovylo::schema::layout;
use crate::borovylo::schema::midi::OnMidiAction;
use crate::borovylo::schema::param::{self, Param};

verus! {

/// The queries of the data service.
pub struct QueryRoot;

/// The mutations of the data service.
pub struct MutationRoot;

/// The subscriptions of the data service: each kind of notice goes to the
/// subscribers whose filter it passes (see `passes` of each kind).
pub struct SubscriptionRoot;

impl QueryRoot {
    /// Every button of the layout shown.
    pub fn get_all_buttons(&self, db: &Data) -> (r: Vec<Button>)
        ensures
            r@.map_values(|b: Button| b@) == db@.buttons,
    {
        db.get_buttons()
    }

    /// The button with index `id`, if any.
    pub fn get_button(&self, db: &Data, id: usize) -> (r: Option<Button>)
        ensures
            match r {
                Some(b) => (id as int) < db@.buttons.len() && b@ == db@.buttons[id as int],
                None => (id as int) >= db@.buttons.len(),
            },
    {
        db.get_button_by_id(id)
    }

    /// The parameter with key `id`, if any.
    pub fn get_param(&self, db: &Data, id: usize) -> (r: Option<Param>)
        ensures
            match r {
                Some(p) => db@.params.contains_key(id) && p@ == db@.params[id],
                None => !db@.params.contains_key(id),
            },
    {
        db.get_param_by_id(id)
    }
}

/// The state after asking for the layout `id`: nothing happens when it is
/// the layout shown.
pub open spec fn spec_set_layout_if_new(d: DataView, id: usize) -> DataView {
    if d.lid != id {
        spec_set_layout(d, id)
    } else {
        d
    }
}

impl MutationRoot {
    /// Shows the layout `id` unless it is shown already; returns `id` and the
    /// notice to publish, if the layout was loaded.
    pub fn set_layout(&self, db: &mut Data, id: usize) -> (r: (usize, Option<layout::Mutation>))
        ensures
            r.0 == id,
            final(db)@ == spec_set_layout_if_new(old(db)@, id),
            r.1 == (if old(db)@.lid != id {
                Some(layout::Mutation { mutation: layout::Event::Updated, id })
            } else {
                None
            }),
    {
        if db.lid() != id {
            let m = db.set_layout_by_id(id);
            (id, Some(m))
        } else {
            (id, None)
        }
    }

    /// As [`MutationRoot::set_layout`], for a layout chosen on the device itself.
    pub fn set_layout_local(&self, db: &mut Data, id: usize) -> (r: (usize, Option<layout::Mutation>))
        ensures
            r.0 == id,
            final(db)@ == spec_set_layout_if_new(old(db)@, id),
            r.1 == (if old(db)@.lid != id {
                Some(layout::Mutation { mutation: layout::Event::Updated, id })
            } else {
                None
            }),
    {
        self.set_layout(db, id)
    }
}

} // verus!
