//! The layout window: the buttons it shows for an update of the layout.

use vstd::prelude::*;
use crate::borovylo2::models::{
    find_param, item_name, item_state_code, lemma_every_item_named, names_table, Item, ItemICP,
    ParamContext, UpdateGUI,
};

verus! {

/// A button of the layout window.
#[derive(Debug, Clone)]
pub struct Control {
    /// the name of its item
    pub name: String,
    /// the number of its state
    pub status: i32,
    /// its colour: `1` for a layout, `0` for a parameter to edit
    pub action: i32,
    /// the parameter's value, in percent
    pub value: i32,
}

/// The colour of the button of an item: layouts have their own.
pub open spec fn control_kind(i: Item) -> i32 {
    if i == Item::EmptyBoxLayout || i == Item::RootLayout || i == Item::SecondLayout {
        1
    } else {
        0
    }
}

/// The button shown for one item of an update.
pub open spec fn control_of(u: ItemICP) -> (Seq<char>, i32, i32, i32) {
    (item_name(u.id), item_state_code(u.status) as i32, control_kind(u.id), 0)
}

/// The buttons of the layout window for an update, in its order, each named
/// from the table of names.
pub fn controls_of_update(update: &UpdateGUI, table: &Vec<ParamContext>) -> (r: Vec<Control>)
    requires
        names_table(table@),
    ensures
        r@.len() == update.0@.len(),
        forall|k: int| 0 <= k < r@.len() ==> ((#[trigger] r@[k]).name@, r@[k].status, r@[k].action, r@[k].value)
            == control_of(update.0@[k]),
{
    let mut out: Vec<Control> = Vec::new();
    let mut i: usize = 0;
    while i < update.0.len()
        invariant
            i <= update.0@.len(),
            names_table(table@),
            out@.len() == i,
            forall|k: int| 0 <= k < i ==> ((#[trigger] out@[k]).name@, out@[k].status, out@[k].action, out@[k].value)
                == control_of(update.0@[k]),
        decreases update.0@.len() - i,
    {
        let item = update.0[i];
        proof { lemma_every_item_named(table@, item.id); }
        let entry = find_param(table, item.id).unwrap();
        let action: i32 = if item.id.is_layout() { 1 } else { 0 };
        let control = Control {
            name: entry.name.clone(),
            status: item.status.code() as i32,
            action,
            value: 0,
        };
        out.push(control);
        i = i + 1;
    }
    out
}

} // verus!
