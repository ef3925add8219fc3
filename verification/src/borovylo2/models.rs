//! What the synthesizer process and the layout window share: the items of a
//! layout, their states, and the parameters' names.

use vstd::prelude::*;

verus! {

/// An item of a layout: a synthesizer parameter, nothing, or a layout.
#[derive(PartialEq, Eq, Structural, Debug, Clone, Copy, Hash)]
pub enum Item {
    Level,
    Attack,
    Release,
    Pitch,
    StartPosition,
    Lenght,
    Empty,
    EmptyBoxLayout,
    RootLayout,
    SecondLayout,
}

/// Number of an item: for a parameter, its index in the synthesizer's table
/// of parameters.
pub open spec fn item_code(i: Item) -> u8 {
    match i {
        Item::Level => 0,
        Item::Attack => 19,
        Item::Release => 16,
        Item::Pitch => 5,
        Item::StartPosition => 14,
        Item::Lenght => 15,
        Item::Empty => 100,
        Item::EmptyBoxLayout => 101,
        Item::RootLayout => 102,
        Item::SecondLayout => 103,
    }
}

impl Item {
    /// Number of the item.
    pub fn code(&self) -> (r: u8)
        ensures
            r == item_code(*self),
    {
        match self {
            Item::Level => 0,
            Item::Attack => 19,
            Item::Release => 16,
            Item::Pitch => 5,
            Item::StartPosition => 14,
            Item::Lenght => 15,
            Item::Empty => 100,
            Item::EmptyBoxLayout => 101,
            Item::RootLayout => 102,
            Item::SecondLayout => 103,
        }
    }

    /// Whether the item is a layout.
    pub fn is_layout(&self) -> (r: bool)
        ensures
            r == (*self == Item::EmptyBoxLayout || *self == Item::RootLayout || *self == Item::SecondLayout),
    {
        match self {
            Item::EmptyBoxLayout | Item::RootLayout | Item::SecondLayout => true,
            _ => false,
        }
    }
}

/// State of a button in the layout window.
#[derive(PartialEq, Eq, Structural, Debug, Clone, Copy)]
pub enum ItemState {
    /// the button is not used in the layout
    Disabled,
    /// the button is used in the layout shown
    Ready,
    /// the button was pressed and its action runs
    Active,
}

pub open spec fn item_state_code(s: ItemState) -> u8 {
    match s {
        ItemState::Disabled => 0,
        ItemState::Ready => 1,
        ItemState::Active => 2,
    }
}

impl ItemState {
    /// Number of the state.
    pub fn code(&self) -> (r: u8)
        ensures
            r == item_state_code(*self),
    {
        match self {
            ItemState::Disabled => 0,
            ItemState::Ready => 1,
            ItemState::Active => 2,
        }
    }
}

/// Update of one button of the layout window.
#[derive(PartialEq, Eq, Structural, Debug, Clone, Copy)]
pub struct ItemICP {
    /// the item of the button
    pub id: Item,
    /// its state
    pub status: ItemState,
    /// value of the parameter, in percent
    pub value: u8,
}

impl ItemICP {
    pub fn new(id: Item, status: ItemState, value: u8) -> (r: Self)
        ensures
            r == (ItemICP { id, status, value }),
    {
        Self { id, status, value }
    }
}

/// Update of the whole layout window.
#[derive(Debug)]
pub struct UpdateGUI(pub Vec<ItemICP>);

/// A parameter of the synthesizer: its name and item.
#[derive(Debug, Clone)]
pub struct ParamContext {
    pub name: String,
    pub id: Item,
}

impl ParamContext {
    pub fn new(name: String, id: Item) -> (r: Self)
        ensures
            r.name@ == name@,
            r.id == id,
    {
        Self { name, id }
    }
}

/// Name shown for each item.
pub open spec fn item_name(i: Item) -> Seq<char> {
    match i {
        Item::Empty => ""@,
        Item::EmptyBoxLayout => "EMPTY BOX"@,
        Item::RootLayout => "ROOT"@,
        Item::SecondLayout => "SECOND"@,
        Item::Level => "LEVEL"@,
        Item::Attack => "ATTACK"@,
        Item::Release => "RELEASE"@,
        Item::Pitch => "PITCH"@,
        Item::StartPosition => "START"@,
        Item::Lenght => "RANGE"@,
    }
}

/// The items, in the order of the table of names.
pub open spec fn all_items() -> Seq<Item> {
    seq![
        Item::Empty, Item::EmptyBoxLayout, Item::RootLayout, Item::SecondLayout, Item::Level,
        Item::Attack, Item::Release, Item::Pitch, Item::StartPosition, Item::Lenght,
    ]
}

/// The table of names: one entry for each item, with its name.
pub open spec fn names_table(t: Seq<ParamContext>) -> bool {
    &&& t.len() == all_items().len()
    &&& forall|k: int| 0 <= k < t.len() ==> (#[trigger] t[k]).id == all_items()[k] && t[k].name@ == item_name(t[k].id)
}

fn entry(name: &str, id: Item) -> (r: ParamContext)
    ensures
        r.name@ == name@,
        r.id == id,
{
    ParamContext::new(String::from_str(name), id)
}

/// The table of names of all items.
pub fn create() -> (r: Vec<ParamContext>)
    ensures
        names_table(r@),
{
    let mut r: Vec<ParamContext> = Vec::new();
    r.push(entry("", Item::Empty));
    r.push(entry("EMPTY BOX", Item::EmptyBoxLayout));
    r.push(entry("ROOT", Item::RootLayout));
    r.push(entry("SECOND", Item::SecondLayout));
    r.push(entry("LEVEL", Item::Level));
    r.push(entry("ATTACK", Item::Attack));
    r.push(entry("RELEASE", Item::Release));
    r.push(entry("PITCH", Item::Pitch));
    r.push(entry("START", Item::StartPosition));
    r.push(entry("RANGE", Item::Lenght));
    r
}

/// The entry for `id` in a table of names, if any.
pub fn find_param(table: &Vec<ParamContext>, id: Item) -> (r: Option<&ParamContext>)
    ensures
        match r {
            Some(p) => p.id == id && exists|k: int| 0 <= k < table@.len() && table@[k] == *p,
            None => forall|k: int| 0 <= k < table@.len() ==> (#[trigger] table@[k]).id != id,
        },
{
    let mut i: usize = 0;
    while i < table.len()
        invariant
            i <= table@.len(),
            forall|k: int| 0 <= k < i ==> (#[trigger] table@[k]).id != id,
        decreases table@.len() - i,
    {
        if table[i].id == id {
            return Some(&table[i]);
        }
        i = i + 1;
    }
    None
}

/// In a table of names, every item has an entry, named by its name.
pub proof fn lemma_every_item_named(t: Seq<ParamContext>, i: Item)
    requires
        names_table(t),
    ensures
        exists|k: int| 0 <= k < t.len() && (#[trigger] t[k]).id == i && t[k].name@ == item_name(i),
{
    let k: int = match i {
        Item::Empty => 0,
        Item::EmptyBoxLayout => 1,
        Item::RootLayout => 2,
        Item::SecondLayout => 3,
        Item::Level => 4,
        Item::Attack => 5,
        Item::Release => 6,
        Item::Pitch => 7,
        Item::StartPosition => 8,
        Item::Lenght => 9,
    };
    assert(t[k].id == i);
}

} // verus!
