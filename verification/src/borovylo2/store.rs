//! The state of the gamepad side: the layouts, the layout shown, the
//! parameter whose value the right stick changes, and which buttons are
//! ignored.

use vstd::prelude::*;
use crate::borovylo2::models::{create, names_table, Item, ItemICP, ItemState, ParamContext, UpdateGUI};

verus! {

/// A message to the synthesizer process.
#[derive(Debug)]
pub enum PlayInstr {
    /// load the sample with this file name from the library
    LoadSample(String),
    /// raise the parameter by one step
    AddParamStep(Item),
    /// lower the parameter by one step
    SubParamStep(Item),
    /// stop
    Exit,
}

/// How the right stick moves a parameter.
#[derive(Debug, Clone, Copy, PartialEq, Eq, Structural)]
pub enum EncoderStep {
    AddMax,
    Add,
    Sub,
    SubMax,
}

/// A button of the gamepad.
#[derive(Debug, Clone, Copy, PartialEq, Eq, Structural)]
pub enum PadButton {
    South,
    East,
    North,
    West,
    C,
    Z,
    LeftTrigger,
    LeftTrigger2,
    RightTrigger,
    RightTrigger2,
    Select,
    Start,
    Mode,
    LeftThumb,
    RightThumb,
    DPadUp,
    DPadDown,
    DPadLeft,
    DPadRight,
    Unknown,
}

/// The eight buttons that a layout assigns, in the order of the layout window.
pub open spec fn layout_buttons() -> Seq<PadButton> {
    seq![
        PadButton::North, PadButton::East, PadButton::West, PadButton::South,
        PadButton::DPadDown, PadButton::DPadLeft, PadButton::DPadRight, PadButton::DPadUp,
    ]
}

/// Buttons that are always ignored: the extra face buttons, the triggers, the
/// menu pad and the stick buttons.
pub open spec fn always_ignored(b: PadButton) -> bool {
    !layout_buttons().contains(b)
}

/// What a button of a layout does.
#[derive(Eq, PartialEq, Structural, Copy, Clone, Debug)]
pub enum Action {
    Empty,
    /// edit this parameter with the right stick
    EditParam(Item),
    /// load this layout
    LoadLayout(Item),
}

/// A layout: the action of each of the eight buttons.
#[derive(Eq, PartialEq, Structural, Copy, Clone, Debug)]
pub struct ControlMap {
    pub north: Action,
    pub east: Action,
    pub west: Action,
    pub south: Action,
    pub dpad_down: Action,
    pub dpad_left: Action,
    pub dpad_right: Action,
    pub dpad_up: Action,
}

/// The action of a button in a layout; the buttons outside the eight have none.
pub open spec fn action_of(m: ControlMap, b: PadButton) -> Option<Action> {
    match b {
        PadButton::North => Some(m.north),
        PadButton::East => Some(m.east),
        PadButton::West => Some(m.west),
        PadButton::South => Some(m.south),
        PadButton::DPadDown => Some(m.dpad_down),
        PadButton::DPadLeft => Some(m.dpad_left),
        PadButton::DPadRight => Some(m.dpad_right),
        PadButton::DPadUp => Some(m.dpad_up),
        _ => None,
    }
}

/// Update of the layout window for one button: the pressed button whose
/// parameter is edited is active, other used buttons are ready.
pub open spec fn gui_item(a: Action, pressed: bool) -> ItemICP {
    match a {
        Action::EditParam(p) => ItemICP { id: p, status: if pressed { ItemState::Active } else { ItemState::Ready }, value: 0 },
        Action::LoadLayout(l) => ItemICP { id: l, status: ItemState::Ready, value: 0 },
        Action::Empty => ItemICP { id: Item::Empty, status: ItemState::Disabled, value: 0 },
    }
}

/// Update of the layout window for a layout, after the button `id` was pressed.
pub open spec fn gui_items(m: ControlMap, id: PadButton) -> Seq<ItemICP> {
    layout_buttons().map_values(|b: PadButton| gui_item(action_of(m, b)->Some_0, b == id))
}

impl Default for ControlMap {
    /// A layout of eight unused buttons.
    fn default() -> (r: ControlMap)
        ensures
            r == empty_layout(),
    {
        ControlMap {
            north: Action::Empty,
            east: Action::Empty,
            west: Action::Empty,
            south: Action::Empty,
            dpad_down: Action::Empty,
            dpad_left: Action::Empty,
            dpad_right: Action::Empty,
            dpad_up: Action::Empty,
        }
    }
}

impl ControlMap {
    /// The action of a button; none for buttons outside the eight.
    pub fn action(&self, b: PadButton) -> (r: Option<Action>)
        ensures
            r == action_of(*self, b),
    {
        match b {
            PadButton::North => Some(self.north),
            PadButton::East => Some(self.east),
            PadButton::West => Some(self.west),
            PadButton::South => Some(self.south),
            PadButton::DPadDown => Some(self.dpad_down),
            PadButton::DPadLeft => Some(self.dpad_left),
            PadButton::DPadRight => Some(self.dpad_right),
            PadButton::DPadUp => Some(self.dpad_up),
            _ => None,
        }
    }

    /// Update of the layout window for this layout after the button `id` was
    /// pressed, one entry per button in window order.
    pub fn update_gui(&self, id: PadButton) -> (r: UpdateGUI)
        ensures
            r.0@ == gui_items(*self, id),
    {
        let order = [
            PadButton::North, PadButton::East, PadButton::West, PadButton::South,
            PadButton::DPadDown, PadButton::DPadLeft, PadButton::DPadRight, PadButton::DPadUp,
        ];
        let mut update: Vec<ItemICP> = Vec::new();
        let mut i: usize = 0;
        while i < 8
            invariant
                i <= 8,
                order@ == layout_buttons(),
                update@ == gui_items(*self, id).subrange(0, i as int),
            decreases 8 - i,
        {
            let ch = order[i];
            let item = match self.action(ch).unwrap() {
                Action::EditParam(pid) => {
                    if ch == id {
                        ItemICP::new(pid, ItemState::Active, 0)
                    } else {
                        ItemICP::new(pid, ItemState::Ready, 0)
                    }
                },
                Action::LoadLayout(lid) => ItemICP::new(lid, ItemState::Ready, 0),
                Action::Empty => ItemICP::new(Item::Empty, ItemState::Disabled, 0),
            };
            update.push(item);
            assert(update@ =~= gui_items(*self, id).subrange(0, i + 1));
            i = i + 1;
        }
        assert(gui_items(*self, id).subrange(0, 8) =~= gui_items(*self, id));
        UpdateGUI(update)
    }
}

/// Whether a button is always ignored.
pub fn is_ignored(b: PadButton) -> (r: bool)
    ensures
        r == always_ignored(b),
{
    proof {
        assert(layout_buttons()[0] == PadButton::North);
        assert(layout_buttons()[1] == PadButton::East);
        assert(layout_buttons()[2] == PadButton::West);
        assert(layout_buttons()[3] == PadButton::South);
        assert(layout_buttons()[4] == PadButton::DPadDown);
        assert(layout_buttons()[5] == PadButton::DPadLeft);
        assert(layout_buttons()[6] == PadButton::DPadRight);
        assert(layout_buttons()[7] == PadButton::DPadUp);
    }
    match b {
        PadButton::North | PadButton::East | PadButton::West | PadButton::South | PadButton::DPadDown
        | PadButton::DPadLeft | PadButton::DPadRight | PadButton::DPadUp => false,
        _ => true,
    }
}

/// Filter of gamepad events: the buttons to ignore besides those always ignored.
#[derive(Debug, Clone)]
pub struct DenyEvent {
    pub ignore: Vec<PadButton>,
}

impl Default for DenyEvent {
    /// A filter that ignores only the buttons always ignored.
    fn default() -> (r: Self)
        ensures
            r.ignore@ == Seq::<PadButton>::empty(),
    {
        Self { ignore: Vec::new() }
    }
}

impl DenyEvent {
    /// A filter that ignores the button `btn` too.
    pub fn new(btn: PadButton) -> (r: Self)
        ensures
            r.ignore@ == seq![btn],
    {
        Self { ignore: vec![btn] }
    }

    /// Whether a press or release of `btn` is dropped.
    pub fn drops(&self, btn: PadButton) -> (r: bool)
        ensures
            r == (self.ignore@.contains(btn) || always_ignored(btn)),
    {
        let mut i: usize = 0;
        while i < self.ignore.len()
            invariant
                i <= self.ignore@.len(),
                forall|k: int| 0 <= k < i ==> self.ignore@[k] != btn,
            decreases self.ignore@.len() - i,
        {
            if self.ignore[i] == btn {
                return true;
            }
            i = i + 1;
        }
        is_ignored(btn)
    }
}

/// The parameter that the right stick edits, and how it moves it. The stick's
/// position and time of change are kept by the event loop.
#[derive(Debug, Clone, Copy, PartialEq, Eq, Structural)]
pub struct EditAxis {
    pub speed: Option<EncoderStep>,
    /// least time between two changes, in milliseconds
    pub delay: u64,
    pub param: Item,
}

impl EditAxis {
    /// The stick at rest, editing `param`.
    pub fn new(param: Item) -> (r: EditAxis)
        ensures
            r == (EditAxis { speed: None, delay: 14, param }),
    {
        EditAxis { speed: None, delay: 14, param }
    }
}

/// The layouts that the gamepad offers.
pub open spec fn root_layout() -> ControlMap {
    ControlMap {
        south: Action::EditParam(Item::Level),
        east: Action::EditParam(Item::Attack),
        west: Action::EditParam(Item::Release),
        north: Action::LoadLayout(Item::SecondLayout),
        dpad_down: Action::LoadLayout(Item::SecondLayout),
        dpad_left: Action::Empty,
        dpad_right: Action::EditParam(Item::Pitch),
        dpad_up: Action::Empty,
    }
}

pub open spec fn second_layout() -> ControlMap {
    ControlMap {
        south: Action::EditParam(Item::StartPosition),
        east: Action::EditParam(Item::Lenght),
        west: Action::EditParam(Item::Pitch),
        north: Action::LoadLayout(Item::RootLayout),
        dpad_down: Action::LoadLayout(Item::RootLayout),
        dpad_left: Action::EditParam(Item::Level),
        dpad_right: Action::Empty,
        dpad_up: Action::Empty,
    }
}

pub open spec fn empty_layout() -> ControlMap {
    ControlMap {
        north: Action::Empty,
        east: Action::Empty,
        west: Action::Empty,
        south: Action::Empty,
        dpad_down: Action::Empty,
        dpad_left: Action::Empty,
        dpad_right: Action::Empty,
        dpad_up: Action::Empty,
    }
}

/// The layout of each layout item.
pub open spec fn layout_of(i: Item) -> Option<ControlMap> {
    match i {
        Item::EmptyBoxLayout => Some(empty_layout()),
        Item::RootLayout => Some(root_layout()),
        Item::SecondLayout => Some(second_layout()),
        _ => None,
    }
}

/// The layout stored for `item` in a table of layouts, if any.
pub open spec fn lookup_layout(t: Seq<(Item, ControlMap)>, item: Item) -> Option<ControlMap>
    decreases t.len(),
{
    if t.len() == 0 {
        None
    } else if t[0].0 == item {
        Some(t[0].1)
    } else {
        lookup_layout(t.subrange(1, t.len() as int), item)
    }
}

/// The table of layouts: the empty box, the root and the second layout.
pub fn init_layouts() -> (r: Vec<(Item, ControlMap)>)
    ensures
        r@ == seq![
            (Item::EmptyBoxLayout, empty_layout()),
            (Item::RootLayout, root_layout()),
            (Item::SecondLayout, second_layout()),
        ],
{
    let mut layouts: Vec<(Item, ControlMap)> = Vec::new();
    layouts.push((Item::EmptyBoxLayout, ControlMap::default()));
    layouts.push((Item::RootLayout, ControlMap {
        south: Action::EditParam(Item::Level),
        east: Action::EditParam(Item::Attack),
        west: Action::EditParam(Item::Release),
        north: Action::LoadLayout(Item::SecondLayout),
        dpad_down: Action::LoadLayout(Item::SecondLayout),
        dpad_left: Action::Empty,
        dpad_right: Action::EditParam(Item::Pitch),
        dpad_up: Action::Empty,
    }));
    layouts.push((Item::SecondLayout, ControlMap {
        south: Action::EditParam(Item::StartPosition),
        east: Action::EditParam(Item::Lenght),
        west: Action::EditParam(Item::Pitch),
        north: Action::LoadLayout(Item::RootLayout),
        dpad_down: Action::LoadLayout(Item::RootLayout),
        dpad_left: Action::EditParam(Item::Level),
        dpad_right: Action::Empty,
        dpad_up: Action::Empty,
    }));
    assert(layouts@ =~= seq![
        (Item::EmptyBoxLayout, empty_layout()),
        (Item::RootLayout, root_layout()),
        (Item::SecondLayout, second_layout()),
    ]);
    layouts
}


/// The standard table of layouts.
pub open spec fn standard_layouts() -> Seq<(Item, ControlMap)> {
    seq![
        (Item::EmptyBoxLayout, empty_layout()),
        (Item::RootLayout, root_layout()),
        (Item::SecondLayout, second_layout()),
    ]
}

/// The layout stored for `item` in a table of layouts, if any.
pub fn find_layout(t: &Vec<(Item, ControlMap)>, item: Item) -> (r: Option<ControlMap>)
    ensures
        match r {
            Some(m) => exists|k: int| 0 <= k < t@.len() && #[trigger] t@[k] == (item, m),
            None => forall|k: int| 0 <= k < t@.len() ==> (#[trigger] t@[k]).0 != item,
        },
{
    let mut i: usize = 0;
    while i < t.len()
        invariant
            i <= t@.len(),
            forall|k: int| 0 <= k < i ==> (#[trigger] t@[k]).0 != item,
        decreases t@.len() - i,
    {
        if t[i].0 == item {
            assert(t@[i as int] == (item, t@[i as int].1));
            return Some(t[i].1);
        }
        i = i + 1;
    }
    None
}

/// What pressing a layout button did.
#[derive(Debug)]
pub enum ButtonOutcome {
    /// the right stick now edits a parameter
    Edit,
    /// a layout was loaded; the layout window is to show this update
    Layout(UpdateGUI),
    /// the button has no action
    Unknown,
}

/// The state of the gamepad side as mathematical values.
pub struct DbView {
    pub right_y: Option<EditAxis>,
    pub control_map: Item,
    pub ignore: Seq<PadButton>,
}

/// The state of the gamepad side.
pub struct Db {
    /// the right stick, vertical axis
    pub(crate) right_y: Option<EditAxis>,
    /// the layouts
    pub(crate) layouts: Vec<(Item, ControlMap)>,
    /// the names of the items
    pub(crate) params: Vec<ParamContext>,
    /// the layout shown
    pub(crate) control_map: Item,
    /// the filter of gamepad events
    pub(crate) control_filter: DenyEvent,
}

impl View for Db {
    type V = DbView;

    closed spec fn view(&self) -> DbView {
        DbView { right_y: self.right_y, control_map: self.control_map, ignore: self.control_filter.ignore@ }
    }
}

/// Every layout target of a layout is a layout of the table.
pub proof fn lemma_layout_targets_exist(i: Item, b: PadButton)
    requires
        layout_of(i) is Some,
        action_of(layout_of(i)->Some_0, b) matches Some(Action::LoadLayout(t)),
    ensures
        layout_of(action_of(layout_of(i)->Some_0, b)->Some_0->LoadLayout_0) is Some,
{
}

impl Default for Db {
    /// The state at start: the root layout is shown, nothing is edited, no
    /// button beyond the usual ones is ignored.
    fn default() -> (r: Db)
        ensures
            r@ == (DbView { right_y: None, control_map: Item::RootLayout, ignore: Seq::empty() }),
    {
        Db {
            right_y: None,
            layouts: init_layouts(),
            params: create(),
            control_map: Item::RootLayout,
            control_filter: DenyEvent::default(),
        }
    }
}

impl Db {
    #[verifier::type_invariant]
    closed spec fn inv(self) -> bool {
        &&& self.layouts@ == standard_layouts()
        &&& layout_of(self.control_map) is Some
        &&& names_table(self.params@)
    }

    /// The layout shown.
    pub fn control_map(&self) -> (r: Item)
        ensures
            r == self@.control_map,
            layout_of(r) is Some,
    {
        proof { use_type_invariant(self); }
        self.control_map
    }

    /// The parameter that the right stick edits.
    pub fn right_y(&self) -> (r: Option<EditAxis>)
        ensures
            r == self@.right_y,
    {
        self.right_y
    }

    /// The filter of gamepad events.
    pub fn control_filter(&self) -> (r: &DenyEvent)
        ensures
            r.ignore@ == self@.ignore,
    {
        &self.control_filter
    }

    /// The names of the items.
    pub fn params(&self) -> (r: &Vec<ParamContext>)
        ensures
            names_table(r@),
    {
        proof { use_type_invariant(self); }
        &self.params
    }

    /// The message to the synthesizer for the right stick as it stands: a step
    /// up or down of the edited parameter, if it is moving.
    pub fn on_axis(&self) -> (r: Option<PlayInstr>)
        ensures
            match self@.right_y {
                Some(a) => match a.speed {
                    Some(EncoderStep::AddMax) | Some(EncoderStep::Add) => r matches Some(PlayInstr::AddParamStep(p)) && p == a.param,
                    Some(EncoderStep::SubMax) | Some(EncoderStep::Sub) => r matches Some(PlayInstr::SubParamStep(p)) && p == a.param,
                    None => r is None,
                },
                None => r is None,
            },
    {
        match self.right_y {
            Some(EditAxis { param, speed: Some(EncoderStep::AddMax), .. })
            | Some(EditAxis { param, speed: Some(EncoderStep::Add), .. }) => Some(PlayInstr::AddParamStep(param)),
            Some(EditAxis { param, speed: Some(EncoderStep::SubMax), .. })
            | Some(EditAxis { param, speed: Some(EncoderStep::Sub), .. }) => Some(PlayInstr::SubParamStep(param)),
            _ => None,
        }
    }

    /// Records how the right stick now moves the edited parameter.
    pub fn set_axis_speed(&mut self, speed: Option<EncoderStep>)
        requires
            old(self)@.right_y is Some,
        ensures
            final(self)@ == (DbView { right_y: Some(EditAxis { speed, ..old(self)@.right_y->Some_0 }), ..old(self)@ }),
    {
        proof { use_type_invariant(&*self); }
        let axis = self.right_y.unwrap();
        self.right_y = Some(EditAxis { speed, ..axis });
    }

    /// Handles a press of one of the eight layout buttons: starts editing its
    /// parameter (and ignores the button from then on), or loads its layout
    /// (and ignores no button beyond the usual ones).
    pub fn on_button_pressed(&mut self, id: PadButton) -> (r: ButtonOutcome)
        requires
            !always_ignored(id),
        ensures
            match action_of(layout_of(old(self)@.control_map)->Some_0, id)->Some_0 {
                Action::EditParam(item) => r is Edit && final(self)@ == (DbView {
                    right_y: Some(EditAxis { speed: None, delay: 14, param: item }),
                    ignore: seq![id],
                    ..old(self)@
                }),
                Action::LoadLayout(name) => {
                    &&& layout_of(name) is Some
                    &&& final(self)@ == (DbView { right_y: None, control_map: name, ignore: Seq::empty() })
                    &&& r matches ButtonOutcome::Layout(u) && u.0@ == gui_items(layout_of(name)->Some_0, id)
                },
                Action::Empty => r is Unknown && final(self)@ == old(self)@,
            },
    {
        proof { use_type_invariant(&*self); }
        let layout = find_layout(&self.layouts, self.control_map).unwrap();
        proof {
            assert(standard_layouts()[0].0 == Item::EmptyBoxLayout);
            assert(standard_layouts()[1].0 == Item::RootLayout);
            assert(standard_layouts()[2].0 == Item::SecondLayout);
            assert(layout == layout_of(self.control_map)->Some_0);
        }
        match layout.action(id).unwrap() {
            Action::EditParam(item) => {
                self.right_y = Some(EditAxis::new(item));
                self.control_filter = DenyEvent::new(id);
                ButtonOutcome::Edit
            },
            Action::LoadLayout(name) => {
                proof { lemma_layout_targets_exist(self.control_map, id); }
                self.right_y = None;
                self.control_map = name;
                self.control_filter = DenyEvent::default();
                let shown = find_layout(&self.layouts, self.control_map).unwrap();
                proof {
                    assert(shown == layout_of(name)->Some_0);
                }
                ButtonOutcome::Layout(shown.update_gui(id))
            },
            Action::Empty => ButtonOutcome::Unknown,
        }
    }
}


/// The layout window gets one entry for each of the eight buttons; only the
/// pressed button, when it edits a parameter, is active.
pub proof fn lemma_gui_marks_pressed(m: ControlMap, id: PadButton)
    ensures
        gui_items(m, id).len() == 8,
        forall|k: int| 0 <= k < 8 ==> ((#[trigger] gui_items(m, id)[k]).status == ItemState::Active
            <==> (layout_buttons()[k] == id && action_of(m, id)->Some_0 is EditParam)),
{
    assert forall|k: int| 0 <= k < 8 implies ((#[trigger] gui_items(m, id)[k]).status == ItemState::Active
        <==> (layout_buttons()[k] == id && action_of(m, id)->Some_0 is EditParam)) by {
        let b = layout_buttons()[k];
        assert(gui_items(m, id)[k] == gui_item(action_of(m, b)->Some_0, b == id));
    }
}

/// A button that starts editing a parameter is ignored from then on, until
/// a layout is loaded.
pub proof fn lemma_edit_button_ignored(id: PadButton, ignore: Seq<PadButton>)
    requires
        ignore == seq![id],
    ensures
        ignore.contains(id),
{
    assert(ignore[0] == id);
}

} // verus!
