//! The data service of Borovylo: layouts, the buttons of the layout shown,
//! the parameters, and what the gamepad does to them.

pub mod button;
pub mod layout;
pub mod param;
pub mod slabs;
pub mod midi;
pub mod gui;
pub mod roots;

use vstd::prelude::*;
use slab::Slab;
use crate::borovylo::schema::button::{Button, ButtonView};
use crate::borovylo::schema::layout::{Layout, LayoutView};
use crate::borovylo::schema::param::{Param, ParamView};
use crate::borovylo::action::Action;
use crate::borovylo::schema::gui::{Block, BlockView, MutationView};
use crate::borovylo::schema::midi::{MidiAction, OnMidiAction};
use crate::borovylo::schema::slabs::{
    button_slab_contents, button_slab_packed, layout_slab_contents, param_slab_contents,
    new_layout_slab, insert_layout, new_param_slab, insert_param, get_layout, get_param,
    get_button, get_button_mut, button_slab_len, param_slab_contains,
};

verus! {

/// The buttons held by a slab, as a sequence by key.
pub open spec fn slab_buttons(s: Slab<Button>) -> Seq<ButtonView> {
    Seq::new(button_slab_contents(s).dom().len(), |i: int| button_slab_contents(s)[i as usize]@)
}

/// A slab of buttons whose keys are `0..n` for its `n` entries, and that has
/// no vacant entry.
pub open spec fn dense_buttons(s: Slab<Button>) -> bool {
    &&& button_slab_packed(s)
    &&& button_slab_contents(s).dom().finite()
    &&& button_slab_contents(s).dom().len() <= usize::MAX
    &&& forall|k: usize| #[trigger] button_slab_contents(s).dom().contains(k)
            <==> (k as int) < button_slab_contents(s).dom().len()
}

/// The whole state of the data service.
pub struct Data {
    pub(crate) layouts: Slab<Layout>,
    pub(crate) buttons: Slab<Button>,
    pub(crate) params: Slab<Param>,
    /// the parameter under edit
    pub(crate) pid: Option<usize>,
    /// the layout shown
    pub(crate) lid: usize,
    /// the MIDI channel (track)
    pub(crate) tid: u8,
}

/// The state of the data service as mathematical values.
pub struct DataView {
    pub layouts: Map<usize, LayoutView>,
    pub buttons: Seq<ButtonView>,
    pub params: Map<usize, ParamView>,
    pub pid: Option<usize>,
    pub lid: usize,
    pub tid: u8,
}

impl View for Data {
    type V = DataView;

    closed spec fn view(&self) -> DataView {
        DataView {
            layouts: layout_slab_contents(self.layouts).map_values(|l: Layout| l@),
            buttons: slab_buttons(self.buttons),
            params: param_slab_contents(self.params).map_values(|p: Param| p@),
            pid: self.pid,
            lid: self.lid,
            tid: self.tid,
        }
    }
}

impl Data {
    #[verifier::type_invariant]
    pub closed spec fn inv(self) -> bool {
        dense_buttons(self.buttons)
    }

    /// The state at start: the given layouts and parameters, keyed `0, 1, ...`
    /// in their order; the first layout is shown, nothing is under edit, and
    /// the MIDI channel is `0`.
    pub fn new(layouts: Vec<Layout>, params: Vec<Param>) -> (r: Data)
        requires
            layouts.len() > 0,
        ensures
            r@.layouts == Map::new(|k: usize| (k as int) < layouts@.len(), |k: usize| layouts@[k as int]@),
            r@.params == Map::new(|k: usize| (k as int) < params@.len(), |k: usize| params@[k as int]@),
            r@.buttons == layouts@[0]@.buttons,
            r@.pid.is_none(),
            r@.lid == 0,
            r@.tid == 0,
    {
        let mut layout_slab = new_layout_slab();
        let mut i: usize = 0;
        while i < layouts.len()
            invariant
                i <= layouts.len(),
                layout_slab_contents(layout_slab).dom().finite(),
                layout_slab_contents(layout_slab).dom().len() == i,
                crate::borovylo::schema::slabs::layout_slab_packed(layout_slab),
                forall|k: usize| #[trigger] layout_slab_contents(layout_slab).dom().contains(k) <==> k < i,
                forall|k: usize| k < i ==> (#[trigger] layout_slab_contents(layout_slab)[k])@ == layouts@[k as int]@,
            decreases layouts.len() - i,
        {
            let l = layouts[i].duplicate();
            let key = insert_layout(&mut layout_slab, l);
            assert(key == i);
            i = i + 1;
        }
        let mut param_slab = new_param_slab();
        let mut j: usize = 0;
        while j < params.len()
            invariant
                j <= params.len(),
                param_slab_contents(param_slab).dom().finite(),
                param_slab_contents(param_slab).dom().len() == j,
                crate::borovylo::schema::slabs::param_slab_packed(param_slab),
                forall|k: usize| #[trigger] param_slab_contents(param_slab).dom().contains(k) <==> k < j,
                forall|k: usize| k < j ==> (#[trigger] param_slab_contents(param_slab)[k])@ == params@[k as int]@,
            decreases params.len() - j,
        {
            let p = params[j].duplicate();
            let key = insert_param(&mut param_slab, p);
            assert(key == j);
            j = j + 1;
        }
        let first = get_layout(&layout_slab, 0).unwrap();
        let buttons = Button::init(first);
        let r = Data { layouts: layout_slab, buttons, params: param_slab, pid: None, lid: 0, tid: 0 };
        assert(r@.layouts =~= Map::new(|k: usize| (k as int) < layouts@.len(), |k: usize| layouts@[k as int]@));
        assert(r@.params =~= Map::new(|k: usize| (k as int) < params@.len(), |k: usize| params@[k as int]@));
        r
    }

    /// The parameter under edit.
    pub fn pid(&self) -> (r: Option<usize>)
        ensures
            r == self@.pid,
    {
        self.pid
    }

    /// The layout shown.
    pub fn lid(&self) -> (r: usize)
        ensures
            r == self@.lid,
    {
        self.lid
    }

    /// The MIDI channel.
    pub fn tid(&self) -> (r: u8)
        ensures
            r == self@.tid,
    {
        self.tid
    }
}


/// Why a request to the data service failed.
#[derive(Eq, PartialEq, Structural, Copy, Clone, Debug)]
pub enum DataError {
    /// no button has the index asked for
    ButtonNotFound,
    /// the button's action cannot be carried out
    UnknownAction,
}

impl DataError {
    /// Message of the error.
    pub fn message(&self) -> (r: String)
        ensures
            r@ == (match *self {
                DataError::ButtonNotFound => "Button not found"@,
                DataError::UnknownAction => "Unknown button action"@,
            }),
    {
        match self {
            DataError::ButtonNotFound => String::from_str("Button not found"),
            DataError::UnknownAction => String::from_str("Unknown button action"),
        }
    }
}

/// What pressing a button gave: its result and the notices to publish.
#[derive(Debug)]
pub struct Pressed {
    /// the id that the press selected, if any
    pub result: Option<usize>,
    /// a layout was loaded
    pub layout: Option<layout::Mutation>,
    /// the web page is to be redrawn
    pub gui: Option<gui::Mutation>,
    /// a button changed
    pub button: Option<button::Mutation>,
}

pub struct PressedView {
    pub result: Option<usize>,
    pub layout: Option<layout::Mutation>,
    pub gui: Option<MutationView>,
    pub button: Option<button::Mutation>,
}

impl View for Pressed {
    type V = PressedView;

    open spec fn view(&self) -> PressedView {
        PressedView {
            result: self.result,
            layout: self.layout,
            gui: match self.gui {
                Some(g) => Some(g@),
                None => None,
            },
            button: self.button,
        }
    }
}

/// The block of the web page that shows the layout `l` loaded under the id `id`.
pub open spec fn layout_block(id: usize, l: LayoutView) -> BlockView {
    BlockView { id: id as u8, bg: Some(l.color), opacity: Some(50), label: Some(l.label) }
}

/// A press of the button `id` does not stop at a missing target: a button
/// with an action has a target, and a parameter to edit exists.
pub open spec fn press_defined(d: DataView, id: usize) -> bool {
    (id as int) < d.buttons.len() ==> {
        let b = d.buttons[id as int];
        &&& b.action != Action::NoAction ==> b.data.len() > 0
        &&& b.action == Action::EditParam ==> d.params.contains_key(b.data[0])
    }
}

/// The state after the button `id` (which exists) was given the action `action`.
pub open spec fn spec_update(d: DataView, id: usize, action: Action) -> DataView {
    DataView { buttons: d.buttons.update(id as int, ButtonView { action, ..d.buttons[id as int] }), ..d }
}

/// The state after asking to edit the parameter `pid`, and the notice to
/// publish: only an existing parameter is taken up, and only a change of the
/// parameter under edit is announced.
pub open spec fn spec_set_edit_param(d: DataView, pid: usize) -> (DataView, Option<param::Mutation>) {
    if d.params.contains_key(pid) {
        (
            DataView { pid: Some(pid), ..d },
            if d.pid != Some(pid) {
                Some(param::Mutation { mutation: param::Event::Select, id: pid as u8 })
            } else {
                None
            },
        )
    } else {
        (d, None)
    }
}

/// The state after loading the layout `id` (whether it exists or not).
pub open spec fn spec_set_layout(d: DataView, id: usize) -> DataView {
    if d.layouts.contains_key(id) {
        DataView { lid: id, buttons: d.layouts[id].buttons, ..d }
    } else {
        DataView { lid: id, ..d }
    }
}

/// The state after pressing the button `id`, and what the press gave.
pub open spec fn spec_action(d: DataView, id: usize) -> Result<(DataView, PressedView), DataError> {
    if (id as int) >= d.buttons.len() {
        Err(DataError::ButtonNotFound)
    } else {
        let b = d.buttons[id as int];
        let target = b.data[0];
        match b.action {
            Action::LoadLayout => if d.layouts.contains_key(target) {
                let l = d.layouts[target];
                Ok((
                    DataView { lid: target, pid: None, buttons: l.buttons, ..d },
                    PressedView {
                        result: Some(target),
                        layout: Some(layout::Mutation { mutation: layout::Event::Updated, id: target }),
                        gui: Some(MutationView { mutation: gui::Event::PageUpdate, data: seq![layout_block(target, l)] }),
                        button: None,
                    },
                ))
            } else {
                Err(DataError::UnknownAction)
            },
            Action::EditParam => {
                let pid = d.params[target].id as usize;
                Ok((
                    DataView { pid: Some(pid), ..d },
                    PressedView {
                        result: Some(pid),
                        layout: None,
                        gui: None,
                        button: Some(button::Mutation { mutation: button::Event::Updated, id }),
                    },
                ))
            },
            Action::SelectChan => Ok((
                DataView { tid: target as u8, ..d },
                PressedView { result: Some(target), layout: None, gui: None, button: None },
            )),
            Action::NoAction => Ok((d, PressedView { result: None, layout: None, gui: None, button: None })),
        }
    }
}

impl Data {
    /// Every button of the layout shown, in order.
    pub fn get_buttons(&self) -> (r: Vec<Button>)
        ensures
            r@.map_values(|b: Button| b@) == self@.buttons,
    {
        proof { use_type_invariant(self); }
        let n = button_slab_len(&self.buttons);
        let mut out: Vec<Button> = Vec::new();
        let mut i: usize = 0;
        while i < n
            invariant
                i <= n,
                n == button_slab_contents(self.buttons).dom().len(),
                dense_buttons(self.buttons),
                out@.len() == i,
                forall|k: int| 0 <= k < i ==> (#[trigger] out@[k])@ == slab_buttons(self.buttons)[k],
            decreases n - i,
        {
            let b = get_button(&self.buttons, i).unwrap();
            out.push(b.duplicate());
            i = i + 1;
        }
        assert(out@.map_values(|b: Button| b@) =~= self@.buttons);
        out
    }

    /// The button with index `id` of the layout shown, if there is one.
    pub fn get_button_by_id(&self, id: usize) -> (r: Option<Button>)
        ensures
            match r {
                Some(b) => (id as int) < self@.buttons.len() && b@ == self@.buttons[id as int],
                None => (id as int) >= self@.buttons.len(),
            },
    {
        proof { use_type_invariant(self); }
        match get_button(&self.buttons, id) {
            Some(b) => Some(b.duplicate()),
            None => None,
        }
    }

    /// The parameter with key `id`, if there is one.
    pub fn get_param_by_id(&self, id: usize) -> (r: Option<Param>)
        ensures
            match r {
                Some(p) => self@.params.contains_key(id) && p@ == self@.params[id],
                None => !self@.params.contains_key(id),
            },
    {
        match get_param(&self.params, id) {
            Some(p) => Some(p.duplicate()),
            None => None,
        }
    }

    /// The layout with key `id`, if there is one.
    pub fn get_layout_by_id(&self, id: usize) -> (r: Option<Layout>)
        ensures
            match r {
                Some(l) => self@.layouts.contains_key(id) && l@ == self@.layouts[id],
                None => !self@.layouts.contains_key(id),
            },
    {
        match get_layout(&self.layouts, id) {
            Some(l) => Some(l.duplicate()),
            None => None,
        }
    }

    /// Gives the button `id` of the layout shown a new action; the notice to
    /// publish says that the button was updated.
    pub fn update(&mut self, id: usize, action: Action) -> (r: Result<button::Mutation, DataError>)
        ensures
            match r {
                Ok(m) => (id as int) < old(self)@.buttons.len()
                    && m == (button::Mutation { mutation: button::Event::Updated, id })
                    && final(self)@ == spec_update(old(self)@, id, action),
                Err(e) => (id as int) >= old(self)@.buttons.len() && e == DataError::ButtonNotFound
                    && final(self)@ == old(self)@,
            },
    {
        proof { use_type_invariant(&*self); }
        let ghost old_contents = button_slab_contents(self.buttons);
        let found = match get_button_mut(&mut self.buttons, id) {
            Some(b) => {
                b.action = action;
                true
            },
            None => false,
        };
        if found {
            let ghost new_contents = button_slab_contents(self.buttons);
            assert(new_contents.dom() =~= old_contents.dom());
            let ghost expect = old(self)@.buttons.update(id as int, ButtonView { action, ..old(self)@.buttons[id as int] });
            assert forall|k: int| 0 <= k < expect.len() implies slab_buttons(self.buttons)[k] == expect[k] by {
                if k != id as int {
                    assert(new_contents.dom().contains(k as usize));
                }
            }
            assert(slab_buttons(self.buttons) =~= expect);
            Ok(button::Mutation::new(id, button::Event::Updated))
        } else {
            Err(DataError::ButtonNotFound)
        }
    }
}


impl Data {
    /// Presses the button `id` of the layout shown: loads a layout, takes a
    /// parameter up for editing, or selects a MIDI channel, as the button says.
    pub fn action(&mut self, id: usize) -> (r: Result<Pressed, DataError>)
        requires
            press_defined(old(self)@, id),
        ensures
            match spec_action(old(self)@, id) {
                Ok((d, p)) => r is Ok && final(self)@ == d && r->Ok_0@ == p,
                Err(e) => r == Err::<Pressed, DataError>(e) && final(self)@ == old(self)@,
            },
    {
        proof { use_type_invariant(&*self); }
        let button = match get_button(&self.buttons, id) {
            Some(b) => b.duplicate(),
            None => return Err(DataError::ButtonNotFound),
        };
        match button.action {
            Action::LoadLayout => {
                let target = button.data[0];
                match get_layout(&self.layouts, target) {
                    Some(layout) => {
                        let buttons = Button::init(layout);
                        let block = Block {
                            id: target as u8,
                            label: Some(layout.label.clone()),
                            bg: Some(layout.color.clone()),
                            opacity: Some(50),
                        };
                        self.lid = target;
                        self.pid = None;
                        self.buttons = buttons;
                        let update = vec![block];
                        let r = Pressed {
                            result: Some(target),
                            layout: Some(layout::Mutation::new(target, layout::Event::Updated)),
                            gui: Some(gui::Mutation::new(gui::Event::PageUpdate, update)),
                            button: None,
                        };
                        assert(r@.gui->Some_0.data =~= seq![layout_block(target, old(self)@.layouts[target])]);
                        Ok(r)
                    },
                    None => Err(DataError::UnknownAction),
                }
            },
            Action::EditParam => {
                let pid = get_param(&self.params, button.data[0]).unwrap().id;
                self.pid = Some(pid as usize);
                Ok(Pressed {
                    result: Some(pid as usize),
                    layout: None,
                    gui: None,
                    button: Some(button::Mutation::new(id, button::Event::Updated)),
                })
            },
            Action::SelectChan => {
                self.tid = button.data[0] as u8;
                Ok(Pressed { result: Some(button.data[0]), layout: None, gui: None, button: None })
            },
            Action::NoAction => Ok(Pressed { result: None, layout: None, gui: None, button: None }),
        }
    }

    /// Shows the layout `id`: its buttons become the buttons shown if it
    /// exists; the notice to publish says that the layout was loaded.
    pub fn set_layout_by_id(&mut self, id: usize) -> (r: layout::Mutation)
        ensures
            r == (layout::Mutation { mutation: layout::Event::Updated, id }),
            final(self)@ == spec_set_layout(old(self)@, id),
    {
        proof { use_type_invariant(&*self); }
        self.lid = id;
        match get_layout(&self.layouts, id) {
            Some(layout) => {
                self.buttons = Button::init(layout);
            },
            None => {},
        }
        layout::Mutation::new(id, layout::Event::Updated)
    }

    /// Takes the parameter `pid` up for editing if it exists; when that
    /// changes the parameter under edit, the notice to publish says so.
    pub fn set_edit_param_by_id(&mut self, pid: usize) -> (r: (usize, Option<param::Mutation>))
        ensures
            r.0 == pid,
            (final(self)@, r.1) == spec_set_edit_param(old(self)@, pid),
    {
        proof { use_type_invariant(&*self); }
        let prev = self.pid;
        if param_slab_contains(&self.params, pid) {
            self.pid = Some(pid);
        }
        let changed = match (self.pid, prev) {
            (Some(a), Some(b)) => a != b,
            (Some(_), None) => true,
            _ => false,
        };
        if changed {
            (pid, Some(param::Mutation { mutation: param::Event::Select, id: pid as u8 }))
        } else {
            (pid, None)
        }
    }

    /// Sets how fast the parameter `id` changes: a speed of `0` stops the
    /// change, any other speed asks the MIDI driver to send the control-change
    /// message `[0xB0 | channel, id + 1, speed]`.
    pub fn set_speed(&self, id: u8, speed: u8) -> (r: (u8, OnMidiAction))
        requires
            speed == 0 || id < 255,
        ensures
            r.0 == id,
            r.1 == (if speed == 0 {
                OnMidiAction { mutation: MidiAction::ParamWaiting, midi: None }
            } else {
                OnMidiAction {
                    mutation: MidiAction::ParamUpdate,
                    midi: Some([0xB0u8 | self@.tid, (id + 1) as u8, speed]),
                }
            }),
    {
        if speed == 0 {
            (id, OnMidiAction { mutation: MidiAction::ParamWaiting, midi: None })
        } else {
            (id, OnMidiAction { mutation: MidiAction::ParamUpdate, midi: Some([0xB0u8 | self.tid, 1 + id, speed]) })
        }
    }
}


/// After a button is given an action, reading it back gives that action; the
/// other buttons and their number stay.
pub proof fn lemma_update_then_read(d: DataView, id: usize, action: Action)
    requires
        (id as int) < d.buttons.len(),
    ensures
        spec_update(d, id, action).buttons.len() == d.buttons.len(),
        spec_update(d, id, action).buttons[id as int].action == action,
        spec_update(d, id, action).buttons[id as int].data == d.buttons[id as int].data,
        forall|k: int| 0 <= k < d.buttons.len() && k != id ==> #[trigger] spec_update(d, id, action).buttons[k] == d.buttons[k],
{
}

/// Loading an existing layout shows exactly its buttons; loading it again
/// changes nothing.
pub proof fn lemma_set_layout_shows_layout(d: DataView, id: usize)
    requires
        d.layouts.contains_key(id),
    ensures
        spec_set_layout(d, id).buttons == d.layouts[id].buttons,
        spec_set_layout(d, id).lid == id,
        spec_set_layout(spec_set_layout(d, id), id) == spec_set_layout(d, id),
{
}

/// Asking twice to edit the same parameter announces it at most once: the
/// second request leaves the state as the first left it and announces nothing.
pub proof fn lemma_edit_param_twice(d: DataView, pid: usize)
    ensures
        spec_set_edit_param(spec_set_edit_param(d, pid).0, pid).0 == spec_set_edit_param(d, pid).0,
        spec_set_edit_param(spec_set_edit_param(d, pid).0, pid).1 is None,
{
}

/// Pressing a button that loads an existing layout shows that layout's
/// buttons, ends any editing, and announces the layout under its id.
pub proof fn lemma_press_loads_layout(d: DataView, id: usize)
    requires
        (id as int) < d.buttons.len(),
        d.buttons[id as int].action == Action::LoadLayout,
        d.buttons[id as int].data.len() > 0,
        d.layouts.contains_key(d.buttons[id as int].data[0]),
    ensures
        spec_action(d, id) is Ok,
        spec_action(d, id)->Ok_0.0.buttons == d.layouts[d.buttons[id as int].data[0]].buttons,
        spec_action(d, id)->Ok_0.0.pid is None,
        spec_action(d, id)->Ok_0.1.layout == Some(layout::Mutation { mutation: layout::Event::Updated, id: d.buttons[id as int].data[0] }),
{
}


/// Law: taking up an existing parameter other than the one under edit
/// (whether or not one is) makes it the parameter under edit and announces
/// `Select` with its id; so does each of two requests for two different
/// parameters in a row.
pub proof fn lemma_new_param_is_announced(d: DataView, a: usize, b: usize)
    requires
        d.params.contains_key(a),
        d.params.contains_key(b),
        a != b,
    ensures
        spec_set_edit_param(d, b).0.pid == Some(b),
        d.pid != Some(b) ==> spec_set_edit_param(d, b).1 == Some(param::Mutation { mutation: param::Event::Select, id: b as u8 }),
        spec_set_edit_param(spec_set_edit_param(d, a).0, b).0.pid == Some(b),
        spec_set_edit_param(spec_set_edit_param(d, a).0, b).1
            == Some(param::Mutation { mutation: param::Event::Select, id: b as u8 }),
{
}

} // verus!
