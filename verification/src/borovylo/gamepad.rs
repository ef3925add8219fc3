//! The gamepad side of Borovylo: which controller is taken, what each stick
//! and button event does to the parameter under edit and to the layout.
//!
//! The event loop itself (polling the controllers, rumbling, sending GraphQL
//! requests) runs outside; this module decides, and says what to do.

use vstd::prelude::*;

use crate::borovylo::action::{Action, action_from_name};
use crate::borovylo::edit_param::{EditParam, abs, spec_next, spec_speed, spec_speed_direction, spec_speed_mod};

verus! {

/// The only controller model that is taken.
pub open spec fn supported_controller() -> Seq<char> {
    "Sony Interactive Entertainment Wireless Controller"@
}

/// Whether a newly connected controller with this name is taken.
pub fn accepts_controller(name: &str) -> (r: bool)
    ensures
        r == (name@ == supported_controller()),
{
    name.to_owned() == String::from_str("Sony Interactive Entertainment Wireless Controller")
}

/// An input event of a controller. Stick positions are in hundredths of the
/// full deflection, rounded down.
#[derive(Debug, Clone, Copy, PartialEq, Eq, Structural)]
pub enum PadEvent {
    Disconnect,
    MenuR(bool),
    /// cross
    ActionA(bool),
    /// circle
    ActionB(bool),
    /// square
    ActionH(bool),
    /// triangle
    ActionV(bool),
    PovDown(bool),
    PovRight(bool),
    PovLeft(bool),
    PovUp(bool),
    BumperL(bool),
    BumperR(bool),
    /// the PS button
    Exit(bool),
    /// left stick, vertical: the speed modifier
    JoyY(i32),
    /// right stick, vertical: the direction
    CamY(i32),
    Other,
}

/// What the event loop does after an event.
#[derive(Debug, Clone, Copy, PartialEq, Eq, Structural)]
pub enum PadReaction {
    /// forget the controller with this index
    RemoveController(usize),
    /// rumble the controller, forget it, and stop the loop
    Quit(usize),
    /// press the layout button with this index
    PressButton(usize),
    /// send the new speed of the edited parameter
    SendSpeed(EditParam),
    Nothing,
}

/// State of the gamepad loop: the parameter under edit and the layout shown.
#[derive(Debug, Clone, Copy, PartialEq, Eq, Structural)]
pub struct State {
    pub pid: Option<EditParam>,
    pub lid: u8,
}

/// Index of the layout button that a pressed face, cross, bumper or PS button
/// stands for.
pub open spec fn pressed_button(event: PadEvent) -> Option<usize> {
    match event {
        PadEvent::ActionA(true) => Some(0),
        PadEvent::ActionB(true) => Some(1),
        PadEvent::ActionH(true) => Some(2),
        PadEvent::ActionV(true) => Some(3),
        PadEvent::PovDown(true) => Some(4),
        PadEvent::PovRight(true) => Some(5),
        PadEvent::PovLeft(true) => Some(6),
        PadEvent::PovUp(true) => Some(7),
        PadEvent::BumperL(true) => Some(8),
        PadEvent::BumperR(true) => Some(9),
        PadEvent::Exit(true) => Some(10),
        _ => None,
    }
}

/// The left stick moved to `next`: the modifier may change, and with it the
/// speed of a parameter that is moving.
pub open spec fn left_stick(p: EditParam, next: int) -> (Option<EditParam>, PadReaction) {
    let delay = spec_next(next, p.prev_l as int, p.delay, spec_speed_mod(next));
    if delay != p.delay {
        let q = EditParam {
            prev_l: abs(next) as u32,
            delay,
            speed: if p.speed > 0 { spec_speed(p.speed, delay) } else { p.speed },
            ..p
        };
        (Some(q), if p.speed > 0 { PadReaction::SendSpeed(q) } else { PadReaction::Nothing })
    } else {
        (None, PadReaction::Nothing)
    }
}

/// The right stick moved to `next`: the direction, and so the speed, may change.
pub open spec fn right_stick(p: EditParam, next: int) -> (Option<EditParam>, PadReaction) {
    let new_speed = spec_next(next, p.prev_r as int, p.speed, spec_speed_direction(next));
    let speed = spec_speed(new_speed, p.delay);
    if speed != p.speed {
        let q = EditParam { speed, prev_r: abs(next) as u32, ..p };
        (Some(q), PadReaction::SendSpeed(q))
    } else {
        (None, PadReaction::Nothing)
    }
}

/// The state after an event and what the loop does next.
pub open spec fn spec_on_event(s: State, id: usize, event: PadEvent) -> (State, PadReaction) {
    match event {
        PadEvent::Disconnect => (s, PadReaction::RemoveController(id)),
        PadEvent::MenuR(true) => (s, PadReaction::Quit(id)),
        PadEvent::JoyY(v) => match s.pid {
            Some(p) => {
                let (q, r) = left_stick(p, v as int);
                (State { pid: if q is Some { q } else { s.pid }, ..s }, r)
            },
            None => (s, PadReaction::Nothing),
        },
        PadEvent::CamY(v) => match s.pid {
            Some(p) => {
                let (q, r) = right_stick(p, v as int);
                (State { pid: if q is Some { q } else { s.pid }, ..s }, r)
            },
            None => (s, PadReaction::Nothing),
        },
        _ => match pressed_button(event) {
            Some(b) => (s, PadReaction::PressButton(b)),
            None => (s, PadReaction::Nothing),
        },
    }
}

fn magnitude(v: i32) -> (r: u32)
    ensures
        r as int == abs(v as int),
{
    if v < 0 {
        (-(v as i64)) as u32
    } else {
        v as u32
    }
}

impl State {
    /// The loop starts with nothing under edit, on the first layout.
    pub fn new() -> (r: Self)
        ensures
            r == (State { pid: None, lid: 0 }),
    {
        State { pid: None, lid: 0 }
    }

    /// Handles one event of the controller with index `id`.
    pub fn on_event(&mut self, id: usize, event: PadEvent) -> (r: PadReaction)
        ensures
            (*final(self), r) == spec_on_event(*old(self), id, event),
    {
        match event {
            PadEvent::Disconnect => PadReaction::RemoveController(id),
            PadEvent::MenuR(true) => PadReaction::Quit(id),
            PadEvent::ActionA(true) => PadReaction::PressButton(0),
            PadEvent::ActionB(true) => PadReaction::PressButton(1),
            PadEvent::ActionH(true) => PadReaction::PressButton(2),
            PadEvent::ActionV(true) => PadReaction::PressButton(3),
            PadEvent::PovDown(true) => PadReaction::PressButton(4),
            PadEvent::PovRight(true) => PadReaction::PressButton(5),
            PadEvent::PovLeft(true) => PadReaction::PressButton(6),
            PadEvent::PovUp(true) => PadReaction::PressButton(7),
            PadEvent::BumperL(true) => PadReaction::PressButton(8),
            PadEvent::BumperR(true) => PadReaction::PressButton(9),
            PadEvent::Exit(true) => PadReaction::PressButton(10),
            PadEvent::JoyY(next) => {
                match self.pid {
                    Some(p) => {
                        let mut param = p;
                        let new_value = param.get_speed_mod(next);
                        let delay = param.get_next(next, param.prev_l, param.delay, new_value);
                        if delay != param.delay {
                            param.prev_l = magnitude(next);
                            param.delay = delay;
                            let mut reaction = PadReaction::Nothing;
                            if param.speed > 0 {
                                param.speed = param.get_speed(param.speed, delay);
                                reaction = PadReaction::SendSpeed(param);
                            }
                            self.pid = Some(param);
                            reaction
                        } else {
                            PadReaction::Nothing
                        }
                    },
                    None => PadReaction::Nothing,
                }
            },
            PadEvent::CamY(next) => {
                match self.pid {
                    Some(p) => {
                        let mut param = p;
                        let new_value = param.get_speed_direction(next);
                        let new_speed = param.get_next(next, param.prev_r, param.speed, new_value);
                        let speed = param.get_speed(new_speed, param.delay);
                        if speed != param.speed {
                            param.speed = speed;
                            param.prev_r = magnitude(next);
                            self.pid = Some(param);
                            PadReaction::SendSpeed(param)
                        } else {
                            PadReaction::Nothing
                        }
                    },
                    None => PadReaction::Nothing,
                }
            },
            _ => PadReaction::Nothing,
        }
    }
}


/// What pressing a layout button asks for, from the button's action as the
/// data service reports it (its wire name and its target id).
#[derive(Debug, Clone, Copy, PartialEq, Eq, Structural)]
pub enum Run8Plan {
    /// take the parameter up for editing
    EditParam(usize),
    /// switch to the layout with this id
    LoadLayout(usize),
    /// select the MIDI channel with this id
    SelectChan(usize),
    /// the button does nothing
    Idle,
    /// the action is unknown, lacks its id, or asks for the layout shown
    Unknown,
}

/// Why pressing a layout button failed.
#[derive(Debug, Clone, Copy, PartialEq, Eq, Structural)]
pub enum Run8Error {
    /// the data service did not acknowledge the press
    LayoutNotFound,
    /// the button's action could not be carried out
    ActionNotFound,
}

impl Run8Error {
    /// Message of the error.
    pub fn message(&self) -> (r: String)
        ensures
            r@ == (match *self {
                Run8Error::LayoutNotFound => "Layout id not found"@,
                Run8Error::ActionNotFound => "Action not found"@,
            }),
    {
        match self {
            Run8Error::LayoutNotFound => String::from_str("Layout id not found"),
            Run8Error::ActionNotFound => String::from_str("Action not found"),
        }
    }
}

impl Run8Plan {
    /// Whether carrying the plan out needs the press to be sent to the data
    /// service first (its answer is then handed to [`State::run8`]).
    pub open spec fn spec_needs_request(self) -> bool {
        self is EditParam || self is LoadLayout || self is SelectChan
    }

    pub fn needs_request(&self) -> (r: bool)
        ensures
            r == self.spec_needs_request(),
    {
        match self {
            Run8Plan::EditParam(_) | Run8Plan::LoadLayout(_) | Run8Plan::SelectChan(_) => true,
            _ => false,
        }
    }
}

/// The plan for a button whose action has the wire name `action` and the
/// target `id`, while the layout `lid` is shown.
pub open spec fn spec_plan(lid: u8, action: Seq<char>, id: Option<usize>) -> Run8Plan {
    match (action_from_name(action), id) {
        (Some(Action::EditParam), Some(i)) => Run8Plan::EditParam(i),
        (Some(Action::LoadLayout), Some(i)) => if lid != i as u8 {
            Run8Plan::LoadLayout(i)
        } else {
            Run8Plan::Unknown
        },
        (Some(Action::SelectChan), Some(i)) => Run8Plan::SelectChan(i),
        (Some(Action::NoAction), _) => Run8Plan::Idle,
        _ => Run8Plan::Unknown,
    }
}

/// The state after a press was carried out, and its result, given the data
/// service's answer to the press (if one was sent).
pub open spec fn spec_run8(s: State, bid: usize, plan: Run8Plan, response: Option<u64>) -> (State, Result<Option<u8>, Run8Error>) {
    match plan {
        Run8Plan::EditParam(_) => match response {
            Some(v) => (
                State { pid: Some(EditParam { pid: v as u8, speed: 0, delay: 0, prev_l: 0, prev_r: 0 }), ..s },
                Ok(Some(bid as u8)),
            ),
            None => (s, Err(Run8Error::LayoutNotFound)),
        },
        Run8Plan::LoadLayout(i) => match response {
            Some(_) => (State { pid: None, lid: i as u8 }, Ok(Some(i as u8))),
            None => (s, Err(Run8Error::LayoutNotFound)),
        },
        Run8Plan::SelectChan(i) => match response {
            Some(_) => (State { pid: None, ..s }, Ok(Some(i as u8))),
            None => (s, Err(Run8Error::LayoutNotFound)),
        },
        Run8Plan::Idle => (s, Ok(None)),
        Run8Plan::Unknown => (s, Err(Run8Error::ActionNotFound)),
    }
}

impl State {
    /// Plans the press of a layout button from its action's wire name and id.
    pub fn plan_run8(&self, action: &str, id: Option<usize>) -> (r: Run8Plan)
        ensures
            r == spec_plan(self.lid, action@, id),
    {
        match (Action::from_name(action), id) {
            (Some(Action::EditParam), Some(i)) => Run8Plan::EditParam(i),
            (Some(Action::LoadLayout), Some(i)) => {
                if self.lid != i as u8 {
                    Run8Plan::LoadLayout(i)
                } else {
                    Run8Plan::Unknown
                }
            },
            (Some(Action::SelectChan), Some(i)) => Run8Plan::SelectChan(i),
            (Some(Action::NoAction), _) => Run8Plan::Idle,
            _ => Run8Plan::Unknown,
        }
    }

    /// Carries out the press of the layout button `bid` by the plan, with the
    /// data service's answer to the press. What is sent to the data service
    /// next is said by [`follow_up_request`].
    pub fn run8(&mut self, bid: usize, plan: Run8Plan, response: Option<u64>) -> (r: Result<Option<u8>, Run8Error>)
        ensures
            (*final(self), r) == spec_run8(*old(self), bid, plan, response),
    {
        match plan {
            Run8Plan::EditParam(_) => match response {
                Some(v) => {
                    self.pid = Some(EditParam::new(v as u8));
                    Ok(Some(bid as u8))
                },
                None => Err(Run8Error::LayoutNotFound),
            },
            Run8Plan::LoadLayout(i) => match response {
                Some(_) => {
                    self.pid = None;
                    self.lid = i as u8;
                    Ok(Some(i as u8))
                },
                None => Err(Run8Error::LayoutNotFound),
            },
            Run8Plan::SelectChan(i) => match response {
                Some(_) => {
                    self.pid = None;
                    Ok(Some(i as u8))
                },
                None => Err(Run8Error::LayoutNotFound),
            },
            Run8Plan::Idle => Ok(None),
            Run8Plan::Unknown => Err(Run8Error::ActionNotFound),
        }
    }
}


/// The press that the data service is sent next, after a press was carried
/// out: a successful channel selection is followed by a press of button `10`
/// (the PS button); no other press is.
pub open spec fn spec_follow_up(plan: Run8Plan, result: Result<Option<u8>, Run8Error>) -> Option<usize> {
    if plan is SelectChan && result is Ok {
        Some(10)
    } else {
        None
    }
}

/// The press to send to the data service after carrying out `plan` with
/// `result`, if any.
pub fn follow_up_request(plan: Run8Plan, result: &Result<Option<u8>, Run8Error>) -> (r: Option<usize>)
    ensures
        r == spec_follow_up(plan, *result),
{
    match (plan, result) {
        (Run8Plan::SelectChan(_), Ok(_)) => Some(10),
        _ => None,
    }
}

/// A channel selection that the data service acknowledged ends the editing,
/// keeps the layout, and is followed by a press of button `10`.
pub proof fn lemma_select_chan_presses_ps(s: State, bid: usize, i: usize, response: u64)
    ensures
        spec_run8(s, bid, Run8Plan::SelectChan(i), Some(response)).1 == Ok::<Option<u8>, Run8Error>(Some(i as u8)),
        spec_run8(s, bid, Run8Plan::SelectChan(i), Some(response)).0 == (State { pid: None, lid: s.lid }),
        spec_follow_up(Run8Plan::SelectChan(i), spec_run8(s, bid, Run8Plan::SelectChan(i), Some(response)).1) == Some(10usize),
{
}

/// Pressing a button never changes the state by itself.
pub proof fn lemma_press_keeps_state(s: State, id: usize, event: PadEvent)
    requires
        pressed_button(event) is Some,
    ensures
        spec_on_event(s, id, event).0 == s,
        spec_on_event(s, id, event).1 == PadReaction::PressButton(pressed_button(event)->Some_0),
{
}

/// A speed that is sent is the speed of the parameter under edit afterwards.
pub proof fn lemma_sent_speed_is_kept(s: State, id: usize, event: PadEvent)
    ensures
        spec_on_event(s, id, event).1 matches PadReaction::SendSpeed(p) ==> spec_on_event(s, id, event).0.pid == Some(p),
{
}

/// Without a parameter under edit, the sticks do nothing.
pub proof fn lemma_sticks_idle_without_param(s: State, id: usize, v: i32)
    requires
        s.pid is None,
    ensures
        spec_on_event(s, id, PadEvent::JoyY(v)) == (s, PadReaction::Nothing),
        spec_on_event(s, id, PadEvent::CamY(v)) == (s, PadReaction::Nothing),
{
}

/// After a layout is loaded, asking for the same layout again is refused.
pub proof fn lemma_layout_not_reloaded(s: State, bid: usize, i: usize, response: u64, action: Seq<char>)
    requires
        action_from_name(action) == Some(Action::LoadLayout),
        spec_plan(s.lid, action, Some(i)) == Run8Plan::LoadLayout(i),
    ensures
        spec_run8(s, bid, Run8Plan::LoadLayout(i), Some(response)).0.pid is None,
        spec_plan(spec_run8(s, bid, Run8Plan::LoadLayout(i), Some(response)).0.lid, action, Some(i)) == Run8Plan::Unknown,
{
}


/// Law: letting the right stick go while the parameter under edit is moving
/// stops the change: the parameter is sent with speed `0` (and the stick at
/// rest), and that parameter is the one kept in the state.
pub proof fn lemma_release_stops_change(s: State, id: usize, p: EditParam)
    requires
        s.pid == Some(p),
        p.speed > 0,
    ensures
        spec_on_event(s, id, PadEvent::CamY(0)).0 == (State { pid: Some(EditParam { speed: 0, prev_r: 0, ..p }), lid: s.lid }),
        spec_on_event(s, id, PadEvent::CamY(0)).1 == PadReaction::SendSpeed(EditParam { speed: 0, prev_r: 0, ..p }),
{
}

} // verus!
