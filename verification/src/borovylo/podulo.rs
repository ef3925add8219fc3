//! The MIDI driver: which output port it opens, and which messages it sends
//! for the actions that the data service announces.
//!
//! While a parameter is being changed, the driver repeats its control-change
//! message, the faster the higher the speed. Times are nanoseconds since the
//! Unix epoch.

use vstd::prelude::*;
use crate::borovylo::edit_param::{EditParam, spec_cc, spec_delay_millis};
use crate::text::{occurs_in, str_contains};

verus! {

/// Why no MIDI output port was chosen.
#[derive(Eq, PartialEq, Structural, Copy, Clone, Debug)]
pub enum PortError {
    /// the system offers no MIDI output port
    NoPorts,
    /// no port's name holds the name asked for
    NotFound,
}

impl PortError {
    /// Message of the error, naming the port asked for.
    pub fn message(&self, target: &str) -> (r: String)
        ensures
            r@ == (match *self {
                PortError::NoPorts => "не наден ни один midi port"@,
                PortError::NotFound => "не найден midi port с именем '"@ + target@ + "'"@,
            }),
    {
        match self {
            PortError::NoPorts => String::from_str("не наден ни один midi port"),
            PortError::NotFound => {
                let mut m = String::from_str("не найден midi port с именем '");
                m.append(target);
                m.append("'");
                m
            },
        }
    }
}

/// The port to open among ports with these names: the first whose name holds
/// `target`.
pub fn find_port(names: &Vec<String>, target: &str) -> (r: Result<usize, PortError>)
    ensures
        names@.len() == 0 ==> r == Err::<usize, PortError>(PortError::NoPorts),
        names@.len() > 0 ==> match r {
            Ok(i) => i < names@.len() && occurs_in(names@[i as int]@, target@)
                && forall|k: int| 0 <= k < i ==> !occurs_in(#[trigger] names@[k]@, target@),
            Err(e) => e == PortError::NotFound
                && forall|k: int| 0 <= k < names@.len() ==> !occurs_in(#[trigger] names@[k]@, target@),
        },
{
    if names.len() == 0 {
        return Err(PortError::NoPorts);
    }
    let mut i: usize = 0;
    while i < names.len()
        invariant
            i <= names.len(),
            forall|k: int| 0 <= k < i ==> !occurs_in(#[trigger] names@[k]@, target@),
        decreases names.len() - i,
    {
        if str_contains(names[i].as_str(), target) {
            return Ok(i);
        }
        i = i + 1;
    }
    Err(PortError::NotFound)
}

/// A control-change message that is repeated until the change stops.
#[derive(Debug, Clone, Copy)]
pub struct RepeatUpdateAction {
    /// when it was last sent
    pub ts: u128,
    pub speed: u8,
    pub midi: [u8; 3],
}

/// The clock went back past the time of the last message.
#[derive(Eq, PartialEq, Structural, Copy, Clone, Debug)]
pub struct ClockError;

/// State of the driver: the message being repeated, if any.
#[derive(Debug, Clone, Copy)]
pub struct Driver {
    pub repeat_job: Option<RepeatUpdateAction>,
}

/// The state after an announced action with number `id`, and the message to
/// send at once, if any.
pub open spec fn spec_on_action(d: Driver, id: u8, midi: Option<[u8; 3]>, now: u128) -> (Driver, Option<[u8; 3]>) {
    if midi is Some && id == 3 {
        let m = midi->Some_0;
        let job = RepeatUpdateAction { midi: [m[0], m[1], spec_cc(m[2])], speed: m[2], ts: now };
        (Driver { repeat_job: Some(job) }, Some(job.midi))
    } else if d.repeat_job is Some && (id == 4 || id == 5) {
        (Driver { repeat_job: None }, None)
    } else if id == 1 {
        (Driver { repeat_job: None }, midi)
    } else if id == 2 {
        (d, midi)
    } else {
        (d, None)
    }
}

/// The state after the clock reached `now`, and the message to send again, if
/// it is due.
pub open spec fn spec_on_tick(d: Driver, now: u128) -> Result<(Driver, Option<[u8; 3]>), ClockError> {
    match d.repeat_job {
        None => Ok((d, None)),
        Some(job) => if now < job.ts {
            Err(ClockError)
        } else if (now - job.ts) / 1_000_000 >= spec_delay_millis(job.speed) {
            Ok((Driver { repeat_job: Some(RepeatUpdateAction { ts: now, ..job }) }, Some(job.midi)))
        } else {
            Ok((d, None))
        },
    }
}

impl Driver {
    /// A driver that repeats nothing.
    pub fn new() -> (r: Driver)
        ensures
            r.repeat_job.is_none(),
    {
        Driver { repeat_job: None }
    }

    /// Handles the action with number `id` and message `midi` announced at
    /// time `now`: a change of a parameter starts repeating its message, a stop
    /// or a local layout change ends it, a layout change or a parameter
    /// activation is sent once.
    pub fn on_action(&mut self, id: u8, midi: Option<[u8; 3]>, now: u128) -> (r: Option<[u8; 3]>)
        requires
            (id == 1 || id == 2) ==> midi is Some,
        ensures
            (*final(self), r) == spec_on_action(*old(self), id, midi, now),
    {
        if midi.is_some() && id == 3 {
            let m = midi.unwrap();
            let job = RepeatUpdateAction { midi: [m[0], m[1], EditParam::get_cc(m[2])], speed: m[2], ts: now };
            self.repeat_job = Some(job);
            Some(job.midi)
        } else if self.repeat_job.is_some() && (id == 4 || id == 5) {
            self.repeat_job = None;
            None
        } else if id == 1 {
            self.repeat_job = None;
            Some(midi.unwrap())
        } else if id == 2 {
            Some(midi.unwrap())
        } else {
            None
        }
    }

    /// Lets the clock advance to `now`: a repeated message that is due is sent
    /// again and its time renewed.
    pub fn on_tick(&mut self, now: u128) -> (r: Result<Option<[u8; 3]>, ClockError>)
        ensures
            match spec_on_tick(*old(self), now) {
                Ok((d, m)) => *final(self) == d && r == Ok::<Option<[u8; 3]>, ClockError>(m),
                Err(e) => *final(self) == *old(self) && r == Err::<Option<[u8; 3]>, ClockError>(e),
            },
    {
        match self.repeat_job {
            None => Ok(None),
            Some(job) => {
                if now < job.ts {
                    Err(ClockError)
                } else if (now - job.ts) / 1_000_000 >= EditParam::delay_millis(job.speed) {
                    self.repeat_job = Some(RepeatUpdateAction { ts: now, ..job });
                    Ok(Some(job.midi))
                } else {
                    Ok(None)
                }
            },
        }
    }
}


/// Once a change of a parameter stops, nothing is repeated any more.
pub proof fn lemma_stop_ends_repetition(d: Driver, id: u8, now: u128, later: u128)
    requires
        d.repeat_job is Some,
        id == 4 || id == 5,
    ensures
        spec_on_action(d, id, None, now).0.repeat_job is None,
        spec_on_tick(spec_on_action(d, id, None, now).0, later) == Ok::<(Driver, Option<[u8; 3]>), ClockError>((spec_on_action(d, id, None, now).0, None)),
{
}

/// A repeated message is not sent twice at the same moment.
pub proof fn lemma_tick_twice(d: Driver, now: u128)
    requires
        spec_on_tick(d, now) is Ok,
    ensures
        spec_on_tick(spec_on_tick(d, now)->Ok_0.0, now) == Ok::<(Driver, Option<[u8; 3]>), ClockError>((spec_on_tick(d, now)->Ok_0.0, None)),
{
}

/// A change of a parameter is sent at once with the control-change value of
/// its direction, and then repeated.
pub proof fn lemma_update_starts_repetition(d: Driver, m: [u8; 3], now: u128)
    ensures
        spec_on_action(d, 3, Some(m), now).1 == Some([m[0], m[1], spec_cc(m[2])]),
        spec_on_action(d, 3, Some(m), now).0.repeat_job is Some,
        spec_on_action(d, 3, Some(m), now).0.repeat_job->Some_0.speed == m[2],
{
}


/// An input of the MIDI driver: an action (its number and message) announced
/// at a time, or the clock reaching a time.
pub enum DriverInput {
    Action(u8, Option<[u8; 3]>, u128),
    Tick(u128),
}

/// Whether an input is a change of a parameter, which starts a repetition.
pub open spec fn starts_change(i: DriverInput) -> bool {
    i matches DriverInput::Action(id, midi, _) && id == 3 && midi is Some
}

/// Whether an input stops a repetition: a stop, a local layout change, or a
/// layout change.
pub open spec fn stops_change(i: DriverInput) -> bool {
    i matches DriverInput::Action(id, _, _) && (id == 1 || id == 4 || id == 5)
}

/// What the driver sends again on each tick of a run of inputs, from the
/// driver `d`; a tick that finds the clock gone backwards sends nothing.
pub open spec fn tick_sends(d: Driver, inputs: Seq<DriverInput>) -> Seq<Option<[u8; 3]>>
    decreases inputs.len(),
{
    if inputs.len() == 0 {
        Seq::empty()
    } else {
        match inputs[0] {
            DriverInput::Action(id, midi, now) => tick_sends(spec_on_action(d, id, midi, now).0, inputs.drop_first()),
            DriverInput::Tick(now) => match spec_on_tick(d, now) {
                Ok((next, m)) => seq![m] + tick_sends(next, inputs.drop_first()),
                Err(_) => seq![None::<[u8; 3]>] + tick_sends(d, inputs.drop_first()),
            },
        }
    }
}

proof fn lemma_idle_stays_idle(d: Driver, inputs: Seq<DriverInput>)
    requires
        d.repeat_job is None,
        forall|j: int| 0 <= j < inputs.len() ==> !starts_change(#[trigger] inputs[j]),
    ensures
        forall|j: int| 0 <= j < tick_sends(d, inputs).len() ==> (#[trigger] tick_sends(d, inputs)[j]) is None,
    decreases inputs.len(),
{
    if inputs.len() > 0 {
        let rest = inputs.drop_first();
        assert forall|j: int| 0 <= j < rest.len() implies !starts_change(#[trigger] rest[j]) by {
            assert(rest[j] == inputs[j + 1]);
        }
        assert(!starts_change(inputs[0]));
        match inputs[0] {
            DriverInput::Action(id, midi, now) => {
                lemma_idle_stays_idle(spec_on_action(d, id, midi, now).0, rest);
            },
            DriverInput::Tick(now) => {
                lemma_idle_stays_idle(d, rest);
                let t = tick_sends(d, inputs);
                assert forall|j: int| 0 <= j < t.len() implies (#[trigger] t[j]) is None by {
                    if j > 0 {
                        assert(t[j] == tick_sends(d, rest)[j - 1]);
                    }
                }
            },
        }
    }
}

/// Law: after a stop, a local layout change or a layout change, no message is
/// sent again on any tick until a parameter changes anew.
pub proof fn lemma_no_repeat_after_stop(d: Driver, stop: DriverInput, inputs: Seq<DriverInput>)
    requires
        stops_change(stop),
        forall|j: int| 0 <= j < inputs.len() ==> !starts_change(#[trigger] inputs[j]),
    ensures
        forall|j: int| 0 <= j < tick_sends(d, seq![stop] + inputs).len()
            ==> (#[trigger] tick_sends(d, seq![stop] + inputs)[j]) is None,
{
    let all = seq![stop] + inputs;
    assert(all.drop_first() =~= inputs);
    assert(all[0] == stop);
    match stop {
        DriverInput::Action(id, midi, now) => {
            let next = spec_on_action(d, id, midi, now).0;
            assert(next.repeat_job is None);
            lemma_idle_stays_idle(next, inputs);
        },
        DriverInput::Tick(_) => {},
    }
}


/// Law: while no action arrives, the driver repeats the message of the
/// change in progress and nothing else; the change keeps its message and speed.
pub proof fn lemma_repeats_only_the_change(d: Driver, inputs: Seq<DriverInput>)
    requires
        d.repeat_job is Some,
        forall|j: int| 0 <= j < inputs.len() ==> (#[trigger] inputs[j]) is Tick,
    ensures
        forall|j: int| 0 <= j < tick_sends(d, inputs).len() ==> (#[trigger] tick_sends(d, inputs)[j]) is None
            || tick_sends(d, inputs)[j] == Some(d.repeat_job->Some_0.midi),
    decreases inputs.len(),
{
    if inputs.len() > 0 {
        let rest = inputs.drop_first();
        assert forall|j: int| 0 <= j < rest.len() implies (#[trigger] rest[j]) is Tick by {
            assert(rest[j] == inputs[j + 1]);
        }
        assert(inputs[0] is Tick);
        let now = inputs[0]->Tick_0;
        let next = match spec_on_tick(d, now) {
            Ok((n, _)) => n,
            Err(_) => d,
        };
        assert(next.repeat_job is Some);
        assert(next.repeat_job->Some_0.midi == d.repeat_job->Some_0.midi);
        lemma_repeats_only_the_change(next, rest);
        let t = tick_sends(d, inputs);
        assert forall|j: int| 0 <= j < t.len() implies (#[trigger] t[j]) is None
            || t[j] == Some(d.repeat_job->Some_0.midi) by {
            if j > 0 {
                assert(t[j] == tick_sends(next, rest)[j - 1]);
            }
        }
    }
}


/// Law: after a change of a parameter at time `t0`, a tick at a later time
/// `t` sends its message again exactly when at least the delay of the
/// change's speed has passed: 30 ms for the fastest speeds (5 and 10), then
/// 60, 140 and 190 ms, and 100 ms otherwise.
pub proof fn lemma_repeat_rate_follows_speed(d: Driver, m: [u8; 3], t0: u128, t: u128)
    requires
        t >= t0,
    ensures
        ({
            let after = spec_on_action(d, 3, Some(m), t0).0;
            let ms = (t - t0) / 1_000_000;
            let delay: int = if m[2] == 5 || m[2] == 10 { 30 } else if m[2] == 4 || m[2] == 9 { 60 }
                else if m[2] == 3 || m[2] == 8 { 140 } else if m[2] == 2 || m[2] == 7 { 190 } else { 100 };
            &&& spec_on_tick(after, t) is Ok
            &&& (spec_on_tick(after, t)->Ok_0.1 is Some <==> ms >= delay)
            &&& (ms >= delay ==> spec_on_tick(after, t)->Ok_0.1 == Some([m[0], m[1], if m[2] < 6 { 127u8 } else { 0u8 }]))
        }),
{
}

} // verus!
