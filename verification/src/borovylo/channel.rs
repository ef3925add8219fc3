//! Unbounded channels of `futures`, with a record of what was handed to
//! each sending end.
//!
//! Both ends of a channel carry the channel's number; the sending end keeps,
//! in order, every message handed to it. Whether a message is ever read
//! depends on the receiving end, which is drained elsewhere.

use vstd::prelude::*;
use futures::channel::mpsc::{UnboundedReceiver, UnboundedSender};

verus! {

#[verifier::external_type_specification]
#[verifier::external_body]
#[verifier::reject_recursive_types(T)]
pub struct ExUnboundedSender<T>(UnboundedSender<T>);

#[verifier::external_type_specification]
#[verifier::external_body]
#[verifier::reject_recursive_types(T)]
pub struct ExUnboundedReceiver<T>(UnboundedReceiver<T>);

/// The sending end of a channel.
#[verifier::reject_recursive_types(T)]
pub struct Outlet<T> {
    sender: UnboundedSender<T>,
    chan: Ghost<int>,
    handed: Ghost<Seq<T>>,
}

/// The receiving end of a channel.
#[verifier::reject_recursive_types(T)]
pub struct Inlet<T> {
    /// the receiver of `futures`, to read the messages from
    pub receiver: UnboundedReceiver<T>,
    chan: Ghost<int>,
}

impl<T> Outlet<T> {
    /// The number of the channel.
    pub closed spec fn chan(&self) -> int {
        self.chan@
    }

    /// The messages handed to this end, in order.
    pub closed spec fn handed(&self) -> Seq<T> {
        self.handed@
    }

    /// `UnboundedSender::start_send`, with its result dropped: queues `msg` on
    /// the channel unless its receiver is gone. The message is added to the
    /// record of what was handed over; whether it is read is not stated.
    #[verifier::external_body]
    pub fn send(&mut self, msg: T)
        ensures
            final(self).chan() == old(self).chan(),
            final(self).handed() == old(self).handed().push(msg),
    {
        self.handed = Ghost(self.handed@.push(msg));
        self.sender.start_send(msg).ok();
    }
}

impl<T> Inlet<T> {
    /// The number of the channel.
    pub closed spec fn chan(&self) -> int {
        self.chan@
    }
}

/// `futures::channel::mpsc::unbounded`: a new channel, as its two ends, which
/// carry one channel number; nothing has been handed over yet.
#[verifier::external_body]
pub fn channel<T>() -> (r: (Outlet<T>, Inlet<T>))
    ensures
        r.0.chan() == r.1.chan(),
        r.0.handed() == Seq::<T>::empty(),
{
    let (sender, receiver) = futures::channel::mpsc::unbounded();
    let chan = Ghost(0int);
    (Outlet { sender, chan, handed: Ghost(Seq::empty()) }, Inlet { receiver, chan })
}

} // verus!
