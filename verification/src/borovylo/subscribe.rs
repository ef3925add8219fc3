//! Publishing notices to the subscribers of the data service.
//!
//! Each subscriber holds the receiving end of an unbounded channel; the
//! manager keeps the sending ends in numbered slots.

use vstd::prelude::*;
use crate::borovylo::channel::{channel, Inlet, Outlet};

verus! {

/// The subscribers to notices of type `T`, by slot.
#[verifier::reject_recursive_types(T)]
pub struct Manager<T> {
    senders: Vec<Option<Outlet<T>>>,
}

/// The sending end of a subscriber's channel: the channel's number and the
/// messages handed to it since the subscriber came.
pub struct OutletView<T> {
    pub chan: int,
    pub handed: Seq<T>,
}

pub open spec fn outlet_view<T>(o: Option<Outlet<T>>) -> Option<OutletView<T>> {
    match o {
        Some(o) => Some(OutletView { chan: o.chan(), handed: o.handed() }),
        None => None,
    }
}

impl<T> View for Manager<T> {
    /// each slot: empty, or the sending end of a subscriber's channel
    type V = Seq<Option<OutletView<T>>>;

    closed spec fn view(&self) -> Seq<Option<OutletView<T>>> {
        self.senders@.map_values(|o: Option<Outlet<T>>| outlet_view(o))
    }
}

/// What a publication of `msg` does to the slots: each subscriber's channel
/// is handed one more message, a clone of `msg`; empty slots stay empty.
pub open spec fn published<T: Clone>(before: Seq<Option<OutletView<T>>>, after: Seq<Option<OutletView<T>>>, msg: T) -> bool {
    &&& after.len() == before.len()
    &&& forall|k: int| 0 <= k < before.len() ==> match (#[trigger] before[k], after[k]) {
        (Some(b), Some(a)) => {
            &&& a.chan == b.chan
            &&& a.handed.len() == b.handed.len() + 1
            &&& a.handed.subrange(0, b.handed.len() as int) == b.handed
            &&& cloned(msg, a.handed.last())
        },
        (None, None) => true,
        _ => false,
    }
}

impl<T: Clone> Manager<T> {
    /// A manager without subscribers.
    pub fn new() -> (r: Self)
        ensures
            r@ == Seq::<Option<OutletView<T>>>::empty(),
    {
        let r = Manager { senders: Vec::new() };
        assert(r@ =~= Seq::<Option<OutletView<T>>>::empty());
        r
    }

    /// Hands a clone of `msg` to the channel of every subscriber; the
    /// subscribers stay. Whether a channel still has a receiver to read it is
    /// not known here.
    pub fn publish(&mut self, msg: T)
        ensures
            published(old(self)@, final(self)@, msg),
    {
        let mut i: usize = 0;
        while i < self.senders.len()
            invariant
                i <= self.senders.len(),
                self@.len() == old(self)@.len(),
                forall|k: int| 0 <= k < i ==> match (#[trigger] old(self)@[k], self@[k]) {
                    (Some(b), Some(a)) => {
                        &&& a.chan == b.chan
                        &&& a.handed.len() == b.handed.len() + 1
                        &&& a.handed.subrange(0, b.handed.len() as int) == b.handed
                        &&& cloned(msg, a.handed.last())
                    },
                    (None, None) => true,
                    _ => false,
                },
                forall|k: int| i <= k < self@.len() ==> #[trigger] self@[k] == old(self)@[k],
            decreases self.senders.len() - i,
        {
            let ghost before = self@;
            match &mut self.senders[i] {
                Some(outlet) => {
                    let copy = msg.clone();
                    outlet.send(copy);
                },
                None => {},
            }
            proof {
                assert forall|k: int| 0 <= k < self@.len() && k != i implies #[trigger] self@[k] == before[k] by {}
                match before[i as int] {
                    Some(b) => {
                        let a = self@[i as int]->Some_0;
                        assert(a.handed.subrange(0, b.handed.len() as int) =~= b.handed);
                    },
                    None => {},
                }
            }
            i = i + 1;
        }
    }

    /// Adds a subscriber in the first free slot (a new one if none is free);
    /// returns the slot and the receiving end of the subscriber's channel,
    /// whose sending end now sits in the slot with nothing handed to it yet.
    pub fn subscribe(&mut self) -> (r: (usize, Inlet<T>))
        requires
            old(self)@.len() < usize::MAX,
        ensures
            r.0 <= old(self)@.len(),
            forall|k: int| 0 <= k < r.0 ==> old(self)@[k] is Some,
            r.0 < old(self)@.len() ==> old(self)@[r.0 as int] is None
                && final(self)@ == old(self)@.update(r.0 as int, Some(OutletView { chan: r.1.chan(), handed: Seq::empty() })),
            r.0 == old(self)@.len() ==> final(self)@ == old(self)@.push(Some(OutletView { chan: r.1.chan(), handed: Seq::empty() })),
    {
        let (tx, rx) = channel();
        let mut i: usize = 0;
        while i < self.senders.len()
            invariant
                i <= self.senders.len(),
                self.senders == old(self).senders,
                tx.chan() == rx.chan(),
                tx.handed() == Seq::<T>::empty(),
                forall|k: int| 0 <= k < i ==> old(self)@[k] is Some,
            decreases self.senders.len() - i,
        {
            if self.senders[i].is_none() {
                self.senders.set(i, Some(tx));
                assert(self@ =~= old(self)@.update(i as int, Some(OutletView { chan: rx.chan(), handed: Seq::empty() })));
                return (i, rx);
            }
            i = i + 1;
        }
        self.senders.push(Some(tx));
        assert(self@ =~= old(self)@.push(Some(OutletView { chan: rx.chan(), handed: Seq::empty() })));
        (i, rx)
    }

    /// Removes the subscriber in slot `id`; its channel closes.
    pub fn unsubscribe(&mut self, id: usize)
        requires
            (id as int) < old(self)@.len(),
            old(self)@[id as int] is Some,
        ensures
            final(self)@ == old(self)@.update(id as int, None),
    {
        self.senders.set(id, None);
        assert(self@ =~= old(self)@.update(id as int, None));
    }
}

/// Law: a subscriber that is there through a run of publications keeps its
/// channel, and its channel is handed a clone of each message, one after the
/// other in the order of publication, after what it had been handed before
/// (nothing, for a subscriber that came just before the run).
pub proof fn lemma_handed_in_order<T: Clone>(states: Seq<Seq<Option<OutletView<T>>>>, msgs: Seq<T>, k: int)
    requires
        states.len() == msgs.len() + 1,
        forall|j: int| 0 <= j < msgs.len() ==> #[trigger] published(states[j], states[j + 1], msgs[j]),
        0 <= k < states[0].len(),
        states[0][k] is Some,
    ensures
        states.last().len() == states[0].len(),
        states.last()[k] is Some,
        states.last()[k]->Some_0.chan == states[0][k]->Some_0.chan,
        states.last()[k]->Some_0.handed.len() == states[0][k]->Some_0.handed.len() + msgs.len(),
        states.last()[k]->Some_0.handed.subrange(0, states[0][k]->Some_0.handed.len() as int)
            == states[0][k]->Some_0.handed,
        forall|j: int| 0 <= j < msgs.len() ==> cloned(#[trigger] msgs[j],
            states.last()[k]->Some_0.handed[states[0][k]->Some_0.handed.len() + j]),
    decreases msgs.len(),
{
    if msgs.len() > 0 {
        let n = msgs.len() - 1;
        let ss = states.subrange(0, n + 1);
        let ms = msgs.subrange(0, n as int);
        assert forall|j: int| 0 <= j < ms.len() implies #[trigger] published(ss[j], ss[j + 1], ms[j]) by {
            assert(published(states[j], states[j + 1], msgs[j]));
        }
        lemma_handed_in_order(ss, ms, k);
        assert(ss.last() == states[n]);
        assert(published(states[n], states[n + 1], msgs[n]));
        let before = states[0][k]->Some_0.handed;
        let mid = states[n][k]->Some_0.handed;
        assert(states[n][k] is Some);
        let last = states.last()[k]->Some_0.handed;
        assert(last.subrange(0, mid.len() as int) == mid);
        assert(last.subrange(0, before.len() as int) =~= before) by {
            assert forall|i: int| 0 <= i < before.len() implies last[i] == before[i] by {
                assert(last.subrange(0, mid.len() as int)[i] == last[i]);
                assert(mid.subrange(0, before.len() as int)[i] == mid[i]);
            }
        }
        assert forall|j: int| 0 <= j < msgs.len() implies cloned(#[trigger] msgs[j], last[before.len() + j]) by {
            if j < n {
                assert(ms[j] == msgs[j]);
                assert(last.subrange(0, mid.len() as int)[before.len() + j] == last[before.len() + j]);
                assert(cloned(ms[j], mid[before.len() + j]));
            } else {
                assert(last.last() == last[before.len() + j]);
            }
        }
    }
}

/// Law: with no subscriber, a publication hands nothing to any channel.
pub proof fn lemma_no_subscriber_no_handover<T: Clone>(before: Seq<Option<OutletView<T>>>, after: Seq<Option<OutletView<T>>>, msg: T)
    requires
        forall|k: int| 0 <= k < before.len() ==> before[k] is None,
        published(before, after, msg),
    ensures
        after == before,
{
    assert forall|k: int| 0 <= k < after.len() implies after[k] == before[k] by {
        assert(before[k] is None);
    }
    assert(after =~= before);
}

} // verus!
