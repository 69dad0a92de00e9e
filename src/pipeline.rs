//! The delivery pipeline between the thread that reads the backend and the
//! loop that owns the caches: an ordered queue that ends in a closed state.

use vstd::prelude::*;
use std::collections::VecDeque;
use crate::cache::{LineCache, Slot};
use crate::script::{Op, ProtocolError, replay, replay_outcome};

verus! {

/// What the consumer gets when it asks the queue for the next item.
#[derive(Clone, Debug)]
pub enum Delivery<T> {
    /// The oldest item not yet taken.
    Message(T),
    /// Nothing is waiting now; more may come.
    Empty,
    /// Nothing is waiting and nothing will come: the transport has closed.
    Closed,
}

/// An unbounded first-in first-out queue of messages that can be closed.
pub struct MessageQueue<T> {
    items: VecDeque<T>,
    closed: bool,
}

impl<T> MessageQueue<T> {
    /// The items waiting, oldest first.
    pub closed spec fn pending(&self) -> Seq<T> {
        self.items@
    }

    /// Whether the producer has closed the queue.
    pub closed spec fn is_closed(&self) -> bool {
        self.closed
    }

    /// An open, empty queue.
    pub fn new() -> (r: MessageQueue<T>)
        ensures
            r.pending() == Seq::<T>::empty(),
            !r.is_closed(),
    {
        MessageQueue { items: VecDeque::new(), closed: false }
    }

    /// Appends `m` behind every waiting item, unless the queue is closed.
    /// Returns whether `m` was taken.
    pub fn push(&mut self, m: T) -> (r: bool)
        ensures
            r == !old(self).is_closed(),
            final(self).is_closed() == old(self).is_closed(),
            final(self).pending() == if r {
                old(self).pending().push(m)
            } else {
                old(self).pending()
            },
    {
        if self.closed {
            false
        } else {
            self.items.push_back(m);
            true
        }
    }

    /// Marks the end of the stream; the items already waiting stay.
    pub fn close(&mut self)
        ensures
            final(self).is_closed(),
            final(self).pending() == old(self).pending(),
    {
        self.closed = true;
    }

    /// Takes the oldest waiting item.
    pub fn pop(&mut self) -> (r: Delivery<T>)
        ensures
            final(self).is_closed() == old(self).is_closed(),
            old(self).pending().len() > 0 ==> r == Delivery::Message(old(self).pending()[0])
                && final(self).pending() == old(self).pending().drop_first(),
            old(self).pending().len() == 0 ==> final(self).pending() == old(self).pending() && r == if old(
                self,
            ).is_closed() {
                Delivery::<T>::Closed
            } else {
                Delivery::<T>::Empty
            },
    {
        match self.items.pop_front() {
            Some(m) => {
                assert(old(self).pending().drop_first() =~= self.items@);
                Delivery::Message(m)
            },
            None => if self.closed {
                Delivery::Closed
            } else {
                Delivery::Empty
            },
        }
    }
}

/// The cache after applying `scripts` one after the other, oldest first.
pub open spec fn replay_all(cache: Seq<Slot>, scripts: Seq<Vec<Op>>) -> Seq<Slot>
    decreases scripts.len(),
{
    if scripts.len() == 0 {
        cache
    } else {
        replay(replay_all(cache, scripts.drop_last()), scripts.last()@)
    }
}

/// The outcome of each script of `scripts`, each against the cache that the
/// ones before it left.
pub open spec fn outcomes_all(cache: Seq<Slot>, scripts: Seq<Vec<Op>>) -> Seq<Result<(), ProtocolError>>
    decreases scripts.len(),
{
    if scripts.len() == 0 {
        Seq::empty()
    } else {
        let pre = scripts.drop_last();
        outcomes_all(cache, pre).push(replay_outcome(replay_all(cache, pre), scripts.last()@))
    }
}

/// Applies every waiting script to `cache`, oldest first, each one whole
/// before the next begins; returns each script's outcome in the same order.
pub fn apply_pending(queue: &mut MessageQueue<Vec<Op>>, cache: &mut LineCache) -> (r: Vec<Result<(), ProtocolError>>)
    ensures
        final(cache).view() == replay_all(old(cache).view(), old(queue).pending()),
        r@ == outcomes_all(old(cache).view(), old(queue).pending()),
        final(queue).pending().len() == 0,
        final(queue).is_closed() == old(queue).is_closed(),
{
    let ghost q0 = queue.pending();
    let ghost c0 = cache.view();
    let mut r: Vec<Result<(), ProtocolError>> = Vec::new();
    let ghost mut k: int = 0;
    assert(q0.take(0) =~= Seq::<Vec<Op>>::empty());
    loop
        invariant
            0 <= k <= q0.len(),
            q0 == old(queue).pending(),
            c0 == old(cache).view(),
            queue.pending() == q0.skip(k),
            queue.is_closed() == old(queue).is_closed(),
            cache.view() == replay_all(c0, q0.take(k)),
            r@ == outcomes_all(c0, q0.take(k)),
        decreases q0.len() - k,
    {
        match queue.pop() {
            Delivery::Message(ops) => {
                assert(q0.take(k + 1).drop_last() =~= q0.take(k));
                assert(q0.skip(k)[0] == q0[k]);
                let res = cache.apply_update(ops);
                r.push(res);
                proof {
                    assert(q0.skip(k).drop_first() =~= q0.skip(k + 1));
                    k = k + 1;
                }
            },
            _ => {
                assert(q0.take(k) =~= q0) by {
                    assert(q0.skip(k).len() == 0);
                }
                return r;
            },
        }
    }
}

/// Scripts are applied in the order they were queued: the second one is
/// replayed against the cache that the first one left, whole.
pub proof fn law_ordered_delivery(cache: Seq<Slot>, first: Vec<Op>, second: Vec<Op>)
    ensures
        replay_all(cache, seq![first, second]) == replay(replay(cache, first@), second@),
{
    let s = seq![first, second];
    assert(s.drop_last() =~= seq![first]);
    assert(seq![first].drop_last() =~= Seq::<Vec<Op>>::empty());
    assert(replay_all(cache, Seq::<Vec<Op>>::empty()) == cache);
    assert(replay_all(cache, seq![first]) == replay(cache, first@));
}

} // verus!
