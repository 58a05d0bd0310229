//! A bounded, ordered, per-worker mailbox with an explicit drop-newest
//! overflow policy.
//!
//! Enqueueing never blocks and never panics: a message offered to a full
//! mailbox is dropped and counted.  Messages are consumed strictly in
//! arrival order.
use vstd::prelude::*;

verus! {

/// A saturating counter bump, so overflow statistics can never wrap.
pub open spec fn spec_bump(n: u64) -> u64 {
    if n < u64::MAX {
        (n + 1) as u64
    } else {
        u64::MAX
    }
}

/// The queue and acceptance flag after offering `t` to a queue of capacity
/// `cap`: appended when there is room, dropped otherwise.
pub open spec fn spec_offer<T>(q: Seq<T>, cap: nat, t: T) -> (Seq<T>, bool) {
    if q.len() < cap {
        (q.push(t), true)
    } else {
        (q, false)
    }
}

/// The queue, accepted count and dropped count after offering a whole batch
/// of messages, oldest first, with nothing consumed in between.
pub open spec fn spec_offer_all<T>(q: Seq<T>, cap: nat, msgs: Seq<T>) -> (Seq<T>, nat, nat)
    decreases msgs.len(),
{
    if msgs.len() == 0 {
        (q, 0, 0)
    } else {
        let (q1, ok) = spec_offer(q, cap, msgs[0]);
        let (q2, acc, dropped) = spec_offer_all(q1, cap, msgs.drop_first());
        if ok {
            (q2, acc + 1, dropped)
        } else {
            (q2, acc, dropped + 1)
        }
    }
}

/// A bounded FIFO mailbox.  The capacity is fixed at creation and never
/// resized.
#[derive(Clone, Debug)]
pub struct Mailbox<T> {
    items: Vec<T>,
    capacity: usize,
    accepted: u64,
    dropped: u64,
}

impl<T> Mailbox<T> {
    /// The messages waiting to be consumed, oldest first.
    pub closed spec fn queue(&self) -> Seq<T> {
        self.items@
    }

    /// The fixed capacity.
    pub closed spec fn cap(&self) -> nat {
        self.capacity as nat
    }

    /// How many offered messages were accepted (saturating).
    pub closed spec fn accepted_count(&self) -> u64 {
        self.accepted
    }

    /// How many offered messages were dropped on overflow (saturating).
    pub closed spec fn dropped_count(&self) -> u64 {
        self.dropped
    }

    /// The queue never exceeds the capacity.
    pub open spec fn wf(&self) -> bool {
        self.queue().len() <= self.cap()
    }

    /// An empty mailbox of the given capacity.
    pub fn new(capacity: usize) -> (m: Mailbox<T>)
        ensures
            m.wf(),
            m.queue() == Seq::<T>::empty(),
            m.cap() == capacity as nat,
            m.accepted_count() == 0,
            m.dropped_count() == 0,
    {
        Mailbox { items: Vec::new(), capacity, accepted: 0, dropped: 0 }
    }

    /// Offers a message: appended and accepted when there is room, dropped
    /// and counted when the mailbox is full.  Never blocks, never fails.
    pub fn try_send(&mut self, t: T) -> (accepted: bool)
        requires
            old(self).wf(),
        ensures
            final(self).wf(),
            final(self).cap() == old(self).cap(),
            accepted == (old(self).queue().len() < old(self).cap()),
            (final(self).queue(), accepted) == spec_offer(old(self).queue(), old(self).cap(), t),
            accepted ==> final(self).accepted_count() == spec_bump(old(self).accepted_count())
                && final(self).dropped_count() == old(self).dropped_count(),
            !accepted ==> final(self).dropped_count() == spec_bump(old(self).dropped_count())
                && final(self).accepted_count() == old(self).accepted_count(),
    {
        if self.items.len() < self.capacity {
            self.items.push(t);
            self.accepted = if self.accepted < u64::MAX {
                self.accepted + 1
            } else {
                u64::MAX
            };
            true
        } else {
            self.dropped = if self.dropped < u64::MAX {
                self.dropped + 1
            } else {
                u64::MAX
            };
            false
        }
    }

    /// Removes and returns the oldest waiting message, if any.
    pub fn pop(&mut self) -> (r: Option<T>)
        requires
            old(self).wf(),
        ensures
            final(self).wf(),
            final(self).cap() == old(self).cap(),
            final(self).accepted_count() == old(self).accepted_count(),
            final(self).dropped_count() == old(self).dropped_count(),
            old(self).queue().len() == 0 ==> r is None && final(self).queue()
                == old(self).queue(),
            old(self).queue().len() > 0 ==> r == Some(old(self).queue()[0]) && final(self).queue()
                == old(self).queue().drop_first(),
    {
        if self.items.len() == 0 {
            None
        } else {
            let t = self.items.remove(0);
            proof {
                assert(final(self).items@ =~= old(self).items@.drop_first());
            }
            Some(t)
        }
    }

    /// How many messages are waiting.
    pub fn len(&self) -> (n: usize)
        ensures
            n == self.queue().len(),
    {
        self.items.len()
    }

    /// How many offered messages were accepted (saturating).
    pub fn accepted(&self) -> (n: u64)
        ensures
            n == self.accepted_count(),
    {
        self.accepted
    }

    /// How many offered messages were dropped on overflow (saturating).
    pub fn dropped(&self) -> (n: u64)
        ensures
            n == self.dropped_count(),
    {
        self.dropped
    }

    /// The fixed capacity.
    pub fn capacity(&self) -> (n: usize)
        ensures
            n == self.cap(),
    {
        self.capacity
    }
}

/// Mailbox overflow: offering a batch of `n` messages to a fresh mailbox of
/// capacity `cap` with nothing consumed accepts exactly the first
/// `min(n, cap)` messages, in order, and drops the excess — it neither
/// blocks nor fails.
pub proof fn lemma_mailbox_overflow<T>(cap: nat, msgs: Seq<T>)
    ensures
        ({
            let (q, acc, dropped) = spec_offer_all(Seq::<T>::empty(), cap, msgs);
            &&& acc == if msgs.len() <= cap {
                msgs.len()
            } else {
                cap
            }
            &&& dropped == msgs.len() - acc
            &&& q == msgs.take(acc as int)
        }),
{
    lemma_offer_all_from(Seq::<T>::empty(), cap, msgs);
    let (q, acc, dropped) = spec_offer_all(Seq::<T>::empty(), cap, msgs);
    assert(q =~= msgs.take(acc as int));
}

/// Offering a batch to a queue with room for `cap - q.len()` more messages
/// accepts exactly the batch's first messages up to that room, in order.
proof fn lemma_offer_all_from<T>(q: Seq<T>, cap: nat, msgs: Seq<T>)
    requires
        q.len() <= cap,
    ensures
        ({
            let (q2, acc, dropped) = spec_offer_all(q, cap, msgs);
            let room = (cap - q.len()) as nat;
            &&& acc == if msgs.len() <= room {
                msgs.len()
            } else {
                room
            }
            &&& dropped == msgs.len() - acc
            &&& q2 == q + msgs.take(acc as int)
        }),
    decreases msgs.len(),
{
    let (q2, acc, dropped) = spec_offer_all(q, cap, msgs);
    if msgs.len() == 0 {
        assert(q2 =~= q + msgs.take(0));
    } else {
        let (q1, ok) = spec_offer(q, cap, msgs[0]);
        lemma_offer_all_from(q1, cap, msgs.drop_first());
        let (qr, acc1, dropped1) = spec_offer_all(q1, cap, msgs.drop_first());
        if ok {
            assert(q1 == q.push(msgs[0]));
            assert(qr == q1 + msgs.drop_first().take(acc1 as int));
            assert(q2 =~= q + msgs.take((acc1 + 1) as int)) by {
                assert(q1 + msgs.drop_first().take(acc1 as int) =~= q + msgs.take(
                    (acc1 + 1) as int,
                ));
            }
        } else {
            assert(qr == q1 + msgs.drop_first().take(acc1 as int));
            assert(q2 =~= q + msgs.take(acc1 as int)) by {
                assert(msgs.drop_first().take(acc1 as int) =~= msgs.take(acc1 as int));
            }
        }
    }
}

} // verus!
