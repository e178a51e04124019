//! Bounded fan-out channel: a single-producer, multi-consumer broadcast
//! primitive.
//!
//! The channel retains a ring of the most recent payloads, up to a fixed
//! capacity; every payload ever published has an absolute index in
//! production order. Each subscriber owns an independent [`Cursor`] holding
//! the absolute index of the next payload it should see. Publishing never
//! blocks and never fails: when the ring is full the oldest retained payload
//! is evicted. A cursor that has fallen behind the retained window is
//! snapped forward to the oldest retained payload — the subscriber silently
//! loses the evicted payloads instead of stalling the producer or any other
//! subscriber.

use vstd::prelude::*;

verus! {

/// Absolute index of the oldest payload still retained when `published`
/// payloads have been stored in a ring of the given `capacity`.
pub open spec fn oldest_retained(published: nat, capacity: nat) -> nat {
    if published <= capacity {
        0
    } else {
        (published - capacity) as nat
    }
}

/// Absolute index of the payload that a cursor standing at `pos` is
/// delivered next, once one newer than `pos` exists: `pos` itself while it
/// lies inside the retained window, and the oldest retained index once the
/// cursor has lagged behind it.
pub open spec fn delivery_index(pos: nat, published: nat, capacity: nat) -> nat {
    if pos >= oldest_retained(published, capacity) {
        pos
    } else {
        oldest_retained(published, capacity)
    }
}

/// What one poll of a subscriber cursor yields.
pub enum NextResult {
    /// The next payload in production order, lag-snapped if the cursor had
    /// fallen behind the retained window.
    Payload(Vec<u8>),
    /// No payload newer than the cursor exists yet: the caller should
    /// suspend and poll again.
    Pending,
    /// The channel is closed and nothing newer will come: the terminal
    /// signal.
    Closed,
}

/// A subscriber's independent read position: the absolute index of the next
/// payload it should be delivered.
#[derive(Debug)]
pub struct Cursor {
    next_index: usize,
}

impl Cursor {
    /// Absolute index of the next payload this cursor should see.
    pub closed spec fn pos(self) -> nat {
        self.next_index as nat
    }
}

/// The bounded fan-out channel itself: a ring of the most recent payloads
/// plus the count of everything published since creation.
pub struct FanoutChannel {
    capacity: usize,
    ring: Vec<Vec<u8>>,
    published: usize,
    closed: bool,
    past: Ghost<Seq<Seq<u8>>>,
}

impl FanoutChannel {
    /// Every payload ever published, oldest first, in production order.
    pub closed spec fn history(self) -> Seq<Seq<u8>> {
        self.past@
    }

    /// How many payloads have been published since creation.
    pub open spec fn published(self) -> nat {
        self.history().len()
    }

    /// The fixed bound on how many payloads are retained.
    pub closed spec fn capacity(self) -> nat {
        self.capacity as nat
    }

    /// Whether the producer side has terminated.
    pub closed spec fn is_closed(self) -> bool {
        self.closed
    }

    /// Internal consistency: the ring holds exactly the retained suffix of
    /// the history, oldest first.
    pub closed spec fn wf(self) -> bool {
        &&& self.capacity >= 1
        &&& self.published == self.past@.len()
        &&& self.ring@.len() == self.published - oldest_retained(
            self.published as nat,
            self.capacity as nat,
        )
        &&& forall|i: int|
            oldest_retained(self.published as nat, self.capacity as nat) <= i
                < self.published ==> self.ring@[i - oldest_retained(
                self.published as nat,
                self.capacity as nat,
            )]@ == self.past@[i]
    }

    /// A fresh channel that retains at most `capacity` payloads.
    pub fn new(capacity: usize) -> (ch: FanoutChannel)
        requires
            capacity >= 1,
        ensures
            ch.wf(),
            ch.capacity() == capacity,
            ch.history() == Seq::<Seq<u8>>::empty(),
            !ch.is_closed(),
    {
        FanoutChannel {
            capacity,
            ring: Vec::new(),
            published: 0,
            closed: false,
            past: Ghost(Seq::empty()),
        }
    }

    /// Number of payloads published so far, so that a caller can guard the
    /// machine limit of `publish` before invoking it.
    pub fn published_count(&self) -> (n: usize)
        requires
            self.wf(),
        ensures
            n == self.published(),
    {
        self.published
    }

    /// Whether the producer side has terminated.
    pub fn closed(&self) -> (c: bool)
        ensures
            c == self.is_closed(),
    {
        self.closed
    }

    /// Store `payload` as the newest entry, evicting the oldest retained one
    /// when the ring is full. Never blocks and never fails, subscribers or
    /// none.
    pub fn publish(&mut self, payload: Vec<u8>)
        requires
            old(self).wf(),
            old(self).published() < usize::MAX,
        ensures
            final(self).wf(),
            final(self).history() == old(self).history().push(payload@),
            final(self).capacity() == old(self).capacity(),
            final(self).is_closed() == old(self).is_closed(),
    {
        let ghost entry: Seq<u8> = payload@;
        if self.ring.len() == self.capacity {
            self.ring.remove(0);
        }
        self.ring.push(payload);
        self.published = self.published + 1;
        proof {
            self.past@ = self.past@.push(entry);
        }
    }

    /// A fresh cursor positioned at "newest at time of call": the subscriber
    /// sees payloads published from now on, never historical ones.
    pub fn subscribe(&self) -> (c: Cursor)
        requires
            self.wf(),
        ensures
            c.pos() == self.published(),
    {
        Cursor { next_index: self.published }
    }

    /// Deliver the next payload newer than the cursor, advancing it past the
    /// delivered index; report `Pending` while nothing newer exists, and the
    /// terminal `Closed` instead once the channel is closed.
    pub fn next(&self, cursor: &mut Cursor) -> (r: NextResult)
        requires
            self.wf(),
        ensures
            old(cursor).pos() >= self.published() ==> {
                &&& final(cursor).pos() == old(cursor).pos()
                &&& (self.is_closed() ==> r is Closed)
                &&& (!self.is_closed() ==> r is Pending)
            },
            old(cursor).pos() < self.published() ==> {
                let i = delivery_index(old(cursor).pos(), self.published(), self.capacity());
                &&& (r matches NextResult::Payload(p) && p@ == self.history()[i as int])
                &&& final(cursor).pos() == i + 1
            },
    {
        if cursor.next_index >= self.published {
            if self.closed {
                NextResult::Closed
            } else {
                NextResult::Pending
            }
        } else {
            let start: usize = self.published - self.ring.len();
            let i: usize = if cursor.next_index < start {
                start
            } else {
                cursor.next_index
            };
            cursor.next_index = i + 1;
            NextResult::Payload(clone_payload(&self.ring[i - start]))
        }
    }

    /// Terminate the producer side: drained subscribers are handed the
    /// terminal signal from now on.
    pub fn close(&mut self)
        requires
            old(self).wf(),
        ensures
            final(self).wf(),
            final(self).is_closed(),
            final(self).history() == old(self).history(),
            final(self).capacity() == old(self).capacity(),
    {
        self.closed = true;
    }
}

/// Law: a delivery is never inconsistent with eviction order. Whatever the
/// publish history, a cursor standing at `pos` with a newer payload
/// available is delivered either exactly the payload at `pos` — whenever
/// `pos` still lies inside the retained window — or exactly the oldest
/// retained payload once it has lagged behind; nothing already consumed is
/// re-delivered, nothing outside the history is invented, and no third
/// outcome exists.
pub proof fn lemma_delivery_consistent(pos: nat, published: nat, capacity: nat)
    requires
        capacity >= 1,
        pos < published,
    ensures
        ({
            let i = delivery_index(pos, published, capacity);
            &&& i >= pos
            &&& i >= oldest_retained(published, capacity)
            &&& i == pos || i == oldest_retained(published, capacity)
            &&& pos >= oldest_retained(published, capacity) ==> i == pos
            &&& pos < oldest_retained(published, capacity) ==> i == oldest_retained(
                published,
                capacity,
            )
            &&& i < published
        }),
{
}

/// Law: a subscriber created after `n` payloads have been published, and
/// before payload `n + 1`, is delivered payload `n + 1` — absolute index
/// `n` — as its first delivery, never an earlier one.
pub proof fn lemma_fresh_subscriber_first_delivery(n: nat, capacity: nat)
    requires
        capacity >= 1,
    ensures
        delivery_index(n, n + 1, capacity) == n,
{
}

/// Law: payloads reach any single subscriber in strictly increasing
/// production order. After a delivery at absolute index `i1` the cursor
/// stands at `i1 + 1`, and whatever has been published meanwhile, the next
/// delivery's index is strictly greater than `i1` — payloads are never
/// reordered or repeated for that subscriber.
pub proof fn lemma_in_order_delivery(pos: nat, published1: nat, published2: nat, capacity: nat)
    requires
        capacity >= 1,
        pos < published1,
        published1 <= published2,
    ensures
        ({
            let i1 = delivery_index(pos, published1, capacity);
            let i2 = delivery_index((i1 + 1) as nat, published2, capacity);
            i2 > i1
        }),
{
}

/// A byte-for-byte copy of one payload, handed to a subscriber while the
/// stored payload stays in the ring.
fn clone_payload(p: &Vec<u8>) -> (r: Vec<u8>)
    ensures
        r@ == p@,
{
    let r = p.clone();
    proof {
        assert forall|i: int| 0 <= i < p@.len() implies r@[i] == p@[i] by {
            assert(cloned::<u8>(p@[i], r@[i]));
        }
        assert(p@ =~= r@);
    }
    r
}

} // verus!
