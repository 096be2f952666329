//! The frame bus: a bounded ring of the most recent envelopes, a global write
//! position, and subscriptions that each read through a cursor of their own.
//!
//! A publish never waits for a reader. A subscription that falls more than the
//! capacity behind loses the oldest envelopes, is told once how many, and
//! resumes at the oldest envelope still held.

use vstd::prelude::*;
use vstd::arithmetic::div_mod::lemma_fundamental_div_mod;
use vstd::arithmetic::div_mod::lemma_small_mod;
use crate::common::EnvelopeView;
use crate::common::FrameMessage;

verus! {

/// Why a subscription has no envelope to hand out.
#[derive(Debug, Clone, Copy, PartialEq, Eq, Structural)]
pub enum TryRecvError {
    /// Nothing has been published past the cursor.
    Empty,
    /// The bus was closed and everything published has been read.
    Closed,
    /// The subscription fell behind; this many envelopes were lost to it.
    Lagged(u64),
}

/// A bounded fan-out buffer of frame envelopes.
pub struct FrameBus {
    capacity: usize,
    slots: Vec<FrameMessage>,
    written: u64,
    closed: bool,
    log: Ghost<Seq<EnvelopeView>>,
}

/// A private read position in a [`FrameBus`].
#[derive(Debug)]
pub struct Subscription {
    cursor: u64,
}

/// The position one read leaves the cursor at, and what the read returns.
pub struct Step {
    pub cursor: int,
    pub outcome: Result<EnvelopeView, TryRecvError>,
}

/// If two positions less than `n` apart share a slot, they are the same position.
proof fn lemma_window_slots_differ(p: int, w: int, n: int)
    requires
        n > 0,
        0 <= p <= w,
        w - p < n,
        p % n == w % n,
    ensures
        p == w,
{
    let d = w / n - p / n;
    assert(w == n * (w / n) + w % n && p == n * (p / n) + p % n) by {
        lemma_fundamental_div_mod(w, n);
        lemma_fundamental_div_mod(p, n);
    }
    assert(w - p == n * d) by (nonlinear_arith)
        requires
            w == n * (w / n) + w % n,
            p == n * (p / n) + p % n,
            p % n == w % n,
            d == w / n - p / n,
    ;
    assert(d == 0) by (nonlinear_arith)
        requires
            w - p == n * d,
            0 <= w - p < n,
            n > 0,
    ;
}

impl FrameBus {
    /// Every envelope ever published, oldest first.
    pub closed spec fn history(&self) -> Seq<EnvelopeView> {
        self.log@
    }

    /// How many of the most recent envelopes the bus holds.
    pub closed spec fn limit(&self) -> nat {
        self.capacity as nat
    }

    /// Whether the bus has been closed.
    pub closed spec fn shut(&self) -> bool {
        self.closed
    }

    /// The ring holds exactly the last `limit()` envelopes of the history.
    pub closed spec fn wf(&self) -> bool {
        &&& self.capacity >= 1
        &&& self.written as nat == self.log@.len()
        &&& self.slots@.len() == if self.written as nat <= self.capacity as nat {
            self.written as nat
        } else {
            self.capacity as nat
        }
        &&& forall|p: int|
            self.floor() <= p < self.log@.len() ==> (#[trigger] self.slots@[p % (
            self.capacity as int)])@ == self.log@[p]
    }

    /// The global write position: the number of envelopes published so far.
    pub open spec fn position(&self) -> nat {
        self.history().len()
    }

    /// The position of the oldest envelope the bus still holds.
    pub open spec fn floor(&self) -> int {
        if self.position() > self.limit() {
            self.position() - self.limit()
        } else {
            0
        }
    }

    /// What a read through a cursor at `cursor` returns, and where it leaves
    /// the cursor.
    ///
    /// A cursor below the floor skips to the floor and reports the loss. A
    /// cursor below the write position yields the envelope it points at and
    /// moves one on. A cursor at the write position yields nothing.
    pub open spec fn read_at(&self, cursor: int) -> Step {
        if cursor < self.floor() {
            Step {
                cursor: self.floor(),
                outcome: Err(TryRecvError::Lagged((self.floor() - cursor) as u64)),
            }
        } else if cursor < self.position() {
            Step { cursor: cursor + 1, outcome: Ok(self.history()[cursor]) }
        } else if self.shut() {
            Step { cursor, outcome: Err(TryRecvError::Closed) }
        } else {
            Step { cursor, outcome: Err(TryRecvError::Empty) }
        }
    }

    /// Where `n` reads in a row leave a cursor that starts at `cursor`.
    pub open spec fn cursor_after(&self, cursor: int, n: nat) -> int
        decreases n,
    {
        if n == 0 {
            cursor
        } else {
            self.read_at(self.cursor_after(cursor, (n - 1) as nat)).cursor
        }
    }

    /// An open, empty bus that holds up to `capacity` envelopes.
    pub fn new(capacity: usize) -> (bus: FrameBus)
        requires
            capacity >= 1,
        ensures
            bus.wf(),
            bus.history() == Seq::<EnvelopeView>::empty(),
            bus.limit() == capacity,
            !bus.shut(),
    {
        FrameBus {
            capacity,
            slots: Vec::new(),
            written: 0,
            closed: false,
            log: Ghost(Seq::empty()),
        }
    }

    /// The number of envelopes the bus holds at most.
    pub fn capacity(&self) -> (n: usize)
        ensures
            n == self.limit(),
    {
        self.capacity
    }

    /// The global write position.
    pub fn published(&self) -> (n: u64)
        requires
            self.wf(),
        ensures
            n == self.position(),
    {
        self.written
    }

    /// Whether the bus has been closed.
    pub fn is_closed(&self) -> (closed: bool)
        ensures
            closed == self.shut(),
    {
        self.closed
    }

    /// Appends `envelope` to the history, displacing the oldest held envelope
    /// once the ring is full. Never waits, whatever the number or the pace of
    /// the subscriptions. A closed bus takes nothing.
    pub fn publish(&mut self, envelope: FrameMessage)
        requires
            old(self).wf(),
            old(self).position() < u64::MAX,
        ensures
            final(self).wf(),
            final(self).limit() == old(self).limit(),
            final(self).shut() == old(self).shut(),
            final(self).history() == if old(self).shut() {
                old(self).history()
            } else {
                old(self).history().push(envelope@)
            },
    {
        if self.closed {
            return ;
        }
        let ghost before = *self;
        let ghost n = self.capacity as int;
        let ghost w = self.written as int;
        if self.slots.len() < self.capacity {
            proof {
                lemma_small_mod(w as nat, n as nat);
            }
            self.slots.push(envelope);
        } else {
            let slot = (self.written % (self.capacity as u64)) as usize;
            self.slots.set(slot, envelope);
        }
        self.written = self.written + 1;
        self.log = Ghost(self.log@.push(envelope@));
        proof {
            assert forall|p: int| self.floor() <= p < self.log@.len() implies (
            #[trigger] self.slots@[p % n])@ == self.log@[p] by {
                if p == w {
                    if w < n {
                        lemma_small_mod(w as nat, n as nat);
                    }
                } else {
                    assert(before.floor() <= p < before.log@.len());
                    if w < n {
                        lemma_small_mod(p as nat, n as nat);
                    } else if p % n == w % n {
                        lemma_window_slots_differ(p, w, n);
                    }
                    assert(self.slots@[p % n] == before.slots@[p % n]);
                }
            }
        }
    }

    /// A subscription whose cursor stands at the write position: it sees what
    /// is published from now on and nothing published before.
    pub fn subscribe(&self) -> (subscription: Subscription)
        requires
            self.wf(),
        ensures
            subscription.cursor() == self.position(),
            subscription.attached(self),
            subscription.pending(self) == Seq::<EnvelopeView>::empty(),
    {
        Subscription { cursor: self.written }
    }

    /// Closes the bus: nothing more is published, and a subscription that has
    /// read everything is told so.
    pub fn close(&mut self)
        requires
            old(self).wf(),
        ensures
            final(self).wf(),
            final(self).shut(),
            final(self).history() == old(self).history(),
            final(self).limit() == old(self).limit(),
    {
        self.closed = true;
    }
}

impl Subscription {
    /// The position of the next envelope this subscription reads.
    pub closed spec fn cursor(&self) -> nat {
        self.cursor as nat
    }

    /// The cursor is not ahead of the bus's write position.
    pub open spec fn attached(&self, bus: &FrameBus) -> bool {
        self.cursor() <= bus.position()
    }

    /// How many envelopes published since the cursor the bus no longer holds.
    pub open spec fn lag(&self, bus: &FrameBus) -> nat {
        if self.cursor() < bus.floor() {
            (bus.floor() - self.cursor()) as nat
        } else {
            0
        }
    }

    /// The envelopes this subscription has yet to receive, in the order in
    /// which it will receive them.
    pub open spec fn pending(&self, bus: &FrameBus) -> Seq<EnvelopeView> {
        if self.cursor() < bus.floor() {
            bus.history().subrange(bus.floor(), bus.position() as int)
        } else {
            bus.history().subrange(self.cursor() as int, bus.position() as int)
        }
    }

    /// The position of the next envelope this subscription reads.
    pub fn position(&self) -> (cursor: u64)
        ensures
            cursor == self.cursor(),
    {
        self.cursor
    }

    /// Reads once, without waiting.
    ///
    /// Returns the envelope at the cursor, or `Lagged` with the number of
    /// envelopes lost when the cursor had fallen below the oldest held
    /// envelope, or `Empty`, or `Closed` once a closed bus has been read out.
    pub fn try_recv(&mut self, bus: &FrameBus) -> (received: Result<FrameMessage, TryRecvError>)
        requires
            bus.wf(),
            old(self).attached(bus),
        ensures
            final(self).attached(bus),
            final(self).cursor() == bus.read_at(old(self).cursor() as int).cursor,
            match received {
                Ok(envelope) => bus.read_at(old(self).cursor() as int).outcome == Ok::<
                    EnvelopeView,
                    TryRecvError,
                >(envelope@),
                Err(e) => bus.read_at(old(self).cursor() as int).outcome == Err::<
                    EnvelopeView,
                    TryRecvError,
                >(e),
            },
    {
        let floor = if bus.written > bus.capacity as u64 {
            bus.written - bus.capacity as u64
        } else {
            0
        };
        if self.cursor < floor {
            let lost = floor - self.cursor;
            self.cursor = floor;
            Err(TryRecvError::Lagged(lost))
        } else if self.cursor < bus.written {
            let slot = (self.cursor % (bus.capacity as u64)) as usize;
            proof {
                let p = self.cursor as int;
                assert(bus.floor() <= p < bus.log@.len());
                assert(bus.slots@[p % (bus.capacity as int)]@ == bus.log@[p]);
                if bus.written as nat <= bus.capacity as nat {
                    lemma_small_mod(p as nat, bus.capacity as nat);
                }
            }
            let envelope = bus.slots[slot].clone();
            self.cursor = self.cursor + 1;
            Ok(envelope)
        } else if bus.closed {
            Err(TryRecvError::Closed)
        } else {
            Err(TryRecvError::Empty)
        }
    }
}

/// A read never moves a cursor back and never past the write position, and
/// an envelope it returns is the one published at the cursor's position. So a
/// subscription made at some write position reads only what was published at
/// or after that position: nothing published before it was made.
pub proof fn lemma_read_moves_forward(bus: FrameBus, cursor: int)
    requires
        bus.wf(),
        0 <= cursor <= bus.position(),
    ensures
        cursor <= bus.read_at(cursor).cursor <= bus.position(),
        bus.read_at(cursor).outcome is Ok ==> bus.floor() <= cursor < bus.position()
            && bus.read_at(cursor).outcome == Ok::<EnvelopeView, TryRecvError>(
            bus.history()[cursor],
        ) && bus.read_at(cursor).cursor == cursor + 1,
{
}

/// While a subscription is no more than the capacity behind, nothing is lost
/// to it: read after read returns the envelopes published since its cursor,
/// each once, in the order in which they were published.
pub proof fn lemma_reads_in_publication_order(bus: FrameBus, cursor: int, n: nat)
    requires
        bus.wf(),
        0 <= cursor,
        bus.position() - cursor <= bus.limit(),
        cursor + n < bus.position(),
    ensures
        bus.cursor_after(cursor, n) == cursor + n,
        bus.read_at(bus.cursor_after(cursor, n)) == (Step {
            cursor: cursor + n + 1,
            outcome: Ok(bus.history()[cursor + n]),
        }),
    decreases n,
{
    if n > 0 {
        lemma_reads_in_publication_order(bus, cursor, (n - 1) as nat);
    }
}

/// An envelope published while a subscription is less than the capacity
/// behind joins the end of what the subscription has yet to receive, and
/// nothing is lost to the subscription.
pub proof fn lemma_publish_reaches_subscription(
    before: FrameBus,
    after: FrameBus,
    envelope: EnvelopeView,
    subscription: Subscription,
)
    requires
        before.wf(),
        after.wf(),
        after.limit() == before.limit(),
        after.history() == before.history().push(envelope),
        subscription.attached(&before),
        before.position() - subscription.cursor() < before.limit(),
    ensures
        subscription.attached(&after),
        subscription.lag(&after) == 0,
        subscription.pending(&after) == subscription.pending(&before).push(envelope),
{
    assert(subscription.pending(&after) =~= subscription.pending(&before).push(envelope));
}

/// The write position of a bus as a cursor: where a subscription stands that
/// has nothing unread.
pub open spec fn start_of(bus: FrameBus) -> int {
    bus.position() as int
}

/// Envelopes published in a row, no more than the capacity, while a
/// subscription has nothing unread, are read by it one read each in the
/// order in which they were published: none missing, none twice, no loss
/// reported. The read after the last finds nothing.
pub proof fn lemma_publishes_are_read_in_order(
    before: FrameBus,
    after: FrameBus,
    published: Seq<EnvelopeView>,
    i: nat,
)
    requires
        before.wf(),
        after.wf(),
        after.limit() == before.limit(),
        after.history() == before.history() + published,
        published.len() <= before.limit(),
        i <= published.len(),
    ensures
        after.cursor_after(start_of(before), i) == start_of(before) + i,
        i < published.len() ==> after.read_at(start_of(before) + i) == (Step {
            cursor: start_of(before) + i + 1,
            outcome: Ok(published[i as int]),
        }),
        i == published.len() ==> after.read_at(start_of(before) + i) == (Step {
            cursor: start_of(before) + i,
            outcome: Err(
                if after.shut() {
                    TryRecvError::Closed
                } else {
                    TryRecvError::Empty
                },
            ),
        }),
    decreases i,
{
    let start = start_of(before);
    if i > 0 {
        lemma_publishes_are_read_in_order(before, after, published, (i - 1) as nat);
    }
    if i < published.len() {
        assert(after.history()[start + i] == published[i as int]);
    }
}

/// A subscription more than the capacity behind is told how many envelopes
/// were lost to it, and its cursor moves to the oldest envelope held. The read
/// that follows returns that envelope and reports no loss again.
pub proof fn lemma_overflow_is_reported_once(bus: FrameBus, cursor: int)
    requires
        bus.wf(),
        0 <= cursor,
        bus.position() - cursor > bus.limit(),
    ensures
        bus.read_at(cursor) == (Step {
            cursor: bus.position() - bus.limit(),
            outcome: Err(TryRecvError::Lagged((bus.position() - bus.limit() - cursor) as u64)),
        }),
        bus.read_at(bus.position() - bus.limit()) == (Step {
            cursor: bus.position() - bus.limit() + 1,
            outcome: Ok(bus.history()[bus.position() - bus.limit()]),
        }),
{
}

} // verus!
