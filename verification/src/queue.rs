//! The bounded inbound queue of transport events.
//!
//! The host submits transport events (connected, disconnected, received
//! bytes); the protocol client's read loop consumes them one by one. A single
//! bounded first-in-first-out queue sits between the two, so the client
//! observes events in exactly the order the host submitted them.
//!
//! The queue keeps a ghost history: every event ever accepted, in acceptance
//! order, and how many of those the consumer has observed. The pending events
//! are always exactly the accepted-but-not-yet-observed suffix of that
//! history, which is the first-in-first-out property.

use vstd::prelude::*;

use crate::error::BridgeError;

verus! {

/// An inbound transport event, produced by the host and consumed exactly once
/// by the protocol client's read loop.
#[derive(Debug, Clone, PartialEq, Eq)]
pub enum TransportEvent {
    /// The transport has connected.
    Connected,
    /// The connection was lost.
    Disconnected,
    /// Raw bytes arrived from the network the host manages.
    DataReceived { bytes: Vec<u8> },
}

/// How many submitted transport events may wait unconsumed at once.
pub const QUEUE_CAPACITY: usize = 100;

/// The bounded first-in-first-out queue of inbound transport events.
///
/// One producer-facing side (`enqueue`) and one consumer-facing side
/// (`dequeue`); closing the queue models the consumer side going away, after
/// which nothing more is accepted.
pub struct EventQueue {
    items: Vec<TransportEvent>,
    closed: bool,
    accepted: Ghost<Seq<TransportEvent>>,
    observed: Ghost<nat>,
}

impl EventQueue {
    /// Every event this queue ever accepted, in acceptance order.
    pub closed spec fn accepted_log(&self) -> Seq<TransportEvent> {
        self.accepted@
    }

    /// How many accepted events the consumer has already observed.
    pub closed spec fn observed_count(&self) -> nat {
        self.observed@
    }

    /// The events accepted but not yet observed, oldest first.
    pub closed spec fn pending(&self) -> Seq<TransportEvent> {
        self.items@
    }

    /// Whether the consumer side is gone.
    pub closed spec fn is_closed(&self) -> bool {
        self.closed
    }

    /// The queue's invariant: the pending events are exactly the
    /// accepted-but-not-yet-observed suffix of the acceptance history, and no
    /// more than the capacity of them wait at once.
    pub open spec fn well_formed(&self) -> bool {
        &&& self.observed_count() <= self.accepted_log().len()
        &&& self.pending() == self.accepted_log().skip(self.observed_count() as int)
        &&& self.pending().len() <= QUEUE_CAPACITY
    }

    /// An empty, open queue with an empty history.
    pub fn new() -> (q: EventQueue)
        ensures
            q.well_formed(),
            q.accepted_log() == Seq::<TransportEvent>::empty(),
            q.observed_count() == 0,
            q.pending() == Seq::<TransportEvent>::empty(),
            !q.is_closed(),
    {
        let q = EventQueue {
            items: Vec::new(),
            closed: false,
            accepted: Ghost(Seq::empty()),
            observed: Ghost(0),
        };
        proof {
            assert(q.pending() =~= q.accepted_log().skip(0));
        }
        q
    }

    /// Accepts one event at the back of the queue.
    ///
    /// Fails with `ChannelClosed` once the consumer side is gone and with
    /// `QueueFull` while the capacity is reached; in both cases the queue is
    /// unchanged and the submitter learns that the event was not taken. An
    /// accepted event is appended to the history, behind everything accepted
    /// before it.
    pub fn enqueue(&mut self, e: TransportEvent) -> (r: Result<(), BridgeError>)
        requires
            old(self).well_formed(),
        ensures
            final(self).well_formed(),
            old(self).is_closed() ==> {
                &&& r == Err::<(), BridgeError>(BridgeError::ChannelClosed)
                &&& *final(self) == *old(self)
            },
            !old(self).is_closed() && old(self).pending().len() >= QUEUE_CAPACITY ==> {
                &&& r == Err::<(), BridgeError>(BridgeError::QueueFull)
                &&& *final(self) == *old(self)
            },
            !old(self).is_closed() && old(self).pending().len() < QUEUE_CAPACITY ==> {
                &&& r == Ok::<(), BridgeError>(())
                &&& final(self).accepted_log() == old(self).accepted_log().push(e)
                &&& final(self).pending() == old(self).pending().push(e)
                &&& final(self).observed_count() == old(self).observed_count()
                &&& !final(self).is_closed()
            },
    {
        if self.closed {
            Err(BridgeError::ChannelClosed)
        } else if self.items.len() >= QUEUE_CAPACITY {
            Err(BridgeError::QueueFull)
        } else {
            proof {
                assert(self.accepted_log().push(e).skip(self.observed_count() as int)
                    =~= self.accepted_log().skip(self.observed_count() as int).push(e));
            }
            self.accepted = Ghost(self.accepted@.push(e));
            self.items.push(e);
            Ok(())
        }
    }

    /// Hands the consumer the oldest pending event, or nothing while the
    /// queue is empty.
    ///
    /// The event returned by the n-th successful call is exactly the n-th
    /// event ever accepted: the consumer observes events in acceptance order.
    pub fn dequeue(&mut self) -> (r: Option<TransportEvent>)
        requires
            old(self).well_formed(),
        ensures
            final(self).well_formed(),
            old(self).pending().len() == 0 ==> {
                &&& r == None::<TransportEvent>
                &&& *final(self) == *old(self)
            },
            old(self).pending().len() > 0 ==> {
                &&& r == Some(old(self).pending()[0])
                &&& r == Some(old(self).accepted_log()[old(self).observed_count() as int])
                &&& final(self).pending() == old(self).pending().drop_first()
                &&& final(self).accepted_log() == old(self).accepted_log()
                &&& final(self).observed_count() == old(self).observed_count() + 1
                &&& final(self).is_closed() == old(self).is_closed()
            },
    {
        if self.items.len() == 0 {
            None
        } else {
            let e = self.items.remove(0);
            proof {
                assert(old(self).pending()[0]
                    == old(self).accepted_log()[old(self).observed_count() as int]);
                assert(self.items@ =~= old(self).pending().drop_first());
                assert(self.items@
                    =~= self.accepted@.skip(self.observed@ as int + 1));
            }
            self.observed = Ghost(self.observed@ + 1);
            Some(e)
        }
    }

    /// Marks the consumer side as gone: everything submitted afterwards is
    /// refused with `ChannelClosed`.
    pub fn close(&mut self)
        requires
            old(self).well_formed(),
        ensures
            final(self).well_formed(),
            final(self).is_closed(),
            final(self).accepted_log() == old(self).accepted_log(),
            final(self).pending() == old(self).pending(),
            final(self).observed_count() == old(self).observed_count(),
    {
        self.closed = true;
    }
}

/// First-in-first-out, stated over the ghost history: in a well-formed queue
/// the i-th pending event is the (observed + i)-th event ever accepted, so
/// consuming the queue front to back observes accepted events in exactly the
/// order the host submitted them.
pub proof fn lemma_fifo_order(q: &EventQueue)
    requires
        q.well_formed(),
    ensures
        forall|i: int|
            0 <= i < q.pending().len() ==> #[trigger] q.pending()[i] == q.accepted_log()[
                q.observed_count() + i
            ],
{
}

/// Nothing is lost and nothing is reordered: what the consumer has observed,
/// followed by what is still pending, is exactly what was ever accepted.
pub proof fn lemma_observed_then_pending_is_accepted(q: &EventQueue)
    requires
        q.well_formed(),
    ensures
        q.accepted_log().take(q.observed_count() as int) + q.pending() == q.accepted_log(),
{
    assert(q.accepted_log().take(q.observed_count() as int) + q.pending()
        =~= q.accepted_log());
}

} // verus!
