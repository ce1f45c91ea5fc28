//! The transport bridge: the network session delegated to the host.
//!
//! The protocol client asks this bridge for its one transport. Outbound, the
//! client hands the bridge raw frames; each is forwarded to the host's frame
//! sink by a blocking cross-boundary call, so the host sees frames in exactly
//! the order the client sent them, byte for byte. Inbound, the host submits
//! transport events into the bounded queue of [`crate::queue`], and the
//! client's read loop consumes them from the other end.

use vstd::prelude::*;

use crate::error::BridgeError;
use crate::queue::EventQueue;
use crate::queue::TransportEvent;
use crate::queue::QUEUE_CAPACITY;

verus! {

/// The transport side of the bridge: the inbound event queue, the outbound
/// frame path, and the guard that hands the session out exactly once.
pub struct TransportBridge {
    queue: EventQueue,
    created: bool,
    frames: Ghost<Seq<Seq<u8>>>,
}

impl TransportBridge {
    /// Whether the one transport session has been created already.
    pub closed spec fn session_created(&self) -> bool {
        self.created
    }

    /// Every outbound frame forwarded to the host so far, oldest first.
    pub closed spec fn frames_sent(&self) -> Seq<Seq<u8>> {
        self.frames@
    }

    /// The inbound event queue.
    pub closed spec fn inbound(&self) -> EventQueue {
        self.queue
    }

    pub open spec fn well_formed(&self) -> bool {
        self.inbound().well_formed()
    }

    /// A fresh bridge: no session yet, nothing sent, an empty open queue.
    pub fn new() -> (t: TransportBridge)
        ensures
            t.well_formed(),
            !t.session_created(),
            t.frames_sent() == Seq::<Seq<u8>>::empty(),
            t.inbound().accepted_log() == Seq::<TransportEvent>::empty(),
            t.inbound().observed_count() == 0,
            !t.inbound().is_closed(),
    {
        TransportBridge { queue: EventQueue::new(), created: false, frames: Ghost(Seq::empty()) }
    }

    /// Creates the transport session.
    ///
    /// Succeeds exactly once per bridge: the first call marks the one session
    /// as handed out, and every later call fails with `AlreadyStarted`, so at
    /// most one consumer ever holds the session's read loop.
    pub fn create_transport(&mut self) -> (r: Result<(), BridgeError>)
        requires
            old(self).well_formed(),
        ensures
            final(self).well_formed(),
            old(self).session_created() ==> {
                &&& r == Err::<(), BridgeError>(BridgeError::AlreadyStarted)
                &&& *final(self) == *old(self)
            },
            !old(self).session_created() ==> {
                &&& r == Ok::<(), BridgeError>(())
                &&& final(self).session_created()
                &&& final(self).frames_sent() == old(self).frames_sent()
                &&& final(self).inbound() == old(self).inbound()
            },
    {
        if self.created {
            Err(BridgeError::AlreadyStarted)
        } else {
            self.created = true;
            Ok(())
        }
    }

    /// Forwards one outbound frame toward the host.
    ///
    /// The returned bytes are what the host's frame sink must be handed:
    /// byte for byte the submitted frame, appended behind every frame
    /// forwarded before it. The bridge does not retry and expects no reply;
    /// the call that carries the result to the host returns only once the
    /// host has accepted it, which is what keeps frames in order.
    pub fn send_frame(&mut self, frame: Vec<u8>) -> (out: Vec<u8>)
        requires
            old(self).well_formed(),
        ensures
            final(self).well_formed(),
            out@ == frame@,
            final(self).frames_sent() == old(self).frames_sent().push(frame@),
            final(self).session_created() == old(self).session_created(),
            final(self).inbound() == old(self).inbound(),
    {
        self.frames = Ghost(self.frames@.push(frame@));
        frame
    }

    /// Signals the host that the client wants the connection gone. A pure
    /// signal: tearing the socket down is entirely the host's business, so
    /// nothing of the bridge changes.
    pub fn disconnect(&self) {
    }

    /// Submits one inbound transport event from the host.
    pub fn submit_event(&mut self, e: TransportEvent) -> (r: Result<(), BridgeError>)
        requires
            old(self).well_formed(),
        ensures
            final(self).well_formed(),
            final(self).session_created() == old(self).session_created(),
            final(self).frames_sent() == old(self).frames_sent(),
            old(self).inbound().is_closed() ==> {
                &&& r == Err::<(), BridgeError>(BridgeError::ChannelClosed)
                &&& final(self).inbound() == old(self).inbound()
            },
            !old(self).inbound().is_closed() && old(self).inbound().pending().len()
                >= QUEUE_CAPACITY ==> {
                &&& r == Err::<(), BridgeError>(BridgeError::QueueFull)
                &&& final(self).inbound() == old(self).inbound()
            },
            !old(self).inbound().is_closed() && old(self).inbound().pending().len()
                < QUEUE_CAPACITY ==> {
                &&& r == Ok::<(), BridgeError>(())
                &&& final(self).inbound().accepted_log() == old(
                    self,
                ).inbound().accepted_log().push(e)
                &&& final(self).inbound().observed_count() == old(self).inbound().observed_count()
                &&& !final(self).inbound().is_closed()
            },
    {
        self.queue.enqueue(e)
    }

    /// Hands the session's read loop the oldest pending inbound event.
    pub fn next_event(&mut self) -> (r: Option<TransportEvent>)
        requires
            old(self).well_formed(),
        ensures
            final(self).well_formed(),
            final(self).session_created() == old(self).session_created(),
            final(self).frames_sent() == old(self).frames_sent(),
            old(self).inbound().pending().len() == 0 ==> {
                &&& r == None::<TransportEvent>
                &&& final(self).inbound() == old(self).inbound()
            },
            old(self).inbound().pending().len() > 0 ==> {
                &&& r == Some(old(self).inbound().pending()[0])
                &&& r == Some(old(self).inbound().accepted_log()[old(
                    self,
                ).inbound().observed_count() as int])
                &&& final(self).inbound().accepted_log() == old(self).inbound().accepted_log()
                &&& final(self).inbound().observed_count() == old(self).inbound().observed_count()
                    + 1
                &&& final(self).inbound().is_closed() == old(self).inbound().is_closed()
            },
    {
        self.queue.dequeue()
    }

    /// Marks the inbound consumer side as gone.
    pub fn close_inbound(&mut self)
        requires
            old(self).well_formed(),
        ensures
            final(self).well_formed(),
            final(self).inbound().is_closed(),
            final(self).inbound().accepted_log() == old(self).inbound().accepted_log(),
            final(self).inbound().observed_count() == old(self).inbound().observed_count(),
            final(self).session_created() == old(self).session_created(),
            final(self).frames_sent() == old(self).frames_sent(),
    {
        self.queue.close()
    }
}

/// Maps the host's acceptance of a forwarded frame back to the sender.
///
/// The cross-boundary call either reached the host — the frame was accepted,
/// nothing more is promised — or it could not be dispatched at all, which the
/// sender sees as a `DispatchFailure` carrying the underlying message.
pub fn complete_frame_dispatch(outcome: Result<(), String>) -> (r: Result<(), BridgeError>)
    ensures
        outcome is Ok ==> r == Ok::<(), BridgeError>(()),
        outcome matches Err(m) ==> r == Err::<(), BridgeError>(
            BridgeError::DispatchFailure { message: m },
        ),
{
    match outcome {
        Ok(()) => Ok(()),
        Err(m) => Err(BridgeError::DispatchFailure { message: m }),
    }
}

} // verus!
