//! The facade: lifecycle guard, client-handle gate, and the host-facing
//! operations.
//!
//! One bridge owns one protocol client. `start` takes the client out of its
//! slot exactly once; the client's handle is published before its run loop
//! begins, and only while the bridge is running may messages be sent. The
//! asynchronous layer around the library drives the transitions: it calls
//! `start`, then `publish_client`, runs the client's loop, and reports the
//! loop's end with `run_ended`.

use vstd::prelude::*;

use crate::error::BridgeError;
use crate::event::BotEvent;
use crate::event::DomainEvent;
use crate::event::Jid;
use crate::event::spec_map_event;
use crate::queue::QUEUE_CAPACITY;
use crate::queue::TransportEvent;
use crate::transport::TransportBridge;

verus! {

/// Where the bridge stands in its life: constructed (client still in its
/// slot), started (slot drained, handle not yet published), running (handle
/// published, sends allowed), stopped (the run loop ended).
///
/// No transition skips a state, and the only way out of `Constructed` is the
/// single successful `start`.
#[derive(Debug, Clone, Copy, PartialEq, Eq, Structural)]
pub enum LifecycleState {
    Constructed,
    Started,
    Running,
    Stopped,
}

/// The minimal text message an accepted send prepares: the parsed destination
/// and the text, carried in the message's conversation field.
#[derive(Debug, Clone, PartialEq, Eq)]
pub struct OutboundTextMessage {
    pub to: Jid,
    pub conversation: String,
}

/// What the protocol client reported for one delegated send.
#[derive(Debug, Clone, PartialEq, Eq)]
pub enum SendOutcome {
    /// The client sent the message and returned its identifier.
    Sent { message_id: String },
    /// The client failed; the underlying message is preserved.
    Failed { message: String },
}

/// Whether building the underlying client succeeded.
#[derive(Debug, Clone, PartialEq, Eq)]
pub enum BuildOutcome {
    Built,
    Failed { message: String },
}

/// What a protocol address parses to: its user part and its canonical server
/// part — or nothing, when the string is not a well-formed address.
///
/// Named, not spelled out: the address grammar belongs to the protocol
/// library, and whether a string parses, and into what, depends on the string
/// alone.
pub uninterp spec fn jid_parse(s: Seq<char>) -> Option<(Seq<char>, Seq<char>)>;

/// The three ways a send can come out, as a ghost value.
pub enum SendDecision {
    /// Refused: the client handle is not published yet.
    NotReady,
    /// Refused: the destination does not parse as a protocol address.
    InvalidAddress,
    /// Accepted: a message with this destination and text goes to the client.
    Accepted { user: Seq<char>, server: Seq<char>, text: Seq<char> },
}

/// The send decision as a function of the bridge's lifecycle state and the
/// call's own arguments — and of nothing else.
pub open spec fn spec_send_decision(
    state: LifecycleState,
    to: Seq<char>,
    text: Seq<char>,
) -> SendDecision {
    if state != LifecycleState::Running {
        SendDecision::NotReady
    } else {
        match jid_parse(to) {
            Some(p) => SendDecision::Accepted { user: p.0, server: p.1, text },
            None => SendDecision::InvalidAddress,
        }
    }
}

/// Reads a send's result back as the decision it embodies.
pub open spec fn send_result_model(r: Result<OutboundTextMessage, BridgeError>) -> SendDecision {
    match r {
        Ok(m) => SendDecision::Accepted {
            user: m.to.user@,
            server: m.to.server@,
            text: m.conversation@,
        },
        Err(BridgeError::NotReady) => SendDecision::NotReady,
        Err(_) => SendDecision::InvalidAddress,
    }
}

/// Relies on `whatsapp_rust::Jid`'s `FromStr` implementation (re-exported
/// from its binary layer): whether a string parses as a protocol address,
/// and the user part and canonical server name of a parsed one, depend on
/// the string alone. On failure the parser's message is carried through.
#[verifier::external_body]
fn parse_jid(s: &str) -> (r: Result<Jid, String>)
    ensures
        r is Ok <==> jid_parse(s@) is Some,
        r matches Ok(j) ==> jid_parse(s@) matches Some(p) && j.user@ == p.0 && j.server@ == p.1,
{
    match s.parse::<whatsapp_rust::Jid>() {
        Ok(j) => {
            let server = j.server.as_str().to_string();
            Ok(Jid { user: j.user.to_string(), server })
        },
        Err(e) => Err(e.to_string()),
    }
}

/// The bridge facade the host holds.
pub struct WaBot {
    state: LifecycleState,
    transport: TransportBridge,
    events: Ghost<Seq<BotEvent>>,
}

impl WaBot {
    /// Where the bridge stands in its life.
    pub closed spec fn lifecycle_state(&self) -> LifecycleState {
        self.state
    }

    /// The transport side: session guard, frame log, inbound queue.
    pub closed spec fn transport_part(&self) -> TransportBridge {
        self.transport
    }

    /// Every outbound event handed to the host so far, in emission order.
    pub closed spec fn events_emitted(&self) -> Seq<BotEvent> {
        self.events@
    }

    pub open spec fn well_formed(&self) -> bool {
        self.transport_part().well_formed()
    }

    /// A bridge as construction leaves it: constructed, no session, nothing
    /// sent, nothing emitted, an empty open inbound queue.
    pub open spec fn is_fresh(&self) -> bool {
        &&& self.well_formed()
        &&& self.lifecycle_state() == LifecycleState::Constructed
        &&& !self.transport_part().session_created()
        &&& self.transport_part().frames_sent() == Seq::<Seq<u8>>::empty()
        &&& self.transport_part().inbound().accepted_log() == Seq::<TransportEvent>::empty()
        &&& self.transport_part().inbound().observed_count() == 0
        &&& !self.transport_part().inbound().is_closed()
        &&& self.events_emitted() == Seq::<BotEvent>::empty()
    }

    /// A freshly constructed bridge, its client still in the slot.
    pub fn new() -> (b: WaBot)
        ensures
            b.is_fresh(),
    {
        WaBot {
            state: LifecycleState::Constructed,
            transport: TransportBridge::new(),
            events: Ghost(Seq::empty()),
        }
    }

    /// The current lifecycle state, for the layer that drives the loop.
    pub fn current_state(&self) -> (s: LifecycleState)
        ensures
            s == self.lifecycle_state(),
    {
        self.state
    }

    /// Takes the client out of its slot to begin the run.
    ///
    /// Succeeds exactly once: only a constructed bridge holds a client, and a
    /// second call finds the slot drained and fails with `AlreadyStarted`
    /// rather than silently doing nothing.
    pub fn start(&mut self) -> (r: Result<(), BridgeError>)
        requires
            old(self).well_formed(),
        ensures
            final(self).well_formed(),
            old(self).lifecycle_state() == LifecycleState::Constructed ==> {
                &&& r == Ok::<(), BridgeError>(())
                &&& final(self).lifecycle_state() == LifecycleState::Started
                &&& final(self).transport_part() == old(self).transport_part()
                &&& final(self).events_emitted() == old(self).events_emitted()
            },
            old(self).lifecycle_state() != LifecycleState::Constructed ==> {
                &&& r == Err::<(), BridgeError>(BridgeError::AlreadyStarted)
                &&& *final(self) == *old(self)
            },
    {
        match self.state {
            LifecycleState::Constructed => {
                self.state = LifecycleState::Started;
                Ok(())
            },
            _ => Err(BridgeError::AlreadyStarted),
        }
    }

    /// Publishes the client's handle, before the run loop begins, so sends
    /// issued right after `start` can succeed once the loop is live.
    pub fn publish_client(&mut self)
        requires
            old(self).well_formed(),
            old(self).lifecycle_state() == LifecycleState::Started,
        ensures
            final(self).well_formed(),
            final(self).lifecycle_state() == LifecycleState::Running,
            final(self).transport_part() == old(self).transport_part(),
            final(self).events_emitted() == old(self).events_emitted(),
    {
        self.state = LifecycleState::Running;
    }

    /// Records that the run loop ended. The consumer of the inbound queue is
    /// gone with it, so the queue closes: events submitted from now on are
    /// refused with `ChannelClosed`.
    pub fn run_ended(&mut self)
        requires
            old(self).well_formed(),
            old(self).lifecycle_state() == LifecycleState::Running,
        ensures
            final(self).well_formed(),
            final(self).lifecycle_state() == LifecycleState::Stopped,
            final(self).transport_part().inbound().is_closed(),
            final(self).transport_part().inbound().accepted_log() == old(
                self,
            ).transport_part().inbound().accepted_log(),
            final(self).transport_part().inbound().observed_count() == old(
                self,
            ).transport_part().inbound().observed_count(),
            final(self).transport_part().session_created() == old(
                self,
            ).transport_part().session_created(),
            final(self).transport_part().frames_sent() == old(self).transport_part().frames_sent(),
            final(self).events_emitted() == old(self).events_emitted(),
    {
        self.state = LifecycleState::Stopped;
        self.transport.close_inbound();
    }

    /// Decides one send.
    ///
    /// Refused with `NotReady` unless the bridge is running; refused with
    /// `InvalidAddress` (the parser's message preserved) when the destination
    /// does not parse; otherwise accepted, yielding the minimal text message
    /// the asynchronous layer delegates to the client. The decision reads
    /// only shared state and depends on nothing but the lifecycle state and
    /// this call's own arguments, so concurrent sends are independent.
    pub fn send_message(&self, to_jid: String, text: String) -> (r: Result<
        OutboundTextMessage,
        BridgeError,
    >)
        ensures
            send_result_model(r) == spec_send_decision(self.lifecycle_state(), to_jid@, text@),
            r matches Err(e) ==> (e == BridgeError::NotReady || e is InvalidAddress),
            self.lifecycle_state() != LifecycleState::Running ==> r == Err::<
                OutboundTextMessage,
                BridgeError,
            >(BridgeError::NotReady),
            self.lifecycle_state() == LifecycleState::Running && jid_parse(to_jid@) is None ==> (
            r matches Err(e) && e is InvalidAddress),
            self.lifecycle_state() == LifecycleState::Running ==> (jid_parse(to_jid@) matches Some(
                p,
            ) ==> (r matches Ok(m) && m.to.user@ == p.0 && m.to.server@ == p.1 && m.conversation@
                == text@)),
    {
        match self.state {
            LifecycleState::Running => {
                match parse_jid(to_jid.as_str()) {
                    Ok(to) => Ok(OutboundTextMessage { to, conversation: text }),
                    Err(message) => Err(BridgeError::InvalidAddress { message }),
                }
            },
            _ => Err(BridgeError::NotReady),
        }
    }

    /// Encodes one domain event for the host and logs it behind everything
    /// emitted before, so the host observes events in emission order.
    pub fn on_event(&mut self, event: DomainEvent) -> (out: BotEvent)
        requires
            old(self).well_formed(),
        ensures
            final(self).well_formed(),
            out == spec_map_event(event),
            final(self).events_emitted() == old(self).events_emitted().push(spec_map_event(event)),
            final(self).lifecycle_state() == old(self).lifecycle_state(),
            final(self).transport_part() == old(self).transport_part(),
    {
        let out = crate::event::map_event(event);
        self.events = Ghost(self.events@.push(out));
        out
    }

    /// Hands the protocol client its one transport session; a second request
    /// fails with `AlreadyStarted`.
    pub fn create_transport(&mut self) -> (r: Result<(), BridgeError>)
        requires
            old(self).well_formed(),
        ensures
            final(self).well_formed(),
            final(self).lifecycle_state() == old(self).lifecycle_state(),
            final(self).events_emitted() == old(self).events_emitted(),
            old(self).transport_part().session_created() ==> {
                &&& r == Err::<(), BridgeError>(BridgeError::AlreadyStarted)
                &&& *final(self) == *old(self)
            },
            !old(self).transport_part().session_created() ==> {
                &&& r == Ok::<(), BridgeError>(())
                &&& final(self).transport_part().session_created()
                &&& final(self).transport_part().frames_sent() == old(
                    self,
                ).transport_part().frames_sent()
                &&& final(self).transport_part().inbound() == old(self).transport_part().inbound()
            },
    {
        self.transport.create_transport()
    }

    /// Forwards one outbound frame: the returned bytes, handed to the host's
    /// frame sink, are byte for byte the submitted frame, in submission order.
    pub fn send_frame(&mut self, frame: Vec<u8>) -> (out: Vec<u8>)
        requires
            old(self).well_formed(),
        ensures
            final(self).well_formed(),
            out@ == frame@,
            final(self).transport_part().frames_sent() == old(
                self,
            ).transport_part().frames_sent().push(frame@),
            final(self).transport_part().session_created() == old(
                self,
            ).transport_part().session_created(),
            final(self).transport_part().inbound() == old(self).transport_part().inbound(),
            final(self).lifecycle_state() == old(self).lifecycle_state(),
            final(self).events_emitted() == old(self).events_emitted(),
    {
        self.transport.send_frame(frame)
    }

    /// Enqueues a connected transport event from the host.
    pub fn notify_connected(&mut self) -> (r: Result<(), BridgeError>)
        requires
            old(self).well_formed(),
        ensures
            final(self).well_formed(),
            submit_transition(*old(self), *final(self), r, TransportEvent::Connected),
    {
        self.transport.submit_event(TransportEvent::Connected)
    }

    /// Enqueues a disconnected transport event from the host.
    pub fn notify_disconnected(&mut self) -> (r: Result<(), BridgeError>)
        requires
            old(self).well_formed(),
        ensures
            final(self).well_formed(),
            submit_transition(*old(self), *final(self), r, TransportEvent::Disconnected),
    {
        self.transport.submit_event(TransportEvent::Disconnected)
    }

    /// Enqueues the given received bytes as a transport event from the host.
    pub fn receive_frame(&mut self, bytes: Vec<u8>) -> (r: Result<(), BridgeError>)
        requires
            old(self).well_formed(),
        ensures
            final(self).well_formed(),
            submit_transition(
                *old(self),
                *final(self),
                r,
                TransportEvent::DataReceived { bytes },
            ),
    {
        self.transport.submit_event(TransportEvent::DataReceived { bytes })
    }

    /// Hands the client's read loop the oldest pending inbound event: the
    /// n-th successful call observes the n-th event ever accepted.
    pub fn next_transport_event(&mut self) -> (r: Option<TransportEvent>)
        requires
            old(self).well_formed(),
        ensures
            final(self).well_formed(),
            final(self).lifecycle_state() == old(self).lifecycle_state(),
            final(self).events_emitted() == old(self).events_emitted(),
            final(self).transport_part().session_created() == old(
                self,
            ).transport_part().session_created(),
            final(self).transport_part().frames_sent() == old(self).transport_part().frames_sent(),
            old(self).transport_part().inbound().pending().len() == 0 ==> {
                &&& r == None::<TransportEvent>
                &&& final(self).transport_part().inbound() == old(self).transport_part().inbound()
            },
            old(self).transport_part().inbound().pending().len() > 0 ==> {
                &&& r == Some(old(self).transport_part().inbound().pending()[0])
                &&& r == Some(
                    old(self).transport_part().inbound().accepted_log()[old(
                        self,
                    ).transport_part().inbound().observed_count() as int],
                )
                &&& final(self).transport_part().inbound().accepted_log() == old(
                    self,
                ).transport_part().inbound().accepted_log()
                &&& final(self).transport_part().inbound().observed_count() == old(
                    self,
                ).transport_part().inbound().observed_count() + 1
                &&& final(self).transport_part().inbound().is_closed() == old(
                    self,
                ).transport_part().inbound().is_closed()
            },
    {
        self.transport.next_event()
    }
}

/// How one submitted transport event moves the bridge: refused with
/// `ChannelClosed` once the consumer is gone, refused with `QueueFull` at
/// capacity — the bridge unchanged either way — and otherwise accepted at the
/// back of the inbound queue, everything else untouched.
pub open spec fn submit_transition(
    pre: WaBot,
    post: WaBot,
    r: Result<(), BridgeError>,
    e: TransportEvent,
) -> bool {
    &&& post.lifecycle_state() == pre.lifecycle_state()
    &&& post.events_emitted() == pre.events_emitted()
    &&& post.transport_part().session_created() == pre.transport_part().session_created()
    &&& post.transport_part().frames_sent() == pre.transport_part().frames_sent()
    &&& pre.transport_part().inbound().is_closed() ==> {
        &&& r == Err::<(), BridgeError>(BridgeError::ChannelClosed)
        &&& post.transport_part().inbound() == pre.transport_part().inbound()
    }
    &&& !pre.transport_part().inbound().is_closed() && pre.transport_part().inbound().pending().len()
        >= QUEUE_CAPACITY ==> {
        &&& r == Err::<(), BridgeError>(BridgeError::QueueFull)
        &&& post.transport_part().inbound() == pre.transport_part().inbound()
    }
    &&& !pre.transport_part().inbound().is_closed() && pre.transport_part().inbound().pending().len()
        < QUEUE_CAPACITY ==> {
        &&& r == Ok::<(), BridgeError>(())
        &&& post.transport_part().inbound().accepted_log() == pre.transport_part().inbound().accepted_log().push(e)
        &&& post.transport_part().inbound().observed_count() == pre.transport_part().inbound().observed_count()
        &&& !post.transport_part().inbound().is_closed()
    }
}

/// Maps what the protocol client reported for a delegated send back to the
/// caller: the message identifier on success, `SendFailed` with the client's
/// message preserved otherwise.
pub fn complete_send(outcome: SendOutcome) -> (r: Result<String, BridgeError>)
    ensures
        outcome matches SendOutcome::Sent { message_id } ==> r == Ok::<String, BridgeError>(
            message_id,
        ),
        outcome matches SendOutcome::Failed { message } ==> r == Err::<String, BridgeError>(
            BridgeError::SendFailed { message },
        ),
{
    match outcome {
        SendOutcome::Sent { message_id } => Ok(message_id),
        SendOutcome::Failed { message } => Err(BridgeError::SendFailed { message }),
    }
}

/// Maps the outcome of building the underlying client: a fresh bridge when
/// the build succeeded, `ConstructionFailure` with the builder's message when
/// it did not.
pub fn complete_construction(outcome: BuildOutcome) -> (r: Result<WaBot, BridgeError>)
    ensures
        outcome is Built ==> (r matches Ok(b) && b.is_fresh()),
        outcome matches BuildOutcome::Failed { message } ==> r == Err::<WaBot, BridgeError>(
            BridgeError::ConstructionFailure { message },
        ),
{
    match outcome {
        BuildOutcome::Built => Ok(WaBot::new()),
        BuildOutcome::Failed { message } => Err(BridgeError::ConstructionFailure { message }),
    }
}

/// A send before the bridge reaches the running state is refused with
/// `NotReady`; once it is running, a destination is accepted exactly when it
/// parses as a protocol address, and refused with `InvalidAddress` otherwise,
/// regardless of timing.
pub proof fn lemma_send_gating(state: LifecycleState, to: Seq<char>, text: Seq<char>)
    ensures
        state != LifecycleState::Running ==> spec_send_decision(state, to, text)
            == SendDecision::NotReady,
        state == LifecycleState::Running ==> ((spec_send_decision(state, to, text) is Accepted)
            <==> jid_parse(to) is Some),
        state == LifecycleState::Running && jid_parse(to) is None ==> spec_send_decision(
            state,
            to,
            text,
        ) == SendDecision::InvalidAddress,
{
}

/// Sends are independent: whether one is accepted is decided by the bridge's
/// lifecycle state and that call's own destination alone, never by what any
/// other call carries. (`send_message` reads shared state and mutates
/// nothing, so simultaneous calls cannot corrupt the handle they read.)
pub proof fn lemma_send_independence(
    state: LifecycleState,
    to: Seq<char>,
    text_a: Seq<char>,
    text_b: Seq<char>,
)
    ensures
        (spec_send_decision(state, to, text_a) is Accepted) == (spec_send_decision(
            state,
            to,
            text_b,
        ) is Accepted),
        (spec_send_decision(state, to, text_a) is NotReady) == (spec_send_decision(
            state,
            to,
            text_b,
        ) is NotReady),
        (spec_send_decision(state, to, text_a) is InvalidAddress) == (spec_send_decision(
            state,
            to,
            text_b,
        ) is InvalidAddress),
{
}

} // verus!
