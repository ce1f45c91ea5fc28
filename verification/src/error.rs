//! The failures the bridge reports to its callers.

use vstd::prelude::*;

verus! {

/// Every failure the bridge can report.
///
/// Construction and run-loop failures are surfaced to a diagnostic sink and do
/// not end the host process; all other operations return one of these to the
/// immediate caller instead of panicking. The bridge never retries on its own.
///
/// On overflow of the bounded inbound queue the bridge rejects the submitted
/// event with `QueueFull` rather than waiting: the producer is the host's
/// single thread, and a call that blocked until the consumer drained the queue
/// could never be woken by that same thread. A rejected event is reported to
/// the submitter, never dropped silently.
#[derive(Debug, Clone, PartialEq, Eq)]
pub enum BridgeError {
    /// Building the underlying client failed; construction aborts.
    ConstructionFailure { message: String },
    /// A second `start`, or a second transport creation.
    AlreadyStarted,
    /// A send was attempted before the client handle was published.
    NotReady,
    /// The destination could not be parsed as a protocol address.
    InvalidAddress { message: String },
    /// A cross-boundary call could not be delivered to the host.
    DispatchFailure { message: String },
    /// The host-side awaitable resolved to a failure.
    HostRejected { message: String },
    /// A transport event was submitted after the consumer side was gone.
    ChannelClosed,
    /// A transport event was submitted while the bounded queue was full.
    QueueFull,
    /// The underlying client failed to send an accepted message.
    SendFailed { message: String },
}

impl BridgeError {
    /// The diagnostic text of this failure: the underlying message where one
    /// was preserved, a fixed description otherwise.
    pub open spec fn spec_describe(&self) -> Seq<char> {
        match self {
            BridgeError::ConstructionFailure { message } => message@,
            BridgeError::AlreadyStarted => "already started"@,
            BridgeError::NotReady => "not ready"@,
            BridgeError::InvalidAddress { message } => message@,
            BridgeError::DispatchFailure { message } => message@,
            BridgeError::HostRejected { message } => message@,
            BridgeError::ChannelClosed => "transport event channel closed"@,
            BridgeError::QueueFull => "transport event queue full"@,
            BridgeError::SendFailed { message } => message@,
        }
    }

    /// Renders the failure for a diagnostic sink.
    pub fn describe(&self) -> (r: String)
        ensures
            r@ == self.spec_describe(),
    {
        match self {
            BridgeError::ConstructionFailure { message } => message.clone(),
            BridgeError::AlreadyStarted => "already started".to_owned(),
            BridgeError::NotReady => "not ready".to_owned(),
            BridgeError::InvalidAddress { message } => message.clone(),
            BridgeError::DispatchFailure { message } => message.clone(),
            BridgeError::HostRejected { message } => message.clone(),
            BridgeError::ChannelClosed => "transport event channel closed".to_owned(),
            BridgeError::QueueFull => "transport event queue full".to_owned(),
            BridgeError::SendFailed { message } => message.clone(),
        }
    }
}

} // verus!
