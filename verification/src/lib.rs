//! A bridge that lets a long-running, asynchronous network client be driven
//! from a host that interoperates only through single-threaded, callback-style
//! calls.
//!
//! The bridge owns the client's lifecycle (run at most once, ownership of the
//! client transferred exactly once), ferries outbound frames and HTTP requests
//! from the asynchronous side out to the host, and ferries inbound transport
//! events (connect, disconnect, received bytes) from the host into the
//! asynchronous side, preserving order on both paths.
//!
//! Everything the bridge decides is synchronous logic over plain values and is
//! verified here; the asynchronous plumbing around it (the task executor, the
//! host's callback objects, the protocol client itself) performs the actions
//! these functions prescribe and hands their outcomes back in.

pub mod bridge;
pub mod error;
pub mod event;
pub mod http;
pub mod queue;
pub mod transport;
