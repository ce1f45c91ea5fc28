//! The HTTP bridge: outbound requests delegated to the host.
//!
//! When the host performs all network work itself, the protocol client's HTTP
//! calls cross the boundary as one request/response exchange each: the bridge
//! hands the host a request, the host answers with an awaitable, and whatever
//! that awaitable resolves to is mapped back into the response shape below.
//! Concurrent exchanges are independent and unordered relative to each other;
//! the bridge neither retries nor enforces a timeout.

use vstd::prelude::*;
use vstd::pervasive::VecAdditionalExecFns;

use crate::error::BridgeError;

verus! {

/// An outbound HTTP request: method, URL, headers with unique keys, and an
/// optional body.
#[derive(Debug, Clone, PartialEq, Eq)]
pub struct HttpRequest {
    pub method: String,
    pub url: String,
    pub headers: Vec<(String, String)>,
    pub body: Option<Vec<u8>>,
}

/// The response paired with a request: status code and body bytes.
#[derive(Debug, Clone, PartialEq, Eq)]
pub struct HttpResponse {
    pub status_code: u16,
    pub body: Vec<u8>,
}

/// What came back from the host for one dispatched request.
///
/// The two failure points are distinct: the cross-boundary call itself can
/// fail to dispatch (the host was never reached), or the host-side awaitable
/// can reject (the exchange happened and failed). Both carry the underlying
/// message through for diagnostics.
#[derive(Debug, Clone, PartialEq, Eq)]
pub enum HttpDispatchOutcome {
    /// The host resolved the exchange with a status code and body bytes.
    Resolved { status: u16, body: Vec<u8> },
    /// The host-side awaitable rejected.
    Rejected { message: String },
    /// The cross-boundary call could not be delivered to the host at all.
    DispatchFailed { message: String },
}

impl HttpRequest {
    /// Header keys are unique: the headers form a mapping.
    pub open spec fn headers_unique(&self) -> bool {
        forall|i: int, j: int|
            0 <= i < j < self.headers@.len() ==> (#[trigger] self.headers@[i]).0@ != (
            #[trigger] self.headers@[j]).0@
    }

    /// A request with the given method and URL, no headers and no body.
    pub fn new(method: String, url: String) -> (r: HttpRequest)
        ensures
            r.method == method,
            r.url == url,
            r.headers@ == Seq::<(String, String)>::empty(),
            r.body == None::<Vec<u8>>,
            r.headers_unique(),
    {
        HttpRequest { method, url, headers: Vec::new(), body: None }
    }

    /// Sets one header: replaces the value of an existing key, appends a new
    /// key at the end. Keys stay unique either way.
    pub fn with_header(self, key: String, value: String) -> (r: HttpRequest)
        requires
            self.headers_unique(),
        ensures
            r.headers_unique(),
            r.method == self.method,
            r.url == self.url,
            r.body == self.body,
            (exists|i: int| 0 <= i < self.headers@.len() && (#[trigger] self.headers@[i]).0@
                == key@) ==> exists|i: int|
                {
                    &&& 0 <= i < self.headers@.len()
                    &&& (#[trigger] self.headers@[i]).0@ == key@
                    &&& r.headers@ == self.headers@.update(i, (key, value))
                },
            (forall|i: int| 0 <= i < self.headers@.len() ==> (#[trigger] self.headers@[i]).0@
                != key@) ==> r.headers@ == self.headers@.push((key, value)),
    {
        let mut req = self;
        let mut i: usize = 0;
        while i < req.headers.len()
            invariant
                req.method == self.method,
                req.url == self.url,
                req.body == self.body,
                req.headers@ == self.headers@,
                self.headers_unique(),
                i <= self.headers@.len(),
                forall|j: int| 0 <= j < i ==> (#[trigger] self.headers@[j]).0@ != key@,
            decreases req.headers@.len() - i,
        {
            if req.headers[i].0 == key {
                let ghost at = i as int;
                req.headers.set(i, (key, value));
                proof {
                    assert(0 <= at < self.headers@.len() && self.headers@[at].0@ == key@
                        && req.headers@ == self.headers@.update(at, (key, value)));
                    assert forall|p: int, q: int|
                        0 <= p < q < req.headers@.len() implies (#[trigger] req.headers@[p]).0@
                        != (#[trigger] req.headers@[q]).0@ by {
                        assert(self.headers@[p].0@ != self.headers@[q].0@);
                    }
                }
                return req;
            }
            i += 1;
        }
        req.headers.push((key, value));
        proof {
            assert forall|p: int, q: int|
                0 <= p < q < req.headers@.len() implies (#[trigger] req.headers@[p]).0@ != (
            #[trigger] req.headers@[q]).0@ by {
                if q < self.headers@.len() {
                    assert(self.headers@[p].0@ != self.headers@[q].0@);
                } else {
                    assert(self.headers@[p].0@ != key@);
                }
            }
        }
        req
    }

    /// Attaches body bytes to the request.
    pub fn with_body(self, body: Vec<u8>) -> (r: HttpRequest)
        ensures
            r.method == self.method,
            r.url == self.url,
            r.headers == self.headers,
            r.body == Some(body),
    {
        HttpRequest { body: Some(body), ..self }
    }
}

/// Maps what the host answered into what the protocol client is owed.
///
/// A resolved exchange yields exactly the host's status code and body bytes.
/// A rejected awaitable surfaces as `HostRejected` and a call that never
/// reached the host as `DispatchFailure`, each carrying the underlying
/// message unchanged.
pub fn resolve_http(outcome: HttpDispatchOutcome) -> (r: Result<HttpResponse, BridgeError>)
    ensures
        outcome matches HttpDispatchOutcome::Resolved { status, body } ==> r == Ok::<
            HttpResponse,
            BridgeError,
        >(HttpResponse { status_code: status, body }),
        outcome matches HttpDispatchOutcome::Rejected { message } ==> r == Err::<
            HttpResponse,
            BridgeError,
        >(BridgeError::HostRejected { message }),
        outcome matches HttpDispatchOutcome::DispatchFailed { message } ==> r == Err::<
            HttpResponse,
            BridgeError,
        >(BridgeError::DispatchFailure { message }),
{
    match outcome {
        HttpDispatchOutcome::Resolved { status, body } => Ok(
            HttpResponse { status_code: status, body },
        ),
        HttpDispatchOutcome::Rejected { message } => Err(BridgeError::HostRejected { message }),
        HttpDispatchOutcome::DispatchFailed { message } => Err(
            BridgeError::DispatchFailure { message },
        ),
    }
}

} // verus!
