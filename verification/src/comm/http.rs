//! The synchronous request listener transport.
//!
//! No persistent connection and no event forwarding: each inbound request
//! body is parsed as exactly one action request, dispatched synchronously,
//! and the handler's result becomes the response body.  Requests are
//! independent of each other; there is no shared per-connection state.
use crate::action::{frame_response_ok, ActionRegistry};
use vstd::prelude::*;

verus! {

/// The synchronous request listener: serves action requests on a host and
/// port.
#[derive(Clone, Debug)]
pub struct HTTP {
    pub host: String,
    pub port: u16,
}

impl HTTP {
    pub fn new(host: &str, port: u16) -> (h: HTTP)
        ensures
            h.host@ == host@,
            h.port == port,
    {
        HTTP { host: host.to_owned(), port }
    }

    /// Serves one request: the body is one action frame, the returned text is
    /// the response body.  An unregistered action, a failed handler or an
    /// unparsable body each yield a structured error response — a response in
    /// every case, never a dropped request or a crash.
    pub fn handle_request<H: Fn(serde_json::Value) -> Result<String, String>>(
        &self,
        registry: &ActionRegistry<H>,
        body: &str,
    ) -> (r: String)
        requires
            registry.wf(),
            forall|n: Seq<char>, p: serde_json::Value|
                registry@.contains_key(n) ==> #[trigger] call_requires(registry@[n], (p,)),
        ensures
            frame_response_ok(registry@, body@, r@),
    {
        registry.handle_frame_text(body)
    }
}

} // verus!
