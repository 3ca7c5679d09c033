//! The outbound event forwarder transport.
//!
//! No inbound dispatch: the forwarder subscribes to the bus and, for each
//! event it observes, issues exactly one outbound call carrying the
//! serialized event envelope and the configured secret.  Delivery is
//! at-most-once: no retry, and a failed call is that call's loss alone.
//! Every call is bounded by the configured timeout (a short default, never
//! indefinite blocking).
use crate::bus::{BusPoll, BusSubscriber, EventBus, PollOutcome};
use crate::codec::{envelope_json, event_frame_text, stamped};
use crate::config::opt_str_view;
use crate::event::Event;
use vstd::prelude::*;

verus! {

/// Outbound calls wait at most this long when the descriptor sets no timeout.
pub const DEFAULT_FORWARD_TIMEOUT_MS: u32 = 5000;

/// The outbound event forwarder: posts every observed event to a fixed URL.
#[derive(Clone, Debug)]
pub struct HTTPWebHook {
    pub post_url: String,
    /// Shared secret sent along for authentication, if configured.
    pub secret: Option<String>,
    /// Call timeout in milliseconds; the default applies when absent.
    pub timeout: Option<u32>,
}

/// One outbound call, ready for whatever client performs it: where to post,
/// the exact body, the secret to authenticate with, and the time bound.
#[derive(Debug)]
pub struct OutboundRequest {
    pub url: String,
    pub body: String,
    pub secret: Option<String>,
    pub timeout_ms: u32,
}

impl HTTPWebHook {
    pub fn new(post_url: &str) -> (h: HTTPWebHook)
        ensures
            h.post_url@ == post_url@,
            h.secret is None,
            h.timeout is None,
    {
        HTTPWebHook { post_url: post_url.to_owned(), secret: None, timeout: None }
    }

    /// The same forwarder with an authentication secret.
    pub fn secret(self, secret: &str) -> (h: HTTPWebHook)
        ensures
            h.post_url == self.post_url,
            opt_str_view(h.secret) == Some(secret@),
            h.timeout == self.timeout,
    {
        HTTPWebHook { secret: Some(secret.to_owned()), ..self }
    }

    /// The same forwarder with an explicit call timeout, in milliseconds.
    pub fn timeout(self, ms: u32) -> (h: HTTPWebHook)
        ensures
            h.post_url == self.post_url,
            h.secret == self.secret,
            h.timeout == Some(ms),
    {
        HTTPWebHook { timeout: Some(ms), ..self }
    }

    /// The bound on every outbound call.
    pub open spec fn effective_timeout(&self) -> u32 {
        match self.timeout {
            Some(ms) => ms,
            None => DEFAULT_FORWARD_TIMEOUT_MS,
        }
    }

    /// The one outbound call for one event: the body is exactly the event's
    /// wire envelope, stamped with the gateway's platform tag.
    pub fn forward_event(&self, event: &Event, platform: &str) -> (r: OutboundRequest)
        ensures
            r.url@ == self.post_url@,
            r.body@ == envelope_json(stamped(event@, platform@)),
            opt_str_view(r.secret) == opt_str_view(self.secret),
            r.timeout_ms == self.effective_timeout(),
    {
        OutboundRequest {
            url: self.post_url.clone(),
            body: event_frame_text(event, platform),
            secret: match &self.secret {
                Some(s) => Some(s.clone()),
                None => None,
            },
            timeout_ms: match self.timeout {
                Some(ms) => ms,
                None => DEFAULT_FORWARD_TIMEOUT_MS,
            },
        }
    }

    /// One step of the forwarder: takes the subscriber's next observation and
    /// issues exactly one outbound call for exactly one delivered event — no
    /// call when nothing new was published, and none for a loss report.
    pub fn pump(&self, bus: &EventBus<Event>, sub: &mut BusSubscriber, platform: &str) -> (r:
        Option<OutboundRequest>)
        requires
            bus.wf(),
            bus.wf_sub(*old(sub)),
        ensures
            bus.wf_sub(*final(sub)),
            final(sub).joined == old(sub).joined,
            match bus.poll_outcome(old(sub).cursor as int) {
                PollOutcome::Empty => r is None && *final(sub) == *old(sub),
                PollOutcome::Lagged(n) => r is None && final(sub).cursor as int == bus.dropped(),
                PollOutcome::Deliver(i) => r matches Some(req) && req.url@ == self.post_url@
                    && req.body@ == envelope_json(stamped(bus.history()[i]@, platform@))
                    && opt_str_view(req.secret) == opt_str_view(self.secret) && req.timeout_ms
                    == self.effective_timeout() && final(sub).cursor as int == i + 1,
            },
    {
        match bus.poll(sub) {
            BusPoll::Empty => None,
            BusPoll::Lagged(_) => None,
            BusPoll::Event(event) => Some(self.forward_event(event, platform)),
        }
    }
}

} // verus!
