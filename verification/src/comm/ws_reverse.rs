//! The reverse socket client transport.
//!
//! The same duplex per-connection behavior as the socket server, but the
//! connection is initiated outward to a configured target URL.  Connection
//! loss is expected and recoverable, not fatal: the client retries with a
//! capped exponential backoff, never immediately giving up and never waiting
//! unboundedly.
use vstd::prelude::*;

verus! {

/// Backoff starts at this interval when the descriptor sets none.
pub const DEFAULT_RECONNECT_MS: u64 = 5000;

/// An outward connection attempt waits at most this long when the descriptor
/// sets no timeout.
pub const DEFAULT_CONNECT_TIMEOUT_MS: u32 = 5000;

/// No retry ever waits longer than this.
pub const MAX_BACKOFF_MS: u64 = 60000;

/// The reverse client transport: connects outward, then runs the shared
/// duplex per-connection machine.
#[derive(Clone, Debug)]
pub struct WebSocketReverse {
    pub connect_url: String,
    /// Base retry interval in milliseconds; the default applies when absent.
    pub reconnect_interval: Option<u32>,
    /// Bound on one connection attempt, in milliseconds; the default applies
    /// when absent.
    pub timeout: Option<u32>,
}

/// The retry delay in milliseconds before reconnect attempt `attempt`
/// (counted from zero): the base interval, doubled for each further failed
/// attempt, capped at [`MAX_BACKOFF_MS`].
pub open spec fn backoff_spec(base: u64, attempt: nat) -> u64
    decreases attempt,
{
    if attempt == 0 {
        if base > MAX_BACKOFF_MS {
            MAX_BACKOFF_MS
        } else {
            base
        }
    } else {
        let prev = backoff_spec(base, (attempt - 1) as nat);
        if 2 * prev > MAX_BACKOFF_MS {
            MAX_BACKOFF_MS
        } else {
            (2 * prev) as u64
        }
    }
}

impl WebSocketReverse {
    pub fn new(connect_url: &str) -> (w: WebSocketReverse)
        ensures
            w.connect_url@ == connect_url@,
            w.reconnect_interval is None,
            w.timeout is None,
    {
        WebSocketReverse {
            connect_url: connect_url.to_owned(),
            reconnect_interval: None,
            timeout: None,
        }
    }

    /// The bound on one outward connection attempt: never indefinite blocking.
    pub open spec fn connect_timeout_spec(&self) -> u32 {
        match self.timeout {
            Some(ms) => ms,
            None => DEFAULT_CONNECT_TIMEOUT_MS,
        }
    }

    pub fn connect_timeout_ms(&self) -> (t: u32)
        ensures
            t == self.connect_timeout_spec(),
    {
        match self.timeout {
            Some(ms) => ms,
            None => DEFAULT_CONNECT_TIMEOUT_MS,
        }
    }

    /// The configured base retry interval, or the default.
    pub open spec fn base_interval(&self) -> u64 {
        match self.reconnect_interval {
            Some(ms) => ms as u64,
            None => DEFAULT_RECONNECT_MS,
        }
    }

    /// How long to wait before reconnect attempt `attempt`: capped
    /// exponential backoff over the configured interval, so the transport
    /// retries rather than dies, yet never blocks indefinitely.
    pub fn backoff_delay(&self, attempt: u32) -> (d: u64)
        ensures
            d == backoff_spec(self.base_interval(), attempt as nat),
            d <= MAX_BACKOFF_MS,
    {
        let base: u64 = match self.reconnect_interval {
            Some(ms) => ms as u64,
            None => DEFAULT_RECONNECT_MS,
        };
        let mut d: u64 = if base > MAX_BACKOFF_MS {
            MAX_BACKOFF_MS
        } else {
            base
        };
        let mut i: u32 = 0;
        while i < attempt
            invariant
                i <= attempt,
                d == backoff_spec(self.base_interval(), i as nat),
                d <= MAX_BACKOFF_MS,
            decreases attempt - i,
        {
            d = if d > MAX_BACKOFF_MS / 2 {
                MAX_BACKOFF_MS
            } else {
                d * 2
            };
            i = i + 1;
        }
        d
    }
}

} // verus!
