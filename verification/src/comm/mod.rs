//! The transport layer: a capability abstraction over four wire protocols.
//!
//! The variant set is closed — a socket server, an outward-connecting socket
//! client, a synchronous request listener, and an outbound event forwarder —
//! so a transport is a tagged variant behind one interface, not an open-ended
//! extension point.  Each variant depends on the event bus (to receive events
//! to forward) and on the action registry (to dispatch inbound requests);
//! transports never depend on each other, and each one fails on its own
//! without taking its siblings down.
use crate::config::{opt_str_view, ConfigError, ConfigFileCommMethod};
use vstd::prelude::*;

mod http;
mod http_webhook;
mod ws;
mod ws_reverse;

pub use http::HTTP;
pub use http_webhook::{HTTPWebHook, OutboundRequest};
pub use ws::{Connection, Frame, FrameView, OutboundQueue, WebSocket};
pub use ws_reverse::{backoff_spec, WebSocketReverse, DEFAULT_CONNECT_TIMEOUT_MS, DEFAULT_RECONNECT_MS, MAX_BACKOFF_MS};

verus! {

/// One configured transport: the closed set of variants the gateway can run.
#[derive(Clone, Debug)]
pub enum CommConfig {
    HTTP(HTTP),
    HTTPWebHook(HTTPWebHook),
    WebSocket(WebSocket),
    WebSocketReverse(WebSocketReverse),
}

/// Whether the descriptor kind names a transport the gateway knows.
pub open spec fn known_comm_kind(k: Seq<char>) -> bool {
    ||| k == "socket_server"@
    ||| k == "socket_reverse"@
    ||| k == "sync_request"@
    ||| k == "event_forward"@
}

/// The listen host a descriptor asks for, defaulting to the loopback address.
pub open spec fn host_or_default(h: Option<Seq<char>>) -> Seq<char> {
    match h {
        Some(s) => s,
        None => "127.0.0.1"@,
    }
}

/// The listen port a descriptor asks for, defaulting to 5700.
pub open spec fn port_or_default(p: Option<u16>) -> u16 {
    match p {
        Some(p) => p,
        None => 5700,
    }
}

/// The target URL a descriptor asks for, defaulting to the loopback address.
pub open spec fn url_or_default(u: Option<Seq<char>>) -> Seq<char> {
    match u {
        Some(s) => s,
        None => "127.0.0.1:5700"@,
    }
}

/// Whether a built transport is exactly what a descriptor asks for: the
/// matching variant, with the descriptor's parameters and the documented
/// defaults for whatever the descriptor leaves out.
pub open spec fn comm_of_descriptor(c: CommConfig, m: ConfigFileCommMethod) -> bool {
    if m.kind@ == "socket_server"@ {
        c matches CommConfig::WebSocket(w) && w.host@ == host_or_default(opt_str_view(m.host))
            && w.port == port_or_default(m.port)
    } else if m.kind@ == "sync_request"@ {
        c matches CommConfig::HTTP(h) && h.host@ == host_or_default(opt_str_view(m.host)) && h.port
            == port_or_default(m.port)
    } else if m.kind@ == "socket_reverse"@ {
        c matches CommConfig::WebSocketReverse(w) && w.connect_url@ == url_or_default(
            opt_str_view(m.url),
        ) && w.reconnect_interval == m.reconnect_interval && w.timeout == m.timeout
    } else if m.kind@ == "event_forward"@ {
        c matches CommConfig::HTTPWebHook(h) && h.post_url@ == url_or_default(opt_str_view(m.url))
            && opt_str_view(h.secret) == opt_str_view(m.secret) && h.timeout == m.timeout
    } else {
        false
    }
}

/// Builds the transport a descriptor asks for; a descriptor of unknown kind is
/// a fatal configuration error, raised before anything starts.
pub fn from_config_file_comm_method(m: &ConfigFileCommMethod) -> (r: Result<
    CommConfig,
    ConfigError,
>)
    ensures
        !known_comm_kind(m.kind@) ==> r == Err::<CommConfig, ConfigError>(
            ConfigError::UnknownCommType,
        ),
        known_comm_kind(m.kind@) ==> (r matches Ok(c) && comm_of_descriptor(c, *m)),
{
    proof {
        reveal_strlit("socket_server");
        reveal_strlit("socket_reverse");
        reveal_strlit("sync_request");
        reveal_strlit("event_forward");
        assert("socket_server"@.len() == 13);
        assert("socket_reverse"@.len() == 14);
        assert("sync_request"@.len() == 12);
        assert("event_forward"@.len() == 13);
        assert("socket_server"@[0] == 's');
        assert("event_forward"@[0] == 'e');
    }
    if m.kind == "socket_server".to_owned() {
        let host = match &m.host {
            Some(h) => h.clone(),
            None => "127.0.0.1".to_owned(),
        };
        let port = match m.port {
            Some(p) => p,
            None => 5700,
        };
        Ok(CommConfig::WebSocket(WebSocket { host, port }))
    } else if m.kind == "sync_request".to_owned() {
        let host = match &m.host {
            Some(h) => h.clone(),
            None => "127.0.0.1".to_owned(),
        };
        let port = match m.port {
            Some(p) => p,
            None => 5700,
        };
        Ok(CommConfig::HTTP(HTTP { host, port }))
    } else if m.kind == "socket_reverse".to_owned() {
        let url = match &m.url {
            Some(u) => u.clone(),
            None => "127.0.0.1:5700".to_owned(),
        };
        Ok(
            CommConfig::WebSocketReverse(
                WebSocketReverse {
                    connect_url: url,
                    reconnect_interval: m.reconnect_interval,
                    timeout: m.timeout,
                },
            ),
        )
    } else if m.kind == "event_forward".to_owned() {
        let url = match &m.url {
            Some(u) => u.clone(),
            None => "127.0.0.1:5700".to_owned(),
        };
        let secret = match &m.secret {
            Some(s) => Some(s.clone()),
            None => None,
        };
        Ok(
            CommConfig::HTTPWebHook(
                HTTPWebHook { post_url: url, secret, timeout: m.timeout },
            ),
        )
    } else {
        Err(ConfigError::UnknownCommType)
    }
}

/// Builds the whole transport set a configuration file describes, one per
/// descriptor, keyed by the file's names (which the file, being a name-keyed
/// table, holds unique).  One descriptor of unknown kind fails the whole set:
/// no partial startup.
pub fn comms_from_descriptors(comm_methods: &Vec<(String, ConfigFileCommMethod)>) -> (r: Result<
    Vec<(String, CommConfig)>,
    ConfigError,
>)
    requires
        crate::action::unique_keys(comm_methods@),
    ensures
        r is Ok <==> (forall|i: int|
            0 <= i < comm_methods@.len() ==> known_comm_kind(
                (#[trigger] comm_methods@[i]).1.kind@,
            )),
        r is Err ==> r == Err::<Vec<(String, CommConfig)>, ConfigError>(
            ConfigError::UnknownCommType,
        ),
        r matches Ok(cs) ==> {
            &&& crate::action::unique_keys(cs@)
            &&& cs@.len() == comm_methods@.len()
            &&& forall|i: int|
                0 <= i < comm_methods@.len() ==> (#[trigger] cs@[i]).0@ == comm_methods@[i].0@
                    && comm_of_descriptor(cs@[i].1, comm_methods@[i].1)
        },
{
    let ghost ms = comm_methods@;
    let mut cs: Vec<(String, CommConfig)> = Vec::new();
    let mut i: usize = 0;
    while i < comm_methods.len()
        invariant
            i <= ms.len(),
            ms == comm_methods@,
            cs@.len() == i,
            forall|j: int| 0 <= j < i ==> known_comm_kind((#[trigger] ms[j]).1.kind@),
            forall|j: int|
                0 <= j < i ==> (#[trigger] cs@[j]).0@ == ms[j].0@ && comm_of_descriptor(
                    cs@[j].1,
                    ms[j].1,
                ),
        decreases ms.len() - i,
    {
        let (name, method) = &comm_methods[i];
        let c = match from_config_file_comm_method(method) {
            Ok(c) => c,
            Err(e) => {
                return Err(e);
            },
        };
        cs.push((name.clone(), c));
        i = i + 1;
    }
    proof {
        assert(crate::action::unique_keys(cs@));
    }
    Ok(cs)
}

} // verus!
