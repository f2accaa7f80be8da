//! What a drain pass hands outward: one event per received message, a
//! "connected" notification per accepted peer, and at most one error.

use vstd::prelude::*;

use crate::connection::ConnectionError;
use crate::connection::ConnectionId;

verus! {

/// A peer's socket address as plain values: its IP octets (four for
/// version 4, sixteen for version 6) and its port.
#[derive(Clone, Debug, PartialEq, Eq)]
pub struct PeerAddr {
    pub octets: Vec<u8>,
    pub port: u16,
}

impl PeerAddr {
    /// A well-formed address holds exactly four or sixteen octets.
    pub open spec fn wf(&self) -> bool {
        self.octets@.len() == 4 || self.octets@.len() == 16
    }

    /// A version-4 address from its dotted octets and port.
    pub fn v4(a: u8, b: u8, c: u8, d: u8, port: u16) -> (r: PeerAddr)
        ensures
            r.wf(),
            r.octets@ == seq![a, b, c, d],
            r.port == port,
    {
        let mut octets: Vec<u8> = Vec::new();
        octets.push(a);
        octets.push(b);
        octets.push(c);
        octets.push(d);
        proof {
            assert(octets@ =~= seq![a, b, c, d]);
        }
        PeerAddr { octets, port }
    }
}

/// One outward notification about a connection.
#[derive(Debug)]
pub enum Event<R> {
    /// A payload message arrived on the connection.
    Message(R, ConnectionId),
    /// A peer connected from the given address.
    Connected(PeerAddr, ConnectionId),
    /// An operation on the connection failed.
    Error(ConnectionError, ConnectionId),
}

/// The connection an event speaks about.
pub open spec fn event_id<R>(e: Event<R>) -> ConnectionId {
    match e {
        Event::Message(_, id) => id,
        Event::Connected(_, id) => id,
        Event::Error(_, id) => id,
    }
}

impl<R> Event<R> {
    /// The payload and connection of a message event.
    pub fn unwrap_message(self) -> (r: (R, ConnectionId))
        requires
            self is Message,
        ensures
            self == Event::Message(r.0, r.1),
    {
        match self {
            Event::Message(recv, id) => (recv, id),
            Event::Connected(_, _) => vstd::pervasive::unreached(),
            Event::Error(_, _) => vstd::pervasive::unreached(),
        }
    }
}

} // verus!
