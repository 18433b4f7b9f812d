//! Sockets, and what they have in common.

pub mod client;
pub mod dhcpv4;
pub mod laws;

use vstd::prelude::*;

use crate::time::Instant;
use dhcpv4::Dhcpv4Socket;

verus! {

/// When a socket wants to be polled next.
#[derive(Debug, Clone, Copy, PartialEq, Eq, Structural)]
pub enum PollAt {
    /// At once.
    Now,
    /// At a given time.
    Time(Instant),
    /// When a packet comes in.
    Ingress,
}

/// What a socket set keeps with each of its sockets.
#[derive(Debug, Clone, Copy, PartialEq, Eq, Structural)]
pub struct SocketMeta {
    /// The place of the socket in the set.
    pub handle: usize,
}

impl Default for SocketMeta {
    fn default() -> (r: SocketMeta)
        ensures
            r == (SocketMeta { handle: 0 }),
    {
        SocketMeta { handle: 0 }
    }
}

/// A socket of any kind.
#[derive(Debug)]
pub enum Socket {
    Dhcpv4(Dhcpv4Socket),
}

impl From<Dhcpv4Socket> for Socket {
    fn from(socket: Dhcpv4Socket) -> (r: Socket) {
        Socket::Dhcpv4(socket)
    }
}

impl vstd::std_specs::convert::FromSpecImpl<Dhcpv4Socket> for Socket {
    open spec fn obeys_from_spec() -> bool {
        true
    }

    open spec fn from_spec(socket: Dhcpv4Socket) -> Socket {
        Socket::Dhcpv4(socket)
    }
}

} // verus!
