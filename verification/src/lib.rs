//! A verified DHCPv4 client socket.
//!
//! `socket::dhcpv4` holds the socket. It reads and makes messages of `wire`, on the clock of
//! `time`. What the socket does is stated over the model of a client in `socket::client`, and
//! `socket::laws` proves what holds of the client as a whole. `wire::laws` proves how packets and
//! addresses are read.

pub mod error;
pub mod socket;
pub mod time;
pub mod wire;
