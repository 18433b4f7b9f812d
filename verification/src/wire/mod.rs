//! Addresses, headers and messages as they travel on the network.

pub mod dhcpv4;
pub mod ethernet;
pub mod ipv4;
pub mod laws;
pub mod udp;
