//! UDP headers.

use vstd::prelude::*;

verus! {

/// Length of a UDP header, in octets.
pub const UDP_HEADER_LEN: usize = 8;

/// What the library reads and sets of a UDP header.
#[derive(Debug, Clone, Copy, PartialEq, Eq, Structural)]
pub struct UdpRepr {
    pub src_port: u16,
    pub dst_port: u16,
}

impl UdpRepr {
    /// Length of the header, in octets.
    pub fn header_len(&self) -> (len: usize)
        ensures
            len == UDP_HEADER_LEN,
    {
        UDP_HEADER_LEN
    }
}

} // verus!
