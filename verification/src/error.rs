//! The error type of the library.

use vstd::prelude::*;

verus! {

/// Why an operation of the network stack did not go through.
#[derive(Debug, Clone, Copy, PartialEq, Eq, Structural)]
pub enum Error {
    /// There is nothing to do at the moment, or no room to do it.
    Exhausted,
    /// The operation is not permitted in the current state.
    Illegal,
    /// An endpoint or address cannot be reached.
    Unaddressable,
    /// The operation has already been completed.
    Finished,
    /// A packet ends before its contents do.
    Truncated,
    /// A packet carries a wrong checksum.
    Checksum,
    /// A packet is valid, but of a kind that the library does not handle.
    Unrecognized,
    /// A packet is only a fragment.
    Fragmented,
    /// A packet contradicts its format.
    Malformed,
    /// A packet was dropped.
    Dropped,
}

} // verus!
