//! IPv4 addresses, address blocks and headers.

use vstd::prelude::*;

verus! {

/// A four-octet IPv4 address.
#[derive(Debug, Clone, Copy, Eq)]
pub struct Ipv4Address(pub [u8; 4]);

impl PartialEq for Ipv4Address {
    fn eq(&self, other: &Self) -> (r: bool) {
        let r = self.0[0] == other.0[0] && self.0[1] == other.0[1] && self.0[2] == other.0[2]
            && self.0[3] == other.0[3];
        proof {
            if r {
                assert(self.0 =~= other.0);
            }
        }
        r
    }
}

impl vstd::std_specs::cmp::PartialEqSpecImpl for Ipv4Address {
    open spec fn obeys_eq_spec() -> bool {
        true
    }

    open spec fn eq_spec(&self, other: &Self) -> bool {
        *self == *other
    }
}

impl Ipv4Address {
    /// The address that stands for "no address".
    #[verifier::allow_in_spec]
    pub fn unspecified() -> Ipv4Address
        returns
            Ipv4Address([0, 0, 0, 0]),
    {
        Ipv4Address([0, 0, 0, 0])
    }

    /// The address of every host on the local network.
    #[verifier::allow_in_spec]
    pub fn broadcast() -> Ipv4Address
        returns
            Ipv4Address([255, 255, 255, 255]),
    {
        Ipv4Address([255, 255, 255, 255])
    }

    /// Whether bit `i` of the address is set, where bit 0 is the most significant one.
    pub open spec fn bit(self, i: int) -> bool {
        (self.0[i / 8] >> ((7 - i % 8) as u8)) & 1 == 1
    }

    /// Whether the address is the subnet mask of a prefix of `n` bits: its first `n` bits are
    /// set, and no others.
    pub open spec fn is_mask_of(self, n: u8) -> bool {
        &&& n <= 32
        &&& forall|i: int| 0 <= i < 32 ==> (#[trigger] self.bit(i) <==> i < n)
    }

    /// The number of bits of the prefix that the address masks, if it is a subnet mask.
    pub open spec fn prefix_len(self) -> Option<u8> {
        if exists|n: u8| self.is_mask_of(n) {
            Some(choose|n: u8| self.is_mask_of(n))
        } else {
            None
        }
    }

    /// Whether the address names a single host: it is neither the broadcast address, nor in
    /// the block 224.0.0.0/4 of multicast groups, nor unspecified.
    pub open spec fn names_one_host(self) -> bool {
        &&& self != Ipv4Address::broadcast()
        &&& !(224 <= self.0[0] <= 239)
        &&& self != Ipv4Address::unspecified()
    }

    /// An address masks at most one length of prefix.
    pub proof fn lemma_prefix_len_unique(self, n: u8)
        requires
            self.is_mask_of(n),
        ensures
            self.prefix_len() == Some(n),
    {
        let m = self.prefix_len()->0;
        assert(self.is_mask_of(m));
        if m < n {
            assert(self.bit(m as int));
        } else if n < m {
            assert(self.bit(n as int));
        }
    }

    /// Whether the address is unicast.
    pub fn is_unicast(&self) -> (r: bool)
        ensures
            r == self.names_one_host(),
    {
        !(*self == Ipv4Address::broadcast() || (224 <= self.0[0] && self.0[0] <= 239) || *self
            == Ipv4Address::unspecified())
    }

    /// Takes the address as a subnet mask, and returns the number of its leading ones. Returns
    /// `None` if it is no subnet mask.
    pub fn to_prefix_len(&self) -> (r: Option<u8>)
        ensures
            r == self.prefix_len(),
    {
        let mut ones: bool = true;
        let mut prefix_len: u8 = 0;
        let mut i: u8 = 0;
        while i < 32
            invariant
                i <= 32,
                prefix_len <= i,
                ones ==> prefix_len == i,
                forall|j: int| 0 <= j < i ==> (#[trigger] self.bit(j) <==> j < prefix_len),
                !ones ==> prefix_len < i,
            decreases 32 - i,
        {
            let octet: u8 = self.0[(i / 8) as usize];
            let one = (octet >> (7 - i % 8)) & 1 == 1;
            assert(one == self.bit(i as int));
            if ones {
                if one {
                    prefix_len = prefix_len + 1;
                } else {
                    ones = false;
                }
            } else if one {
                proof {
                    assert(!self.bit(prefix_len as int));
                    assert forall|n: u8| !self.is_mask_of(n) by {
                        if self.is_mask_of(n) {
                            assert(self.bit(i as int));
                            assert(!self.bit(prefix_len as int));
                        }
                    }
                }
                return None;
            }
            i = i + 1;
        }
        proof {
            self.lemma_prefix_len_unique(prefix_len);
        }
        Some(prefix_len)
    }
}

/// A block of IPv4 addresses: an address in it and the number of leading bits that all of its
/// addresses share.
#[derive(Debug, Clone, Copy, Eq)]
pub struct Ipv4Cidr {
    pub address: Ipv4Address,
    pub prefix_len: u8,
}

impl PartialEq for Ipv4Cidr {
    fn eq(&self, other: &Self) -> (r: bool) {
        self.address == other.address && self.prefix_len == other.prefix_len
    }
}

impl vstd::std_specs::cmp::PartialEqSpecImpl for Ipv4Cidr {
    open spec fn obeys_eq_spec() -> bool {
        true
    }

    open spec fn eq_spec(&self, other: &Self) -> bool {
        *self == *other
    }
}

impl Ipv4Cidr {
    /// The prefix is no longer than an address.
    pub open spec fn wf(self) -> bool {
        self.prefix_len <= 32
    }

    /// The block of addresses that share their first `prefix_len` bits with `address`.
    pub fn new(address: Ipv4Address, prefix_len: u8) -> (r: Ipv4Cidr)
        requires
            prefix_len <= 32,
        ensures
            r.wf(),
            r.address == address,
            r.prefix_len == prefix_len,
    {
        Ipv4Cidr { address, prefix_len }
    }

    /// The address that the block was made from.
    pub fn address(&self) -> (r: Ipv4Address)
        ensures
            r == self.address,
    {
        self.address
    }
}

/// The protocol that an IPv4 packet carries.
#[derive(Debug, Clone, Copy, PartialEq, Eq, Structural)]
pub enum IpProtocol {
    Icmp,
    Igmp,
    Tcp,
    Udp,
    Unknown(u8),
}

/// What the library reads and sets of an IPv4 header.
#[derive(Debug, Clone, Copy)]
pub struct Ipv4Repr {
    pub src_addr: Ipv4Address,
    pub dst_addr: Ipv4Address,
    pub protocol: IpProtocol,
    /// Length of what follows the header, in octets.
    pub payload_len: usize,
    pub hop_limit: u8,
}

} // verus!
