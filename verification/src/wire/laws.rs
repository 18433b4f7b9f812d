//! What holds of addresses and of the decoding of DHCP messages, over all octets.

use vstd::prelude::*;

use vstd::arithmetic::power2::{lemma2_to64, pow2};
use vstd::std_specs::cmp::PartialEqSpec;

use super::dhcpv4::{
    decoded, decoded_packet, field_len, is_foreign_client_id, last_message_type, last_of, last_of_kind,
    options, options_whole, parse_outcome, servers_len, DhcpMessage, DhcpMessageType, DhcpPacket, DhcpRepr,
    RawOption,
};
use super::ethernet::EthernetAddress;
use super::ipv4::{Ipv4Address, Ipv4Cidr};
use super::udp::UDP_HEADER_LEN;
use crate::error::Error;

verus! {

/// Whether four octets are the address of a single host: neither all ones, nor all zeros, nor a
/// multicast group.
pub open spec fn is_host(a: u8, b: u8, c: u8, d: u8) -> bool {
    &&& !(a == 255 && b == 255 && c == 255 && d == 255)
    &&& !(a == 0 && b == 0 && c == 0 && d == 0)
    &&& !(224 <= a <= 239)
}

/// The octet whose first `k` bits are ones, and the others zeros.
pub open spec fn leading_ones(k: int) -> u8 {
    if k <= 0 {
        0
    } else if k == 1 {
        128
    } else if k == 2 {
        192
    } else if k == 3 {
        224
    } else if k == 4 {
        240
    } else if k == 5 {
        248
    } else if k == 6 {
        252
    } else if k == 7 {
        254
    } else {
        255
    }
}

/// Whether four octets are the subnet mask of a prefix of `n` bits.
pub open spec fn is_mask(mask: Ipv4Address, n: int) -> bool {
    &&& 0 <= n <= 32
    &&& mask.0[0] == leading_ones(n)
    &&& mask.0[1] == leading_ones(n - 8)
    &&& mask.0[2] == leading_ones(n - 16)
    &&& mask.0[3] == leading_ones(n - 24)
}

/// Unicast addresses are those of single hosts.
pub proof fn unicast_addresses_are_hosts(a: Ipv4Address)
    ensures
        a.names_one_host() == is_host(a.0[0], a.0[1], a.0[2], a.0[3]),
        a.names_one_host() <==> a.0@ != seq![0u8, 0, 0, 0] && a.0@ != seq![255u8, 255, 255, 255]
            && (a.0[0] < 224 || a.0[0] >= 240),
        Ipv4Address::unspecified().0@ == seq![0u8, 0, 0, 0],
        Ipv4Address::broadcast().0@ == seq![255u8, 255, 255, 255],
{
    if a.0[0] == 255 && a.0[1] == 255 && a.0[2] == 255 && a.0[3] == 255 {
        assert(a.0 =~= Ipv4Address::broadcast().0);
    }
    if a.0[0] == 0 && a.0[1] == 0 && a.0[2] == 0 && a.0[3] == 0 {
        assert(a.0 =~= Ipv4Address::unspecified().0);
    }
}

/// Whether the first `k` bits of an octet are set, and no others.
spec fn bits_are_leading(octet: u8, k: int) -> bool {
    &&& ((octet >> 7) & 1 == 1) == (0 < k)
    &&& ((octet >> 6) & 1 == 1) == (1 < k)
    &&& ((octet >> 5) & 1 == 1) == (2 < k)
    &&& ((octet >> 4) & 1 == 1) == (3 < k)
    &&& ((octet >> 3) & 1 == 1) == (4 < k)
    &&& ((octet >> 2) & 1 == 1) == (5 < k)
    &&& ((octet >> 1) & 1 == 1) == (6 < k)
    &&& ((octet >> 0) & 1 == 1) == (7 < k)
}

proof fn lemma_leading_bits(octet: u8, k: int)
    ensures
        bits_are_leading(octet, k) == (octet == leading_ones(k)),
{
    assert(octet == (if (octet >> 7) & 1 == 1 { 128int } else { 0int }) + (if (octet >> 6) & 1 == 1 {
        64int
    } else {
        0int
    }) + (if (octet >> 5) & 1 == 1 {
        32int
    } else {
        0int
    }) + (if (octet >> 4) & 1 == 1 {
        16int
    } else {
        0int
    }) + (if (octet >> 3) & 1 == 1 {
        8int
    } else {
        0int
    }) + (if (octet >> 2) & 1 == 1 {
        4int
    } else {
        0int
    }) + (if (octet >> 1) & 1 == 1 {
        2int
    } else {
        0int
    }) + (if (octet >> 0) & 1 == 1 {
        1int
    } else {
        0int
    })) by (bit_vector);
}

proof fn lemma_bits_of_octet(mask: Ipv4Address, n: u8, q: int)
    requires
        mask.is_mask_of(n),
        0 <= q < 4,
    ensures
        bits_are_leading(mask.0[q], n - 8 * q),
{
    assert forall|r: int| 0 <= r < 8 implies (#[trigger] mask.bit(8 * q + r) <==> r < n - 8 * q) by {
        assert(0 <= 8 * q + r < 32);
    }
    assert(mask.bit(8 * q + 0) == ((mask.0[q] >> 7) & 1 == 1));
    assert(mask.bit(8 * q + 1) == ((mask.0[q] >> 6) & 1 == 1));
    assert(mask.bit(8 * q + 2) == ((mask.0[q] >> 5) & 1 == 1));
    assert(mask.bit(8 * q + 3) == ((mask.0[q] >> 4) & 1 == 1));
    assert(mask.bit(8 * q + 4) == ((mask.0[q] >> 3) & 1 == 1));
    assert(mask.bit(8 * q + 5) == ((mask.0[q] >> 2) & 1 == 1));
    assert(mask.bit(8 * q + 6) == ((mask.0[q] >> 1) & 1 == 1));
    assert(mask.bit(8 * q + 7) == ((mask.0[q] >> 0) & 1 == 1));
}

/// The prefix length of an address is that of the subnet mask it is, octet by octet.
pub proof fn prefix_len_is_that_of_mask(mask: Ipv4Address)
    ensures
        forall|n: u8| mask.prefix_len() == Some(n) <==> #[trigger] is_mask(mask, n as int),
        mask.prefix_len() is None <==> forall|n: u8| !#[trigger] is_mask(mask, n as int),
{
    assert forall|n: u8| mask.is_mask_of(n) == #[trigger] is_mask(mask, n as int) by {
        lemma_leading_bits(mask.0[0], n as int);
        lemma_leading_bits(mask.0[1], n - 8);
        lemma_leading_bits(mask.0[2], n - 16);
        lemma_leading_bits(mask.0[3], n - 24);
        if mask.is_mask_of(n) {
            lemma_bits_of_octet(mask, n, 0);
            lemma_bits_of_octet(mask, n, 1);
            lemma_bits_of_octet(mask, n, 2);
            lemma_bits_of_octet(mask, n, 3);
        } else if is_mask(mask, n as int) {
            assert forall|i: int| 0 <= i < 32 implies (#[trigger] mask.bit(i) <==> i < n) by {
                let q = i / 8;
                assert(q == 0 || q == 1 || q == 2 || q == 3);
                assert(bits_are_leading(mask.0[q], n - 8 * q));
            }
        }
    }
    assert forall|n: u8| mask.prefix_len() == Some(n) <==> #[trigger] is_mask(mask, n as int) by {
        if mask.prefix_len() == Some(n) {
            assert(mask.is_mask_of(n));
        }
        if is_mask(mask, n as int) {
            mask.lemma_prefix_len_unique(n);
        }
    }
    if mask.prefix_len() is Some {
        assert(is_mask(mask, mask.prefix_len()->0 as int));
    }
}

/// As a number, the subnet mask of a prefix of `n` bits falls short of the number of all addresses
/// by the number of addresses in a block, and no other address does so.
pub proof fn mask_falls_short_by_block_size(mask: Ipv4Address, n: u8)
    ensures
        mask.prefix_len() == Some(n) <==> (n <= 32 && 16777216 * mask.0[0] + 65536 * mask.0[1] + 256
            * mask.0[2] + mask.0[3] + pow2((32 - n) as nat) == 0x1_0000_0000),
{
    prefix_len_is_that_of_mask(mask);
    if n <= 32 {
        lemma2_to64();
        assert(is_mask(mask, n as int) <==> mask.prefix_len() == Some(n));
    }
}

/// Addresses and blocks are equal exactly if they are so octet by octet.
pub proof fn equality_is_by_octets(
    a: Ipv4Address,
    b: Ipv4Address,
    e: EthernetAddress,
    f: EthernetAddress,
    s: Ipv4Cidr,
    t: Ipv4Cidr,
)
    ensures
        a.eq_spec(&b) == (a.0@ =~= b.0@),
        e.eq_spec(&f) == (e.0@ =~= f.0@),
        s.eq_spec(&t) == (s.address.0@ =~= t.address.0@ && s.prefix_len == t.prefix_len),
{
    if a.0@ =~= b.0@ {
        assert(a.0 =~= b.0);
    }
    if e.0@ =~= f.0@ {
        assert(e.0 =~= f.0);
    }
    if s.address.0@ =~= t.address.0@ {
        assert(s.address.0 =~= t.address.0);
    }
}

/// An element of the options area of a packet: an octet of padding, or an option.
pub enum Item {
    Pad,
    Entry(RawOption),
}

/// Whether an element can be written down: the kind of an option is neither that of padding nor
/// that of the end marker, and its length fits an octet.
pub open spec fn is_writable(item: Item) -> bool {
    item matches Item::Entry(opt) ==> opt.kind != 0 && opt.kind != 255 && opt.data.len() <= 255
}

/// The octets of an element: a zero, or the kind, the length and the data of an option.
pub open spec fn item_octets(item: Item) -> Seq<u8> {
    match item {
        Item::Pad => seq![0u8],
        Item::Entry(opt) => seq![opt.kind, opt.data.len() as u8] + opt.data,
    }
}

/// The octets of a list of elements, one after the other.
pub open spec fn octets(items: Seq<Item>) -> Seq<u8>
    decreases items.len(),
{
    if items.len() == 0 {
        seq![]
    } else {
        octets(items.drop_last()) + item_octets(items.last())
    }
}

/// Whether an element is an option of a kind, of a given length if one is given.
pub open spec fn is_option(item: Item, kind: u8, len: Option<nat>) -> bool {
    item matches Item::Entry(opt) && opt.kind == kind && (len matches Some(n) ==> opt.data.len()
        == n)
}

/// Whether the element with index `i` is the last option of a kind and length.
pub open spec fn is_last(items: Seq<Item>, i: int, kind: u8, len: Option<nat>) -> bool {
    &&& 0 <= i < items.len()
    &&& is_option(items[i], kind, len)
    &&& forall|j: int| i < j < items.len() ==> !is_option(#[trigger] items[j], kind, len)
}

/// The data of the last option of a kind and length, if there is one.
pub open spec fn last(items: Seq<Item>, kind: u8, len: Option<nat>) -> Option<Seq<u8>> {
    if exists|i: int| is_last(items, i, kind, len) {
        Some((items[choose|i: int| is_last(items, i, kind, len)]->Entry_0).data)
    } else {
        None
    }
}

/// The message type that an octet stands for.
pub open spec fn type_of(octet: u8) -> DhcpMessageType {
    if octet == 1 {
        DhcpMessageType::Discover
    } else if octet == 2 {
        DhcpMessageType::Offer
    } else if octet == 3 {
        DhcpMessageType::Request
    } else if octet == 4 {
        DhcpMessageType::Decline
    } else if octet == 5 {
        DhcpMessageType::Ack
    } else if octet == 6 {
        DhcpMessageType::Nak
    } else if octet == 7 {
        DhcpMessageType::Release
    } else if octet == 8 {
        DhcpMessageType::Inform
    } else {
        DhcpMessageType::Unknown(octet)
    }
}

/// The operation code that goes with the octet of a message type: 2 for what servers send, 1 for
/// what clients send.
pub open spec fn operation_of(octet: u8) -> u8 {
    if octet == 2 || octet == 5 || octet == 6 {
        2
    } else if 1 <= octet <= 8 {
        1
    } else {
        0
    }
}

/// Whether an element gives a message type that goes with an operation code.
pub open spec fn is_type(item: Item, op: u8) -> bool {
    is_option(item, 53, Some(1)) && operation_of((item->Entry_0).data[0]) == op
}

/// Whether the element with index `i` is the last one to give a message type that goes with an
/// operation code.
pub open spec fn is_last_type(items: Seq<Item>, i: int, op: u8) -> bool {
    &&& 0 <= i < items.len()
    &&& is_type(items[i], op)
    &&& forall|j: int| i < j < items.len() ==> !is_type(#[trigger] items[j], op)
}

/// Whether an element names the client by a hardware address that is not one of Ethernet.
pub open spec fn is_foreign(item: Item) -> bool {
    is_option(item, 61, Some(7)) && (item->Entry_0).data[0] != 1
}

/// Whether octets are the start of a packet of an Ethernet client, up to the options.
pub open spec fn is_header(header: Seq<u8>) -> bool {
    &&& header.len() == 240
    &&& header[1] == 1
    &&& header[2] == 6
    &&& header[236] == 0x63
    &&& header[237] == 0x82
    &&& header[238] == 0x53
    &&& header[239] == 0x63
}

/// Whether octets are the start of an option that goes on past their end.
pub open spec fn is_cut_off(tail: Seq<u8>) -> bool {
    &&& tail.len() > 0
    &&& tail[0] != 0
    &&& tail[0] != 255
    &&& tail.len() == 1 || tail.len() < 2 + tail[1]
}

/// The options in a list of elements.
spec fn entries(items: Seq<Item>) -> Seq<RawOption>
    decreases items.len(),
{
    if items.len() == 0 {
        seq![]
    } else {
        match items.last() {
            Item::Pad => entries(items.drop_last()),
            Item::Entry(opt) => entries(items.drop_last()).push(opt),
        }
    }
}

proof fn lemma_options_of_octets(items: Seq<Item>, rest: Seq<u8>)
    requires
        forall|i: int| 0 <= i < items.len() ==> is_writable(#[trigger] items[i]),
    ensures
        options(octets(items) + rest) == entries(items) + options(rest),
        options_whole(octets(items) + rest) == options_whole(rest),
    decreases items.len(),
{
    if items.len() == 0 {
        assert(octets(items) + rest =~= rest);
    } else {
        let next = item_octets(items.last()) + rest;
        assert forall|i: int| 0 <= i < items.drop_last().len() implies is_writable(
            #[trigger] items.drop_last()[i],
        ) by {
            assert(is_writable(items[i]));
        }
        lemma_options_of_octets(items.drop_last(), next);
        assert(octets(items) + rest =~= octets(items.drop_last()) + next);
        assert(is_writable(items[items.len() - 1]));
        match items.last() {
            Item::Pad => {
                assert(next.skip(1) =~= rest);
            },
            Item::Entry(opt) => {
                assert(next[1] == opt.data.len());
                assert(next.subrange(2, 2 + next[1]) =~= opt.data);
                assert(next.skip(2 + next[1]) =~= rest);
                assert(options(next) =~= seq![opt] + options(rest));
            },
        }
        assert(options(octets(items) + rest) =~= entries(items) + options(rest));
    }
}

proof fn lemma_last_unique(items: Seq<Item>, i: int, kind: u8, len: Option<nat>)
    requires
        is_last(items, i, kind, len),
    ensures
        last(items, kind, len) == Some((items[i]->Entry_0).data),
{
    let j = choose|j: int| is_last(items, j, kind, len);
    assert(is_last(items, j, kind, len));
    assert(i == j) by {
        if i < j {
            assert(!is_option(items[j], kind, len));
        } else if j < i {
            assert(!is_option(items[i], kind, len));
        }
    }
}

proof fn lemma_last_of_entries(items: Seq<Item>, kind: u8, len: Option<nat>)
    ensures
        last(items, kind, len) == (match len {
            Some(n) => last_of(entries(items), kind, n),
            None => last_of_kind(entries(items), kind),
        }),
    decreases items.len(),
{
    if items.len() > 0 {
        let before = items.drop_last();
        let n = items.len() - 1;
        lemma_last_of_entries(before, kind, len);
        if items.last() is Entry {
            assert(entries(items).drop_last() =~= entries(before));
        }
        if is_option(items.last(), kind, len) {
            assert(is_last(items, n, kind, len));
            lemma_last_unique(items, n, kind, len);
        } else {
            assert forall|i: int|
                #![trigger is_last(items, i, kind, len)]
                #![trigger is_last(before, i, kind, len)]
                is_last(items, i, kind, len) == is_last(before, i, kind, len) by {
                if is_last(items, i, kind, len) {
                    assert forall|j: int| i < j < before.len() implies !is_option(
                        #[trigger] before[j],
                        kind,
                        len,
                    ) by {
                        assert(before[j] == items[j]);
                    }
                    assert(before[i] == items[i]);
                }
                if is_last(before, i, kind, len) {
                    assert forall|j: int| i < j < items.len() implies !is_option(
                        #[trigger] items[j],
                        kind,
                        len,
                    ) by {
                        if j < n {
                            assert(before[j] == items[j]);
                        }
                    }
                    assert(before[i] == items[i]);
                }
            }
            if exists|i: int| is_last(before, i, kind, len) {
                let i = choose|i: int| is_last(before, i, kind, len);
                assert(is_last(items, i, kind, len));
                lemma_last_unique(before, i, kind, len);
                lemma_last_unique(items, i, kind, len);
                assert(before[i] == items[i]);
            }
        }
    }
}

proof fn lemma_types_agree(octet: u8)
    ensures
        DhcpMessageType::decoded(octet) == type_of(octet),
        DhcpMessageType::decoded(octet).op_code() == operation_of(octet),
{
}

proof fn lemma_last_type_of_entries(items: Seq<Item>, op: u8)
    ensures
        forall|i: int| #[trigger]
            is_last_type(items, i, op) ==> last_message_type(entries(items), op) == Some(
                type_of((items[i]->Entry_0).data[0]),
            ),
        (forall|i: int| 0 <= i < items.len() ==> !is_type(#[trigger] items[i], op))
            ==> last_message_type(entries(items), op) is None,
    decreases items.len(),
{
    if items.len() > 0 {
        let before = items.drop_last();
        let n = items.len() - 1;
        lemma_last_type_of_entries(before, op);
        if items.last() is Entry {
            assert(entries(items).drop_last() =~= entries(before));
            lemma_types_agree((items.last()->Entry_0).data[0]);
        }
        assert forall|i: int| #[trigger] is_last_type(items, i, op) implies last_message_type(
            entries(items),
            op,
        ) == Some(type_of((items[i]->Entry_0).data[0])) by {
            if i < n {
                assert(!is_type(items[n], op));
                assert(before[i] == items[i]);
                assert forall|j: int| i < j < before.len() implies !is_type(
                    #[trigger] before[j],
                    op,
                ) by {
                    assert(before[j] == items[j]);
                }
                assert(is_last_type(before, i, op));
            }
        }
        if forall|i: int| 0 <= i < items.len() ==> !is_type(#[trigger] items[i], op) {
            assert(!is_type(items[n], op));
            assert forall|i: int| 0 <= i < before.len() implies !is_type(
                #[trigger] before[i],
                op,
            ) by {
                assert(before[i] == items[i]);
            }
        }
    }
}

proof fn lemma_foreign_entries(items: Seq<Item>)
    ensures
        (exists|i: int| 0 <= i < items.len() && is_foreign(#[trigger] items[i])) == (exists|i: int|
            0 <= i < entries(items).len() && is_foreign_client_id(#[trigger] entries(items)[i])),
    decreases items.len(),
{
    if items.len() > 0 {
        let before = items.drop_last();
        let n = items.len() - 1;
        lemma_foreign_entries(before);
        if exists|i: int| 0 <= i < items.len() && is_foreign(#[trigger] items[i]) {
            let i = choose|i: int| 0 <= i < items.len() && is_foreign(#[trigger] items[i]);
            if i < n {
                assert(is_foreign(before[i]));
                let k = choose|k: int|
                    0 <= k < entries(before).len() && is_foreign_client_id(
                        #[trigger] entries(before)[k],
                    );
                assert(entries(items)[k] == entries(before)[k]);
            } else {
                let k = entries(items).len() - 1;
                assert(is_foreign_client_id(entries(items)[k]));
            }
        }
        if exists|k: int|
            0 <= k < entries(items).len() && is_foreign_client_id(#[trigger] entries(items)[k]) {
            let k = choose|k: int|
                0 <= k < entries(items).len() && is_foreign_client_id(#[trigger] entries(items)[k]);
            if k < entries(before).len() {
                assert(is_foreign_client_id(entries(before)[k]));
                let i = choose|i: int| 0 <= i < before.len() && is_foreign(#[trigger] before[i]);
                assert(is_foreign(items[i]));
            } else {
                assert(is_foreign(items[n]));
            }
        }
    }
}

/// A packet that is a header, writable elements, and nothing more or an end marker with anything
/// behind it decodes to a message. The header gives the transaction id, the addresses and the
/// broadcast flag, each from its place. An option gives its field, the last one of its kind and
/// length if there are several, and a field without an option is empty. The message type is the
/// last one that goes with the operation code of the header.
pub proof fn packet_is_read(header: Seq<u8>, items: Seq<Item>, tail: Seq<u8>, typed: int)
    requires
        is_header(header),
        forall|i: int| 0 <= i < items.len() ==> is_writable(#[trigger] items[i]),
        forall|i: int| 0 <= i < items.len() ==> !is_foreign(#[trigger] items[i]),
        is_last_type(items, typed, header[0]),
        tail.len() == 0 || tail[0] == 255,
    ensures
        decoded(header + octets(items) + tail) matches Ok(m) && {
            &&& m.message_type == type_of((items[typed]->Entry_0).data[0])
            &&& m.transaction_id == 16777216 * header[4] + 65536 * header[5] + 256 * header[6]
                + header[7]
            &&& m.client_ip.0@ == header.subrange(12, 16)
            &&& m.your_ip.0@ == header.subrange(16, 20)
            &&& m.server_ip.0@ == header.subrange(20, 24)
            &&& m.relay_agent_ip.0@ == header.subrange(24, 28)
            &&& m.client_hardware_address.0@ == header.subrange(28, 34)
            &&& m.broadcast == (header[10] >= 128)
            &&& match m.subnet_mask {
                Some(address) => last(items, 1, Some(4)) == Some(address.0@),
                None => last(items, 1, Some(4)) is None,
            }
            &&& match m.router {
                Some(address) => last(items, 3, Some(4)) == Some(address.0@),
                None => last(items, 3, Some(4)) is None,
            }
            &&& match m.requested_ip {
                Some(address) => last(items, 50, Some(4)) == Some(address.0@),
                None => last(items, 50, Some(4)) is None,
            }
            &&& match m.server_identifier {
                Some(address) => last(items, 54, Some(4)) == Some(address.0@),
                None => last(items, 54, Some(4)) is None,
            }
            &&& match m.client_identifier {
                Some(address) => last(items, 61, Some(7)) == Some(seq![1u8] + address.0@),
                None => last(items, 61, Some(7)) is None,
            }
            &&& m.parameter_request_list == last(items, 55, None)
            &&& match m.lease_duration {
                Some(secs) => last(items, 51, Some(4)) matches Some(data) && secs == 16777216
                    * data[0] + 65536 * data[1] + 256 * data[2] + data[3],
                None => last(items, 51, Some(4)) is None,
            }
            &&& match m.max_size {
                Some(size) => last(items, 57, Some(2)) matches Some(data) && size == 256 * data[0]
                    + data[1],
                None => last(items, 57, Some(2)) is None,
            }
            &&& match m.dns_servers {
                Some(servers) => last(items, 6, None) matches Some(data) && forall|i: int|
                    0 <= i < 3 ==> match #[trigger] servers[i] {
                        Some(server) => data.len() >= 4 * (i + 1) && server.0@ == data.subrange(
                            4 * i,
                            4 * i + 4,
                        ),
                        None => data.len() < 4 * (i + 1),
                    },
                None => last(items, 6, None) is None,
            }
        },
{
    let packet = header + octets(items) + tail;
    assert(packet.skip(240) =~= octets(items) + tail);
    lemma_options_of_octets(items, tail);
    assert(options(packet.skip(240)) =~= entries(items));
    lemma_foreign_entries(items);
    lemma_last_type_of_entries(items, header[0]);
    assert forall|i: int| 0 <= i < 240 implies packet[i] == #[trigger] header[i] by {}
    assert forall|kind: u8, len: Option<nat>| #[trigger]
        last(items, kind, len) == (match len {
            Some(n) => last_of(entries(items), kind, n),
            None => last_of_kind(entries(items), kind),
        }) by {
        lemma_last_of_entries(items, kind, len);
    }
}

/// A packet is refused as truncated if it is too short for the header, or if its options, which
/// name no foreign client, end in the middle of one.
pub proof fn cut_packets_are_truncated(
    short: Seq<u8>,
    header: Seq<u8>,
    items: Seq<Item>,
    tail: Seq<u8>,
)
    requires
        short.len() < 240,
        is_header(header),
        forall|i: int| 0 <= i < items.len() ==> is_writable(#[trigger] items[i]),
        forall|i: int| 0 <= i < items.len() ==> !is_foreign(#[trigger] items[i]),
        is_cut_off(tail),
    ensures
        decoded(short) == Err::<DhcpMessage, Error>(Error::Truncated),
        decoded(header + octets(items) + tail) == Err::<DhcpMessage, Error>(Error::Truncated),
{
    let packet = header + octets(items) + tail;
    assert(packet.skip(240) =~= octets(items) + tail);
    lemma_options_of_octets(items, tail);
    assert(options(packet.skip(240)) =~= entries(items));
    lemma_foreign_entries(items);
    assert forall|i: int| 0 <= i < 240 implies packet[i] == #[trigger] header[i] by {}
}

/// A packet for other hardware than Ethernet is refused as unrecognized; one with another length
/// of hardware addresses or without the magic number is refused as malformed.
pub proof fn odd_headers_are_refused(packet: Seq<u8>)
    requires
        packet.len() >= 240,
    ensures
        packet[1] != 1 ==> decoded(packet) == Err::<DhcpMessage, Error>(Error::Unrecognized),
        packet[1] == 1 && !is_header(packet.take(240)) ==> decoded(packet) == Err::<
            DhcpMessage,
            Error,
        >(Error::Malformed),
{
}

/// A packet whose options name the client by foreign hardware is refused as unrecognized, whatever
/// comes behind them.
pub proof fn foreign_clients_are_unrecognized(
    header: Seq<u8>,
    items: Seq<Item>,
    foreign: int,
    tail: Seq<u8>,
)
    requires
        is_header(header),
        forall|i: int| 0 <= i < items.len() ==> is_writable(#[trigger] items[i]),
        0 <= foreign < items.len(),
        is_foreign(items[foreign]),
    ensures
        decoded(header + octets(items) + tail) == Err::<DhcpMessage, Error>(Error::Unrecognized),
{
    let packet = header + octets(items) + tail;
    assert(packet.skip(240) =~= octets(items) + tail);
    lemma_options_of_octets(items, tail);
    lemma_foreign_entries(items);
    let k = choose|k: int|
        0 <= k < entries(items).len() && is_foreign_client_id(#[trigger] entries(items)[k]);
    assert(options(packet.skip(240))[k] == entries(items)[k]);
    assert forall|i: int| 0 <= i < 240 implies packet[i] == #[trigger] header[i] by {}
}

/// A packet with whole options that give no message type for its operation code is refused as
/// malformed.
pub proof fn untyped_packets_are_malformed(header: Seq<u8>, items: Seq<Item>, tail: Seq<u8>)
    requires
        is_header(header),
        forall|i: int| 0 <= i < items.len() ==> is_writable(#[trigger] items[i]),
        forall|i: int| 0 <= i < items.len() ==> !is_foreign(#[trigger] items[i]),
        forall|i: int| 0 <= i < items.len() ==> !is_type(#[trigger] items[i], header[0]),
        tail.len() == 0 || tail[0] == 255,
    ensures
        decoded(header + octets(items) + tail) == Err::<DhcpMessage, Error>(Error::Malformed),
{
    let packet = header + octets(items) + tail;
    assert(packet.skip(240) =~= octets(items) + tail);
    lemma_options_of_octets(items, tail);
    assert(options(packet.skip(240)) =~= entries(items));
    lemma_foreign_entries(items);
    lemma_last_type_of_entries(items, header[0]);
    assert forall|i: int| 0 <= i < 240 implies packet[i] == #[trigger] header[i] by {}
}

/// A message type is read from its octet, and goes with the operation code of its sender.
pub proof fn message_types_are_octets(octet: u8)
    ensures
        DhcpMessageType::decoded(1) == DhcpMessageType::Discover,
        DhcpMessageType::decoded(2) == DhcpMessageType::Offer,
        DhcpMessageType::decoded(3) == DhcpMessageType::Request,
        DhcpMessageType::decoded(4) == DhcpMessageType::Decline,
        DhcpMessageType::decoded(5) == DhcpMessageType::Ack,
        DhcpMessageType::decoded(6) == DhcpMessageType::Nak,
        DhcpMessageType::decoded(7) == DhcpMessageType::Release,
        DhcpMessageType::decoded(8) == DhcpMessageType::Inform,
        octet == 0 || octet > 8 ==> DhcpMessageType::decoded(octet) == DhcpMessageType::Unknown(
            octet,
        ),
        DhcpMessageType::decoded(octet).op_code() == 2 <==> octet == 2 || octet == 5 || octet == 6,
        DhcpMessageType::decoded(octet).op_code() == 0 <==> octet == 0 || octet > 8,
        DhcpMessageType::decoded(octet).op_code() <= 2,
{
}

/// A packet has a whole header exactly if it has 240 octets, and what is parsed of it is what its
/// octets say.
pub proof fn packets_have_headers(packet: DhcpPacket<'_>)
    ensures
        packet.wf() == (packet@.len() >= 240),
        packet.wf() ==> decoded_packet(packet@) == decoded(packet@),
{
}

/// A parsed message says what its fields say.
pub proof fn fields_are_what_a_message_says(repr: DhcpRepr<'_>, e: Error)
    ensures
        repr@.message_type == repr.message_type,
        repr@.transaction_id == repr.transaction_id,
        repr@.client_hardware_address == repr.client_hardware_address,
        repr@.client_ip == repr.client_ip,
        repr@.your_ip == repr.your_ip,
        repr@.server_ip == repr.server_ip,
        repr@.router == repr.router,
        repr@.subnet_mask == repr.subnet_mask,
        repr@.relay_agent_ip == repr.relay_agent_ip,
        repr@.broadcast == repr.broadcast,
        repr@.requested_ip == repr.requested_ip,
        repr@.client_identifier == repr.client_identifier,
        repr@.server_identifier == repr.server_identifier,
        repr.parameter_request_list matches Some(list) ==> repr@.parameter_request_list == Some(
            list@,
        ),
        repr.parameter_request_list is None ==> repr@.parameter_request_list is None,
        repr@.max_size == repr.max_size,
        repr@.lease_duration == repr.lease_duration,
        repr@.dns_servers == repr.dns_servers,
        parse_outcome(Ok(repr)) == Ok::<DhcpMessage, Error>(repr@),
        parse_outcome(Err(e)) == Err::<DhcpMessage, Error>(e),
{
}

/// The elements that an option with a given kind and length takes: one, or none if there is no
/// value for it.
pub open spec fn slots<T>(value: Option<T>, kind: u8, len: int) -> Seq<Item> {
    match value {
        Some(_) => seq![Item::Entry(RawOption { kind, data: Seq::new(len as nat, |i: int| 0u8) })],
        None => seq![],
    }
}

/// The number of servers that a list of three holds.
pub open spec fn servers_in(servers: [Option<Ipv4Address>; 3]) -> int {
    servers@.filter(|server: Option<Ipv4Address>| server is Some).len() as int
}

/// Elements of the kinds and lengths that the options of a message have.
pub open spec fn option_slots(m: DhcpMessage) -> Seq<Item> {
    slots(Some(m.message_type), 53, 1) + slots(m.requested_ip, 50, 4) + slots(
        m.client_identifier,
        61,
        7,
    ) + slots(m.server_identifier, 54, 4) + slots(m.max_size, 57, 2) + slots(m.router, 3, 4)
        + slots(m.subnet_mask, 1, 4) + slots(m.lease_duration, 51, 4) + slots(
        m.dns_servers,
        6,
        4 * servers_in(m.dns_servers->0),
    ) + slots(m.parameter_request_list, 55, (m.parameter_request_list->0).len() as int)
}

proof fn lemma_octets_add(a: Seq<Item>, b: Seq<Item>)
    ensures
        octets(a + b).len() == octets(a).len() + octets(b).len(),
    decreases b.len(),
{
    if b.len() == 0 {
        assert(a + b =~= a);
    } else {
        assert((a + b).drop_last() =~= a + b.drop_last());
        lemma_octets_add(a, b.drop_last());
    }
}

proof fn lemma_slots_len<T>(value: Option<T>, kind: u8, len: int)
    requires
        0 <= len,
    ensures
        octets(slots(value, kind, len)).len() == field_len(value, 2 + len),
{
    if value is Some {
        let items = slots(value, kind, len);
        assert(octets(items.drop_last()) =~= seq![]);
    }
}

proof fn lemma_servers_in(servers: [Option<Ipv4Address>; 3])
    ensures
        4 * servers_in(servers) == servers_len(servers),
{
    reveal_with_fuel(Seq::filter, 4);
    let s = servers@;
    assert(s.drop_last() =~= seq![s[0], s[1]]);
    assert(s.drop_last().drop_last() =~= seq![s[0]]);
    assert(s.drop_last().drop_last().drop_last() =~= seq![]);
}

/// The length of a message is that of its packet: the header, its options as they are written
/// down, and the end marker.
pub proof fn length_counts_the_octets(m: DhcpMessage)
    ensures
        m.encoded_len() == 240 + octets(option_slots(m)).len() + 1,
        UDP_HEADER_LEN == 8,
{
    lemma_slots_len(Some(m.message_type), 53, 1);
    lemma_slots_len(m.requested_ip, 50, 4);
    lemma_slots_len(m.client_identifier, 61, 7);
    lemma_slots_len(m.server_identifier, 54, 4);
    lemma_slots_len(m.max_size, 57, 2);
    lemma_slots_len(m.router, 3, 4);
    lemma_slots_len(m.subnet_mask, 1, 4);
    lemma_slots_len(m.lease_duration, 51, 4);
    lemma_servers_in(m.dns_servers->0);
    lemma_slots_len(m.dns_servers, 6, 4 * servers_in(m.dns_servers->0));
    lemma_slots_len(
        m.parameter_request_list,
        55,
        (m.parameter_request_list->0).len() as int,
    );
    let s1 = slots(Some(m.message_type), 53, 1);
    let s2 = s1 + slots(m.requested_ip, 50, 4);
    let s3 = s2 + slots(m.client_identifier, 61, 7);
    let s4 = s3 + slots(m.server_identifier, 54, 4);
    let s5 = s4 + slots(m.max_size, 57, 2);
    let s6 = s5 + slots(m.router, 3, 4);
    let s7 = s6 + slots(m.subnet_mask, 1, 4);
    let s8 = s7 + slots(m.lease_duration, 51, 4);
    let s9 = s8 + slots(m.dns_servers, 6, 4 * servers_in(m.dns_servers->0));
    lemma_octets_add(s1, slots(m.requested_ip, 50, 4));
    lemma_octets_add(s2, slots(m.client_identifier, 61, 7));
    lemma_octets_add(s3, slots(m.server_identifier, 54, 4));
    lemma_octets_add(s4, slots(m.max_size, 57, 2));
    lemma_octets_add(s5, slots(m.router, 3, 4));
    lemma_octets_add(s6, slots(m.subnet_mask, 1, 4));
    lemma_octets_add(s7, slots(m.lease_duration, 51, 4));
    lemma_octets_add(s8, slots(m.dns_servers, 6, 4 * servers_in(m.dns_servers->0)));
    lemma_octets_add(
        s9,
        slots(m.parameter_request_list, 55, (m.parameter_request_list->0).len() as int),
    );
}

} // verus!
