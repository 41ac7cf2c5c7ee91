//! The closed set of protocol layers the relay understands, each with its
//! exact wire form: Ethernet and ARP are modeled field by field; an IPv4
//! frame is classified and carried, never deeply parsed.

use vstd::prelude::*;
use vstd::assert_seqs_equal;
use crate::addr::{Ipv4Address, MacAddr};

verus! {

pub const ETHERTYPE_IPV4: u16 = 0x0800;
pub const ETHERTYPE_ARP: u16 = 0x0806;
pub const ARP_HTYPE_ETHERNET: u16 = 1;
pub const ARP_HLEN_ETHERNET: u8 = 6;
pub const ARP_PLEN_IPV4: u8 = 4;
pub const ARP_OP_REQUEST: u16 = 1;
pub const ARP_OP_REPLY: u16 = 2;
pub const ETHERNET_SIZE: usize = 14;
pub const ARP_SIZE: usize = 28;

/// The two bytes of `x` in network (big-endian) order.
pub open spec fn be16(x: u16) -> Seq<u8> {
    seq![(x / 256) as u8, (x % 256) as u8]
}

/// The 16-bit value read from two bytes in network order.
pub open spec fn u16_of(hi: u8, lo: u8) -> u16 {
    (hi * 256 + lo) as u16
}

pub proof fn lemma_be16_round_trip(x: u16)
    ensures
        u16_of(be16(x)[0], be16(x)[1]) == x,
{
}

/// Failure of a serialization routine: the caller's buffer cannot hold the
/// layer's wire form.
#[derive(Clone, Copy, PartialEq, Eq, Structural, Debug)]
pub enum SerializeError {
    BufferTooSmall,
}

/// The discriminant of a layer, usable for dispatch without matching on the
/// full variant.
#[derive(Clone, Copy, PartialEq, Eq, Structural, Debug)]
pub enum LayerType {
    Ethernet,
    Arp,
    Ipv4,
}

/// An Ethernet II header: destination, source, and the tag of the
/// encapsulated protocol.
#[derive(Clone, Copy, PartialEq, Eq, Structural, Debug)]
pub struct Ethernet {
    pub dst: MacAddr,
    pub src: MacAddr,
    pub ethertype: u16,
}

/// The 14-byte wire form of an Ethernet header.
pub open spec fn ethernet_bytes(e: Ethernet) -> Seq<u8> {
    e.dst@ + e.src@ + be16(e.ethertype)
}

impl Ethernet {
    pub fn new(ethertype: u16, src: MacAddr, dst: MacAddr) -> (r: Ethernet)
        ensures
            r == (Ethernet { dst, src, ethertype }),
    {
        Ethernet { dst, src, ethertype }
    }
}

/// An ARP message over Ethernet/IPv4. The hardware/protocol type and length
/// fields are fixed for that pairing and are not stored.
#[derive(Clone, Copy, PartialEq, Eq, Structural, Debug)]
pub struct Arp {
    pub op: u16,
    pub sha: MacAddr,
    pub spa: Ipv4Address,
    pub tha: MacAddr,
    pub tpa: Ipv4Address,
}

/// The 28-byte wire form of an ARP message over Ethernet/IPv4.
pub open spec fn arp_bytes(a: Arp) -> Seq<u8> {
    be16(ARP_HTYPE_ETHERNET) + be16(ETHERTYPE_IPV4) + seq![ARP_HLEN_ETHERNET, ARP_PLEN_IPV4]
        + be16(a.op) + a.sha@ + a.spa@ + a.tha@ + a.tpa@
}

impl Arp {
    pub fn new(op: u16, sha: MacAddr, spa: Ipv4Address, tha: MacAddr, tpa: Ipv4Address) -> (r:
        Arp)
        ensures
            r == (Arp { op, sha, spa, tha, tpa }),
    {
        Arp { op, sha, spa, tha, tpa }
    }

    /// The tag under which an Ethernet header announces an ARP payload.
    pub fn get_type(&self) -> (r: u16)
        ensures
            r == ETHERTYPE_ARP,
    {
        ETHERTYPE_ARP
    }

    pub fn get_src_hardware_addr(&self) -> (r: MacAddr)
        ensures
            r == self.sha,
    {
        self.sha
    }

    pub fn get_dst_hardware_addr(&self) -> (r: MacAddr)
        ensures
            r == self.tha,
    {
        self.tha
    }

    /// Whether this message is a request asking, on behalf of `sender`, who
    /// owns `target`.
    pub open spec fn spec_is_request_of(self, sender: Ipv4Address, target: Ipv4Address) -> bool {
        self.op == ARP_OP_REQUEST && self.spa == sender && self.tpa == target
    }

    pub fn is_request_of(&self, sender: Ipv4Address, target: Ipv4Address) -> (r: bool)
        ensures
            r == self.spec_is_request_of(sender, target),
    {
        self.op == ARP_OP_REQUEST && self.spa == sender && self.tpa == target
    }

    /// The full role swap of the ARP reply convention: the replying side
    /// claims the requested protocol address with its own hardware address,
    /// and the original sender becomes the target.
    pub open spec fn spec_reply(self, hardware_addr: MacAddr) -> Arp {
        Arp {
            op: ARP_OP_REPLY,
            sha: hardware_addr,
            spa: self.tpa,
            tha: self.sha,
            tpa: self.spa,
        }
    }

    pub fn reply(&self, hardware_addr: MacAddr) -> (r: Arp)
        ensures
            r == self.spec_reply(hardware_addr),
    {
        Arp {
            op: ARP_OP_REPLY,
            sha: hardware_addr,
            spa: self.tpa,
            tha: self.sha,
            tpa: self.spa,
        }
    }
}

/// ARP reply correctness: for any request with sender pair (SHA, SPA) and
/// target protocol address TPA, the reply built for hardware address H
/// carries the sender pair (H, TPA) and the target pair (SHA, SPA), with
/// the operation set to reply.
pub proof fn lemma_reply_role_swap(a: Arp, h: MacAddr)
    ensures
        a.spec_reply(h).op == ARP_OP_REPLY,
        a.spec_reply(h).sha == h,
        a.spec_reply(h).spa == a.tpa,
        a.spec_reply(h).tha == a.sha,
        a.spec_reply(h).tpa == a.spa,
{
}

/// An IPv4 frame: classified by the link layer's tag but intentionally not
/// acted upon, so its bytes are carried as they arrived.
#[derive(Debug)]
pub struct Ipv4 {
    pub data: Vec<u8>,
}

/// One protocol layer of a parsed frame.
#[derive(Debug)]
pub enum Layer {
    Ethernet(Ethernet),
    Arp(Arp),
    Ipv4(Ipv4),
}

/// The exact wire form of a layer.
pub open spec fn layer_bytes(l: Layer) -> Seq<u8> {
    match l {
        Layer::Ethernet(e) => ethernet_bytes(e),
        Layer::Arp(a) => arp_bytes(a),
        Layer::Ipv4(p) => p.data@,
    }
}

impl Layer {
    pub open spec fn spec_size(self) -> nat {
        layer_bytes(self).len()
    }

    pub open spec fn spec_layer_type(self) -> LayerType {
        match self {
            Layer::Ethernet(_) => LayerType::Ethernet,
            Layer::Arp(_) => LayerType::Arp,
            Layer::Ipv4(_) => LayerType::Ipv4,
        }
    }

    pub fn layer_type(&self) -> (r: LayerType)
        ensures
            r == self.spec_layer_type(),
    {
        match self {
            Layer::Ethernet(_) => LayerType::Ethernet,
            Layer::Arp(_) => LayerType::Arp,
            Layer::Ipv4(_) => LayerType::Ipv4,
        }
    }

    /// The exact wire length of this layer.
    pub fn size(&self) -> (r: usize)
        ensures
            r == self.spec_size(),
    {
        match self {
            Layer::Ethernet(_) => ETHERNET_SIZE,
            Layer::Arp(_) => ARP_SIZE,
            Layer::Ipv4(p) => p.data.len(),
        }
    }

    /// Writes this layer's wire form at the start of `buffer`, leaving the
    /// remainder untouched; fails without writing when the buffer is too
    /// small.
    pub fn serialize(&self, buffer: &mut Vec<u8>) -> (r: Result<(), SerializeError>)
        ensures
            r is Ok <==> old(buffer).len() >= self.spec_size(),
            r is Ok ==> final(buffer)@ == layer_bytes(*self) + old(buffer)@.skip(self.spec_size() as int),
            r is Err ==> final(buffer)@ == old(buffer)@ && r == Err::<(), SerializeError>(
                SerializeError::BufferTooSmall,
            ),
    {
        let size = self.size();
        if buffer.len() < size {
            return Err(SerializeError::BufferTooSmall);
        }
        self.serialize_at(buffer, 0);
        proof {
            assert(buffer@ == layer_bytes(*self) + old(buffer)@.skip(self.spec_size() as int));
        }
        Ok(())
    }

    /// Writes this layer's wire form into `buffer` at `pos`, leaving every
    /// other byte as it was.
    pub(crate) fn serialize_at(&self, buffer: &mut Vec<u8>, pos: usize)
        requires
            pos + self.spec_size() <= old(buffer).len(),
        ensures
            final(buffer)@ == old(buffer)@.take(pos as int) + layer_bytes(*self) + old(buffer)@.skip(
                pos + self.spec_size(),
            ),
    {
        match self {
            Layer::Ethernet(e) => write_ethernet_at(buffer, pos, e),
            Layer::Arp(a) => write_arp_at(buffer, pos, a),
            Layer::Ipv4(p) => write_payload_at(buffer, pos, &p.data),
        }
    }
}

/// Writes `x` in network order at `buffer[pos..pos + 2]`.
fn write_u16_at(buffer: &mut Vec<u8>, pos: usize, x: u16)
    requires
        pos + 2 <= old(buffer).len(),
    ensures
        final(buffer)@ == old(buffer)@.take(pos as int) + be16(x) + old(buffer)@.skip(pos + 2),
{
    let hi: u8 = (x / 256) as u8;
    let lo: u8 = (x % 256) as u8;
    buffer.set(pos, hi);
    buffer.set(pos + 1, lo);
    proof {
        assert_seqs_equal!(
            final(buffer)@ == old(buffer)@.take(pos as int) + be16(x) + old(buffer)@.skip(pos + 2)
        );
    }
}

/// Writes the six octets of `m` at `buffer[pos..pos + 6]`.
fn write_mac_at(buffer: &mut Vec<u8>, pos: usize, m: &MacAddr)
    requires
        pos + 6 <= old(buffer).len(),
    ensures
        final(buffer)@ == old(buffer)@.take(pos as int) + m@ + old(buffer)@.skip(pos + 6),
{
    buffer.set(pos, m.o0);
    buffer.set(pos + 1, m.o1);
    buffer.set(pos + 2, m.o2);
    buffer.set(pos + 3, m.o3);
    buffer.set(pos + 4, m.o4);
    buffer.set(pos + 5, m.o5);
    proof {
        assert_seqs_equal!(
            final(buffer)@ == old(buffer)@.take(pos as int) + m@ + old(buffer)@.skip(pos + 6)
        );
    }
}

/// Writes the four octets of `a` at `buffer[pos..pos + 4]`.
fn write_ipv4_addr_at(buffer: &mut Vec<u8>, pos: usize, a: &Ipv4Address)
    requires
        pos + 4 <= old(buffer).len(),
    ensures
        final(buffer)@ == old(buffer)@.take(pos as int) + a@ + old(buffer)@.skip(pos + 4),
{
    buffer.set(pos, a.o0);
    buffer.set(pos + 1, a.o1);
    buffer.set(pos + 2, a.o2);
    buffer.set(pos + 3, a.o3);
    proof {
        assert_seqs_equal!(
            final(buffer)@ == old(buffer)@.take(pos as int) + a@ + old(buffer)@.skip(pos + 4)
        );
    }
}

/// Writes an Ethernet header at `buffer[pos..pos + 14]`.
fn write_ethernet_at(buffer: &mut Vec<u8>, pos: usize, e: &Ethernet)
    requires
        pos + ETHERNET_SIZE <= old(buffer).len(),
    ensures
        final(buffer)@ == old(buffer)@.take(pos as int) + ethernet_bytes(*e) + old(buffer)@.skip(
            pos + ETHERNET_SIZE,
        ),
{
    write_mac_at(buffer, pos, &e.dst);
    write_mac_at(buffer, pos + 6, &e.src);
    write_u16_at(buffer, pos + 12, e.ethertype);
    proof {
        assert_seqs_equal!(
            final(buffer)@ == old(buffer)@.take(pos as int) + ethernet_bytes(*e)
                + old(buffer)@.skip(pos + ETHERNET_SIZE)
        );
    }
}

/// Writes an ARP message at `buffer[pos..pos + 28]`, fixed fields included.
#[verifier::rlimit(60)]
fn write_arp_at(buffer: &mut Vec<u8>, pos: usize, a: &Arp)
    requires
        pos + ARP_SIZE <= old(buffer).len(),
    ensures
        final(buffer)@ == old(buffer)@.take(pos as int) + arp_bytes(*a) + old(buffer)@.skip(
            pos + ARP_SIZE,
        ),
{
    write_u16_at(buffer, pos, ARP_HTYPE_ETHERNET);
    write_u16_at(buffer, pos + 2, ETHERTYPE_IPV4);
    buffer.set(pos + 4, ARP_HLEN_ETHERNET);
    buffer.set(pos + 5, ARP_PLEN_IPV4);
    write_u16_at(buffer, pos + 6, a.op);
    write_mac_at(buffer, pos + 8, &a.sha);
    write_ipv4_addr_at(buffer, pos + 14, &a.spa);
    write_mac_at(buffer, pos + 18, &a.tha);
    write_ipv4_addr_at(buffer, pos + 24, &a.tpa);
    proof {
        assert_seqs_equal!(
            final(buffer)@ == old(buffer)@.take(pos as int) + arp_bytes(*a)
                + old(buffer)@.skip(pos + ARP_SIZE)
        );
    }
}

/// Copies `data` to `buffer[pos..pos + data.len()]`.
fn write_payload_at(buffer: &mut Vec<u8>, pos: usize, data: &Vec<u8>)
    requires
        pos + data@.len() <= old(buffer).len(),
    ensures
        final(buffer)@ == old(buffer)@.take(pos as int) + data@ + old(buffer)@.skip(pos + data@.len()),
{
    let n = data.len();
    let mut k: usize = 0;
    while k < n
        invariant
            n == data@.len(),
            pos + n <= old(buffer).len(),
            k <= n,
            buffer@.len() == old(buffer)@.len(),
            forall|i: int| 0 <= i < pos ==> buffer@[i] == old(buffer)@[i],
            forall|i: int| 0 <= i < k ==> buffer@[pos + i] == data@[i],
            forall|i: int| pos + k <= i < buffer@.len() ==> buffer@[i] == old(buffer)@[i],
        decreases n - k,
    {
        buffer.set(pos + k, data[k]);
        k = k + 1;
    }
    proof {
        assert_seqs_equal!(
            final(buffer)@ == old(buffer)@.take(pos as int) + data@ + old(buffer)@.skip(pos + data@.len())
        );
    }
}

} // verus!
