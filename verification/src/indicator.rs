//! A parsed frame as an ordered stack of protocol layers: a link layer,
//! an optional network layer the link layer's tag identifies, and a slot
//! reserved for a transport layer.

use vstd::prelude::*;
use vstd::assert_seqs_equal;
use vstd::slice::{slice_subrange, slice_to_vec};
use crate::addr::{Ipv4Address, MacAddr};
use crate::layer::{
    arp_bytes, ethernet_bytes, layer_bytes, u16_of, Arp, Ethernet, Ipv4, Layer, LayerType,
    SerializeError, ARP_SIZE, ETHERNET_SIZE, ETHERTYPE_ARP, ETHERTYPE_IPV4,
};

verus! {

/// The layers a frame may stand for once parsed, link first.
pub struct Indicator {
    pub link: Layer,
    pub network: Option<Layer>,
    pub transport: Option<Layer>,
}

/// Cross-layer consistency: the link layer is Ethernet, its protocol tag
/// identifies the network layer present, and a transport layer never stands
/// without a network layer.
pub open spec fn consistent(link: Layer, network: Option<Layer>, transport: Option<Layer>) -> bool {
    &&& link is Ethernet
    &&& match network {
        Some(Layer::Ethernet(_)) => false,
        Some(Layer::Arp(_)) => link->Ethernet_0.ethertype == ETHERTYPE_ARP,
        Some(Layer::Ipv4(_)) => link->Ethernet_0.ethertype == ETHERTYPE_IPV4,
        None => true,
    }
    &&& transport is Some ==> network is Some
}

/// The Ethernet header read from the first 14 bytes of a frame.
pub open spec fn spec_link_of(raw: Seq<u8>) -> Ethernet {
    Ethernet {
        dst: MacAddr {
            o0: raw[0],
            o1: raw[1],
            o2: raw[2],
            o3: raw[3],
            o4: raw[4],
            o5: raw[5],
        },
        src: MacAddr {
            o0: raw[6],
            o1: raw[7],
            o2: raw[8],
            o3: raw[9],
            o4: raw[10],
            o5: raw[11],
        },
        ethertype: u16_of(raw[12], raw[13]),
    }
}

/// Whether the bytes after the Ethernet header carry a whole ARP message
/// over Ethernet/IPv4: long enough, with the fixed type and length fields.
pub open spec fn spec_arp_header_ok(raw: Seq<u8>) -> bool {
    &&& raw.len() >= ETHERNET_SIZE + ARP_SIZE
    &&& raw[14] == 0u8
    &&& raw[15] == 1u8
    &&& raw[16] == 8u8
    &&& raw[17] == 0u8
    &&& raw[18] == 6u8
    &&& raw[19] == 4u8
}

/// The ARP message read from the 28 bytes after the Ethernet header.
pub open spec fn spec_arp_of(raw: Seq<u8>) -> Arp {
    Arp {
        op: u16_of(raw[20], raw[21]),
        sha: MacAddr {
            o0: raw[22],
            o1: raw[23],
            o2: raw[24],
            o3: raw[25],
            o4: raw[26],
            o5: raw[27],
        },
        spa: Ipv4Address { o0: raw[28], o1: raw[29], o2: raw[30], o3: raw[31] },
        tha: MacAddr {
            o0: raw[32],
            o1: raw[33],
            o2: raw[34],
            o3: raw[35],
            o4: raw[36],
            o5: raw[37],
        },
        tpa: Ipv4Address { o0: raw[38], o1: raw[39], o2: raw[40], o3: raw[41] },
    }
}

/// Whether a raw frame decodes into a layer stack: a link layer must fit,
/// and a link layer that announces ARP must be followed by a whole ARP
/// message. Anything else is dropped, not an error.
pub open spec fn spec_parse_ok(raw: Seq<u8>) -> bool {
    &&& raw.len() >= ETHERNET_SIZE
    &&& (spec_link_of(raw).ethertype == ETHERTYPE_ARP ==> spec_arp_header_ok(raw))
}

impl Indicator {
    /// The concatenated wire form of the present layers, link first.
    pub open spec fn spec_bytes(self) -> Seq<u8> {
        layer_bytes(self.link) + (match self.network {
            Some(n) => layer_bytes(n),
            None => Seq::<u8>::empty(),
        }) + (match self.transport {
            Some(t) => layer_bytes(t),
            None => Seq::<u8>::empty(),
        })
    }

    /// The total wire size: the sum of the present layers' sizes.
    pub open spec fn spec_size(self) -> nat {
        self.spec_bytes().len()
    }

    pub open spec fn wf(self) -> bool {
        &&& consistent(self.link, self.network, self.transport)
        &&& self.spec_size() <= usize::MAX
    }

    /// Combines owned layers into a stack, cross-checking that the link
    /// layer's protocol tag matches the network layer handed in.
    pub fn new(link: Layer, network: Option<Layer>, transport: Option<Layer>) -> (r: Indicator)
        requires
            consistent(link, network, transport),
            layer_bytes(link).len() + (match network {
                Some(n) => layer_bytes(n).len(),
                None => 0,
            }) + (match transport {
                Some(t) => layer_bytes(t).len(),
                None => 0,
            }) <= usize::MAX,
        ensures
            r == (Indicator { link, network, transport }),
            r.wf(),
    {
        Indicator { link, network, transport }
    }

    /// The classified network layer's type, or nothing when the frame has
    /// no recognized network layer.
    pub open spec fn spec_network_type(self) -> Option<LayerType> {
        match self.network {
            Some(n) => Some(n.spec_layer_type()),
            None => None,
        }
    }

    pub fn get_network_type(&self) -> (r: Option<LayerType>)
        ensures
            r == self.spec_network_type(),
    {
        match &self.network {
            Some(n) => Some(n.layer_type()),
            None => None,
        }
    }

    /// The network layer as an ARP message, when that is its type.
    pub fn get_arp(&self) -> (r: Option<&Arp>)
        ensures
            r is Some <==> self.network matches Some(Layer::Arp(_)),
            r matches Some(a) ==> self.network matches Some(Layer::Arp(b)) && *a == b,
    {
        match &self.network {
            Some(Layer::Arp(a)) => Some(a),
            _ => None,
        }
    }

    /// The total wire size of the stack.
    pub fn get_size(&self) -> (r: usize)
        requires
            self.spec_size() <= usize::MAX,
        ensures
            r == self.spec_size(),
    {
        let mut size = self.link.size();
        if let Some(n) = &self.network {
            size = size + n.size();
        }
        if let Some(t) = &self.transport {
            size = size + t.size();
        }
        size
    }

    /// Writes the present layers contiguously at the start of `buffer`,
    /// leaving the remainder untouched; fails without writing when the
    /// buffer cannot hold the whole stack.
    pub fn serialize(&self, buffer: &mut Vec<u8>) -> (r: Result<(), SerializeError>)
        ensures
            r is Ok <==> old(buffer).len() >= self.spec_size(),
            r is Ok ==> final(buffer)@ == self.spec_bytes() + old(buffer)@.skip(
                self.spec_size() as int,
            ),
            r is Err ==> final(buffer)@ == old(buffer)@ && r == Err::<(), SerializeError>(
                SerializeError::BufferTooSmall,
            ),
    {
        let link_size = self.link.size();
        if buffer.len() < link_size {
            return Err(SerializeError::BufferTooSmall);
        }
        let network_size = match &self.network {
            Some(n) => n.size(),
            None => 0,
        };
        if network_size > buffer.len() - link_size {
            return Err(SerializeError::BufferTooSmall);
        }
        let transport_size = match &self.transport {
            Some(t) => t.size(),
            None => 0,
        };
        if transport_size > buffer.len() - link_size - network_size {
            return Err(SerializeError::BufferTooSmall);
        }
        self.link.serialize_at(buffer, 0);
        if let Some(n) = &self.network {
            n.serialize_at(buffer, link_size);
        }
        if let Some(t) = &self.transport {
            t.serialize_at(buffer, link_size + network_size);
        }
        proof {
            assert_seqs_equal!(
                buffer@ == self.spec_bytes() + old(buffer)@.skip(self.spec_size() as int)
            );
        }
        Ok(())
    }

    /// Decodes a raw frame: the Ethernet link layer first, then the network
    /// layer its protocol tag identifies. A malformed or unsupported frame
    /// yields nothing rather than an error, so arbitrary wire noise is
    /// silently dropped.
    pub fn parse(raw: &[u8]) -> (r: Option<Indicator>)
        ensures
            r is Some <==> spec_parse_ok(raw@),
            r matches Some(i) ==> {
                &&& i.wf()
                &&& i.link == Layer::Ethernet(spec_link_of(raw@))
                &&& i.transport is None
                &&& (spec_link_of(raw@).ethertype == ETHERTYPE_ARP ==> i.network == Some(
                    Layer::Arp(spec_arp_of(raw@)),
                ))
                &&& (spec_link_of(raw@).ethertype == ETHERTYPE_IPV4 ==> (i.network matches Some(
                    Layer::Ipv4(p),
                ) && p.data@ == raw@.skip(ETHERNET_SIZE as int)))
                &&& (spec_link_of(raw@).ethertype != ETHERTYPE_ARP && spec_link_of(raw@).ethertype
                    != ETHERTYPE_IPV4 ==> i.network is None)
            },
    {
        if raw.len() < ETHERNET_SIZE {
            return None;
        }
        let dst = MacAddr::new(raw[0], raw[1], raw[2], raw[3], raw[4], raw[5]);
        let src = MacAddr::new(raw[6], raw[7], raw[8], raw[9], raw[10], raw[11]);
        let ethertype: u16 = (raw[12] as u16) * 256 + (raw[13] as u16);
        let link = Ethernet { dst, src, ethertype };
        if ethertype == ETHERTYPE_ARP {
            if raw.len() < ETHERNET_SIZE + ARP_SIZE {
                return None;
            }
            if raw[14] != 0 || raw[15] != 1 || raw[16] != 8 || raw[17] != 0 || raw[18] != 6
                || raw[19] != 4 {
                return None;
            }
            let op: u16 = (raw[20] as u16) * 256 + (raw[21] as u16);
            let sha = MacAddr::new(raw[22], raw[23], raw[24], raw[25], raw[26], raw[27]);
            let spa = Ipv4Address::new(raw[28], raw[29], raw[30], raw[31]);
            let tha = MacAddr::new(raw[32], raw[33], raw[34], raw[35], raw[36], raw[37]);
            let tpa = Ipv4Address::new(raw[38], raw[39], raw[40], raw[41]);
            let arp = Arp { op, sha, spa, tha, tpa };
            Some(
                Indicator {
                    link: Layer::Ethernet(link),
                    network: Some(Layer::Arp(arp)),
                    transport: None,
                },
            )
        } else if ethertype == ETHERTYPE_IPV4 {
            let rest = slice_subrange(raw, ETHERNET_SIZE, raw.len());
            let data = slice_to_vec(rest);
            Some(
                Indicator {
                    link: Layer::Ethernet(link),
                    network: Some(Layer::Ipv4(Ipv4 { data })),
                    transport: None,
                },
            )
        } else {
            Some(Indicator { link: Layer::Ethernet(link), network: None, transport: None })
        }
    }
}

/// Round trip: serializing a well-formed Ethernet+ARP stack yields a byte
/// sequence that parses back to a stack with identical field values and
/// identical total size.
pub proof fn lemma_arp_round_trip(i: Indicator)
    requires
        i.wf(),
        i.network matches Some(Layer::Arp(_)),
        i.transport is None,
    ensures
        spec_parse_ok(i.spec_bytes()),
        Layer::Ethernet(spec_link_of(i.spec_bytes())) == i.link,
        Some(Layer::Arp(spec_arp_of(i.spec_bytes()))) == i.network,
        i.spec_bytes().len() == i.spec_size(),
{
    let e = i.link->Ethernet_0;
    let a = i.network->0->Arp_0;
    let b = i.spec_bytes();
    assert(b =~= ethernet_bytes(e) + arp_bytes(a));
    crate::layer::lemma_be16_round_trip(e.ethertype);
    crate::layer::lemma_be16_round_trip(a.op);
    assert(spec_link_of(b) == e);
    assert(spec_arp_of(b) == a);
    assert(i.link == Layer::Ethernet(e));
    assert(i.network == Some(Layer::Arp(a)));
}

} // verus!
