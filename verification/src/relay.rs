//! The relay engine's per-frame decisions: classify a captured frame and,
//! for an ARP request that asks about the published address on behalf of
//! the configured source host, synthesize the forged reply frame.
//!
//! The engine is purely reactive: each decision is a function of the static
//! configuration and one received event, and the surrounding capture loop
//! only performs what the decision says.

use vstd::prelude::*;
use crate::addr::{Ipv4Address, MacAddr, SocketV4};
use crate::indicator::{spec_arp_of, spec_link_of, spec_parse_ok, Indicator};
use crate::layer::{arp_bytes, ethernet_bytes, Arp, Ethernet, Layer, LayerType, ETHERTYPE_ARP};

verus! {

/// The engine's static configuration: its interface's hardware address, the
/// IPv4 address it impersonates (none disables impersonation), the host it
/// answers on behalf of, and the declared forwarding destination that the
/// current decision logic never acts on.
pub struct ProxyConfig {
    pub hardware_addr: MacAddr,
    pub publish: Option<Ipv4Address>,
    pub source: Ipv4Address,
    pub forward: SocketV4,
}

/// One outcome of a blocking receive: a whole captured frame, the elapse of
/// the read timeout, or a hard receive failure.
pub enum RecvEvent {
    Frame(Vec<u8>),
    Timeout,
    Failed,
}

/// What the capture loop must do next: transmit a forged frame and go on,
/// go on without transmitting, or stop with a fatal error.
pub enum Step {
    Reply(Vec<u8>),
    Pass,
    Halt,
}

/// Whether a raw frame warrants a forged reply: it parses, its network
/// layer is an ARP request, impersonation is configured, and the request
/// asks about the published address on behalf of the configured source.
pub open spec fn spec_actionable(cfg: ProxyConfig, raw: Seq<u8>) -> bool {
    &&& spec_parse_ok(raw)
    &&& spec_link_of(raw).ethertype == ETHERTYPE_ARP
    &&& match cfg.publish {
        Some(p) => spec_arp_of(raw).spec_is_request_of(cfg.source, p),
        None => false,
    }
}

/// The ARP layer of the forged reply to the request carried by `raw`.
pub open spec fn spec_reply_arp(cfg: ProxyConfig, raw: Seq<u8>) -> Arp {
    spec_arp_of(raw).spec_reply(cfg.hardware_addr)
}

/// The Ethernet envelope of the forged reply: addressed from the engine's
/// own hardware address back to the requester, tagged as ARP.
pub open spec fn spec_reply_link(cfg: ProxyConfig, raw: Seq<u8>) -> Ethernet {
    Ethernet {
        dst: spec_reply_arp(cfg, raw).tha,
        src: spec_reply_arp(cfg, raw).sha,
        ethertype: ETHERTYPE_ARP,
    }
}

/// The exact bytes of the forged reply frame.
pub open spec fn spec_reply_frame(cfg: ProxyConfig, raw: Seq<u8>) -> Seq<u8> {
    ethernet_bytes(spec_reply_link(cfg, raw)) + arp_bytes(spec_reply_arp(cfg, raw))
}

/// Classifies one captured frame and builds the forged reply frame exactly
/// when the frame warrants one.
pub fn handle_frame(cfg: &ProxyConfig, raw: &[u8]) -> (r: Option<Vec<u8>>)
    ensures
        r is Some <==> spec_actionable(*cfg, raw@),
        r matches Some(b) ==> b@ == spec_reply_frame(*cfg, raw@),
{
    let indicator = match Indicator::parse(raw) {
        Some(indicator) => indicator,
        None => {
            return None;
        },
    };
    let network_type = match indicator.get_network_type() {
        Some(t) => t,
        None => {
            return None;
        },
    };
    match network_type {
        LayerType::Arp => {
            let publish = match &cfg.publish {
                Some(p) => *p,
                None => {
                    return None;
                },
            };
            let arp = match indicator.get_arp() {
                Some(arp) => arp,
                None => {
                    return None;
                },
            };
            if !arp.is_request_of(cfg.source, publish) {
                return None;
            }
            let new_arp = arp.reply(cfg.hardware_addr);
            let new_ethernet = Ethernet::new(
                new_arp.get_type(),
                new_arp.get_src_hardware_addr(),
                new_arp.get_dst_hardware_addr(),
            );
            let new_indicator = Indicator::new(
                Layer::Ethernet(new_ethernet),
                Some(Layer::Arp(new_arp)),
                None,
            );
            let size = new_indicator.get_size();
            let mut buffer: Vec<u8> = vec![0u8; size];
            match new_indicator.serialize(&mut buffer) {
                Ok(_) => {},
                Err(_) => {
                    return None;
                },
            }
            proof {
                assert(new_indicator.spec_bytes() =~= spec_reply_frame(*cfg, raw@));
                assert(buffer@ =~= spec_reply_frame(*cfg, raw@));
            }
            Some(buffer)
        },
        _ => None,
    }
}

/// Advances the engine by one received event: a timeout is no event at all,
/// a hard receive failure is fatal, and a frame is answered exactly when it
/// warrants a forged reply.
pub fn poll(cfg: &ProxyConfig, event: RecvEvent) -> (s: Step)
    ensures
        s is Halt <==> event is Failed,
        event is Timeout ==> s is Pass,
        event matches RecvEvent::Frame(f) ==> {
            &&& (s is Reply <==> spec_actionable(*cfg, f@))
            &&& (s matches Step::Reply(b) ==> b@ == spec_reply_frame(*cfg, f@))
        },
{
    match event {
        RecvEvent::Frame(f) => match handle_frame(cfg, f.as_slice()) {
            Some(b) => Step::Reply(b),
            None => Step::Pass,
        },
        RecvEvent::Timeout => Step::Pass,
        RecvEvent::Failed => Step::Halt,
    }
}

/// Impersonation gating: a reply is warranted exactly for an inbound ARP
/// request whose sender protocol address is the configured source and whose
/// target protocol address is the published one; with no published address,
/// no ARP traffic warrants a reply, and an ARP reply never does.
pub proof fn lemma_impersonation_gating(cfg: ProxyConfig, raw: Seq<u8>)
    ensures
        cfg.publish is None ==> !spec_actionable(cfg, raw),
        spec_actionable(cfg, raw) <==> {
            &&& spec_parse_ok(raw)
            &&& spec_link_of(raw).ethertype == ETHERTYPE_ARP
            &&& cfg.publish matches Some(p)
            &&& spec_arp_of(raw).op == crate::layer::ARP_OP_REQUEST
            &&& spec_arp_of(raw).spa == cfg.source
            &&& spec_arp_of(raw).tpa == p
        },
        spec_arp_of(raw).op != crate::layer::ARP_OP_REQUEST ==> !spec_actionable(cfg, raw),
{
}

/// Unclassified frame drop: a frame whose link layer does not announce ARP
/// — an IPv4 frame, an unsupported protocol, or no network layer at all —
/// never warrants a reply.
pub proof fn lemma_unclassified_frame_dropped(cfg: ProxyConfig, raw: Seq<u8>)
    ensures
        spec_link_of(raw).ethertype != ETHERTYPE_ARP ==> !spec_actionable(cfg, raw),
{
}

} // verus!
