use arp_relay::addr::{Ipv4Address, MacAddr, SocketV4};
use arp_relay::iface::{interface, interfaces, Interface, SelectError};
use arp_relay::indicator::Indicator;
use arp_relay::layer::{
    Arp, Ethernet, Ipv4, Layer, LayerType, SerializeError, ARP_OP_REPLY, ARP_OP_REQUEST,
    ETHERTYPE_ARP, ETHERTYPE_IPV4,
};
use arp_relay::relay::{handle_frame, poll, ProxyConfig, RecvEvent, Step};

fn mac(x: u8) -> MacAddr {
    MacAddr::new(x, x, x, x, x, x)
}

fn ip(o0: u8, o1: u8, o2: u8, o3: u8) -> Ipv4Address {
    Ipv4Address::new(o0, o1, o2, o3)
}

fn config(publish: Option<Ipv4Address>) -> ProxyConfig {
    ProxyConfig {
        hardware_addr: mac(0xAA),
        publish,
        source: ip(10, 0, 0, 2),
        forward: SocketV4 { addr: ip(192, 168, 0, 1), port: 8080 },
    }
}

/// An Ethernet+ARP request frame, built byte by byte.
fn request_frame(op: u16, sha: u8, spa: [u8; 4], tpa: [u8; 4]) -> Vec<u8> {
    let mut f: Vec<u8> = Vec::new();
    // Ethernet: broadcast destination, requester source, ARP ethertype.
    f.extend_from_slice(&[0xFF; 6]);
    f.extend_from_slice(&[sha; 6]);
    f.extend_from_slice(&[0x08, 0x06]);
    // ARP: Ethernet/IPv4 fixed fields, then operation and the four addresses.
    f.extend_from_slice(&[0x00, 0x01, 0x08, 0x00, 0x06, 0x04]);
    f.extend_from_slice(&[(op >> 8) as u8, (op & 0xFF) as u8]);
    f.extend_from_slice(&[sha; 6]);
    f.extend_from_slice(&spa);
    f.extend_from_slice(&[0x00; 6]);
    f.extend_from_slice(&tpa);
    f
}

#[test]
fn concrete_scenario_forges_reply() {
    let cfg = config(Some(ip(10, 0, 0, 1)));
    let frame = request_frame(ARP_OP_REQUEST, 0xBB, [10, 0, 0, 2], [10, 0, 0, 1]);
    let reply = handle_frame(&cfg, &frame).expect("a reply is owed");

    let mut expected: Vec<u8> = Vec::new();
    // Ethernet: back to the requester, from the impersonating interface.
    expected.extend_from_slice(&[0xBB; 6]);
    expected.extend_from_slice(&[0xAA; 6]);
    expected.extend_from_slice(&[0x08, 0x06]);
    // ARP reply: the roles of the request, swapped.
    expected.extend_from_slice(&[0x00, 0x01, 0x08, 0x00, 0x06, 0x04]);
    expected.extend_from_slice(&[0x00, 0x02]);
    expected.extend_from_slice(&[0xAA; 6]);
    expected.extend_from_slice(&[10, 0, 0, 1]);
    expected.extend_from_slice(&[0xBB; 6]);
    expected.extend_from_slice(&[10, 0, 0, 2]);
    assert_eq!(reply, expected);
}

#[test]
fn request_for_other_target_is_ignored() {
    let cfg = config(Some(ip(10, 0, 0, 1)));
    let frame = request_frame(ARP_OP_REQUEST, 0xBB, [10, 0, 0, 2], [10, 0, 0, 9]);
    assert!(handle_frame(&cfg, &frame).is_none());
}

#[test]
fn request_from_other_sender_is_ignored() {
    let cfg = config(Some(ip(10, 0, 0, 1)));
    let frame = request_frame(ARP_OP_REQUEST, 0xBB, [10, 0, 0, 7], [10, 0, 0, 1]);
    assert!(handle_frame(&cfg, &frame).is_none());
}

#[test]
fn arp_reply_is_ignored() {
    let cfg = config(Some(ip(10, 0, 0, 1)));
    let frame = request_frame(ARP_OP_REPLY, 0xBB, [10, 0, 0, 2], [10, 0, 0, 1]);
    assert!(handle_frame(&cfg, &frame).is_none());
}

#[test]
fn without_published_address_nothing_is_answered() {
    let cfg = config(None);
    let frame = request_frame(ARP_OP_REQUEST, 0xBB, [10, 0, 0, 2], [10, 0, 0, 1]);
    assert!(handle_frame(&cfg, &frame).is_none());
}

#[test]
fn ipv4_frame_is_classified_but_not_answered() {
    let cfg = config(Some(ip(10, 0, 0, 1)));
    let mut frame: Vec<u8> = Vec::new();
    frame.extend_from_slice(&[0xCC; 6]);
    frame.extend_from_slice(&[0xBB; 6]);
    frame.extend_from_slice(&[0x08, 0x00]);
    frame.extend_from_slice(&[0x45, 0x00, 0x00, 0x14]);
    let parsed = Indicator::parse(&frame).expect("link layer parses");
    assert_eq!(parsed.get_network_type(), Some(LayerType::Ipv4));
    assert!(parsed.get_arp().is_none());
    assert!(handle_frame(&cfg, &frame).is_none());
}

#[test]
fn unknown_ethertype_keeps_only_the_link_layer() {
    let cfg = config(Some(ip(10, 0, 0, 1)));
    let mut frame: Vec<u8> = Vec::new();
    frame.extend_from_slice(&[0xCC; 6]);
    frame.extend_from_slice(&[0xBB; 6]);
    frame.extend_from_slice(&[0x86, 0xDD]);
    frame.extend_from_slice(&[0x00; 8]);
    let parsed = Indicator::parse(&frame).expect("link layer parses");
    assert_eq!(parsed.get_network_type(), None);
    assert!(handle_frame(&cfg, &frame).is_none());
}

#[test]
fn truncated_frames_do_not_parse() {
    assert!(Indicator::parse(&[]).is_none());
    assert!(Indicator::parse(&[0u8; 13]).is_none());
    // An ARP announcement whose message is cut short.
    let mut frame = request_frame(ARP_OP_REQUEST, 0xBB, [10, 0, 0, 2], [10, 0, 0, 1]);
    frame.truncate(41);
    assert!(Indicator::parse(&frame).is_none());
}

#[test]
fn wrong_arp_fixed_fields_do_not_parse() {
    let mut frame = request_frame(ARP_OP_REQUEST, 0xBB, [10, 0, 0, 2], [10, 0, 0, 1]);
    frame[18] = 8; // hardware address length not Ethernet's
    assert!(Indicator::parse(&frame).is_none());
}

#[test]
fn round_trip_preserves_fields_and_size() {
    let arp = Arp::new(
        ARP_OP_REQUEST,
        mac(0xBB),
        ip(10, 0, 0, 2),
        mac(0x00),
        ip(10, 0, 0, 1),
    );
    let ethernet = Ethernet::new(ETHERTYPE_ARP, mac(0xBB), mac(0xFF));
    let indicator = Indicator::new(Layer::Ethernet(ethernet), Some(Layer::Arp(arp)), None);
    let size = indicator.get_size();
    assert_eq!(size, 42);

    let mut buffer = vec![0u8; size];
    indicator.serialize(&mut buffer).expect("buffer is sized exactly");

    let parsed = Indicator::parse(&buffer).expect("own wire form parses");
    match parsed.link {
        Layer::Ethernet(e) => assert_eq!(e, ethernet),
        _ => panic!("link layer must be Ethernet"),
    }
    match parsed.network {
        Some(Layer::Arp(a)) => assert_eq!(a, arp),
        _ => panic!("network layer must be ARP"),
    }
    assert!(parsed.transport.is_none());
    assert_eq!(parsed.get_size(), size);
}

#[test]
fn reply_swaps_roles() {
    let request = Arp::new(
        ARP_OP_REQUEST,
        mac(0xBB),
        ip(10, 0, 0, 2),
        mac(0x00),
        ip(10, 0, 0, 1),
    );
    let reply = request.reply(mac(0xAA));
    assert_eq!(reply.op, ARP_OP_REPLY);
    assert_eq!(reply.sha, mac(0xAA));
    assert_eq!(reply.spa, ip(10, 0, 0, 1));
    assert_eq!(reply.tha, mac(0xBB));
    assert_eq!(reply.tpa, ip(10, 0, 0, 2));
}

#[test]
fn is_request_of_checks_operation_and_both_addresses() {
    let request = Arp::new(
        ARP_OP_REQUEST,
        mac(0xBB),
        ip(10, 0, 0, 2),
        mac(0x00),
        ip(10, 0, 0, 1),
    );
    assert!(request.is_request_of(ip(10, 0, 0, 2), ip(10, 0, 0, 1)));
    assert!(!request.is_request_of(ip(10, 0, 0, 3), ip(10, 0, 0, 1)));
    assert!(!request.is_request_of(ip(10, 0, 0, 2), ip(10, 0, 0, 3)));
    assert!(!request.reply(mac(0xAA)).is_request_of(ip(10, 0, 0, 1), ip(10, 0, 0, 2)));
}

#[test]
fn undersized_buffer_is_refused_untouched() {
    let arp = Arp::new(
        ARP_OP_REQUEST,
        mac(0xBB),
        ip(10, 0, 0, 2),
        mac(0x00),
        ip(10, 0, 0, 1),
    );
    let layer = Layer::Arp(arp);
    let mut buffer = vec![7u8; 10];
    assert_eq!(layer.serialize(&mut buffer), Err(SerializeError::BufferTooSmall));
    assert_eq!(buffer, vec![7u8; 10]);

    let ethernet = Ethernet::new(ETHERTYPE_ARP, mac(0xBB), mac(0xFF));
    let indicator = Indicator::new(Layer::Ethernet(ethernet), Some(Layer::Arp(arp)), None);
    let mut small = vec![0u8; 41];
    assert_eq!(indicator.serialize(&mut small), Err(SerializeError::BufferTooSmall));
    assert_eq!(small, vec![0u8; 41]);
}

#[test]
fn layer_sizes_and_types() {
    let arp = Arp::new(
        ARP_OP_REQUEST,
        mac(0xBB),
        ip(10, 0, 0, 2),
        mac(0x00),
        ip(10, 0, 0, 1),
    );
    assert_eq!(arp.get_type(), ETHERTYPE_ARP);
    assert_eq!(arp.get_src_hardware_addr(), mac(0xBB));
    assert_eq!(arp.get_dst_hardware_addr(), mac(0x00));
    assert_eq!(Layer::Arp(arp).size(), 28);
    assert_eq!(Layer::Arp(arp).layer_type(), LayerType::Arp);

    let ethernet = Ethernet::new(ETHERTYPE_IPV4, mac(0xBB), mac(0xCC));
    assert_eq!(Layer::Ethernet(ethernet).size(), 14);
    assert_eq!(Layer::Ethernet(ethernet).layer_type(), LayerType::Ethernet);

    let payload = Layer::Ipv4(Ipv4 { data: vec![1, 2, 3] });
    assert_eq!(payload.size(), 3);
    assert_eq!(payload.layer_type(), LayerType::Ipv4);
}

#[test]
fn poll_timeout_passes_and_failure_halts() {
    let cfg = config(Some(ip(10, 0, 0, 1)));
    assert!(matches!(poll(&cfg, RecvEvent::Timeout), Step::Pass));
    assert!(matches!(poll(&cfg, RecvEvent::Failed), Step::Halt));
}

#[test]
fn poll_answers_exactly_the_matching_request() {
    let cfg = config(Some(ip(10, 0, 0, 1)));
    let matching = request_frame(ARP_OP_REQUEST, 0xBB, [10, 0, 0, 2], [10, 0, 0, 1]);
    let expected = handle_frame(&cfg, &matching).unwrap();
    match poll(&cfg, RecvEvent::Frame(matching)) {
        Step::Reply(bytes) => assert_eq!(bytes, expected),
        _ => panic!("a matching request must be answered"),
    }
    let other = request_frame(ARP_OP_REQUEST, 0xBB, [10, 0, 0, 2], [10, 0, 0, 9]);
    assert!(matches!(poll(&cfg, RecvEvent::Frame(other)), Step::Pass));
    assert!(matches!(poll(&cfg, RecvEvent::Frame(vec![0u8; 5])), Step::Pass));
}

fn named(name: &str, loopback: bool) -> Interface {
    Interface {
        name: String::from(name),
        hardware_addr: mac(0x11),
        is_loopback: loopback,
    }
}

#[test]
fn loopback_interfaces_are_filtered_out() {
    let all = vec![named("lo", true), named("eth0", false), named("wlan0", false)];
    let avail = interfaces(all);
    assert_eq!(avail.len(), 2);
    assert_eq!(avail[0].name, "eth0");
    assert_eq!(avail[1].name, "wlan0");
}

#[test]
fn interface_selection_rules() {
    assert_eq!(
        interface(vec![named("lo", true)], None).unwrap_err(),
        SelectError::NoAvailable
    );
    assert_eq!(
        interface(vec![named("eth0", false), named("wlan0", false)], None).unwrap_err(),
        SelectError::Ambiguous
    );
    let only = interface(vec![named("lo", true), named("eth0", false)], None).unwrap();
    assert_eq!(only.name, "eth0");
    let picked = interface(
        vec![named("eth0", false), named("wlan0", false)],
        Some(String::from("wlan0")),
    )
    .unwrap();
    assert_eq!(picked.name, "wlan0");
    assert_eq!(
        interface(vec![named("eth0", false)], Some(String::from("tap1"))).unwrap_err(),
        SelectError::Unknown
    );
}
