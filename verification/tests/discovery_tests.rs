use camctrl::discovery::{
    build_probe_header, new_probe_header, checking_message, interfaces_error, multicast_group, probe_error,
    probe_sources, InterfaceAddress, Ipv4, MULTICAST_PORT,
};

fn ip(a: u8, b: u8, c: u8, d: u8) -> Ipv4 {
    Ipv4 { a, b, c, d }
}

#[test]
fn only_non_loopback_ipv4_addresses_are_probed() {
    let addrs = vec![
        None,
        Some(InterfaceAddress::Inet4(ip(127, 0, 0, 1))),
        Some(InterfaceAddress::Other),
        Some(InterfaceAddress::Inet4(ip(192, 168, 1, 20))),
        Some(InterfaceAddress::Inet6),
        Some(InterfaceAddress::Inet4(ip(127, 1, 2, 3))),
        Some(InterfaceAddress::Inet4(ip(10, 0, 0, 7))),
    ];
    let chosen = probe_sources(&addrs);
    assert_eq!(chosen.len(), 2);
    assert_eq!((chosen[0].a, chosen[0].b, chosen[0].c, chosen[0].d), (192, 168, 1, 20));
    assert_eq!((chosen[1].a, chosen[1].b, chosen[1].c, chosen[1].d), (10, 0, 0, 7));
    assert!(probe_sources(&vec![]).is_empty());
}

#[test]
fn dotted_decimal_text() {
    assert_eq!(ip(192, 168, 0, 10).to_text(), "192.168.0.10");
    assert_eq!(ip(0, 0, 0, 0).to_text(), "0.0.0.0");
    assert_eq!(ip(255, 255, 255, 255).to_text(), "255.255.255.255");
    assert_eq!(checking_message(&ip(10, 1, 2, 3)), "Checking 10.1.2.3 for cameras...\n");
}

#[test]
fn loopback_detection() {
    assert!(ip(127, 0, 0, 1).is_loopback());
    assert!(!ip(128, 0, 0, 1).is_loopback());
}

#[test]
fn multicast_destination() {
    let g = multicast_group();
    assert_eq!(g.to_text(), "239.255.255.250");
    assert_eq!(MULTICAST_PORT, 3702);
}

#[test]
fn probe_header_fields() {
    let h = build_probe_header("67e55044-10b1-426f-9247-bb680e5fe0c8");
    assert_eq!(h.message_id, "uuid:67e55044-10b1-426f-9247-bb680e5fe0c8");
    assert_eq!(h.action, "http://schemas.xmlsoap.org/ws/2005/04/discovery/Probe");
    assert_eq!(h.to, "urn:schemas-xmlsoap-org:ws:2005:04:discovery");
}

#[test]
fn discovery_errors() {
    assert_eq!(interfaces_error("EPERM").message(), "Unknown error: Could not get local IP addresses: EPERM");
    assert_eq!(probe_error("address in use").message(), "Unknown error: Could not send probe: address in use");
}

#[test]
fn new_probe_header_draws_a_uuid() {
    let a = new_probe_header();
    let b = new_probe_header();
    assert!(a.message_id.starts_with("uuid:"));
    assert_eq!(a.message_id.len(), 41);
    let u: Vec<char> = a.message_id["uuid:".len()..].chars().collect();
    for (i, c) in u.iter().enumerate() {
        if i == 8 || i == 13 || i == 18 || i == 23 {
            assert_eq!(*c, '-');
        } else {
            assert!(c.is_ascii_digit() || ('a'..='f').contains(c));
        }
    }
    assert_eq!(u[14], '4');
    assert!(['8', '9', 'a', 'b'].contains(&u[19]));
    assert_ne!(a.message_id, b.message_id);
    assert_eq!(a.action, "http://schemas.xmlsoap.org/ws/2005/04/discovery/Probe");
}
