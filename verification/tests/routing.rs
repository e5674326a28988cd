//! BSD routing-table reader tests.

use portmapper::ip::{IpAddress, Ipv4Address};
use portmapper::rib::{
    darwin, default_route_interface_index, interface_name_for_index, is_default_gateway,
    likely_home_router, parse_addrs, parse_inet_addr, parse_rib_counted, Addr, RouteMessage,
    WireMessage, RTF_GATEWAY,
};

#[test]
fn test_parse_addrs() {
    let cfg = darwin();
    // RTA_DST | RTA_GATEWAY | RTA_NETMASK | RTA_BRD
    let attrs_1: u32 = 0x1 | 0x2 | 0x4 | 0x80;
    let b_1: Vec<u8> = vec![
        0x38, 0x12, 0x0, 0x0, 0xff, 0xff, 0xff, 0x0, 0x0, 0x0, 0x0, 0x0, 0x0, 0x0, 0x0, 0x0, 0x0,
        0x0, 0x0, 0x0, 0x0, 0x0, 0x0, 0x0, 0x0, 0x0, 0x0, 0x0, 0x0, 0x0, 0x0, 0x0, 0x0, 0x0, 0x0,
        0x0, 0x0, 0x0, 0x0, 0x0, 0x0, 0x0, 0x0, 0x0, 0x0, 0x0, 0x0, 0x0, 0x0, 0x0, 0x0, 0x0, 0x0,
        0x0, 0x0, 0x0, 0x38, 0x12, 0x2, 0x0, 0x6, 0x3, 0x6, 0x0, 0x65, 0x6d, 0x31, 0x0, 0xc, 0x29,
        0x66, 0x2c, 0xdc, 0x0, 0x0, 0x0, 0x0, 0x0, 0x0, 0x0, 0x0, 0x0, 0x0, 0x0, 0x0, 0x0, 0x0, 0x0,
        0x0, 0x0, 0x0, 0x0, 0x0, 0x0, 0x0, 0x0, 0x0, 0x0, 0x0, 0x0, 0x0, 0x0, 0x0, 0x0, 0x0, 0x0,
        0x0, 0x0, 0x0, 0x0, 0x0, 0x0, 0x10, 0x2, 0x0, 0x0, 0xac, 0x10, 0xdc, 0xb4, 0x0, 0x0, 0x0,
        0x0, 0x0, 0x0, 0x0, 0x0, 0x10, 0x2, 0x0, 0x0, 0xac, 0x10, 0xdc, 0xff, 0x0, 0x0, 0x0, 0x0,
        0x0, 0x0, 0x0, 0x0,
    ];
    let addrs_1 = vec![
        Addr::Link {
            index: 0,
            name: None,
            addr: None,
        },
        Addr::Link {
            index: 2,
            name: Some("em1".to_string()),
            addr: Some(vec![0x00, 0x0c, 0x29, 0x66, 0x2c, 0xdc]),
        },
        Addr::Inet4 {
            ip: Ipv4Address::new(172, 16, 220, 180),
        },
        Addr::Inet4 {
            ip: Ipv4Address::new(172, 16, 220, 255),
        },
    ];
    let parsed = parse_addrs(&cfg, attrs_1, &b_1).unwrap_or_else(|_| panic!("failed 0"));
    assert_eq!(parsed, addrs_1, "0");

    // RTA_NETMASK | RTA_IFP | RTA_IFA
    let attrs_2: u32 = 0x4 | 0x10 | 0x20;
    let b_2: Vec<u8> = vec![
        0x7, 0x0, 0x0, 0x0, 0xff, 0xff, 0xff, 0x0, 0x18, 0x12, 0xa, 0x0, 0x87, 0x8, 0x0, 0x0, 0x76,
        0x6c, 0x61, 0x6e, 0x35, 0x36, 0x38, 0x32, 0x0, 0x0, 0x0, 0x0, 0x0, 0x0, 0x0, 0x0, 0x10, 0x2,
        0x0, 0x0, 0xa9, 0xfe, 0x0, 0x1, 0x0, 0x0, 0x0, 0x0, 0x0, 0x0, 0x0, 0x0,
    ];
    let addrs_2 = vec![
        Addr::Inet4 {
            ip: Ipv4Address::new(255, 255, 255, 0),
        },
        Addr::Link {
            index: 10,
            name: Some("vlan5682".to_string()),
            addr: None,
        },
        Addr::Inet4 {
            ip: Ipv4Address::new(169, 254, 0, 1),
        },
    ];
    let parsed = parse_addrs(&cfg, attrs_2, &b_2).unwrap_or_else(|_| panic!("failed 1"));
    assert_eq!(parsed, addrs_2, "1");
}

fn le16(x: u16) -> [u8; 2] {
    [(x & 0xff) as u8, (x >> 8) as u8]
}

fn le32(x: u32) -> [u8; 4] {
    [
        (x & 0xff) as u8,
        ((x >> 8) & 0xff) as u8,
        ((x >> 16) & 0xff) as u8,
        ((x >> 24) & 0xff) as u8,
    ]
}

/// A sockaddr_in for the given address (family 2, sixteen bytes).
fn sockaddr_in(ip: [u8; 4]) -> Vec<u8> {
    let mut b = vec![16u8, 2u8, 0, 0];
    b.extend_from_slice(&ip);
    b.extend_from_slice(&[0u8; 8]);
    b
}

/// A canned Darwin route message: a default route via the gateway on
/// the given interface index.
fn canned_route_message(index: u16, gateway: [u8; 4]) -> Vec<u8> {
    let mut addrs = Vec::new();
    addrs.extend_from_slice(&sockaddr_in([0, 0, 0, 0])); // RTAX_DST
    addrs.extend_from_slice(&sockaddr_in(gateway)); // RTAX_GATEWAY
    addrs.extend_from_slice(&sockaddr_in([0, 0, 0, 0])); // RTAX_NETMASK
    let len = 92 + addrs.len();
    let mut b = Vec::new();
    b.extend_from_slice(&le16(len as u16));
    b.push(5); // rtm_version
    b.push(0x1); // RTM_ADD
    b.extend_from_slice(&le16(index)); // interface index
    b.extend_from_slice(&le16(0));
    b.extend_from_slice(&le32(RTF_GATEWAY | 1)); // flags: up | gateway
    b.extend_from_slice(&le32(0x7)); // attrs: DST | GATEWAY | NETMASK
    b.extend_from_slice(&le32(0)); // id
    b.extend_from_slice(&le32(0)); // seq
    b.extend_from_slice(&le32(0)); // reserved
    b.extend_from_slice(&le32(0)); // errno
    while b.len() < 92 {
        b.push(0);
    }
    b.extend_from_slice(&addrs);
    b
}

/// A canned Darwin interface message naming the interface at `index`.
fn canned_interface_message(index: u16, name: &str) -> Vec<u8> {
    // The link sockaddr: length, family AF_LINK, index, then the
    // kernel form (type, nlen, alen, slen, name bytes).
    let mut sdl = vec![0u8, 18u8];
    sdl.extend_from_slice(&le16(index));
    sdl.push(6); // sdl_type
    sdl.push(name.len() as u8);
    sdl.push(0);
    sdl.push(0);
    sdl.extend_from_slice(name.as_bytes());
    while sdl.len() % 4 != 0 {
        sdl.push(0);
    }
    sdl[0] = sdl.len() as u8;
    let len = 112 + sdl.len();
    let mut b = Vec::new();
    b.extend_from_slice(&le16(len as u16));
    b.push(5); // rtm_version
    b.push(0xe); // RTM_IFINFO
    b.extend_from_slice(&le32(0x10)); // attrs: RTA_IFP
    b.extend_from_slice(&le32(1)); // flags: up
    b.extend_from_slice(&le16(index));
    while b.len() < 112 {
        b.push(0);
    }
    b.extend_from_slice(&sdl);
    b
}

fn route_messages(msgs: &[WireMessage]) -> Vec<&RouteMessage> {
    msgs.iter()
        .filter_map(|m| match m {
            WireMessage::Route(r) => Some(r),
            _ => None,
        })
        .collect()
}

#[test]
fn bsd_default_route() {
    // A canned RIB dump: one interface message naming en0 (index 4) and
    // one default-route message through 192.168.1.1 on that interface.
    let cfg = darwin();
    let mut dump = canned_interface_message(4, "en0");
    dump.extend_from_slice(&canned_route_message(4, [192, 168, 1, 1]));

    let parsed = parse_rib_counted(&cfg, 7, &dump).unwrap();
    assert_eq!(parsed.parsed + parsed.skipped, parsed.total);
    assert_eq!(parsed.parsed, 2);

    let mut routes: Vec<RouteMessage> = Vec::new();
    let borrowed = route_messages(&parsed.messages);
    assert_eq!(borrowed.len(), 1);
    let rm = borrowed[0];
    assert!(rm.flags & RTF_GATEWAY != 0);
    assert!(is_default_gateway(cfg.os, rm));
    routes.push(RouteMessage {
        version: rm.version,
        typ: rm.typ,
        flags: rm.flags,
        index: rm.index,
        id: rm.id,
        seq: rm.seq,
        error: rm.error,
        addrs: rm.addrs.clone(),
        ext_off: rm.ext_off,
    });

    let idx = default_route_interface_index(cfg.os, &routes).expect("missing default route");
    assert_eq!(idx, 4);
    let name = interface_name_for_index(&parsed.messages, 4).expect("missing interface name");
    assert_eq!(name, "en0");
    let gw = likely_home_router(cfg.os, &routes).expect("missing home router");
    assert_eq!(gw, IpAddress::V4(Ipv4Address::new(192, 168, 1, 1)));
}

#[test]
fn rib_skips_foreign_versions() {
    let cfg = darwin();
    let mut alien = canned_route_message(4, [192, 168, 1, 1]);
    alien[2] = 4; // not the platform's rtm_version
    let mut dump = alien;
    dump.extend_from_slice(&canned_route_message(4, [192, 168, 1, 1]));
    let parsed = parse_rib_counted(&cfg, 7, &dump).unwrap();
    assert_eq!(parsed.total, 2);
    assert_eq!(parsed.parsed, 1);
    assert_eq!(parsed.skipped, 1);
}

#[test]
fn rib_rejects_invalid_type() {
    let cfg = darwin();
    let dump = canned_route_message(4, [192, 168, 1, 1]);
    let r = parse_rib_counted(&cfg, 4, &dump);
    assert_eq!(
        r.unwrap_err(),
        portmapper::rib::RouteError::InvalidRibType { rib_type: 4 }
    );
}

#[test]
fn kame_zone_lifting() {
    // A sockaddr_in6 for fe80::..., with the interface id embedded
    // big-endian in bytes 2-3 of the address.
    let cfg = darwin();
    let mut b = vec![28u8, 30u8, 0, 0, 0, 0, 0, 0];
    let addr_bytes: [u8; 16] = [0xfe, 0x80, 0x00, 0x05, 0, 0, 0, 0, 0, 0, 0, 0, 0, 0, 0, 0x1];
    b.extend_from_slice(&addr_bytes);
    b.extend_from_slice(&[0u8; 4]); // zone field reads zero
    let a = parse_inet_addr(&cfg, 30, &b).unwrap();
    match a {
        Addr::Inet6 { ip, zone } => {
            assert_eq!(zone, 5);
            assert_eq!(ip.s0, 0xfe80);
            assert_eq!(ip.s1, 0); // bytes 2-3 zeroed
            assert_eq!(ip.s7, 1);
        }
        other => panic!("parsed the wrong address kind: {:?}", other),
    }
}

#[test]
fn kame_zone_zero_id_untouched() {
    let cfg = darwin();
    let mut b = vec![28u8, 30u8, 0, 0, 0, 0, 0, 0];
    let addr_bytes: [u8; 16] = [0xfe, 0x80, 0, 0, 0, 0, 0, 0, 0, 0, 0, 0, 0, 0, 0, 0x1];
    b.extend_from_slice(&addr_bytes);
    b.extend_from_slice(&[7, 0, 0, 0]); // little-endian zone 7
    let a = parse_inet_addr(&cfg, 30, &b).unwrap();
    match a {
        Addr::Inet6 { ip, zone } => {
            assert_eq!(zone, 7);
            assert_eq!(ip.s0, 0xfe80);
        }
        other => panic!("parsed the wrong address kind: {:?}", other),
    }
}

#[test]
fn default_addr_keeps_raw_bytes() {
    let b = vec![6u8, 42u8, 1, 2, 3, 4, 9, 9];
    match portmapper::rib::parse_default_addr(&b).unwrap() {
        Addr::Default { af, raw } => {
            assert_eq!(af, 42);
            assert_eq!(raw, vec![6u8, 42, 1, 2, 3, 4]);
        }
        other => panic!("parsed the wrong address kind: {:?}", other),
    }
    assert!(portmapper::rib::parse_default_addr(&[9u8]).is_err());
}

#[test]
fn roundup_aligns() {
    assert_eq!(portmapper::rib::roundup(0, 4), 4);
    assert_eq!(portmapper::rib::roundup(1, 4), 4);
    assert_eq!(portmapper::rib::roundup(4, 4), 4);
    assert_eq!(portmapper::rib::roundup(5, 4), 8);
    assert_eq!(portmapper::rib::roundup(5, 8), 8);
    assert_eq!(portmapper::rib::roundup(16, 8), 16);
}

#[test]
fn ne_range_readers() {
    let b = vec![0x34u8, 0x12, 0x78, 0x56, 0x01];
    assert_eq!(portmapper::rib::u16_from_ne_range(&b, 0).unwrap(), 0x1234);
    assert_eq!(portmapper::rib::u32_from_ne_range(&b, 0).unwrap(), 0x56781234);
    assert!(portmapper::rib::u16_from_ne_range(&b, 4).is_err());
    assert!(portmapper::rib::u32_from_ne_range(&b, 2).is_err());
}

#[test]
fn link_addr_utf8_name() {
    // The kernel link form: type, nlen, alen, slen, then the name
    // bytes; names are any UTF-8, here a two-byte character.
    let b = vec![6u8, 2, 0, 0, 0xC3, 0xA9];
    let (l, a) = portmapper::rib::parse_kernel_link_addr(&b).unwrap();
    assert_eq!(l, 6);
    match a {
        Addr::Link { index, name, addr } => {
            assert_eq!(index, 0);
            assert_eq!(name.unwrap(), "\u{e9}");
            assert!(addr.is_none());
        }
        other => panic!("parsed the wrong address kind: {:?}", other),
    }

    // An invalid byte sequence in the name fails the parse.
    let bad = vec![6u8, 2, 0, 0, 0xFF, 0xA9];
    assert_eq!(
        portmapper::rib::parse_kernel_link_addr(&bad).unwrap_err(),
        portmapper::rib::RouteError::InvalidAddress
    );
}

/// A canned NetBSD-layout default-route message (64-bit offsets,
/// version 4, 8-byte alignment).
fn canned_netbsd_route_message(index: u16, gateway: [u8; 4]) -> Vec<u8> {
    let mut addrs = Vec::new();
    addrs.extend_from_slice(&sockaddr_in([0, 0, 0, 0])); // RTAX_DST
    addrs.extend_from_slice(&sockaddr_in(gateway)); // RTAX_GATEWAY
    addrs.extend_from_slice(&sockaddr_in([0, 0, 0, 0])); // RTAX_NETMASK
    let len = 120 + addrs.len();
    let mut b = Vec::new();
    b.extend_from_slice(&le16(len as u16));
    b.push(4); // rtm_version
    b.push(0x1); // RTM_ADD
    b.extend_from_slice(&le16(index));
    b.extend_from_slice(&le16(0));
    b.extend_from_slice(&le32(RTF_GATEWAY | 1));
    b.extend_from_slice(&le32(0x7)); // attrs: DST | GATEWAY | NETMASK
    b.extend_from_slice(&le32(0)); // id
    b.extend_from_slice(&le32(0)); // seq
    b.extend_from_slice(&le32(0)); // reserved
    b.extend_from_slice(&le32(0)); // errno
    while b.len() < 120 {
        b.push(0);
    }
    b.extend_from_slice(&addrs);
    b
}

#[test]
fn netbsd_default_route() {
    let cfg = portmapper::rib::netbsd();
    let dump = canned_netbsd_route_message(3, [10, 0, 0, 1]);
    let parsed = parse_rib_counted(&cfg, 1, &dump).unwrap();
    assert_eq!(parsed.parsed, 1);
    let routes: Vec<&RouteMessage> = route_messages(&parsed.messages);
    assert!(is_default_gateway(cfg.os, routes[0]));
    assert_eq!(routes[0].index, 3);
}

#[test]
fn openbsd_default_route() {
    // OpenBSD's route message carries its own header length at offset
    // 4; the addrs area starts there.
    let cfg = portmapper::rib::openbsd();
    let mut addrs = Vec::new();
    addrs.extend_from_slice(&sockaddr_in([0, 0, 0, 0]));
    addrs.extend_from_slice(&sockaddr_in([10, 0, 0, 1]));
    addrs.extend_from_slice(&sockaddr_in([0, 0, 0, 0]));
    let hdrlen: usize = 40;
    let len = hdrlen + addrs.len();
    let mut b = Vec::new();
    b.extend_from_slice(&le16(len as u16));
    b.push(5); // rtm_version
    b.push(0x1); // RTM_ADD
    b.extend_from_slice(&le16(hdrlen as u16)); // rtm_hdrlen
    b.extend_from_slice(&le16(7)); // index
    b.extend_from_slice(&le32(0));
    b.extend_from_slice(&le32(0x7)); // attrs
    b.extend_from_slice(&le32(RTF_GATEWAY | 1)); // flags at 16..20
    b.extend_from_slice(&le32(0));
    b.extend_from_slice(&le32(0)); // id at 24..28
    b.extend_from_slice(&le32(0)); // seq at 28..32
    b.extend_from_slice(&le32(0)); // errno at 32..36
    while b.len() < hdrlen {
        b.push(0);
    }
    b.extend_from_slice(&addrs);

    let parsed = parse_rib_counted(&cfg, 1, &b).unwrap();
    assert_eq!(parsed.parsed, 1);
    let routes: Vec<&RouteMessage> = route_messages(&parsed.messages);
    assert!(is_default_gateway(cfg.os, routes[0]));
    assert_eq!(routes[0].index, 7);
    assert_eq!(routes[0].flags, RTF_GATEWAY | 1);
}

#[test]
fn freebsd_config_shape() {
    let cfg = portmapper::rib::freebsd();
    assert_eq!(cfg.rtm_version, 5);
    assert_eq!(cfg.kernel_align, 8);
    assert_eq!(cfg.af_inet6, 28);
}
