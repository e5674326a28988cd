//! Interface-state, usable-address and route-text parsing tests.

use portmapper::interfaces::{
    compute_have_flags, parse_android_ip_route, parse_proc_net_route, prefixes_major_equal,
    Interface, IpNet, Ipv4Net, Ipv6Net, State,
};
use portmapper::ip::{is_usable_v6, IpAddress, Ipv4Address, Ipv6Address};

#[test]
fn test_is_usable_v6() {
    let loopback = Ipv6Address::new(0, 0, 0, 0, 0, 0, 0, 0x1);
    assert!(!is_usable_v6(&IpAddress::V6(loopback)));

    let link_local = Ipv6Address::new(0xfe80, 0, 0, 0, 0xcbc9, 0x6aff, 0x5b07, 0x4a9e);
    assert!(!is_usable_v6(&IpAddress::V6(link_local)));

    let relay_use1 = Ipv6Address::new(0x2a01, 0x4ff, 0xf0, 0xc4a1, 0, 0, 0, 0x1);
    assert!(is_usable_v6(&IpAddress::V6(relay_use1)));

    let random_2603 = Ipv6Address::new(0x2603, 0x3ff, 0xf1, 0xc3aa, 0x1, 0x2, 0x3, 0x1);
    assert!(is_usable_v6(&IpAddress::V6(random_2603)));
}

#[test]
fn test_parse_android_ip_route() {
    let stdout = "default via 10.0.2.2. dev radio0 table 1016 proto static mtu 1500";
    let iface = parse_android_ip_route(stdout).unwrap();
    assert_eq!(iface, "radio0");
}

#[test]
fn android_route_without_dev_scans_on() {
    let stdout = "default via 10.0.2.2. table 1016\ndefault via 10.0.2.2. dev radio1 mtu 1500";
    let iface = parse_android_ip_route(stdout).unwrap();
    assert_eq!(iface, "radio1");
}

#[test]
fn android_route_no_default() {
    let stdout = "10.0.2.0/24 dev radio0 proto kernel scope link";
    assert!(parse_android_ip_route(stdout).is_none());
}

#[test]
fn proc_net_route_default() {
    let contents = "Iface\tDestination\tGateway \tFlags\tRefCnt\tUse\tMetric\tMask\t\tMTU\tWindow\tIRTT\n\
                    eth0\t00000000\t0202000A\t0003\t0\t0\t100\t00000000\t0\t0\t0\n\
                    eth0\t0002000A\t00000000\t0001\t0\t0\t100\t00FFFFFF\t0\t0\t0\n";
    let d = parse_proc_net_route(contents).unwrap().unwrap();
    assert_eq!(d.interface_name, "eth0");
}

#[test]
fn proc_net_route_no_default() {
    let contents = "Iface\tDestination\tGateway \tFlags\tRefCnt\tUse\tMetric\tMask\t\tMTU\tWindow\tIRTT\n\
                    eth0\t0002000A\t00000000\t0001\t0\t0\t100\t00FFFFFF\t0\t0\t0\n";
    assert!(parse_proc_net_route(contents).unwrap().is_none());
}

#[test]
fn proc_net_route_missing_fields() {
    let r = parse_proc_net_route("00000000 00000000");
    assert_eq!(
        r.unwrap_err(),
        portmapper::interfaces::Error::MissingMaskField
    );
}

fn iface(name: &str, index: u32, v4: Vec<Ipv4Net>) -> Interface {
    Interface {
        index,
        name: name.to_string(),
        flags: 1,
        mac_addr: None,
        ipv4: v4,
        ipv6: Vec::new(),
    }
}

fn net4(a: u8, b: u8, c: u8, d: u8) -> Ipv4Net {
    Ipv4Net {
        addr: Ipv4Address::new(a, b, c, d),
        prefix_len: 24,
    }
}

fn state_of(ifs: Vec<Interface>, route: Option<&str>) -> State {
    State {
        interfaces: ifs,
        have_v6: false,
        have_v4: true,
        is_expensive: false,
        default_route_interface: route.map(|s| s.to_string()),
    }
}

#[test]
fn major_change_same_state() {
    let a = state_of(vec![iface("eth0", 1, vec![net4(10, 0, 0, 2)])], Some("eth0"));
    let b = state_of(vec![iface("eth0", 1, vec![net4(10, 0, 0, 2)])], Some("eth0"));
    assert!(!b.is_major_change(&a));
}

#[test]
fn major_change_on_default_route() {
    let a = state_of(vec![iface("eth0", 1, vec![net4(10, 0, 0, 2)])], Some("eth0"));
    let b = state_of(vec![iface("eth0", 1, vec![net4(10, 0, 0, 2)])], Some("wlan0"));
    assert!(b.is_major_change(&a));
}

#[test]
fn major_change_on_prefix_change() {
    let a = state_of(vec![iface("eth0", 1, vec![net4(10, 0, 0, 2)])], Some("eth0"));
    let b = state_of(vec![iface("eth0", 1, vec![net4(10, 0, 0, 3)])], Some("eth0"));
    assert!(b.is_major_change(&a));
}

#[test]
fn major_change_on_interface_gone() {
    let a = state_of(vec![iface("eth0", 1, vec![net4(10, 0, 0, 2)])], None);
    let b = state_of(vec![], None);
    assert!(b.is_major_change(&a));
}

#[test]
fn minor_change_on_link_local_prefix() {
    // A link-local prefix appearing is not a major change.
    let a = state_of(vec![iface("eth0", 1, vec![net4(10, 0, 0, 2)])], Some("eth0"));
    let b = state_of(
        vec![iface(
            "eth0",
            1,
            vec![net4(10, 0, 0, 2), net4(169, 254, 7, 7)],
        )],
        Some("eth0"),
    );
    assert!(!b.is_major_change(&a));
}

#[test]
fn prefixes_ignore_uninteresting() {
    let a = vec![
        IpNet::V4(net4(10, 0, 0, 2)),
        IpNet::V4(net4(127, 0, 0, 1)),
    ];
    let b = vec![
        IpNet::V4(net4(169, 254, 0, 9)),
        IpNet::V4(net4(10, 0, 0, 2)),
    ];
    assert!(prefixes_major_equal(&a, &b));
    let c = vec![IpNet::V4(net4(10, 0, 0, 3))];
    assert!(!prefixes_major_equal(&a, &c));
}

#[test]
fn have_flags_from_interfaces() {
    let mut up_v4 = iface("eth0", 1, vec![net4(10, 0, 0, 2)]);
    up_v4.ipv6.push(Ipv6Net {
        addr: Ipv6Address::new(0x2a01, 0x4ff, 0, 0, 0, 0, 0, 1),
        prefix_len: 64,
    });
    let (v4, v6) = compute_have_flags(&vec![up_v4]);
    assert!(v4);
    assert!(v6);

    let mut down = iface("eth1", 2, vec![net4(10, 0, 0, 3)]);
    down.flags = 0;
    let (v4, v6) = compute_have_flags(&vec![down]);
    assert!(!v4);
    assert!(!v6);

    let lo = iface("lo", 3, vec![net4(127, 0, 0, 1)]);
    let (v4, _) = compute_have_flags(&vec![lo]);
    assert!(!v4);
}

#[test]
fn fake_state_is_stable() {
    let a = State::fake();
    let b = State::fake();
    assert!(!a.is_major_change(&b));
    assert_eq!(a.interfaces.len(), 1);
    assert_eq!(a.interfaces[0].name, "wifi0");
    assert!(a.interfaces[0].is_up());
}

#[test]
fn major_change_on_prefix_disappearing() {
    // An interesting prefix disappearing is a change, even though the
    // remaining prefixes pair up.
    let a = state_of(
        vec![iface(
            "eth0",
            1,
            vec![net4(10, 0, 0, 2), net4(10, 0, 1, 2)],
        )],
        Some("eth0"),
    );
    let b = state_of(vec![iface("eth0", 1, vec![net4(10, 0, 0, 2)])], Some("eth0"));
    assert!(b.is_major_change(&a));
    assert!(!prefixes_major_equal(
        &vec![IpNet::V4(net4(10, 0, 0, 2)), IpNet::V4(net4(10, 0, 1, 2))],
        &vec![IpNet::V4(net4(10, 0, 0, 2))],
    ));
}

#[test]
fn major_change_on_interface_appearing() {
    let a = state_of(vec![iface("eth0", 1, vec![net4(10, 0, 0, 2)])], None);
    let b = state_of(
        vec![
            iface("eth0", 1, vec![net4(10, 0, 0, 2)]),
            iface("wlan0", 2, vec![net4(10, 0, 1, 2)]),
        ],
        None,
    );
    assert!(b.is_major_change(&a));
    assert!(!a.is_major_change(&a));
}
