//! Supervisor state-machine, probe-freshness and monitor tests.

use portmapper::current_mapping::{CurrentMapping, Event};
use portmapper::interfaces::HomeRouter;
use portmapper::ip::{IpAddress, Ipv4Address, Ipv6Address};
use portmapper::mapping::Mapping;
use portmapper::netmon::{
    next_backoff, nl_mgrp, MonitorDecision, RouteEvent, RouteMonitorState,
};
use portmapper::probe::{Config, Probe, ProbeError, ProbeOutput};
use portmapper::service::{
    ip_and_gateway, select_protocol, Action, Message, Protocol, Service,
};
use portmapper::{upnp, AVAILABILITY_TRUST_DURATION_MS};

fn router() -> Option<HomeRouter> {
    Some(HomeRouter {
        gateway: IpAddress::V4(Ipv4Address::new(192, 168, 1, 1)),
        my_ip: Some(IpAddress::V4(Ipv4Address::new(192, 168, 1, 10))),
    })
}

fn upnp_mapping(port: u16) -> Mapping {
    Mapping::Upnp(upnp::Mapping {
        gateway: upnp::Gateway {
            addr: Ipv4Address::new(192, 168, 1, 1),
            port: 1900,
        },
        external_ip: Ipv4Address::new(203, 0, 113, 7),
        external_port: port,
    })
}

#[test]
fn selection_prefers_pcp() {
    // With every protocol available, any configuration picks PCP.
    let output = ProbeOutput {
        upnp: true,
        pcp: true,
        nat_pmp: true,
    };
    for &enable_upnp in &[false, true] {
        for &enable_pcp in &[false, true] {
            for &enable_nat_pmp in &[false, true] {
                let config = Config {
                    enable_upnp,
                    enable_pcp,
                    enable_nat_pmp,
                };
                for &recent in &[false, true] {
                    assert_eq!(
                        select_protocol(&config, &output, recent),
                        Some(Protocol::Pcp)
                    );
                }
            }
        }
    }
}

#[test]
fn selection_fallback_upnp() {
    // Probe shows all three unavailable; config enables UPnP only.
    let output = ProbeOutput {
        upnp: false,
        pcp: false,
        nat_pmp: false,
    };
    let config = Config {
        enable_upnp: true,
        enable_pcp: false,
        enable_nat_pmp: false,
    };
    assert_eq!(select_protocol(&config, &output, true), Some(Protocol::Upnp));
}

#[test]
fn selection_gives_up() {
    let output = ProbeOutput {
        upnp: false,
        pcp: false,
        nat_pmp: false,
    };
    let config = Config {
        enable_upnp: false,
        enable_pcp: true,
        enable_nat_pmp: true,
    };
    // Recently probed and nothing confirmed: give up silently.
    assert_eq!(select_protocol(&config, &output, true), None);
    // Without a recent probe, blind-try PCP first.
    assert_eq!(select_protocol(&config, &output, false), Some(Protocol::Pcp));
}

#[test]
fn freshness_expiry() {
    // A probe completes at t0 setting last_pcp; PCP reads available at
    // t0 + 9 min and unavailable at t0 + 11 min.
    let t0: u64 = 1_000_000;
    let mut probe = Probe::empty(t0);
    probe.last_pcp = Some(t0);
    assert!(probe.output(t0 + 9 * 60_000).pcp);
    assert!(!probe.output(t0 + 11 * 60_000).pcp);
    assert!(!probe.output(t0 + AVAILABILITY_TRUST_DURATION_MS).pcp);
    assert!(probe.output(t0 + AVAILABILITY_TRUST_DURATION_MS - 1).pcp);
    assert!(!probe.output(t0).upnp);
    assert!(!probe.output(t0).nat_pmp);
}

#[test]
fn cancel_on_port_change() {
    // Mid-mapping for port A, UpdateLocalPort(B) aborts the task and
    // spawns a new one; the aborted task's late result installs nothing.
    let now: u64 = 10_000;
    let mut s = Service::new(Config::default(), now);
    let acts = s.update_local_port(Some(4100), now, &router());
    let gen_a = match acts.as_slice() {
        [Action::SpawnMappingTask {
            local_port,
            generation,
            ..
        }] => {
            assert_eq!(*local_port, 4100);
            *generation
        }
        other => panic!("expected one spawn, got {:?}", other),
    };

    let acts = s.update_local_port(Some(4200), now + 10, &router());
    match acts.as_slice() {
        [Action::CancelMappingTask { generation }, Action::SpawnMappingTask {
            local_port,
            generation: gen_b,
            ..
        }] => {
            assert_eq!(*generation, gen_a);
            assert_eq!(*local_port, 4200);
            assert_ne!(*gen_b, gen_a);
        }
        other => panic!("expected cancel then spawn, got {:?}", other),
    }

    // The cancelled task completes late: its result is discarded.
    let acts = s.on_mapping_result(gen_a, Ok(upnp_mapping(4100)), now + 20);
    assert!(acts.is_empty());
    assert!(s.current_mapping.external().is_none());
}

#[test]
fn release_on_replace() {
    let now: u64 = 10_000;
    let mut s = Service::new(Config::default(), now);
    let acts = s.update_local_port(Some(4100), now, &router());
    let gen_a = match acts.as_slice() {
        [Action::SpawnMappingTask { generation, .. }] => *generation,
        other => panic!("expected one spawn, got {:?}", other),
    };

    // First mapping lands.
    let acts = s.on_mapping_result(gen_a, Ok(upnp_mapping(5000)), now + 10);
    assert!(acts.is_empty());
    assert_eq!(
        s.current_mapping.external(),
        Some((Ipv4Address::new(203, 0, 113, 7), 5000))
    );

    // A renewal produces a second mapping: exactly one release of the
    // first.
    let acts = s.on_mapping_event(
        Event::Renew {
            external_ip: Ipv4Address::new(203, 0, 113, 7),
            external_port: 5000,
        },
        now + 20,
        &router(),
    );
    let gen_b = match acts.as_slice() {
        [Action::SpawnMappingTask { generation, .. }] => *generation,
        other => panic!("expected one spawn, got {:?}", other),
    };
    let acts = s.on_mapping_result(gen_b, Ok(upnp_mapping(5001)), now + 30);
    let releases: Vec<&Action> = acts
        .iter()
        .filter(|a| matches!(a, Action::ReleaseMapping(_)))
        .collect();
    assert_eq!(releases.len(), 1);
    match releases[0] {
        Action::ReleaseMapping(m) => assert_eq!(m.external(), (Ipv4Address::new(203, 0, 113, 7), 5000)),
        _ => unreachable!(),
    }
    assert_eq!(
        s.current_mapping.external(),
        Some((Ipv4Address::new(203, 0, 113, 7), 5001))
    );
}

#[test]
fn release_on_deactivate() {
    let now: u64 = 10_000;
    let mut s = Service::new(Config::default(), now);
    let acts = s.update_local_port(Some(4100), now, &router());
    let gen_a = match acts.as_slice() {
        [Action::SpawnMappingTask { generation, .. }] => *generation,
        other => panic!("expected one spawn, got {:?}", other),
    };
    s.on_mapping_result(gen_a, Ok(upnp_mapping(5000)), now + 10);

    // Deactivation releases the mapping and spawns nothing.
    let acts = s.handle_msg(
        Message::UpdateLocalPort { local_port: None },
        now + 20,
        &router(),
    );
    match acts.as_slice() {
        [Action::ReleaseMapping(m)] => {
            assert_eq!(m.external(), (Ipv4Address::new(203, 0, 113, 7), 5000));
        }
        other => panic!("expected one release, got {:?}", other),
    }
    assert!(s.current_mapping.external().is_none());
}

#[test]
fn probe_fan_out() {
    let now: u64 = 10_000_000;
    let mut s = Service::new(Config::default(), now);

    // First request starts the one probe task.
    let acts = s.probe_request(1, now, &router());
    assert!(matches!(acts.as_slice(), [Action::SpawnProbeTask { .. }]));

    // A second request joins the fan-out list instead of starting
    // another.
    let acts = s.probe_request(2, now + 1, &router());
    assert!(acts.is_empty());

    // Completion answers both waiters in arrival order.
    let mut result = Probe::empty(now + 50);
    result.last_pcp = Some(now + 50);
    let acts = s.on_probe_result(Ok(result), now + 50);
    match acts.as_slice() {
        [Action::ReplyProbe {
            waiter: w1,
            result: r1,
        }, Action::ReplyProbe {
            waiter: w2,
            result: r2,
        }] => {
            assert_eq!(*w1, 1);
            assert_eq!(*w2, 2);
            assert_eq!(r1.unwrap().pcp, true);
            assert_eq!(r2.unwrap().pcp, true);
            assert_eq!(r1.unwrap().upnp, false);
        }
        other => panic!("expected two replies, got {:?}", other),
    }
}

#[test]
fn probe_errors_without_router() {
    let now: u64 = 10_000_000;
    let mut s = Service::new(Config::default(), now);
    let acts = s.probe_request(9, now, &None);
    match acts.as_slice() {
        [Action::ReplyProbe { waiter, result }] => {
            assert_eq!(*waiter, 9);
            assert_eq!(result.unwrap_err(), ProbeError::NoGateway);
        }
        other => panic!("expected one reply, got {:?}", other),
    }
}

#[test]
fn gateway_lookup() {
    assert_eq!(ip_and_gateway(&None).unwrap_err(), ProbeError::NoGateway);
    let v6_router = Some(HomeRouter {
        gateway: IpAddress::V6(Ipv6Address::new(0xfe80, 0, 0, 0, 0, 0, 0, 1)),
        my_ip: None,
    });
    assert_eq!(
        ip_and_gateway(&v6_router).unwrap_err(),
        ProbeError::Ipv6Gateway
    );
    let no_ip = Some(HomeRouter {
        gateway: IpAddress::V4(Ipv4Address::new(192, 168, 1, 1)),
        my_ip: None,
    });
    assert_eq!(
        ip_and_gateway(&no_ip).unwrap(),
        (
            Ipv4Address::new(127, 0, 0, 1),
            Ipv4Address::new(192, 168, 1, 1)
        )
    );
    assert_eq!(
        ip_and_gateway(&router()).unwrap(),
        (
            Ipv4Address::new(192, 168, 1, 10),
            Ipv4Address::new(192, 168, 1, 1)
        )
    );
}

#[test]
fn current_mapping_deadlines() {
    let now: u64 = 1_000_000;
    let mut cm = CurrentMapping::new();
    assert!(cm.poll(now).is_none());
    let old = cm.update(Some(upnp_mapping(5000)), now);
    assert!(old.is_none());
    assert_eq!(
        cm.external(),
        Some((Ipv4Address::new(203, 0, 113, 7), 5000))
    );

    // Half-lifetime of a UPnP mapping is one hour.
    assert!(cm.poll(now + 3_600_000 - 1).is_none());
    assert_eq!(
        cm.poll(now + 3_600_000),
        Some(Event::Renew {
            external_ip: Ipv4Address::new(203, 0, 113, 7),
            external_port: 5000,
        })
    );
    // The renew event fires once.
    assert!(cm.poll(now + 3_600_001).is_none());
    assert_eq!(
        cm.poll(now + 7_200_000),
        Some(Event::Expired {
            external_ip: Ipv4Address::new(203, 0, 113, 7),
            external_port: 5000,
        })
    );
    assert!(cm.poll(now + 7_200_001).is_none());

    // Replacement hands the old mapping back.
    let old = cm.update(Some(upnp_mapping(5001)), now + 7_300_000);
    match old {
        Some(m) => assert_eq!(m.external(), (Ipv4Address::new(203, 0, 113, 7), 5000)),
        None => panic!("expected the replaced mapping"),
    }
}

#[test]
fn monitor_deduplicates_addresses() {
    let mut st = RouteMonitorState::new();
    let addr = IpAddress::V4(Ipv4Address::new(10, 0, 0, 2));
    let ev = RouteEvent::NewAddress {
        ifindex: 3,
        addr: Some(addr),
    };
    assert_eq!(st.handle(ev), MonitorDecision::EmitChange);
    assert_eq!(st.handle(ev), MonitorDecision::Nothing);
    assert_eq!(
        st.handle(RouteEvent::DelAddress {
            ifindex: 3,
            addr: Some(addr),
        }),
        MonitorDecision::EmitChange
    );
    assert_eq!(st.handle(ev), MonitorDecision::EmitChange);
}

#[test]
fn monitor_filters_noise_routes() {
    let mut st = RouteMonitorState::new();
    let multicast = IpAddress::V4(Ipv4Address::new(224, 0, 0, 1));
    assert_eq!(
        st.handle(RouteEvent::RouteChange {
            table: 255,
            dst: Some(multicast),
        }),
        MonitorDecision::Nothing
    );
    assert_eq!(
        st.handle(RouteEvent::RouteChange {
            table: 254,
            dst: Some(IpAddress::V4(Ipv4Address::new(169, 254, 0, 1))),
        }),
        MonitorDecision::Nothing
    );
    assert_eq!(
        st.handle(RouteEvent::RouteChange {
            table: 100,
            dst: Some(multicast),
        }),
        MonitorDecision::EmitChange
    );
    assert_eq!(
        st.handle(RouteEvent::RouteChange {
            table: 254,
            dst: Some(IpAddress::V4(Ipv4Address::new(8, 8, 8, 8))),
        }),
        MonitorDecision::EmitChange
    );
    assert_eq!(st.handle(RouteEvent::Done), MonitorDecision::Reconnect);
}

#[test]
fn backoff_doubles_and_caps() {
    assert_eq!(next_backoff(1000), 2000);
    assert_eq!(next_backoff(8000), 16_000);
    assert_eq!(next_backoff(16_000), 30_000);
    assert_eq!(next_backoff(30_000), 30_000);
}

#[test]
fn netlink_group_bits() {
    assert_eq!(nl_mgrp(0), 0);
    assert_eq!(nl_mgrp(1), 1);
    assert_eq!(nl_mgrp(5), 0x10);
    assert_eq!(nl_mgrp(31), 0x4000_0000);
}

#[test]
fn probe_merge_keeps_older_sightings() {
    let mut base = Probe::empty(100);
    base.last_nat_pmp = Some(90);
    let mut fresh = Probe::empty(200);
    fresh.last_pcp = Some(190);
    base.update(fresh);
    assert_eq!(base.last_probe, 200);
    assert_eq!(base.last_pcp, Some(190));
    assert_eq!(base.last_nat_pmp, Some(90));
}

#[test]
fn all_available_needs_all_three() {
    assert!(ProbeOutput {
        upnp: true,
        pcp: true,
        nat_pmp: true
    }
    .all_available());
    assert!(!ProbeOutput {
        upnp: true,
        pcp: true,
        nat_pmp: false
    }
    .all_available());
}
