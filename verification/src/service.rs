//! The mapping supervisor's decision logic, as a state machine.
//!
//! Each transition takes the current instant and what the router lookup
//! returned, updates the supervisor's state, and yields the actions the
//! surrounding event loop must perform (spawn or cancel a task, release a
//! mapping remotely, answer a probe request). The loop itself — channels,
//! sockets, timers — lives outside the crate.
//!
//! The invariants of the supervisor are visible in the state's shape and
//! in the transition contracts: at most one mapping task and one probe
//! task exist (each lives in an `Option`), a replaced mapping is released
//! exactly once, and a cancelled task's late result installs nothing.

use vstd::prelude::*;

use crate::current_mapping::{CurrentMapping, Event};
use crate::interfaces::HomeRouter;
use crate::ip::{localhost, spec_localhost, IpAddress, Ipv4Address};
use crate::mapping::{self, Mapping};
use crate::probe::{recently_probed, spec_merge, spec_recently_probed, Config, Probe, ProbeError,
    ProbeOutput};
use crate::upnp;
use crate::{AVAILABILITY_TRUST_DURATION_MS, MAX_INSTANT_MS};

verus! {

/// A port-mapping protocol the supervisor can try.
#[derive(Clone, Copy, Debug, PartialEq, Eq, Structural, Hash)]
pub enum Protocol {
    Upnp,
    Pcp,
    NatPmp,
}

/// An inbound request to the supervisor.
#[derive(Clone, Copy, Debug, PartialEq, Eq, Structural)]
pub enum Message {
    /// Attempt to get a mapping if the local port is set but there is no
    /// mapping.
    ProcureMapping,
    /// Request to update the local port; `None` deactivates port mapping.
    UpdateLocalPort { local_port: Option<u16> },
    /// Request to probe the port mapping protocols; `waiter` names the
    /// caller's reply channel.
    Probe { waiter: u64 },
}

/// The one in-flight mapping attempt, named by its generation so a
/// cancelled attempt's late result can be told apart from the current
/// one's.
#[derive(Clone, Copy, Debug, PartialEq, Eq, Structural)]
pub struct MappingTask {
    pub generation: u64,
}

/// The one in-flight probe, with the reply channels waiting on it in
/// arrival order.
#[derive(Debug)]
pub struct ProbingTask {
    pub waiters: Vec<u64>,
}

/// What the surrounding event loop must do after a transition.
#[derive(Clone, Copy, Debug)]
pub enum Action {
    /// Release this mapping remotely; it is no longer the current one.
    ReleaseMapping(Mapping),
    /// Abort the in-flight mapping task of this generation.
    CancelMappingTask { generation: u64 },
    /// Start a mapping attempt with the given protocol and parameters.
    SpawnMappingTask {
        protocol: Protocol,
        local_ip: Ipv4Address,
        local_port: u16,
        gateway: Ipv4Address,
        external_addr: Option<(Ipv4Address, u16)>,
        known_upnp_gateway: Option<upnp::Gateway>,
        generation: u64,
    },
    /// Start a probe of all enabled protocols.
    SpawnProbeTask { local_ip: Ipv4Address, gateway: Ipv4Address },
    /// Answer the probe request identified by `waiter`.
    ReplyProbe { waiter: u64, result: Result<ProbeOutput, ProbeError> },
}

/// The protocol the next mapping attempt uses: prefer a protocol whose
/// availability was confirmed (PCP, then NAT-PMP), fall back to UPnP
/// optimistically when it is enabled, and blind-try PCP or NAT-PMP only
/// when no recent probe says they are absent.
pub open spec fn spec_select_protocol(
    config: Config,
    output: ProbeOutput,
    recent: bool,
) -> Option<Protocol> {
    if output.pcp {
        Some(Protocol::Pcp)
    } else if output.nat_pmp {
        Some(Protocol::NatPmp)
    } else if output.upnp || config.enable_upnp {
        Some(Protocol::Upnp)
    } else if !recent && config.enable_pcp {
        Some(Protocol::Pcp)
    } else if !recent && config.enable_nat_pmp {
        Some(Protocol::NatPmp)
    } else {
        None
    }
}

/// Picks the protocol for a new mapping attempt.
pub fn select_protocol(config: &Config, output: &ProbeOutput, recent: bool) -> (r: Option<
    Protocol,
>)
    ensures
        r == spec_select_protocol(*config, *output, recent),
{
    if output.pcp {
        Some(Protocol::Pcp)
    } else if output.nat_pmp {
        Some(Protocol::NatPmp)
    } else if output.upnp || config.enable_upnp {
        Some(Protocol::Upnp)
    } else if !recent && config.enable_pcp {
        Some(Protocol::Pcp)
    } else if !recent && config.enable_nat_pmp {
        Some(Protocol::NatPmp)
    } else {
        None
    }
}

/// Selection: when every protocol reads as available, the next attempt
/// uses PCP, whatever the configuration.
pub proof fn lemma_selection_prefers_pcp(config: Config, output: ProbeOutput, recent: bool)
    requires
        output.pcp,
        output.nat_pmp,
        output.upnp,
    ensures
        spec_select_protocol(config, output, recent) == Some(Protocol::Pcp),
{
}

/// What the router lookup yields for port mapping: the local LAN address
/// to bind (127.0.0.1 when none is suitable) and the IPv4 gateway to
/// speak to. No router at all or an IPv6 gateway is an error.
pub open spec fn spec_ip_and_gateway(router: Option<HomeRouter>) -> Result<
    (Ipv4Address, Ipv4Address),
    ProbeError,
> {
    match router {
        None => Err(ProbeError::NoGateway),
        Some(hr) => {
            let local_ip = match hr.my_ip {
                Some(IpAddress::V4(ip)) => if !ip.spec_is_unspecified() && !ip.spec_is_loopback()
                    && !ip.spec_is_multicast() {
                    ip
                } else {
                    spec_localhost()
                },
                _ => spec_localhost(),
            };
            match hr.gateway {
                IpAddress::V4(gw) => Ok((local_ip, gw)),
                IpAddress::V6(_) => Err(ProbeError::Ipv6Gateway),
            }
        },
    }
}

/// Gets the local ip and gateway address for port mapping.
pub fn ip_and_gateway(router: &Option<HomeRouter>) -> (r: Result<
    (Ipv4Address, Ipv4Address),
    ProbeError,
>)
    ensures
        r == spec_ip_and_gateway(*router),
{
    match router {
        None => Err(ProbeError::NoGateway),
        Some(hr) => {
            let local_ip = match &hr.my_ip {
                Some(IpAddress::V4(ip)) => {
                    if !ip.is_unspecified() && !ip.is_loopback() && !ip.is_multicast() {
                        *ip
                    } else {
                        localhost()
                    }
                },
                _ => localhost(),
            };
            match &hr.gateway {
                IpAddress::V4(gw) => Ok((local_ip, *gw)),
                IpAddress::V6(_) => Err(ProbeError::Ipv6Gateway),
            }
        },
    }
}

/// The generation after `g`.
pub open spec fn spec_next_generation(g: u64) -> u64 {
    if g == 0xFFFF_FFFF_FFFF_FFFF {
        0
    } else {
        (g + 1) as u64
    }
}

/// The UPnP gateway remembered from the last probe, if any.
pub open spec fn spec_upnp_gateway(probe: Probe) -> Option<upnp::Gateway> {
    match probe.last_upnp_gateway_addr {
        Some((g, _)) => Some(g),
        None => None,
    }
}

/// The spawn action for a chosen protocol.
pub open spec fn spec_spawn(
    protocol: Protocol,
    local_ip: Ipv4Address,
    local_port: u16,
    gateway: Ipv4Address,
    external_addr: Option<(Ipv4Address, u16)>,
    probe: Probe,
    generation: u64,
) -> Action {
    Action::SpawnMappingTask {
        protocol,
        local_ip,
        local_port,
        gateway,
        external_addr,
        known_upnp_gateway: if protocol is Upnp {
            spec_upnp_gateway(probe)
        } else {
            None
        },
        generation,
    }
}

/// What a mapping attempt at `now` decides: nothing without a local port,
/// a usable router, and a protocol to try; else the protocol with the
/// addresses to use.
pub open spec fn spec_selection(
    config: Config,
    local_port: Option<u16>,
    probe: Probe,
    now: u64,
    router: Option<HomeRouter>,
) -> Option<(Protocol, Ipv4Address, Ipv4Address)> {
    match local_port {
        None => None,
        Some(_) => match spec_ip_and_gateway(router) {
            Err(_) => None,
            Ok((local_ip, gateway)) => match spec_select_protocol(
                config,
                probe.spec_output(now),
                spec_recently_probed(probe.last_probe, now),
            ) {
                None => None,
                Some(p) => Some((p, local_ip, gateway)),
            },
        },
    }
}

/// The supervisor's state between events.
#[derive(Debug)]
pub struct Service {
    /// Which protocols are enabled.
    pub config: Config,
    /// Local port to map, nonzero when set.
    pub local_port: Option<u16>,
    /// Currently active mapping.
    pub current_mapping: CurrentMapping,
    /// Last updated probe.
    pub full_probe: Probe,
    /// The in-flight mapping attempt, at most one.
    pub mapping_task: Option<MappingTask>,
    /// The in-flight probe, at most one, with its waiting reply channels.
    pub probing_task: Option<ProbingTask>,
    /// Generation the next mapping task will get.
    pub next_generation: u64,
}

/// State after `get_mapping`: on a selection, the mapping-task slot is
/// (re)filled with a task of the pre-state's generation and exactly one
/// spawn action is appended; otherwise nothing changes.
pub open spec fn get_mapping_post(
    pre: Service,
    post: Service,
    acts_pre: Seq<Action>,
    acts_post: Seq<Action>,
    external_addr: Option<(Ipv4Address, u16)>,
    now: u64,
    router: Option<HomeRouter>,
) -> bool {
    &&& post.config == pre.config
    &&& post.local_port == pre.local_port
    &&& post.current_mapping == pre.current_mapping
    &&& post.full_probe == pre.full_probe
    &&& post.probing_task == pre.probing_task
    &&& match spec_selection(pre.config, pre.local_port, pre.full_probe, now, router) {
        Some((p, local_ip, gateway)) => {
            &&& post.mapping_task == Some(MappingTask { generation: pre.next_generation })
            &&& post.next_generation == spec_next_generation(pre.next_generation)
            &&& acts_post == acts_pre.push(
                spec_spawn(
                    p,
                    local_ip,
                    pre.local_port.unwrap(),
                    gateway,
                    external_addr,
                    pre.full_probe,
                    pre.next_generation,
                ),
            )
        },
        None => {
            &&& post.mapping_task == pre.mapping_task
            &&& post.next_generation == pre.next_generation
            &&& acts_post == acts_pre
        },
    }
}

/// State after `update_local_port`. On a port change the old mapping
/// task is cancelled, the old mapping released, and a new attempt made;
/// on an unchanged port a new attempt is made only when no mapping is
/// held.
pub open spec fn update_local_port_post(
    pre: Service,
    post: Service,
    acts: Seq<Action>,
    local_port: Option<u16>,
    now: u64,
    router: Option<HomeRouter>,
) -> bool {
    let ext = pre.current_mapping.spec_external();
    let cancel_part: Seq<Action> = match pre.mapping_task {
        Some(t) => seq![Action::CancelMappingTask { generation: t.generation }],
        None => Seq::empty(),
    };
    let release_part: Seq<Action> = match pre.current_mapping.spec_mapping() {
        Some(m) => seq![Action::ReleaseMapping(m)],
        None => Seq::empty(),
    };
    let sel = spec_selection(pre.config, local_port, pre.full_probe, now, router);
    if local_port != pre.local_port {
        &&& post.config == pre.config
        &&& post.full_probe == pre.full_probe
        &&& post.probing_task == pre.probing_task
        &&& post.local_port == local_port
        &&& post.current_mapping.spec_mapping() is None
        &&& match sel {
            Some((p, local_ip, gateway)) => {
                &&& post.mapping_task == Some(MappingTask { generation: pre.next_generation })
                &&& post.next_generation == spec_next_generation(pre.next_generation)
                &&& acts == cancel_part + release_part + seq![
                    spec_spawn(
                        p,
                        local_ip,
                        local_port.unwrap(),
                        gateway,
                        ext,
                        pre.full_probe,
                        pre.next_generation,
                    ),
                ]
            },
            None => {
                &&& post.mapping_task is None
                &&& post.next_generation == pre.next_generation
                &&& acts == cancel_part + release_part
            },
        }
    } else if ext is None {
        &&& post.config == pre.config
        &&& post.full_probe == pre.full_probe
        &&& post.probing_task == pre.probing_task
        &&& post.local_port == pre.local_port
        &&& post.current_mapping == pre.current_mapping
        &&& match sel {
            Some((p, local_ip, gateway)) => {
                &&& post.mapping_task == Some(MappingTask { generation: pre.next_generation })
                &&& post.next_generation == spec_next_generation(pre.next_generation)
                &&& acts == seq![
                    spec_spawn(
                        p,
                        local_ip,
                        local_port.unwrap(),
                        gateway,
                        None,
                        pre.full_probe,
                        pre.next_generation,
                    ),
                ]
            },
            None => {
                &&& post.mapping_task == pre.mapping_task
                &&& post.next_generation == pre.next_generation
                &&& acts == Seq::<Action>::empty()
            },
        }
    } else {
        &&& post == pre
        &&& acts == Seq::<Action>::empty()
    }
}

/// State after `probe_request`: join an in-flight probe, answer at once
/// from fresh results, report a router failure, or start the one probe.
pub open spec fn probe_request_post(
    pre: Service,
    post: Service,
    acts: Seq<Action>,
    waiter: u64,
    now: u64,
    router: Option<HomeRouter>,
) -> bool {
    let unchanged_core = post.config == pre.config && post.local_port == pre.local_port
        && post.current_mapping == pre.current_mapping && post.full_probe == pre.full_probe
        && post.mapping_task == pre.mapping_task && post.next_generation == pre.next_generation;
    match pre.probing_task {
        Some(pt) => {
            &&& unchanged_core
            &&& post.probing_task matches Some(pt2) && pt2.waiters@ == pt.waiters@.push(waiter)
            &&& acts == Seq::<Action>::empty()
        },
        None => {
            let output = pre.full_probe.spec_output(now);
            if output.upnp && output.pcp && output.nat_pmp {
                &&& post == pre
                &&& acts == seq![Action::ReplyProbe { waiter, result: Ok(output) }]
            } else {
                match spec_ip_and_gateway(router) {
                    Err(e) => {
                        &&& post == pre
                        &&& acts == seq![
                            Action::ReplyProbe {
                                waiter,
                                result: Err::<ProbeOutput, ProbeError>(e),
                            },
                        ]
                    },
                    Ok((local_ip, gateway)) => {
                        &&& unchanged_core
                        &&& post.probing_task matches Some(pt2) && pt2.waiters@ == seq![waiter]
                        &&& acts == seq![Action::SpawnProbeTask { local_ip, gateway }]
                    },
                }
            }
        },
    }
}

/// State after `on_mapping_result`: the result of the current generation
/// clears the task slot and, on success, installs the mapping and
/// releases the one it replaces; a stale result changes nothing.
pub open spec fn on_mapping_result_post(
    pre: Service,
    post: Service,
    acts: Seq<Action>,
    generation: u64,
    result: Result<Mapping, mapping::Error>,
    now: u64,
) -> bool {
    let current = match pre.mapping_task {
        Some(t) => t.generation == generation,
        None => false,
    };
    if current {
        &&& post.config == pre.config
        &&& post.local_port == pre.local_port
        &&& post.full_probe == pre.full_probe
        &&& post.probing_task == pre.probing_task
        &&& post.next_generation == pre.next_generation
        &&& post.mapping_task is None
        &&& match result {
            Ok(m) => {
                &&& post.current_mapping.spec_mapping() == Some(m)
                &&& acts == match pre.current_mapping.spec_mapping() {
                    Some(o) => seq![Action::ReleaseMapping(o)],
                    None => Seq::<Action>::empty(),
                }
            },
            Err(_) => {
                &&& post.current_mapping == pre.current_mapping
                &&& acts == Seq::<Action>::empty()
            },
        }
    } else {
        &&& post == pre
        &&& acts == Seq::<Action>::empty()
    }
}

/// State after `on_probe_result`: the probe slot empties, a successful
/// probe refreshes the stored freshness, and every waiter gets the same
/// answer in arrival order.
pub open spec fn on_probe_result_post(
    pre: Service,
    post: Service,
    acts: Seq<Action>,
    result: Result<Probe, ProbeError>,
    now: u64,
) -> bool {
    match pre.probing_task {
        Some(pt) => {
            let merged = match result {
                Ok(p) => spec_merge(pre.full_probe, p),
                Err(_) => pre.full_probe,
            };
            let res = match result {
                Ok(_) => Ok::<ProbeOutput, ProbeError>(merged.spec_output(now)),
                Err(e) => Err::<ProbeOutput, ProbeError>(e),
            };
            &&& post.config == pre.config
            &&& post.local_port == pre.local_port
            &&& post.current_mapping == pre.current_mapping
            &&& post.mapping_task == pre.mapping_task
            &&& post.next_generation == pre.next_generation
            &&& post.full_probe == merged
            &&& post.probing_task is None
            &&& acts == pt.waiters@.map_values(
                |w: u64| Action::ReplyProbe { waiter: w, result: res },
            )
        },
        None => {
            &&& post == pre
            &&& acts == Seq::<Action>::empty()
        },
    }
}

impl Service {
    /// A set local port is nonzero, any held mapping is sound, and the
    /// in-flight mapping task never carries the generation the next task
    /// will get: a task spawned now is distinguishable from the one it
    /// replaces, so a cancelled task's late result cannot pass for the
    /// new task's.
    pub open spec fn well_formed(self) -> bool {
        &&& match self.local_port {
            Some(p) => p != 0,
            None => true,
        }
        &&& self.current_mapping.well_formed()
        &&& match self.mapping_task {
            Some(t) => t.generation != self.next_generation,
            None => true,
        }
    }

    /// A fresh supervisor: no port, no mapping, no tasks, and the last
    /// probe backdated so the first request probes in earnest.
    pub fn new(config: Config, now: u64) -> (r: Service)
        ensures
            r.config == config,
            r.local_port is None,
            r.current_mapping.spec_mapping() is None,
            r.mapping_task is None,
            r.probing_task is None,
            r.next_generation == 0,
            r.full_probe == (Probe {
                last_probe: if now >= AVAILABILITY_TRUST_DURATION_MS {
                    (now - AVAILABILITY_TRUST_DURATION_MS) as u64
                } else {
                    now
                },
                last_upnp_gateway_addr: None::<(upnp::Gateway, u64)>,
                last_pcp: None::<u64>,
                last_nat_pmp: None::<u64>,
            }),
            r.well_formed(),
    {
        let backdated: u64 = if now >= AVAILABILITY_TRUST_DURATION_MS {
            now - AVAILABILITY_TRUST_DURATION_MS
        } else {
            now
        };
        Service {
            config,
            local_port: None,
            current_mapping: CurrentMapping::new(),
            full_probe: Probe::empty(backdated),
            mapping_task: None,
            probing_task: None,
            next_generation: 0,
        }
    }

    /// Starts a mapping attempt for the configured local port, if one can
    /// be made.
    fn get_mapping(
        &mut self,
        external_addr: Option<(Ipv4Address, u16)>,
        now: u64,
        router: &Option<HomeRouter>,
        actions: &mut Vec<Action>,
    )
        ensures
            get_mapping_post(
                *old(self),
                *final(self),
                old(actions)@,
                final(actions)@,
                external_addr,
                now,
                *router,
            ),
    {
        let local_port = match self.local_port {
            Some(p) => p,
            None => {
                return ;
            },
        };
        let (local_ip, gateway) = match ip_and_gateway(router) {
            Ok(pair) => pair,
            Err(_) => {
                return ;
            },
        };
        let output = self.full_probe.output(now);
        let recent = recently_probed(self.full_probe.last_probe, now);
        match select_protocol(&self.config, &output, recent) {
            Some(protocol) => {
                let generation = self.next_generation;
                self.next_generation = if generation == 0xFFFF_FFFF_FFFF_FFFF {
                    0
                } else {
                    generation + 1
                };
                self.mapping_task = Some(MappingTask { generation });
                let known_upnp_gateway = match (protocol, &self.full_probe.last_upnp_gateway_addr) {
                    (Protocol::Upnp, Some((g, _))) => Some(*g),
                    _ => None,
                };
                actions.push(
                    Action::SpawnMappingTask {
                        protocol,
                        local_ip,
                        local_port,
                        gateway,
                        external_addr,
                        known_upnp_gateway,
                        generation,
                    },
                );
            },
            None => {},
        }
    }

    /// Updates the local port of the port mapping service.
    ///
    /// If the port changed, the in-flight mapping task is cancelled, the
    /// current mapping is released, and (when the new port is set) a new
    /// mapping attempt starts. If the port is unchanged but no mapping is
    /// held, an attempt starts as well.
    pub fn update_local_port(
        &mut self,
        local_port: Option<u16>,
        now: u64,
        router: &Option<HomeRouter>,
    ) -> (actions: Vec<Action>)
        requires
            old(self).well_formed(),
            now < MAX_INSTANT_MS,
            local_port matches Some(p) ==> p != 0,
        ensures
            update_local_port_post(*old(self), *final(self), actions@, local_port, now, *router),
            final(self).well_formed(),
    {
        let mut actions: Vec<Action> = Vec::new();
        let changed = match (&local_port, &self.local_port) {
            (None, None) => false,
            (Some(a), Some(b)) => a != b,
            _ => true,
        };
        if changed {
            self.local_port = local_port;
            match self.mapping_task.take() {
                Some(t) => {
                    actions.push(Action::CancelMappingTask { generation: t.generation });
                },
                None => {},
            }
            let external_addr = self.current_mapping.external();
            if external_addr.is_some() {
                match self.current_mapping.update(None, now) {
                    Some(old_mapping) => {
                        actions.push(Action::ReleaseMapping(old_mapping));
                    },
                    None => {},
                }
            }
            let ghost acts_mid = actions@;
            self.get_mapping(external_addr, now, router, &mut actions);
            proof {
                let pre = *old(self);
                let cancel_part: Seq<Action> = match pre.mapping_task {
                    Some(t) => seq![Action::CancelMappingTask { generation: t.generation }],
                    None => Seq::empty(),
                };
                let release_part: Seq<Action> = match pre.current_mapping.spec_mapping() {
                    Some(m) => seq![Action::ReleaseMapping(m)],
                    None => Seq::empty(),
                };
                assert(acts_mid =~= cancel_part + release_part);
                match spec_selection(pre.config, local_port, pre.full_probe, now, *router) {
                    Some((p, local_ip, gateway)) => {
                        assert(actions@ =~= cancel_part + release_part + seq![
                            spec_spawn(
                                p,
                                local_ip,
                                local_port.unwrap(),
                                gateway,
                                pre.current_mapping.spec_external(),
                                pre.full_probe,
                                pre.next_generation,
                            ),
                        ]);
                    },
                    None => {
                        assert(actions@ =~= cancel_part + release_part);
                    },
                }
            }
        } else {
            let has_mapping = self.current_mapping.external().is_some();
            if !has_mapping {
                self.get_mapping(None, now, router, &mut actions);
                proof {
                    let pre = *old(self);
                    match spec_selection(pre.config, local_port, pre.full_probe, now, *router) {
                        Some((p, local_ip, gateway)) => {
                            assert(actions@ =~= Seq::<Action>::empty().push(
                                spec_spawn(
                                    p,
                                    local_ip,
                                    local_port.unwrap(),
                                    gateway,
                                    None,
                                    pre.full_probe,
                                    pre.next_generation,
                                ),
                            ));
                            assert(actions@ =~= seq![
                                spec_spawn(
                                    p,
                                    local_ip,
                                    local_port.unwrap(),
                                    gateway,
                                    None,
                                    pre.full_probe,
                                    pre.next_generation,
                                ),
                            ]);
                        },
                        None => {
                            assert(actions@ =~= Seq::<Action>::empty());
                        },
                    }
                }
            } else {
                proof {
                    assert(actions@ =~= Seq::<Action>::empty());
                }
            }
        }
        actions
    }

    /// Handles a probe request from `waiter`.
    ///
    /// If a probe is in flight the waiter joins its fan-out list; if the
    /// last results are all fresh they are returned at once; otherwise a
    /// probe task starts, or the router failure is reported.
    pub fn probe_request(&mut self, waiter: u64, now: u64, router: &Option<HomeRouter>) -> (actions:
        Vec<Action>)
        requires
            old(self).well_formed(),
        ensures
            probe_request_post(*old(self), *final(self), actions@, waiter, now, *router),
            final(self).well_formed(),
    {
        let mut actions: Vec<Action> = Vec::new();
        match &mut self.probing_task {
            Some(pt) => {
                pt.waiters.push(waiter);
            },
            None => {
                let output = self.full_probe.output(now);
                if output.all_available() {
                    actions.push(Action::ReplyProbe { waiter, result: Ok(output) });
                } else {
                    match ip_and_gateway(router) {
                        Err(e) => {
                            actions.push(Action::ReplyProbe { waiter, result: Err(e) });
                        },
                        Ok((local_ip, gateway)) => {
                            let mut waiters: Vec<u64> = Vec::new();
                            waiters.push(waiter);
                            proof {
                                assert(waiters@ =~= seq![waiter]);
                            }
                            self.probing_task = Some(ProbingTask { waiters });
                            actions.push(Action::SpawnProbeTask { local_ip, gateway });
                        },
                    }
                }
            },
        }
        proof {
            assert(probe_request_post(
                *old(self),
                *final(self),
                actions@,
                waiter,
                now,
                *router,
            ));
        }
        actions
    }

    /// Handles the completion of a mapping task.
    ///
    /// Only the result of the task the supervisor still owns counts: it
    /// clears the slot and, on success, installs the mapping, releasing
    /// the one it replaces. A cancelled (stale) task's result is
    /// discarded whole.
    pub fn on_mapping_result(
        &mut self,
        generation: u64,
        result: Result<Mapping, mapping::Error>,
        now: u64,
    ) -> (actions: Vec<Action>)
        requires
            old(self).well_formed(),
            now < MAX_INSTANT_MS,
            result matches Ok(m) ==> m.well_formed(),
        ensures
            on_mapping_result_post(*old(self), *final(self), actions@, generation, result, now),
            final(self).well_formed(),
    {
        let mut actions: Vec<Action> = Vec::new();
        let current = match &self.mapping_task {
            Some(t) => t.generation == generation,
            None => false,
        };
        if current {
            self.mapping_task = None;
            match result {
                Ok(m) => {
                    match self.current_mapping.update(Some(m), now) {
                        Some(old_mapping) => {
                            actions.push(Action::ReleaseMapping(old_mapping));
                            proof {
                                assert(actions@ =~= seq![Action::ReleaseMapping(old_mapping)]);
                            }
                        },
                        None => {
                            proof {
                                assert(actions@ =~= Seq::<Action>::empty());
                            }
                        },
                    }
                },
                Err(_) => {
                    proof {
                        assert(actions@ =~= Seq::<Action>::empty());
                    }
                },
            }
        } else {
            proof {
                assert(actions@ =~= Seq::<Action>::empty());
            }
        }
        actions
    }

    /// Handles the completion of the probe task: refreshes the stored
    /// freshness on success and answers every waiter, in arrival order,
    /// with the same result.
    pub fn on_probe_result(&mut self, result: Result<Probe, ProbeError>, now: u64) -> (actions: Vec<
        Action,
    >)
        requires
            old(self).well_formed(),
        ensures
            on_probe_result_post(*old(self), *final(self), actions@, result, now),
            final(self).well_formed(),
    {
        let mut actions: Vec<Action> = Vec::new();
        match self.probing_task.take() {
            None => {},
            Some(pt) => {
                let res: Result<ProbeOutput, ProbeError> = match result {
                    Ok(p) => {
                        self.full_probe.update(p);
                        Ok(self.full_probe.output(now))
                    },
                    Err(e) => Err(e),
                };
                let ghost expected = pt.waiters@.map_values(
                    |w: u64| Action::ReplyProbe { waiter: w, result: res },
                );
                let mut i: usize = 0;
                while i < pt.waiters.len()
                    invariant
                        i <= pt.waiters.len(),
                        actions@ == expected.subrange(0, i as int),
                        expected == pt.waiters@.map_values(
                            |w: u64| Action::ReplyProbe { waiter: w, result: res },
                        ),
                    decreases pt.waiters.len() - i,
                {
                    actions.push(Action::ReplyProbe { waiter: pt.waiters[i], result: res });
                    i = i + 1;
                    proof {
                        assert(actions@ =~= expected.subrange(0, i as int));
                    }
                }
                proof {
                    assert(actions@ =~= expected);
                }
            },
        }
        actions
    }

    /// Handles a renew or expiry event from the current mapping: either
    /// way, try to map the same external address again.
    pub fn on_mapping_event(
        &mut self,
        event: Event,
        now: u64,
        router: &Option<HomeRouter>,
    ) -> (actions: Vec<Action>)
        requires
            old(self).well_formed(),
        ensures
            ({
                let ext = match event {
                    Event::Renew { external_ip, external_port } => Some(
                        (external_ip, external_port),
                    ),
                    Event::Expired { external_ip, external_port } => Some(
                        (external_ip, external_port),
                    ),
                };
                get_mapping_post(
                    *old(self),
                    *final(self),
                    Seq::empty(),
                    actions@,
                    ext,
                    now,
                    *router,
                )
            }),
            final(self).well_formed(),
    {
        let mut actions: Vec<Action> = Vec::new();
        let ext = match event {
            Event::Renew { external_ip, external_port } => Some((external_ip, external_port)),
            Event::Expired { external_ip, external_port } => Some((external_ip, external_port)),
        };
        self.get_mapping(ext, now, router, &mut actions);
        actions
    }

    /// Dispatches one inbound message.
    pub fn handle_msg(&mut self, msg: Message, now: u64, router: &Option<HomeRouter>) -> (actions:
        Vec<Action>)
        requires
            old(self).well_formed(),
            now < MAX_INSTANT_MS,
            msg matches Message::UpdateLocalPort { local_port: Some(p) } ==> p != 0,
        ensures
            match msg {
                Message::ProcureMapping => update_local_port_post(
                    *old(self),
                    *final(self),
                    actions@,
                    old(self).local_port,
                    now,
                    *router,
                ),
                Message::UpdateLocalPort { local_port } => update_local_port_post(
                    *old(self),
                    *final(self),
                    actions@,
                    local_port,
                    now,
                    *router,
                ),
                Message::Probe { waiter } => probe_request_post(
                    *old(self),
                    *final(self),
                    actions@,
                    waiter,
                    now,
                    *router,
                ),
            },
            final(self).well_formed(),
    {
        match msg {
            Message::ProcureMapping => {
                let port = self.local_port;
                self.update_local_port(port, now, router)
            },
            Message::UpdateLocalPort { local_port } => self.update_local_port(
                local_port,
                now,
                router,
            ),
            Message::Probe { waiter } => self.probe_request(waiter, now, router),
        }
    }
}

/// How many mapping tasks a state holds.
pub open spec fn spec_mapping_tasks(s: Service) -> int {
    if s.mapping_task is Some {
        1
    } else {
        0
    }
}

/// How many probe tasks a state holds.
pub open spec fn spec_probe_tasks(s: Service) -> int {
    if s.probing_task is Some {
        1
    } else {
        0
    }
}

/// Single in-flight: in every reachable (indeed every) state the
/// supervisor owns at most one mapping task and at most one probe task —
/// each lives in an `Option` slot.
pub proof fn lemma_single_inflight(s: Service)
    ensures
        spec_mapping_tasks(s) <= 1,
        spec_probe_tasks(s) <= 1,
{
}

/// Release-on-replace, completion side: when the current mapping task
/// succeeds while a mapping is held, the transition emits exactly the
/// release of the prior mapping, and the new one takes the slot.
pub proof fn lemma_release_on_replace(
    pre: Service,
    post: Service,
    acts: Seq<Action>,
    generation: u64,
    result: Result<Mapping, mapping::Error>,
    now: u64,
)
    requires
        on_mapping_result_post(pre, post, acts, generation, result, now),
        pre.mapping_task matches Some(t) && t.generation == generation,
        (result matches Ok(m)),
        (pre.current_mapping.spec_mapping() is Some),
    ensures
        acts =~= seq![Action::ReleaseMapping(pre.current_mapping.spec_mapping().unwrap())],
        post.current_mapping.spec_mapping() == Some(result.unwrap()),
{
}

/// Release-on-replace, port-change side: a port change while a mapping
/// is held emits exactly one release of that mapping.
pub proof fn lemma_release_on_port_change(
    pre: Service,
    post: Service,
    acts: Seq<Action>,
    local_port: Option<u16>,
    now: u64,
    router: Option<HomeRouter>,
)
    requires
        update_local_port_post(pre, post, acts, local_port, now, router),
        local_port != pre.local_port,
        (pre.current_mapping.spec_mapping() is Some),
    ensures
        acts.contains(Action::ReleaseMapping(pre.current_mapping.spec_mapping().unwrap())),
        forall|i: int, j: int|
            0 <= i < acts.len() && 0 <= j < acts.len() && acts[i] is ReleaseMapping
                && acts[j] is ReleaseMapping ==> i == j,
{
    let m = pre.current_mapping.spec_mapping().unwrap();
    let cancel_part: Seq<Action> = match pre.mapping_task {
        Some(t) => seq![Action::CancelMappingTask { generation: t.generation }],
        None => Seq::empty(),
    };
    let release_part: Seq<Action> = seq![Action::ReleaseMapping(m)];
    let ext = pre.current_mapping.spec_external();
    match spec_selection(pre.config, local_port, pre.full_probe, now, router) {
        Some((p, local_ip, gateway)) => {
            let spawn = spec_spawn(
                p,
                local_ip,
                local_port.unwrap(),
                gateway,
                ext,
                pre.full_probe,
                pre.next_generation,
            );
            assert(acts == cancel_part + release_part + seq![spawn]);
            assert(acts[cancel_part.len() as int] == Action::ReleaseMapping(m));
        },
        None => {
            assert(acts == cancel_part + release_part);
            assert(acts[cancel_part.len() as int] == Action::ReleaseMapping(m));
        },
    }
}

/// Cancel-on-port-change: a port change while a mapping task is in
/// flight cancels exactly that task, first of all actions; and a late
/// result of a cancelled (stale) generation installs nothing and changes
/// nothing.
pub proof fn lemma_cancel_on_port_change(
    pre: Service,
    post: Service,
    acts: Seq<Action>,
    local_port: Option<u16>,
    now: u64,
    router: Option<HomeRouter>,
)
    requires
        pre.well_formed(),
        update_local_port_post(pre, post, acts, local_port, now, router),
        local_port != pre.local_port,
        (pre.mapping_task is Some),
    ensures
        acts.len() > 0,
        (acts[0] == Action::CancelMappingTask {
            generation: pre.mapping_task.unwrap().generation,
        }),
        forall|k: int|
            0 <= k < acts.len() ==> ((#[trigger] acts[k]) matches Action::SpawnMappingTask {
                generation,
                ..
            } ==> generation != pre.mapping_task.unwrap().generation),
{
}

/// Selection in the large: whenever PCP reads as available at `now`,
/// any mapping attempt a port-update transition spawns uses PCP,
/// whatever the configuration.
pub proof fn lemma_update_prefers_pcp(
    pre: Service,
    post: Service,
    acts: Seq<Action>,
    local_port: Option<u16>,
    now: u64,
    router: Option<HomeRouter>,
)
    requires
        update_local_port_post(pre, post, acts, local_port, now, router),
        pre.full_probe.spec_output(now).pcp,
    ensures
        forall|k: int|
            0 <= k < acts.len() ==> ((#[trigger] acts[k]) matches Action::SpawnMappingTask {
                protocol,
                ..
            } ==> protocol is Pcp),
{
}

/// Fallback in the large: with no protocol available and UPnP enabled,
/// any mapping attempt a port-update transition spawns uses UPnP.
pub proof fn lemma_update_fallback_upnp(
    pre: Service,
    post: Service,
    acts: Seq<Action>,
    local_port: Option<u16>,
    now: u64,
    router: Option<HomeRouter>,
)
    requires
        update_local_port_post(pre, post, acts, local_port, now, router),
        !pre.full_probe.spec_output(now).pcp,
        !pre.full_probe.spec_output(now).nat_pmp,
        pre.config.enable_upnp,
    ensures
        forall|k: int|
            0 <= k < acts.len() ==> ((#[trigger] acts[k]) matches Action::SpawnMappingTask {
                protocol,
                ..
            } ==> protocol is Upnp),
{
}

/// A stale mapping result — one whose generation is not the task the
/// supervisor owns — is discarded whole.
pub proof fn lemma_stale_result_discarded(
    pre: Service,
    post: Service,
    acts: Seq<Action>,
    generation: u64,
    result: Result<Mapping, mapping::Error>,
    now: u64,
)
    requires
        on_mapping_result_post(pre, post, acts, generation, result, now),
        !(pre.mapping_task matches Some(t) && t.generation == generation),
    ensures
        post == pre,
        acts =~= Seq::<Action>::empty(),
{
}

} // verus!
