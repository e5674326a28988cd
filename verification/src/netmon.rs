//! Decision logic of the network-change monitor.
//!
//! The monitor's socket work (netlink on Linux, the routing socket on
//! BSD) happens outside the crate and feeds each message here as plain
//! values; this module decides whether a message means a network change,
//! keeps the per-interface address cache that deduplicates address
//! announcements, and computes the reconnect backoff.

use vstd::prelude::*;

use crate::ip::IpAddress;

verus! {

/// Initial reconnect backoff, in milliseconds.
pub const INITIAL_BACKOFF_MS: u64 = 1000;

/// Largest reconnect backoff, in milliseconds.
pub const MAX_BACKOFF_MS: u64 = 30_000;

/// Whether an interface takes part in change detection. All names do;
/// uninteresting addresses are filtered per address instead.
pub fn is_interesting_interface(_name: &str) -> (r: bool)
    ensures
        r,
{
    true
}

/// The netlink group bit for a route-notification group number, as
/// passed to a socket bind.
pub fn nl_mgrp(group: u32) -> (r: u32)
    requires
        group <= 31,
    ensures
        r == if group == 0 {
            0u32
        } else {
            (1u32 << (group - 1) as u32)
        },
{
    if group == 0 {
        0
    } else {
        1u32 << (group - 1)
    }
}

/// One message from the platform's route socket, reduced to what the
/// decision needs.
#[derive(Clone, Copy, Debug, PartialEq, Eq, Structural)]
pub enum RouteEvent {
    /// The socket reported an error payload.
    Error,
    /// The socket reported completion: the connection is gone.
    Done,
    /// An address appeared on an interface.
    NewAddress { ifindex: u32, addr: Option<IpAddress> },
    /// An address left an interface.
    DelAddress { ifindex: u32, addr: Option<IpAddress> },
    /// A route appeared or disappeared, in the given table.
    RouteChange { table: u8, dst: Option<IpAddress> },
    /// A routing rule appeared or disappeared.
    RuleChange,
    /// A link appeared or disappeared.
    LinkChange,
    /// Anything else.
    Other,
}

/// What the monitor's loop must do with one message.
#[derive(Clone, Copy, Debug, PartialEq, Eq, Structural)]
pub enum MonitorDecision {
    /// Not a change worth reporting.
    Nothing,
    /// Report a network change to the actor.
    EmitChange,
    /// The connection ended; reconnect after the backoff.
    Reconnect,
}

/// Whether a route change is worth reporting: multicast and link-local
/// destinations in the local (255) and main (254) tables are noise.
pub open spec fn spec_route_change_relevant(table: u8, dst: Option<IpAddress>) -> bool {
    match dst {
        Some(a) => !((table == 255 || table == 254) && (a.spec_is_multicast()
            || a.spec_is_link_local())),
        None => true,
    }
}

/// The per-interface cache of announced addresses: a repeated address
/// announcement is not a change.
#[derive(Debug)]
pub struct AddrCache {
    /// For each interface index, the addresses seen on it.
    pub entries: Vec<(u32, IpAddress)>,
}

impl AddrCache {
    /// Whether the cache holds this address for this interface.
    pub open spec fn spec_contains(self, ifindex: u32, addr: IpAddress) -> bool {
        exists|i: int| 0 <= i < self.entries@.len() && self.entries@[i] == (ifindex, addr)
    }

    /// An empty cache.
    pub fn new() -> (r: AddrCache)
        ensures
            r.entries@.len() == 0,
    {
        AddrCache { entries: Vec::new() }
    }

    /// Looks the pair up.
    fn contains(&self, ifindex: u32, addr: IpAddress) -> (r: bool)
        ensures
            r == self.spec_contains(ifindex, addr),
    {
        let mut i: usize = 0;
        while i < self.entries.len()
            invariant
                i <= self.entries@.len(),
                forall|j: int| 0 <= j < i ==> self.entries@[j] != (ifindex, addr),
            decreases self.entries@.len() - i,
        {
            let (idx, a) = self.entries[i];
            if idx == ifindex && a == addr {
                return true;
            }
            i = i + 1;
        }
        false
    }

    /// Records the pair.
    fn insert(&mut self, ifindex: u32, addr: IpAddress)
        ensures
            final(self).entries@ == old(self).entries@.push((ifindex, addr)),
    {
        self.entries.push((ifindex, addr));
    }

    /// Forgets the pair wherever it appears.
    fn remove(&mut self, ifindex: u32, addr: IpAddress)
        ensures
            !final(self).spec_contains(ifindex, addr),
            forall|idx: u32, a: IpAddress|
                final(self).spec_contains(idx, a) ==> old(self).spec_contains(idx, a),
            forall|idx: u32, a: IpAddress|
                old(self).spec_contains(idx, a) && (idx, a) != (ifindex, addr)
                    ==> final(self).spec_contains(idx, a),
    {
        let mut kept: Vec<(u32, IpAddress)> = Vec::new();
        let mut i: usize = 0;
        while i < self.entries.len()
            invariant
                i <= self.entries@.len(),
                forall|j: int| 0 <= j < kept@.len() ==> (#[trigger] kept@[j]) != (ifindex, addr),
                forall|j: int|
                    0 <= j < kept@.len() ==> exists|k: int|
                        0 <= k < i && (#[trigger] self.entries@[k]) == (#[trigger] kept@[j]),
                forall|k: int|
                    0 <= k < i && (#[trigger] self.entries@[k]) != (ifindex, addr) ==> exists|
                        j: int,
                    |
                        0 <= j < kept@.len() && (#[trigger] kept@[j]) == self.entries@[k],
            decreases self.entries@.len() - i,
        {
            let ghost kept_pre = kept@;
            let ghost i_pre = i as int;
            let (idx, a) = self.entries[i];
            if !(idx == ifindex && a == addr) {
                kept.push((idx, a));
            }
            i = i + 1;
            proof {
                assert forall|k: int|
                    0 <= k < i && (#[trigger] self.entries@[k]) != (ifindex, addr) implies exists|
                    j: int,
                |
                    0 <= j < kept@.len() && (#[trigger] kept@[j]) == self.entries@[k] by {
                    if k == i_pre {
                        assert(kept@[kept@.len() - 1] == self.entries@[k]);
                    } else {
                        let j0 = choose|j: int|
                            0 <= j < kept_pre.len() && (#[trigger] kept_pre[j])
                                == self.entries@[k];
                        assert(kept@[j0] == self.entries@[k]);
                    }
                }
                assert forall|j: int| 0 <= j < kept@.len() implies exists|k: int|
                    0 <= k < i && (#[trigger] self.entries@[k]) == (#[trigger] kept@[j]) by {
                    if j < kept_pre.len() {
                        let k0 = choose|k: int|
                            0 <= k < i_pre && (#[trigger] self.entries@[k]) == kept_pre[j];
                        assert(self.entries@[k0] == kept@[j]);
                    } else {
                        assert(self.entries@[i_pre] == kept@[j]);
                    }
                }
            }
        }
        self.entries = kept;
    }
}

/// The monitor's state between messages: the address cache.
#[derive(Debug)]
pub struct RouteMonitorState {
    pub cache: AddrCache,
}

impl RouteMonitorState {
    /// A fresh monitor with an empty cache, as built after each
    /// (re)connect.
    pub fn new() -> (r: RouteMonitorState)
        ensures
            r.cache.entries@.len() == 0,
    {
        RouteMonitorState { cache: AddrCache::new() }
    }

    /// Decides what one message means.
    ///
    /// A repeated address announcement for an interface is not a change;
    /// an address removal always is. Route changes in the local and main
    /// tables for multicast or link-local destinations are suppressed.
    /// `Done` ends the connection; errors and link messages are noise.
    pub fn handle(&mut self, event: RouteEvent) -> (r: MonitorDecision)
        ensures
            match event {
                RouteEvent::Error => r == MonitorDecision::Nothing && *final(self) == *old(self),
                RouteEvent::Done => r == MonitorDecision::Reconnect && *final(self) == *old(self),
                RouteEvent::NewAddress { ifindex, addr } => match addr {
                    Some(a) => {
                        if old(self).cache.spec_contains(ifindex, a) {
                            r == MonitorDecision::Nothing && *final(self) == *old(self)
                        } else {
                            r == MonitorDecision::EmitChange && final(self).cache.entries@ == old(
                                self,
                            ).cache.entries@.push((ifindex, a))
                        }
                    },
                    None => r == MonitorDecision::Nothing && *final(self) == *old(self),
                },
                RouteEvent::DelAddress { ifindex, addr } => r == MonitorDecision::EmitChange && (
                match addr {
                    Some(a) => !final(self).cache.spec_contains(ifindex, a),
                    None => *final(self) == *old(self),
                }),
                RouteEvent::RouteChange { table, dst } => *final(self) == *old(self) && r == (
                if spec_route_change_relevant(table, dst) {
                    MonitorDecision::EmitChange
                } else {
                    MonitorDecision::Nothing
                }),
                RouteEvent::RuleChange => r == MonitorDecision::EmitChange && *final(self) == *old(
                    self,
                ),
                RouteEvent::LinkChange => r == MonitorDecision::Nothing && *final(self) == *old(
                    self,
                ),
                RouteEvent::Other => r == MonitorDecision::Nothing && *final(self) == *old(self),
            },
    {
        match event {
            RouteEvent::Error => MonitorDecision::Nothing,
            RouteEvent::Done => MonitorDecision::Reconnect,
            RouteEvent::NewAddress { ifindex, addr } => {
                match addr {
                    Some(a) => {
                        if self.cache.contains(ifindex, a) {
                            MonitorDecision::Nothing
                        } else {
                            self.cache.insert(ifindex, a);
                            MonitorDecision::EmitChange
                        }
                    },
                    None => MonitorDecision::Nothing,
                }
            },
            RouteEvent::DelAddress { ifindex, addr } => {
                match addr {
                    Some(a) => {
                        self.cache.remove(ifindex, a);
                        MonitorDecision::EmitChange
                    },
                    None => MonitorDecision::EmitChange,
                }
            },
            RouteEvent::RouteChange { table, dst } => {
                let relevant = match dst {
                    Some(a) => !((table == 255 || table == 254) && (a.is_multicast()
                        || a.is_link_local())),
                    None => true,
                };
                if relevant {
                    MonitorDecision::EmitChange
                } else {
                    MonitorDecision::Nothing
                }
            },
            RouteEvent::RuleChange => MonitorDecision::EmitChange,
            RouteEvent::LinkChange => MonitorDecision::Nothing,
            RouteEvent::Other => MonitorDecision::Nothing,
        }
    }
}

/// The backoff after a failed or lost connection: doubled, capped at
/// thirty seconds.
pub fn next_backoff(current_ms: u64) -> (r: u64)
    requires
        current_ms <= MAX_BACKOFF_MS,
    ensures
        r == if 2 * current_ms < MAX_BACKOFF_MS {
            (2 * current_ms) as u64
        } else {
            MAX_BACKOFF_MS
        },
{
    if 2 * current_ms < MAX_BACKOFF_MS {
        2 * current_ms
    } else {
        MAX_BACKOFF_MS
    }
}

} // verus!
