//! Probe freshness: which port-mapping protocols have been seen, and how
//! recently. Instants are milliseconds on a monotonic clock, handed in by
//! the caller.

use vstd::prelude::*;

use crate::upnp;
use crate::{AVAILABILITY_TRUST_DURATION_MS, UNAVAILABILITY_TRUST_DURATION_MS};

verus! {

/// Output of a port mapping probe.
#[derive(Clone, Copy, Debug, PartialEq, Eq, Structural)]
pub struct ProbeOutput {
    /// If UPnP can be considered available.
    pub upnp: bool,
    /// If PCP can be considered available.
    pub pcp: bool,
    /// If PMP can be considered available.
    pub nat_pmp: bool,
}

impl ProbeOutput {
    /// Indicates if all port mapping protocols are available.
    pub fn all_available(&self) -> (r: bool)
        ensures
            r == (self.upnp && self.pcp && self.nat_pmp),
    {
        self.upnp && self.pcp && self.nat_pmp
    }
}

/// Failure to answer a probe request.
#[derive(Clone, Copy, Debug, PartialEq, Eq, Structural)]
pub enum ProbeError {
    /// The service's inbound channel is full.
    ChannelFull,
    /// The service's inbound channel is closed.
    ChannelClosed,
    /// No gateway was found for the probe.
    NoGateway,
    /// The gateway found is IPv6 and is ignored.
    Ipv6Gateway,
    /// The probe task itself failed.
    Join { is_panic: bool, is_cancelled: bool },
}

/// Configures which port mapping protocols are enabled in the service.
#[derive(Clone, Copy, Debug, PartialEq, Eq, Structural)]
pub struct Config {
    /// Whether UPnP is enabled.
    pub enable_upnp: bool,
    /// Whether PCP is enabled.
    pub enable_pcp: bool,
    /// Whether PMP is enabled.
    pub enable_nat_pmp: bool,
}

impl Default for Config {
    /// By default all port mapping protocols are enabled.
    fn default() -> (r: Config)
        ensures
            r.enable_upnp && r.enable_pcp && r.enable_nat_pmp,
    {
        Config { enable_upnp: true, enable_pcp: true, enable_nat_pmp: true }
    }
}

/// Port mapping protocol information obtained during a probe.
#[derive(Clone, Copy, Debug)]
pub struct Probe {
    /// When the probe was last updated (milliseconds).
    pub last_probe: u64,
    /// The last UPnP gateway and when it was last seen.
    pub last_upnp_gateway_addr: Option<(upnp::Gateway, u64)>,
    /// Last time PCP was seen.
    pub last_pcp: Option<u64>,
    /// Last time NAT-PMP was seen.
    pub last_nat_pmp: Option<u64>,
}

/// Whether an instant `seen` is still within the availability trust
/// window at instant `now`.
pub open spec fn spec_fresh(seen: u64, now: u64) -> bool {
    seen + AVAILABILITY_TRUST_DURATION_MS > now
}

/// Exec form of the freshness test, free of overflow.
fn fresh(seen: u64, now: u64) -> (r: bool)
    ensures
        r == spec_fresh(seen, now),
{
    if seen >= now {
        true
    } else {
        now - seen < AVAILABILITY_TRUST_DURATION_MS
    }
}

impl Probe {
    /// An empty probe set to `now`: no protocol seen yet.
    pub fn empty(now: u64) -> (r: Probe)
        ensures
            r == (Probe {
                last_probe: now,
                last_upnp_gateway_addr: None::<(upnp::Gateway, u64)>,
                last_pcp: None::<u64>,
                last_nat_pmp: None::<u64>,
            }),
    {
        Probe { last_probe: now, last_upnp_gateway_addr: None, last_pcp: None, last_nat_pmp: None }
    }

    /// Which protocols count as available at `now`: each was seen within
    /// the availability trust window.
    pub open spec fn spec_output(self, now: u64) -> ProbeOutput {
        ProbeOutput {
            upnp: match self.last_upnp_gateway_addr {
                Some((_, seen)) => spec_fresh(seen, now),
                None => false,
            },
            pcp: match self.last_pcp {
                Some(seen) => spec_fresh(seen, now),
                None => false,
            },
            nat_pmp: match self.last_nat_pmp {
                Some(seen) => spec_fresh(seen, now),
                None => false,
            },
        }
    }

    /// Returns which services can be considered available at `now`.
    pub fn output(&self, now: u64) -> (r: ProbeOutput)
        ensures
            r == self.spec_output(now),
    {
        let upnp = match &self.last_upnp_gateway_addr {
            Some((_, seen)) => fresh(*seen, now),
            None => false,
        };
        let pcp = match &self.last_pcp {
            Some(seen) => fresh(*seen, now),
            None => false,
        };
        let nat_pmp = match &self.last_nat_pmp {
            Some(seen) => fresh(*seen, now),
            None => false,
        };
        ProbeOutput { upnp, pcp, nat_pmp }
    }

    /// Updates this probe with the `Some` values of a newer probe; a
    /// protocol the newer probe did not see keeps its old sighting.
    pub fn update(&mut self, probe: Probe)
        ensures
            *final(self) == spec_merge(*old(self), probe),
    {
        if probe.last_upnp_gateway_addr.is_some() {
            self.last_upnp_gateway_addr = probe.last_upnp_gateway_addr;
        }
        if probe.last_pcp.is_some() {
            self.last_pcp = probe.last_pcp;
        }
        if probe.last_nat_pmp.is_some() {
            self.last_nat_pmp = probe.last_nat_pmp;
        }
        self.last_probe = probe.last_probe;
    }
}

/// The result of updating `base` with the `Some` values of the newer
/// probe `fresh_probe`.
pub open spec fn spec_merge(base: Probe, fresh_probe: Probe) -> Probe {
    Probe {
        last_probe: fresh_probe.last_probe,
        last_upnp_gateway_addr: if fresh_probe.last_upnp_gateway_addr is Some {
            fresh_probe.last_upnp_gateway_addr
        } else {
            base.last_upnp_gateway_addr
        },
        last_pcp: if fresh_probe.last_pcp is Some {
            fresh_probe.last_pcp
        } else {
            base.last_pcp
        },
        last_nat_pmp: if fresh_probe.last_nat_pmp is Some {
            fresh_probe.last_nat_pmp
        } else {
            base.last_nat_pmp
        },
    }
}

/// Whether the last probe is recent enough that blind fallback attempts
/// are suppressed.
pub open spec fn spec_recently_probed(last_probe: u64, now: u64) -> bool {
    last_probe + UNAVAILABILITY_TRUST_DURATION_MS > now
}

/// Exec form of the recent-probe test, free of overflow.
pub fn recently_probed(last_probe: u64, now: u64) -> (r: bool)
    ensures
        r == spec_recently_probed(last_probe, now),
{
    if last_probe >= now {
        true
    } else {
        now - last_probe < UNAVAILABILITY_TRUST_DURATION_MS
    }
}

/// Freshness: after a sighting at `seen`, a protocol reads as available
/// exactly until the availability trust window closes, and a protocol
/// never sighted reads as unavailable.
pub proof fn lemma_freshness_window(probe: Probe, now: u64)
    ensures
        probe.last_pcp matches Some(seen) ==> (probe.spec_output(now).pcp <==> now < seen
            + AVAILABILITY_TRUST_DURATION_MS),
        probe.last_pcp is None ==> !probe.spec_output(now).pcp,
        probe.last_nat_pmp matches Some(seen) ==> (probe.spec_output(now).nat_pmp <==> now < seen
            + AVAILABILITY_TRUST_DURATION_MS),
        probe.last_nat_pmp is None ==> !probe.spec_output(now).nat_pmp,
        probe.last_upnp_gateway_addr matches Some((_, seen)) ==> (probe.spec_output(now).upnp
            <==> now < seen + AVAILABILITY_TRUST_DURATION_MS),
        probe.last_upnp_gateway_addr is None ==> !probe.spec_output(now).upnp,
{
}

} // verus!

verus! {

/// Which protocols a probe run must actually try: each enabled protocol
/// that does not already read as available.
pub fn plan_probe(config: &Config, output: &ProbeOutput) -> (r: (bool, bool, bool))
    ensures
        r.0 == (config.enable_upnp && !output.upnp),
        r.1 == (config.enable_pcp && !output.pcp),
        r.2 == (config.enable_nat_pmp && !output.nat_pmp),
{
    (
        config.enable_upnp && !output.upnp,
        config.enable_pcp && !output.pcp,
        config.enable_nat_pmp && !output.nat_pmp,
    )
}

} // verus!
