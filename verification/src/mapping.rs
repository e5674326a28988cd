//! A port mapping created with one of the supported protocols.

use vstd::prelude::*;

use crate::ip::Ipv4Address;
use crate::{nat_pmp, pcp, upnp};

verus! {

/// A port mapping created with one of the supported protocols.
#[derive(Clone, Copy, Debug)]
pub enum Mapping {
    /// A UPnP mapping.
    Upnp(upnp::Mapping),
    /// A PCP mapping.
    Pcp(pcp::Mapping),
    /// A NAT-PMP mapping.
    NatPmp(nat_pmp::Mapping),
}

/// Failure to create or release a mapping, tagged by protocol.
#[derive(Clone, Copy, Debug, PartialEq, Eq, Structural)]
pub enum Error {
    /// PCP mapping failed.
    Pcp { source: pcp::Error },
    /// NAT-PMP mapping failed.
    NatPmp { source: nat_pmp::Error },
    /// UPnP mapping failed.
    Upnp { source: upnp::Error },
}

impl Mapping {
    /// The external port of a mapping is nonzero, whatever its protocol.
    pub open spec fn well_formed(self) -> bool {
        match self {
            Mapping::Upnp(m) => m.well_formed(),
            Mapping::Pcp(m) => m.well_formed(),
            Mapping::NatPmp(m) => m.well_formed(),
        }
    }

    /// The external address and port of the mapping.
    pub open spec fn spec_external(self) -> (Ipv4Address, u16) {
        match self {
            Mapping::Upnp(m) => (m.external_ip, m.external_port),
            Mapping::Pcp(m) => (m.external_address, m.external_port),
            Mapping::NatPmp(m) => (m.external_addr, m.external_port),
        }
    }

    /// Seconds until the mapping should be renewed: half its lifetime,
    /// with UPnP fixed at one hour.
    pub open spec fn spec_half_lifetime(self) -> u64 {
        match self {
            Mapping::Upnp(m) => upnp::HALF_LIFETIME_SECONDS,
            Mapping::Pcp(m) => (m.lifetime_seconds / 2) as u64,
            Mapping::NatPmp(m) => (m.lifetime_seconds / 2) as u64,
        }
    }

    /// Seconds until the mapping lapses at the gateway: twice the
    /// renewal interval.
    pub open spec fn spec_lifetime(self) -> u64 {
        match self {
            Mapping::Upnp(m) => (2 * upnp::HALF_LIFETIME_SECONDS) as u64,
            Mapping::Pcp(m) => m.lifetime_seconds as u64,
            Mapping::NatPmp(m) => m.lifetime_seconds as u64,
        }
    }

    /// The external address and port that reach this node.
    pub fn external(&self) -> (r: (Ipv4Address, u16))
        ensures
            r == self.spec_external(),
    {
        match self {
            Mapping::Upnp(m) => m.external(),
            Mapping::Pcp(m) => m.external(),
            Mapping::NatPmp(m) => m.external(),
        }
    }

    /// Seconds until the mapping should be renewed.
    pub fn half_lifetime(&self) -> (r: u64)
        ensures
            r == self.spec_half_lifetime(),
    {
        match self {
            Mapping::Upnp(m) => m.half_lifetime(),
            Mapping::Pcp(m) => m.half_lifetime(),
            Mapping::NatPmp(m) => m.half_lifetime(),
        }
    }

    /// Seconds until the mapping lapses at the gateway.
    pub fn lifetime(&self) -> (r: u64)
        ensures
            r == self.spec_lifetime(),
    {
        match self {
            Mapping::Upnp(_) => 2 * upnp::HALF_LIFETIME_SECONDS,
            Mapping::Pcp(m) => m.lifetime_seconds as u64,
            Mapping::NatPmp(m) => m.lifetime_seconds as u64,
        }
    }
}

} // verus!
