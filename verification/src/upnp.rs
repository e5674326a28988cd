//! UPnP mapping bookkeeping.
//!
//! The SSDP search and SOAP calls are network I/O and live outside the
//! crate; here the gateway is modelled by its socket address, and the
//! results of the calls are validated into a mapping.

use vstd::prelude::*;

use crate::ip::{IpAddress, Ipv4Address};

verus! {

/// Overall timeout of an SSDP gateway search, in milliseconds.
pub const SEARCH_TIMEOUT_MS: u64 = 1000;

/// Seconds we ask the router to maintain the port mapping. 0 means
/// indefinitely.
pub const PORT_MAPPING_LEASE_DURATION_SECONDS: u32 = 7200;

/// Half-lifetime of a UPnP mapping, fixed at one hour.
pub const HALF_LIFETIME_SECONDS: u64 = 3600;

/// An internet gateway device found by an SSDP search, named by where it
/// answers.
#[derive(Clone, Copy, Debug, PartialEq, Eq, Structural)]
pub struct Gateway {
    /// Address of the device's description service.
    pub addr: Ipv4Address,
    /// Port of the device's description service.
    pub port: u16,
}

/// A port mapping registered with a gateway over UPnP.
#[derive(Clone, Copy, Debug, PartialEq, Eq, Structural)]
pub struct Mapping {
    /// The gateway the mapping was created on.
    pub gateway: Gateway,
    /// The external address obtained by this mapping.
    pub external_ip: Ipv4Address,
    /// External port obtained by this mapping.
    pub external_port: u16,
}

/// Failure to obtain a UPnP mapping.
#[derive(Clone, Copy, Debug, PartialEq, Eq, Structural)]
pub enum Error {
    /// The gateway assigned external port 0.
    ZeroExternalPort,
    /// The gateway's external address is IPv6.
    NotIpv4,
    /// Removing the mapping failed.
    RemovePort,
    /// The SSDP search failed.
    Search,
    /// Asking the gateway for its external address failed.
    GetExternalIp,
    /// The gateway would not assign any port.
    AddAnyPort,
    /// Socket-level failure.
    Io,
    /// The gateway did not answer within the search or request window;
    /// raised only by the I/O shell around the crate.
    TimedOut,
}

impl Mapping {
    /// The external port of a registered mapping is nonzero.
    pub open spec fn well_formed(self) -> bool {
        self.external_port != 0
    }

    /// What validating the gateway's answers yields.
    pub open spec fn spec_new(gateway: Gateway, external_ip: IpAddress, external_port: u16) -> Result<
        Mapping,
        Error,
    > {
        match external_ip {
            IpAddress::V4(ip) => if external_port == 0 {
                Err(Error::ZeroExternalPort)
            } else {
                Ok(Mapping { gateway, external_ip: ip, external_port })
            },
            IpAddress::V6(_) => Err(Error::NotIpv4),
        }
    }

    /// Validates what the gateway answered: its external address (which
    /// must be IPv4) and the external port it assigned (which must be
    /// nonzero).
    pub fn new(gateway: Gateway, external_ip: IpAddress, external_port: u16) -> (r: Result<
        Mapping,
        Error,
    >)
        ensures
            r == Self::spec_new(gateway, external_ip, external_port),
            r matches Ok(m) ==> m.well_formed() && m.gateway == gateway,
    {
        match external_ip {
            IpAddress::V4(ip) => {
                if external_port == 0 {
                    Err(Error::ZeroExternalPort)
                } else {
                    Ok(Mapping { gateway, external_ip: ip, external_port })
                }
            },
            IpAddress::V6(_) => Err(Error::NotIpv4),
        }
    }

    /// The external address and port that reach this node.
    pub fn external(&self) -> (r: (Ipv4Address, u16))
        ensures
            r == (self.external_ip, self.external_port),
    {
        (self.external_ip, self.external_port)
    }

    /// The fixed renewal point of a UPnP mapping, in seconds.
    pub fn half_lifetime(&self) -> (r: u64)
        ensures
            r == HALF_LIFETIME_SECONDS,
    {
        HALF_LIFETIME_SECONDS
    }
}

} // verus!
