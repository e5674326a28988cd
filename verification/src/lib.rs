//! Port-mapping service core: NAT-PMP and PCP wire codecs, UPnP mapping
//! bookkeeping, probe freshness, the mapping supervisor's decision logic,
//! and a reader for the BSD kernel routing information base.
//!
//! All network and kernel I/O lives outside this crate; the functions here
//! work on plain values (bytes received, instants in milliseconds) so that
//! their behaviour can be stated and verified.

use vstd::prelude::*;

pub mod current_mapping;
pub mod ip;
pub mod nat_pmp;
pub mod mapping;
pub mod netmon;
pub mod pcp;
pub mod interfaces;
pub mod probe;
pub mod rib;
pub mod service;
pub mod text;
pub mod upnp;
pub mod wire;

verus! {

/// A port-mapping protocol seen within the last ten minutes is trusted to
/// still be there and is not probed again (milliseconds).
pub const AVAILABILITY_TRUST_DURATION_MS: u64 = 600_000;

/// A protocol not seen for this long may be blind-tried again when no
/// recent probe says otherwise (milliseconds).
pub const UNAVAILABILITY_TRUST_DURATION_MS: u64 = 5_000;

/// Upper bound on instants the crate reasons about (in milliseconds,
/// about 146 million years of uptime): keeps deadline arithmetic within
/// `u64`.
pub const MAX_INSTANT_MS: u64 = 0x4000_0000_0000_0000;

} // verus!
