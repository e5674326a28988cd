//! Owner of the active mapping.
//!
//! Holds at most one mapping together with its install instant, and
//! yields a renew event at half the mapping's lifetime and an expiry
//! event at its full lifetime. Replacement hands the previous mapping
//! back to the caller, which must release it remotely.

use vstd::prelude::*;

use crate::ip::Ipv4Address;
use crate::mapping::Mapping;
use crate::MAX_INSTANT_MS;

verus! {

/// A deadline event for the active mapping, carrying its external
/// address so the supervisor can ask for the same mapping again.
#[derive(Clone, Copy, Debug, PartialEq, Eq, Structural)]
pub enum Event {
    /// Half the mapping's lifetime has passed: renew it.
    Renew { external_ip: Ipv4Address, external_port: u16 },
    /// The mapping's lifetime has passed: it is gone at the gateway.
    Expired { external_ip: Ipv4Address, external_port: u16 },
}

/// The currently active mapping, if any, with its deadline state.
#[derive(Clone, Copy, Debug)]
pub struct CurrentMapping {
    /// The active mapping and the instant (milliseconds) it was installed.
    pub mapping: Option<(Mapping, u64)>,
    /// Whether the renew event for this install was already yielded.
    pub renew_sent: bool,
    /// Whether the expiry event for this install was already yielded.
    pub expire_sent: bool,
}

/// When a mapping installed at `t` wants renewal (milliseconds).
pub open spec fn spec_renew_at(m: Mapping, t: u64) -> int {
    t + m.spec_half_lifetime() * 1000
}

/// When a mapping installed at `t` lapses at the gateway (milliseconds).
pub open spec fn spec_expire_at(m: Mapping, t: u64) -> int {
    t + m.spec_lifetime() * 1000
}

impl CurrentMapping {
    /// Any held mapping is well formed and was installed at a sane
    /// instant.
    pub open spec fn well_formed(self) -> bool {
        match self.mapping {
            Some((m, t)) => m.well_formed() && t < MAX_INSTANT_MS,
            None => true,
        }
    }

    /// The held mapping without its install instant.
    pub open spec fn spec_mapping(self) -> Option<Mapping> {
        match self.mapping {
            Some((m, _)) => Some(m),
            None => None,
        }
    }

    /// The external address published while a mapping is held.
    pub open spec fn spec_external(self) -> Option<(Ipv4Address, u16)> {
        match self.mapping {
            Some((m, _)) => Some(m.spec_external()),
            None => None,
        }
    }

    /// An empty slot.
    pub fn new() -> (r: CurrentMapping)
        ensures
            r.mapping is None,
            r.well_formed(),
    {
        CurrentMapping { mapping: None, renew_sent: false, expire_sent: false }
    }

    /// Replaces the held mapping, resetting the deadline state, and
    /// returns the previous one. The caller owes the returned mapping a
    /// remote release.
    pub fn update(&mut self, new: Option<Mapping>, now: u64) -> (r: Option<Mapping>)
        requires
            now < MAX_INSTANT_MS,
            new matches Some(m) ==> m.well_formed(),
        ensures
            r == old(self).spec_mapping(),
            final(self).mapping == match new {
                Some(m) => Some((m, now)),
                None => None::<(Mapping, u64)>,
            },
            !final(self).renew_sent,
            !final(self).expire_sent,
            final(self).well_formed(),
    {
        let prior = self.mapping.take();
        self.mapping = match new {
            Some(m) => Some((m, now)),
            None => None,
        };
        self.renew_sent = false;
        self.expire_sent = false;
        match prior {
            Some((m, _)) => Some(m),
            None => None,
        }
    }

    /// The external address and port of the held mapping.
    pub fn external(&self) -> (r: Option<(Ipv4Address, u16)>)
        ensures
            r == self.spec_external(),
    {
        match &self.mapping {
            Some((m, _)) => Some(m.external()),
            None => None,
        }
    }

    /// Yields the deadline event due at `now`, at most once per install:
    /// expiry once the full lifetime has passed, else renewal once half
    /// of it has.
    pub fn poll(&mut self, now: u64) -> (ev: Option<Event>)
        requires
            old(self).well_formed(),
        ensures
            final(self).mapping == old(self).mapping,
            final(self).well_formed(),
            match old(self).mapping {
                Some((m, t)) => {
                    if !old(self).expire_sent && now >= spec_expire_at(m, t) {
                        ev == Some(
                            Event::Expired {
                                external_ip: m.spec_external().0,
                                external_port: m.spec_external().1,
                            },
                        ) && final(self).expire_sent && final(self).renew_sent
                    } else if !old(self).renew_sent && now >= spec_renew_at(m, t) {
                        ev == Some(
                            Event::Renew {
                                external_ip: m.spec_external().0,
                                external_port: m.spec_external().1,
                            },
                        ) && final(self).renew_sent && final(self).expire_sent == old(
                            self,
                        ).expire_sent
                    } else {
                        ev is None && *final(self) == *old(self)
                    }
                },
                None => ev is None && *final(self) == *old(self),
            },
    {
        match self.mapping {
            Some((m, t)) => {
                proof {
                    assert(m.spec_lifetime() <= 0xFFFF_FFFFu64 * 2);
                    assert(m.spec_half_lifetime() <= 0xFFFF_FFFFu64);
                }
                let (external_ip, external_port) = m.external();
                let expire_at = t + m.lifetime() * 1000;
                let renew_at = t + m.half_lifetime() * 1000;
                if !self.expire_sent && now >= expire_at {
                    self.expire_sent = true;
                    self.renew_sent = true;
                    Some(Event::Expired { external_ip, external_port })
                } else if !self.renew_sent && now >= renew_at {
                    self.renew_sent = true;
                    Some(Event::Renew { external_ip, external_port })
                } else {
                    None
                }
            },
            None => None,
        }
    }
}

} // verus!
