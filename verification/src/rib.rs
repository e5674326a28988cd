//! Reader for the BSD kernel routing information base.
//!
//! The RIB arrives from `sysctl` as a concatenation of variable-length
//! routing messages whose layout differs between Darwin, FreeBSD, NetBSD
//! and OpenBSD; the platform's constants travel in a [`RibConfig`]. The
//! `sysctl` call itself is kernel I/O and happens outside the crate; the
//! bytes are parsed here.
//!
//! Multi-byte header fields are in the kernel's byte order; all the
//! supported kernels run little-endian, and the readers here read
//! little-endian. The one big-endian read is the KAME zone lifting in
//! the IPv6 address parser.

use vstd::prelude::*;

use crate::ip::{read_v6, read_v6_at, IpAddress, Ipv4Address, Ipv6Address};
use crate::text::{bytes_of, vec_u8_eq};

verus! {

/// Represents a type of routing information base.
pub type RIBType = i32;

/// The BSD flavours whose routing messages differ.
#[derive(Clone, Copy, Debug, PartialEq, Eq, Structural)]
pub enum RibOs {
    Darwin,
    FreeBsd,
    NetBsd,
    OpenBsd,
}

/// The kinds of routing message the reader understands.
#[derive(Clone, Copy, Debug, PartialEq, Eq, Structural)]
pub enum MessageType {
    Route,
    Interface,
    InterfaceAddr,
    InterfaceMulticastAddr,
    InterfaceAnnounce,
}

/// Offsets of one message kind on one platform.
#[derive(Clone, Copy, Debug, PartialEq, Eq, Structural)]
pub struct WireFormat {
    /// Offset of the header extension.
    pub ext_off: usize,
    /// Offset of the message body (the addrs area).
    pub body_off: usize,
    /// Which parser handles the message.
    pub typ: MessageType,
}

/// Size of a `sockaddr_in` on all supported kernels.
pub const SIZEOF_SOCKADDR_INET: usize = 16;

/// Size of a `sockaddr_in6` on all supported kernels.
pub const SIZEOF_SOCKADDR_INET6: usize = 28;

/// RTAX slot of the destination address.
pub const RTAX_DST: usize = 0;

/// RTAX slot of the gateway address.
pub const RTAX_GATEWAY: usize = 1;

/// RTAX slot of the netmask.
pub const RTAX_NETMASK: usize = 2;

/// Largest RTAX slot with a family-tagged sockaddr.
pub const RTAX_BRD: usize = 7;

/// Number of RTAX slots.
pub const RTAX_MAX: usize = 8;

/// Route flag: destination requires forwarding by an intermediary.
pub const RTF_GATEWAY: u32 = 0x2;

/// Route flag (Darwin): route is bound to one interface's scope.
pub const RTF_IFSCOPE: u32 = 0x1000000;

/// The routing-stack constants of one platform, read once and then
/// treated as immutable.
#[derive(Clone, Debug)]
pub struct RibConfig {
    /// Which BSD this is.
    pub os: RibOs,
    /// The `rtm_version` the kernel stamps on its messages.
    pub rtm_version: u8,
    /// The kernel's sockaddr alignment, `sizeof(long)` on most BSDs.
    pub kernel_align: usize,
    /// The platform's `AF_LINK` value.
    pub af_link: u8,
    /// The platform's `AF_INET` value.
    pub af_inet: u8,
    /// The platform's `AF_INET6` value.
    pub af_inet6: u8,
    /// The message parsers, keyed by the message-type byte.
    pub wire_formats: Vec<(u8, WireFormat)>,
}

impl RibConfig {
    /// The alignment is a small power of two, and every registered
    /// format's body offset covers its kind's fixed header.
    pub open spec fn well_formed(self) -> bool {
        &&& self.kernel_align == 4 || self.kernel_align == 8
        &&& forall|j: int|
            0 <= j < self.wire_formats@.len() ==> (#[trigger] self.wire_formats@[j]).1.wf()
    }

    /// The wire format registered for a message-type byte, if any.
    pub open spec fn spec_format_of(self, typ: u8) -> Option<WireFormat> {
        spec_lookup_format(self.wire_formats@, typ)
    }

    /// Looks up the wire format for a message-type byte.
    pub fn format_of(&self, typ: u8) -> (r: Option<WireFormat>)
        ensures
            r == self.spec_format_of(typ),
    {
        let mut i: usize = 0;
        proof {
            assert(self.wire_formats@.skip(0) =~= self.wire_formats@);
        }
        while i < self.wire_formats.len()
            invariant
                i <= self.wire_formats@.len(),
                spec_lookup_format(self.wire_formats@, typ) == spec_lookup_format(
                    self.wire_formats@.skip(i as int),
                    typ,
                ),
            decreases self.wire_formats@.len() - i,
        {
            let (key, wf) = self.wire_formats[i];
            proof {
                assert(self.wire_formats@.skip(i as int)[0] == self.wire_formats@[i as int]);
                assert(self.wire_formats@.skip(i as int).skip(1) =~= self.wire_formats@.skip(
                    i + 1,
                ));
            }
            if key == typ {
                return Some(wf);
            }
            i = i + 1;
        }
        proof {
            assert(self.wire_formats@.skip(i as int).len() == 0);
        }
        None
    }
}

/// A format looked up in a table of well-formed formats is well formed.
pub proof fn lemma_lookup_format_wf(formats: Seq<(u8, WireFormat)>, typ: u8)
    requires
        forall|j: int| 0 <= j < formats.len() ==> (#[trigger] formats[j]).1.wf(),
    ensures
        spec_lookup_format(formats, typ) matches Some(w) ==> w.wf(),
    decreases formats.len(),
{
    if formats.len() > 0 && formats[0].0 != typ {
        assert forall|j: int|
            0 <= j < formats.skip(1).len() implies (#[trigger] formats.skip(1)[j]).1.wf() by {
            assert(formats.skip(1)[j] == formats[j + 1]);
        }
        lemma_lookup_format_wf(formats.skip(1), typ);
    }
}

/// First wire format whose key byte matches, scanning left to right.
pub open spec fn spec_lookup_format(formats: Seq<(u8, WireFormat)>, typ: u8) -> Option<WireFormat>
    decreases formats.len(),
{
    if formats.len() == 0 {
        None
    } else if formats[0].0 == typ {
        Some(formats[0].1)
    } else {
        spec_lookup_format(formats.skip(1), typ)
    }
}

/// Whether a RIB of this type may be parsed on this platform. Darwin and
/// OpenBSD each reserve two type numbers for tables the parser does not
/// read.
pub open spec fn spec_is_valid_rib_type(os: RibOs, typ: RIBType) -> bool {
    match os {
        RibOs::Darwin => !(typ == 4 || typ == 5),
        RibOs::FreeBsd => true,
        RibOs::NetBsd => true,
        RibOs::OpenBsd => !(typ == 4 || typ == 5),
    }
}

/// Exec form of the RIB-type validity test.
pub fn is_valid_rib_type(os: RibOs, typ: RIBType) -> (r: bool)
    ensures
        r == spec_is_valid_rib_type(os, typ),
{
    match os {
        RibOs::Darwin => !(typ == 4 || typ == 5),
        RibOs::FreeBsd => true,
        RibOs::NetBsd => true,
        RibOs::OpenBsd => !(typ == 4 || typ == 5),
    }
}

/// Failure to fetch or parse the routing table.
#[derive(Clone, Copy, Debug, PartialEq, Eq, Structural)]
pub enum RouteError {
    /// The per-message counts did not add up after a parse.
    MessageMismatch,
    /// A message or field ran past the end of its buffer.
    MessageTooShort,
    /// A message carried an impossible length or field.
    InvalidMessage,
    /// An address did not decode.
    InvalidAddress,
    /// The RIB type is not one the platform parses.
    InvalidRibType { rib_type: RIBType },
    /// The `sysctl` fetch failed; raised only by the I/O shell around the
    /// crate.
    Io { errno: i32 },
}

/// The 16-bit kernel-order (little-endian) value at offset `i`.
pub open spec fn le16(b: Seq<u8>, i: int) -> u16
    recommends 0 <= i, i + 2 <= b.len(),
{
    (b[i] as u16 + b[i + 1] as u16 * 256) as u16
}

/// The 32-bit kernel-order (little-endian) value at offset `i`.
pub open spec fn le32(b: Seq<u8>, i: int) -> u32
    recommends 0 <= i, i + 4 <= b.len(),
{
    (b[i] as u32 + b[i + 1] as u32 * 256 + b[i + 2] as u32 * 0x10000 + b[i + 3] as u32
        * 0x1000000) as u32
}

/// Safely reads the kernel-order `u16` at `start`, or reports the buffer
/// too short.
pub fn u16_from_ne_range(data: &[u8], start: usize) -> (r: Result<u16, RouteError>)
    ensures
        r matches Ok(v) ==> start + 2 <= data@.len() && v == le16(data@, start as int),
        r is Err ==> start + 2 > data@.len() && r == Err::<u16, RouteError>(
            RouteError::MessageTooShort,
        ),
{
    if data.len() >= 2 && start <= data.len() - 2 {
        Ok(data[start] as u16 + data[start + 1] as u16 * 256)
    } else {
        Err(RouteError::MessageTooShort)
    }
}

/// Safely reads the kernel-order `u32` at `start`, or reports the buffer
/// too short.
pub fn u32_from_ne_range(data: &[u8], start: usize) -> (r: Result<u32, RouteError>)
    ensures
        r matches Ok(v) ==> start + 4 <= data@.len() && v == le32(data@, start as int),
        r is Err ==> start + 4 > data@.len() && r == Err::<u32, RouteError>(
            RouteError::MessageTooShort,
        ),
{
    if data.len() >= 4 && start <= data.len() - 4 {
        Ok(
            data[start] as u32 + data[start + 1] as u32 * 256 + data[start + 2] as u32 * 0x10000
                + data[start + 3] as u32 * 0x1000000,
        )
    } else {
        Err(RouteError::MessageTooShort)
    }
}

/// `l` aligned up to the kernel's sockaddr alignment; zero stands for an
/// empty slot and advances by one alignment unit.
pub open spec fn spec_roundup(l: int, kernel_align: int) -> int {
    if l == 0 {
        kernel_align
    } else {
        ((l + kernel_align - 1) / kernel_align) * kernel_align
    }
}

/// Aligns a sockaddr length up to the kernel's alignment.
pub fn roundup(l: usize, kernel_align: usize) -> (r: usize)
    requires
        kernel_align == 4 || kernel_align == 8,
        l <= 0xFFFF,
    ensures
        r == spec_roundup(l as int, kernel_align as int),
        r >= 1,
        r >= l,
        r <= l + kernel_align,
{
    if l == 0 {
        return kernel_align;
    }
    let x = l + kernel_align - 1;
    let q = x / kernel_align;
    proof {
        assert(q * kernel_align <= x && x < (q + 1) * kernel_align) by (nonlinear_arith)
            requires
                q == x as int / kernel_align as int,
                kernel_align == 4 || kernel_align == 8,
                x >= 1,
        ;
    }
    q * kernel_align
}

/// Represents an address associated with packet routing.
#[derive(Clone, Debug)]
pub enum Addr {
    /// A link-layer address.
    Link {
        /// Interface index when attached.
        index: i32,
        /// Interface name when attached.
        name: Option<String>,
        /// Link-layer address bytes when attached.
        addr: Option<Vec<u8>>,
    },
    /// An internet address for IPv4.
    Inet4 { ip: Ipv4Address },
    /// An internet address for IPv6.
    Inet6 { ip: Ipv6Address, zone: u32 },
    /// An address of an operating-system-specific feature.
    Default {
        /// The address family byte.
        af: u8,
        /// Raw bytes of the address.
        raw: Vec<u8>,
    },
}

/// Equality of optional strings by contents.
pub open spec fn opt_string_eq(a: Option<String>, b: Option<String>) -> bool {
    match (a, b) {
        (None, None) => true,
        (Some(x), Some(y)) => x@ == y@,
        _ => false,
    }
}

/// Equality of optional byte vectors by contents.
pub open spec fn opt_bytes_eq(a: Option<Vec<u8>>, b: Option<Vec<u8>>) -> bool {
    match (a, b) {
        (None, None) => true,
        (Some(x), Some(y)) => x@ == y@,
        _ => false,
    }
}

/// Equality of addresses by contents.
pub open spec fn addr_eq(a: Addr, b: Addr) -> bool {
    match (a, b) {
        (
            Addr::Link { index: ia, name: na, addr: aa },
            Addr::Link { index: ib, name: nb, addr: ab },
        ) => ia == ib && opt_string_eq(na, nb) && opt_bytes_eq(aa, ab),
        (Addr::Inet4 { ip: a4 }, Addr::Inet4 { ip: b4 }) => a4 == b4,
        (Addr::Inet6 { ip: a6, zone: za }, Addr::Inet6 { ip: b6, zone: zb }) => a6 == b6 && za
            == zb,
        (Addr::Default { af: fa, raw: ra }, Addr::Default { af: fb, raw: rb }) => fa == fb && ra@
            == rb@,
        _ => false,
    }
}

impl PartialEq for Addr {
    fn eq(&self, other: &Addr) -> (r: bool) {
        match (self, other) {
            (
                Addr::Link { index: ia, name: na, addr: aa },
                Addr::Link { index: ib, name: nb, addr: ab },
            ) => {
                let names_eq = match (na, nb) {
                    (None, None) => true,
                    (Some(x), Some(y)) => x.eq(y),
                    _ => false,
                };
                let addrs_eq = match (aa, ab) {
                    (None, None) => true,
                    (Some(x), Some(y)) => vec_u8_eq(x, y),
                    _ => false,
                };
                ia == ib && names_eq && addrs_eq
            },
            (Addr::Inet4 { ip: a4 }, Addr::Inet4 { ip: b4 }) => a4 == b4,
            (Addr::Inet6 { ip: a6, zone: za }, Addr::Inet6 { ip: b6, zone: zb }) => a6 == b6 && za
                == zb,
            (Addr::Default { af: fa, raw: ra }, Addr::Default { af: fb, raw: rb }) => fa == fb
                && vec_u8_eq(ra, rb),
            _ => false,
        }
    }
}

impl vstd::std_specs::cmp::PartialEqSpecImpl for Addr {
    open spec fn obeys_eq_spec() -> bool {
        true
    }

    open spec fn eq_spec(&self, other: &Addr) -> bool {
        addr_eq(*self, *other)
    }
}

impl Addr {
    /// The address family byte of this address on the given platform.
    pub fn family(&self, cfg: &RibConfig) -> (r: u8)
        ensures
            r == match *self {
                Addr::Link { .. } => cfg.af_link,
                Addr::Inet4 { .. } => cfg.af_inet,
                Addr::Inet6 { .. } => cfg.af_inet6,
                Addr::Default { af, .. } => af,
            },
    {
        match self {
            Addr::Link { .. } => cfg.af_link,
            Addr::Inet4 { .. } => cfg.af_inet,
            Addr::Inet6 { .. } => cfg.af_inet6,
            Addr::Default { af, .. } => *af,
        }
    }

    /// The interface name, for a link address that carries one.
    pub fn name(&self) -> (r: Option<&String>)
        ensures
            match *self {
                Addr::Link { ref name, .. } => match (r, name) {
                    (Some(a), Some(b)) => a@ == b@,
                    (None, None) => true,
                    _ => false,
                },
                _ => r is None,
            },
    {
        match self {
            Addr::Link { name, .. } => name.as_ref(),
            _ => None,
        }
    }

    /// The internet address, for an internet address.
    pub fn ip(&self) -> (r: Option<IpAddress>)
        ensures
            r == match *self {
                Addr::Inet4 { ip } => Some(IpAddress::V4(ip)),
                Addr::Inet6 { ip, .. } => Some(IpAddress::V6(ip)),
                _ => None::<IpAddress>,
            },
    {
        match self {
            Addr::Inet4 { ip } => Some(IpAddress::V4(*ip)),
            Addr::Inet6 { ip, .. } => Some(IpAddress::V6(*ip)),
            _ => None,
        }
    }
}

/// What parsing a family-tagged internet sockaddr yields: the plain
/// address, with the KAME zone lifting for IPv6 link-local and
/// interface/link-scope multicast addresses.
#[verifier::opaque]
pub open spec fn spec_parse_inet_addr(cfg: RibConfig, af: u8, b: Seq<u8>) -> Result<
    Addr,
    RouteError,
> {
    if af == cfg.af_inet && cfg.af_inet != cfg.af_inet6 {
        if b.len() < SIZEOF_SOCKADDR_INET {
            Err(RouteError::InvalidAddress)
        } else {
            Ok(Addr::Inet4 { ip: Ipv4Address { o0: b[4], o1: b[5], o2: b[6], o3: b[7] } })
        }
    } else if af == cfg.af_inet6 {
        if b.len() < SIZEOF_SOCKADDR_INET6 {
            Err(RouteError::InvalidAddress)
        } else {
            let a = read_v6_at(b, 8);
            let zone0 = le32(b, 24);
            if spec_kame_scoped(a) && a.s1 != 0 {
                Ok(
                    Addr::Inet6 {
                        ip: Ipv6Address {
                            s0: a.s0,
                            s1: 0,
                            s2: a.s2,
                            s3: a.s3,
                            s4: a.s4,
                            s5: a.s5,
                            s6: a.s6,
                            s7: a.s7,
                        },
                        zone: a.s1 as u32,
                    },
                )
            } else {
                Ok(Addr::Inet6 { ip: a, zone: zone0 })
            }
        }
    } else {
        Err(RouteError::InvalidAddress)
    }
}

/// The scopes in which a KAME kernel embeds the interface index in
/// bytes 2-3 of the address: link-local (`fe80::/10`) and
/// interface- or link-local multicast (`ff01::/16`-ish, `ff02::/16`-ish).
pub open spec fn spec_kame_scoped(a: Ipv6Address) -> bool {
    (a.s0 / 256 == 0xfe && (a.s0 % 256) / 64 == 2) || (a.s0 / 256 == 0xff && ((a.s0 % 256) % 16
        == 1 || (a.s0 % 256) % 16 == 2))
}

/// Parses a family-tagged internet sockaddr.
///
/// The KAME zone lifting is the one big-endian read in this host-endian
/// parser: for link-local and interface/link multicast scopes the kernel
/// embeds the interface index big-endian in bytes 2-3; when nonzero it
/// is lifted into `zone` and zeroed in the address.
pub fn parse_inet_addr(cfg: &RibConfig, af: u8, b: &[u8]) -> (r: Result<Addr, RouteError>)
    requires
        cfg.af_inet != cfg.af_inet6,
    ensures
        r matches Ok(a) ==> addr_eq(a, spec_parse_inet_addr(*cfg, af, b@).unwrap())
            && spec_parse_inet_addr(*cfg, af, b@) is Ok,
        r matches Err(e) ==> Err::<Addr, RouteError>(e) == spec_parse_inet_addr(*cfg, af, b@),
        r matches Err(e) ==> e is InvalidAddress,
{
    proof {
        reveal(spec_parse_inet_addr);
    }
    if af == cfg.af_inet {
        if b.len() < SIZEOF_SOCKADDR_INET {
            return Err(RouteError::InvalidAddress);
        }
        Ok(Addr::Inet4 { ip: Ipv4Address { o0: b[4], o1: b[5], o2: b[6], o3: b[7] } })
    } else if af == cfg.af_inet6 {
        if b.len() < SIZEOF_SOCKADDR_INET6 {
            return Err(RouteError::InvalidAddress);
        }
        let a = read_v6(b, 8);
        let zone0 = match u32_from_ne_range(b, 24) {
            Ok(z) => z,
            Err(e) => {
                return Err(e);
            },
        };
        let scoped = (a.s0 / 256 == 0xfe && (a.s0 % 256) / 64 == 2) || (a.s0 / 256 == 0xff && ((
        a.s0 % 256) % 16 == 1 || (a.s0 % 256) % 16 == 2));
        if scoped && a.s1 != 0 {
            Ok(
                Addr::Inet6 {
                    ip: Ipv6Address {
                        s0: a.s0,
                        s1: 0,
                        s2: a.s2,
                        s3: a.s3,
                        s4: a.s4,
                        s5: a.s5,
                        s6: a.s6,
                        s7: a.s7,
                    },
                    zone: a.s1 as u32,
                },
            )
        } else {
            Ok(Addr::Inet6 { ip: a, zone: zone0 })
        }
    } else {
        Err(RouteError::InvalidAddress)
    }
}

/// KAME lifting: for a link-local IPv6 sockaddr whose embedded id
/// (big-endian bytes 2-3 of the address) is nonzero, the parsed address
/// carries the id in `zone` and reads zero in those bytes, all other
/// bytes unchanged.
pub proof fn lemma_kame_lifting(cfg: RibConfig, b: Seq<u8>)
    requires
        cfg.af_inet != cfg.af_inet6,
        b.len() >= SIZEOF_SOCKADDR_INET6,
        spec_kame_scoped(read_v6_at(b, 8)),
        read_v6_at(b, 8).s1 != 0,
    ensures
        spec_parse_inet_addr(cfg, cfg.af_inet6, b) matches Ok(Addr::Inet6 { ip, zone })
            && zone == read_v6_at(b, 8).s1 as u32 && ip.s1 == 0 && ip.s0 == read_v6_at(b, 8).s0
            && ip.s2 == read_v6_at(b, 8).s2 && ip.s3 == read_v6_at(b, 8).s3,
{
    reveal(spec_parse_inet_addr);
}

/// The IPv4 address held in the first bytes of a short prefix, zero
/// padded.
pub open spec fn spec_v4_from_prefix(pref: Seq<u8>) -> Ipv4Address {
    Ipv4Address {
        o0: if pref.len() > 0 {
            pref[0]
        } else {
            0
        },
        o1: if pref.len() > 1 {
            pref[1]
        } else {
            0
        },
        o2: if pref.len() > 2 {
            pref[2]
        } else {
            0
        },
        o3: if pref.len() > 3 {
            pref[3]
        } else {
            0
        },
    }
}

/// The IPv6 address held in the first bytes of a short prefix, zero
/// padded.
pub open spec fn spec_v6_from_prefix(pref: Seq<u8>) -> Ipv6Address
    recommends pref.len() <= 16,
{
    read_v6_at(pref + Seq::new((16 - pref.len()) as nat, |i: int| 0u8), 0)
}

/// Reads an address from the first `n` bytes of `b[from..]`, zero
/// padding to 16 bytes.
fn v6_from_prefix(b: &[u8], from: usize, n: usize) -> (r: Ipv6Address)
    requires
        from + n <= b@.len(),
        n <= 16,
    ensures
        r == spec_v6_from_prefix(b@.subrange(from as int, (from + n) as int)),
{
    proof {
        vstd::slice::axiom_spec_len(b);
    }
    let mut v = bytes_of(b, from, from + n);
    while v.len() < 16
        invariant
            n <= v@.len() <= 16,
            v@.subrange(0, n as int) == b@.subrange(from as int, (from + n) as int),
            forall|i: int| n <= i < v@.len() ==> v@[i] == 0u8,
        decreases 16 - v.len(),
    {
        v.push(0u8);
        proof {
            assert(v@.subrange(0, n as int) =~= b@.subrange(from as int, (from + n) as int));
        }
    }
    let r = read_v6(v.as_slice(), 0);
    proof {
        let pref = b@.subrange(from as int, (from + n) as int);
        assert(v@ =~= pref + Seq::new((16 - pref.len()) as nat, |i: int| 0u8));
    }
    r
}

/// What parsing an address in the conventional BSD kernel form yields:
/// the length byte counts prefix bytes, and short prefixes fill the
/// leading bytes of the address.
#[verifier::opaque]
pub open spec fn spec_parse_kernel_inet_addr(cfg: RibConfig, af: u8, b: Seq<u8>) -> Result<
    (u8, Addr),
    RouteError,
> {
    let l0 = b[0] as int;
    let l = if cfg.os is Darwin {
        if l0 == 0 || b.len() > spec_roundup(l0, cfg.kernel_align as int) {
            spec_roundup(l0, cfg.kernel_align as int)
        } else {
            l0
        }
    } else {
        spec_roundup(l0, cfg.kernel_align as int)
    };
    if b.len() < l {
        Err(RouteError::InvalidAddress)
    } else if b[0] as int == SIZEOF_SOCKADDR_INET6 {
        Ok((b[0], Addr::Inet6 { ip: read_v6_at(b, 8), zone: 0 }))
    } else if af == cfg.af_inet6 {
        let pref = if l - 1 < 8 {
            b.subrange(1, l)
        } else {
            b.subrange(l - 8, l)
        };
        Ok((b[0], Addr::Inet6 { ip: spec_v6_from_prefix(pref), zone: 0 }))
    } else if b[0] as int == SIZEOF_SOCKADDR_INET {
        Ok((b[0], Addr::Inet4 { ip: Ipv4Address { o0: b[4], o1: b[5], o2: b[6], o3: b[7] } }))
    } else {
        let pref = if l - 1 < 4 {
            b.subrange(1, l)
        } else {
            b.subrange(l - 4, l)
        };
        Ok((b[0], Addr::Inet4 { ip: spec_v4_from_prefix(pref) }))
    }
}

/// Parses an internet address in the conventional BSD kernel form: a
/// length byte followed by an address prefix, padded out to the routing
/// message boundary. On Darwin such an address also serves as a message
/// filler and a zero or overlong length is rounded up.
#[verifier::rlimit(60)]
pub fn parse_kernel_inet_addr(cfg: &RibConfig, af: u8, b: &[u8]) -> (r: Result<
    (u8, Addr),
    RouteError,
>)
    requires
        cfg.well_formed(),
        b@.len() >= 1,
    ensures
        r matches Ok((n, a)) ==> spec_parse_kernel_inet_addr(*cfg, af, b@) matches Ok((n2, a2))
            && n == n2 && addr_eq(a, a2),
        r matches Err(e) ==> Err::<(u8, Addr), RouteError>(e) == spec_parse_kernel_inet_addr(
            *cfg,
            af,
            b@,
        ),
        r matches Err(e) ==> e is InvalidAddress,
        r matches Ok((n, _)) ==> n as int <= b@.len(),
{
    proof {
        reveal(spec_parse_kernel_inet_addr);
    }
    let l0 = b[0] as usize;
    let rounded = roundup(l0, cfg.kernel_align);
    let l: usize = match cfg.os {
        RibOs::Darwin => {
            if l0 == 0 || b.len() > rounded {
                rounded
            } else {
                l0
            }
        },
        _ => rounded,
    };
    if b.len() < l {
        return Err(RouteError::InvalidAddress);
    }
    if l0 == SIZEOF_SOCKADDR_INET6 {
        let ip = read_v6(b, 8);
        Ok((b[0], Addr::Inet6 { ip, zone: 0 }))
    } else if af == cfg.af_inet6 {
        if l >= 1 && l - 1 < 8 {
            let ip = v6_from_prefix(b, 1, l - 1);
            Ok((b[0], Addr::Inet6 { ip, zone: 0 }))
        } else {
            let ip = v6_from_prefix(b, l - 8, 8);
            Ok((b[0], Addr::Inet6 { ip, zone: 0 }))
        }
    } else if l0 == SIZEOF_SOCKADDR_INET {
        Ok((b[0], Addr::Inet4 { ip: Ipv4Address { o0: b[4], o1: b[5], o2: b[6], o3: b[7] } }))
    } else {
        if l >= 1 && l - 1 < 4 {
            let v = bytes_of(b, 1, l);
            let ip = Ipv4Address {
                o0: if v.len() > 0 {
                    v[0]
                } else {
                    0
                },
                o1: if v.len() > 1 {
                    v[1]
                } else {
                    0
                },
                o2: if v.len() > 2 {
                    v[2]
                } else {
                    0
                },
                o3: if v.len() > 3 {
                    v[3]
                } else {
                    0
                },
            };
            Ok((b[0], Addr::Inet4 { ip }))
        } else {
            let ip = Ipv4Address { o0: b[l - 4], o1: b[l - 3], o2: b[l - 2], o3: b[l - 1] };
            proof {
                let pref = b@.subrange(l - 4, l as int);
                assert(pref.len() == 4);
                assert(pref[0] == b@[l - 4] && pref[1] == b@[l - 3] && pref[2] == b@[l - 2]
                    && pref[3] == b@[l - 1]);
            }
            Ok((b[0], Addr::Inet4 { ip }))
        }
    }
}

} // verus!

verus! {

/// Attribute bit of the RTAX_IFP (interface name) slot.
pub const RTA_IFP: u32 = 0x10;

/// The mathematical shape of a parsed address: what an `Addr` holds,
/// with strings as their characters and byte areas as sequences, so
/// that the parsers' results can be computed in specifications.
pub enum AddrModel {
    Link { index: int, name: Option<Seq<char>>, addr: Option<Seq<u8>> },
    Inet4 { ip: Ipv4Address },
    Inet6 { ip: Ipv6Address, zone: u32 },
    Default { af: u8, raw: Seq<u8> },
}

/// The model of a parsed address value.
pub open spec fn addr_model(a: Addr) -> AddrModel {
    match a {
        Addr::Link { index, name, addr } => AddrModel::Link {
            index: index as int,
            name: match name {
                Some(s) => Some(s@),
                None => None,
            },
            addr: match addr {
                Some(v) => Some(v@),
                None => None,
            },
        },
        Addr::Inet4 { ip } => AddrModel::Inet4 { ip },
        Addr::Inet6 { ip, zone } => AddrModel::Inet6 { ip, zone },
        Addr::Default { af, raw } => AddrModel::Default { af, raw: raw@ },
    }
}

/// Agreement of a parser's result with its computed specification:
/// errors agree exactly, and a parsed address has exactly the computed
/// model.
pub open spec fn addr_result_matches(
    r: Result<Addr, RouteError>,
    s: Result<AddrModel, RouteError>,
) -> bool {
    match (r, s) {
        (Ok(a), Ok(m)) => addr_model(a) == m,
        (Err(e1), Err(e2)) => e1 == e2,
        _ => false,
    }
}

/// Agreement for the parsers that also yield a consumed length.
pub open spec fn sized_addr_result_matches(
    r: Result<(usize, Addr), RouteError>,
    s: Result<(int, AddrModel), RouteError>,
) -> bool {
    match (r, s) {
        (Ok((n, a)), Ok((n2, m))) => n as int == n2 && addr_model(a) == m,
        (Err(e1), Err(e2)) => e1 == e2,
        _ => false,
    }
}

/// What parsing a link-layer sockaddr in the conventional BSD kernel
/// form yields (the interface index still zero): the consumed length
/// and the link address, or `InvalidAddress` when the areas run past
/// the buffer or the name is not UTF-8.
#[verifier::opaque]
pub open spec fn spec_parse_kernel_link_addr(b: Seq<u8>) -> Result<(int, AddrModel), RouteError>
    recommends b.len() >= 4,
{
    let nlen: int = if b[1] == 0xff { 0 } else { b[1] as int };
    let alen: int = if b[2] == 0xff { 0 } else { b[2] as int };
    let slen: int = if b[3] == 0xff { 0 } else { b[3] as int };
    let l = 4 + nlen + alen + slen;
    if b.len() < l {
        Err(RouteError::InvalidAddress)
    } else if nlen > 0 && !vstd::utf8::valid_utf8(b.subrange(4, 4 + nlen)) {
        Err(RouteError::InvalidAddress)
    } else {
        Ok(
            (
                l,
                AddrModel::Link {
                    index: 0,
                    name: if nlen > 0 {
                        Some(vstd::utf8::decode_utf8(b.subrange(4, 4 + nlen)))
                    } else {
                        None
                    },
                    addr: if alen > 0 {
                        Some(b.subrange(4 + nlen, 4 + nlen + alen))
                    } else {
                        None
                    },
                },
            ),
        )
    }
}

/// Parses a link-layer address in the conventional BSD kernel form:
/// type, name length, address length and selector length bytes, then the
/// three byte areas; a length of 0xff means absent. The name must be
/// UTF-8.
pub fn parse_kernel_link_addr(b: &[u8]) -> (r: Result<(usize, Addr), RouteError>)
    requires
        b@.len() >= 4,
    ensures
        sized_addr_result_matches(r, spec_parse_kernel_link_addr(b@)),
        r matches Err(e) ==> e is InvalidAddress,
{
    proof {
        reveal(spec_parse_kernel_link_addr);
        vstd::slice::axiom_spec_len(b);
    }
    let nlen: usize = if b[1] == 0xff { 0 } else { b[1] as usize };
    let alen: usize = if b[2] == 0xff { 0 } else { b[2] as usize };
    let slen: usize = if b[3] == 0xff { 0 } else { b[3] as usize };
    let l = 4 + nlen + alen + slen;
    if b.len() < l {
        return Err(RouteError::InvalidAddress);
    }
    let name = if nlen > 0 {
        match crate::text::utf8_string(bytes_of(b, 4, 4 + nlen)) {
            Ok(s) => Some(s),
            Err(_) => {
                return Err(RouteError::InvalidAddress);
            },
        }
    } else {
        None
    };
    let addr = if alen > 0 {
        Some(bytes_of(b, 4 + nlen, 4 + nlen + alen))
    } else {
        None
    };
    Ok((l, Addr::Link { index: 0, name, addr }))
}

/// What parsing an RTAX_IFP-style link sockaddr yields: the kernel form
/// at offset 4, with the interface index read from offset 2.
#[verifier::opaque]
pub open spec fn spec_parse_link_addr(b: Seq<u8>) -> Result<AddrModel, RouteError> {
    if b.len() < 8 {
        Err(RouteError::InvalidAddress)
    } else {
        match spec_parse_kernel_link_addr(b.skip(4)) {
            Err(e) => Err(e),
            Ok((_, m)) => match m {
                AddrModel::Link { index: _, name, addr } => Ok(
                    AddrModel::Link { index: le16(b, 2) as int, name, addr },
                ),
                other => Ok(other),
            },
        }
    }
}

/// Parses a link sockaddr: the kernel form prefixed by length, family
/// and interface index bytes.
pub fn parse_link_addr(b: &[u8]) -> (r: Result<Addr, RouteError>)
    ensures
        addr_result_matches(r, spec_parse_link_addr(b@)),
        r matches Err(e) ==> e is InvalidAddress,
{
    proof {
        reveal(spec_parse_link_addr);
        reveal(spec_parse_kernel_link_addr);
    }
    if b.len() < 8 {
        return Err(RouteError::InvalidAddress);
    }
    let index = match u16_from_ne_range(b, 2) {
        Ok(v) => v as i32,
        Err(e) => {
            return Err(e);
        },
    };
    let sub = vstd::slice::slice_subrange(b, 4, b.len());
    proof {
        assert(sub@ =~= b@.skip(4));
    }
    match parse_kernel_link_addr(sub) {
        Ok((_, a)) => {
            match a {
                Addr::Link { index: _, name, addr } => Ok(Addr::Link { index, name, addr }),
                _ => {
                    proof {
                        assert(false);
                    }
                    Err(RouteError::InvalidAddress)
                },
            }
        },
        Err(e) => Err(e),
    }
}

/// What parsing a default (family-opaque) sockaddr yields: the family
/// byte and the raw bytes up to the length byte.
#[verifier::opaque]
pub open spec fn spec_parse_default_addr(b: Seq<u8>) -> Result<AddrModel, RouteError> {
    if b.len() < 2 || b.len() < b[0] as int {
        Err(RouteError::InvalidAddress)
    } else {
        Ok(AddrModel::Default { af: b[1], raw: b.subrange(0, b[0] as int) })
    }
}

/// Parses a sockaddr of an unknown family: kept as its raw bytes.
pub fn parse_default_addr(b: &[u8]) -> (r: Result<Addr, RouteError>)
    ensures
        addr_result_matches(r, spec_parse_default_addr(b@)),
        r matches Err(e) ==> e is InvalidAddress,
{
    proof {
        reveal(spec_parse_default_addr);
    }
    if b.len() < 2 || b.len() < b[0] as usize {
        return Err(RouteError::InvalidAddress);
    }
    let raw = bytes_of(b, 0, b[0] as usize);
    Ok(Addr::Default { af: b[1], raw })
}

/// The result of the addrs-area walk, computed slot by slot from slot
/// `i` at offset `off`: nothing once the slots or the bytes run out;
/// for a set slot, the sockaddr by its family's parser, the cursor
/// advanced by the kernel's rounding, and any parser or bounds failure
/// surfaced.
#[verifier::opaque]
pub open spec fn spec_parse_addrs_from(
    cfg: RibConfig,
    attrs: u32,
    b: Seq<u8>,
    i: int,
    off: int,
) -> Result<Seq<AddrModel>, RouteError>
    decreases 8 - i,
{
    if i < 0 || i >= 8 {
        Ok(Seq::empty())
    } else if b.len() - off < cfg.kernel_align {
        Ok(Seq::empty())
    } else if attrs & (1u32 << (i as u32)) == 0 {
        spec_parse_addrs_from(cfg, attrs, b, i + 1, off)
    } else {
        let fam = b[off + 1];
        let l = spec_roundup(b[off] as int, cfg.kernel_align as int);
        if fam == cfg.af_link {
            match spec_parse_link_addr(b.skip(off)) {
                Err(e) => Err(e),
                Ok(m) => if b.len() - off < l {
                    Err(RouteError::MessageTooShort)
                } else {
                    match spec_parse_addrs_from(cfg, attrs, b, i + 1, off + l) {
                        Err(e) => Err(e),
                        Ok(rest) => Ok(seq![m] + rest),
                    }
                },
            }
        } else if fam == cfg.af_inet || fam == cfg.af_inet6 {
            match spec_parse_inet_addr(cfg, fam, b.skip(off)) {
                Err(e) => Err(e),
                Ok(a) => if b.len() - off < l {
                    Err(RouteError::MessageTooShort)
                } else {
                    match spec_parse_addrs_from(cfg, attrs, b, i + 1, off + l) {
                        Err(e) => Err(e),
                        Ok(rest) => Ok(seq![addr_model(a)] + rest),
                    }
                },
            }
        } else {
            match spec_parse_kernel_inet_addr(cfg, 0, b.skip(off)) {
                Err(e) => Err(e),
                Ok((n, a)) => {
                    let adv = if b.len() - off < spec_roundup(n as int, cfg.kernel_align as int) {
                        n as int
                    } else {
                        spec_roundup(n as int, cfg.kernel_align as int)
                    };
                    match spec_parse_addrs_from(cfg, attrs, b, i + 1, off + adv) {
                        Err(e) => Err(e),
                        Ok(rest) => Ok(seq![addr_model(a)] + rest),
                    }
                },
            }
        }
    }
}

/// The models of a vector of parsed addresses.
pub open spec fn addr_models(v: Seq<Addr>) -> Seq<AddrModel> {
    v.map_values(|a: Addr| addr_model(a))
}

/// Agreement of the addrs-area parser with its computed specification.
pub open spec fn addrs_result_matches(
    r: Result<Vec<Addr>, RouteError>,
    s: Result<Seq<AddrModel>, RouteError>,
) -> bool {
    match (r, s) {
        (Ok(v), Ok(ms)) => addr_models(v@) == ms,
        (Err(e1), Err(e2)) => e1 == e2,
        _ => false,
    }
}

/// A remaining walk's result appended to an already-walked prefix.
pub open spec fn extend_addrs(prefix: Seq<AddrModel>, s: Result<Seq<AddrModel>, RouteError>) -> Result<
    Seq<AddrModel>,
    RouteError,
> {
    match s {
        Ok(rest) => Ok(prefix + rest),
        Err(e) => Err(e),
    }
}

/// Parses the addrs area of a message: an ordered sequence of sockaddrs
/// for the RTAX slots whose bits are set in `attrs`. Family-tagged slots
/// (up to RTAX_BRD) dispatch on the family byte to the link, internet or
/// kernel-form parser; after each address the cursor advances by the
/// kernel's alignment rounding. The result is exactly what
/// `spec_parse_addrs_from` computes for the whole area.
#[verifier::rlimit(100)]
pub fn parse_addrs(cfg: &RibConfig, attrs: u32, data: &[u8]) -> (r: Result<Vec<Addr>, RouteError>)
    requires
        cfg.well_formed(),
        cfg.af_inet != cfg.af_inet6,
    ensures
        addrs_result_matches(r, spec_parse_addrs_from(*cfg, attrs, data@, 0, 0)),
        r matches Ok(addrs) ==> addrs@.len() <= 8,
        r matches Err(e) ==> (e is MessageTooShort || e is InvalidMessage || e is InvalidAddress),
{
    proof {
        reveal(spec_parse_addrs_from);
        vstd::slice::axiom_spec_len(data);
    }
    let mut addrs: Vec<Addr> = Vec::new();
    let mut off: usize = 0;
    let mut i: usize = 0;
    proof {
        match spec_parse_addrs_from(*cfg, attrs, data@, 0, 0) {
            Ok(rest) => {
                assert(addr_models(addrs@) =~= Seq::<AddrModel>::empty());
                assert(addr_models(addrs@) + rest =~= rest);
            },
            Err(_) => {},
        }
    }
    while i < RTAX_MAX
        invariant
            cfg.well_formed(),
            cfg.af_inet != cfg.af_inet6,
            i <= RTAX_MAX,
            off <= data@.len(),
            data@.len() <= usize::MAX,
            addrs@.len() <= i,
            spec_parse_addrs_from(*cfg, attrs, data@, 0, 0) == extend_addrs(
                addr_models(addrs@),
                spec_parse_addrs_from(*cfg, attrs, data@, i as int, off as int),
            ),
        decreases RTAX_MAX - i,
    {
        proof {
            reveal(spec_parse_addrs_from);
        }
        let ghost i0 = i as int;
        let ghost off0 = off as int;
        let ghost pre = addrs@;
        if data.len() - off < cfg.kernel_align {
            // The bytes ran out: the walk ends here, with any remainder
            // being alignment padding.
            proof {
                assert(spec_parse_addrs_from(*cfg, attrs, data@, i0, off0) == Ok::<
                    Seq<AddrModel>,
                    RouteError,
                >(Seq::empty()));
                assert(addr_models(addrs@) + Seq::<AddrModel>::empty() =~= addr_models(addrs@));
            }
            return Ok(addrs);
        }
        let bit: u32 = 1u32 << (i as u32);
        if attrs & bit == 0 {
            i = i + 1;
            continue ;
        }
        // i is always at most RTAX_BRD here, so every slot is
        // family-tagged; the family byte selects the parser.
        let fam = data[off + 1];
        if fam == cfg.af_link {
            let sub = vstd::slice::slice_subrange(data, off, data.len());
            proof {
                assert(sub@ =~= data@.skip(off as int));
            }
            let a = match parse_link_addr(sub) {
                Ok(a) => a,
                Err(e) => {
                    return Err(e);
                },
            };
            addrs.push(a);
            let l = roundup(sub[0] as usize, cfg.kernel_align);
            if data.len() - off < l {
                return Err(RouteError::MessageTooShort);
            }
            off = off + l;
            proof {
                assert(addr_models(addrs@) =~= pre.map_values(|x: Addr| addr_model(x)).push(
                    addr_model(a),
                ));
                match spec_parse_addrs_from(*cfg, attrs, data@, i0 + 1, off as int) {
                    Ok(rest) => {
                        assert(seq![addr_model(a)] + rest =~= addr_models(addrs@).skip(
                            pre.len() as int,
                        ) + rest);
                        assert(addr_models(pre) + (seq![addr_model(a)] + rest) =~= addr_models(
                            addrs@,
                        ) + rest);
                    },
                    Err(_) => {},
                }
            }
        } else if fam == cfg.af_inet || fam == cfg.af_inet6 {
            let sub = vstd::slice::slice_subrange(data, off, data.len());
            proof {
                assert(sub@ =~= data@.skip(off as int));
            }
            let a = match parse_inet_addr(cfg, fam, sub) {
                Ok(a) => a,
                Err(e) => {
                    return Err(e);
                },
            };
            addrs.push(a);
            let l = roundup(sub[0] as usize, cfg.kernel_align);
            if data.len() - off < l {
                return Err(RouteError::MessageTooShort);
            }
            off = off + l;
            proof {
                match spec_parse_addrs_from(*cfg, attrs, data@, i0 + 1, off as int) {
                    Ok(rest) => {
                        assert(addr_models(pre) + (seq![addr_model(a)] + rest) =~= addr_models(
                            addrs@,
                        ) + rest);
                    },
                    Err(_) => {},
                }
            }
        } else {
            let sub = vstd::slice::slice_subrange(data, off, data.len());
            proof {
                assert(sub@ =~= data@.skip(off as int));
            }
            let (n, a) = match parse_kernel_inet_addr(cfg, 0, sub) {
                Ok(v) => v,
                Err(e) => {
                    return Err(e);
                },
            };
            addrs.push(a);
            let ll = roundup(n as usize, cfg.kernel_align);
            if data.len() - off < ll {
                off = off + n as usize;
            } else {
                off = off + ll;
            }
            proof {
                match spec_parse_addrs_from(*cfg, attrs, data@, i0 + 1, off as int) {
                    Ok(rest) => {
                        assert(addr_models(pre) + (seq![addr_model(a)] + rest) =~= addr_models(
                            addrs@,
                        ) + rest);
                    },
                    Err(_) => {},
                }
            }
        }
        i = i + 1;
    }
    // DragonFly-style extra addresses beyond the bitmask are tolerated,
    // so nothing checks that the area was consumed whole.
    proof {
        assert(spec_parse_addrs_from(*cfg, attrs, data@, i as int, off as int) == Ok::<
            Seq<AddrModel>,
            RouteError,
        >(Seq::empty()));
        assert(addr_models(addrs@) + Seq::<AddrModel>::empty() =~= addr_models(addrs@));
    }
    Ok(addrs)
}

} // verus!

verus! {

/// A message conveying an address prefix, a nexthop address and an
/// output interface.
#[derive(Debug)]
pub struct RouteMessage {
    /// Message version.
    pub version: u8,
    /// Message type byte.
    pub typ: u8,
    /// Route flags.
    pub flags: u32,
    /// Interface index when attached.
    pub index: u16,
    /// Sender's identifier; usually a process ID.
    pub id: u32,
    /// Sequence number.
    pub seq: u32,
    /// Errno of a requested operation, when nonzero.
    pub error: Option<u32>,
    /// Addresses, ordered by RTAX slot.
    pub addrs: Vec<Addr>,
    /// Offset of the header extension.
    pub ext_off: usize,
}

/// An interface message.
#[derive(Debug)]
pub struct InterfaceMessage {
    /// Message version.
    pub version: u8,
    /// Message type byte.
    pub typ: u8,
    /// Interface flags.
    pub flags: u32,
    /// Interface index.
    pub index: u16,
    /// Interface name.
    pub name: Option<String>,
    /// The RTAX_IFP link address.
    pub addr_rtax_ifp: Addr,
    /// Offset of the header extension.
    pub ext_off: usize,
}

/// An interface address message.
#[derive(Debug)]
pub struct InterfaceAddrMessage {
    /// Message version.
    pub version: u8,
    /// Message type byte.
    pub typ: u8,
    /// Interface flags.
    pub flags: u32,
    /// Interface index.
    pub index: u16,
    /// Addresses, ordered by RTAX slot.
    pub addrs: Vec<Addr>,
}

/// An interface multicast address message.
#[derive(Debug)]
pub struct InterfaceMulticastAddrMessage {
    /// Message version.
    pub version: u8,
    /// Message type byte.
    pub typ: u8,
    /// Interface flags.
    pub flags: u32,
    /// Interface index.
    pub index: u16,
    /// Addresses, ordered by RTAX slot.
    pub addrs: Vec<Addr>,
}

/// An interface arrival or departure message.
#[derive(Debug)]
pub struct InterfaceAnnounceMessage {
    /// Message version.
    pub version: u8,
    /// Message type byte.
    pub typ: u8,
    /// Interface index.
    pub index: u16,
    /// Interface name.
    pub name: String,
    /// What kind of announcement.
    pub what: u16,
}

/// One parsed routing message of any kind.
#[derive(Debug)]
pub enum WireMessage {
    Route(RouteMessage),
    Interface(InterfaceMessage),
    InterfaceAddr(InterfaceAddrMessage),
    InterfaceMulticastAddr(InterfaceMulticastAddrMessage),
    InterfaceAnnounce(InterfaceAnnounceMessage),
}

/// The mathematical shape of a route message.
pub struct RouteMessageModel {
    pub version: u8,
    pub typ: u8,
    pub flags: u32,
    pub index: u16,
    pub id: u32,
    pub seq: u32,
    pub error: Option<u32>,
    pub addrs: Seq<AddrModel>,
    pub ext_off: int,
}

/// The mathematical shape of an interface message.
pub struct InterfaceMessageModel {
    pub version: u8,
    pub typ: u8,
    pub flags: u32,
    pub index: u16,
    pub name: Option<Seq<char>>,
    pub addr_rtax_ifp: AddrModel,
    pub ext_off: int,
}

/// The mathematical shape of an interface address message.
pub struct InterfaceAddrMessageModel {
    pub version: u8,
    pub typ: u8,
    pub flags: u32,
    pub index: u16,
    pub addrs: Seq<AddrModel>,
}

/// The mathematical shape of an interface multicast address message.
pub struct InterfaceMulticastAddrMessageModel {
    pub version: u8,
    pub typ: u8,
    pub flags: u32,
    pub index: u16,
    pub addrs: Seq<AddrModel>,
}

/// The mathematical shape of an interface announce message.
pub struct InterfaceAnnounceMessageModel {
    pub version: u8,
    pub typ: u8,
    pub index: u16,
    pub name: Seq<char>,
    pub what: u16,
}

/// The mathematical shape of any parsed routing message.
pub enum WireMessageModel {
    Route(RouteMessageModel),
    Interface(InterfaceMessageModel),
    InterfaceAddr(InterfaceAddrMessageModel),
    InterfaceMulticastAddr(InterfaceMulticastAddrMessageModel),
    InterfaceAnnounce(InterfaceAnnounceMessageModel),
}

/// The model of a parsed route message.
pub open spec fn route_message_model(m: RouteMessage) -> RouteMessageModel {
    RouteMessageModel {
        version: m.version,
        typ: m.typ,
        flags: m.flags,
        index: m.index,
        id: m.id,
        seq: m.seq,
        error: m.error,
        addrs: addr_models(m.addrs@),
        ext_off: m.ext_off as int,
    }
}

/// The model of any parsed message value.
pub open spec fn wire_message_model(m: WireMessage) -> WireMessageModel {
    match m {
        WireMessage::Route(rm) => WireMessageModel::Route(route_message_model(rm)),
        WireMessage::Interface(im) => WireMessageModel::Interface(
            InterfaceMessageModel {
                version: im.version,
                typ: im.typ,
                flags: im.flags,
                index: im.index,
                name: match im.name {
                    Some(n) => Some(n@),
                    None => None,
                },
                addr_rtax_ifp: addr_model(im.addr_rtax_ifp),
                ext_off: im.ext_off as int,
            },
        ),
        WireMessage::InterfaceAddr(am) => WireMessageModel::InterfaceAddr(
            InterfaceAddrMessageModel {
                version: am.version,
                typ: am.typ,
                flags: am.flags,
                index: am.index,
                addrs: addr_models(am.addrs@),
            },
        ),
        WireMessage::InterfaceMulticastAddr(mm) => WireMessageModel::InterfaceMulticastAddr(
            InterfaceMulticastAddrMessageModel {
                version: mm.version,
                typ: mm.typ,
                flags: mm.flags,
                index: mm.index,
                addrs: addr_models(mm.addrs@),
            },
        ),
        WireMessage::InterfaceAnnounce(nm) => WireMessageModel::InterfaceAnnounce(
            InterfaceAnnounceMessageModel {
                version: nm.version,
                typ: nm.typ,
                index: nm.index,
                name: nm.name@,
                what: nm.what,
            },
        ),
    }
}

/// Agreement of the message parser with its computed specification.
pub open spec fn message_result_matches(
    r: Result<Option<WireMessage>, RouteError>,
    s: Result<Option<WireMessageModel>, RouteError>,
) -> bool {
    match (r, s) {
        (Ok(None), Ok(None)) => true,
        (Ok(Some(m)), Ok(Some(mm))) => wire_message_model(m) == mm,
        (Err(e1), Err(e2)) => e1 == e2,
        _ => false,
    }
}

/// The end of the NUL-terminated name field of an announce message,
/// scanning from `i` up to offset 22.
pub open spec fn spec_announce_name_end(b: Seq<u8>, i: int) -> int
    decreases 22 - i,
{
    if i < 6 || i >= 22 || b[i] == 0 {
        i
    } else {
        spec_announce_name_end(b, i + 1)
    }
}

impl WireFormat {
    /// A format's body offset covers its kind's fixed header reads.
    pub open spec fn wf(self) -> bool {
        match self.typ {
            MessageType::Route => self.body_off >= 36,
            MessageType::Interface => self.body_off >= 14,
            MessageType::InterfaceAddr => self.body_off >= 18,
            MessageType::InterfaceMulticastAddr => self.body_off >= 14,
            MessageType::InterfaceAnnounce => self.body_off >= 4,
        }
    }
}

/// The result of parsing one whole message (already cut to its length)
/// with the given format: `Ok(None)` for a valid but uninteresting
/// message, the message's model on success, and the exact error
/// otherwise.
#[verifier::opaque]
pub open spec fn spec_wf_parse(w: WireFormat, cfg: RibConfig, b: Seq<u8>) -> Result<
    Option<WireMessageModel>,
    RouteError,
>
    recommends w.wf(),
{
    if b.len() < w.body_off {
        Err(RouteError::MessageTooShort)
    } else if b.len() < le16(b, 0) as int {
        Err(RouteError::InvalidMessage)
    } else {
        match w.typ {
            MessageType::Route => if cfg.os is OpenBsd {
                if b.len() < le16(b, 4) as int {
                    Err(RouteError::InvalidMessage)
                } else {
                    match spec_parse_addrs_from(cfg, le32(b, 12), b.skip(le16(b, 4) as int), 0, 0) {
                        Err(e) => Err(e),
                        Ok(addrs) => Ok(
                            Some(
                                WireMessageModel::Route(
                                    RouteMessageModel {
                                        version: b[2],
                                        typ: b[3],
                                        flags: le32(b, 16),
                                        index: le16(b, 6),
                                        id: le32(b, 24),
                                        seq: le32(b, 28),
                                        error: if le32(b, 32) != 0 {
                                            Some(le32(b, 32))
                                        } else {
                                            None
                                        },
                                        addrs,
                                        ext_off: w.ext_off as int,
                                    },
                                ),
                            ),
                        ),
                    }
                }
            } else {
                if le32(b, 12) > 0x7FFF_FFFF {
                    Err(RouteError::InvalidMessage)
                } else {
                    match spec_parse_addrs_from(cfg, le32(b, 12), b.skip(w.body_off as int), 0, 0) {
                        Err(e) => Err(e),
                        Ok(addrs) => Ok(
                            Some(
                                WireMessageModel::Route(
                                    RouteMessageModel {
                                        version: b[2],
                                        typ: b[3],
                                        flags: le32(b, 8),
                                        index: le16(b, 4),
                                        id: le32(b, 16),
                                        seq: le32(b, 20),
                                        error: if le32(b, 28) != 0 {
                                            Some(le32(b, 28))
                                        } else {
                                            None
                                        },
                                        addrs,
                                        ext_off: w.ext_off as int,
                                    },
                                ),
                            ),
                        ),
                    }
                }
            },
            MessageType::Interface => if le32(b, 4) & RTA_IFP == 0 {
                Ok(None)
            } else {
                match spec_parse_link_addr(b.skip(w.body_off as int)) {
                    Err(e) => Err(e),
                    Ok(am) => Ok(
                        Some(
                            WireMessageModel::Interface(
                                InterfaceMessageModel {
                                    version: b[2],
                                    typ: b[3],
                                    flags: le32(b, 8),
                                    index: le16(b, 12),
                                    name: match am {
                                        AddrModel::Link { name, .. } => name,
                                        _ => None,
                                    },
                                    addr_rtax_ifp: am,
                                    ext_off: w.ext_off as int,
                                },
                            ),
                        ),
                    ),
                }
            },
            MessageType::InterfaceAddr => match spec_parse_addrs_from(
                cfg,
                le32(b, 4),
                b.skip(w.body_off as int),
                0,
                0,
            ) {
                Err(e) => Err(e),
                Ok(addrs) => Ok(
                    Some(
                        WireMessageModel::InterfaceAddr(
                            InterfaceAddrMessageModel {
                                version: b[2],
                                typ: b[3],
                                flags: le32(b, 8),
                                index: if cfg.os is NetBsd {
                                    le16(b, 16)
                                } else {
                                    le16(b, 12)
                                },
                                addrs,
                            },
                        ),
                    ),
                ),
            },
            MessageType::InterfaceMulticastAddr => match spec_parse_addrs_from(
                cfg,
                le32(b, 4),
                b.skip(w.body_off as int),
                0,
                0,
            ) {
                Err(e) => Err(e),
                Ok(addrs) => Ok(
                    Some(
                        WireMessageModel::InterfaceMulticastAddr(
                            InterfaceMulticastAddrMessageModel {
                                version: b[2],
                                typ: b[3],
                                flags: le32(b, 8),
                                index: le16(b, 12),
                                addrs,
                            },
                        ),
                    ),
                ),
            },
            MessageType::InterfaceAnnounce => if b.len() < 24 {
                Err(RouteError::MessageTooShort)
            } else {
                let e = spec_announce_name_end(b, 6);
                if e < 22 && !vstd::utf8::valid_utf8(b.subrange(6, e)) {
                    Err(RouteError::InvalidAddress)
                } else {
                    Ok(
                        Some(
                            WireMessageModel::InterfaceAnnounce(
                                InterfaceAnnounceMessageModel {
                                    version: b[2],
                                    typ: b[3],
                                    index: le16(b, 4),
                                    name: if e < 22 {
                                        vstd::utf8::decode_utf8(b.subrange(6, e))
                                    } else {
                                        Seq::empty()
                                    },
                                    what: le16(b, 22),
                                },
                            ),
                        ),
                    )
                }
            },
        }
    }
}

impl WireFormat {
    /// Parses one whole message (already cut to its length). `Ok(None)`
    /// means the message is valid but not interesting (an interface
    /// message without a name slot) and counts as skipped.
    ///
    /// A route message's header fields land in the result exactly as
    /// they sit in the bytes; the layout of the header differs between
    /// OpenBSD and the other flavours.
    pub fn parse(&self, cfg: &RibConfig, _typ: RIBType, data: &[u8]) -> (r: Result<
        Option<WireMessage>,
        RouteError,
    >)
        requires
            self.wf(),
            cfg.well_formed(),
            cfg.af_inet != cfg.af_inet6,
        ensures
            message_result_matches(r, spec_wf_parse(*self, *cfg, data@)),
            r matches Err(e) ==> (e is MessageTooShort || e is InvalidMessage
                || e is InvalidAddress),
    {
        proof {
            reveal(spec_wf_parse);
            vstd::slice::axiom_spec_len(data);
        }
        match self.typ {
            MessageType::Route => {
                if data.len() < self.body_off {
                    return Err(RouteError::MessageTooShort);
                }
                let l = match u16_from_ne_range(data, 0) {
                    Ok(v) => v,
                    Err(e) => {
                        return Err(e);
                    },
                };
                if data.len() < l as usize {
                    return Err(RouteError::InvalidMessage);
                }
                match cfg.os {
                    RibOs::OpenBsd => {
                        let ll = match u16_from_ne_range(data, 4) {
                            Ok(v) => v as usize,
                            Err(e) => {
                                return Err(e);
                            },
                        };
                        if data.len() < ll {
                            return Err(RouteError::InvalidMessage);
                        }
                        let attrs = match u32_from_ne_range(data, 12) {
                            Ok(v) => v,
                            Err(e) => {
                                return Err(e);
                            },
                        };
                        let sub = vstd::slice::slice_subrange(data, ll, data.len());
                        proof {
                            assert(sub@ =~= data@.skip(ll as int));
                        }
                        let addrs = match parse_addrs(cfg, attrs, sub) {
                            Ok(v) => v,
                            Err(e) => {
                                return Err(e);
                            },
                        };
                        let flags = match u32_from_ne_range(data, 16) {
                            Ok(v) => v,
                            Err(e) => {
                                return Err(e);
                            },
                        };
                        let index = match u16_from_ne_range(data, 6) {
                            Ok(v) => v,
                            Err(e) => {
                                return Err(e);
                            },
                        };
                        let id = match u32_from_ne_range(data, 24) {
                            Ok(v) => v,
                            Err(e) => {
                                return Err(e);
                            },
                        };
                        let seq = match u32_from_ne_range(data, 28) {
                            Ok(v) => v,
                            Err(e) => {
                                return Err(e);
                            },
                        };
                        let errno = match u32_from_ne_range(data, 32) {
                            Ok(v) => v,
                            Err(e) => {
                                return Err(e);
                            },
                        };
                        Ok(
                            Some(
                                WireMessage::Route(
                                    RouteMessage {
                                        version: data[2],
                                        typ: data[3],
                                        flags,
                                        index,
                                        id,
                                        seq,
                                        error: if errno != 0 {
                                            Some(errno)
                                        } else {
                                            None
                                        },
                                        addrs,
                                        ext_off: self.ext_off,
                                    },
                                ),
                            ),
                        )
                    },
                    _ => {
                        let attrs = match u32_from_ne_range(data, 12) {
                            Ok(v) => v,
                            Err(e) => {
                                return Err(e);
                            },
                        };
                        if attrs > 0x7FFF_FFFF {
                            return Err(RouteError::InvalidMessage);
                        }
                        let sub = vstd::slice::slice_subrange(data, self.body_off, data.len());
                        proof {
                            assert(sub@ =~= data@.skip(self.body_off as int));
                        }
                        let addrs = match parse_addrs(cfg, attrs, sub) {
                            Ok(v) => v,
                            Err(e) => {
                                return Err(e);
                            },
                        };
                        let flags = match u32_from_ne_range(data, 8) {
                            Ok(v) => v,
                            Err(e) => {
                                return Err(e);
                            },
                        };
                        let index = match u16_from_ne_range(data, 4) {
                            Ok(v) => v,
                            Err(e) => {
                                return Err(e);
                            },
                        };
                        let id = match u32_from_ne_range(data, 16) {
                            Ok(v) => v,
                            Err(e) => {
                                return Err(e);
                            },
                        };
                        let seq = match u32_from_ne_range(data, 20) {
                            Ok(v) => v,
                            Err(e) => {
                                return Err(e);
                            },
                        };
                        let errno = match u32_from_ne_range(data, 28) {
                            Ok(v) => v,
                            Err(e) => {
                                return Err(e);
                            },
                        };
                        Ok(
                            Some(
                                WireMessage::Route(
                                    RouteMessage {
                                        version: data[2],
                                        typ: data[3],
                                        flags,
                                        index,
                                        id,
                                        seq,
                                        error: if errno != 0 {
                                            Some(errno)
                                        } else {
                                            None
                                        },
                                        addrs,
                                        ext_off: self.ext_off,
                                    },
                                ),
                            ),
                        )
                    },
                }
            },
            MessageType::Interface => {
                if data.len() < self.body_off {
                    return Err(RouteError::MessageTooShort);
                }
                let l = match u16_from_ne_range(data, 0) {
                    Ok(v) => v,
                    Err(e) => {
                        return Err(e);
                    },
                };
                if data.len() < l as usize {
                    return Err(RouteError::InvalidMessage);
                }
                let attrs = match u32_from_ne_range(data, 4) {
                    Ok(v) => v,
                    Err(e) => {
                        return Err(e);
                    },
                };
                if attrs & RTA_IFP == 0 {
                    return Ok(None);
                }
                let sub = vstd::slice::slice_subrange(data, self.body_off, data.len());
                proof {
                    assert(sub@ =~= data@.skip(self.body_off as int));
                }
                let addr = match parse_link_addr(sub) {
                    Ok(a) => a,
                    Err(e) => {
                        return Err(e);
                    },
                };
                let name: Option<String> = match &addr {
                    Addr::Link { name: Some(s), .. } => Some(s.clone()),
                    _ => None,
                };
                let flags = match u32_from_ne_range(data, 8) {
                    Ok(v) => v,
                    Err(e) => {
                        return Err(e);
                    },
                };
                let index = match u16_from_ne_range(data, 12) {
                    Ok(v) => v,
                    Err(e) => {
                        return Err(e);
                    },
                };
                Ok(
                    Some(
                        WireMessage::Interface(
                            InterfaceMessage {
                                version: data[2],
                                typ: data[3],
                                flags,
                                index,
                                name,
                                addr_rtax_ifp: addr,
                                ext_off: self.ext_off,
                            },
                        ),
                    ),
                )
            },
            MessageType::InterfaceAddr => {
                if data.len() < self.body_off {
                    return Err(RouteError::MessageTooShort);
                }
                let l = match u16_from_ne_range(data, 0) {
                    Ok(v) => v,
                    Err(e) => {
                        return Err(e);
                    },
                };
                if data.len() < l as usize {
                    return Err(RouteError::InvalidMessage);
                }
                let index = match cfg.os {
                    RibOs::NetBsd => match u16_from_ne_range(data, 16) {
                        Ok(v) => v,
                        Err(e) => {
                            return Err(e);
                        },
                    },
                    _ => match u16_from_ne_range(data, 12) {
                        Ok(v) => v,
                        Err(e) => {
                            return Err(e);
                        },
                    },
                };
                let attrs = match u32_from_ne_range(data, 4) {
                    Ok(v) => v,
                    Err(e) => {
                        return Err(e);
                    },
                };
                let sub = vstd::slice::slice_subrange(data, self.body_off, data.len());
                proof {
                    assert(sub@ =~= data@.skip(self.body_off as int));
                }
                let addrs = match parse_addrs(cfg, attrs, sub) {
                    Ok(v) => v,
                    Err(e) => {
                        return Err(e);
                    },
                };
                let flags = match u32_from_ne_range(data, 8) {
                    Ok(v) => v,
                    Err(e) => {
                        return Err(e);
                    },
                };
                Ok(
                    Some(
                        WireMessage::InterfaceAddr(
                            InterfaceAddrMessage {
                                version: data[2],
                                typ: data[3],
                                flags,
                                index,
                                addrs,
                            },
                        ),
                    ),
                )
            },
            MessageType::InterfaceMulticastAddr => {
                if data.len() < self.body_off {
                    return Err(RouteError::MessageTooShort);
                }
                let l = match u16_from_ne_range(data, 0) {
                    Ok(v) => v,
                    Err(e) => {
                        return Err(e);
                    },
                };
                if data.len() < l as usize {
                    return Err(RouteError::InvalidMessage);
                }
                let attrs = match u32_from_ne_range(data, 4) {
                    Ok(v) => v,
                    Err(e) => {
                        return Err(e);
                    },
                };
                let sub = vstd::slice::slice_subrange(data, self.body_off, data.len());
                proof {
                    assert(sub@ =~= data@.skip(self.body_off as int));
                }
                let addrs = match parse_addrs(cfg, attrs, sub) {
                    Ok(v) => v,
                    Err(e) => {
                        return Err(e);
                    },
                };
                let flags = match u32_from_ne_range(data, 8) {
                    Ok(v) => v,
                    Err(e) => {
                        return Err(e);
                    },
                };
                let index = match u16_from_ne_range(data, 12) {
                    Ok(v) => v,
                    Err(e) => {
                        return Err(e);
                    },
                };
                Ok(
                    Some(
                        WireMessage::InterfaceMulticastAddr(
                            InterfaceMulticastAddrMessage {
                                version: data[2],
                                typ: data[3],
                                flags,
                                index,
                                addrs,
                            },
                        ),
                    ),
                )
            },
            MessageType::InterfaceAnnounce => {
                if data.len() < self.body_off {
                    return Err(RouteError::MessageTooShort);
                }
                let l = match u16_from_ne_range(data, 0) {
                    Ok(v) => v,
                    Err(e) => {
                        return Err(e);
                    },
                };
                if data.len() < l as usize {
                    return Err(RouteError::InvalidMessage);
                }
                if data.len() < 24 {
                    return Err(RouteError::MessageTooShort);
                }
                // The 16-byte name field starts at offset 6 and is
                // NUL-terminated.
                let mut end: usize = 6;
                while end < 22 && data[end] != 0
                    invariant
                        6 <= end <= 22,
                        data@.len() >= 24,
                        spec_announce_name_end(data@, 6) == spec_announce_name_end(
                            data@,
                            end as int,
                        ),
                    decreases 22 - end,
                {
                    end = end + 1;
                }
                proof {
                    assert(spec_announce_name_end(data@, end as int) == end);
                }
                // Without a terminator in the 16 bytes the name stays
                // empty.
                let name = if end < 22 {
                    match crate::text::utf8_string(bytes_of(data, 6, end)) {
                        Ok(s) => s,
                        Err(_) => {
                            return Err(RouteError::InvalidAddress);
                        },
                    }
                } else {
                    String::new()
                };
                let index = match u16_from_ne_range(data, 4) {
                    Ok(v) => v,
                    Err(e) => {
                        return Err(e);
                    },
                };
                let what = match u16_from_ne_range(data, 22) {
                    Ok(v) => v,
                    Err(e) => {
                        return Err(e);
                    },
                };
                Ok(
                    Some(
                        WireMessage::InterfaceAnnounce(
                            InterfaceAnnounceMessage {
                                version: data[2],
                                typ: data[3],
                                index,
                                name,
                                what,
                            },
                        ),
                    ),
                )
            },
        }
    }
}

} // verus!

verus! {

/// The outcome of one RIB parse: the messages, with the bookkeeping the
/// validation rests on.
#[derive(Debug)]
pub struct RibParse {
    /// The parsed messages, in kernel order.
    pub messages: Vec<WireMessage>,
    /// How many messages parsed.
    pub parsed: usize,
    /// How many messages were skipped (foreign version, unknown type, or
    /// not interesting).
    pub skipped: usize,
    /// How many messages the RIB held.
    pub total: usize,
}

/// The result of walking a routing information base from offset `off`:
/// the models of the parsed messages, the number skipped and the total
/// scanned, computed chunk by chunk from the length prefixes. A message
/// with a foreign version or an unregistered type byte counts as
/// skipped; a zero declared length or one past the buffer is an error; a
/// trailing remainder of at most four bytes is ignored. Every scanned
/// message is parsed or skipped, so the count equation holds of every
/// success by construction.
#[verifier::opaque]
pub open spec fn spec_parse_rib_from(cfg: RibConfig, b: Seq<u8>, off: int) -> Result<
    (Seq<WireMessageModel>, int, int),
    RouteError,
>
    decreases b.len() - off,
{
    if off < 0 || b.len() - off <= 4 {
        Ok((Seq::empty(), 0, 0))
    } else {
        let l = le16(b, off) as int;
        if l == 0 {
            Err(RouteError::InvalidMessage)
        } else if b.len() - off < l {
            Err(RouteError::MessageTooShort)
        } else if b[off + 2] != cfg.rtm_version {
            match spec_parse_rib_from(cfg, b, off + l) {
                Err(e) => Err(e),
                Ok((m, sk, t)) => Ok((m, sk + 1, t + 1)),
            }
        } else {
            match spec_lookup_format(cfg.wire_formats@, b[off + 3]) {
                None => match spec_parse_rib_from(cfg, b, off + l) {
                    Err(e) => Err(e),
                    Ok((m, sk, t)) => Ok((m, sk + 1, t + 1)),
                },
                Some(w) => match spec_wf_parse(w, cfg, b.subrange(off, off + l)) {
                    Err(e) => Err(e),
                    Ok(None) => match spec_parse_rib_from(cfg, b, off + l) {
                        Err(e) => Err(e),
                        Ok((m, sk, t)) => Ok((m, sk + 1, t + 1)),
                    },
                    Ok(Some(mm)) => match spec_parse_rib_from(cfg, b, off + l) {
                        Err(e) => Err(e),
                        Ok((m, sk, t)) => Ok((seq![mm] + m, sk, t + 1)),
                    },
                },
            }
        }
    }
}

/// The models of a vector of parsed messages.
pub open spec fn wire_message_models(v: Seq<WireMessage>) -> Seq<WireMessageModel> {
    v.map_values(|m: WireMessage| wire_message_model(m))
}

/// A remaining walk's result appended to an already-walked prefix.
pub open spec fn extend_rib(
    prefix: Seq<WireMessageModel>,
    pre_skipped: int,
    pre_total: int,
    s: Result<(Seq<WireMessageModel>, int, int), RouteError>,
) -> Result<(Seq<WireMessageModel>, int, int), RouteError> {
    match s {
        Ok((m, sk, t)) => Ok((prefix + m, pre_skipped + sk, pre_total + t)),
        Err(e) => Err(e),
    }
}

/// Agreement of the RIB parser with its computed specification.
pub open spec fn rib_result_matches(
    r: Result<RibParse, RouteError>,
    s: Result<(Seq<WireMessageModel>, int, int), RouteError>,
) -> bool {
    match (r, s) {
        (Ok(p), Ok((ms, sk, t))) => wire_message_models(p.messages@) == ms && p.parsed == ms.len()
            && p.skipped == sk && p.total == t,
        (Err(e1), Err(e2)) => e1 == e2,
        _ => false,
    }
}

/// Parses a routing information base: a concatenation of length-prefixed
/// messages. A message whose version is not the platform's, or whose
/// type byte has no registered wire format, is counted as skipped, not
/// an error. Every message is accounted for: parsed plus skipped equals
/// the total. On a valid table type the result is exactly what
/// `spec_parse_rib_from` computes for the whole dump.
#[verifier::rlimit(100)]
pub fn parse_rib_counted(cfg: &RibConfig, typ: RIBType, data: &[u8]) -> (r: Result<
    RibParse,
    RouteError,
>)
    requires
        cfg.well_formed(),
        cfg.af_inet != cfg.af_inet6,
    ensures
        r matches Ok(p) ==> p.parsed == p.messages@.len() && p.parsed + p.skipped == p.total,
        !spec_is_valid_rib_type(cfg.os, typ) <==> r == Err::<RibParse, RouteError>(
            RouteError::InvalidRibType { rib_type: typ },
        ),
        spec_is_valid_rib_type(cfg.os, typ) ==> rib_result_matches(
            r,
            spec_parse_rib_from(*cfg, data@, 0),
        ),
{
    if !is_valid_rib_type(cfg.os, typ) {
        return Err(RouteError::InvalidRibType { rib_type: typ });
    }
    proof {
        reveal(spec_parse_rib_from);
        vstd::slice::axiom_spec_len(data);
    }
    let mut messages: Vec<WireMessage> = Vec::new();
    let mut skipped: usize = 0;
    let mut total: usize = 0;
    let mut off: usize = 0;
    proof {
        match spec_parse_rib_from(*cfg, data@, 0) {
            Ok((m, sk, t)) => {
                assert(wire_message_models(messages@) =~= Seq::<WireMessageModel>::empty());
                assert(wire_message_models(messages@) + m =~= m);
            },
            Err(_) => {},
        }
    }
    while data.len() - off > 4
        invariant
            cfg.well_formed(),
            cfg.af_inet != cfg.af_inet6,
            off <= data@.len(),
            data@.len() <= usize::MAX,
            messages@.len() + skipped == total,
            total <= off,
            spec_is_valid_rib_type(cfg.os, typ),
            spec_parse_rib_from(*cfg, data@, 0) == extend_rib(
                wire_message_models(messages@),
                skipped as int,
                total as int,
                spec_parse_rib_from(*cfg, data@, off as int),
            ),
        decreases data@.len() - off,
    {
        proof {
            reveal(spec_parse_rib_from);
        }
        let ghost off0 = off as int;
        let ghost msgs_pre = messages@;
        let ghost skipped0 = skipped as int;
        let ghost total0 = total as int;
        total = total + 1;
        let l = match u16_from_ne_range(data, off) {
            Ok(v) => v as usize,
            Err(e) => {
                return Err(e);
            },
        };
        if l == 0 {
            return Err(RouteError::InvalidMessage);
        }
        if data.len() - off < l {
            return Err(RouteError::MessageTooShort);
        }
        if data[off + 2] != cfg.rtm_version {
            skipped = skipped + 1;
            off = off + l;
            proof {
                match spec_parse_rib_from(*cfg, data@, off as int) {
                    Ok((m, sk, t)) => {},
                    Err(_) => {},
                }
            }
            continue ;
        }
        match cfg.format_of(data[off + 3]) {
            Some(w) => {
                proof {
                    lemma_lookup_format_wf(cfg.wire_formats@, data@[off + 3]);
                }
                let chunk = vstd::slice::slice_subrange(data, off, off + l);
                proof {
                    assert(chunk@ =~= data@.subrange(off as int, off0 + l));
                }
                match w.parse(cfg, typ, chunk) {
                    Ok(Some(m)) => {
                        messages.push(m);
                        proof {
                            match spec_parse_rib_from(*cfg, data@, off0 + l) {
                                Ok((m2, sk, t)) => {
                                    assert(wire_message_models(messages@) =~= wire_message_models(
                                        msgs_pre,
                                    ).push(wire_message_model(m)));
                                    assert(wire_message_models(msgs_pre) + (seq![
                                        wire_message_model(m),
                                    ] + m2) =~= wire_message_models(messages@) + m2);
                                },
                                Err(_) => {},
                            }
                        }
                    },
                    Ok(None) => {
                        skipped = skipped + 1;
                    },
                    Err(e) => {
                        return Err(e);
                    },
                }
            },
            None => {
                skipped = skipped + 1;
            },
        }
        off = off + l;
    }
    proof {
        assert(spec_parse_rib_from(*cfg, data@, off as int) == Ok::<
            (Seq<WireMessageModel>, int, int),
            RouteError,
        >((Seq::empty(), 0, 0)));
        assert(wire_message_models(messages@) + Seq::<WireMessageModel>::empty()
            =~= wire_message_models(messages@));
    }
    if total != messages.len() + skipped {
        return Err(RouteError::MessageMismatch);
    }
    let parsed = messages.len();
    Ok(RibParse { messages, parsed, skipped, total })
}

/// Parses a RIB and returns the list of routing messages.
pub fn parse_rib(cfg: &RibConfig, typ: RIBType, data: &[u8]) -> (r: Result<
    Vec<WireMessage>,
    RouteError,
>)
    requires
        cfg.well_formed(),
        cfg.af_inet != cfg.af_inet6,
    ensures
        !spec_is_valid_rib_type(cfg.os, typ) <==> r == Err::<Vec<WireMessage>, RouteError>(
            RouteError::InvalidRibType { rib_type: typ },
        ),
        spec_is_valid_rib_type(cfg.os, typ) ==> (match spec_parse_rib_from(*cfg, data@, 0) {
            Ok((ms, _, _)) => r matches Ok(v) && wire_message_models(v@) == ms,
            Err(e) => r == Err::<Vec<WireMessage>, RouteError>(e),
        }),
{
    match parse_rib_counted(cfg, typ, data) {
        Ok(p) => Ok(p.messages),
        Err(e) => Err(e),
    }
}

/// The all-zeros IPv4 address.
pub open spec fn spec_zero_v4() -> Ipv4Address {
    Ipv4Address { o0: 0, o1: 0, o2: 0, o3: 0 }
}

/// The all-zeros IPv6 address.
pub open spec fn spec_zero_v6() -> Ipv6Address {
    Ipv6Address { s0: 0, s1: 0, s2: 0, s3: 0, s4: 0, s5: 0, s6: 0, s7: 0 }
}

/// Whether a route message describes the default route: it has the
/// gateway flag (and on Darwin no interface scope), and both its
/// destination and netmask slots hold all-zero addresses of one family.
pub open spec fn spec_is_default_gateway(os: RibOs, flags: u32, addrs: Seq<Addr>) -> bool {
    &&& flags & RTF_GATEWAY != 0
    &&& (os is Darwin ==> flags & RTF_IFSCOPE == 0)
    &&& addrs.len() > RTAX_NETMASK
    &&& match (addrs[RTAX_DST as int], addrs[RTAX_NETMASK as int]) {
        (Addr::Inet4 { ip: d }, Addr::Inet4 { ip: n }) => d == spec_zero_v4() && n
            == spec_zero_v4(),
        (Addr::Inet6 { ip: d, .. }, Addr::Inet6 { ip: n, .. }) => d == spec_zero_v6() && n
            == spec_zero_v6(),
        _ => false,
    }
}

/// Decides whether a route message describes the default route.
pub fn is_default_gateway(os: RibOs, rm: &RouteMessage) -> (r: bool)
    ensures
        r == spec_is_default_gateway(os, rm.flags, rm.addrs@),
{
    if rm.flags & RTF_GATEWAY == 0 {
        return false;
    }
    match os {
        RibOs::Darwin => {
            if rm.flags & RTF_IFSCOPE != 0 {
                return false;
            }
        },
        _ => {},
    }
    if rm.addrs.len() <= RTAX_NETMASK {
        return false;
    }
    let zero4 = Ipv4Address { o0: 0, o1: 0, o2: 0, o3: 0 };
    let zero6 = Ipv6Address { s0: 0, s1: 0, s2: 0, s3: 0, s4: 0, s5: 0, s6: 0, s7: 0 };
    match (&rm.addrs[RTAX_DST], &rm.addrs[RTAX_NETMASK]) {
        (Addr::Inet4 { ip: d }, Addr::Inet4 { ip: n }) => *d == zero4 && *n == zero4,
        (Addr::Inet6 { ip: d, .. }, Addr::Inet6 { ip: n, .. }) => *d == zero6 && *n == zero6,
        _ => false,
    }
}

/// The index of the interface owning the first default route among the
/// messages, IPv4 or IPv6 alike.
pub open spec fn spec_default_route_interface_index(os: RibOs, msgs: Seq<RouteMessage>) -> Option<
    u32,
>
    decreases msgs.len(),
{
    if msgs.len() == 0 {
        None
    } else if spec_is_default_gateway(os, msgs[0].flags, msgs[0].addrs@) {
        Some(msgs[0].index as u32)
    } else {
        spec_default_route_interface_index(os, msgs.skip(1))
    }
}

/// Returns the index of the network interface that owns the default
/// route: the first IPv4 or IPv6 default route found, with no preference
/// between the two.
pub fn default_route_interface_index(os: RibOs, msgs: &Vec<RouteMessage>) -> (r: Option<u32>)
    ensures
        r == spec_default_route_interface_index(os, msgs@),
{
    let mut i: usize = 0;
    proof {
        assert(msgs@.skip(0) =~= msgs@);
    }
    while i < msgs.len()
        invariant
            i <= msgs@.len(),
            spec_default_route_interface_index(os, msgs@) == spec_default_route_interface_index(
                os,
                msgs@.skip(i as int),
            ),
        decreases msgs@.len() - i,
    {
        proof {
            assert(msgs@.skip(i as int)[0] == msgs@[i as int]);
            assert(msgs@.skip(i as int).skip(1) =~= msgs@.skip(i + 1));
        }
        if is_default_gateway(os, &msgs[i]) {
            return Some(msgs[i].index as u32);
        }
        i = i + 1;
    }
    proof {
        assert(msgs@.skip(i as int).len() == 0);
    }
    None
}

/// The gateway slot of the first default-route message that carries an
/// internet gateway address.
pub open spec fn spec_likely_home_router(os: RibOs, msgs: Seq<RouteMessage>) -> Option<IpAddress>
    decreases msgs.len(),
{
    if msgs.len() == 0 {
        None
    } else if spec_is_default_gateway(os, msgs[0].flags, msgs[0].addrs@) && msgs[0].addrs@.len()
        > RTAX_GATEWAY && (msgs[0].addrs@[RTAX_GATEWAY as int] matches Addr::Inet4 { .. }
        || msgs[0].addrs@[RTAX_GATEWAY as int] matches Addr::Inet6 { .. }) {
        match msgs[0].addrs@[RTAX_GATEWAY as int] {
            Addr::Inet4 { ip } => Some(IpAddress::V4(ip)),
            Addr::Inet6 { ip, .. } => Some(IpAddress::V6(ip)),
            _ => None,
        }
    } else {
        spec_likely_home_router(os, msgs.skip(1))
    }
}

/// Returns the likely IP of the residential router: the gateway of the
/// first default route whose gateway slot holds an internet address.
pub fn likely_home_router(os: RibOs, msgs: &Vec<RouteMessage>) -> (r: Option<IpAddress>)
    ensures
        r == spec_likely_home_router(os, msgs@),
{
    let mut i: usize = 0;
    proof {
        assert(msgs@.skip(0) =~= msgs@);
    }
    while i < msgs.len()
        invariant
            i <= msgs@.len(),
            spec_likely_home_router(os, msgs@) == spec_likely_home_router(
                os,
                msgs@.skip(i as int),
            ),
        decreases msgs@.len() - i,
    {
        proof {
            assert(msgs@.skip(i as int)[0] == msgs@[i as int]);
            assert(msgs@.skip(i as int).skip(1) =~= msgs@.skip(i + 1));
        }
        if is_default_gateway(os, &msgs[i]) && msgs[i].addrs.len() > RTAX_GATEWAY {
            match &msgs[i].addrs[RTAX_GATEWAY] {
                Addr::Inet4 { ip } => {
                    return Some(IpAddress::V4(*ip));
                },
                Addr::Inet6 { ip, .. } => {
                    return Some(IpAddress::V6(*ip));
                },
                _ => {},
            }
        }
        i = i + 1;
    }
    proof {
        assert(msgs@.skip(i as int).len() == 0);
    }
    None
}

/// The name carried by the first interface message with the given index,
/// as its characters.
pub open spec fn spec_interface_name_for_index(msgs: Seq<WireMessage>, index: u16) -> Option<
    Seq<char>,
>
    decreases msgs.len(),
{
    if msgs.len() == 0 {
        None
    } else if msgs[0] matches WireMessage::Interface(m) && m.index == index && m.name matches Some(
        s,
    ) {
        match msgs[0] {
            WireMessage::Interface(m2) => match m2.name {
                Some(s2) => Some(s2@),
                None => None,
            },
            _ => None,
        }
    } else {
        spec_interface_name_for_index(msgs.skip(1), index)
    }
}

/// Looks up the interface name the RIB reports for an interface index,
/// from the interface messages in the same dump.
pub fn interface_name_for_index(msgs: &Vec<WireMessage>, index: u16) -> (r: Option<String>)
    ensures
        match (r, spec_interface_name_for_index(msgs@, index)) {
            (Some(s), Some(v)) => s@ == v,
            (None, None) => true,
            _ => false,
        },
{
    let mut i: usize = 0;
    proof {
        assert(msgs@.skip(0) =~= msgs@);
    }
    while i < msgs.len()
        invariant
            i <= msgs@.len(),
            spec_interface_name_for_index(msgs@, index) == spec_interface_name_for_index(
                msgs@.skip(i as int),
                index,
            ),
        decreases msgs@.len() - i,
    {
        proof {
            assert(msgs@.skip(i as int)[0] == msgs@[i as int]);
            assert(msgs@.skip(i as int).skip(1) =~= msgs@.skip(i + 1));
        }
        match &msgs[i] {
            WireMessage::Interface(m) => {
                if m.index == index {
                    match &m.name {
                        Some(s) => {
                            return Some(s.clone());
                        },
                        None => {},
                    }
                }
            },
            _ => {},
        }
        i = i + 1;
    }
    proof {
        assert(msgs@.skip(i as int).len() == 0);
    }
    None
}

/// The Darwin routing stack: version 5 messages, 4-byte sockaddr
/// alignment, and the Darwin message layouts, keyed by the RTM type
/// bytes.
pub fn darwin() -> (r: RibConfig)
    ensures
        r.well_formed(),
        r.os is Darwin,
        r.rtm_version == 5,
        r.af_inet == 2,
        r.af_inet6 == 30,
        r.af_link == 18,
    {
    let rtm = WireFormat { ext_off: 36, body_off: 92, typ: MessageType::Route };
    let ifm = WireFormat { ext_off: 16, body_off: 112, typ: MessageType::Interface };
    let ifm2 = WireFormat { ext_off: 32, body_off: 160, typ: MessageType::Interface };
    let ifam = WireFormat { ext_off: 20, body_off: 20, typ: MessageType::InterfaceAddr };
    let ifmam = WireFormat { ext_off: 16, body_off: 16, typ: MessageType::InterfaceMulticastAddr };
    let ifmam2 = WireFormat { ext_off: 20, body_off: 20, typ: MessageType::InterfaceMulticastAddr };
    let mut wire_formats: Vec<(u8, WireFormat)> = Vec::new();
    wire_formats.push((0x1, rtm));
    wire_formats.push((0x2, rtm));
    wire_formats.push((0x3, rtm));
    wire_formats.push((0x4, rtm));
    wire_formats.push((0x5, rtm));
    wire_formats.push((0x6, rtm));
    wire_formats.push((0x7, rtm));
    wire_formats.push((0x8, rtm));
    wire_formats.push((0xb, rtm));
    wire_formats.push((0xc, ifam));
    wire_formats.push((0xd, ifam));
    wire_formats.push((0xe, ifm));
    wire_formats.push((0xf, ifmam));
    wire_formats.push((0x10, ifmam));
    wire_formats.push((0x12, ifm2));
    wire_formats.push((0x13, ifmam2));
    wire_formats.push((0x14, rtm));
    proof {
        assert forall|j: int|
            0 <= j < wire_formats@.len() implies (#[trigger] wire_formats@[j]).1.wf() by {}
    }
    RibConfig {
        os: RibOs::Darwin,
        rtm_version: 5,
        kernel_align: 4,
        af_link: 18,
        af_inet: 2,
        af_inet6: 30,
        wire_formats,
    }
}

/// The FreeBSD routing stack: version 5 messages, 8-byte sockaddr
/// alignment, and the 64-bit message layouts, keyed by the RTM type
/// bytes (the interface-message body offset is the modern layout's; the
/// kernel probes it at runtime and older systems differ).
pub fn freebsd() -> (r: RibConfig)
    ensures
        r.well_formed(),
        r.os is FreeBsd,
        r.rtm_version == 5,
        r.af_inet == 2,
        r.af_inet6 == 28,
        r.af_link == 18,
{
    let rtm = WireFormat { ext_off: 40, body_off: 152, typ: MessageType::Route };
    let ifm = WireFormat { ext_off: 16, body_off: 168, typ: MessageType::Interface };
    let ifam = WireFormat { ext_off: 20, body_off: 20, typ: MessageType::InterfaceAddr };
    let ifmam = WireFormat { ext_off: 16, body_off: 16, typ: MessageType::InterfaceMulticastAddr };
    let ifanm = WireFormat { ext_off: 24, body_off: 24, typ: MessageType::InterfaceAnnounce };
    let mut wire_formats: Vec<(u8, WireFormat)> = Vec::new();
    wire_formats.push((0x1, rtm));
    wire_formats.push((0x2, rtm));
    wire_formats.push((0x3, rtm));
    wire_formats.push((0x4, rtm));
    wire_formats.push((0x5, rtm));
    wire_formats.push((0x6, rtm));
    wire_formats.push((0x7, rtm));
    wire_formats.push((0x8, rtm));
    wire_formats.push((0xb, rtm));
    wire_formats.push((0xc, ifam));
    wire_formats.push((0xd, ifam));
    wire_formats.push((0xe, ifm));
    wire_formats.push((0xf, ifmam));
    wire_formats.push((0x10, ifmam));
    wire_formats.push((0x11, ifanm));
    proof {
        assert forall|j: int|
            0 <= j < wire_formats@.len() implies (#[trigger] wire_formats@[j]).1.wf() by {}
    }
    RibConfig {
        os: RibOs::FreeBsd,
        rtm_version: 5,
        kernel_align: 8,
        af_link: 18,
        af_inet: 2,
        af_inet6: 28,
        wire_formats,
    }
}

/// The NetBSD routing stack: version 4 messages, 8-byte sockaddr
/// alignment, and the 64-bit message layouts, keyed by the RTM type
/// bytes.
pub fn netbsd() -> (r: RibConfig)
    ensures
        r.well_formed(),
        r.os is NetBsd,
        r.rtm_version == 4,
        r.af_inet == 2,
        r.af_inet6 == 24,
        r.af_link == 18,
{
    let rtm = WireFormat { ext_off: 40, body_off: 120, typ: MessageType::Route };
    let ifm = WireFormat { ext_off: 16, body_off: 152, typ: MessageType::Interface };
    let ifam = WireFormat { ext_off: 24, body_off: 24, typ: MessageType::InterfaceAddr };
    let ifanm = WireFormat { ext_off: 24, body_off: 24, typ: MessageType::InterfaceAnnounce };
    let mut wire_formats: Vec<(u8, WireFormat)> = Vec::new();
    wire_formats.push((0x1, rtm));
    wire_formats.push((0x2, rtm));
    wire_formats.push((0x3, rtm));
    wire_formats.push((0x4, rtm));
    wire_formats.push((0x5, rtm));
    wire_formats.push((0x6, rtm));
    wire_formats.push((0x7, rtm));
    wire_formats.push((0x8, rtm));
    wire_formats.push((0xb, rtm));
    wire_formats.push((0xc, ifam));
    wire_formats.push((0xd, ifam));
    wire_formats.push((0x10, ifanm));
    wire_formats.push((0x14, ifm));
    proof {
        assert forall|j: int|
            0 <= j < wire_formats@.len() implies (#[trigger] wire_formats@[j]).1.wf() by {}
    }
    RibConfig {
        os: RibOs::NetBsd,
        rtm_version: 4,
        kernel_align: 8,
        af_link: 18,
        af_inet: 2,
        af_inet6: 24,
        wire_formats,
    }
}

/// The OpenBSD routing stack: version 5 messages, 8-byte sockaddr
/// alignment. OpenBSD's route messages carry their own header length,
/// which the route parser reads from the message; its interface and
/// address messages do the same but their layouts are not registered
/// here, so they are counted as skipped. Default-route detection needs
/// only the route messages.
pub fn openbsd() -> (r: RibConfig)
    ensures
        r.well_formed(),
        r.os is OpenBsd,
        r.rtm_version == 5,
        r.af_inet == 2,
        r.af_inet6 == 24,
        r.af_link == 18,
{
    let rtm = WireFormat { ext_off: 40, body_off: 40, typ: MessageType::Route };
    let mut wire_formats: Vec<(u8, WireFormat)> = Vec::new();
    wire_formats.push((0x1, rtm));
    wire_formats.push((0x2, rtm));
    wire_formats.push((0x3, rtm));
    wire_formats.push((0x4, rtm));
    wire_formats.push((0x5, rtm));
    wire_formats.push((0x6, rtm));
    wire_formats.push((0x7, rtm));
    wire_formats.push((0x8, rtm));
    wire_formats.push((0xb, rtm));
    proof {
        assert forall|j: int|
            0 <= j < wire_formats@.len() implies (#[trigger] wire_formats@[j]).1.wf() by {}
    }
    RibConfig {
        os: RibOs::OpenBsd,
        rtm_version: 5,
        kernel_align: 8,
        af_link: 18,
        af_inet: 2,
        af_inet6: 24,
        wire_formats,
    }
}

} // verus!
