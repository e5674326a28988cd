//! Plain-value models of IPv4 and IPv6 addresses and the address
//! classification predicates the rest of the crate relies on.

use vstd::prelude::*;

use crate::wire::{be16, lemma_be16_read16, read16, read_u16_be};

verus! {

/// An IPv4 address as its four octets.
#[derive(Clone, Copy, Debug, PartialEq, Eq, Structural, Hash)]
pub struct Ipv4Address {
    pub o0: u8,
    pub o1: u8,
    pub o2: u8,
    pub o3: u8,
}

impl Ipv4Address {
    pub fn new(o0: u8, o1: u8, o2: u8, o3: u8) -> (r: Ipv4Address)
        ensures
            r == (Ipv4Address { o0, o1, o2, o3 }),
    {
        Ipv4Address { o0, o1, o2, o3 }
    }

    /// 0.0.0.0
    pub open spec fn spec_is_unspecified(&self) -> bool {
        self.o0 == 0 && self.o1 == 0 && self.o2 == 0 && self.o3 == 0
    }

    #[verifier::when_used_as_spec(spec_is_unspecified)]
    pub fn is_unspecified(&self) -> (r: bool)
        ensures
            r == self.spec_is_unspecified(),
    {
        self.o0 == 0 && self.o1 == 0 && self.o2 == 0 && self.o3 == 0
    }

    /// 127.0.0.0/8
    pub open spec fn spec_is_loopback(&self) -> bool {
        self.o0 == 127
    }

    #[verifier::when_used_as_spec(spec_is_loopback)]
    pub fn is_loopback(&self) -> (r: bool)
        ensures
            r == self.spec_is_loopback(),
    {
        self.o0 == 127
    }

    /// 224.0.0.0/4
    pub open spec fn spec_is_multicast(&self) -> bool {
        224 <= self.o0 <= 239
    }

    #[verifier::when_used_as_spec(spec_is_multicast)]
    pub fn is_multicast(&self) -> (r: bool)
        ensures
            r == self.spec_is_multicast(),
    {
        224 <= self.o0 && self.o0 <= 239
    }

    /// 169.254.0.0/16
    pub open spec fn spec_is_link_local(&self) -> bool {
        self.o0 == 169 && self.o1 == 254
    }

    #[verifier::when_used_as_spec(spec_is_link_local)]
    pub fn is_link_local(&self) -> (r: bool)
        ensures
            r == self.spec_is_link_local(),
    {
        self.o0 == 169 && self.o1 == 254
    }

    /// The IPv4-mapped IPv6 address `::ffff:a.b.c.d`.
    pub fn to_ipv6_mapped(&self) -> (r: Ipv6Address)
        ensures
            r.spec_to_ipv4_mapped() == Some(*self),
    {
        Ipv6Address {
            s0: 0,
            s1: 0,
            s2: 0,
            s3: 0,
            s4: 0,
            s5: 0xffff,
            s6: self.o0 as u16 * 256 + self.o1 as u16,
            s7: self.o2 as u16 * 256 + self.o3 as u16,
        }
    }
}

/// 127.0.0.1, the fallback local address.
pub open spec fn spec_localhost() -> Ipv4Address {
    Ipv4Address { o0: 127, o1: 0, o2: 0, o3: 1 }
}

/// 127.0.0.1, the fallback local address.
pub fn localhost() -> (r: Ipv4Address)
    ensures
        r == spec_localhost(),
{
    Ipv4Address { o0: 127, o1: 0, o2: 0, o3: 1 }
}

/// An IPv6 address as its eight 16-bit segments.
#[derive(Clone, Copy, Debug, PartialEq, Eq, Structural, Hash)]
pub struct Ipv6Address {
    pub s0: u16,
    pub s1: u16,
    pub s2: u16,
    pub s3: u16,
    pub s4: u16,
    pub s5: u16,
    pub s6: u16,
    pub s7: u16,
}

impl Ipv6Address {
    #[allow(clippy::too_many_arguments)]
    pub fn new(s0: u16, s1: u16, s2: u16, s3: u16, s4: u16, s5: u16, s6: u16, s7: u16) -> (r:
        Ipv6Address)
        ensures
            r == (Ipv6Address { s0, s1, s2, s3, s4, s5, s6, s7 }),
    {
        Ipv6Address { s0, s1, s2, s3, s4, s5, s6, s7 }
    }

    /// The segment at position `i` (0 is the leftmost in written form).
    pub open spec fn seg(self, i: int) -> u16 {
        if i == 0 {
            self.s0
        } else if i == 1 {
            self.s1
        } else if i == 2 {
            self.s2
        } else if i == 3 {
            self.s3
        } else if i == 4 {
            self.s4
        } else if i == 5 {
            self.s5
        } else if i == 6 {
            self.s6
        } else {
            self.s7
        }
    }

    /// The byte at offset `i` of the big-endian 16-byte form.
    pub open spec fn byte_at(self, i: int) -> u8 {
        if i % 2 == 0 {
            (self.seg(i / 2) / 256) as u8
        } else {
            (self.seg(i / 2) % 256) as u8
        }
    }

    /// `::1`
    pub open spec fn spec_is_loopback(&self) -> bool {
        self.s0 == 0 && self.s1 == 0 && self.s2 == 0 && self.s3 == 0 && self.s4 == 0 && self.s5
            == 0 && self.s6 == 0 && self.s7 == 1
    }

    #[verifier::when_used_as_spec(spec_is_loopback)]
    pub fn is_loopback(&self) -> (r: bool)
        ensures
            r == self.spec_is_loopback(),
    {
        self.s0 == 0 && self.s1 == 0 && self.s2 == 0 && self.s3 == 0 && self.s4 == 0 && self.s5
            == 0 && self.s6 == 0 && self.s7 == 1
    }

    /// ff00::/8
    pub open spec fn spec_is_multicast(&self) -> bool {
        self.s0 / 256 == 0xff
    }

    #[verifier::when_used_as_spec(spec_is_multicast)]
    pub fn is_multicast(&self) -> (r: bool)
        ensures
            r == self.spec_is_multicast(),
    {
        self.s0 / 256 == 0xff
    }

    /// fe80::/10
    pub open spec fn spec_is_link_local(&self) -> bool {
        0xfe80 <= self.s0 <= 0xfebf
    }

    #[verifier::when_used_as_spec(spec_is_link_local)]
    pub fn is_link_local(&self) -> (r: bool)
        ensures
            r == self.spec_is_link_local(),
    {
        0xfe80 <= self.s0 && self.s0 <= 0xfebf
    }

    /// fc00::/7, the unique-local range.
    pub open spec fn spec_is_private(&self) -> bool {
        0xfc00 <= self.s0 <= 0xfdff
    }

    #[verifier::when_used_as_spec(spec_is_private)]
    pub fn is_private(&self) -> (r: bool)
        ensures
            r == self.spec_is_private(),
    {
        0xfc00 <= self.s0 && self.s0 <= 0xfdff
    }

    /// The IPv4 address held by an IPv4-mapped address `::ffff:a.b.c.d`,
    /// if this is one.
    pub open spec fn spec_to_ipv4_mapped(self) -> Option<Ipv4Address> {
        if self.s0 == 0 && self.s1 == 0 && self.s2 == 0 && self.s3 == 0 && self.s4 == 0 && self.s5
            == 0xffff {
            Some(
                Ipv4Address {
                    o0: (self.s6 / 256) as u8,
                    o1: (self.s6 % 256) as u8,
                    o2: (self.s7 / 256) as u8,
                    o3: (self.s7 % 256) as u8,
                },
            )
        } else {
            None
        }
    }

    pub fn to_ipv4_mapped(&self) -> (r: Option<Ipv4Address>)
        ensures
            r == self.spec_to_ipv4_mapped(),
    {
        if self.s0 == 0 && self.s1 == 0 && self.s2 == 0 && self.s3 == 0 && self.s4 == 0 && self.s5
            == 0xffff {
            Some(
                Ipv4Address {
                    o0: (self.s6 / 256) as u8,
                    o1: (self.s6 % 256) as u8,
                    o2: (self.s7 / 256) as u8,
                    o3: (self.s7 % 256) as u8,
                },
            )
        } else {
            None
        }
    }
}

/// Either kind of address.
#[derive(Clone, Copy, Debug, PartialEq, Eq, Structural)]
pub enum IpAddress {
    V4(Ipv4Address),
    V6(Ipv6Address),
}

impl IpAddress {
    pub open spec fn spec_is_loopback(&self) -> bool {
        match self {
            IpAddress::V4(a) => a.spec_is_loopback(),
            IpAddress::V6(a) => a.spec_is_loopback(),
        }
    }

    #[verifier::when_used_as_spec(spec_is_loopback)]
    pub fn is_loopback(&self) -> (r: bool)
        ensures
            r == self.spec_is_loopback(),
    {
        match self {
            IpAddress::V4(a) => a.is_loopback(),
            IpAddress::V6(a) => a.is_loopback(),
        }
    }

    pub open spec fn spec_is_multicast(&self) -> bool {
        match self {
            IpAddress::V4(a) => a.spec_is_multicast(),
            IpAddress::V6(a) => a.spec_is_multicast(),
        }
    }

    #[verifier::when_used_as_spec(spec_is_multicast)]
    pub fn is_multicast(&self) -> (r: bool)
        ensures
            r == self.spec_is_multicast(),
    {
        match self {
            IpAddress::V4(a) => a.is_multicast(),
            IpAddress::V6(a) => a.is_multicast(),
        }
    }

    /// Link-local for either family: 169.254.0.0/16 or fe80::/10.
    pub open spec fn spec_is_link_local(&self) -> bool {
        match self {
            IpAddress::V4(a) => a.spec_is_link_local(),
            IpAddress::V6(a) => a.spec_is_link_local(),
        }
    }

    #[verifier::when_used_as_spec(spec_is_link_local)]
    pub fn is_link_local(&self) -> (r: bool)
        ensures
            r == self.spec_is_link_local(),
    {
        match self {
            IpAddress::V4(a) => a.is_link_local(),
            IpAddress::V6(a) => a.is_link_local(),
        }
    }
}

/// The 16 bytes of `a` in big-endian (network) order.
pub open spec fn v6_bytes(a: Ipv6Address) -> Seq<u8> {
    Seq::new(16, |i: int| a.byte_at(i))
}

/// The address read big-endian from 16 bytes at offset `off`.
pub open spec fn read_v6_at(b: Seq<u8>, off: int) -> Ipv6Address
    recommends 0 <= off, off + 16 <= b.len(),
{
    Ipv6Address {
        s0: read16(b, off),
        s1: read16(b, off + 2),
        s2: read16(b, off + 4),
        s3: read16(b, off + 6),
        s4: read16(b, off + 8),
        s5: read16(b, off + 10),
        s6: read16(b, off + 12),
        s7: read16(b, off + 14),
    }
}

/// Appends the 16 network-order bytes of `a`.
pub fn push_v6_bytes(out: &mut Vec<u8>, a: &Ipv6Address)
    ensures
        final(out)@ == old(out)@ + v6_bytes(*a),
{
    out.push((a.s0 / 256) as u8);
    out.push((a.s0 % 256) as u8);
    out.push((a.s1 / 256) as u8);
    out.push((a.s1 % 256) as u8);
    out.push((a.s2 / 256) as u8);
    out.push((a.s2 % 256) as u8);
    out.push((a.s3 / 256) as u8);
    out.push((a.s3 % 256) as u8);
    out.push((a.s4 / 256) as u8);
    out.push((a.s4 % 256) as u8);
    out.push((a.s5 / 256) as u8);
    out.push((a.s5 % 256) as u8);
    out.push((a.s6 / 256) as u8);
    out.push((a.s6 % 256) as u8);
    out.push((a.s7 / 256) as u8);
    out.push((a.s7 % 256) as u8);
    proof {
        assert(final(out)@ =~= old(out)@ + v6_bytes(*a));
    }
}

/// Reads the address held big-endian in 16 bytes at offset `off`.
pub fn read_v6(b: &[u8], off: usize) -> (r: Ipv6Address)
    requires
        off + 16 <= b@.len(),
    ensures
        r == read_v6_at(b@, off as int),
{
    proof {
        vstd::slice::axiom_spec_len(b);
    }
    Ipv6Address {
        s0: read_u16_be(b, off),
        s1: read_u16_be(b, off + 2),
        s2: read_u16_be(b, off + 4),
        s3: read_u16_be(b, off + 6),
        s4: read_u16_be(b, off + 8),
        s5: read_u16_be(b, off + 10),
        s6: read_u16_be(b, off + 12),
        s7: read_u16_be(b, off + 14),
    }
}

/// Reading back the bytes written for `a` gives `a` again.
pub proof fn lemma_v6_bytes_read(a: Ipv6Address, b: Seq<u8>, off: int)
    requires
        0 <= off,
        off + 16 <= b.len(),
        forall|i: int| 0 <= i < 16 ==> b[off + i] == v6_bytes(a)[i],
    ensures
        read_v6_at(b, off) == a,
{
    assert forall|k: int| 0 <= k < 8 implies read16(b, off + 2 * k) == a.seg(k) by {
        assert(b[off + 2 * k] == v6_bytes(a)[2 * k]);
        assert(b[off + 2 * k + 1] == v6_bytes(a)[2 * k + 1]);
        assert(v6_bytes(a)[2 * k] == (a.seg(k) / 256) as u8);
        assert(v6_bytes(a)[2 * k + 1] == (a.seg(k) % 256) as u8);
        lemma_be16_read16(a.seg(k), b, off + 2 * k);
    }
    assert(read16(b, off) == a.seg(0));
    assert(read16(b, off + 2) == a.seg(1)) by { assert(off + 2 == off + 2 * 1); }
    assert(read16(b, off + 4) == a.seg(2)) by { assert(off + 4 == off + 2 * 2); }
    assert(read16(b, off + 6) == a.seg(3)) by { assert(off + 6 == off + 2 * 3); }
    assert(read16(b, off + 8) == a.seg(4)) by { assert(off + 8 == off + 2 * 4); }
    assert(read16(b, off + 10) == a.seg(5)) by { assert(off + 10 == off + 2 * 5); }
    assert(read16(b, off + 12) == a.seg(6)) by { assert(off + 12 == off + 2 * 6); }
    assert(read16(b, off + 14) == a.seg(7)) by { assert(off + 14 == off + 2 * 7); }
}

/// Whether `ip` is a usable IPv4 address that should have connectivity:
/// any IPv4 address that is not loopback.
pub open spec fn spec_is_usable_v4(ip: &IpAddress) -> bool {
    match ip {
        IpAddress::V4(a) => !a.spec_is_loopback(),
        IpAddress::V6(_) => false,
    }
}

#[verifier::when_used_as_spec(spec_is_usable_v4)]
pub fn is_usable_v4(ip: &IpAddress) -> (r: bool)
    ensures
        r == spec_is_usable_v4(ip),
{
    match ip {
        IpAddress::V4(a) => !a.is_loopback(),
        IpAddress::V6(_) => false,
    }
}

/// Whether `ip` is a usable IPv6 address that should have connectivity:
/// the globally routable 2000::/3 range, or a unique-local address.
pub open spec fn spec_is_usable_v6(ip: &IpAddress) -> bool {
    match ip {
        IpAddress::V4(_) => false,
        IpAddress::V6(a) => (a.s0 / 0x2000 == 1) || a.spec_is_private(),
    }
}

#[verifier::when_used_as_spec(spec_is_usable_v6)]
pub fn is_usable_v6(ip: &IpAddress) -> (r: bool)
    ensures
        r == spec_is_usable_v6(ip),
{
    match ip {
        IpAddress::V4(_) => false,
        IpAddress::V6(a) => (a.s0 / 0x2000 == 1) || a.is_private(),
    }
}

} // verus!
