//! Models of the machine's network interfaces and of what the routing
//! table says about the default route. Enumerating interfaces is system
//! I/O and happens outside the crate; the values land in these types.

use vstd::prelude::*;

use crate::ip::{is_usable_v6, IpAddress, Ipv4Address, Ipv6Address};
use crate::text::{spec_contains_str, spec_lines, spec_starts_with, spec_words, string_views};

verus! {

/// The details about a default route.
#[derive(Clone, Debug)]
pub struct DefaultRouteDetails {
    /// The interface name, like "eth0" or "en0".
    pub interface_name: String,
}

/// Likely IP of the residential router, and the IP of this machine as
/// seen on that router's LAN.
#[derive(Clone, Copy, Debug)]
pub struct HomeRouter {
    /// Ip of the router.
    pub gateway: IpAddress,
    /// Our local Ip if known.
    pub my_ip: Option<IpAddress>,
}

/// An IPv4 network: an address and a prefix length.
#[derive(Clone, Copy, Debug, PartialEq, Eq, Structural)]
pub struct Ipv4Net {
    pub addr: Ipv4Address,
    pub prefix_len: u8,
}

/// An IPv6 network: an address and a prefix length.
#[derive(Clone, Copy, Debug, PartialEq, Eq, Structural)]
pub struct Ipv6Net {
    pub addr: Ipv6Address,
    pub prefix_len: u8,
}

/// Structure of an IP network, either IPv4 or IPv6.
#[derive(Clone, Copy, Debug, PartialEq, Eq, Structural)]
pub enum IpNet {
    /// Structure of IPv4 Network.
    V4(Ipv4Net),
    /// Structure of IPv6 Network.
    V6(Ipv6Net),
}

impl IpNet {
    /// The IP address of this structure.
    pub fn addr(&self) -> (r: IpAddress)
        ensures
            r == self.spec_addr(),
    {
        match self {
            IpNet::V4(a) => IpAddress::V4(a.addr),
            IpNet::V6(a) => IpAddress::V6(a.addr),
        }
    }

    pub open spec fn spec_addr(&self) -> IpAddress {
        match self {
            IpNet::V4(a) => IpAddress::V4(a.addr),
            IpNet::V6(a) => IpAddress::V6(a.addr),
        }
    }
}

} // verus!

verus! {

/// A link-layer (MAC) address.
#[derive(Clone, Copy, Debug, PartialEq, Eq, Structural)]
pub struct MacAddress {
    pub o0: u8,
    pub o1: u8,
    pub o2: u8,
    pub o3: u8,
    pub o4: u8,
    pub o5: u8,
}

/// Represents a network interface.
#[derive(Clone, Debug)]
pub struct Interface {
    /// Interface index.
    pub index: u32,
    /// Interface name.
    pub name: String,
    /// Interface flags, bit 0 being up.
    pub flags: u32,
    /// Hardware address, when known.
    pub mac_addr: Option<MacAddress>,
    /// IPv4 networks on the interface.
    pub ipv4: Vec<Ipv4Net>,
    /// IPv6 networks on the interface.
    pub ipv6: Vec<Ipv6Net>,
}

/// The networks of an interface as one list, IPv4 first.
pub open spec fn interface_nets(i: Interface) -> Seq<IpNet> {
    i.ipv4@.map_values(|n: Ipv4Net| IpNet::V4(n)) + i.ipv6@.map_values(|n: Ipv6Net| IpNet::V6(n))
}

/// Whether two records describe the same device: same index, name,
/// flags and hardware address (the address lists are compared
/// separately).
pub open spec fn spec_same_device(a: Interface, b: Interface) -> bool {
    a.index == b.index && a.name@ == b.name@ && a.flags == b.flags && a.mac_addr == b.mac_addr
}

impl Interface {
    /// Is this interface up?
    pub fn is_up(&self) -> (r: bool)
        ensures
            r == (self.flags & 1 != 0),
    {
        self.flags & 1 != 0
    }

    /// The name of the interface.
    pub fn name(&self) -> (r: &String)
        ensures
            r@ == self.name@,
    {
        &self.name
    }

    /// A list of all ip networks of this interface.
    pub fn addrs(&self) -> (r: Vec<IpNet>)
        ensures
            r@ == interface_nets(*self),
    {
        let mut out: Vec<IpNet> = Vec::new();
        let mut i: usize = 0;
        while i < self.ipv4.len()
            invariant
                i <= self.ipv4@.len(),
                out@ == self.ipv4@.subrange(0, i as int).map_values(|n: Ipv4Net| IpNet::V4(n)),
            decreases self.ipv4@.len() - i,
        {
            out.push(IpNet::V4(self.ipv4[i]));
            i = i + 1;
            proof {
                assert(out@ =~= self.ipv4@.subrange(0, i as int).map_values(
                    |n: Ipv4Net| IpNet::V4(n),
                ));
            }
        }
        proof {
            assert(self.ipv4@.subrange(0, i as int) =~= self.ipv4@);
        }
        let mut j: usize = 0;
        while j < self.ipv6.len()
            invariant
                j <= self.ipv6@.len(),
                out@ == self.ipv4@.map_values(|n: Ipv4Net| IpNet::V4(n)) + self.ipv6@.subrange(
                    0,
                    j as int,
                ).map_values(|n: Ipv6Net| IpNet::V6(n)),
            decreases self.ipv6@.len() - j,
        {
            out.push(IpNet::V6(self.ipv6[j]));
            j = j + 1;
            proof {
                assert(out@ =~= self.ipv4@.map_values(|n: Ipv4Net| IpNet::V4(n))
                    + self.ipv6@.subrange(0, j as int).map_values(|n: Ipv6Net| IpNet::V6(n)));
            }
        }
        proof {
            assert(self.ipv6@.subrange(0, j as int) =~= self.ipv6@);
            assert(out@ =~= interface_nets(*self));
        }
        out
    }

    /// A fixed interface for tests, independent of the host.
    pub fn fake() -> (r: Interface)
        ensures
            r.index == 2,
            r.name@ == "wifi0"@,
            r.flags == 69699,
    {
        let mut ipv4: Vec<Ipv4Net> = Vec::new();
        ipv4.push(
            Ipv4Net { addr: Ipv4Address { o0: 192, o1: 168, o2: 0, o3: 189 }, prefix_len: 24 },
        );
        Interface {
            index: 2,
            name: String::from_str("wifi0"),
            flags: 69699,
            mac_addr: Some(MacAddress { o0: 2, o1: 3, o2: 4, o3: 5, o4: 6, o5: 7 }),
            ipv4,
            ipv6: Vec::new(),
        }
    }
}

/// Whether a network takes part in change detection: link-local,
/// loopback and multicast addresses do not.
pub open spec fn spec_interesting_net(p: IpNet) -> bool {
    let a = p.spec_addr();
    !(a.spec_is_link_local() || a.spec_is_loopback() || a.spec_is_multicast())
}

/// The networks that take part in change detection.
pub open spec fn spec_filter_interesting(s: Seq<IpNet>) -> Seq<IpNet>
    decreases s.len(),
{
    if s.len() == 0 {
        Seq::empty()
    } else {
        (if spec_interesting_net(s[0]) {
            seq![s[0]]
        } else {
            Seq::empty()
        }) + spec_filter_interesting(s.skip(1))
    }
}

/// Whether two network lists agree on their interesting prefixes: the
/// same prefixes, in the same order — an interesting prefix appearing
/// or disappearing counts as a difference.
pub open spec fn spec_prefixes_major_equal(a: Seq<IpNet>, b: Seq<IpNet>) -> bool {
    let fa = spec_filter_interesting(a);
    let fb = spec_filter_interesting(b);
    fa.len() == fb.len() && forall|k: int| 0 <= k < fa.len() ==> fa[k] == fb[k]
}

/// Keeps the networks that take part in change detection.
fn filter_interesting(v: &Vec<IpNet>) -> (r: Vec<IpNet>)
    ensures
        r@ == spec_filter_interesting(v@),
{
    let mut out: Vec<IpNet> = Vec::new();
    let mut i: usize = 0;
    proof {
        assert(v@.skip(0) =~= v@);
        assert(out@ + spec_filter_interesting(v@) =~= spec_filter_interesting(v@));
    }
    while i < v.len()
        invariant
            i <= v@.len(),
            spec_filter_interesting(v@) == out@ + spec_filter_interesting(v@.skip(i as int)),
        decreases v@.len() - i,
    {
        proof {
            assert(v@.skip(i as int)[0] == v@[i as int]);
            assert(v@.skip(i as int).skip(1) =~= v@.skip(i + 1));
        }
        let p = v[i];
        let a = p.addr();
        let ghost pre = out@;
        if !(a.is_link_local() || a.is_loopback() || a.is_multicast()) {
            out.push(p);
            proof {
                assert(out@ =~= pre + seq![v@[i as int]]);
                assert(out@ + spec_filter_interesting(v@.skip(i + 1)) =~= pre + (seq![
                    v@[i as int],
                ] + spec_filter_interesting(v@.skip(i + 1))));
            }
        } else {
            proof {
                assert(out@ + spec_filter_interesting(v@.skip(i + 1)) =~= pre + (
                Seq::<IpNet>::empty() + spec_filter_interesting(v@.skip(i + 1))));
            }
        }
        i = i + 1;
    }
    proof {
        assert(spec_filter_interesting(v@.skip(i as int)) =~= Seq::<IpNet>::empty());
        assert(out@ + Seq::<IpNet>::empty() =~= out@);
    }
    out
}

/// Checks whether two network lists are equal after ignoring
/// uninteresting entries, like link-local, loopback and multicast
/// addresses.
pub fn prefixes_major_equal(a: &Vec<IpNet>, b: &Vec<IpNet>) -> (r: bool)
    ensures
        r == spec_prefixes_major_equal(a@, b@),
{
    let fa = filter_interesting(a);
    let fb = filter_interesting(b);
    if fa.len() != fb.len() {
        return false;
    }
    let n = fa.len();
    let mut k: usize = 0;
    while k < n
        invariant
            k <= n,
            n == fa@.len(),
            n == fb@.len(),
            fa@ == spec_filter_interesting(a@),
            fb@ == spec_filter_interesting(b@),
            forall|k0: int| 0 <= k0 < k ==> fa@[k0] == fb@[k0],
        decreases n - k,
    {
        let pa = fa[k];
        let pb = fb[k];
        if !(pa == pb) {
            return false;
        }
        k = k + 1;
    }
    true
}

/// Machine network state: the interfaces and what connectivity they
/// offer.
#[derive(Clone, Debug)]
pub struct State {
    /// The interfaces, one entry per name.
    pub interfaces: Vec<Interface>,
    /// Whether this machine has an IPv6 Global or Unique Local Address
    /// which might provide connectivity.
    pub have_v6: bool,
    /// Whether the machine has some non-localhost IPv4 address.
    pub have_v4: bool,
    /// Whether the current network interface is considered "expensive"
    /// (LTE rather than WiFi).
    pub is_expensive: bool,
    /// The interface name for the machine's default route, when known.
    pub default_route_interface: Option<String>,
}

/// The first interface of the given name.
pub open spec fn spec_find_interface(ifs: Seq<Interface>, name: Seq<char>) -> Option<Interface>
    decreases ifs.len(),
{
    if ifs.len() == 0 {
        None
    } else if ifs[0].name@ == name {
        Some(ifs[0])
    } else {
        spec_find_interface(ifs.skip(1), name)
    }
}

/// Whether this old interface forces a major change against the new
/// state: it disappeared, its identity changed, or its interesting
/// prefixes changed.
pub open spec fn spec_interface_forces_major(new_ifs: Seq<Interface>, old_if: Interface) -> bool {
    match spec_find_interface(new_ifs, old_if.name@) {
        None => true,
        Some(new_if) => !spec_same_device(old_if, new_if) || !spec_prefixes_major_equal(
            interface_nets(old_if),
            interface_nets(new_if),
        ),
    }
}

/// Whether any of the old interfaces forces a major change.
pub open spec fn spec_any_forces_major(new_ifs: Seq<Interface>, old_ifs: Seq<Interface>) -> bool
    decreases old_ifs.len(),
{
    if old_ifs.len() == 0 {
        false
    } else {
        spec_interface_forces_major(new_ifs, old_ifs[0]) || spec_any_forces_major(
            new_ifs,
            old_ifs.skip(1),
        )
    }
}

/// Whether any interface of the new state is absent, by name, from the
/// old one: an interesting interface appearing is a major change.
pub open spec fn spec_any_new_interface(new_ifs: Seq<Interface>, old_ifs: Seq<Interface>) -> bool
    decreases new_ifs.len(),
{
    if new_ifs.len() == 0 {
        false
    } else {
        (spec_find_interface(old_ifs, new_ifs[0].name@) is None) || spec_any_new_interface(
            new_ifs.skip(1),
            old_ifs,
        )
    }
}

/// Equality of optional interface names by contents.
pub open spec fn spec_opt_name_eq(a: Option<String>, b: Option<String>) -> bool {
    match (a, b) {
        (None, None) => true,
        (Some(x), Some(y)) => x@ == y@,
        _ => false,
    }
}

/// Whether the new state is a major change against the old one:
/// connectivity or the default route changed, an interface changed its
/// identity or its interesting prefixes, or an interface appeared or
/// disappeared.
pub open spec fn spec_is_major_change(new: State, old: State) -> bool {
    ||| new.have_v6 != old.have_v6
    ||| new.have_v4 != old.have_v4
    ||| new.is_expensive != old.is_expensive
    ||| !spec_opt_name_eq(new.default_route_interface, old.default_route_interface)
    ||| spec_any_forces_major(new.interfaces@, old.interfaces@)
    ||| spec_any_new_interface(new.interfaces@, old.interfaces@)
}

impl State {
    /// Is this a major change compared to the `old` one?
    pub fn is_major_change(&self, old: &State) -> (r: bool)
        ensures
            r == spec_is_major_change(*self, *old),
    {
        let names_differ = match (&self.default_route_interface, &old.default_route_interface) {
            (None, None) => false,
            (Some(x), Some(y)) => !x.eq(y),
            _ => true,
        };
        if self.have_v6 != old.have_v6 || self.have_v4 != old.have_v4 || self.is_expensive
            != old.is_expensive || names_differ {
            return true;
        }
        let mut i: usize = 0;
        proof {
            assert(old.interfaces@.skip(0) =~= old.interfaces@);
        }
        while i < old.interfaces.len()
            invariant
                i <= old.interfaces@.len(),
                spec_any_forces_major(self.interfaces@, old.interfaces@)
                    == spec_any_forces_major(
                    self.interfaces@,
                    old.interfaces@.skip(i as int),
                ),
            decreases old.interfaces@.len() - i,
        {
            proof {
                assert(old.interfaces@.skip(i as int)[0] == old.interfaces@[i as int]);
                assert(old.interfaces@.skip(i as int).skip(1) =~= old.interfaces@.skip(i + 1));
            }
            let old_if = &old.interfaces[i];
            if crate::netmon::is_interesting_interface(old_if.name.as_str()) {
                match self.find_interface(&old_if.name) {
                    None => {
                        return true;
                    },
                    Some(k) => {
                        let new_if = &self.interfaces[k];
                        let same = old_if.index == new_if.index && old_if.name.eq(&new_if.name)
                            && old_if.flags == new_if.flags && (match (
                            &old_if.mac_addr,
                            &new_if.mac_addr,
                        ) {
                            (None, None) => true,
                            (Some(x), Some(y)) => x == y,
                            _ => false,
                        });
                        if !same {
                            return true;
                        }
                        let old_nets = old_if.addrs();
                        let new_nets = new_if.addrs();
                        if !prefixes_major_equal(&old_nets, &new_nets) {
                            return true;
                        }
                    },
                }
            }
            i = i + 1;
        }
        proof {
            assert(old.interfaces@.skip(i as int).len() == 0);
        }
        // An interesting interface that newly appeared is a change too.
        let mut k: usize = 0;
        proof {
            assert(self.interfaces@.skip(0) =~= self.interfaces@);
        }
        while k < self.interfaces.len()
            invariant
                k <= self.interfaces@.len(),
                spec_any_new_interface(self.interfaces@, old.interfaces@)
                    == spec_any_new_interface(
                    self.interfaces@.skip(k as int),
                    old.interfaces@,
                ),
            decreases self.interfaces@.len() - k,
        {
            proof {
                assert(self.interfaces@.skip(k as int)[0] == self.interfaces@[k as int]);
                assert(self.interfaces@.skip(k as int).skip(1) =~= self.interfaces@.skip(k + 1));
            }
            let new_if = &self.interfaces[k];
            if crate::netmon::is_interesting_interface(new_if.name.as_str()) {
                if old.find_interface(&new_if.name).is_none() {
                    return true;
                }
            }
            k = k + 1;
        }
        proof {
            assert(self.interfaces@.skip(k as int).len() == 0);
        }
        false
    }

    /// The position of the first interface of the given name.
    fn find_interface(&self, name: &String) -> (r: Option<usize>)
        ensures
            match r {
                Some(k) => k < self.interfaces@.len() && spec_find_interface(
                    self.interfaces@,
                    name@,
                ) == Some(self.interfaces@[k as int]) && self.interfaces@[k as int].name@
                    == name@,
                None => spec_find_interface(self.interfaces@, name@) is None,
            },
    {
        let mut i: usize = 0;
        proof {
            assert(self.interfaces@.skip(0) =~= self.interfaces@);
        }
        while i < self.interfaces.len()
            invariant
                i <= self.interfaces@.len(),
                spec_find_interface(self.interfaces@, name@) == spec_find_interface(
                    self.interfaces@.skip(i as int),
                    name@,
                ),
            decreases self.interfaces@.len() - i,
        {
            proof {
                assert(self.interfaces@.skip(i as int)[0] == self.interfaces@[i as int]);
                assert(self.interfaces@.skip(i as int).skip(1) =~= self.interfaces@.skip(i + 1));
            }
            if self.interfaces[i].name.eq(name) {
                return Some(i);
            }
            i = i + 1;
        }
        proof {
            assert(self.interfaces@.skip(i as int).len() == 0);
        }
        None
    }

    /// A fixed state for tests, independent of the host.
    pub fn fake() -> (r: State)
        ensures
            r.interfaces@.len() == 1,
            r.have_v4,
            r.have_v6,
            !r.is_expensive,
            r.default_route_interface matches Some(s) && s@ == "wifi0"@,
    {
        let fake = Interface::fake();
        let name = fake.name.clone();
        let mut interfaces: Vec<Interface> = Vec::new();
        interfaces.push(fake);
        State {
            interfaces,
            have_v6: true,
            have_v4: true,
            is_expensive: false,
            default_route_interface: Some(name),
        }
    }
}

} // verus!

verus! {

/// Whether any network in the list has a non-loopback IPv4 address.
pub open spec fn spec_any_usable_v4(nets: Seq<Ipv4Net>) -> bool
    decreases nets.len(),
{
    if nets.len() == 0 {
        false
    } else {
        !nets[0].addr.spec_is_loopback() || spec_any_usable_v4(nets.skip(1))
    }
}

/// Whether any network in the list has a usable IPv6 address.
pub open spec fn spec_any_usable_v6(nets: Seq<Ipv6Net>) -> bool
    decreases nets.len(),
{
    if nets.len() == 0 {
        false
    } else {
        crate::ip::spec_is_usable_v6(&IpAddress::V6(nets[0].addr)) || spec_any_usable_v6(
            nets.skip(1),
        )
    }
}

/// Whether any up interface carries a non-loopback IPv4 address.
pub open spec fn spec_have_v4(ifs: Seq<Interface>) -> bool
    decreases ifs.len(),
{
    if ifs.len() == 0 {
        false
    } else {
        (ifs[0].flags & 1 != 0 && spec_any_usable_v4(ifs[0].ipv4@)) || spec_have_v4(ifs.skip(1))
    }
}

/// Whether any up interface carries a usable IPv6 address.
pub open spec fn spec_have_v6(ifs: Seq<Interface>) -> bool
    decreases ifs.len(),
{
    if ifs.len() == 0 {
        false
    } else {
        (ifs[0].flags & 1 != 0 && spec_any_usable_v6(ifs[0].ipv6@)) || spec_have_v6(ifs.skip(1))
    }
}

/// Computes the connectivity flags of a state from its interfaces: an
/// address counts only on an interface that is up, loopback addresses
/// never count, and IPv6 counts only in the globally routable or
/// unique-local ranges.
pub fn compute_have_flags(interfaces: &Vec<Interface>) -> (r: (bool, bool))
    ensures
        r.0 == spec_have_v4(interfaces@),
        r.1 == spec_have_v6(interfaces@),
{
    let mut have_v4 = false;
    let mut have_v6 = false;
    let mut i: usize = 0;
    proof {
        assert(interfaces@.skip(0) =~= interfaces@);
    }
    while i < interfaces.len()
        invariant
            i <= interfaces@.len(),
            spec_have_v4(interfaces@) == (have_v4 || spec_have_v4(interfaces@.skip(i as int))),
            spec_have_v6(interfaces@) == (have_v6 || spec_have_v6(interfaces@.skip(i as int))),
        decreases interfaces@.len() - i,
    {
        proof {
            assert(interfaces@.skip(i as int)[0] == interfaces@[i as int]);
            assert(interfaces@.skip(i as int).skip(1) =~= interfaces@.skip(i + 1));
        }
        let iface = &interfaces[i];
        if iface.is_up() {
            let ghost h4 = have_v4;
            let mut j: usize = 0;
            proof {
                assert(iface.ipv4@.skip(0) =~= iface.ipv4@);
            }
            while j < iface.ipv4.len()
                invariant
                    j <= iface.ipv4@.len(),
                    (have_v4 || spec_any_usable_v4(iface.ipv4@.skip(j as int))) == (h4
                        || spec_any_usable_v4(iface.ipv4@)),
                decreases iface.ipv4@.len() - j,
            {
                proof {
                    assert(iface.ipv4@.skip(j as int)[0] == iface.ipv4@[j as int]);
                    assert(iface.ipv4@.skip(j as int).skip(1) =~= iface.ipv4@.skip(j + 1));
                }
                if !iface.ipv4[j].addr.is_loopback() {
                    have_v4 = true;
                }
                j = j + 1;
            }
            proof {
                assert(iface.ipv4@.skip(j as int).len() == 0);
            }
            let ghost h6 = have_v6;
            let mut k: usize = 0;
            proof {
                assert(iface.ipv6@.skip(0) =~= iface.ipv6@);
            }
            while k < iface.ipv6.len()
                invariant
                    k <= iface.ipv6@.len(),
                    (have_v6 || spec_any_usable_v6(iface.ipv6@.skip(k as int))) == (h6
                        || spec_any_usable_v6(iface.ipv6@)),
                decreases iface.ipv6@.len() - k,
            {
                proof {
                    assert(iface.ipv6@.skip(k as int)[0] == iface.ipv6@[k as int]);
                    assert(iface.ipv6@.skip(k as int).skip(1) =~= iface.ipv6@.skip(k + 1));
                }
                let a = IpAddress::V6(iface.ipv6[k].addr);
                if is_usable_v6(&a) {
                    have_v6 = true;
                }
                k = k + 1;
            }
            proof {
                assert(iface.ipv6@.skip(k as int).len() == 0);
            }
        }
        i = i + 1;
    }
    proof {
        assert(interfaces@.skip(i as int).len() == 0);
    }
    (have_v4, have_v6)
}

} // verus!

verus! {

/// A `/proc/net/route` line that looked like a default route but lacked
/// a field.
#[derive(Clone, Copy, Debug, PartialEq, Eq, Structural)]
pub enum Error {
    /// The interface field is missing.
    MissingIfaceField,
    /// The destination field is missing.
    MissingDestinationField,
    /// The mask field is missing.
    MissingMaskField,
}

/// The index of the first word equal to `target`, from `i` on.
pub open spec fn spec_first_word_eq(ws: Seq<Seq<char>>, target: Seq<char>, i: int) -> Option<int>
    decreases ws.len() - i,
{
    if i < 0 || i >= ws.len() {
        None
    } else if ws[i] == target {
        Some(i)
    } else {
        spec_first_word_eq(ws, target, i + 1)
    }
}

/// What scanning android `ip route` output yields, walking the lines
/// from `i` on: on the first line starting with "default via" that has a
/// "dev" word, the word after it (or nothing if "dev" ends the line).
pub open spec fn spec_parse_android_lines(ls: Seq<Seq<char>>, i: int) -> Option<Seq<char>>
    decreases ls.len() - i,
{
    if i < 0 || i >= ls.len() {
        None
    } else if spec_starts_with(ls[i], "default via"@) {
        let ws = spec_words(ls[i]);
        match spec_first_word_eq(ws, "dev"@, 0) {
            Some(k) => if k + 1 < ws.len() {
                Some(ws[k + 1])
            } else {
                None
            },
            None => spec_parse_android_lines(ls, i + 1),
        }
    } else {
        spec_parse_android_lines(ls, i + 1)
    }
}

/// What parsing android `ip route` output yields.
pub open spec fn spec_parse_android_ip_route(s: Seq<char>) -> Option<Seq<char>> {
    spec_parse_android_lines(spec_lines(s), 0)
}

/// The index of the first word equal to `target`.
fn first_word_eq(ws: &Vec<String>, target: &str) -> (r: Option<usize>)
    ensures
        match r {
            Some(k) => k < ws@.len() && spec_first_word_eq(string_views(ws@), target@, 0) == Some(
                k as int,
            ),
            None => spec_first_word_eq(string_views(ws@), target@, 0) is None,
        },
{
    let ghost wv = string_views(ws@);
    let mut i: usize = 0;
    while i < ws.len()
        invariant
            i <= ws@.len(),
            wv == string_views(ws@),
            spec_first_word_eq(wv, target@, 0) == spec_first_word_eq(wv, target@, i as int),
        decreases ws@.len() - i,
    {
        if crate::text::str_eq(&ws[i], target) {
            proof {
                assert(wv[i as int] == ws@[i as int]@);
            }
            return Some(i);
        }
        proof {
            assert(wv[i as int] == ws@[i as int]@);
        }
        i = i + 1;
    }
    None
}

/// Parses the output of the android `ip` command for the default route:
/// in the first line like `default via 10.0.2.2. dev radio0 ...`, the
/// word after `dev`.
pub fn parse_android_ip_route(stdout: &str) -> (r: Option<String>)
    ensures
        match (r, spec_parse_android_ip_route(stdout@)) {
            (Some(s), Some(v)) => s@ == v,
            (None, None) => true,
            _ => false,
        },
{
    let ls = crate::text::lines_of(stdout);
    let ghost lv = string_views(ls@);
    let mut i: usize = 0;
    while i < ls.len()
        invariant
            i <= ls@.len(),
            lv == string_views(ls@),
            lv == spec_lines(stdout@),
            spec_parse_android_lines(lv, 0) == spec_parse_android_lines(lv, i as int),
        decreases ls@.len() - i,
    {
        proof {
            assert(lv[i as int] == ls@[i as int]@);
        }
        if crate::text::starts_with_str(&ls[i], "default via") {
            let ws = crate::text::words_of(ls[i].as_str());
            match first_word_eq(&ws, "dev") {
                Some(k) => {
                    let wn = ws.len();
                    if k < wn && k + 1 < wn {
                        proof {
                            assert(string_views(ws@)[k + 1] == ws@[k + 1]@);
                        }
                        return Some(ws[k + 1].clone());
                    } else {
                        return None;
                    }
                },
                None => {},
            }
        }
        i = i + 1;
    }
    None
}

/// What scanning `/proc/net/route` yields, walking the lines from `i`
/// on. Lines without the all-zero address text cannot be default routes
/// and are passed over; a line with it must carry the interface,
/// destination and mask fields, and names the default route's interface
/// when destination and mask are both all-zero.
pub open spec fn spec_parse_proc_lines(ls: Seq<Seq<char>>, i: int) -> Result<
    Option<Seq<char>>,
    Error,
>
    decreases ls.len() - i,
{
    if i < 0 || i >= ls.len() {
        Ok(None)
    } else if !spec_contains_str(ls[i], "00000000"@) {
        spec_parse_proc_lines(ls, i + 1)
    } else {
        let ws = spec_words(ls[i]);
        if ws.len() < 1 {
            Err(Error::MissingIfaceField)
        } else if ws.len() < 2 {
            Err(Error::MissingDestinationField)
        } else if ws.len() < 8 {
            Err(Error::MissingMaskField)
        } else if ws[1] == "00000000"@ && ws[7] == "00000000"@ {
            Ok(Some(ws[0]))
        } else {
            spec_parse_proc_lines(ls, i + 1)
        }
    }
}

/// What parsing `/proc/net/route` yields.
pub open spec fn spec_parse_proc_net_route(s: Seq<char>) -> Result<Option<Seq<char>>, Error> {
    spec_parse_proc_lines(spec_lines(s), 0)
}

/// Parses the contents of `/proc/net/route` and returns the default
/// route's interface, if one is listed: the first entry whose
/// destination and mask are both all-zero.
pub fn parse_proc_net_route(contents: &str) -> (r: Result<Option<DefaultRouteDetails>, Error>)
    ensures
        match (r, spec_parse_proc_net_route(contents@)) {
            (Ok(Some(d)), Ok(Some(v))) => d.interface_name@ == v,
            (Ok(None), Ok(None)) => true,
            (Err(e1), Err(e2)) => e1 == e2,
            _ => false,
        },
{
    let ls = crate::text::lines_of(contents);
    let ghost lv = string_views(ls@);
    let mut i: usize = 0;
    while i < ls.len()
        invariant
            i <= ls@.len(),
            lv == string_views(ls@),
            lv == spec_lines(contents@),
            spec_parse_proc_lines(lv, 0) == spec_parse_proc_lines(lv, i as int),
        decreases ls@.len() - i,
    {
        proof {
            assert(lv[i as int] == ls@[i as int]@);
        }
        if crate::text::contains_str(&ls[i], "00000000") {
            let ws = crate::text::words_of(ls[i].as_str());
            if ws.len() < 1 {
                return Err(Error::MissingIfaceField);
            }
            if ws.len() < 2 {
                return Err(Error::MissingDestinationField);
            }
            if ws.len() < 8 {
                return Err(Error::MissingMaskField);
            }
            proof {
                assert(string_views(ws@)[0] == ws@[0]@);
                assert(string_views(ws@)[1] == ws@[1]@);
                assert(string_views(ws@)[7] == ws@[7]@);
            }
            if crate::text::str_eq(&ws[1], "00000000") && crate::text::str_eq(&ws[7], "00000000") {
                return Ok(Some(DefaultRouteDetails { interface_name: ws[0].clone() }));
            }
        }
        i = i + 1;
    }
    Ok(None)
}

} // verus!
