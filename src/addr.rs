use vstd::prelude::*;

verus! {

/// An IP address held as its integer value: 32 bits for IPv4, 128 bits for IPv6.
#[derive(Clone, Copy, Debug, PartialEq, Eq, Structural)]
pub enum IpAddr {
    V4(u32),
    V6(u128),
}

/// A socket address: an IP address and a port.
#[derive(Clone, Copy, Debug, PartialEq, Eq, Structural)]
pub struct SockAddr {
    pub ip: IpAddr,
    pub port: u16,
}

/// The prefix `::ffff:0:0/96` under which IPv6 carries IPv4 addresses.
pub const IPV4_MAPPED_PREFIX: u128 = 0xffff_0000_0000;

/// The IPv4-mapped IPv6 form `::ffff:a.b.c.d` of an IPv4 address.
pub open spec fn mapped_v6(v4: u32) -> u128 {
    (IPV4_MAPPED_PREFIX + v4) as u128
}

/// An address in IPv6 form: IPv4 addresses are mapped, IPv6 ones stay.
pub open spec fn normalized(ip: IpAddr) -> u128 {
    match ip {
        IpAddr::V4(a) => mapped_v6(a),
        IpAddr::V6(b) => b,
    }
}

/// Two socket addresses name the same endpoint: equal IPs once both are
/// in IPv6 form, and equal ports.
pub open spec fn same_endpoint(a: SockAddr, b: SockAddr) -> bool {
    normalized(a.ip) == normalized(b.ip) && a.port == b.port
}

/// The address is one of the given set, up to `same_endpoint`.
pub open spec fn in_addr_set(set: Seq<SockAddr>, a: SockAddr) -> bool {
    exists|i: int| 0 <= i < set.len() && same_endpoint(#[trigger] set[i], a)
}

/// The IPv4-mapped IPv6 form of an IPv4 address.
pub fn to_ipv6_mapped(v4: u32) -> (r: u128)
    ensures
        r == mapped_v6(v4),
{
    IPV4_MAPPED_PREFIX + v4 as u128
}

impl IpAddr {
    /// This address in IPv6 form.
    pub fn to_v6(&self) -> (r: u128)
        ensures
            r == normalized(*self),
    {
        match self {
            IpAddr::V4(a) => to_ipv6_mapped(*a),
            IpAddr::V6(b) => *b,
        }
    }
}

impl SockAddr {
    pub fn new(ip: IpAddr, port: u16) -> (r: SockAddr)
        ensures
            r.ip == ip,
            r.port == port,
    {
        SockAddr { ip, port }
    }
}

/// Compares two socket addresses, taking an IPv4 address and its
/// IPv4-mapped IPv6 form as equal. Ports must match exactly.
pub fn are_addrs_eq(addr1: &SockAddr, addr2: &SockAddr) -> (r: bool)
    ensures
        r == same_endpoint(*addr1, *addr2),
{
    let ip1 = addr1.ip.to_v6();
    let ip2 = addr2.ip.to_v6();
    ip1 == ip2 && addr1.port == addr2.port
}

/// Whether `addr` is one of `set`, up to `same_endpoint`.
pub fn contains_addr(set: &Vec<SockAddr>, addr: &SockAddr) -> (r: bool)
    ensures
        r == in_addr_set(set@, *addr),
{
    let mut i: usize = 0;
    while i < set.len()
        invariant
            i <= set@.len(),
            forall|j: int| 0 <= j < i ==> !same_endpoint(#[trigger] set@[j], *addr),
        decreases set@.len() - i,
    {
        if are_addrs_eq(&set[i], addr) {
            return true;
        }
        i = i + 1;
    }
    false
}

/// An IPv4 address and its IPv4-mapped IPv6 form name the same endpoint
/// when the ports agree.
pub proof fn lemma_mapped_form_matches(v4: u32, port: u16)
    ensures
        same_endpoint(
            SockAddr { ip: IpAddr::V4(v4), port },
            SockAddr { ip: IpAddr::V6(mapped_v6(v4)), port },
        ),
        same_endpoint(
            SockAddr { ip: IpAddr::V6(mapped_v6(v4)), port },
            SockAddr { ip: IpAddr::V4(v4), port },
        ),
{
}

/// Address matching is an equivalence: reflexive, symmetric and transitive.
pub proof fn lemma_same_endpoint_equivalence(a: SockAddr, b: SockAddr, c: SockAddr)
    ensures
        same_endpoint(a, a),
        same_endpoint(a, b) ==> same_endpoint(b, a),
        same_endpoint(a, b) && same_endpoint(b, c) ==> same_endpoint(a, c),
{
}

/// Addresses with different ports never match, whatever their IPs.
pub proof fn lemma_ports_must_agree(a: SockAddr, b: SockAddr)
    requires
        a.port != b.port,
    ensures
        !same_endpoint(a, b),
{
}

} // verus!
