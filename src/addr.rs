use vstd::prelude::*;

verus! {

/// An IP address: IPv4 as its 32 bits, IPv6 as its 128 bits, most significant first.
#[derive(Clone, Copy, Debug, PartialEq, Eq, Structural, Hash)]
pub enum IpAddress {
    V4(u32),
    V6(u128),
}

/// An IP address a peer is allowed to have, in CIDR notation. The prefix
/// length is kept as given, whatever the address family allows.
#[derive(Clone, Copy, Debug, PartialEq, Eq, Structural, Hash)]
pub struct AllowedIp {
    /// The IP address.
    pub address: IpAddress,
    /// The CIDR prefix length.
    pub cidr: u8,
}

impl AllowedIp {
    pub fn new(address: IpAddress, cidr: u8) -> (r: AllowedIp)
        ensures
            r.address == address,
            r.cidr == cidr,
    {
        AllowedIp { address, cidr }
    }
}

/// A socket address: an IP address and a port.
#[derive(Clone, Copy, Debug, PartialEq, Eq, Structural, Hash)]
pub struct Endpoint {
    pub address: IpAddress,
    pub port: u16,
}

impl Endpoint {
    pub fn new(address: IpAddress, port: u16) -> (r: Endpoint)
        ensures
            r.address == address,
            r.port == port,
    {
        Endpoint { address, port }
    }
}

/// A point in time, as the time elapsed since the Unix epoch.
#[derive(Clone, Copy, Debug, PartialEq, Eq, Structural, Hash)]
pub struct Timestamp {
    pub secs: u64,
    pub nanos: u32,
}

/// A copy of `v`, element by element.
pub fn copy_ips(v: &Vec<AllowedIp>) -> (r: Vec<AllowedIp>)
    ensures
        r@ == v@,
{
    let mut r: Vec<AllowedIp> = Vec::new();
    let mut i: usize = 0;
    while i < v.len()
        invariant
            i <= v@.len(),
            r@ =~= v@.take(i as int),
        decreases v@.len() - i,
    {
        r.push(v[i]);
        i = i + 1;
        assert(r@ =~= v@.take(i as int));
    }
    assert(r@ =~= v@);
    r
}

} // verus!
