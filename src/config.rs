use vstd::prelude::*;

use crate::addr::{copy_ips, AllowedIp, Endpoint, IpAddress};
use crate::key::{zero_key, Key};

verus! {

/// The bytes of an optional key.
pub open spec fn opt_key_view(k: Option<Key>) -> Option<Seq<u8>> {
    match k {
        Some(k) => Some(k@),
        None => None,
    }
}

/// What a peer builder asks of one peer. `None` leaves a field as it is;
/// the zero key and the keepalive interval 0 ask to clear it.
pub struct PeerChange {
    pub public_key: Seq<u8>,
    pub preshared_key: Option<Seq<u8>>,
    pub endpoint: Option<Endpoint>,
    pub persistent_keepalive_interval: Option<u16>,
    pub allowed_ips: Seq<AllowedIp>,
    pub replace_allowed_ips: bool,
    pub remove_me: bool,
}

/// The change that only names the peer with the given key.
pub open spec fn untouched_peer(public_key: Seq<u8>) -> PeerChange {
    PeerChange {
        public_key,
        preshared_key: None,
        endpoint: None,
        persistent_keepalive_interval: None,
        allowed_ips: Seq::empty(),
        replace_allowed_ips: false,
        remove_me: false,
    }
}

/// Builds the change to apply to one peer, identified by its public key.
#[derive(Clone, Debug)]
pub struct PeerConfigBuilder {
    public_key: Key,
    preshared_key: Option<Key>,
    endpoint: Option<Endpoint>,
    persistent_keepalive_interval: Option<u16>,
    allowed_ips: Vec<AllowedIp>,
    replace_allowed_ips: bool,
    remove_me: bool,
}

impl View for PeerConfigBuilder {
    type V = PeerChange;

    closed spec fn view(&self) -> PeerChange {
        PeerChange {
            public_key: self.public_key@,
            preshared_key: opt_key_view(self.preshared_key),
            endpoint: self.endpoint,
            persistent_keepalive_interval: self.persistent_keepalive_interval,
            allowed_ips: self.allowed_ips@,
            replace_allowed_ips: self.replace_allowed_ips,
            remove_me: self.remove_me,
        }
    }
}

impl PeerConfigBuilder {
    /// A builder for the peer with this public key that changes nothing yet.
    pub fn new(public_key: &Key) -> (r: PeerConfigBuilder)
        ensures
            r@ == untouched_peer(public_key@),
    {
        let r = PeerConfigBuilder {
            public_key: *public_key,
            preshared_key: None,
            endpoint: None,
            persistent_keepalive_interval: None,
            allowed_ips: Vec::new(),
            replace_allowed_ips: false,
            remove_me: false,
        };
        assert(r@.allowed_ips =~= Seq::<AllowedIp>::empty());
        r
    }

    /// Sets the preshared key.
    pub fn set_preshared_key(self, key: Key) -> (r: PeerConfigBuilder)
        ensures
            r@ == (PeerChange { preshared_key: Some(key@), ..self@ }),
    {
        PeerConfigBuilder { preshared_key: Some(key), ..self }
    }

    /// Asks to clear the preshared key, by the zero key.
    pub fn unset_preshared_key(self) -> (r: PeerConfigBuilder)
        ensures
            r@ == (PeerChange { preshared_key: Some(zero_key()), ..self@ }),
    {
        self.set_preshared_key(Key::zero())
    }

    /// Sets the endpoint the peer is reached at.
    pub fn set_endpoint(self, endpoint: Endpoint) -> (r: PeerConfigBuilder)
        ensures
            r@ == (PeerChange { endpoint: Some(endpoint), ..self@ }),
    {
        PeerConfigBuilder { endpoint: Some(endpoint), ..self }
    }

    /// Sets the keepalive interval, in seconds; 0 disables keepalives.
    pub fn set_persistent_keepalive_interval(self, interval: u16) -> (r: PeerConfigBuilder)
        ensures
            r@ == (PeerChange { persistent_keepalive_interval: Some(interval), ..self@ }),
    {
        PeerConfigBuilder { persistent_keepalive_interval: Some(interval), ..self }
    }

    /// Asks to disable keepalives, by the interval 0.
    pub fn unset_persistent_keepalive(self) -> (r: PeerConfigBuilder)
        ensures
            r@ == (PeerChange { persistent_keepalive_interval: Some(0u16), ..self@ }),
    {
        self.set_persistent_keepalive_interval(0)
    }

    /// Adds one allowed IP.
    pub fn add_allowed_ip(self, address: IpAddress, cidr: u8) -> (r: PeerConfigBuilder)
        ensures
            r@ == (PeerChange {
                allowed_ips: self@.allowed_ips.push(AllowedIp { address, cidr }),
                ..self@
            }),
    {
        let mut s = self;
        s.allowed_ips.push(AllowedIp::new(address, cidr));
        s
    }

    /// Adds the given allowed IPs, in order.
    pub fn add_allowed_ips(self, ips: &[AllowedIp]) -> (r: PeerConfigBuilder)
        ensures
            r@ == (PeerChange { allowed_ips: self@.allowed_ips + ips@, ..self@ }),
    {
        let mut s = self;
        let ghost start = s.allowed_ips@;
        let mut i: usize = 0;
        while i < ips.len()
            invariant
                i <= ips@.len(),
                s.allowed_ips@ =~= start + ips@.take(i as int),
                s.public_key == self.public_key,
                s.preshared_key == self.preshared_key,
                s.endpoint == self.endpoint,
                s.persistent_keepalive_interval == self.persistent_keepalive_interval,
                s.replace_allowed_ips == self.replace_allowed_ips,
                s.remove_me == self.remove_me,
                start == self.allowed_ips@,
            decreases ips@.len() - i,
        {
            s.allowed_ips.push(ips[i]);
            i = i + 1;
            assert(s.allowed_ips@ =~= start + ips@.take(i as int));
        }
        assert(ips@.take(ips@.len() as int) =~= ips@);
        s
    }

    /// Allows every IPv4 and IPv6 address: adds 0.0.0.0/0 and ::/0.
    pub fn allow_all_ips(self) -> (r: PeerConfigBuilder)
        ensures
            r@ == (PeerChange {
                allowed_ips: self@.allowed_ips.push(
                    AllowedIp { address: IpAddress::V4(0), cidr: 0 },
                ).push(AllowedIp { address: IpAddress::V6(0), cidr: 0 }),
                ..self@
            }),
    {
        self.add_allowed_ip(IpAddress::V4(0), 0).add_allowed_ip(IpAddress::V6(0), 0)
    }

    /// Makes the allowed IPs of this builder replace the peer's, not add to them.
    pub fn replace_allowed_ips(self) -> (r: PeerConfigBuilder)
        ensures
            r@ == (PeerChange { replace_allowed_ips: true, ..self@ }),
    {
        PeerConfigBuilder { replace_allowed_ips: true, ..self }
    }

    /// Asks to remove the peer; the other fields are then ignored.
    pub fn remove(self) -> (r: PeerConfigBuilder)
        ensures
            r@ == (PeerChange { remove_me: true, ..self@ }),
    {
        PeerConfigBuilder { remove_me: true, ..self }
    }

    /// A copy of this builder.
    pub fn duplicate(&self) -> (r: PeerConfigBuilder)
        ensures
            r@ == self@,
    {
        PeerConfigBuilder {
            public_key: self.public_key,
            preshared_key: self.preshared_key,
            endpoint: self.endpoint,
            persistent_keepalive_interval: self.persistent_keepalive_interval,
            allowed_ips: copy_ips(&self.allowed_ips),
            replace_allowed_ips: self.replace_allowed_ips,
            remove_me: self.remove_me,
        }
    }

    pub fn public_key(&self) -> (r: Key)
        ensures
            r@ == self@.public_key,
    {
        self.public_key
    }

    pub fn preshared_key(&self) -> (r: Option<Key>)
        ensures
            opt_key_view(r) == self@.preshared_key,
    {
        self.preshared_key
    }

    pub fn endpoint(&self) -> (r: Option<Endpoint>)
        ensures
            r == self@.endpoint,
    {
        self.endpoint
    }

    pub fn persistent_keepalive_interval(&self) -> (r: Option<u16>)
        ensures
            r == self@.persistent_keepalive_interval,
    {
        self.persistent_keepalive_interval
    }

    pub fn allowed_ips(&self) -> (r: Vec<AllowedIp>)
        ensures
            r@ == self@.allowed_ips,
    {
        copy_ips(&self.allowed_ips)
    }

    pub fn replaces_allowed_ips(&self) -> (r: bool)
        ensures
            r == self@.replace_allowed_ips,
    {
        self.replace_allowed_ips
    }

    pub fn removes(&self) -> (r: bool)
        ensures
            r == self@.remove_me,
    {
        self.remove_me
    }
}

} // verus!
