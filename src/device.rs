use vstd::prelude::*;

use crate::addr::{copy_ips, AllowedIp, Endpoint, Timestamp};
use crate::config::{opt_key_view, untouched_peer, PeerChange, PeerConfigBuilder};
use crate::key::{is_zero_key, zero_key, Key, KeyPair};
use crate::name::InterfaceName;

verus! {

/// Held by the snapshot types, so that only this module can make them.
#[derive(Clone, Copy, Debug)]
struct Sealed;

/// Where an interface lives: in the kernel, or in a userspace process
/// reached through a control socket.
#[derive(Clone, Copy, Debug, PartialEq, Eq, Structural, Hash)]
pub enum Backend {
    Kernel,
    Userspace,
}

/// A peer's statistics from the current session.
#[derive(Clone, Copy, Debug, PartialEq, Eq, Structural, Hash)]
pub struct PeerStats {
    /// Time of the last handshake with this peer.
    pub last_handshake_time: Option<Timestamp>,
    /// Bytes received from this peer.
    pub rx_bytes: u64,
    /// Bytes sent to this peer.
    pub tx_bytes: u64,
}

/// The statistics of a peer that has just been added.
pub open spec fn no_stats() -> PeerStats {
    PeerStats { last_handshake_time: None, rx_bytes: 0, tx_bytes: 0 }
}

impl PeerStats {
    /// Statistics of a peer with no handshake and no traffic yet.
    pub fn new() -> (r: PeerStats)
        ensures
            r == no_stats(),
    {
        PeerStats { last_handshake_time: None, rx_bytes: 0, tx_bytes: 0 }
    }
}

/// The persistent attributes of a peer, as a model.
pub struct PeerConfigView {
    pub public_key: Seq<u8>,
    pub preshared_key: Option<Seq<u8>>,
    pub endpoint: Option<Endpoint>,
    pub persistent_keepalive_interval: Option<u16>,
    pub allowed_ips: Seq<AllowedIp>,
}

/// All that is known of a peer, as a model.
pub struct PeerInfoView {
    pub config: PeerConfigView,
    pub stats: PeerStats,
}

/// An interface and its peers, as a model.
pub struct DeviceView {
    pub name: Seq<u8>,
    pub public_key: Option<Seq<u8>>,
    pub private_key: Option<Seq<u8>>,
    pub fwmark: Option<u32>,
    pub listen_port: Option<u16>,
    pub peers: Seq<PeerInfoView>,
    pub linked_name: Option<Seq<char>>,
    pub backend: Backend,
}

/// A peer's persistent attributes. Only a read of an interface makes one.
#[derive(Clone, Debug)]
pub struct PeerConfig {
    /// The peer's public key, which identifies it.
    pub public_key: Key,
    /// The preshared key (`None`: no preshared key is used).
    pub preshared_key: Option<Key>,
    /// The address the peer is reached at (`None`: any).
    pub endpoint: Option<Endpoint>,
    /// The keepalive interval in seconds (`None`: disabled).
    pub persistent_keepalive_interval: Option<u16>,
    /// The addresses the peer may use.
    pub allowed_ips: Vec<AllowedIp>,
    sealed: Sealed,
}

impl View for PeerConfig {
    type V = PeerConfigView;

    closed spec fn view(&self) -> PeerConfigView {
        PeerConfigView {
            public_key: self.public_key@,
            preshared_key: opt_key_view(self.preshared_key),
            endpoint: self.endpoint,
            persistent_keepalive_interval: self.persistent_keepalive_interval,
            allowed_ips: self.allowed_ips@,
        }
    }
}

/// A peer's configuration together with its statistics.
#[derive(Clone, Debug)]
pub struct PeerInfo {
    pub config: PeerConfig,
    pub stats: PeerStats,
}

impl View for PeerInfo {
    type V = PeerInfoView;

    closed spec fn view(&self) -> PeerInfoView {
        PeerInfoView { config: self.config@, stats: self.stats }
    }
}

impl PeerInfo {
    fn duplicate(&self) -> (r: PeerInfo)
        ensures
            r@ == self@,
    {
        PeerInfo {
            config: PeerConfig {
                public_key: self.config.public_key,
                preshared_key: self.config.preshared_key,
                endpoint: self.config.endpoint,
                persistent_keepalive_interval: self.config.persistent_keepalive_interval,
                allowed_ips: copy_ips(&self.config.allowed_ips),
                sealed: Sealed,
            },
            stats: self.stats,
        }
    }
}

/// The models of a sequence of peers.
pub open spec fn peer_views(s: Seq<PeerInfo>) -> Seq<PeerInfoView> {
    s.map_values(|p: PeerInfo| p@)
}

/// A snapshot of one interface and its peers. Only a read of an interface
/// makes one; it is never changed in place.
#[derive(Clone, Debug)]
pub struct Device {
    /// The interface's name.
    pub name: InterfaceName,
    /// The interface's public key, if it has one.
    pub public_key: Option<Key>,
    /// The interface's private key, if it has one and it was read.
    pub private_key: Option<Key>,
    /// The fwmark of the interface's packets, if one is set.
    pub fwmark: Option<u32>,
    /// The port the interface listens on.
    pub listen_port: Option<u16>,
    /// The peers, in order.
    pub peers: Vec<PeerInfo>,
    /// The name the system gave the interface, where it differs.
    pub linked_name: Option<String>,
    /// Where the interface lives.
    pub backend: Backend,
    sealed: Sealed,
}

/// The text of an optional string.
pub open spec fn opt_string_view(s: Option<String>) -> Option<Seq<char>> {
    match s {
        Some(s) => Some(s@),
        None => None,
    }
}

impl View for Device {
    type V = DeviceView;

    closed spec fn view(&self) -> DeviceView {
        DeviceView {
            name: self.name@,
            public_key: opt_key_view(self.public_key),
            private_key: opt_key_view(self.private_key),
            fwmark: self.fwmark,
            listen_port: self.listen_port,
            peers: peer_views(self.peers@),
            linked_name: opt_string_view(self.linked_name),
            backend: self.backend,
        }
    }
}

/// The interface that applying an update creates where none had the name.
pub open spec fn created_interface(name: Seq<u8>, backend: Backend) -> DeviceView {
    DeviceView {
        name,
        public_key: None,
        private_key: None,
        fwmark: None,
        listen_port: None,
        peers: Seq::empty(),
        linked_name: None,
        backend,
    }
}

impl Device {
    /// The snapshot of an interface that has just been created: no keys,
    /// no fwmark, no port and no peers.
    pub fn created(name: InterfaceName, backend: Backend) -> (r: Device)
        ensures
            r@ == created_interface(name@, backend),
    {
        let r = Device {
            name,
            public_key: None,
            private_key: None,
            fwmark: None,
            listen_port: None,
            peers: Vec::new(),
            linked_name: None,
            backend,
            sealed: Sealed,
        };
        assert(r@.peers =~= Seq::<PeerInfoView>::empty());
        r
    }
}

/// What an update asks of an interface, as a model. `None` leaves a field
/// as it is; the zero key and the fwmark 0 ask to clear it. A listen port of
/// 0 asks the system to choose one, and in the model stands for that port.
pub struct UpdateView {
    pub public_key: Option<Seq<u8>>,
    pub private_key: Option<Seq<u8>>,
    pub fwmark: Option<u32>,
    pub listen_port: Option<u16>,
    pub peers: Seq<PeerChange>,
    pub replace_peers: bool,
}

/// The update that asks for nothing.
pub open spec fn empty_update() -> UpdateView {
    UpdateView {
        public_key: None,
        private_key: None,
        fwmark: None,
        listen_port: None,
        peers: Seq::empty(),
        replace_peers: false,
    }
}

/// The change that removes the peer with key `k`.
pub open spec fn removal(k: Seq<u8>) -> PeerChange {
    PeerChange { remove_me: true, ..untouched_peer(k) }
}

/// A key field after a change: `None` keeps it, the zero key clears it.
pub open spec fn key_after(change: Option<Seq<u8>>, current: Option<Seq<u8>>) -> Option<Seq<u8>> {
    match change {
        None => current,
        Some(k) => if is_zero_key(k) {
            None
        } else {
            Some(k)
        },
    }
}

/// The fwmark after a change: `None` keeps it, 0 clears it.
pub open spec fn fwmark_after(change: Option<u32>, current: Option<u32>) -> Option<u32> {
    match change {
        None => current,
        Some(m) => if m == 0 {
            None
        } else {
            Some(m)
        },
    }
}

/// The keepalive interval after a change: `None` keeps it, 0 disables it.
pub open spec fn keepalive_after(change: Option<u16>, current: Option<u16>) -> Option<u16> {
    match change {
        None => current,
        Some(n) => if n == 0 {
            None
        } else {
            Some(n)
        },
    }
}

/// A field that a change either keeps (`None`) or sets.
pub open spec fn value_after<T>(change: Option<T>, current: Option<T>) -> Option<T> {
    match change {
        None => current,
        Some(v) => Some(v),
    }
}

/// The peer `p` after the change `c`, which names it.
pub open spec fn merged_peer(p: PeerInfoView, c: PeerChange) -> PeerInfoView {
    PeerInfoView {
        config: PeerConfigView {
            public_key: p.config.public_key,
            preshared_key: key_after(c.preshared_key, p.config.preshared_key),
            endpoint: value_after(c.endpoint, p.config.endpoint),
            persistent_keepalive_interval: keepalive_after(
                c.persistent_keepalive_interval,
                p.config.persistent_keepalive_interval,
            ),
            allowed_ips: if c.replace_allowed_ips {
                c.allowed_ips
            } else {
                p.config.allowed_ips + c.allowed_ips
            },
        },
        stats: p.stats,
    }
}

/// The peer that the change `c` creates.
pub open spec fn new_peer(c: PeerChange) -> PeerInfoView {
    merged_peer(
        PeerInfoView {
            config: PeerConfigView {
                public_key: c.public_key,
                preshared_key: None,
                endpoint: None,
                persistent_keepalive_interval: None,
                allowed_ips: Seq::empty(),
            },
            stats: no_stats(),
        },
        c,
    )
}

/// Some peer of `peers` has the public key `k`.
pub open spec fn has_peer(peers: Seq<PeerInfoView>, k: Seq<u8>) -> bool {
    exists|i: int| 0 <= i < peers.len() && (#[trigger] peers[i]).config.public_key == k
}

/// Some change of `cs` names the public key `k`.
pub open spec fn mentions(cs: Seq<PeerChange>, k: Seq<u8>) -> bool {
    exists|i: int| 0 <= i < cs.len() && (#[trigger] cs[i]).public_key == k
}

/// The peer `p` after the change `c`, which may or may not name it.
pub open spec fn peer_after(p: PeerInfoView, c: PeerChange) -> PeerInfoView {
    if p.config.public_key == c.public_key {
        merged_peer(p, c)
    } else {
        p
    }
}

/// The peers after one change: a removal drops the peers with its key, a
/// change to a present peer merges into it, and any other change appends a
/// new peer.
pub open spec fn peers_after_change(peers: Seq<PeerInfoView>, c: PeerChange) -> Seq<PeerInfoView> {
    if c.remove_me {
        peers.filter(|p: PeerInfoView| p.config.public_key != c.public_key)
    } else if has_peer(peers, c.public_key) {
        peers.map_values(|p: PeerInfoView| peer_after(p, c))
    } else {
        peers.push(new_peer(c))
    }
}

/// The peers after the changes `cs`, applied in order.
pub open spec fn peers_after_changes(peers: Seq<PeerInfoView>, cs: Seq<PeerChange>) -> Seq<
    PeerInfoView,
>
    decreases cs.len(),
{
    if cs.len() == 0 {
        peers
    } else {
        peers_after_change(peers_after_changes(peers, cs.drop_last()), cs.last())
    }
}

/// The peers kept before the changes are applied: all of them when peers
/// are merged, those that the update mentions when they are replaced.
pub open spec fn kept_peers(peers: Seq<PeerInfoView>, u: UpdateView) -> Seq<PeerInfoView> {
    if u.replace_peers {
        peers.filter(|p: PeerInfoView| mentions(u.peers, p.config.public_key))
    } else {
        peers
    }
}

/// The interface `d` after the update `u` has been applied to it.
pub open spec fn applied(d: DeviceView, u: UpdateView) -> DeviceView {
    DeviceView {
        name: d.name,
        public_key: key_after(u.public_key, d.public_key),
        private_key: key_after(u.private_key, d.private_key),
        fwmark: fwmark_after(u.fwmark, d.fwmark),
        listen_port: value_after(u.listen_port, d.listen_port),
        peers: peers_after_changes(kept_peers(d.peers, u), u.peers),
        linked_name: d.linked_name,
        backend: d.backend,
    }
}

/// The models of a sequence of peer builders.
pub open spec fn change_views(s: Seq<PeerConfigBuilder>) -> Seq<PeerChange> {
    s.map_values(|b: PeerConfigBuilder| b@)
}

/// A change set for an interface, applied on top of what it already has.
#[derive(Clone, Debug)]
pub struct DeviceUpdate {
    public_key: Option<Key>,
    private_key: Option<Key>,
    fwmark: Option<u32>,
    listen_port: Option<u16>,
    peers: Vec<PeerConfigBuilder>,
    replace_peers: bool,
}

impl View for DeviceUpdate {
    type V = UpdateView;

    closed spec fn view(&self) -> UpdateView {
        UpdateView {
            public_key: opt_key_view(self.public_key),
            private_key: opt_key_view(self.private_key),
            fwmark: self.fwmark,
            listen_port: self.listen_port,
            peers: change_views(self.peers@),
            replace_peers: self.replace_peers,
        }
    }
}

impl DeviceUpdate {
    /// An update that changes nothing when applied.
    pub fn new() -> (r: DeviceUpdate)
        ensures
            r@ == empty_update(),
    {
        let r = DeviceUpdate {
            public_key: None,
            private_key: None,
            fwmark: None,
            listen_port: None,
            peers: Vec::new(),
            replace_peers: false,
        };
        assert(r@.peers =~= Seq::<PeerChange>::empty());
        r
    }

    /// Sets both keys of the interface.
    pub fn set_keypair(self, keypair: KeyPair) -> (r: DeviceUpdate)
        ensures
            r@ == (UpdateView {
                public_key: Some(keypair.public@),
                private_key: Some(keypair.private@),
                ..self@
            }),
    {
        self.set_public_key(keypair.public).set_private_key(keypair.private)
    }

    /// Sets the interface's public key.
    pub fn set_public_key(self, key: Key) -> (r: DeviceUpdate)
        ensures
            r@ == (UpdateView { public_key: Some(key@), ..self@ }),
    {
        DeviceUpdate { public_key: Some(key), ..self }
    }

    /// Asks to clear the interface's public key, by the zero key.
    pub fn unset_public_key(self) -> (r: DeviceUpdate)
        ensures
            r@ == (UpdateView { public_key: Some(zero_key()), ..self@ }),
    {
        self.set_public_key(Key::zero())
    }

    /// Sets the interface's private key.
    pub fn set_private_key(self, key: Key) -> (r: DeviceUpdate)
        ensures
            r@ == (UpdateView { private_key: Some(key@), ..self@ }),
    {
        DeviceUpdate { private_key: Some(key), ..self }
    }

    /// Asks to clear the interface's private key, by the zero key.
    pub fn unset_private_key(self) -> (r: DeviceUpdate)
        ensures
            r@ == (UpdateView { private_key: Some(zero_key()), ..self@ }),
    {
        self.set_private_key(Key::zero())
    }

    /// Sets the fwmark of the interface's packets.
    pub fn set_fwmark(self, fwmark: u32) -> (r: DeviceUpdate)
        ensures
            r@ == (UpdateView { fwmark: Some(fwmark), ..self@ }),
    {
        DeviceUpdate { fwmark: Some(fwmark), ..self }
    }

    /// Asks that no fwmark be set, by the fwmark 0.
    pub fn unset_fwmark(self) -> (r: DeviceUpdate)
        ensures
            r@ == (UpdateView { fwmark: Some(0u32), ..self@ }),
    {
        self.set_fwmark(0)
    }

    /// Sets the port to listen on.
    pub fn set_listen_port(self, port: u16) -> (r: DeviceUpdate)
        ensures
            r@ == (UpdateView { listen_port: Some(port), ..self@ }),
    {
        DeviceUpdate { listen_port: Some(port), ..self }
    }

    /// Asks the system to pick the port, by the port 0.
    pub fn randomize_listen_port(self) -> (r: DeviceUpdate)
        ensures
            r@ == (UpdateView { listen_port: Some(0u16), ..self@ }),
    {
        self.set_listen_port(0)
    }

    /// Appends the change for one peer.
    pub fn add_peer(self, peer: PeerConfigBuilder) -> (r: DeviceUpdate)
        ensures
            r@ == (UpdateView { peers: self@.peers.push(peer@), ..self@ }),
    {
        let mut s = self;
        s.peers.push(peer);
        assert(change_views(s.peers@) =~= change_views(self.peers@).push(peer@));
        s
    }

    /// Appends the change that `builder` makes of a fresh builder for `pubkey`.
    pub fn add_peer_with<F: Fn(PeerConfigBuilder) -> PeerConfigBuilder>(
        self,
        pubkey: &Key,
        builder: F,
    ) -> (r: DeviceUpdate)
        requires
            forall|b: PeerConfigBuilder| b@ == untouched_peer(pubkey@) ==> builder.requires((b,)),
        ensures
            exists|b: PeerConfigBuilder, out: PeerConfigBuilder|
                b@ == untouched_peer(pubkey@) && builder.ensures((b,), out) && r@ == (
                UpdateView { peers: self@.peers.push(out@), ..self@ }),
    {
        let b = PeerConfigBuilder::new(pubkey);
        let out = builder(b);
        self.add_peer(out)
    }

    /// Appends copies of the given peer changes, in order.
    pub fn add_peers(self, peers: &[PeerConfigBuilder]) -> (r: DeviceUpdate)
        ensures
            r@ == (UpdateView { peers: self@.peers + change_views(peers@), ..self@ }),
    {
        let mut s = self;
        let mut i: usize = 0;
        while i < peers.len()
            invariant
                i <= peers@.len(),
                s@ == (UpdateView {
                    peers: self@.peers + change_views(peers@.take(i as int)),
                    ..self@
                }),
            decreases peers@.len() - i,
        {
            let p = peers[i].duplicate();
            s = s.add_peer(p);
            assert(change_views(peers@.take(i + 1)) =~= change_views(peers@.take(i as int)).push(
                peers@[i as int]@,
            ));
            assert(self@.peers + change_views(peers@.take(i + 1)) =~= (self@.peers
                + change_views(peers@.take(i as int))).push(peers@[i as int]@));
            i = i + 1;
        }
        assert(peers@.take(peers@.len() as int) =~= peers@);
        s
    }

    /// Makes the peers of this update the interface's whole peer set: the
    /// peers that it does not mention are removed.
    pub fn replace_peers(self) -> (r: DeviceUpdate)
        ensures
            r@ == (UpdateView { replace_peers: true, ..self@ }),
    {
        DeviceUpdate { replace_peers: true, ..self }
    }

    /// Appends the change that removes the peer with this key.
    pub fn remove_peer_by_key(self, public_key: &Key) -> (r: DeviceUpdate)
        ensures
            r@ == (UpdateView { peers: self@.peers.push(removal(public_key@)), ..self@ }),
    {
        let peer = PeerConfigBuilder::new(public_key).remove();
        self.add_peer(peer)
    }
}

/// Applying an update that asks for nothing leaves every interface as it was.
pub proof fn lemma_empty_update_changes_nothing(d: DeviceView)
    ensures
        applied(d, empty_update()) == d,
{
    assert(peers_after_changes(d.peers, Seq::<PeerChange>::empty()) == d.peers);
}

/// After an update that asks to clear the public key, the interface has no
/// public key, whatever it had before.
pub proof fn lemma_unset_public_key_clears_it(d: DeviceView, u: UpdateView)
    requires
        u.public_key == Some(zero_key()),
    ensures
        applied(d, u).public_key == None::<Seq<u8>>,
{
}

/// When the last change of an update removes the peer with key `k`, no peer
/// with that key is left after the update, however many there were.
pub proof fn lemma_removed_peer_is_gone(d: DeviceView, u: UpdateView, k: Seq<u8>)
    requires
        u.peers.len() > 0,
        u.peers.last() == removal(k),
    ensures
        !has_peer(applied(d, u).peers, k),
{
    broadcast use Seq::lemma_filter_pred;

    let before = peers_after_changes(kept_peers(d.peers, u), u.peers.drop_last());
    let pred = |p: PeerInfoView| p.config.public_key != k;
    let after = applied(d, u).peers;
    assert(after == before.filter(pred));
    assert forall|i: int| 0 <= i < after.len() implies (#[trigger] after[i]).config.public_key
        != k by {
        assert(pred(before.filter(pred)[i]));
    }
}

/// Replacing the peers of an interface that has the peers `a` and `b` by
/// an update that changes `a` alone leaves exactly `a`, changed, and no `b`.
pub proof fn lemma_replace_peers_keeps_only_mentioned(
    d: DeviceView,
    u: UpdateView,
    a: PeerInfoView,
    b: PeerInfoView,
    c: PeerChange,
)
    requires
        d.peers == seq![a, b],
        a.config.public_key != b.config.public_key,
        u.replace_peers,
        u.peers == seq![c],
        c.public_key == a.config.public_key,
        !c.remove_me,
    ensures
        applied(d, u).peers == seq![merged_peer(a, c)],
        !has_peer(applied(d, u).peers, b.config.public_key),
{
    reveal_with_fuel(Seq::filter, 3);
    let pred = |p: PeerInfoView| mentions(u.peers, p.config.public_key);
    assert(u.peers[0].public_key == a.config.public_key);
    assert(pred(a));
    assert(!pred(b));
    assert(seq![a, b].drop_last() =~= seq![a]);
    assert(seq![a].drop_last() =~= Seq::<PeerInfoView>::empty());
    let kept = kept_peers(d.peers, u);
    assert(kept =~= seq![a]);
    assert(u.peers.drop_last() =~= Seq::<PeerChange>::empty());
    assert(has_peer(kept, c.public_key)) by {
        assert(kept[0].config.public_key == c.public_key);
    }
    assert(peers_after_changes(kept, u.peers.drop_last()) == kept);
    assert(u.peers.last() == c);
    assert(peers_after_changes(kept, u.peers) == kept.map_values(
        |p: PeerInfoView| peer_after(p, c),
    ));
    let after = applied(d, u).peers;
    assert(after =~= seq![merged_peer(a, c)]);
    assert(merged_peer(a, c).config.public_key == a.config.public_key);
}

/// Two changes for distinct keys that no peer has yet add two peers, each
/// made from its own change, after the existing ones and in the order given.
/// Two calls of `add_peer_with` on a new update give such changes, where each
/// builder function keeps the key of the builder it is handed.
pub proof fn lemma_new_peers_appended_in_order(
    d: DeviceView,
    u: UpdateView,
    c1: PeerChange,
    c2: PeerChange,
)
    requires
        !u.replace_peers,
        u.peers == seq![c1, c2],
        c1.public_key != c2.public_key,
        !c1.remove_me,
        !c2.remove_me,
        !has_peer(d.peers, c1.public_key),
        !has_peer(d.peers, c2.public_key),
    ensures
        applied(d, u).peers == d.peers.push(new_peer(c1)).push(new_peer(c2)),
{
    assert(u.peers.drop_last() =~= seq![c1]);
    assert(seq![c1].drop_last() =~= Seq::<PeerChange>::empty());
    let mid = d.peers.push(new_peer(c1));
    assert(peers_after_changes(d.peers, seq![c1].drop_last()) == d.peers);
    assert(seq![c1].last() == c1);
    assert(peers_after_changes(d.peers, seq![c1]) == mid);
    assert(!has_peer(mid, c2.public_key)) by {
        if has_peer(mid, c2.public_key) {
            let i = choose|i: int|
                0 <= i < mid.len() && (#[trigger] mid[i]).config.public_key == c2.public_key;
            if i < d.peers.len() {
                assert(d.peers[i] == mid[i]);
            }
        }
    }
}

/// A key field after a change.
fn key_field_after(change: Option<Key>, current: Option<Key>) -> (r: Option<Key>)
    ensures
        opt_key_view(r) == key_after(opt_key_view(change), opt_key_view(current)),
{
    match change {
        None => current,
        Some(k) => if k.is_zero() {
            None
        } else {
            Some(k)
        },
    }
}

/// The peer `p` after the change `c`, which names it.
fn merge_peer(p: &PeerInfo, c: &PeerConfigBuilder) -> (r: PeerInfo)
    ensures
        r@ == merged_peer(p@, c@),
{
    let endpoint = match c.endpoint() {
        None => p.config.endpoint,
        Some(e) => Some(e),
    };
    let keepalive = match c.persistent_keepalive_interval() {
        None => p.config.persistent_keepalive_interval,
        Some(n) => if n == 0 {
            None
        } else {
            Some(n)
        },
    };
    let mut allowed_ips = if c.replaces_allowed_ips() {
        Vec::new()
    } else {
        copy_ips(&p.config.allowed_ips)
    };
    let mut added = c.allowed_ips();
    allowed_ips.append(&mut added);
    PeerInfo {
        config: PeerConfig {
            public_key: p.config.public_key,
            preshared_key: key_field_after(c.preshared_key(), p.config.preshared_key),
            endpoint,
            persistent_keepalive_interval: keepalive,
            allowed_ips,
            sealed: Sealed,
        },
        stats: p.stats,
    }
}

/// The peer that the change `c` creates.
fn make_peer(c: &PeerConfigBuilder) -> (r: PeerInfo)
    ensures
        r@ == new_peer(c@),
{
    let blank = PeerInfo {
        config: PeerConfig {
            public_key: c.public_key(),
            preshared_key: None,
            endpoint: None,
            persistent_keepalive_interval: None,
            allowed_ips: Vec::new(),
            sealed: Sealed,
        },
        stats: PeerStats::new(),
    };
    assert(blank@.config.allowed_ips =~= Seq::<AllowedIp>::empty());
    merge_peer(&blank, c)
}

proof fn lemma_peer_views_push(s: Seq<PeerInfo>, x: PeerInfo)
    ensures
        peer_views(s.push(x)) == peer_views(s).push(x@),
{
    assert(peer_views(s.push(x)) =~= peer_views(s).push(x@));
}

proof fn lemma_filter_step(s: Seq<PeerInfoView>, i: int, pred: spec_fn(PeerInfoView) -> bool)
    requires
        0 <= i < s.len(),
    ensures
        s.take(i + 1).filter(pred) == if pred(s[i]) {
            s.take(i).filter(pred).push(s[i])
        } else {
            s.take(i).filter(pred)
        },
{
    reveal(Seq::filter);
    assert(s.take(i + 1).drop_last() =~= s.take(i));
    assert(s.take(i + 1).last() == s[i]);
}

/// The peers of `peers` whose public key is not `k`, in order.
fn without_key(peers: &Vec<PeerInfo>, k: &Key) -> (r: Vec<PeerInfo>)
    ensures
        peer_views(r@) == peer_views(peers@).filter(
            |p: PeerInfoView| p.config.public_key != k@,
        ),
{
    let ghost src = peer_views(peers@);
    let ghost pred = |p: PeerInfoView| p.config.public_key != k@;
    let mut r: Vec<PeerInfo> = Vec::new();
    let mut i: usize = 0;
    while i < peers.len()
        invariant
            i <= peers@.len(),
            src == peer_views(peers@),
            pred == (|p: PeerInfoView| p.config.public_key != k@),
            peer_views(r@) == src.take(i as int).filter(pred),
        decreases peers@.len() - i,
    {
        proof {
            lemma_filter_step(src, i as int, pred);
        }
        if !(peers[i].config.public_key == *k) {
            let p = peers[i].duplicate();
            proof {
                lemma_peer_views_push(r@, p);
            }
            r.push(p);
        }
        i = i + 1;
    }
    assert(src.take(peers@.len() as int) =~= src);
    r
}

/// Whether some builder of `cs` is for the public key `k`.
fn is_mentioned(cs: &Vec<PeerConfigBuilder>, k: &Key) -> (r: bool)
    ensures
        r == mentions(change_views(cs@), k@),
{
    let mut i: usize = 0;
    while i < cs.len()
        invariant
            i <= cs@.len(),
            forall|j: int| 0 <= j < i ==> (#[trigger] cs@[j])@.public_key != k@,
        decreases cs@.len() - i,
    {
        if cs[i].public_key() == *k {
            assert(change_views(cs@)[i as int].public_key == k@);
            return true;
        }
        i = i + 1;
    }
    assert forall|j: int| 0 <= j < change_views(cs@).len() implies (
    #[trigger] change_views(cs@)[j]).public_key != k@ by {
        assert(cs@[j]@.public_key != k@);
    }
    false
}

/// The peers of `peers` that some builder of `cs` is for, in order.
fn mentioned_peers(peers: &Vec<PeerInfo>, cs: &Vec<PeerConfigBuilder>) -> (r: Vec<PeerInfo>)
    ensures
        peer_views(r@) == peer_views(peers@).filter(
            |p: PeerInfoView| mentions(change_views(cs@), p.config.public_key),
        ),
{
    let ghost src = peer_views(peers@);
    let ghost pred = |p: PeerInfoView| mentions(change_views(cs@), p.config.public_key);
    let mut r: Vec<PeerInfo> = Vec::new();
    let mut i: usize = 0;
    while i < peers.len()
        invariant
            i <= peers@.len(),
            src == peer_views(peers@),
            pred == (|p: PeerInfoView| mentions(change_views(cs@), p.config.public_key)),
            peer_views(r@) == src.take(i as int).filter(pred),
        decreases peers@.len() - i,
    {
        proof {
            lemma_filter_step(src, i as int, pred);
        }
        if is_mentioned(cs, &peers[i].config.public_key) {
            let p = peers[i].duplicate();
            proof {
                lemma_peer_views_push(r@, p);
            }
            r.push(p);
        }
        i = i + 1;
    }
    assert(src.take(peers@.len() as int) =~= src);
    r
}

/// The peers after the change `c`.
fn apply_change(peers: &Vec<PeerInfo>, c: &PeerConfigBuilder) -> (r: Vec<PeerInfo>)
    ensures
        peer_views(r@) == peers_after_change(peer_views(peers@), c@),
{
    let key = c.public_key();
    if c.removes() {
        return without_key(peers, &key);
    }
    let ghost src = peer_views(peers@);
    let ghost f = |p: PeerInfoView| peer_after(p, c@);
    let mut r: Vec<PeerInfo> = Vec::new();
    let mut found = false;
    let mut i: usize = 0;
    while i < peers.len()
        invariant
            i <= peers@.len(),
            src == peer_views(peers@),
            key@ == c@.public_key,
            f == (|p: PeerInfoView| peer_after(p, c@)),
            peer_views(r@) =~= src.take(i as int).map_values(f),
            found == has_peer(src.take(i as int), key@),
        decreases peers@.len() - i,
    {
        let p = if peers[i].config.public_key == key {
            found = true;
            merge_peer(&peers[i], c)
        } else {
            peers[i].duplicate()
        };
        proof {
            lemma_peer_views_push(r@, p);
            assert(src.take(i + 1).map_values(f) =~= src.take(i as int).map_values(f).push(
                f(src[i as int]),
            ));
            assert(src.take(i + 1) =~= src.take(i as int).push(src[i as int]));
            if has_peer(src.take(i as int), key@) {
                let j = choose|j: int|
                    0 <= j < i && (#[trigger] src.take(i as int)[j]).config.public_key == key@;
                assert(src.take(i + 1)[j] == src.take(i as int)[j]);
            }
            if has_peer(src.take(i + 1), key@) && !has_peer(src.take(i as int), key@) {
                let j = choose|j: int|
                    0 <= j < i + 1 && (#[trigger] src.take(i + 1)[j]).config.public_key == key@;
                if j < i {
                    assert(src.take(i as int)[j] == src.take(i + 1)[j]);
                }
            }
            if src[i as int].config.public_key == key@ {
                assert(src.take(i + 1)[i as int] == src[i as int]);
            }
        }
        r.push(p);
        i = i + 1;
    }
    assert(src.take(peers@.len() as int) =~= src);
    if found {
        r
    } else {
        assert(src.map_values(f) =~= src);
        let fresh = make_peer(c);
        proof {
            lemma_peer_views_push(r@, fresh);
        }
        r.push(fresh);
        r
    }
}

impl DeviceUpdate {
    /// The snapshot that an interface in the state `device` reaches when this
    /// update is applied to it: the rules that every backend follows. A listen
    /// port of 0 here stands for the port the system chooses; a read of a real
    /// interface gives the port it chose.
    pub fn applied_to(&self, device: &Device) -> (r: Device)
        ensures
            r@ == applied(device@, self@),
    {
        let mut peers = if self.replace_peers {
            mentioned_peers(&device.peers, &self.peers)
        } else {
            let mut v: Vec<PeerInfo> = Vec::new();
            let mut i: usize = 0;
            while i < device.peers.len()
                invariant
                    i <= device.peers@.len(),
                    peer_views(v@) =~= peer_views(device.peers@).take(i as int),
                decreases device.peers@.len() - i,
            {
                let p = device.peers[i].duplicate();
                proof {
                    lemma_peer_views_push(v@, p);
                }
                v.push(p);
                i = i + 1;
            }
            v
        };
        let ghost start = kept_peers(device@.peers, self@);
        let mut i: usize = 0;
        while i < self.peers.len()
            invariant
                i <= self.peers@.len(),
                start == kept_peers(device@.peers, self@),
                peer_views(peers@) == peers_after_changes(
                    start,
                    change_views(self.peers@).take(i as int),
                ),
            decreases self.peers@.len() - i,
        {
            let ghost cs = change_views(self.peers@);
            assert(cs.take(i + 1).drop_last() =~= cs.take(i as int));
            assert(cs.take(i + 1).last() == self.peers@[i as int]@);
            peers = apply_change(&peers, &self.peers[i]);
            i = i + 1;
        }
        assert(change_views(self.peers@).take(self.peers@.len() as int) =~= change_views(
            self.peers@,
        ));
        let fwmark = match self.fwmark {
            None => device.fwmark,
            Some(m) => if m == 0 {
                None
            } else {
                Some(m)
            },
        };
        let listen_port = match self.listen_port {
            None => device.listen_port,
            Some(p) => Some(p),
        };
        let linked_name = match &device.linked_name {
            None => None,
            Some(n) => Some(n.clone()),
        };
        Device {
            name: device.name,
            public_key: key_field_after(self.public_key, device.public_key),
            private_key: key_field_after(self.private_key, device.private_key),
            fwmark,
            listen_port,
            peers,
            linked_name,
            backend: device.backend,
            sealed: Sealed,
        }
    }
}

impl Default for DeviceUpdate {
    fn default() -> (r: DeviceUpdate)
        ensures
            r@ == empty_update(),
    {
        DeviceUpdate::new()
    }
}

} // verus!
