use wireguard_uapi::addr::{AllowedIp, Endpoint, IpAddress};
use wireguard_uapi::config::PeerConfigBuilder;
use wireguard_uapi::device::{Backend, Device, DeviceUpdate, PeerInfo};
use wireguard_uapi::elapsed::Elapsed;
use wireguard_uapi::key::{Key, KeyPair};
use wireguard_uapi::name::InterfaceName;

fn key(b: u8) -> Key {
    Key::from_bytes([b; 32])
}

fn iface() -> Device {
    let name: InterfaceName = "wg-test".parse().unwrap();
    Device::created(name, Backend::Userspace)
}

fn keys(d: &Device) -> Vec<Key> {
    d.peers.iter().map(|p: &PeerInfo| p.config.public_key).collect()
}

fn v4(a: u8, b: u8, c: u8, d: u8) -> IpAddress {
    IpAddress::V4(u32::from_be_bytes([a, b, c, d]))
}

/// An interface with keys, fwmark, port and the peers 1 and 2.
fn configured() -> Device {
    let ep = Endpoint::new(v4(10, 0, 0, 1), 51820);
    DeviceUpdate::new()
        .set_keypair(KeyPair::from_keys(key(7), key(8)))
        .set_fwmark(42)
        .set_listen_port(51820)
        .add_peer_with(&key(1), |p| p.set_endpoint(ep).add_allowed_ip(v4(10, 0, 0, 2), 32))
        .add_peer(PeerConfigBuilder::new(&key(2)).set_persistent_keepalive_interval(25))
        .applied_to(&iface())
}

#[test]
fn created_interface_is_blank() {
    let d = iface();
    assert_eq!(d.name.as_str_lossy(), "wg-test");
    assert_eq!(d.public_key, None);
    assert_eq!(d.private_key, None);
    assert_eq!(d.fwmark, None);
    assert_eq!(d.listen_port, None);
    assert!(d.peers.is_empty());
    assert_eq!(d.backend, Backend::Userspace);
}

#[test]
fn fresh_update_changes_nothing() {
    let before = configured();
    let after = DeviceUpdate::new().applied_to(&before);
    assert_eq!(after.public_key, before.public_key);
    assert_eq!(after.private_key, before.private_key);
    assert_eq!(after.fwmark, before.fwmark);
    assert_eq!(after.listen_port, before.listen_port);
    assert_eq!(keys(&after), keys(&before));
    assert_eq!(after.peers[0].config.endpoint, before.peers[0].config.endpoint);
    assert_eq!(after.peers[0].config.allowed_ips, before.peers[0].config.allowed_ips);
    let d2 = DeviceUpdate::default().applied_to(&before);
    assert_eq!(keys(&d2), keys(&before));
}

#[test]
fn fields_are_set() {
    let d = configured();
    assert_eq!(d.public_key, Some(key(7)));
    assert_eq!(d.private_key, Some(key(8)));
    assert_eq!(d.fwmark, Some(42));
    assert_eq!(d.listen_port, Some(51820));
}

#[test]
fn unset_public_key_clears_it() {
    let before = configured();
    assert_eq!(before.public_key, Some(key(7)));
    let after = DeviceUpdate::new().unset_public_key().applied_to(&before);
    assert_eq!(after.public_key, None);
    assert_eq!(after.private_key, Some(key(8)));
}

#[test]
fn unset_private_key_and_fwmark_clear_them() {
    let after = DeviceUpdate::new()
        .unset_private_key()
        .unset_fwmark()
        .applied_to(&configured());
    assert_eq!(after.private_key, None);
    assert_eq!(after.fwmark, None);
    assert_eq!(after.public_key, Some(key(7)));
}

#[test]
fn randomize_listen_port_asks_for_port_zero() {
    let after = DeviceUpdate::new().randomize_listen_port().applied_to(&configured());
    assert_eq!(after.listen_port, Some(0));
    let again = DeviceUpdate::new().set_listen_port(1).applied_to(&after);
    assert_eq!(again.listen_port, Some(1));
}

#[test]
fn remove_peer_by_key_removes_it() {
    let before = configured();
    assert_eq!(keys(&before), vec![key(1), key(2)]);
    let after = DeviceUpdate::new().remove_peer_by_key(&key(1)).applied_to(&before);
    assert_eq!(keys(&after), vec![key(2)]);
    let empty = DeviceUpdate::new().remove_peer_by_key(&key(9)).applied_to(&iface());
    assert!(empty.peers.is_empty());
    let none_left = DeviceUpdate::new()
        .remove_peer_by_key(&key(2))
        .applied_to(&after);
    assert!(none_left.peers.is_empty());
}

#[test]
fn remove_after_add_in_one_update() {
    let after = DeviceUpdate::new()
        .add_peer(PeerConfigBuilder::new(&key(3)))
        .remove_peer_by_key(&key(3))
        .applied_to(&configured());
    assert_eq!(keys(&after), vec![key(1), key(2)]);
}

#[test]
fn replace_peers_keeps_only_those_mentioned() {
    let before = configured();
    let after = DeviceUpdate::new()
        .replace_peers()
        .add_peer_with(&key(1), |p| p.set_persistent_keepalive_interval(10))
        .applied_to(&before);
    assert_eq!(keys(&after), vec![key(1)]);
    assert_eq!(after.peers[0].config.persistent_keepalive_interval, Some(10));
    assert_eq!(after.peers[0].config.endpoint, before.peers[0].config.endpoint);
}

#[test]
fn replace_peers_with_none_removes_all() {
    let after = DeviceUpdate::new().replace_peers().applied_to(&configured());
    assert!(after.peers.is_empty());
    assert_eq!(after.public_key, Some(key(7)));
}

#[test]
fn merge_keeps_unmentioned_peers() {
    let after = DeviceUpdate::new()
        .add_peer(PeerConfigBuilder::new(&key(3)))
        .applied_to(&configured());
    assert_eq!(keys(&after), vec![key(1), key(2), key(3)]);
}

#[test]
fn two_add_peer_with_appear_in_order() {
    let e1 = Endpoint::new(v4(1, 1, 1, 1), 1);
    let e2 = Endpoint::new(IpAddress::V6(1), 2);
    let d = DeviceUpdate::new()
        .add_peer_with(&key(5), |p| p.set_endpoint(e1))
        .add_peer_with(&key(4), |p| p.set_endpoint(e2).set_persistent_keepalive_interval(5))
        .applied_to(&iface());
    assert_eq!(keys(&d), vec![key(5), key(4)]);
    assert_eq!(d.peers[0].config.endpoint, Some(e1));
    assert_eq!(d.peers[0].config.persistent_keepalive_interval, None);
    assert_eq!(d.peers[1].config.endpoint, Some(e2));
    assert_eq!(d.peers[1].config.persistent_keepalive_interval, Some(5));
    assert_eq!(d.peers[1].stats.rx_bytes, 0);
    assert_eq!(d.peers[1].stats.last_handshake_time, None);
}

#[test]
fn allowed_ips_append_or_replace() {
    let before = configured();
    let appended = DeviceUpdate::new()
        .add_peer_with(&key(1), |p| p.add_allowed_ip(v4(10, 0, 1, 0), 24))
        .applied_to(&before);
    assert_eq!(
        appended.peers[0].config.allowed_ips,
        vec![
            AllowedIp::new(v4(10, 0, 0, 2), 32),
            AllowedIp::new(v4(10, 0, 1, 0), 24)
        ]
    );
    let replaced = DeviceUpdate::new()
        .add_peer_with(&key(1), |p| p.replace_allowed_ips().allow_all_ips())
        .applied_to(&before);
    assert_eq!(
        replaced.peers[0].config.allowed_ips,
        vec![
            AllowedIp::new(IpAddress::V4(0), 0),
            AllowedIp::new(IpAddress::V6(0), 0)
        ]
    );
}

#[test]
fn out_of_range_cidr_is_kept() {
    let d = DeviceUpdate::new()
        .add_peer_with(&key(1), |p| p.add_allowed_ips(&[AllowedIp::new(v4(1, 2, 3, 4), 200)]))
        .applied_to(&iface());
    assert_eq!(d.peers[0].config.allowed_ips[0].cidr, 200);
}

#[test]
fn preshared_key_and_keepalive_clear() {
    let with = DeviceUpdate::new()
        .add_peer_with(&key(1), |p| p.set_preshared_key(key(9)))
        .applied_to(&configured());
    assert_eq!(with.peers[0].config.preshared_key, Some(key(9)));
    let cleared = DeviceUpdate::new()
        .add_peer_with(&key(1), |p| p.unset_preshared_key())
        .add_peer_with(&key(2), |p| p.unset_persistent_keepalive())
        .applied_to(&with);
    assert_eq!(cleared.peers[0].config.preshared_key, None);
    assert_eq!(cleared.peers[1].config.persistent_keepalive_interval, None);
}

#[test]
fn add_peers_appends_copies_in_order() {
    let list = [PeerConfigBuilder::new(&key(3)), PeerConfigBuilder::new(&key(4)).remove()];
    let d = DeviceUpdate::new()
        .add_peers(&list)
        .applied_to(&configured());
    assert_eq!(keys(&d), vec![key(1), key(2), key(3)]);
}

#[test]
fn builder_getters() {
    let b = PeerConfigBuilder::new(&key(1))
        .set_preshared_key(key(2))
        .set_persistent_keepalive_interval(3)
        .replace_allowed_ips();
    assert_eq!(b.public_key(), key(1));
    assert_eq!(b.preshared_key(), Some(key(2)));
    assert_eq!(b.persistent_keepalive_interval(), Some(3));
    assert!(b.replaces_allowed_ips());
    assert!(!b.removes());
    assert_eq!(b.endpoint(), None);
    assert!(b.allowed_ips().is_empty());
    let c = b.duplicate();
    assert_eq!(c.public_key(), key(1));
}

#[test]
fn zero_key_is_the_sentinel() {
    assert!(Key::zero().is_zero());
    assert!(!key(1).is_zero());
    assert_eq!(Key::zero().as_bytes(), [0u8; 32]);
    assert_ne!(key(1), key(2));
}

#[test]
fn elapsed_split() {
    let e = Elapsed::from_secs(100_000);
    assert_eq!((e.years, e.months, e.days, e.hours, e.minutes, e.seconds), (0, 0, 1, 3, 46, 40));
    let e = Elapsed::from_secs(31_536_000 + 2_628_000 + 86_400 + 3_600 + 60 + 1);
    assert_eq!((e.years, e.months, e.days, e.hours, e.minutes, e.seconds), (1, 1, 1, 1, 1, 1));
    let e = Elapsed::from_secs(0);
    assert_eq!(e, Elapsed { years: 0, months: 0, days: 0, hours: 0, minutes: 0, seconds: 0 });
    let e = Elapsed::from_secs(u64::MAX);
    assert_eq!(e.years, u64::MAX / 31_536_000);
}
