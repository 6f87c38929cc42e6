use zebra_core::chain::serialization::DateTime32;
use zebra_core::network::constants::{MAX_PEER_ACTIVE_FOR_GOSSIP_SECS, REACHABLE_PEER_DURATION_SECS};
use zebra_core::network::meta_addr::{IpAddress, MetaAddr, PeerAddrState, PeerAddress};
use zebra_core::network::protocol::types::PeerServices;

/// Reads an IPv4 socket address of the form `a.b.c.d:port`.
fn parse_addr(text: &str) -> Option<PeerAddress> {
    let (ip, port) = text.split_once(':')?;
    let mut bits: u32 = 0;
    let mut parts = 0;
    for part in ip.split('.') {
        bits = (bits << 8) | u32::from(part.parse::<u8>().ok()?);
        parts += 1;
    }
    if parts != 4 {
        return None;
    }
    Some(PeerAddress { ip: IpAddress::V4(bits), port: port.parse().ok()? })
}

/// Checks that a sanitized entry tells nothing of our own connections, and no
/// time outside of what the wire can hold or after `now`.
fn sanitize_avoids_leaks(original: &MetaAddr, sanitized: &MetaAddr, now: DateTime32) {
    if let Some(sanitized_last_seen) = sanitized.last_seen() {
        assert!(sanitized_last_seen <= now);
    }
    assert_eq!(sanitized.addr, original.addr);
    assert_eq!(sanitized.services, original.services);
    assert_eq!(sanitized.last_response, None);
    assert_eq!(sanitized.last_attempt, None);
    assert_eq!(sanitized.last_failure, None);
    assert_eq!(sanitized.last_connection_state, PeerAddrState::NeverAttempted);
}

/// Make sure that the sanitize function handles minimum and maximum times.
#[test]
fn sanitize_extremes() {
    let min_time_entry = MetaAddr {
        addr: parse_addr("127.0.0.1:8233").unwrap(),
        services: Default::default(),
        untrusted_last_seen: Some(DateTime32 { timestamp: u32::MIN }),
        last_response: Some(DateTime32 { timestamp: u32::MIN }),
        last_attempt: None,
        last_failure: None,
        last_connection_state: Default::default(),
    };

    let max_time_entry = MetaAddr {
        addr: parse_addr("127.0.0.1:8233").unwrap(),
        services: Default::default(),
        untrusted_last_seen: Some(DateTime32 { timestamp: u32::MAX }),
        last_response: Some(DateTime32 { timestamp: u32::MAX }),
        last_attempt: None,
        last_failure: None,
        last_connection_state: Default::default(),
    };

    let after = DateTime32 { timestamp: u32::MAX };
    if let Some(min_sanitized) = min_time_entry.sanitize() {
        sanitize_avoids_leaks(&min_time_entry, &min_sanitized, after);
    }
    if let Some(max_sanitized) = max_time_entry.sanitize() {
        sanitize_avoids_leaks(&max_time_entry, &max_sanitized, after);
    }

    // Both entries are sent on, at any time.
    let now = DateTime32 { timestamp: 1_000 };
    let min_sanitized = min_time_entry.sanitize_at(now).unwrap();
    sanitize_avoids_leaks(&min_time_entry, &min_sanitized, now);
    assert_eq!(min_sanitized.untrusted_last_seen, Some(DateTime32 { timestamp: 0 }));
    let max_sanitized = max_time_entry.sanitize_at(now).unwrap();
    sanitize_avoids_leaks(&max_time_entry, &max_sanitized, now);
    assert_eq!(max_sanitized.untrusted_last_seen, Some(now));
    assert!(min_time_entry.sanitize_at(DateTime32 { timestamp: 0 }).is_some());
    assert!(max_time_entry.sanitize_at(DateTime32 { timestamp: u32::MAX }).is_some());
}

/// Test if a newly created local listening address is recently reachable.
///
/// The local listener [`MetaAddr`] is always considered reachable.
#[test]
fn new_local_listener_is_not_recently_reachable() {
    let address = PeerAddress { ip: IpAddress::V4(u32::from_be_bytes([192, 168, 180, 9])), port: 10_000 };
    let peer = MetaAddr::new_local_listener(&address);

    assert!(peer.was_recently_reachable());
}

/// Test if a recently received alternate peer address is not recently reachable.
///
/// Such [`MetaAddr`] is only considered reachable after Zebra has tried to connect to it and
/// confirmed that the address is reachable.
#[test]
fn new_alternate_peer_address_is_not_recently_reachable() {
    let address = PeerAddress { ip: IpAddress::V4(u32::from_be_bytes([192, 168, 180, 9])), port: 10_000 };
    let peer = MetaAddr::new_alternate(&address, &PeerServices::node_network());

    assert!(!peer.was_recently_reachable());
}

#[test]
fn an_entry_that_was_never_seen_is_not_gossiped() {
    let address = parse_addr("10.0.0.1:8233").unwrap();
    let peer = MetaAddr::new_alternate(&address, &PeerServices::node_network());
    assert_eq!(peer.sanitize_at(DateTime32 { timestamp: 500 }), None);
    assert_eq!(peer.sanitize(), None);
}

#[test]
fn gossiped_only_entries_are_not_recently_reachable() {
    let address = parse_addr("10.0.0.2:8233").unwrap();
    let now = DateTime32 { timestamp: 1_000_000 };
    let gossiped = MetaAddr::new_gossiped_meta_addr(address, PeerServices::node_network(), now);
    assert!(!gossiped.was_recently_reachable_at(now));
    assert!(gossiped.is_active_for_gossip_at(now));
    let later = DateTime32 { timestamp: now.timestamp + MAX_PEER_ACTIVE_FOR_GOSSIP_SECS + 1 };
    assert!(!gossiped.is_active_for_gossip_at(later));
    let at_the_edge = DateTime32 { timestamp: now.timestamp + MAX_PEER_ACTIVE_FOR_GOSSIP_SECS };
    assert!(gossiped.is_active_for_gossip_at(at_the_edge));
}

#[test]
fn a_peer_that_answered_is_reachable_for_a_while() {
    let address = parse_addr("10.0.0.3:8233").unwrap();
    let answered = DateTime32 { timestamp: 2_000_000 };
    let peer = MetaAddr::new_responded_at(&address, &PeerServices::node_network(), answered);
    assert!(peer.was_recently_reachable_at(answered));
    let at_the_edge = DateTime32 { timestamp: answered.timestamp + REACHABLE_PEER_DURATION_SECS };
    assert!(peer.was_recently_reachable_at(at_the_edge));
    let too_late = DateTime32 { timestamp: answered.timestamp + REACHABLE_PEER_DURATION_SECS + 1 };
    assert!(!peer.was_recently_reachable_at(too_late));
    // What we have seen ourselves is sent on as the time at which the peer was last seen.
    let sent = peer.sanitize_at(too_late).unwrap();
    assert_eq!(sent.untrusted_last_seen, Some(answered));
}

#[test]
fn the_clock_is_narrowed_with_saturation() {
    assert_eq!(DateTime32::from_timestamp_saturating(-5).timestamp, 0);
    assert_eq!(DateTime32::from_timestamp_saturating(0).timestamp, 0);
    assert_eq!(DateTime32::from_timestamp_saturating(1_600_000_000).timestamp, 1_600_000_000);
    assert_eq!(DateTime32::from_timestamp_saturating(i64::from(u32::MAX)).timestamp, u32::MAX);
    assert_eq!(DateTime32::from_timestamp_saturating(i64::from(u32::MAX) + 1).timestamp, u32::MAX);
    assert_eq!(DateTime32::from_timestamp_saturating(i64::MAX).timestamp, u32::MAX);
    // The clock of this machine is set after the year 2020.
    assert!(DateTime32::now().timestamp > 1_577_836_800);
}
