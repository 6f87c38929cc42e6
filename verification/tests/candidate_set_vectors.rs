use chrono::{DateTime, Duration, TimeZone, Utc};

use zebra_core::chain::serialization::DateTime32;
use zebra_core::network::address_book::{AddressBook, MetaAddrChange};
use zebra_core::network::candidate_set::{validate_addrs, CandidateSet};
use zebra_core::network::constants::{MIN_PEER_GET_ADDR_INTERVAL_SECS, MIN_PEER_RECONNECTION_DELAY_SECS};
use zebra_core::network::meta_addr::{IpAddress, MetaAddr, PeerAddrState, PeerAddress};
use zebra_core::network::protocol::types::PeerServices;

fn to_chrono(time: DateTime32) -> DateTime<Utc> {
    Utc.timestamp_opt(i64::from(time.timestamp), 0).unwrap()
}

fn from_chrono(time: DateTime<Utc>) -> DateTime32 {
    DateTime32 {
        timestamp: u32::try_from(time.timestamp()).expect("`last_seen` time doesn't fit in a `DateTime32`"),
    }
}

/// Create a mock list of gossiped [`MetaAddr`]s with the specified `last_seen_times`.
///
/// The IP address and port of the generated ports should not matter for the test.
fn mock_gossiped_peers(last_seen_times: Vec<DateTime<Utc>>) -> Vec<MetaAddr> {
    last_seen_times
        .into_iter()
        .enumerate()
        .map(|(index, last_seen_chrono)| {
            let last_seen = from_chrono(last_seen_chrono);

            MetaAddr::new_gossiped_meta_addr(
                PeerAddress { ip: IpAddress::V4(u32::from_be_bytes([192, 168, 1, index as u8])), port: 20_000 },
                PeerServices::node_network(),
                last_seen,
            )
        })
        .collect()
}

/// Test that offset is applied when all addresses have `last_seen` times in the future.
#[test]
fn offsets_last_seen_times_in_the_future() {
    let last_seen_limit = DateTime32::now();
    let last_seen_limit_chrono = to_chrono(last_seen_limit);

    let input_peers = mock_gossiped_peers(vec![
        last_seen_limit_chrono + Duration::minutes(30),
        last_seen_limit_chrono + Duration::minutes(15),
        last_seen_limit_chrono + Duration::minutes(45),
    ]);

    let validated_peers: Vec<_> = validate_addrs(input_peers, last_seen_limit);

    let expected_offset = Duration::minutes(45);
    let expected_peers = mock_gossiped_peers(vec![
        last_seen_limit_chrono + Duration::minutes(30) - expected_offset,
        last_seen_limit_chrono + Duration::minutes(15) - expected_offset,
        last_seen_limit_chrono + Duration::minutes(45) - expected_offset,
    ]);

    assert_eq!(validated_peers, expected_peers);
}

/// Test that offset is not applied if all addresses have `last_seen` times that are in the past.
#[test]
fn doesnt_offset_last_seen_times_in_the_past() {
    let last_seen_limit = DateTime32::now();
    let last_seen_limit_chrono = to_chrono(last_seen_limit);

    let input_peers = mock_gossiped_peers(vec![
        last_seen_limit_chrono - Duration::minutes(30),
        last_seen_limit_chrono - Duration::minutes(45),
        last_seen_limit_chrono - Duration::days(1),
    ]);

    let validated_peers: Vec<_> = validate_addrs(input_peers.clone(), last_seen_limit);

    let expected_peers = input_peers;

    assert_eq!(validated_peers, expected_peers);
}

/// Test that offset is applied to all the addresses if at least one has a `last_seen` time in the
/// future.
///
/// Times that are in the past should be changed as well.
#[test]
fn offsets_all_last_seen_times_if_one_is_in_the_future() {
    let last_seen_limit = DateTime32::now();
    let last_seen_limit_chrono = to_chrono(last_seen_limit);

    let input_peers = mock_gossiped_peers(vec![
        last_seen_limit_chrono + Duration::minutes(55),
        last_seen_limit_chrono - Duration::days(3),
        last_seen_limit_chrono - Duration::hours(2),
    ]);

    let validated_peers: Vec<_> = validate_addrs(input_peers, last_seen_limit);

    let expected_offset = Duration::minutes(55);
    let expected_peers = mock_gossiped_peers(vec![
        last_seen_limit_chrono + Duration::minutes(55) - expected_offset,
        last_seen_limit_chrono - Duration::days(3) - expected_offset,
        last_seen_limit_chrono - Duration::hours(2) - expected_offset,
    ]);

    assert_eq!(validated_peers, expected_peers);
}

/// Test that offset is not applied if the most recent `last_seen` time is equal to the limit.
#[test]
fn doesnt_offsets_if_most_recent_last_seen_times_is_exactly_the_limit() {
    let last_seen_limit = DateTime32::now();
    let last_seen_limit_chrono = to_chrono(last_seen_limit);

    let input_peers = mock_gossiped_peers(vec![
        last_seen_limit_chrono,
        last_seen_limit_chrono - Duration::minutes(3),
        last_seen_limit_chrono - Duration::hours(1),
    ]);

    let validated_peers: Vec<_> = validate_addrs(input_peers.clone(), last_seen_limit);

    let expected_peers = input_peers;

    assert_eq!(validated_peers, expected_peers);
}

/// Rejects all addresses if underflow occurs when applying the offset.
#[test]
fn rejects_all_addresses_if_applying_offset_causes_an_underflow() {
    let last_seen_limit = DateTime32::now();

    let input_peers = mock_gossiped_peers(vec![
        to_chrono(DateTime32 { timestamp: u32::MIN }),
        to_chrono(last_seen_limit),
        to_chrono(DateTime32 { timestamp: u32::MAX }),
    ]);

    let validated_peers = validate_addrs(input_peers, last_seen_limit);

    assert!(validated_peers.into_iter().next().is_none());
}

/// No validated address was last seen after the limit, whatever the batch and the limit are.
#[test]
fn no_last_seen_times_are_in_the_future() {
    let times: [u32; 7] = [0, 1, 1_000, 1_600_000_000, 1_600_003_600, u32::MAX - 1, u32::MAX];
    for limit in times {
        for a in times {
            for b in times {
                let batch = vec![
                    MetaAddr::new_gossiped_meta_addr(
                        PeerAddress { ip: IpAddress::V4(1), port: 1 },
                        PeerServices::node_network(),
                        DateTime32 { timestamp: a },
                    ),
                    MetaAddr::new_gossiped_meta_addr(
                        PeerAddress { ip: IpAddress::V4(2), port: 2 },
                        PeerServices::node_network(),
                        DateTime32 { timestamp: b },
                    ),
                ];
                let newest = a.max(b);
                let oldest = a.min(b);
                let validated = validate_addrs(batch, DateTime32 { timestamp: limit });
                for peer in &validated {
                    assert!(peer.untrusted_last_seen.unwrap().timestamp <= limit);
                }
                if newest > limit && oldest < newest - limit {
                    assert!(validated.is_empty());
                } else if newest > limit {
                    let offset = newest - limit;
                    assert_eq!(validated.len(), 2);
                    assert_eq!(validated[0].untrusted_last_seen.unwrap().timestamp, a - offset);
                    assert_eq!(validated[1].untrusted_last_seen.unwrap().timestamp, b - offset);
                } else {
                    assert_eq!(validated.len(), 2);
                    assert_eq!(validated[0].untrusted_last_seen.unwrap().timestamp, a);
                    assert_eq!(validated[1].untrusted_last_seen.unwrap().timestamp, b);
                }
            }
        }
    }
}

#[test]
fn entries_without_a_time_are_dropped_from_a_batch() {
    let undated = MetaAddr::new_alternate(
        &PeerAddress { ip: IpAddress::V4(7), port: 7 },
        &PeerServices::node_network(),
    );
    let dated = MetaAddr::new_gossiped_meta_addr(
        PeerAddress { ip: IpAddress::V4(8), port: 8 },
        PeerServices::node_network(),
        DateTime32 { timestamp: 50 },
    );
    assert_eq!(validate_addrs(vec![undated, dated], DateTime32 { timestamp: 100 }), vec![dated]);
    assert_eq!(validate_addrs(vec![], DateTime32 { timestamp: 100 }), vec![]);
}

fn addr(n: u32) -> PeerAddress {
    PeerAddress { ip: IpAddress::V4(n), port: 8233 }
}

/// A peer cannot put its addresses before all others by saying that they were seen in the future.
#[test]
fn gossiped_times_in_the_future_get_no_precedence() {
    let now = DateTime32 { timestamp: 1_700_000_000 };
    let mut candidates = CandidateSet::new(AddressBook::new());
    let honest = vec![
        MetaAddr::new_gossiped_meta_addr(addr(101), PeerServices::node_network(), DateTime32 { timestamp: now.timestamp - 15 * 60 }),
        MetaAddr::new_gossiped_meta_addr(addr(102), PeerServices::node_network(), DateTime32 { timestamp: now.timestamp - 45 * 60 }),
    ];
    let malicious = vec![
        MetaAddr::new_gossiped_meta_addr(addr(201), PeerServices::node_network(), DateTime32 { timestamp: now.timestamp + 30 * 60 }),
        MetaAddr::new_gossiped_meta_addr(addr(202), PeerServices::node_network(), DateTime32 { timestamp: now.timestamp + 60 * 60 }),
    ];
    candidates.take_response(malicious, now);
    candidates.take_response(honest, now);
    let book = candidates.peers();
    assert_eq!(book.len(), 4);
    for entry in &book {
        assert!(entry.untrusted_last_seen.unwrap().timestamp <= now.timestamp);
    }
    // The times of the malicious batch were moved back by an hour.
    assert_eq!(book[0].untrusted_last_seen.unwrap().timestamp, now.timestamp - 30 * 60);
    assert_eq!(book[1].untrusted_last_seen.unwrap().timestamp, now.timestamp);

    let first = candidates.next_at(now).unwrap();
    let second = candidates.next_at(now).unwrap();
    let third = candidates.next_at(now).unwrap();
    assert_eq!(first.addr, addr(202));
    assert_eq!(second.addr, addr(101));
    assert_eq!(third.addr, addr(201));
}

#[test]
fn next_candidate_follows_priority_and_cooldown() {
    let now = DateTime32 { timestamp: 1_000_000 };
    let mut book = AddressBook::new();
    book.update_at(MetaAddrChange::UpdateFailed { addr: addr(1) }, DateTime32 { timestamp: 10 });
    book.update_at(
        MetaAddrChange::NewGossiped {
            addr: addr(2),
            untrusted_services: PeerServices::node_network(),
            untrusted_last_seen: DateTime32 { timestamp: 500 },
        },
        now,
    );
    book.update_at(
        MetaAddrChange::UpdateResponded { addr: addr(3), services: PeerServices::node_network() },
        DateTime32 { timestamp: now.timestamp - MIN_PEER_RECONNECTION_DELAY_SECS },
    );
    book.update_at(
        MetaAddrChange::UpdateResponded { addr: addr(4), services: PeerServices::node_network() },
        DateTime32 { timestamp: now.timestamp - MIN_PEER_RECONNECTION_DELAY_SECS + 1 },
    );
    let mut candidates = CandidateSet::new(book);

    // The peer that answered and whose last attempt is old enough comes first.
    let first = candidates.next_at(now).unwrap();
    assert_eq!(first.addr, addr(3));
    assert_eq!(first.last_connection_state, PeerAddrState::Responded);
    let marked = candidates.peers()[2];
    assert_eq!(marked.last_connection_state, PeerAddrState::AttemptPending);
    assert_eq!(marked.last_attempt, Some(now));
    // Then the address that was never tried, then the one that failed.
    assert_eq!(candidates.next_at(now).unwrap().addr, addr(2));
    assert_eq!(candidates.next_at(now).unwrap().addr, addr(1));
    // The fourth peer was tried too short a time ago, and the others are under attempt.
    assert_eq!(candidates.next_at(now), None);
    let later = DateTime32 { timestamp: now.timestamp + 1 };
    assert_eq!(candidates.next_at(later).unwrap().addr, addr(4));
    assert_eq!(candidates.next_at(later), None);
}

#[test]
fn candidate_set_updates_are_rate_limited_by_the_clock_given() {
    let mut candidates = CandidateSet::new(AddressBook::new());
    let start = DateTime32 { timestamp: 5_000 };
    assert!(candidates.start_update(start));
    assert!(!candidates.start_update(start));
    assert!(!candidates.start_update(DateTime32 { timestamp: 5_000 + MIN_PEER_GET_ADDR_INTERVAL_SECS - 1 }));
    assert!(candidates.start_update(DateTime32 { timestamp: 5_000 + MIN_PEER_GET_ADDR_INTERVAL_SECS }));
    assert!(!candidates.start_update(DateTime32 { timestamp: 5_000 + MIN_PEER_GET_ADDR_INTERVAL_SECS + 1 }));
}

#[test]
fn address_book_keeps_what_the_node_has_seen_itself() {
    let mut book = AddressBook::new();
    let seen = DateTime32 { timestamp: 900 };
    let responded = book.update_at(
        MetaAddrChange::UpdateResponded { addr: addr(9), services: PeerServices::node_network() },
        seen,
    );
    assert_eq!(responded.last_response, Some(seen));
    assert_eq!(responded.last_attempt, Some(seen));
    // Gossip about an address that is known changes nothing.
    let gossiped = book.update_at(
        MetaAddrChange::NewGossiped {
            addr: addr(9),
            untrusted_services: PeerServices::empty(),
            untrusted_last_seen: DateTime32 { timestamp: 4_000_000 },
        },
        DateTime32 { timestamp: 1_000 },
    );
    assert_eq!(gossiped, responded);
    // A time is never replaced by an earlier one.
    let earlier = book.update_at(
        MetaAddrChange::UpdateResponded { addr: addr(9), services: PeerServices::node_network() },
        DateTime32 { timestamp: 100 },
    );
    assert_eq!(earlier.last_response, Some(seen));
    let failed = book.update_at(MetaAddrChange::UpdateFailed { addr: addr(9) }, DateTime32 { timestamp: 950 });
    assert_eq!(failed.last_failure, Some(DateTime32 { timestamp: 950 }));
    assert_eq!(failed.last_connection_state, PeerAddrState::Failed);
    assert_eq!(book.len(), 1);
    assert_eq!(book.get(&addr(9)), Some(failed));
    assert_eq!(book.get(&addr(10)), None);
}

#[test]
fn gossip_holds_the_active_peers_sanitized() {
    let now = DateTime32 { timestamp: 2_000_000 };
    let mut book = AddressBook::new();
    // Seen by others a minute ago.
    book.update_at(
        MetaAddrChange::NewGossiped {
            addr: addr(1),
            untrusted_services: PeerServices::node_network(),
            untrusted_last_seen: DateTime32 { timestamp: now.timestamp - 60 },
        },
        now,
    );
    // Never seen.
    book.update_at(MetaAddrChange::NewAlternate { addr: addr(2), untrusted_services: PeerServices::node_network() }, now);
    // Seen by others four days ago.
    book.update_at(
        MetaAddrChange::NewGossiped {
            addr: addr(3),
            untrusted_services: PeerServices::node_network(),
            untrusted_last_seen: DateTime32 { timestamp: now.timestamp - 4 * 24 * 60 * 60 },
        },
        now,
    );
    // Has answered us an hour ago, and failed since.
    let answered = DateTime32 { timestamp: now.timestamp - 60 * 60 };
    book.update_at(MetaAddrChange::UpdateResponded { addr: addr(4), services: PeerServices::node_network() }, answered);
    book.update_at(MetaAddrChange::UpdateFailed { addr: addr(4) }, now);

    let sent = book.sanitized_at(now);
    assert_eq!(
        sent,
        vec![
            MetaAddr::new_gossiped_meta_addr(addr(1), PeerServices::node_network(), DateTime32 { timestamp: now.timestamp - 60 }),
            MetaAddr::new_gossiped_meta_addr(addr(4), PeerServices::node_network(), answered),
        ]
    );
}
