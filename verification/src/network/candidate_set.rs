//! The addresses that the node may connect to next, and the check on the
//! addresses that peers tell us of.

use vstd::prelude::*;

use crate::chain::serialization::DateTime32;
use crate::network::address_book::{picked, updated, AddressBook, MetaAddrChange};
use crate::network::constants::MIN_PEER_GET_ADDR_INTERVAL_SECS;
use crate::network::meta_addr::MetaAddr;

verus! {

/// Whether another peer told us when the peer of `entry` was last seen.
pub open spec fn is_dated(entry: MetaAddr) -> bool {
    entry.untrusted_last_seen.is_some()
}

/// The entries of a batch that say when their peer was last seen.
pub open spec fn dated(peers: Seq<MetaAddr>) -> Seq<MetaAddr> {
    peers.filter(|entry: MetaAddr| is_dated(entry))
}

/// The latest time at which a peer of the batch was last seen, as the batch
/// says; the earliest time of all where the batch gives no time.
pub open spec fn newest_seen(peers: Seq<MetaAddr>) -> u32
    decreases peers.len(),
{
    if peers.len() == 0 {
        0
    } else {
        let before = newest_seen(peers.drop_last());
        match peers.last().untrusted_last_seen {
            Some(time) => if time.timestamp > before {
                time.timestamp
            } else {
                before
            },
            None => before,
        }
    }
}

/// The earliest time at which a peer of the batch was last seen, as the
/// batch says; the latest time of all where the batch gives no time.
pub open spec fn oldest_seen(peers: Seq<MetaAddr>) -> u32
    decreases peers.len(),
{
    if peers.len() == 0 {
        u32::MAX
    } else {
        let before = oldest_seen(peers.drop_last());
        match peers.last().untrusted_last_seen {
            Some(time) => if time.timestamp < before {
                time.timestamp
            } else {
                before
            },
            None => before,
        }
    }
}

/// `entry` with the time at which its peer was last seen moved back by `offset` seconds.
pub open spec fn moved_back(entry: MetaAddr, offset: u32) -> MetaAddr {
    match entry.untrusted_last_seen {
        Some(time) => MetaAddr {
            untrusted_last_seen: Some(DateTime32 { timestamp: (time.timestamp - offset) as u32 }),
            ..entry
        },
        None => entry,
    }
}

/// What is kept of a batch of addresses that a peer told us of, with
/// `limit` the latest time that is believed.
///
/// Only the entries that say when their peer was last seen are kept.  Where
/// the latest of their times is after `limit`, every time is moved back by
/// the difference, so that the latest time becomes `limit`.  If that would
/// move a time before the epoch, nothing of the batch is kept.
pub open spec fn validated(peers: Seq<MetaAddr>, limit: DateTime32) -> Seq<MetaAddr> {
    let newest = newest_seen(peers);
    if newest <= limit.timestamp {
        dated(peers)
    } else {
        let offset = (newest - limit.timestamp) as u32;
        if oldest_seen(peers) < offset {
            Seq::empty()
        } else {
            dated(peers).map_values(|entry: MetaAddr| moved_back(entry, offset))
        }
    }
}

/// Whether `entry` says that its peer was last seen at `limit` or before.
pub open spec fn seen_by(entry: MetaAddr, limit: DateTime32) -> bool {
    match entry.untrusted_last_seen {
        Some(time) => time.timestamp <= limit.timestamp,
        None => false,
    }
}

/// Every time of a batch lies between the oldest and the newest.
pub proof fn lemma_seen_bounds(peers: Seq<MetaAddr>, i: int)
    requires
        0 <= i < peers.len(),
        peers[i].untrusted_last_seen.is_some(),
    ensures
        oldest_seen(peers) <= peers[i].untrusted_last_seen.unwrap().timestamp <= newest_seen(peers),
    decreases peers.len(),
{
    if i < peers.len() - 1 {
        lemma_seen_bounds(peers.drop_last(), i);
    }
}

/// Every entry that is kept of a batch says when its peer was last seen, and
/// the time lies between the oldest and the newest of the batch.
pub proof fn lemma_dated(peers: Seq<MetaAddr>, k: int)
    requires
        0 <= k < dated(peers).len(),
    ensures
        dated(peers)[k].untrusted_last_seen.is_some(),
        oldest_seen(peers) <= dated(peers)[k].untrusted_last_seen.unwrap().timestamp <= newest_seen(peers),
{
    let keep = |entry: MetaAddr| is_dated(entry);
    peers.lemma_filter_pred(keep, k);
    assert(dated(peers).contains(dated(peers)[k]));
    peers.lemma_filter_contains_rev(keep, dated(peers)[k]);
    let i = choose|i: int| 0 <= i < peers.len() && peers[i] == dated(peers)[k];
    lemma_seen_bounds(peers, i);
}

/// No address that is kept of a batch was last seen after the limit.
///
/// Where the newest time of the batch is after the limit, what is kept is the
/// batch with every time moved back by the same number of seconds, the
/// difference between the newest time and the limit; and if one of the times
/// is smaller than that difference, nothing is kept.
pub proof fn law_validated_times_within_limit(peers: Seq<MetaAddr>, limit: DateTime32)
    ensures
        forall|k: int| 0 <= k < validated(peers, limit).len() ==> seen_by(#[trigger] validated(peers, limit)[k], limit),
        newest_seen(peers) > limit.timestamp && oldest_seen(peers) < newest_seen(peers) - limit.timestamp
            ==> validated(peers, limit) == Seq::<MetaAddr>::empty(),
        newest_seen(peers) > limit.timestamp && oldest_seen(peers) >= newest_seen(peers) - limit.timestamp ==> {
            &&& validated(peers, limit).len() == dated(peers).len()
            &&& forall|k: int|
                0 <= k < dated(peers).len() ==> (#[trigger] validated(peers, limit)[k]) == (MetaAddr {
                    untrusted_last_seen: Some(
                        DateTime32 {
                            timestamp: (dated(peers)[k].untrusted_last_seen.unwrap().timestamp - (newest_seen(peers)
                                - limit.timestamp)) as u32,
                        },
                    ),
                    ..dated(peers)[k]
                })
        },
        newest_seen(peers) <= limit.timestamp ==> validated(peers, limit) == dated(peers),
{
    assert forall|k: int| 0 <= k < validated(peers, limit).len() implies seen_by(
        #[trigger] validated(peers, limit)[k],
        limit,
    ) by {
        lemma_dated(peers, k);
    }
    if newest_seen(peers) > limit.timestamp && oldest_seen(peers) >= newest_seen(peers) - limit.timestamp {
        assert forall|k: int| 0 <= k < dated(peers).len() implies (#[trigger] validated(peers, limit)[k]) == (
        MetaAddr {
            untrusted_last_seen: Some(
                DateTime32 {
                    timestamp: (dated(peers)[k].untrusted_last_seen.unwrap().timestamp - (newest_seen(peers)
                        - limit.timestamp)) as u32,
                },
            ),
            ..dated(peers)[k]
        }) by {
            lemma_dated(peers, k);
        }
    }
}

/// Checks a batch of addresses that a peer told us of against
/// `last_seen_limit`, the latest time that is believed, and returns what is
/// kept of it.
///
/// A peer must not be able to put its addresses in front of all others by
/// saying that they were seen in the future.
pub fn validate_addrs(addrs: Vec<MetaAddr>, last_seen_limit: DateTime32) -> (kept: Vec<MetaAddr>)
    ensures
        kept@ == validated(addrs@, last_seen_limit),
{
    let ghost keep = |entry: MetaAddr| is_dated(entry);
    let mut newest: u32 = 0;
    let mut oldest: u32 = u32::MAX;
    let mut kept: Vec<MetaAddr> = Vec::new();
    let mut i: usize = 0;
    while i < addrs.len()
        invariant
            i <= addrs.len(),
            keep == (|entry: MetaAddr| is_dated(entry)),
            newest == newest_seen(addrs@.take(i as int)),
            oldest == oldest_seen(addrs@.take(i as int)),
            kept@ == addrs@.take(i as int).filter(keep),
        decreases addrs.len() - i,
    {
        proof {
            let next = addrs@.take(i + 1);
            assert(next.drop_last() =~= addrs@.take(i as int));
            assert(next.last() == addrs@[i as int]);
            reveal_with_fuel(Seq::filter, 2);
        }
        match addrs[i].untrusted_last_seen {
            Some(time) => {
                if time.timestamp > newest {
                    newest = time.timestamp;
                }
                if time.timestamp < oldest {
                    oldest = time.timestamp;
                }
                kept.push(addrs[i]);
            },
            None => {},
        }
        i += 1;
    }
    proof {
        assert(addrs@.take(addrs@.len() as int) =~= addrs@);
    }
    if newest <= last_seen_limit.timestamp {
        return kept;
    }
    let offset = newest - last_seen_limit.timestamp;
    if oldest < offset {
        return Vec::new();
    }
    let ghost before = kept@;
    let mut k: usize = 0;
    while k < kept.len()
        invariant
            k <= kept.len(),
            kept@.len() == before.len(),
            before == dated(addrs@),
            offset <= oldest_seen(addrs@),
            forall|j: int| 0 <= j < k ==> kept@[j] == moved_back(before[j], offset),
            forall|j: int| k <= j < kept@.len() ==> kept@[j] == before[j],
        decreases kept.len() - k,
    {
        proof {
            lemma_dated(addrs@, k as int);
        }
        let entry = kept[k];
        match entry.untrusted_last_seen {
            Some(time) => {
                let moved = MetaAddr {
                    addr: entry.addr,
                    services: entry.services,
                    untrusted_last_seen: Some(DateTime32 { timestamp: time.timestamp - offset }),
                    last_response: entry.last_response,
                    last_attempt: entry.last_attempt,
                    last_failure: entry.last_failure,
                    last_connection_state: entry.last_connection_state,
                };
                kept.set(k, moved);
            },
            None => {},
        }
        k += 1;
    }
    proof {
        assert(kept@ =~= before.map_values(|entry: MetaAddr| moved_back(entry, offset)));
    }
    kept
}

/// The change that a gossiped entry asks of the address book.
pub open spec fn gossiped_change(entry: MetaAddr) -> MetaAddrChange {
    match entry.untrusted_last_seen {
        Some(untrusted_last_seen) => MetaAddrChange::NewGossiped {
            addr: entry.addr,
            untrusted_services: entry.services,
            untrusted_last_seen,
        },
        None => MetaAddrChange::NewAlternate { addr: entry.addr, untrusted_services: entry.services },
    }
}

/// The address book after the entries of `batch` are taken in, one after another.
pub open spec fn merged(entries: Seq<MetaAddr>, batch: Seq<MetaAddr>, now: DateTime32) -> Seq<MetaAddr>
    decreases batch.len(),
{
    if batch.len() == 0 {
        entries
    } else {
        updated(merged(entries, batch.drop_last(), now), gossiped_change(batch.last()), now)
    }
}

/// Whether peers may be asked for addresses at `now`, when they were last
/// asked at `last_update`: not before `MIN_PEER_GET_ADDR_INTERVAL_SECS` have passed.
pub open spec fn update_due(last_update: Option<DateTime32>, now: DateTime32) -> bool {
    match last_update {
        Some(time) => time.timestamp + MIN_PEER_GET_ADDR_INTERVAL_SECS <= now.timestamp,
        None => true,
    }
}

/// The addresses that the node may connect to next.
pub struct CandidateSet {
    address_book: AddressBook,
    last_update: Option<DateTime32>,
}

impl CandidateSet {
    /// The entries of the address book.
    pub closed spec fn book(&self) -> Seq<MetaAddr> {
        self.address_book@
    }

    /// When peers were last asked for addresses.
    pub closed spec fn updated_at(&self) -> Option<DateTime32> {
        self.last_update
    }

    /// The candidate set over `address_book`.
    pub fn new(address_book: AddressBook) -> (candidates: Self)
        ensures
            candidates.book() == address_book@,
            candidates.updated_at().is_none(),
    {
        CandidateSet { address_book, last_update: None }
    }

    /// The entries of the address book.
    pub fn peers(&self) -> (entries: Vec<MetaAddr>)
        ensures
            entries@ == self.book(),
    {
        self.address_book.peers()
    }

    /// Says whether peers may be asked for addresses at `now`, and if so
    /// notes that they are.
    pub fn start_update(&mut self, now: DateTime32) -> (due: bool)
        ensures
            due == update_due(old(self).updated_at(), now),
            final(self).updated_at() == if due {
                Some(now)
            } else {
                old(self).updated_at()
            },
            final(self).book() == old(self).book(),
    {
        let due = match self.last_update {
            Some(time) => now.timestamp >= MIN_PEER_GET_ADDR_INTERVAL_SECS && time.timestamp <= now.timestamp
                - MIN_PEER_GET_ADDR_INTERVAL_SECS,
            None => true,
        };
        if due {
            self.last_update = Some(now);
        }
        due
    }

    /// Takes the addresses that one peer has answered with into the address
    /// book, at `now`.  The addresses are checked first: no address is taken
    /// as seen after `now`.
    pub fn take_response(&mut self, addrs: Vec<MetaAddr>, now: DateTime32)
        ensures
            final(self).book() == merged(old(self).book(), validated(addrs@, now), now),
            final(self).updated_at() == old(self).updated_at(),
    {
        let kept = validate_addrs(addrs, now);
        let mut k: usize = 0;
        while k < kept.len()
            invariant
                k <= kept.len(),
                self.book() == merged(old(self).book(), kept@.take(k as int), now),
                self.updated_at() == old(self).updated_at(),
            decreases kept.len() - k,
        {
            proof {
                let next = kept@.take(k + 1);
                assert(next.drop_last() =~= kept@.take(k as int));
                assert(next.last() == kept@[k as int]);
            }
            let entry = kept[k];
            let change = match entry.untrusted_last_seen {
                Some(untrusted_last_seen) => MetaAddrChange::NewGossiped {
                    addr: entry.addr,
                    untrusted_services: entry.services,
                    untrusted_last_seen,
                },
                None => MetaAddrChange::NewAlternate { addr: entry.addr, untrusted_services: entry.services },
            };
            let _ = self.address_book.update_at(change, now);
            k += 1;
        }
        proof {
            assert(kept@.take(kept@.len() as int) =~= kept@);
        }
    }

    /// Picks the address to which a connection is tried next at `now`: the
    /// first in the order of trying of those that may be tried.  The address
    /// is marked as under attempt.
    pub fn next_at(&mut self, now: DateTime32) -> (candidate: Option<MetaAddr>)
        ensures
            picked(old(self).book(), final(self).book(), candidate, now),
            final(self).updated_at() == old(self).updated_at(),
    {
        self.address_book.next_candidate_at(now)
    }

    /// Picks the address to which a connection is tried next, by the machine's clock.
    pub fn next(&mut self) -> (candidate: Option<MetaAddr>)
        ensures
            exists|now: DateTime32| #[trigger] picked(old(self).book(), final(self).book(), candidate, now),
            final(self).updated_at() == old(self).updated_at(),
    {
        let now = DateTime32::now();
        let candidate = self.address_book.next_candidate_at(now);
        assert(picked(old(self).book(), self.book(), candidate, now));
        candidate
    }
}

} // verus!
