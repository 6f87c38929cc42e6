//! The address book: what the node knows of the addresses of peers.

use vstd::prelude::*;

use crate::chain::serialization::DateTime32;
use crate::network::constants::MIN_PEER_RECONNECTION_DELAY_SECS;
use crate::network::meta_addr::{later_of, MetaAddr, PeerAddrState, PeerAddress};
use crate::network::protocol::types::{PeerServices, NODE_NETWORK_BIT};

verus! {

/// Something that the node has learned of an address.
#[derive(Clone, Copy, Debug, PartialEq, Eq, Hash, Structural)]
pub enum MetaAddrChange {
    /// Another peer told us of the address.
    NewGossiped { addr: PeerAddress, untrusted_services: PeerServices, untrusted_last_seen: DateTime32 },
    /// A peer gave the address as its own in a handshake.
    NewAlternate { addr: PeerAddress, untrusted_services: PeerServices },
    /// The node listens on the address itself.
    NewLocal { addr: PeerAddress },
    /// The node tries to connect to the address.
    UpdateAttempt { addr: PeerAddress },
    /// The peer at the address has answered.
    UpdateResponded { addr: PeerAddress, services: PeerServices },
    /// The connection to the address has failed.
    UpdateFailed { addr: PeerAddress },
}

impl MetaAddrChange {
    /// The address that the change is about.
    pub open spec fn spec_addr(self) -> PeerAddress {
        match self {
            MetaAddrChange::NewGossiped { addr, .. } => addr,
            MetaAddrChange::NewAlternate { addr, .. } => addr,
            MetaAddrChange::NewLocal { addr } => addr,
            MetaAddrChange::UpdateAttempt { addr } => addr,
            MetaAddrChange::UpdateResponded { addr, .. } => addr,
            MetaAddrChange::UpdateFailed { addr } => addr,
        }
    }

    /// The address that the change is about.
    pub fn addr(self) -> (addr: PeerAddress)
        ensures
            addr == self.spec_addr(),
    {
        match self {
            MetaAddrChange::NewGossiped { addr, .. } => addr,
            MetaAddrChange::NewAlternate { addr, .. } => addr,
            MetaAddrChange::NewLocal { addr } => addr,
            MetaAddrChange::UpdateAttempt { addr } => addr,
            MetaAddrChange::UpdateResponded { addr, .. } => addr,
            MetaAddrChange::UpdateFailed { addr } => addr,
        }
    }
}

/// An entry of which nothing is known but the address.
pub open spec fn blank(addr: PeerAddress) -> MetaAddr {
    MetaAddr {
        addr,
        services: PeerServices { bits: 0 },
        untrusted_last_seen: None,
        last_response: None,
        last_attempt: None,
        last_failure: None,
        last_connection_state: PeerAddrState::NeverAttempted,
    }
}

/// The entry for the address of `change` after the change, made at `now`.
///
/// What others say of an address makes an entry only where the book has
/// none: it never replaces what the node has seen itself.  What the node
/// sees of its own connections updates the entry; a time is only ever
/// replaced by a later one, and an answer counts as an attempt too.
pub open spec fn applied(previous: Option<MetaAddr>, change: MetaAddrChange, now: DateTime32) -> MetaAddr {
    let base = match previous {
        Some(entry) => entry,
        None => blank(change.spec_addr()),
    };
    match change {
        MetaAddrChange::NewGossiped { addr, untrusted_services, untrusted_last_seen } => match previous {
            Some(entry) => entry,
            None => MetaAddr {
                services: untrusted_services,
                untrusted_last_seen: Some(untrusted_last_seen),
                ..base
            },
        },
        MetaAddrChange::NewAlternate { addr, untrusted_services } => match previous {
            Some(entry) => entry,
            None => MetaAddr { services: untrusted_services, ..base },
        },
        MetaAddrChange::NewLocal { addr } => match previous {
            Some(entry) => entry,
            None => MetaAddr {
                services: PeerServices { bits: NODE_NETWORK_BIT },
                last_response: Some(now),
                last_attempt: Some(now),
                last_connection_state: PeerAddrState::Responded,
                ..base
            },
        },
        MetaAddrChange::UpdateAttempt { addr } => MetaAddr {
            last_attempt: Some(later_of(base.last_attempt, now)),
            last_connection_state: PeerAddrState::AttemptPending,
            ..base
        },
        MetaAddrChange::UpdateResponded { addr, services } => MetaAddr {
            services,
            last_response: Some(later_of(base.last_response, now)),
            last_attempt: Some(later_of(base.last_attempt, now)),
            last_connection_state: PeerAddrState::Responded,
            ..base
        },
        MetaAddrChange::UpdateFailed { addr } => MetaAddr {
            last_failure: Some(later_of(base.last_failure, now)),
            last_connection_state: PeerAddrState::Failed,
            ..base
        },
    }
}

/// The entry of `entries` for `addr`, if there is one.
pub open spec fn entry_of(entries: Seq<MetaAddr>, addr: PeerAddress) -> Option<MetaAddr>
    decreases entries.len(),
{
    if entries.len() == 0 {
        None
    } else if entries.last().addr == addr {
        Some(entries.last())
    } else {
        entry_of(entries.drop_last(), addr)
    }
}

/// Whether no two of `entries` are about the same address.
pub open spec fn distinct_addrs(entries: Seq<MetaAddr>) -> bool {
    forall|i: int, j: int| 0 <= i < j < entries.len() ==> (#[trigger] entries[i]).addr != (#[trigger] entries[j]).addr
}

/// The position of the entry of `entries` for `addr`, or the length of
/// `entries` if there is none.
pub open spec fn position_of(entries: Seq<MetaAddr>, addr: PeerAddress) -> int
    decreases entries.len(),
{
    if entries.len() == 0 {
        0
    } else if entries[0].addr == addr {
        0
    } else {
        1 + position_of(entries.drop_first(), addr)
    }
}

/// The entries after a change made at `now`: the entry for the address of
/// the change is replaced where it stands, or added at the end.
pub open spec fn updated(entries: Seq<MetaAddr>, change: MetaAddrChange, now: DateTime32) -> Seq<MetaAddr> {
    let at = position_of(entries, change.spec_addr());
    if at < entries.len() {
        entries.update(at, applied(Some(entries[at]), change, now))
    } else {
        entries.push(applied(None, change, now))
    }
}

/// The later of two times, where a time that is missing counts as earlier than any time.
pub fn later(a: Option<DateTime32>, b: DateTime32) -> (time: DateTime32)
    ensures
        time == later_of(a, b),
{
    match a {
        Some(time) => if time.timestamp > b.timestamp {
            time
        } else {
            b
        },
        None => b,
    }
}

/// The entry for the address of `change` after the change, made at `now`.
pub fn apply_change(previous: Option<MetaAddr>, change: MetaAddrChange, now: DateTime32) -> (entry: MetaAddr)
    ensures
        entry == applied(previous, change, now),
        entry.addr == match previous {
            Some(before) => before.addr,
            None => change.spec_addr(),
        },
        (previous matches Some(before) ==> before.wf()) ==> entry.wf(),
{
    let base = match previous {
        Some(entry) => entry,
        None => MetaAddr {
            addr: change.addr(),
            services: PeerServices::empty(),
            untrusted_last_seen: None,
            last_response: None,
            last_attempt: None,
            last_failure: None,
            last_connection_state: PeerAddrState::NeverAttempted,
        },
    };
    match change {
        MetaAddrChange::NewGossiped { addr, untrusted_services, untrusted_last_seen } => match previous {
            Some(entry) => entry,
            None => MetaAddr {
                addr: base.addr,
                services: untrusted_services,
                untrusted_last_seen: Some(untrusted_last_seen),
                last_response: base.last_response,
                last_attempt: base.last_attempt,
                last_failure: base.last_failure,
                last_connection_state: base.last_connection_state,
            },
        },
        MetaAddrChange::NewAlternate { addr, untrusted_services } => match previous {
            Some(entry) => entry,
            None => MetaAddr {
                addr: base.addr,
                services: untrusted_services,
                untrusted_last_seen: base.untrusted_last_seen,
                last_response: base.last_response,
                last_attempt: base.last_attempt,
                last_failure: base.last_failure,
                last_connection_state: base.last_connection_state,
            },
        },
        MetaAddrChange::NewLocal { addr } => match previous {
            Some(entry) => entry,
            None => MetaAddr {
                addr: base.addr,
                services: PeerServices::node_network(),
                untrusted_last_seen: base.untrusted_last_seen,
                last_response: Some(now),
                last_attempt: Some(now),
                last_failure: base.last_failure,
                last_connection_state: PeerAddrState::Responded,
            },
        },
        MetaAddrChange::UpdateAttempt { addr } => MetaAddr {
            addr: base.addr,
            services: base.services,
            untrusted_last_seen: base.untrusted_last_seen,
            last_response: base.last_response,
            last_attempt: Some(later(base.last_attempt, now)),
            last_failure: base.last_failure,
            last_connection_state: PeerAddrState::AttemptPending,
        },
        MetaAddrChange::UpdateResponded { addr, services } => MetaAddr {
            addr: base.addr,
            services,
            untrusted_last_seen: base.untrusted_last_seen,
            last_response: Some(later(base.last_response, now)),
            last_attempt: Some(later(base.last_attempt, now)),
            last_failure: base.last_failure,
            last_connection_state: PeerAddrState::Responded,
        },
        MetaAddrChange::UpdateFailed { addr } => MetaAddr {
            addr: base.addr,
            services: base.services,
            untrusted_last_seen: base.untrusted_last_seen,
            last_response: base.last_response,
            last_attempt: base.last_attempt,
            last_failure: Some(later(base.last_failure, now)),
            last_connection_state: PeerAddrState::Failed,
        },
    }
}

/// The place of a state in the order in which addresses are tried: a peer
/// that has answered comes first, then one that was never tried, then one
/// that failed; an address under attempt comes last.
pub open spec fn state_rank(state: PeerAddrState) -> int {
    match state {
        PeerAddrState::Responded => 0,
        PeerAddrState::NeverAttempted => 1,
        PeerAddrState::Failed => 2,
        PeerAddrState::AttemptPending => 3,
    }
}

/// The time at which the peer of `entry` was last seen, or -1 if it never was.
pub open spec fn seen_time(entry: MetaAddr) -> int {
    match entry.spec_last_seen() {
        Some(time) => time.timestamp as int,
        None => -1,
    }
}

/// Whether `a` is tried before `b`: its state comes first, or the states are
/// the same and its peer was seen later.
pub open spec fn tried_before(a: MetaAddr, b: MetaAddr) -> bool {
    state_rank(a.last_connection_state) < state_rank(b.last_connection_state) || (state_rank(
        a.last_connection_state,
    ) == state_rank(b.last_connection_state) && seen_time(a) > seen_time(b))
}

/// Whether a connection to the address of `entry` may be tried at `now`: no
/// attempt is under way, and the last attempt lies at least
/// `MIN_PEER_RECONNECTION_DELAY_SECS` back.
pub open spec fn may_attempt(entry: MetaAddr, now: DateTime32) -> bool {
    &&& entry.last_connection_state != PeerAddrState::AttemptPending
    &&& match entry.last_attempt {
        Some(time) => time.timestamp + MIN_PEER_RECONNECTION_DELAY_SECS <= now.timestamp,
        None => true,
    }
}

/// Whether the entry at `at` is the next to try at `now`: it may be tried,
/// no entry that may be tried comes before it in the order of trying, and of
/// the entries that are its equals in that order it stands first in the book.
pub open spec fn is_next_candidate(entries: Seq<MetaAddr>, at: int, now: DateTime32) -> bool {
    &&& 0 <= at < entries.len()
    &&& may_attempt(entries[at], now)
    &&& forall|j: int|
        0 <= j < entries.len() && may_attempt(#[trigger] entries[j], now) ==> !tried_before(entries[j], entries[at])
    &&& forall|j: int| 0 <= j < at && may_attempt(#[trigger] entries[j], now) ==> tried_before(entries[at], entries[j])
}

/// Whether no entry may be tried at `now`.
pub open spec fn no_candidate(entries: Seq<MetaAddr>, now: DateTime32) -> bool {
    forall|j: int| 0 <= j < entries.len() ==> !may_attempt(#[trigger] entries[j], now)
}

/// Whether `candidate` is the pick of the next address to try at `now`, and
/// `after` the book after the pick.  Where no entry may be tried, nothing is
/// picked and the book stays as it is.  Else the entry that is next to try is
/// picked as it stands, and in the book it is marked as under attempt.
pub open spec fn picked(before: Seq<MetaAddr>, after: Seq<MetaAddr>, candidate: Option<MetaAddr>, now: DateTime32) -> bool {
    if no_candidate(before, now) {
        candidate.is_none() && after == before
    } else {
        exists|at: int|
            {
                &&& #[trigger] is_next_candidate(before, at, now)
                &&& candidate == Some(before[at])
                &&& after == before.update(
                    at,
                    applied(Some(before[at]), MetaAddrChange::UpdateAttempt { addr: before[at].addr }, now),
                )
            }
    }
}

/// What is sent to other peers of `entries` at `now`: of each entry that is
/// active for gossip, what its sanitizing leaves, in the order of the book.
pub open spec fn gossip_of(entries: Seq<MetaAddr>, now: DateTime32) -> Seq<MetaAddr>
    decreases entries.len(),
{
    if entries.len() == 0 {
        Seq::empty()
    } else {
        let before = gossip_of(entries.drop_last(), now);
        if entries.last().active_for_gossip(now) {
            match entries.last().sanitized(now) {
                Some(sent) => before.push(sent),
                None => before,
            }
        } else {
            before
        }
    }
}

/// The address book.  It holds at most one entry for an address.
pub struct AddressBook {
    entries: Vec<MetaAddr>,
}

impl View for AddressBook {
    type V = Seq<MetaAddr>;

    closed spec fn view(&self) -> Seq<MetaAddr> {
        self.entries@
    }
}

impl AddressBook {
    /// An empty address book.
    pub fn new() -> (book: Self)
        ensures
            book@ == Seq::<MetaAddr>::empty(),
    {
        AddressBook { entries: Vec::new() }
    }

    /// The number of entries.
    pub fn len(&self) -> (len: usize)
        ensures
            len == self@.len(),
    {
        self.entries.len()
    }

    /// The entries, in the order in which their addresses came into the book.
    pub fn peers(&self) -> (entries: Vec<MetaAddr>)
        ensures
            entries@ == self@,
    {
        self.entries.clone()
    }

    /// What is sent to a peer that asks for addresses at `now`.
    pub fn sanitized_at(&self, now: DateTime32) -> (sent: Vec<MetaAddr>)
        ensures
            sent@ == gossip_of(self@, now),
    {
        let mut sent: Vec<MetaAddr> = Vec::new();
        let mut i: usize = 0;
        while i < self.entries.len()
            invariant
                i <= self.entries.len(),
                sent@ == gossip_of(self@.take(i as int), now),
            decreases self.entries.len() - i,
        {
            proof {
                let next = self@.take(i + 1);
                assert(next.drop_last() =~= self@.take(i as int));
                assert(next.last() == self@[i as int]);
            }
            if self.entries[i].is_active_for_gossip_at(now) {
                match self.entries[i].sanitize_at(now) {
                    Some(entry) => {
                        sent.push(entry);
                    },
                    None => {},
                }
            }
            i += 1;
        }
        proof {
            assert(self@.take(self@.len() as int) =~= self@);
        }
        sent
    }

    /// The position of the entry for `addr`, or the number of entries if there is none.
    fn position(&self, addr: PeerAddress) -> (at: usize)
        ensures
            at == position_of(self@, addr),
            at <= self@.len(),
            at < self@.len() ==> self@[at as int].addr == addr,
    {
        let mut i: usize = 0;
        proof {
            assert(self@.skip(0) =~= self@);
        }
        while i < self.entries.len()
            invariant
                i <= self.entries.len(),
                position_of(self@, addr) == i + position_of(self@.skip(i as int), addr),
            decreases self.entries.len() - i,
        {
            proof {
                assert(self@.skip(i as int).drop_first() =~= self@.skip(i + 1));
                assert(self@.skip(i as int)[0] == self@[i as int]);
            }
            if self.entries[i].addr == addr {
                return i;
            }
            i += 1;
        }
        i
    }

    /// The entry for `addr`, if the book has one.
    pub fn get(&self, addr: &PeerAddress) -> (entry: Option<MetaAddr>)
        ensures
            position_of(self@, *addr) < self@.len() ==> entry == Some(self@[position_of(self@, *addr)]),
            position_of(self@, *addr) >= self@.len() ==> entry.is_none(),
    {
        let at = self.position(*addr);
        if at < self.entries.len() {
            Some(self.entries[at])
        } else {
            None
        }
    }

    /// Takes a change that was made at `now` into the book, and returns the
    /// entry for the address of the change as it stands afterwards.
    pub fn update_at(&mut self, change: MetaAddrChange, now: DateTime32) -> (entry: MetaAddr)
        ensures
            final(self)@ == updated(old(self)@, change, now),
            entry == final(self)@[position_of(old(self)@, change.spec_addr())],
    {
        proof {
            assert(self@.skip(0) =~= self@);
        }
        let at = self.position(change.addr());
        if at < self.entries.len() {
            let entry = apply_change(Some(self.entries[at]), change, now);
            self.entries.set(at, entry);
            entry
        } else {
            let entry = apply_change(None, change, now);
            self.entries.push(entry);
            entry
        }
    }

    /// Takes a change that is made now, by the machine's clock, into the book.
    pub fn update(&mut self, change: MetaAddrChange) -> (entry: MetaAddr)
        ensures
            exists|now: DateTime32| final(self)@ == #[trigger] updated(old(self)@, change, now),
    {
        let now = DateTime32::now();
        self.update_at(change, now)
    }

    /// Picks the address to which a connection is tried next at `now`, and
    /// marks it as under attempt.  Returns the entry as it stood before.
    pub fn next_candidate_at(&mut self, now: DateTime32) -> (candidate: Option<MetaAddr>)
        ensures
            picked(old(self)@, final(self)@, candidate, now),
    {
        let mut best: Option<usize> = None;
        let mut i: usize = 0;
        while i < self.entries.len()
            invariant
                i <= self.entries.len(),
                self@ == old(self)@,
                best.is_none() ==> forall|j: int| 0 <= j < i ==> !may_attempt(#[trigger] self@[j], now),
                best matches Some(b) ==> {
                    &&& b < i
                    &&& may_attempt(self@[b as int], now)
                    &&& forall|j: int|
                        0 <= j < i && may_attempt(#[trigger] self@[j], now) ==> !tried_before(self@[j], self@[b as int])
                    &&& forall|j: int|
                        0 <= j < b && may_attempt(#[trigger] self@[j], now) ==> tried_before(self@[b as int], self@[j])
                },
            decreases self.entries.len() - i,
        {
            let entry = self.entries[i];
            if Self::may_attempt_at(&entry, now) {
                match best {
                    None => {
                        best = Some(i);
                    },
                    Some(b) => {
                        if Self::is_tried_before(&entry, &self.entries[b]) {
                            best = Some(i);
                        }
                    },
                }
            }
            i += 1;
        }
        match best {
            None => None,
            Some(b) => {
                let entry = self.entries[b];
                proof {
                    assert(is_next_candidate(self@, b as int, now));
                    assert(may_attempt(self@[b as int], now));
                }
                let marked = apply_change(Some(entry), MetaAddrChange::UpdateAttempt { addr: entry.addr }, now);
                self.entries.set(b, marked);
                Some(entry)
            },
        }
    }

    fn may_attempt_at(entry: &MetaAddr, now: DateTime32) -> (may: bool)
        ensures
            may == may_attempt(*entry, now),
    {
        match entry.last_connection_state {
            PeerAddrState::AttemptPending => false,
            _ => match entry.last_attempt {
                Some(time) => now.timestamp >= MIN_PEER_RECONNECTION_DELAY_SECS && time.timestamp <= now.timestamp
                    - MIN_PEER_RECONNECTION_DELAY_SECS,
                None => true,
            },
        }
    }

    fn rank(state: PeerAddrState) -> (rank: u8)
        ensures
            rank == state_rank(state),
    {
        match state {
            PeerAddrState::Responded => 0,
            PeerAddrState::NeverAttempted => 1,
            PeerAddrState::Failed => 2,
            PeerAddrState::AttemptPending => 3,
        }
    }

    fn is_tried_before(a: &MetaAddr, b: &MetaAddr) -> (before: bool)
        ensures
            before == tried_before(*a, *b),
    {
        let rank_a = Self::rank(a.last_connection_state);
        let rank_b = Self::rank(b.last_connection_state);
        if rank_a != rank_b {
            return rank_a < rank_b;
        }
        match (a.last_seen(), b.last_seen()) {
            (Some(seen_a), Some(seen_b)) => seen_a.timestamp > seen_b.timestamp,
            (Some(_), None) => true,
            (None, _) => false,
        }
    }
}

} // verus!
