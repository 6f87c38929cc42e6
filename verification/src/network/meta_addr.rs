//! What the node knows of the address of one peer.

use vstd::prelude::*;

use crate::chain::serialization::{DateTime32, Duration32, MIN_TIME};
use crate::network::constants::{MAX_PEER_ACTIVE_FOR_GOSSIP_SECS, REACHABLE_PEER_DURATION_SECS};
use crate::network::protocol::types::{PeerServices, NODE_NETWORK_BIT};

verus! {

/// An IP address: the 32 bits of an IPv4 address or the 128 bits of an
/// IPv6 address, in network byte order.
#[derive(Clone, Copy, Debug, PartialEq, Eq, Hash, Structural)]
pub enum IpAddress {
    V4(u32),
    V6(u128),
}

/// The address under which a peer is reached: an IP address and a port.  Two
/// peer addresses are equal when the IP address and the port are; the
/// services that a peer advertises are no part of its address.
#[derive(Clone, Copy, Debug, PartialEq, Eq, Hash, Structural)]
pub struct PeerAddress {
    pub ip: IpAddress,
    pub port: u16,
}

/// How the last connection to an address went.
#[derive(Clone, Copy, Debug, PartialEq, Eq, Hash, Structural)]
pub enum PeerAddrState {
    /// No connection to the address was tried yet.
    NeverAttempted,
    /// A connection to the address is being tried.
    AttemptPending,
    /// The peer at the address has answered us.
    Responded,
    /// The last connection to the address failed.
    Failed,
}

impl Default for PeerAddrState {
    fn default() -> (state: Self)
        ensures
            state == PeerAddrState::NeverAttempted,
    {
        PeerAddrState::NeverAttempted
    }
}

/// An entry of the address book.
#[derive(Clone, Copy, Debug, PartialEq, Eq, Hash, Structural)]
pub struct MetaAddr {
    /// The address of the peer.
    pub addr: PeerAddress,
    /// The services that the peer advertises.
    pub services: PeerServices,
    /// When the peer was last seen, as another peer told us.  Not to be trusted.
    pub untrusted_last_seen: Option<DateTime32>,
    /// When we last got an answer from the address.
    pub last_response: Option<DateTime32>,
    /// When we last tried to connect to the address.
    pub last_attempt: Option<DateTime32>,
    /// When a connection to the address last failed.
    pub last_failure: Option<DateTime32>,
    /// How the last connection to the address went.
    pub last_connection_state: PeerAddrState,
}

/// The later of two times, where a time that is missing counts as earlier than any time.
pub open spec fn later_of(a: Option<DateTime32>, b: DateTime32) -> DateTime32 {
    match a {
        Some(time) => if time.timestamp > b.timestamp {
            time
        } else {
            b
        },
        None => b,
    }
}

/// Whether `time` lies at most `span` seconds before `now`.  A time after `now` does.
pub open spec fn within(time: DateTime32, now: DateTime32, span: u32) -> bool {
    time.timestamp + span >= now.timestamp
}

/// `time` moved into the range from `MIN_TIME` to `now`.
pub open spec fn clamped(time: DateTime32, now: DateTime32) -> DateTime32 {
    if time.timestamp > now.timestamp {
        now
    } else if time.timestamp < MIN_TIME {
        DateTime32 { timestamp: MIN_TIME }
    } else {
        time
    }
}

/// The entry for the address `addr` on which this node itself listens, made at `now`.
pub open spec fn local_listener(addr: PeerAddress, now: DateTime32) -> MetaAddr {
    MetaAddr {
        addr,
        services: PeerServices { bits: NODE_NETWORK_BIT },
        untrusted_last_seen: None,
        last_response: Some(now),
        last_attempt: Some(now),
        last_failure: None,
        last_connection_state: PeerAddrState::Responded,
    }
}

/// The entry for the peer at `addr` that has answered us at `now`.
pub open spec fn responded(addr: PeerAddress, services: PeerServices, now: DateTime32) -> MetaAddr {
    MetaAddr {
        addr,
        services,
        untrusted_last_seen: None,
        last_response: Some(now),
        last_attempt: Some(now),
        last_failure: None,
        last_connection_state: PeerAddrState::Responded,
    }
}

impl MetaAddr {
    /// An answer from an address comes after an attempt to connect to it.
    pub open spec fn wf(self) -> bool {
        self.last_response.is_some() ==> self.last_attempt.is_some()
    }

    /// When the peer was last seen: when it last answered us, or else when
    /// another peer says that it was seen.
    pub open spec fn spec_last_seen(self) -> Option<DateTime32> {
        match self.last_response {
            Some(time) => Some(time),
            None => self.untrusted_last_seen,
        }
    }

    /// Whether the peer has answered us within `REACHABLE_PEER_DURATION_SECS` before `now`.
    pub open spec fn recently_reachable(self, now: DateTime32) -> bool {
        self.last_response matches Some(time) && within(time, now, REACHABLE_PEER_DURATION_SECS)
    }

    /// Whether the peer may be passed on to other peers at `now`: it was
    /// recently reachable, or another peer says that it was seen within
    /// `MAX_PEER_ACTIVE_FOR_GOSSIP_SECS` before `now`.
    pub open spec fn active_for_gossip(self, now: DateTime32) -> bool {
        self.recently_reachable(now) || (self.untrusted_last_seen matches Some(time) && within(
            time,
            now,
            MAX_PEER_ACTIVE_FOR_GOSSIP_SECS,
        ))
    }

    /// What is sent to other peers of this entry at `now`, if anything.
    ///
    /// An entry of a peer that was never seen is not sent.  Of any other
    /// entry the address, the services and the time at which the peer was
    /// last seen are sent; that time is moved into the range from `MIN_TIME`
    /// to `now`.  What we know of our own connections stays with us.
    pub open spec fn sanitized(self, now: DateTime32) -> Option<MetaAddr> {
        match self.spec_last_seen() {
            None => None,
            Some(last_seen) => Some(
                MetaAddr {
                    addr: self.addr,
                    services: self.services,
                    untrusted_last_seen: Some(clamped(last_seen, now)),
                    last_response: None,
                    last_attempt: None,
                    last_failure: None,
                    last_connection_state: PeerAddrState::NeverAttempted,
                },
            ),
        }
    }

    /// The entry for an address that another peer told us of.
    pub fn new_gossiped_meta_addr(addr: PeerAddress, untrusted_services: PeerServices, untrusted_last_seen: DateTime32) -> (entry: MetaAddr)
        ensures
            entry == (MetaAddr {
                addr,
                services: untrusted_services,
                untrusted_last_seen: Some(untrusted_last_seen),
                last_response: None,
                last_attempt: None,
                last_failure: None,
                last_connection_state: PeerAddrState::NeverAttempted,
            }),
            entry.wf(),
    {
        MetaAddr {
            addr,
            services: untrusted_services,
            untrusted_last_seen: Some(untrusted_last_seen),
            last_response: None,
            last_attempt: None,
            last_failure: None,
            last_connection_state: PeerAddrState::NeverAttempted,
        }
    }

    /// The entry for an address that a peer gave as its own in a handshake.
    /// Nothing says yet that the address can be reached.
    pub fn new_alternate(addr: &PeerAddress, untrusted_services: &PeerServices) -> (entry: MetaAddr)
        ensures
            entry == (MetaAddr {
                addr: *addr,
                services: *untrusted_services,
                untrusted_last_seen: None,
                last_response: None,
                last_attempt: None,
                last_failure: None,
                last_connection_state: PeerAddrState::NeverAttempted,
            }),
            entry.wf(),
    {
        MetaAddr {
            addr: *addr,
            services: *untrusted_services,
            untrusted_last_seen: None,
            last_response: None,
            last_attempt: None,
            last_failure: None,
            last_connection_state: PeerAddrState::NeverAttempted,
        }
    }

    /// The entry for a peer that has answered us at `now`.
    pub fn new_responded_at(addr: &PeerAddress, services: &PeerServices, now: DateTime32) -> (entry: MetaAddr)
        ensures
            entry == responded(*addr, *services, now),
            entry.wf(),
    {
        MetaAddr {
            addr: *addr,
            services: *services,
            untrusted_last_seen: None,
            last_response: Some(now),
            last_attempt: Some(now),
            last_failure: None,
            last_connection_state: PeerAddrState::Responded,
        }
    }

    /// The entry for a peer that has answered us just now, by the machine's clock.
    pub fn new_responded(addr: &PeerAddress, services: &PeerServices) -> (entry: MetaAddr)
        ensures
            exists|now: DateTime32| entry == #[trigger] responded(*addr, *services, now),
    {
        MetaAddr::new_responded_at(addr, services, DateTime32::now())
    }

    /// The entry for the address on which this node itself listens, made at
    /// `now`.  The node counts as a peer that has just answered.
    pub fn new_local_listener_at(addr: &PeerAddress, now: DateTime32) -> (entry: MetaAddr)
        ensures
            entry == local_listener(*addr, now),
            entry.wf(),
            entry.recently_reachable(now),
    {
        MetaAddr {
            addr: *addr,
            services: PeerServices::node_network(),
            untrusted_last_seen: None,
            last_response: Some(now),
            last_attempt: Some(now),
            last_failure: None,
            last_connection_state: PeerAddrState::Responded,
        }
    }

    /// The entry for the address on which this node itself listens, made
    /// just now, by the machine's clock.
    pub fn new_local_listener(addr: &PeerAddress) -> (entry: MetaAddr)
        ensures
            exists|now: DateTime32| entry == #[trigger] local_listener(*addr, now),
    {
        MetaAddr::new_local_listener_at(addr, DateTime32::now())
    }

    /// When the peer was last seen: when it last answered us, or else when
    /// another peer says that it was seen.
    pub fn last_seen(&self) -> (seen: Option<DateTime32>)
        ensures
            seen == self.spec_last_seen(),
    {
        match self.last_response {
            Some(time) => Some(time),
            None => self.untrusted_last_seen,
        }
    }

    /// Whether the peer has answered us within `REACHABLE_PEER_DURATION_SECS` before `now`.
    pub fn was_recently_reachable_at(&self, now: DateTime32) -> (reachable: bool)
        ensures
            reachable == self.recently_reachable(now),
    {
        match self.last_response {
            Some(time) => now.saturating_sub(Duration32 { seconds: REACHABLE_PEER_DURATION_SECS }).timestamp
                <= time.timestamp,
            None => false,
        }
    }

    /// Whether the peer has answered us within `REACHABLE_PEER_DURATION_SECS`
    /// before now, by the machine's clock.
    pub fn was_recently_reachable(&self) -> (reachable: bool)
        ensures
            exists|now: DateTime32| reachable == #[trigger] self.recently_reachable(now),
    {
        let now = DateTime32::now();
        self.was_recently_reachable_at(now)
    }

    /// Whether the peer may be passed on to other peers at `now`.
    pub fn is_active_for_gossip_at(&self, now: DateTime32) -> (active: bool)
        ensures
            active == self.active_for_gossip(now),
    {
        if self.was_recently_reachable_at(now) {
            return true;
        }
        match self.untrusted_last_seen {
            Some(time) => now.saturating_sub(Duration32 { seconds: MAX_PEER_ACTIVE_FOR_GOSSIP_SECS }).timestamp
                <= time.timestamp,
            None => false,
        }
    }

    /// What is sent to other peers of this entry at `now`, if anything.
    pub fn sanitize_at(&self, now: DateTime32) -> (sent: Option<MetaAddr>)
        ensures
            sent == self.sanitized(now),
    {
        match self.last_seen() {
            None => None,
            Some(last_seen) => {
                let last_seen = if last_seen.timestamp > now.timestamp {
                    now
                } else if last_seen.timestamp < MIN_TIME {
                    DateTime32 { timestamp: MIN_TIME }
                } else {
                    last_seen
                };
                Some(
                    MetaAddr {
                        addr: self.addr,
                        services: self.services,
                        untrusted_last_seen: Some(last_seen),
                        last_response: None,
                        last_attempt: None,
                        last_failure: None,
                        last_connection_state: PeerAddrState::NeverAttempted,
                    },
                )
            },
        }
    }

    /// What is sent to other peers of this entry now, by the machine's clock.
    pub fn sanitize(&self) -> (sent: Option<MetaAddr>)
        ensures
            exists|now: DateTime32| sent == #[trigger] self.sanitized(now),
    {
        let now = DateTime32::now();
        self.sanitize_at(now)
    }
}

/// Whatever the times of an entry are, the earliest and the latest that the
/// wire format can hold among them, the entry of a peer that was seen is sent
/// on, with a time that is not after `now`.
pub proof fn law_sanitize_handles_all_times(entry: MetaAddr, now: DateTime32)
    ensures
        entry.spec_last_seen().is_some() <==> entry.sanitized(now).is_some(),
        entry.sanitized(now) matches Some(sent) ==> {
            &&& sent.addr == entry.addr
            &&& sent.services == entry.services
            &&& sent.untrusted_last_seen matches Some(time) && MIN_TIME <= time.timestamp <= now.timestamp
            &&& sent.last_response.is_none()
            &&& sent.last_attempt.is_none()
            &&& sent.last_failure.is_none()
            &&& sent.wf()
        },
{
}

} // verus!
