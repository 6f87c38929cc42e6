//! The peers of the peer set: which are ready, how loaded they are, and
//! which of them gets a request.

use vstd::prelude::*;

use crate::chain::block;
use crate::chain::parameters::Network;
use crate::mempool::storage::random_draw;
use crate::network::meta_addr::PeerAddress;
use crate::network::protocol::types::{min_remote_version, Version};

verus! {

/// A peer of the peer set.
#[derive(Clone, Copy, Debug, PartialEq, Eq, Structural)]
pub struct Peer {
    /// The address of the peer.
    pub addr: PeerAddress,
    /// The protocol version that the peer speaks.
    pub version: Version,
    /// Whether the service of the peer is ready for a request.
    pub ready: bool,
    /// The load of the peer: an estimate of the time that it takes to answer.
    pub load: u64,
}

/// The position of the peer at `addr`, or the number of peers if it is not among them.
pub open spec fn position_of(peers: Seq<Peer>, addr: PeerAddress) -> int
    decreases peers.len(),
{
    if peers.len() == 0 {
        0
    } else if peers[0].addr == addr {
        0
    } else {
        1 + position_of(peers.drop_first(), addr)
    }
}

/// The peers that are ready, in the order of the set.
pub open spec fn ready_peers(peers: Seq<Peer>) -> Seq<Peer> {
    peers.filter(|peer: Peer| peer.ready)
}

/// The peers after the peer `joined` was discovered: it takes the place of
/// the peer at the same address, or the last place.
pub open spec fn with_peer(peers: Seq<Peer>, joined: Peer) -> Seq<Peer> {
    let at = position_of(peers, joined.addr);
    if at < peers.len() {
        peers.update(at, joined)
    } else {
        peers.push(joined)
    }
}

/// The peers without those at `addr`.
pub open spec fn without_peer(peers: Seq<Peer>, addr: PeerAddress) -> Seq<Peer> {
    peers.filter(|peer: Peer| peer.addr != addr)
}

/// The peers that speak a version of at least `min_version`.
pub open spec fn current_peers(peers: Seq<Peer>, min_version: u32) -> Seq<Peer> {
    peers.filter(|peer: Peer| peer.version.0 >= min_version)
}

/// The less loaded of the two ready peers that the draws name.  A draw
/// names the ready peer at the position of its remainder by the number of
/// ready peers.  Of two peers with the same load the first draw decides.
pub open spec fn two_choices(ready: Seq<Peer>, first_draw: u64, second_draw: u64) -> Peer {
    let a = ready[first_draw as int % ready.len() as int];
    let b = ready[second_draw as int % ready.len() as int];
    if b.load < a.load {
        b
    } else {
        a
    }
}

/// The first of `preferred` that is the address of a ready peer, if there is one.
pub open spec fn first_ready_of(peers: Seq<Peer>, preferred: Seq<PeerAddress>) -> Option<PeerAddress>
    decreases preferred.len(),
{
    if preferred.len() == 0 {
        None
    } else if is_ready_at(peers, preferred[0]) {
        Some(preferred[0])
    } else {
        first_ready_of(peers, preferred.drop_first())
    }
}

/// Whether the peer at `addr` is in the set and ready.
pub open spec fn is_ready_at(peers: Seq<Peer>, addr: PeerAddress) -> bool {
    exists|i: int| 0 <= i < peers.len() && (#[trigger] peers[i]).addr == addr && peers[i].ready
}

/// The peers of the peer set.
pub struct PeerSet {
    peers: Vec<Peer>,
}

impl View for PeerSet {
    type V = Seq<Peer>;

    closed spec fn view(&self) -> Seq<Peer> {
        self.peers@
    }
}

impl PeerSet {
    /// A peer set without peers.
    pub fn new() -> (set: Self)
        ensures
            set@ == Seq::<Peer>::empty(),
    {
        PeerSet { peers: Vec::new() }
    }

    /// The number of peers.
    pub fn len(&self) -> (len: usize)
        ensures
            len == self@.len(),
    {
        self.peers.len()
    }

    /// Takes a peer that was discovered into the set.
    pub fn insert(&mut self, peer: Peer)
        ensures
            final(self)@ == with_peer(old(self)@, peer),
    {
        let mut i: usize = 0;
        proof {
            assert(self@.skip(0) =~= self@);
        }
        while i < self.peers.len()
            invariant
                i <= self.peers.len(),
                self@ == old(self)@,
                position_of(self@, peer.addr) == i + position_of(self@.skip(i as int), peer.addr),
            decreases self.peers.len() - i,
        {
            proof {
                assert(self@.skip(i as int).drop_first() =~= self@.skip(i + 1));
                assert(self@.skip(i as int)[0] == self@[i as int]);
            }
            if self.peers[i].addr == peer.addr {
                self.peers.set(i, peer);
                return ;
            }
            i += 1;
        }
        self.peers.push(peer);
    }

    /// Takes the peer at `addr` out of the set: its client has failed, or its
    /// connection has ended.
    pub fn remove(&mut self, addr: PeerAddress)
        ensures
            final(self)@ == without_peer(old(self)@, addr),
    {
        let ghost keep = |peer: Peer| peer.addr != addr;
        let mut kept: Vec<Peer> = Vec::new();
        let mut i: usize = 0;
        while i < self.peers.len()
            invariant
                i <= self.peers.len(),
                self@ == old(self)@,
                keep == (|peer: Peer| peer.addr != addr),
                kept@ == self@.take(i as int).filter(keep),
            decreases self.peers.len() - i,
        {
            proof {
                let next = self@.take(i + 1);
                assert(next.drop_last() =~= self@.take(i as int));
                assert(next.last() == self@[i as int]);
                reveal_with_fuel(Seq::filter, 2);
            }
            if self.peers[i].addr != addr {
                kept.push(self.peers[i]);
            }
            i += 1;
        }
        proof {
            assert(self@.take(self@.len() as int) =~= self@);
        }
        self.peers = kept;
    }

    /// Takes out the peers whose version is too old now that the best chain
    /// tip of `network` is at `best_tip_height`.  Returns how many left.
    pub fn evict_obsolete(&mut self, network: Network, best_tip_height: Option<block::Height>) -> (evicted: usize)
        ensures
            final(self)@ == current_peers(old(self)@, min_remote_version(network, best_tip_height)),
            evicted == old(self)@.len() - final(self)@.len(),
    {
        let min_version = Version::min_remote_for_height(network, best_tip_height);
        let ghost keep = |peer: Peer| peer.version.0 >= min_remote_version(network, best_tip_height);
        let mut kept: Vec<Peer> = Vec::new();
        let mut i: usize = 0;
        while i < self.peers.len()
            invariant
                i <= self.peers.len(),
                self@ == old(self)@,
                min_version.0 == min_remote_version(network, best_tip_height),
                keep == (|peer: Peer| peer.version.0 >= min_remote_version(network, best_tip_height)),
                kept@ == self@.take(i as int).filter(keep),
                kept@.len() <= i,
            decreases self.peers.len() - i,
        {
            proof {
                let next = self@.take(i + 1);
                assert(next.drop_last() =~= self@.take(i as int));
                assert(next.last() == self@[i as int]);
                reveal_with_fuel(Seq::filter, 2);
            }
            if self.peers[i].version.0 >= min_version.0 {
                kept.push(self.peers[i]);
            }
            i += 1;
        }
        proof {
            assert(self@.take(self@.len() as int) =~= self@);
        }
        let evicted = self.peers.len() - kept.len();
        self.peers = kept;
        evicted
    }

    /// The peers that are ready, in the order of the set: the peers that a
    /// broadcast goes to.
    pub fn ready(&self) -> (ready: Vec<Peer>)
        ensures
            ready@ == ready_peers(self@),
    {
        let ghost keep = |peer: Peer| peer.ready;
        let mut ready: Vec<Peer> = Vec::new();
        let mut i: usize = 0;
        while i < self.peers.len()
            invariant
                i <= self.peers.len(),
                keep == (|peer: Peer| peer.ready),
                ready@ == self@.take(i as int).filter(keep),
            decreases self.peers.len() - i,
        {
            proof {
                let next = self@.take(i + 1);
                assert(next.drop_last() =~= self@.take(i as int));
                assert(next.last() == self@[i as int]);
                reveal_with_fuel(Seq::filter, 2);
            }
            if self.peers[i].ready {
                ready.push(self.peers[i]);
            }
            i += 1;
        }
        proof {
            assert(self@.take(self@.len() as int) =~= self@);
        }
        ready
    }

    /// Picks the peer for a request by two draws: the less loaded of the two
    /// ready peers that the draws name.  Without a ready peer there is no pick.
    pub fn select_drawn(&self, first_draw: u64, second_draw: u64) -> (picked: Option<Peer>)
        ensures
            ready_peers(self@).len() == 0 ==> picked.is_none(),
            ready_peers(self@).len() > 0 ==> picked == Some(two_choices(ready_peers(self@), first_draw, second_draw)),
    {
        let ready = self.ready();
        let count = ready.len();
        if count == 0 {
            return None;
        }
        let a = ready[(first_draw % (count as u64)) as usize];
        let b = ready[(second_draw % (count as u64)) as usize];
        if b.load < a.load {
            Some(b)
        } else {
            Some(a)
        }
    }

    /// Picks the peer for a request at random: the less loaded of two ready
    /// peers that are drawn.
    pub fn select(&self) -> (picked: Option<Peer>)
        ensures
            ready_peers(self@).len() == 0 ==> picked.is_none(),
            ready_peers(self@).len() > 0 ==> exists|first_draw: u64, second_draw: u64|
                picked == Some(#[trigger] two_choices(ready_peers(self@), first_draw, second_draw)),
    {
        let first_draw = (random_draw() % 0x1_0000_0000_0000_0000) as u64;
        let second_draw = (random_draw() % 0x1_0000_0000_0000_0000) as u64;
        self.select_drawn(first_draw, second_draw)
    }

    /// Picks the peer for a request for something that the peers at
    /// `advertisers` have told us of: the first of them that is ready.
    pub fn select_advertiser(&self, advertisers: &Vec<PeerAddress>) -> (picked: Option<PeerAddress>)
        ensures
            picked == first_ready_of(self@, advertisers@),
    {
        let mut i: usize = 0;
        proof {
            assert(advertisers@.skip(0) =~= advertisers@);
        }
        while i < advertisers.len()
            invariant
                i <= advertisers.len(),
                first_ready_of(self@, advertisers@) == first_ready_of(self@, advertisers@.skip(i as int)),
            decreases advertisers.len() - i,
        {
            proof {
                assert(advertisers@.skip(i as int).drop_first() =~= advertisers@.skip(i + 1));
                assert(advertisers@.skip(i as int)[0] == advertisers@[i as int]);
            }
            if self.is_ready(advertisers[i]) {
                return Some(advertisers[i]);
            }
            i += 1;
        }
        None
    }

    /// Whether the peer at `addr` is in the set and ready.
    pub fn is_ready(&self, addr: PeerAddress) -> (ready: bool)
        ensures
            ready == is_ready_at(self@, addr),
    {
        let mut i: usize = 0;
        while i < self.peers.len()
            invariant
                i <= self.peers.len(),
                forall|j: int| 0 <= j < i ==> !((#[trigger] self@[j]).addr == addr && self@[j].ready),
            decreases self.peers.len() - i,
        {
            if self.peers[i].addr == addr && self.peers[i].ready {
                return true;
            }
            i += 1;
        }
        false
    }
}

} // verus!
