//! How the peer set hands a request to its peers.

use vstd::prelude::*;

use crate::network::constants::GET_ADDR_FANOUT;
use crate::network::peer::connection::RequestKind;
use crate::network::peer_set::signals::MorePeers;

verus! {

/// The way in which a request goes to the peers.
#[derive(Clone, Copy, Debug, PartialEq, Eq, Hash, Structural)]
pub enum Routing {
    /// To every peer that is ready.
    Broadcast,
    /// To as many different ready peers as given, at most.
    Fanout(usize),
    /// To a peer that has told us of what is asked for, if there is one, and
    /// else to the less loaded of two ready peers that are drawn at random.
    Targeted,
    /// To the less loaded of two ready peers that are drawn at random.
    LoadBalanced,
}

/// What the peer set does with a request.
#[derive(Clone, Copy, Debug, PartialEq, Eq, Hash, Structural)]
pub enum Dispatch {
    /// No peer is ready: ask the crawler for more peers, and let the request wait.
    Wait(MorePeers),
    /// Hand the request to this many peers, chosen in the way given.
    Send { routing: Routing, peers: usize },
}

/// The way in which a request of the kind `kind` goes to the peers.
pub open spec fn routing_of(kind: RequestKind) -> Routing {
    match kind {
        RequestKind::AdvertiseTransactionIds | RequestKind::AdvertiseBlock => Routing::Broadcast,
        RequestKind::Peers => Routing::Fanout(GET_ADDR_FANOUT),
        RequestKind::BlocksByHash | RequestKind::TransactionsById => Routing::Targeted,
        _ => Routing::LoadBalanced,
    }
}

/// What the peer set does with a request of the kind `kind` when `ready`
/// peers are ready.
pub open spec fn dispatch_of(kind: RequestKind, ready: usize) -> Dispatch {
    if ready == 0 {
        Dispatch::Wait(MorePeers)
    } else {
        match routing_of(kind) {
            Routing::Broadcast => Dispatch::Send { routing: Routing::Broadcast, peers: ready },
            Routing::Fanout(most) => Dispatch::Send {
                routing: Routing::Fanout(most),
                peers: if ready < most {
                    ready
                } else {
                    most
                },
            },
            routing => Dispatch::Send { routing, peers: 1 },
        }
    }
}

/// Decides what the peer set does with a request of the kind `kind` when
/// `ready` peers are ready.
pub fn dispatch(kind: RequestKind, ready: usize) -> (decision: Dispatch)
    ensures
        decision == dispatch_of(kind, ready),
{
    if ready == 0 {
        return Dispatch::Wait(MorePeers);
    }
    match kind {
        RequestKind::AdvertiseTransactionIds | RequestKind::AdvertiseBlock => Dispatch::Send {
            routing: Routing::Broadcast,
            peers: ready,
        },
        RequestKind::Peers => Dispatch::Send {
            routing: Routing::Fanout(GET_ADDR_FANOUT),
            peers: if ready < GET_ADDR_FANOUT {
                ready
            } else {
                GET_ADDR_FANOUT
            },
        },
        RequestKind::BlocksByHash | RequestKind::TransactionsById => Dispatch::Send {
            routing: Routing::Targeted,
            peers: 1,
        },
        _ => Dispatch::Send { routing: Routing::LoadBalanced, peers: 1 },
    }
}

} // verus!
