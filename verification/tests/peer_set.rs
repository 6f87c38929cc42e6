use zebra_core::chain::block::Height;
use zebra_core::chain::parameters::Network;
use zebra_core::chain::serialization::DateTime32;
use zebra_core::network::meta_addr::{IpAddress, PeerAddress};
use zebra_core::network::peer::handshake::{
    on_handshake_failure, on_handshake_message, HandshakeAction, HandshakeError, HandshakeMessage,
    HandshakeState, NonceSet, VersionMessage,
};
use zebra_core::network::peer_set::peers::{Peer, PeerSet};
use zebra_core::network::protocol::types::{Nonce, PeerServices, Version};
use zebra_core::sync::progress::{progress_report, ProgressReport, SyncProgress};

fn addr(n: u32) -> PeerAddress {
    PeerAddress { ip: IpAddress::V4(n), port: 8233 }
}

fn peer(n: u32, version: u32, ready: bool, load: u64) -> Peer {
    Peer { addr: addr(n), version: Version(version), ready, load }
}

fn peer_set(peers: &[Peer]) -> PeerSet {
    let mut set = PeerSet::new();
    for peer in peers {
        set.insert(*peer);
    }
    set
}

#[test]
fn discovered_peers_replace_peers_at_the_same_address() {
    let mut set = peer_set(&[peer(1, 170_013, false, 0), peer(2, 170_013, true, 5)]);
    assert_eq!(set.len(), 2);
    set.insert(peer(1, 170_100, true, 9));
    assert_eq!(set.len(), 2);
    assert_eq!(set.ready(), vec![peer(1, 170_100, true, 9), peer(2, 170_013, true, 5)]);
    set.remove(addr(2));
    set.remove(addr(7));
    assert_eq!(set.ready(), vec![peer(1, 170_100, true, 9)]);
    assert!(set.is_ready(addr(1)));
    assert!(!set.is_ready(addr(2)));
}

#[test]
fn the_less_loaded_of_two_choices_is_picked() {
    let set = peer_set(&[
        peer(1, 170_013, true, 50),
        peer(2, 170_013, false, 0),
        peer(3, 170_013, true, 10),
        peer(4, 170_013, true, 10),
    ]);
    // The ready peers are 1, 3 and 4.
    assert_eq!(set.select_drawn(0, 0), Some(peer(1, 170_013, true, 50)));
    assert_eq!(set.select_drawn(0, 1), Some(peer(3, 170_013, true, 10)));
    assert_eq!(set.select_drawn(1, 0), Some(peer(3, 170_013, true, 10)));
    // With the same load the first draw decides.
    assert_eq!(set.select_drawn(1, 2), Some(peer(3, 170_013, true, 10)));
    assert_eq!(set.select_drawn(2, 1), Some(peer(4, 170_013, true, 10)));
    assert_eq!(set.select_drawn(3, 5), Some(peer(4, 170_013, true, 10)));
    assert_eq!(set.select_drawn(u64::MAX, u64::MAX), Some(peer(1, 170_013, true, 50)));
    for _ in 0..50 {
        let picked = set.select().unwrap();
        assert!(picked.ready);
    }
    let nobody = peer_set(&[peer(2, 170_013, false, 0)]);
    assert_eq!(nobody.select_drawn(0, 0), None);
    assert_eq!(nobody.select(), None);
    assert_eq!(PeerSet::new().select(), None);
}

#[test]
fn requests_prefer_peers_that_have_the_item() {
    let set = peer_set(&[peer(1, 170_013, true, 50), peer(2, 170_013, false, 0), peer(3, 170_013, true, 10)]);
    assert_eq!(set.select_advertiser(&vec![addr(2), addr(9), addr(3), addr(1)]), Some(addr(3)));
    assert_eq!(set.select_advertiser(&vec![addr(2), addr(9)]), None);
    assert_eq!(set.select_advertiser(&vec![]), None);
}

#[test]
fn peers_with_old_versions_are_evicted() {
    let mut set = peer_set(&[
        peer(1, 170_012, true, 0),
        peer(2, 170_013, true, 0),
        peer(3, 170_002, false, 0),
        peer(4, 170_100, false, 0),
    ]);
    assert_eq!(set.evict_obsolete(Network::Testnet, Some(Height(100))), 1);
    assert_eq!(set.len(), 3);
    assert_eq!(set.evict_obsolete(Network::Mainnet, None), 1);
    assert_eq!(set.ready(), vec![peer(2, 170_013, true, 0)]);
    assert_eq!(set.len(), 2);
    assert_eq!(set.evict_obsolete(Network::Mainnet, Some(Height(2_000_000))), 0);
}

#[test]
fn progress_is_reported_by_the_blocks_that_remain() {
    let report = |close: bool, current: u32, estimated: u32| progress_report(close, Height(current), Height(estimated));
    assert_eq!(
        report(true, 1_000, 1_061),
        ProgressReport { progress: SyncProgress::Stalled, remaining_sync_blocks: 61 }
    );
    assert_eq!(report(true, 1_000, 1_060).progress, SyncProgress::FinishedInitialSync);
    assert_eq!(report(true, 1_000, 1_000).progress, SyncProgress::FinishedInitialSync);
    assert_eq!(report(false, 1_000, 1_001).progress, SyncProgress::FinishedInitialSync);
    assert_eq!(report(false, 1_000, 1_002).progress, SyncProgress::Syncing);
    assert_eq!(
        report(false, 5, u32::MAX),
        ProgressReport { progress: SyncProgress::Syncing, remaining_sync_blocks: i64::from(u32::MAX) - 5 }
    );
    // The node is ahead of the estimate.
    assert_eq!(
        report(false, u32::MAX, 0),
        ProgressReport { progress: SyncProgress::FinishedInitialSync, remaining_sync_blocks: -i64::from(u32::MAX) }
    );
}

fn version_message(version: u32, nonce: u64) -> VersionMessage {
    VersionMessage {
        version: Version(version),
        services: PeerServices::node_network(),
        timestamp: DateTime32 { timestamp: 1_600_000_000 },
        address_recv: addr(1),
        address_from: addr(2),
        nonce: Nonce(nonce),
        start_height: Height(0),
        relay: true,
    }
}

#[test]
fn handshake_takes_version_then_verack() {
    let mut nonces = NonceSet::new();
    nonces.insert(Nonce(5), DateTime32 { timestamp: 10 });
    let step = |state: HandshakeState, message: HandshakeMessage| {
        on_handshake_message(state, message, addr(2), Network::Mainnet, Some(Height(1)), &nonces)
    };
    let awaiting_verack = HandshakeState::AwaitingVerack { peer: addr(2), version: Version(170_013) };
    assert_eq!(
        step(HandshakeState::AwaitingVersion, HandshakeMessage::Version(version_message(170_013, 1))),
        (awaiting_verack, HandshakeAction::SendVerack)
    );
    let connected = HandshakeState::Connected { peer: addr(2), version: Version(170_013) };
    assert_eq!(step(awaiting_verack, HandshakeMessage::Verack), (connected, HandshakeAction::Start));
    assert_eq!(step(connected, HandshakeMessage::Verack), (connected, HandshakeAction::Nothing));
    assert_eq!(step(connected, HandshakeMessage::Other), (connected, HandshakeAction::Nothing));

    let unexpected = (
        HandshakeState::Failed(HandshakeError::UnexpectedMessage),
        HandshakeAction::Abort(HandshakeError::UnexpectedMessage),
    );
    assert_eq!(step(HandshakeState::AwaitingVersion, HandshakeMessage::Verack), unexpected);
    assert_eq!(step(HandshakeState::AwaitingVersion, HandshakeMessage::Other), unexpected);
    assert_eq!(step(awaiting_verack, HandshakeMessage::Version(version_message(170_013, 1))), unexpected);
    assert_eq!(step(awaiting_verack, HandshakeMessage::Other), unexpected);

    let obsolete = HandshakeError::ObsoleteVersion(Version(170_011));
    assert_eq!(
        step(HandshakeState::AwaitingVersion, HandshakeMessage::Version(version_message(170_011, 1))),
        (HandshakeState::Failed(obsolete), HandshakeAction::Abort(obsolete))
    );
    assert_eq!(
        step(HandshakeState::AwaitingVersion, HandshakeMessage::Version(version_message(170_013, 5))),
        (HandshakeState::Failed(HandshakeError::NonceReuse), HandshakeAction::Abort(HandshakeError::NonceReuse))
    );
    let failed = HandshakeState::Failed(HandshakeError::NonceReuse);
    assert_eq!(step(failed, HandshakeMessage::Verack), (failed, HandshakeAction::Nothing));

    for cause in [HandshakeError::Timeout, HandshakeError::ConnectionClosed] {
        for state in [HandshakeState::AwaitingVersion, awaiting_verack] {
            assert_eq!(on_handshake_failure(state, cause), (HandshakeState::Failed(cause), HandshakeAction::Abort(cause)));
        }
        assert_eq!(on_handshake_failure(connected, cause), (connected, HandshakeAction::Nothing));
        assert_eq!(on_handshake_failure(failed, cause), (failed, HandshakeAction::Nothing));
    }
}
