use zebra_core::chain::block::Height;
use zebra_core::chain::parameters::{Network, NetworkUpgrade};
use zebra_core::chain::serialization::DateTime32;
use zebra_core::network::meta_addr::{IpAddress, PeerAddress};
use zebra_core::network::peer::client::{
    ChannelStatus, Client, ClientObservation, ClientRequest, Readiness, ReceiveRequestAttempt,
};
use zebra_core::network::peer::connection::{
    Connection, Outcome, PeerMessage, RequestKind, ResponseKind, State, REQUEST_TIMEOUT_SECS,
};
use zebra_core::network::peer::error::{AlreadyErrored, ErrorSlot, PeerError, SharedPeerError};
use zebra_core::network::peer::handshake::{
    check_remote_version, is_version_obsolete, local_version_message, HandshakeError, NonceSet, VersionMessage,
    NONCE_WINDOW_SECS,
};
use zebra_core::network::peer::meta_data::PeerMetaData;
use zebra_core::network::peer_set::inventory_registry::InventoryRegistry;
use zebra_core::network::peer_set::limit::ActiveConnectionCounter;
use zebra_core::network::peer_set::ready_service::ReadyService;
use zebra_core::network::peer_set::set::{dispatch, Dispatch, Routing};
use zebra_core::network::peer_set::signals::{CancelClientWork, MorePeers};
use zebra_core::network::protocol::inv::InventoryHash;
use zebra_core::network::protocol::types::{Nonce, PeerServices, Version};

fn healthy() -> ClientObservation {
    ClientObservation { channel: ChannelStatus::Open, connection_task_alive: true, heartbeat_task_alive: true }
}

fn client() -> Client {
    Client::new(ErrorSlot::default(), Version(170_013))
}

#[test]
fn client_is_ready_while_everything_is_alive() {
    let mut client = client();
    assert_eq!(client.poll_ready(&healthy()), Readiness::Ready);
    assert!(client.current_error().is_none());
    assert!(client.wants_connection_heartbeats());
    assert!(!client.is_request_channel_closed());
    assert_eq!(client.version(), Version(170_013));
    // A full channel is no failure.
    let full = ClientObservation { channel: ChannelStatus::Full, ..healthy() };
    assert_eq!(client.poll_ready(&full), Readiness::Pending);
    assert!(client.current_error().is_none());
    assert_eq!(client.poll_ready(&healthy()), Readiness::Ready);
}

#[test]
fn client_readiness_after_heartbeat_exit() {
    let mut client = client();
    client.set_error(SharedPeerError(PeerError::HeartbeatTaskExited));
    let seen = ClientObservation { heartbeat_task_alive: false, ..healthy() };
    assert_eq!(client.poll_ready(&seen), Readiness::Failed(SharedPeerError(PeerError::HeartbeatTaskExited)));
    assert!(client.current_error().is_some());
    assert!(client.is_request_channel_closed());
    assert!(!client.wants_connection_heartbeats());
}

#[test]
fn client_fails_for_each_terminal_cause() {
    for (seen, error) in [
        (ClientObservation { connection_task_alive: false, ..healthy() }, PeerError::ConnectionTaskExited),
        (ClientObservation { heartbeat_task_alive: false, ..healthy() }, PeerError::HeartbeatTaskExited),
        (ClientObservation { channel: ChannelStatus::Closed, ..healthy() }, PeerError::ConnectionClosed),
        (
            ClientObservation { channel: ChannelStatus::Closed, connection_task_alive: false, heartbeat_task_alive: false },
            PeerError::ConnectionTaskExited,
        ),
    ] {
        let mut client = client();
        assert_eq!(client.poll_ready(&seen), Readiness::Failed(SharedPeerError(error)));
        assert_eq!(client.current_error(), Some(SharedPeerError(error)));
        assert!(client.is_request_channel_closed());
        assert!(!client.wants_connection_heartbeats());
        // The failure is final.
        assert_eq!(client.poll_ready(&healthy()), Readiness::Failed(SharedPeerError(error)));
    }
    for error in [
        PeerError::Overloaded,
        PeerError::DuplicateHandshake,
        PeerError::ClientRequestTimeout,
        PeerError::ConnectionDropped,
        PeerError::ConnectionClosed,
    ] {
        let mut client = client();
        client.set_error(SharedPeerError(error));
        assert_eq!(client.poll_ready(&healthy()), Readiness::Failed(SharedPeerError(error)));
        assert!(client.is_request_channel_closed());
        assert!(!client.wants_connection_heartbeats());
    }
}

#[test]
fn client_drop_cleanup() {
    let mut client = client();
    assert_eq!(client.shutdown(), SharedPeerError(PeerError::ConnectionDropped));
    assert_eq!(client.current_error(), Some(SharedPeerError(PeerError::ConnectionDropped)));
    assert!(!client.wants_connection_heartbeats());
    assert!(client.is_request_channel_closed());
}

#[test]
fn error_slot_keeps_the_first_error() {
    let mut slot = ErrorSlot::default();
    assert_eq!(slot.try_get_error(), None);
    assert_eq!(slot.try_update_error(SharedPeerError(PeerError::Overloaded)), Ok(()));
    assert_eq!(slot.try_get_error(), Some(SharedPeerError(PeerError::Overloaded)));
    for later in [PeerError::ConnectionClosed, PeerError::Overloaded, PeerError::HeartbeatTaskExited] {
        assert_eq!(
            slot.try_update_error(SharedPeerError(later)),
            Err(AlreadyErrored { original_error: SharedPeerError(PeerError::Overloaded) })
        );
        assert_eq!(slot.try_get_error(), Some(SharedPeerError(PeerError::Overloaded)));
    }
}

#[test]
fn receive_request_attempts() {
    let request = ClientRequest { request: RequestKind::Peers };
    assert!(ReceiveRequestAttempt::Closed.is_closed());
    assert!(!ReceiveRequestAttempt::Closed.is_empty());
    assert!(ReceiveRequestAttempt::Empty.is_empty());
    assert!(!ReceiveRequestAttempt::Empty.is_closed());
    assert!(!ReceiveRequestAttempt::Request(request).is_closed());
    assert!(!ReceiveRequestAttempt::Request(request).is_empty());
    assert_eq!(ReceiveRequestAttempt::Request(request).request(), Some(request));
    assert_eq!(ReceiveRequestAttempt::Closed.request(), None);
    assert_eq!(ReceiveRequestAttempt::Empty.request(), None);
}

fn block(n: u128) -> InventoryHash {
    InventoryHash::Block(zebra_core::chain::block::Hash(0, n))
}

#[test]
fn connection_answers_one_request_at_a_time() {
    let mut connection = Connection::new(ErrorSlot::default());
    assert_eq!(connection.state(), State::AwaitingRequest);
    assert_eq!(connection.handle_client_request(RequestKind::Ping(Nonce(7)), vec![], 100), Outcome::SendToPeer);
    assert_eq!(
        connection.state(),
        State::AwaitingResponse { kind: ResponseKind::Ping(Nonce(7)), deadline: 100 + REQUEST_TIMEOUT_SECS }
    );
    // No second request while the first waits.
    assert_eq!(
        connection.handle_client_request(RequestKind::Peers, vec![], 101),
        Outcome::DeliverError(PeerError::Overloaded)
    );
    // Messages that are not the answer are requests or notices of the peer.
    assert_eq!(connection.handle_peer_message(PeerMessage::Pong(Nonce(8))), Outcome::Ignore);
    assert_eq!(connection.handle_peer_message(PeerMessage::Ping(Nonce(1))), Outcome::ReplyPong(Nonce(1)));
    assert_eq!(connection.handle_peer_message(PeerMessage::GetAddr), Outcome::CallInbound);
    assert_eq!(connection.handle_peer_message(PeerMessage::Addr), Outcome::Notify);
    assert_eq!(connection.handle_peer_message(PeerMessage::Item(block(1))), Outcome::CallInbound);
    assert_eq!(connection.handle_timer(100 + REQUEST_TIMEOUT_SECS - 1), Outcome::Ignore);
    assert_eq!(connection.handle_peer_message(PeerMessage::Pong(Nonce(7))), Outcome::Deliver);
    assert_eq!(connection.state(), State::AwaitingRequest);
    assert_eq!(connection.handle_peer_message(PeerMessage::Pong(Nonce(7))), Outcome::Ignore);

    for (kind, answer) in [
        (RequestKind::Peers, PeerMessage::Addr),
        (RequestKind::FindBlocks, PeerMessage::BlockHashes),
        (RequestKind::MempoolTransactionIds, PeerMessage::TransactionIds),
    ] {
        assert_eq!(connection.handle_client_request(kind, vec![], 0), Outcome::SendToPeer);
        assert_eq!(connection.handle_peer_message(PeerMessage::Mempool), Outcome::CallInbound);
        assert_eq!(connection.handle_peer_message(answer), Outcome::Deliver);
        assert_eq!(connection.state(), State::AwaitingRequest);
    }
    for kind in [RequestKind::AdvertiseBlock, RequestKind::AdvertiseTransactionIds, RequestKind::PushTransaction] {
        assert_eq!(connection.handle_client_request(kind, vec![], 0), Outcome::SendAndComplete);
        assert_eq!(connection.state(), State::AwaitingRequest);
    }
}

#[test]
fn connection_accumulates_blocks() {
    let mut connection = Connection::new(ErrorSlot::default());
    let wanted = vec![block(1), block(2), block(3)];
    assert_eq!(connection.handle_client_request(RequestKind::BlocksByHash, wanted, 0), Outcome::SendToPeer);
    assert_eq!(connection.handle_peer_message(PeerMessage::Item(block(2))), Outcome::Accumulate);
    // What comes in between changes nothing of what was gathered.
    assert_eq!(connection.handle_peer_message(PeerMessage::Item(block(9))), Outcome::CallInbound);
    assert_eq!(connection.handle_peer_message(PeerMessage::Item(block(2))), Outcome::CallInbound);
    assert_eq!(connection.handle_peer_message(PeerMessage::TransactionIds), Outcome::Notify);
    assert_eq!(connection.received(), vec![block(2)]);
    assert_eq!(connection.handle_peer_message(PeerMessage::Item(block(1))), Outcome::Accumulate);
    assert_eq!(connection.handle_peer_message(PeerMessage::Item(block(3))), Outcome::Deliver);
    assert_eq!(connection.received(), vec![block(2), block(1), block(3)]);
    assert_eq!(connection.state(), State::AwaitingRequest);

    // The peer does not find the rest: what has come is handed over.
    assert_eq!(connection.handle_client_request(RequestKind::BlocksByHash, vec![block(4), block(5)], 0), Outcome::SendToPeer);
    assert_eq!(connection.received(), vec![]);
    assert_eq!(connection.handle_peer_message(PeerMessage::Item(block(5))), Outcome::Accumulate);
    assert_eq!(connection.handle_peer_message(PeerMessage::NotFound), Outcome::Deliver);
    assert_eq!(connection.received(), vec![block(5)]);
    // The peer finds nothing.
    assert_eq!(connection.handle_client_request(RequestKind::TransactionsById, vec![block(4)], 0), Outcome::SendToPeer);
    assert_eq!(connection.handle_peer_message(PeerMessage::NotFound), Outcome::DeliverError(PeerError::NotFound));
    assert_eq!(connection.state(), State::AwaitingRequest);
}

#[test]
fn connection_timeout_and_cancel_keep_the_connection() {
    let mut connection = Connection::new(ErrorSlot::default());
    assert_eq!(connection.handle_timer(1_000), Outcome::Ignore);
    assert_eq!(connection.handle_cancel(), Outcome::Ignore);
    assert_eq!(connection.handle_client_request(RequestKind::Peers, vec![], 50), Outcome::SendToPeer);
    assert_eq!(
        connection.handle_timer(50 + REQUEST_TIMEOUT_SECS),
        Outcome::DeliverError(PeerError::ClientRequestTimeout)
    );
    assert_eq!(connection.state(), State::AwaitingRequest);
    assert_eq!(connection.handle_client_request(RequestKind::Peers, vec![], u64::MAX), Outcome::SendToPeer);
    assert_eq!(connection.state(), State::AwaitingResponse { kind: ResponseKind::Peers, deadline: u64::MAX });
    assert_eq!(connection.handle_cancel(), Outcome::DeliverError(PeerError::ClientCancelled));
    assert_eq!(connection.state(), State::AwaitingRequest);
    assert_eq!(connection.current_error(), None);
}

#[test]
fn connection_failure_is_final() {
    let mut connection = Connection::new(ErrorSlot::default());
    assert_eq!(connection.handle_client_request(RequestKind::BlocksByHash, vec![block(1)], 0), Outcome::SendToPeer);
    assert_eq!(
        connection.fail_with(PeerError::ConnectionClosed),
        Outcome::Shutdown(SharedPeerError(PeerError::ConnectionClosed))
    );
    assert_eq!(connection.state(), State::Failed);
    assert_eq!(connection.current_error(), Some(SharedPeerError(PeerError::ConnectionClosed)));
    // Nothing changes a failed connection.
    assert_eq!(connection.fail_with(PeerError::Overloaded), Outcome::Ignore);
    assert_eq!(connection.handle_peer_message(PeerMessage::Item(block(1))), Outcome::Ignore);
    assert_eq!(connection.handle_timer(u64::MAX), Outcome::Ignore);
    assert_eq!(connection.handle_cancel(), Outcome::Ignore);
    assert_eq!(
        connection.handle_client_request(RequestKind::Peers, vec![], 0),
        Outcome::DeliverError(PeerError::ConnectionClosed)
    );
    assert_eq!(connection.state(), State::Failed);
    assert_eq!(connection.current_error(), Some(SharedPeerError(PeerError::ConnectionClosed)));

    // An error that the slot holds already stays the cause.
    let mut slot = ErrorSlot::default();
    slot.try_update_error(SharedPeerError(PeerError::ClientRequestTimeout)).unwrap();
    let mut connection = Connection::new(slot);
    assert_eq!(
        connection.fail_with(PeerError::ConnectionDropped),
        Outcome::Shutdown(SharedPeerError(PeerError::ClientRequestTimeout))
    );
    assert_eq!(connection.current_error(), Some(SharedPeerError(PeerError::ClientRequestTimeout)));
}

fn peer_addr(n: u32) -> PeerAddress {
    PeerAddress { ip: IpAddress::V4(n), port: 8233 }
}

fn version_message(version: u32, nonce: u64) -> VersionMessage {
    VersionMessage {
        version: Version(version),
        services: PeerServices::node_network(),
        timestamp: DateTime32 { timestamp: 1_600_000_000 },
        address_recv: peer_addr(1),
        address_from: peer_addr(2),
        nonce: Nonce(nonce),
        start_height: Height(0),
        relay: true,
    }
}

#[test]
fn handshake_rejects_old_versions_and_own_nonces() {
    let mut nonces = NonceSet::new();
    nonces.insert(Nonce(11), DateTime32 { timestamp: 100 });
    nonces.insert(Nonce(12), DateTime32 { timestamp: 100 + NONCE_WINDOW_SECS });
    assert!(nonces.contains(Nonce(11)));
    nonces.insert(Nonce(13), DateTime32 { timestamp: 101 + NONCE_WINDOW_SECS });
    assert!(!nonces.contains(Nonce(11)));
    assert!(nonces.contains(Nonce(12)));
    assert!(nonces.contains(Nonce(13)));

    let check = |version: u32, nonce: u64| {
        check_remote_version(&version_message(version, nonce), peer_addr(2), Network::Mainnet, Some(Height(5)), &nonces)
    };
    assert_eq!(check(170_012, 1), Err(HandshakeError::ObsoleteVersion(Version(170_012))));
    assert_eq!(check(170_012, 12), Err(HandshakeError::ObsoleteVersion(Version(170_012))));
    assert_eq!(check(170_013, 12), Err(HandshakeError::NonceReuse));
    assert_eq!(check(170_013, 11), Ok(PeerMetaData::new(peer_addr(2), Version(170_013))));
    let meta_data = check(170_100, 1).unwrap();
    assert_eq!(meta_data.address(), peer_addr(2));
    assert_eq!(meta_data.version(), Version(170_100));
    // Two values about the same peer are equal, whatever the versions are.
    assert_eq!(meta_data, PeerMetaData::new(peer_addr(2), Version(1)));
    assert_ne!(meta_data, PeerMetaData::new(peer_addr(3), Version(170_100)));
}

#[test]
fn minimum_peer_version_is_correct() {
    for (network, canopy) in [(Network::Mainnet, 170_013), (Network::Testnet, 170_012)] {
        for height in [None, Some(Height(0)), Some(Height(1)), Some(Height(500_000)), Some(Height(u32::MAX))] {
            assert_eq!(Version::min_remote_for_height(network, height), Version(canopy));
            assert!(is_version_obsolete(Version(canopy - 1), network, height));
            assert!(!is_version_obsolete(Version(canopy), network, height));
        }
    }
    assert_eq!(NetworkUpgrade::current(Network::Mainnet, Height(0)), NetworkUpgrade::Genesis);
    assert_eq!(NetworkUpgrade::current(Network::Mainnet, Height(1)), NetworkUpgrade::BeforeOverwinter);
    assert_eq!(NetworkUpgrade::current(Network::Mainnet, Height(347_499)), NetworkUpgrade::BeforeOverwinter);
    assert_eq!(NetworkUpgrade::current(Network::Mainnet, Height(347_500)), NetworkUpgrade::Overwinter);
    assert_eq!(NetworkUpgrade::current(Network::Mainnet, Height(419_200)), NetworkUpgrade::Sapling);
    assert_eq!(NetworkUpgrade::current(Network::Testnet, Height(584_000)), NetworkUpgrade::Blossom);
    assert_eq!(NetworkUpgrade::current(Network::Testnet, Height(903_800)), NetworkUpgrade::Heartwood);
    assert_eq!(NetworkUpgrade::current(Network::Mainnet, Height(1_046_400)), NetworkUpgrade::Canopy);
    assert_eq!(NetworkUpgrade::Canopy.activation_height(Network::Testnet), Height(1_028_500));
    assert_eq!(Version::min_specified_for_upgrade(Network::Mainnet, NetworkUpgrade::Overwinter), Version(170_005));
    assert_eq!(Version::min_specified_for_upgrade(Network::Testnet, NetworkUpgrade::Sapling), Version(170_007));
}

#[test]
fn peer_set_routing() {
    assert_eq!(dispatch(RequestKind::Peers, 0), Dispatch::Wait(MorePeers));
    assert_eq!(dispatch(RequestKind::AdvertiseBlock, 0), Dispatch::Wait(MorePeers));
    assert_eq!(dispatch(RequestKind::AdvertiseBlock, 9), Dispatch::Send { routing: Routing::Broadcast, peers: 9 });
    assert_eq!(
        dispatch(RequestKind::AdvertiseTransactionIds, 1),
        Dispatch::Send { routing: Routing::Broadcast, peers: 1 }
    );
    assert_eq!(dispatch(RequestKind::Peers, 2), Dispatch::Send { routing: Routing::Fanout(3), peers: 2 });
    assert_eq!(dispatch(RequestKind::Peers, 3), Dispatch::Send { routing: Routing::Fanout(3), peers: 3 });
    assert_eq!(dispatch(RequestKind::Peers, 50), Dispatch::Send { routing: Routing::Fanout(3), peers: 3 });
    assert_eq!(dispatch(RequestKind::BlocksByHash, 50), Dispatch::Send { routing: Routing::Targeted, peers: 1 });
    assert_eq!(dispatch(RequestKind::TransactionsById, 1), Dispatch::Send { routing: Routing::Targeted, peers: 1 });
    assert_eq!(dispatch(RequestKind::FindBlocks, 4), Dispatch::Send { routing: Routing::LoadBalanced, peers: 1 });
    assert_eq!(MorePeers, MorePeers);
    assert_eq!(CancelClientWork, CancelClientWork);
    let ready = ReadyService::new("service", Version(170_013));
    assert_eq!(ready.service, "service");
    assert_eq!(ready.version, Version(170_013));
}

#[test]
fn inventory_registry_slides() {
    let mut registry = InventoryRegistry::new();
    registry.register(block(1), peer_addr(1));
    registry.register(block(2), peer_addr(1));
    registry.register(block(1), peer_addr(2));
    assert_eq!(registry.peers(&block(1)), vec![peer_addr(1), peer_addr(2)]);
    assert_eq!(registry.peers(&block(3)), vec![]);
    registry.rotate();
    registry.register(block(1), peer_addr(3));
    assert_eq!(registry.peers(&block(1)), vec![peer_addr(1), peer_addr(2), peer_addr(3)]);
    registry.rotate();
    assert_eq!(registry.peers(&block(1)), vec![peer_addr(3)]);
    assert_eq!(registry.peers(&block(2)), vec![]);
    registry.rotate();
    assert_eq!(registry.peers(&block(1)), vec![]);
}

#[test]
fn connections_are_counted_against_the_limit() {
    let mut counter = ActiveConnectionCounter::new_counter_with(2);
    assert!(counter.track_connection());
    assert!(counter.track_connection());
    assert!(!counter.track_connection());
    assert_eq!(counter.count, 2);
    counter.release_connection();
    assert_eq!(counter.count, 1);
    assert!(counter.track_connection());
    counter.release_connection();
    counter.release_connection();
    counter.release_connection();
    assert_eq!(counter.count, 0);
}

#[test]
fn local_version_message_holds_the_tip_height() {
    let message = local_version_message(
        PeerServices::node_network(),
        DateTime32 { timestamp: 9 },
        peer_addr(1),
        peer_addr(2),
        Nonce(77),
        Height(1_000),
    );
    assert_eq!(
        message,
        VersionMessage {
            version: Version(170_013),
            services: PeerServices::node_network(),
            timestamp: DateTime32 { timestamp: 9 },
            address_recv: peer_addr(1),
            address_from: peer_addr(2),
            nonce: Nonce(77),
            start_height: Height(1_000),
            relay: true,
        }
    );
}
