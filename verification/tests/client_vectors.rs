use zebra_core::network::peer::client::{ChannelStatus, Client, ClientObservation, Readiness};
use zebra_core::network::peer::connection::{Connection, Outcome, RequestKind, State};
use zebra_core::network::peer::error::{ErrorSlot, PeerError, SharedPeerError};
use zebra_core::network::protocol::types::Version;

/// What stands for the tasks and the channel of a client in these tests.
struct ClientTestHarness {
    seen: ClientObservation,
}

impl ClientTestHarness {
    /// A client whose tasks are alive and whose channel is open, with what is seen of them.
    fn build() -> (Client, ClientTestHarness) {
        let seen = ClientObservation {
            channel: ChannelStatus::Open,
            connection_task_alive: true,
            heartbeat_task_alive: true,
        };
        (Client::new(ErrorSlot::default(), Version(0)), ClientTestHarness { seen })
    }

    fn drop_heartbeat_shutdown_receiver(&mut self) {
        self.seen.heartbeat_task_alive = false;
    }

    fn stop_heartbeat_task(&mut self) {
        self.seen.heartbeat_task_alive = false;
    }

    fn stop_connection_task(&mut self) {
        self.seen.connection_task_alive = false;
    }

    fn drop_outbound_client_request_receiver(&mut self) {
        self.seen.channel = ChannelStatus::Closed;
    }

    fn close_outbound_client_request_receiver(&mut self) {
        self.seen.channel = ChannelStatus::Closed;
    }
}

fn is_ready(client: &mut Client, harness: &ClientTestHarness) -> bool {
    client.poll_ready(&harness.seen) == Readiness::Ready
}

fn is_failed(client: &mut Client, harness: &ClientTestHarness) -> bool {
    matches!(client.poll_ready(&harness.seen), Readiness::Failed(_))
}

#[test]
fn client_service_ready_ok() {
    let (mut client, harness) = ClientTestHarness::build();

    assert!(is_ready(&mut client, &harness));
    assert!(client.current_error().is_none());
    assert!(client.wants_connection_heartbeats());
    assert!(!client.is_request_channel_closed());
}

#[test]
fn client_service_ready_heartbeat_exit() {
    let (mut client, mut harness) = ClientTestHarness::build();

    client.set_error(SharedPeerError(PeerError::HeartbeatTaskExited));
    harness.drop_heartbeat_shutdown_receiver();

    assert!(is_failed(&mut client, &harness));
    assert!(client.current_error().is_some());
    assert!(client.is_request_channel_closed());
}

#[test]
fn client_service_ready_request_drop() {
    let (mut client, mut harness) = ClientTestHarness::build();

    client.set_error(SharedPeerError(PeerError::ConnectionDropped));
    harness.drop_outbound_client_request_receiver();

    assert!(is_failed(&mut client, &harness));
    assert!(client.current_error().is_some());
    assert!(!client.wants_connection_heartbeats());
}

#[test]
fn client_service_ready_request_close() {
    let (mut client, mut harness) = ClientTestHarness::build();

    client.set_error(SharedPeerError(PeerError::ConnectionClosed));
    harness.close_outbound_client_request_receiver();

    assert!(is_failed(&mut client, &harness));
    assert!(client.current_error().is_some());
    assert!(!client.wants_connection_heartbeats());
    assert!(client.is_request_channel_closed());
}

#[test]
fn client_service_ready_error_in_slot() {
    let (mut client, harness) = ClientTestHarness::build();

    client.set_error(SharedPeerError(PeerError::Overloaded));

    assert!(is_failed(&mut client, &harness));
    assert!(client.current_error().is_some());
    assert!(!client.wants_connection_heartbeats());
    assert!(client.is_request_channel_closed());
}

#[test]
fn client_service_ready_multiple_errors() {
    let (mut client, mut harness) = ClientTestHarness::build();

    client.set_error(SharedPeerError(PeerError::DuplicateHandshake));
    harness.drop_heartbeat_shutdown_receiver();
    harness.close_outbound_client_request_receiver();

    assert!(is_failed(&mut client, &harness));
    assert_eq!(client.current_error(), Some(SharedPeerError(PeerError::DuplicateHandshake)));
    assert!(client.is_request_channel_closed());
}

#[test]
fn client_service_drop_cleanup() {
    let (mut client, _harness) = ClientTestHarness::build();

    client.shutdown();

    assert!(client.current_error().is_some());
    assert!(!client.wants_connection_heartbeats());
    assert!(client.is_request_channel_closed());
}

/// Force the connection background task to stop, and check if the `Client` properly handles it.
#[test]
fn client_service_handles_exited_connection_task() {
    let (mut client, mut harness) = ClientTestHarness::build();

    harness.stop_connection_task();

    assert!(is_failed(&mut client, &harness));
    assert!(client.current_error().is_some());
    assert!(!client.wants_connection_heartbeats());
    assert!(client.is_request_channel_closed());
}

/// Force the heartbeat background task to stop, and check if the `Client` properly handles it.
#[test]
fn client_service_handles_exited_heartbeat_task() {
    let (mut client, mut harness) = ClientTestHarness::build();

    harness.stop_heartbeat_task();

    assert!(is_failed(&mut client, &harness));
    assert!(client.current_error().is_some());
    assert!(!client.wants_connection_heartbeats());
    assert!(client.is_request_channel_closed());
}

fn new_test_connection() -> (Connection, ErrorSlot) {
    let shared_error_slot = ErrorSlot::default();
    (Connection::new(shared_error_slot), shared_error_slot)
}

#[test]
fn connection_run_loop_ok() {
    let (connection, _) = new_test_connection();

    // The connection waits for a request of the client or of the peer, without any error.
    assert_eq!(connection.state(), State::AwaitingRequest);
    let error = connection.current_error();
    assert!(matches!(error, None), "unexpected connection error: {:?}", error);
}

#[test]
fn connection_run_loop_future_drop() {
    let (mut connection, _) = new_test_connection();

    assert_eq!(
        connection.fail_with(PeerError::ConnectionDropped),
        Outcome::Shutdown(SharedPeerError(PeerError::ConnectionDropped))
    );

    let error = connection.current_error();
    assert!(matches!(error, Some(_)));
    assert_eq!(connection.state(), State::Failed);
}

#[test]
fn connection_run_loop_client_close() {
    let (mut connection, _) = new_test_connection();

    // The client has closed its channel.
    assert_eq!(
        connection.fail_with(PeerError::ClientDropped),
        Outcome::Shutdown(SharedPeerError(PeerError::ClientDropped))
    );

    let error = connection.current_error();
    assert!(matches!(error, Some(_)));
    assert_eq!(connection.state(), State::Failed);
}

#[test]
fn connection_run_loop_inbound_close() {
    let (mut connection, _) = new_test_connection();

    // The peer has closed its stream.
    assert_eq!(
        connection.fail_with(PeerError::ConnectionClosed),
        Outcome::Shutdown(SharedPeerError(PeerError::ConnectionClosed))
    );

    let error = connection.current_error();
    assert!(matches!(error, Some(_)));
    assert_eq!(connection.state(), State::Failed);
    assert_eq!(
        connection.handle_client_request(RequestKind::Peers, vec![], 0),
        Outcome::DeliverError(PeerError::ConnectionClosed)
    );
}

#[test]
fn connection_run_loop_failed() {
    let mut shared_error_slot = ErrorSlot::default();

    // Simulate an internal connection error.
    shared_error_slot
        .try_update_error(SharedPeerError(PeerError::ClientRequestTimeout))
        .expect("unexpected previous error in tests");
    let mut connection = Connection::new(shared_error_slot);

    assert_eq!(
        connection.fail_with(PeerError::ConnectionClosed),
        Outcome::Shutdown(SharedPeerError(PeerError::ClientRequestTimeout))
    );

    let error = connection.current_error();
    assert_eq!(error, Some(SharedPeerError(PeerError::ClientRequestTimeout)));
    assert_eq!(connection.state(), State::Failed);
}
