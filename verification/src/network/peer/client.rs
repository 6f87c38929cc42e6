//! The handle through which the node sends requests to one peer.

use vstd::prelude::*;

use crate::network::peer::connection::RequestKind;
use crate::network::peer::error::{ErrorSlot, PeerError, SharedPeerError};
use crate::network::protocol::types::Version;

verus! {

/// How the channel that carries requests to the connection stands.
#[derive(Clone, Copy, Debug, PartialEq, Eq, Hash, Structural)]
pub enum ChannelStatus {
    /// The channel has room for a request.
    Open,
    /// The channel is full.
    Full,
    /// The connection has closed or dropped its end of the channel.
    Closed,
}

/// What is seen of the tasks and the channel of a client at one moment.
#[derive(Clone, Copy, Debug, PartialEq, Eq, Hash, Structural)]
pub struct ClientObservation {
    /// How the request channel stands.
    pub channel: ChannelStatus,
    /// Whether the task that runs the connection is alive.
    pub connection_task_alive: bool,
    /// Whether the task that sends heartbeats is alive.
    pub heartbeat_task_alive: bool,
}

/// Whether a client can take a request.
#[derive(Clone, Copy, Debug, PartialEq, Eq, Hash, Structural)]
pub enum Readiness {
    /// The client can take a request now.
    Ready,
    /// The client can take no request now, but may later.
    Pending,
    /// The client has failed for good, with the error given.
    Failed(SharedPeerError),
}

/// The error that ends a client, if what is seen of it ends it.
///
/// An error in the error slot ends the client.  Without one, the end of the
/// connection task does, then the end of the heartbeat task, then a closed
/// request channel.
pub open spec fn terminal_error(held: Option<SharedPeerError>, seen: ClientObservation) -> Option<SharedPeerError> {
    match held {
        Some(error) => Some(error),
        None => if !seen.connection_task_alive {
            Some(SharedPeerError(PeerError::ConnectionTaskExited))
        } else if !seen.heartbeat_task_alive {
            Some(SharedPeerError(PeerError::HeartbeatTaskExited))
        } else if seen.channel == ChannelStatus::Closed {
            Some(SharedPeerError(PeerError::ConnectionClosed))
        } else {
            None
        },
    }
}

/// Whether a client is ready: ready if and only if the error slot is empty,
/// both tasks are alive and the request channel is neither closed nor full.
pub open spec fn readiness(held: Option<SharedPeerError>, seen: ClientObservation) -> Readiness {
    match terminal_error(held, seen) {
        Some(error) => Readiness::Failed(error),
        None => if seen.channel == ChannelStatus::Full {
            Readiness::Pending
        } else {
            Readiness::Ready
        },
    }
}

/// The handle through which the node sends requests to one peer.
#[derive(Debug)]
pub struct Client {
    error_slot: ErrorSlot,
    version: Version,
    request_channel_open: bool,
    heartbeat_wanted: bool,
}

impl Client {
    /// The error that ended the client, if it has ended.
    pub closed spec fn error(&self) -> Option<SharedPeerError> {
        self.error_slot.held()
    }

    /// Whether the client keeps its end of the request channel open.
    pub closed spec fn channel_open(&self) -> bool {
        self.request_channel_open
    }

    /// Whether the client wants the heartbeat task to go on.
    pub closed spec fn heartbeat_wanted(&self) -> bool {
        self.heartbeat_wanted
    }

    /// The protocol version that the peer speaks.
    pub closed spec fn spec_version(&self) -> Version {
        self.version
    }

    /// A client of a peer that speaks `version`, with the error slot that it
    /// shares with the connection.
    pub fn new(error_slot: ErrorSlot, version: Version) -> (client: Self)
        ensures
            client.error() == error_slot.held(),
            client.channel_open(),
            client.heartbeat_wanted(),
            client.spec_version() == version,
    {
        Client { error_slot, version, request_channel_open: true, heartbeat_wanted: true }
    }

    /// The protocol version that the peer speaks.
    pub fn version(&self) -> (version: Version)
        ensures
            version == self.spec_version(),
    {
        self.version
    }

    /// The error that ended the client, if it has ended.
    pub fn current_error(&self) -> (error: Option<SharedPeerError>)
        ensures
            error == self.error(),
    {
        self.error_slot.try_get_error()
    }

    /// Whether the request channel is closed on the client's side.
    pub fn is_request_channel_closed(&self) -> (closed: bool)
        ensures
            closed == !self.channel_open(),
    {
        !self.request_channel_open
    }

    /// Whether the client wants the heartbeat task to go on.
    pub fn wants_connection_heartbeats(&self) -> (wanted: bool)
        ensures
            wanted == self.heartbeat_wanted(),
    {
        self.heartbeat_wanted
    }

    /// Puts `error` into the error slot if the slot is empty.
    pub fn set_error(&mut self, error: SharedPeerError)
        ensures
            final(self).error() == crate::network::peer::error::slot_after(old(self).error(), error),
            final(self).channel_open() == old(self).channel_open(),
            final(self).heartbeat_wanted() == old(self).heartbeat_wanted(),
            final(self).spec_version() == old(self).spec_version(),
    {
        let _ = self.error_slot.try_update_error(error);
    }

    /// Says whether the client can take a request, given what is seen of its
    /// tasks and its channel.  A client that has failed keeps the error in
    /// its slot, closes the request channel and lets the heartbeat task end.
    pub fn poll_ready(&mut self, seen: &ClientObservation) -> (ready: Readiness)
        ensures
            ready == readiness(old(self).error(), *seen),
            final(self).error() == terminal_error(old(self).error(), *seen),
            ready is Failed ==> !final(self).channel_open() && !final(self).heartbeat_wanted(),
            !(ready is Failed) ==> final(self).channel_open() == old(self).channel_open(),
            !(ready is Failed) ==> final(self).heartbeat_wanted() == old(self).heartbeat_wanted(),
            final(self).spec_version() == old(self).spec_version(),
    {
        let failure = match self.error_slot.try_get_error() {
            Some(error) => Some(error),
            None => if !seen.connection_task_alive {
                Some(SharedPeerError(PeerError::ConnectionTaskExited))
            } else if !seen.heartbeat_task_alive {
                Some(SharedPeerError(PeerError::HeartbeatTaskExited))
            } else {
                match seen.channel {
                    ChannelStatus::Closed => Some(SharedPeerError(PeerError::ConnectionClosed)),
                    _ => None,
                }
            },
        };
        match failure {
            Some(error) => {
                let _ = self.error_slot.try_update_error(error);
                self.request_channel_open = false;
                self.heartbeat_wanted = false;
                Readiness::Failed(error)
            },
            None => match seen.channel {
                ChannelStatus::Full => Readiness::Pending,
                _ => Readiness::Ready,
            },
        }
    }

    /// Lets go of the client: the request channel is closed and the
    /// heartbeat task is told to end.  Returns the error with which the
    /// connection ends if nothing has ended it yet.
    pub fn shutdown(&mut self) -> (error: SharedPeerError)
        ensures
            error == SharedPeerError(PeerError::ConnectionDropped),
            final(self).error() == crate::network::peer::error::slot_after(old(self).error(), error),
            !final(self).channel_open(),
            !final(self).heartbeat_wanted(),
            final(self).spec_version() == old(self).spec_version(),
    {
        let error = SharedPeerError(PeerError::ConnectionDropped);
        let _ = self.error_slot.try_update_error(error);
        self.request_channel_open = false;
        self.heartbeat_wanted = false;
        error
    }
}

/// A request of a client on its way to the connection.
#[derive(Clone, Copy, Debug, PartialEq, Eq, Structural)]
pub struct ClientRequest {
    /// What is asked of the peer.
    pub request: RequestKind,
}

/// What came of an attempt to take a request of a client from the request channel.
#[derive(Clone, Copy, Debug, PartialEq, Eq, Structural)]
pub enum ReceiveRequestAttempt {
    /// The client has closed its end of the channel.
    Closed,
    /// No request was waiting in the channel.
    Empty,
    /// A request was taken.
    Request(ClientRequest),
}

impl ReceiveRequestAttempt {
    /// Whether the attempt found the channel closed.
    pub fn is_closed(&self) -> (closed: bool)
        ensures
            closed == (*self is Closed),
    {
        match self {
            ReceiveRequestAttempt::Closed => true,
            _ => false,
        }
    }

    /// Whether the attempt found no request.
    pub fn is_empty(&self) -> (empty: bool)
        ensures
            empty == (*self is Empty),
    {
        match self {
            ReceiveRequestAttempt::Empty => true,
            _ => false,
        }
    }

    /// The request that was taken, if one was.
    pub fn request(self) -> (request: Option<ClientRequest>)
        ensures
            self matches ReceiveRequestAttempt::Request(taken) ==> request == Some(taken),
            !(self is Request) ==> request.is_none(),
    {
        match self {
            ReceiveRequestAttempt::Request(request) => Some(request),
            ReceiveRequestAttempt::Closed | ReceiveRequestAttempt::Empty => None,
        }
    }
}

} // verus!
