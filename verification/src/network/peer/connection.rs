//! The state machine of the connection to one peer.
//!
//! The node asks a peer and waits for its answer, one request at a time; the
//! peer protocol is a stream of messages in which answers, requests of the
//! peer and notices come in any order.  The connection tells them apart.  It
//! waits for a request of the client or a message of the peer
//! (`AwaitingRequest`), or for the answer to the request that it has sent
//! (`AwaitingResponse`), or it has failed (`Failed`) and stays so.

use vstd::prelude::*;

use crate::network::peer::error::{slot_after, ErrorSlot, PeerError, SharedPeerError};
use crate::network::protocol::inv::InventoryHash;
use crate::network::protocol::types::Nonce;

verus! {

/// Seconds that a peer has to answer a request.
pub const REQUEST_TIMEOUT_SECS: u64 = 20;

/// What a client asks of a peer.
#[derive(Clone, Copy, Debug, PartialEq, Eq, Hash, Structural)]
pub enum RequestKind {
    /// The addresses of other peers.
    Peers,
    /// An echo of the nonce.
    Ping(Nonce),
    /// The hashes of the blocks that follow a block.
    FindBlocks,
    /// The blocks with the given hashes.
    BlocksByHash,
    /// The transactions with the given identifiers.
    TransactionsById,
    /// The identifiers of the transactions in the mempool of the peer.
    MempoolTransactionIds,
    /// Nothing: the peer is told of transactions that we have.
    AdvertiseTransactionIds,
    /// Nothing: the peer is told of a block that we have.
    AdvertiseBlock,
    /// Nothing: the peer is sent a transaction.
    PushTransaction,
}

/// The answer that a connection waits for.
#[derive(Clone, Copy, Debug, PartialEq, Eq, Hash, Structural)]
pub enum ResponseKind {
    /// A pong with the nonce.
    Ping(Nonce),
    /// A list of addresses.
    Peers,
    /// A list of block hashes.
    FindBlocks,
    /// The blocks that were asked for, one message each.
    BlocksByHash,
    /// The transactions that were asked for, one message each.
    TransactionsById,
    /// A list of transaction identifiers.
    MempoolTransactionIds,
}

/// A message of the peer, as far as the connection has to look into it.
#[derive(Clone, Copy, Debug, PartialEq, Eq, Hash, Structural)]
pub enum PeerMessage {
    /// `ping`
    Ping(Nonce),
    /// `pong`
    Pong(Nonce),
    /// `getaddr`
    GetAddr,
    /// `addr` or `addrv2`
    Addr,
    /// `getblocks` or `getheaders`
    GetBlocks,
    /// `getdata`
    GetData,
    /// `mempool`
    Mempool,
    /// `inv` that names blocks
    BlockHashes,
    /// `inv` that names transactions
    TransactionIds,
    /// `block` or `tx`: the item with the given name
    Item(InventoryHash),
    /// `notfound`
    NotFound,
    /// any other message
    Other,
}

/// The state of a connection.
#[derive(Clone, Copy, Debug, PartialEq, Eq, Hash, Structural)]
pub enum State {
    /// Waiting for a request of the client or a message of the peer.
    AwaitingRequest,
    /// Waiting for the answer to a request, until `deadline`.
    AwaitingResponse { kind: ResponseKind, deadline: u64 },
    /// Failed, for good.
    Failed,
}

/// What the caller has to do after a step of the connection.
#[derive(Clone, Copy, Debug, PartialEq, Eq, Hash, Structural)]
pub enum Outcome {
    /// Nothing.
    Ignore,
    /// Write the request of the client to the peer.
    SendToPeer,
    /// Write the request of the client to the peer and tell the client that it is done.
    SendAndComplete,
    /// Hand the answer to the client: the message itself, or the items that were received.
    Deliver,
    /// Tell the client that its request failed with the error.
    DeliverError(PeerError),
    /// Keep the item that came: more items are awaited.
    Accumulate,
    /// Hand the message to the service that answers peers, and write the answer to the peer.
    CallInbound,
    /// Hand the message to the address book or the peer set.
    Notify,
    /// Write a pong with the nonce to the peer.
    ReplyPong(Nonce),
    /// Turn every outstanding request down with the error, close the channels and leave the loop.
    Shutdown(SharedPeerError),
}

/// What a connection is made of.
pub struct ConnectionModel {
    /// The state.
    pub state: State,
    /// The error that ended the connection, if it has ended.
    pub error: Option<SharedPeerError>,
    /// The items that the client has asked for and that are awaited.
    pub wanted: Seq<InventoryHash>,
    /// The items among them that have come.
    pub received: Seq<InventoryHash>,
}

/// The answer that a request waits for, if it waits for one.
pub open spec fn awaited(kind: RequestKind) -> Option<ResponseKind> {
    match kind {
        RequestKind::Peers => Some(ResponseKind::Peers),
        RequestKind::Ping(nonce) => Some(ResponseKind::Ping(nonce)),
        RequestKind::FindBlocks => Some(ResponseKind::FindBlocks),
        RequestKind::BlocksByHash => Some(ResponseKind::BlocksByHash),
        RequestKind::TransactionsById => Some(ResponseKind::TransactionsById),
        RequestKind::MempoolTransactionIds => Some(ResponseKind::MempoolTransactionIds),
        RequestKind::AdvertiseTransactionIds => None,
        RequestKind::AdvertiseBlock => None,
        RequestKind::PushTransaction => None,
    }
}

/// The time at which a request that is sent at `now` is given up.
pub open spec fn deadline_after(now: u64) -> u64 {
    if now + REQUEST_TIMEOUT_SECS > u64::MAX {
        u64::MAX
    } else {
        (now + REQUEST_TIMEOUT_SECS) as u64
    }
}

/// Whether every item of `wanted` is in `received`.
pub open spec fn all_received(wanted: Seq<InventoryHash>, received: Seq<InventoryHash>) -> bool {
    forall|i: int| 0 <= i < wanted.len() ==> received.contains(#[trigger] wanted[i])
}

/// What a message of the peer is when no answer is awaited, or when it is not the answer.
pub open spec fn unsolicited(message: PeerMessage) -> Outcome {
    match message {
        PeerMessage::Ping(nonce) => Outcome::ReplyPong(nonce),
        PeerMessage::GetAddr | PeerMessage::GetBlocks | PeerMessage::GetData | PeerMessage::Mempool => Outcome::CallInbound,
        PeerMessage::Item(_) => Outcome::CallInbound,
        PeerMessage::Addr | PeerMessage::BlockHashes | PeerMessage::TransactionIds => Outcome::Notify,
        PeerMessage::Pong(_) | PeerMessage::NotFound | PeerMessage::Other => Outcome::Ignore,
    }
}

/// The connection after a request of the client, and what the caller has to do.
///
/// A waiting connection sends the request.  If the request has an answer, the
/// connection waits for it; if not, the client is done.  A connection that
/// waits for an answer takes no second request, and a failed connection
/// takes none at all.
pub open spec fn after_request(m: ConnectionModel, kind: RequestKind, wanted: Seq<InventoryHash>, now: u64) -> (
    ConnectionModel,
    Outcome,
) {
    match m.state {
        State::Failed => (m, Outcome::DeliverError(failure_of(m.error))),
        State::AwaitingResponse { .. } => (m, Outcome::DeliverError(PeerError::Overloaded)),
        State::AwaitingRequest => match awaited(kind) {
            None => (m, Outcome::SendAndComplete),
            Some(response) => (
                ConnectionModel {
                    state: State::AwaitingResponse { kind: response, deadline: deadline_after(now) },
                    error: m.error,
                    wanted,
                    received: Seq::empty(),
                },
                Outcome::SendToPeer,
            ),
        },
    }
}

/// The error that a failed connection gives to those who ask of it.
pub open spec fn failure_of(error: Option<SharedPeerError>) -> PeerError {
    match error {
        Some(shared) => shared.0,
        None => PeerError::ConnectionClosed,
    }
}

/// The connection after a message of the peer, and what the caller has to do.
///
/// The message that answers the awaited request goes to the client, and the
/// connection waits for the next request.  Where the answer comes item by
/// item, each awaited item is kept until all have come; when the peer says
/// that it cannot find the rest, the client gets what has come, or an error
/// if nothing has.  Any other message is a request or a notice of the peer;
/// it changes nothing of what is kept for the answer.
pub open spec fn after_message(m: ConnectionModel, message: PeerMessage) -> (ConnectionModel, Outcome) {
    match m.state {
        State::Failed => (m, Outcome::Ignore),
        State::AwaitingRequest => (m, unsolicited(message)),
        State::AwaitingResponse { kind, deadline } => {
            let done = ConnectionModel { state: State::AwaitingRequest, ..m };
            match (kind, message) {
                (ResponseKind::Ping(sent), PeerMessage::Pong(echoed)) => if sent == echoed {
                    (done, Outcome::Deliver)
                } else {
                    (m, Outcome::Ignore)
                },
                (ResponseKind::Peers, PeerMessage::Addr) => (done, Outcome::Deliver),
                (ResponseKind::FindBlocks, PeerMessage::BlockHashes) => (done, Outcome::Deliver),
                (ResponseKind::MempoolTransactionIds, PeerMessage::TransactionIds) => (done, Outcome::Deliver),
                (ResponseKind::BlocksByHash, PeerMessage::Item(item)) | (
                    ResponseKind::TransactionsById,
                    PeerMessage::Item(item),
                ) => if m.wanted.contains(item) && !m.received.contains(item) {
                    let received = m.received.push(item);
                    if all_received(m.wanted, received) {
                        (ConnectionModel { state: State::AwaitingRequest, received, ..m }, Outcome::Deliver)
                    } else {
                        (ConnectionModel { received, ..m }, Outcome::Accumulate)
                    }
                } else {
                    (m, unsolicited(message))
                },
                (ResponseKind::BlocksByHash, PeerMessage::NotFound) | (
                    ResponseKind::TransactionsById,
                    PeerMessage::NotFound,
                ) => if m.received.len() > 0 {
                    (done, Outcome::Deliver)
                } else {
                    (done, Outcome::DeliverError(PeerError::NotFound))
                },
                _ => (m, unsolicited(message)),
            }
        },
    }
}

/// The connection at the time `now`: a request that has waited until its
/// deadline is given up, and the connection waits for the next request.
pub open spec fn after_tick(m: ConnectionModel, now: u64) -> (ConnectionModel, Outcome) {
    match m.state {
        State::AwaitingResponse { kind, deadline } => if now >= deadline {
            (
                ConnectionModel { state: State::AwaitingRequest, ..m },
                Outcome::DeliverError(PeerError::ClientRequestTimeout),
            )
        } else {
            (m, Outcome::Ignore)
        },
        _ => (m, Outcome::Ignore),
    }
}

/// The connection after the client has cancelled its request: the request
/// ends with an error, and the connection stays up.
pub open spec fn after_cancel(m: ConnectionModel) -> (ConnectionModel, Outcome) {
    match m.state {
        State::AwaitingResponse { .. } => (
            ConnectionModel { state: State::AwaitingRequest, ..m },
            Outcome::DeliverError(PeerError::ClientCancelled),
        ),
        _ => (m, Outcome::Ignore),
    }
}

/// The connection after a failure: it has failed, and the error slot holds
/// the cause unless it held an error already.  A connection that had failed
/// before stays as it is.
pub open spec fn after_failure(m: ConnectionModel, cause: PeerError) -> (ConnectionModel, Outcome) {
    match m.state {
        State::Failed => (m, Outcome::Ignore),
        _ => {
            let error = slot_after(m.error, SharedPeerError(cause));
            (
                ConnectionModel { state: State::Failed, error, wanted: Seq::empty(), received: Seq::empty() },
                Outcome::Shutdown(error.unwrap()),
            )
        },
    }
}

/// A failed connection stays failed, and its error stays the same, whatever happens.
pub proof fn law_failed_is_final(
    m: ConnectionModel,
    kind: RequestKind,
    wanted: Seq<InventoryHash>,
    now: u64,
    message: PeerMessage,
    cause: PeerError,
)
    requires
        m.state == State::Failed,
    ensures
        after_request(m, kind, wanted, now).0 == m,
        after_message(m, message).0 == m,
        after_tick(m, now).0 == m,
        after_cancel(m).0 == m,
        after_failure(m, cause).0 == m,
{
}

/// No step changes an error that the error slot holds.
pub proof fn law_error_is_kept(
    m: ConnectionModel,
    kind: RequestKind,
    wanted: Seq<InventoryHash>,
    now: u64,
    message: PeerMessage,
    cause: PeerError,
)
    requires
        m.error.is_some(),
    ensures
        after_request(m, kind, wanted, now).0.error == m.error,
        after_message(m, message).0.error == m.error,
        after_tick(m, now).0.error == m.error,
        after_cancel(m).0.error == m.error,
        after_failure(m, cause).0.error == m.error,
{
}

/// The connection to one peer.
#[derive(Debug)]
pub struct Connection {
    state: State,
    error_slot: ErrorSlot,
    wanted: Vec<InventoryHash>,
    received: Vec<InventoryHash>,
}

impl View for Connection {
    type V = ConnectionModel;

    closed spec fn view(&self) -> ConnectionModel {
        ConnectionModel {
            state: self.state,
            error: self.error_slot.held(),
            wanted: self.wanted@,
            received: self.received@,
        }
    }
}

impl Connection {
    /// A connection that waits for its first request, with the error slot
    /// that it shares with the client.
    pub fn new(error_slot: ErrorSlot) -> (connection: Self)
        ensures
            connection@.state == State::AwaitingRequest,
            connection@.error == error_slot.held(),
            connection@.wanted == Seq::<InventoryHash>::empty(),
            connection@.received == Seq::<InventoryHash>::empty(),
    {
        Connection { state: State::AwaitingRequest, error_slot, wanted: Vec::new(), received: Vec::new() }
    }

    /// The state of the connection.
    pub fn state(&self) -> (state: State)
        ensures
            state == self@.state,
    {
        self.state
    }

    /// The error that ended the connection, if it has ended.
    pub fn current_error(&self) -> (error: Option<SharedPeerError>)
        ensures
            error == self@.error,
    {
        self.error_slot.try_get_error()
    }

    /// The awaited items that have come.
    pub fn received(&self) -> (items: Vec<InventoryHash>)
        ensures
            items@ == self@.received,
    {
        self.received.clone()
    }

    /// Takes a request of the client at the time `now`.
    pub fn handle_client_request(&mut self, kind: RequestKind, wanted: Vec<InventoryHash>, now: u64) -> (outcome: Outcome)
        ensures
            (final(self)@, outcome) == after_request(old(self)@, kind, wanted@, now),
    {
        match self.state {
            State::Failed => {
                let error = match self.error_slot.try_get_error() {
                    Some(shared) => shared.0,
                    None => PeerError::ConnectionClosed,
                };
                Outcome::DeliverError(error)
            },
            State::AwaitingResponse { .. } => Outcome::DeliverError(PeerError::Overloaded),
            State::AwaitingRequest => {
                let response = match kind {
                    RequestKind::Peers => ResponseKind::Peers,
                    RequestKind::Ping(nonce) => ResponseKind::Ping(nonce),
                    RequestKind::FindBlocks => ResponseKind::FindBlocks,
                    RequestKind::BlocksByHash => ResponseKind::BlocksByHash,
                    RequestKind::TransactionsById => ResponseKind::TransactionsById,
                    RequestKind::MempoolTransactionIds => ResponseKind::MempoolTransactionIds,
                    RequestKind::AdvertiseTransactionIds | RequestKind::AdvertiseBlock | RequestKind::PushTransaction => {
                        return Outcome::SendAndComplete;
                    },
                };
                let deadline = now.saturating_add(REQUEST_TIMEOUT_SECS);
                self.state = State::AwaitingResponse { kind: response, deadline };
                self.wanted = wanted;
                self.received = Vec::new();
                Outcome::SendToPeer
            },
        }
    }

    /// Takes a message of the peer.
    pub fn handle_peer_message(&mut self, message: PeerMessage) -> (outcome: Outcome)
        ensures
            (final(self)@, outcome) == after_message(old(self)@, message),
    {
        match self.state {
            State::Failed => Outcome::Ignore,
            State::AwaitingRequest => Self::handle_unsolicited(message),
            State::AwaitingResponse { kind, deadline } => {
                match (kind, message) {
                    (ResponseKind::Ping(sent), PeerMessage::Pong(echoed)) => {
                        if sent == echoed {
                            self.state = State::AwaitingRequest;
                            Outcome::Deliver
                        } else {
                            Outcome::Ignore
                        }
                    },
                    (ResponseKind::Peers, PeerMessage::Addr)
                    | (ResponseKind::FindBlocks, PeerMessage::BlockHashes)
                    | (ResponseKind::MempoolTransactionIds, PeerMessage::TransactionIds) => {
                        self.state = State::AwaitingRequest;
                        Outcome::Deliver
                    },
                    (ResponseKind::BlocksByHash, PeerMessage::Item(item))
                    | (ResponseKind::TransactionsById, PeerMessage::Item(item)) => {
                        if holds_item(&self.wanted, &item) && !holds_item(&self.received, &item) {
                            self.received.push(item);
                            if holds_all(&self.wanted, &self.received) {
                                self.state = State::AwaitingRequest;
                                Outcome::Deliver
                            } else {
                                Outcome::Accumulate
                            }
                        } else {
                            Self::handle_unsolicited(message)
                        }
                    },
                    (ResponseKind::BlocksByHash, PeerMessage::NotFound)
                    | (ResponseKind::TransactionsById, PeerMessage::NotFound) => {
                        self.state = State::AwaitingRequest;
                        if self.received.len() > 0 {
                            Outcome::Deliver
                        } else {
                            Outcome::DeliverError(PeerError::NotFound)
                        }
                    },
                    _ => Self::handle_unsolicited(message),
                }
            },
        }
    }

    /// Takes the time: gives up a request whose deadline has come.
    pub fn handle_timer(&mut self, now: u64) -> (outcome: Outcome)
        ensures
            (final(self)@, outcome) == after_tick(old(self)@, now),
    {
        match self.state {
            State::AwaitingResponse { kind, deadline } => {
                if now >= deadline {
                    self.state = State::AwaitingRequest;
                    Outcome::DeliverError(PeerError::ClientRequestTimeout)
                } else {
                    Outcome::Ignore
                }
            },
            _ => Outcome::Ignore,
        }
    }

    /// Takes the signal that the client has cancelled its request.
    pub fn handle_cancel(&mut self) -> (outcome: Outcome)
        ensures
            (final(self)@, outcome) == after_cancel(old(self)@),
    {
        match self.state {
            State::AwaitingResponse { .. } => {
                self.state = State::AwaitingRequest;
                Outcome::DeliverError(PeerError::ClientCancelled)
            },
            _ => Outcome::Ignore,
        }
    }

    /// Fails the connection with `cause`: a write that failed, bytes that
    /// are no message, the end of the peer's stream, the end of the
    /// heartbeat task, a client that is gone, or a failure of the inbound
    /// service.
    pub fn fail_with(&mut self, cause: PeerError) -> (outcome: Outcome)
        ensures
            (final(self)@, outcome) == after_failure(old(self)@, cause),
    {
        match self.state {
            State::Failed => Outcome::Ignore,
            _ => {
                let _ = self.error_slot.try_update_error(SharedPeerError(cause));
                self.state = State::Failed;
                self.wanted = Vec::new();
                self.received = Vec::new();
                match self.error_slot.try_get_error() {
                    Some(error) => Outcome::Shutdown(error),
                    None => Outcome::Shutdown(SharedPeerError(cause)),
                }
            },
        }
    }

    fn handle_unsolicited(message: PeerMessage) -> (outcome: Outcome)
        ensures
            outcome == unsolicited(message),
    {
        match message {
            PeerMessage::Ping(nonce) => Outcome::ReplyPong(nonce),
            PeerMessage::GetAddr | PeerMessage::GetBlocks | PeerMessage::GetData | PeerMessage::Mempool => Outcome::CallInbound,
            PeerMessage::Item(_) => Outcome::CallInbound,
            PeerMessage::Addr | PeerMessage::BlockHashes | PeerMessage::TransactionIds => Outcome::Notify,
            PeerMessage::Pong(_) | PeerMessage::NotFound | PeerMessage::Other => Outcome::Ignore,
        }
    }
}

/// Whether `item` is among `items`.
fn holds_item(items: &Vec<InventoryHash>, item: &InventoryHash) -> (found: bool)
    ensures
        found == items@.contains(*item),
{
    let mut i: usize = 0;
    while i < items.len()
        invariant
            i <= items.len(),
            forall|j: int| 0 <= j < i ==> items@[j] != *item,
        decreases items.len() - i,
    {
        if items[i] == *item {
            return true;
        }
        i += 1;
    }
    false
}

/// Whether every item of `wanted` is among `received`.
fn holds_all(wanted: &Vec<InventoryHash>, received: &Vec<InventoryHash>) -> (all: bool)
    ensures
        all == all_received(wanted@, received@),
{
    let mut i: usize = 0;
    while i < wanted.len()
        invariant
            i <= wanted.len(),
            forall|j: int| 0 <= j < i ==> received@.contains(#[trigger] wanted@[j]),
        decreases wanted.len() - i,
    {
        if !holds_item(received, &wanted[i]) {
            return false;
        }
        i += 1;
    }
    true
}

} // verus!
