//! The decisions of the handshake with a peer.
//!
//! In a handshake both sides send their version message and acknowledge the
//! other's.  This node turns a peer down that speaks too old a version of the
//! protocol, and a peer that sends back a nonce of our own: that peer is this
//! node itself.

use vstd::prelude::*;

use crate::chain::block;
use crate::chain::parameters::Network;
use crate::chain::serialization::DateTime32;
use crate::network::meta_addr::PeerAddress;
use crate::network::peer::meta_data::PeerMetaData;
use crate::network::protocol::types::{min_remote_version, Nonce, PeerServices, Version};

verus! {

/// Seconds for which a nonce that we have sent is remembered.
pub const NONCE_WINDOW_SECS: u32 = 60;

/// Why a handshake failed.
#[derive(Clone, Copy, Debug, PartialEq, Eq, Hash, Structural)]
pub enum HandshakeError {
    /// The peer sent another message than the one that the handshake asks for.
    UnexpectedMessage,
    /// The peer sent a nonce that we have sent: we are connected to ourselves.
    NonceReuse,
    /// The peer closed the connection.
    ConnectionClosed,
    /// The peer speaks a version of the protocol that is too old.
    ObsoleteVersion(Version),
    /// The peer took too long.
    Timeout,
}

/// What a version message tells.
#[derive(Clone, Copy, Debug, PartialEq, Eq, Structural)]
pub struct VersionMessage {
    /// The protocol version that the sender speaks.
    pub version: Version,
    /// The services that the sender offers.
    pub services: PeerServices,
    /// The time of the sender's clock.
    pub timestamp: DateTime32,
    /// The address of the receiver, as the sender sees it.
    pub address_recv: PeerAddress,
    /// The address of the sender, as the sender sees it.
    pub address_from: PeerAddress,
    /// A number that tells this connection from all others of the sender.
    pub nonce: Nonce,
    /// The height of the sender's best chain tip.
    pub start_height: block::Height,
    /// Whether the sender wants to be told of transactions.
    pub relay: bool,
}

/// The version message that this node sends to the peer at `remote`: it
/// holds our protocol version and our services, the time, the two addresses,
/// the nonce of this connection, the height of our best chain tip at this
/// moment, and the wish to be told of transactions.
pub fn local_version_message(
    our_services: PeerServices,
    now: DateTime32,
    remote: PeerAddress,
    local: PeerAddress,
    nonce: Nonce,
    best_tip_height: block::Height,
) -> (message: VersionMessage)
    ensures
        message == (VersionMessage {
            version: Version(crate::network::protocol::types::CURRENT_NETWORK_PROTOCOL_VERSION),
            services: our_services,
            timestamp: now,
            address_recv: remote,
            address_from: local,
            nonce,
            start_height: best_tip_height,
            relay: true,
        }),
{
    VersionMessage {
        version: Version(crate::network::protocol::types::CURRENT_NETWORK_PROTOCOL_VERSION),
        services: our_services,
        timestamp: now,
        address_recv: remote,
        address_from: local,
        nonce,
        start_height: best_tip_height,
        relay: true,
    }
}

/// A nonce that we have sent, with the time at which we sent it.
pub type SentNonce = (Nonce, DateTime32);

/// Whether `nonce` is among the nonces that we have sent.
pub open spec fn was_sent(sent: Seq<SentNonce>, nonce: Nonce) -> bool {
    exists|i: int| 0 <= i < sent.len() && (#[trigger] sent[i]).0 == nonce
}

/// Whether a nonce that was sent at `sent_at` is still remembered at `now`.
pub open spec fn is_recent(sent_at: DateTime32, now: DateTime32) -> bool {
    sent_at.timestamp + NONCE_WINDOW_SECS >= now.timestamp
}

/// What the check of a peer's version message comes to.
///
/// A version below `min_version` is obsolete.  Of the peers that pass, one
/// whose nonce we have sent ourselves is turned down.
pub open spec fn version_check(remote: VersionMessage, min_version: u32, sent: Seq<SentNonce>) -> Result<
    (),
    HandshakeError,
> {
    if remote.version.0 < min_version {
        Err(HandshakeError::ObsoleteVersion(remote.version))
    } else if was_sent(sent, remote.nonce) {
        Err(HandshakeError::NonceReuse)
    } else {
        Ok(())
    }
}

/// The nonces that this node has sent in its version messages of late.
pub struct NonceSet {
    sent: Vec<SentNonce>,
}

impl View for NonceSet {
    type V = Seq<SentNonce>;

    closed spec fn view(&self) -> Seq<SentNonce> {
        self.sent@
    }
}

impl NonceSet {
    /// A set without nonces.
    pub fn new() -> (nonces: Self)
        ensures
            nonces@ == Seq::<SentNonce>::empty(),
    {
        NonceSet { sent: Vec::new() }
    }

    /// Remembers that `nonce` was sent at `now`, and forgets the nonces that
    /// were sent more than `NONCE_WINDOW_SECS` before `now`.
    pub fn insert(&mut self, nonce: Nonce, now: DateTime32)
        ensures
            final(self)@ == old(self)@.filter(|sent: SentNonce| is_recent(sent.1, now)).push((nonce, now)),
    {
        let ghost recent = |sent: SentNonce| is_recent(sent.1, now);
        let mut kept: Vec<SentNonce> = Vec::new();
        let mut i: usize = 0;
        while i < self.sent.len()
            invariant
                i <= self.sent.len(),
                self.sent@ == old(self).sent@,
                recent == (|sent: SentNonce| is_recent(sent.1, now)),
                kept@ == self.sent@.take(i as int).filter(recent),
            decreases self.sent.len() - i,
        {
            proof {
                let next = self.sent@.take(i + 1);
                assert(next.drop_last() =~= self.sent@.take(i as int));
                assert(next.last() == self.sent@[i as int]);
                reveal_with_fuel(Seq::filter, 2);
            }
            let sent = self.sent[i];
            if now.timestamp <= NONCE_WINDOW_SECS || sent.1.timestamp >= now.timestamp - NONCE_WINDOW_SECS {
                kept.push(sent);
            }
            i += 1;
        }
        proof {
            assert(self.sent@.take(self.sent@.len() as int) =~= self.sent@);
        }
        kept.push((nonce, now));
        self.sent = kept;
    }

    /// Whether `nonce` is remembered as sent.
    pub fn contains(&self, nonce: Nonce) -> (found: bool)
        ensures
            found == was_sent(self@, nonce),
    {
        let mut i: usize = 0;
        while i < self.sent.len()
            invariant
                i <= self.sent.len(),
                forall|j: int| 0 <= j < i ==> (#[trigger] self.sent@[j]).0 != nonce,
            decreases self.sent.len() - i,
        {
            if self.sent[i].0 == nonce {
                return true;
            }
            i += 1;
        }
        false
    }
}

/// Checks the version message of a peer on `network`, with the best chain
/// tip at `best_tip_height` and `nonces` the nonces that we have sent.
/// Returns what is known of the peer if the handshake may go on.
pub fn check_remote_version(
    remote: &VersionMessage,
    peer_address: PeerAddress,
    network: Network,
    best_tip_height: Option<block::Height>,
    nonces: &NonceSet,
) -> (checked: Result<PeerMetaData, HandshakeError>)
    ensures
        version_check(*remote, min_remote_version(network, best_tip_height), nonces@) matches Err(e)
            ==> checked matches Err(f) && f == e,
        version_check(*remote, min_remote_version(network, best_tip_height), nonces@).is_ok() ==> (checked matches Ok(
            meta_data,
        ) && meta_data.spec_address() == peer_address && meta_data.spec_version() == remote.version),
{
    let min_version = Version::min_remote_for_height(network, best_tip_height);
    if remote.version.0 < min_version.0 {
        return Err(HandshakeError::ObsoleteVersion(remote.version));
    }
    if nonces.contains(remote.nonce) {
        return Err(HandshakeError::NonceReuse);
    }
    Ok(PeerMetaData::new(peer_address, remote.version))
}

/// Whether a peer that speaks `version` has to be disconnected now that the
/// best chain tip of `network` is at `best_tip_height`: whether its version
/// is below the lowest that is accepted at that height.
pub fn is_version_obsolete(version: Version, network: Network, best_tip_height: Option<block::Height>) -> (obsolete: bool)
    ensures
        obsolete == (version.0 < min_remote_version(network, best_tip_height)),
{
    version.0 < Version::min_remote_for_height(network, best_tip_height).0
}

/// How far a handshake has come.
#[derive(Clone, Copy, Debug, PartialEq, Eq, Structural)]
pub enum HandshakeState {
    /// Our version message is sent; that of the peer is awaited.
    AwaitingVersion,
    /// The version message of the peer is accepted and acknowledged; the
    /// acknowledgement of ours is awaited.
    AwaitingVerack { peer: PeerAddress, version: Version },
    /// Both sides have acknowledged: the connection is up.
    Connected { peer: PeerAddress, version: Version },
    /// The handshake has failed.
    Failed(HandshakeError),
}

/// A message of the peer during the handshake, as far as the handshake looks into it.
#[derive(Clone, Copy, Debug, PartialEq, Eq, Structural)]
pub enum HandshakeMessage {
    /// The version message of the peer.
    Version(VersionMessage),
    /// The acknowledgement of our version message.
    Verack,
    /// Any other message.
    Other,
}

/// What the caller has to do after a step of the handshake.
#[derive(Clone, Copy, Debug, PartialEq, Eq, Structural)]
pub enum HandshakeAction {
    /// Nothing.
    Nothing,
    /// Acknowledge the version message of the peer.
    SendVerack,
    /// Start the connection and the heartbeat, and hand out the client.
    Start,
    /// Give the connection up, and note the failure in the address book.
    Abort(HandshakeError),
}

/// The handshake after a message of the peer at `peer_address`, and what the caller has to do.
///
/// The first message has to be a version message that passes the check; it
/// is acknowledged.  The second has to be the acknowledgement of ours.  Any
/// other message fails the handshake.  A handshake that is over stays as it is.
pub open spec fn handshake_step(
    state: HandshakeState,
    message: HandshakeMessage,
    peer_address: PeerAddress,
    min_version: u32,
    sent: Seq<SentNonce>,
) -> (HandshakeState, HandshakeAction) {
    match state {
        HandshakeState::AwaitingVersion => match message {
            HandshakeMessage::Version(remote) => match version_check(remote, min_version, sent) {
                Ok(_) => (
                    HandshakeState::AwaitingVerack { peer: peer_address, version: remote.version },
                    HandshakeAction::SendVerack,
                ),
                Err(e) => (HandshakeState::Failed(e), HandshakeAction::Abort(e)),
            },
            _ => (
                HandshakeState::Failed(HandshakeError::UnexpectedMessage),
                HandshakeAction::Abort(HandshakeError::UnexpectedMessage),
            ),
        },
        HandshakeState::AwaitingVerack { peer, version } => match message {
            HandshakeMessage::Verack => (HandshakeState::Connected { peer, version }, HandshakeAction::Start),
            _ => (
                HandshakeState::Failed(HandshakeError::UnexpectedMessage),
                HandshakeAction::Abort(HandshakeError::UnexpectedMessage),
            ),
        },
        _ => (state, HandshakeAction::Nothing),
    }
}

/// The handshake after the peer has taken too long or has closed the
/// connection: a handshake that was under way has failed.
pub open spec fn handshake_failure(state: HandshakeState, cause: HandshakeError) -> (HandshakeState, HandshakeAction) {
    match state {
        HandshakeState::AwaitingVersion | HandshakeState::AwaitingVerack { .. } => (
            HandshakeState::Failed(cause),
            HandshakeAction::Abort(cause),
        ),
        _ => (state, HandshakeAction::Nothing),
    }
}

/// Takes a message of the peer at `peer_address` into the handshake.
pub fn on_handshake_message(
    state: HandshakeState,
    message: HandshakeMessage,
    peer_address: PeerAddress,
    network: Network,
    best_tip_height: Option<block::Height>,
    nonces: &NonceSet,
) -> (next: (HandshakeState, HandshakeAction))
    ensures
        next == handshake_step(state, message, peer_address, min_remote_version(network, best_tip_height), nonces@),
{
    let unexpected = (
        HandshakeState::Failed(HandshakeError::UnexpectedMessage),
        HandshakeAction::Abort(HandshakeError::UnexpectedMessage),
    );
    match state {
        HandshakeState::AwaitingVersion => match message {
            HandshakeMessage::Version(remote) => match check_remote_version(
                &remote,
                peer_address,
                network,
                best_tip_height,
                nonces,
            ) {
                Ok(_) => (
                    HandshakeState::AwaitingVerack { peer: peer_address, version: remote.version },
                    HandshakeAction::SendVerack,
                ),
                Err(e) => (HandshakeState::Failed(e), HandshakeAction::Abort(e)),
            },
            _ => unexpected,
        },
        HandshakeState::AwaitingVerack { peer, version } => match message {
            HandshakeMessage::Verack => (HandshakeState::Connected { peer, version }, HandshakeAction::Start),
            _ => unexpected,
        },
        _ => (state, HandshakeAction::Nothing),
    }
}

/// Takes the end of the peer's patience or of its connection into the handshake.
pub fn on_handshake_failure(state: HandshakeState, cause: HandshakeError) -> (next: (HandshakeState, HandshakeAction))
    ensures
        next == handshake_failure(state, cause),
{
    match state {
        HandshakeState::AwaitingVersion | HandshakeState::AwaitingVerack { .. } => (
            HandshakeState::Failed(cause),
            HandshakeAction::Abort(cause),
        ),
        _ => (state, HandshakeAction::Nothing),
    }
}

} // verus!
