//! The errors of a peer connection, and the place where a connection
//! keeps the error that ended it.

use vstd::prelude::*;

verus! {

/// Why a peer connection failed, or why a request to a peer did.
#[derive(Clone, Copy, Debug, PartialEq, Eq, Hash, Structural)]
pub enum PeerError {
    /// The remote peer closed the connection.
    ConnectionClosed,
    /// The connection was dropped on our side.
    ConnectionDropped,
    /// The client handle was dropped.
    ClientDropped,
    /// The task that sends heartbeats has ended.
    HeartbeatTaskExited,
    /// The task that runs the connection has ended.
    ConnectionTaskExited,
    /// The peer took too long to answer a request of ours.
    ClientRequestTimeout,
    /// The request of the client was cancelled.
    ClientCancelled,
    /// A message could not be written to the peer.
    ConnectionSendFailed,
    /// The bytes that the peer sent are no message.
    Serialization,
    /// We are connected to the peer already.
    DuplicateHandshake,
    /// This node has more work than it can do.
    Overloaded,
    /// The service that answers the requests of peers failed.
    InboundServiceFailed,
    /// The peer has none of the items that were asked for.
    NotFound,
}

/// An error of a peer connection as all who hold the connection see it.
#[derive(Clone, Copy, Debug, PartialEq, Eq, Hash, Structural)]
pub struct SharedPeerError(pub PeerError);

/// The error slot held an error already.
#[derive(Clone, Copy, Debug, PartialEq, Eq, Hash, Structural)]
pub struct AlreadyErrored {
    /// The error that the slot holds.
    pub original_error: SharedPeerError,
}

/// The place where a connection keeps the error that ended it.  The slot is
/// empty while the connection is alive; the first error that is put into it
/// stays.
#[derive(Clone, Copy, Debug, PartialEq, Eq, Structural)]
pub struct ErrorSlot {
    error: Option<SharedPeerError>,
}

/// What an error slot holds after an attempt to put `error` into it.
pub open spec fn slot_after(held: Option<SharedPeerError>, error: SharedPeerError) -> Option<SharedPeerError> {
    match held {
        Some(first) => Some(first),
        None => Some(error),
    }
}

/// What an error slot holds after attempts to put `errors` into it, one after another.
pub open spec fn slot_after_all(held: Option<SharedPeerError>, errors: Seq<SharedPeerError>) -> Option<
    SharedPeerError,
>
    decreases errors.len(),
{
    if errors.len() == 0 {
        held
    } else {
        slot_after(slot_after_all(held, errors.drop_last()), errors.last())
    }
}

/// An error slot that holds an error keeps it, whatever is put into it later.
pub proof fn law_error_slot_keeps_first(first: SharedPeerError, later: Seq<SharedPeerError>)
    ensures
        slot_after_all(Some(first), later) == Some(first),
    decreases later.len(),
{
    if later.len() > 0 {
        law_error_slot_keeps_first(first, later.drop_last());
    }
}

impl Default for ErrorSlot {
    fn default() -> (slot: Self)
        ensures
            slot.held().is_none(),
    {
        ErrorSlot { error: None }
    }
}

impl ErrorSlot {
    /// The error that the slot holds, if any.
    pub closed spec fn held(&self) -> Option<SharedPeerError> {
        self.error
    }

    /// The error that the slot holds, if any.
    pub fn try_get_error(&self) -> (error: Option<SharedPeerError>)
        ensures
            error == self.held(),
    {
        self.error
    }

    /// Puts `e` into the slot if the slot is empty.  A slot that holds an
    /// error keeps it, and the call fails with that error.
    pub fn try_update_error(&mut self, e: SharedPeerError) -> (updated: Result<(), AlreadyErrored>)
        ensures
            final(self).held() == slot_after(old(self).held(), e),
            old(self).held() matches Some(first) ==> updated == Err::<(), AlreadyErrored>(
                AlreadyErrored { original_error: first },
            ),
            old(self).held().is_none() ==> updated == Ok::<(), AlreadyErrored>(()),
    {
        match self.error {
            Some(original_error) => Err(AlreadyErrored { original_error }),
            None => {
                self.error = Some(e);
                Ok(())
            },
        }
    }
}

} // verus!
