//! The messages of the peer protocol.

use vstd::prelude::*;

use crate::chain::block;
use crate::chain::transaction::{UnminedTx, UnminedTxId};
use crate::network::meta_addr::MetaAddr;
use crate::network::peer::connection::PeerMessage;
use crate::network::peer::handshake::VersionMessage;
use crate::network::protocol::inv::InventoryHash;
use crate::network::protocol::types::Nonce;

verus! {

/// A message of the peer protocol.
#[derive(Debug, PartialEq, Eq)]
pub enum Message {
    /// `version`: the first message of a handshake.
    Version(VersionMessage),
    /// `verack`: the answer to `version`.
    Verack,
    /// `ping`: asks for an echo of the nonce.
    Ping(Nonce),
    /// `pong`: the echo.
    Pong(Nonce),
    /// `reject`: the sender turns a message of ours down.
    Reject,
    /// `getaddr`: asks for addresses of peers.
    GetAddr,
    /// `addr`: addresses of peers.
    Addr(Vec<MetaAddr>),
    /// `getblocks`: asks for the hashes that follow the first known block.
    GetBlocks { known_blocks: Vec<block::Hash>, stop: Option<block::Hash> },
    /// `inv`: names blocks or transactions that the sender has.
    Inv(Vec<InventoryHash>),
    /// `getdata`: asks for blocks or transactions by name.
    GetData(Vec<InventoryHash>),
    /// `block`: a block, which stands here by its hash.
    Block(block::Hash),
    /// `tx`: a transaction.
    Tx(UnminedTx),
    /// `notfound`: the sender does not have what was asked for.
    NotFound(Vec<InventoryHash>),
    /// `mempool`: asks for the transactions in the mempool of the receiver.
    Mempool,
}

/// Whether every item names a block.
pub open spec fn all_blocks(items: Seq<InventoryHash>) -> bool {
    forall|i: int| 0 <= i < items.len() ==> #[trigger] items[i] is Block
}

/// Whether every item names a transaction.
pub open spec fn all_transactions(items: Seq<InventoryHash>) -> bool {
    forall|i: int| 0 <= i < items.len() ==> (#[trigger] items[i] is Tx || items[i] is Wtx)
}

/// The name under which a transaction travels in `inv` and `getdata`.
pub open spec fn inventory_name(id: UnminedTxId) -> InventoryHash {
    match id {
        UnminedTxId::Legacy(hash) => InventoryHash::Tx(hash),
        UnminedTxId::Witnessed(wtx_id) => InventoryHash::Wtx(wtx_id),
    }
}

/// What a message is to the connection that receives it.
///
/// An `inv` that names at least one item, and blocks only, is a list of
/// block hashes; one that names transactions only is a list of transaction
/// identifiers; any other `inv` is passed over.
pub open spec fn classified(message: Message) -> PeerMessage {
    match message {
        Message::Ping(nonce) => PeerMessage::Ping(nonce),
        Message::Pong(nonce) => PeerMessage::Pong(nonce),
        Message::GetAddr => PeerMessage::GetAddr,
        Message::Addr(_) => PeerMessage::Addr,
        Message::GetBlocks { .. } => PeerMessage::GetBlocks,
        Message::GetData(_) => PeerMessage::GetData,
        Message::Mempool => PeerMessage::Mempool,
        Message::Inv(items) => if items@.len() > 0 && all_blocks(items@) {
            PeerMessage::BlockHashes
        } else if items@.len() > 0 && all_transactions(items@) {
            PeerMessage::TransactionIds
        } else {
            PeerMessage::Other
        },
        Message::Block(hash) => PeerMessage::Item(InventoryHash::Block(hash)),
        Message::Tx(tx) => PeerMessage::Item(inventory_name(tx.id)),
        Message::NotFound(_) => PeerMessage::NotFound,
        Message::Version(_) | Message::Verack | Message::Reject => PeerMessage::Other,
    }
}

impl Message {
    /// What the message is to the connection that receives it.
    pub fn classify(&self) -> (kind: PeerMessage)
        ensures
            kind == classified(*self),
    {
        match self {
            Message::Ping(nonce) => PeerMessage::Ping(*nonce),
            Message::Pong(nonce) => PeerMessage::Pong(*nonce),
            Message::GetAddr => PeerMessage::GetAddr,
            Message::Addr(_) => PeerMessage::Addr,
            Message::GetBlocks { .. } => PeerMessage::GetBlocks,
            Message::GetData(_) => PeerMessage::GetData,
            Message::Mempool => PeerMessage::Mempool,
            Message::Inv(items) => {
                if items.len() == 0 {
                    return PeerMessage::Other;
                }
                let mut blocks = true;
                let mut transactions = true;
                let mut i: usize = 0;
                while i < items.len()
                    invariant
                        i <= items.len(),
                        blocks == all_blocks(items@.take(i as int)),
                        transactions == all_transactions(items@.take(i as int)),
                    decreases items.len() - i,
                {
                    let ghost before = items@.take(i as int);
                    let ghost next = items@.take(i + 1);
                    proof {
                        assert(forall|j: int| 0 <= j < i ==> before[j] == next[j]);
                        assert(next[i as int] == items@[i as int]);
                    }
                    match items[i] {
                        InventoryHash::Block(_) => {
                            transactions = false;
                        },
                        InventoryHash::Tx(_) | InventoryHash::Wtx(_) => {
                            blocks = false;
                        },
                        _ => {
                            blocks = false;
                            transactions = false;
                        },
                    }
                    proof {
                        if all_blocks(next) {
                            assert forall|j: int| 0 <= j < before.len() implies #[trigger] before[j] is Block by {
                                assert(next[j] is Block);
                            }
                        }
                        if all_transactions(next) {
                            assert forall|j: int| 0 <= j < before.len() implies (#[trigger] before[j] is Tx
                                || before[j] is Wtx) by {
                                assert(next[j] is Tx || next[j] is Wtx);
                            }
                        }
                    }
                    i += 1;
                }
                proof {
                    assert(items@.take(items@.len() as int) =~= items@);
                }
                if blocks {
                    PeerMessage::BlockHashes
                } else if transactions {
                    PeerMessage::TransactionIds
                } else {
                    PeerMessage::Other
                }
            },
            Message::Block(hash) => PeerMessage::Item(InventoryHash::Block(*hash)),
            Message::Tx(tx) => PeerMessage::Item(
                match tx.id {
                    UnminedTxId::Legacy(hash) => InventoryHash::Tx(hash),
                    UnminedTxId::Witnessed(wtx_id) => InventoryHash::Wtx(wtx_id),
                },
            ),
            Message::NotFound(_) => PeerMessage::NotFound,
            Message::Version(_) | Message::Verack | Message::Reject => PeerMessage::Other,
        }
    }
}

} // verus!
