//! The mempool as the rest of the node sees it: its requests, its answers,
//! and when it empties itself.

use vstd::prelude::*;

use crate::chain::transaction::{UnminedTx, UnminedTxId};
use crate::mempool::error::MempoolError;
use crate::mempool::storage::{insert_result, rejection_of, Rejection, Storage, StorageModel};
use crate::mempool::verified_set::holds_id;

verus! {

/// A transaction that a peer told us of: its identifier, or the transaction itself.
#[derive(Debug)]
pub enum Gossip {
    Id(UnminedTxId),
    Tx(UnminedTx),
}

impl Gossip {
    /// The identifier of the transaction.
    pub open spec fn spec_id(&self) -> UnminedTxId {
        match self {
            Gossip::Id(id) => *id,
            Gossip::Tx(tx) => tx.id,
        }
    }

    /// The identifier of the transaction.
    pub fn id(&self) -> (id: UnminedTxId)
        ensures
            id == self.spec_id(),
    {
        match self {
            Gossip::Id(id) => *id,
            Gossip::Tx(tx) => tx.id,
        }
    }
}

/// A request to the mempool.
#[derive(Debug)]
pub enum Request {
    /// The identifiers of the transactions in the mempool.
    TransactionIds,
    /// The transactions in the mempool with the given identifiers.
    TransactionsById(Vec<UnminedTxId>),
    /// Those of the given identifiers whose rejection the mempool remembers.
    RejectedTransactionIds(Vec<UnminedTxId>),
    /// Queue the transactions for download and verification.
    Queue(Vec<Gossip>),
}

/// An answer of the mempool.
#[derive(Debug)]
pub enum Response {
    Transactions(Vec<UnminedTx>),
    TransactionIds(Vec<UnminedTxId>),
    RejectedTransactionIds(Vec<UnminedTxId>),
    Queued(Vec<Result<(), MempoolError>>),
}

/// Whether the transaction with the identifier `txid` has to be downloaded
/// or verified: not if it is in the mempool, and not if its rejection is
/// remembered.
pub open spec fn download_check(m: StorageModel, txid: UnminedTxId) -> Result<(), MempoolError> {
    if holds_id(m.verified, txid) {
        Err(MempoolError::InMempool)
    } else {
        match rejection_of(m.rejected, txid) {
            Some(reason) => Err(MempoolError::Rejected(reason)),
            None => Ok(()),
        }
    }
}

/// Whether the mempool has to be emptied: after a reset of the chain, which
/// takes blocks back, and while the node is not close to the chain tip.
pub open spec fn must_clear(chain_reset_detected: bool, close_to_tip: bool) -> bool {
    chain_reset_detected || !close_to_tip
}

/// The answers to the transactions of a `Queue` request before any download:
/// for each transaction, whether it has to be downloaded or verified.
pub open spec fn queue_checks(m: StorageModel, gossiped: Seq<Gossip>) -> Seq<Result<(), MempoolError>> {
    gossiped.map_values(|gossip: Gossip| download_check(m, gossip.spec_id()))
}

/// Whether `rsp` is the answer of a mempool that holds `m` to `req`.
///
/// The identifiers and the transactions come in the order of insertion; the
/// rejected identifiers come in the order of the request.
pub open spec fn is_answer(m: StorageModel, req: Request, rsp: Response) -> bool {
    match req {
        Request::TransactionIds => match rsp {
            Response::TransactionIds(ids) => ids@ == m.verified.map_values(|tx: UnminedTx| tx.id),
            _ => false,
        },
        Request::TransactionsById(wanted) => match rsp {
            Response::Transactions(found) => found@ == m.verified.filter(
                |tx: UnminedTx| wanted@.contains(tx.id),
            ),
            _ => false,
        },
        Request::RejectedTransactionIds(asked) => match rsp {
            Response::RejectedTransactionIds(rejected) => rejected@ == asked@.filter(
                |id: UnminedTxId| rejection_of(m.rejected, id).is_some(),
            ),
            _ => false,
        },
        Request::Queue(gossiped) => match rsp {
            Response::Queued(checks) => checks@ == queue_checks(m, gossiped@),
            _ => false,
        },
    }
}

/// The mempool: the storage, and the rules by which the service answers.
pub struct Mempool {
    storage: Storage,
}

impl Mempool {
    /// What the storage of the mempool holds.
    pub closed spec fn model(&self) -> StorageModel {
        self.storage@
    }

    /// The storage is well-formed.
    pub closed spec fn wf(&self) -> bool {
        self.storage.wf()
    }

    /// An empty mempool.
    pub fn new() -> (mempool: Self)
        ensures
            mempool.wf(),
            mempool.model().verified == Seq::<UnminedTx>::empty(),
            mempool.model().rejected == Seq::<Rejection>::empty(),
    {
        Mempool { storage: Storage::default() }
    }

    /// The storage of the mempool.
    pub fn storage(&self) -> (storage: &Storage)
        ensures
            storage@ == self.model(),
            storage.wf() == self.wf(),
    {
        &self.storage
    }

    /// Whether the transaction with the identifier `txid` has to be
    /// downloaded or verified.
    pub fn should_download_or_verify(&self, txid: UnminedTxId) -> (needed: Result<(), MempoolError>)
        ensures
            needed == download_check(self.model(), txid),
    {
        if self.storage.contains(&txid) {
            return Err(MempoolError::InMempool);
        }
        match self.storage.rejection_error(&txid) {
            Some(reason) => Err(MempoolError::Rejected(reason)),
            None => Ok(()),
        }
    }

    /// Whether the mempool has to be emptied.
    pub fn should_clear_storage(chain_reset_detected: bool, close_to_tip: bool) -> (clear: bool)
        ensures
            clear == must_clear(chain_reset_detected, close_to_tip),
    {
        chain_reset_detected || !close_to_tip
    }

    /// Empties the mempool if it has to be emptied.
    pub fn maybe_clear_storage(&mut self, chain_reset_detected: bool, close_to_tip: bool)
        requires
            old(self).wf(),
        ensures
            final(self).wf(),
            must_clear(chain_reset_detected, close_to_tip) ==> final(self).model().verified == Seq::<
                UnminedTx,
            >::empty() && final(self).model().rejected == Seq::<Rejection>::empty(),
            !must_clear(chain_reset_detected, close_to_tip) ==> final(self).model() == old(self).model(),
    {
        if Self::should_clear_storage(chain_reset_detected, close_to_tip) {
            self.storage.clear();
        }
    }

    /// Takes a transaction that was downloaded and verified into the storage.
    pub fn store_verified(&mut self, tx: UnminedTx) -> (inserted: Result<UnminedTxId, MempoolError>)
        requires
            old(self).wf(),
        ensures
            final(self).wf(),
            exists|draw: u128| (final(self).model(), inserted) == #[trigger] insert_result(old(self).model(), tx, draw),
    {
        let ghost before = self.storage@;
        let ghost given = tx;
        let inserted = self.storage.insert(tx);
        proof {
            let draw = choose|draw: u128| (self.storage@, inserted) == #[trigger] insert_result(before, given, draw);
            assert((self.model(), inserted) == insert_result(old(self).model(), given, draw));
        }
        inserted
    }

    /// For each transaction of a `Queue` request, whether it has to be
    /// downloaded or verified.
    pub fn check_queue(&self, gossiped: &Vec<Gossip>) -> (checks: Vec<Result<(), MempoolError>>)
        ensures
            checks@ == queue_checks(self.model(), gossiped@),
    {
        let mut checks: Vec<Result<(), MempoolError>> = Vec::new();
        let mut i: usize = 0;
        while i < gossiped.len()
            invariant
                i <= gossiped.len(),
                checks@ == queue_checks(self.model(), gossiped@.take(i as int)),
            decreases gossiped.len() - i,
        {
            checks.push(self.should_download_or_verify(gossiped[i].id()));
            proof {
                assert(queue_checks(self.model(), gossiped@.take(i + 1)) =~= queue_checks(
                    self.model(),
                    gossiped@.take(i as int),
                ).push(download_check(self.model(), gossiped@[i as int].spec_id())));
            }
            i += 1;
        }
        proof {
            assert(gossiped@.take(gossiped@.len() as int) =~= gossiped@);
        }
        checks
    }

    /// Answers a request.  The transactions of a `Queue` request are only
    /// checked: the download and the verification of those that pass is the
    /// caller's part.
    pub fn call(&self, req: Request) -> (rsp: Response)
        ensures
            is_answer(self.model(), req, rsp),
    {
        match req {
            Request::TransactionIds => Response::TransactionIds(self.storage.tx_ids()),
            Request::TransactionsById(ids) => Response::Transactions(self.storage.transactions(ids)),
            Request::RejectedTransactionIds(ids) => Response::RejectedTransactionIds(
                self.storage.rejected_transactions(ids),
            ),
            Request::Queue(gossiped_txs) => Response::Queued(self.check_queue(&gossiped_txs)),
        }
    }
}

} // verus!
