//! The prune-checkpoint store interface: reading and writing the persisted
//! marker of how far each pruning segment has progressed, plus an in-memory
//! store implementing both sides.

use vstd::prelude::*;

verus! {

/// A named pruning segment.
#[derive(Clone, Copy, Debug, PartialEq, Eq, Structural)]
pub enum PruneSegment {
    SenderRecovery,
    TransactionLookup,
    Receipts,
    AccountHistory,
    StorageHistory,
}

/// A persisted marker of how far a pruning segment has progressed: the
/// highest pruned block, and the highest pruned transaction where the
/// segment prunes transaction-scoped data.
#[derive(Clone, Copy, Debug, PartialEq, Eq)]
pub struct PruneCheckpoint {
    pub block_number: Option<u64>,
    pub tx_number: Option<u64>,
}

/// Fetching prune-checkpoint data.
pub trait PruneCheckpointReader {
    spec fn checkpoint_of(&self, segment: PruneSegment) -> Option<PruneCheckpoint>;

    /// The checkpoint stored for the given segment, if any.
    fn get_prune_checkpoint(&self, segment: PruneSegment) -> (r: Option<PruneCheckpoint>)
        ensures
            r == self.checkpoint_of(segment),
    ;
}

/// Updating prune-checkpoint data.
pub trait PruneCheckpointWriter {
    spec fn stored_checkpoint(&self, segment: PruneSegment) -> Option<PruneCheckpoint>;

    /// Saves the checkpoint for the given segment, leaving every other
    /// segment's checkpoint as it was.
    fn save_prune_checkpoint(&mut self, segment: PruneSegment, checkpoint: PruneCheckpoint)
        ensures
            final(self).stored_checkpoint(segment) == Some(checkpoint),
            forall|s: PruneSegment|
                s != segment ==> #[trigger] final(self).stored_checkpoint(s) == old(
                    self,
                ).stored_checkpoint(s),
    ;
}

/// An in-memory prune-checkpoint store: one optional checkpoint per
/// segment.
#[derive(Clone, Copy, Debug)]
pub struct PruneCheckpointStore {
    pub sender_recovery: Option<PruneCheckpoint>,
    pub transaction_lookup: Option<PruneCheckpoint>,
    pub receipts: Option<PruneCheckpoint>,
    pub account_history: Option<PruneCheckpoint>,
    pub storage_history: Option<PruneCheckpoint>,
}

impl PruneCheckpointStore {
    /// The slot a segment's checkpoint is kept in.
    pub open spec fn spec_slot(&self, segment: PruneSegment) -> Option<PruneCheckpoint> {
        match segment {
            PruneSegment::SenderRecovery => self.sender_recovery,
            PruneSegment::TransactionLookup => self.transaction_lookup,
            PruneSegment::Receipts => self.receipts,
            PruneSegment::AccountHistory => self.account_history,
            PruneSegment::StorageHistory => self.storage_history,
        }
    }

    /// A store holding no checkpoint for any segment.
    pub fn new() -> (r: Self)
        ensures
            forall|s: PruneSegment| #[trigger] r.spec_slot(s) is None,
    {
        PruneCheckpointStore {
            sender_recovery: None,
            transaction_lookup: None,
            receipts: None,
            account_history: None,
            storage_history: None,
        }
    }
}

impl PruneCheckpointReader for PruneCheckpointStore {
    open spec fn checkpoint_of(&self, segment: PruneSegment) -> Option<PruneCheckpoint> {
        self.spec_slot(segment)
    }

    fn get_prune_checkpoint(&self, segment: PruneSegment) -> (r: Option<PruneCheckpoint>) {
        match segment {
            PruneSegment::SenderRecovery => self.sender_recovery,
            PruneSegment::TransactionLookup => self.transaction_lookup,
            PruneSegment::Receipts => self.receipts,
            PruneSegment::AccountHistory => self.account_history,
            PruneSegment::StorageHistory => self.storage_history,
        }
    }
}

impl PruneCheckpointWriter for PruneCheckpointStore {
    open spec fn stored_checkpoint(&self, segment: PruneSegment) -> Option<PruneCheckpoint> {
        self.spec_slot(segment)
    }

    fn save_prune_checkpoint(&mut self, segment: PruneSegment, checkpoint: PruneCheckpoint) {
        match segment {
            PruneSegment::SenderRecovery => self.sender_recovery = Some(checkpoint),
            PruneSegment::TransactionLookup => self.transaction_lookup = Some(checkpoint),
            PruneSegment::Receipts => self.receipts = Some(checkpoint),
            PruneSegment::AccountHistory => self.account_history = Some(checkpoint),
            PruneSegment::StorageHistory => self.storage_history = Some(checkpoint),
        }
    }
}

} // verus!
