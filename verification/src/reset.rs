//! The sync-stage reset operation: given a stage identifier, clear the
//! on-disk tables that stage owns, rewrite its checkpoint to the zero value,
//! re-insert the genesis-derived rows for stages anchored to genesis, reset
//! the shared finish checkpoint, and delete the stored historical segment
//! files of the stage's segment.  An identifier outside the recognized set
//! performs no store change and reports that there was nothing to do.
//!
//! The stores are modeled: a table by how many rows it holds, a checkpoint
//! by its number, a segment file by its segment and starting block.

use vstd::prelude::*;

verus! {

/// The stage identifiers the reset operation accepts.
#[derive(Clone, Copy, Debug, PartialEq, Eq, Structural)]
pub enum StageEnum {
    Headers,
    Bodies,
    Senders,
    Execution,
    AccountHashing,
    StorageHashing,
    Hashing,
    Merkle,
    AccountHistory,
    StorageHistory,
    TotalDifficulty,
    TxLookup,
    Finish,
}

/// A segment of immutable historical files.
#[derive(Clone, Copy, Debug, PartialEq, Eq, Structural)]
pub enum SnapshotSegment {
    Headers,
    Transactions,
    Receipts,
}

/// One stored historical segment file: its segment and the first block of
/// the range it covers.
#[derive(Clone, Copy, Debug, PartialEq, Eq, Structural)]
pub struct SnapshotFile {
    pub segment: SnapshotSegment,
    pub block_start: u64,
}

/// The per-stage sync checkpoints, one number per stage, zero meaning the
/// initial value.
#[derive(Clone, Copy, Debug, PartialEq, Eq, Structural)]
pub struct SyncCheckpoints {
    pub headers: u64,
    pub bodies: u64,
    pub sender_recovery: u64,
    pub execution: u64,
    pub account_hashing: u64,
    pub storage_hashing: u64,
    pub merkle_execute: u64,
    pub merkle_unwind: u64,
    pub index_account_history: u64,
    pub index_storage_history: u64,
    pub total_difficulty: u64,
    pub transaction_lookup: u64,
    pub finish: u64,
}

/// The modeled key-value store: each table by its row count, the sync
/// checkpoints, and whether intermediate merkle progress is recorded.
#[derive(Clone, Copy, Debug, PartialEq, Eq, Structural)]
pub struct StageDb {
    pub canonical_headers: u64,
    pub headers: u64,
    pub header_numbers: u64,
    pub header_td: u64,
    pub block_body_indices: u64,
    pub transactions: u64,
    pub transaction_block: u64,
    pub block_ommers: u64,
    pub block_withdrawals: u64,
    pub tx_senders: u64,
    pub plain_account_state: u64,
    pub plain_storage_state: u64,
    pub account_change_set: u64,
    pub storage_change_set: u64,
    pub bytecodes: u64,
    pub receipts: u64,
    pub hashed_account: u64,
    pub hashed_storage: u64,
    pub accounts_trie: u64,
    pub storages_trie: u64,
    pub account_history: u64,
    pub storage_history: u64,
    pub tx_hash_number: u64,
    pub checkpoints: SyncCheckpoints,
    pub merkle_execute_progress: bool,
}

impl StageDb {
    /// A store with every table empty, every checkpoint zero and no
    /// recorded progress.
    pub open spec fn spec_empty() -> StageDb {
        StageDb {
            canonical_headers: 0,
            headers: 0,
            header_numbers: 0,
            header_td: 0,
            block_body_indices: 0,
            transactions: 0,
            transaction_block: 0,
            block_ommers: 0,
            block_withdrawals: 0,
            tx_senders: 0,
            plain_account_state: 0,
            plain_storage_state: 0,
            account_change_set: 0,
            storage_change_set: 0,
            bytecodes: 0,
            receipts: 0,
            hashed_account: 0,
            hashed_storage: 0,
            accounts_trie: 0,
            storages_trie: 0,
            account_history: 0,
            storage_history: 0,
            tx_hash_number: 0,
            checkpoints: SyncCheckpoints {
                headers: 0,
                bodies: 0,
                sender_recovery: 0,
                execution: 0,
                account_hashing: 0,
                storage_hashing: 0,
                merkle_execute: 0,
                merkle_unwind: 0,
                index_account_history: 0,
                index_storage_history: 0,
                total_difficulty: 0,
                transaction_lookup: 0,
                finish: 0,
            },
            merkle_execute_progress: false,
        }
    }
}

impl Default for StageDb {
    fn default() -> (r: Self)
        ensures
            r == StageDb::spec_empty(),
    {
        StageDb {
            canonical_headers: 0,
            headers: 0,
            header_numbers: 0,
            header_td: 0,
            block_body_indices: 0,
            transactions: 0,
            transaction_block: 0,
            block_ommers: 0,
            block_withdrawals: 0,
            tx_senders: 0,
            plain_account_state: 0,
            plain_storage_state: 0,
            account_change_set: 0,
            storage_change_set: 0,
            bytecodes: 0,
            receipts: 0,
            hashed_account: 0,
            hashed_storage: 0,
            accounts_trie: 0,
            storages_trie: 0,
            account_history: 0,
            storage_history: 0,
            tx_hash_number: 0,
            checkpoints: SyncCheckpoints {
                headers: 0,
                bodies: 0,
                sender_recovery: 0,
                execution: 0,
                account_hashing: 0,
                storage_hashing: 0,
                merkle_execute: 0,
                merkle_unwind: 0,
                index_account_history: 0,
                index_storage_history: 0,
                total_difficulty: 0,
                transaction_lookup: 0,
                finish: 0,
            },
            merkle_execute_progress: false,
        }
    }
}

/// The store of historical segment files.
#[derive(Debug)]
pub struct SnapshotStore {
    pub files: Vec<SnapshotFile>,
}

/// The chain being run: its identity and how many genesis-allocated
/// accounts its genesis state holds.
#[derive(Clone, Copy, Debug, PartialEq, Eq, Structural)]
pub struct ChainSpec {
    pub chain_id: u64,
    pub genesis_accounts: u64,
}

/// What the reset operation reports: it reset the stage's data, or the
/// identifier named no data to reset and nothing was done.
#[derive(Clone, Copy, Debug, PartialEq, Eq, Structural)]
pub enum ResetOutcome {
    Reset,
    NothingToDo,
}

/// A table holding at least the one genesis row: re-inserting the genesis
/// row into an empty table gives it one row, and overwrites the row already
/// present otherwise.
pub open spec fn at_least_one(n: u64) -> u64 {
    if n == 0 {
        1
    } else {
        n
    }
}

/// The store after the genesis-derived header rows are re-inserted.
pub open spec fn genesis_header_model(db: StageDb) -> StageDb {
    StageDb {
        canonical_headers: at_least_one(db.canonical_headers),
        headers: at_least_one(db.headers),
        header_numbers: at_least_one(db.header_numbers),
        header_td: at_least_one(db.header_td),
        ..db
    }
}

/// The store after the genesis state rows are re-inserted: the account
/// table holds at least the genesis-allocated accounts.
pub open spec fn genesis_state_model(db: StageDb, chain: ChainSpec) -> StageDb {
    StageDb {
        plain_account_state: if db.plain_account_state < chain.genesis_accounts {
            chain.genesis_accounts
        } else {
            db.plain_account_state
        },
        ..db
    }
}

/// The store-transaction part of the reset: which tables the stage clears,
/// which checkpoints it rewrites to zero, which genesis rows it re-inserts,
/// and whether anything was done at all.
pub open spec fn reset_tables_model(db: StageDb, stage: StageEnum, chain: ChainSpec) -> (StageDb, ResetOutcome) {
    match stage {
        StageEnum::Bodies => (
            genesis_header_model(StageDb {
                block_body_indices: 0,
                transactions: 0,
                transaction_block: 0,
                block_ommers: 0,
                block_withdrawals: 0,
                checkpoints: (SyncCheckpoints { bodies: 0, finish: 0, ..db.checkpoints }),
                ..db
            }),
            ResetOutcome::Reset,
        ),
        StageEnum::Senders => (
            StageDb {
                tx_senders: 0,
                checkpoints: (SyncCheckpoints { sender_recovery: 0, finish: 0, ..db.checkpoints }),
                ..db
            },
            ResetOutcome::Reset,
        ),
        StageEnum::Execution => (
            genesis_state_model(
                StageDb {
                    plain_account_state: 0,
                    plain_storage_state: 0,
                    account_change_set: 0,
                    storage_change_set: 0,
                    bytecodes: 0,
                    receipts: 0,
                    checkpoints: (SyncCheckpoints { execution: 0, finish: 0, ..db.checkpoints }),
                    ..db
                },
                chain,
            ),
            ResetOutcome::Reset,
        ),
        StageEnum::AccountHashing => (
            StageDb {
                hashed_account: 0,
                checkpoints: (SyncCheckpoints { account_hashing: 0, finish: 0, ..db.checkpoints }),
                ..db
            },
            ResetOutcome::Reset,
        ),
        StageEnum::StorageHashing => (
            StageDb {
                hashed_storage: 0,
                checkpoints: (SyncCheckpoints { storage_hashing: 0, finish: 0, ..db.checkpoints }),
                ..db
            },
            ResetOutcome::Reset,
        ),
        StageEnum::Hashing => (
            StageDb {
                hashed_account: 0,
                hashed_storage: 0,
                checkpoints: (SyncCheckpoints {
                    account_hashing: 0,
                    storage_hashing: 0,
                    finish: 0,
                    ..db.checkpoints
                }),
                ..db
            },
            ResetOutcome::Reset,
        ),
        StageEnum::Merkle => (
            StageDb {
                accounts_trie: 0,
                storages_trie: 0,
                checkpoints: (SyncCheckpoints {
                    merkle_execute: 0,
                    merkle_unwind: 0,
                    finish: 0,
                    ..db.checkpoints
                }),
                merkle_execute_progress: false,
                ..db
            },
            ResetOutcome::Reset,
        ),
        StageEnum::AccountHistory | StageEnum::StorageHistory => (
            StageDb {
                account_history: 0,
                storage_history: 0,
                checkpoints: (SyncCheckpoints {
                    index_account_history: 0,
                    index_storage_history: 0,
                    finish: 0,
                    ..db.checkpoints
                }),
                ..db
            },
            ResetOutcome::Reset,
        ),
        StageEnum::TotalDifficulty => (
            genesis_header_model(StageDb {
                header_td: 0,
                checkpoints: (SyncCheckpoints { total_difficulty: 0, finish: 0, ..db.checkpoints }),
                ..db
            }),
            ResetOutcome::Reset,
        ),
        StageEnum::TxLookup => (
            genesis_header_model(StageDb {
                tx_hash_number: 0,
                checkpoints: (SyncCheckpoints { transaction_lookup: 0, finish: 0, ..db.checkpoints }),
                ..db
            }),
            ResetOutcome::Reset,
        ),
        StageEnum::Headers | StageEnum::Finish => (db, ResetOutcome::NothingToDo),
    }
}

/// The segment whose stored historical files the stage's reset deletes.
pub open spec fn snapshot_segment_of(stage: StageEnum) -> Option<SnapshotSegment> {
    match stage {
        StageEnum::Headers => Some(SnapshotSegment::Headers),
        StageEnum::Bodies => Some(SnapshotSegment::Transactions),
        StageEnum::Execution => Some(SnapshotSegment::Receipts),
        _ => None,
    }
}

/// The stored files left after every file of the given segment is deleted,
/// in their stored order.
pub open spec fn drop_segment(files: Seq<SnapshotFile>, seg: SnapshotSegment) -> Seq<SnapshotFile>
    decreases files.len(),
{
    if files.len() == 0 {
        Seq::empty()
    } else {
        let rest = drop_segment(files.drop_last(), seg);
        if files.last().segment == seg {
            rest
        } else {
            rest.push(files.last())
        }
    }
}

/// The segment-file store after the reset for the given stage.
pub open spec fn snapshot_model(files: Seq<SnapshotFile>, stage: StageEnum) -> Seq<SnapshotFile> {
    match snapshot_segment_of(stage) {
        Some(seg) => drop_segment(files, seg),
        None => files,
    }
}

/// Re-inserts the genesis-derived header rows.
pub fn insert_genesis_header(db: &mut StageDb)
    ensures
        *final(db) == genesis_header_model(*old(db)),
{
    if db.canonical_headers == 0 {
        db.canonical_headers = 1;
    }
    if db.headers == 0 {
        db.headers = 1;
    }
    if db.header_numbers == 0 {
        db.header_numbers = 1;
    }
    if db.header_td == 0 {
        db.header_td = 1;
    }
}

/// Re-inserts the genesis state rows for the given chain.
pub fn insert_genesis_state(db: &mut StageDb, chain: ChainSpec)
    ensures
        *final(db) == genesis_state_model(*old(db), chain),
{
    if db.plain_account_state < chain.genesis_accounts {
        db.plain_account_state = chain.genesis_accounts;
    }
}

/// The reset command: which chain the store belongs to and which stage to
/// reset.
#[derive(Clone, Copy, Debug)]
pub struct Command {
    /// Identifies the resolved data directory the stores live under.
    pub datadir: u64,
    pub chain: ChainSpec,
    pub stage: StageEnum,
}

impl Command {
    /// Resets the stage's tables, checkpoints and genesis rows in the
    /// store, and deletes the stored historical files of its segment.  An
    /// unrecognized stage changes neither store and reports that there was
    /// nothing to do.
    pub fn execute(self, db: &mut StageDb, snapshots: &mut SnapshotStore) -> (r: ResetOutcome)
        ensures
            (*final(db), r) == reset_tables_model(*old(db), self.stage, self.chain),
            final(snapshots).files@ == snapshot_model(old(snapshots).files@, self.stage),
    {
        let outcome = match self.stage {
            StageEnum::Bodies => {
                db.block_body_indices = 0;
                db.transactions = 0;
                db.transaction_block = 0;
                db.block_ommers = 0;
                db.block_withdrawals = 0;
                db.checkpoints.bodies = 0;
                insert_genesis_header(db);
                db.checkpoints.finish = 0;
                ResetOutcome::Reset
            },
            StageEnum::Senders => {
                db.tx_senders = 0;
                db.checkpoints.sender_recovery = 0;
                db.checkpoints.finish = 0;
                ResetOutcome::Reset
            },
            StageEnum::Execution => {
                db.plain_account_state = 0;
                db.plain_storage_state = 0;
                db.account_change_set = 0;
                db.storage_change_set = 0;
                db.bytecodes = 0;
                db.receipts = 0;
                db.checkpoints.execution = 0;
                insert_genesis_state(db, self.chain);
                db.checkpoints.finish = 0;
                ResetOutcome::Reset
            },
            StageEnum::AccountHashing => {
                db.hashed_account = 0;
                db.checkpoints.account_hashing = 0;
                db.checkpoints.finish = 0;
                ResetOutcome::Reset
            },
            StageEnum::StorageHashing => {
                db.hashed_storage = 0;
                db.checkpoints.storage_hashing = 0;
                db.checkpoints.finish = 0;
                ResetOutcome::Reset
            },
            StageEnum::Hashing => {
                db.hashed_account = 0;
                db.checkpoints.account_hashing = 0;
                db.hashed_storage = 0;
                db.checkpoints.storage_hashing = 0;
                db.checkpoints.finish = 0;
                ResetOutcome::Reset
            },
            StageEnum::Merkle => {
                db.accounts_trie = 0;
                db.storages_trie = 0;
                db.checkpoints.merkle_execute = 0;
                db.checkpoints.merkle_unwind = 0;
                db.merkle_execute_progress = false;
                db.checkpoints.finish = 0;
                ResetOutcome::Reset
            },
            StageEnum::AccountHistory | StageEnum::StorageHistory => {
                db.account_history = 0;
                db.storage_history = 0;
                db.checkpoints.index_account_history = 0;
                db.checkpoints.index_storage_history = 0;
                db.checkpoints.finish = 0;
                ResetOutcome::Reset
            },
            StageEnum::TotalDifficulty => {
                db.header_td = 0;
                db.checkpoints.total_difficulty = 0;
                insert_genesis_header(db);
                db.checkpoints.finish = 0;
                ResetOutcome::Reset
            },
            StageEnum::TxLookup => {
                db.tx_hash_number = 0;
                db.checkpoints.transaction_lookup = 0;
                insert_genesis_header(db);
                db.checkpoints.finish = 0;
                ResetOutcome::Reset
            },
            StageEnum::Headers | StageEnum::Finish => ResetOutcome::NothingToDo,
        };
        let segment = match self.stage {
            StageEnum::Headers => Some(SnapshotSegment::Headers),
            StageEnum::Bodies => Some(SnapshotSegment::Transactions),
            StageEnum::Execution => Some(SnapshotSegment::Receipts),
            _ => None,
        };
        match segment {
            Some(seg) => {
                delete_segment_files(snapshots, seg);
            },
            None => {},
        }
        outcome
    }
}

/// Deletes every stored file of the given segment, keeping the rest in
/// their stored order.
pub fn delete_segment_files(snapshots: &mut SnapshotStore, seg: SnapshotSegment)
    ensures
        final(snapshots).files@ == drop_segment(old(snapshots).files@, seg),
{
    let ghost orig = snapshots.files@;
    let n = snapshots.files.len();
    let mut kept: Vec<SnapshotFile> = Vec::new();
    let mut i: usize = 0;
    while i < n
        invariant
            i <= n,
            n == snapshots.files@.len(),
            snapshots.files@ == orig,
            kept@ == drop_segment(orig.take(i as int), seg),
        decreases n - i,
    {
        let f = snapshots.files[i];
        proof {
            assert(orig.take(i + 1).drop_last() =~= orig.take(i as int));
            assert(orig.take(i + 1).last() == orig[i as int]);
        }
        if !(f.segment == seg) {
            kept.push(f);
        }
        i += 1;
    }
    proof {
        assert(orig.take(n as int) =~= orig);
    }
    snapshots.files = kept;
}

} // verus!
