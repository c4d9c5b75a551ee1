use node_ext::reset::ChainSpec;
use node_ext::reset::Command;
use node_ext::reset::ResetOutcome;
use node_ext::reset::SnapshotFile;
use node_ext::reset::SnapshotSegment;
use node_ext::reset::SnapshotStore;
use node_ext::reset::StageDb;
use node_ext::reset::StageEnum;

fn chain() -> ChainSpec {
    ChainSpec { chain_id: 1, genesis_accounts: 3 }
}

fn populated_db() -> StageDb {
    let mut db = StageDb::default();
    db.canonical_headers = 50;
    db.headers = 50;
    db.header_numbers = 50;
    db.header_td = 50;
    db.block_body_indices = 40;
    db.transactions = 400;
    db.transaction_block = 400;
    db.block_ommers = 4;
    db.block_withdrawals = 4;
    db.tx_senders = 400;
    db.plain_account_state = 90;
    db.plain_storage_state = 91;
    db.account_change_set = 92;
    db.storage_change_set = 93;
    db.bytecodes = 9;
    db.receipts = 400;
    db.hashed_account = 90;
    db.hashed_storage = 91;
    db.accounts_trie = 30;
    db.storages_trie = 31;
    db.account_history = 60;
    db.storage_history = 61;
    db.tx_hash_number = 400;
    db.checkpoints.headers = 50;
    db.checkpoints.bodies = 40;
    db.checkpoints.sender_recovery = 40;
    db.checkpoints.execution = 40;
    db.checkpoints.account_hashing = 40;
    db.checkpoints.storage_hashing = 40;
    db.checkpoints.merkle_execute = 40;
    db.checkpoints.merkle_unwind = 40;
    db.checkpoints.index_account_history = 40;
    db.checkpoints.index_storage_history = 40;
    db.checkpoints.total_difficulty = 40;
    db.checkpoints.transaction_lookup = 40;
    db.checkpoints.finish = 40;
    db.merkle_execute_progress = true;
    db
}

fn populated_snapshots() -> SnapshotStore {
    SnapshotStore {
        files: vec![
            SnapshotFile { segment: SnapshotSegment::Headers, block_start: 0 },
            SnapshotFile { segment: SnapshotSegment::Transactions, block_start: 0 },
            SnapshotFile { segment: SnapshotSegment::Headers, block_start: 500_000 },
            SnapshotFile { segment: SnapshotSegment::Receipts, block_start: 0 },
        ],
    }
}

#[test]
fn unrecognized_stage_does_nothing_and_says_so() {
    let mut db = populated_db();
    let before = db;
    let mut snapshots = populated_snapshots();
    let cmd = Command { datadir: 1, chain: chain(), stage: StageEnum::Finish };
    let outcome = cmd.execute(&mut db, &mut snapshots);
    assert_eq!(outcome, ResetOutcome::NothingToDo);
    assert_eq!(db, before);
    assert_eq!(snapshots.files.len(), 4);
}

#[test]
fn headers_stage_touches_no_table_but_drops_header_snapshots() {
    let mut db = populated_db();
    let before = db;
    let mut snapshots = populated_snapshots();
    let cmd = Command { datadir: 1, chain: chain(), stage: StageEnum::Headers };
    let outcome = cmd.execute(&mut db, &mut snapshots);
    assert_eq!(outcome, ResetOutcome::NothingToDo);
    assert_eq!(db, before);
    assert_eq!(
        snapshots.files,
        vec![
            SnapshotFile { segment: SnapshotSegment::Transactions, block_start: 0 },
            SnapshotFile { segment: SnapshotSegment::Receipts, block_start: 0 },
        ]
    );
}

#[test]
fn total_difficulty_reset_reinserts_genesis_row() {
    let mut db = populated_db();
    let mut snapshots = populated_snapshots();
    let cmd = Command { datadir: 1, chain: chain(), stage: StageEnum::TotalDifficulty };
    let outcome = cmd.execute(&mut db, &mut snapshots);
    assert_eq!(outcome, ResetOutcome::Reset);
    // the primary table was cleared and holds the one genesis-derived row
    assert_eq!(db.header_td, 1);
    // its checkpoint and the shared finish checkpoint read the zero value
    assert_eq!(db.checkpoints.total_difficulty, 0);
    assert_eq!(db.checkpoints.finish, 0);
    // unrelated tables and checkpoints are untouched
    assert_eq!(db.headers, 50);
    assert_eq!(db.tx_senders, 400);
    assert_eq!(db.checkpoints.execution, 40);
    assert_eq!(snapshots.files.len(), 4);
}

#[test]
fn bodies_reset_clears_tables_and_drops_transaction_snapshots() {
    let mut db = populated_db();
    let mut snapshots = populated_snapshots();
    let cmd = Command { datadir: 1, chain: chain(), stage: StageEnum::Bodies };
    let outcome = cmd.execute(&mut db, &mut snapshots);
    assert_eq!(outcome, ResetOutcome::Reset);
    assert_eq!(db.block_body_indices, 0);
    assert_eq!(db.transactions, 0);
    assert_eq!(db.transaction_block, 0);
    assert_eq!(db.block_ommers, 0);
    assert_eq!(db.block_withdrawals, 0);
    assert_eq!(db.checkpoints.bodies, 0);
    assert_eq!(db.checkpoints.finish, 0);
    // the genesis header rows overwrite rows already present
    assert_eq!(db.headers, 50);
    assert!(snapshots.files.iter().all(|f| f.segment != SnapshotSegment::Transactions));
    assert_eq!(snapshots.files.len(), 3);
}

#[test]
fn bodies_reset_on_empty_store_inserts_genesis_header() {
    let mut db = StageDb::default();
    let mut snapshots = SnapshotStore { files: vec![] };
    let cmd = Command { datadir: 1, chain: chain(), stage: StageEnum::Bodies };
    let outcome = cmd.execute(&mut db, &mut snapshots);
    assert_eq!(outcome, ResetOutcome::Reset);
    assert_eq!(db.canonical_headers, 1);
    assert_eq!(db.headers, 1);
    assert_eq!(db.header_numbers, 1);
    assert_eq!(db.header_td, 1);
}

#[test]
fn execution_reset_restores_genesis_state_and_drops_receipt_snapshots() {
    let mut db = populated_db();
    let mut snapshots = populated_snapshots();
    let cmd = Command { datadir: 1, chain: chain(), stage: StageEnum::Execution };
    let outcome = cmd.execute(&mut db, &mut snapshots);
    assert_eq!(outcome, ResetOutcome::Reset);
    assert_eq!(db.plain_account_state, 3);
    assert_eq!(db.plain_storage_state, 0);
    assert_eq!(db.account_change_set, 0);
    assert_eq!(db.storage_change_set, 0);
    assert_eq!(db.bytecodes, 0);
    assert_eq!(db.receipts, 0);
    assert_eq!(db.checkpoints.execution, 0);
    assert_eq!(db.checkpoints.finish, 0);
    assert!(snapshots.files.iter().all(|f| f.segment != SnapshotSegment::Receipts));
}

#[test]
fn merkle_reset_clears_tries_and_progress() {
    let mut db = populated_db();
    let mut snapshots = populated_snapshots();
    let cmd = Command { datadir: 1, chain: chain(), stage: StageEnum::Merkle };
    let outcome = cmd.execute(&mut db, &mut snapshots);
    assert_eq!(outcome, ResetOutcome::Reset);
    assert_eq!(db.accounts_trie, 0);
    assert_eq!(db.storages_trie, 0);
    assert_eq!(db.checkpoints.merkle_execute, 0);
    assert_eq!(db.checkpoints.merkle_unwind, 0);
    assert!(!db.merkle_execute_progress);
    assert_eq!(db.checkpoints.finish, 0);
    assert_eq!(snapshots.files.len(), 4);
}

#[test]
fn hashing_reset_covers_both_hashing_stages() {
    let mut db = populated_db();
    let mut snapshots = SnapshotStore { files: vec![] };
    let cmd = Command { datadir: 1, chain: chain(), stage: StageEnum::Hashing };
    let outcome = cmd.execute(&mut db, &mut snapshots);
    assert_eq!(outcome, ResetOutcome::Reset);
    assert_eq!(db.hashed_account, 0);
    assert_eq!(db.hashed_storage, 0);
    assert_eq!(db.checkpoints.account_hashing, 0);
    assert_eq!(db.checkpoints.storage_hashing, 0);
    assert_eq!(db.checkpoints.finish, 0);
}

#[test]
fn history_stages_share_one_reset() {
    for stage in [StageEnum::AccountHistory, StageEnum::StorageHistory] {
        let mut db = populated_db();
        let mut snapshots = SnapshotStore { files: vec![] };
        let cmd = Command { datadir: 1, chain: chain(), stage };
        let outcome = cmd.execute(&mut db, &mut snapshots);
        assert_eq!(outcome, ResetOutcome::Reset);
        assert_eq!(db.account_history, 0);
        assert_eq!(db.storage_history, 0);
        assert_eq!(db.checkpoints.index_account_history, 0);
        assert_eq!(db.checkpoints.index_storage_history, 0);
        assert_eq!(db.checkpoints.finish, 0);
    }
}

#[test]
fn senders_and_lookup_resets() {
    let mut db = populated_db();
    let mut snapshots = SnapshotStore { files: vec![] };
    let cmd = Command { datadir: 1, chain: chain(), stage: StageEnum::Senders };
    assert_eq!(cmd.execute(&mut db, &mut snapshots), ResetOutcome::Reset);
    assert_eq!(db.tx_senders, 0);
    assert_eq!(db.checkpoints.sender_recovery, 0);

    let mut db = populated_db();
    let cmd = Command { datadir: 1, chain: chain(), stage: StageEnum::TxLookup };
    assert_eq!(cmd.execute(&mut db, &mut snapshots), ResetOutcome::Reset);
    assert_eq!(db.tx_hash_number, 0);
    assert_eq!(db.checkpoints.transaction_lookup, 0);
    assert_eq!(db.header_td, 50);
}
