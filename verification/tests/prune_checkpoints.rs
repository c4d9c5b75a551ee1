use node_ext::prune::PruneCheckpoint;
use node_ext::prune::PruneCheckpointReader;
use node_ext::prune::PruneCheckpointStore;
use node_ext::prune::PruneCheckpointWriter;
use node_ext::prune::PruneSegment;

#[test]
fn fresh_store_holds_no_checkpoint() {
    let store = PruneCheckpointStore::new();
    assert_eq!(store.get_prune_checkpoint(PruneSegment::Receipts), None);
    assert_eq!(store.get_prune_checkpoint(PruneSegment::SenderRecovery), None);
}

#[test]
fn saved_checkpoint_is_read_back() {
    let mut store = PruneCheckpointStore::new();
    let cp = PruneCheckpoint { block_number: Some(100), tx_number: Some(4_000) };
    store.save_prune_checkpoint(PruneSegment::Receipts, cp);
    assert_eq!(store.get_prune_checkpoint(PruneSegment::Receipts), Some(cp));
}

#[test]
fn saving_one_segment_leaves_the_others() {
    let mut store = PruneCheckpointStore::new();
    let cp1 = PruneCheckpoint { block_number: Some(7), tx_number: None };
    let cp2 = PruneCheckpoint { block_number: Some(9), tx_number: Some(90) };
    store.save_prune_checkpoint(PruneSegment::AccountHistory, cp1);
    store.save_prune_checkpoint(PruneSegment::TransactionLookup, cp2);
    assert_eq!(store.get_prune_checkpoint(PruneSegment::AccountHistory), Some(cp1));
    assert_eq!(store.get_prune_checkpoint(PruneSegment::TransactionLookup), Some(cp2));
    assert_eq!(store.get_prune_checkpoint(PruneSegment::StorageHistory), None);
    // a later save overrides
    store.save_prune_checkpoint(PruneSegment::AccountHistory, cp2);
    assert_eq!(store.get_prune_checkpoint(PruneSegment::AccountHistory), Some(cp2));
}
