use node_ext::container::NodeHandle;
use node_ext::container::WithComponentsExt;
use node_ext::stage::BuildHook;
use node_ext::stage::DefaultCtxBuilder;
use node_ext::stage::ExtComponentsBuildStage;
use node_ext::stage::LaunchContext;
use node_ext::stage::NodeComponentsBuilderExt;
use node_ext::stage::NodeComponentsExtBuild;
use node_ext::stage::StageExtComponentsBuild;
use node_ext::txpool::EthTxBuilder;
use node_ext::txpool::PoolTransaction;
use node_ext::txpool::RpcTransaction;
use node_ext::txpool::TxPool;
use node_ext::txpool::TxPoolApi;
use node_ext::txpool::TxpoolInspectSummary;

fn tx(sender: u64, nonce: u64, hash: u64) -> PoolTransaction {
    PoolTransaction {
        hash,
        sender,
        nonce,
        to: Some(1000 + hash),
        value: 500,
        gas_limit: 21000,
        max_fee_per_gas: 2_000_000_000,
    }
}

fn rpc_of(t: PoolTransaction) -> RpcTransaction {
    RpcTransaction {
        hash: t.hash,
        sender: t.sender,
        nonce: t.nonce,
        to: t.to,
        value: t.value,
        gas_limit: t.gas_limit,
        max_fee_per_gas: t.max_fee_per_gas,
    }
}

#[test]
fn rpc_hook_pool_scenario_status_and_content() {
    // an rpc-surface hook is the only registered build step
    let mut stage = ExtComponentsBuildStage::new(
        LaunchContext { chain_id: 1, data_dir: 1 },
        DefaultCtxBuilder,
        WithComponentsExt::new(NodeHandle { id: 1, chain_id: 1 }),
    );
    stage.rpc_builder(BuildHook { id: 3, component_id: 30, fails: false, error_code: 0 });
    let built = NodeComponentsExtBuild.build(&mut stage);
    assert!(built.is_ok());
    assert!(stage.components.pipeline.is_none());
    assert!(stage.components.engine.is_none());
    assert_eq!(stage.components.rpc.unwrap().id, 30);

    // the surface inspects a pool holding one pending transaction:
    // tx A from sender S with nonce 0, and nothing queued
    let tx_a = tx(77, 0, 1);
    let api = TxPoolApi::new(TxPool::new(vec![tx_a], vec![]), EthTxBuilder);
    let status = api.txpool_status();
    assert_eq!(status.pending, 1);
    assert_eq!(status.queued, 0);
    let content = api.txpool_content();
    assert_eq!(content.pending.len(), 1);
    assert_eq!(content.queued.len(), 0);
    let by_sender = content.pending.get(77).expect("sender S must hold an entry");
    assert_eq!(by_sender.len(), 1);
    assert_eq!(by_sender.get(0), Some(rpc_of(tx_a)));
}

#[test]
fn status_counts_pending_and_queued() {
    let api = TxPoolApi::new(
        TxPool::new(vec![tx(1, 0, 1), tx(2, 0, 2), tx(1, 1, 3)], vec![tx(3, 4, 4)]),
        EthTxBuilder,
    );
    let status = api.txpool_status();
    assert_eq!(status.pending, 3);
    assert_eq!(status.queued, 1);
}

#[test]
fn empty_pool_gives_empty_results() {
    let api = TxPoolApi::new(TxPool::new(vec![], vec![]), EthTxBuilder);
    let status = api.txpool_status();
    assert_eq!(status.pending, 0);
    assert_eq!(status.queued, 0);
    let content = api.txpool_content();
    assert_eq!(content.pending.len(), 0);
    assert_eq!(content.queued.len(), 0);
    assert!(api.txpool_content_from(5).pending.get(0).is_none());
}

#[test]
fn content_groups_by_sender_then_nonce() {
    let a0 = tx(10, 0, 1);
    let a1 = tx(10, 1, 2);
    let b2 = tx(20, 2, 3);
    let api = TxPoolApi::new(TxPool::new(vec![a0, a1, b2], vec![]), EthTxBuilder);
    let content = api.txpool_content();
    assert_eq!(content.pending.len(), 2);
    let a = content.pending.get(10).unwrap();
    assert_eq!(a.len(), 2);
    assert_eq!(a.get(0), Some(rpc_of(a0)));
    assert_eq!(a.get(1), Some(rpc_of(a1)));
    let b = content.pending.get(20).unwrap();
    assert_eq!(b.get(2), Some(rpc_of(b2)));
    assert!(content.pending.get(30).is_none());
}

#[test]
fn later_transaction_with_equal_keys_overrides() {
    let first = tx(10, 0, 1);
    let second = tx(10, 0, 2);
    let api = TxPoolApi::new(TxPool::new(vec![first, second], vec![]), EthTxBuilder);
    let content = api.txpool_content();
    assert_eq!(content.pending.len(), 1);
    let a = content.pending.get(10).unwrap();
    assert_eq!(a.len(), 1);
    assert_eq!(a.get(0), Some(rpc_of(second)));
}

#[test]
fn inspect_reports_exact_summaries() {
    let t = PoolTransaction {
        hash: 9,
        sender: 4,
        nonce: 2,
        to: None,
        value: 123,
        gas_limit: 50_000,
        max_fee_per_gas: 7_000,
    };
    let api = TxPoolApi::new(TxPool::new(vec![], vec![t]), EthTxBuilder);
    let inspect = api.txpool_inspect();
    assert_eq!(inspect.pending.len(), 0);
    let summary = inspect.queued.get(4).unwrap().get(2).unwrap();
    assert_eq!(
        summary,
        TxpoolInspectSummary { to: None, value: 123, gas: 50_000, gas_price: 7_000 }
    );
}

#[test]
fn content_from_filters_to_one_sender() {
    let a0 = tx(10, 0, 1);
    let b0 = tx(20, 0, 2);
    let b3 = tx(20, 3, 3);
    let api = TxPoolApi::new(TxPool::new(vec![a0, b0], vec![b3]), EthTxBuilder);
    let from_b = api.txpool_content_from(20);
    assert_eq!(from_b.pending.len(), 1);
    assert_eq!(from_b.pending.get(0), Some(rpc_of(b0)));
    assert_eq!(from_b.queued.get(3), Some(rpc_of(b3)));
    assert!(from_b.pending.get(5).is_none());
    let from_unknown = api.txpool_content_from(99);
    assert_eq!(from_unknown.pending.len(), 0);
    assert_eq!(from_unknown.queued.len(), 0);
}
