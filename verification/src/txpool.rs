//! The pool-introspection RPC surface: status (pending/queued counts),
//! inspect (per-sender, per-nonce summaries), content (full per-sender,
//! per-nonce transaction objects) and content filtered to one sender.
//!
//! The pool is a read-only data source handing out one atomic snapshot per
//! call.  Addresses, hashes and amounts are carried as plain numbers; the
//! grouped query results are association maps keyed by sender and then by
//! nonce, whose specification-level value is a nested `Map`.

use vstd::prelude::*;

verus! {

/// One transaction as the pool holds it.  The sender is an address, `to`
/// the destination (`None` for a contract creation).
#[derive(Clone, Copy, Debug, PartialEq, Eq)]
pub struct PoolTransaction {
    pub hash: u64,
    pub sender: u64,
    pub nonce: u64,
    pub to: Option<u64>,
    pub value: u128,
    pub gas_limit: u64,
    pub max_fee_per_gas: u128,
}

/// One atomic snapshot of the pool: the transactions pending for inclusion
/// in the next blocks, and the ones queued for future execution only.
#[derive(Debug)]
pub struct AllPoolTransactions {
    pub pending: Vec<PoolTransaction>,
    pub queued: Vec<PoolTransaction>,
}

/// The transaction pool, as the introspection surface reads it.
#[derive(Debug)]
pub struct TxPool {
    pub pending: Vec<PoolTransaction>,
    pub queued: Vec<PoolTransaction>,
}

impl TxPool {
    pub fn new(pending: Vec<PoolTransaction>, queued: Vec<PoolTransaction>) -> (r: Self)
        ensures
            r.pending@ == pending@,
            r.queued@ == queued@,
    {
        TxPool { pending, queued }
    }

    /// One atomic snapshot of everything in the pool.
    pub fn all_transactions(&self) -> (r: AllPoolTransactions)
        ensures
            r.pending@ == self.pending@,
            r.queued@ == self.queued@,
    {
        AllPoolTransactions { pending: copy_txs(&self.pending), queued: copy_txs(&self.queued) }
    }
}

fn copy_txs(txs: &Vec<PoolTransaction>) -> (r: Vec<PoolTransaction>)
    ensures
        r@ == txs@,
{
    let n = txs.len();
    let mut r: Vec<PoolTransaction> = Vec::new();
    let mut i: usize = 0;
    while i < n
        invariant
            i <= n,
            n == txs@.len(),
            r@ == txs@.take(i as int),
        decreases n - i,
    {
        r.push(txs[i]);
        proof {
            assert(txs@.take(i + 1) =~= txs@.take(i as int).push(txs@[i as int]));
        }
        i += 1;
    }
    proof {
        assert(txs@.take(n as int) =~= txs@);
    }
    r
}

/// One transaction as the RPC surface reports it.
#[derive(Clone, Copy, Debug, PartialEq, Eq)]
pub struct RpcTransaction {
    pub hash: u64,
    pub sender: u64,
    pub nonce: u64,
    pub to: Option<u64>,
    pub value: u128,
    pub gas_limit: u64,
    pub max_fee_per_gas: u128,
}

/// The reported form of a pool transaction.
pub open spec fn spec_rpc_of(t: PoolTransaction) -> RpcTransaction {
    RpcTransaction {
        hash: t.hash,
        sender: t.sender,
        nonce: t.nonce,
        to: t.to,
        value: t.value,
        gas_limit: t.gas_limit,
        max_fee_per_gas: t.max_fee_per_gas,
    }
}

/// Builds the reported transaction objects from recovered pool
/// transactions.
#[derive(Clone, Copy, Debug, Default)]
pub struct EthTxBuilder;

impl EthTxBuilder {
    pub fn from_recovered(&self, t: &PoolTransaction) -> (r: RpcTransaction)
        ensures
            r == spec_rpc_of(*t),
    {
        RpcTransaction {
            hash: t.hash,
            sender: t.sender,
            nonce: t.nonce,
            to: t.to,
            value: t.value,
            gas_limit: t.gas_limit,
            max_fee_per_gas: t.max_fee_per_gas,
        }
    }
}

/// The per-nonce, per-sender summary reported by the inspect query.
#[derive(Clone, Copy, Debug, PartialEq, Eq)]
pub struct TxpoolInspectSummary {
    pub to: Option<u64>,
    pub value: u128,
    pub gas: u128,
    pub gas_price: u128,
}

/// The summary form of a pool transaction.
pub open spec fn spec_summary_of(t: PoolTransaction) -> TxpoolInspectSummary {
    TxpoolInspectSummary {
        to: t.to,
        value: t.value,
        gas: t.gas_limit as u128,
        gas_price: t.max_fee_per_gas,
    }
}

/// Pending and queued counts.
#[derive(Clone, Copy, Debug, PartialEq, Eq, Structural)]
pub struct TxpoolStatus {
    pub pending: u64,
    pub queued: u64,
}

/// Association list from a key to a value, one entry per key.
#[derive(Debug)]
pub struct NonceMap<V> {
    pub entries: Vec<(u64, V)>,
}

/// Association list from a sender to its per-nonce entries, one entry per
/// sender.
#[derive(Debug)]
pub struct SenderMap<V> {
    pub entries: Vec<(u64, NonceMap<V>)>,
}

/// No two entries share a key.
pub open spec fn unique_keys<W>(s: Seq<(u64, W)>) -> bool {
    forall|i: int, j: int|
        #![trigger s[i].0, s[j].0]
        0 <= i < j < s.len() ==> s[i].0 != s[j].0
}

/// Reading an entry's value as it stands.
pub open spec fn id_view<V>() -> spec_fn(V) -> V {
    |v: V| v
}

/// Reading a sender entry's value as the map it stands for.
pub open spec fn nm_view<V: Copy>() -> spec_fn(NonceMap<V>) -> Map<u64, V> {
    |nm: NonceMap<V>| nm.as_map()
}

/// The map an association list stands for, each entry's value read through
/// `f`; a later entry for the same key overrides an earlier one.
pub open spec fn assoc_map<W, U>(s: Seq<(u64, W)>, f: spec_fn(W) -> U) -> Map<u64, U>
    decreases s.len(),
{
    if s.len() == 0 {
        Map::empty()
    } else {
        assoc_map(s.drop_last(), f).insert(s.last().0, f(s.last().1))
    }
}

proof fn lemma_assoc_map_index<W, U>(s: Seq<(u64, W)>, f: spec_fn(W) -> U, i: int)
    requires
        unique_keys(s),
        0 <= i < s.len(),
    ensures
        assoc_map(s, f).contains_key(s[i].0),
        assoc_map(s, f)[s[i].0] == f(s[i].1),
    decreases s.len(),
{
    if i < s.len() - 1 {
        lemma_assoc_map_index(s.drop_last(), f, i);
    }
}

proof fn lemma_assoc_map_absent<W, U>(s: Seq<(u64, W)>, f: spec_fn(W) -> U, k: u64)
    requires
        forall|i: int| 0 <= i < s.len() ==> (#[trigger] s[i].0) != k,
    ensures
        !assoc_map(s, f).contains_key(k),
    decreases s.len(),
{
    if s.len() > 0 {
        lemma_assoc_map_absent(s.drop_last(), f, k);
    }
}

proof fn lemma_assoc_map_update<W, U>(s: Seq<(u64, W)>, f: spec_fn(W) -> U, i: int, w: W)
    requires
        unique_keys(s),
        0 <= i < s.len(),
    ensures
        assoc_map(s.update(i, (s[i].0, w)), f) == assoc_map(s, f).insert(s[i].0, f(w)),
    decreases s.len(),
{
    let k = s[i].0;
    let s2 = s.update(i, (k, w));
    if i == s.len() - 1 {
        assert(s2.drop_last() =~= s.drop_last());
        assert(assoc_map(s.drop_last(), f).insert(k, f(w)) =~= assoc_map(s, f).insert(k, f(w)));
    } else {
        assert(s2.drop_last() =~= s.drop_last().update(i, (k, w)));
        lemma_assoc_map_update(s.drop_last(), f, i, w);
        assert(s2.last() == s.last());
        assert(k != s.last().0);
        assert(assoc_map(s.drop_last(), f).insert(k, f(w)).insert(s.last().0, f(s.last().1))
            =~= assoc_map(s.drop_last(), f).insert(s.last().0, f(s.last().1)).insert(k, f(w)));
    }
}

impl<V: Copy> NonceMap<V> {
    /// The map this list stands for.
    pub open spec fn as_map(self) -> Map<u64, V> {
        assoc_map(self.entries@, id_view())
    }

    pub open spec fn wf(self) -> bool {
        unique_keys(self.entries@)
    }

    /// An empty map.
    pub fn new() -> (r: Self)
        ensures
            r.wf(),
            r.as_map() == Map::<u64, V>::empty(),
    {
        NonceMap { entries: Vec::new() }
    }

    /// Stores `value` under `key`, overriding what the key held before.
    pub fn insert(&mut self, key: u64, value: V)
        requires
            old(self).wf(),
        ensures
            final(self).wf(),
            final(self).as_map() == old(self).as_map().insert(key, value),
    {
        let n = self.entries.len();
        let mut i: usize = 0;
        while i < n
            invariant
                i <= n,
                n == self.entries@.len(),
                *self == *old(self),
                old(self).wf(),
                forall|j: int| 0 <= j < i ==> (#[trigger] self.entries@[j].0) != key,
            decreases n - i,
        {
            if self.entries[i].0 == key {
                let _ = self.entries.remove(i);
                self.entries.insert(i, (key, value));
                proof {
                    assert(self.entries@ =~= old(self).entries@.update(i as int, (key, value)));
                    lemma_assoc_map_update(old(self).entries@, id_view::<V>(), i as int, value);
                }
                return ;
            }
            i += 1;
        }
        self.entries.push((key, value));
        proof {
            assert(self.entries@.drop_last() =~= old(self).entries@);
            lemma_assoc_map_absent(old(self).entries@, id_view::<V>(), key);
        }
    }

    /// The value the key holds, if any.
    pub fn get(&self, key: u64) -> (r: Option<V>)
        requires
            self.wf(),
        ensures
            match r {
                Some(v) => self.as_map().contains_key(key) && self.as_map()[key] == v,
                None => !self.as_map().contains_key(key),
            },
    {
        let n = self.entries.len();
        let mut i: usize = 0;
        while i < n
            invariant
                i <= n,
                n == self.entries@.len(),
                self.wf(),
                forall|j: int| 0 <= j < i ==> (#[trigger] self.entries@[j].0) != key,
            decreases n - i,
        {
            if self.entries[i].0 == key {
                proof {
                    lemma_assoc_map_index(self.entries@, id_view::<V>(), i as int);
                }
                return Some(self.entries[i].1);
            }
            i += 1;
        }
        proof {
            lemma_assoc_map_absent(self.entries@, id_view::<V>(), key);
        }
        None
    }

    /// How many keys hold a value.
    pub fn len(&self) -> (r: usize)
        ensures
            r == self.entries@.len(),
    {
        self.entries.len()
    }

    /// A copy of this map.
    pub fn duplicate(&self) -> (r: Self)
        ensures
            r.entries@ == self.entries@,
            r.wf() == self.wf(),
            r.as_map() == self.as_map(),
    {
        let n = self.entries.len();
        let mut entries: Vec<(u64, V)> = Vec::new();
        let mut i: usize = 0;
        while i < n
            invariant
                i <= n,
                n == self.entries@.len(),
                entries@ == self.entries@.take(i as int),
            decreases n - i,
        {
            entries.push(self.entries[i]);
            proof {
                assert(self.entries@.take(i + 1) =~= self.entries@.take(i as int).push(
                    self.entries@[i as int],
                ));
            }
            i += 1;
        }
        proof {
            assert(self.entries@.take(n as int) =~= self.entries@);
        }
        NonceMap { entries }
    }
}

/// The per-nonce map a grouped result holds for a sender: what the sender's
/// key maps to, or the empty map for a sender not present.
pub open spec fn nonce_map_of<U>(m: Map<u64, Map<u64, U>>, sender: u64) -> Map<u64, U> {
    if m.contains_key(sender) {
        m[sender]
    } else {
        Map::empty()
    }
}

impl<V: Copy> SenderMap<V> {
    /// The nested map this list stands for.
    pub open spec fn as_map(self) -> Map<u64, Map<u64, V>> {
        assoc_map(self.entries@, nm_view())
    }

    pub open spec fn wf(self) -> bool {
        &&& unique_keys(self.entries@)
        &&& forall|i: int| 0 <= i < self.entries@.len() ==> (#[trigger] self.entries@[i].1).wf()
    }

    /// An empty map.
    pub fn new() -> (r: Self)
        ensures
            r.wf(),
            r.as_map() == Map::<u64, Map<u64, V>>::empty(),
    {
        SenderMap { entries: Vec::new() }
    }

    /// Stores `value` under the sender's key and the nonce's sub-key,
    /// overriding what that pair held before and leaving every other pair
    /// as it was.
    pub fn insert(&mut self, sender: u64, nonce: u64, value: V)
        requires
            old(self).wf(),
        ensures
            final(self).wf(),
            final(self).as_map() == old(self).as_map().insert(
                sender,
                nonce_map_of(old(self).as_map(), sender).insert(nonce, value),
            ),
    {
        let n = self.entries.len();
        let mut i: usize = 0;
        while i < n
            invariant
                i <= n,
                n == self.entries@.len(),
                *self == *old(self),
                old(self).wf(),
                forall|j: int| 0 <= j < i ==> (#[trigger] self.entries@[j].0) != sender,
            decreases n - i,
        {
            if self.entries[i].0 == sender {
                let pair = self.entries.remove(i);
                let mut nm = pair.1;
                proof {
                    lemma_assoc_map_index(old(self).entries@, nm_view::<V>(), i as int);
                }
                nm.insert(nonce, value);
                self.entries.insert(i, (sender, nm));
                proof {
                    assert(self.entries@ =~= old(self).entries@.update(i as int, (sender, nm)));
                    lemma_assoc_map_update(old(self).entries@, nm_view::<V>(), i as int, nm);
                }
                return ;
            }
            i += 1;
        }
        let mut nm: NonceMap<V> = NonceMap::new();
        nm.insert(nonce, value);
        self.entries.push((sender, nm));
        proof {
            assert(self.entries@.drop_last() =~= old(self).entries@);
            lemma_assoc_map_absent(old(self).entries@, nm_view::<V>(), sender);
            assert(Map::<u64, V>::empty().insert(nonce, value) =~= nonce_map_of(
                old(self).as_map(),
                sender,
            ).insert(nonce, value));
        }
    }

    /// The sender's per-nonce entries, if the sender holds any.
    pub fn get(&self, sender: u64) -> (r: Option<&NonceMap<V>>)
        requires
            self.wf(),
        ensures
            match r {
                Some(nm) => {
                    &&& self.as_map().contains_key(sender)
                    &&& nm.as_map() == self.as_map()[sender]
                    &&& nm.wf()
                },
                None => !self.as_map().contains_key(sender),
            },
    {
        let n = self.entries.len();
        let mut i: usize = 0;
        while i < n
            invariant
                i <= n,
                n == self.entries@.len(),
                self.wf(),
                forall|j: int| 0 <= j < i ==> (#[trigger] self.entries@[j].0) != sender,
            decreases n - i,
        {
            if self.entries[i].0 == sender {
                proof {
                    lemma_assoc_map_index(self.entries@, nm_view::<V>(), i as int);
                }
                return Some(&self.entries[i].1);
            }
            i += 1;
        }
        proof {
            lemma_assoc_map_absent(self.entries@, nm_view::<V>(), sender);
        }
        None
    }

    /// How many senders hold entries.
    pub fn len(&self) -> (r: usize)
        ensures
            r == self.entries@.len(),
    {
        self.entries.len()
    }
}

/// Full transaction objects, keyed by sender and then by nonce.
#[derive(Debug)]
pub struct TxpoolContent {
    pub pending: SenderMap<RpcTransaction>,
    pub queued: SenderMap<RpcTransaction>,
}

/// Summaries, keyed by sender and then by nonce.
#[derive(Debug)]
pub struct TxpoolInspect {
    pub pending: SenderMap<TxpoolInspectSummary>,
    pub queued: SenderMap<TxpoolInspectSummary>,
}

/// One sender's transactions, keyed by nonce.
#[derive(Debug)]
pub struct TxpoolContentFrom {
    pub pending: NonceMap<RpcTransaction>,
    pub queued: NonceMap<RpcTransaction>,
}

/// The grouped, reported form of a list of pool transactions: keyed by
/// sender and then by nonce, a later transaction for the same pair
/// overriding an earlier one.
pub open spec fn content_map(txs: Seq<PoolTransaction>) -> Map<u64, Map<u64, RpcTransaction>>
    decreases txs.len(),
{
    if txs.len() == 0 {
        Map::empty()
    } else {
        let m = content_map(txs.drop_last());
        let t = txs.last();
        m.insert(t.sender, nonce_map_of(m, t.sender).insert(t.nonce, spec_rpc_of(t)))
    }
}

/// The grouped summaries of a list of pool transactions.
pub open spec fn inspect_map(txs: Seq<PoolTransaction>) -> Map<u64, Map<u64, TxpoolInspectSummary>>
    decreases txs.len(),
{
    if txs.len() == 0 {
        Map::empty()
    } else {
        let m = inspect_map(txs.drop_last());
        let t = txs.last();
        m.insert(t.sender, nonce_map_of(m, t.sender).insert(t.nonce, spec_summary_of(t)))
    }
}

/// The pool-introspection API: answers status, inspect and content queries
/// from one pool snapshot per call.
#[derive(Debug)]
pub struct TxPoolApi {
    /// An interface to interact with the pool.
    pub pool: TxPool,
    pub resp_builder: EthTxBuilder,
}

impl TxPoolApi {
    /// A new instance over the given pool and response builder.
    pub fn new(pool: TxPool, resp_builder: EthTxBuilder) -> (r: Self)
        ensures
            r.pool.pending@ == pool.pending@,
            r.pool.queued@ == pool.queued@,
    {
        TxPoolApi { pool, resp_builder }
    }

    /// The grouped full transaction objects of everything in the pool.
    fn content(&self) -> (c: TxpoolContent)
        ensures
            c.pending.wf(),
            c.queued.wf(),
            c.pending.as_map() == content_map(self.pool.pending@),
            c.queued.as_map() == content_map(self.pool.queued@),
    {
        let all = self.pool.all_transactions();
        let pending = self.group_content(&all.pending);
        let queued = self.group_content(&all.queued);
        TxpoolContent { pending, queued }
    }

    fn group_content(&self, txs: &Vec<PoolTransaction>) -> (r: SenderMap<RpcTransaction>)
        ensures
            r.wf(),
            r.as_map() == content_map(txs@),
    {
        let n = txs.len();
        let mut r: SenderMap<RpcTransaction> = SenderMap::new();
        let mut i: usize = 0;
        while i < n
            invariant
                i <= n,
                n == txs@.len(),
                r.wf(),
                r.as_map() == content_map(txs@.take(i as int)),
            decreases n - i,
        {
            let t = txs[i];
            let rpc = self.resp_builder.from_recovered(&t);
            r.insert(t.sender, t.nonce, rpc);
            proof {
                assert(txs@.take(i + 1).drop_last() =~= txs@.take(i as int));
                assert(txs@.take(i + 1).last() == txs@[i as int]);
            }
            i += 1;
        }
        proof {
            assert(txs@.take(n as int) =~= txs@);
        }
        r
    }

    fn group_inspect(&self, txs: &Vec<PoolTransaction>) -> (r: SenderMap<TxpoolInspectSummary>)
        ensures
            r.wf(),
            r.as_map() == inspect_map(txs@),
    {
        let n = txs.len();
        let mut r: SenderMap<TxpoolInspectSummary> = SenderMap::new();
        let mut i: usize = 0;
        while i < n
            invariant
                i <= n,
                n == txs@.len(),
                r.wf(),
                r.as_map() == inspect_map(txs@.take(i as int)),
            decreases n - i,
        {
            let t = txs[i];
            let summary = TxpoolInspectSummary {
                to: t.to,
                value: t.value,
                gas: t.gas_limit as u128,
                gas_price: t.max_fee_per_gas,
            };
            r.insert(t.sender, t.nonce, summary);
            proof {
                assert(txs@.take(i + 1).drop_last() =~= txs@.take(i as int));
                assert(txs@.take(i + 1).last() == txs@[i as int]);
            }
            i += 1;
        }
        proof {
            assert(txs@.take(n as int) =~= txs@);
        }
        r
    }

    /// How many transactions are pending for inclusion in the next blocks,
    /// and how many are queued for future execution only.
    pub fn txpool_status(&self) -> (r: TxpoolStatus)
        ensures
            r.pending == self.pool.pending@.len(),
            r.queued == self.pool.queued@.len(),
    {
        let all = self.pool.all_transactions();
        TxpoolStatus { pending: all.pending.len() as u64, queued: all.queued.len() as u64 }
    }

    /// A summary of every transaction in the pool, keyed by sender and then
    /// by nonce.
    pub fn txpool_inspect(&self) -> (r: TxpoolInspect)
        ensures
            r.pending.wf(),
            r.queued.wf(),
            r.pending.as_map() == inspect_map(self.pool.pending@),
            r.queued.as_map() == inspect_map(self.pool.queued@),
    {
        let all = self.pool.all_transactions();
        let pending = self.group_inspect(&all.pending);
        let queued = self.group_inspect(&all.queued);
        TxpoolInspect { pending, queued }
    }

    /// The pool's transactions of one sender, keyed by nonce.
    pub fn txpool_content_from(&self, from: u64) -> (r: TxpoolContentFrom)
        ensures
            r.pending.wf(),
            r.queued.wf(),
            r.pending.as_map() == nonce_map_of(content_map(self.pool.pending@), from),
            r.queued.as_map() == nonce_map_of(content_map(self.pool.queued@), from),
    {
        let content = self.content();
        let pending = match content.pending.get(from) {
            Some(nm) => nm.duplicate(),
            None => NonceMap::new(),
        };
        let queued = match content.queued.get(from) {
            Some(nm) => nm.duplicate(),
            None => NonceMap::new(),
        };
        TxpoolContentFrom { pending, queued }
    }

    /// The full transaction objects of everything in the pool, keyed by
    /// sender and then by nonce.
    pub fn txpool_content(&self) -> (r: TxpoolContent)
        ensures
            r.pending.wf(),
            r.queued.wf(),
            r.pending.as_map() == content_map(self.pool.pending@),
            r.queued.as_map() == content_map(self.pool.queued@),
    {
        self.content()
    }
}

} // verus!
