//! The pool registry: at most one pool per tracked asset, found by the
//! asset's identifier.

use crate::types::{AssetId, Pool};
use std::collections::HashMap;
use vstd::prelude::*;

verus! {

/// Whether every pool of `pools` stands under its own asset.
pub open spec fn keyed_by_asset(pools: Map<AssetId, Pool>) -> bool {
    forall|asset_id: AssetId| #[trigger]
        pools.contains_key(asset_id) ==> pools[asset_id].asset_id == asset_id
}

/// `pools` after each record of `updates` was stored under its own asset, in
/// order: where two records are for one asset, the later stays.
pub open spec fn store_all(pools: Map<AssetId, Pool>, updates: Seq<Pool>) -> Map<AssetId, Pool>
    decreases updates.len(),
{
    if updates.len() == 0 {
        pools
    } else {
        store_all(pools, updates.drop_last()).insert(updates.last().asset_id, updates.last())
    }
}

/// Storing keeps every record under its own asset.
pub proof fn lemma_store_all_keyed(pools: Map<AssetId, Pool>, updates: Seq<Pool>)
    requires
        keyed_by_asset(pools),
    ensures
        keyed_by_asset(store_all(pools, updates)),
    decreases updates.len(),
{
    if updates.len() > 0 {
        lemma_store_all_keyed(pools, updates.drop_last());
    }
}

/// Storing one record is one insertion, and storing two is two, the second
/// over the first.
pub proof fn lemma_store_all_short(pools: Map<AssetId, Pool>, first: Pool, second: Pool)
    ensures
        store_all(pools, seq![first]) == pools.insert(first.asset_id, first),
        store_all(pools, seq![first, second]) == pools.insert(first.asset_id, first).insert(
            second.asset_id,
            second,
        ),
{
    assert(seq![first].drop_last() =~= Seq::<Pool>::empty());
    assert(seq![first, second].drop_last() =~= seq![first]);
    reveal_with_fuel(store_all, 3);
}

/// Whether `after` holds the markets of `before` and no others: a pool for
/// the same assets, each with the liquidity token it had.
pub open spec fn same_markets(before: Map<AssetId, Pool>, after: Map<AssetId, Pool>) -> bool {
    &&& forall|asset_id: AssetId| #[trigger]
        before.contains_key(asset_id) <==> after.contains_key(asset_id)
    &&& forall|asset_id: AssetId| #[trigger]
        before.contains_key(asset_id) ==> {
            &&& after[asset_id].asset_id == before[asset_id].asset_id
            &&& after[asset_id].liquidity_asset_id == before[asset_id].liquidity_asset_id
        }
}

/// Whether the product of the reserves of every pool of `before` is at
/// least as large in `after`.
pub open spec fn products_kept(before: Map<AssetId, Pool>, after: Map<AssetId, Pool>) -> bool {
    forall|asset_id: AssetId| #[trigger]
        before.contains_key(asset_id) ==> {
            &&& after.contains_key(asset_id)
            &&& after[asset_id].product() >= before[asset_id].product()
        }
}

/// Whether no two pools of `pools` share a liquidity token.
pub open spec fn liquidity_tokens_apart(pools: Map<AssetId, Pool>) -> bool {
    forall|first: AssetId, second: AssetId|
        #![trigger pools.contains_key(first), pools.contains_key(second)]
        pools.contains_key(first) && pools.contains_key(second) && first != second
            ==> pools[first].liquidity_asset_id != pools[second].liquidity_asset_id
}

/// Where the markets stay the same, pools that shared no liquidity token
/// share none afterwards.
pub proof fn lemma_same_markets_keep_tokens_apart(
    before: Map<AssetId, Pool>,
    after: Map<AssetId, Pool>,
)
    requires
        same_markets(before, after),
        liquidity_tokens_apart(before),
    ensures
        liquidity_tokens_apart(after),
{
    assert forall|first: AssetId, second: AssetId|
        #![trigger after.contains_key(first), after.contains_key(second)]
        after.contains_key(first) && after.contains_key(second) && first
            != second implies after[first].liquidity_asset_id != after[second].liquidity_asset_id by {
        assert(before.contains_key(first) && before.contains_key(second));
    }
}

/// The keyed store of pool records.
#[derive(Debug, PartialEq, Eq)]
pub struct PoolsMap {
    pools: HashMap<AssetId, Pool>,
}

impl View for PoolsMap {
    type V = Map<AssetId, Pool>;

    closed spec fn view(&self) -> Map<AssetId, Pool> {
        self.pools@
    }
}

impl Clone for PoolsMap {
    fn clone(&self) -> (copy: PoolsMap)
        ensures
            copy@ == self@,
    {
        proof {
            use_type_invariant(self);
        }
        PoolsMap { pools: self.pools.clone() }
    }
}

impl PoolsMap {
    /// Every stored pool stands under its own asset.
    #[verifier::type_invariant]
    spec fn keyed(self) -> bool {
        keyed_by_asset(self.pools@)
    }

    /// A registry without pools.
    pub fn new() -> (registry: PoolsMap)
        ensures
            registry@ == Map::<AssetId, Pool>::empty(),
    {
        PoolsMap { pools: HashMap::new() }
    }

    /// The pool of `asset_id`, if it has one. Every pool of a registry
    /// stands under its own asset.
    pub fn get(&self, asset_id: AssetId) -> (pool: Option<Pool>)
        ensures
            pool == if self@.contains_key(asset_id) {
                Some(self@[asset_id])
            } else {
                None
            },
            keyed_by_asset(self@),
    {
        proof {
            use_type_invariant(self);
        }
        match self.pools.get(&asset_id) {
            Some(pool) => Some(*pool),
            None => None,
        }
    }

    /// Stores `pool` under its own asset, in place of any pool that asset had.
    pub fn insert(&mut self, pool: Pool)
        ensures
            final(self)@ == old(self)@.insert(pool.asset_id, pool),
    {
        proof {
            use_type_invariant(&*self);
        }
        // The map is changed outside the registry and put back whole.
        let mut taken = PoolsMap { pools: HashMap::new() };
        std::mem::swap(self, &mut taken);
        let PoolsMap { pools: mut stored } = taken;
        stored.insert(pool.asset_id, pool);
        *self = PoolsMap { pools: stored };
    }
}

} // verus!
