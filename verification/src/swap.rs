//! Swapping the currency for an asset, an asset for the currency, and one
//! asset for another.

use crate::ledger::{decided, Effects, EffectsView, LedgerCall};
use crate::pallet::{Pallet, PalletView};
use crate::pricing::{lemma_round_trip_never_gains, lemma_swap_keeps_product, swap_output};
use crate::registry::{keyed_by_asset, lemma_store_all_short, products_kept, same_markets};
use crate::types::{AccountId, AssetId, Balance, Error, Event, Pool};
use vstd::prelude::*;

verus! {

impl PalletView {
    /// Swapping `currency_amount` of currency for the asset `asset_id`.
    ///
    /// The checks run in this order: the amount is not zero; the asset
    /// exists; the asset has a pool; the price can be computed. Then the
    /// sender pays the currency to the exchange's account and is paid the
    /// asset out of it, and the pool gains the one and loses the other.
    pub open spec fn currency_to_asset(
        self,
        sender: AccountId,
        currency_amount: Balance,
        asset_id: AssetId,
        asset_exists: bool,
    ) -> Result<EffectsView, Error> {
        if currency_amount == 0 {
            Err(Error::CurrencyAmountZero)
        } else if !asset_exists {
            Err(Error::AssetNotFound)
        } else if !self.pools.contains_key(asset_id) {
            Err(Error::PoolNotFound)
        } else {
            let pool = self.pools[asset_id];
            match swap_output(
                currency_amount,
                pool.currency_reserve,
                pool.asset_reserve,
                self.config.fee,
                self.config.thousand,
            ) {
                None => Err(Error::OperationOverflow),
                Some(asset_amount) => Ok(
                    EffectsView {
                        calls: seq![
                            LedgerCall::Transfer {
                                from: sender,
                                to: self.account(),
                                amount: currency_amount,
                                keep_alive: true,
                            },
                            LedgerCall::AssetTransfer {
                                asset_id,
                                from: self.account(),
                                to: sender,
                                amount: asset_amount,
                                keep_alive: true,
                            },
                        ],
                        pools: seq![
                            Pool {
                                asset_id: pool.asset_id,
                                currency_reserve: (pool.currency_reserve + currency_amount) as Balance,
                                asset_reserve: (pool.asset_reserve - asset_amount) as Balance,
                                liquidity_asset_id: pool.liquidity_asset_id,
                            },
                        ],
                        events: seq![
                            Event::CurrencyToAsset {
                                sender,
                                asset_id,
                                currency_amount,
                                asset_amount,
                            },
                        ],
                    },
                ),
            }
        }
    }

    /// Swapping `asset_amount` of the asset `asset_id` for currency.
    ///
    /// The checks run in this order: the amount is not zero; the asset
    /// exists; the asset has a pool; the price can be computed. Then the
    /// sender pays the asset to the exchange's account and is paid currency
    /// out of it, and the pool gains the one and loses the other.
    pub open spec fn asset_to_currency(
        self,
        sender: AccountId,
        asset_amount: Balance,
        asset_id: AssetId,
        asset_exists: bool,
    ) -> Result<EffectsView, Error> {
        if asset_amount == 0 {
            Err(Error::AssetAmountZero)
        } else if !asset_exists {
            Err(Error::AssetNotFound)
        } else if !self.pools.contains_key(asset_id) {
            Err(Error::PoolNotFound)
        } else {
            let pool = self.pools[asset_id];
            match swap_output(
                asset_amount,
                pool.asset_reserve,
                pool.currency_reserve,
                self.config.fee,
                self.config.thousand,
            ) {
                None => Err(Error::OperationOverflow),
                Some(currency_amount) => Ok(
                    EffectsView {
                        calls: seq![
                            LedgerCall::AssetTransfer {
                                asset_id,
                                from: sender,
                                to: self.account(),
                                amount: asset_amount,
                                keep_alive: true,
                            },
                            LedgerCall::Transfer {
                                from: self.account(),
                                to: sender,
                                amount: currency_amount,
                                keep_alive: true,
                            },
                        ],
                        pools: seq![
                            Pool {
                                asset_id: pool.asset_id,
                                currency_reserve: (pool.currency_reserve - currency_amount) as Balance,
                                asset_reserve: (pool.asset_reserve + asset_amount) as Balance,
                                liquidity_asset_id: pool.liquidity_asset_id,
                            },
                        ],
                        events: seq![
                            Event::AssetToCurrency {
                                sender,
                                asset_id,
                                asset_amount,
                                currency_amount,
                            },
                        ],
                    },
                ),
            }
        }
    }

    /// Swapping `asset_amount` of the asset `asset_id_from` for the asset
    /// `asset_id_to`.
    ///
    /// The checks run in this order: the amount is not zero; the first asset
    /// exists; the second exists; the first has a pool; the second has one;
    /// both prices can be computed. The amount is priced in currency against
    /// the first pool, and that currency in the second asset against the
    /// second pool. The sender pays the first asset and is paid the second;
    /// no currency moves. The first pool gains the asset paid and loses the
    /// currency, the second gains the currency and loses the asset paid out.
    /// Both pools are priced as they stood before the call.
    pub open spec fn asset_to_asset(
        self,
        sender: AccountId,
        asset_id_from: AssetId,
        asset_id_to: AssetId,
        asset_amount: Balance,
        asset_from_exists: bool,
        asset_to_exists: bool,
    ) -> Result<EffectsView, Error> {
        if asset_amount == 0 {
            Err(Error::AssetAmountZero)
        } else if !asset_from_exists || !asset_to_exists {
            Err(Error::AssetNotFound)
        } else if !self.pools.contains_key(asset_id_from) || !self.pools.contains_key(asset_id_to) {
            Err(Error::PoolNotFound)
        } else {
            let pool_from = self.pools[asset_id_from];
            let pool_to = self.pools[asset_id_to];
            match swap_output(
                asset_amount,
                pool_from.asset_reserve,
                pool_from.currency_reserve,
                self.config.fee,
                self.config.thousand,
            ) {
                None => Err(Error::OperationOverflow),
                Some(currency_amount) => match swap_output(
                    currency_amount,
                    pool_to.currency_reserve,
                    pool_to.asset_reserve,
                    self.config.fee,
                    self.config.thousand,
                ) {
                    None => Err(Error::OperationOverflow),
                    Some(asset_amount_received) => Ok(
                        EffectsView {
                            calls: seq![
                                LedgerCall::AssetTransfer {
                                    asset_id: asset_id_from,
                                    from: sender,
                                    to: self.account(),
                                    amount: asset_amount,
                                    keep_alive: true,
                                },
                                LedgerCall::AssetTransfer {
                                    asset_id: asset_id_to,
                                    from: self.account(),
                                    to: sender,
                                    amount: asset_amount_received,
                                    keep_alive: true,
                                },
                            ],
                            pools: seq![
                                Pool {
                                    asset_id: pool_from.asset_id,
                                    currency_reserve: (pool_from.currency_reserve
                                        - currency_amount) as Balance,
                                    asset_reserve: (pool_from.asset_reserve + asset_amount) as Balance,
                                    liquidity_asset_id: pool_from.liquidity_asset_id,
                                },
                                Pool {
                                    asset_id: pool_to.asset_id,
                                    currency_reserve: (pool_to.currency_reserve
                                        + currency_amount) as Balance,
                                    asset_reserve: (pool_to.asset_reserve
                                        - asset_amount_received) as Balance,
                                    liquidity_asset_id: pool_to.liquidity_asset_id,
                                },
                            ],
                            events: seq![
                                Event::AssetToAsset {
                                    sender,
                                    asset_id_from,
                                    asset_id_to,
                                    asset_amount,
                                    asset_amount_received,
                                },
                            ],
                        },
                    ),
                },
            }
        }
    }
}

impl Pallet {
    /// Decides a swap of `currency_amount` of currency for the asset
    /// `asset_id` by `sender`, given whether the asset ledger knows the asset.
    pub fn currency_to_asset(
        &self,
        sender: AccountId,
        currency_amount: Balance,
        asset_id: AssetId,
        asset_exists: bool,
    ) -> (result: Result<Effects, Error>)
        ensures
            decided(result) == self@.currency_to_asset(
                sender,
                currency_amount,
                asset_id,
                asset_exists,
            ),
    {
        if currency_amount == 0 {
            return Err(Error::CurrencyAmountZero);
        }
        if !asset_exists {
            return Err(Error::AssetNotFound);
        }
        let pool = match self.pools(asset_id) {
            Some(pool) => pool,
            None => return Err(Error::PoolNotFound),
        };
        let asset_amount = match self.get_input_convert(
            currency_amount,
            pool.currency_reserve,
            pool.asset_reserve,
        ) {
            Ok(asset_amount) => asset_amount,
            Err(error) => return Err(error),
        };
        proof {
            lemma_swap_keeps_product(
                currency_amount,
                pool.currency_reserve,
                pool.asset_reserve,
                self@.config.fee,
                self@.config.thousand,
            );
        }
        let currency_reserve = match pool.currency_reserve.checked_add(currency_amount) {
            Some(currency_reserve) => currency_reserve,
            None => return Err(Error::OperationOverflow),
        };
        let asset_reserve = match pool.asset_reserve.checked_sub(asset_amount) {
            Some(asset_reserve) => asset_reserve,
            None => return Err(Error::OperationOverflow),
        };
        let pallet_account = self.account_id();
        let mut calls: Vec<LedgerCall> = Vec::new();
        calls.push(
            LedgerCall::Transfer {
                from: sender,
                to: pallet_account,
                amount: currency_amount,
                keep_alive: true,
            },
        );
        calls.push(
            LedgerCall::AssetTransfer {
                asset_id,
                from: pallet_account,
                to: sender,
                amount: asset_amount,
                keep_alive: true,
            },
        );
        let mut pools: Vec<Pool> = Vec::new();
        pools.push(
            Pool {
                asset_id: pool.asset_id,
                currency_reserve,
                asset_reserve,
                liquidity_asset_id: pool.liquidity_asset_id,
            },
        );
        let mut events: Vec<Event> = Vec::new();
        events.push(Event::CurrencyToAsset { sender, asset_id, currency_amount, asset_amount });
        let result = Ok(Effects { calls, pools, events });
        proof {
            let model = self@.currency_to_asset(sender, currency_amount, asset_id, asset_exists);
            assert(decided(result)->Ok_0.calls =~= model->Ok_0.calls);
            assert(decided(result)->Ok_0.pools =~= model->Ok_0.pools);
            assert(decided(result)->Ok_0.events =~= model->Ok_0.events);
        }
        result
    }

    /// Decides a swap of `asset_amount` of the asset `asset_id` for currency
    /// by `sender`, given whether the asset ledger knows the asset.
    pub fn asset_to_currency(
        &self,
        sender: AccountId,
        asset_amount: Balance,
        asset_id: AssetId,
        asset_exists: bool,
    ) -> (result: Result<Effects, Error>)
        ensures
            decided(result) == self@.asset_to_currency(sender, asset_amount, asset_id, asset_exists),
    {
        if asset_amount == 0 {
            return Err(Error::AssetAmountZero);
        }
        if !asset_exists {
            return Err(Error::AssetNotFound);
        }
        let pool = match self.pools(asset_id) {
            Some(pool) => pool,
            None => return Err(Error::PoolNotFound),
        };
        let currency_amount = match self.get_input_convert(
            asset_amount,
            pool.asset_reserve,
            pool.currency_reserve,
        ) {
            Ok(currency_amount) => currency_amount,
            Err(error) => return Err(error),
        };
        proof {
            lemma_swap_keeps_product(
                asset_amount,
                pool.asset_reserve,
                pool.currency_reserve,
                self@.config.fee,
                self@.config.thousand,
            );
        }
        let currency_reserve = match pool.currency_reserve.checked_sub(currency_amount) {
            Some(currency_reserve) => currency_reserve,
            None => return Err(Error::OperationOverflow),
        };
        let asset_reserve = match pool.asset_reserve.checked_add(asset_amount) {
            Some(asset_reserve) => asset_reserve,
            None => return Err(Error::OperationOverflow),
        };
        let pallet_account = self.account_id();
        let mut calls: Vec<LedgerCall> = Vec::new();
        calls.push(
            LedgerCall::AssetTransfer {
                asset_id,
                from: sender,
                to: pallet_account,
                amount: asset_amount,
                keep_alive: true,
            },
        );
        calls.push(
            LedgerCall::Transfer {
                from: pallet_account,
                to: sender,
                amount: currency_amount,
                keep_alive: true,
            },
        );
        let mut pools: Vec<Pool> = Vec::new();
        pools.push(
            Pool {
                asset_id: pool.asset_id,
                currency_reserve,
                asset_reserve,
                liquidity_asset_id: pool.liquidity_asset_id,
            },
        );
        let mut events: Vec<Event> = Vec::new();
        events.push(Event::AssetToCurrency { sender, asset_id, asset_amount, currency_amount });
        let result = Ok(Effects { calls, pools, events });
        proof {
            let model = self@.asset_to_currency(sender, asset_amount, asset_id, asset_exists);
            assert(decided(result)->Ok_0.calls =~= model->Ok_0.calls);
            assert(decided(result)->Ok_0.pools =~= model->Ok_0.pools);
            assert(decided(result)->Ok_0.events =~= model->Ok_0.events);
        }
        result
    }

    /// Decides a swap of `asset_amount` of the asset `asset_id_from` for the
    /// asset `asset_id_to` by `sender`, given whether the asset ledger knows
    /// each of the two assets.
    pub fn asset_to_asset(
        &self,
        sender: AccountId,
        asset_id_from: AssetId,
        asset_id_to: AssetId,
        asset_amount: Balance,
        asset_from_exists: bool,
        asset_to_exists: bool,
    ) -> (result: Result<Effects, Error>)
        ensures
            decided(result) == self@.asset_to_asset(
                sender,
                asset_id_from,
                asset_id_to,
                asset_amount,
                asset_from_exists,
                asset_to_exists,
            ),
    {
        if asset_amount == 0 {
            return Err(Error::AssetAmountZero);
        }
        if !asset_from_exists {
            return Err(Error::AssetNotFound);
        }
        if !asset_to_exists {
            return Err(Error::AssetNotFound);
        }
        let pool_from = match self.pools(asset_id_from) {
            Some(pool_from) => pool_from,
            None => return Err(Error::PoolNotFound),
        };
        let pool_to = match self.pools(asset_id_to) {
            Some(pool_to) => pool_to,
            None => return Err(Error::PoolNotFound),
        };
        let currency_amount = match self.get_input_convert(
            asset_amount,
            pool_from.asset_reserve,
            pool_from.currency_reserve,
        ) {
            Ok(currency_amount) => currency_amount,
            Err(error) => return Err(error),
        };
        let asset_final_amount = match self.get_input_convert(
            currency_amount,
            pool_to.currency_reserve,
            pool_to.asset_reserve,
        ) {
            Ok(asset_final_amount) => asset_final_amount,
            Err(error) => return Err(error),
        };
        proof {
            lemma_swap_keeps_product(
                asset_amount,
                pool_from.asset_reserve,
                pool_from.currency_reserve,
                self@.config.fee,
                self@.config.thousand,
            );
            lemma_swap_keeps_product(
                currency_amount,
                pool_to.currency_reserve,
                pool_to.asset_reserve,
                self@.config.fee,
                self@.config.thousand,
            );
        }
        let from_currency_reserve = match pool_from.currency_reserve.checked_sub(currency_amount) {
            Some(from_currency_reserve) => from_currency_reserve,
            None => return Err(Error::OperationOverflow),
        };
        let from_asset_reserve = match pool_from.asset_reserve.checked_add(asset_amount) {
            Some(from_asset_reserve) => from_asset_reserve,
            None => return Err(Error::OperationOverflow),
        };
        let to_currency_reserve = match pool_to.currency_reserve.checked_add(currency_amount) {
            Some(to_currency_reserve) => to_currency_reserve,
            None => return Err(Error::OperationOverflow),
        };
        let to_asset_reserve = match pool_to.asset_reserve.checked_sub(asset_final_amount) {
            Some(to_asset_reserve) => to_asset_reserve,
            None => return Err(Error::OperationOverflow),
        };
        let pallet_account = self.account_id();
        let mut calls: Vec<LedgerCall> = Vec::new();
        calls.push(
            LedgerCall::AssetTransfer {
                asset_id: asset_id_from,
                from: sender,
                to: pallet_account,
                amount: asset_amount,
                keep_alive: true,
            },
        );
        calls.push(
            LedgerCall::AssetTransfer {
                asset_id: asset_id_to,
                from: pallet_account,
                to: sender,
                amount: asset_final_amount,
                keep_alive: true,
            },
        );
        let mut pools: Vec<Pool> = Vec::new();
        pools.push(
            Pool {
                asset_id: pool_from.asset_id,
                currency_reserve: from_currency_reserve,
                asset_reserve: from_asset_reserve,
                liquidity_asset_id: pool_from.liquidity_asset_id,
            },
        );
        pools.push(
            Pool {
                asset_id: pool_to.asset_id,
                currency_reserve: to_currency_reserve,
                asset_reserve: to_asset_reserve,
                liquidity_asset_id: pool_to.liquidity_asset_id,
            },
        );
        let mut events: Vec<Event> = Vec::new();
        events.push(
            Event::AssetToAsset {
                sender,
                asset_id_from,
                asset_id_to,
                asset_amount,
                asset_amount_received: asset_final_amount,
            },
        );
        let result = Ok(Effects { calls, pools, events });
        proof {
            let model = self@.asset_to_asset(
                sender,
                asset_id_from,
                asset_id_to,
                asset_amount,
                asset_from_exists,
                asset_to_exists,
            );
            assert(decided(result)->Ok_0.calls =~= model->Ok_0.calls);
            assert(decided(result)->Ok_0.pools =~= model->Ok_0.pools);
            assert(decided(result)->Ok_0.events =~= model->Ok_0.events);
        }
        result
    }
}

/// A swap that is settled never lowers the product of the two reserves, in
/// the pool it trades against or in any other: what the rounding keeps back
/// stays in the pool. This holds at every fee, a fee of zero included, and
/// of each of the three swaps. A swap changes reserves and nothing else: the
/// exchange has the same markets as before.
pub proof fn lemma_swaps_keep_products(
    state: PalletView,
    sender: AccountId,
    amount: Balance,
    asset_id: AssetId,
    asset_id_to: AssetId,
    asset_exists: bool,
    asset_to_exists: bool,
)
    requires
        keyed_by_asset(state.pools),
    ensures
        state.currency_to_asset(sender, amount, asset_id, asset_exists) matches Ok(effects) ==> {
            &&& products_kept(state.pools, state.settled(effects).pools)
            &&& same_markets(state.pools, state.settled(effects).pools)
        },
        state.asset_to_currency(sender, amount, asset_id, asset_exists) matches Ok(effects) ==> {
            &&& products_kept(state.pools, state.settled(effects).pools)
            &&& same_markets(state.pools, state.settled(effects).pools)
        },
        state.asset_to_asset(
            sender,
            asset_id,
            asset_id_to,
            amount,
            asset_exists,
            asset_to_exists,
        ) matches Ok(effects) ==> {
            &&& products_kept(state.pools, state.settled(effects).pools)
            &&& same_markets(state.pools, state.settled(effects).pools)
        },
{
    let fee = state.config.fee;
    let thousand = state.config.thousand;
    if let Ok(effects) = state.currency_to_asset(sender, amount, asset_id, asset_exists) {
        let pool = state.pools[asset_id];
        let after = effects.pools[0];
        lemma_swap_keeps_product(amount, pool.currency_reserve, pool.asset_reserve, fee, thousand);
        lemma_store_all_short(state.pools, after, after);
        assert(effects.pools =~= seq![after]);
    }
    if let Ok(effects) = state.asset_to_currency(sender, amount, asset_id, asset_exists) {
        let pool = state.pools[asset_id];
        let after = effects.pools[0];
        lemma_swap_keeps_product(amount, pool.asset_reserve, pool.currency_reserve, fee, thousand);
        lemma_product_commutes(pool.currency_reserve as int, pool.asset_reserve as int);
        lemma_product_commutes(after.currency_reserve as int, after.asset_reserve as int);
        lemma_store_all_short(state.pools, after, after);
        assert(effects.pools =~= seq![after]);
    }
    if let Ok(effects) = state.asset_to_asset(
        sender,
        asset_id,
        asset_id_to,
        amount,
        asset_exists,
        asset_to_exists,
    ) {
        let pool_from = state.pools[asset_id];
        let pool_to = state.pools[asset_id_to];
        let after_from = effects.pools[0];
        let after_to = effects.pools[1];
        let currency_amount = swap_output(
            amount,
            pool_from.asset_reserve,
            pool_from.currency_reserve,
            fee,
            thousand,
        )->0;
        lemma_swap_keeps_product(
            amount,
            pool_from.asset_reserve,
            pool_from.currency_reserve,
            fee,
            thousand,
        );
        lemma_swap_keeps_product(
            currency_amount,
            pool_to.currency_reserve,
            pool_to.asset_reserve,
            fee,
            thousand,
        );
        lemma_product_commutes(pool_from.currency_reserve as int, pool_from.asset_reserve as int);
        lemma_product_commutes(after_from.currency_reserve as int, after_from.asset_reserve as int);
        lemma_store_all_short(state.pools, after_from, after_to);
        assert(effects.pools =~= seq![after_from, after_to]);
    }
}

/// Swapping currency for an asset and at once swapping what was bought back
/// returns at most the currency that was paid. It returns all of it only
/// where the first price was computed without a remainder, whatever the
/// fee; in every other case the sender ends with less.
pub proof fn lemma_there_and_back_never_gains(
    state: PalletView,
    sender: AccountId,
    amount: Balance,
    asset_id: AssetId,
)
    requires
        keyed_by_asset(state.pools),
    ensures
        state.currency_to_asset(sender, amount, asset_id, true) matches Ok(there) ==> ({
            let bought = there.calls[1]->AssetTransfer_amount;
            state.settled(there).asset_to_currency(sender, bought, asset_id, true) matches Ok(back)
                ==> {
                let returned = back.calls[1]->Transfer_amount;
                let pool = state.pools[asset_id];
                &&& returned <= amount
                &&& returned == amount <==> (amount * pool.asset_reserve) % (pool.currency_reserve
                    + amount) == 0
            }
        }),
{
    if let Ok(there) = state.currency_to_asset(sender, amount, asset_id, true) {
        let pool = state.pools[asset_id];
        let after = there.pools[0];
        lemma_swap_keeps_product(
            amount,
            pool.currency_reserve,
            pool.asset_reserve,
            state.config.fee,
            state.config.thousand,
        );
        lemma_store_all_short(state.pools, after, after);
        assert(there.pools =~= seq![after]);
        assert(state.settled(there).pools[asset_id] == after);
        lemma_round_trip_never_gains(
            amount,
            pool.currency_reserve,
            pool.asset_reserve,
            state.config.fee,
            state.config.thousand,
        );
    }
}

proof fn lemma_product_commutes(left: int, right: int)
    ensures
        left * right == right * left,
{
    assert(left * right == right * left) by (nonlinear_arith);
}

} // verus!
