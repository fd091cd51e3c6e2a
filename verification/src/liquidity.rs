//! Opening a pool, paying into it and taking out of it.

use crate::ledger::{decided, Effects, EffectsView, LedgerCall};
use crate::pallet::{Pallet, PalletView};
use crate::registry::{
    keyed_by_asset, lemma_store_all_short, liquidity_tokens_apart, same_markets,
};
use crate::types::{AccountId, AssetId, Balance, Error, Event, Pool};
use vstd::prelude::*;

verus! {

impl PalletView {
    /// Registering a new asset: refused where the identifier is taken, else
    /// one call that creates the asset, owned by the exchange's account, not
    /// self-sufficient, with a minimum balance of one.
    pub open spec fn create_asset_helper(self, asset_id: AssetId, asset_exists: bool) -> Result<
        EffectsView,
        Error,
    > {
        if asset_exists {
            Err(Error::AssetAlreadyExists)
        } else {
            Ok(
                EffectsView {
                    calls: seq![
                        LedgerCall::Create {
                            asset_id,
                            owner: self.account(),
                            is_sufficient: false,
                            min_balance: 1,
                        },
                    ],
                    pools: Seq::empty(),
                    events: Seq::empty(),
                },
            )
        }
    }

    /// Issuing `asset_amount` of an asset to `sender`: one call, no pool and
    /// no event.
    pub open spec fn mint_asset(
        self,
        sender: AccountId,
        asset_id: AssetId,
        asset_amount: Balance,
    ) -> EffectsView {
        EffectsView {
            calls: seq![LedgerCall::MintInto { asset_id, who: sender, amount: asset_amount }],
            pools: Seq::empty(),
            events: Seq::empty(),
        }
    }

    /// Paying `currency_amount` and `asset_amount` into `pool` for
    /// `liquidity_minted` new liquidity tokens.
    ///
    /// Refused with `OperationOverflow` where a reserve would leave `Balance`.
    /// Else the provider pays the currency, then the asset, to the exchange's
    /// account, both keeping the provider alive; the tokens are minted to the
    /// provider; and the pool grows by the two amounts.
    pub open spec fn add_liquidity_helper(
        self,
        pool: Pool,
        currency_amount: Balance,
        asset_amount: Balance,
        liquidity_minted: Balance,
        provider: AccountId,
    ) -> Result<EffectsView, Error> {
        if pool.currency_reserve + currency_amount > Balance::MAX || pool.asset_reserve
            + asset_amount > Balance::MAX {
            Err(Error::OperationOverflow)
        } else {
            Ok(
                EffectsView {
                    calls: seq![
                        LedgerCall::Transfer {
                            from: provider,
                            to: self.account(),
                            amount: currency_amount,
                            keep_alive: true,
                        },
                        LedgerCall::AssetTransfer {
                            asset_id: pool.asset_id,
                            from: provider,
                            to: self.account(),
                            amount: asset_amount,
                            keep_alive: true,
                        },
                        LedgerCall::MintInto {
                            asset_id: pool.liquidity_asset_id,
                            who: provider,
                            amount: liquidity_minted,
                        },
                    ],
                    pools: seq![
                        Pool {
                            asset_id: pool.asset_id,
                            currency_reserve: (pool.currency_reserve + currency_amount) as Balance,
                            asset_reserve: (pool.asset_reserve + asset_amount) as Balance,
                            liquidity_asset_id: pool.liquidity_asset_id,
                        },
                    ],
                    events: seq![
                        Event::LiquidityAdded {
                            provider,
                            asset_id: pool.asset_id,
                            currency_amount,
                            asset_amount,
                            liquidity_minted,
                        },
                    ],
                },
            )
        }
    }

    /// Giving up `liquidity_amount` liquidity tokens of `pool` for
    /// `currency_amount` and `asset_amount` out of its reserves.
    ///
    /// Refused with `OperationOverflow` where a reserve holds less than is
    /// taken. Else the tokens are burned from the provider; the exchange's
    /// account pays the currency, then the asset, to the provider, neither
    /// kept alive; and the pool shrinks by the two amounts.
    pub open spec fn remove_liquidity_helper(
        self,
        pool: Pool,
        currency_amount: Balance,
        asset_amount: Balance,
        liquidity_amount: Balance,
        provider: AccountId,
    ) -> Result<EffectsView, Error> {
        if pool.currency_reserve < currency_amount || pool.asset_reserve < asset_amount {
            Err(Error::OperationOverflow)
        } else {
            Ok(
                EffectsView {
                    calls: seq![
                        LedgerCall::BurnFrom {
                            asset_id: pool.liquidity_asset_id,
                            who: provider,
                            amount: liquidity_amount,
                        },
                        LedgerCall::Transfer {
                            from: self.account(),
                            to: provider,
                            amount: currency_amount,
                            keep_alive: false,
                        },
                        LedgerCall::AssetTransfer {
                            asset_id: pool.asset_id,
                            from: self.account(),
                            to: provider,
                            amount: asset_amount,
                            keep_alive: false,
                        },
                    ],
                    pools: seq![
                        Pool {
                            asset_id: pool.asset_id,
                            currency_reserve: (pool.currency_reserve - currency_amount) as Balance,
                            asset_reserve: (pool.asset_reserve - asset_amount) as Balance,
                            liquidity_asset_id: pool.liquidity_asset_id,
                        },
                    ],
                    events: seq![
                        Event::LiquidityRemoved {
                            provider,
                            asset_id: pool.asset_id,
                            currency_amount,
                            asset_amount,
                            liquidity_amount,
                        },
                    ],
                },
            )
        }
    }

    /// Opening the pool of `asset_id` with `currency_amount` and
    /// `asset_amount`.
    ///
    /// The checks run in this order, and the first that fails decides: the
    /// currency amount is not zero; the liquidity token does not exist yet;
    /// the asset exists; the asset has no pool; the asset amount is not zero.
    /// Then the liquidity token is created, the sender pays both amounts in
    /// and is granted as many liquidity tokens as currency was paid.
    pub open spec fn create_pool(
        self,
        sender: AccountId,
        asset_id: AssetId,
        liquidity_asset_id: AssetId,
        currency_amount: Balance,
        asset_amount: Balance,
        liquidity_asset_exists: bool,
        asset_exists: bool,
    ) -> Result<EffectsView, Error> {
        if currency_amount == 0 {
            Err(Error::CurrencyAmountZero)
        } else if liquidity_asset_exists {
            Err(Error::AssetAlreadyExists)
        } else if !asset_exists {
            Err(Error::AssetNotFound)
        } else if self.pools.contains_key(asset_id) {
            Err(Error::PoolAlreadyExists)
        } else if asset_amount == 0 {
            Err(Error::AssetAmountZero)
        } else {
            Ok(
                EffectsView {
                    calls: seq![
                        LedgerCall::Create {
                            asset_id: liquidity_asset_id,
                            owner: self.account(),
                            is_sufficient: false,
                            min_balance: 1,
                        },
                        LedgerCall::Transfer {
                            from: sender,
                            to: self.account(),
                            amount: currency_amount,
                            keep_alive: true,
                        },
                        LedgerCall::AssetTransfer {
                            asset_id,
                            from: sender,
                            to: self.account(),
                            amount: asset_amount,
                            keep_alive: true,
                        },
                        LedgerCall::MintInto {
                            asset_id: liquidity_asset_id,
                            who: sender,
                            amount: currency_amount,
                        },
                    ],
                    pools: seq![
                        Pool {
                            asset_id,
                            currency_reserve: currency_amount,
                            asset_reserve: asset_amount,
                            liquidity_asset_id,
                        },
                    ],
                    events: seq![
                        Event::LiquidityAdded {
                            provider: sender,
                            asset_id,
                            currency_amount,
                            asset_amount,
                            liquidity_minted: currency_amount,
                        },
                        Event::PoolCreated { asset_id, liquidity_asset_id },
                    ],
                },
            )
        }
    }

    /// Paying `currency_amount`, and the asset that goes with it, into the
    /// pool of `asset_id`.
    ///
    /// The checks run in this order: the currency amount is not zero; the
    /// asset has a pool; the sender holds the currency; liquidity tokens of
    /// the pool are in issue. With `ratio` the currency amount over the
    /// currency reserve, rounded down, the sender pays `ratio` times the asset
    /// reserve plus one unit of the asset, and is granted `ratio` times the
    /// issuance in liquidity tokens. `OperationOverflow` where the currency
    /// reserve is zero or one of these leaves `Balance`.
    pub open spec fn add_liquidity(
        self,
        sender: AccountId,
        asset_id: AssetId,
        currency_amount: Balance,
        sender_currency_balance: Balance,
        liquidity_issuance: Balance,
    ) -> Result<EffectsView, Error> {
        if currency_amount == 0 {
            Err(Error::CurrencyAmountZero)
        } else if !self.pools.contains_key(asset_id) {
            Err(Error::PoolNotFound)
        } else if sender_currency_balance < currency_amount {
            Err(Error::InsufficientCurrencyBalance)
        } else if liquidity_issuance == 0 {
            Err(Error::LiqAmountZero)
        } else {
            let pool = self.pools[asset_id];
            let ratio = currency_amount / pool.currency_reserve;
            if pool.currency_reserve == 0 || ratio * pool.asset_reserve + 1 > Balance::MAX || ratio
                * liquidity_issuance > Balance::MAX {
                Err(Error::OperationOverflow)
            } else {
                self.add_liquidity_helper(
                    pool,
                    currency_amount,
                    (ratio * pool.asset_reserve + 1) as Balance,
                    (ratio * liquidity_issuance) as Balance,
                    sender,
                )
            }
        }
    }

    /// Giving up `liquidity_amount` liquidity tokens of the pool of
    /// `asset_id`.
    ///
    /// The checks run in this order: the liquidity amount is not zero; the
    /// asset has a pool; the sender holds the tokens. With `share` the
    /// liquidity amount over the issuance, rounded down, the sender is paid
    /// `share` times each reserve. `OperationOverflow` where nothing is in
    /// issue, a product leaves `Balance` or a reserve holds less than is paid.
    pub open spec fn remove_liquidity(
        self,
        sender: AccountId,
        asset_id: AssetId,
        liquidity_amount: Balance,
        sender_liquidity_balance: Balance,
        liquidity_issuance: Balance,
    ) -> Result<EffectsView, Error> {
        if liquidity_amount == 0 {
            Err(Error::LiqAmountZero)
        } else if !self.pools.contains_key(asset_id) {
            Err(Error::PoolNotFound)
        } else if sender_liquidity_balance < liquidity_amount {
            Err(Error::InsufficientAssetBalance)
        } else {
            let pool = self.pools[asset_id];
            let share = liquidity_amount / liquidity_issuance;
            if liquidity_issuance == 0 || share * pool.currency_reserve > Balance::MAX || share
                * pool.asset_reserve > Balance::MAX {
                Err(Error::OperationOverflow)
            } else {
                self.remove_liquidity_helper(
                    pool,
                    (share * pool.currency_reserve) as Balance,
                    (share * pool.asset_reserve) as Balance,
                    liquidity_amount,
                    sender,
                )
            }
        }
    }
}

impl Pallet {
    /// Decides the registration of a new asset under `asset_id`, given
    /// whether the asset ledger already knows that identifier.
    pub fn create_asset_helper(&self, asset_id: AssetId, asset_exists: bool) -> (result: Result<
        Effects,
        Error,
    >)
        ensures
            decided(result) == self@.create_asset_helper(asset_id, asset_exists),
    {
        if asset_exists {
            return Err(Error::AssetAlreadyExists);
        }
        let mut calls: Vec<LedgerCall> = Vec::new();
        calls.push(
            LedgerCall::Create {
                asset_id,
                owner: self.account_id(),
                is_sufficient: false,
                min_balance: 1,
            },
        );
        Ok(Effects { calls, pools: Vec::new(), events: Vec::new() })
    }

    /// Decides the minting of `asset_amount` of `asset_id` to `sender`.
    pub fn mint_asset(&self, sender: AccountId, asset_id: AssetId, asset_amount: Balance) -> (effects:
        Effects)
        ensures
            effects@ == self@.mint_asset(sender, asset_id, asset_amount),
    {
        let mut calls: Vec<LedgerCall> = Vec::new();
        calls.push(LedgerCall::MintInto { asset_id, who: sender, amount: asset_amount });
        Effects { calls, pools: Vec::new(), events: Vec::new() }
    }

    /// Decides a payment of `currency_amount` and `asset_amount` into `pool`
    /// by `provider`, for `liquidity_minted` liquidity tokens.
    pub fn add_liquidity_helper(
        &self,
        pool: Pool,
        currency_amount: Balance,
        asset_amount: Balance,
        liquidity_minted: Balance,
        provider: AccountId,
    ) -> (result: Result<Effects, Error>)
        ensures
            decided(result) == self@.add_liquidity_helper(
                pool,
                currency_amount,
                asset_amount,
                liquidity_minted,
                provider,
            ),
    {
        let currency_reserve = match pool.currency_reserve.checked_add(currency_amount) {
            Some(currency_reserve) => currency_reserve,
            None => return Err(Error::OperationOverflow),
        };
        let asset_reserve = match pool.asset_reserve.checked_add(asset_amount) {
            Some(asset_reserve) => asset_reserve,
            None => return Err(Error::OperationOverflow),
        };
        let pallet_account = self.account_id();
        let mut calls: Vec<LedgerCall> = Vec::new();
        calls.push(
            LedgerCall::Transfer {
                from: provider,
                to: pallet_account,
                amount: currency_amount,
                keep_alive: true,
            },
        );
        calls.push(
            LedgerCall::AssetTransfer {
                asset_id: pool.asset_id,
                from: provider,
                to: pallet_account,
                amount: asset_amount,
                keep_alive: true,
            },
        );
        calls.push(
            LedgerCall::MintInto {
                asset_id: pool.liquidity_asset_id,
                who: provider,
                amount: liquidity_minted,
            },
        );
        let mut pools: Vec<Pool> = Vec::new();
        pools.push(
            Pool {
                asset_id: pool.asset_id,
                currency_reserve,
                asset_reserve,
                liquidity_asset_id: pool.liquidity_asset_id,
            },
        );
        let mut events: Vec<Event> = Vec::new();
        events.push(
            Event::LiquidityAdded {
                provider,
                asset_id: pool.asset_id,
                currency_amount,
                asset_amount,
                liquidity_minted,
            },
        );
        let result = Ok(Effects { calls, pools, events });
        proof {
            let model = self@.add_liquidity_helper(
                pool,
                currency_amount,
                asset_amount,
                liquidity_minted,
                provider,
            );
            assert(decided(result)->Ok_0.calls =~= model->Ok_0.calls);
            assert(decided(result)->Ok_0.pools =~= model->Ok_0.pools);
            assert(decided(result)->Ok_0.events =~= model->Ok_0.events);
        }
        result
    }

    /// Decides a withdrawal of `currency_amount` and `asset_amount` from
    /// `pool` by `provider`, against `liquidity_amount` liquidity tokens.
    pub fn remove_liquidity_helper(
        &self,
        pool: Pool,
        currency_amount: Balance,
        asset_amount: Balance,
        liquidity_amount: Balance,
        provider: AccountId,
    ) -> (result: Result<Effects, Error>)
        ensures
            decided(result) == self@.remove_liquidity_helper(
                pool,
                currency_amount,
                asset_amount,
                liquidity_amount,
                provider,
            ),
    {
        let currency_reserve = match pool.currency_reserve.checked_sub(currency_amount) {
            Some(currency_reserve) => currency_reserve,
            None => return Err(Error::OperationOverflow),
        };
        let asset_reserve = match pool.asset_reserve.checked_sub(asset_amount) {
            Some(asset_reserve) => asset_reserve,
            None => return Err(Error::OperationOverflow),
        };
        let pallet_account = self.account_id();
        let mut calls: Vec<LedgerCall> = Vec::new();
        calls.push(
            LedgerCall::BurnFrom {
                asset_id: pool.liquidity_asset_id,
                who: provider,
                amount: liquidity_amount,
            },
        );
        calls.push(
            LedgerCall::Transfer {
                from: pallet_account,
                to: provider,
                amount: currency_amount,
                keep_alive: false,
            },
        );
        calls.push(
            LedgerCall::AssetTransfer {
                asset_id: pool.asset_id,
                from: pallet_account,
                to: provider,
                amount: asset_amount,
                keep_alive: false,
            },
        );
        let mut pools: Vec<Pool> = Vec::new();
        pools.push(
            Pool {
                asset_id: pool.asset_id,
                currency_reserve,
                asset_reserve,
                liquidity_asset_id: pool.liquidity_asset_id,
            },
        );
        let mut events: Vec<Event> = Vec::new();
        events.push(
            Event::LiquidityRemoved {
                provider,
                asset_id: pool.asset_id,
                currency_amount,
                asset_amount,
                liquidity_amount,
            },
        );
        let result = Ok(Effects { calls, pools, events });
        proof {
            let model = self@.remove_liquidity_helper(
                pool,
                currency_amount,
                asset_amount,
                liquidity_amount,
                provider,
            );
            assert(decided(result)->Ok_0.calls =~= model->Ok_0.calls);
            assert(decided(result)->Ok_0.pools =~= model->Ok_0.pools);
            assert(decided(result)->Ok_0.events =~= model->Ok_0.events);
        }
        result
    }

    /// Decides the opening of a pool for `asset_id` by `sender`.
    ///
    /// `liquidity_asset_exists` and `asset_exists` are what the asset ledger
    /// says of `liquidity_asset_id` and of `asset_id`.
    pub fn create_pool(
        &self,
        sender: AccountId,
        asset_id: AssetId,
        liquidity_asset_id: AssetId,
        currency_amount: Balance,
        asset_amount: Balance,
        liquidity_asset_exists: bool,
        asset_exists: bool,
    ) -> (result: Result<Effects, Error>)
        ensures
            decided(result) == self@.create_pool(
                sender,
                asset_id,
                liquidity_asset_id,
                currency_amount,
                asset_amount,
                liquidity_asset_exists,
                asset_exists,
            ),
    {
        if currency_amount == 0 {
            return Err(Error::CurrencyAmountZero);
        }
        if liquidity_asset_exists {
            return Err(Error::AssetAlreadyExists);
        }
        if !asset_exists {
            return Err(Error::AssetNotFound);
        }
        if self.pools(asset_id).is_some() {
            return Err(Error::PoolAlreadyExists);
        }
        if asset_amount == 0 {
            return Err(Error::AssetAmountZero);
        }
        let created = match self.create_asset_helper(liquidity_asset_id, liquidity_asset_exists) {
            Ok(created) => created,
            Err(error) => return Err(error),
        };
        let pool = Pool { asset_id, currency_reserve: 0, asset_reserve: 0, liquidity_asset_id };
        let liquidity_to_mint = currency_amount;
        let added = match self.add_liquidity_helper(
            pool,
            currency_amount,
            asset_amount,
            liquidity_to_mint,
            sender,
        ) {
            Ok(added) => added,
            Err(error) => return Err(error),
        };
        let Effects { mut calls, pools: _, events: _ } = created;
        let Effects { calls: mut added_calls, pools, mut events } = added;
        calls.append(&mut added_calls);
        events.push(Event::PoolCreated { asset_id, liquidity_asset_id });
        let result = Ok(Effects { calls, pools, events });
        proof {
            let model = self@.create_pool(
                sender,
                asset_id,
                liquidity_asset_id,
                currency_amount,
                asset_amount,
                liquidity_asset_exists,
                asset_exists,
            );
            assert(decided(result)->Ok_0.calls =~= model->Ok_0.calls);
            assert(decided(result)->Ok_0.pools =~= model->Ok_0.pools);
            assert(decided(result)->Ok_0.events =~= model->Ok_0.events);
        }
        result
    }

    /// Decides a payment of `currency_amount` into the pool of `asset_id` by
    /// `sender`.
    ///
    /// `sender_currency_balance` is what the currency ledger says `sender`
    /// holds, and `liquidity_issuance` what the asset ledger says is in issue
    /// of the pool's liquidity token.
    pub fn add_liquidity(
        &self,
        sender: AccountId,
        asset_id: AssetId,
        currency_amount: Balance,
        sender_currency_balance: Balance,
        liquidity_issuance: Balance,
    ) -> (result: Result<Effects, Error>)
        ensures
            decided(result) == self@.add_liquidity(
                sender,
                asset_id,
                currency_amount,
                sender_currency_balance,
                liquidity_issuance,
            ),
    {
        if currency_amount == 0 {
            return Err(Error::CurrencyAmountZero);
        }
        let pool = match self.pools(asset_id) {
            Some(pool) => pool,
            None => return Err(Error::PoolNotFound),
        };
        if sender_currency_balance < currency_amount {
            return Err(Error::InsufficientCurrencyBalance);
        }
        if liquidity_issuance == 0 {
            return Err(Error::LiqAmountZero);
        }
        let ratio = match currency_amount.checked_div(pool.currency_reserve) {
            Some(ratio) => ratio,
            None => return Err(Error::OperationOverflow),
        };
        let asset_share = match ratio.checked_mul(pool.asset_reserve) {
            Some(asset_share) => asset_share,
            None => return Err(Error::OperationOverflow),
        };
        let asset_amount = match asset_share.checked_add(1) {
            Some(asset_amount) => asset_amount,
            None => return Err(Error::OperationOverflow),
        };
        let liquidity_to_mint = match ratio.checked_mul(liquidity_issuance) {
            Some(liquidity_to_mint) => liquidity_to_mint,
            None => return Err(Error::OperationOverflow),
        };
        self.add_liquidity_helper(pool, currency_amount, asset_amount, liquidity_to_mint, sender)
    }

    /// Decides a withdrawal against `liquidity_amount` liquidity tokens of the
    /// pool of `asset_id` by `sender`.
    ///
    /// `sender_liquidity_balance` and `liquidity_issuance` are what the asset
    /// ledger says `sender` holds, and what is in issue, of the pool's
    /// liquidity token.
    pub fn remove_liquidity(
        &self,
        sender: AccountId,
        asset_id: AssetId,
        liquidity_amount: Balance,
        sender_liquidity_balance: Balance,
        liquidity_issuance: Balance,
    ) -> (result: Result<Effects, Error>)
        ensures
            decided(result) == self@.remove_liquidity(
                sender,
                asset_id,
                liquidity_amount,
                sender_liquidity_balance,
                liquidity_issuance,
            ),
    {
        if liquidity_amount == 0 {
            return Err(Error::LiqAmountZero);
        }
        let pool = match self.pools(asset_id) {
            Some(pool) => pool,
            None => return Err(Error::PoolNotFound),
        };
        if sender_liquidity_balance < liquidity_amount {
            return Err(Error::InsufficientAssetBalance);
        }
        let share = match liquidity_amount.checked_div(liquidity_issuance) {
            Some(share) => share,
            None => return Err(Error::OperationOverflow),
        };
        let currency_amount = match share.checked_mul(pool.currency_reserve) {
            Some(currency_amount) => currency_amount,
            None => return Err(Error::OperationOverflow),
        };
        let asset_amount = match share.checked_mul(pool.asset_reserve) {
            Some(asset_amount) => asset_amount,
            None => return Err(Error::OperationOverflow),
        };
        self.remove_liquidity_helper(pool, currency_amount, asset_amount, liquidity_amount, sender)
    }
}

/// Opening a pool is refused whenever the liquidity token exists already or
/// the asset has a pool already. Unless an earlier check decides, the first
/// is refused with `AssetAlreadyExists` and the second with
/// `PoolAlreadyExists`. A refused call has no effects, so nothing is left to
/// settle and the exchange stays as it was.
pub proof fn lemma_create_pool_refuses_duplicates(
    state: PalletView,
    sender: AccountId,
    asset_id: AssetId,
    liquidity_asset_id: AssetId,
    currency_amount: Balance,
    asset_amount: Balance,
    liquidity_asset_exists: bool,
    asset_exists: bool,
)
    ensures
        liquidity_asset_exists || state.pools.contains_key(asset_id) ==> state.create_pool(
            sender,
            asset_id,
            liquidity_asset_id,
            currency_amount,
            asset_amount,
            liquidity_asset_exists,
            asset_exists,
        ) is Err,
        liquidity_asset_exists && currency_amount != 0 ==> state.create_pool(
            sender,
            asset_id,
            liquidity_asset_id,
            currency_amount,
            asset_amount,
            liquidity_asset_exists,
            asset_exists,
        ) == Err::<EffectsView, Error>(Error::AssetAlreadyExists),
        state.pools.contains_key(asset_id) && currency_amount != 0 && !liquidity_asset_exists
            && asset_exists ==> state.create_pool(
            sender,
            asset_id,
            liquidity_asset_id,
            currency_amount,
            asset_amount,
            liquidity_asset_exists,
            asset_exists,
        ) == Err::<EffectsView, Error>(Error::PoolAlreadyExists),
{
}

/// Opening a pool adds exactly that pool and touches no other. Where no two
/// pools shared a liquidity token and none had the new pool's token, no two
/// pools share one afterwards.
pub proof fn lemma_create_pool_adds_one_pool(
    state: PalletView,
    sender: AccountId,
    asset_id: AssetId,
    liquidity_asset_id: AssetId,
    currency_amount: Balance,
    asset_amount: Balance,
    liquidity_asset_exists: bool,
    asset_exists: bool,
)
    requires
        keyed_by_asset(state.pools),
    ensures
        state.create_pool(
            sender,
            asset_id,
            liquidity_asset_id,
            currency_amount,
            asset_amount,
            liquidity_asset_exists,
            asset_exists,
        ) matches Ok(effects) ==> {
            &&& !state.pools.contains_key(asset_id)
            &&& state.settled(effects).pools == state.pools.insert(
                asset_id,
                Pool {
                    asset_id,
                    currency_reserve: currency_amount,
                    asset_reserve: asset_amount,
                    liquidity_asset_id,
                },
            )
            &&& liquidity_tokens_apart(state.pools) && (forall|other: AssetId| #[trigger]
                state.pools.contains_key(other) ==> state.pools[other].liquidity_asset_id
                    != liquidity_asset_id) ==> liquidity_tokens_apart(state.settled(effects).pools)
        },
{
    if let Ok(effects) = state.create_pool(
        sender,
        asset_id,
        liquidity_asset_id,
        currency_amount,
        asset_amount,
        liquidity_asset_exists,
        asset_exists,
    ) {
        let pool = effects.pools[0];
        lemma_store_all_short(state.pools, pool, pool);
        assert(effects.pools =~= seq![pool]);
    }
}

/// Paying into a pool and taking out of it change reserves and nothing
/// else: once settled, the exchange has the same markets as before.
pub proof fn lemma_liquidity_keeps_markets(
    state: PalletView,
    sender: AccountId,
    asset_id: AssetId,
    amount: Balance,
    sender_balance: Balance,
    liquidity_issuance: Balance,
)
    requires
        keyed_by_asset(state.pools),
    ensures
        state.add_liquidity(sender, asset_id, amount, sender_balance, liquidity_issuance)
            matches Ok(effects) ==> same_markets(state.pools, state.settled(effects).pools),
        state.remove_liquidity(sender, asset_id, amount, sender_balance, liquidity_issuance)
            matches Ok(effects) ==> same_markets(state.pools, state.settled(effects).pools),
{
    if let Ok(effects) = state.add_liquidity(
        sender,
        asset_id,
        amount,
        sender_balance,
        liquidity_issuance,
    ) {
        let pool = effects.pools[0];
        lemma_store_all_short(state.pools, pool, pool);
        assert(effects.pools =~= seq![pool]);
    }
    if let Ok(effects) = state.remove_liquidity(
        sender,
        asset_id,
        amount,
        sender_balance,
        liquidity_issuance,
    ) {
        let pool = effects.pools[0];
        lemma_store_all_short(state.pools, pool, pool);
        assert(effects.pools =~= seq![pool]);
    }
}

} // verus!
