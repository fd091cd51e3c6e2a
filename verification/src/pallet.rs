//! The exchange itself: its configuration, its pools and the events it has
//! reported, with the calls that read them and the two that change them.

use crate::account::{into_account_truncating, pallet_account, Config};
use crate::ledger::{Effects, EffectsView, LedgerCall};
use crate::pricing::{compute_output, swap_output};
use crate::registry::{keyed_by_asset, store_all, PoolsMap};
use crate::types::{AccountId, AssetId, Balance, Error, Event, OraclePrice, Pool};
use vstd::prelude::*;

verus! {

/// An exchange: one pool per tracked asset, and the log of what happened.
#[derive(Debug, PartialEq, Eq)]
pub struct Pallet {
    config: Config,
    pools: PoolsMap,
    events: Vec<Event>,
}

/// The state of an exchange.
pub struct PalletView {
    /// What was fixed when the exchange was made.
    pub config: Config,
    /// The pool of each asset that has one.
    pub pools: Map<AssetId, Pool>,
    /// Every event reported so far, oldest first.
    pub events: Seq<Event>,
}

impl PalletView {
    /// The account that holds every pool's reserves.
    pub open spec fn account(self) -> AccountId {
        pallet_account(self.config.pallet_id)
    }

    /// The state after `effects` took effect: its pools stored, its events
    /// reported.
    pub open spec fn settled(self, effects: EffectsView) -> PalletView {
        PalletView {
            config: self.config,
            pools: store_all(self.pools, effects.pools),
            events: self.events + effects.events,
        }
    }

    /// The price of `asset_id`: its pool's reserves, each divided by the
    /// smaller of the two.
    pub open spec fn price_oracle(self, asset_id: AssetId) -> Result<OraclePrice, Error> {
        if !self.pools.contains_key(asset_id) {
            Err(Error::PoolNotFound)
        } else {
            let pool = self.pools[asset_id];
            let minimum = if pool.currency_reserve <= pool.asset_reserve {
                pool.currency_reserve
            } else {
                pool.asset_reserve
            };
            if minimum == 0 {
                Err(Error::OperationOverflow)
            } else {
                Ok(
                    OraclePrice {
                        asset_id,
                        asset_amount: pool.asset_reserve / minimum,
                        currency_amount: pool.currency_reserve / minimum,
                    },
                )
            }
        }
    }
}

impl View for Pallet {
    type V = PalletView;

    closed spec fn view(&self) -> PalletView {
        PalletView { config: self.config, pools: self.pools@, events: self.events@ }
    }
}

impl Clone for Pallet {
    fn clone(&self) -> (copy: Pallet)
        ensures
            copy@ == self@,
    {
        Pallet { config: self.config, pools: self.pools.clone(), events: self.events.clone() }
    }
}

impl Pallet {
    /// An exchange over the pools of `pools`, with nothing reported yet.
    pub fn new(config: Config, pools: PoolsMap) -> (pallet: Pallet)
        ensures
            pallet@ == (PalletView { config, pools: pools@, events: Seq::<Event>::empty() }),
    {
        Pallet { config, pools, events: Vec::new() }
    }

    /// The pool of `asset_id`, if it has one. Every pool of an exchange
    /// stands under its own asset.
    pub fn pools(&self, asset_id: AssetId) -> (pool: Option<Pool>)
        ensures
            pool == if self@.pools.contains_key(asset_id) {
                Some(self@.pools[asset_id])
            } else {
                None
            },
            keyed_by_asset(self@.pools),
    {
        self.pools.get(asset_id)
    }

    /// What was fixed when the exchange was made.
    pub fn config(&self) -> (config: Config)
        ensures
            config == self@.config,
    {
        self.config
    }

    /// Every event reported so far, oldest first.
    pub fn events(&self) -> (events: &Vec<Event>)
        ensures
            events@ == self@.events,
    {
        &self.events
    }

    /// The account that holds every pool's reserves.
    pub fn account_id(&self) -> (account: AccountId)
        ensures
            account == self@.account(),
    {
        into_account_truncating(self.config.pallet_id)
    }

    /// Prices a swap of `input_amount` at this exchange's fee.
    pub fn get_input_convert(
        &self,
        input_amount: Balance,
        input_reserve: Balance,
        output_reserve: Balance,
    ) -> (result: Result<Balance, Error>)
        ensures
            result == match swap_output(
                input_amount,
                input_reserve,
                output_reserve,
                self@.config.fee,
                self@.config.thousand,
            ) {
                Some(output_amount) => Ok::<Balance, Error>(output_amount),
                None => Err(Error::OperationOverflow),
            },
    {
        compute_output(
            input_amount,
            input_reserve,
            output_reserve,
            self.config.fee,
            self.config.thousand,
        )
    }

    /// The price of `asset_id`: the two reserves of its pool, each divided by
    /// the smaller of them.
    ///
    /// Fails with `PoolNotFound` where the asset has no pool, and with
    /// `OperationOverflow` where a reserve is zero.
    pub fn price_oracle(&self, asset_id: AssetId) -> (result: Result<OraclePrice, Error>)
        ensures
            result == self@.price_oracle(asset_id),
    {
        let pool = match self.pools.get(asset_id) {
            Some(pool) => pool,
            None => return Err(Error::PoolNotFound),
        };
        let minimum = if pool.currency_reserve <= pool.asset_reserve {
            pool.currency_reserve
        } else {
            pool.asset_reserve
        };
        let currency_amount = match pool.currency_reserve.checked_div(minimum) {
            Some(currency_amount) => currency_amount,
            None => return Err(Error::OperationOverflow),
        };
        let asset_amount = match pool.asset_reserve.checked_div(minimum) {
            Some(asset_amount) => asset_amount,
            None => return Err(Error::OperationOverflow),
        };
        Ok(OraclePrice { asset_id, asset_amount, currency_amount })
    }

    /// Finishes a call once the ledgers have answered.
    ///
    /// Where `ledger` is `Ok`, the pools of `effects` are stored and its events
    /// reported. Where a ledger call failed, nothing changes. Either way the
    /// ledgers' answer is handed back.
    pub fn settle<E>(&mut self, effects: Effects, ledger: Result<(), E>) -> (result: Result<(), E>)
        ensures
            result == ledger,
            final(self)@ == match ledger {
                Ok(_) => old(self)@.settled(effects@),
                Err(_) => old(self)@,
            },
    {
        match ledger {
            Err(failure) => Err(failure),
            Ok(done) => {
                let Effects { calls: _, pools, mut events } = effects;
                let mut stored: usize = 0;
                while stored < pools.len()
                    invariant
                        stored <= pools.len(),
                        self.pools@ == store_all(old(self).pools@, pools@.take(stored as int)),
                        self.config == old(self).config,
                        self.events == old(self).events,
                    decreases pools.len() - stored,
                {
                    proof {
                        assert(pools@.take(stored + 1).drop_last() =~= pools@.take(stored as int));
                    }
                    self.pools.insert(pools[stored]);
                    stored += 1;
                }
                proof {
                    assert(pools@.take(stored as int) =~= pools@);
                }
                self.events.append(&mut events);
                Ok(done)
            },
        }
    }

    /// Carries a decided call out: makes its ledger calls through `perform`,
    /// in order and up to the first that fails, and settles.
    ///
    /// Where every call went through, the pools are stored and the events
    /// reported. Where one failed, no later call is made, nothing changes
    /// here, and the failure is handed back; undoing the calls already made
    /// is left to the host.
    pub fn carry_out<E, F: Fn(LedgerCall) -> Result<(), E>>(
        &mut self,
        effects: Effects,
        perform: F,
    ) -> (result: Result<(), E>)
        requires
            forall|call: LedgerCall| call_requires(perform, (call,)),
        ensures
            match result {
                Ok(_) => {
                    &&& final(self)@ == old(self)@.settled(effects@)
                    &&& forall|i: int|
                        0 <= i < effects@.calls.len() ==> call_ensures(
                            perform,
                            (#[trigger] effects@.calls[i],),
                            Ok::<(), E>(()),
                        )
                },
                Err(failure) => {
                    &&& final(self)@ == old(self)@
                    &&& exists|failed: int|
                        {
                            &&& 0 <= failed < effects@.calls.len()
                            &&& call_ensures(
                                perform,
                                (#[trigger] effects@.calls[failed],),
                                Err::<(), E>(failure),
                            )
                            &&& forall|i: int|
                                0 <= i < failed ==> call_ensures(
                                    perform,
                                    (#[trigger] effects@.calls[i],),
                                    Ok::<(), E>(()),
                                )
                        }
                },
            },
    {
        let mut made: usize = 0;
        while made < effects.calls.len()
            invariant
                made <= effects.calls.len(),
                forall|call: LedgerCall| call_requires(perform, (call,)),
                forall|i: int|
                    0 <= i < made ==> call_ensures(
                        perform,
                        (#[trigger] effects@.calls[i],),
                        Ok::<(), E>(()),
                    ),
                *self == *old(self),
            decreases effects.calls.len() - made,
        {
            let call = effects.calls[made];
            let outcome = perform(call);
            assert(call == effects@.calls[made as int]);
            match outcome {
                Ok(done) => {
                    assert(outcome == Ok::<(), E>(()));
                    made += 1;
                },
                Err(failure) => {
                    let result = self.settle(effects, Err(failure));
                    assert(call_ensures(perform, (effects@.calls[made as int],), result));
                    return result;
                },
            }
        }
        self.settle(effects, Ok(()))
    }
}

} // verus!
