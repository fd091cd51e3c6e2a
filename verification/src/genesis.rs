//! What the ledgers are asked for before the first call.

use crate::ledger::{Effects, EffectsView, LedgerCall};
use crate::pallet::Pallet;
use crate::types::{AccountId, AssetId, Balance};
use vstd::prelude::*;

verus! {

/// The assets to register at the start, and the amount that is both their
/// minimum balance and the exchange account's first deposit.
#[derive(Debug, PartialEq, Eq)]
pub struct GenesisConfig {
    /// The assets to register, in this order.
    pub assets: Vec<AssetId>,
    /// The minimum balance of each asset, and the currency credited to the
    /// exchange's account.
    pub initial_amount: Balance,
}

impl Default for GenesisConfig {
    fn default() -> (genesis: GenesisConfig)
        ensures
            genesis.assets@ == Seq::<AssetId>::empty(),
            genesis.initial_amount == 1,
    {
        GenesisConfig { assets: Vec::new(), initial_amount: 1 }
    }
}

/// One call per asset that registers it, owned by `account` and not
/// self-sufficient, then the deposit of `initial_amount` to `account`.
pub open spec fn genesis_calls(
    assets: Seq<AssetId>,
    initial_amount: Balance,
    account: AccountId,
) -> Seq<LedgerCall> {
    Seq::new(
        assets.len(),
        |i: int|
            LedgerCall::Create {
                asset_id: assets[i],
                owner: account,
                is_sufficient: false,
                min_balance: initial_amount,
            },
    ).push(LedgerCall::Deposit { who: account, amount: initial_amount })
}

impl GenesisConfig {
    /// The ledger calls that set `pallet` up. They touch no pool and report
    /// no event. The host is to treat a failure of any of them as fatal.
    pub fn build(&self, pallet: &Pallet) -> (effects: Effects)
        ensures
            effects@ == (EffectsView {
                calls: genesis_calls(self.assets@, self.initial_amount, pallet@.account()),
                pools: Seq::empty(),
                events: Seq::empty(),
            }),
    {
        let pallet_account = pallet.account_id();
        let mut calls: Vec<LedgerCall> = Vec::new();
        let mut next: usize = 0;
        while next < self.assets.len()
            invariant
                next <= self.assets.len(),
                calls@ == Seq::new(
                    next as nat,
                    |i: int|
                        LedgerCall::Create {
                            asset_id: self.assets@[i],
                            owner: pallet_account,
                            is_sufficient: false,
                            min_balance: self.initial_amount,
                        },
                ),
            decreases self.assets.len() - next,
        {
            calls.push(
                LedgerCall::Create {
                    asset_id: self.assets[next],
                    owner: pallet_account,
                    is_sufficient: false,
                    min_balance: self.initial_amount,
                },
            );
            next += 1;
        }
        calls.push(LedgerCall::Deposit { who: pallet_account, amount: self.initial_amount });
        Effects { calls, pools: Vec::new(), events: Vec::new() }
    }
}

} // verus!
