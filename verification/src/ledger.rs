//! What the exchange asks of the two ledgers that hold the balances, and
//! what a call that succeeds hands back to its caller.
//!
//! The exchange holds no balance itself. A call that succeeds names the
//! ledger calls that belong to it, in the order in which they are to be
//! made, and the host's ledgers carry them out.

use crate::types::{AccountId, AssetId, Balance, Error, Event, Pool};
use vstd::prelude::*;

verus! {

/// One call on the currency ledger or on the asset ledger.
#[derive(Clone, Copy, Debug, PartialEq, Eq, Structural)]
pub enum LedgerCall {
    /// Move `amount` of currency from `from` to `to`; with `keep_alive`, `from`
    /// must stay in existence.
    Transfer { from: AccountId, to: AccountId, amount: Balance, keep_alive: bool },
    /// Credit `amount` of currency to `who`, creating the account if need be.
    Deposit { who: AccountId, amount: Balance },
    /// Register a new asset under `asset_id`.
    Create { asset_id: AssetId, owner: AccountId, is_sufficient: bool, min_balance: Balance },
    /// Move `amount` of the asset from `from` to `to`.
    AssetTransfer {
        asset_id: AssetId,
        from: AccountId,
        to: AccountId,
        amount: Balance,
        keep_alive: bool,
    },
    /// Issue `amount` of the asset to `who`.
    MintInto { asset_id: AssetId, who: AccountId, amount: Balance },
    /// Withdraw `amount` of the asset from `who` and from issuance.
    BurnFrom { asset_id: AssetId, who: AccountId, amount: Balance },
}

/// Everything a successful call brings about.
///
/// Either all of it takes effect or none of it. `Pallet::carry_out` makes the
/// ledger calls in order and stops at the first that fails; the pools are
/// written and the events reported only when every ledger call went
/// through. Where one failed, the host undoes those made before it.
#[derive(Debug, PartialEq, Eq)]
pub struct Effects {
    /// The ledger calls, in the order in which they are to be made.
    pub calls: Vec<LedgerCall>,
    /// The pool records to store, each under its own asset, in this order.
    pub pools: Vec<Pool>,
    /// The events to report, in this order.
    pub events: Vec<Event>,
}

/// The contents of an `Effects` value.
pub struct EffectsView {
    pub calls: Seq<LedgerCall>,
    pub pools: Seq<Pool>,
    pub events: Seq<Event>,
}

impl View for Effects {
    type V = EffectsView;

    open spec fn view(&self) -> EffectsView {
        EffectsView { calls: self.calls@, pools: self.pools@, events: self.events@ }
    }
}

impl Clone for Effects {
    fn clone(&self) -> (copy: Effects)
        ensures
            copy@ == self@,
    {
        Effects {
            calls: self.calls.clone(),
            pools: self.pools.clone(),
            events: self.events.clone(),
        }
    }
}

/// What a call decided, with the effects taken by their contents.
pub open spec fn decided(result: Result<Effects, Error>) -> Result<EffectsView, Error> {
    match result {
        Ok(effects) => Ok(effects@),
        Err(error) => Err(error),
    }
}

} // verus!
