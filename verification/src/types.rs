//! The plain data of the exchange: identifiers, amounts, pool records,
//! failures and events.

use vstd::prelude::*;

verus! {

/// Identifies a participant, or the account that holds the pooled reserves.
pub type AccountId = u64;

/// Identifies a tracked asset or a liquidity token.
pub type AssetId = u32;

/// An amount of currency, of an asset or of a liquidity token.
pub type Balance = u128;

/// The market between the currency and one tracked asset.
///
/// Both reserves are unsigned: a call that would drive one of them below
/// zero fails as a whole instead.
#[derive(Clone, Copy, Debug, PartialEq, Eq, Structural)]
pub struct Pool {
    /// The tracked asset that this pool trades against the currency.
    pub asset_id: AssetId,
    /// Currency held for this pool.
    pub currency_reserve: Balance,
    /// Units of the tracked asset held for this pool.
    pub asset_reserve: Balance,
    /// The token that stands for a share of this pool.
    pub liquidity_asset_id: AssetId,
}

impl Pool {
    /// The constant product of the two reserves.
    pub open spec fn product(self) -> int {
        self.currency_reserve * self.asset_reserve
    }
}

/// Neither reserve of a pool is ever below zero: an amount cannot be.
pub proof fn lemma_reserves_never_negative(pool: Pool)
    ensures
        pool.currency_reserve >= 0,
        pool.asset_reserve >= 0,
{
}

impl Default for Pool {
    fn default() -> (pool: Pool)
        ensures
            pool == (Pool {
                asset_id: 0,
                currency_reserve: 0,
                asset_reserve: 0,
                liquidity_asset_id: 0,
            }),
    {
        Pool { asset_id: 0, currency_reserve: 0, asset_reserve: 0, liquidity_asset_id: 0 }
    }
}

/// A price read from a pool: its two reserves, each divided by the smaller.
#[derive(Clone, Copy, Debug, PartialEq, Eq, Structural)]
pub struct OraclePrice {
    /// The asset that was asked about.
    pub asset_id: AssetId,
    /// The asset reserve over the smaller reserve.
    pub asset_amount: Balance,
    /// The currency reserve over the smaller reserve.
    pub currency_amount: Balance,
}

impl Default for OraclePrice {
    fn default() -> (price: OraclePrice)
        ensures
            price == (OraclePrice { asset_id: 0, asset_amount: 0, currency_amount: 0 }),
    {
        OraclePrice { asset_id: 0, asset_amount: 0, currency_amount: 0 }
    }
}

/// Why a call was refused. A refused call changes nothing.
#[derive(Clone, Copy, Debug, PartialEq, Eq, Structural)]
pub enum Error {
    /// A value that had to be present was absent.
    NoneValue,
    /// A stored counter would have overflowed.
    StorageOverflow,
    /// No asset is registered under the given identifier.
    AssetNotFound,
    /// The liquidity token identifier is in use.
    AssetLiquidityIDTaken,
    /// The asset already has a pool.
    PoolAlreadyExists,
    /// An asset amount of zero was given.
    AssetAmountZero,
    /// The identifier of the asset to create is taken.
    AssetAlreadyExists,
    /// The asset has no pool.
    PoolNotFound,
    /// The caller holds too little of the asset.
    InsufficientAssetBalance,
    /// The caller holds too little currency.
    InsufficientCurrencyBalance,
    /// A currency amount of zero was given.
    CurrencyAmountZero,
    /// A liquidity amount of zero was given, or none is in issue.
    LiqAmountZero,
    /// An addition, subtraction or multiplication left the range of
    /// `Balance`, or a division had a zero divisor.
    OperationOverflow,
}

/// What a committed call reports.
#[derive(Clone, Copy, Debug, PartialEq, Eq, Structural)]
pub enum Event {
    /// A pool was opened.
    PoolCreated { asset_id: AssetId, liquidity_asset_id: AssetId },
    /// A provider paid both sides into a pool and was granted liquidity tokens.
    LiquidityAdded {
        provider: AccountId,
        asset_id: AssetId,
        currency_amount: Balance,
        asset_amount: Balance,
        liquidity_minted: Balance,
    },
    /// A provider gave up liquidity tokens and was paid out of both reserves.
    LiquidityRemoved {
        provider: AccountId,
        asset_id: AssetId,
        currency_amount: Balance,
        asset_amount: Balance,
        liquidity_amount: Balance,
    },
    /// Currency was swapped for an asset.
    CurrencyToAsset {
        sender: AccountId,
        asset_id: AssetId,
        currency_amount: Balance,
        asset_amount: Balance,
    },
    /// An asset was swapped for currency.
    AssetToCurrency {
        sender: AccountId,
        asset_id: AssetId,
        asset_amount: Balance,
        currency_amount: Balance,
    },
    /// One asset was swapped for another, priced through the currency.
    AssetToAsset {
        sender: AccountId,
        asset_id_from: AssetId,
        asset_id_to: AssetId,
        asset_amount: Balance,
        asset_amount_received: Balance,
    },
}

} // verus!
