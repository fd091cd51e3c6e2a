//! A constant-product exchange between one currency and any number of
//! tracked assets.
//!
//! The exchange keeps one [`Pool`] per asset; the balances themselves live in
//! the host's ledgers. Each call decides, from the registry and from what the
//! host reports of the ledgers, either a failure or the [`Effects`] of the
//! call: the ledger calls to make, in order, the pools to write and the
//! events to report. [`Pallet::carry_out`] then makes the ledger calls
//! through the host and settles: the pools are written and the events
//! reported only if every ledger call went through.

pub mod account;
pub mod authorship;
pub mod genesis;
pub mod ledger;
pub mod liquidity;
pub mod pallet;
pub mod pricing;
pub mod registry;
pub mod swap;
pub mod types;

pub use account::{pallet_account, Config};
pub use authorship::author_index;
pub use genesis::GenesisConfig;
pub use ledger::{Effects, LedgerCall};
pub use pallet::Pallet;
pub use pricing::compute_output;
pub use registry::PoolsMap;
pub use types::{AccountId, AssetId, Balance, Error, Event, OraclePrice, Pool};
