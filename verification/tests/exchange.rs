//! The exchange driven by a host that keeps the two ledgers in memory.

use pallet_dex::{
    AccountId, AssetId, Balance, Config, Effects, Error, Event, LedgerCall, OraclePrice, Pallet,
    Pool, PoolsMap,
};
use std::cell::RefCell;
use std::collections::HashMap;

/// How a call on the host can end badly: refused by the exchange, or failed
/// in one of the ledgers.
#[derive(Clone, Copy, Debug, PartialEq, Eq)]
enum Failure {
    Exchange(Error),
    Ledger(&'static str),
}

/// The currency ledger and the asset ledger, with an existential deposit
/// and a minimum asset balance of one.
#[derive(Clone, Debug, Default, PartialEq, Eq)]
struct Ledgers {
    currency: HashMap<AccountId, Balance>,
    assets: HashMap<AssetId, Balance>,
    holdings: HashMap<(AssetId, AccountId), Balance>,
}

impl Ledgers {
    fn free_balance(&self, who: AccountId) -> Balance {
        self.currency.get(&who).copied().unwrap_or(0)
    }

    fn balance(&self, asset_id: AssetId, who: AccountId) -> Balance {
        self.holdings.get(&(asset_id, who)).copied().unwrap_or(0)
    }

    fn asset_exists(&self, asset_id: AssetId) -> bool {
        self.assets.contains_key(&asset_id)
    }

    fn total_issuance(&self, asset_id: AssetId) -> Balance {
        self.assets.get(&asset_id).copied().unwrap_or(0)
    }

    fn deposit_creating(&mut self, who: AccountId, amount: Balance) {
        let held = self.free_balance(who);
        self.currency.insert(who, held + amount);
    }

    fn mint_into(
        &mut self,
        asset_id: AssetId,
        who: AccountId,
        amount: Balance,
    ) -> Result<(), &'static str> {
        if !self.asset_exists(asset_id) {
            return Err("unknown asset");
        }
        let issued = self.total_issuance(asset_id).checked_add(amount).ok_or("issuance overflow")?;
        let held = self.balance(asset_id, who);
        self.assets.insert(asset_id, issued);
        self.holdings.insert((asset_id, who), held + amount);
        Ok(())
    }

    fn perform(&mut self, call: &LedgerCall) -> Result<(), &'static str> {
        match *call {
            LedgerCall::Transfer { from, to, amount, keep_alive } => {
                let left =
                    self.free_balance(from).checked_sub(amount).ok_or("insufficient balance")?;
                if keep_alive && left < 1 {
                    return Err("would kill the account");
                }
                self.currency.insert(from, left);
                let held = self.free_balance(to).checked_add(amount).ok_or("balance overflow")?;
                self.currency.insert(to, held);
                Ok(())
            }
            LedgerCall::Deposit { who, amount } => {
                self.deposit_creating(who, amount);
                Ok(())
            }
            LedgerCall::Create { asset_id, .. } => {
                if self.asset_exists(asset_id) {
                    return Err("asset in use");
                }
                self.assets.insert(asset_id, 0);
                Ok(())
            }
            LedgerCall::AssetTransfer { asset_id, from, to, amount, keep_alive } => {
                if !self.asset_exists(asset_id) {
                    return Err("unknown asset");
                }
                let left = self
                    .balance(asset_id, from)
                    .checked_sub(amount)
                    .ok_or("insufficient asset balance")?;
                if keep_alive && amount > 0 && left < 1 {
                    return Err("would kill the asset account");
                }
                self.holdings.insert((asset_id, from), left);
                let held =
                    self.balance(asset_id, to).checked_add(amount).ok_or("balance overflow")?;
                self.holdings.insert((asset_id, to), held);
                Ok(())
            }
            LedgerCall::MintInto { asset_id, who, amount } => self.mint_into(asset_id, who, amount),
            LedgerCall::BurnFrom { asset_id, who, amount } => {
                if !self.asset_exists(asset_id) {
                    return Err("unknown asset");
                }
                let left = self
                    .balance(asset_id, who)
                    .checked_sub(amount)
                    .ok_or("insufficient asset balance")?;
                self.holdings.insert((asset_id, who), left);
                self.assets.insert(asset_id, self.total_issuance(asset_id) - amount);
                Ok(())
            }
        }
    }
}

/// An exchange with its ledgers. Every call runs as one unit: the exchange
/// makes the ledger calls in order, and the host undoes them together if one
/// of them fails.
#[derive(Clone, Debug, PartialEq, Eq)]
struct Runtime {
    dex: Pallet,
    ledgers: Ledgers,
}

impl Runtime {
    fn dispatch(&mut self, decision: Result<Effects, Error>) -> Result<(), Failure> {
        let effects = decision.map_err(Failure::Exchange)?;
        let before = self.ledgers.clone();
        let ledgers = RefCell::new(std::mem::take(&mut self.ledgers));
        let outcome = self.dex.carry_out(effects, |call| ledgers.borrow_mut().perform(&call));
        self.ledgers = if outcome.is_ok() { ledgers.into_inner() } else { before };
        outcome.map_err(Failure::Ledger)
    }

    fn create_asset_helper(&mut self, asset_id: AssetId) -> Result<(), Failure> {
        let decision = self.dex.create_asset_helper(asset_id, self.ledgers.asset_exists(asset_id));
        self.dispatch(decision)
    }

    fn mint_asset(
        &mut self,
        sender: AccountId,
        asset_id: AssetId,
        amount: Balance,
    ) -> Result<(), Failure> {
        let effects = self.dex.mint_asset(sender, asset_id, amount);
        self.dispatch(Ok(effects))
    }

    fn create_pool(
        &mut self,
        sender: AccountId,
        asset_id: AssetId,
        liquidity_asset_id: AssetId,
        currency_amount: Balance,
        asset_amount: Balance,
    ) -> Result<(), Failure> {
        let decision = self.dex.create_pool(
            sender,
            asset_id,
            liquidity_asset_id,
            currency_amount,
            asset_amount,
            self.ledgers.asset_exists(liquidity_asset_id),
            self.ledgers.asset_exists(asset_id),
        );
        self.dispatch(decision)
    }

    fn liquidity_token(&self, asset_id: AssetId) -> AssetId {
        self.dex.pools(asset_id).unwrap_or_default().liquidity_asset_id
    }

    fn add_liquidity(
        &mut self,
        sender: AccountId,
        asset_id: AssetId,
        currency_amount: Balance,
    ) -> Result<(), Failure> {
        let token = self.liquidity_token(asset_id);
        let decision = self.dex.add_liquidity(
            sender,
            asset_id,
            currency_amount,
            self.ledgers.free_balance(sender),
            self.ledgers.total_issuance(token),
        );
        self.dispatch(decision)
    }

    fn remove_liquidity(
        &mut self,
        sender: AccountId,
        asset_id: AssetId,
        liquidity_amount: Balance,
    ) -> Result<(), Failure> {
        let token = self.liquidity_token(asset_id);
        let decision = self.dex.remove_liquidity(
            sender,
            asset_id,
            liquidity_amount,
            self.ledgers.balance(token, sender),
            self.ledgers.total_issuance(token),
        );
        self.dispatch(decision)
    }

    fn currency_to_asset(
        &mut self,
        sender: AccountId,
        currency_amount: Balance,
        asset_id: AssetId,
    ) -> Result<(), Failure> {
        let asset_exists = self.ledgers.asset_exists(asset_id);
        let decision = self.dex.currency_to_asset(sender, currency_amount, asset_id, asset_exists);
        self.dispatch(decision)
    }

    fn asset_to_currency(
        &mut self,
        sender: AccountId,
        asset_amount: Balance,
        asset_id: AssetId,
    ) -> Result<(), Failure> {
        let asset_exists = self.ledgers.asset_exists(asset_id);
        let decision = self.dex.asset_to_currency(sender, asset_amount, asset_id, asset_exists);
        self.dispatch(decision)
    }

    fn asset_to_asset(
        &mut self,
        sender: AccountId,
        asset_id_from: AssetId,
        asset_id_to: AssetId,
        asset_amount: Balance,
    ) -> Result<(), Failure> {
        let decision = self.dex.asset_to_asset(
            sender,
            asset_id_from,
            asset_id_to,
            asset_amount,
            self.ledgers.asset_exists(asset_id_from),
            self.ledgers.asset_exists(asset_id_to),
        );
        self.dispatch(decision)
    }

    fn last_event(&self) -> Option<Event> {
        self.dex.events().last().copied()
    }
}

fn new_test_ext() -> Runtime {
    let config = Config { pallet_id: *b"py/dexpl", thousand: 1000, fee: 3 };
    Runtime { dex: Pallet::new(config, PoolsMap::new()), ledgers: Ledgers::default() }
}

#[test]
fn create_pool_successfully() {
    let mut runtime = new_test_ext();

    let asset_id = 3u32;
    let liquidity_asset_id = 2u32;
    let account_id = 1u64;

    runtime.ledgers.deposit_creating(account_id, 100u128);
    assert_eq!(runtime.create_asset_helper(asset_id), Ok(()));
    assert!(runtime.ledgers.mint_into(asset_id, account_id, 100u128).is_ok());

    assert_eq!(
        runtime.create_pool(account_id, asset_id, liquidity_asset_id, 50u128, 50u128),
        Ok(())
    );

    assert_eq!(runtime.ledgers.free_balance(account_id), 50u128);
    assert_eq!(runtime.ledgers.balance(asset_id, account_id), 50u128);

    let pool =
        Pool { asset_id, liquidity_asset_id, asset_reserve: 50u128, currency_reserve: 50u128 };
    assert_eq!(runtime.dex.pools(asset_id).unwrap_or_default(), pool);

    assert_eq!(runtime.last_event(), Some(Event::PoolCreated { asset_id, liquidity_asset_id }));
}

#[test]
fn create_pool_fails_existing_pool() {
    let asset_id = 3u32;
    let liquidity_asset_id = 2u32;
    let second_liquidity_asset_id = 5u32;
    let account_id = 1u64;

    let mut runtime = new_test_ext();
    runtime.ledgers.deposit_creating(account_id, 100u128);
    assert_eq!(runtime.create_asset_helper(asset_id), Ok(()));
    assert!(runtime.ledgers.mint_into(asset_id, account_id, 100u128).is_ok());

    assert_eq!(
        runtime.create_pool(account_id, asset_id, liquidity_asset_id, 50u128, 50u128),
        Ok(())
    );

    let before = runtime.clone();
    assert_eq!(
        runtime.create_pool(account_id, asset_id, second_liquidity_asset_id, 10u128, 10u128),
        Err(Failure::Exchange(Error::PoolAlreadyExists))
    );
    assert_eq!(runtime, before);
}

#[test]
fn create_pool_fails_existing_liq_asset() {
    let asset_id = 3u32;
    let liquidity_asset_id = 2u32;
    let second_asset_id = 5u32;
    let account_id = 1u64;

    let mut runtime = new_test_ext();
    runtime.ledgers.deposit_creating(account_id, 100u128);
    assert_eq!(runtime.create_asset_helper(asset_id), Ok(()));
    assert!(runtime.ledgers.mint_into(asset_id, account_id, 100u128).is_ok());

    assert_eq!(
        runtime.create_pool(account_id, asset_id, liquidity_asset_id, 50u128, 50u128),
        Ok(())
    );

    let before = runtime.clone();
    assert_eq!(
        runtime.create_pool(account_id, second_asset_id, liquidity_asset_id, 10u128, 10u128),
        Err(Failure::Exchange(Error::AssetAlreadyExists))
    );
    assert_eq!(runtime, before);
}

#[test]
fn create_pool_fails_asset_not_found() {
    let mut runtime = new_test_ext();

    let asset_id = 3u32;
    let liquidity_asset_id = 2u32;
    let account_id = 1u64;

    let before = runtime.clone();
    assert_eq!(
        runtime.create_pool(account_id, asset_id, liquidity_asset_id, 50u128, 50u128),
        Err(Failure::Exchange(Error::AssetNotFound))
    );
    assert_eq!(runtime, before);
}

#[test]
fn create_pool_fails_asset_amount_zero() {
    let asset_id = 3u32;
    let liquidity_asset_id = 2u32;
    let account_id = 1u64;

    let mut runtime = new_test_ext();
    runtime.ledgers.deposit_creating(account_id, 100u128);
    assert_eq!(runtime.create_asset_helper(asset_id), Ok(()));
    assert!(runtime.ledgers.mint_into(asset_id, account_id, 100u128).is_ok());

    let before = runtime.clone();
    assert_eq!(
        runtime.create_pool(account_id, asset_id, liquidity_asset_id, 50u128, 0u128),
        Err(Failure::Exchange(Error::AssetAmountZero))
    );
    assert_eq!(runtime, before);
}

#[test]
fn create_pool_fails_currency_amount_zero() {
    let asset_id = 3u32;
    let liquidity_asset_id = 2u32;
    let account_id = 1u64;

    let mut runtime = new_test_ext();
    runtime.ledgers.deposit_creating(account_id, 100u128);
    assert_eq!(runtime.create_asset_helper(asset_id), Ok(()));
    assert!(runtime.ledgers.mint_into(asset_id, account_id, 100u128).is_ok());

    let before = runtime.clone();
    assert_eq!(
        runtime.create_pool(account_id, asset_id, liquidity_asset_id, 0u128, 50u128),
        Err(Failure::Exchange(Error::CurrencyAmountZero))
    );
    assert_eq!(runtime, before);
}

#[test]
fn add_liquidity_successfully() {
    let asset_id = 3u32;
    let liquidity_asset_id = 2u32;
    let account_id = 1u64;

    let mut runtime = new_test_ext();
    runtime.ledgers.deposit_creating(account_id, 100u128);
    assert_eq!(runtime.create_asset_helper(asset_id), Ok(()));
    assert!(runtime.ledgers.mint_into(asset_id, account_id, 100u128).is_ok());

    assert_eq!(
        runtime.create_pool(account_id, asset_id, liquidity_asset_id, 50u128, 50u128),
        Ok(())
    );

    assert_eq!(runtime.add_liquidity(account_id, asset_id, 10u128), Ok(()));

    let pool = runtime.dex.pools(asset_id).unwrap_or_default();

    let asset_amount_to_add = ((10u128 / 50u128) * 50u128) + 1;
    let liquidity_assets_to_add = (10u128 / 50u128) * 50u128;

    assert_eq!(pool.currency_reserve, 60u128);
    assert_eq!(pool.asset_reserve, 50u128 + asset_amount_to_add);
    assert_eq!(
        runtime.ledgers.balance(liquidity_asset_id, account_id),
        50u128 + liquidity_assets_to_add
    );

    assert_eq!(
        runtime.last_event(),
        Some(Event::LiquidityAdded {
            provider: account_id,
            asset_id,
            currency_amount: 10u128,
            asset_amount: asset_amount_to_add,
            liquidity_minted: liquidity_assets_to_add,
        })
    );
}

#[test]
fn add_liquidity_fails_pool_not_found() {
    let mut runtime = new_test_ext();

    let asset_id = 3u32;
    let account_id = 1u64;

    runtime.ledgers.deposit_creating(account_id, 100u128);
    assert_eq!(runtime.create_asset_helper(asset_id), Ok(()));

    let before = runtime.clone();
    assert_eq!(
        runtime.add_liquidity(account_id, asset_id, 10u128),
        Err(Failure::Exchange(Error::PoolNotFound))
    );
    assert_eq!(runtime, before);
}

#[test]
fn add_liquidity_fails_currency_amount_zero() {
    let mut runtime = new_test_ext();

    let asset_id = 3u32;
    let account_id = 1u64;

    runtime.ledgers.deposit_creating(account_id, 100u128);
    assert_eq!(runtime.create_asset_helper(asset_id), Ok(()));

    let before = runtime.clone();
    assert_eq!(
        runtime.add_liquidity(account_id, asset_id, 0u128),
        Err(Failure::Exchange(Error::CurrencyAmountZero))
    );
    assert_eq!(runtime, before);
}

#[test]
fn remove_liquidity_successfully() {
    let asset_id = 3u32;
    let liquidity_asset_id = 2u32;
    let account_id = 1u64;

    let mut runtime = new_test_ext();
    runtime.ledgers.deposit_creating(account_id, 100u128);
    assert_eq!(runtime.create_asset_helper(asset_id), Ok(()));
    assert!(runtime.ledgers.mint_into(asset_id, account_id, 100u128).is_ok());

    assert_eq!(
        runtime.create_pool(account_id, asset_id, liquidity_asset_id, 50u128, 50u128),
        Ok(())
    );

    let pool = runtime.dex.pools(asset_id).unwrap_or_default();
    let currency_reserve_before = pool.currency_reserve;
    let asset_reserve_before = pool.asset_reserve;

    assert_eq!(runtime.remove_liquidity(account_id, asset_id, 10u128), Ok(()));

    let currency_amount_to_remove = (10u128 / 50u128) * pool.currency_reserve;
    let asset_amount_to_remove = (10u128 / 50u128) * pool.asset_reserve;

    assert_eq!(runtime.ledgers.total_issuance(liquidity_asset_id), 40);

    assert_eq!(runtime.ledgers.free_balance(account_id), 50u128 + currency_amount_to_remove);
    assert_eq!(runtime.ledgers.balance(asset_id, account_id), 50u128 + asset_amount_to_remove);

    assert_eq!(pool.currency_reserve, currency_reserve_before - currency_amount_to_remove);
    assert_eq!(pool.asset_reserve, asset_reserve_before - asset_amount_to_remove);

    assert_eq!(
        runtime.last_event(),
        Some(Event::LiquidityRemoved {
            provider: account_id,
            asset_id,
            currency_amount: currency_amount_to_remove,
            asset_amount: asset_amount_to_remove,
            liquidity_amount: 10u128,
        })
    );
}

#[test]
fn remove_liquidity_fails_liquidity_amount_zero() {
    let mut runtime = new_test_ext();

    let asset_id = 3u32;
    let account_id = 1u64;

    assert_eq!(runtime.create_asset_helper(asset_id), Ok(()));

    let before = runtime.clone();
    assert_eq!(
        runtime.remove_liquidity(account_id, asset_id, 0u128),
        Err(Failure::Exchange(Error::LiqAmountZero))
    );
    assert_eq!(runtime, before);
}

#[test]
fn remove_liquidity_fails_pool_not_found() {
    let mut runtime = new_test_ext();

    let asset_id = 3u32;
    let account_id = 1u64;

    assert_eq!(runtime.create_asset_helper(asset_id), Ok(()));

    let before = runtime.clone();
    assert_eq!(
        runtime.remove_liquidity(account_id, asset_id, 10u128),
        Err(Failure::Exchange(Error::PoolNotFound))
    );
    assert_eq!(runtime, before);
}

#[test]
fn currency_to_asset_successfully() {
    let asset_id = 3u32;
    let account_id = 1u64;
    let liquidity_asset_id = 2u32;

    let mut runtime = new_test_ext();
    runtime.ledgers.deposit_creating(account_id, 100u128);
    assert_eq!(runtime.create_asset_helper(asset_id), Ok(()));
    assert!(runtime.ledgers.mint_into(asset_id, account_id, 100u128).is_ok());

    assert_eq!(
        runtime.create_pool(account_id, asset_id, liquidity_asset_id, 50u128, 50u128),
        Ok(())
    );

    let pool = runtime.dex.pools(asset_id).unwrap_or_default();

    let asset_amount_to_check = runtime
        .dex
        .get_input_convert(20u128, pool.currency_reserve, pool.asset_reserve)
        .unwrap_or_default();

    assert_eq!(runtime.currency_to_asset(account_id, 20u128, asset_id), Ok(()));

    assert_eq!(runtime.ledgers.balance(asset_id, account_id), 50u128 + asset_amount_to_check);

    assert_eq!(runtime.ledgers.free_balance(account_id), 30u128);

    assert_eq!(
        runtime.ledgers.balance(asset_id, runtime.dex.account_id()),
        50u128 - asset_amount_to_check
    );

    assert_eq!(runtime.ledgers.free_balance(runtime.dex.account_id()), 50u128 + 20u128);

    assert_eq!(
        runtime.last_event(),
        Some(Event::CurrencyToAsset {
            sender: account_id,
            asset_id,
            currency_amount: 20u128,
            asset_amount: asset_amount_to_check,
        })
    );
}

#[test]
fn currency_to_asset_fails_asset_not_found() {
    let mut runtime = new_test_ext();

    let asset_id = 3u32;
    let account_id = 1u64;

    let before = runtime.clone();
    assert_eq!(
        runtime.currency_to_asset(account_id, 20u128, asset_id),
        Err(Failure::Exchange(Error::AssetNotFound))
    );
    assert_eq!(runtime, before);
}

#[test]
fn currency_to_asset_fails_pool_not_found() {
    let mut runtime = new_test_ext();

    let asset_id = 3u32;
    let account_id = 1u64;

    assert_eq!(runtime.create_asset_helper(asset_id), Ok(()));

    let before = runtime.clone();
    assert_eq!(
        runtime.currency_to_asset(account_id, 10u128, asset_id),
        Err(Failure::Exchange(Error::PoolNotFound))
    );
    assert_eq!(runtime, before);
}

#[test]
fn currency_to_asset_fails_currency_amount_zero() {
    let mut runtime = new_test_ext();

    let asset_id = 3u32;
    let account_id = 1u64;

    let before = runtime.clone();
    assert_eq!(
        runtime.currency_to_asset(account_id, 0u128, asset_id),
        Err(Failure::Exchange(Error::CurrencyAmountZero))
    );
    assert_eq!(runtime, before);
}

#[test]
fn asset_to_currency_successfully() {
    let asset_id = 3u32;
    let account_id = 1u64;
    let liquidity_asset_id = 2u32;

    let mut runtime = new_test_ext();
    runtime.ledgers.deposit_creating(account_id, 100u128);
    assert_eq!(runtime.create_asset_helper(asset_id), Ok(()));
    assert!(runtime.ledgers.mint_into(asset_id, account_id, 100u128).is_ok());

    assert_eq!(
        runtime.create_pool(account_id, asset_id, liquidity_asset_id, 50u128, 50u128),
        Ok(())
    );

    let pool = runtime.dex.pools(asset_id).unwrap_or_default();

    let curency_amount_to_check = runtime
        .dex
        .get_input_convert(20u128, pool.asset_reserve, pool.currency_reserve)
        .unwrap_or_default();

    assert_eq!(runtime.asset_to_currency(account_id, 20u128, asset_id), Ok(()));

    assert_eq!(runtime.ledgers.balance(asset_id, account_id), 50u128 - 20u128);

    assert_eq!(runtime.ledgers.free_balance(account_id), 50u128 + curency_amount_to_check);

    assert_eq!(runtime.ledgers.balance(asset_id, runtime.dex.account_id()), 50u128 + 20u128);

    assert_eq!(
        runtime.ledgers.free_balance(runtime.dex.account_id()),
        50u128 - curency_amount_to_check
    );

    assert_eq!(
        runtime.last_event(),
        Some(Event::AssetToCurrency {
            sender: account_id,
            asset_id,
            asset_amount: 20u128,
            currency_amount: curency_amount_to_check,
        })
    );
}

#[test]
fn asset_to_currency_fails_asset_not_found() {
    let mut runtime = new_test_ext();

    let asset_id = 3u32;
    let account_id = 1u64;

    let before = runtime.clone();
    assert_eq!(
        runtime.asset_to_currency(account_id, 20u128, asset_id),
        Err(Failure::Exchange(Error::AssetNotFound))
    );
    assert_eq!(runtime, before);
}

#[test]
fn asset_to_currency_fails_pool_not_found() {
    let mut runtime = new_test_ext();

    let asset_id = 3u32;
    let account_id = 1u64;

    assert_eq!(runtime.create_asset_helper(asset_id), Ok(()));

    let before = runtime.clone();
    assert_eq!(
        runtime.asset_to_currency(account_id, 10u128, asset_id),
        Err(Failure::Exchange(Error::PoolNotFound))
    );
    assert_eq!(runtime, before);
}

#[test]
fn asset_to_currency_fails_asset_amount_zero() {
    let mut runtime = new_test_ext();

    let asset_id = 3u32;
    let account_id = 1u64;

    let before = runtime.clone();
    assert_eq!(
        runtime.asset_to_currency(account_id, 0u128, asset_id),
        Err(Failure::Exchange(Error::AssetAmountZero))
    );
    assert_eq!(runtime, before);
}

#[test]
fn asset_to_asset_successfully() {
    let mut runtime = new_test_ext();

    let asset_id_from = 3u32;
    let asset_id_to = 5u32;
    let account_id = 1u64;
    let liquidity_asset_id_from = 2u32;
    let liquidity_asset_id_to = 4u32;

    runtime.ledgers.deposit_creating(account_id, 300u128);

    assert_eq!(runtime.create_asset_helper(asset_id_from), Ok(()));
    assert_eq!(runtime.create_asset_helper(asset_id_to), Ok(()));

    assert!(runtime.ledgers.mint_into(asset_id_from, account_id, 300u128).is_ok());
    assert!(runtime.ledgers.mint_into(asset_id_to, account_id, 300u128).is_ok());

    assert_eq!(
        runtime.create_pool(account_id, asset_id_from, liquidity_asset_id_from, 50u128, 50u128),
        Ok(())
    );
    assert_eq!(
        runtime.create_pool(account_id, asset_id_to, liquidity_asset_id_to, 50u128, 50u128),
        Ok(())
    );

    let pool_from = runtime.dex.pools(asset_id_from).unwrap_or_default();
    let pool_to = runtime.dex.pools(asset_id_to).unwrap_or_default();

    let curency_amount_middle = runtime
        .dex
        .get_input_convert(20u128, pool_from.asset_reserve, pool_from.currency_reserve)
        .unwrap_or_default();

    let asset_final_amount = runtime
        .dex
        .get_input_convert(curency_amount_middle, pool_to.currency_reserve, pool_to.asset_reserve)
        .unwrap_or_default();

    let previous_balance_from = runtime.ledgers.balance(asset_id_from, account_id);
    let previous_balance_to = runtime.ledgers.balance(asset_id_to, account_id);

    assert_eq!(runtime.asset_to_asset(account_id, asset_id_from, asset_id_to, 20u128), Ok(()));

    assert_eq!(runtime.ledgers.balance(asset_id_from, account_id), previous_balance_from - 20u128);
    assert_eq!(
        runtime.ledgers.balance(asset_id_to, account_id),
        previous_balance_to + asset_final_amount
    );

    assert_eq!(
        runtime.last_event(),
        Some(Event::AssetToAsset {
            sender: account_id,
            asset_id_from,
            asset_id_to,
            asset_amount: 20u128,
            asset_amount_received: asset_final_amount,
        })
    );
}

#[test]
fn asset_to_asset_fails_asset_from_not_found() {
    let mut runtime = new_test_ext();

    let asset_id_from = 3u32;
    let asset_id_to = 5u32;
    let account_id = 1u64;

    let before = runtime.clone();
    assert_eq!(
        runtime.asset_to_asset(account_id, asset_id_from, asset_id_to, 19u128),
        Err(Failure::Exchange(Error::AssetNotFound))
    );
    assert_eq!(runtime, before);
}

#[test]
fn asset_to_asset_fails_asset_to_not_found() {
    let mut runtime = new_test_ext();

    let asset_id_from = 3u32;
    let asset_id_to = 5u32;
    let account_id = 1u64;

    assert_eq!(runtime.create_asset_helper(asset_id_from), Ok(()));

    let before = runtime.clone();
    assert_eq!(
        runtime.asset_to_asset(account_id, asset_id_from, asset_id_to, 19u128),
        Err(Failure::Exchange(Error::AssetNotFound))
    );
    assert_eq!(runtime, before);
}

#[test]
fn asset_to_asset_fails_pool_from_not_found() {
    let mut runtime = new_test_ext();

    let asset_id_from = 3u32;
    let asset_id_to = 5u32;
    let account_id = 1u64;

    assert_eq!(runtime.create_asset_helper(asset_id_from), Ok(()));
    assert_eq!(runtime.create_asset_helper(asset_id_to), Ok(()));

    let before = runtime.clone();
    assert_eq!(
        runtime.asset_to_asset(account_id, asset_id_from, asset_id_to, 19u128),
        Err(Failure::Exchange(Error::PoolNotFound))
    );
    assert_eq!(runtime, before);
}

#[test]
fn asset_to_asset_fails_pool_to_not_found() {
    let mut runtime = new_test_ext();

    let asset_id_from = 3u32;
    let asset_id_to = 5u32;
    let account_id = 1u64;

    runtime.ledgers.deposit_creating(account_id, 300u128);

    assert_eq!(runtime.create_asset_helper(asset_id_from), Ok(()));
    assert_eq!(runtime.create_asset_helper(asset_id_to), Ok(()));

    assert!(runtime.ledgers.mint_into(asset_id_from, account_id, 300u128).is_ok());

    assert_eq!(runtime.create_pool(account_id, asset_id_from, 8u32, 50u128, 50u128), Ok(()));

    let before = runtime.clone();
    assert_eq!(
        runtime.asset_to_asset(account_id, asset_id_from, asset_id_to, 19u128),
        Err(Failure::Exchange(Error::PoolNotFound))
    );
    assert_eq!(runtime, before);
}

#[test]
fn asset_to_asset_fails_asset_amount_zero() {
    let mut runtime = new_test_ext();

    let asset_id_from = 3u32;
    let asset_id_to = 5u32;
    let account_id = 1u64;

    let before = runtime.clone();
    assert_eq!(
        runtime.asset_to_asset(account_id, asset_id_from, asset_id_to, 0u128),
        Err(Failure::Exchange(Error::AssetAmountZero))
    );
    assert_eq!(runtime, before);
}

#[test]
fn price_oracle_successfully() {
    let asset_id = 3u32;
    let liquidity_asset_id = 2u32;
    let account_id = 1u64;

    let mut runtime = new_test_ext();
    runtime.ledgers.deposit_creating(account_id, 100u128);
    assert_eq!(runtime.create_asset_helper(asset_id), Ok(()));
    assert!(runtime.ledgers.mint_into(asset_id, account_id, 100u128).is_ok());

    assert_eq!(
        runtime.create_pool(account_id, asset_id, liquidity_asset_id, 50u128, 50u128),
        Ok(())
    );

    let expected_oracle = OraclePrice { asset_id, asset_amount: 1, currency_amount: 1 };

    assert_eq!(runtime.dex.price_oracle(asset_id).unwrap_or_default(), expected_oracle);
}

#[test]
fn currency_to_asset_leaves_seventy_and_thirty_six() {
    let asset_id = 3u32;
    let account_id = 1u64;

    let mut runtime = new_test_ext();
    runtime.ledgers.deposit_creating(account_id, 100u128);
    assert_eq!(runtime.create_asset_helper(asset_id), Ok(()));
    assert!(runtime.ledgers.mint_into(asset_id, account_id, 100u128).is_ok());
    assert_eq!(runtime.create_pool(account_id, asset_id, 2u32, 50u128, 50u128), Ok(()));

    assert_eq!(runtime.currency_to_asset(account_id, 20u128, asset_id), Ok(()));

    assert_eq!(
        runtime.dex.pools(asset_id),
        Some(Pool { asset_id, currency_reserve: 70, asset_reserve: 36, liquidity_asset_id: 2 })
    );
    assert_eq!(runtime.ledgers.balance(asset_id, account_id), 64);
    assert_eq!(runtime.ledgers.free_balance(account_id), 30);
}

#[test]
fn remove_liquidity_of_a_part_pays_nothing_and_burns_the_tokens() {
    let asset_id = 3u32;
    let account_id = 1u64;

    let mut runtime = new_test_ext();
    runtime.ledgers.deposit_creating(account_id, 100u128);
    assert_eq!(runtime.create_asset_helper(asset_id), Ok(()));
    assert!(runtime.ledgers.mint_into(asset_id, account_id, 100u128).is_ok());
    assert_eq!(runtime.create_pool(account_id, asset_id, 2u32, 50u128, 50u128), Ok(()));

    assert_eq!(runtime.remove_liquidity(account_id, asset_id, 10u128), Ok(()));

    assert_eq!(
        runtime.dex.pools(asset_id),
        Some(Pool { asset_id, currency_reserve: 50, asset_reserve: 50, liquidity_asset_id: 2 })
    );
    assert_eq!(runtime.ledgers.balance(2, account_id), 40);
    assert_eq!(runtime.ledgers.free_balance(account_id), 50);
    assert_eq!(runtime.ledgers.balance(asset_id, account_id), 50);
}

#[test]
fn remove_liquidity_of_everything_pays_both_reserves_out() {
    let asset_id = 3u32;
    let account_id = 1u64;

    let mut runtime = new_test_ext();
    runtime.ledgers.deposit_creating(account_id, 100u128);
    assert_eq!(runtime.create_asset_helper(asset_id), Ok(()));
    assert!(runtime.ledgers.mint_into(asset_id, account_id, 100u128).is_ok());
    assert_eq!(runtime.create_pool(account_id, asset_id, 2u32, 50u128, 50u128), Ok(()));
    assert_eq!(runtime.currency_to_asset(account_id, 20u128, asset_id), Ok(()));

    assert_eq!(runtime.remove_liquidity(account_id, asset_id, 50u128), Ok(()));

    assert_eq!(
        runtime.dex.pools(asset_id),
        Some(Pool { asset_id, currency_reserve: 0, asset_reserve: 0, liquidity_asset_id: 2 })
    );
    assert_eq!(runtime.ledgers.total_issuance(2), 0);
    assert_eq!(runtime.ledgers.free_balance(account_id), 100);
    assert_eq!(runtime.ledgers.balance(asset_id, account_id), 100);
    assert_eq!(runtime.ledgers.free_balance(runtime.dex.account_id()), 0);

    let before = runtime.clone();
    assert_eq!(
        runtime.add_liquidity(account_id, asset_id, 10u128),
        Err(Failure::Exchange(Error::LiqAmountZero))
    );
    assert_eq!(runtime, before);
    assert_eq!(runtime.dex.price_oracle(asset_id), Err(Error::OperationOverflow));
}

#[test]
fn add_liquidity_fails_insufficient_currency_balance() {
    let asset_id = 3u32;
    let account_id = 1u64;

    let mut runtime = new_test_ext();
    runtime.ledgers.deposit_creating(account_id, 100u128);
    assert_eq!(runtime.create_asset_helper(asset_id), Ok(()));
    assert!(runtime.ledgers.mint_into(asset_id, account_id, 100u128).is_ok());
    assert_eq!(runtime.create_pool(account_id, asset_id, 2u32, 50u128, 50u128), Ok(()));

    let before = runtime.clone();
    assert_eq!(
        runtime.add_liquidity(account_id, asset_id, 51u128),
        Err(Failure::Exchange(Error::InsufficientCurrencyBalance))
    );
    assert_eq!(runtime, before);
}

#[test]
fn remove_liquidity_fails_insufficient_liquidity_balance() {
    let asset_id = 3u32;
    let account_id = 1u64;

    let mut runtime = new_test_ext();
    runtime.ledgers.deposit_creating(account_id, 100u128);
    assert_eq!(runtime.create_asset_helper(asset_id), Ok(()));
    assert!(runtime.ledgers.mint_into(asset_id, account_id, 100u128).is_ok());
    assert_eq!(runtime.create_pool(account_id, asset_id, 2u32, 50u128, 50u128), Ok(()));

    let before = runtime.clone();
    assert_eq!(
        runtime.remove_liquidity(account_id, asset_id, 51u128),
        Err(Failure::Exchange(Error::InsufficientAssetBalance))
    );
    assert_eq!(runtime, before);
    let before = runtime.clone();
    assert_eq!(
        runtime.remove_liquidity(9u64, asset_id, 1u128),
        Err(Failure::Exchange(Error::InsufficientAssetBalance))
    );
    assert_eq!(runtime, before);
}

#[test]
fn add_liquidity_helper_is_undone_when_a_transfer_fails() {
    let asset_id = 3u32;
    let liquidity_asset_id = 2u32;
    let founder = 1u64;
    let provider = 7u64;

    let mut runtime = new_test_ext();
    runtime.ledgers.deposit_creating(founder, 100u128);
    assert_eq!(runtime.create_asset_helper(asset_id), Ok(()));
    assert!(runtime.ledgers.mint_into(asset_id, founder, 100u128).is_ok());
    assert_eq!(runtime.create_pool(founder, asset_id, liquidity_asset_id, 50u128, 50u128), Ok(()));
    runtime.ledgers.deposit_creating(provider, 100u128);

    let before = runtime.clone();
    let pool = runtime.dex.pools(asset_id).unwrap_or_default();

    // The provider holds the currency but none of the asset: the first
    // transfer goes through and the second fails.
    let decision = runtime.dex.add_liquidity_helper(pool, 10u128, 20u128, 5u128, provider);
    assert_eq!(decision.as_ref().map(|effects| effects.calls.len()), Ok(3));
    assert_eq!(runtime.dispatch(decision), Err(Failure::Ledger("insufficient asset balance")));

    assert_eq!(runtime, before);
    assert_eq!(runtime.dex.pools(asset_id), Some(pool));
    assert_eq!(runtime.ledgers.balance(liquidity_asset_id, provider), 0);
    assert_eq!(runtime.ledgers.total_issuance(liquidity_asset_id), 50);
    assert_eq!(runtime.ledgers.free_balance(provider), 100);
    assert_eq!(runtime.last_event(), Some(Event::PoolCreated { asset_id, liquidity_asset_id }));
}

#[test]
fn create_pool_is_undone_when_the_sender_cannot_pay() {
    let mut runtime = new_test_ext();

    let asset_id = 3u32;
    let liquidity_asset_id = 2u32;
    let account_id = 1u64;

    runtime.ledgers.deposit_creating(account_id, 100u128);
    assert_eq!(runtime.create_asset_helper(asset_id), Ok(()));
    assert!(runtime.ledgers.mint_into(asset_id, account_id, 10u128).is_ok());

    let before = runtime.clone();
    assert_eq!(
        runtime.create_pool(account_id, asset_id, liquidity_asset_id, 50u128, 50u128),
        Err(Failure::Ledger("insufficient asset balance"))
    );

    assert_eq!(runtime, before);
    assert_eq!(runtime.dex.pools(asset_id), None);
    assert!(!runtime.ledgers.asset_exists(liquidity_asset_id));
    assert_eq!(runtime.ledgers.free_balance(account_id), 100);
    assert_eq!(runtime.last_event(), None);
}

#[test]
fn a_swap_there_and_back_returns_less() {
    let asset_id = 3u32;
    let account_id = 1u64;

    let mut runtime = new_test_ext();
    runtime.ledgers.deposit_creating(account_id, 100u128);
    assert_eq!(runtime.create_asset_helper(asset_id), Ok(()));
    assert!(runtime.ledgers.mint_into(asset_id, account_id, 100u128).is_ok());
    assert_eq!(runtime.create_pool(account_id, asset_id, 2u32, 50u128, 50u128), Ok(()));

    assert_eq!(runtime.currency_to_asset(account_id, 20u128, asset_id), Ok(()));
    assert_eq!(runtime.asset_to_currency(account_id, 14u128, asset_id), Ok(()));

    assert_eq!(runtime.ledgers.free_balance(account_id), 30 + 19);
    assert_eq!(runtime.ledgers.balance(asset_id, account_id), 50);
    assert_eq!(
        runtime.dex.pools(asset_id),
        Some(Pool { asset_id, currency_reserve: 51, asset_reserve: 50, liquidity_asset_id: 2 })
    );
}

#[test]
fn mint_asset_issues_to_the_sender() {
    let mut runtime = new_test_ext();
    assert_eq!(runtime.mint_asset(1, 3, 100), Err(Failure::Ledger("unknown asset")));
    assert_eq!(runtime.create_asset_helper(3), Ok(()));
    assert_eq!(runtime.mint_asset(1, 3, 100), Ok(()));
    assert_eq!(runtime.ledgers.balance(3, 1), 100);
    assert_eq!(runtime.ledgers.total_issuance(3), 100);
    assert_eq!(runtime.create_asset_helper(3), Err(Failure::Exchange(Error::AssetAlreadyExists)));
}

#[test]
fn carry_out_stops_at_the_first_ledger_call_that_fails() {
    let asset_id = 3u32;
    let founder = 1u64;

    let mut runtime = new_test_ext();
    runtime.ledgers.deposit_creating(founder, 100u128);
    assert_eq!(runtime.create_asset_helper(asset_id), Ok(()));
    assert!(runtime.ledgers.mint_into(asset_id, founder, 100u128).is_ok());
    assert_eq!(runtime.create_pool(founder, asset_id, 2u32, 50u128, 50u128), Ok(()));
    let before = runtime.dex.clone();

    let pool = runtime.dex.pools(asset_id).unwrap_or_default();
    let effects = runtime.dex.add_liquidity_helper(pool, 10u128, 20u128, 5u128, 7u64).unwrap();
    let planned = effects.calls.clone();
    assert_eq!(planned.len(), 3);

    let made = RefCell::new(Vec::new());
    let outcome = runtime.dex.carry_out(effects, |call| {
        made.borrow_mut().push(call);
        if made.borrow().len() == 2 {
            Err("no funds")
        } else {
            Ok(())
        }
    });

    assert_eq!(outcome, Err("no funds"));
    assert_eq!(made.into_inner(), vec![planned[0], planned[1]]);
    assert_eq!(runtime.dex, before);
}

#[test]
fn carry_out_makes_every_call_in_order_and_settles() {
    let asset_id = 3u32;
    let founder = 1u64;

    let mut runtime = new_test_ext();
    runtime.ledgers.deposit_creating(founder, 100u128);
    assert_eq!(runtime.create_asset_helper(asset_id), Ok(()));
    assert!(runtime.ledgers.mint_into(asset_id, founder, 100u128).is_ok());
    assert_eq!(runtime.create_pool(founder, asset_id, 2u32, 50u128, 50u128), Ok(()));

    let effects = runtime.dex.asset_to_currency(founder, 20u128, asset_id, true).unwrap();
    let planned = effects.calls.clone();
    let reported = effects.events.clone();

    let made = RefCell::new(Vec::new());
    let outcome = runtime.dex.carry_out(effects, |call| {
        made.borrow_mut().push(call);
        Ok::<(), &str>(())
    });

    assert_eq!(outcome, Ok(()));
    assert_eq!(made.into_inner(), planned);
    assert_eq!(
        runtime.dex.pools(asset_id),
        Some(Pool { asset_id, currency_reserve: 36, asset_reserve: 70, liquidity_asset_id: 2 })
    );
    assert_eq!(runtime.last_event(), Some(reported[0]));
}
