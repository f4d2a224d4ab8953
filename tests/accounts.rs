use nautilus_accounts::any::AccountAny;
use nautilus_accounts::cash::CashAccount;
use nautilus_accounts::currency::{Currency, CurrencyRegistry};
use nautilus_accounts::error::AccountError;
use nautilus_accounts::margin::MarginAccount;
use nautilus_accounts::money::Money;
use nautilus_accounts::state::{AccountBalance, AccountState, AccountType};
use nautilus_accounts::stubs::{
    cash_account, cash_account_million_usd, cash_account_multi, cash_account_state,
    cash_account_state_million_usd, cash_account_state_million_usdt, cash_account_state_multi,
    margin_account, margin_account_state,
};

fn usd(raw: i64) -> Money {
    Money::from_raw(raw, Currency::usd())
}

fn btc(raw: i64) -> Money {
    Money::from_raw(raw, Currency::btc())
}

fn state_of(kind: AccountType, balances: Vec<AccountBalance>) -> AccountState {
    AccountState::new("SIM-002".to_string(), kind, None, balances, Vec::new(), false, 1)
}

fn million_usd() -> CashAccount {
    let state = cash_account_state_million_usd(usd(100_000_000), usd(0), usd(100_000_000));
    cash_account_million_usd(state).unwrap()
}

#[test]
fn commission_debit_leaves_free_balance() {
    let mut account = million_usd();
    assert_eq!(account.apply_commission(&usd(500)), Ok(()));
    assert_eq!(account.balance_free(&Currency::usd()), Some(usd(99_999_500)));
    assert_eq!(account.balance_total(&Currency::usd()), Some(usd(99_999_500)));
    assert_eq!(account.balance_locked(&Currency::usd()), Some(usd(0)));
}

#[test]
fn debit_beyond_free_is_refused() {
    let mut account = million_usd();
    assert_eq!(account.apply_commission(&usd(100_000_001)), Err(AccountError::NegativeFreeBalance));
    assert_eq!(account.balance_free(&Currency::usd()), Some(usd(100_000_000)));
}

#[test]
fn rebate_credits_unheld_currency() {
    let mut account = million_usd();
    assert_eq!(account.apply_commission(&btc(-7)), Ok(()));
    assert_eq!(account.balance_free(&Currency::btc()), Some(btc(7)));
    assert_eq!(account.apply_commission(&Money::from_raw(3, Currency::eth())), Err(AccountError::NegativeFreeBalance));
}

#[test]
fn balances_read_back_exactly() {
    let balances = vec![
        AccountBalance::new(usd(123_456), usd(456), usd(123_000)),
        AccountBalance::new(btc(99), btc(0), btc(99)),
    ];
    let state = state_of(AccountType::Cash, balances);
    assert_eq!(state.balance(&Currency::usd()), Some(AccountBalance::new(usd(123_456), usd(456), usd(123_000))));
    assert_eq!(state.balance(&Currency::btc()), Some(AccountBalance::new(btc(99), btc(0), btc(99))));
    assert_eq!(state.balance(&Currency::eth()), None);
    for calculate in [false, true] {
        let account = CashAccount::new(state.clone(), calculate).unwrap();
        assert_eq!(account.balance_total(&Currency::usd()), Some(usd(123_456)));
        assert_eq!(account.balance_locked(&Currency::usd()), Some(usd(456)));
        assert_eq!(account.balance_free(&Currency::usd()), Some(usd(123_000)));
        assert_eq!(account.balance_free(&Currency::btc()), Some(btc(99)));
        assert_eq!(account.balance(&Currency::usdt()), None);
        assert_eq!(account.calculate_account_state(), calculate);
    }
}

#[test]
fn calculated_state_derives_free() {
    let state = state_of(AccountType::Cash, vec![AccountBalance::new(usd(1000), usd(300), usd(5))]);
    let account = CashAccount::new(state.clone(), true).unwrap();
    assert_eq!(account.balance_free(&Currency::usd()), Some(usd(700)));
    assert_eq!(CashAccount::new(state, false).unwrap_err(), AccountError::InconsistentBalance);
}

#[test]
fn overdrawn_state_is_refused() {
    let state = state_of(AccountType::Cash, vec![AccountBalance::new(usd(100), usd(300), usd(0))]);
    assert_eq!(CashAccount::new(state, true).unwrap_err(), AccountError::NegativeFreeBalance);
    let state = state_of(AccountType::Cash, vec![AccountBalance::new(usd(100), usd(300), usd(-200))]);
    assert_eq!(CashAccount::new(state, false).unwrap_err(), AccountError::NegativeFreeBalance);
}

#[test]
fn apply_state_replaces_or_keeps() {
    let mut account = million_usd();
    let next = state_of(AccountType::Cash, vec![AccountBalance::new(usd(500), usd(100), usd(400))]);
    assert_eq!(account.apply_state(next), Ok(()));
    assert_eq!(account.balance_free(&Currency::usd()), Some(usd(400)));
    assert_eq!(account.last_state().ts_event, 1);
    let bad = state_of(AccountType::Cash, vec![AccountBalance::new(usd(50), usd(100), usd(0))]);
    assert_eq!(account.apply_state(bad), Err(AccountError::NegativeFreeBalance));
    assert_eq!(account.balance_free(&Currency::usd()), Some(usd(400)));
    let margin = state_of(AccountType::Margin, vec![AccountBalance::new(usd(50), usd(0), usd(50))]);
    assert_eq!(account.apply_state(margin), Err(AccountError::InvalidInitialState));
    assert_eq!(account.balance_total(&Currency::usd()), Some(usd(500)));
}

#[test]
fn free_never_exceeds_total() {
    let mut account = million_usd();
    let next = state_of(AccountType::Cash, vec![AccountBalance::new(usd(500), usd(100), usd(900))]);
    assert_eq!(account.apply_state(next), Ok(()));
    let free = account.balance_free(&Currency::usd()).unwrap();
    let total = account.balance_total(&Currency::usd()).unwrap();
    assert!(free.raw <= total.raw);
    assert_eq!(free, usd(400));
}

#[test]
fn duplicate_or_mixed_currency_is_refused() {
    let dup = state_of(
        AccountType::Cash,
        vec![AccountBalance::new(usd(1), usd(0), usd(1)), AccountBalance::new(usd(2), usd(0), usd(2))],
    );
    assert_eq!(CashAccount::new(dup, true).unwrap_err(), AccountError::InconsistentBalance);
    let mixed = state_of(AccountType::Cash, vec![AccountBalance::new(usd(1), btc(0), usd(1))]);
    assert_eq!(CashAccount::new(mixed, true).unwrap_err(), AccountError::InconsistentBalance);
}

#[test]
fn wrong_variant_is_refused() {
    assert_eq!(MarginAccount::new(cash_account_state(), true).unwrap_err(), AccountError::InvalidInitialState);
    assert_eq!(CashAccount::new(margin_account_state(), true).unwrap_err(), AccountError::InvalidInitialState);
}

#[test]
fn ready_made_accounts() {
    let cash = cash_account(cash_account_state()).unwrap();
    assert_eq!(cash.balance_free(&Currency::usd()), Some(usd(150_000_000)));
    let margin = margin_account(margin_account_state()).unwrap();
    assert_eq!(margin.balance_locked(&Currency::usd()), Some(usd(2_500_000)));
    let multi = cash_account_multi(cash_account_state_multi()).unwrap();
    assert_eq!(multi.balance_total(&Currency::btc()), Some(btc(1_000_000_000)));
    assert_eq!(multi.balance_total(&Currency::eth()), Some(Money::from_raw(2_000_000_000, Currency::eth())));
    let tether = cash_account_million_usd(cash_account_state_million_usdt()).unwrap();
    assert_eq!(
        tether.balance_free(&Currency::usdt()),
        Some(Money::from_raw(100_000_000_000_000, Currency::usdt()))
    );
    assert_eq!(margin_account(cash_account_state()).unwrap_err(), AccountError::InvalidInitialState);
}

#[test]
fn margin_reservation() {
    let mut account = margin_account(margin_account_state()).unwrap();
    let id = "ESZ5.XCME".to_string();
    assert_eq!(account.margin(&id), None);
    assert_eq!(account.check_margin(&usd(150_000_000)), Ok(()));
    assert_eq!(account.check_margin(&usd(150_000_001)), Err(AccountError::InsufficientMargin));
    assert_eq!(account.check_margin(&btc(1)), Err(AccountError::InsufficientMargin));
    account.update_margin(&id, usd(1_000));
    account.update_margin(&id, usd(2_000));
    assert_eq!(account.margin(&id), Some(usd(2_000)));
    assert_eq!(account.last_state().margins.len(), 1);
    assert_eq!(account.balance_free(&Currency::usd()), Some(usd(150_000_000)));
}

#[test]
fn money_arithmetic() {
    assert_eq!(usd(5).checked_add(&usd(7)), Ok(usd(12)));
    assert_eq!(usd(5).checked_sub(&usd(7)), Ok(usd(-2)));
    assert_eq!(usd(5).checked_add(&btc(7)), Err(AccountError::CurrencyMismatch));
    assert_eq!(usd(i64::MAX).checked_add(&usd(1)), Err(AccountError::Overflow));
    assert!(usd(3).same_as(&usd(3)));
    assert!(!usd(3).same_as(&btc(3)));
}

#[test]
fn money_rounds_on_construction() {
    // 1.005 -> 1.00, 1.015 -> 1.02, -1.015 -> -1.02, 7.25 stays
    assert_eq!(Money::from_decimal(1005, 3, Currency::usd()), Ok(usd(100)));
    assert_eq!(Money::from_decimal(1015, 3, Currency::usd()), Ok(usd(102)));
    assert_eq!(Money::from_decimal(-1015, 3, Currency::usd()), Ok(usd(-102)));
    assert_eq!(Money::from_decimal(725, 2, Currency::usd()), Ok(usd(725)));
    assert_eq!(Money::from_decimal(3, 0, Currency::btc()), Ok(btc(300_000_000)));
    assert_eq!(Money::from_decimal(i64::MAX, 0, Currency::usd()), Err(AccountError::Overflow));
}

#[test]
fn registry_lookup() {
    let mut registry = CurrencyRegistry::with_defaults();
    assert_eq!(registry.lookup(&"USDT".to_string()), Ok(Currency::usdt()));
    assert_eq!(registry.lookup(&"AUD".to_string()), Err(AccountError::UnknownCurrency));
    let aud = Currency::new("AUD", 2).unwrap();
    assert_eq!(registry.register(aud.clone()), Ok(()));
    assert_eq!(registry.lookup(&"AUD".to_string()), Ok(aud));
    assert_eq!(registry.register(Currency::new("AUD", 4).unwrap()), Err(AccountError::CurrencyMismatch));
    assert!(Currency::new("XXX", 10).is_none());
}

#[test]
fn money_scale_and_compare() {
    assert_eq!(usd(250).checked_scale(-3), Ok(usd(-750)));
    assert_eq!(usd(i64::MAX).checked_scale(2), Err(AccountError::Overflow));
    assert_eq!(usd(1).is_less_than(&usd(2)), Ok(true));
    assert_eq!(usd(2).is_less_than(&usd(2)), Ok(false));
    assert_eq!(usd(1).is_less_than(&btc(2)), Err(AccountError::CurrencyMismatch));
}

#[test]
fn tagged_account_follows_state_type() {
    let mut cash = AccountAny::new(cash_account_state(), true).unwrap();
    assert!(matches!(cash, AccountAny::Cash(_)));
    assert_eq!(cash.balance_total(&Currency::usd()), Some(usd(152_500_000)));
    assert_eq!(cash.apply_state(margin_account_state()), Err(AccountError::InvalidInitialState));
    let margin = AccountAny::new(margin_account_state(), false).unwrap();
    assert!(matches!(margin, AccountAny::Margin(_)));
    assert_eq!(margin.balance_free(&Currency::usd()), Some(usd(150_000_000)));
    let bad = state_of(AccountType::Margin, vec![AccountBalance::new(usd(1), usd(2), usd(0))]);
    assert_eq!(AccountAny::new(bad, true).unwrap_err(), AccountError::NegativeFreeBalance);
}

#[test]
fn debit_keeps_snapshot_header() {
    let mut account = million_usd();
    let before = account.last_state();
    assert_eq!(account.apply_commission(&usd(500)), Ok(()));
    let after = account.last_state();
    assert_eq!(after.account_id, before.account_id);
    assert_eq!(after.ts_event, before.ts_event);
    assert_eq!(after.balances.len(), 1);
}
