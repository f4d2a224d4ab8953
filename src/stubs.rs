//! Ready-made accounts and snapshots for demonstrations and tests.
use vstd::prelude::*;
use crate::cash::CashAccount;
use crate::commission::commission_result;
use crate::currency::Currency;
use crate::error::AccountError;
use crate::instrument::{Instrument, LiquiditySide, Price, Quantity};
use crate::margin::MarginAccount;
use crate::money::Money;
use crate::state::{
    lemma_consistent_accepted, rejection, AccountBalance, AccountState, AccountType,
};

verus! {

/// A snapshot of account `account_id` of type `kind` holding one balance.
fn single_balance_state(
    account_id: &str,
    kind: AccountType,
    total: Money,
    locked: Money,
    free: Money,
    base_currency: Option<Currency>,
) -> (r: AccountState)
    ensures
        r.account_type == kind,
        r.balances@ == seq![AccountBalance { total, locked, free }],
        r.margins@.len() == 0,
{
    let mut balances: Vec<AccountBalance> = Vec::new();
    balances.push(AccountBalance { total, locked, free });
    AccountState {
        account_id: account_id.to_owned(),
        account_type: kind,
        base_currency,
        balances,
        margins: Vec::new(),
        is_reported: true,
        ts_event: 0,
    }
}

/// A cash snapshot holding `total`, of which `locked` is locked and `free`
/// is free.
pub fn cash_account_state_million_usd(total: Money, locked: Money, free: Money) -> (r: AccountState)
    ensures
        r.account_type == AccountType::Cash,
        r.balances@ == seq![AccountBalance { total, locked, free }],
{
    let base = Some(Currency::usd());
    single_balance_state("SIM-001", AccountType::Cash, total, locked, free, base)
}

/// A cash snapshot holding 1,000,000 USDT, all of it free.
pub fn cash_account_state_million_usdt() -> (r: AccountState)
    ensures
        r.account_type == AccountType::Cash,
        r.consistent(),
        r.balances@.len() == 1,
        r.balances@[0].total.raw == 100_000_000_000_000,
        r.balances@[0].free.raw == 100_000_000_000_000,
        r.balances@[0].total.currency@ == ("USDT"@, 8u8),
{
    let total = Money::from_raw(100_000_000_000_000, Currency::usdt());
    let locked = Money::zero(Currency::usdt());
    let free = Money::from_raw(100_000_000_000_000, Currency::usdt());
    let r = single_balance_state("SIM-001", AccountType::Cash, total, locked, free, None);
    assert(r.balances@[0].consistent());
    r
}

/// A cash snapshot of 1,525,000.00 USD, 25,000.00 of it locked.
pub fn cash_account_state() -> (r: AccountState)
    ensures
        r.account_type == AccountType::Cash,
        r.consistent(),
{
    let total = Money::from_raw(152_500_000, Currency::usd());
    let locked = Money::from_raw(2_500_000, Currency::usd());
    let free = Money::from_raw(150_000_000, Currency::usd());
    let r = single_balance_state("SIM-001", AccountType::Cash, total, locked, free, Some(Currency::usd()));
    assert(r.balances@[0].consistent());
    r
}

/// A margin snapshot of 1,525,000.00 USD, 25,000.00 of it locked.
pub fn margin_account_state() -> (r: AccountState)
    ensures
        r.account_type == AccountType::Margin,
        r.consistent(),
{
    let total = Money::from_raw(152_500_000, Currency::usd());
    let locked = Money::from_raw(2_500_000, Currency::usd());
    let free = Money::from_raw(150_000_000, Currency::usd());
    let r = single_balance_state("SIM-001", AccountType::Margin, total, locked, free, Some(Currency::usd()));
    assert(r.balances@[0].consistent());
    r
}

/// A cash snapshot holding 10 BTC and 20 ETH, all of it free.
pub fn cash_account_state_multi() -> (r: AccountState)
    ensures
        r.account_type == AccountType::Cash,
        r.consistent(),
        r.balances@.len() == 2,
{
    let mut balances: Vec<AccountBalance> = Vec::new();
    balances.push(AccountBalance {
        total: Money::from_raw(1_000_000_000, Currency::btc()),
        locked: Money::zero(Currency::btc()),
        free: Money::from_raw(1_000_000_000, Currency::btc()),
    });
    balances.push(AccountBalance {
        total: Money::from_raw(2_000_000_000, Currency::eth()),
        locked: Money::zero(Currency::eth()),
        free: Money::from_raw(2_000_000_000, Currency::eth()),
    });
    let r = AccountState {
        account_id: "SIM-001".to_owned(),
        account_type: AccountType::Cash,
        base_currency: None,
        balances,
        margins: Vec::new(),
        is_reported: true,
        ts_event: 0,
    };
    proof {
        reveal_strlit("BTC");
        reveal_strlit("ETH");
        assert("BTC"@[0] != "ETH"@[0]);
        assert(r.balances@[0].consistent());
        assert(r.balances@[1].consistent());
    }
    r
}

/// A margin account holding `margin_account_state`, deriving free balances.
pub fn margin_account(margin_account_state: AccountState) -> (r: Result<MarginAccount, AccountError>)
    ensures
        margin_account_state.account_type != AccountType::Margin ==> r == Err::<
            MarginAccount,
            AccountError,
        >(AccountError::InvalidInitialState),
        margin_account_state.account_type == AccountType::Margin ==> match rejection(
            margin_account_state,
            true,
        ) {
            Some(e) => r == Err::<MarginAccount, AccountError>(e),
            None => r.is_ok() && r.unwrap().wf() && r.unwrap().current().adopts(
                margin_account_state,
                true,
            ) && r.unwrap().calculates(),
        },
{
    MarginAccount::new(margin_account_state, true)
}

/// A cash account holding `cash_account_state`, deriving free balances.
pub fn cash_account(cash_account_state: AccountState) -> (r: Result<CashAccount, AccountError>)
    ensures
        cash_account_state.account_type != AccountType::Cash ==> r == Err::<
            CashAccount,
            AccountError,
        >(AccountError::InvalidInitialState),
        cash_account_state.account_type == AccountType::Cash ==> match rejection(
            cash_account_state,
            true,
        ) {
            Some(e) => r == Err::<CashAccount, AccountError>(e),
            None => r.is_ok() && r.unwrap().wf() && r.unwrap().current().adopts(
                cash_account_state,
                true,
            ) && r.unwrap().calculates(),
        },
{
    CashAccount::new(cash_account_state, true)
}

/// A cash account holding `cash_account_state_million_usd`, deriving free
/// balances.
pub fn cash_account_million_usd(cash_account_state_million_usd: AccountState) -> (r: Result<
    CashAccount,
    AccountError,
>)
    ensures
        cash_account_state_million_usd.account_type != AccountType::Cash ==> r == Err::<
            CashAccount,
            AccountError,
        >(AccountError::InvalidInitialState),
        cash_account_state_million_usd.account_type == AccountType::Cash ==> match rejection(
            cash_account_state_million_usd,
            true,
        ) {
            Some(e) => r == Err::<CashAccount, AccountError>(e),
            None => r.is_ok() && r.unwrap().wf() && r.unwrap().current().adopts(
                cash_account_state_million_usd,
                true,
            ) && r.unwrap().calculates(),
        },
{
    CashAccount::new(cash_account_state_million_usd, true)
}

/// A cash account holding `cash_account_state_multi`, deriving free
/// balances.
pub fn cash_account_multi(cash_account_state_multi: AccountState) -> (r: Result<
    CashAccount,
    AccountError,
>)
    ensures
        cash_account_state_multi.account_type != AccountType::Cash ==> r == Err::<
            CashAccount,
            AccountError,
        >(AccountError::InvalidInitialState),
        cash_account_state_multi.account_type == AccountType::Cash ==> match rejection(
            cash_account_state_multi,
            true,
        ) {
            Some(e) => r == Err::<CashAccount, AccountError>(e),
            None => r.is_ok() && r.unwrap().wf() && r.unwrap().current().adopts(
                cash_account_state_multi,
                true,
            ) && r.unwrap().calculates(),
        },
{
    CashAccount::new(cash_account_state_multi, true)
}

/// The taker commission for a fill of `quantity` at `price`, computed by a
/// million-unit cash account: one in USDT when `currency` is USDT, one in
/// USD otherwise. Fails with `MissingFeeSchedule` when `currency` is given
/// and the instrument charges in another, and otherwise as
/// `compute_commission` does.
pub fn calculate_commission(
    instrument: &Instrument,
    quantity: Quantity,
    price: Price,
    currency: Option<Currency>,
) -> (r: Result<Money, AccountError>)
    requires
        instrument.wf(),
        quantity.wf(),
        price.wf(),
    ensures
        currency.is_some() && currency.unwrap()@ != instrument.commission_currency@ ==> r == Err::<
            Money,
            AccountError,
        >(AccountError::MissingFeeSchedule),
        currency.is_none() || currency.unwrap()@ == instrument.commission_currency@
            ==> commission_result(*instrument, quantity, price, LiquiditySide::Taker, None, r),
{
    if let Some(c) = &currency {
        if !c.same_as(&instrument.commission_currency) {
            return Err(AccountError::MissingFeeSchedule);
        }
    }
    let usdt = Currency::usdt();
    let account_state = match &currency {
        Some(c) if c.same_as(&usdt) => cash_account_state_million_usdt(),
        _ => {
            let total = Money::from_raw(100_000_000, Currency::usd());
            let locked = Money::zero(Currency::usd());
            let free = Money::from_raw(100_000_000, Currency::usd());
            let s = cash_account_state_million_usd(total, locked, free);
            assert(s.balances@[0].consistent());
            s
        },
    };
    proof {
        lemma_consistent_accepted(account_state, true);
    }
    let account = match cash_account_million_usd(account_state) {
        Ok(a) => a,
        Err(e) => {
            return Err(e);
        },
    };
    account.calculate_commission(instrument, quantity, price, LiquiditySide::Taker, None)
}

} // verus!
