use vstd::prelude::*;
use crate::account::{free_in, total_in};
use crate::cash::CashAccount;
use crate::commission::commission_result;
use crate::currency::Currency;
use crate::error::AccountError;
use crate::instrument::{Instrument, LiquiditySide, Price, Quantity};
use crate::margin::MarginAccount;
use crate::money::Money;
use crate::state::{rejection, AccountState, AccountType};

verus! {

/// An account of either variant, tagged once at construction by the type of
/// its first snapshot and never re-tagged.
#[derive(Debug)]
pub enum AccountAny {
    Cash(CashAccount),
    Margin(MarginAccount),
}

impl AccountAny {
    /// The type the account was tagged with.
    pub open spec fn kind(&self) -> AccountType {
        match self {
            AccountAny::Cash(_) => AccountType::Cash,
            AccountAny::Margin(_) => AccountType::Margin,
        }
    }

    /// The snapshot the account currently holds.
    pub open spec fn current(&self) -> AccountState {
        match self {
            AccountAny::Cash(a) => a.current(),
            AccountAny::Margin(a) => a.current(),
        }
    }

    /// Whether free balances are derived from total and locked.
    pub open spec fn calculates(&self) -> bool {
        match self {
            AccountAny::Cash(a) => a.calculates(),
            AccountAny::Margin(a) => a.calculates(),
        }
    }

    pub open spec fn wf(&self) -> bool {
        match self {
            AccountAny::Cash(a) => a.wf(),
            AccountAny::Margin(a) => a.wf(),
        }
    }

    /// An account of the variant that `state`'s type names, holding it.
    /// Fails as `AccountState::normalized` does.
    pub fn new(state: AccountState, calculate_account_state: bool) -> (r: Result<AccountAny, AccountError>)
        ensures
            match rejection(state, calculate_account_state) {
                Some(e) => r == Err::<AccountAny, AccountError>(e),
                None => r.is_ok() && r.unwrap().wf() && r.unwrap().kind() == state.account_type
                    && r.unwrap().current().adopts(state, calculate_account_state)
                    && r.unwrap().calculates() == calculate_account_state,
            },
    {
        match state.account_type {
            AccountType::Cash => match CashAccount::new(state, calculate_account_state) {
                Ok(a) => Ok(AccountAny::Cash(a)),
                Err(e) => Err(e),
            },
            AccountType::Margin => match MarginAccount::new(state, calculate_account_state) {
                Ok(a) => Ok(AccountAny::Margin(a)),
                Err(e) => Err(e),
            },
        }
    }

    /// Replaces the current snapshot with `new_state`, as the variant's own
    /// `apply_state` does.
    /// Snapshots arrive in order of event time; keeping that order is the
    /// caller's part.
    pub fn apply_state(&mut self, new_state: AccountState) -> (r: Result<(), AccountError>)
        requires
            old(self).wf(),
            new_state.ts_event >= old(self).current().ts_event,
        ensures
            final(self).wf(),
            final(self).kind() == old(self).kind(),
            final(self).calculates() == old(self).calculates(),
            r.is_err() ==> final(self).current() == old(self).current(),
            new_state.account_type != old(self).kind() ==> r == Err::<(), AccountError>(
                AccountError::InvalidInitialState,
            ),
            new_state.account_type == old(self).kind() ==> match rejection(
                new_state,
                old(self).calculates(),
            ) {
                Some(e) => r == Err::<(), AccountError>(e),
                None => r.is_ok() && final(self).current().adopts(new_state, old(self).calculates()),
            },
    {
        match self {
            AccountAny::Cash(a) => a.apply_state(new_state),
            AccountAny::Margin(a) => a.apply_state(new_state),
        }
    }

    /// The commission for a fill, as `compute_commission` gives it.
    pub fn calculate_commission(
        &self,
        instrument: &Instrument,
        quantity: Quantity,
        price: Price,
        side: LiquiditySide,
        over: Option<Money>,
    ) -> (r: Result<Money, AccountError>)
        requires
            instrument.wf(),
            quantity.wf(),
            price.wf(),
        ensures
            commission_result(*instrument, quantity, price, side, over, r),
    {
        match self {
            AccountAny::Cash(a) => a.calculate_commission(instrument, quantity, price, side, over),
            AccountAny::Margin(a) => a.calculate_commission(instrument, quantity, price, side, over),
        }
    }

    /// The total held in `currency`, if the account holds it.
    pub fn balance_total(&self, currency: &Currency) -> (r: Option<Money>)
        ensures
            total_in(self.current().balances@, currency@, r),
    {
        match self {
            AccountAny::Cash(a) => a.balance_total(currency),
            AccountAny::Margin(a) => a.balance_total(currency),
        }
    }

    /// The free part of what is held in `currency`, if the account holds it.
    pub fn balance_free(&self, currency: &Currency) -> (r: Option<Money>)
        ensures
            free_in(self.current().balances@, currency@, r),
    {
        match self {
            AccountAny::Cash(a) => a.balance_free(currency),
            AccountAny::Margin(a) => a.balance_free(currency),
        }
    }
}

} // verus!
