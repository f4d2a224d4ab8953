use vstd::prelude::*;
use crate::account::{free_in, locked_in, total_in, BaseAccount};
use crate::commission::{commission_result, compute_commission};
use crate::currency::Currency;
use crate::error::AccountError;
use crate::instrument::{Instrument, LiquiditySide, Price, Quantity};
use crate::money::Money;
use crate::state::{
    debited_balances, is_first_match, kept_balances, none_overdrawn, rejection, AccountBalance,
    AccountState, AccountType,
};

verus! {

/// A cash account: commission and trade cost move currency balances directly; there is no collateral.
#[derive(Debug)]
pub struct CashAccount {
    base: BaseAccount,
}

impl CashAccount {
    /// The shared account underneath.
    pub closed spec fn inner(&self) -> BaseAccount {
        self.base
    }

    /// The snapshot the account currently holds.
    pub open spec fn current(&self) -> AccountState {
        self.inner().current()
    }

    /// Whether free balances are derived from total and locked.
    pub open spec fn calculates(&self) -> bool {
        self.inner().calculates()
    }

    /// The account holds a consistent cash snapshot.
    pub open spec fn wf(&self) -> bool {
        self.inner().wf(AccountType::Cash)
    }

    /// An account holding `state`. With `calculate_account_state` set, free
    /// balances are derived as total less locked, now and on every later
    /// snapshot. Fails with `InvalidInitialState` when the state is not of
    /// the cash type, and otherwise as `AccountState::normalized` does.
    pub fn new(state: AccountState, calculate_account_state: bool) -> (r: Result<CashAccount, AccountError>)
        ensures
            state.account_type != AccountType::Cash ==> r == Err::<CashAccount, AccountError>(
                AccountError::InvalidInitialState,
            ),
            state.account_type == AccountType::Cash ==> match rejection(
                state,
                calculate_account_state,
            ) {
                Some(e) => r == Err::<CashAccount, AccountError>(e),
                None => r.is_ok() && r.unwrap().wf() && r.unwrap().current().adopts(
                    state,
                    calculate_account_state,
                ) && r.unwrap().calculates() == calculate_account_state,
            },
    {
        match BaseAccount::new(state, calculate_account_state, AccountType::Cash) {
            Ok(base) => Ok(CashAccount { base }),
            Err(e) => Err(e),
        }
    }

    /// The commission for a fill of `quantity` at `price` on `side`: `over`
    /// verbatim when given, otherwise what the instrument's schedule charges
    /// (see `compute_commission`).
    pub fn calculate_commission(
        &self,
        instrument: &Instrument,
        quantity: Quantity,
        price: Price,
        side: LiquiditySide,
        over: Option<Money>,
    ) -> (r: Result<Money, AccountError>)
        requires
            instrument.wf(),
            quantity.wf(),
            price.wf(),
        ensures
            commission_result(*instrument, quantity, price, side, over, r),
    {
        compute_commission(instrument, quantity, price, side, over)
    }

    /// Replaces the current snapshot with `new_state`, all at once. Fails,
    /// leaving the account as it was, with `InvalidInitialState` when the
    /// state is not of the cash type, and otherwise as
    /// `AccountState::normalized` does.
    /// Snapshots arrive in order of event time; keeping that order is the
    /// caller's part.
    pub fn apply_state(&mut self, new_state: AccountState) -> (r: Result<(), AccountError>)
        requires
            old(self).wf(),
            new_state.ts_event >= old(self).current().ts_event,
        ensures
            final(self).wf(),
            final(self).calculates() == old(self).calculates(),
            r.is_err() ==> final(self).current() == old(self).current(),
            new_state.account_type != AccountType::Cash ==> r == Err::<(), AccountError>(
                AccountError::InvalidInitialState,
            ),
            new_state.account_type == AccountType::Cash ==> match rejection(
                new_state,
                old(self).calculates(),
            ) {
                Some(e) => r == Err::<(), AccountError>(e),
                None => r.is_ok() && final(self).current().adopts(new_state, old(self).calculates()),
            },
    {
        self.base.apply_state(new_state, AccountType::Cash)
    }

    /// Debits `commission` from the balance in its currency and keeps the
    /// resulting snapshot. Fails, leaving the account as it was, with
    /// `Overflow` when an amount would not fit and with
    /// `NegativeFreeBalance` when less would be left in total than is locked.
    pub fn apply_commission(&mut self, commission: &Money) -> (r: Result<(), AccountError>)
        requires
            old(self).wf(),
            commission.wf(),
        ensures
            final(self).wf(),
            final(self).calculates() == old(self).calculates(),
            r.is_err() ==> final(self).current() == old(self).current(),
            match debited_balances(old(self).current().balances@, *commission) {
                None => r == Err::<(), AccountError>(AccountError::Overflow),
                Some(nb) => if none_overdrawn(nb) {
                    r.is_ok() && final(self).current().same_header(old(self).current())
                        && final(self).current().balances@ == kept_balances(
                        nb,
                        old(self).calculates(),
                    )
                } else {
                    r == Err::<(), AccountError>(AccountError::NegativeFreeBalance)
                },
            },
    {
        self.base.apply_commission(commission, AccountType::Cash)
    }

    /// The snapshot the account currently holds.
    pub fn last_state(&self) -> (r: AccountState)
        ensures
            r.same_as(self.current()),
    {
        self.base.last_state()
    }

    /// Whether free balances are derived from total and locked.
    pub fn calculate_account_state(&self) -> (r: bool)
        ensures
            r == self.calculates(),
    {
        self.base.calculate_account_state()
    }

    /// The balance held in `currency`; absent when the account has never
    /// held it.
    pub fn balance(&self, currency: &Currency) -> (r: Option<AccountBalance>)
        ensures
            match r {
                Some(b) => exists|i: usize|
                    is_first_match(self.current().balances@, currency@, Some(i)) && b
                        == self.current().balances@[i as int],
                None => is_first_match(self.current().balances@, currency@, None),
            },
    {
        self.base.balance(currency)
    }

    /// The total held in `currency`, if the account holds it.
    pub fn balance_total(&self, currency: &Currency) -> (r: Option<Money>)
        ensures
            total_in(self.current().balances@, currency@, r),
    {
        self.base.balance_total(currency)
    }

    /// The free part of what is held in `currency`, if the account holds it.
    pub fn balance_free(&self, currency: &Currency) -> (r: Option<Money>)
        ensures
            free_in(self.current().balances@, currency@, r),
    {
        self.base.balance_free(currency)
    }

    /// The locked part of what is held in `currency`, if the account holds
    /// it.
    pub fn balance_locked(&self, currency: &Currency) -> (r: Option<Money>)
        ensures
            locked_in(self.current().balances@, currency@, r),
    {
        self.base.balance_locked(currency)
    }

    /// Whatever snapshots it has taken on, the account never holds a
    /// balance with more free than in total.
    pub proof fn lemma_free_within_total(&self)
        requires
            self.wf(),
        ensures
            forall|i: int|
                0 <= i < self.current().balances@.len() ==> (#[trigger] self.current().balances@[i]).free.raw
                    <= self.current().balances@[i].total.raw,
    {
        crate::state::lemma_free_within_total(self.current());
    }
}

} // verus!
