use vstd::prelude::*;
use crate::currency::Currency;
use crate::error::AccountError;
use crate::money::Money;
use crate::state::{
    debited_balances, is_first_match, kept_balances, none_overdrawn, rejection, AccountBalance,
    AccountState, AccountType, MarginBalance,
};

verus! {

/// What the account variants share: the current snapshot, and whether free
/// balances are derived (free = total - locked) or taken as given.
#[derive(Debug)]
pub struct BaseAccount {
    state: AccountState,
    calculate_account_state: bool,
}

/// Whether `r` is the free part of the balance in currency `c` among `b`,
/// or `None` where there is no such balance.
pub open spec fn free_in(b: Seq<AccountBalance>, c: (Seq<char>, u8), r: Option<Money>) -> bool {
    match r {
        Some(m) => exists|i: usize| is_first_match(b, c, Some(i)) && m == b[i as int].free,
        None => is_first_match(b, c, None),
    }
}

/// Whether `r` is the total of the balance in currency `c` among `b`, or
/// `None` where there is no such balance.
pub open spec fn total_in(b: Seq<AccountBalance>, c: (Seq<char>, u8), r: Option<Money>) -> bool {
    match r {
        Some(m) => exists|i: usize| is_first_match(b, c, Some(i)) && m == b[i as int].total,
        None => is_first_match(b, c, None),
    }
}

/// Whether `r` is the locked part of the balance in currency `c` among `b`,
/// or `None` where there is no such balance.
pub open spec fn locked_in(b: Seq<AccountBalance>, c: (Seq<char>, u8), r: Option<Money>) -> bool {
    match r {
        Some(m) => exists|i: usize| is_first_match(b, c, Some(i)) && m == b[i as int].locked,
        None => is_first_match(b, c, None),
    }
}

/// Whether `r` is the first index of `m` whose margin is for `id`, or `None`
/// where no margin is.
pub open spec fn is_first_margin(m: Seq<MarginBalance>, id: Seq<char>, r: Option<usize>) -> bool {
    match r {
        Some(i) => i < m.len() && m[i as int].instrument_id@ == id && forall|j: int|
            0 <= j < i ==> #[trigger] m[j].instrument_id@ != id,
        None => forall|j: int| 0 <= j < m.len() ==> #[trigger] m[j].instrument_id@ != id,
    }
}

/// The free amount held in currency `c` among `b`: that of the first balance
/// in `c`, or zero where there is none.
pub open spec fn free_amount(b: Seq<AccountBalance>, c: (Seq<char>, u8)) -> int {
    if exists|i: int| 0 <= i < b.len() && #[trigger] b[i].currency() == c {
        let i = choose|i: int|
            0 <= i < b.len() && #[trigger] b[i].currency() == c && forall|j: int|
                0 <= j < i ==> #[trigger] b[j].currency() != c;
        b[i].free.raw as int
    } else {
        0
    }
}

/// `n` is the margins `m` with the one for `id` set to `margin`: the first
/// entry for `id` replaced, or a new entry added at the end where there is
/// none; every other entry kept.
pub open spec fn margins_set(m: Seq<MarginBalance>, n: Seq<MarginBalance>, id: Seq<char>, margin: Money) -> bool {
    let i = if exists|i: int| 0 <= i < m.len() && #[trigger] m[i].instrument_id@ == id {
        choose|i: int|
            0 <= i < m.len() && #[trigger] m[i].instrument_id@ == id && forall|j: int|
                0 <= j < i ==> #[trigger] m[j].instrument_id@ != id
    } else {
        m.len() as int
    };
    &&& n.len() == (if i == m.len() { m.len() + 1int } else { m.len() as int })
    &&& n[i].instrument_id@ == id
    &&& n[i].initial == margin
    &&& forall|j: int| 0 <= j < m.len() && j != i ==> #[trigger] n[j] == m[j]
}

impl BaseAccount {
    /// The snapshot the account currently holds.
    pub closed spec fn current(&self) -> AccountState {
        self.state
    }

    /// Whether free balances are derived from total and locked.
    pub closed spec fn calculates(&self) -> bool {
        self.calculate_account_state
    }

    /// The account holds a consistent snapshot of type `kind`.
    pub open spec fn wf(&self, kind: AccountType) -> bool {
        self.current().consistent() && self.current().account_type == kind
    }

    /// An account of type `kind` holding `state`. Fails with
    /// `InvalidInitialState` when the state is of another type, and
    /// otherwise as `AccountState::normalized` does.
    pub fn new(state: AccountState, calculate_account_state: bool, kind: AccountType) -> (r: Result<
        BaseAccount,
        AccountError,
    >)
        ensures
            state.account_type != kind ==> r == Err::<BaseAccount, AccountError>(
                AccountError::InvalidInitialState,
            ),
            state.account_type == kind ==> match rejection(state, calculate_account_state) {
                Some(e) => r == Err::<BaseAccount, AccountError>(e),
                None => r.is_ok() && r.unwrap().wf(kind) && r.unwrap().current().adopts(
                    state,
                    calculate_account_state,
                ) && r.unwrap().calculates() == calculate_account_state,
            },
    {
        if state.account_type != kind {
            return Err(AccountError::InvalidInitialState);
        }
        match state.normalized(calculate_account_state) {
            Ok(s) => Ok(BaseAccount { state: s, calculate_account_state }),
            Err(e) => Err(e),
        }
    }

    /// Replaces the current snapshot with `new_state`, all at once. Fails,
    /// leaving the account as it was, with `InvalidInitialState` when the
    /// state is of another type, and otherwise as `AccountState::normalized`
    /// does.
    /// Snapshots arrive in order of event time; keeping that order is the
    /// caller's part.
    pub fn apply_state(&mut self, new_state: AccountState, kind: AccountType) -> (r: Result<
        (),
        AccountError,
    >)
        requires
            old(self).wf(kind),
            new_state.ts_event >= old(self).current().ts_event,
        ensures
            final(self).wf(kind),
            final(self).calculates() == old(self).calculates(),
            r.is_err() ==> final(self).current() == old(self).current(),
            new_state.account_type != kind ==> r == Err::<(), AccountError>(
                AccountError::InvalidInitialState,
            ),
            new_state.account_type == kind ==> match rejection(new_state, old(self).calculates()) {
                Some(e) => r == Err::<(), AccountError>(e),
                None => r.is_ok() && final(self).current().adopts(new_state, old(self).calculates()),
            },
    {
        if new_state.account_type != kind {
            return Err(AccountError::InvalidInitialState);
        }
        match new_state.normalized(self.calculate_account_state) {
            Ok(s) => {
                self.state = s;
                Ok(())
            },
            Err(e) => Err(e),
        }
    }

    /// Debits `commission` from the balance in its currency (see
    /// `debited_balances`) and keeps the resulting snapshot. Fails, leaving
    /// the account as it was, with `Overflow` when an amount would not fit
    /// and with `NegativeFreeBalance` when the debit would leave less in
    /// total than is locked.
    pub fn apply_commission(&mut self, commission: &Money, kind: AccountType) -> (r: Result<
        (),
        AccountError,
    >)
        requires
            old(self).wf(kind),
            commission.wf(),
        ensures
            final(self).wf(kind),
            final(self).calculates() == old(self).calculates(),
            r.is_err() ==> final(self).current() == old(self).current(),
            match debited_balances(old(self).current().balances@, *commission) {
                None => r == Err::<(), AccountError>(AccountError::Overflow),
                Some(nb) => if none_overdrawn(nb) {
                    r.is_ok() && final(self).current().same_header(old(self).current())
                        && final(self).current().balances@ == kept_balances(
                        nb,
                        old(self).calculates(),
                    )
                } else {
                    r == Err::<(), AccountError>(AccountError::NegativeFreeBalance)
                },
            },
    {
        let debited = match self.state.with_debit(commission) {
            Ok(s) => s,
            Err(e) => {
                return Err(e);
            },
        };
        proof {
            let b = self.state.balances@;
            let nb = debited.balances@;
            assert(self.state.consistent());
            if exists|i: int| 0 <= i < b.len() && #[trigger] b[i].currency() == commission.currency@ {
                let i = choose|i: int|
                    0 <= i < b.len() && #[trigger] b[i].currency() == commission.currency@
                        && forall|j: int| 0 <= j < i ==> #[trigger] b[j].currency() != commission.currency@;
                assert(nb == b.update(i, crate::state::debit_entry(b[i], commission.raw as int)));
                assert(b[i].consistent());
                assert forall|k: int| 0 <= k < nb.len() implies (#[trigger] nb[k]).well_formed() && nb[k].total.raw == nb[k].locked.raw + nb[k].free.raw by {
                    assert(b[k].consistent());
                }
                assert forall|x: int, y: int| 0 <= x < y < nb.len() implies #[trigger] nb[x].currency() != #[trigger] nb[y].currency() by {
                    assert(b[x].currency() != b[y].currency());
                }
            } else {
                assert(nb == b.push(crate::state::opening_entry(*commission)));
                assert forall|k: int| 0 <= k < nb.len() implies (#[trigger] nb[k]).well_formed() && nb[k].total.raw == nb[k].locked.raw + nb[k].free.raw by {
                    if k < b.len() {
                        assert(b[k].consistent());
                    }
                }
                assert forall|x: int, y: int| 0 <= x < y < nb.len() implies #[trigger] nb[x].currency() != #[trigger] nb[y].currency() by {
                    if y < b.len() {
                        assert(b[x].currency() != b[y].currency());
                    } else {
                        assert(b[x].currency() != commission.currency@);
                    }
                }
            }
            assert(debited.well_formed());
            assert(crate::state::parts_add_up(nb));
        }
        self.apply_state(debited, kind)
    }

    /// The snapshot the account currently holds.
    pub fn last_state(&self) -> (r: AccountState)
        ensures
            r.same_as(self.current()),
    {
        self.state.clone()
    }

    /// Whether free balances are derived from total and locked.
    pub fn calculate_account_state(&self) -> (r: bool)
        ensures
            r == self.calculates(),
    {
        self.calculate_account_state
    }

    /// The balance held in `currency`; absent when the account has never
    /// held it.
    pub fn balance(&self, currency: &Currency) -> (r: Option<AccountBalance>)
        ensures
            match r {
                Some(b) => exists|i: usize|
                    is_first_match(self.current().balances@, currency@, Some(i)) && b
                        == self.current().balances@[i as int],
                None => is_first_match(self.current().balances@, currency@, None),
            },
    {
        self.state.balance(currency)
    }

    /// The total held in `currency`, if the account holds it.
    pub fn balance_total(&self, currency: &Currency) -> (r: Option<Money>)
        ensures
            total_in(self.current().balances@, currency@, r),
    {
        match self.state.position_of(currency) {
            Some(i) => Some(self.state.balances[i].total.clone()),
            None => None,
        }
    }

    /// The free part of what is held in `currency`, if the account holds it.
    pub fn balance_free(&self, currency: &Currency) -> (r: Option<Money>)
        ensures
            free_in(self.current().balances@, currency@, r),
    {
        match self.state.position_of(currency) {
            Some(i) => Some(self.state.balances[i].free.clone()),
            None => None,
        }
    }

    /// The locked part of what is held in `currency`, if the account holds
    /// it.
    pub fn balance_locked(&self, currency: &Currency) -> (r: Option<Money>)
        ensures
            locked_in(self.current().balances@, currency@, r),
    {
        match self.state.position_of(currency) {
            Some(i) => Some(self.state.balances[i].locked.clone()),
            None => None,
        }
    }

    /// The index of the margin reserved for `instrument_id`, if any.
    pub fn margin_position(&self, instrument_id: &String) -> (r: Option<usize>)
        ensures
            is_first_margin(self.current().margins@, instrument_id@, r),
    {
        let mut i: usize = 0;
        while i < self.state.margins.len()
            invariant
                i <= self.state.margins@.len(),
                forall|j: int| 0 <= j < i ==> #[trigger] self.state.margins@[j].instrument_id@ != instrument_id@,
            decreases self.state.margins.len() - i,
        {
            if self.state.margins[i].instrument_id == *instrument_id {
                return Some(i);
            }
            i = i + 1;
        }
        None
    }

    /// The margin reserved for `instrument_id`, if any.
    pub fn margin(&self, instrument_id: &String) -> (r: Option<Money>)
        ensures
            match r {
                Some(m) => exists|i: usize|
                    is_first_margin(self.current().margins@, instrument_id@, Some(i)) && m
                        == self.current().margins@[i as int].initial,
                None => is_first_margin(self.current().margins@, instrument_id@, None),
            },
    {
        match self.margin_position(instrument_id) {
            Some(i) => Some(self.state.margins[i].initial.clone()),
            None => None,
        }
    }

    /// Sets the margin reserved for `instrument_id` to `margin`, replacing
    /// any earlier reservation; the balances do not move.
    pub fn update_margin(&mut self, instrument_id: &String, margin: Money, kind: AccountType)
        requires
            old(self).wf(kind),
        ensures
            final(self).wf(kind),
            final(self).calculates() == old(self).calculates(),
            final(self).current().balances@ == old(self).current().balances@,
            margins_set(
                old(self).current().margins@,
                final(self).current().margins@,
                instrument_id@,
                margin,
            ),
    {
        let entry = MarginBalance { instrument_id: instrument_id.clone(), initial: margin };
        let ghost m = self.state.margins@;
        match self.margin_position(instrument_id) {
            Some(i) => {
                proof {
                    let k = choose|k: int|
                        0 <= k < m.len() && #[trigger] m[k].instrument_id@ == instrument_id@
                            && forall|j: int| 0 <= j < k ==> #[trigger] m[j].instrument_id@ != instrument_id@;
                    if k < i {
                        assert(m[k].instrument_id@ != instrument_id@);
                    } else if k > i {
                        assert(m[i as int].instrument_id@ != instrument_id@);
                    }
                }
                self.state.margins.set(i, entry);
            },
            None => {
                self.state.margins.push(entry);
            },
        }
    }

    /// Succeeds when the free balance in `margin`'s currency covers it; a
    /// currency the account does not hold counts as zero. Fails with
    /// `InsufficientMargin` otherwise.
    pub fn check_margin(&self, margin: &Money) -> (r: Result<(), AccountError>)
        ensures
            r.is_ok() <==> margin.raw <= free_amount(self.current().balances@, margin.currency@),
            r.is_err() ==> r == Err::<(), AccountError>(AccountError::InsufficientMargin),
    {
        let ghost b = self.state.balances@;
        let free: i64 = match self.state.position_of(&margin.currency) {
            Some(i) => {
                proof {
                    let k = choose|k: int|
                        0 <= k < b.len() && #[trigger] b[k].currency() == margin.currency@
                            && forall|j: int| 0 <= j < k ==> #[trigger] b[j].currency() != margin.currency@;
                    if k < i {
                        assert(b[k].currency() != margin.currency@);
                    } else if k > i {
                        assert(b[i as int].currency() != margin.currency@);
                    }
                }
                self.state.balances[i].free.raw
            },
            None => 0,
        };
        if margin.raw <= free {
            Ok(())
        } else {
            Err(AccountError::InsufficientMargin)
        }
    }
}

} // verus!
