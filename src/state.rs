use vstd::prelude::*;
use crate::currency::Currency;
use crate::error::AccountError;
use crate::fixed::fits_i64;
use crate::money::Money;

verus! {

/// Whether an account settles in cash or holds collateral on margin.
#[derive(Debug, Clone, Copy, PartialEq, Eq, Structural)]
pub enum AccountType {
    Cash,
    Margin,
}

/// What an account holds in one currency: the total, the part locked for
/// open obligations, and the free remainder.
#[derive(Debug, PartialEq, Eq)]
pub struct AccountBalance {
    pub total: Money,
    pub locked: Money,
    pub free: Money,
}

/// Collateral reserved for one instrument.
#[derive(Debug, PartialEq, Eq)]
pub struct MarginBalance {
    pub instrument_id: String,
    pub initial: Money,
}

/// An immutable snapshot of an account's balances at one point in time.
#[derive(Debug, PartialEq, Eq)]
pub struct AccountState {
    pub account_id: String,
    pub account_type: AccountType,
    pub base_currency: Option<Currency>,
    pub balances: Vec<AccountBalance>,
    pub margins: Vec<MarginBalance>,
    /// Whether the venue reported these balances rather than this library
    /// deriving them.
    pub is_reported: bool,
    pub ts_event: u64,
}

impl AccountBalance {
    /// The currency the balance is held in.
    pub open spec fn currency(&self) -> (Seq<char>, u8) {
        self.total.currency@
    }

    /// All three amounts are valid and in one currency, and nothing
    /// negative is locked.
    pub open spec fn well_formed(&self) -> bool {
        &&& self.total.wf()
        &&& self.locked.wf()
        &&& self.free.wf()
        &&& self.locked.currency@ == self.total.currency@
        &&& self.free.currency@ == self.total.currency@
        &&& self.locked.raw >= 0
    }

    /// The parts add up: free is total less locked, and neither is negative.
    pub open spec fn consistent(&self) -> bool {
        &&& self.well_formed()
        &&& self.free.raw >= 0
        &&& self.total.raw == self.locked.raw + self.free.raw
    }

    /// Builds a balance from its three parts.
    pub fn new(total: Money, locked: Money, free: Money) -> (r: AccountBalance)
        ensures
            r == (AccountBalance { total, locked, free }),
    {
        AccountBalance { total, locked, free }
    }

    /// Whether the balance is well formed.
    pub fn check_well_formed(&self) -> (r: bool)
        ensures
            r == self.well_formed(),
    {
        self.total.currency.precision <= crate::currency::MAX_PRECISION
            && self.locked.currency.precision <= crate::currency::MAX_PRECISION
            && self.free.currency.precision <= crate::currency::MAX_PRECISION
            && self.total.raw >= -i64::MAX && self.locked.raw >= -i64::MAX
            && self.free.raw >= -i64::MAX && self.locked.currency.same_as(&self.total.currency)
            && self.free.currency.same_as(&self.total.currency) && self.locked.raw >= 0
    }
}

impl Clone for AccountBalance {
    fn clone(&self) -> (r: AccountBalance)
        ensures
            r == *self,
    {
        AccountBalance {
            total: self.total.clone(),
            locked: self.locked.clone(),
            free: self.free.clone(),
        }
    }
}

impl Clone for MarginBalance {
    fn clone(&self) -> (r: MarginBalance)
        ensures
            r == *self,
    {
        MarginBalance { instrument_id: self.instrument_id.clone(), initial: self.initial.clone() }
    }
}

/// A copy of a vector of balances, equal entry by entry.
pub fn copy_balances(v: &Vec<AccountBalance>) -> (r: Vec<AccountBalance>)
    ensures
        r@ == v@,
{
    let mut r: Vec<AccountBalance> = Vec::new();
    let mut i: usize = 0;
    while i < v.len()
        invariant
            i <= v.len(),
            r@ == v@.subrange(0, i as int),
        decreases v.len() - i,
    {
        r.push(v[i].clone());
        i = i + 1;
    }
    assert(r@ =~= v@);
    r
}

/// A copy of a vector of margins, equal entry by entry.
pub fn copy_margins(v: &Vec<MarginBalance>) -> (r: Vec<MarginBalance>)
    ensures
        r@ == v@,
{
    let mut r: Vec<MarginBalance> = Vec::new();
    let mut i: usize = 0;
    while i < v.len()
        invariant
            i <= v.len(),
            r@ == v@.subrange(0, i as int),
        decreases v.len() - i,
    {
        r.push(v[i].clone());
        i = i + 1;
    }
    assert(r@ =~= v@);
    r
}

/// Whether no currency has two entries among `b`.
pub open spec fn currencies_unique(b: Seq<AccountBalance>) -> bool {
    forall|i: int, j: int|
        0 <= i < j < b.len() ==> #[trigger] b[i].currency() != #[trigger] b[j].currency()
}

/// Whether `r` is the first index of `b` whose balance is in currency `c`,
/// or `None` where no balance is.
pub open spec fn is_first_match(b: Seq<AccountBalance>, c: (Seq<char>, u8), r: Option<usize>) -> bool {
    match r {
        Some(i) => i < b.len() && b[i as int].currency() == c && forall|j: int|
            0 <= j < i ==> #[trigger] b[j].currency() != c,
        None => forall|j: int| 0 <= j < b.len() ==> #[trigger] b[j].currency() != c,
    }
}

impl AccountState {
    /// Every balance is well formed and each currency has at most one.
    pub open spec fn well_formed(&self) -> bool {
        &&& currencies_unique(self.balances@)
        &&& forall|i: int| 0 <= i < self.balances@.len() ==> #[trigger] self.balances@[i].well_formed()
    }

    /// Well formed, and every balance's parts add up.
    pub open spec fn consistent(&self) -> bool {
        &&& self.well_formed()
        &&& forall|i: int| 0 <= i < self.balances@.len() ==> #[trigger] self.balances@[i].consistent()
    }

    /// Two snapshots hold the same data.
    pub open spec fn same_as(&self, other: AccountState) -> bool {
        &&& self.account_id == other.account_id
        &&& self.account_type == other.account_type
        &&& self.base_currency == other.base_currency
        &&& self.balances@ == other.balances@
        &&& self.margins@ == other.margins@
        &&& self.is_reported == other.is_reported
        &&& self.ts_event == other.ts_event
    }

    /// This snapshot is what an account keeps when handed `given`: the same
    /// data, the balances as `kept_balances` says, and consistent.
    pub open spec fn adopts(&self, given: AccountState, calculate: bool) -> bool {
        &&& self.consistent()
        &&& self.balances@ == kept_balances(given.balances@, calculate)
        &&& self.account_id == given.account_id
        &&& self.account_type == given.account_type
        &&& self.base_currency == given.base_currency
        &&& self.margins@ == given.margins@
        &&& self.is_reported == given.is_reported
        &&& self.ts_event == given.ts_event
    }

    /// Two snapshots agree on everything but their balances.
    pub open spec fn same_header(&self, other: AccountState) -> bool {
        &&& self.account_id == other.account_id
        &&& self.account_type == other.account_type
        &&& self.base_currency == other.base_currency
        &&& self.margins@ == other.margins@
        &&& self.is_reported == other.is_reported
        &&& self.ts_event == other.ts_event
    }

    /// Builds a snapshot from its parts, as given.
    pub fn new(
        account_id: String,
        account_type: AccountType,
        base_currency: Option<Currency>,
        balances: Vec<AccountBalance>,
        margins: Vec<MarginBalance>,
        is_reported: bool,
        ts_event: u64,
    ) -> (r: AccountState)
        ensures
            r == (AccountState {
                account_id,
                account_type,
                base_currency,
                balances,
                margins,
                is_reported,
                ts_event,
            }),
    {
        AccountState {
            account_id,
            account_type,
            base_currency,
            balances,
            margins,
            is_reported,
            ts_event,
        }
    }

    /// The index of the balance held in `currency`, if there is one.
    pub fn position_of(&self, currency: &Currency) -> (r: Option<usize>)
        ensures
            is_first_match(self.balances@, currency@, r),
    {
        let mut i: usize = 0;
        while i < self.balances.len()
            invariant
                i <= self.balances@.len(),
                forall|j: int| 0 <= j < i ==> #[trigger] self.balances@[j].currency() != currency@,
            decreases self.balances.len() - i,
        {
            if self.balances[i].total.currency.same_as(currency) {
                return Some(i);
            }
            i = i + 1;
        }
        None
    }

    /// The balance held in `currency`; absent when the account has never
    /// held it.
    pub fn balance(&self, currency: &Currency) -> (r: Option<AccountBalance>)
        ensures
            match r {
                Some(b) => exists|i: usize|
                    is_first_match(self.balances@, currency@, Some(i)) && b == self.balances@[i as int],
                None => is_first_match(self.balances@, currency@, None),
            },
    {
        match self.position_of(currency) {
            Some(i) => Some(self.balances[i].clone()),
            None => None,
        }
    }
}

impl Clone for AccountState {
    fn clone(&self) -> (r: AccountState)
        ensures
            r.same_as(*self),
    {
        let r = AccountState {
            account_id: self.account_id.clone(),
            account_type: self.account_type,
            base_currency: match &self.base_currency {
                Some(c) => Some(c.clone()),
                None => None,
            },
            balances: copy_balances(&self.balances),
            margins: copy_margins(&self.margins),
            is_reported: self.is_reported,
            ts_event: self.ts_event,
        };
        r
    }
}

/// `b` with its free part set to total less locked.
pub open spec fn with_free_recomputed(b: AccountBalance) -> AccountBalance {
    AccountBalance {
        total: b.total,
        locked: b.locked,
        free: Money { raw: (b.total.raw - b.locked.raw) as i64, currency: b.free.currency },
    }
}

/// Every balance's total is its locked part plus its free part.
pub open spec fn parts_add_up(b: Seq<AccountBalance>) -> bool {
    forall|i: int| 0 <= i < b.len() ==> (#[trigger] b[i]).total.raw == b[i].locked.raw + b[i].free.raw
}

/// No balance has less in total than it has locked.
pub open spec fn none_overdrawn(b: Seq<AccountBalance>) -> bool {
    forall|i: int| 0 <= i < b.len() ==> (#[trigger] b[i]).total.raw >= b[i].locked.raw
}

/// The balances an account keeps from `b`: as given, or with each free part
/// derived from total and locked when `calculate` is set.
pub open spec fn kept_balances(b: Seq<AccountBalance>, calculate: bool) -> Seq<AccountBalance> {
    if calculate {
        b.map_values(|x: AccountBalance| with_free_recomputed(x))
    } else {
        b
    }
}

/// Why a snapshot cannot be taken on by an account, if it cannot: it is
/// malformed; or, trusted as given, its parts do not add up; or some balance
/// has less in total than locked.
pub open spec fn rejection(s: AccountState, calculate: bool) -> Option<AccountError> {
    if !s.well_formed() {
        Some(AccountError::InconsistentBalance)
    } else if !calculate && !parts_add_up(s.balances@) {
        Some(AccountError::InconsistentBalance)
    } else if !none_overdrawn(s.balances@) {
        Some(AccountError::NegativeFreeBalance)
    } else {
        None
    }
}

impl AccountState {
    /// Whether the snapshot is well formed.
    pub fn check_well_formed(&self) -> (r: bool)
        ensures
            r == self.well_formed(),
    {
        let n = self.balances.len();
        let mut i: usize = 0;
        while i < n
            invariant
                n == self.balances@.len(),
                i <= n,
                forall|k: int| 0 <= k < i ==> #[trigger] self.balances@[k].well_formed(),
                forall|a: int, b: int|
                    0 <= a < i && a < b < n ==> #[trigger] self.balances@[a].currency()
                        != #[trigger] self.balances@[b].currency(),
            decreases n - i,
        {
            if !self.balances[i].check_well_formed() {
                return false;
            }
            let mut j: usize = i + 1;
            while j < n
                invariant
                    n == self.balances@.len(),
                    i < n,
                    i + 1 <= j <= n,
                    forall|b: int|
                        i < b < j ==> self.balances@[i as int].currency()
                            != #[trigger] self.balances@[b].currency(),
                decreases n - j,
            {
                if self.balances[i].total.currency.same_as(&self.balances[j].total.currency) {
                    assert(self.balances@[i as int].currency() == self.balances@[j as int].currency());
                    return false;
                }
                j = j + 1;
            }
            i = i + 1;
        }
        true
    }

    /// The snapshot an account keeps in place of this one, or why it rejects
    /// it (see `rejection`). With `calculate` set, each free part is derived
    /// as total less locked; otherwise the balances are kept as given.
    pub fn normalized(&self, calculate: bool) -> (r: Result<AccountState, AccountError>)
        ensures
            match rejection(*self, calculate) {
                Some(e) => r == Err::<AccountState, AccountError>(e),
                None => r.is_ok() && r.unwrap().adopts(*self, calculate),
            },
    {
        if !self.check_well_formed() {
            return Err(AccountError::InconsistentBalance);
        }
        let n = self.balances.len();
        if !calculate {
            let mut i: usize = 0;
            while i < n
                invariant
                    n == self.balances@.len(),
                    i <= n,
                    !calculate,
                    self.well_formed(),
                    forall|k: int|
                        0 <= k < i ==> #[trigger] self.balances@[k].total.raw
                            == self.balances@[k].locked.raw + self.balances@[k].free.raw,
                decreases n - i,
            {
                let b = &self.balances[i];
                if b.total.raw as i128 != b.locked.raw as i128 + b.free.raw as i128 {
                    assert(self.balances@[i as int].total.raw != self.balances@[i as int].locked.raw
                        + self.balances@[i as int].free.raw);
                    assert(!parts_add_up(self.balances@));
                    return Err(AccountError::InconsistentBalance);
                }
                i = i + 1;
            }
        }
        let mut i: usize = 0;
        while i < n
            invariant
                n == self.balances@.len(),
                i <= n,
                self.well_formed(),
                !calculate ==> parts_add_up(self.balances@),
                forall|k: int| 0 <= k < i ==> #[trigger] self.balances@[k].total.raw >= self.balances@[k].locked.raw,
            decreases n - i,
        {
            if self.balances[i].total.raw < self.balances[i].locked.raw {
                return Err(AccountError::NegativeFreeBalance);
            }
            i = i + 1;
        }
        let mut kept: Vec<AccountBalance> = Vec::new();
        let mut i: usize = 0;
        while i < n
            invariant
                n == self.balances@.len(),
                i <= n,
                self.well_formed(),
                none_overdrawn(self.balances@),
                !calculate ==> parts_add_up(self.balances@),
                kept@ == kept_balances(self.balances@, calculate).subrange(0, i as int),
            decreases n - i,
        {
            let b = &self.balances[i];
            assert(self.balances@[i as int].well_formed());
            if calculate {
                assert(b.total.raw >= b.locked.raw);
                let free = Money { raw: b.total.raw - b.locked.raw, currency: b.free.currency.clone() };
                kept.push(AccountBalance { total: b.total.clone(), locked: b.locked.clone(), free });
            } else {
                kept.push(b.clone());
            }
            i = i + 1;
        }
        let ghost k = kept_balances(self.balances@, calculate);
        assert(kept@ =~= k);
        assert forall|a: int, c: int| 0 <= a < c < k.len() implies #[trigger] k[a].currency()
            != #[trigger] k[c].currency() by {
            assert(self.balances@[a].currency() != self.balances@[c].currency());
        }
        assert forall|a: int| 0 <= a < k.len() implies #[trigger] k[a].consistent() by {
            assert(self.balances@[a].well_formed());
            assert(self.balances@[a].total.raw >= self.balances@[a].locked.raw);
        }
        assert forall|a: int| 0 <= a < k.len() implies #[trigger] k[a].well_formed() by {
            assert(k[a].consistent());
        }
        let r = AccountState {
            account_id: self.account_id.clone(),
            account_type: self.account_type,
            base_currency: match &self.base_currency {
                Some(c) => Some(c.clone()),
                None => None,
            },
            balances: kept,
            margins: copy_margins(&self.margins),
            is_reported: self.is_reported,
            ts_event: self.ts_event,
        };
        assert(r.balances@ == k);
        assert(r.well_formed());
        assert(r.consistent());
        assert(rejection(*self, calculate).is_none());
        Ok(r)
    }
}

/// `b` with `amount` taken from its total and its free part.
pub open spec fn debit_entry(b: AccountBalance, amount: int) -> AccountBalance {
    AccountBalance {
        total: Money { raw: (b.total.raw - amount) as i64, currency: b.total.currency },
        locked: b.locked,
        free: Money { raw: (b.free.raw - amount) as i64, currency: b.free.currency },
    }
}

/// A new balance in `m`'s currency holding minus `m`: what a debit of `m`
/// leaves where nothing was held.
pub open spec fn opening_entry(m: Money) -> AccountBalance {
    AccountBalance {
        total: Money { raw: (-m.raw) as i64, currency: m.currency },
        locked: Money { raw: 0, currency: m.currency },
        free: Money { raw: (-m.raw) as i64, currency: m.currency },
    }
}

/// The balances after debiting `m` from `b`: the first balance in `m`'s
/// currency loses `m` from total and free, or, where there is none, a balance
/// of minus `m` is added. `None` when an amount would not fit.
pub open spec fn debited_balances(b: Seq<AccountBalance>, m: Money) -> Option<Seq<AccountBalance>> {
    if exists|i: int| 0 <= i < b.len() && #[trigger] b[i].currency() == m.currency@ {
        let i = choose|i: int|
            0 <= i < b.len() && #[trigger] b[i].currency() == m.currency@ && forall|j: int|
                0 <= j < i ==> #[trigger] b[j].currency() != m.currency@;
        if fits_i64(b[i].total.raw - m.raw) && fits_i64(b[i].free.raw - m.raw) {
            Some(b.update(i, debit_entry(b[i], m.raw as int)))
        } else {
            None
        }
    } else {
        Some(b.push(opening_entry(m)))
    }
}

impl AccountState {
    /// This snapshot with `amount` debited from its balances (see
    /// `debited_balances`), the rest unchanged. Fails with `Overflow` when an
    /// amount would not fit.
    pub fn with_debit(&self, amount: &Money) -> (r: Result<AccountState, AccountError>)
        requires
            amount.wf(),
        ensures
            match debited_balances(self.balances@, *amount) {
                None => r == Err::<AccountState, AccountError>(AccountError::Overflow),
                Some(nb) => r.is_ok() && r.unwrap().balances@ == nb && r.unwrap().account_id
                    == self.account_id && r.unwrap().account_type == self.account_type
                    && r.unwrap().base_currency == self.base_currency && r.unwrap().margins@
                    == self.margins@ && r.unwrap().is_reported == self.is_reported
                    && r.unwrap().ts_event == self.ts_event,
            },
    {
        let mut balances = copy_balances(&self.balances);
        let ghost b = self.balances@;
        match self.position_of(&amount.currency) {
            Some(i) => {
                proof {
                    let k = choose|k: int|
                        0 <= k < b.len() && #[trigger] b[k].currency() == amount.currency@
                            && forall|j: int| 0 <= j < k ==> #[trigger] b[j].currency() != amount.currency@;
                    if k < i {
                        assert(b[k].currency() != amount.currency@);
                    } else if k > i {
                        assert(b[i as int].currency() != amount.currency@);
                    }
                    assert(k == i);
                }
                let old_b = &self.balances[i];
                let total: i128 = old_b.total.raw as i128 - amount.raw as i128;
                let free: i128 = old_b.free.raw as i128 - amount.raw as i128;
                if total > i64::MAX as i128 || total < -(i64::MAX as i128) || free > i64::MAX as i128
                    || free < -(i64::MAX as i128) {
                    return Err(AccountError::Overflow);
                }
                let nb = AccountBalance {
                    total: Money { raw: total as i64, currency: old_b.total.currency.clone() },
                    locked: old_b.locked.clone(),
                    free: Money { raw: free as i64, currency: old_b.free.currency.clone() },
                };
                balances.set(i, nb);
            },
            None => {
                let fresh = AccountBalance {
                    total: Money { raw: -amount.raw, currency: amount.currency.clone() },
                    locked: Money { raw: 0, currency: amount.currency.clone() },
                    free: Money { raw: -amount.raw, currency: amount.currency.clone() },
                };
                balances.push(fresh);
            },
        }
        Ok(AccountState {
            account_id: self.account_id.clone(),
            account_type: self.account_type,
            base_currency: match &self.base_currency {
                Some(c) => Some(c.clone()),
                None => None,
            },
            balances,
            margins: copy_margins(&self.margins),
            is_reported: self.is_reported,
            ts_event: self.ts_event,
        })
    }
}

/// A consistent snapshot is taken on by an account as it is, whether or
/// not free balances are derived.
pub proof fn lemma_consistent_accepted(s: AccountState, calculate: bool)
    requires
        s.consistent(),
    ensures
        rejection(s, calculate).is_none(),
{
    assert forall|i: int| 0 <= i < s.balances@.len() implies (#[trigger] s.balances@[i]).total.raw
        >= s.balances@[i].locked.raw && s.balances@[i].total.raw == s.balances@[i].locked.raw
        + s.balances@[i].free.raw by {
        assert(s.balances@[i].consistent());
    }
}

/// In a consistent snapshot no balance has more free than in total.
pub proof fn lemma_free_within_total(s: AccountState)
    requires
        s.consistent(),
    ensures
        forall|i: int|
            0 <= i < s.balances@.len() ==> (#[trigger] s.balances@[i]).free.raw <= s.balances@[i].total.raw,
{
    assert forall|i: int| 0 <= i < s.balances@.len() implies (#[trigger] s.balances@[i]).free.raw
        <= s.balances@[i].total.raw by {
        assert(s.balances@[i].consistent());
    }
}

/// Reading back the balance in the currency of the `i`-th of a snapshot's
/// balances, with no currency twice, finds that very balance.
pub proof fn lemma_balance_round_trip(b: Seq<AccountBalance>, i: usize)
    requires
        currencies_unique(b),
        i < b.len(),
    ensures
        is_first_match(b, b[i as int].currency(), Some(i)),
{
    assert forall|j: int| 0 <= j < i implies #[trigger] b[j].currency() != b[i as int].currency() by {
        assert(b[j].currency() != b[i as int].currency());
    }
}

/// An account stores consistent balances exactly as given, whether or not it
/// derives free balances: deriving free as total less locked changes none.
pub proof fn lemma_kept_when_consistent(b: Seq<AccountBalance>, calculate: bool)
    requires
        forall|i: int| 0 <= i < b.len() ==> #[trigger] b[i].consistent(),
    ensures
        kept_balances(b, calculate) == b,
{
    if calculate {
        let k = kept_balances(b, calculate);
        assert forall|i: int| 0 <= i < b.len() implies #[trigger] k[i] == b[i] by {
            assert(b[i].consistent());
            assert(k[i].free == b[i].free);
        }
        assert(k =~= b);
    }
}

} // verus!
