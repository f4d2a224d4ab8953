use vstd::prelude::*;
use crate::currency::{Currency, MAX_PRECISION};
use crate::error::AccountError;
use crate::fixed::{fits_i64, rescale, rescale_to_i64, signed};

verus! {

/// An amount bound to a currency: `raw` counts the currency's smallest unit,
/// so the amount is `raw / 10^precision`.
#[derive(Debug, PartialEq, Eq)]
pub struct Money {
    pub raw: i64,
    pub currency: Currency,
}

impl Money {
    pub open spec fn wf(&self) -> bool {
        self.currency.wf() && fits_i64(self.raw as int)
    }

    /// The amount `raw / 10^precision`, exactly as given.
    pub fn from_raw(raw: i64, currency: Currency) -> (r: Money)
        ensures
            r.raw == raw,
            r.currency == currency,
    {
        Money { raw, currency }
    }

    /// The decimal `mantissa / 10^scale`, rounded half to even to the
    /// currency's precision. Fails with `Overflow` when it does not fit.
    pub fn from_decimal(mantissa: i64, scale: u8, currency: Currency) -> (r: Result<
        Money,
        AccountError,
    >)
        requires
            scale <= MAX_PRECISION,
            currency.wf(),
        ensures
            r.is_ok() <==> fits_i64(
                rescale(mantissa as int, currency.precision - scale),
            ),
            r.is_ok() ==> r.unwrap().raw == rescale(mantissa as int, currency.precision - scale)
                && r.unwrap().currency == currency,
            r.is_err() ==> r == Err::<Money, AccountError>(AccountError::Overflow),
    {
        let negative = mantissa < 0;
        let mag: u128 = if negative {
            (-(mantissa as i128)) as u128
        } else {
            mantissa as u128
        };
        assert(signed(mag as nat, negative) == mantissa as int);
        let shift: i32 = currency.precision as i32 - scale as i32;
        match rescale_to_i64(mag, negative, shift) {
            Some(raw) => Ok(Money { raw, currency }),
            None => Err(AccountError::Overflow),
        }
    }

    /// A zero amount in `currency`.
    pub fn zero(currency: Currency) -> (r: Money)
        ensures
            r.raw == 0,
            r.currency == currency,
    {
        Money { raw: 0, currency }
    }

    /// The sum of two amounts of the same currency.
    pub fn checked_add(&self, other: &Money) -> (r: Result<Money, AccountError>)
        ensures
            self.currency@ != other.currency@ ==> r == Err::<Money, AccountError>(
                AccountError::CurrencyMismatch,
            ),
            self.currency@ == other.currency@ && !fits_i64(self.raw + other.raw) ==> r == Err::<
                Money,
                AccountError,
            >(AccountError::Overflow),
            self.currency@ == other.currency@ && fits_i64(self.raw + other.raw) ==> r.is_ok()
                && r.unwrap().raw == self.raw + other.raw && r.unwrap().currency
                == self.currency,
    {
        if !self.currency.same_as(&other.currency) {
            return Err(AccountError::CurrencyMismatch);
        }
        let sum: i128 = self.raw as i128 + other.raw as i128;
        if sum > i64::MAX as i128 || sum < -(i64::MAX as i128) {
            Err(AccountError::Overflow)
        } else {
            Ok(Money { raw: sum as i64, currency: self.currency.clone() })
        }
    }

    /// The difference of two amounts of the same currency.
    pub fn checked_sub(&self, other: &Money) -> (r: Result<Money, AccountError>)
        ensures
            self.currency@ != other.currency@ ==> r == Err::<Money, AccountError>(
                AccountError::CurrencyMismatch,
            ),
            self.currency@ == other.currency@ && !fits_i64(self.raw - other.raw) ==> r == Err::<
                Money,
                AccountError,
            >(AccountError::Overflow),
            self.currency@ == other.currency@ && fits_i64(self.raw - other.raw) ==> r.is_ok()
                && r.unwrap().raw == self.raw - other.raw && r.unwrap().currency
                == self.currency,
    {
        if !self.currency.same_as(&other.currency) {
            return Err(AccountError::CurrencyMismatch);
        }
        let diff: i128 = self.raw as i128 - other.raw as i128;
        if diff > i64::MAX as i128 || diff < -(i64::MAX as i128) {
            Err(AccountError::Overflow)
        } else {
            Ok(Money { raw: diff as i64, currency: self.currency.clone() })
        }
    }

    /// The amount multiplied by `factor`, in the same currency. Fails with
    /// `Overflow` when the product does not fit.
    pub fn checked_scale(&self, factor: i64) -> (r: Result<Money, AccountError>)
        ensures
            !fits_i64(self.raw * factor) ==> r == Err::<Money, AccountError>(AccountError::Overflow),
            fits_i64(self.raw * factor) ==> r.is_ok() && r.unwrap().raw == self.raw * factor
                && r.unwrap().currency == self.currency,
    {
        let a = self.raw as i128;
        let b = factor as i128;
        assert(-0x8000_0000_0000_0000_0000_0000_0000_0000 < a * b < 0x8000_0000_0000_0000_0000_0000_0000_0000) by (nonlinear_arith)
            requires
                -0x8000_0000_0000_0000 <= a < 0x8000_0000_0000_0000,
                -0x8000_0000_0000_0000 <= b < 0x8000_0000_0000_0000,
        ;
        let p: i128 = a * b;
        if p > i64::MAX as i128 || p < -(i64::MAX as i128) {
            Err(AccountError::Overflow)
        } else {
            Ok(Money { raw: p as i64, currency: self.currency.clone() })
        }
    }

    /// Whether this amount is less than `other`, of the same currency. Fails
    /// with `CurrencyMismatch` when the currencies differ.
    pub fn is_less_than(&self, other: &Money) -> (r: Result<bool, AccountError>)
        ensures
            self.currency@ != other.currency@ ==> r == Err::<bool, AccountError>(
                AccountError::CurrencyMismatch,
            ),
            self.currency@ == other.currency@ ==> r == Ok::<bool, AccountError>(self.raw < other.raw),
    {
        if !self.currency.same_as(&other.currency) {
            return Err(AccountError::CurrencyMismatch);
        }
        Ok(self.raw < other.raw)
    }

    /// Whether two amounts are equal in amount and currency.
    pub fn same_as(&self, other: &Money) -> (r: bool)
        ensures
            r == (self.raw == other.raw && self.currency@ == other.currency@),
    {
        self.raw == other.raw && self.currency.same_as(&other.currency)
    }
}

impl Clone for Money {
    fn clone(&self) -> (r: Money)
        ensures
            r == *self,
    {
        Money { raw: self.raw, currency: self.currency.clone() }
    }
}

} // verus!
