use vstd::prelude::*;
use crate::error::AccountError;
use crate::fixed::{fits_i64, lemma_pow10_positive, pow10, rescale, rescale_to_i64, signed};
use crate::instrument::{FeeKind, FeeRate, Instrument, LiquiditySide, Price, Quantity};
use crate::money::Money;

verus! {

/// The exact commission before scaling, as an integer: quantity times price
/// times rate for a percentage schedule, quantity times rate for a fixed one.
pub open spec fn fee_numerator(kind: FeeKind, q: Quantity, p: Price, rate: FeeRate) -> int {
    match kind {
        FeeKind::Percentage => q.raw * p.raw * rate.raw,
        FeeKind::FixedPerUnit => q.raw * rate.raw,
    }
}

/// The number of decimal places of `fee_numerator`.
pub open spec fn fee_exponent(kind: FeeKind, q: Quantity, p: Price, rate: FeeRate) -> int {
    match kind {
        FeeKind::Percentage => q.precision + p.precision + rate.precision,
        FeeKind::FixedPerUnit => q.precision + rate.precision,
    }
}

/// The commission in the smallest unit of a currency of precision `cp`,
/// rounded half to even.
pub open spec fn fee_amount(kind: FeeKind, q: Quantity, p: Price, rate: FeeRate, cp: u8) -> int {
    rescale(fee_numerator(kind, q, p, rate), cp - fee_exponent(kind, q, p, rate))
}

/// Whether the exact numerator fits in 128 bits of magnitude.
pub open spec fn numerator_fits(n: int) -> bool {
    -(u128::MAX as int) <= n <= u128::MAX as int
}

/// What the schedule charges for a fill, as a raw amount in the instrument's
/// commission currency, or why it cannot be charged.
pub open spec fn commission_outcome(
    instrument: Instrument,
    q: Quantity,
    p: Price,
    side: LiquiditySide,
) -> Result<int, AccountError> {
    match instrument.rate_for(side) {
        None => Err(AccountError::MissingFeeSchedule),
        Some(rate) => {
            let n = fee_numerator(instrument.fee_kind, q, p, rate);
            let a = fee_amount(
                instrument.fee_kind,
                q,
                p,
                rate,
                instrument.commission_currency.precision,
            );
            if rate.raw < 0 && !instrument.allows_rebate {
                Err(AccountError::InvalidFeeSchedule)
            } else if !numerator_fits(n) || !fits_i64(a) {
                Err(AccountError::Overflow)
            } else {
                Ok(a)
            }
        },
    }
}

/// The commission owed for a fill: `over` verbatim when given, otherwise
/// what the instrument's schedule charges.
pub open spec fn commission_result(
    instrument: Instrument,
    q: Quantity,
    p: Price,
    side: LiquiditySide,
    over: Option<Money>,
    r: Result<Money, AccountError>,
) -> bool {
    match over {
        Some(m) => r == Ok::<Money, AccountError>(m),
        None => match commission_outcome(instrument, q, p, side) {
            Ok(a) => r.is_ok() && r.unwrap().raw == a && r.unwrap().currency
                == instrument.commission_currency,
            Err(e) => r == Err::<Money, AccountError>(e),
        },
    }
}

/// Derives the commission for a fill of `quantity` at `price` on `side`.
/// A venue-reported `over` is returned unchanged; otherwise the side's rate
/// is applied to notional (percentage) or to quantity (fixed per unit) and
/// the result rounded half to even to the commission currency's precision.
pub fn compute_commission(
    instrument: &Instrument,
    quantity: Quantity,
    price: Price,
    side: LiquiditySide,
    over: Option<Money>,
) -> (r: Result<Money, AccountError>)
    requires
        instrument.wf(),
        quantity.wf(),
        price.wf(),
    ensures
        commission_result(*instrument, quantity, price, side, over, r),
{
    if let Some(m) = over {
        return Ok(m);
    }
    let rate = match instrument.fee_for(side) {
        Some(rate) => rate,
        None => {
            return Err(AccountError::MissingFeeSchedule);
        },
    };
    if rate.raw < 0 && !instrument.allows_rebate {
        return Err(AccountError::InvalidFeeSchedule);
    }
    let negative = rate.raw < 0;
    let rate_mag: u128 = if negative {
        (-(rate.raw as i128)) as u128
    } else {
        rate.raw as u128
    };
    let q = quantity.raw as u128;
    let base: u128;
    let exponent: i32;
    match instrument.fee_kind {
        FeeKind::Percentage => {
            assert(q * (price.raw as u128) < 0x1_0000_0000_0000_0000u128 * 0x8000_0000_0000_0000u128)
                by (nonlinear_arith)
                requires q < 0x1_0000_0000_0000_0000u128, 0 < price.raw < 0x8000_0000_0000_0000u128;
            base = q * (price.raw as u128);
            exponent = quantity.precision as i32 + price.precision as i32 + rate.precision as i32;
        },
        FeeKind::FixedPerUnit => {
            base = q;
            exponent = quantity.precision as i32 + rate.precision as i32;
        },
    }
    let ghost n = fee_numerator(instrument.fee_kind, quantity, price, rate);
    proof {
        assert(signed((base * rate_mag) as nat, negative) == n) by (nonlinear_arith)
            requires
                rate_mag == (if negative { -rate.raw } else { rate.raw as int }),
                negative == (rate.raw < 0),
                n == base * rate.raw,
                base >= 0,
                rate_mag >= 0;
    }
    let mag = match base.checked_mul(rate_mag) {
        Some(m) => m,
        None => {
            return Err(AccountError::Overflow);
        },
    };
    let shift: i32 = instrument.commission_currency.precision as i32 - exponent;
    match rescale_to_i64(mag, negative, shift) {
        Some(raw) => Ok(Money::from_raw(raw, instrument.commission_currency.clone())),
        None => Err(AccountError::Overflow),
    }
}

/// The commission is a function of its inputs: any two results that the
/// contract of `compute_commission` admits for the same inputs are equal.
pub proof fn lemma_commission_deterministic(
    instrument: Instrument,
    q: Quantity,
    p: Price,
    side: LiquiditySide,
    over: Option<Money>,
    r1: Result<Money, AccountError>,
    r2: Result<Money, AccountError>,
)
    requires
        commission_result(instrument, q, p, side, over, r1),
        commission_result(instrument, q, p, side, over, r2),
    ensures
        r1 == r2,
{
    if over.is_none() {
        if let Ok(a) = commission_outcome(instrument, q, p, side) {
            assert(r1.unwrap() == r2.unwrap());
        }
    }
}

/// A supplied override is the result, whatever the fee schedule holds.
pub proof fn lemma_override_verbatim(
    instrument: Instrument,
    q: Quantity,
    p: Price,
    side: LiquiditySide,
    m: Money,
    r: Result<Money, AccountError>,
)
    requires
        commission_result(instrument, q, p, side, Some(m), r),
    ensures
        r == Ok::<Money, AccountError>(m),
{
}

/// On a percentage schedule the commission grows linearly with quantity:
/// `k` times the quantity at the same precision costs `k` times as much, as
/// long as the currency's precision can hold the exact product, so that no
/// rounding takes place.
pub proof fn lemma_linear_in_quantity(q: Quantity, q_scaled: Quantity, p: Price, rate: FeeRate, cp: u8, k: nat)
    requires
        q_scaled.raw == k * q.raw,
        q_scaled.precision == q.precision,
        cp >= q.precision + p.precision + rate.precision,
    ensures
        fee_amount(FeeKind::Percentage, q_scaled, p, rate, cp) == k * fee_amount(
            FeeKind::Percentage,
            q,
            p,
            rate,
            cp,
        ),
{
    let s = (cp - fee_exponent(FeeKind::Percentage, q, p, rate)) as nat;
    let f = pow10(s);
    assert(fee_numerator(FeeKind::Percentage, q_scaled, p, rate) * f == k * (fee_numerator(
        FeeKind::Percentage,
        q,
        p,
        rate,
    ) * f)) by (nonlinear_arith)
        requires
            q_scaled.raw == k * q.raw,
            fee_numerator(FeeKind::Percentage, q_scaled, p, rate) == q_scaled.raw * p.raw * rate.raw,
            fee_numerator(FeeKind::Percentage, q, p, rate) == q.raw * p.raw * rate.raw,
    ;
}

/// On a percentage schedule the commission grows linearly with price: `k`
/// times the price at the same precision costs `k` times as much, as long as
/// the currency's precision can hold the exact product, so that no rounding
/// takes place.
pub proof fn lemma_linear_in_price(q: Quantity, p: Price, p_scaled: Price, rate: FeeRate, cp: u8, k: nat)
    requires
        p_scaled.raw == k * p.raw,
        p_scaled.precision == p.precision,
        cp >= q.precision + p.precision + rate.precision,
    ensures
        fee_amount(FeeKind::Percentage, q, p_scaled, rate, cp) == k * fee_amount(
            FeeKind::Percentage,
            q,
            p,
            rate,
            cp,
        ),
{
    let s = (cp - fee_exponent(FeeKind::Percentage, q, p, rate)) as nat;
    let f = pow10(s);
    assert(fee_numerator(FeeKind::Percentage, q, p_scaled, rate) * f == k * (fee_numerator(
        FeeKind::Percentage,
        q,
        p,
        rate,
    ) * f)) by (nonlinear_arith)
        requires
            p_scaled.raw == k * p.raw,
            fee_numerator(FeeKind::Percentage, q, p_scaled, rate) == q.raw * p_scaled.raw * rate.raw,
            fee_numerator(FeeKind::Percentage, q, p, rate) == q.raw * p.raw * rate.raw,
    ;
}

/// Without the rebate flag, a commission derived from the schedule is never
/// negative.
pub proof fn lemma_non_negative_without_rebate(
    instrument: Instrument,
    q: Quantity,
    p: Price,
    side: LiquiditySide,
    r: Result<Money, AccountError>,
)
    requires
        !instrument.allows_rebate,
        q.wf(),
        p.wf(),
        commission_result(instrument, q, p, side, None, r),
        r.is_ok(),
    ensures
        r.unwrap().raw >= 0,
{
    let rate = instrument.rate_for(side).unwrap();
    let n = fee_numerator(instrument.fee_kind, q, p, rate);
    let shift = instrument.commission_currency.precision - fee_exponent(instrument.fee_kind, q, p, rate);
    assert(rate.raw >= 0);
    assert(n >= 0) by (nonlinear_arith)
        requires
            rate.raw >= 0,
            p.raw > 0,
            n == q.raw * p.raw * rate.raw || n == q.raw * rate.raw,
    ;
    if shift >= 0 {
        lemma_pow10_positive(shift as nat);
        assert(n * pow10(shift as nat) >= 0) by (nonlinear_arith)
            requires
                n >= 0,
                pow10(shift as nat) >= 1,
        ;
    } else {
        let d = pow10((-shift) as nat);
        lemma_pow10_positive((-shift) as nat);
        assert(n / d as int >= 0) by (nonlinear_arith)
            requires
                n >= 0,
                d >= 1,
        ;
    }
}

} // verus!
