use nautilus_accounts::cash::CashAccount;
use nautilus_accounts::commission::compute_commission;
use nautilus_accounts::currency::Currency;
use nautilus_accounts::error::AccountError;
use nautilus_accounts::fixed::{div_round_half_even, pow10_u128, rescale_to_i64};
use nautilus_accounts::instrument::{FeeKind, FeeRate, Instrument, LiquiditySide, Price, Quantity};
use nautilus_accounts::money::Money;
use nautilus_accounts::stubs::{calculate_commission, cash_account_state_million_usd};

fn usd(raw: i64) -> Money {
    Money::from_raw(raw, Currency::usd())
}

/// Taker 0.10%, maker 0.02%, charged in USD.
fn equity() -> Instrument {
    Instrument {
        id: "AAPL.XNAS".to_string(),
        fee_kind: FeeKind::Percentage,
        maker_fee: Some(FeeRate { raw: 2, precision: 4 }),
        taker_fee: Some(FeeRate { raw: 1, precision: 3 }),
        commission_currency: Currency::usd(),
        allows_rebate: false,
    }
}

fn qty(raw: u64) -> Quantity {
    Quantity::new(raw, 0).unwrap()
}

fn px(raw: i64) -> Price {
    Price::new(raw, 2).unwrap()
}

#[test]
fn taker_commission_on_notional() {
    let r = compute_commission(&equity(), qty(100), px(5000), LiquiditySide::Taker, None);
    assert_eq!(r, Ok(usd(500)));
}

#[test]
fn maker_commission_on_notional() {
    let r = compute_commission(&equity(), qty(100), px(5000), LiquiditySide::Maker, None);
    assert_eq!(r, Ok(usd(100)));
}

#[test]
fn override_is_returned_verbatim() {
    let over = usd(725);
    let r = compute_commission(&equity(), qty(100), px(5000), LiquiditySide::Taker, Some(over.clone()));
    assert_eq!(r, Ok(over.clone()));
    let mut bare = equity();
    bare.taker_fee = None;
    bare.maker_fee = None;
    let r = compute_commission(&bare, qty(100), px(5000), LiquiditySide::Maker, Some(over.clone()));
    assert_eq!(r, Ok(over));
}

#[test]
fn missing_usdt_rate_is_refused() {
    let r = calculate_commission(&equity(), qty(100), px(5000), Some(Currency::usdt()));
    assert_eq!(r, Err(AccountError::MissingFeeSchedule));
}

#[test]
fn convenience_commission_is_taker() {
    assert_eq!(calculate_commission(&equity(), qty(100), px(5000), None), Ok(usd(500)));
    assert_eq!(
        calculate_commission(&equity(), qty(100), px(5000), Some(Currency::usd())),
        Ok(usd(500))
    );
    let mut tether = equity();
    tether.commission_currency = Currency::usdt();
    let r = calculate_commission(&tether, qty(100), px(5000), Some(Currency::usdt()));
    assert_eq!(r, Ok(Money::from_raw(500_000_000, Currency::usdt())));
}

#[test]
fn missing_side_rate_is_refused() {
    let mut inst = equity();
    inst.maker_fee = None;
    let r = compute_commission(&inst, qty(100), px(5000), LiquiditySide::Maker, None);
    assert_eq!(r, Err(AccountError::MissingFeeSchedule));
}

#[test]
fn commission_is_deterministic() {
    let a = compute_commission(&equity(), qty(37), px(12345), LiquiditySide::Taker, None);
    let b = compute_commission(&equity(), qty(37), px(12345), LiquiditySide::Taker, None);
    assert_eq!(a, b);
    // 37 * 123.45 * 0.001 = 4.56765 -> 4.57
    assert_eq!(a, Ok(usd(457)));
}

#[test]
fn commission_scales_with_quantity_and_price() {
    let inst = equity();
    let base = compute_commission(&inst, qty(100), px(5000), LiquiditySide::Taker, None).unwrap();
    let triple_q = compute_commission(&inst, qty(300), px(5000), LiquiditySide::Taker, None).unwrap();
    let double_p = compute_commission(&inst, qty(100), px(10000), LiquiditySide::Taker, None).unwrap();
    assert_eq!(triple_q.raw, 3 * base.raw);
    assert_eq!(double_p.raw, 2 * base.raw);
}

#[test]
fn commission_is_non_negative_without_rebate() {
    let mut inst = equity();
    inst.taker_fee = Some(FeeRate { raw: 0, precision: 0 });
    let r = compute_commission(&inst, qty(100), px(5000), LiquiditySide::Taker, None);
    assert_eq!(r, Ok(usd(0)));
    let r = compute_commission(&equity(), qty(0), px(5000), LiquiditySide::Taker, None);
    assert_eq!(r, Ok(usd(0)));
}

#[test]
fn negative_rate_without_rebate_is_invalid() {
    let mut inst = equity();
    inst.maker_fee = Some(FeeRate { raw: -1, precision: 4 });
    let r = compute_commission(&inst, qty(100), px(5000), LiquiditySide::Maker, None);
    assert_eq!(r, Err(AccountError::InvalidFeeSchedule));
}

#[test]
fn negative_rate_with_rebate_is_a_credit() {
    let mut inst = equity();
    inst.maker_fee = Some(FeeRate { raw: -1, precision: 4 });
    inst.allows_rebate = true;
    // 100 * 50.00 * -0.0001 = -0.50
    let r = compute_commission(&inst, qty(100), px(5000), LiquiditySide::Maker, None);
    assert_eq!(r, Ok(usd(-50)));
}

#[test]
fn fixed_per_unit_ignores_price() {
    let mut inst = equity();
    inst.fee_kind = FeeKind::FixedPerUnit;
    inst.taker_fee = Some(FeeRate { raw: 5, precision: 3 });
    // 100 * 0.005 = 0.50
    let a = compute_commission(&inst, qty(100), px(5000), LiquiditySide::Taker, None);
    let b = compute_commission(&inst, qty(100), px(99999), LiquiditySide::Taker, None);
    assert_eq!(a, Ok(usd(50)));
    assert_eq!(b, Ok(usd(50)));
}

#[test]
fn rounding_is_half_to_even() {
    let mut inst = equity();
    inst.fee_kind = FeeKind::FixedPerUnit;
    inst.taker_fee = Some(FeeRate { raw: 5, precision: 3 });
    // 1 * 0.005 = 0.005 -> 0.00; 3 * 0.005 = 0.015 -> 0.02
    assert_eq!(compute_commission(&inst, qty(1), px(100), LiquiditySide::Taker, None), Ok(usd(0)));
    assert_eq!(compute_commission(&inst, qty(3), px(100), LiquiditySide::Taker, None), Ok(usd(2)));
    inst.allows_rebate = true;
    inst.taker_fee = Some(FeeRate { raw: -5, precision: 3 });
    assert_eq!(compute_commission(&inst, qty(3), px(100), LiquiditySide::Taker, None), Ok(usd(-2)));
}

#[test]
fn commission_overflow_is_reported() {
    let mut inst = equity();
    inst.taker_fee = Some(FeeRate { raw: i64::MAX, precision: 0 });
    let q = Quantity::new(u64::MAX, 0).unwrap();
    let p = Price::new(i64::MAX, 0).unwrap();
    let r = compute_commission(&inst, q, p, LiquiditySide::Taker, None);
    assert_eq!(r, Err(AccountError::Overflow));
}

#[test]
fn account_computes_commission() {
    let state = cash_account_state_million_usd(usd(100_000_000), usd(0), usd(100_000_000));
    let account = CashAccount::new(state, true).unwrap();
    let r = account.calculate_commission(&equity(), qty(100), px(5000), LiquiditySide::Taker, None);
    assert_eq!(r, Ok(usd(500)));
}

#[test]
fn fixed_point_helpers() {
    assert_eq!(pow10_u128(0), 1);
    assert_eq!(pow10_u128(3), 1000);
    assert_eq!(div_round_half_even(25, 10), 2);
    assert_eq!(div_round_half_even(35, 10), 4);
    assert_eq!(div_round_half_even(36, 10), 4);
    assert_eq!(div_round_half_even(34, 10), 3);
    assert_eq!(rescale_to_i64(123, true, 2), Some(-12300));
    assert_eq!(rescale_to_i64(125, false, -1), Some(12));
    assert_eq!(rescale_to_i64(u128::MAX, false, 0), None);
}
