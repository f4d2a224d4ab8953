use vstd::prelude::*;
use crate::currency::{Currency, MAX_PRECISION};

verus! {

/// A trade size: `raw / 10^precision` units, never negative.
#[derive(Debug, Clone, Copy, PartialEq, Eq, Structural)]
pub struct Quantity {
    pub raw: u64,
    pub precision: u8,
}

/// A trade price: `raw / 10^precision`, always positive.
#[derive(Debug, Clone, Copy, PartialEq, Eq, Structural)]
pub struct Price {
    pub raw: i64,
    pub precision: u8,
}

/// A commission rate: `raw / 10^precision`. For a percentage schedule it is
/// the fraction of notional charged (0.001 is 0.10%); for a fixed schedule it
/// is the amount charged per unit of quantity.
#[derive(Debug, Clone, Copy, PartialEq, Eq, Structural)]
pub struct FeeRate {
    pub raw: i64,
    pub precision: u8,
}

/// How an instrument's rates apply to a fill.
#[derive(Debug, Clone, Copy, PartialEq, Eq, Structural)]
pub enum FeeKind {
    /// The rate is a fraction of notional, quantity times price.
    Percentage,
    /// The rate is an amount per unit of quantity.
    FixedPerUnit,
}

/// The role of a fill: it added resting liquidity, or took it.
#[derive(Debug, Clone, Copy, PartialEq, Eq, Structural)]
pub enum LiquiditySide {
    Maker,
    Taker,
}

impl Quantity {
    pub open spec fn wf(&self) -> bool {
        self.precision <= MAX_PRECISION
    }

    pub fn new(raw: u64, precision: u8) -> (r: Option<Quantity>)
        ensures
            r.is_some() <==> precision <= MAX_PRECISION,
            r.is_some() ==> r == Some(Quantity { raw, precision }),
    {
        if precision <= MAX_PRECISION {
            Some(Quantity { raw, precision })
        } else {
            None
        }
    }
}

impl Price {
    pub open spec fn wf(&self) -> bool {
        self.raw > 0 && self.precision <= MAX_PRECISION
    }

    pub fn new(raw: i64, precision: u8) -> (r: Option<Price>)
        ensures
            r.is_some() <==> raw > 0 && precision <= MAX_PRECISION,
            r.is_some() ==> r == Some(Price { raw, precision }),
    {
        if raw > 0 && precision <= MAX_PRECISION {
            Some(Price { raw, precision })
        } else {
            None
        }
    }
}

impl FeeRate {
    pub open spec fn wf(&self) -> bool {
        self.precision <= MAX_PRECISION
    }

    pub fn new(raw: i64, precision: u8) -> (r: Option<FeeRate>)
        ensures
            r.is_some() <==> precision <= MAX_PRECISION,
            r.is_some() ==> r == Some(FeeRate { raw, precision }),
    {
        if precision <= MAX_PRECISION {
            Some(FeeRate { raw, precision })
        } else {
            None
        }
    }
}

/// The fee schedule of a tradable contract, as reference data supplies it.
#[derive(Debug, PartialEq, Eq)]
pub struct Instrument {
    pub id: String,
    pub fee_kind: FeeKind,
    pub maker_fee: Option<FeeRate>,
    pub taker_fee: Option<FeeRate>,
    /// The currency commission is charged in.
    pub commission_currency: Currency,
    /// Whether a negative rate, a rebate to the account, is allowed.
    pub allows_rebate: bool,
}

impl Instrument {
    pub open spec fn wf(&self) -> bool {
        &&& self.commission_currency.wf()
        &&& (self.maker_fee.is_some() ==> self.maker_fee.unwrap().wf())
        &&& (self.taker_fee.is_some() ==> self.taker_fee.unwrap().wf())
    }

    /// The rate that applies to a fill on `side`.
    pub open spec fn rate_for(&self, side: LiquiditySide) -> Option<FeeRate> {
        match side {
            LiquiditySide::Taker => self.taker_fee,
            LiquiditySide::Maker => self.maker_fee,
        }
    }

    /// The rate that applies to a fill on `side`, if the schedule has one.
    pub fn fee_for(&self, side: LiquiditySide) -> (r: Option<FeeRate>)
        ensures
            r == self.rate_for(side),
    {
        match side {
            LiquiditySide::Taker => self.taker_fee,
            LiquiditySide::Maker => self.maker_fee,
        }
    }
}

impl Clone for Instrument {
    fn clone(&self) -> (r: Instrument)
        ensures
            r == *self,
    {
        Instrument {
            id: self.id.clone(),
            fee_kind: self.fee_kind,
            maker_fee: self.maker_fee,
            taker_fee: self.taker_fee,
            commission_currency: self.commission_currency.clone(),
            allows_rebate: self.allows_rebate,
        }
    }
}

} // verus!
