use vstd::prelude::*;

verus! {

/// Every way an account or commission operation can fail.
#[derive(Debug, Clone, Copy, PartialEq, Eq, Structural)]
pub enum AccountError {
    /// A currency code is not in the registry.
    UnknownCurrency,
    /// Two amounts of different currencies were combined.
    CurrencyMismatch,
    /// The instrument defines no rate for the requested side or currency.
    MissingFeeSchedule,
    /// The instrument's rate is negative and rebates are not allowed.
    InvalidFeeSchedule,
    /// The state's account type does not match the account variant.
    InvalidInitialState,
    /// A balance would have less in total than is locked.
    NegativeFreeBalance,
    /// A margin reservation exceeds the free balance.
    InsufficientMargin,
    /// A balance's parts disagree, or a currency appears twice.
    InconsistentBalance,
    /// An amount does not fit the fixed-point representation.
    Overflow,
}

} // verus!
