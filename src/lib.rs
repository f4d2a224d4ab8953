//! Trading-account ledger and commission engine.
//!
//! Monetary amounts are fixed-point integers scaled to their currency's
//! precision; every contract is stated over those integers.
pub mod error;
pub mod fixed;
pub mod currency;
pub mod money;
pub mod instrument;
pub mod commission;
pub mod state;
pub mod account;
pub mod cash;
pub mod margin;
pub mod any;
pub mod stubs;
