//! Payment streams: a ledger of continuous transfers from a sender to a
//! recipient, with vesting, withdrawal, pausing, top-up, extension and
//! cancellation with settlement.

pub mod contract;
pub mod error;
pub mod laws;
pub mod lifecycle;
pub mod principal;
pub mod stream;
pub mod vesting;
