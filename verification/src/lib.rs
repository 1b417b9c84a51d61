//! A permissioned yield-allocation module for an address-keyed ledger.
//!
//! One configuration record per market holds the financial parameters
//! (threshold, proportion, price, authority). The allocation engine splits an
//! accumulated native-currency balance between a treasury transfer and a token
//! buy-and-destroy operation, converting between native units and token minor
//! units through a stored price and the mint's decimal precision.

pub mod allocation;
pub mod conversion;
pub mod errors;
pub mod state;
pub mod store;
