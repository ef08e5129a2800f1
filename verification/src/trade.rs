//! The tradable-asset interface of the trading skeleton, and the asset
//! markers. Price feeds and strategies deal in floating-point prices, so they
//! live with the callers; an asset itself carries no such state.

use vstd::prelude::*;

verus! {

/// Something tradable, known by its ticker symbol.
pub trait Asset {
    fn symbol(&self) -> &str;
}

/// A share of a listed company.
pub struct Stock;

/// A cryptographic token.
pub struct Crypto;

/// A currency pair.
pub struct Forex;

} // verus!
