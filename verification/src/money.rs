//! The monetary value object of the ledger core.
//!
//! An amount is held as a signed count of minor units, so arithmetic on it is
//! exact integer arithmetic: no drift, and overflow is ruled out by contract
//! rather than repaired after the fact. Equality is exact value equality.

use vstd::prelude::*;

verus! {

/// A fixed-point monetary amount, as a signed count of minor units.
#[derive(Debug, Clone, Copy, PartialEq, Eq, Structural)]
pub struct Money(pub i64);

impl Default for Money {
    /// The zero amount.
    fn default() -> (r: Self)
        ensures
            r.0 == 0,
    {
        Money(0)
    }
}

} // verus!
