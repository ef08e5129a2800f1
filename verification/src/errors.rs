//! The failure taxonomy of the ledger core.
//!
//! Every error is surfaced to the caller and recoverable at the caller's
//! discretion; none is treated as fatal. Repository errors wrap into
//! [`AppError`] and bubble unchanged through the bank's operations.

use vstd::prelude::*;
use crate::account::AccountId;

verus! {

/// A domain-rule violation, detected before any state is mutated.
#[derive(Debug, PartialEq, Eq)]
pub enum DomainError {
    /// A deposit or withdrawal was attempted on a closed account.
    ClosedAccount(String),
    /// The amount handed to a deposit or withdrawal was zero or negative.
    NegativeAmount(String),
    /// A withdrawal was attempted on a frozen account.
    FrozenAccount(String),
    /// A withdrawal exceeded the current balance.
    InsufficientFunds(String),
    /// A transaction kind that this entry point cannot carry out.
    Unsupported(String),
    /// The repository holds no account under the named identifier.
    AccountNotFound(AccountId),
    /// A transfer named the same account as source and destination.
    TransferToSelf,
}

/// A storage-layer failure.
#[derive(Debug, Clone, Copy, PartialEq, Eq, Structural)]
pub enum RepoError {
    /// The shared-state guard was left inconsistent by a prior failed writer.
    LockPoisened,
}

/// Any failure a bank operation can surface: a domain-rule violation, a
/// storage-layer failure, or a transfer whose compensating write also failed.
#[derive(Debug, PartialEq, Eq)]
pub enum AppError {
    /// A domain-rule violation, unchanged from where it arose.
    Domain(DomainError),
    /// A storage-layer failure, unchanged from where it arose.
    Repo(RepoError),
    /// A transfer debited its source, failed to credit its destination, and
    /// could not write the source back either: funds were withdrawn but not
    /// credited. Distinguishes a partially applied transfer from a clean
    /// failure that left the ledger untouched.
    TransferPartiallyFailed,
}

} // verus!
