//! An account-ledger core — accounts with validated balance mutations, an
//! in-memory keyed repository, and a bank service that orchestrates account
//! creation and cross-account transfers — together with a few small verified
//! companions: a campus meal-card manager, a one-operation calculator, and
//! assorted value types.

pub mod account;
pub mod bank;
pub mod books;
pub mod calc;
pub mod campus;
pub mod customer;
pub mod digits;
pub mod errors;
pub mod money;
pub mod storage;
pub mod student;
pub mod trade;
pub mod util;
