//! Accounts: the unit of balance ownership and status gating.
//!
//! An account owns an identifier, an owner reference, a balance and a status,
//! and is mutated exclusively through validated operations. The order of
//! validation is part of the contract: amount positivity, then balance
//! sufficiency, then status gating — it determines which error an invalid
//! call surfaces.

use vstd::prelude::*;
use crate::errors::{DomainError, RepoError};
use crate::money::Money;
use crate::customer::CustomerId;

verus! {

/// An opaque account identifier, unique, assigned by the bank and never reused.
pub type AccountId = u64;

/// The lifecycle state of an account. `Closed` is terminal: no operation may
/// mutate the balance once closed. `Frozen` blocks withdrawals but, by the
/// stated policy of this core, still admits deposits.
#[derive(Debug, Clone, Copy, PartialEq, Eq, Structural)]
pub enum AccountStatus {
    Active,
    Frozen,
    Closed,
}

impl Default for AccountStatus {
    /// A fresh account starts out active.
    fn default() -> (r: Self)
        ensures
            r is Active,
    {
        AccountStatus::Active
    }
}

/// A single-account transaction request. A `Transfer` can never be carried
/// out by one account alone; it is routed through the bank's two-account
/// orchestration and is rejected by [`Account::apply_transaction`].
pub enum Transaction {
    Deposit(Money),
    Withdraw(Money),
    Transfer { to: AccountId, amount: Money },
}

/// The keyed store of accounts: create, get by identifier, and update
/// (an unconditional upsert by identifier). Callers only ever hold copies
/// obtained from `get`; every mutation must be written back via `update`.
///
/// Each operation may fail with [`RepoError::LockPoisened`], the only
/// storage-layer failure mode; on a healthy repository success is owed, and
/// a failed operation leaves the contents untouched.
pub trait AccountRepository: Sized {
    /// The repository's contents, as a map from identifier to stored account.
    spec fn repo_view(&self) -> Map<AccountId, Account>;

    /// Whether the storage guard is intact. Operations neither repair nor
    /// corrupt the guard, and never fail while it is intact.
    spec fn healthy(&self) -> bool;

    /// Store a fresh account under its own identifier. No existence check is
    /// made: callers must not reuse identifiers.
    fn create(&mut self, account: Account) -> (r: Result<(), RepoError>)
        ensures
            old(self).healthy() ==> r is Ok,
            final(self).healthy() == old(self).healthy(),
            r is Ok ==> final(self).repo_view()
                == old(self).repo_view().insert(account.id, account),
            r is Err ==> final(self).repo_view() == old(self).repo_view()
                && r == Err::<(), RepoError>(RepoError::LockPoisened),
    ;

    /// Fetch a copy of the account stored under `id`, if any.
    fn get(&self, id: AccountId) -> (r: Result<Option<Account>, RepoError>)
        ensures
            self.healthy() ==> r is Ok,
            r is Ok ==> r->Ok_0 == (if self.repo_view().contains_key(id) {
                Some(self.repo_view()[id])
            } else {
                None::<Account>
            }),
            r is Err ==> r == Err::<Option<Account>, RepoError>(RepoError::LockPoisened),
    ;

    /// Write an account back under its own identifier, overwriting
    /// unconditionally.
    fn update(&mut self, account: Account) -> (r: Result<(), RepoError>)
        ensures
            old(self).healthy() ==> r is Ok,
            final(self).healthy() == old(self).healthy(),
            r is Ok ==> final(self).repo_view()
                == old(self).repo_view().insert(account.id, account),
            r is Err ==> final(self).repo_view() == old(self).repo_view()
                && r == Err::<(), RepoError>(RepoError::LockPoisened),
    ;
}

/// The unit of balance ownership: an identifier, an owner reference, a
/// balance that never goes negative under the validated operations, and a
/// lifecycle status.
#[derive(Debug, Clone, Copy, PartialEq, Eq, Structural)]
pub struct Account {
    pub id: AccountId,
    pub owner: CustomerId,
    pub balance: Money,
    pub status: AccountStatus,
}

/// Whether a deposit of `amount` into `a` would stay within the machine's
/// range of amounts. Only the addition on the success path is constrained.
pub open spec fn deposit_fits(a: Account, amount: Money) -> bool {
    amount.0 > 0 && !(a.status is Closed) ==> a.balance.0 + amount.0 <= i64::MAX
}

/// Whether `post` is `pre` with its balance replaced by `bal` and everything
/// else untouched.
pub open spec fn same_but_balance(pre: Account, post: Account, bal: int) -> bool {
    &&& post.id == pre.id
    &&& post.owner == pre.owner
    &&& post.status == pre.status
    &&& post.balance.0 == bal
}

impl Account {
    /// Begin building an account: balance defaults to zero and status to
    /// active unless the builder is told otherwise.
    pub fn builder(id: AccountId, owner: CustomerId) -> (r: AccountBuilder)
        ensures
            r.id == id,
            r.owner == owner,
            r.balance is None,
            r.status is None,
    {
        AccountBuilder { id, owner, balance: None, status: None }
    }

    /// Increase the balance by a strictly positive `amount` and return the
    /// new balance. Fails with `NegativeAmount` on a non-positive amount and
    /// with `ClosedAccount` on a closed account; a frozen account still
    /// accepts deposits. On failure the account is untouched.
    pub fn deposit(&mut self, amount: Money) -> (r: Result<Money, DomainError>)
        requires
            deposit_fits(*old(self), amount),
        ensures
            amount.0 <= 0 ==> *final(self) == *old(self)
                && (r matches Err(DomainError::NegativeAmount(m))
                    && m@ == "amount must be greater than zero"@),
            amount.0 > 0 && old(self).status is Closed ==> *final(self) == *old(self)
                && (r matches Err(DomainError::ClosedAccount(m))
                    && m@ == "cannot deposit money into a closed account"@),
            amount.0 > 0 && !(old(self).status is Closed) ==> {
                &&& same_but_balance(*old(self), *final(self), old(self).balance.0 + amount.0)
                &&& r == Ok::<Money, DomainError>(final(self).balance)
            },
            old(self).balance.0 >= 0 ==> final(self).balance.0 >= 0,
    {
        if amount.0 <= 0 {
            return Err(DomainError::NegativeAmount(
                "amount must be greater than zero".to_owned(),
            ));
        }

        if let AccountStatus::Closed = self.status {
            return Err(DomainError::ClosedAccount(
                "cannot deposit money into a closed account".to_owned(),
            ));
        }

        self.balance.0 = self.balance.0 + amount.0;

        Ok(self.balance)
    }

    /// Decrease the balance by a strictly positive `amount` no greater than
    /// the current balance and return the new balance. Validation order:
    /// amount positivity (`NegativeAmount`), then sufficiency
    /// (`InsufficientFunds`, regardless of status), then status gating
    /// (`ClosedAccount`, `FrozenAccount`). On failure the account is
    /// untouched.
    pub fn withdraw(&mut self, amount: Money) -> (r: Result<Money, DomainError>)
        ensures
            amount.0 <= 0 ==> *final(self) == *old(self)
                && (r matches Err(DomainError::NegativeAmount(m))
                    && m@ == "amount must be greater than zero"@),
            amount.0 > 0 && amount.0 > old(self).balance.0 ==> *final(self) == *old(self)
                && (r matches Err(DomainError::InsufficientFunds(m))
                    && m@ == "insufficient balance"@),
            amount.0 > 0 && amount.0 <= old(self).balance.0 && old(self).status is Closed
                ==> *final(self) == *old(self)
                    && (r matches Err(DomainError::ClosedAccount(m))
                        && m@ == "cannot withdraw money from a closed account"@),
            amount.0 > 0 && amount.0 <= old(self).balance.0 && old(self).status is Frozen
                ==> *final(self) == *old(self)
                    && (r matches Err(DomainError::FrozenAccount(m))
                        && m@ == "cannot withdraw money from a frozen account"@),
            amount.0 > 0 && amount.0 <= old(self).balance.0 && old(self).status is Active
                ==> {
                    &&& same_but_balance(*old(self), *final(self),
                            old(self).balance.0 - amount.0)
                    &&& r == Ok::<Money, DomainError>(final(self).balance)
                },
            old(self).balance.0 >= 0 ==> final(self).balance.0 >= 0,
    {
        if amount.0 <= 0 {
            return Err(DomainError::NegativeAmount(
                "amount must be greater than zero".to_owned(),
            ));
        }

        if amount.0 > self.balance.0 {
            return Err(DomainError::InsufficientFunds("insufficient balance".to_owned()));
        }

        match self.status {
            AccountStatus::Closed => {
                return Err(DomainError::ClosedAccount(
                    "cannot withdraw money from a closed account".to_owned(),
                ));
            },
            AccountStatus::Frozen => {
                return Err(DomainError::FrozenAccount(
                    "cannot withdraw money from a frozen account".to_owned(),
                ));
            },
            AccountStatus::Active => {},
        }

        self.balance.0 = self.balance.0 - amount.0;

        Ok(self.balance)
    }

    /// Dispatch a single-account transaction to `deposit` or `withdraw`. A
    /// `Transfer` is never a single-account operation and fails with
    /// `Unsupported`, leaving the account untouched.
    pub fn apply_transaction(&mut self, txn: Transaction) -> (r: Result<Money, DomainError>)
        requires
            txn matches Transaction::Deposit(a) ==> deposit_fits(*old(self), a),
        ensures
            txn matches Transaction::Transfer { to, amount } ==> *final(self) == *old(self)
                && (r matches Err(DomainError::Unsupported(m))
                    && m@ == "use Bank::transfer instead"@),
            txn matches Transaction::Deposit(a) ==> {
                &&& a.0 <= 0 ==> *final(self) == *old(self)
                    && (r matches Err(DomainError::NegativeAmount(m))
                        && m@ == "amount must be greater than zero"@)
                &&& a.0 > 0 && old(self).status is Closed ==> *final(self) == *old(self)
                    && (r matches Err(DomainError::ClosedAccount(m))
                        && m@ == "cannot deposit money into a closed account"@)
                &&& a.0 > 0 && !(old(self).status is Closed) ==> {
                    &&& same_but_balance(*old(self), *final(self), old(self).balance.0 + a.0)
                    &&& r == Ok::<Money, DomainError>(final(self).balance)
                }
            },
            txn matches Transaction::Withdraw(a) ==> {
                &&& a.0 <= 0 ==> *final(self) == *old(self)
                    && (r matches Err(DomainError::NegativeAmount(m))
                        && m@ == "amount must be greater than zero"@)
                &&& a.0 > 0 && a.0 > old(self).balance.0 ==> *final(self) == *old(self)
                    && (r matches Err(DomainError::InsufficientFunds(m))
                        && m@ == "insufficient balance"@)
                &&& a.0 > 0 && a.0 <= old(self).balance.0 && old(self).status is Closed
                    ==> *final(self) == *old(self)
                        && (r matches Err(DomainError::ClosedAccount(m))
                            && m@ == "cannot withdraw money from a closed account"@)
                &&& a.0 > 0 && a.0 <= old(self).balance.0 && old(self).status is Frozen
                    ==> *final(self) == *old(self)
                        && (r matches Err(DomainError::FrozenAccount(m))
                            && m@ == "cannot withdraw money from a frozen account"@)
                &&& a.0 > 0 && a.0 <= old(self).balance.0 && old(self).status is Active
                    ==> {
                        &&& same_but_balance(*old(self), *final(self),
                                old(self).balance.0 - a.0)
                        &&& r == Ok::<Money, DomainError>(final(self).balance)
                    }
            },
            old(self).balance.0 >= 0 ==> final(self).balance.0 >= 0,
    {
        match txn {
            Transaction::Deposit(amount) => self.deposit(amount),
            Transaction::Withdraw(amount) => self.withdraw(amount),
            Transaction::Transfer { .. } => Err(DomainError::Unsupported(
                "use Bank::transfer instead".to_owned(),
            )),
        }
    }
}

/// Builds an [`Account`], defaulting the balance to zero and the status to
/// active where they are not set.
#[derive(Debug)]
pub struct AccountBuilder {
    pub id: AccountId,
    pub owner: CustomerId,
    pub balance: Option<Money>,
    pub status: Option<AccountStatus>,
}

impl AccountBuilder {
    /// Set the starting balance.
    pub fn balance(self, balance: Money) -> (r: Self)
        ensures
            r.id == self.id,
            r.owner == self.owner,
            r.balance == Some(balance),
            r.status == self.status,
    {
        AccountBuilder { balance: Some(balance), ..self }
    }

    /// Set the starting status.
    pub fn status(self, status: AccountStatus) -> (r: Self)
        ensures
            r.id == self.id,
            r.owner == self.owner,
            r.balance == self.balance,
            r.status == Some(status),
    {
        AccountBuilder { status: Some(status), ..self }
    }

    /// Finish the account, filling in a zero balance and active status where
    /// none was set.
    pub fn build(self) -> (r: Account)
        ensures
            r.id == self.id,
            r.owner == self.owner,
            r.balance == (if self.balance is Some { self.balance->0 } else { Money(0) }),
            r.status == (if self.status is Some { self.status->0 } else {
                AccountStatus::Active
            }),
    {
        Account {
            id: self.id,
            owner: self.owner,
            balance: match self.balance {
                Some(b) => b,
                None => Money(0),
            },
            status: match self.status {
                Some(s) => s,
                None => AccountStatus::Active,
            },
        }
    }
}

} // verus!
