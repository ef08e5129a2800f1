//! The bank service: account creation with a monotonically increasing
//! identifier allocator, and cross-account transfers composed from two
//! repository round-trips and two account mutations.
//!
//! A transfer computes both mutations on in-memory copies before writing
//! either back, so any validation failure aborts before persistence. The two
//! write-backs are not one transactional commit, so a storage failure between
//! them is compensated by re-crediting the source; only if that compensating
//! write also fails does the caller see
//! [`AppError::TransferPartiallyFailed`], the one outcome that leaves funds
//! withdrawn but not credited. Every other failure leaves the ledger exactly
//! as it was: all-or-nothing from the caller's perspective.

use vstd::prelude::*;
use crate::account::{
    deposit_fits, Account, AccountId, AccountRepository, AccountStatus, Transaction,
};
use crate::customer::CustomerId;
use crate::errors::{AppError, DomainError, RepoError};
use crate::money::Money;

verus! {

/// `a` with `amount` taken off its balance.
pub open spec fn debited(a: Account, amount: Money) -> Account {
    Account {
        id: a.id,
        owner: a.owner,
        balance: Money((a.balance.0 - amount.0) as i64),
        status: a.status,
    }
}

/// `a` with `amount` added onto its balance.
pub open spec fn credited(a: Account, amount: Money) -> Account {
    Account {
        id: a.id,
        owner: a.owner,
        balance: Money((a.balance.0 + amount.0) as i64),
        status: a.status,
    }
}

/// The inputs on which a transfer is owed success, storage permitting:
/// distinct existing accounts, a strictly positive amount covered by the
/// source's balance, an active source, and a destination that is not closed.
pub open spec fn transfer_valid(
    v: Map<AccountId, Account>,
    from: AccountId,
    to: AccountId,
    amount: Money,
) -> bool {
    &&& from != to
    &&& v.contains_key(from)
    &&& v.contains_key(to)
    &&& amount.0 > 0
    &&& amount.0 <= v[from].balance.0
    &&& v[from].status is Active
    &&& !(v[to].status is Closed)
}

/// Whether crediting the destination stays within the machine's range of
/// amounts; only the success path is constrained.
pub open spec fn transfer_fits(
    v: Map<AccountId, Account>,
    from: AccountId,
    to: AccountId,
    amount: Money,
) -> bool {
    transfer_valid(v, from, to, amount) ==> v[to].balance.0 + amount.0 <= i64::MAX
}

/// The repository contents after a successful transfer: the source debited,
/// the destination credited, everything else untouched.
pub open spec fn transfer_ok_view(
    v: Map<AccountId, Account>,
    from: AccountId,
    to: AccountId,
    amount: Money,
) -> Map<AccountId, Account> {
    v.insert(from, debited(v[from], amount)).insert(to, credited(v[to], amount))
}

/// Which domain error a transfer surfaces on which inputs. The order of the
/// cases is the order of validation and decides which error an invalid call
/// reports.
pub open spec fn transfer_err_matches(
    v: Map<AccountId, Account>,
    from: AccountId,
    to: AccountId,
    amount: Money,
    e: AppError,
) -> bool {
    if from == to {
        e == AppError::Domain(DomainError::TransferToSelf)
    } else if !v.contains_key(from) {
        e == AppError::Domain(DomainError::AccountNotFound(from))
    } else if !v.contains_key(to) {
        e == AppError::Domain(DomainError::AccountNotFound(to))
    } else if amount.0 <= 0 {
        e matches AppError::Domain(DomainError::NegativeAmount(m))
            && m@ == "amount must be greater than zero"@
    } else if amount.0 > v[from].balance.0 {
        e matches AppError::Domain(DomainError::InsufficientFunds(m))
            && m@ == "insufficient balance"@
    } else if v[from].status is Closed {
        e matches AppError::Domain(DomainError::ClosedAccount(m))
            && m@ == "cannot withdraw money from a closed account"@
    } else if v[from].status is Frozen {
        e matches AppError::Domain(DomainError::FrozenAccount(m))
            && m@ == "cannot withdraw money from a frozen account"@
    } else if v[to].status is Closed {
        e matches AppError::Domain(DomainError::ClosedAccount(m))
            && m@ == "cannot deposit money into a closed account"@
    } else {
        false
    }
}

/// Whether a single-account transaction stays within the machine's range of
/// amounts when applied to the account stored under `account_id`.
pub open spec fn txn_fits(
    v: Map<AccountId, Account>,
    account_id: AccountId,
    txn: Transaction,
) -> bool {
    match txn {
        Transaction::Deposit(a) => v.contains_key(account_id) ==> deposit_fits(
            v[account_id],
            a,
        ),
        Transaction::Withdraw(_) => true,
        Transaction::Transfer { to, amount } => transfer_fits(v, account_id, to, amount),
    }
}

/// Orchestrates account creation and cross-account transfers against a
/// repository. The identifier counter is owned exclusively by the bank and
/// only ever increases, so identifiers are never reused.
pub struct Bank<R: AccountRepository> {
    pub next_id: AccountId,
    pub repo: R,
}

impl<R: AccountRepository> Bank<R> {
    /// The bank's invariant: every stored account sits under its own
    /// identifier, carries a non-negative balance, and has an identifier the
    /// allocator has already handed out.
    pub open spec fn wf(&self) -> bool {
        forall|id: AccountId| #[trigger] self.repo.repo_view().contains_key(id) ==> {
            &&& self.repo.repo_view()[id].id == id
            &&& 1 <= id <= self.next_id
            &&& self.repo.repo_view()[id].balance.0 >= 0
        }
    }

    /// A bank over `repo` whose allocator starts at zero.
    pub fn new(repo: R) -> (r: Bank<R>)
        ensures
            r.next_id == 0,
            r.repo == repo,
            repo.repo_view() == Map::<AccountId, Account>::empty() ==> r.wf(),
    {
        Bank { next_id: 0, repo }
    }

    /// Allocate the next identifier, persist a fresh zero-balance active
    /// account under it for `owner`, and return the identifier. Fails only by
    /// propagating a repository error, and even then the identifier is spent:
    /// the counter has moved on.
    pub fn create_account(&mut self, owner: CustomerId) -> (r: Result<AccountId, AppError>)
        requires
            old(self).next_id < AccountId::MAX,
        ensures
            final(self).next_id == old(self).next_id + 1,
            final(self).repo.healthy() == old(self).repo.healthy(),
            old(self).repo.healthy() ==> r is Ok,
            r is Ok ==> {
                &&& r->Ok_0 == old(self).next_id + 1
                &&& final(self).repo.repo_view() == old(self).repo.repo_view().insert(
                    (old(self).next_id + 1) as AccountId,
                    Account {
                        id: (old(self).next_id + 1) as AccountId,
                        owner,
                        balance: Money(0),
                        status: AccountStatus::Active,
                    },
                )
            },
            r is Err ==> final(self).repo.repo_view() == old(self).repo.repo_view()
                && r == Err::<AccountId, AppError>(AppError::Repo(RepoError::LockPoisened)),
            old(self).wf() ==> final(self).wf(),
    {
        self.next_id = self.next_id + 1;
        let account = Account::builder(self.next_id, owner).build();
        match self.repo.create(account) {
            Ok(()) => Ok(self.next_id),
            Err(e) => Err(AppError::Repo(e)),
        }
    }

    /// Fetch the account under `account_id` and carry out `txn` against it:
    /// a `Deposit` or `Withdraw` mutates the fetched copy and persists it,
    /// returning the new balance; a `Transfer` delegates to
    /// [`Bank::transfer`] and — a deliberate quirk of this service, pinned
    /// down by the contract — returns the source balance as it stood *before*
    /// the transfer ran, not after.
    pub fn process(&mut self, account_id: AccountId, txn: Transaction) -> (r: Result<
        Money,
        AppError,
    >)
        requires
            old(self).wf(),
            txn_fits(old(self).repo.repo_view(), account_id, txn),
        ensures
            final(self).next_id == old(self).next_id,
            final(self).repo.healthy() == old(self).repo.healthy(),
            final(self).wf(),
            r is Err && !(r->Err_0 is TransferPartiallyFailed) ==> final(self).repo.repo_view()
                == old(self).repo.repo_view(),
            r is Err && r->Err_0 is TransferPartiallyFailed ==> (txn matches Transaction::Transfer {
                ..
            }) && !old(self).repo.healthy(),
            r is Ok ==> old(self).repo.repo_view().contains_key(account_id),
            (r matches Err(AppError::Repo(_))) ==> !old(self).repo.healthy(),
            r matches Err(AppError::Domain(e)) ==> process_err_matches(
                old(self).repo.repo_view(),
                account_id,
                txn,
                e,
            ),
            old(self).repo.healthy() ==> process_outcome(
                old(self).repo.repo_view(),
                account_id,
                txn,
                r,
                final(self).repo.repo_view(),
            ),
    {
        let account_opt = match self.repo.get(account_id) {
            Ok(o) => o,
            Err(e) => {
                return Err(AppError::Repo(e));
            },
        };
        let mut account = match account_opt {
            Some(a) => a,
            None => {
                return Err(AppError::Domain(DomainError::AccountNotFound(account_id)));
            },
        };

        match txn {
            Transaction::Transfer { to, amount } => {
                match self.transfer(account_id, to, amount) {
                    Ok(()) => Ok(account.balance),
                    Err(e) => Err(e),
                }
            },
            other => {
                let new_balance = match account.apply_transaction(other) {
                    Ok(m) => m,
                    Err(e) => {
                        return Err(AppError::Domain(e));
                    },
                };
                match self.repo.update(account) {
                    Ok(()) => Ok(new_balance),
                    Err(e) => Err(AppError::Repo(e)),
                }
            },
        }
    }

    /// Move `amount` from `from` to `to`, all-or-nothing. Validation order:
    /// self-transfer, source existence, destination existence, then the
    /// source withdrawal's own checks, then the destination deposit's. Both
    /// mutations are computed in memory before either write-back; a failed
    /// second write-back is compensated by restoring the source, so the
    /// ledger changes on success, stays untouched on every clean failure, and
    /// is left debited-only exactly when the caller sees
    /// [`AppError::TransferPartiallyFailed`].
    pub fn transfer(&mut self, from: AccountId, to: AccountId, amount: Money) -> (r: Result<
        (),
        AppError,
    >)
        requires
            old(self).wf(),
            transfer_fits(old(self).repo.repo_view(), from, to, amount),
        ensures
            final(self).next_id == old(self).next_id,
            final(self).repo.healthy() == old(self).repo.healthy(),
            final(self).wf(),
            from == to ==> r == Err::<(), AppError>(AppError::Domain(DomainError::TransferToSelf)),
            r is Err && !(r->Err_0 is TransferPartiallyFailed) ==> final(self).repo.repo_view()
                == old(self).repo.repo_view(),
            r is Ok ==> {
                let v = old(self).repo.repo_view();
                &&& transfer_valid(v, from, to, amount)
                &&& final(self).repo.repo_view() == transfer_ok_view(v, from, to, amount)
                &&& final(self).repo.repo_view()[from].balance.0 == v[from].balance.0 - amount.0
                &&& final(self).repo.repo_view()[to].balance.0 == v[to].balance.0 + amount.0
                &&& final(self).repo.repo_view()[from].balance.0
                    + final(self).repo.repo_view()[to].balance.0
                    == v[from].balance.0 + v[to].balance.0
            },
            r matches Err(e) ==> (e is Domain ==> transfer_err_matches(
                old(self).repo.repo_view(),
                from,
                to,
                amount,
                e,
            )),
            (r matches Err(AppError::Repo(_))) ==> !old(self).repo.healthy(),
            r is Err && r->Err_0 is TransferPartiallyFailed ==> {
                let v = old(self).repo.repo_view();
                &&& !old(self).repo.healthy()
                &&& transfer_valid(v, from, to, amount)
                &&& final(self).repo.repo_view() == v.insert(from, debited(v[from], amount))
            },
            old(self).repo.healthy() ==> {
                let v = old(self).repo.repo_view();
                &&& transfer_valid(v, from, to, amount) ==> r is Ok
                &&& !transfer_valid(v, from, to, amount) ==> (r matches Err(e)
                    && transfer_err_matches(v, from, to, amount, e))
            },
    {
        if from == to {
            return Err(AppError::Domain(DomainError::TransferToSelf));
        }

        let src_opt = match self.repo.get(from) {
            Ok(o) => o,
            Err(e) => {
                return Err(AppError::Repo(e));
            },
        };
        let mut src = match src_opt {
            Some(a) => a,
            None => {
                return Err(AppError::Domain(DomainError::AccountNotFound(from)));
            },
        };

        let dest_opt = match self.repo.get(to) {
            Ok(o) => o,
            Err(e) => {
                return Err(AppError::Repo(e));
            },
        };
        let mut dest = match dest_opt {
            Some(a) => a,
            None => {
                return Err(AppError::Domain(DomainError::AccountNotFound(to)));
            },
        };

        let src_before = src;

        match src.withdraw(amount) {
            Ok(_) => {},
            Err(e) => {
                return Err(AppError::Domain(e));
            },
        }

        match dest.deposit(amount) {
            Ok(_) => {},
            Err(e) => {
                return Err(AppError::Domain(e));
            },
        }

        match self.repo.update(src) {
            Ok(()) => {},
            Err(e) => {
                return Err(AppError::Repo(e));
            },
        }

        match self.repo.update(dest) {
            Ok(()) => Ok(()),
            Err(e) => {
                // The source is already debited in storage: compensate by
                // restoring the copy fetched before the withdrawal.
                match self.repo.update(src_before) {
                    Ok(()) => {
                        proof {
                            assert(old(self).repo.repo_view().insert(from, src).insert(
                                from,
                                src_before,
                            ) =~= old(self).repo.repo_view());
                        }
                        Err(AppError::Repo(e))
                    },
                    Err(_) => Err(AppError::TransferPartiallyFailed),
                }
            },
        }
    }
}

/// Which domain error a `process` call surfaces on which inputs: the account
/// must exist before anything else is judged; a single-account transaction is
/// then judged by the account's own validation order, and a transfer by the
/// transfer's.
pub open spec fn process_err_matches(
    v: Map<AccountId, Account>,
    account_id: AccountId,
    txn: Transaction,
    e: DomainError,
) -> bool {
    if !v.contains_key(account_id) {
        e == DomainError::AccountNotFound(account_id)
    } else {
        let a = v[account_id];
        match txn {
            Transaction::Deposit(x) => {
                if x.0 <= 0 {
                    e matches DomainError::NegativeAmount(m)
                        && m@ == "amount must be greater than zero"@
                } else if a.status is Closed {
                    e matches DomainError::ClosedAccount(m)
                        && m@ == "cannot deposit money into a closed account"@
                } else {
                    false
                }
            },
            Transaction::Withdraw(x) => {
                if x.0 <= 0 {
                    e matches DomainError::NegativeAmount(m)
                        && m@ == "amount must be greater than zero"@
                } else if x.0 > a.balance.0 {
                    e matches DomainError::InsufficientFunds(m) && m@ == "insufficient balance"@
                } else if a.status is Closed {
                    e matches DomainError::ClosedAccount(m)
                        && m@ == "cannot withdraw money from a closed account"@
                } else if a.status is Frozen {
                    e matches DomainError::FrozenAccount(m)
                        && m@ == "cannot withdraw money from a frozen account"@
                } else {
                    false
                }
            },
            Transaction::Transfer { to, amount } => transfer_err_matches(
                v,
                account_id,
                to,
                amount,
                AppError::Domain(e),
            ),
        }
    }
}

/// What a healthy repository makes of a `process` call: the outcome is fully
/// determined by the stored accounts and the transaction.
pub open spec fn process_outcome(
    v: Map<AccountId, Account>,
    account_id: AccountId,
    txn: Transaction,
    r: Result<Money, AppError>,
    post: Map<AccountId, Account>,
) -> bool {
    if !v.contains_key(account_id) {
        r == Err::<Money, AppError>(AppError::Domain(DomainError::AccountNotFound(account_id)))
            && post == v
    } else {
        let a = v[account_id];
        match txn {
            Transaction::Deposit(x) => {
                &&& x.0 <= 0 ==> (r matches Err(AppError::Domain(DomainError::NegativeAmount(m)))
                    && m@ == "amount must be greater than zero"@) && post == v
                &&& x.0 > 0 && a.status is Closed ==> (r matches Err(
                    AppError::Domain(DomainError::ClosedAccount(m)),
                ) && m@ == "cannot deposit money into a closed account"@) && post == v
                &&& x.0 > 0 && !(a.status is Closed) ==> r == Ok::<Money, AppError>(
                    Money((a.balance.0 + x.0) as i64),
                ) && post == v.insert(account_id, credited(a, x))
            },
            Transaction::Withdraw(x) => {
                &&& x.0 <= 0 ==> (r matches Err(AppError::Domain(DomainError::NegativeAmount(m)))
                    && m@ == "amount must be greater than zero"@) && post == v
                &&& x.0 > 0 && x.0 > a.balance.0 ==> (r matches Err(
                    AppError::Domain(DomainError::InsufficientFunds(m)),
                ) && m@ == "insufficient balance"@) && post == v
                &&& x.0 > 0 && x.0 <= a.balance.0 && a.status is Closed ==> (r matches Err(
                    AppError::Domain(DomainError::ClosedAccount(m)),
                ) && m@ == "cannot withdraw money from a closed account"@) && post == v
                &&& x.0 > 0 && x.0 <= a.balance.0 && a.status is Frozen ==> (r matches Err(
                    AppError::Domain(DomainError::FrozenAccount(m)),
                ) && m@ == "cannot withdraw money from a frozen account"@) && post == v
                &&& x.0 > 0 && x.0 <= a.balance.0 && a.status is Active ==> r == Ok::<
                    Money,
                    AppError,
                >(Money((a.balance.0 - x.0) as i64)) && post == v.insert(
                    account_id,
                    debited(a, x),
                )
            },
            Transaction::Transfer { to, amount } => {
                &&& transfer_valid(v, account_id, to, amount) ==> r == Ok::<Money, AppError>(
                    a.balance,
                ) && post == transfer_ok_view(v, account_id, to, amount)
                &&& !transfer_valid(v, account_id, to, amount) ==> (r matches Err(e)
                    && transfer_err_matches(v, account_id, to, amount, e)) && post == v
            },
        }
    }
}

/// Law: consecutive account creations hand out distinct, contiguous
/// identifiers. `Bank::create_account` returns `start + k + 1` for the k-th
/// creation after a state whose counter reads `start`, so a batch of
/// creations yields pairwise distinct identifiers that each exceed their
/// predecessor by exactly one — no duplicates and no gaps.
pub proof fn lemma_created_ids_distinct_and_contiguous(start: int, ids: Seq<AccountId>)
    requires
        forall|k: int| 0 <= k < ids.len() ==> #[trigger] (ids[k] as int) == start + k + 1,
    ensures
        forall|k1: int, k2: int| 0 <= k1 < k2 < ids.len() ==> ids[k1] != ids[k2],
        forall|k: int| 0 <= k && k + 1 < ids.len() ==> #[trigger] (ids[k + 1] as int) == ids[k]
            + 1,
{
}

} // verus!
