//! Repository implementations: the production in-memory store, and a
//! fault-injecting variant for exercising error propagation.
//!
//! The stored map is owned exclusively by the repository; callers only ever
//! hold copies obtained via `get` and must write every mutation back via
//! `update`.

use vstd::prelude::*;
use std::collections::HashMap;
use crate::account::{Account, AccountId, AccountRepository};
use crate::errors::RepoError;

verus! {

broadcast use vstd::std_specs::hash::group_hash_axioms;

/// The production repository: a plain in-process keyed map.
///
/// Its guard is always intact, so every operation succeeds.
pub struct InMemoryRepo {
    pub store: HashMap<AccountId, Account>,
}

impl InMemoryRepo {
    /// An empty repository.
    pub fn new() -> (r: Self)
        ensures
            r.repo_view() == Map::<AccountId, Account>::empty(),
            r.healthy(),
    {
        InMemoryRepo { store: HashMap::new() }
    }
}

impl Default for InMemoryRepo {
    /// Same as [`InMemoryRepo::new`].
    fn default() -> (r: Self)
        ensures
            r.repo_view() == Map::<AccountId, Account>::empty(),
            r.healthy(),
    {
        InMemoryRepo::new()
    }
}

impl AccountRepository for InMemoryRepo {
    open spec fn repo_view(&self) -> Map<AccountId, Account> {
        self.store@
    }

    open spec fn healthy(&self) -> bool {
        true
    }

    fn create(&mut self, account: Account) -> (r: Result<(), RepoError>) {
        self.store.insert(account.id, account);
        Ok(())
    }

    fn get(&self, id: AccountId) -> (r: Result<Option<Account>, RepoError>) {
        match self.store.get(&id) {
            Some(account) => Ok(Some(*account)),
            None => Ok(None),
        }
    }

    fn update(&mut self, account: Account) -> (r: Result<(), RepoError>) {
        self.store.insert(account.id, account);
        Ok(())
    }
}

/// A test double: behaves like [`InMemoryRepo`] until `poisoned` is set.
/// Once poisoned it still honours `writes_before_failing` write operations
/// (and keeps serving reads while any remain), then fails everything with
/// [`RepoError::LockPoisened`], touching nothing. A zero budget fails
/// immediately; a positive one lets a failure strike in the middle of a
/// multi-write sequence, which is how callers exercise the bank's
/// compensation path.
pub struct FaultInjectingRepo {
    pub poisoned: bool,
    pub writes_before_failing: u64,
    pub store: HashMap<AccountId, Account>,
}

impl FaultInjectingRepo {
    /// An empty repository whose guard is still intact.
    pub fn new() -> (r: Self)
        ensures
            r.repo_view() == Map::<AccountId, Account>::empty(),
            r.healthy(),
    {
        FaultInjectingRepo { poisoned: false, writes_before_failing: 0, store: HashMap::new() }
    }
}

impl AccountRepository for FaultInjectingRepo {
    open spec fn repo_view(&self) -> Map<AccountId, Account> {
        self.store@
    }

    open spec fn healthy(&self) -> bool {
        !self.poisoned
    }

    fn create(&mut self, account: Account) -> (r: Result<(), RepoError>) {
        if self.poisoned {
            if self.writes_before_failing == 0 {
                return Err(RepoError::LockPoisened);
            }
            self.writes_before_failing = self.writes_before_failing - 1;
        }
        self.store.insert(account.id, account);
        Ok(())
    }

    fn get(&self, id: AccountId) -> (r: Result<Option<Account>, RepoError>) {
        if self.poisoned && self.writes_before_failing == 0 {
            return Err(RepoError::LockPoisened);
        }
        match self.store.get(&id) {
            Some(account) => Ok(Some(*account)),
            None => Ok(None),
        }
    }

    fn update(&mut self, account: Account) -> (r: Result<(), RepoError>) {
        if self.poisoned {
            if self.writes_before_failing == 0 {
                return Err(RepoError::LockPoisened);
            }
            self.writes_before_failing = self.writes_before_failing - 1;
        }
        self.store.insert(account.id, account);
        Ok(())
    }
}

/// Law: writing back an account just fetched from the repository is a no-op —
/// after `get(id)` returns an account, `update` of that same account leaves
/// the contents exactly as they were, so a subsequent `get` sees no change.
pub proof fn lemma_update_of_fetched_account_is_noop(v: Map<AccountId, Account>, id: AccountId)
    requires
        v.contains_key(id),
        v[id].id == id,
    ensures
        v.insert(v[id].id, v[id]) == v,
{
    assert(v.insert(v[id].id, v[id]) =~= v);
}

} // verus!
