use ledger_core::account::{Account, AccountRepository};
use ledger_core::customer::Customer;
use ledger_core::errors::RepoError;
use ledger_core::money::Money;
use ledger_core::storage::{FaultInjectingRepo, InMemoryRepo};

#[test]
fn test_will_create_account_and_store_to_in_memory_repo_successfully() {
    let customer: Customer = Customer::builder(1).build();
    let account: Account = Account::builder(1, customer.id).build();
    let mut repo: InMemoryRepo = InMemoryRepo::new();
    let _ = repo.create(account.clone());

    let response = repo.get(account.id);
    assert!(response.is_ok());
    assert!(matches!(response, Ok(Some(_))));
    assert_eq!(response.ok().unwrap(), Some(account))
}

#[test]
fn test_will_update_account_in_memory_repo_successfully() {
    let customer: Customer = Customer::builder(1).build();
    let mut account: Account = Account::builder(1, customer.id).build();
    let mut repo: InMemoryRepo = InMemoryRepo::new();
    let _ = repo.create(account.clone());

    let response = repo.get(account.id);
    assert!(response.is_ok());
    assert!(matches!(response, Ok(Some(_))));
    assert_eq!(response.ok().unwrap(), Some(account.clone()));

    let customer: Customer = Customer::builder(2).build();
    account.id = customer.id;
    let _ = repo.update(account.clone());

    let response = repo.get(account.id);
    assert!(response.is_ok());
    assert!(matches!(response, Ok(Some(_))));
    assert_eq!(response.ok().unwrap(), Some(account.clone()));
}

#[test]
fn test_update_of_fetched_account_is_a_no_op_on_subsequent_get() {
    let mut repo = InMemoryRepo::new();
    let account = Account::builder(7, 3).balance(Money(250)).build();
    let _ = repo.create(account);

    let fetched = repo.get(7).unwrap().unwrap();
    let _ = repo.update(fetched);

    let fetched_again = repo.get(7).unwrap().unwrap();
    assert_eq!(fetched_again, fetched);
    assert_eq!(fetched_again, account);
}

#[test]
fn test_fault_injecting_repo_fails_every_operation_once_poisoned() {
    let mut repo = FaultInjectingRepo::new();
    let account = Account::builder(1, 1).build();
    assert!(repo.create(account).is_ok());

    repo.poisoned = true;

    assert_eq!(repo.create(account), Err(RepoError::LockPoisened));
    assert_eq!(repo.get(1), Err(RepoError::LockPoisened));
    assert_eq!(repo.update(account), Err(RepoError::LockPoisened));

    repo.poisoned = false;
    assert_eq!(repo.get(1), Ok(Some(account)));
}
