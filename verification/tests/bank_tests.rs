use ledger_core::account::{AccountRepository, Transaction};
use ledger_core::bank::Bank;
use ledger_core::customer::Customer;
use ledger_core::errors::{AppError, DomainError, RepoError};
use ledger_core::money::Money;
use ledger_core::storage::{FaultInjectingRepo, InMemoryRepo};

#[test]
fn test_bank_will_create_account_successfully() {
    let customer: Customer = Customer::builder(1).build();
    let repo: InMemoryRepo = InMemoryRepo::new();
    let mut bank = Bank::new(repo);
    let account_id = bank.create_account(customer.id).unwrap();

    assert_eq!(account_id, 1);
    let account = bank.repo.get(account_id).unwrap().unwrap();

    assert_eq!(account.owner, customer.id);
    assert_eq!(account.balance.0, 0);
}

#[test]
fn test_bank_will_process_deposit() {
    let repo = InMemoryRepo::default();
    let mut bank = Bank::new(repo);

    let customer = Customer::builder(1).build();
    let account_id = bank.create_account(customer.id).unwrap();

    let result = bank.process(account_id, Transaction::Deposit(Money(100)));

    assert!(result.is_ok());
    assert_eq!(result.unwrap().0, 100);
}

#[test]
fn test_deposit_then_transfer_moves_the_money() {
    let mut bank = Bank::new(InMemoryRepo::new());

    let a = bank.create_account(1).unwrap();
    let deposited = bank.process(a, Transaction::Deposit(Money(100))).unwrap();
    assert_eq!(deposited, Money(100));

    let b = bank.create_account(2).unwrap();

    let transferred = bank.transfer(a, b, Money(40));
    assert!(transferred.is_ok());

    assert_eq!(bank.repo.get(a).unwrap().unwrap().balance, Money(60));
    assert_eq!(bank.repo.get(b).unwrap().unwrap().balance, Money(40));
}

#[test]
fn test_transfer_conserves_the_sum_of_both_balances() {
    let mut bank = Bank::new(InMemoryRepo::new());
    let a = bank.create_account(1).unwrap();
    let b = bank.create_account(2).unwrap();
    let _ = bank.process(a, Transaction::Deposit(Money(75))).unwrap();
    let _ = bank.process(b, Transaction::Deposit(Money(25))).unwrap();

    assert!(bank.transfer(a, b, Money(30)).is_ok());

    let balance_a = bank.repo.get(a).unwrap().unwrap().balance.0;
    let balance_b = bank.repo.get(b).unwrap().unwrap().balance.0;
    assert_eq!(balance_a, 45);
    assert_eq!(balance_b, 55);
    assert_eq!(balance_a + balance_b, 100);
}

#[test]
fn test_transfer_to_self_always_fails() {
    let mut bank = Bank::new(InMemoryRepo::new());
    let a = bank.create_account(1).unwrap();
    let _ = bank.process(a, Transaction::Deposit(Money(100))).unwrap();

    for amount in [-3i64, 0, 1, 100, 1000] {
        let result = bank.transfer(a, a, Money(amount));
        assert_eq!(result, Err(AppError::Domain(DomainError::TransferToSelf)));
    }
    assert_eq!(bank.repo.get(a).unwrap().unwrap().balance, Money(100));
}

#[test]
fn test_withdrawal_from_empty_account_via_bank_fails_with_insufficient_funds() {
    let mut bank = Bank::new(InMemoryRepo::new());
    let a = bank.create_account(1).unwrap();

    let result = bank.process(a, Transaction::Withdraw(Money(1)));

    assert!(matches!(
        result,
        Err(AppError::Domain(DomainError::InsufficientFunds(_)))
    ));
    assert_eq!(bank.repo.get(a).unwrap().unwrap().balance, Money(0));
}

#[test]
fn test_deposit_of_negative_amount_via_bank_fails_and_balance_is_unchanged() {
    let mut bank = Bank::new(InMemoryRepo::new());
    let a = bank.create_account(1).unwrap();
    let _ = bank.process(a, Transaction::Deposit(Money(20))).unwrap();

    let result = bank.process(a, Transaction::Deposit(Money(-5)));

    assert!(matches!(
        result,
        Err(AppError::Domain(DomainError::NegativeAmount(_)))
    ));
    assert_eq!(bank.repo.get(a).unwrap().unwrap().balance, Money(20));
}

#[test]
fn test_transfer_to_missing_account_names_the_missing_id() {
    let mut bank = Bank::new(InMemoryRepo::new());
    let a = bank.create_account(1).unwrap();
    let _ = bank.process(a, Transaction::Deposit(Money(50))).unwrap();

    let result = bank.transfer(a, 999, Money(10));
    assert_eq!(
        result,
        Err(AppError::Domain(DomainError::AccountNotFound(999)))
    );

    let result = bank.transfer(998, a, Money(10));
    assert_eq!(
        result,
        Err(AppError::Domain(DomainError::AccountNotFound(998)))
    );
}

#[test]
fn test_process_transfer_returns_the_pre_transfer_source_balance() {
    let mut bank = Bank::new(InMemoryRepo::new());
    let a = bank.create_account(1).unwrap();
    let b = bank.create_account(2).unwrap();
    let _ = bank.process(a, Transaction::Deposit(Money(100))).unwrap();

    let snapshot = bank
        .process(
            a,
            Transaction::Transfer {
                to: b,
                amount: Money(40),
            },
        )
        .unwrap();

    assert_eq!(snapshot, Money(100));
    assert_eq!(bank.repo.get(a).unwrap().unwrap().balance, Money(60));
    assert_eq!(bank.repo.get(b).unwrap().unwrap().balance, Money(40));
}

#[test]
fn test_consecutive_account_creations_hand_out_contiguous_ids() {
    let mut bank = Bank::new(InMemoryRepo::new());

    let mut ids = Vec::new();
    for owner in 1..=20u64 {
        ids.push(bank.create_account(owner).unwrap());
    }

    for (k, id) in ids.iter().enumerate() {
        assert_eq!(*id, k as u64 + 1);
    }
    for pair in ids.windows(2) {
        assert_eq!(pair[1], pair[0] + 1);
    }
}

#[test]
fn test_transfer_reports_partial_failure_when_compensation_fails_too() {
    let mut bank = Bank::new(FaultInjectingRepo::new());
    let a = bank.create_account(1).unwrap();
    let b = bank.create_account(2).unwrap();
    let _ = bank.process(a, Transaction::Deposit(Money(100))).unwrap();

    // One write still succeeds: the source's debit lands, then the
    // destination's credit fails and so does the compensating write.
    bank.repo.poisoned = true;
    bank.repo.writes_before_failing = 1;

    let result = bank.transfer(a, b, Money(10));
    assert_eq!(result, Err(AppError::TransferPartiallyFailed));

    bank.repo.poisoned = false;
    assert_eq!(bank.repo.get(a).unwrap().unwrap().balance, Money(90));
    assert_eq!(bank.repo.get(b).unwrap().unwrap().balance, Money(0));
}

#[test]
fn test_bank_propagates_storage_failures_unchanged() {
    let mut bank = Bank::new(FaultInjectingRepo::new());
    let a = bank.create_account(1).unwrap();
    let b = bank.create_account(2).unwrap();
    let _ = bank.process(a, Transaction::Deposit(Money(100))).unwrap();

    bank.repo.poisoned = true;

    let created = bank.create_account(3);
    assert_eq!(created, Err(AppError::Repo(RepoError::LockPoisened)));

    let processed = bank.process(a, Transaction::Deposit(Money(1)));
    assert_eq!(processed, Err(AppError::Repo(RepoError::LockPoisened)));

    let transferred = bank.transfer(a, b, Money(10));
    assert_eq!(transferred, Err(AppError::Repo(RepoError::LockPoisened)));

    bank.repo.poisoned = false;
    assert_eq!(bank.repo.get(a).unwrap().unwrap().balance, Money(100));
    assert_eq!(bank.repo.get(b).unwrap().unwrap().balance, Money(0));
}
