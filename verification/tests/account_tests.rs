use ledger_core::account::{Account, AccountStatus, Transaction};
use ledger_core::customer::Customer;
use ledger_core::errors::DomainError;
use ledger_core::money::Money;

#[test]
fn test_account_will_be_created_successfully() {
    let customer = Customer::builder(1).build();
    let account = Account::builder(1, customer.id).build();

    assert_eq!(account.id, 1);
    assert_eq!(account.balance.0, 0);
    assert_eq!(account.status, AccountStatus::Active);
    assert_eq!(account.owner, customer.id);
}

#[test]
fn test_account_will_allow_deposit_for_active_accounts() {
    let customer = Customer::builder(1).build();
    let mut account = Account::builder(1, customer.id).balance(Money(100)).build();

    assert_eq!(account.balance.0, 100);
    assert_eq!(account.status, AccountStatus::Active);

    let deposit = account.deposit(Money(100));

    assert!(deposit.is_ok());
    assert_eq!(deposit.ok().unwrap(), Money(200));
}

#[test]
fn test_account_will_not_allow_deposit_0_amount() {
    let customer = Customer::builder(1).build();
    let mut account = Account::builder(1, customer.id).balance(Money(100)).build();

    assert_eq!(account.balance.0, 100);
    assert_eq!(account.status, AccountStatus::Active);

    let deposit = account.deposit(Money(0));

    assert!(matches!(deposit, Err(DomainError::NegativeAmount(_))));
    assert!(deposit.is_err());
    assert_eq!(
        deposit.err().unwrap(),
        DomainError::NegativeAmount("amount must be greater than zero".to_string())
    );
}

#[test]
fn test_will_not_allow_deposit_to_a_closed_account() {
    let customer = Customer::builder(1).build();
    let mut account = Account::builder(1, customer.id)
        .status(AccountStatus::Closed)
        .build();

    assert_eq!(account.status, AccountStatus::Closed);

    let deposit = account.deposit(Money(10));

    assert!(matches!(deposit, Err(DomainError::ClosedAccount(_))));
    assert!(deposit.is_err());
    assert_eq!(
        deposit.err().unwrap(),
        DomainError::ClosedAccount("cannot deposit money into a closed account".to_string())
    );
}

#[test]
fn test_will_allow_deposit_to_a_frozen_account() {
    let customer = Customer::builder(1).build();
    let mut account = Account::builder(1, customer.id)
        .status(AccountStatus::Frozen)
        .balance(Money(5))
        .build();

    assert_eq!(account.status, AccountStatus::Frozen);
    assert_eq!(account.balance.0, 5);

    let deposit = account.deposit(Money(10));

    assert!(matches!(deposit, Ok(Money(_))));
    assert!(deposit.is_ok());
    assert_eq!(deposit.ok().unwrap(), Money(15));
}

#[test]
fn test_will_allow_withdrawal_for_active_accounts() {
    let customer = Customer::builder(1).build();
    let mut account = Account::builder(1, customer.id).balance(Money(100)).build();

    assert_eq!(account.balance.0, 100);
    assert_eq!(account.status, AccountStatus::Active);

    let withdraw = account.withdraw(Money(100));

    assert!(withdraw.is_ok());
    assert_eq!(withdraw.ok().unwrap(), Money(0));
}

#[test]
fn test_will_not_allow_withdrawal_for_active_accounts_when_amount_is_greater_than_balance() {
    let customer = Customer::builder(1).build();
    let mut account = Account::builder(1, customer.id).balance(Money(100)).build();

    assert_eq!(account.balance.0, 100);
    assert_eq!(account.status, AccountStatus::Active);

    let withdraw = account.withdraw(Money(101));

    assert!(withdraw.is_err());
    assert_eq!(
        withdraw.err().unwrap(),
        DomainError::InsufficientFunds("insufficient balance".into())
    );
}

#[test]
fn test_will_not_allow_withdrawal_for_frozen_account() {
    let customer = Customer::builder(1).build();
    let mut account = Account::builder(1, customer.id)
        .balance(Money(100))
        .status(AccountStatus::Frozen)
        .build();

    assert_eq!(account.balance.0, 100);
    assert_eq!(account.status, AccountStatus::Frozen);

    let withdraw = account.withdraw(Money(10));

    assert!(withdraw.is_err());
    assert_eq!(
        withdraw.err().unwrap(),
        DomainError::FrozenAccount("cannot withdraw money from a frozen account".to_string())
    );
}

#[test]
fn test_will_not_allow_withdrawal_for_closed_account() {
    let customer = Customer::builder(1).build();
    let mut account = Account::builder(1, customer.id)
        .balance(Money(100))
        .status(AccountStatus::Closed)
        .build();

    assert_eq!(account.balance.0, 100);
    assert_eq!(account.status, AccountStatus::Closed);

    let withdraw = account.withdraw(Money(10));

    assert!(withdraw.is_err());
    assert_eq!(
        withdraw.err().unwrap(),
        DomainError::ClosedAccount("cannot withdraw money from a closed account".to_string())
    );
}

#[test]
fn test_deposit_of_negative_amount_fails_and_leaves_balance_unchanged() {
    let mut account = Account::builder(1, 1).balance(Money(40)).build();

    let deposit = account.deposit(Money(-5));

    assert!(matches!(deposit, Err(DomainError::NegativeAmount(_))));
    assert_eq!(account.balance, Money(40));
}

#[test]
fn test_withdrawal_from_zero_balance_fails_with_insufficient_funds() {
    let mut account = Account::builder(1, 1).build();

    let withdraw = account.withdraw(Money(1));

    assert!(matches!(withdraw, Err(DomainError::InsufficientFunds(_))));
    assert_eq!(account.balance, Money(0));
}

#[test]
fn test_over_limit_withdrawal_reports_insufficient_funds_regardless_of_status() {
    let mut frozen = Account::builder(1, 1)
        .balance(Money(10))
        .status(AccountStatus::Frozen)
        .build();
    let mut closed = Account::builder(2, 1)
        .balance(Money(10))
        .status(AccountStatus::Closed)
        .build();

    assert!(matches!(
        frozen.withdraw(Money(11)),
        Err(DomainError::InsufficientFunds(_))
    ));
    assert!(matches!(
        closed.withdraw(Money(11)),
        Err(DomainError::InsufficientFunds(_))
    ));
}

#[test]
fn test_apply_transaction_rejects_transfer_as_unsupported() {
    let mut account = Account::builder(1, 1).balance(Money(50)).build();

    let result = account.apply_transaction(Transaction::Transfer {
        to: 2,
        amount: Money(10),
    });

    assert!(matches!(result, Err(DomainError::Unsupported(_))));
    assert_eq!(
        result.err().unwrap(),
        DomainError::Unsupported("use Bank::transfer instead".to_string())
    );
    assert_eq!(account.balance, Money(50));
}

#[test]
fn test_apply_transaction_dispatches_deposit_and_withdraw() {
    let mut account = Account::builder(1, 1).build();

    let after_deposit = account.apply_transaction(Transaction::Deposit(Money(70)));
    assert_eq!(after_deposit.ok().unwrap(), Money(70));

    let after_withdraw = account.apply_transaction(Transaction::Withdraw(Money(30)));
    assert_eq!(after_withdraw.ok().unwrap(), Money(40));
    assert_eq!(account.balance, Money(40));
}

#[test]
fn test_deposit_up_to_the_largest_representable_balance() {
    let mut account = Account::builder(1, 1).balance(Money(i64::MAX - 5)).build();

    let deposit = account.deposit(Money(5));

    assert_eq!(deposit.ok().unwrap(), Money(i64::MAX));
    assert_eq!(account.balance, Money(i64::MAX));
}
