//! Students and their meal cards: the unit the campus meal system manages.
//!
//! A card carries an unsigned balance; credits and debits are validated
//! before any mutation. Only suspension gates the card — that policy is
//! encoded here as an invariant rather than left ambiguous: a graduated
//! student's card keeps working.

use vstd::prelude::*;

verus! {

/// A meal-card balance, in unsigned units.
#[derive(Debug, Clone, Copy, PartialEq, Eq, Structural)]
pub struct Amount(pub u64);

impl Default for Amount {
    /// The zero amount.
    fn default() -> (r: Self)
        ensures
            r.0 == 0,
    {
        Amount(0)
    }
}

/// A student's meal card: just its balance.
#[derive(Debug)]
pub struct MealCard {
    pub balance: Amount,
}

/// A request against one student's meal card.
pub enum TransactionType {
    /// Add funds.
    Credit(u64),
    /// Remove funds.
    Debit(u64),
}

/// A failure while carrying out a meal-card transaction.
#[derive(Debug, PartialEq, Eq)]
pub enum TransactionError {
    /// No student is registered under the named identifier.
    StudentNotFound(String),
    /// The debit exceeded the card's balance; carries the requested amount.
    InsufficientFunds(u64),
    /// The student is suspended; carries the suspension's reason.
    SuspendedAccount(String),
}

/// A student's standing. Suspension and graduation each carry a reason.
#[derive(Debug, PartialEq, Eq)]
pub enum StudentStatus {
    Active,
    Suspended(String),
    Graduated(String),
}

impl Default for StudentStatus {
    /// A fresh student starts out active.
    fn default() -> (r: Self)
        ensures
            r is Active,
    {
        StudentStatus::Active
    }
}

/// A registered student: name, level, standing, and meal card.
#[derive(Debug)]
pub struct Student {
    pub name: String,
    pub level: u32,
    pub status: StudentStatus,
    pub meal_card: MealCard,
}

/// Whether crediting the card stays within the machine's range of balances.
/// Only the addition on the success path is constrained.
pub open spec fn credit_fits(s: Student, txn: TransactionType) -> bool {
    (txn matches TransactionType::Credit(a) && !(s.status is Suspended))
        ==> s.meal_card.balance.0 + txn->Credit_0 <= u64::MAX
}

/// How one meal-card transaction relates a student before (`s`) and after
/// (`post`), together with its result: a suspended student transacts nothing
/// and the error carries the suspension's reason; a credit adds funds; a
/// debit removes them when covered and reports the requested amount when not.
pub open spec fn txn_outcome(
    s: Student,
    txn: TransactionType,
    r: Result<u64, TransactionError>,
    post: Student,
) -> bool {
    match s.status {
        StudentStatus::Suspended(reason) => post == s && (r matches Err(
            TransactionError::SuspendedAccount(m),
        ) && m@ == reason@),
        _ => match txn {
            TransactionType::Credit(a) => {
                &&& post.name == s.name
                &&& post.level == s.level
                &&& post.status == s.status
                &&& post.meal_card.balance.0 == s.meal_card.balance.0 + a
                &&& r == Ok::<u64, TransactionError>(((s.meal_card.balance.0 + a) as u64))
            },
            TransactionType::Debit(a) => if a > s.meal_card.balance.0 {
                post == s && r == Err::<u64, TransactionError>(
                    TransactionError::InsufficientFunds(a),
                )
            } else {
                &&& post.name == s.name
                &&& post.level == s.level
                &&& post.status == s.status
                &&& post.meal_card.balance.0 == s.meal_card.balance.0 - a
                &&& r == Ok::<u64, TransactionError>(((s.meal_card.balance.0 - a) as u64))
            },
        },
    }
}

impl Student {
    /// Begin building a student from the required name and level; standing
    /// defaults to active and the card to a zero balance.
    pub fn builder(name: &str, level: u32) -> (r: StudentBuilder)
        ensures
            r.name@ == name@,
            r.level == level,
            r.status is None,
            r.meal_card is None,
    {
        StudentBuilder { name: name.to_owned(), level, status: None, meal_card: None }
    }

    /// Carry out one transaction against this student's card and return the
    /// new balance. A suspended student transacts nothing; a debit must be
    /// covered by the balance. On failure the student is untouched.
    pub fn apply_transaction(&mut self, txn: TransactionType) -> (r: Result<
        u64,
        TransactionError,
    >)
        requires
            credit_fits(*old(self), txn),
        ensures
            txn_outcome(*old(self), txn, r, *final(self)),
    {
        if let StudentStatus::Suspended(reason) = &self.status {
            return Err(TransactionError::SuspendedAccount(reason.clone()));
        }
        match txn {
            TransactionType::Credit(a) => {
                self.meal_card.balance.0 = self.meal_card.balance.0 + a;
                Ok(self.meal_card.balance.0)
            },
            TransactionType::Debit(a) => {
                if a > self.meal_card.balance.0 {
                    return Err(TransactionError::InsufficientFunds(a));
                }
                self.meal_card.balance.0 = self.meal_card.balance.0 - a;
                Ok(self.meal_card.balance.0)
            },
        }
    }
}

/// Builds a [`Student`], defaulting the standing to active and the card to a
/// zero balance where they are not set.
#[derive(Debug)]
pub struct StudentBuilder {
    pub name: String,
    pub level: u32,
    pub status: Option<StudentStatus>,
    pub meal_card: Option<MealCard>,
}

impl StudentBuilder {
    /// Replace the name.
    pub fn name(self, name: &str) -> (r: Self)
        ensures
            r.name@ == name@,
            r.level == self.level,
            r.status == self.status,
            r.meal_card == self.meal_card,
    {
        StudentBuilder { name: name.to_owned(), ..self }
    }

    /// Replace the level.
    pub fn level(self, level: u32) -> (r: Self)
        ensures
            r.name == self.name,
            r.level == level,
            r.status == self.status,
            r.meal_card == self.meal_card,
    {
        StudentBuilder { level, ..self }
    }

    /// Set the standing.
    pub fn status(self, status: StudentStatus) -> (r: Self)
        ensures
            r.name == self.name,
            r.level == self.level,
            r.status == Some(status),
            r.meal_card == self.meal_card,
    {
        StudentBuilder { status: Some(status), ..self }
    }

    /// Set the meal card.
    pub fn meal_card(self, meal_card: MealCard) -> (r: Self)
        ensures
            r.name == self.name,
            r.level == self.level,
            r.status == self.status,
            r.meal_card == Some(meal_card),
    {
        StudentBuilder { meal_card: Some(meal_card), ..self }
    }

    /// Finish the student, filling in an active standing and a zero-balance
    /// card where none was set.
    pub fn build(self) -> (r: Student)
        ensures
            r.name == self.name,
            r.level == self.level,
            r.status == (if self.status is Some { self.status->0 } else { StudentStatus::Active }),
            r.meal_card == (if self.meal_card is Some { self.meal_card->0 } else {
                MealCard { balance: Amount(0) }
            }),
    {
        Student {
            name: self.name,
            level: self.level,
            status: match self.status {
                Some(s) => s,
                None => StudentStatus::Active,
            },
            meal_card: match self.meal_card {
                Some(c) => c,
                None => MealCard { balance: Amount(0) },
            },
        }
    }
}

} // verus!
