//! The campus meal system: registration, suspension, and meal-card
//! transactions over a keyed collection of students.
//!
//! Registration hands out identifiers from a counter that only ever
//! increases, so the registered identifiers are exactly `1..=counter` —
//! distinct and contiguous.

use vstd::prelude::*;
use vstd::string::StringExecFns;
use std::collections::HashMap;
use crate::digits::{dec_digits, u32_to_string};
use crate::student::{
    credit_fits, txn_outcome, Student, StudentStatus, TransactionError, TransactionType,
};

verus! {

broadcast use vstd::std_specs::hash::group_hash_axioms;

/// A student identifier, assigned by the system at registration.
pub type StudentId = u32;

/// A failure of the campus meal system itself (as opposed to a meal-card
/// transaction failure).
#[derive(Debug, PartialEq, Eq)]
pub enum CampusMealSystemError {
    /// No student is registered under the named identifier.
    StudentIdError(String),
}

/// The campus meal system: an identifier allocator and the keyed collection
/// of registered students.
pub struct CampusMealSystem {
    pub next_id: StudentId,
    pub students: HashMap<StudentId, Student>,
}

impl CampusMealSystem {
    /// The system's invariant: the registered identifiers are exactly
    /// `1..=next_id`, the identifiers the allocator has handed out.
    pub open spec fn wf(&self) -> bool {
        forall|id: StudentId| #[trigger]
            self.students@.contains_key(id) <==> 1 <= id <= self.next_id
    }

    /// An empty system whose allocator starts at zero.
    pub fn new() -> (r: Self)
        ensures
            r.next_id == 0,
            r.students@ == Map::<StudentId, Student>::empty(),
            r.wf(),
    {
        CampusMealSystem { next_id: 0, students: HashMap::new() }
    }

    /// Register a fresh student under the next identifier: named `name`, at
    /// `level`, active, with an empty meal card. Returns the identifier.
    pub fn register_student(&mut self, name: &str, level: u32) -> (r: StudentId)
        requires
            old(self).wf(),
            old(self).next_id < StudentId::MAX,
        ensures
            r == old(self).next_id + 1,
            final(self).next_id == old(self).next_id + 1,
            final(self).wf(),
            final(self).students@ == old(self).students@.insert(r, final(self).students@[r]),
            final(self).students@.contains_key(r),
            final(self).students@[r].name@ == name@,
            final(self).students@[r].level == level,
            final(self).students@[r].status is Active,
            final(self).students@[r].meal_card.balance.0 == 0,
    {
        let new_student = Student::builder(name, level).build();
        self.next_id = self.next_id + 1;
        let student_id = self.next_id;
        self.students.insert(student_id, new_student);
        student_id
    }

    /// Mark the student under `student_id` as suspended for `reason`, leaving
    /// everything else about them untouched. Fails, and changes nothing, when
    /// no student is registered under that identifier.
    pub fn suspend_student(&mut self, student_id: StudentId, reason: &str) -> (r: Result<
        (),
        CampusMealSystemError,
    >)
        requires
            old(self).wf(),
        ensures
            final(self).next_id == old(self).next_id,
            final(self).wf(),
            old(self).students@.contains_key(student_id) ==> {
                &&& r is Ok
                &&& final(self).students@ == old(self).students@.insert(
                    student_id,
                    final(self).students@[student_id],
                )
                &&& final(self).students@[student_id].status matches StudentStatus::Suspended(m)
                    && m@ == reason@
                &&& final(self).students@[student_id].name == old(
                    self,
                ).students@[student_id].name
                &&& final(self).students@[student_id].level == old(
                    self,
                ).students@[student_id].level
                &&& final(self).students@[student_id].meal_card == old(
                    self,
                ).students@[student_id].meal_card
            },
            !old(self).students@.contains_key(student_id) ==> {
                &&& final(self).students@ == old(self).students@
                &&& r matches Err(CampusMealSystemError::StudentIdError(m)) && m@ == "student with ID: "@
                    + dec_digits(student_id as nat) + " does not exist in this collection"@
            },
    {
        match self.students.remove(&student_id) {
            Some(s) => {
                let suspended = Student {
                    name: s.name,
                    level: s.level,
                    status: StudentStatus::Suspended(reason.to_owned()),
                    meal_card: s.meal_card,
                };
                self.students.insert(student_id, suspended);
                proof {
                    assert(self.students@ =~= old(self).students@.insert(
                        student_id,
                        self.students@[student_id],
                    ));
                }
                Ok(())
            },
            None => {
                let mut m = "student with ID: ".to_owned();
                let rendered = u32_to_string(student_id);
                m.append(rendered.as_str());
                m.append(" does not exist in this collection");
                proof {
                    assert(m@ =~= "student with ID: "@ + dec_digits(student_id as nat)
                        + " does not exist in this collection"@);
                }
                Err(CampusMealSystemError::StudentIdError(m))
            },
        }
    }

    /// Carry out one meal-card transaction for the student under `id` and
    /// return the card's new balance. Fails, and changes nothing, when no
    /// student is registered under that identifier or when the card rejects
    /// the transaction.
    pub fn process_transaction(&mut self, id: StudentId, txn: TransactionType) -> (r: Result<
        u64,
        TransactionError,
    >)
        requires
            old(self).wf(),
            old(self).students@.contains_key(id) ==> credit_fits(old(self).students@[id], txn),
        ensures
            final(self).next_id == old(self).next_id,
            final(self).wf(),
            !old(self).students@.contains_key(id) ==> {
                &&& final(self).students@ == old(self).students@
                &&& r matches Err(TransactionError::StudentNotFound(m)) && m@ == "Student "@
                    + dec_digits(id as nat) + " does not exist"@
            },
            old(self).students@.contains_key(id) ==> {
                &&& final(self).students@.contains_key(id)
                &&& txn_outcome(old(self).students@[id], txn, r, final(self).students@[id])
                &&& final(self).students@ == old(self).students@.insert(
                    id,
                    final(self).students@[id],
                )
                &&& r is Err ==> final(self).students@ == old(self).students@
            },
    {
        match self.students.remove(&id) {
            Some(mut student) => {
                let result = student.apply_transaction(txn);
                self.students.insert(id, student);
                proof {
                    assert(self.students@ =~= old(self).students@.insert(
                        id,
                        self.students@[id],
                    ));
                    if result is Err {
                        assert(self.students@ =~= old(self).students@);
                    }
                }
                result
            },
            None => {
                let mut m = "Student ".to_owned();
                let rendered = u32_to_string(id);
                m.append(rendered.as_str());
                m.append(" does not exist");
                proof {
                    assert(m@ =~= "Student "@ + dec_digits(id as nat) + " does not exist"@);
                }
                Err(TransactionError::StudentNotFound(m))
            },
        }
    }

    /// A reference to the student under `student_id`, if any.
    pub fn get_student(&self, student_id: StudentId) -> (r: Option<&Student>)
        ensures
            r matches Some(s) ==> self.students@.contains_key(student_id) && *s
                == self.students@[student_id],
            r is None ==> !self.students@.contains_key(student_id),
    {
        self.students.get(&student_id)
    }

    /// Consume the system and keep exactly the active students, under their
    /// identifiers.
    pub fn list_active_students(self) -> (r: HashMap<StudentId, Student>)
        requires
            self.wf(),
        ensures
            forall|id: StudentId| #[trigger]
                r@.contains_key(id) <==> (self.students@.contains_key(id)
                    && self.students@[id].status is Active),
            forall|id: StudentId| #[trigger] r@.contains_key(id) ==> r@[id]
                == self.students@[id],
    {
        let ghost orig = self.students@;
        let n = self.next_id;
        let mut this = self;
        let mut out: HashMap<StudentId, Student> = HashMap::new();
        let mut i: u64 = 1;
        while i <= n as u64
            invariant
                1 <= i <= n as u64 + 1,
                forall|k: StudentId| #[trigger]
                    this.students@.contains_key(k) <==> (orig.contains_key(k) && k >= i),
                forall|k: StudentId| #[trigger] this.students@.contains_key(k)
                    ==> this.students@[k] == orig[k],
                forall|k: StudentId| #[trigger]
                    out@.contains_key(k) <==> (orig.contains_key(k) && k < i
                        && orig[k].status is Active),
                forall|k: StudentId| #[trigger] out@.contains_key(k) ==> out@[k] == orig[k],
                forall|k: StudentId| #[trigger] orig.contains_key(k) <==> 1 <= k <= n,
            decreases n as u64 + 1 - i,
        {
            let key = i as u32;
            match this.students.remove(&key) {
                Some(s) => {
                    let keep = match &s.status {
                        StudentStatus::Active => true,
                        _ => false,
                    };
                    if keep {
                        out.insert(key, s);
                    }
                },
                None => {},
            }
            i = i + 1;
        }
        out
    }
}

} // verus!
