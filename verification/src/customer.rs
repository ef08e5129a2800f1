//! Customers: the owners that accounts refer to by identifier.

use vstd::prelude::*;

verus! {

/// A customer identifier, used by accounts as an owner reference.
pub type CustomerId = u64;

/// A customer: an identifier and a display name.
#[derive(Debug)]
pub struct Customer {
    pub id: CustomerId,
    pub name: String,
}

impl Customer {
    /// Begin building a customer; the name defaults to empty.
    pub fn builder(id: CustomerId) -> (r: CustomerBuilder)
        ensures
            r.id == id,
            r.name is None,
    {
        CustomerBuilder { id, name: None }
    }
}

/// Builds a [`Customer`], defaulting the name to empty where it is not set.
#[derive(Debug)]
pub struct CustomerBuilder {
    pub id: CustomerId,
    pub name: Option<String>,
}

impl CustomerBuilder {
    /// Set the customer's name.
    pub fn name(self, name: &str) -> (r: Self)
        ensures
            r.id == self.id,
            r.name matches Some(n) && n@ == name@,
    {
        CustomerBuilder { name: Some(name.to_owned()), ..self }
    }

    /// Finish the customer, filling in an empty name where none was set.
    pub fn build(self) -> (r: Customer)
        ensures
            r.id == self.id,
            r.name@ == (if self.name is Some { self.name->0@ } else { Seq::<char>::empty() }),
    {
        Customer {
            id: self.id,
            name: match self.name {
                Some(n) => n,
                None => String::new(),
            },
        }
    }
}

} // verus!
