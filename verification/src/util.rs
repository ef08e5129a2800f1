//! Small value types and helpers: unit-tagged quantities, string selection
//! and formatting, and a handful of one-step functions over owned and
//! borrowed values.

use vstd::prelude::*;
use vstd::string::{StringExecFns, StringSliceAdditionalSpecFns};
use vstd::utf8::encode_utf8;
use crate::digits::{dec_digits, u32_to_string};

verus! {

/// The UTF-8 byte length of a string's characters: the measure strings are
/// compared by when picking the longest.
pub open spec fn byte_len(s: Seq<char>) -> nat {
    encode_utf8(s).len()
}

/// The longest string of a non-empty slice, by byte length; among equally
/// long strings, the last.
pub fn longest_string(array_of_strings: &[String]) -> (r: &String)
    requires
        array_of_strings@.len() > 0,
    ensures
        exists|i: int|
            #![trigger array_of_strings@[i]]
            {
                &&& 0 <= i < array_of_strings@.len()
                &&& *r == array_of_strings@[i]
                &&& forall|j: int| 0 <= j < array_of_strings@.len() ==> byte_len(
                    #[trigger] array_of_strings@[j]@,
                ) <= byte_len(array_of_strings@[i]@)
                &&& forall|j: int| i < j < array_of_strings@.len() ==> byte_len(
                    #[trigger] array_of_strings@[j]@,
                ) < byte_len(array_of_strings@[i]@)
            },
{
    let mut best: usize = 0;
    let mut k: usize = 1;
    while k < array_of_strings.len()
        invariant
            array_of_strings@.len() > 0,
            best < k <= array_of_strings@.len(),
            forall|j: int| 0 <= j < k ==> byte_len(#[trigger] array_of_strings@[j]@) <= byte_len(
                array_of_strings@[best as int]@,
            ),
            forall|j: int| best < j < k ==> byte_len(#[trigger] array_of_strings@[j]@) < byte_len(
                array_of_strings@[best as int]@,
            ),
        decreases array_of_strings@.len() - k,
    {
        if array_of_strings[k].as_str().as_bytes().len() >= array_of_strings[best].as_str().as_bytes().len() {
            best = k;
        }
        k = k + 1;
    }
    &array_of_strings[best]
}

/// Hand an owned string straight back.
pub fn move_string(s: String) -> (r: String)
    ensures
        r == s,
{
    s
}

/// Double the integer behind the reference and hand the reference back.
pub fn take_mutable_ref_of_int(i: &mut u32) -> (r: &mut u32)
    requires
        *old(i) <= u32::MAX / 2,
    ensures
        *r == 2 * *old(i),
        *final(i) == *final(r),
{
    *i = *i * 2;
    i
}

/// Render a profile of name, age and status as a three-line summary.
pub fn destructure_tuple(t: (String, u32, bool)) -> (r: String)
    ensures
        r@ == "Name: "@ + t.0@ + "\nAge: "@ + dec_digits(t.1 as nat) + "\nStatus: "@ + (if t.2 {
            "true"@
        } else {
            "false"@
        }),
{
    let (name, age, status) = t;
    let mut r = "Name: ".to_owned();
    r.append(name.as_str());
    r.append("\nAge: ");
    let rendered = u32_to_string(age);
    r.append(rendered.as_str());
    r.append("\nStatus: ");
    if status {
        r.append("true");
    } else {
        r.append("false");
    }
    proof {
        assert(r@ =~= "Name: "@ + name@ + "\nAge: "@ + dec_digits(age as nat) + "\nStatus: "@ + (
        if status {
            "true"@
        } else {
            "false"@
        }));
    }
    r
}

/// A byte count.
#[derive(Debug, Clone, Copy, PartialEq, Eq, Structural)]
pub struct Bytes(pub u64);

/// A millisecond count.
#[derive(Debug, Clone, Copy, PartialEq, Eq, Structural)]
pub struct Milliseconds(pub u64);

/// The size after transferring: twice the input.
pub fn transfer(size: Bytes) -> (r: Bytes)
    requires
        size.0 <= u64::MAX / 2,
    ensures
        r.0 == 2 * size.0,
{
    Bytes(size.0 * 2)
}

/// The wait after backing off: twice the input.
pub fn wait(ms: Milliseconds) -> (r: Milliseconds)
    requires
        ms.0 <= u64::MAX / 2,
    ensures
        r.0 == 2 * ms.0,
{
    Milliseconds(ms.0 * 2)
}

/// Hand the borrowed string straight back.
pub fn return_ref_data_fix<'a>(input: &'a String) -> (r: &'a String)
    ensures
        r == input,
{
    input
}

/// A fixed greeting, owned by the caller.
pub fn return_back_ownership_of_owned_string() -> (r: String)
    ensures
        r@ == "good morning!"@,
{
    "good morning!".to_owned()
}

/// Whether `a` strictly exceeds `b`.
pub fn verify(a: i32, b: i32) -> (r: bool)
    ensures
        r == (a > b),
{
    if a > b {
        return true;
    }

    false
}

} // verus!
