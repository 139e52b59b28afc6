//! Functions that move owned strings in and out, with contracts that pin
//! the moved values.

use vstd::prelude::*;
use vstd::string::*;

verus! {

/// Returns the string together with its length in characters.
pub fn calculate_length(s: String) -> (r: (String, usize))
    ensures
        r.0@ == s@,
        r.1 == s@.len(),
{
    let length = s.as_str().unicode_len();
    (s, length)
}

/// Hands a fresh owned string to the caller.
pub fn gives_ownership() -> (r: String)
    ensures
        r@ == "yours"@,
{
    let some_string = String::from_str("yours");
    some_string
}

/// Takes a string and gives the very same one back.
pub fn takes_and_gives_back(a_string: String) -> (r: String)
    ensures
        r@ == a_string@,
{
    a_string
}

} // verus!
