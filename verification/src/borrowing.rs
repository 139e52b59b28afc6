//! Functions that borrow strings: in-place growth, length, and the first
//! word of a sentence.

use vstd::prelude::*;
use vstd::string::*;

verus! {

/// Appends " world" in place.
pub fn change(s: &mut String)
    ensures
        final(s)@ == old(s)@ + " world"@,
{
    s.append(" world");
}

/// The length of the borrowed string, in characters.
pub fn calculate_length(s: &String) -> (r: usize)
    ensures
        r == s@.len(),
{
    s.as_str().unicode_len()
}

/// The first word: the longest prefix without a space. If a space occurs,
/// the prefix stops right before the first one; otherwise the whole string
/// is the word.
pub fn first_word(s: &str) -> (r: &str)
    ensures
        r@.len() <= s@.len(),
        r@ == s@.subrange(0, r@.len() as int),
        forall|k: int| 0 <= k < r@.len() ==> s@[k] != ' ',
        r@.len() < s@.len() ==> s@[r@.len() as int] == ' ',
{
    let len = s.unicode_len();
    let mut i: usize = 0;
    while i < len
        invariant
            i <= len,
            len == s@.len(),
            forall|k: int| 0 <= k < i ==> s@[k] != ' ',
        decreases len - i,
    {
        if s.get_char(i) == ' ' {
            let r = s.substring_char(0, i);
            return r;
        }
        i += 1;
    }
    proof {
        assert(s@.subrange(0, s@.len() as int) =~= s@);
    }
    s
}

} // verus!
