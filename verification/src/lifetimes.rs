//! Borrow-returning helpers: the longer of two strings, a fixed pick, an
//! excerpt holder, and the first word again with explicit lifetimes.

use vstd::prelude::*;
use vstd::string::*;

verus! {

/// The longer of the two strings, in characters; ties go to the second.
pub fn longest<'a>(x: &'a str, y: &'a str) -> (r: &'a str)
    ensures
        r@ == if x@.len() > y@.len() {
            x@
        } else {
            y@
        },
{
    if x.unicode_len() > y.unicode_len() {
        x
    } else {
        y
    }
}

/// Always the first of the two strings.
pub fn longest_one<'a>(x: &'a str, y: &str) -> (r: &'a str)
    ensures
        r@ == x@,
{
    let _ = y;
    x
}

/// A part of some longer text, borrowed from it.
pub struct Import<'a> {
    pub part: &'a str,
}

impl<'a, 'b> Import<'a> {
    /// The importance level, a fixed scale for now.
    pub fn level(&self) -> (r: i32)
        ensures
            r == 3,
    {
        3
    }

    /// Hands the held part back; the announcement itself is the caller's
    /// to display.
    pub fn announce_and_return_part(&'a self, announcement: &'b str) -> (r: &'a str)
        ensures
            r@ == self.part@,
    {
        let _ = announcement;
        self.part
    }
}

/// The first word: the longest prefix without a space, as in
/// [`crate::borrowing::first_word`].
pub fn _first_word<'a>(s: &'a str) -> (r: &'a str)
    ensures
        r@.len() <= s@.len(),
        r@ == s@.subrange(0, r@.len() as int),
        forall|k: int| 0 <= k < r@.len() ==> s@[k] != ' ',
        r@.len() < s@.len() ==> s@[r@.len() as int] == ' ',
{
    let len = s.unicode_len();
    let mut i: usize = 0;
    while i < len
        invariant
            i <= len,
            len == s@.len(),
            forall|k: int| 0 <= k < i ==> s@[k] != ' ',
        decreases len - i,
    {
        if s.get_char(i) == ' ' {
            let r = s.substring_char(0, i);
            return r;
        }
        i += 1;
    }
    proof {
        assert(s@.subrange(0, s@.len() as int) =~= s@);
    }
    s
}

} // verus!
