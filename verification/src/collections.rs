//! An in-place bubble sort proved to sort and to keep exactly the same
//! elements, and a reader for the last character of a text's first line.

use vstd::prelude::*;
use vstd::string::*;
use vstd::multiset::Multiset;

verus! {

/// Non-decreasing order.
pub open spec fn sorted(s: Seq<i32>) -> bool {
    forall|a: int, b: int| 0 <= a <= b < s.len() ==> s[a] <= s[b]
}

/// Overwriting one position exchanges exactly the overwritten element in
/// the multiset of contents.
proof fn lemma_to_multiset_update<A>(s: Seq<A>, i: int, x: A)
    requires
        0 <= i < s.len(),
    ensures
        s.update(i, x).to_multiset() =~= s.to_multiset().remove(s[i]).insert(x),
{
    broadcast use vstd::seq_lib::group_to_multiset_ensures;
    broadcast use vstd::multiset::group_multiset_axioms;

    let upd = s.update(i, x);
    assert(upd.remove(i) =~= s.remove(i));
    assert(upd.remove(i).to_multiset() == upd.to_multiset().remove(x));
    assert(s.remove(i).to_multiset() == s.to_multiset().remove(s[i]));
    assert(upd.contains(x)) by {
        assert(upd[i] == x);
    }
    assert(s.contains(s[i])) by {
        assert(s[i] == s[i]);
    }
    assert(upd.to_multiset().count(x) > 0);
    assert(s.to_multiset().count(s[i]) > 0);
    assert forall|v: A|
        upd.to_multiset().count(v) == s.to_multiset().remove(s[i]).insert(x).count(v) by {
        assert(upd.to_multiset().remove(x).count(v) == s.to_multiset().remove(s[i]).count(v));
    }
}

/// Sorts the vector in place: afterwards it is in non-decreasing order
/// and holds exactly the elements it held before.
pub fn bubble_sort(vec: &mut Vec<i32>)
    ensures
        sorted(final(vec)@),
        final(vec)@.to_multiset() == old(vec)@.to_multiset(),
{
    broadcast use vstd::seq_lib::group_to_multiset_ensures;
    broadcast use vstd::multiset::group_multiset_axioms;

    let n = vec.len();
    let mut i: usize = 0;
    while i < n
        invariant
            i <= n,
            n == vec@.len(),
            vec@.to_multiset() == old(vec)@.to_multiset(),
            forall|a: int, b: int| n - i <= a <= b < n ==> vec@[a] <= vec@[b],
            forall|a: int, b: int| 0 <= a < n - i <= b < n ==> vec@[a] <= vec@[b],
        decreases n - i,
    {
        let m = n - i - 1;
        let mut j: usize = 0;
        while j < m
            invariant
                j <= m,
                m == n - i - 1,
                i < n,
                n == vec@.len(),
                vec@.to_multiset() == old(vec)@.to_multiset(),
                forall|a: int, b: int| n - i <= a <= b < n ==> vec@[a] <= vec@[b],
                forall|a: int, b: int| 0 <= a < n - i <= b < n ==> vec@[a] <= vec@[b],
                forall|k: int| 0 <= k < j ==> vec@[k] <= vec@[j as int],
            decreases m - j,
        {
            if vec[j] > vec[j + 1] {
                let ghost before = vec@;
                let a = vec[j];
                let b = vec[j + 1];
                vec.set(j, b);
                vec.set(j + 1, a);
                proof {
                    broadcast use vstd::seq_lib::group_to_multiset_ensures;
                    broadcast use vstd::multiset::group_multiset_axioms;

                    lemma_to_multiset_update(before, j as int, b);
                    lemma_to_multiset_update(before.update(j as int, b), j as int + 1, a);
                    assert(before.update(j as int, b)[j as int + 1] == b);
                    assert(before.to_multiset().count(a) >= 1) by {
                        assert(before.contains(a)) by {
                            assert(before[j as int] == a);
                        }
                    }
                    assert forall|v: i32|
                        vec@.to_multiset().count(v) == before.to_multiset().count(v) by {
                        assert(vec@.to_multiset() == before.update(j as int, b).to_multiset()
                            .remove(b).insert(a));
                        assert(before.update(j as int, b).to_multiset() == before.to_multiset()
                            .remove(a).insert(b));
                    }
                    assert(vec@.to_multiset() =~= before.to_multiset());
                }
            }
            j += 1;
        }
        i += 1;
    }
}

/// The characters of the first line: everything before the first line
/// feed, if any.
pub open spec fn before_newline(s: Seq<char>) -> Seq<char>
    decreases s.len(),
{
    if s.len() == 0 {
        s
    } else if s[0] == '\n' {
        Seq::empty()
    } else {
        seq![s[0]] + before_newline(s.drop_first())
    }
}

/// The first line as the standard line reader yields it: the prefix
/// before the first line feed, with a carriage return dropped from its
/// end when the line feed was actually found.
pub open spec fn first_line(s: Seq<char>) -> Seq<char> {
    let p = before_newline(s);
    if p.len() < s.len() && p.len() > 0 && p.last() == '\r' {
        p.drop_last()
    } else {
        p
    }
}

/// A prefix free of line feeds that ends the text or stops at one is the
/// prefix before the first line feed.
pub proof fn lemma_before_newline(s: Seq<char>, i: int)
    requires
        0 <= i <= s.len(),
        forall|k: int| 0 <= k < i ==> s[k] != '\n',
        i < s.len() ==> s[i] == '\n',
    ensures
        before_newline(s) =~= s.subrange(0, i),
    decreases s.len(),
{
    if s.len() == 0 || s[0] == '\n' {
    } else {
        lemma_before_newline(s.drop_first(), i - 1);
        assert(s.subrange(0, i) =~= seq![s[0]] + s.drop_first().subrange(0, i - 1));
    }
}

/// The last character of the first line of `text`, or nothing when that
/// line is empty (or there is no text at all).
pub fn last_char_of_first_line(text: &str) -> (r: Option<char>)
    ensures
        first_line(text@).len() == 0 ==> r is None,
        first_line(text@).len() > 0 ==> r == Some(first_line(text@).last()),
{
    let len = text.unicode_len();
    let mut i: usize = 0;
    while i < len && text.get_char(i) != '\n'
        invariant
            i <= len,
            len == text@.len(),
            forall|k: int| 0 <= k < i ==> text@[k] != '\n',
        decreases len - i,
    {
        i += 1;
    }
    proof {
        lemma_before_newline(text@, i as int);
    }
    let mut end = i;
    if i < len && end > 0 {
        if text.get_char(end - 1) == '\r' {
            end = end - 1;
        }
    }
    proof {
        assert(first_line(text@) =~= text@.subrange(0, end as int));
    }
    if end == 0 {
        None
    } else {
        Some(text.get_char(end - 1))
    }
}

} // verus!
