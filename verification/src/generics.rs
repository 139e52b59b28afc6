//! Finding the largest element of a slice, and small generic containers.

use vstd::prelude::*;
use vstd::slice::slice_index_get;

verus! {

/// A reference to the largest number in a non-empty slice.
pub fn largest<'a>(list: &'a [i32]) -> (r: &'a i32)
    requires
        list@.len() > 0,
    ensures
        list@.contains(*r),
        forall|k: int| 0 <= k < list@.len() ==> list@[k] <= *r,
{
    let mut best: usize = 0;
    let mut i: usize = 1;
    while i < list.len()
        invariant
            best < i <= list@.len(),
            forall|k: int| 0 <= k < i ==> list@[k] <= list@[best as int],
        decreases list@.len() - i,
    {
        let vi = *slice_index_get(list, i);
        let vb = *slice_index_get(list, best);
        if vi > vb {
            best = i;
        }
        i += 1;
    }
    proof {
        assert(list@.contains(list@[best as int]));
    }
    slice_index_get(list, best)
}

/// A reference to the largest character (by code point) in a non-empty
/// slice.
pub fn char_max<'a>(chars: &'a [char]) -> (r: &'a char)
    requires
        chars@.len() > 0,
    ensures
        chars@.contains(*r),
        forall|k: int| 0 <= k < chars@.len() ==> chars@[k] as u32 <= *r as u32,
{
    let mut best: usize = 0;
    let mut i: usize = 1;
    while i < chars.len()
        invariant
            best < i <= chars@.len(),
            forall|k: int| 0 <= k < i ==> chars@[k] as u32 <= chars@[best as int] as u32,
        decreases chars@.len() - i,
    {
        let vi = *slice_index_get(chars, i);
        let vb = *slice_index_get(chars, best);
        if vi as u32 > vb as u32 {
            best = i;
        }
        i += 1;
    }
    proof {
        assert(chars@.contains(chars@[best as int]));
    }
    slice_index_get(chars, best)
}

/// A reference to an element no earlier element exceeds under `>`, by a
/// linear scan. For an arbitrary `PartialOrd` nothing is known of what
/// `>` computes, so only membership in the slice is promised here;
/// [`largest`] and [`char_max`] carry the full contracts for their types.
pub fn max_one<T: PartialOrd>(list: &[T]) -> (r: &T)
    requires
        list@.len() > 0,
    ensures
        exists|k: int| 0 <= k < list@.len() && *r == list@[k],
{
    let mut best: usize = 0;
    let mut i: usize = 1;
    while i < list.len()
        invariant
            best < i <= list@.len(),
        decreases list@.len() - i,
    {
        let vi = slice_index_get(list, i);
        let vb = slice_index_get(list, best);
        if vi > vb {
            best = i;
        }
        i += 1;
    }
    slice_index_get(list, best)
}

/// A point with both coordinates of one type.
pub struct Point<T> {
    x: T,
    y: T,
}

impl<T> Point<T> {
    /// The first coordinate, for contracts.
    pub closed spec fn spec_x(&self) -> T {
        self.x
    }

    /// The second coordinate, for contracts.
    pub closed spec fn spec_y(&self) -> T {
        self.y
    }

    /// Wraps two coordinates.
    pub fn new(x: T, y: T) -> (r: Self)
        ensures
            r.spec_x() == x,
            r.spec_y() == y,
    {
        Point { x, y }
    }

    /// Borrows the first coordinate.
    pub fn x(&self) -> (r: &T)
        ensures
            *r == self.spec_x(),
    {
        &self.x
    }

    /// Borrows the second coordinate.
    pub fn y(&self) -> (r: &T)
        ensures
            *r == self.spec_y(),
    {
        &self.y
    }
}

/// A point whose coordinates may have two different types.
pub struct Po<X1, Y1> {
    pub x: X1,
    pub y: Y1,
}

impl<X1, Y1> Po<X1, Y1> {
    /// Keeps this point's first coordinate and the other point's second.
    pub fn mixup<X2, Y2>(self, other: Po<X2, Y2>) -> (r: Po<X1, Y2>)
        ensures
            r.x == self.x,
            r.y == other.y,
    {
        Po { x: self.x, y: other.y }
    }
}

} // verus!
