//! A box of one's own, and a cons list whose tail can be inspected.

use vstd::prelude::*;

verus! {

/// A one-field wrapper around any value.
pub struct MyBox<T>(pub T);

impl<T> MyBox<T> {
    /// Wraps the value.
    pub fn new(x: T) -> (r: MyBox<T>)
        ensures
            r.0 == x,
    {
        MyBox(x)
    }
}

/// A cons list: a head and a boxed rest, or the end.
pub enum List<T> {
    Cons(T, Box<List<T>>),
    Nil,
}

impl<T> List<T> {
    /// The rest of the list after the head, if there is a head.
    pub fn tail(&self) -> (r: Option<&List<T>>)
        ensures
            match self {
                List::Cons(_, rest) => r is Some && r->0 == &**rest,
                List::Nil => r is None,
            },
    {
        match self {
            List::Cons(_, item) => Some(&**item),
            List::Nil => None,
        }
    }
}

} // verus!
