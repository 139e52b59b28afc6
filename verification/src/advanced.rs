//! Functions as values: applying a function twice, returning a closure,
//! and a couple of small trait declarations.

use vstd::prelude::*;
use vstd::string::*;

verus! {

/// Applies `f` to `arg` twice and sums the two results; the sum of any
/// two possible results must fit.
pub fn do_twice<F: Fn(i32) -> i32>(f: F, arg: i32) -> (r: i32)
    requires
        call_requires(f, (arg,)),
        forall|a: i32, b: i32|
            call_ensures(f, (arg,), a) && call_ensures(f, (arg,), b) ==> i32::MIN <= a + b
                <= i32::MAX,
    ensures
        exists|a: i32, b: i32|
            call_ensures(f, (arg,), a) && call_ensures(f, (arg,), b) && r == a + b,
{
    let a = f(arg);
    let b = f(arg);
    a + b
}

/// The successor of `x`; the result must fit.
pub fn add_one(x: i32) -> (r: i32)
    requires
        x < i32::MAX,
    ensures
        r == x + 1,
{
    x + 1
}

/// Hands back a closure that adds one to any value below the maximum.
pub fn returns_closure() -> (f: impl Fn(i32) -> i32)
    ensures
        forall|x: i32| x < i32::MAX ==> #[trigger] call_requires(f, (x,)),
        forall|x: i32, y: i32| #[trigger] call_ensures(f, (x,), y) ==> y == x + 1,
{
    |x: i32| -> (y: i32)
        requires
            x < i32::MAX,
        ensures
            y == x + 1,
        { x + 1 }
}

/// A value in a stream of statuses, or the signal to stop.
#[derive(Clone, Copy, PartialEq, Eq, Structural, Debug)]
pub enum Status {
    Value(u32),
    Stop,
}

/// Accepts a reference to any value, sized or not.
pub fn generic<T: ?Sized>(t: &T) {
    let _ = t;
}

/// A dog.
pub struct Dog;

impl Dog {
    /// What a baby dog is called around here.
    pub fn baby_name() -> (r: String)
        ensures
            r@ == "Spot"@,
    {
        String::from_str("Spot")
    }
}

/// An iterator shaped by a type parameter instead of an associated type.
pub trait IteratorE<T> {
    /// The next element, if any.
    fn next(&mut self) -> Option<T>;
}

} // verus!
