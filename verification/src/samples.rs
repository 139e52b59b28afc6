//! Small arithmetic and greeting helpers with exact contracts, together
//! with a guarded `Guess` value and a rectangle-containment check.

use vstd::prelude::*;
use vstd::string::*;

verus! {

/// Adds two to `a` by way of the shared private adder.
pub fn add_two2(a: i32) -> (r: i32)
    requires
        a + 2 <= i32::MAX,
    ensures
        r == a + 2,
{
    internal_adder(a, 2)
}

/// Sums two machine integers; the sum must fit.
pub fn internal_adder(a: i32, b: i32) -> (r: i32)
    requires
        i32::MIN <= a + b <= i32::MAX,
    ensures
        r == a + b,
{
    a + b
}

/// Sums two machine integers; the sum must fit.
pub fn add(x: usize, y: usize) -> (r: usize)
    requires
        x + y <= usize::MAX,
    ensures
        r == x + y,
{
    x + y
}

/// Adds two to `a`; the sum must fit.
pub fn add_two(a: i32) -> (r: i32)
    requires
        a + 2 <= i32::MAX,
    ensures
        r == a + 2,
{
    a + 2
}

/// Returns a fixed greeting, whoever is addressed.
pub fn greeting(name: &str) -> (r: String)
    ensures
        r@ == "Hello!"@,
{
    String::from_str("Hello!")
}

/// A rectangle measured in whole units.
pub struct Rectangle {
    pub width: u32,
    pub heigth: u32,
}

impl Rectangle {
    /// True exactly when `self` is strictly wider and taller than `other`.
    pub fn can_hold(&self, other: &Rectangle) -> (r: bool)
        ensures
            r == (self.width > other.width && self.heigth > other.heigth),
    {
        self.width > other.width && self.heigth > other.heigth
    }
}

/// A guess that is known to lie between 1 and 100.
pub struct Guess {
    value: i32,
}

impl Guess {
    /// The wrapped value, for contracts.
    pub closed spec fn spec_value(&self) -> i32 {
        self.value
    }

    /// Wraps a value from 1 to 100; any other value is the caller's error.
    pub fn new(value: i32) -> (r: Guess)
        requires
            1 <= value <= 100,
        ensures
            r.spec_value() == value,
    {
        Guess { value }
    }

    /// Reads the guarded value back.
    pub fn value(&self) -> (r: i32)
        ensures
            r == self.spec_value(),
    {
        self.value
    }
}

} // verus!
