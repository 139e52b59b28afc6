//! Coins, quarters stamped with a state, and option-valued successor.

use vstd::prelude::*;

verus! {

/// The states a quarter can be stamped with here.
#[derive(Clone, Copy, PartialEq, Eq, Structural, Debug)]
pub enum UsState {
    Alabama,
    Alaska,
}

/// A coin of the usual denominations.
#[derive(Clone, Copy, PartialEq, Eq, Structural, Debug)]
pub enum Coin {
    Penny,
    Nickel,
    Dime,
    Quarter(UsState),
}

/// The face value of a coin in cents.
pub fn value_in_cents(coin: Coin) -> (r: u8)
    ensures
        coin is Penny ==> r == 1,
        coin is Nickel ==> r == 5,
        coin is Dime ==> r == 10,
        coin is Quarter ==> r == 25,
{
    match coin {
        Coin::Penny => 1,
        Coin::Nickel => 5,
        Coin::Dime => 10,
        Coin::Quarter(_state) => 25,
    }
}

/// Adds one inside the option; `None` stays `None`.
pub fn plus_one(x: Option<i32>) -> (r: Option<i32>)
    requires
        x is Some ==> x->0 < i32::MAX,
    ensures
        match x {
            Some(v) => r is Some && r->0 == v + 1,
            None => r is None,
        },
{
    match x {
        Some(v) => Some(v + 1),
        None => None,
    }
}

} // verus!
