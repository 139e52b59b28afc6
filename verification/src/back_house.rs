//! The back of house on its own: the kitchen's view of breakfasts,
//! starters, and fixing an order that went out wrong.

use vstd::prelude::*;
use vstd::string::*;

verus! {

/// A breakfast as the kitchen sees it: the customer's toast, the
/// kitchen's fruit.
pub struct Breakfase {
    pub toast: String,
    seasonal_fruit: String,
}

impl Breakfase {
    /// The chosen toast, for contracts.
    pub closed spec fn spec_toast(&self) -> Seq<char> {
        self.toast@
    }

    /// The fruit that came with the meal, for contracts.
    pub closed spec fn spec_fruit(&self) -> Seq<char> {
        self.seasonal_fruit@
    }

    /// The summer breakfast: the chosen toast with peaches on the side.
    pub fn summer(toast: &str) -> (r: Breakfase)
        ensures
            r.spec_toast() == toast@,
            r.spec_fruit() == "peaches"@,
    {
        Breakfase { toast: toast.to_owned(), seasonal_fruit: String::from_str("peaches") }
    }
}

/// A starter: soup or salad.
#[derive(Clone, Copy, PartialEq, Eq, Structural, Debug)]
pub enum Appetizer {
    Soup,
    Salad,
}

/// Re-cooks here and sends the order back out front.
pub fn fix_incorrect_order() {
    cook_order();
    crate::restaurant::deliver_order();
}

/// Prepares an order in this kitchen.
pub fn cook_order() {
}

} // verus!
