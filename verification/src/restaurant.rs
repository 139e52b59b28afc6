//! The front and back of a restaurant: seating, the waitlist, orders,
//! and a breakfast that lets the customer pick only the toast.

use vstd::prelude::*;
use vstd::string::*;

verus! {

/// Puts the party on the waitlist.
pub fn add_to_waitlist() {
}

/// Seats the party at a table.
pub fn seat_at_table() {
}

/// Hands a finished order to the customer.
pub fn deliver_order() {
}

/// Prepares an order in the kitchen.
pub fn cook_order() {
}

/// Re-cooks and re-delivers an order that went out wrong.
pub fn fix_incorrect_order() {
    cook_order();
    deliver_order();
}

/// A breakfast: the customer chooses the toast, the kitchen chooses the
/// seasonal fruit.
pub struct Breakfase {
    pub toast: String,
    seasonal_fruit: String,
}

impl Breakfase {
    /// The chosen toast, for contracts.
    pub closed spec fn spec_toast(&self) -> Seq<char> {
        self.toast@
    }

    /// The fruit that came with the meal, for contracts.
    pub closed spec fn spec_fruit(&self) -> Seq<char> {
        self.seasonal_fruit@
    }

    /// The summer breakfast: the chosen toast with peaches on the side.
    pub fn summer(toast: &str) -> (r: Breakfase)
        ensures
            r.spec_toast() == toast@,
            r.spec_fruit() == "peaches"@,
    {
        Breakfase { toast: toast.to_owned(), seasonal_fruit: String::from_str("peaches") }
    }
}

/// A starter: soup or salad.
#[derive(Clone, Copy, PartialEq, Eq, Structural, Debug)]
pub enum Appetizer {
    Soup,
    Salad,
}

} // verus!
