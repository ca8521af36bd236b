//! A small front-of-house/back-of-house menu model.

use vstd::prelude::*;
use vstd::string::StringExecFns;

verus! {

/// Puts a party on the waiting list.  The list itself lives with the host;
/// nothing about the order changes.
pub fn add_to_waitlist() {
}

/// A breakfast order: the customer picks the toast, the kitchen picks the
/// seasonal fruit.
pub struct Breakfast {
    /// The kind of toast, chosen by the customer.
    pub toast: String,
    seasonal_fruit: String,
}

/// A starter.
pub enum Appetizer {
    /// The soup of the day.
    Soup,
    /// The house salad.
    Salad,
}

impl Breakfast {
    /// The chosen toast, for specifications.
    pub closed spec fn toast_kind(&self) -> Seq<char> {
        self.toast@
    }

    /// The fruit the kitchen chose, for specifications.
    pub closed spec fn fruit(&self) -> Seq<char> {
        self.seasonal_fruit@
    }

    /// The summer breakfast: the requested toast, served with peaches.
    pub fn summer(toast: &str) -> (b: Breakfast)
        ensures
            b.toast_kind() == toast@,
            b.fruit() == "peaches"@,
    {
        Breakfast {
            toast: String::from_str(toast),
            seasonal_fruit: String::from_str("peaches"),
        }
    }
}

} // verus!
