//! The kitchen side of a restaurant.
use vstd::prelude::*;

verus! {

pub enum Appetizer {
    Soup,
    Salad,
}

/// A breakfast: the guest picks the toast, the kitchen picks the fruit.
pub struct Breakfast {
    pub toast: String,
    seasonal_fruit: String,
}

impl Breakfast {
    /// The toast the guest chose.
    pub closed spec fn toast_of(&self) -> Seq<char> {
        self.toast@
    }

    /// The fruit that comes with it.
    pub closed spec fn fruit(&self) -> Seq<char> {
        self.seasonal_fruit@
    }

    /// A summer breakfast, served with peaches.
    pub fn summer(toast: &str) -> (b: Breakfast)
        ensures
            b.toast_of() == toast@,
            b.fruit() == "peaches"@,
    {
        Breakfast { toast: String::from_str(toast), seasonal_fruit: String::from_str("peaches") }
    }
}

/// Sends a wrongly served order back to be cooked again.
pub fn fix_incorrect_order() {
    cook_order();
}

pub fn cook_order() {
}

} // verus!
