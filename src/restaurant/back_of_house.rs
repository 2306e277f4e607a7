//! The kitchen.

use vstd::prelude::*;

verus! {

/// Cooks an order again after a complaint and brings it out.
pub fn fix_incorrect_order() {
    cook_order();
    super::deliver_order();
}

/// Cooks an order.
pub fn cook_order() {
}

/// A breakfast: the guest picks the toast, the kitchen picks the fruit.
pub struct Breakfast {
    pub toast: String,
    seasonal_fruit: String,
}

impl Breakfast {
    /// The toast that the guest picked.
    pub closed spec fn spec_toast(&self) -> Seq<char> {
        self.toast@
    }

    /// The fruit that the kitchen picked.
    pub closed spec fn spec_fruit(&self) -> Seq<char> {
        self.seasonal_fruit@
    }

    /// A summer breakfast with the given toast; the fruit is peaches.
    pub fn summer(toast: &str) -> (r: Breakfast)
        ensures
            r.spec_toast() == toast@,
            r.spec_fruit() == "peaches"@,
    {
        Breakfast { toast: String::from_str(toast), seasonal_fruit: String::from_str("peaches") }
    }

    /// The toast that the guest picked.
    pub fn toast(&self) -> (r: &str)
        ensures
            r@ == self.spec_toast(),
    {
        self.toast.as_str()
    }

    /// Changes the toast; the fruit stays.
    pub fn set_toast(&mut self, toast: &str)
        ensures
            final(self).spec_toast() == toast@,
            final(self).spec_fruit() == old(self).spec_fruit(),
    {
        self.toast = String::from_str(toast);
    }
}

/// A dish served before the meal.
#[derive(Debug, Clone, Copy, PartialEq, Eq, Structural)]
pub enum Appetizer {
    Soup,
    Salad,
}

} // verus!
