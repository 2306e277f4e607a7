//! A restaurant: what guests meet at the front, and the kitchen behind it.

pub mod back_of_house;
pub mod hosting;
pub mod serving;

use vstd::prelude::*;

verus! {

/// Puts a party on the waiting list, reaching the host by an absolute and
/// then by a relative path.
pub fn _eat_at_restaurant() {
    crate::restaurant::hosting::add_to_waitlist();
    hosting::add_to_waitlist();
}

/// Brings a finished order to its table.
fn deliver_order() {
}

/// Orders a summer breakfast on rye, changes the bread to wheat, and gives
/// the line that asks for it.
pub fn eat_at_restaurant() -> (r: String)
    ensures
        r@ == "I'd like "@ + "Wheat"@ + " toast please"@,
{
    let mut meal = back_of_house::Breakfast::summer("Rye");
    meal.set_toast("Wheat");
    let mut r = String::from_str("I'd like ");
    r.append(meal.toast());
    r.append(" toast please");
    r
}

/// Orders one appetizer of each kind.
pub fn eat_again() {
    let _order1 = back_of_house::Appetizer::Soup;
    let _order2 = back_of_house::Appetizer::Salad;
}

} // verus!
