//! What a guest does.

use vstd::prelude::*;

verus! {

/// Has a meal.
pub fn eat_at_restaurant() {
}

} // verus!
