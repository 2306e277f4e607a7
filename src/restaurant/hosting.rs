//! Receiving guests.

use vstd::prelude::*;

verus! {

/// Puts a party on the waiting list.
pub fn add_to_waitlist() {
}

/// Shows a party to its table.
pub fn seat_at_table() {
}

} // verus!
