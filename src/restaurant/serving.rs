//! Waiting on tables.

use vstd::prelude::*;

verus! {

/// Writes down what a table orders.
pub fn take_order() {
}

/// Brings an order to its table.
pub fn serve_order() {
}

/// Settles the bill.
pub fn take_payment() {
}

} // verus!
