//! The front desk of a restaurant, reached through `use` paths.

pub mod customer;
pub mod hosting;

use std::collections::HashMap;
use std::fmt::Result as FmtResult;
use std::io::Result as IoResult;
use vstd::prelude::*;

pub use crate::front_desk::hosting as host;

verus! {

/// Puts a party on the waiting list through the imported `hosting` module.
pub fn eat_at_restaurant() {
    hosting::add_to_waitlist();
}

/// Builds a map holding one entry, `1 => 2`.
pub fn insert() -> (r: HashMap<i32, i32>)
    ensures
        r@ == map![1i32 => 2i32],
{
    let mut map: HashMap<i32, i32> = HashMap::new();
    map.insert(1, 2);
    map
}

/// The formatting error type of std, carried through as it is.
#[verifier::external_type_specification]
#[verifier::external_body]
pub struct ExFmtError(std::fmt::Error);

/// The I/O error type of std, carried through as it is.
#[verifier::external_type_specification]
#[verifier::external_body]
pub struct ExIoError(std::io::Error);

/// Succeeds, with the result type of formatting.
pub fn function1() -> (r: std::fmt::Result)
    ensures
        r is Ok,
{
    Ok(())
}

/// Succeeds, with the result type of I/O.
pub fn function2() -> (r: std::io::Result<()>)
    ensures
        r is Ok,
{
    Ok(())
}

/// Succeeds, with the result type of formatting under an imported name.
pub fn function3() -> (r: FmtResult)
    ensures
        r is Ok,
{
    Ok(())
}

/// Succeeds, with the result type of I/O under an imported name.
pub fn function4() -> (r: IoResult<()>)
    ensures
        r is Ok,
{
    Ok(())
}

/// Calls each of the functions above, then the host under its other name.
pub fn call() {
    let _ = function1();
    let _ = function2();
    let _ = function3();
    let _ = function4();
    host::add_to_waitlist();
}

} // verus!
