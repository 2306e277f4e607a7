//! Functions with parameters and results, and kinds of address that pass through them.

use vstd::prelude::*;

verus! {

/// Returns five.
pub fn function_return() -> (r: i32)
    ensures
        r == 5,
{
    5
}

/// The sum of `x` and `y`, for a sum that fits in `i32`.
pub fn add_nums(x: i32, y: i32) -> (r: i32)
    requires
        i32::MIN <= x + y <= i32::MAX,
    ensures
        r == x + y,
{
    x + y
}

/// The version of an IP address.
#[derive(Debug, Clone, Copy, PartialEq, Eq, Structural)]
pub enum IpAddrKind {
    V4,
    V6,
}

/// Routes an address of the given kind, handing the kind back.
pub fn route(ip_kind: IpAddrKind) -> (r: IpAddrKind)
    ensures
        r == ip_kind,
{
    ip_kind
}

} // verus!
