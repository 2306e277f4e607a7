//! Shadowed bindings.

use vstd::prelude::*;

verus! {

/// The values that a run of shadowed bindings takes.
pub struct Shadowing {
    /// `x` in the inner block: the outer `x` doubled.
    pub inner: i32,
    /// `x` after the inner block: five, shadowed by five plus one.
    pub outer: i32,
    /// `spaces` at its last shadowing: the length of six spaces, as `u32`.
    pub spaces: u32,
}

/// Shadows `x` with new values, in the same block and in an inner one, and
/// `spaces` with a value of another type.
pub fn shadow() -> (r: Shadowing)
    ensures
        r.inner == 12,
        r.outer == 6,
        r.spaces == 6,
{
    let x: i32 = 5;
    let x: i32 = x + 1;
    let inner: i32;
    {
        let x: i32 = x * 2;
        inner = x;
    }
    let spaces = "      ";
    proof {
        reveal_strlit("      ");
        vstd::string::is_ascii_spec_bytes(spaces);
    }
    let spaces: usize = spaces.len();
    let spaces: u32 = spaces as u32;
    Shadowing { inner, outer: x, spaces }
}

} // verus!
