//! The largest element of a list.

use vstd::prelude::*;

verus! {

/// The largest number in `list`, which must not be empty.
pub fn largest_i32(list: &[i32]) -> (r: &i32)
    requires
        list@.len() > 0,
    ensures
        list@.contains(*r),
        forall|i: int| 0 <= i < list@.len() ==> list@[i] <= *r,
{
    let mut largest = &list[0];
    let mut k: usize = 1;
    while k < list.len()
        invariant
            1 <= k <= list@.len(),
            list@.contains(*largest),
            forall|i: int| 0 <= i < k ==> list@[i] <= *largest,
        decreases list@.len() - k,
    {
        let item = &list[k];
        if *item > *largest {
            largest = item;
        }
        k += 1;
    }
    largest
}

/// The largest character in `list`, which must not be empty.
pub fn largest_char(list: &[char]) -> (r: &char)
    requires
        list@.len() > 0,
    ensures
        list@.contains(*r),
        forall|i: int| 0 <= i < list@.len() ==> list@[i] <= *r,
{
    let mut largest = &list[0];
    let mut k: usize = 1;
    while k < list.len()
        invariant
            1 <= k <= list@.len(),
            list@.contains(*largest),
            forall|i: int| 0 <= i < k ==> list@[i] <= *largest,
        decreases list@.len() - k,
    {
        let item = &list[k];
        if *item > *largest {
            largest = item;
        }
        k += 1;
    }
    largest
}

} // verus!
