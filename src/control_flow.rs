//! Loops, and matching on coins.

use vstd::prelude::*;

verus! {

/// How the three loops of `loops` end.
#[derive(Debug, Clone, Copy, PartialEq, Eq, Structural)]
pub struct LoopEnds {
    /// Passes made by a loop that stops when its counter reaches five.
    pub passes: u32,
    /// The value that a loop breaks with: twice its counter on reaching ten.
    pub result: u32,
    /// The count at which a labelled outer loop is left from its inner loop.
    pub end_count: u32,
}

/// Runs a counted loop, a loop that breaks with a value, and two nested
/// loops where the inner one leaves the outer one by its label.
pub fn loops() -> (r: LoopEnds)
    ensures
        r == (LoopEnds { passes: 6, result: 20, end_count: 2 }),
{
    let mut passes: u32 = 0;
    let mut i: u32 = 0;
    loop
        invariant_except_break
            i <= 5,
            passes == i,
        ensures
            passes == 6,
        decreases 5 - i,
    {
        passes += 1;
        if i == 5 {
            break;
        }
        i += 1;
    }

    let mut counter: u32 = 0;
    let mut result: u32 = 0;
    loop
        invariant_except_break
            counter < 10,
        ensures
            result == 20,
        decreases 10 - counter,
    {
        counter += 1;
        if counter == 10 {
            result = counter * 2;
            break;
        }
    }

    let mut count: u32 = 0;
    'counting_up: loop
        invariant_except_break
            count <= 2,
        ensures
            count == 2,
        decreases 2 - count,
    {
        let mut remaining: u32 = 10;
        loop
            invariant_except_break
                9 <= remaining <= 10,
                count <= 2,
                remaining == 9 ==> count < 2,
            ensures
                count < 2,
            decreases remaining,
        {
            if remaining == 9 {
                break;
            }
            if count == 2 {
                break 'counting_up;
            }
            remaining -= 1;
        }
        count += 1;
    }
    LoopEnds { passes, result, end_count: count }
}

/// The numbers of a countdown from three, one per pass of a `while` loop.
pub fn whiles() -> (r: Vec<u32>)
    ensures
        r@ == seq![3u32, 2u32, 1u32],
{
    let mut r: Vec<u32> = Vec::new();
    let mut number: u32 = 3;
    while number != 0
        invariant
            number <= 3,
            r.len() == 3 - number,
            forall|j: int| 0 <= j < r.len() ==> r@[j] == 3 - j,
        decreases number,
    {
        r.push(number);
        number -= 1;
    }
    assert(r@ =~= seq![3u32, 2u32, 1u32]);
    r
}

/// The elements of an array, visited by a `for` loop, and a countdown from
/// three made by a `for` loop over a reversed range.
pub fn for_loop() -> (r: (Vec<i32>, Vec<i32>))
    ensures
        r.0@ == seq![10i32, 20i32, 30i32, 40i32, 50i32],
        r.1@ == seq![3i32, 2i32, 1i32],
{
    let a: [i32; 5] = [10, 20, 30, 40, 50];
    let mut elements: Vec<i32> = Vec::new();
    for k in 0..5usize
        invariant
            a@ == seq![10i32, 20i32, 30i32, 40i32, 50i32],
            elements@ == a@.subrange(0, k as int),
    {
        elements.push(a[k]);
        assert(elements@ =~= a@.subrange(0, k + 1));
    }
    assert(elements@ =~= a@);
    let mut countdown: Vec<i32> = Vec::new();
    for number in it: (1..4i32).rev()
        invariant
            countdown.len() == it.index(),
            forall|j: int| 0 <= j < countdown.len() ==> countdown@[j] == it.seq()[j],
    {
        countdown.push(number);
    }
    assert(countdown@ =~= seq![3i32, 2i32, 1i32]);
    (elements, countdown)
}

/// A state of the United States, as struck on a quarter.
#[derive(Debug, Clone, Copy, PartialEq, Eq, Structural)]
pub enum UsState {
    Alabama,
    Alaska,
}

/// A United States coin.
#[derive(Debug, Clone, Copy, PartialEq, Eq, Structural)]
pub enum Coin {
    Penny,
    Nickel,
    Dime,
    Quarter(UsState),
}

/// What a coin is worth, in cents.
pub open spec fn cents(coin: Coin) -> u8 {
    match coin {
        Coin::Penny => 1,
        Coin::Nickel => 5,
        Coin::Dime => 10,
        Coin::Quarter(_) => 25,
    }
}

/// What `coin` is worth, in cents.
pub fn value_in_cents(coin: Coin) -> (r: u8)
    ensures
        r == cents(coin),
{
    match coin {
        Coin::Penny => 1,
        Coin::Nickel => 5,
        Coin::Dime => 10,
        Coin::Quarter(_state) => 25,
    }
}

} // verus!
