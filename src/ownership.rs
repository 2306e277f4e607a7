//! Strings that move between functions, and strings that are only borrowed.

use vstd::prelude::*;
use vstd::utf8::encode_utf8;

verus! {

/// Declares bindings in nested blocks; each lives until its block ends.
pub fn scope() {
    let _s = "hello";
    {
        let _x = "no";
    }
}

/// Hands a new string to the caller.
pub fn gives_ownership() -> (r: String)
    ensures
        r@ == ", Mom!"@,
{
    let some_string = String::from_str(", Mom!");
    some_string
}

/// Takes a string and hands the same string back.
pub fn takes_and_gives_back(a_string: String) -> (r: String)
    ensures
        r == a_string,
{
    a_string
}

/// Hands back the string together with its length in bytes.
pub fn calculate_length_tup(s: String) -> (r: (String, usize))
    ensures
        r.0 == s,
        r.1 == encode_utf8(s@).len() as usize,
{
    let length = s.as_str().len();
    (s, length)
}

/// The length in bytes of a borrowed string.
pub fn calculate_length(s: &String) -> (r: usize)
    ensures
        r == encode_utf8(s@).len() as usize,
{
    s.as_str().len()
}

/// Appends `", Mom!"` to a string borrowed for change.
pub fn change(s: &mut String)
    ensures
        final(s)@ == old(s)@ + ", Mom!"@,
{
    s.append(", Mom!");
}

/// A new string, moved out to the caller rather than borrowed from a local.
pub fn no_dangle() -> (r: String)
    ensures
        r@ == "hello"@,
{
    let s = String::from_str("hello");
    s
}

/// The part of `s` before its first space, or all of `s` when it holds none.
pub fn first_word(s: &str) -> (r: &str)
    ensures
        r@.len() <= s@.len(),
        r@ == s@.subrange(0, r@.len() as int),
        forall|i: int| 0 <= i < r@.len() ==> r@[i] != ' ',
        r@.len() < s@.len() ==> s@[r@.len() as int] == ' ',
{
    let n = s.unicode_len();
    let mut i: usize = 0;
    while i < n
        invariant
            n == s@.len(),
            i <= n,
            forall|j: int| 0 <= j < i ==> s@[j] != ' ',
        decreases n - i,
    {
        if s.get_char(i) == ' ' {
            return s.substring_char(0, i);
        }
        i += 1;
    }
    s.substring_char(0, n)
}

} // verus!
