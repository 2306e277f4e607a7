//! A guess that is known to lie between `GUESS_MIN` and `GUESS_MAX`, and the
//! decisions of a number-guessing game built on it.

use rand::Rng;
use vstd::prelude::*;

verus! {

/// Smallest value that a guess may hold.
pub const GUESS_MIN: i32 = 1;

/// Largest value that a guess may hold.
pub const GUESS_MAX: i32 = 100;

/// Whether `v` lies within the bounds of a guess, both ends included.
pub open spec fn in_bounds(v: int) -> bool {
    GUESS_MIN <= v <= GUESS_MAX
}

/// Why a guess could not be made.
#[derive(Debug, Clone, Copy, PartialEq, Eq, Structural)]
pub enum DomainError {
    /// The value lies outside `min..=max`.
    OutOfRange { value: i32, min: i32, max: i32 },
}

/// The error that rejecting `value` gives.
pub open spec fn out_of_range(value: i32) -> DomainError {
    DomainError::OutOfRange { value, min: GUESS_MIN, max: GUESS_MAX }
}

/// A value between `GUESS_MIN` and `GUESS_MAX`. It can only be made by
/// `Guess::new`, which checks the bounds, and never changes afterwards.
#[derive(Debug)]
pub struct Guess {
    value: i32,
}

impl View for Guess {
    type V = int;

    closed spec fn view(&self) -> int {
        self.value as int
    }
}

impl Guess {
    #[verifier::type_invariant]
    spec fn inv(self) -> bool {
        in_bounds(self.value as int)
    }

    /// Makes a guess of `value`, or says why it is out of bounds.
    pub fn new(value: i32) -> (r: Result<Guess, DomainError>)
        ensures
            r is Ok <==> in_bounds(value as int),
            r matches Ok(g) ==> g@ == value as int,
            r matches Err(e) ==> e == out_of_range(value),
    {
        if value < GUESS_MIN || value > GUESS_MAX {
            return Err(DomainError::OutOfRange { value, min: GUESS_MIN, max: GUESS_MAX });
        }
        Ok(Guess { value })
    }

    /// The value held.
    pub fn value(&self) -> (r: i32)
        ensures
            r as int == self@,
            in_bounds(r as int),
    {
        proof {
            use_type_invariant(self);
        }
        self.value
    }
}

/// Every value within the bounds, both ends included, is accepted, and the
/// guess made from it reads back as that value.
pub proof fn lemma_in_bounds_accepted(v: i32, r: Result<Guess, DomainError>)
    requires
        GUESS_MIN <= v <= GUESS_MAX,
        call_ensures(Guess::new, (v,), r),
    ensures
        r matches Ok(g) && forall|x: i32| #[trigger] call_ensures(Guess::value, (&g,), x) ==> x == v,
{
}

/// Every value below the lower bound or above the upper bound is rejected
/// with `OutOfRange`, carrying the value and both bounds, and no guess is made.
pub proof fn lemma_out_of_bounds_rejected(v: i32, r: Result<Guess, DomainError>)
    requires
        v < GUESS_MIN || v > GUESS_MAX,
        call_ensures(Guess::new, (v,), r),
    ensures
        r == Err::<Guess, DomainError>(
            DomainError::OutOfRange { value: v, min: GUESS_MIN, max: GUESS_MAX },
        ),
{
}

/// Reading a guess twice gives the same value both times.
pub proof fn lemma_value_stable(g: &Guess, x: i32, y: i32)
    requires
        call_ensures(Guess::value, (g,), x),
        call_ensures(Guess::value, (g,), y),
    ensures
        x == y,
{
}

/// The value of a run of decimal digits, most significant first.
pub open spec fn digits_value(s: Seq<char>) -> int
    decreases s.len(),
{
    if s.len() == 0 {
        0
    } else {
        digits_value(s.drop_last()) * 10 + (s.last() as u32 - '0' as u32)
    }
}

/// Whether `s` is one or more ASCII decimal digits.
pub open spec fn is_digits(s: Seq<char>) -> bool {
    &&& s.len() > 0
    &&& forall|i: int| 0 <= i < s.len() ==> '0' <= #[trigger] s[i] <= '9'
}

/// The integer that `s` writes: an optional `+` or `-` followed by decimal
/// digits, and nothing else.
pub open spec fn signed_decimal(s: Seq<char>) -> Option<int> {
    if is_digits(s) {
        Some(digits_value(s))
    } else if s.len() > 0 && s[0] == '+' && is_digits(s.drop_first()) {
        Some(digits_value(s.drop_first()))
    } else if s.len() > 0 && s[0] == '-' && is_digits(s.drop_first()) {
        Some(-digits_value(s.drop_first()))
    } else {
        None
    }
}

/// The `i32` that `s` writes, when it writes one within the range of `i32`.
pub open spec fn decimal_i32(s: Seq<char>) -> Option<i32> {
    match signed_decimal(s) {
        Some(v) => if i32::MIN <= v <= i32::MAX {
            Some(v as i32)
        } else {
            None
        },
        None => None,
    }
}

/// What `str::trim` leaves of `s`.
pub uninterp spec fn trimmed(s: Seq<char>) -> Seq<char>;

/// Relies on `str::trim`: leading and trailing whitespace removed, the result
/// a function of the characters alone.
#[verifier::external_body]
fn trim<'a>(s: &'a str) -> (r: &'a str)
    ensures
        r@ == trimmed(s@),
{
    s.trim()
}

/// Relies on `str::parse::<i32>`: an optional sign and then decimal digits,
/// whose value fits in `i32`, is read as that value; anything else fails.
#[verifier::external_body]
fn parse_i32(s: &str) -> (r: Option<i32>)
    ensures
        r == decimal_i32(s@),
{
    s.parse::<i32>().ok()
}

/// Relies on `rand::thread_rng` and `Rng::gen_range`: a value drawn from
/// `low..=high`, which must not be empty.
#[verifier::external_body]
fn random_between(low: i32, high: i32) -> (r: i32)
    requires
        low <= high,
    ensures
        low <= r <= high,
{
    rand::thread_rng().gen_range(low..=high)
}

/// Reads a line typed by a player as a number: surrounding whitespace is
/// ignored, and `None` means that the rest is no `i32`.
pub fn parse_guess(line: &str) -> (r: Option<i32>)
    ensures
        r == decimal_i32(trimmed(line@)),
{
    parse_i32(trim(line))
}

/// What the game answers to one line of input.
#[derive(Debug, Clone, Copy, PartialEq, Eq, Structural)]
pub enum Reply {
    /// The line is no number; the player is asked again.
    Unreadable,
    /// The number is outside the bounds of a guess; the player is asked again.
    Rejected(DomainError),
    /// The guess is below the secret.
    TooSmall(i32),
    /// The guess is above the secret.
    TooBig(i32),
    /// The guess is the secret: the game is won.
    Correct(i32),
}

/// The answer to a line read as `parsed` when the secret is `secret`.
pub open spec fn reply_for(secret: int, parsed: Option<i32>) -> Reply {
    match parsed {
        None => Reply::Unreadable,
        Some(n) => if !in_bounds(n as int) {
            Reply::Rejected(out_of_range(n))
        } else if (n as int) < secret {
            Reply::TooSmall(n)
        } else if (n as int) > secret {
            Reply::TooBig(n)
        } else {
            Reply::Correct(n)
        },
    }
}

/// Answers a number already read from the player, against `secret`.
pub fn judge(secret: &Guess, parsed: Option<i32>) -> (r: Reply)
    ensures
        r == reply_for(secret@, parsed),
{
    match parsed {
        None => Reply::Unreadable,
        Some(n) => match Guess::new(n) {
            Err(e) => Reply::Rejected(e),
            Ok(guess) => {
                let v = guess.value();
                let s = secret.value();
                if v < s {
                    Reply::TooSmall(v)
                } else if v > s {
                    Reply::TooBig(v)
                } else {
                    Reply::Correct(v)
                }
            },
        },
    }
}

/// A round of the guessing game: a secret guess, drawn at random.
pub struct GuessingGame {
    secret: Guess,
}

impl GuessingGame {
    /// The secret that the player has to find.
    pub closed spec fn spec_secret(&self) -> int {
        self.secret@
    }

    /// Starts a round with a secret drawn between the bounds of a guess.
    pub fn new() -> (r: GuessingGame)
        ensures
            in_bounds(r.spec_secret()),
    {
        let drawn = random_between(GUESS_MIN, GUESS_MAX);
        GuessingGame { secret: Guess { value: drawn } }
    }

    /// Answers one line typed by the player.
    pub fn respond(&self, line: &str) -> (r: Reply)
        ensures
            r == reply_for(self.spec_secret(), decimal_i32(trimmed(line@))),
    {
        let parsed = parse_guess(line);
        judge(&self.secret, parsed)
    }
}

} // verus!
