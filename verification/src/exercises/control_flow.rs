//! Three loops: one that adds, one that doubles and one that repeats.

use vstd::prelude::*;
use vstd::arithmetic::power2::{lemma2_to64, pow2};
use vstd::string::StringExecFns;
use crate::text::{chars_of, decimal, decimal_text, spells};

verus! {

/// The sum of the whole numbers from `low` to `high`, both included.
pub open spec fn sum_between(low: int, high: int) -> int
    decreases high - low + 1,
{
    if high < low {
        0
    } else {
        sum_between(low, high - 1) + high
    }
}

/// How often `x` has to be doubled until it is at least `limit`.
pub open spec fn doublings(x: nat, limit: nat) -> nat
    decreases
        (if x < limit {
            limit - x
        } else {
            0
        }),
{
    if x == 0 || x >= limit {
        0
    } else {
        1 + doublings(2 * x, limit)
    }
}

/// `n` copies of `s`, one after the other.
pub open spec fn repeated(s: Seq<char>, n: nat) -> Seq<char>
    decreases n,
{
    if n == 0 {
        Seq::empty()
    } else {
        repeated(s, (n - 1) as nat) + s
    }
}

/// What there is to say to `arg`: the sum to `sum`, the number of
/// doublings to `double`, and to anything else the same eight times over.
pub open spec fn response(arg: Seq<char>) -> Seq<char> {
    if arg == "sum"@ {
        "The sum is "@ + decimal_text(255)
    } else if arg == "double"@ {
        "You can double x "@ + decimal_text(9) + " times until x is larger than 500"@
    } else {
        repeated(arg.push(' '), 8)
    }
}

/// The sum of the numbers from 7 to 23, which is 255.
pub fn sum() -> (total: i32)
    ensures
        total == sum_between(7, 23),
        total == 255,
{
    let mut total: i32 = 0;
    let mut i: i32 = 7;
    while i <= 23
        invariant
            7 <= i <= 24,
            total == sum_between(7, i - 1),
            2 * total == (i - 7) * (i + 6),
        decreases 24 - i,
    {
        assert((i - 7) * (i + 6) + 2 * i == (i - 6) * (i + 7)) by (nonlinear_arith);
        assert((i - 7) * (i + 6) <= 17 * 30) by (nonlinear_arith)
            requires
                7 <= i <= 24,
        ;
        total += i;
        i += 1;
    }
    assert(2 * total == 17 * 30);
    total
}

/// How often 1 has to be doubled until it is at least 500: nine times.
pub fn double() -> (count: u32)
    ensures
        count == doublings(1, 500),
        count == 9,
{
    let mut count: u32 = 0;
    let mut x: u32 = 1;
    proof {
        reveal_with_fuel(doublings, 11);
        lemma2_to64();
    }
    while x < 500
        invariant
            count <= 9,
            x == pow2(count as nat),
            count + doublings(x as nat, 500) == doublings(1, 500),
            doublings(1, 500) == 9,
        decreases 10 - count,
    {
        proof {
            lemma2_to64();
        }
        count += 1;
        x *= 2;
    }
    count
}

/// The line that says `arg` eight times, each time followed by a blank.
pub fn count(arg: String) -> (line: String)
    ensures
        line@ == repeated(arg@.push(' '), 8),
{
    let mut line = String::new();
    let mut counter: u8 = 0;
    loop
        invariant
            counter <= 8,
            line@ == repeated(arg@.push(' '), counter as nat),
        ensures
            counter == 8,
        decreases 8 - counter,
    {
        if counter == 8 {
            break;
        }
        proof {
            reveal_strlit(" ");
            assert(" "@ =~= seq![' ']);
            assert((line@ + arg@) + " "@ =~= line@ + arg@.push(' '));
        }
        line.append(arg.as_str());
        line.append(" ");
        counter += 1;
    }
    line
}

/// What there is to say to `arg`.
pub fn respond(arg: &str) -> (line: String)
    ensures
        line@ == response(arg@),
{
    let chars = chars_of(arg);
    if spells(&chars, "sum") {
        let total = sum();
        String::from_str("The sum is ").concat(decimal(total as u32).as_str())
    } else if spells(&chars, "double") {
        String::from_str("You can double x ").concat(decimal(double()).as_str()).concat(
            " times until x is larger than 500",
        )
    } else {
        count(arg.to_owned())
    }
}

} // verus!
