//! Rendering of integers as decimal text.
//!
//! Report rows, stack-trace positions and instrumentation calls all embed
//! numbers in strings; `dec_str` / `int_str` say exactly which characters
//! those numbers turn into.

use vstd::prelude::*;

verus! {

/// The character for one decimal digit.
pub open spec fn dec_digit(d: nat) -> char {
    if d == 0 {
        '0'
    } else if d == 1 {
        '1'
    } else if d == 2 {
        '2'
    } else if d == 3 {
        '3'
    } else if d == 4 {
        '4'
    } else if d == 5 {
        '5'
    } else if d == 6 {
        '6'
    } else if d == 7 {
        '7'
    } else if d == 8 {
        '8'
    } else {
        '9'
    }
}

/// The usual decimal rendering of a natural number, without leading zeros
/// (except for zero itself).
pub open spec fn dec_str(n: nat) -> Seq<char>
    decreases n,
{
    if n < 10 {
        seq![dec_digit(n)]
    } else {
        dec_str(n / 10).push(dec_digit(n % 10))
    }
}

/// The usual decimal rendering of an integer: a minus sign before the digits
/// when it is negative.
pub open spec fn int_str(i: int) -> Seq<char> {
    if i < 0 {
        seq!['-'] + dec_str((-i) as nat)
    } else {
        dec_str(i as nat)
    }
}

/// The one-character string for a decimal digit.
fn digit_str(d: u64) -> (r: &'static str)
    requires
        d < 10,
    ensures
        r@ == seq![dec_digit(d as nat)],
{
    let r: &'static str = if d == 0 {
        "0"
    } else if d == 1 {
        "1"
    } else if d == 2 {
        "2"
    } else if d == 3 {
        "3"
    } else if d == 4 {
        "4"
    } else if d == 5 {
        "5"
    } else if d == 6 {
        "6"
    } else if d == 7 {
        "7"
    } else if d == 8 {
        "8"
    } else {
        "9"
    };
    proof {
        reveal_strlit("0");
        reveal_strlit("1");
        reveal_strlit("2");
        reveal_strlit("3");
        reveal_strlit("4");
        reveal_strlit("5");
        reveal_strlit("6");
        reveal_strlit("7");
        reveal_strlit("8");
        reveal_strlit("9");
        assert(r@ =~= seq![dec_digit(d as nat)]);
    }
    r
}

/// Renders a natural number in decimal.
pub fn u64_to_string(n: u64) -> (r: String)
    ensures
        r@ == dec_str(n as nat),
{
    let mut acc = String::from_str(digit_str(n % 10));
    let mut rest: u64 = n / 10;
    proof {
        if n >= 10 {
            assert(dec_str(n as nat) == dec_str((n / 10) as nat).push(dec_digit((n % 10) as nat)));
            assert(dec_str((rest) as nat) + acc@ =~= dec_str(n as nat));
        } else {
            assert(acc@ =~= dec_str(n as nat));
        }
    }
    while rest > 0
        invariant
            rest > 0 ==> dec_str(rest as nat) + acc@ == dec_str(n as nat),
            rest == 0 ==> acc@ == dec_str(n as nat),
        decreases rest,
    {
        let ghost prev = acc@;
        let ghost prev_rest = rest as nat;
        let d: u64 = rest % 10;
        acc = String::from_str(digit_str(d)).concat(acc.as_str());
        rest = rest / 10;
        proof {
            if prev_rest >= 10 {
                assert(dec_str(prev_rest) == dec_str(prev_rest / 10).push(
                    dec_digit(prev_rest % 10),
                ));
                assert(dec_str(prev_rest / 10) + (seq![dec_digit(prev_rest % 10)] + prev)
                    =~= dec_str(prev_rest) + prev);
                assert(dec_str(rest as nat) + acc@ =~= dec_str(n as nat));
            } else {
                assert(dec_str(prev_rest) =~= seq![dec_digit(prev_rest)]);
                assert(acc@ =~= dec_str(prev_rest) + prev);
                assert(acc@ =~= dec_str(n as nat));
            }
        }
    }
    acc
}

/// Renders a signed integer in decimal.
pub fn i64_to_string(n: i64) -> (r: String)
    ensures
        r@ == int_str(n as int),
{
    if n >= 0 {
        u64_to_string(n as u64)
    } else {
        let wide: i128 = -(n as i128);
        let digits = u64_to_string(wide as u64);
        let r = String::from_str("-").concat(digits.as_str());
        proof {
            reveal_strlit("-");
            assert(r@ =~= int_str(n as int));
        }
        r
    }
}

} // verus!
