//! Decimal text rendering for sector-size magnitudes and error codes.

use vstd::prelude::*;
use vstd::string::StringExecFns;

verus! {

/// The character for one decimal digit.
pub open spec fn digit_char(d: nat) -> char {
    if d == 0 {
        '0'
    } else if d == 1 {
        '1'
    } else if d == 2 {
        '2'
    } else if d == 3 {
        '3'
    } else if d == 4 {
        '4'
    } else if d == 5 {
        '5'
    } else if d == 6 {
        '6'
    } else if d == 7 {
        '7'
    } else if d == 8 {
        '8'
    } else {
        '9'
    }
}

/// The decimal rendering of `n`, most significant digit first, with no
/// leading zeros (a lone zero for `n == 0`).
pub open spec fn dec_seq(n: nat) -> Seq<char>
    decreases n,
{
    if n < 10 {
        seq![digit_char(n)]
    } else {
        dec_seq(n / 10).push(digit_char(n % 10))
    }
}

fn digit_str(d: u64) -> (s: &'static str)
    requires
        d < 10,
    ensures
        s@ == seq![digit_char(d as nat)],
{
    proof {
        reveal_strlit("0");
        reveal_strlit("1");
        reveal_strlit("2");
        reveal_strlit("3");
        reveal_strlit("4");
        reveal_strlit("5");
        reveal_strlit("6");
        reveal_strlit("7");
        reveal_strlit("8");
        reveal_strlit("9");
    }
    if d == 0 {
        "0"
    } else if d == 1 {
        "1"
    } else if d == 2 {
        "2"
    } else if d == 3 {
        "3"
    } else if d == 4 {
        "4"
    } else if d == 5 {
        "5"
    } else if d == 6 {
        "6"
    } else if d == 7 {
        "7"
    } else if d == 8 {
        "8"
    } else {
        "9"
    }
}

/// The decimal rendering of a possibly negative number: a leading minus
/// sign, then the digits of the absolute value.
pub open spec fn dec_seq_signed(n: int) -> Seq<char> {
    if n < 0 {
        seq!['-'] + dec_seq((-n) as nat)
    } else {
        dec_seq(n as nat)
    }
}

/// Renders `n` in decimal, exactly as `dec_seq` describes.
pub fn u64_to_decimal(n: u64) -> (s: String)
    ensures
        s@ == dec_seq(n as nat),
    decreases n,
{
    if n < 10 {
        let s = digit_str(n).to_owned();
        proof {
            assert(s@ =~= dec_seq(n as nat));
        }
        s
    } else {
        let mut s = u64_to_decimal(n / 10);
        s.append(digit_str(n % 10));
        proof {
            assert(s@ =~= dec_seq(n as nat));
        }
        s
    }
}

/// Renders `n` in decimal with a minus sign where needed, exactly as
/// `dec_seq_signed` describes.
pub fn i32_to_decimal(n: i32) -> (s: String)
    ensures
        s@ == dec_seq_signed(n as int),
{
    if n < 0 {
        let magnitude: u64 = (-(n as i64)) as u64;
        proof {
            reveal_strlit("-");
        }
        let mut s = "-".to_owned();
        let digits = u64_to_decimal(magnitude);
        s.append(digits.as_str());
        proof {
            assert(s@ =~= dec_seq_signed(n as int));
        }
        s
    } else {
        u64_to_decimal(n as u64)
    }
}

} // verus!
