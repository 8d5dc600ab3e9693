//! Plain-text rendering of integers, and string building, for event log lines.

use vstd::prelude::*;

use crate::building::spec_digit_char;

verus! {

/// The decimal representation of a natural number, most significant digit
/// first, with no leading zeros (except for the number 0 itself).
pub open spec fn spec_dec(n: nat) -> Seq<char>
    decreases n,
{
    if n < 10 {
        seq![spec_digit_char(n)]
    } else {
        spec_dec(n / 10) + seq![spec_digit_char(n % 10)]
    }
}

/// The decimal representation of an integer: a leading `'-'` for negative
/// values, followed by the digits of the magnitude.
pub open spec fn spec_dec_int(n: int) -> Seq<char> {
    if n < 0 {
        seq!['-'] + spec_dec((-n) as nat)
    } else {
        spec_dec(n as nat)
    }
}

/// Relies on String::push_str: appends the given slice onto the end of
/// the string.
#[verifier::external_body]
pub(crate) fn push_str(s: &mut String, t: &str)
    ensures
        final(s)@ == old(s)@ + t@,
{
    s.push_str(t)
}

/// The one-character string for a decimal digit value.
fn digit_str(d: u128) -> (r: &'static str)
    requires
        d < 10,
    ensures
        r@ == seq![spec_digit_char(d as nat)],
{
    if d == 0 {
        proof {
            reveal_strlit("0");
        }
        assert("0"@ =~= seq![spec_digit_char(d as nat)]);
        "0"
    } else if d == 1 {
        proof {
            reveal_strlit("1");
        }
        assert("1"@ =~= seq![spec_digit_char(d as nat)]);
        "1"
    } else if d == 2 {
        proof {
            reveal_strlit("2");
        }
        assert("2"@ =~= seq![spec_digit_char(d as nat)]);
        "2"
    } else if d == 3 {
        proof {
            reveal_strlit("3");
        }
        assert("3"@ =~= seq![spec_digit_char(d as nat)]);
        "3"
    } else if d == 4 {
        proof {
            reveal_strlit("4");
        }
        assert("4"@ =~= seq![spec_digit_char(d as nat)]);
        "4"
    } else if d == 5 {
        proof {
            reveal_strlit("5");
        }
        assert("5"@ =~= seq![spec_digit_char(d as nat)]);
        "5"
    } else if d == 6 {
        proof {
            reveal_strlit("6");
        }
        assert("6"@ =~= seq![spec_digit_char(d as nat)]);
        "6"
    } else if d == 7 {
        proof {
            reveal_strlit("7");
        }
        assert("7"@ =~= seq![spec_digit_char(d as nat)]);
        "7"
    } else if d == 8 {
        proof {
            reveal_strlit("8");
        }
        assert("8"@ =~= seq![spec_digit_char(d as nat)]);
        "8"
    } else {
        proof {
            reveal_strlit("9");
        }
        assert("9"@ =~= seq![spec_digit_char(d as nat)]);
        "9"
    }
}

/// Renders a natural number in decimal.
pub fn u128_to_string(n: u128) -> (r: String)
    ensures
        r@ == spec_dec(n as nat),
    decreases n,
{
    if n < 10 {
        let r = digit_str(n).to_owned();
        assert(r@ =~= spec_dec(n as nat));
        r
    } else {
        let mut r = u128_to_string(n / 10);
        push_str(&mut r, digit_str(n % 10));
        assert(r@ =~= spec_dec(n as nat));
        r
    }
}

/// Renders a `usize` in decimal.
pub fn usize_to_string(n: usize) -> (r: String)
    ensures
        r@ == spec_dec(n as nat),
{
    u128_to_string(n as u128)
}

/// Renders an `isize` in decimal, with a leading minus sign when negative.
pub fn isize_to_string(n: isize) -> (r: String)
    ensures
        r@ == spec_dec_int(n as int),
{
    if n >= 0 {
        u128_to_string(n as u128)
    } else {
        let mag: u128 = (-(n as i128)) as u128;
        assert(mag == -(n as int));
        let mut r = "-".to_owned();
        push_str(&mut r, u128_to_string(mag).as_str());
        proof {
            reveal_strlit("-");
        }
        assert(r@ =~= spec_dec_int(n as int));
        r
    }
}

} // verus!
