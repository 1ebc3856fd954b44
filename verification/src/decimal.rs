//! Decimal rendering of port numbers: the port files written into a
//! pod's directory carry the port as decimal text.

use vstd::prelude::*;
use vstd::string::StringExecFns;

verus! {

/// The character for one decimal digit.
pub open spec fn decimal_digit_char(d: int) -> char
    recommends
        0 <= d < 10,
{
    if d == 0 {
        '0'
    } else if d == 1 {
        '1'
    } else if d == 2 {
        '2'
    } else if d == 3 {
        '3'
    } else if d == 4 {
        '4'
    } else if d == 5 {
        '5'
    } else if d == 6 {
        '6'
    } else if d == 7 {
        '7'
    } else if d == 8 {
        '8'
    } else {
        '9'
    }
}

/// The decimal digits of `n`, most significant first, no leading zeros
/// (a single `'0'` for zero).
pub open spec fn decimal_chars(n: nat) -> Seq<char>
    decreases n,
{
    if n < 10 {
        seq![decimal_digit_char(n as int)]
    } else {
        decimal_chars(n / 10).push(decimal_digit_char((n % 10) as int))
    }
}

/// The decimal rendering of a possibly negative number: a `'-'` sign
/// followed by the digits of its magnitude.
pub open spec fn decimal_chars_int(n: int) -> Seq<char> {
    if n < 0 {
        seq!['-'] + decimal_chars((-n) as nat)
    } else {
        decimal_chars(n as nat)
    }
}

/// Appends the character for the decimal digit `d`.
fn push_digit(s: &mut String, d: u64)
    requires
        d < 10,
    ensures
        final(s)@ == old(s)@.push(decimal_digit_char(d as int)),
{
    proof {
        reveal_strlit("0");
        reveal_strlit("1");
        reveal_strlit("2");
        reveal_strlit("3");
        reveal_strlit("4");
        reveal_strlit("5");
        reveal_strlit("6");
        reveal_strlit("7");
        reveal_strlit("8");
        reveal_strlit("9");
    }
    if d == 0 {
        s.append("0");
    } else if d == 1 {
        s.append("1");
    } else if d == 2 {
        s.append("2");
    } else if d == 3 {
        s.append("3");
    } else if d == 4 {
        s.append("4");
    } else if d == 5 {
        s.append("5");
    } else if d == 6 {
        s.append("6");
    } else if d == 7 {
        s.append("7");
    } else if d == 8 {
        s.append("8");
    } else {
        s.append("9");
    }
    proof {
        assert(final(s)@ =~= old(s)@.push(decimal_digit_char(d as int)));
    }
}

/// Renders `n` in decimal.
pub fn u64_to_decimal(n: u64) -> (r: String)
    ensures
        r@ == decimal_chars(n as nat),
    decreases n,
{
    if n < 10 {
        let mut r = String::new();
        push_digit(&mut r, n);
        proof {
            assert(r@ =~= decimal_chars(n as nat));
        }
        r
    } else {
        let mut r = u64_to_decimal(n / 10);
        push_digit(&mut r, n % 10);
        r
    }
}

/// Renders `n` in decimal, with a leading `'-'` if negative.
pub fn i32_to_decimal(n: i32) -> (r: String)
    ensures
        r@ == decimal_chars_int(n as int),
{
    if n < 0 {
        let magnitude: u64 = (-(n as i64)) as u64;
        let mut r = String::from_str("-");
        let digits = u64_to_decimal(magnitude);
        r.append(digits.as_str());
        proof {
            reveal_strlit("-");
            assert(r@ =~= decimal_chars_int(n as int));
        }
        r
    } else {
        u64_to_decimal(n as u64)
    }
}

} // verus!
