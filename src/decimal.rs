//! Decimal rendering of integers, as the wire protocol writes every number.
use vstd::prelude::*;
use vstd::string::*;

verus! {

/// The character for the decimal digit `d` (`d < 10`).
pub open spec fn digit_char(d: nat) -> char {
    seq!['0', '1', '2', '3', '4', '5', '6', '7', '8', '9'][d as int]
}

/// The decimal digits of `n`, most significant first, without leading zeros.
pub open spec fn digits_of(n: nat) -> Seq<char>
    decreases n,
{
    if n < 10 {
        seq![digit_char(n)]
    } else {
        digits_of(n / 10).push(digit_char(n % 10))
    }
}

/// The signed decimal rendering of `i`: a `-` before the digits of a negative value.
pub open spec fn decimal(i: int) -> Seq<char> {
    if i < 0 {
        seq!['-'] + digits_of((-i) as nat)
    } else {
        digits_of(i as nat)
    }
}

fn digit_str(d: u128) -> (s: &'static str)
    requires
        d < 10,
    ensures
        s@ == seq![digit_char(d as nat)],
{
    proof {
        reveal_strlit("0");
        reveal_strlit("1");
        reveal_strlit("2");
        reveal_strlit("3");
        reveal_strlit("4");
        reveal_strlit("5");
        reveal_strlit("6");
        reveal_strlit("7");
        reveal_strlit("8");
        reveal_strlit("9");
    }
    if d == 0 {
        "0"
    } else if d == 1 {
        "1"
    } else if d == 2 {
        "2"
    } else if d == 3 {
        "3"
    } else if d == 4 {
        "4"
    } else if d == 5 {
        "5"
    } else if d == 6 {
        "6"
    } else if d == 7 {
        "7"
    } else if d == 8 {
        "8"
    } else {
        "9"
    }
}

fn push_digits(buf: &mut String, n: u128)
    ensures
        final(buf)@ == old(buf)@ + digits_of(n as nat),
    decreases n,
{
    if n >= 10 {
        push_digits(buf, n / 10);
    }
    buf.append(digit_str(n % 10));
    proof {
        assert(buf@ =~= old(buf)@ + digits_of(n as nat));
    }
}

/// Appends the signed decimal rendering of `i` to `buf`.
pub fn push_decimal(buf: &mut String, i: i128)
    ensures
        final(buf)@ == old(buf)@ + decimal(i as int),
{
    if i < 0 {
        proof {
            reveal_strlit("-");
        }
        buf.append("-");
        let magnitude: u128 = (-(i + 1)) as u128 + 1;
        push_digits(buf, magnitude);
        proof {
            assert(buf@ =~= old(buf)@ + decimal(i as int));
        }
    } else {
        push_digits(buf, i as u128);
    }
}

} // verus!
