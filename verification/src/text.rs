//! Decimal text of integers, as it appears in messages.

use vstd::prelude::*;
use vstd::string::*;

verus! {

/// The character of one decimal digit.
pub open spec fn digit(d: int) -> char
    recommends
        0 <= d < 10,
{
    seq!['0', '1', '2', '3', '4', '5', '6', '7', '8', '9'][d]
}

/// The decimal digits of `n`, most significant first, without leading zeros.
pub open spec fn decimal(n: nat) -> Seq<char>
    decreases n,
{
    if n < 10 {
        seq![digit(n as int)]
    } else {
        decimal(n / 10).push(digit((n % 10) as int))
    }
}

/// The decimal text of `i`: a minus sign before the digits of a negative
/// number, nothing before the others.
pub open spec fn signed_decimal(i: int) -> Seq<char> {
    if i < 0 {
        seq!['-'] + decimal((-i) as nat)
    } else {
        decimal(i as nat)
    }
}

/// The text of one digit.
fn digit_text(d: u32) -> (text: &'static str)
    requires
        d < 10,
    ensures
        text@ == seq![digit(d as int)],
{
    proof {
        reveal_strlit("0");
        reveal_strlit("1");
        reveal_strlit("2");
        reveal_strlit("3");
        reveal_strlit("4");
        reveal_strlit("5");
        reveal_strlit("6");
        reveal_strlit("7");
        reveal_strlit("8");
        reveal_strlit("9");
    }
    let text = match d {
        0 => "0",
        1 => "1",
        2 => "2",
        3 => "3",
        4 => "4",
        5 => "5",
        6 => "6",
        7 => "7",
        8 => "8",
        _ => "9",
    };
    assert(text@ =~= seq![digit(d as int)]);
    text
}

/// Appends the decimal digits of `n` to `out`.
pub(crate) fn append_decimal(out: &mut String, n: u32)
    ensures
        final(out)@ == old(out)@ + decimal(n as nat),
    decreases n,
{
    if n >= 10 {
        append_decimal(out, n / 10);
    }
    out.append(digit_text(n % 10));
    proof {
        let before = old(out)@;
        let last = digit((n % 10) as int);
        if n >= 10 {
            assert(before + decimal((n / 10) as nat) + seq![last] =~= before + decimal(
                (n / 10) as nat,
            ).push(last));
        }
    }
}

/// Appends the decimal text of `i` to `out`.
pub(crate) fn append_signed_decimal(out: &mut String, i: i32)
    ensures
        final(out)@ == old(out)@ + signed_decimal(i as int),
{
    if i < 0 {
        let magnitude: u32 = (0 - (i as i64)) as u32;
        proof {
            reveal_strlit("-");
        }
        out.append("-");
        append_decimal(out, magnitude);
        proof {
            let before = old(out)@;
            assert("-"@ =~= seq!['-']);
            assert(before + seq!['-'] + decimal(magnitude as nat) =~= before + (seq!['-']
                + decimal((-i) as nat)));
        }
    } else {
        append_decimal(out, i as u32);
    }
}

} // verus!
