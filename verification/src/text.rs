//! Decimal rendering of integers as character sequences, shared by the
//! date and period renderers and the query builder.

use vstd::prelude::*;
use vstd::arithmetic::div_mod::lemma_fundamental_div_mod;
use vstd::string::StringExecFns;

verus! {

/// The single character of a decimal digit.
pub open spec fn digit_text(n: int) -> Seq<char>
    recommends
        0 <= n <= 9,
{
    if n == 0 {
        "0"@
    } else if n == 1 {
        "1"@
    } else if n == 2 {
        "2"@
    } else if n == 3 {
        "3"@
    } else if n == 4 {
        "4"@
    } else if n == 5 {
        "5"@
    } else if n == 6 {
        "6"@
    } else if n == 7 {
        "7"@
    } else if n == 8 {
        "8"@
    } else {
        "9"@
    }
}

#[via_fn]
proof fn nat_text_dec(n: int) {
    if n >= 10 {
        lemma_fundamental_div_mod(n, 10);
    }
}

/// The decimal digits of a non-negative integer, most significant first.
pub open spec fn nat_text(n: int) -> Seq<char>
    recommends
        0 <= n,
    decreases n,
    via nat_text_dec
{
    if n < 10 {
        digit_text(n)
    } else {
        nat_text(n / 10) + digit_text(n % 10)
    }
}

/// Plain decimal rendering of an integer: a minus sign for negatives,
/// then the digits with no padding.
pub open spec fn int_text(v: int) -> Seq<char> {
    if v < 0 {
        "-"@ + nat_text(-v)
    } else {
        nat_text(v)
    }
}

/// Decimal rendering padded with a leading zero to at least two digits,
/// as a width-two zero-padded format does.
pub open spec fn two_text(v: int) -> Seq<char> {
    if 0 <= v <= 9 {
        "0"@ + digit_text(v)
    } else {
        int_text(v)
    }
}

/// The literal for one decimal digit.
fn digit_str(n: u64) -> (r: &'static str)
    requires
        n <= 9,
    ensures
        r@ == digit_text(n as int),
{
    if n == 0 {
        "0"
    } else if n == 1 {
        "1"
    } else if n == 2 {
        "2"
    } else if n == 3 {
        "3"
    } else if n == 4 {
        "4"
    } else if n == 5 {
        "5"
    } else if n == 6 {
        "6"
    } else if n == 7 {
        "7"
    } else if n == 8 {
        "8"
    } else {
        "9"
    }
}

/// Append the decimal digits of `n` to `out`.
fn append_nat(out: &mut String, n: u64)
    ensures
        final(out)@ == old(out)@ + nat_text(n as int),
    decreases n,
{
    if n >= 10 {
        append_nat(out, n / 10);
        out.append(digit_str(n % 10));
        proof {
            assert(out@ =~= old(out)@ + nat_text(n as int));
        }
    } else {
        out.append(digit_str(n));
    }
}

/// Append the decimal rendering of `v`, minus sign included, to `out`.
pub fn append_int(out: &mut String, v: i64)
    requires
        v > i64::MIN,
    ensures
        final(out)@ == old(out)@ + int_text(v as int),
{
    if v < 0 {
        out.append("-");
        append_nat(out, (-v) as u64);
        proof {
            assert(out@ =~= old(out)@ + int_text(v as int));
        }
    } else {
        append_nat(out, v as u64);
    }
}

/// Append the zero-padded two-digit rendering of `v` to `out`.
pub fn append_two(out: &mut String, v: i64)
    requires
        v > i64::MIN,
    ensures
        final(out)@ == old(out)@ + two_text(v as int),
{
    if 0 <= v && v <= 9 {
        out.append("0");
        out.append(digit_str(v as u64));
        proof {
            assert(out@ =~= old(out)@ + two_text(v as int));
        }
    } else {
        append_int(out, v);
    }
}

} // verus!

