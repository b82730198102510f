//! Verified rendering of integers and booleans as decimal text, used by the
//! diagnostic renderings of the configuration types.

use vstd::prelude::*;
use vstd::string::StringExecFns;

verus! {

/// The one-character rendering of a decimal digit.
pub closed spec fn spec_digit(d: int) -> Seq<char> {
    if d == 0 {
        "0"@
    } else if d == 1 {
        "1"@
    } else if d == 2 {
        "2"@
    } else if d == 3 {
        "3"@
    } else if d == 4 {
        "4"@
    } else if d == 5 {
        "5"@
    } else if d == 6 {
        "6"@
    } else if d == 7 {
        "7"@
    } else if d == 8 {
        "8"@
    } else {
        "9"@
    }
}

/// The decimal rendering of a nonnegative integer: most significant digit
/// first, no leading zeros except for zero itself.
pub closed spec fn spec_u64_digits(n: int) -> Seq<char>
    decreases n,
{
    if n < 10 {
        spec_digit(n)
    } else {
        spec_u64_digits(n / 10) + spec_digit(n % 10)
    }
}

/// The decimal rendering of a signed integer: a leading minus sign for
/// negative values.
pub open spec fn spec_i64_digits(n: int) -> Seq<char> {
    if n < 0 {
        "-"@ + spec_u64_digits(-n)
    } else {
        spec_u64_digits(n)
    }
}

/// The rendering of a boolean.
pub open spec fn spec_bool(b: bool) -> Seq<char> {
    if b {
        "true"@
    } else {
        "false"@
    }
}

/// Appends `text` to `out`.
pub fn append_str(out: &mut String, text: &str)
    ensures
        final(out)@ == old(out)@ + text@,
{
    out.append(text);
}

/// Appends the one decimal digit `d` to `out`.
fn append_digit(out: &mut String, d: u64)
    requires
        d < 10,
    ensures
        final(out)@ == old(out)@ + spec_digit(d as int),
{
    if d == 0 {
        out.append("0");
    } else if d == 1 {
        out.append("1");
    } else if d == 2 {
        out.append("2");
    } else if d == 3 {
        out.append("3");
    } else if d == 4 {
        out.append("4");
    } else if d == 5 {
        out.append("5");
    } else if d == 6 {
        out.append("6");
    } else if d == 7 {
        out.append("7");
    } else if d == 8 {
        out.append("8");
    } else {
        out.append("9");
    }
}

/// Appends the decimal rendering of `n` to `out`.
pub fn append_u64(out: &mut String, n: u64)
    ensures
        final(out)@ == old(out)@ + spec_u64_digits(n as int),
    decreases n,
{
    if n >= 10 {
        append_u64(out, n / 10);
        append_digit(out, n % 10);
        proof {
            assert(out@ =~= old(out)@ + spec_u64_digits(n as int));
        }
    } else {
        append_digit(out, n);
    }
}

/// Appends the decimal rendering of `n` to `out`, with a leading minus sign
/// when `n` is negative.
pub fn append_i64(out: &mut String, n: i64)
    ensures
        final(out)@ == old(out)@ + spec_i64_digits(n as int),
{
    if n < 0 {
        out.append("-");
        let wide: i128 = n as i128;
        let magnitude: u64 = (-wide) as u64;
        proof {
            assert(magnitude == -(n as int));
        }
        append_u64(out, magnitude);
        proof {
            assert(out@ =~= old(out)@ + spec_i64_digits(n as int));
        }
    } else {
        append_u64(out, n as u64);
    }
}

/// Appends `true` or `false` to `out`.
pub fn append_bool(out: &mut String, b: bool)
    ensures
        final(out)@ == old(out)@ + spec_bool(b),
{
    if b {
        out.append("true");
    } else {
        out.append("false");
    }
}

} // verus!
