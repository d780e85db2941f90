//! Decimal text for the numbers that the monitor shows.

use vstd::prelude::*;

verus! {

/// Number of bytes in the megabyte that memory sizes are shown in.
pub const BYTES_PER_MEGABYTE: u64 = 1048576;

/// The character of one decimal digit; `'0'` for anything above nine.
pub open spec fn digit_char(d: nat) -> char {
    if d == 1 {
        '1'
    } else if d == 2 {
        '2'
    } else if d == 3 {
        '3'
    } else if d == 4 {
        '4'
    } else if d == 5 {
        '5'
    } else if d == 6 {
        '6'
    } else if d == 7 {
        '7'
    } else if d == 8 {
        '8'
    } else if d == 9 {
        '9'
    } else {
        '0'
    }
}

/// The decimal numeral of `n`, without sign or leading zeros.
pub open spec fn decimal(n: nat) -> Seq<char>
    decreases n,
{
    if n < 10 {
        seq![digit_char(n)]
    } else {
        decimal(n / 10).push(digit_char(n % 10))
    }
}

/// A value given in hundredths, written with exactly two decimals:
/// `1234` is `12.34` and `5` is `0.05`.
pub open spec fn hundredths(h: nat) -> Seq<char> {
    decimal(h / 100).push('.').push(digit_char((h % 100) / 10)).push(digit_char(h % 10))
}

/// Whole megabytes in a number of bytes, rounded down.
pub open spec fn megabytes(bytes: nat) -> nat {
    bytes / 1048576
}

/// Rounding down to whole megabytes keeps the order of two sizes, so a part
/// never shows as more than its whole.
pub proof fn megabytes_keep_order(part: nat, whole: nat)
    requires
        part <= whole,
    ensures
        megabytes(part) <= megabytes(whole),
{
}

/// The one-character text of a decimal digit.
pub fn digit_str(d: u64) -> (s: &'static str)
    requires
        d < 10,
    ensures
        s@ == seq![digit_char(d as nat)],
{
    proof {
        reveal_strlit("0");
        reveal_strlit("1");
        reveal_strlit("2");
        reveal_strlit("3");
        reveal_strlit("4");
        reveal_strlit("5");
        reveal_strlit("6");
        reveal_strlit("7");
        reveal_strlit("8");
        reveal_strlit("9");
    }
    let s: &'static str = if d == 0 {
        "0"
    } else if d == 1 {
        "1"
    } else if d == 2 {
        "2"
    } else if d == 3 {
        "3"
    } else if d == 4 {
        "4"
    } else if d == 5 {
        "5"
    } else if d == 6 {
        "6"
    } else if d == 7 {
        "7"
    } else if d == 8 {
        "8"
    } else {
        "9"
    };
    assert(s@ =~= seq![digit_char(d as nat)]);
    s
}

/// Appends the decimal numeral of `n` to `out`.
pub fn push_decimal(out: &mut String, n: u64)
    ensures
        final(out)@ == old(out)@ + decimal(n as nat),
    decreases n,
{
    if n >= 10 {
        push_decimal(out, n / 10);
    }
    out.append(digit_str(n % 10));
    assert(final(out)@ =~= old(out)@ + decimal(n as nat));
}

/// Appends `h` hundredths, written with two decimals, to `out`.
pub fn push_hundredths(out: &mut String, h: u64)
    ensures
        final(out)@ == old(out)@ + hundredths(h as nat),
{
    proof {
        reveal_strlit(".");
    }
    push_decimal(out, h / 100);
    out.append(".");
    out.append(digit_str((h % 100) / 10));
    out.append(digit_str(h % 10));
    assert(final(out)@ =~= old(out)@ + hundredths(h as nat));
}

/// Whole megabytes in `bytes`, rounded down.
pub fn whole_megabytes(bytes: u64) -> (mb: u64)
    ensures
        mb as nat == megabytes(bytes as nat),
{
    bytes / BYTES_PER_MEGABYTE
}

/// The decimal numeral of `n` as a string of its own.
pub fn decimal_text(n: u64) -> (s: String)
    ensures
        s@ == decimal(n as nat),
{
    let mut s = String::new();
    push_decimal(&mut s, n);
    assert(s@ =~= decimal(n as nat));
    s
}

} // verus!
