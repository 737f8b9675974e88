//! Rendering of a civil date-time as `YYYY-MM-DD HH:MM:SS`.
//!
//! The six components arrive as plain numbers; this module proves that
//! the string built from them is exactly the zero-padded form, to the
//! second, with sub-second information discarded by the caller.

use vstd::prelude::*;

verus! {

/// The decimal digit character for `d` in `0..10`.
pub open spec fn digit_char(d: int) -> char {
    if d == 0 {
        '0'
    } else if d == 1 {
        '1'
    } else if d == 2 {
        '2'
    } else if d == 3 {
        '3'
    } else if d == 4 {
        '4'
    } else if d == 5 {
        '5'
    } else if d == 6 {
        '6'
    } else if d == 7 {
        '7'
    } else if d == 8 {
        '8'
    } else {
        '9'
    }
}

/// `n` in `0..100` as two decimal digits, zero-padded.
pub open spec fn pad2(n: int) -> Seq<char> {
    seq![digit_char(n / 10), digit_char(n % 10)]
}

/// `n` in `0..10000` as four decimal digits, zero-padded.
pub open spec fn pad4(n: int) -> Seq<char> {
    seq![
        digit_char(n / 1000),
        digit_char((n / 100) % 10),
        digit_char((n / 10) % 10),
        digit_char(n % 10),
    ]
}

/// The full `YYYY-MM-DD HH:MM:SS` rendering of a civil date-time.
pub open spec fn spec_timestamp(y: int, mo: int, d: int, h: int, mi: int, s: int) -> Seq<char> {
    pad4(y) + seq!['-'] + pad2(mo) + seq!['-'] + pad2(d) + seq![' '] + pad2(h) + seq![':'] + pad2(
        mi,
    ) + seq![':'] + pad2(s)
}

/// The one-character string of a decimal digit.
fn digit_str(d: u32) -> (r: &'static str)
    requires
        d < 10,
    ensures
        r@ =~= seq![digit_char(d as int)],
{
    proof {
        reveal_strlit("0");
        reveal_strlit("1");
        reveal_strlit("2");
        reveal_strlit("3");
        reveal_strlit("4");
        reveal_strlit("5");
        reveal_strlit("6");
        reveal_strlit("7");
        reveal_strlit("8");
        reveal_strlit("9");
    }
    if d == 0 {
        "0"
    } else if d == 1 {
        "1"
    } else if d == 2 {
        "2"
    } else if d == 3 {
        "3"
    } else if d == 4 {
        "4"
    } else if d == 5 {
        "5"
    } else if d == 6 {
        "6"
    } else if d == 7 {
        "7"
    } else if d == 8 {
        "8"
    } else {
        "9"
    }
}

/// Append `n` as two zero-padded decimal digits.
fn push_pad2(s: &mut String, n: u32)
    requires
        n < 100,
    ensures
        final (s)@ == old(s)@ + pad2(n as int),
{
    s.append(digit_str(n / 10));
    s.append(digit_str(n % 10));
    proof {
        assert(final (s)@ =~= old(s)@ + pad2(n as int));
    }
}

/// Append `n` as four zero-padded decimal digits.
fn push_pad4(s: &mut String, n: u32)
    requires
        n < 10000,
    ensures
        final (s)@ == old(s)@ + pad4(n as int),
{
    s.append(digit_str(n / 1000));
    s.append(digit_str((n / 100) % 10));
    s.append(digit_str((n / 10) % 10));
    s.append(digit_str(n % 10));
    proof {
        assert(final (s)@ =~= old(s)@ + pad4(n as int));
    }
}

/// Format a civil date-time, already broken into its six components, as
/// `YYYY-MM-DD HH:MM:SS`.
pub fn format_timestamp(y: u32, mo: u32, d: u32, h: u32, mi: u32, s: u32) -> (r: String)
    requires
        y < 10000,
        1 <= mo <= 12,
        1 <= d <= 31,
        h < 24,
        mi < 60,
        s < 60,
    ensures
        r@ == spec_timestamp(y as int, mo as int, d as int, h as int, mi as int, s as int),
{
    proof {
        reveal_strlit("-");
        reveal_strlit(" ");
        reveal_strlit(":");
    }
    let mut out = String::new();
    push_pad4(&mut out, y);
    out.append("-");
    push_pad2(&mut out, mo);
    out.append("-");
    push_pad2(&mut out, d);
    out.append(" ");
    push_pad2(&mut out, h);
    out.append(":");
    push_pad2(&mut out, mi);
    out.append(":");
    push_pad2(&mut out, s);
    proof {
        assert("-"@ =~= seq!['-']);
        assert(" "@ =~= seq![' ']);
        assert(":"@ =~= seq![':']);
        assert(out@ =~= spec_timestamp(
            y as int,
            mo as int,
            d as int,
            h as int,
            mi as int,
            s as int,
        ));
    }
    out
}

} // verus!
