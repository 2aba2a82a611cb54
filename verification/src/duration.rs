//! The duration label of a track: seconds rendered as `m:ss`, or with a
//! leading hour part once the minute count reaches an hour.

use vstd::prelude::*;

verus! {

/// The decimal digit character for `d`.
pub open spec fn spec_digit(d: nat) -> char
    recommends
        d < 10,
{
    if d == 0 {
        '0'
    } else if d == 1 {
        '1'
    } else if d == 2 {
        '2'
    } else if d == 3 {
        '3'
    } else if d == 4 {
        '4'
    } else if d == 5 {
        '5'
    } else if d == 6 {
        '6'
    } else if d == 7 {
        '7'
    } else if d == 8 {
        '8'
    } else {
        '9'
    }
}

/// The decimal rendering of `n`, most significant digit first, no leading
/// zero except for zero itself.
pub open spec fn spec_decimal(n: nat) -> Seq<char>
    decreases n,
{
    if n < 10 {
        seq![spec_digit(n)]
    } else {
        spec_decimal(n / 10).push(spec_digit(n % 10))
    }
}

/// The decimal rendering of `n`, left-padded with zeroes to at least two
/// characters.
pub open spec fn spec_padded2(n: nat) -> Seq<char> {
    if n < 10 {
        seq!['0'] + spec_decimal(n)
    } else {
        spec_decimal(n)
    }
}

/// The duration label of a track of `seconds` seconds: `m:ss` below an
/// hour. From an hour upward the label shows the hour count twice — once
/// plain and once zero-padded in the minute position — because both leading
/// positions divide the minute count by sixty.
pub open spec fn spec_songlength_label(seconds: u64) -> Seq<char> {
    let mins = seconds as int / 60;
    let secs = (seconds as int % 60) as nat;
    if mins >= 60 {
        let hours = (mins / 60) as nat;
        spec_decimal(hours) + seq![':'] + spec_padded2(hours) + seq![':'] + spec_padded2(secs)
    } else {
        spec_decimal(mins as nat) + seq![':'] + spec_padded2(secs)
    }
}

/// Append the digit character for `d`.
fn append_digit(out: &mut String, d: u64)
    requires
        d < 10,
    ensures
        final(out)@ == old(out)@ + seq![spec_digit(d as nat)],
{
    proof {
        reveal_strlit("0");
        reveal_strlit("1");
        reveal_strlit("2");
        reveal_strlit("3");
        reveal_strlit("4");
        reveal_strlit("5");
        reveal_strlit("6");
        reveal_strlit("7");
        reveal_strlit("8");
        reveal_strlit("9");
    }
    match d {
        0 => out.append("0"),
        1 => out.append("1"),
        2 => out.append("2"),
        3 => out.append("3"),
        4 => out.append("4"),
        5 => out.append("5"),
        6 => out.append("6"),
        7 => out.append("7"),
        8 => out.append("8"),
        _ => out.append("9"),
    }
    proof {
        assert(final(out)@ =~= old(out)@ + seq![spec_digit(d as nat)]);
    }
}

/// Append the decimal rendering of `n`.
fn append_decimal(out: &mut String, n: u64)
    ensures
        final(out)@ == old(out)@ + spec_decimal(n as nat),
    decreases n,
{
    if n < 10 {
        append_digit(out, n);
    } else {
        append_decimal(out, n / 10);
        append_digit(out, n % 10);
        proof {
            assert(final(out)@ =~= old(out)@ + spec_decimal(n as nat));
        }
    }
}

/// Append the decimal rendering of `n`, zero-padded to at least two
/// characters.
fn append_padded2(out: &mut String, n: u64)
    ensures
        final(out)@ == old(out)@ + spec_padded2(n as nat),
{
    if n < 10 {
        append_digit(out, 0);
        append_digit(out, n);
        proof {
            reveal_strlit("0");
            assert(final(out)@ =~= old(out)@ + spec_padded2(n as nat));
        }
    } else {
        append_decimal(out, n);
    }
}

/// Append the `:` separator.
fn append_colon(out: &mut String)
    ensures
        final(out)@ == old(out)@ + seq![':'],
{
    proof {
        reveal_strlit(":");
    }
    out.append(":");
    proof {
        assert(final(out)@ =~= old(out)@ + seq![':']);
    }
}

/// Render the duration label of a track of `seconds` seconds.
pub fn format_songlength(seconds: u64) -> (r: String)
    ensures
        r@ == spec_songlength_label(seconds),
{
    let mins = seconds / 60;
    let secs = seconds % 60;
    let mut out = String::new();
    if mins >= 60 {
        let hours = mins / 60;
        append_decimal(&mut out, hours);
        append_colon(&mut out);
        append_padded2(&mut out, hours);
        append_colon(&mut out);
        append_padded2(&mut out, secs);
    } else {
        append_decimal(&mut out, mins);
        append_colon(&mut out);
        append_padded2(&mut out, secs);
    }
    proof {
        assert(out@ =~= spec_songlength_label(seconds));
    }
    out
}

} // verus!
