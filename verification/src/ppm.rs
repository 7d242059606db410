//! Plain-text pixel maps.

use crate::raster::{raster_bytes, Raster};
use vstd::prelude::*;
use vstd::string::*;

verus! {

/// The character of a decimal digit.
pub open spec fn spec_digit(d: int) -> char {
    if d == 0 {
        '0'
    } else if d == 1 {
        '1'
    } else if d == 2 {
        '2'
    } else if d == 3 {
        '3'
    } else if d == 4 {
        '4'
    } else if d == 5 {
        '5'
    } else if d == 6 {
        '6'
    } else if d == 7 {
        '7'
    } else if d == 8 {
        '8'
    } else {
        '9'
    }
}

/// The decimal digits of `n`, without leading zeros.
pub open spec fn spec_decimal(n: int) -> Seq<char>
    decreases n,
{
    if n < 10 {
        seq![spec_digit(n)]
    } else {
        spec_decimal(n / 10).push(spec_digit(n % 10))
    }
}

/// The text of a decimal digit.
fn digit(d: u8) -> (s: &'static str)
    requires
        d < 10,
    ensures
        s@ == seq![spec_digit(d as int)],
{
    proof {
        reveal_strlit("0");
        reveal_strlit("1");
        reveal_strlit("2");
        reveal_strlit("3");
        reveal_strlit("4");
        reveal_strlit("5");
        reveal_strlit("6");
        reveal_strlit("7");
        reveal_strlit("8");
        reveal_strlit("9");
    }
    let s = if d == 0 {
        "0"
    } else if d == 1 {
        "1"
    } else if d == 2 {
        "2"
    } else if d == 3 {
        "3"
    } else if d == 4 {
        "4"
    } else if d == 5 {
        "5"
    } else if d == 6 {
        "6"
    } else if d == 7 {
        "7"
    } else if d == 8 {
        "8"
    } else {
        "9"
    };
    assert(s@ =~= seq![spec_digit(d as int)]);
    s
}

/// Appends the decimal digits of `n` to `out`.
pub fn push_decimal(out: &mut String, n: u32)
    ensures
        final(out)@ == old(out)@ + spec_decimal(n as int),
    decreases n,
{
    let ghost start = out@;
    if n >= 10 {
        push_decimal(out, n / 10);
    }
    out.append(digit((n % 10) as u8));
    proof {
        assert(out@ =~= start + spec_decimal(n as int));
    }
}

/// The line of one pixel: its three bytes in decimal, with a space between
/// them and a line feed after them.
pub open spec fn spec_line(r: u8, g: u8, b: u8) -> Seq<char> {
    spec_decimal(r as int) + seq![' '] + spec_decimal(g as int) + seq![' '] + spec_decimal(b as int)
        + seq!['\n']
}

/// The lines of the first `n` pixels of the bytes of a raster.
pub open spec fn spec_lines(bytes: Seq<u8>, n: int) -> Seq<char>
    decreases n,
{
    if n <= 0 {
        Seq::empty()
    } else {
        spec_lines(bytes, n - 1) + spec_line(bytes[3 * n - 3], bytes[3 * n - 2], bytes[3 * n - 1])
    }
}

/// The head of a pixel map of the given size: the magic number, the width
/// and the height, and the largest byte.
pub open spec fn spec_header(width: int, height: int) -> Seq<char> {
    seq!['P', '3', '\n'] + spec_decimal(width) + seq![' '] + spec_decimal(height) + seq![
        '\n',
        '2',
        '5',
        '5',
        '\n',
    ]
}

/// The plain-text pixel map of a raster: the head, then a line for each
/// pixel, row by row from the first row.
pub open spec fn spec_ppm(r: Raster) -> Seq<char> {
    spec_header(r.spec_width(), r.spec_height()) + spec_lines(
        raster_bytes(r),
        raster_bytes(r).len() as int / 3,
    )
}

/// Appends the line of one pixel to `out`.
pub fn push_line(out: &mut String, r: u8, g: u8, b: u8)
    ensures
        final(out)@ == old(out)@ + spec_line(r, g, b),
{
    proof {
        reveal_strlit(" ");
        reveal_strlit("\n");
    }
    let ghost start = out@;
    push_decimal(out, r as u32);
    out.append(" ");
    push_decimal(out, g as u32);
    out.append(" ");
    push_decimal(out, b as u32);
    out.append("\n");
    assert(out@ =~= start + spec_line(r, g, b));
}

/// The plain-text pixel map of a raster.
pub fn to_ppm(raster: &Raster) -> (s: String)
    ensures
        s@ == spec_ppm(*raster),
{
    proof {
        reveal_strlit("P3\n");
        reveal_strlit(" ");
        reveal_strlit("\n255\n");
    }
    let mut out = String::new();
    out.append("P3\n");
    push_decimal(&mut out, raster.width());
    out.append(" ");
    push_decimal(&mut out, raster.height());
    out.append("\n255\n");
    assert(out@ =~= spec_header(raster.spec_width(), raster.spec_height()));
    let bytes = raster.to_bytes();
    let count: usize = bytes.len() / 3;
    let mut k: usize = 0;
    while k < count
        invariant
            k <= count,
            count == bytes@.len() / 3,
            bytes@.len() <= usize::MAX,
            bytes@ == raster_bytes(*raster),
            out@ == spec_header(raster.spec_width(), raster.spec_height()) + spec_lines(
                bytes@,
                k as int,
            ),
        decreases count - k,
    {
        push_line(&mut out, bytes[3 * k], bytes[3 * k + 1], bytes[3 * k + 2]);
        assert(out@ =~= spec_header(raster.spec_width(), raster.spec_height()) + spec_lines(
            bytes@,
            k + 1,
        ));
        k += 1;
    }
    out
}

} // verus!
