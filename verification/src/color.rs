//! Rendering of raw RGB bytes as a lowercase `#rrggbb` hex string.

use vstd::prelude::*;
use vstd::string::StringExecFns;

verus! {

/// The lowercase hex digit character for a nibble value; values outside
/// `0..16` are never produced by the codec.
pub open spec fn hex_digit(n: int) -> char {
    if n == 0 {
        '0'
    } else if n == 1 {
        '1'
    } else if n == 2 {
        '2'
    } else if n == 3 {
        '3'
    } else if n == 4 {
        '4'
    } else if n == 5 {
        '5'
    } else if n == 6 {
        '6'
    } else if n == 7 {
        '7'
    } else if n == 8 {
        '8'
    } else if n == 9 {
        '9'
    } else if n == 10 {
        'a'
    } else if n == 11 {
        'b'
    } else if n == 12 {
        'c'
    } else if n == 13 {
        'd'
    } else if n == 14 {
        'e'
    } else {
        'f'
    }
}

/// Membership in `[0-9a-f]`.
pub open spec fn is_hex_digit_char(c: char) -> bool {
    c == '0' || c == '1' || c == '2' || c == '3' || c == '4' || c == '5' || c == '6' || c == '7'
        || c == '8' || c == '9' || c == 'a' || c == 'b' || c == 'c' || c == 'd' || c == 'e'
        || c == 'f'
}

/// A string of the shape `#[0-9a-f]{6}`: exactly seven characters, a leading
/// `#`, then six lowercase hex digits.
pub open spec fn is_color_hex(s: Seq<char>) -> bool {
    &&& s.len() == 7
    &&& s[0] == '#'
    &&& forall|i: int| 1 <= i < 7 ==> is_hex_digit_char(#[trigger] s[i])
}

/// The exact `#rrggbb` rendering of a color: each channel as two zero-padded
/// lowercase hex digits.
pub open spec fn color_hex(r: u8, g: u8, b: u8) -> Seq<char> {
    seq![
        '#',
        hex_digit(r as int / 16),
        hex_digit(r as int % 16),
        hex_digit(g as int / 16),
        hex_digit(g as int % 16),
        hex_digit(b as int / 16),
        hex_digit(b as int % 16),
    ]
}

/// The one-character string for a nibble.
fn hex_digit_str(n: u8) -> (s: &'static str)
    requires
        n < 16,
    ensures
        s@ =~= seq![hex_digit(n as int)],
{
    proof {
        reveal_strlit("0");
        reveal_strlit("1");
        reveal_strlit("2");
        reveal_strlit("3");
        reveal_strlit("4");
        reveal_strlit("5");
        reveal_strlit("6");
        reveal_strlit("7");
        reveal_strlit("8");
        reveal_strlit("9");
        reveal_strlit("a");
        reveal_strlit("b");
        reveal_strlit("c");
        reveal_strlit("d");
        reveal_strlit("e");
        reveal_strlit("f");
    }
    match n {
        0 => "0",
        1 => "1",
        2 => "2",
        3 => "3",
        4 => "4",
        5 => "5",
        6 => "6",
        7 => "7",
        8 => "8",
        9 => "9",
        10 => "a",
        11 => "b",
        12 => "c",
        13 => "d",
        14 => "e",
        _ => "f",
    }
}

/// Renders a color as its 7-character lowercase hex string.
pub fn to_hex(r: u8, g: u8, b: u8) -> (s: String)
    ensures
        s@ == color_hex(r, g, b),
{
    let mut out = String::new();
    proof {
        reveal_strlit("#");
    }
    out.append("#");
    out.append(hex_digit_str(r / 16));
    out.append(hex_digit_str(r % 16));
    out.append(hex_digit_str(g / 16));
    out.append(hex_digit_str(g % 16));
    out.append(hex_digit_str(b / 16));
    out.append(hex_digit_str(b % 16));
    proof {
        assert(out@ =~= color_hex(r, g, b));
    }
    out
}

/// Every rendered color matches `#[0-9a-f]{6}`.
pub proof fn lemma_color_hex_format(r: u8, g: u8, b: u8)
    ensures
        is_color_hex(color_hex(r, g, b)),
{
    assert forall|n: int| 0 <= n < 16 implies is_hex_digit_char(hex_digit(n)) by {}
    assert(is_color_hex(color_hex(r, g, b)));
}

} // verus!
