//! The palette, and the draw of the one colour of an image.

use vstd::prelude::*;
use vstd::string::*;
use rand_xoshiro::Xoshiro256PlusPlus;
use crate::rng::{drawn_index, gen_range_exclusive, stream_after_index};

verus! {

/// An opaque colour of three 8-bit channels.
#[derive(Debug, Clone, Copy, PartialEq, Eq, Structural)]
pub struct Color {
    pub r: u8,
    pub g: u8,
    pub b: u8,
}

impl Color {
    /// The three channels as they lie in a pixel: red, green, blue.
    pub open spec fn channels(self) -> (u8, u8, u8) {
        (self.r, self.g, self.b)
    }
}

/// A colour of three 8-bit channels with an alpha channel.
#[derive(Debug, Clone, Copy, PartialEq, Eq, Structural)]
pub struct ColorAlpha {
    pub r: u8,
    pub g: u8,
    pub b: u8,
    pub a: u8,
}

/// The palette entry that a drawn index selects, out of the four colours of
/// the Julia logo: red, green and blue for 0, 1 and 2, purple for every other
/// index.
pub open spec fn palette(index: int) -> Color {
    if index == 0 {
        Color { r: 203, g: 60, b: 51 }
    } else if index == 1 {
        Color { r: 56, g: 152, b: 38 }
    } else if index == 2 {
        Color { r: 64, g: 99, b: 216 }
    } else {
        Color { r: 149, g: 88, b: 178 }
    }
}

/// The palette entry with an alpha channel that a drawn index selects.
pub open spec fn palette_alpha(index: int) -> ColorAlpha {
    if index == 0 {
        ColorAlpha { r: 203, g: 60, b: 51, a: 255 }
    } else if index == 1 {
        ColorAlpha { r: 56, g: 152, b: 38, a: 255 }
    } else if index == 2 {
        ColorAlpha { r: 64, g: 99, b: 216, a: 255 }
    } else {
        ColorAlpha { r: 149, g: 88, b: 178, a: 255 }
    }
}

/// The colour that a drawn palette index stands for.
pub fn julia_color(index: i32) -> (c: Color)
    ensures
        c == palette(index as int),
{
    match index {
        0 => Color { r: 203, g: 60, b: 51 },
        1 => Color { r: 56, g: 152, b: 38 },
        2 => Color { r: 64, g: 99, b: 216 },
        _ => Color { r: 149, g: 88, b: 178 },
    }
}

/// The colour with an alpha channel that a drawn palette index stands for.
pub fn julia_color_alpha(index: i32) -> (c: ColorAlpha)
    ensures
        c == palette_alpha(index as int),
{
    match index {
        0 => ColorAlpha { r: 203, g: 60, b: 51, a: 255 },
        1 => ColorAlpha { r: 56, g: 152, b: 38, a: 255 },
        2 => ColorAlpha { r: 64, g: 99, b: 216, a: 255 },
        _ => ColorAlpha { r: 149, g: 88, b: 178, a: 255 },
    }
}

/// The palette index that a generator in the given state draws.
pub open spec fn drawn_palette_index(rng: Xoshiro256PlusPlus) -> int {
    drawn_index(rng, 0, 4) as int
}

/// Draws one palette index in `[0, 4)` from the stream and returns its
/// colour. Which of the four it is depends on the stream alone.
pub fn random_julia_color(rng: &mut Xoshiro256PlusPlus) -> (c: Color)
    ensures
        0 <= drawn_palette_index(*old(rng)) < 4,
        c == palette(drawn_palette_index(*old(rng))),
        *final(rng) == stream_after_index(*old(rng), 0, 4),
{
    let index: i32 = gen_range_exclusive(rng, 0, 4);
    julia_color(index)
}

/// Draws one palette index in `[0, 4)` from the stream and returns its
/// colour with an alpha channel.
pub fn random_julia_color_alpha(rng: &mut Xoshiro256PlusPlus) -> (c: ColorAlpha)
    ensures
        0 <= drawn_palette_index(*old(rng)) < 4,
        c == palette_alpha(drawn_palette_index(*old(rng))),
        *final(rng) == stream_after_index(*old(rng), 0, 4),
{
    let index: i32 = gen_range_exclusive(rng, 0, 4);
    julia_color_alpha(index)
}

/// The character of one decimal digit.
pub open spec fn digit_char(d: nat) -> char {
    if d == 0 {
        '0'
    } else if d == 1 {
        '1'
    } else if d == 2 {
        '2'
    } else if d == 3 {
        '3'
    } else if d == 4 {
        '4'
    } else if d == 5 {
        '5'
    } else if d == 6 {
        '6'
    } else if d == 7 {
        '7'
    } else if d == 8 {
        '8'
    } else {
        '9'
    }
}

/// The decimal numeral of a number, without sign or leading zeros.
pub open spec fn decimal(n: nat) -> Seq<char>
    decreases n,
{
    if n < 10 {
        seq![digit_char(n)]
    } else {
        decimal(n / 10).push(digit_char(n % 10))
    }
}

fn digit_str(d: usize) -> (s: &'static str)
    requires
        d < 10,
    ensures
        s@ == seq![digit_char(d as nat)],
{
    proof {
        reveal_strlit("0");
        reveal_strlit("1");
        reveal_strlit("2");
        reveal_strlit("3");
        reveal_strlit("4");
        reveal_strlit("5");
        reveal_strlit("6");
        reveal_strlit("7");
        reveal_strlit("8");
        reveal_strlit("9");
    }
    let s = match d {
        0 => "0",
        1 => "1",
        2 => "2",
        3 => "3",
        4 => "4",
        5 => "5",
        6 => "6",
        7 => "7",
        8 => "8",
        _ => "9",
    };
    assert(s@ =~= seq![digit_char(d as nat)]);
    s
}

/// Writes a number as its decimal numeral.
pub fn decimal_string(n: usize) -> (s: String)
    ensures
        s@ == decimal(n as nat),
    decreases n,
{
    if n < 10 {
        String::from_str(digit_str(n))
    } else {
        let head = decimal_string(n / 10);
        let s = head.concat(digit_str(n % 10));
        assert(s@ =~= decimal((n / 10) as nat).push(digit_char((n % 10) as nat)));
        s
    }
}

} // verus!
