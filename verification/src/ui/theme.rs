//! Colors named in the configuration: a color name or `#rrggbb`.
use vstd::prelude::*;

use crate::text::{ascii_lower_seq, chars_of, to_ascii_lower_chars, trim_chars, trim_seq};

verus! {

/// The terminal's named colors.
#[derive(Debug, Clone, Copy, PartialEq, Eq, Structural)]
pub enum ColorName {
    Black,
    Red,
    Green,
    Yellow,
    Blue,
    Magenta,
    Cyan,
    Gray,
    DarkGray,
    LightRed,
    LightGreen,
    LightYellow,
    LightBlue,
    LightMagenta,
    LightCyan,
    White,
}

/// A color of the configuration.
#[derive(Debug, Clone, Copy, PartialEq, Eq, Structural)]
pub enum ThemeColor {
    Named(ColorName),
    Rgb(u8, u8, u8),
}

/// The color a (lower-case) name stands for.
pub open spec fn named_color(n: Seq<char>) -> Option<ColorName> {
    if n == "black"@ {
        Some(ColorName::Black)
    } else if n == "red"@ {
        Some(ColorName::Red)
    } else if n == "green"@ {
        Some(ColorName::Green)
    } else if n == "yellow"@ {
        Some(ColorName::Yellow)
    } else if n == "blue"@ {
        Some(ColorName::Blue)
    } else if n == "magenta"@ {
        Some(ColorName::Magenta)
    } else if n == "cyan"@ {
        Some(ColorName::Cyan)
    } else if n == "gray"@ || n == "grey"@ {
        Some(ColorName::Gray)
    } else if n == "darkgray"@ || n == "darkgrey"@ {
        Some(ColorName::DarkGray)
    } else if n == "lightred"@ {
        Some(ColorName::LightRed)
    } else if n == "lightgreen"@ {
        Some(ColorName::LightGreen)
    } else if n == "lightyellow"@ {
        Some(ColorName::LightYellow)
    } else if n == "lightblue"@ {
        Some(ColorName::LightBlue)
    } else if n == "lightmagenta"@ {
        Some(ColorName::LightMagenta)
    } else if n == "lightcyan"@ {
        Some(ColorName::LightCyan)
    } else if n == "white"@ {
        Some(ColorName::White)
    } else {
        None
    }
}

/// The value of a hexadecimal digit (either case).
pub open spec fn hex_value(c: char) -> Option<u8> {
    if '0' <= c && c <= '9' {
        Some((c as int - '0' as int) as u8)
    } else if 'a' <= c && c <= 'f' {
        Some((c as int - 'a' as int + 10) as u8)
    } else if 'A' <= c && c <= 'F' {
        Some((c as int - 'A' as int + 10) as u8)
    } else {
        None
    }
}

/// The byte that two hexadecimal digits spell.
pub open spec fn hex_byte(hi: char, lo: char) -> Option<u8> {
    match (hex_value(hi), hex_value(lo)) {
        (Some(h), Some(l)) => Some((h * 16 + l) as u8),
        _ => None,
    }
}

/// What a configured color text means: `#rrggbb`, or a color name in any
/// case, surrounding whitespace ignored.
pub open spec fn color_of(text: Seq<char>) -> Option<ThemeColor> {
    let t = trim_seq(text);
    if t.len() == 7 && t[0] == '#' {
        match (hex_byte(t[1], t[2]), hex_byte(t[3], t[4]), hex_byte(t[5], t[6])) {
            (Some(r), Some(g), Some(b)) => Some(ThemeColor::Rgb(r, g, b)),
            _ => None,
        }
    } else {
        match named_color(ascii_lower_seq(t)) {
            Some(n) => Some(ThemeColor::Named(n)),
            None => None,
        }
    }
}

fn hex_digit(c: char) -> (r: Option<u8>)
    ensures
        r == hex_value(c),
{
    if '0' <= c && c <= '9' {
        Some(((c as u32) - ('0' as u32)) as u8)
    } else if 'a' <= c && c <= 'f' {
        Some(((c as u32) - ('a' as u32) + 10) as u8)
    } else if 'A' <= c && c <= 'F' {
        Some(((c as u32) - ('A' as u32) + 10) as u8)
    } else {
        None
    }
}

fn hex_pair(hi: char, lo: char) -> (r: Option<u8>)
    ensures
        r == hex_byte(hi, lo),
{
    match (hex_digit(hi), hex_digit(lo)) {
        (Some(h), Some(l)) => Some(h * 16 + l),
        _ => None,
    }
}

fn is_word(v: &Vec<char>, w: &str) -> (r: bool)
    ensures
        r == (v@ == w@),
{
    let wc = chars_of(w);
    crate::text::chars_eq(v, &wc)
}

/// The color a configured color text means (see `color_of`).
pub fn parse_color(text: &str) -> (r: Option<ThemeColor>)
    ensures
        r == color_of(text@),
{
    let t = trim_chars(&chars_of(text));
    if t.len() == 7 && t[0] == '#' {
        return match (hex_pair(t[1], t[2]), hex_pair(t[3], t[4]), hex_pair(t[5], t[6])) {
            (Some(r), Some(g), Some(b)) => Some(ThemeColor::Rgb(r, g, b)),
            _ => None,
        };
    }
    let l = to_ascii_lower_chars(&t);
    let name = if is_word(&l, "black") {
        Some(ColorName::Black)
    } else if is_word(&l, "red") {
        Some(ColorName::Red)
    } else if is_word(&l, "green") {
        Some(ColorName::Green)
    } else if is_word(&l, "yellow") {
        Some(ColorName::Yellow)
    } else if is_word(&l, "blue") {
        Some(ColorName::Blue)
    } else if is_word(&l, "magenta") {
        Some(ColorName::Magenta)
    } else if is_word(&l, "cyan") {
        Some(ColorName::Cyan)
    } else if is_word(&l, "gray") || is_word(&l, "grey") {
        Some(ColorName::Gray)
    } else if is_word(&l, "darkgray") || is_word(&l, "darkgrey") {
        Some(ColorName::DarkGray)
    } else if is_word(&l, "lightred") {
        Some(ColorName::LightRed)
    } else if is_word(&l, "lightgreen") {
        Some(ColorName::LightGreen)
    } else if is_word(&l, "lightyellow") {
        Some(ColorName::LightYellow)
    } else if is_word(&l, "lightblue") {
        Some(ColorName::LightBlue)
    } else if is_word(&l, "lightmagenta") {
        Some(ColorName::LightMagenta)
    } else if is_word(&l, "lightcyan") {
        Some(ColorName::LightCyan)
    } else if is_word(&l, "white") {
        Some(ColorName::White)
    } else {
        None
    };
    match name {
        Some(n) => Some(ThemeColor::Named(n)),
        None => None,
    }
}

} // verus!
