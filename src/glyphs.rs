//! The glyph table: a 7-row monochrome bitmap for each printable ASCII
//! character, a bordered box for everything else, and integer upscaling.

use std::collections::HashMap;
use vstd::prelude::*;

verus! {

broadcast use vstd::std_specs::hash::group_hash_axioms;

/// A glyph bitmap: rows of pixels, `true` where the glyph is drawn.
pub type CharBitmap = Vec<Vec<bool>>;

/// Number of rows of every glyph of the table.
pub const GLYPH_HEIGHT: usize = 7;

/// The character whose glyph stands for every character outside the table.
pub const FALLBACK_GLYPH: char = '\u{FFFD}';

/// A glyph of the table, packed: its width, then one mask per row whose
/// most significant of `width` bits is the leftmost pixel. Characters
/// outside the table get the fallback box.
pub open spec fn glyph_rows(c: char) -> Seq<u8> {
    match c {
        ' ' => seq![3, 0b000, 0b000, 0b000, 0b000, 0b000, 0b000, 0b000],
        '!' => seq![1, 0b1, 0b1, 0b1, 0b1, 0b1, 0b0, 0b1],
        '"' => seq![3, 0b101, 0b101, 0b101, 0b000, 0b000, 0b000, 0b000],
        '#' => seq![5, 0b01010, 0b01010, 0b11111, 0b01010, 0b11111, 0b01010, 0b01010],
        '$' => seq![5, 0b01110, 0b10100, 0b10100, 0b01110, 0b00101, 0b00101, 0b01110],
        '%' => seq![5, 0b11000, 0b11001, 0b00010, 0b00100, 0b01000, 0b10011, 0b00011],
        '&' => seq![5, 0b01100, 0b10010, 0b10100, 0b01000, 0b10101, 0b10010, 0b01101],
        '\'' => seq![1, 0b1, 0b1, 0b1, 0b0, 0b0, 0b0, 0b0],
        '(' => seq![2, 0b01, 0b10, 0b10, 0b10, 0b10, 0b10, 0b01],
        ')' => seq![2, 0b10, 0b01, 0b01, 0b01, 0b01, 0b01, 0b10],
        '*' => seq![3, 0b000, 0b101, 0b010, 0b111, 0b010, 0b101, 0b000],
        '+' => seq![3, 0b000, 0b010, 0b010, 0b111, 0b010, 0b010, 0b000],
        ',' => seq![2, 0b00, 0b00, 0b00, 0b00, 0b00, 0b01, 0b10],
        '-' => seq![3, 0b000, 0b000, 0b000, 0b111, 0b000, 0b000, 0b000],
        '.' => seq![1, 0b0, 0b0, 0b0, 0b0, 0b0, 0b0, 0b1],
        '/' => seq![4, 0b0001, 0b0010, 0b0010, 0b0100, 0b0100, 0b1000, 0b1000],
        '0' => seq![4, 0b0110, 0b1001, 0b1011, 0b1101, 0b1001, 0b1001, 0b0110],
        '1' => seq![3, 0b010, 0b110, 0b010, 0b010, 0b010, 0b010, 0b111],
        '2' => seq![4, 0b0110, 0b1001, 0b0001, 0b0010, 0b0100, 0b1000, 0b1111],
        '3' => seq![4, 0b0110, 0b1001, 0b0001, 0b0110, 0b0001, 0b1001, 0b0110],
        '4' => seq![4, 0b0010, 0b0110, 0b1010, 0b1010, 0b1111, 0b0010, 0b0010],
        '5' => seq![4, 0b1111, 0b1000, 0b1110, 0b0001, 0b0001, 0b1001, 0b0110],
        '6' => seq![4, 0b0110, 0b1001, 0b1000, 0b1110, 0b1001, 0b1001, 0b0110],
        '7' => seq![4, 0b1111, 0b0001, 0b0010, 0b0100, 0b0100, 0b0100, 0b0100],
        '8' => seq![4, 0b0110, 0b1001, 0b1001, 0b0110, 0b1001, 0b1001, 0b0110],
        '9' => seq![4, 0b0110, 0b1001, 0b1001, 0b0111, 0b0001, 0b1001, 0b0110],
        ':' => seq![1, 0b0, 0b1, 0b1, 0b0, 0b1, 0b1, 0b0],
        ';' => seq![2, 0b00, 0b01, 0b01, 0b00, 0b01, 0b01, 0b10],
        '<' => seq![3, 0b001, 0b010, 0b100, 0b100, 0b100, 0b010, 0b001],
        '=' => seq![3, 0b000, 0b000, 0b111, 0b000, 0b111, 0b000, 0b000],
        '>' => seq![3, 0b100, 0b010, 0b001, 0b001, 0b001, 0b010, 0b100],
        '?' => seq![4, 0b0110, 0b1001, 0b0001, 0b0010, 0b0100, 0b0000, 0b0100],
        '@' => seq![5, 0b01110, 0b10001, 0b10111, 0b10111, 0b10110, 0b10000, 0b01110],
        'A' => seq![4, 0b0110, 0b1001, 0b1001, 0b1111, 0b1001, 0b1001, 0b1001],
        'B' => seq![4, 0b1110, 0b1001, 0b1001, 0b1110, 0b1001, 0b1001, 0b1110],
        'C' => seq![4, 0b0110, 0b1001, 0b1000, 0b1000, 0b1000, 0b1001, 0b0110],
        'D' => seq![4, 0b1110, 0b1001, 0b1001, 0b1001, 0b1001, 0b1001, 0b1110],
        'E' => seq![4, 0b1111, 0b1000, 0b1000, 0b1110, 0b1000, 0b1000, 0b1111],
        'F' => seq![4, 0b1111, 0b1000, 0b1000, 0b1110, 0b1000, 0b1000, 0b1000],
        'G' => seq![4, 0b0110, 0b1001, 0b1000, 0b1011, 0b1001, 0b1001, 0b0111],
        'H' => seq![4, 0b1001, 0b1001, 0b1001, 0b1111, 0b1001, 0b1001, 0b1001],
        'I' => seq![3, 0b111, 0b010, 0b010, 0b010, 0b010, 0b010, 0b111],
        'J' => seq![4, 0b0011, 0b0001, 0b0001, 0b0001, 0b1001, 0b1001, 0b0110],
        'K' => seq![4, 0b1001, 0b1010, 0b1100, 0b1000, 0b1100, 0b1010, 0b1001],
        'L' => seq![4, 0b1000, 0b1000, 0b1000, 0b1000, 0b1000, 0b1000, 0b1111],
        'M' => seq![5, 0b10001, 0b11011, 0b10101, 0b10101, 0b10001, 0b10001, 0b10001],
        'N' => seq![4, 0b1001, 0b1101, 0b1101, 0b1011, 0b1011, 0b1001, 0b1001],
        'O' => seq![4, 0b0110, 0b1001, 0b1001, 0b1001, 0b1001, 0b1001, 0b0110],
        'P' => seq![4, 0b1110, 0b1001, 0b1001, 0b1110, 0b1000, 0b1000, 0b1000],
        'Q' => seq![4, 0b0110, 0b1001, 0b1001, 0b1001, 0b1011, 0b1001, 0b0111],
        'R' => seq![4, 0b1110, 0b1001, 0b1001, 0b1110, 0b1010, 0b1001, 0b1001],
        'S' => seq![4, 0b0111, 0b1000, 0b1000, 0b0110, 0b0001, 0b0001, 0b1110],
        'T' => seq![5, 0b11111, 0b00100, 0b00100, 0b00100, 0b00100, 0b00100, 0b00100],
        'U' => seq![4, 0b1001, 0b1001, 0b1001, 0b1001, 0b1001, 0b1001, 0b0110],
        'V' => seq![4, 0b1001, 0b1001, 0b1001, 0b1001, 0b1001, 0b0110, 0b0010],
        'W' => seq![5, 0b10001, 0b10001, 0b10001, 0b10101, 0b10101, 0b11011, 0b10001],
        'X' => seq![4, 0b1001, 0b1001, 0b0110, 0b0000, 0b0110, 0b1001, 0b1001],
        'Y' => seq![4, 0b1001, 0b1001, 0b0110, 0b0010, 0b0010, 0b0010, 0b0010],
        'Z' => seq![4, 0b1111, 0b0001, 0b0010, 0b0100, 0b1000, 0b1000, 0b1111],
        '[' => seq![2, 0b11, 0b10, 0b10, 0b10, 0b10, 0b10, 0b11],
        '\\' => seq![4, 0b1000, 0b1000, 0b0100, 0b0100, 0b0010, 0b0010, 0b0001],
        ']' => seq![2, 0b11, 0b01, 0b01, 0b01, 0b01, 0b01, 0b11],
        '^' => seq![3, 0b010, 0b101, 0b000, 0b000, 0b000, 0b000, 0b000],
        '_' => seq![3, 0b000, 0b000, 0b000, 0b000, 0b000, 0b000, 0b111],
        '`' => seq![2, 0b10, 0b01, 0b00, 0b00, 0b00, 0b00, 0b00],
        'a' => seq![3, 0b000, 0b000, 0b011, 0b001, 0b011, 0b101, 0b011],
        'b' => seq![3, 0b100, 0b100, 0b110, 0b101, 0b101, 0b101, 0b110],
        'c' => seq![3, 0b000, 0b000, 0b011, 0b100, 0b100, 0b100, 0b011],
        'd' => seq![3, 0b001, 0b001, 0b011, 0b101, 0b101, 0b101, 0b011],
        'e' => seq![3, 0b000, 0b000, 0b011, 0b101, 0b111, 0b100, 0b011],
        'f' => seq![3, 0b011, 0b100, 0b111, 0b100, 0b100, 0b100, 0b100],
        'g' => seq![3, 0b000, 0b011, 0b101, 0b101, 0b011, 0b001, 0b010],
        'h' => seq![3, 0b100, 0b100, 0b110, 0b101, 0b101, 0b101, 0b101],
        'i' => seq![3, 0b010, 0b000, 0b110, 0b010, 0b010, 0b010, 0b111],
        'j' => seq![3, 0b001, 0b000, 0b011, 0b001, 0b001, 0b101, 0b010],
        'k' => seq![3, 0b100, 0b100, 0b101, 0b110, 0b110, 0b101, 0b101],
        'l' => seq![3, 0b110, 0b010, 0b010, 0b010, 0b010, 0b010, 0b111],
        'm' => seq![4, 0b0000, 0b0000, 0b1110, 0b1011, 0b1011, 0b1011, 0b1011],
        'n' => seq![3, 0b000, 0b000, 0b110, 0b101, 0b101, 0b101, 0b101],
        'o' => seq![3, 0b000, 0b000, 0b010, 0b101, 0b101, 0b101, 0b010],
        'p' => seq![3, 0b000, 0b000, 0b110, 0b101, 0b110, 0b100, 0b100],
        'q' => seq![3, 0b000, 0b000, 0b011, 0b101, 0b011, 0b001, 0b001],
        'r' => seq![3, 0b000, 0b000, 0b101, 0b110, 0b100, 0b100, 0b100],
        's' => seq![3, 0b000, 0b000, 0b011, 0b100, 0b010, 0b001, 0b110],
        't' => seq![3, 0b010, 0b010, 0b111, 0b010, 0b010, 0b010, 0b011],
        'u' => seq![3, 0b000, 0b000, 0b101, 0b101, 0b101, 0b101, 0b011],
        'v' => seq![3, 0b000, 0b000, 0b101, 0b101, 0b101, 0b010, 0b010],
        'w' => seq![4, 0b0000, 0b0000, 0b1001, 0b1001, 0b1011, 0b1101, 0b1001],
        'x' => seq![3, 0b000, 0b000, 0b101, 0b101, 0b010, 0b101, 0b101],
        'y' => seq![3, 0b000, 0b000, 0b101, 0b101, 0b011, 0b001, 0b010],
        'z' => seq![3, 0b000, 0b000, 0b111, 0b001, 0b010, 0b100, 0b111],
        '{' => seq![3, 0b011, 0b010, 0b010, 0b100, 0b010, 0b010, 0b011],
        '|' => seq![3, 0b010, 0b010, 0b010, 0b010, 0b010, 0b010, 0b010],
        '}' => seq![3, 0b110, 0b010, 0b010, 0b001, 0b010, 0b010, 0b110],
        '~' => seq![4, 0b0000, 0b0000, 0b0101, 0b1010, 0b0000, 0b0000, 0b0000],
        _ => seq![5, 0b11111, 0b10001, 0b10101, 0b10101, 0b10101, 0b10001, 0b11111],
    }
}

/// Characters that have an entry of their own: printable ASCII and the
/// fallback character.
pub open spec fn in_table(c: char) -> bool {
    (0x20 <= c as u32 && c as u32 <= 0x7e) || c == FALLBACK_GLYPH
}

/// Code points of the characters that have an entry of their own.
pub open spec fn in_table_code(k: u32) -> bool {
    (0x20 <= k && k <= 0x7e) || k == 0xfffd
}

pub open spec fn glyph_width(c: char) -> nat {
    glyph_rows(c)[0] as nat
}

pub open spec fn glyph_bit(c: char, y: int, x: int) -> bool {
    (glyph_rows(c)[y + 1] >> ((glyph_width(c) - 1 - x) as u8)) & 1u8 == 1u8
}

/// The bitmap drawn for `c`: the table's glyph, or the fallback box.
pub open spec fn glyph_of(c: char) -> Seq<Seq<bool>> {
    Seq::new(GLYPH_HEIGHT as nat, |y: int| Seq::new(glyph_width(c), |x: int| glyph_bit(c, y, x)))
}

/// A bitmap as nested sequences.
pub open spec fn bitmap_view(b: CharBitmap) -> Seq<Seq<bool>> {
    b@.map_values(|row: Vec<bool>| row@)
}

/// `b` upscaled by `k`: each pixel becomes a `k` by `k` block.
pub open spec fn scaled(b: Seq<Seq<bool>>, k: nat) -> Seq<Seq<bool>> {
    Seq::new(
        b.len() * k,
        |y: int| Seq::new(b[y / k as int].len() * k, |x: int| b[y / k as int][x / k as int]),
    )
}

fn glyph_rows_exec(c: char) -> (r: [u8; 8])
    ensures
        r@ == glyph_rows(c),
{
    match c {
        ' ' => [3, 0b000, 0b000, 0b000, 0b000, 0b000, 0b000, 0b000],
        '!' => [1, 0b1, 0b1, 0b1, 0b1, 0b1, 0b0, 0b1],
        '"' => [3, 0b101, 0b101, 0b101, 0b000, 0b000, 0b000, 0b000],
        '#' => [5, 0b01010, 0b01010, 0b11111, 0b01010, 0b11111, 0b01010, 0b01010],
        '$' => [5, 0b01110, 0b10100, 0b10100, 0b01110, 0b00101, 0b00101, 0b01110],
        '%' => [5, 0b11000, 0b11001, 0b00010, 0b00100, 0b01000, 0b10011, 0b00011],
        '&' => [5, 0b01100, 0b10010, 0b10100, 0b01000, 0b10101, 0b10010, 0b01101],
        '\'' => [1, 0b1, 0b1, 0b1, 0b0, 0b0, 0b0, 0b0],
        '(' => [2, 0b01, 0b10, 0b10, 0b10, 0b10, 0b10, 0b01],
        ')' => [2, 0b10, 0b01, 0b01, 0b01, 0b01, 0b01, 0b10],
        '*' => [3, 0b000, 0b101, 0b010, 0b111, 0b010, 0b101, 0b000],
        '+' => [3, 0b000, 0b010, 0b010, 0b111, 0b010, 0b010, 0b000],
        ',' => [2, 0b00, 0b00, 0b00, 0b00, 0b00, 0b01, 0b10],
        '-' => [3, 0b000, 0b000, 0b000, 0b111, 0b000, 0b000, 0b000],
        '.' => [1, 0b0, 0b0, 0b0, 0b0, 0b0, 0b0, 0b1],
        '/' => [4, 0b0001, 0b0010, 0b0010, 0b0100, 0b0100, 0b1000, 0b1000],
        '0' => [4, 0b0110, 0b1001, 0b1011, 0b1101, 0b1001, 0b1001, 0b0110],
        '1' => [3, 0b010, 0b110, 0b010, 0b010, 0b010, 0b010, 0b111],
        '2' => [4, 0b0110, 0b1001, 0b0001, 0b0010, 0b0100, 0b1000, 0b1111],
        '3' => [4, 0b0110, 0b1001, 0b0001, 0b0110, 0b0001, 0b1001, 0b0110],
        '4' => [4, 0b0010, 0b0110, 0b1010, 0b1010, 0b1111, 0b0010, 0b0010],
        '5' => [4, 0b1111, 0b1000, 0b1110, 0b0001, 0b0001, 0b1001, 0b0110],
        '6' => [4, 0b0110, 0b1001, 0b1000, 0b1110, 0b1001, 0b1001, 0b0110],
        '7' => [4, 0b1111, 0b0001, 0b0010, 0b0100, 0b0100, 0b0100, 0b0100],
        '8' => [4, 0b0110, 0b1001, 0b1001, 0b0110, 0b1001, 0b1001, 0b0110],
        '9' => [4, 0b0110, 0b1001, 0b1001, 0b0111, 0b0001, 0b1001, 0b0110],
        ':' => [1, 0b0, 0b1, 0b1, 0b0, 0b1, 0b1, 0b0],
        ';' => [2, 0b00, 0b01, 0b01, 0b00, 0b01, 0b01, 0b10],
        '<' => [3, 0b001, 0b010, 0b100, 0b100, 0b100, 0b010, 0b001],
        '=' => [3, 0b000, 0b000, 0b111, 0b000, 0b111, 0b000, 0b000],
        '>' => [3, 0b100, 0b010, 0b001, 0b001, 0b001, 0b010, 0b100],
        '?' => [4, 0b0110, 0b1001, 0b0001, 0b0010, 0b0100, 0b0000, 0b0100],
        '@' => [5, 0b01110, 0b10001, 0b10111, 0b10111, 0b10110, 0b10000, 0b01110],
        'A' => [4, 0b0110, 0b1001, 0b1001, 0b1111, 0b1001, 0b1001, 0b1001],
        'B' => [4, 0b1110, 0b1001, 0b1001, 0b1110, 0b1001, 0b1001, 0b1110],
        'C' => [4, 0b0110, 0b1001, 0b1000, 0b1000, 0b1000, 0b1001, 0b0110],
        'D' => [4, 0b1110, 0b1001, 0b1001, 0b1001, 0b1001, 0b1001, 0b1110],
        'E' => [4, 0b1111, 0b1000, 0b1000, 0b1110, 0b1000, 0b1000, 0b1111],
        'F' => [4, 0b1111, 0b1000, 0b1000, 0b1110, 0b1000, 0b1000, 0b1000],
        'G' => [4, 0b0110, 0b1001, 0b1000, 0b1011, 0b1001, 0b1001, 0b0111],
        'H' => [4, 0b1001, 0b1001, 0b1001, 0b1111, 0b1001, 0b1001, 0b1001],
        'I' => [3, 0b111, 0b010, 0b010, 0b010, 0b010, 0b010, 0b111],
        'J' => [4, 0b0011, 0b0001, 0b0001, 0b0001, 0b1001, 0b1001, 0b0110],
        'K' => [4, 0b1001, 0b1010, 0b1100, 0b1000, 0b1100, 0b1010, 0b1001],
        'L' => [4, 0b1000, 0b1000, 0b1000, 0b1000, 0b1000, 0b1000, 0b1111],
        'M' => [5, 0b10001, 0b11011, 0b10101, 0b10101, 0b10001, 0b10001, 0b10001],
        'N' => [4, 0b1001, 0b1101, 0b1101, 0b1011, 0b1011, 0b1001, 0b1001],
        'O' => [4, 0b0110, 0b1001, 0b1001, 0b1001, 0b1001, 0b1001, 0b0110],
        'P' => [4, 0b1110, 0b1001, 0b1001, 0b1110, 0b1000, 0b1000, 0b1000],
        'Q' => [4, 0b0110, 0b1001, 0b1001, 0b1001, 0b1011, 0b1001, 0b0111],
        'R' => [4, 0b1110, 0b1001, 0b1001, 0b1110, 0b1010, 0b1001, 0b1001],
        'S' => [4, 0b0111, 0b1000, 0b1000, 0b0110, 0b0001, 0b0001, 0b1110],
        'T' => [5, 0b11111, 0b00100, 0b00100, 0b00100, 0b00100, 0b00100, 0b00100],
        'U' => [4, 0b1001, 0b1001, 0b1001, 0b1001, 0b1001, 0b1001, 0b0110],
        'V' => [4, 0b1001, 0b1001, 0b1001, 0b1001, 0b1001, 0b0110, 0b0010],
        'W' => [5, 0b10001, 0b10001, 0b10001, 0b10101, 0b10101, 0b11011, 0b10001],
        'X' => [4, 0b1001, 0b1001, 0b0110, 0b0000, 0b0110, 0b1001, 0b1001],
        'Y' => [4, 0b1001, 0b1001, 0b0110, 0b0010, 0b0010, 0b0010, 0b0010],
        'Z' => [4, 0b1111, 0b0001, 0b0010, 0b0100, 0b1000, 0b1000, 0b1111],
        '[' => [2, 0b11, 0b10, 0b10, 0b10, 0b10, 0b10, 0b11],
        '\\' => [4, 0b1000, 0b1000, 0b0100, 0b0100, 0b0010, 0b0010, 0b0001],
        ']' => [2, 0b11, 0b01, 0b01, 0b01, 0b01, 0b01, 0b11],
        '^' => [3, 0b010, 0b101, 0b000, 0b000, 0b000, 0b000, 0b000],
        '_' => [3, 0b000, 0b000, 0b000, 0b000, 0b000, 0b000, 0b111],
        '`' => [2, 0b10, 0b01, 0b00, 0b00, 0b00, 0b00, 0b00],
        'a' => [3, 0b000, 0b000, 0b011, 0b001, 0b011, 0b101, 0b011],
        'b' => [3, 0b100, 0b100, 0b110, 0b101, 0b101, 0b101, 0b110],
        'c' => [3, 0b000, 0b000, 0b011, 0b100, 0b100, 0b100, 0b011],
        'd' => [3, 0b001, 0b001, 0b011, 0b101, 0b101, 0b101, 0b011],
        'e' => [3, 0b000, 0b000, 0b011, 0b101, 0b111, 0b100, 0b011],
        'f' => [3, 0b011, 0b100, 0b111, 0b100, 0b100, 0b100, 0b100],
        'g' => [3, 0b000, 0b011, 0b101, 0b101, 0b011, 0b001, 0b010],
        'h' => [3, 0b100, 0b100, 0b110, 0b101, 0b101, 0b101, 0b101],
        'i' => [3, 0b010, 0b000, 0b110, 0b010, 0b010, 0b010, 0b111],
        'j' => [3, 0b001, 0b000, 0b011, 0b001, 0b001, 0b101, 0b010],
        'k' => [3, 0b100, 0b100, 0b101, 0b110, 0b110, 0b101, 0b101],
        'l' => [3, 0b110, 0b010, 0b010, 0b010, 0b010, 0b010, 0b111],
        'm' => [4, 0b0000, 0b0000, 0b1110, 0b1011, 0b1011, 0b1011, 0b1011],
        'n' => [3, 0b000, 0b000, 0b110, 0b101, 0b101, 0b101, 0b101],
        'o' => [3, 0b000, 0b000, 0b010, 0b101, 0b101, 0b101, 0b010],
        'p' => [3, 0b000, 0b000, 0b110, 0b101, 0b110, 0b100, 0b100],
        'q' => [3, 0b000, 0b000, 0b011, 0b101, 0b011, 0b001, 0b001],
        'r' => [3, 0b000, 0b000, 0b101, 0b110, 0b100, 0b100, 0b100],
        's' => [3, 0b000, 0b000, 0b011, 0b100, 0b010, 0b001, 0b110],
        't' => [3, 0b010, 0b010, 0b111, 0b010, 0b010, 0b010, 0b011],
        'u' => [3, 0b000, 0b000, 0b101, 0b101, 0b101, 0b101, 0b011],
        'v' => [3, 0b000, 0b000, 0b101, 0b101, 0b101, 0b010, 0b010],
        'w' => [4, 0b0000, 0b0000, 0b1001, 0b1001, 0b1011, 0b1101, 0b1001],
        'x' => [3, 0b000, 0b000, 0b101, 0b101, 0b010, 0b101, 0b101],
        'y' => [3, 0b000, 0b000, 0b101, 0b101, 0b011, 0b001, 0b010],
        'z' => [3, 0b000, 0b000, 0b111, 0b001, 0b010, 0b100, 0b111],
        '{' => [3, 0b011, 0b010, 0b010, 0b100, 0b010, 0b010, 0b011],
        '|' => [3, 0b010, 0b010, 0b010, 0b010, 0b010, 0b010, 0b010],
        '}' => [3, 0b110, 0b010, 0b010, 0b001, 0b010, 0b010, 0b110],
        '~' => [4, 0b0000, 0b0000, 0b0101, 0b1010, 0b0000, 0b0000, 0b0000],
        _ => [5, 0b11111, 0b10001, 0b10101, 0b10101, 0b10101, 0b10001, 0b11111],
    }
}

/// Looks up the glyph of `c`; a character outside the table gets the
/// fallback box.
pub fn lookup_glyph(c: char) -> (b: CharBitmap)
    ensures
        bitmap_view(b) == glyph_of(c),
{
    let rows = glyph_rows_exec(c);
    let w = rows[0];
    assert(1 <= w <= 5);
    let mut b: CharBitmap = Vec::new();
    for y in 0..GLYPH_HEIGHT
        invariant
            rows@ == glyph_rows(c),
            w as nat == glyph_width(c),
            1 <= w <= 5,
            b@.len() == y,
            forall|i: int| 0 <= i < y ==> #[trigger] b@[i]@ == glyph_of(c)[i],
    {
        let mask = rows[y + 1];
        let mut row: Vec<bool> = Vec::new();
        for x in 0..w
            invariant
                rows@ == glyph_rows(c),
                w as nat == glyph_width(c),
                1 <= w <= 5,
                mask == rows@[y + 1],
                y < GLYPH_HEIGHT,
                row@.len() == x,
                forall|j: int| 0 <= j < x ==> #[trigger] row@[j] == glyph_bit(c, y as int, j),
        {
            row.push((mask >> (w - 1 - x)) & 1 == 1);
        }
        assert(row@ =~= glyph_of(c)[y as int]);
        b.push(row);
    }
    assert(bitmap_view(b) =~= glyph_of(c));
    b
}

/// Builds the glyph table, keyed by code point: one entry for each
/// printable ASCII character and one for the fallback character.
pub fn create_character_bitmaps() -> (m: HashMap<u32, CharBitmap>)
    ensures
        forall|k: u32| m@.contains_key(k) <==> in_table_code(k),
        forall|c: char| in_table(c) ==> bitmap_view(#[trigger] m@[c as u32]) == glyph_of(c),
{
    let mut m: HashMap<u32, CharBitmap> = HashMap::new();
    let mut code: u8 = 0x20;
    while code <= 0x7e
        invariant
            0x20 <= code <= 0x7f,
            forall|k: u32| m@.contains_key(k) <==> (0x20 <= k && k < code),
            forall|c: char|
                0x20 <= (c as u32) && (c as u32) < code ==> bitmap_view(#[trigger] m@[c as u32]) == glyph_of(c),
        decreases 0x7f - code,
    {
        let c = code as char;
        assert(c as u32 == code as u32);
        m.insert(c as u32, lookup_glyph(c));
        code = code + 1;
    }
    m.insert(FALLBACK_GLYPH as u32, lookup_glyph(FALLBACK_GLYPH));
    m
}

/// Upscales `bitmap` by `scale`: each pixel becomes a `scale` by `scale`
/// block of the same value. A scale of 0 or 1 returns a copy.
pub fn scale_bitmap(bitmap: &CharBitmap, scale: usize) -> (r: CharBitmap)
    requires
        scale > 1 ==> bitmap@.len() * scale <= usize::MAX,
        scale > 1 ==> forall|i: int|
            0 <= i < bitmap@.len() ==> #[trigger] bitmap@[i]@.len() * scale <= usize::MAX,
    ensures
        scale <= 1 ==> bitmap_view(r) == bitmap_view(*bitmap),
        scale > 1 ==> bitmap_view(r) == scaled(bitmap_view(*bitmap), scale as nat),
{
    let k: usize = if scale <= 1 {
        1
    } else {
        scale
    };
    let ghost src = bitmap_view(*bitmap);
    let height = bitmap.len() * k;
    let mut out: CharBitmap = Vec::new();
    for oy in 0..height
        invariant
            k >= 1,
            k == scale || (scale <= 1 && k == 1),
            src == bitmap_view(*bitmap),
            height == bitmap@.len() * k,
            scale > 1 ==> forall|i: int|
                0 <= i < bitmap@.len() ==> #[trigger] bitmap@[i]@.len() * scale <= usize::MAX,
            out@.len() == oy,
            forall|i: int| 0 <= i < oy ==> #[trigger] out@[i]@ == scaled(src, k as nat)[i],
    {
        assert(oy / k < bitmap@.len()) by (nonlinear_arith)
            requires oy < height, height == bitmap@.len() * k, k >= 1;
        let row = &bitmap[oy / k];
        assert(scale > 1 ==> row@.len() * scale <= usize::MAX);
        assert(row@.len() == row.len());
        assert(row@.len() * k <= usize::MAX) by (nonlinear_arith)
            requires
                scale > 1 ==> row@.len() * scale <= usize::MAX,
                row@.len() <= usize::MAX,
                k == scale || (scale <= 1 && k == 1),
        ;
        let width = row.len() * k;
        let mut out_row: Vec<bool> = Vec::new();
        for ox in 0..width
            invariant
                k >= 1,
                width == row@.len() * k,
                out_row@.len() == ox,
                forall|j: int| 0 <= j < ox ==> #[trigger] out_row@[j] == row@[j / k as int],
        {
            assert(ox / k < row@.len()) by (nonlinear_arith)
                requires ox < width, width == row@.len() * k, k >= 1;
            out_row.push(row[ox / k]);
        }
        assert(out_row@ =~= scaled(src, k as nat)[oy as int]);
        out.push(out_row);
    }
    proof {
        assert(bitmap_view(out) =~= scaled(src, k as nat));
        if scale <= 1 {
            lemma_scaled_by_one(src);
        }
    }
    out
}

/// A character outside the table is drawn as the fallback box.
pub proof fn lemma_outside_table(c: char)
    requires
        !in_table(c),
    ensures
        glyph_rows(c) == glyph_rows(FALLBACK_GLYPH),
{
}

/// Every glyph is 7 rows of 1 to 5 pixels.
pub proof fn lemma_glyph_size(c: char)
    ensures
        glyph_rows(c).len() == 8,
        1 <= glyph_width(c) <= 5,
{
}

/// Scaling by 1 changes nothing.
pub proof fn lemma_scaled_by_one(b: Seq<Seq<bool>>)
    ensures
        scaled(b, 1) == b,
{
    assert forall|y: int| 0 <= y < b.len() implies #[trigger] scaled(b, 1)[y] =~= b[y] by {}
    assert(scaled(b, 1) =~= b);
}

} // verus!
