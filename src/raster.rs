//! Drawing a terminal grid as an RGB image: each cell is a rectangle
//! `font_size` pixels wide and twice as tall, filled with its background,
//! with its glyph upscaled and centered in the foreground color.

use crate::colors::TermColor;
use crate::glyphs::{
    bitmap_view, glyph_of, glyph_width, in_table, lemma_glyph_size, lemma_outside_table,
    lemma_scaled_by_one, scale_bitmap, scaled, CharBitmap, FALLBACK_GLYPH, GLYPH_HEIGHT,
};
use crate::model::TermState;
use image::{ImageBuffer, Rgb};
use std::collections::HashMap;
use vstd::prelude::*;

verus! {

broadcast use vstd::std_specs::hash::group_hash_axioms;

/// An RGB image of the `image` crate, three 8-bit samples per pixel. It is
/// held in a struct of this crate because Verus cannot declare
/// `ImageBuffer` with its `Pixel` bound; verified code sees it only through
/// `image_samples` and `image_dimensions`, and other code takes `buffer`.
#[verifier::external_body]
pub struct RgbImage {
    pub buffer: ImageBuffer<Rgb<u8>, Vec<u8>>,
}

/// The samples of an RGB image: three bytes per pixel, row after row.
pub uninterp spec fn image_samples(img: RgbImage) -> Seq<u8>;

/// The width and height of an RGB image, in pixels.
pub uninterp spec fn image_dimensions(img: RgbImage) -> (u32, u32);

/// Relies on `image::ImageBuffer::from_raw`: it keeps `buf` as the samples
/// of a `width` by `height` image, and returns `None` exactly when
/// `3 * width` or `3 * width * height` overflows `usize`, or the latter
/// exceeds the length of `buf`.
#[verifier::external_body]
pub(crate) fn image_from_raw(width: u32, height: u32, buf: Vec<u8>) -> (r: Option<RgbImage>)
    ensures
        r is Some <==> (3 * width <= usize::MAX && 3 * width * height <= usize::MAX && 3 * width
            * height <= buf@.len()),
        r is Some ==> image_samples(r->0) == buf@,
        r is Some ==> image_dimensions(r->0) == (width, height),
{
    ImageBuffer::from_raw(width, height, buf).map(|buffer| RgbImage { buffer })
}

impl RgbImage {
    /// Relies on `image::ImageBuffer::as_raw`: a copy of the samples the
    /// image holds.
    #[verifier::external_body]
    pub(crate) fn samples(&self) -> (r: Vec<u8>)
        ensures
            r@ == image_samples(*self),
    {
        self.buffer.as_raw().clone()
    }
}

/// The factor by which glyphs are scaled: the font size over 8, rounded,
/// and at least 1.
pub open spec fn glyph_scale(font_size: nat) -> nat {
    let k = (font_size + 4) / 8;
    if k < 1 {
        1
    } else {
        k
    }
}

/// Offset that centers a length `inner` within `outer`; 0 where it does
/// not fit.
pub open spec fn center_offset(outer: nat, inner: nat) -> nat {
    if inner <= outer {
        ((outer - inner) / 2) as nat
    } else {
        0
    }
}

/// Whether the scaled, centered glyph of `c` covers pixel `(lx, ly)` of a
/// cell of the given font size. Pixels outside the cell are never covered.
pub open spec fn glyph_covers(c: char, font_size: nat, lx: int, ly: int) -> bool {
    let k = glyph_scale(font_size);
    let gw = glyph_width(c) * k;
    let gh = GLYPH_HEIGHT as nat * k;
    let gx = lx - center_offset(font_size, gw);
    let gy = ly - center_offset(2 * font_size, gh);
    &&& 0 <= gx < gw
    &&& 0 <= gy < gh
    &&& scaled(glyph_of(c), k)[gy][gx]
}

/// The color of pixel `(px, py)` of the image of `s`: the underline row of
/// an underlined cell, then the glyph of a non-space character, take the
/// foreground; the rest of the cell is background.
pub open spec fn pixel_color(s: TermState, font_size: nat, px: int, py: int) -> TermColor {
    let cw = font_size as int;
    let ch = 2 * font_size as int;
    let cell = s.cells[py / ch][px / cw];
    let lx = px % cw;
    let ly = py % ch;
    if cell.underline && ly == ch - 2 {
        cell.fg_color
    } else if cell.character != ' ' && glyph_covers(cell.character, font_size, lx, ly) {
        cell.fg_color
    } else {
        cell.bg_color
    }
}

pub open spec fn channel(c: TermColor, i: int) -> u8 {
    if i == 0 {
        c.r
    } else if i == 1 {
        c.g
    } else {
        c.b
    }
}

/// Width in pixels of the image of `s`.
pub open spec fn image_width(s: TermState, font_size: nat) -> nat {
    s.width * font_size
}

/// Height in pixels of the image of `s`.
pub open spec fn image_height(s: TermState, font_size: nat) -> nat {
    s.height * (2 * font_size)
}

/// The samples of the image of `s`: three bytes per pixel, row after row.
pub open spec fn rendered_samples(s: TermState, font_size: nat) -> Seq<u8> {
    let w = image_width(s, font_size);
    let h = image_height(s, font_size);
    Seq::new(
        w * h * 3,
        |i: int| channel(pixel_color(s, font_size, (i / 3) % w as int, (i / 3) / w as int), i % 3),
    )
}

/// Where the pre-scaled glyph of `c` stands in a table built by
/// `scaled_glyph_table`.
pub open spec fn glyph_slot(c: char) -> int {
    if 0x20 <= c as u32 && c as u32 <= 0x7e {
        c as u32 - 0x20
    } else {
        95
    }
}

pub fn glyph_slot_of(c: char) -> (i: usize)
    ensures
        i as int == glyph_slot(c),
{
    let code = c as u32;
    if 0x20 <= code && code <= 0x7e {
        (code - 0x20) as usize
    } else {
        95
    }
}

/// The glyphs of `table` upscaled by `k`, one for each printable ASCII
/// character and the fallback last.
pub fn scaled_glyph_table(table: &HashMap<u32, CharBitmap>, k: usize) -> (r: Vec<CharBitmap>)
    requires
        1 <= k <= 32,
        forall|c: char| in_table(c) ==> table@.contains_key(c as u32),
        forall|c: char| in_table(c) ==> bitmap_view(#[trigger] table@[c as u32]) == glyph_of(c),
    ensures
        r@.len() == 96,
        forall|c: char| #[trigger] bitmap_view(r@[glyph_slot(c)]) == scaled(glyph_of(c), k as nat),
{
    let mut r: Vec<CharBitmap> = Vec::new();
    let mut code: u32 = 0x20;
    while code <= 0x7f
        invariant
            0x20 <= code <= 0x80,
            r@.len() == code - 0x20,
            1 <= k <= 32,
            forall|c: char| in_table(c) ==> table@.contains_key(c as u32),
            forall|c: char| in_table(c) ==> bitmap_view(#[trigger] table@[c as u32]) == glyph_of(c),
            forall|c: char|
                0x20 <= (c as u32) && (c as u32) < code && (c as u32) <= 0x7e
                    ==> bitmap_view(r@[(c as u32) - 0x20]) == scaled(glyph_of(c), k as nat),
            code == 0x80 ==> bitmap_view(r@[95]) == scaled(glyph_of(FALLBACK_GLYPH), k as nat),
        decreases 0x80 - code,
    {
        let key: u32 = if code == 0x7f {
            0xfffd
        } else {
            code
        };
        let ghost ch: char = if code == 0x7f {
            FALLBACK_GLYPH
        } else {
            (code as u8) as char
        };
        assert(ch as u32 == key);
        assert(in_table(ch));
        let glyph = table.get(&key).unwrap();
        proof {
            lemma_glyph_size(ch);
            assert(bitmap_view(*glyph) == glyph_of(ch));
            assert(glyph@.len() == GLYPH_HEIGHT);
            assert forall|i: int| 0 <= i < glyph@.len() implies #[trigger] glyph@[i]@.len() * k
                <= usize::MAX by {
                assert(glyph@[i]@ == glyph_of(ch)[i]);
                assert(glyph@[i]@.len() <= 5);
                assert(glyph@[i]@.len() * k <= 5 * 32) by (nonlinear_arith)
                    requires glyph@[i]@.len() <= 5, k <= 32;
            }
        }
        let big = scale_bitmap(glyph, k);
        proof {
            if k == 1 {
                lemma_scaled_by_one(glyph_of(ch));
            }
            assert(bitmap_view(big) == scaled(glyph_of(ch), k as nat));
        }
        let ghost before = r@;
        r.push(big);
        proof {
            assert forall|c: char|
                0x20 <= (c as u32) && (c as u32) < code + 1 && (c as u32) <= 0x7e implies bitmap_view(
                r@[(c as u32) - 0x20],
            ) == scaled(glyph_of(c), k as nat) by {
                if c as u32 == code {
                    vstd::utf8::char_u32_cast(c, c as u32);
                    vstd::utf8::char_u32_cast(ch, ch as u32);
                    assert(c == ch);
                } else {
                    assert(r@[(c as u32) - 0x20] == before[(c as u32) - 0x20]);
                }
            }
        }
        code = code + 1;
    }
    proof {
        assert forall|c: char| #[trigger] bitmap_view(r@[glyph_slot(c)]) == scaled(glyph_of(c), k as nat) by {
            if !(0x20 <= c as u32 && c as u32 <= 0x7e) && c != FALLBACK_GLYPH {
                lemma_outside_table(c);
                assert(glyph_of(c) =~~= glyph_of(FALLBACK_GLYPH));
            }
        }
    }
    r
}

/// Sample `c` of pixel `(px, py)` of a `w`-pixel-wide image stands at
/// `3 * (py * w + px) + c`.
pub proof fn lemma_sample_index(w: int, px: int, py: int, c: int)
    requires
        0 <= px < w,
        0 <= py,
        0 <= c < 3,
    ensures
        (3 * (py * w + px) + c) / 3 == py * w + px,
        (3 * (py * w + px) + c) % 3 == c,
        (py * w + px) % w == px,
        (py * w + px) / w == py,
{
    vstd::arithmetic::div_mod::lemma_fundamental_div_mod_converse(
        3 * (py * w + px) + c,
        3,
        py * w + px,
        c,
    );
    vstd::arithmetic::div_mod::lemma_fundamental_div_mod_converse(py * w + px, w, py, px);
}

} // verus!
