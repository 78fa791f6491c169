//! RGB colors, the theme defaults and the ANSI palettes.

use image::Rgb;
use vstd::prelude::*;

verus! {

/// The pixel type of the `image` crate: `pub struct Rgb<T>(pub [T; 3])`.
#[verifier::external_type_specification]
#[verifier::reject_recursive_types(T)]
pub struct ExRgb<T>(Rgb<T>);

/// A color with three 8-bit channels and no alpha.
#[derive(Clone, Copy, PartialEq, Eq, Structural, Debug)]
pub struct TermColor {
    pub r: u8,
    pub g: u8,
    pub b: u8,
}

impl TermColor {
    /// The color as a pixel of the `image` crate.
    pub fn to_rgb(&self) -> (p: Rgb<u8>)
        ensures
            p.0@ == seq![self.r, self.g, self.b],
    {
        Rgb([self.r, self.g, self.b])
    }
}

pub open spec fn rgb(r: u8, g: u8, b: u8) -> TermColor {
    TermColor { r, g, b }
}

/// Default foreground of a theme: light grey on dark, dark grey on light.
pub open spec fn theme_fg(dark: bool) -> TermColor {
    if dark {
        rgb(240, 240, 240)
    } else {
        rgb(30, 30, 30)
    }
}

/// Default background of a theme.
pub open spec fn theme_bg(dark: bool) -> TermColor {
    if dark {
        rgb(30, 30, 30)
    } else {
        rgb(245, 245, 245)
    }
}

/// The eight basic hues at dim intensity: black, red, green, yellow, blue,
/// magenta, cyan, white.
pub open spec fn basic_color(i: int) -> TermColor {
    if i == 0 {
        rgb(0, 0, 0)
    } else if i == 1 {
        rgb(170, 0, 0)
    } else if i == 2 {
        rgb(0, 170, 0)
    } else if i == 3 {
        rgb(170, 85, 0)
    } else if i == 4 {
        rgb(0, 0, 170)
    } else if i == 5 {
        rgb(170, 0, 170)
    } else if i == 6 {
        rgb(0, 170, 170)
    } else {
        rgb(170, 170, 170)
    }
}

/// The same eight hues at bright intensity.
pub open spec fn bright_color(i: int) -> TermColor {
    if i == 0 {
        rgb(85, 85, 85)
    } else if i == 1 {
        rgb(255, 85, 85)
    } else if i == 2 {
        rgb(85, 255, 85)
    } else if i == 3 {
        rgb(255, 255, 85)
    } else if i == 4 {
        rgb(85, 85, 255)
    } else if i == 5 {
        rgb(255, 85, 255)
    } else if i == 6 {
        rgb(85, 255, 255)
    } else {
        rgb(255, 255, 255)
    }
}

/// One channel of the 6x6x6 color cube.
pub open spec fn cube_level(v: int) -> int {
    if v == 0 {
        0
    } else {
        v * 40 + 55
    }
}

/// The 256-color palette: the 16 basic and bright colors, the color cube,
/// then 24 shades of grey.
pub open spec fn palette_color(n: u8) -> TermColor {
    if n < 8 {
        basic_color(n as int)
    } else if n < 16 {
        bright_color(n - 8)
    } else if n < 232 {
        let i = n - 16;
        rgb(
            cube_level(i / 36) as u8,
            cube_level((i / 6) % 6) as u8,
            cube_level(i % 6) as u8,
        )
    } else {
        let v = ((n - 232) * 10 + 8) as u8;
        rgb(v, v, v)
    }
}

pub fn theme_foreground(dark: bool) -> (c: TermColor)
    ensures
        c == theme_fg(dark),
{
    if dark {
        TermColor { r: 240, g: 240, b: 240 }
    } else {
        TermColor { r: 30, g: 30, b: 30 }
    }
}

pub fn theme_background(dark: bool) -> (c: TermColor)
    ensures
        c == theme_bg(dark),
{
    if dark {
        TermColor { r: 30, g: 30, b: 30 }
    } else {
        TermColor { r: 245, g: 245, b: 245 }
    }
}

pub fn basic_palette(i: u8) -> (c: TermColor)
    requires
        i < 8,
    ensures
        c == basic_color(i as int),
{
    match i {
        0 => TermColor { r: 0, g: 0, b: 0 },
        1 => TermColor { r: 170, g: 0, b: 0 },
        2 => TermColor { r: 0, g: 170, b: 0 },
        3 => TermColor { r: 170, g: 85, b: 0 },
        4 => TermColor { r: 0, g: 0, b: 170 },
        5 => TermColor { r: 170, g: 0, b: 170 },
        6 => TermColor { r: 0, g: 170, b: 170 },
        _ => TermColor { r: 170, g: 170, b: 170 },
    }
}

pub fn bright_palette(i: u8) -> (c: TermColor)
    requires
        i < 8,
    ensures
        c == bright_color(i as int),
{
    match i {
        0 => TermColor { r: 85, g: 85, b: 85 },
        1 => TermColor { r: 255, g: 85, b: 85 },
        2 => TermColor { r: 85, g: 255, b: 85 },
        3 => TermColor { r: 255, g: 255, b: 85 },
        4 => TermColor { r: 85, g: 85, b: 255 },
        5 => TermColor { r: 255, g: 85, b: 255 },
        6 => TermColor { r: 85, g: 255, b: 255 },
        _ => TermColor { r: 255, g: 255, b: 255 },
    }
}

fn cube_channel(v: u8) -> (c: u8)
    requires
        v < 6,
    ensures
        c as int == cube_level(v as int),
{
    if v == 0 {
        0
    } else {
        v * 40 + 55
    }
}

/// Resolves an index of the 256-color palette.
pub fn palette_256(n: u8) -> (c: TermColor)
    ensures
        c == palette_color(n),
{
    if n < 8 {
        basic_palette(n)
    } else if n < 16 {
        bright_palette(n - 8)
    } else if n < 232 {
        let i = n - 16;
        let r = cube_channel(i / 36);
        let g = cube_channel((i / 6) % 6);
        let b = cube_channel(i % 6);
        TermColor { r, g, b }
    } else {
        let v = (n - 232) * 10 + 8;
        TermColor { r: v, g: v, b: v }
    }
}

} // verus!
