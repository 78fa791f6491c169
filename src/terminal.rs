//! The virtual terminal: a grid of styled cells driven by text with ANSI
//! control sequences.

use crate::colors::{
    basic_color, basic_palette, bright_color, bright_palette, palette_256, palette_color,
    theme_background, theme_bg, theme_fg, theme_foreground, TermColor,
};
use crate::glyphs::{
    bitmap_view, create_character_bitmaps, glyph_of, glyph_width, in_table, in_table_code,
    lemma_glyph_size, scaled, CharBitmap, GLYPH_HEIGHT,
};
use crate::model::{
    apply_csi, blank_cell, display_erased, erase_display, erase_line, grid_wf, initial_state,
    line_erased, next_line, param_count, param_u8, position_part, sgr_value, process, process_from,
    put_char, reset_style, scroll_up, set_bg, set_fg, sgr_from, sgr_step, write_char, Pending,
    TermCell, TermState, law_control_sequence_keeps_grid,
};
use crate::params::{parse_decimal, split_params, split_semicolons};
use crate::raster::{
    center_offset, glyph_scale, glyph_slot, glyph_slot_of, image_dimensions, image_from_raw,
    image_height, image_samples, image_width, lemma_sample_index, pixel_color, rendered_samples,
    scaled_glyph_table, RgbImage,
};
use std::collections::HashMap;
use vstd::prelude::*;

verus! {

broadcast use vstd::std_specs::hash::group_hash_axioms;

impl Default for TermCell {
    /// A space in the dark theme's colors, with no style.
    fn default() -> (c: TermCell)
        ensures
            c == (TermCell {
                character: ' ',
                fg_color: theme_fg(true),
                bg_color: theme_bg(true),
                bold: false,
                italic: false,
                underline: false,
            }),
    {
        TermCell {
            character: ' ',
            fg_color: TermColor { r: 240, g: 240, b: 240 },
            bg_color: TermColor { r: 30, g: 30, b: 30 },
            bold: false,
            italic: false,
            underline: false,
        }
    }
}

/// A fixed-size terminal: cells, cursor, active style, and the glyph table
/// used to draw it.
pub struct VirtualTerminal {
    width: usize,
    height: usize,
    cells: Vec<Vec<TermCell>>,
    cursor_x: usize,
    cursor_y: usize,
    current_fg: TermColor,
    current_bg: TermColor,
    bold: bool,
    italic: bool,
    underline: bool,
    dark_theme: bool,
    char_bitmaps: HashMap<u32, CharBitmap>,
}

impl View for VirtualTerminal {
    type V = TermState;

    closed spec fn view(&self) -> TermState {
        TermState {
            width: self.width as nat,
            height: self.height as nat,
            cells: self.cells@.map_values(|row: Vec<TermCell>| row@),
            cursor_x: self.cursor_x as nat,
            cursor_y: self.cursor_y as nat,
            fg: self.current_fg,
            bg: self.current_bg,
            bold: self.bold,
            italic: self.italic,
            underline: self.underline,
            dark_theme: self.dark_theme,
        }
    }
}

/// A count read as a `usize`, or `default` where it does not read as one.
fn param_count_of(p: &[char], default: usize) -> (r: usize)
    ensures
        r as nat == param_count(p@, default as nat),
{
    match parse_decimal(p, usize::MAX) {
        Some(v) => v,
        None => default,
    }
}

/// A parameter of a select-graphic-rendition sequence: 0 where it is
/// empty, `None` where it is not a number in `0..=255`.
fn sgr_value_of(p: &[char]) -> (r: Option<u8>)
    ensures
        r == (match sgr_value(p@) {
            Some(v) => Some(v as u8),
            None => None::<u8>,
        }),
{
    if p.len() == 0 {
        Some(0)
    } else {
        match parse_decimal(p, 255) {
            Some(v) => Some(v as u8),
            None => None,
        }
    }
}

/// A parameter read as a `u8`, 0 where it does not read as one.
fn param_u8_of(p: &[char]) -> (r: u8)
    ensures
        r as nat == param_u8(p@),
{
    match parse_decimal(p, 255) {
        Some(v) => v as u8,
        None => 0,
    }
}

/// Part `i` of a cursor position, 0-based: 0 where it is missing or empty.
fn position_of(parts: &Vec<Vec<char>>, i: usize) -> (r: usize)
    ensures
        r as nat == position_part(parts@.map_values(|p: Vec<char>| p@), i as int),
{
    let ghost pv = parts@.map_values(|p: Vec<char>| p@);
    if i < parts.len() && parts[i].len() > 0 {
        assert(parts@[i as int]@ == pv[i as int]);
        let v = param_count_of(parts[i].as_slice(), 1);
        if v >= 1 {
            v - 1
        } else {
            0
        }
    } else {
        0
    }
}

/// The pending state of the reader: 0 outside any escape, 1 after `ESC`, 2
/// inside a control sequence whose parameter text is `sequence`.
spec fn pending_of(mode: u8, sequence: Seq<char>) -> Pending {
    if mode == 0 {
        Pending::Ground
    } else if mode == 1 {
        Pending::Escape
    } else {
        Pending::Csi(sequence)
    }
}

/// The characters of `s`, in order.
fn chars_of(s: &str) -> (v: Vec<char>)
    ensures
        v@ == s@,
{
    let mut v: Vec<char> = Vec::new();
    for c in it: s.chars()
        invariant
            v@ == it.seq().take(it.index() as int),
    {
        v.push(c);
    }
    v
}

impl VirtualTerminal {
    /// The grid is well formed and the glyph table holds every glyph.
    pub closed spec fn inv(&self) -> bool {
        &&& grid_wf(self@)
        &&& forall|k: u32| self.char_bitmaps@.contains_key(k) <==> in_table_code(k)
        &&& forall|c: char|
            in_table(c) ==> bitmap_view(#[trigger] self.char_bitmaps@[c as u32]) == glyph_of(c)
    }

    /// A terminal that keeps its invariant has a well-formed grid.
    pub proof fn lemma_grid_wf(&self)
        requires
            self.inv(),
        ensures
            grid_wf(self@),
    {
    }

    proof fn lemma_cells(&self)
        requires
            self.inv(),
        ensures
            self.cells@.len() == self.height,
            forall|y: int|
                0 <= y < self.height ==> (#[trigger] self.cells@[y])@.len() == self.width
                    && self.cells@[y]@ == self@.cells[y],
    {
        assert forall|y: int| 0 <= y < self.height implies (#[trigger] self.cells@[y])@.len()
            == self.width && self.cells@[y]@ == self@.cells[y] by {
            assert(self@.cells[y] == self.cells@[y]@);
        }
    }

    /// A blank terminal of `width` by `height` cells in the colors of the
    /// chosen theme.
    pub fn new(width: usize, height: usize, dark_theme: bool) -> (t: VirtualTerminal)
        requires
            width >= 1,
            height >= 1,
        ensures
            t.inv(),
            t@ == initial_state(width as nat, height as nat, dark_theme),
    {
        let default_fg = theme_foreground(dark_theme);
        let default_bg = theme_background(dark_theme);
        let ghost init = initial_state(width as nat, height as nat, dark_theme);
        let mut cells: Vec<Vec<TermCell>> = Vec::with_capacity(height);
        for y in 0..height
            invariant
                cells@.len() == y,
                default_fg == theme_fg(dark_theme),
                default_bg == theme_bg(dark_theme),
                init == initial_state(width as nat, height as nat, dark_theme),
                forall|i: int| 0 <= i < y ==> #[trigger] cells@[i]@ == init.cells[i],
        {
            let mut row: Vec<TermCell> = Vec::with_capacity(width);
            for x in 0..width
                invariant
                    row@.len() == x,
                    default_fg == theme_fg(dark_theme),
                    default_bg == theme_bg(dark_theme),
                    init == initial_state(width as nat, height as nat, dark_theme),
                    y < height,
                    forall|j: int| 0 <= j < x ==> #[trigger] row@[j] == init.cells[y as int][j],
            {
                let mut cell = TermCell::default();
                cell.fg_color = default_fg;
                cell.bg_color = default_bg;
                row.push(cell);
            }
            assert(row@ =~= init.cells[y as int]);
            cells.push(row);
        }
        let char_bitmaps = create_character_bitmaps();
        let t = VirtualTerminal {
            width,
            height,
            cells,
            cursor_x: 0,
            cursor_y: 0,
            current_fg: default_fg,
            current_bg: default_bg,
            bold: false,
            italic: false,
            underline: false,
            dark_theme,
            char_bitmaps,
        };
        assert(t@.cells =~= init.cells);
        t
    }

    fn blank(&self) -> (c: TermCell)
        ensures
            c == blank_cell(self@),
    {
        TermCell {
            character: ' ',
            fg_color: self.current_fg,
            bg_color: self.current_bg,
            bold: false,
            italic: false,
            underline: false,
        }
    }

    fn set_cell(&mut self, y: usize, x: usize, cell: TermCell)
        requires
            old(self).inv(),
            y < old(self)@.height,
            x < old(self)@.width,
        ensures
            final(self).inv(),
            final(self)@ == (TermState {
                cells: old(self)@.cells.update(y as int, old(self)@.cells[y as int].update(x as int, cell)),
                ..old(self)@
            }),
    {
        self.cells[y][x] = cell;
        assert(self@.cells =~= old(self)@.cells.update(y as int, old(self)@.cells[y as int].update(x as int, cell)));
    }
    fn clear_cell(&mut self, y: usize, x: usize)
        requires
            old(self).inv(),
        ensures
            final(self).inv(),
            y < old(self)@.height && x < old(self)@.width ==> final(self)@ == (TermState {
                cells: old(self)@.cells.update(
                    y as int,
                    old(self)@.cells[y as int].update(x as int, blank_cell(old(self)@)),
                ),
                ..old(self)@
            }),
            !(y < old(self)@.height && x < old(self)@.width) ==> final(self)@ == old(self)@,
    {
        if y < self.height && x < self.width {
            let b = self.blank();
            self.set_cell(y, x, b);
        }
    }

    /// Moves every row up by one: the top row is dropped and the new bottom
    /// row is blank in the active colors. The cursor does not move.
    pub fn scroll_up(&mut self)
        requires
            old(self).inv(),
        ensures
            final(self).inv(),
            final(self)@ == scroll_up(old(self)@),
    {
        let ghost before = self@;
        let b = self.blank();
        let mut row: Vec<TermCell> = Vec::with_capacity(self.width);
        for x in 0..self.width
            invariant
                row@.len() == x,
                b == blank_cell(before),
                forall|j: int| 0 <= j < x ==> #[trigger] row@[j] == b,
        {
            row.push(b);
        }
        assert(row@ =~= Seq::new(before.width, |x: int| blank_cell(before)));
        self.cells.remove(0);
        self.cells.push(row);
        assert(self@.cells =~= scroll_up(before).cells);
    }

    fn next_line(&mut self)
        requires
            old(self).inv(),
        ensures
            final(self).inv(),
            final(self)@ == next_line(old(self)@),
    {
        self.cursor_x = 0;
        if self.cursor_y + 1 < self.height {
            self.cursor_y = self.cursor_y + 1;
        } else {
            self.scroll_up();
            self.cursor_y = self.height - 1;
        }
    }

    /// Writes `c` in the active style at the cursor and moves the cursor
    /// right, to the next line past the last column.
    pub fn write(&mut self, c: char)
        requires
            old(self).inv(),
        ensures
            final(self).inv(),
            final(self)@ == write_char(old(self)@, c),
    {
        let cell = TermCell {
            character: c,
            fg_color: self.current_fg,
            bg_color: self.current_bg,
            bold: self.bold,
            italic: self.italic,
            underline: self.underline,
        };
        self.set_cell(self.cursor_y, self.cursor_x, cell);
        if self.cursor_x + 1 < self.width {
            self.cursor_x = self.cursor_x + 1;
        } else {
            self.next_line();
        }
    }

    fn put_char(&mut self, c: char)
        requires
            old(self).inv(),
        ensures
            final(self).inv(),
            final(self)@ == put_char(old(self)@, c),
    {
        if c == '\n' {
            self.next_line();
        } else if c == '\r' {
            self.cursor_x = 0;
        } else if c == '\t' {
            if self.cursor_x / 8 < (self.width - 1) / 8 {
                let q = self.cursor_x / 8;
                assert((q + 1) * 8 < self.width) by (nonlinear_arith)
                    requires q < (self.width - 1) / 8, self.width >= 1;
                self.cursor_x = (q + 1) * 8;
            } else {
                let q = self.cursor_x / 8;
                assert((q + 1) * 8 >= self.width) by (nonlinear_arith)
                    requires q >= (self.width - 1) / 8, self.width >= 1;
                self.next_line();
            }
        } else if c == '\x08' {
            if self.cursor_x > 0 {
                self.cursor_x = self.cursor_x - 1;
            }
        } else {
            self.write(c);
        }
    }
    fn reset_text_attributes(&mut self)
        requires
            old(self).inv(),
        ensures
            final(self).inv(),
            final(self)@ == reset_style(old(self)@),
            final(self)@.fg == theme_fg(old(self)@.dark_theme),
            final(self)@.bg == theme_bg(old(self)@.dark_theme),
            !final(self)@.bold && !final(self)@.italic && !final(self)@.underline,
            final(self)@.cells == old(self)@.cells,
            final(self)@.cursor_x == old(self)@.cursor_x,
            final(self)@.cursor_y == old(self)@.cursor_y,
    {
        self.bold = false;
        self.italic = false;
        self.underline = false;
        self.current_fg = theme_foreground(self.dark_theme);
        self.current_bg = theme_background(self.dark_theme);
    }

    fn set_active_color(&mut self, color: TermColor, is_foreground: bool)
        requires
            old(self).inv(),
        ensures
            final(self).inv(),
            final(self)@ == if is_foreground {
                set_fg(old(self)@, color)
            } else {
                set_bg(old(self)@, color)
            },
    {
        if is_foreground {
            self.current_fg = color;
        } else {
            self.current_bg = color;
        }
    }

    /// Sets the foreground or background to a basic color; an index past 7
    /// changes nothing.
    fn set_color(&mut self, color_index: u8, is_foreground: bool)
        requires
            old(self).inv(),
        ensures
            final(self).inv(),
            color_index < 8 ==> final(self)@ == if is_foreground {
                set_fg(old(self)@, basic_color(color_index as int))
            } else {
                set_bg(old(self)@, basic_color(color_index as int))
            },
            color_index >= 8 ==> final(self)@ == old(self)@,
    {
        if color_index < 8 {
            self.set_active_color(basic_palette(color_index), is_foreground);
        }
    }

    /// Sets the foreground or background to a bright color; an index past 7
    /// changes nothing.
    fn set_bright_color(&mut self, color_index: u8, is_foreground: bool)
        requires
            old(self).inv(),
        ensures
            final(self).inv(),
            color_index < 8 ==> final(self)@ == if is_foreground {
                set_fg(old(self)@, bright_color(color_index as int))
            } else {
                set_bg(old(self)@, bright_color(color_index as int))
            },
            color_index >= 8 ==> final(self)@ == old(self)@,
    {
        if color_index < 8 {
            self.set_active_color(bright_palette(color_index), is_foreground);
        }
    }

    /// Sets the foreground or background to an entry of the 256-color
    /// palette.
    fn set_256_color(&mut self, color_index: u8, is_foreground: bool)
        requires
            old(self).inv(),
        ensures
            final(self).inv(),
            final(self)@ == if is_foreground {
                set_fg(old(self)@, palette_color(color_index))
            } else {
                set_bg(old(self)@, palette_color(color_index))
            },
    {
        self.set_active_color(palette_256(color_index), is_foreground);
    }

    /// Applies the code at position `i` and returns the position of the
    /// next one.
    fn apply_sgr_code(&mut self, params: &Vec<Vec<char>>, i: usize) -> (next: usize)
        requires
            old(self).inv(),
            i < params@.len(),
        ensures
            final(self).inv(),
            (final(self)@, next as int) == sgr_step(
                old(self)@,
                params@.map_values(|p: Vec<char>| p@),
                i as int,
            ),
    {
        let ghost pv = params@.map_values(|p: Vec<char>| p@);
        assert(params@[i as int]@ == pv[i as int]);
        assert(params@.len() == params.len());
        let code = match sgr_value_of(params[i].as_slice()) {
            Some(c) => c,
            None => {
                return i + 1;
            },
        };
        if code == 38 || code == 48 {
            let is_foreground = code == 38;
            let end = params.len();
            if end - i > 1 {
                assert(params@[i + 1]@ == pv[i + 1]);
            }
            let mode = if end - i > 1 {
                sgr_value_of(params[i + 1].as_slice())
            } else {
                None
            };
            if mode == Some(5u8) {
                if end - i > 2 {
                    assert(params@[i + 2]@ == pv[i + 2]);
                    if let Some(index) = sgr_value_of(params[i + 2].as_slice()) {
                        self.set_256_color(index, is_foreground);
                    }
                    i + 3
                } else {
                    end
                }
            } else if mode == Some(2u8) {
                if end - i > 4 {
                    assert(params@[i + 2]@ == pv[i + 2]);
                    assert(params@[i + 3]@ == pv[i + 3]);
                    assert(params@[i + 4]@ == pv[i + 4]);
                    let r = sgr_value_of(params[i + 2].as_slice());
                    let g = sgr_value_of(params[i + 3].as_slice());
                    let b = sgr_value_of(params[i + 4].as_slice());
                    if let (Some(r), Some(g), Some(b)) = (r, g, b) {
                        self.set_active_color(TermColor { r, g, b }, is_foreground);
                    }
                    i + 5
                } else {
                    end
                }
            } else {
                end
            }
        } else {
            if code == 0 {
                self.reset_text_attributes();
            } else if code == 1 {
                self.bold = true;
            } else if code == 3 {
                self.italic = true;
            } else if code == 4 {
                self.underline = true;
            } else if 30 <= code && code <= 37 {
                self.set_color(code - 30, true);
            } else if 40 <= code && code <= 47 {
                self.set_color(code - 40, false);
            } else if 90 <= code && code <= 97 {
                self.set_bright_color(code - 90, true);
            } else if 100 <= code && code <= 107 {
                self.set_bright_color(code - 100, false);
            }
            i + 1
        }
    }

    /// Applies the codes of a select-graphic-rendition sequence.
    fn apply_sgr(&mut self, sequence: &[char])
        requires
            old(self).inv(),
        ensures
            final(self).inv(),
            final(self)@ == sgr_from(old(self)@, split_params(sequence@), 0),
    {
        let params = split_semicolons(sequence);
        let ghost pv = split_params(sequence@);
        let ghost target = sgr_from(self@, pv, 0);
        let mut i: usize = 0;
        while i < params.len()
            invariant
                self.inv(),
                params@.map_values(|p: Vec<char>| p@) == pv,
                sgr_from(self@, pv, i as int) == target,
            decreases params.len() - i,
        {
            i = self.apply_sgr_code(&params, i);
        }
    }

    fn erased_at(&self, mode: u8, line: bool, y: usize, x: usize) -> (r: bool)
        ensures
            r == if line {
                line_erased(self@, mode as nat, y as int, x as int)
            } else {
                display_erased(self@, mode as nat, y as int, x as int)
            },
    {
        if line {
            y == self.cursor_y && (if mode == 0 {
                x >= self.cursor_x
            } else if mode == 1 {
                x <= self.cursor_x
            } else {
                mode == 2
            })
        } else if mode == 0 {
            y > self.cursor_y || (y == self.cursor_y && x >= self.cursor_x)
        } else if mode == 1 {
            y < self.cursor_y || (y == self.cursor_y && x <= self.cursor_x)
        } else {
            mode == 2 || mode == 3
        }
    }

    /// Erase-in-line where `line` holds, erase-in-display otherwise.
    fn erase(&mut self, mode: u8, line: bool)
        requires
            old(self).inv(),
        ensures
            final(self).inv(),
            final(self)@ == if line {
                erase_line(old(self)@, mode as nat)
            } else {
                erase_display(old(self)@, mode as nat)
            },
    {
        let ghost s0 = self@;
        let ghost target = if line {
            erase_line(s0, mode as nat)
        } else {
            erase_display(s0, mode as nat)
        };
        let height = self.height;
        let width = self.width;
        let mut y: usize = 0;
        while y < height
            invariant
                self.inv(),
                height == s0.height,
                width == s0.width,
                y <= height,
                self@ == (TermState { cells: self@.cells, ..s0 }),
                target == if line {
                    erase_line(s0, mode as nat)
                } else {
                    erase_display(s0, mode as nat)
                },
                forall|j: int| 0 <= j < y ==> #[trigger] self@.cells[j] == target.cells[j],
                forall|j: int| y <= j < height ==> #[trigger] self@.cells[j] == s0.cells[j],
            decreases height - y,
        {
            let mut x: usize = 0;
            while x < width
                invariant
                    self.inv(),
                    height == s0.height,
                    width == s0.width,
                    y < height,
                    x <= width,
                    self@ == (TermState { cells: self@.cells, ..s0 }),
                    target == if line {
                        erase_line(s0, mode as nat)
                    } else {
                        erase_display(s0, mode as nat)
                    },
                    forall|j: int| 0 <= j < y ==> #[trigger] self@.cells[j] == target.cells[j],
                    forall|j: int| y < j < height ==> #[trigger] self@.cells[j] == s0.cells[j],
                    forall|i: int| 0 <= i < x ==> #[trigger] self@.cells[y as int][i] == target.cells[y as int][i],
                    forall|i: int| x <= i < width ==> #[trigger] self@.cells[y as int][i] == s0.cells[y as int][i],
                decreases width - x,
            {
                let ghost before = self@;
                if self.erased_at(mode, line, y, x) {
                    self.clear_cell(y, x);
                }
                assert(self@.cells[y as int][x as int] == target.cells[y as int][x as int]);
                assert(forall|i: int| 0 <= i < width && i != x ==> #[trigger] self@.cells[y as int][i] == before.cells[y as int][i]);
                assert(forall|j: int| 0 <= j < height && j != y ==> #[trigger] self@.cells[j] == before.cells[j]);
                x = x + 1;
            }
            assert(self@.cells[y as int] =~= target.cells[y as int]);
            y = y + 1;
        }
        assert(self@.cells =~= target.cells);
    }

    /// Carries out the control sequence with parameter text `sequence` and
    /// final letter `command`; an unknown letter changes nothing.
    fn process_csi_sequence(&mut self, sequence: &[char], command: char)
        requires
            old(self).inv(),
        ensures
            final(self).inv(),
            final(self)@ == apply_csi(old(self)@, sequence@, command),
            grid_wf(final(self)@),
            final(self)@.width == old(self)@.width,
            final(self)@.height == old(self)@.height,
    {
        proof {
            law_control_sequence_keeps_grid(self@, sequence@, command);
        }
        if command == 'm' {
            self.apply_sgr(sequence);
        } else if command == 'A' {
            let count = param_count_of(sequence, 1);
            if self.cursor_y >= count {
                self.cursor_y = self.cursor_y - count;
            } else {
                self.cursor_y = 0;
            }
        } else if command == 'B' {
            let count = param_count_of(sequence, 1);
            if count >= self.height - 1 - self.cursor_y {
                self.cursor_y = self.height - 1;
            } else {
                self.cursor_y = self.cursor_y + count;
            }
        } else if command == 'C' {
            let count = param_count_of(sequence, 1);
            if count >= self.width - 1 - self.cursor_x {
                self.cursor_x = self.width - 1;
            } else {
                self.cursor_x = self.cursor_x + count;
            }
        } else if command == 'D' {
            let count = param_count_of(sequence, 1);
            if self.cursor_x >= count {
                self.cursor_x = self.cursor_x - count;
            } else {
                self.cursor_x = 0;
            }
        } else if command == 'H' || command == 'f' {
            let parts = split_semicolons(sequence);
            let row = position_of(&parts, 0);
            let col = position_of(&parts, 1);
            self.cursor_y = if row < self.height - 1 {
                row
            } else {
                self.height - 1
            };
            self.cursor_x = if col < self.width - 1 {
                col
            } else {
                self.width - 1
            };
        } else if command == 'J' {
            let mode = param_u8_of(sequence);
            self.erase(mode, false);
        } else if command == 'K' {
            let mode = param_u8_of(sequence);
            self.erase(mode, true);
        }
    }
    /// Feeds `content` to the terminal. The grid and the style carry over
    /// from earlier calls; a control sequence left open at the end is
    /// dropped.
    pub fn process_content(&mut self, content: &str)
        requires
            old(self).inv(),
        ensures
            final(self).inv(),
            final(self)@ == process(old(self)@, content@),
    {
        let input = chars_of(content);
        let ghost target = process(self@, content@);
        let mut mode: u8 = 0;
        let mut sequence: Vec<char> = Vec::new();
        let mut i: usize = 0;
        while i < input.len()
            invariant
                self.inv(),
                input@ == content@,
                mode <= 2,
                process_from(self@, pending_of(mode, sequence@), input@, i as int) == target,
            decreases input.len() - i,
        {
            let c = input[i];
            if mode == 0 {
                if c == '\x1b' {
                    mode = 1;
                } else {
                    self.put_char(c);
                }
            } else if mode == 1 {
                if c == '[' {
                    mode = 2;
                    sequence = Vec::new();
                } else {
                    mode = 0;
                }
            } else if ('a' <= c && c <= 'z') || ('A' <= c && c <= 'Z') {
                self.process_csi_sequence(sequence.as_slice(), c);
                mode = 0;
            } else {
                sequence.push(c);
            }
            i = i + 1;
        }
    }
    /// The color of pixel `(px, py)` of the image, with the glyphs
    /// pre-scaled in `glyphs`.
    fn pixel_at(&self, glyphs: &Vec<CharBitmap>, font_size: usize, k: usize, px: usize, py: usize) -> (c: TermColor)
        requires
            self.inv(),
            1 <= font_size <= 255,
            k == glyph_scale(font_size as nat),
            glyphs@.len() == 96,
            forall|c: char| #[trigger] bitmap_view(glyphs@[glyph_slot(c)]) == scaled(glyph_of(c), k as nat),
            px < self@.width * font_size,
            py < self@.height * (2 * font_size),
        ensures
            c == pixel_color(self@, font_size as nat, px as int, py as int),
    {
        let cw = font_size;
        let ch = 2 * font_size;
        let row = py / ch;
        let col = px / cw;
        assert(row < self@.height) by (nonlinear_arith)
            requires py < self@.height * ch, ch >= 1, row == py / ch;
        assert(col < self@.width) by (nonlinear_arith)
            requires px < self@.width * cw, cw >= 1, col == px / cw;
        proof {
            self.lemma_cells();
        }
        let cell = self.cells[row][col];
        assert(cell == self@.cells[row as int][col as int]);
        let lx = px % cw;
        let ly = py % ch;
        if cell.underline && ly == ch - 2 {
            cell.fg_color
        } else if cell.character != ' ' {
            let slot = glyph_slot_of(cell.character);
            let bitmap = &glyphs[slot];
            let ghost g = scaled(glyph_of(cell.character), k as nat);
            proof {
                lemma_glyph_size(cell.character);
                assert(bitmap_view(*bitmap) == g);
                assert(g.len() == GLYPH_HEIGHT * k);
                assert(bitmap@.len() == g.len());
            }
            let gh = bitmap.len();
            let gw = if gh > 0 {
                assert(bitmap@[0]@ == g[0]);
                bitmap[0].len()
            } else {
                0
            };
            assert(gw == glyph_width(cell.character) * k);
            let ox = if gw <= cw {
                (cw - gw) / 2
            } else {
                0
            };
            let oy = if gh <= ch {
                (ch - gh) / 2
            } else {
                0
            };
            assert(ox == center_offset(font_size as nat, gw as nat));
            assert(oy == center_offset(2 * font_size as nat, gh as nat));
            if lx >= ox && ly >= oy && lx - ox < gw && ly - oy < gh {
                let gy = ly - oy;
                let gx = lx - ox;
                assert(bitmap@[gy as int]@ == g[gy as int]);
                assert(gy / k < GLYPH_HEIGHT) by (nonlinear_arith)
                    requires gy < gh, gh == GLYPH_HEIGHT * k, k >= 1;
                assert(glyph_of(cell.character)[(gy / k) as int].len() == glyph_width(cell.character));
                assert(g[gy as int].len() == glyph_width(cell.character) * k);
                if bitmap[gy][gx] {
                    cell.fg_color
                } else {
                    cell.bg_color
                }
            } else {
                cell.bg_color
            }
        } else {
            cell.bg_color
        }
    }

    /// The samples of the image of the grid for a font size: cells of
    /// `font_size` by `2 * font_size` pixels, three bytes per pixel, row
    /// after row.
    pub fn render_pixels(&self, font_size: u8) -> (buf: Vec<u8>)
        requires
            self.inv(),
            image_width(self@, font_size as nat) * image_height(self@, font_size as nat) * 3
                <= usize::MAX,
        ensures
            buf@ == rendered_samples(self@, font_size as nat),
    {
        let fs = font_size as usize;
        let k0 = (fs + 4) / 8;
        let k = if k0 < 1 {
            1
        } else {
            k0
        };
        proof {
            assert forall|c: char| in_table(c) implies self.char_bitmaps@.contains_key(c as u32) by {
                assert(in_table_code(c as u32));
            }
        }
        let glyphs = scaled_glyph_table(&self.char_bitmaps, k);
        let ghost iw = image_width(self@, fs as nat);
        let ghost ih = image_height(self@, fs as nat);
        assert(self@.width * fs <= usize::MAX && self@.height * (2 * fs) <= usize::MAX) by (nonlinear_arith)
            requires iw * ih * 3 <= usize::MAX, iw == self@.width * fs, ih == self@.height * (2 * fs),
                self@.width >= 1, self@.height >= 1;
        let w = self.width * fs;
        let h = self.height * (2 * fs);
        let ghost target = rendered_samples(self@, fs as nat);
        let mut buf: Vec<u8> = Vec::new();
        let mut py: usize = 0;
        while py < h
            invariant
                self.inv(),
                w == iw,
                h == ih,
                iw == image_width(self@, fs as nat),
                ih == image_height(self@, fs as nat),
                iw * ih * 3 <= usize::MAX,
                py <= h,
                k == glyph_scale(fs as nat),
                fs <= 255,
                glyphs@.len() == 96,
                forall|c: char| #[trigger] bitmap_view(glyphs@[glyph_slot(c)]) == scaled(glyph_of(c), k as nat),
                target == rendered_samples(self@, fs as nat),
                buf@.len() == 3 * (py * w),
                forall|j: int| 0 <= j < buf@.len() ==> #[trigger] buf@[j] == target[j],
            decreases h - py,
        {
            let mut px: usize = 0;
            while px < w
                invariant
                    self.inv(),
                    w == iw,
                    h == ih,
                    iw == image_width(self@, fs as nat),
                    ih == image_height(self@, fs as nat),
                    iw * ih * 3 <= usize::MAX,
                    py < h,
                    px <= w,
                    k == glyph_scale(fs as nat),
                    fs <= 255,
                    glyphs@.len() == 96,
                    forall|c: char| #[trigger] bitmap_view(glyphs@[glyph_slot(c)]) == scaled(glyph_of(c), k as nat),
                    target == rendered_samples(self@, fs as nat),
                    buf@.len() == 3 * (py * w + px),
                    forall|j: int| 0 <= j < buf@.len() ==> #[trigger] buf@[j] == target[j],
                decreases w - px,
            {
                assert(fs >= 1) by (nonlinear_arith)
                    requires px < w, w == self@.width * fs;
                let color = self.pixel_at(&glyphs, fs, k, px, py);
                assert(3 * (py * w + px) + 3 <= iw * ih * 3) by (nonlinear_arith)
                    requires px < w, py < h, w == iw, h == ih;
                proof {
                    lemma_sample_index(w as int, px as int, py as int, 0);
                    lemma_sample_index(w as int, px as int, py as int, 1);
                    lemma_sample_index(w as int, px as int, py as int, 2);
                }
                buf.push(color.r);
                buf.push(color.g);
                buf.push(color.b);
                px = px + 1;
            }
            assert(3 * (py * w + w) == 3 * ((py + 1) * w)) by (nonlinear_arith);
            py = py + 1;
        }
        assert(3 * (h * w) == iw * ih * 3) by (nonlinear_arith)
            requires w == iw, h == ih;
        assert(buf@ =~= target);
        buf
    }

    /// Draws the grid as an RGB image for a font size: each cell is
    /// `font_size` pixels wide and `2 * font_size` tall.
    pub fn render_to_image(&self, font_size: u8) -> (img: RgbImage)
        requires
            self.inv(),
            image_width(self@, font_size as nat) * image_height(self@, font_size as nat) * 3
                <= usize::MAX,
            image_width(self@, font_size as nat) <= u32::MAX,
            image_height(self@, font_size as nat) <= u32::MAX,
        ensures
            image_samples(img) == rendered_samples(self@, font_size as nat),
            image_dimensions(img) == (
                image_width(self@, font_size as nat) as u32,
                image_height(self@, font_size as nat) as u32,
            ),
    {
        let buf = self.render_pixels(font_size);
        let w = (self.width * font_size as usize) as u32;
        let h = (self.height * (2 * font_size as usize)) as u32;
        assert(w == image_width(self@, font_size as nat));
        assert(h == image_height(self@, font_size as nat));
        assert(buf@.len() == w * h * 3);
        assert(3 * w * h == w * h * 3) by (nonlinear_arith);
        proof {
            self.lemma_grid_wf();
        }
        assert(3 * w <= usize::MAX) by (nonlinear_arith)
            requires
                w == self@.width * font_size,
                h == self@.height * (2 * font_size),
                self@.height >= 1,
                w * h * 3 <= usize::MAX,
        ;
        image_from_raw(w, h, buf).unwrap()
    }
    pub fn width(&self) -> (w: usize)
        ensures
            w == self@.width,
    {
        self.width
    }

    pub fn height(&self) -> (h: usize)
        ensures
            h == self@.height,
    {
        self.height
    }

    /// The cursor's column, from 0.
    pub fn cursor_x(&self) -> (x: usize)
        ensures
            x == self@.cursor_x,
    {
        self.cursor_x
    }

    /// The cursor's row, from 0.
    pub fn cursor_y(&self) -> (y: usize)
        ensures
            y == self@.cursor_y,
    {
        self.cursor_y
    }

    /// The cell at `row` and `col`, or `None` outside the grid.
    pub fn cell(&self, row: usize, col: usize) -> (c: Option<TermCell>)
        requires
            self.inv(),
        ensures
            row < self@.height && col < self@.width ==> c == Some(self@.cells[row as int][col as int]),
            !(row < self@.height && col < self@.width) ==> c is None,
    {
        proof {
            self.lemma_cells();
        }
        if row < self.height && col < self.width {
            Some(self.cells[row][col])
        } else {
            None
        }
    }
}

} // verus!
