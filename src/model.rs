//! The abstract state of a terminal and what each operation does to it.

use crate::colors::{basic_color, bright_color, palette_color, rgb, theme_bg, theme_fg, TermColor};
use crate::params::{digits_value, parse_unsigned, split_params, unsigned_digits};
use vstd::prelude::*;

verus! {

/// One character cell: a character with its colors and style.
#[derive(Clone, Copy, PartialEq, Eq, Structural, Debug)]
pub struct TermCell {
    pub character: char,
    pub fg_color: TermColor,
    pub bg_color: TermColor,
    pub bold: bool,
    pub italic: bool,
    pub underline: bool,
}

/// A terminal as a grid of cells, a cursor and the active style.
pub struct TermState {
    pub width: nat,
    pub height: nat,
    pub cells: Seq<Seq<TermCell>>,
    pub cursor_x: nat,
    pub cursor_y: nat,
    pub fg: TermColor,
    pub bg: TermColor,
    pub bold: bool,
    pub italic: bool,
    pub underline: bool,
    pub dark_theme: bool,
}

/// Every row holds `width` cells and the cursor stands on a cell.
pub open spec fn grid_wf(s: TermState) -> bool {
    &&& s.width >= 1
    &&& s.height >= 1
    &&& s.cells.len() == s.height
    &&& forall|y: int| 0 <= y < s.height ==> (#[trigger] s.cells[y]).len() == s.width
    &&& s.cursor_x < s.width
    &&& s.cursor_y < s.height
}

/// A space in the active colors, with no style.
pub open spec fn blank_cell(s: TermState) -> TermCell {
    TermCell {
        character: ' ',
        fg_color: s.fg,
        bg_color: s.bg,
        bold: false,
        italic: false,
        underline: false,
    }
}

/// `c` in the active colors and style.
pub open spec fn styled_cell(s: TermState, c: char) -> TermCell {
    TermCell {
        character: c,
        fg_color: s.fg,
        bg_color: s.bg,
        bold: s.bold,
        italic: s.italic,
        underline: s.underline,
    }
}

/// The state of a fresh terminal: blank cells in the theme's colors.
pub open spec fn initial_state(width: nat, height: nat, dark: bool) -> TermState {
    let cell = TermCell {
        character: ' ',
        fg_color: theme_fg(dark),
        bg_color: theme_bg(dark),
        bold: false,
        italic: false,
        underline: false,
    };
    TermState {
        width,
        height,
        cells: Seq::new(height, |y: int| Seq::new(width, |x: int| cell)),
        cursor_x: 0,
        cursor_y: 0,
        fg: theme_fg(dark),
        bg: theme_bg(dark),
        bold: false,
        italic: false,
        underline: false,
        dark_theme: dark,
    }
}

/// Rows move up by one; the top row is gone and the new bottom row is blank
/// in the active colors. The cursor stays.
pub open spec fn scroll_up(s: TermState) -> TermState {
    TermState {
        cells: s.cells.drop_first().push(Seq::new(s.width, |x: int| blank_cell(s))),
        ..s
    }
}

/// Column 0 of the next row; below the last row the grid scrolls. A
/// newline, a write past the last column and a tab past it all follow this
/// one rule.
pub open spec fn next_line(s: TermState) -> TermState {
    if s.cursor_y + 1 < s.height {
        TermState { cursor_x: 0, cursor_y: s.cursor_y + 1, ..s }
    } else {
        TermState { cursor_x: 0, cursor_y: (s.height - 1) as nat, ..scroll_up(s) }
    }
}

/// `c` goes into the cell under the cursor, which then moves right; past
/// the last column it goes to the next line.
pub open spec fn write_char(s: TermState, c: char) -> TermState {
    let placed = TermState {
        cells: s.cells.update(
            s.cursor_y as int,
            s.cells[s.cursor_y as int].update(s.cursor_x as int, styled_cell(s, c)),
        ),
        ..s
    };
    if s.cursor_x + 1 < s.width {
        TermState { cursor_x: s.cursor_x + 1, ..placed }
    } else {
        next_line(placed)
    }
}

/// The next column that is a multiple of 8, or the next line past the
/// last column.
pub open spec fn tab(s: TermState) -> TermState {
    let next = (s.cursor_x / 8 + 1) * 8;
    if next < s.width {
        TermState { cursor_x: next, ..s }
    } else {
        next_line(s)
    }
}

pub open spec fn backspace(s: TermState) -> TermState {
    if s.cursor_x > 0 {
        TermState { cursor_x: (s.cursor_x - 1) as nat, ..s }
    } else {
        s
    }
}

pub open spec fn carriage_return(s: TermState) -> TermState {
    TermState { cursor_x: 0, ..s }
}

/// What an ordinary character or one of the four control characters does.
pub open spec fn put_char(s: TermState, c: char) -> TermState {
    if c == '\n' {
        next_line(s)
    } else if c == '\r' {
        carriage_return(s)
    } else if c == '\t' {
        tab(s)
    } else if c == '\x08' {
        backspace(s)
    } else {
        write_char(s, c)
    }
}

/// Cells that erase-in-display clears for `mode`: 0 from the cursor to the
/// end of the screen, 1 from the start to the cursor, 2 and 3 all of it.
pub open spec fn display_erased(s: TermState, mode: nat, y: int, x: int) -> bool {
    if mode == 0 {
        y > s.cursor_y || (y == s.cursor_y && x >= s.cursor_x)
    } else if mode == 1 {
        y < s.cursor_y || (y == s.cursor_y && x <= s.cursor_x)
    } else {
        mode == 2 || mode == 3
    }
}

/// Cells that erase-in-line clears for `mode`: 0 from the cursor to the end
/// of the line, 1 from its start to the cursor, 2 the whole line.
pub open spec fn line_erased(s: TermState, mode: nat, y: int, x: int) -> bool {
    y == s.cursor_y && (if mode == 0 {
        x >= s.cursor_x
    } else if mode == 1 {
        x <= s.cursor_x
    } else {
        mode == 2
    })
}

/// Erase-in-display: the cells that `mode` names become blank in the
/// active colors.
pub open spec fn erase_display(s: TermState, mode: nat) -> TermState {
    TermState {
        cells: Seq::new(
            s.height,
            |y: int|
                Seq::new(
                    s.width,
                    |x: int|
                        if display_erased(s, mode, y, x) {
                            blank_cell(s)
                        } else {
                            s.cells[y][x]
                        },
                ),
        ),
        ..s
    }
}

/// Erase-in-line: the cells of the cursor's row that `mode` names become
/// blank in the active colors.
pub open spec fn erase_line(s: TermState, mode: nat) -> TermState {
    TermState {
        cells: Seq::new(
            s.height,
            |y: int|
                Seq::new(
                    s.width,
                    |x: int|
                        if line_erased(s, mode, y, x) {
                            blank_cell(s)
                        } else {
                            s.cells[y][x]
                        },
                ),
        ),
        ..s
    }
}

/// No style, and the theme's colors.
pub open spec fn reset_style(s: TermState) -> TermState {
    TermState {
        fg: theme_fg(s.dark_theme),
        bg: theme_bg(s.dark_theme),
        bold: false,
        italic: false,
        underline: false,
        ..s
    }
}

pub open spec fn set_fg(s: TermState, c: TermColor) -> TermState {
    TermState { fg: c, ..s }
}

pub open spec fn set_bg(s: TermState, c: TermColor) -> TermState {
    TermState { bg: c, ..s }
}

/// A parameter read as a `u8`; what does not read as one counts as 0.
pub open spec fn param_u8(p: Seq<char>) -> nat {
    match parse_unsigned(p, 255) {
        Some(v) => v,
        None => 0,
    }
}

/// A count read as a `usize`, or `default` where it does not read as one.
pub open spec fn param_count(p: Seq<char>, default: nat) -> nat {
    match parse_unsigned(p, usize::MAX as nat) {
        Some(v) => v,
        None => default,
    }
}

/// A parameter of a select-graphic-rendition sequence: an empty one is 0,
/// and one that is not a number in `0..=255` has no value.
pub open spec fn sgr_value(p: Seq<char>) -> Option<nat> {
    if p.len() == 0 {
        Some(0)
    } else {
        parse_unsigned(p, 255)
    }
}

/// The color that the parameters after a `38` or `48` at position `i`
/// select, where they are well formed, and the position after them. `5`
/// takes one palette index and `2` takes three channels; a sub-sequence cut
/// short by the end of the parameters, or with another mode, takes all the
/// remaining parameters with it.
pub open spec fn extended_color(params: Seq<Seq<char>>, i: int) -> (Option<TermColor>, int) {
    let end = params.len() as int;
    if i + 1 < end && sgr_value(params[i + 1]) == Some(5nat) {
        if i + 2 < end {
            (
                match sgr_value(params[i + 2]) {
                    Some(n) => Some(palette_color(n as u8)),
                    None => None,
                },
                i + 3,
            )
        } else {
            (None, end)
        }
    } else if i + 1 < end && sgr_value(params[i + 1]) == Some(2nat) {
        if i + 4 < end {
            (
                match (sgr_value(params[i + 2]), sgr_value(params[i + 3]), sgr_value(params[i + 4])) {
                    (Some(r), Some(g), Some(b)) => Some(rgb(r as u8, g as u8, b as u8)),
                    _ => None,
                },
                i + 5,
            )
        } else {
            (None, end)
        }
    } else {
        (None, end)
    }
}

/// What a single code does to the style.
pub open spec fn sgr_simple(s: TermState, code: nat) -> TermState {
    if code == 0 {
        reset_style(s)
    } else if code == 1 {
        TermState { bold: true, ..s }
    } else if code == 3 {
        TermState { italic: true, ..s }
    } else if code == 4 {
        TermState { underline: true, ..s }
    } else if 30 <= code <= 37 {
        set_fg(s, basic_color(code - 30))
    } else if 40 <= code <= 47 {
        set_bg(s, basic_color(code - 40))
    } else if 90 <= code <= 97 {
        set_fg(s, bright_color(code - 90))
    } else if 100 <= code <= 107 {
        set_bg(s, bright_color(code - 100))
    } else {
        s
    }
}

/// The code at position `i` of a select-graphic-rendition sequence: the
/// new state and the position of the next code. A parameter without a
/// value changes nothing; `38` and `48` take the parameters of an extended
/// color with them, and change nothing where those are malformed.
pub open spec fn sgr_step(s: TermState, params: Seq<Seq<char>>, i: int) -> (TermState, int) {
    match sgr_value(params[i]) {
        None => (s, i + 1),
        Some(code) => if code == 38 || code == 48 {
            let (color, next) = extended_color(params, i);
            (
                match color {
                    Some(c) => if code == 38 {
                        set_fg(s, c)
                    } else {
                        set_bg(s, c)
                    },
                    None => s,
                },
                next,
            )
        } else {
            (sgr_simple(s, code), i + 1)
        },
    }
}

/// The codes of a select-graphic-rendition sequence from position `i` on.
pub open spec fn sgr_from(s: TermState, params: Seq<Seq<char>>, i: int) -> TermState
    decreases params.len() - i,
{
    if i < 0 || i >= params.len() {
        s
    } else {
        let (t, next) = sgr_step(s, params, i);
        if next > i {
            sgr_from(t, params, next)
        } else {
            t
        }
    }
}

pub open spec fn min_nat(a: nat, b: nat) -> nat {
    if a < b {
        a
    } else {
        b
    }
}

/// One part of a cursor position: 1-based, 0 where it is missing or empty.
pub open spec fn position_part(parts: Seq<Seq<char>>, i: int) -> nat {
    if i < parts.len() && parts[i].len() > 0 {
        let v = param_count(parts[i], 1);
        if v >= 1 {
            (v - 1) as nat
        } else {
            0
        }
    } else {
        0
    }
}

/// What the control sequence with parameter text `p` and final letter `cmd`
/// does.
pub open spec fn apply_csi(s: TermState, p: Seq<char>, cmd: char) -> TermState {
    if cmd == 'm' {
        sgr_from(s, split_params(p), 0)
    } else if cmd == 'A' {
        let n = param_count(p, 1);
        TermState { cursor_y: if s.cursor_y >= n { (s.cursor_y - n) as nat } else { 0 }, ..s }
    } else if cmd == 'B' {
        TermState { cursor_y: min_nat(s.cursor_y + param_count(p, 1), (s.height - 1) as nat), ..s }
    } else if cmd == 'C' {
        TermState { cursor_x: min_nat(s.cursor_x + param_count(p, 1), (s.width - 1) as nat), ..s }
    } else if cmd == 'D' {
        let n = param_count(p, 1);
        TermState { cursor_x: if s.cursor_x >= n { (s.cursor_x - n) as nat } else { 0 }, ..s }
    } else if cmd == 'H' || cmd == 'f' {
        let parts = split_params(p);
        TermState {
            cursor_y: min_nat(position_part(parts, 0), (s.height - 1) as nat),
            cursor_x: min_nat(position_part(parts, 1), (s.width - 1) as nat),
            ..s
        }
    } else if cmd == 'J' {
        erase_display(s, param_u8(p))
    } else if cmd == 'K' {
        erase_line(s, param_u8(p))
    } else {
        s
    }
}

pub open spec fn is_alpha(c: char) -> bool {
    ('a' <= c && c <= 'z') || ('A' <= c && c <= 'Z')
}

/// Where the reader of the input stands between two characters.
pub enum Pending {
    /// Outside any escape.
    Ground,
    /// Just after `ESC`.
    Escape,
    /// Inside `ESC [`, with the parameter text read so far.
    Csi(Seq<char>),
}

/// One character of input: the new terminal state and what is pending.
/// `ESC [` opens a control sequence that the next letter closes; `ESC`
/// followed by anything else is dropped with that character.
pub open spec fn step(s: TermState, p: Pending, c: char) -> (TermState, Pending) {
    match p {
        Pending::Ground => if c == '\x1b' {
            (s, Pending::Escape)
        } else {
            (put_char(s, c), Pending::Ground)
        },
        Pending::Escape => if c == '[' {
            (s, Pending::Csi(Seq::empty()))
        } else {
            (s, Pending::Ground)
        },
        Pending::Csi(text) => if is_alpha(c) {
            (apply_csi(s, text, c), Pending::Ground)
        } else {
            (s, Pending::Csi(text.push(c)))
        },
    }
}

/// The input from position `i` on, fed to the terminal; what is still
/// pending at the end of the input is dropped.
pub open spec fn process_from(s: TermState, p: Pending, input: Seq<char>, i: int) -> TermState
    decreases input.len() - i,
{
    if i < 0 || i >= input.len() {
        s
    } else {
        let (t, q) = step(s, p, input[i]);
        process_from(t, q, input, i + 1)
    }
}

/// The whole of `input`, fed to the terminal.
pub open spec fn process(s: TermState, input: Seq<char>) -> TermState {
    process_from(s, Pending::Ground, input, 0)
}

/// The style codes touch neither the grid nor the cursor.
proof fn lemma_sgr_keeps_grid(s: TermState, params: Seq<Seq<char>>, i: int)
    ensures
        ({
            let t = sgr_from(s, params, i);
            t.width == s.width && t.height == s.height && t.cells == s.cells && t.cursor_x
                == s.cursor_x && t.cursor_y == s.cursor_y && t.dark_theme == s.dark_theme
        }),
    decreases params.len() - i,
{
    if 0 <= i < params.len() {
        let (t, next) = sgr_step(s, params, i);
        if next > i {
            lemma_sgr_keeps_grid(t, params, next);
        }
    }
}

proof fn lemma_next_line_wf(s: TermState)
    requires
        grid_wf(s),
    ensures
        grid_wf(next_line(s)),
{
    let t = scroll_up(s);
    assert forall|y: int| 0 <= y < t.height implies (#[trigger] t.cells[y]).len() == t.width by {
        if y < s.height - 1 {
            assert(t.cells[y] == s.cells[y + 1]);
        }
    }
}

proof fn lemma_put_char_wf(s: TermState, c: char)
    requires
        grid_wf(s),
    ensures
        grid_wf(put_char(s, c)),
{
    lemma_next_line_wf(s);
    if c != '\n' && c != '\r' && c != '\t' && c != '\x08' {
        let placed = TermState {
            cells: s.cells.update(
                s.cursor_y as int,
                s.cells[s.cursor_y as int].update(s.cursor_x as int, styled_cell(s, c)),
            ),
            ..s
        };
        assert forall|y: int| 0 <= y < placed.height implies (#[trigger] placed.cells[y]).len()
            == placed.width by {}
        lemma_next_line_wf(placed);
    }
}

/// A control sequence keeps the grid's size, the width of every row and
/// the cursor on the grid, whatever its parameters and letter.
pub proof fn law_control_sequence_keeps_grid(s: TermState, p: Seq<char>, cmd: char)
    requires
        grid_wf(s),
    ensures
        grid_wf(apply_csi(s, p, cmd)),
        apply_csi(s, p, cmd).width == s.width,
        apply_csi(s, p, cmd).height == s.height,
{
    lemma_sgr_keeps_grid(s, split_params(p), 0);
}

proof fn lemma_process_from_wf(s: TermState, p: Pending, input: Seq<char>, i: int)
    requires
        grid_wf(s),
    ensures
        grid_wf(process_from(s, p, input, i)),
    decreases input.len() - i,
{
    if 0 <= i < input.len() {
        let c = input[i];
        match p {
            Pending::Ground => if c != '\x1b' {
                lemma_put_char_wf(s, c);
            },
            Pending::Csi(text) => if is_alpha(c) {
                law_control_sequence_keeps_grid(s, text, c);
            },
            _ => {},
        }
        let (t, q) = step(s, p, c);
        lemma_process_from_wf(t, q, input, i + 1);
    }
}

/// Whatever text is fed to a well-formed terminal, every row keeps its
/// width and the cursor stays on the grid: within `[0, width)` and
/// `[0, height)`, through scrolls and clamped moves alike.
pub proof fn law_cursor_stays_on_grid(s: TermState, input: Seq<char>)
    requires
        grid_wf(s),
    ensures
        grid_wf(process(s, input)),
        process(s, input).cursor_x < process(s, input).width,
        process(s, input).cursor_y < process(s, input).height,
        process(s, input).width == s.width,
        process(s, input).height == s.height,
{
    lemma_process_from_wf(s, Pending::Ground, input, 0);
    lemma_process_keeps_size(s, Pending::Ground, input, 0);
}

proof fn lemma_process_keeps_size(s: TermState, p: Pending, input: Seq<char>, i: int)
    ensures
        process_from(s, p, input, i).width == s.width,
        process_from(s, p, input, i).height == s.height,
        process_from(s, p, input, i).dark_theme == s.dark_theme,
    decreases input.len() - i,
{
    if 0 <= i < input.len() {
        let c = input[i];
        match p {
            Pending::Csi(text) => if is_alpha(c) && c == 'm' {
                lemma_sgr_keeps_grid(s, split_params(text), 0);
            },
            _ => {},
        }
        let (t, q) = step(s, p, c);
        lemma_process_keeps_size(t, q, input, i + 1);
    }
}

/// Writing a character and reading back the cell where the cursor stood
/// gives that character in the colors and style active at the write. The
/// one exception is a write on the last cell of the last row: it scrolls
/// the grid, and the written cell moves up a row.
pub proof fn law_write_then_read(s: TermState, c: char)
    requires
        grid_wf(s),
        !(s.cursor_x + 1 == s.width && s.cursor_y + 1 == s.height),
    ensures
        write_char(s, c).cells[s.cursor_y as int][s.cursor_x as int] == styled_cell(s, c),
{
}

/// `ESC [ 0 m` restores the theme's colors and clears bold, italic and
/// underline, whatever the style was; grid and cursor stay as they are.
pub proof fn law_reset_restores_theme(s: TermState)
    ensures
        apply_csi(s, seq!['0'], 'm') == (TermState {
            fg: theme_fg(s.dark_theme),
            bg: theme_bg(s.dark_theme),
            bold: false,
            italic: false,
            underline: false,
            ..s
        }),
{
    let p = seq!['0'];
    let e = Seq::<char>::empty();
    assert(p.drop_last() =~= e);
    assert(p.last() == '0');
    assert(split_params(e) == seq![e]);
    assert(e.push('0') =~= p);
    assert(split_params(p) =~= seq![p]);
    assert(unsigned_digits(p) == p);
    assert(digits_value(e) == 0);
    assert(digits_value(p) == 0);
    assert(sgr_value(p) == Some(0nat));
    let params = split_params(p);
    assert(params.len() == 1);
    assert(sgr_step(s, params, 0) == (reset_style(s), 1int));
    assert(sgr_from(reset_style(s), params, 1) == reset_style(s));
    assert(sgr_from(s, params, 0) == reset_style(s));
}

/// After a scroll, each row holds what the row below it held, and the last
/// row is blank in the active colors.
pub proof fn law_scroll_shifts_rows(s: TermState)
    requires
        grid_wf(s),
    ensures
        forall|y: int| 0 <= y < s.height - 1 ==> #[trigger] scroll_up(s).cells[y] == s.cells[y + 1],
        scroll_up(s).cells[s.height - 1] == Seq::new(s.width, |x: int| blank_cell(s)),
        scroll_up(s).cells.len() == s.height,
{
}

proof fn lemma_open_sequence(s: TermState, text: Seq<char>, input: Seq<char>, i: int)
    requires
        0 <= i,
        forall|j: int| i <= j < input.len() ==> !is_alpha(#[trigger] input[j]),
    ensures
        process_from(s, Pending::Csi(text), input, i) == s,
    decreases input.len() - i,
{
    if i < input.len() {
        lemma_open_sequence(s, text.push(input[i]), input, i + 1);
    }
}

/// A control sequence that no letter closes before the input ends is
/// dropped whole: no character is written and no style changes.
pub proof fn law_unterminated_sequence_is_dropped(s: TermState, params: Seq<char>)
    requires
        forall|j: int| 0 <= j < params.len() ==> !is_alpha(#[trigger] params[j]),
    ensures
        process(s, seq!['\x1b', '['] + params) == s,
{
    let input = seq!['\x1b', '['] + params;
    assert forall|j: int| 2 <= j < input.len() implies !is_alpha(#[trigger] input[j]) by {
        assert(input[j] == params[j - 2]);
    }
    lemma_open_sequence(s, Seq::empty(), input, 2);
    assert(input[0] == '\x1b' && input[1] == '[');
    assert(process_from(s, Pending::Escape, input, 1) == process_from(
        s,
        Pending::Csi(Seq::empty()),
        input,
        2,
    ));
    assert(process_from(s, Pending::Ground, input, 0) == process_from(s, Pending::Escape, input, 1));
}

proof fn lemma_split_without_separator(p: Seq<char>)
    requires
        forall|j: int| 0 <= j < p.len() ==> #[trigger] p[j] != ';',
    ensures
        split_params(p) == seq![p],
    decreases p.len(),
{
    if p.len() > 0 {
        lemma_split_without_separator(p.drop_last());
        assert(p.drop_last().push(p.last()) =~= p);
    } else {
        assert(p =~= Seq::<char>::empty());
    }
}

/// A style sequence of one parameter that is not a number in `0..=255`, or
/// is a number that names no style, changes nothing.
pub proof fn law_unrecognized_code_is_ignored(s: TermState, p: Seq<char>)
    requires
        forall|j: int| 0 <= j < p.len() ==> #[trigger] p[j] != ';',
        match sgr_value(p) {
            None => true,
            Some(c) => !(c == 0 || c == 1 || c == 3 || c == 4 || 30 <= c <= 38 || 40 <= c <= 48
                || 90 <= c <= 97 || 100 <= c <= 107),
        },
    ensures
        apply_csi(s, p, 'm') == s,
{
    lemma_split_without_separator(p);
    let params = split_params(p);
    assert(sgr_step(s, params, 0) == (s, 1int));
    assert(sgr_from(s, params, 1) == s);
}

/// A `38` or `48` whose sub-sequence is cut short by the end of the
/// parameters, or names another mode than `5` or `2`, changes nothing, and
/// none of the parameters after it acts as a code.
pub proof fn law_cut_short_extended_color_is_ignored(s: TermState, params: Seq<Seq<char>>)
    requires
        params.len() >= 1,
        sgr_value(params[0]) == Some(38nat) || sgr_value(params[0]) == Some(48nat),
        params.len() < 2 || (sgr_value(params[1]) == Some(5nat) && params.len() < 3) || (
        sgr_value(params[1]) == Some(2nat) && params.len() < 5) || (sgr_value(params[1]) != Some(
            5nat,
        ) && sgr_value(params[1]) != Some(2nat)),
    ensures
        sgr_from(s, params, 0) == s,
{
    assert(sgr_step(s, params, 0) == (s, params.len() as int));
    assert(sgr_from(s, params, params.len() as int) == s);
}

} // verus!
