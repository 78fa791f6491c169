use term_recorder::colors::TermColor;
use term_recorder::model::TermCell;
use term_recorder::terminal::VirtualTerminal;

fn rgb(r: u8, g: u8, b: u8) -> TermColor {
    TermColor { r, g, b }
}

fn row_text(t: &VirtualTerminal, row: usize) -> String {
    (0..t.width()).map(|x| t.cell(row, x).unwrap().character).collect()
}

fn snapshot(t: &VirtualTerminal) -> Vec<Option<TermCell>> {
    let mut cells = Vec::new();
    for y in 0..t.height() {
        for x in 0..t.width() {
            cells.push(t.cell(y, x));
        }
    }
    cells
}

#[test]
fn red_then_reset_scenario() {
    let mut t = VirtualTerminal::new(10, 4, true);
    t.process_content("\x1B[31mA\x1B[0m");
    let a = t.cell(0, 0).unwrap();
    assert_eq!(a.character, 'A');
    assert_eq!(a.fg_color, rgb(170, 0, 0));
    assert_eq!(t.cursor_x(), 1);
    assert_eq!(t.cursor_y(), 0);
    t.process_content("B");
    let b = t.cell(0, 1).unwrap();
    assert_eq!(b.character, 'B');
    assert_eq!(b.fg_color, rgb(240, 240, 240));
    assert_eq!(b.bg_color, rgb(30, 30, 30));
}

#[test]
fn new_terminal_is_blank_in_theme_colors() {
    let t = VirtualTerminal::new(3, 2, false);
    let c = t.cell(1, 2).unwrap();
    assert_eq!(c.character, ' ');
    assert_eq!(c.fg_color, rgb(30, 30, 30));
    assert_eq!(c.bg_color, rgb(245, 245, 245));
    assert!(t.cell(2, 0).is_none());
    assert!(t.cell(0, 3).is_none());
    assert_eq!((t.cursor_x(), t.cursor_y()), (0, 0));
}

#[test]
fn default_cell_is_dark_space() {
    let c = TermCell::default();
    assert_eq!(c.character, ' ');
    assert_eq!(c.fg_color, rgb(240, 240, 240));
    assert_eq!(c.bg_color, rgb(30, 30, 30));
    assert!(!c.bold && !c.italic && !c.underline);
}

#[test]
fn write_then_read_gives_active_style() {
    let mut t = VirtualTerminal::new(5, 3, true);
    t.process_content("\x1B[1;3;4;38;2;10;20;30;48;5;21m");
    t.process_content("\x1B[2;3H");
    let (x, y) = (t.cursor_x(), t.cursor_y());
    t.process_content("Q");
    let c = t.cell(y, x).unwrap();
    assert_eq!(c.character, 'Q');
    assert_eq!(c.fg_color, rgb(10, 20, 30));
    assert_eq!(c.bg_color, rgb(0, 0, 255));
    assert!(c.bold && c.italic && c.underline);
}

#[test]
fn wraparound_keeps_previous_row() {
    let mut t = VirtualTerminal::new(3, 3, true);
    t.process_content("abcd");
    assert_eq!(row_text(&t, 0), "abc");
    assert_eq!(row_text(&t, 1), "d  ");
    assert_eq!((t.cursor_x(), t.cursor_y()), (1, 1));
}

#[test]
fn newline_on_last_row_scrolls() {
    let mut t = VirtualTerminal::new(4, 3, true);
    t.process_content("r0\nr1\nr2");
    assert_eq!(t.cursor_y(), 2);
    let before: Vec<String> = (0..3).map(|y| row_text(&t, y)).collect();
    t.process_content("\x1B[44m\n");
    assert_eq!(row_text(&t, 0), before[1]);
    assert_eq!(row_text(&t, 1), before[2]);
    assert_eq!(row_text(&t, 2), "    ");
    let blank = t.cell(2, 0).unwrap();
    assert_eq!(blank.bg_color, rgb(0, 0, 170));
    assert_eq!((t.cursor_x(), t.cursor_y()), (0, 2));
}

#[test]
fn writing_past_last_cell_scrolls() {
    let mut t = VirtualTerminal::new(2, 2, true);
    t.process_content("abcde");
    assert_eq!(row_text(&t, 0), "cd");
    assert_eq!(row_text(&t, 1), "e ");
    assert_eq!((t.cursor_x(), t.cursor_y()), (1, 1));
}

#[test]
fn unterminated_escape_changes_nothing() {
    let mut t = VirtualTerminal::new(6, 2, true);
    t.process_content("hi");
    let before = snapshot(&t);
    let cursor = (t.cursor_x(), t.cursor_y());
    t.process_content("\x1B[31");
    assert_eq!(snapshot(&t), before);
    assert_eq!((t.cursor_x(), t.cursor_y()), cursor);
    t.process_content("Z");
    assert_eq!(t.cell(0, 2).unwrap().fg_color, rgb(240, 240, 240));
}

#[test]
fn escape_at_end_of_chunk_is_dropped() {
    let mut t = VirtualTerminal::new(6, 2, true);
    t.process_content("a\x1B");
    t.process_content("b");
    assert_eq!(row_text(&t, 0), "ab    ");
}

#[test]
fn non_csi_escape_drops_next_char() {
    let mut t = VirtualTerminal::new(6, 2, true);
    t.process_content("\x1B7A");
    assert_eq!(row_text(&t, 0), "A     ");
}

#[test]
fn unknown_command_is_ignored() {
    let mut t = VirtualTerminal::new(6, 2, true);
    t.process_content("x\x1B[5Zy");
    assert_eq!(row_text(&t, 0), "xy    ");
}

#[test]
fn reset_after_any_style_restores_theme() {
    let mut t = VirtualTerminal::new(6, 2, false);
    t.process_content("\x1B[1;3;4;91;104m\x1B[0mk");
    let c = t.cell(0, 0).unwrap();
    assert_eq!(c.fg_color, rgb(30, 30, 30));
    assert_eq!(c.bg_color, rgb(245, 245, 245));
    assert!(!c.bold && !c.italic && !c.underline);
    t.process_content("\x1B[1m\x1B[mj");
    assert!(!t.cell(0, 1).unwrap().bold);
}

#[test]
fn reset_code_inside_a_list_keeps_later_codes() {
    let mut t = VirtualTerminal::new(6, 2, true);
    t.process_content("\x1B[0;1mq");
    assert!(t.cell(0, 0).unwrap().bold);
}

#[test]
fn basic_and_bright_colors() {
    let mut t = VirtualTerminal::new(8, 2, true);
    t.process_content("\x1B[33;46ma\x1B[91;104mb");
    let a = t.cell(0, 0).unwrap();
    assert_eq!(a.fg_color, rgb(170, 85, 0));
    assert_eq!(a.bg_color, rgb(0, 170, 170));
    let b = t.cell(0, 1).unwrap();
    assert_eq!(b.fg_color, rgb(255, 85, 85));
    assert_eq!(b.bg_color, rgb(85, 85, 255));
}

#[test]
fn palette_256_colors() {
    let mut t = VirtualTerminal::new(8, 2, true);
    t.process_content("\x1B[38;5;196ma\x1B[38;5;244mb\x1B[38;5;9mc\x1B[38;5;3md\x1B[38;5;16me");
    assert_eq!(t.cell(0, 0).unwrap().fg_color, rgb(255, 0, 0));
    assert_eq!(t.cell(0, 1).unwrap().fg_color, rgb(128, 128, 128));
    assert_eq!(t.cell(0, 2).unwrap().fg_color, rgb(255, 85, 85));
    assert_eq!(t.cell(0, 3).unwrap().fg_color, rgb(170, 85, 0));
    assert_eq!(t.cell(0, 4).unwrap().fg_color, rgb(0, 0, 0));
    t.process_content("\x1B[48;5;110mf");
    assert_eq!(t.cell(0, 5).unwrap().bg_color, rgb(135, 175, 215));
}

#[test]
fn truecolor_and_truncated_sequences() {
    let mut t = VirtualTerminal::new(8, 2, true);
    t.process_content("\x1B[48;2;1;2;3ma");
    assert_eq!(t.cell(0, 0).unwrap().bg_color, rgb(1, 2, 3));
    t.process_content("\x1B[38;2;9mb");
    assert_eq!(t.cell(0, 1).unwrap().fg_color, rgb(240, 240, 240));
    t.process_content("\x1B[38;7;1mc");
    assert!(!t.cell(0, 2).unwrap().bold);
    t.process_content("\x1B[38;5mx\x1B[4;38m!");
    assert_eq!(t.cell(0, 3).unwrap().fg_color, rgb(240, 240, 240));
    assert!(t.cell(0, 4).unwrap().underline);
}

#[test]
fn cursor_moves_are_clamped() {
    let mut t = VirtualTerminal::new(5, 4, true);
    t.process_content("\x1B[100B\x1B[100C");
    assert_eq!((t.cursor_x(), t.cursor_y()), (4, 3));
    t.process_content("\x1B[2A\x1B[D");
    assert_eq!((t.cursor_x(), t.cursor_y()), (3, 1));
    t.process_content("\x1B[100A\x1B[100D");
    assert_eq!((t.cursor_x(), t.cursor_y()), (0, 0));
    t.process_content("\x1B[99999999999999999999999B");
    assert_eq!(t.cursor_y(), 1);
    t.process_content("\x1B[0B");
    assert_eq!(t.cursor_y(), 1);
}

#[test]
fn absolute_positions() {
    let mut t = VirtualTerminal::new(5, 4, true);
    t.process_content("\x1B[2;3H");
    assert_eq!((t.cursor_x(), t.cursor_y()), (2, 1));
    t.process_content("\x1B[H");
    assert_eq!((t.cursor_x(), t.cursor_y()), (0, 0));
    t.process_content("\x1B[;4f");
    assert_eq!((t.cursor_x(), t.cursor_y()), (3, 0));
    t.process_content("\x1B[9;9H");
    assert_eq!((t.cursor_x(), t.cursor_y()), (4, 3));
    t.process_content("\x1B[0;0H");
    assert_eq!((t.cursor_x(), t.cursor_y()), (0, 0));
}

#[test]
fn control_characters() {
    let mut t = VirtualTerminal::new(20, 3, true);
    t.process_content("ab\tc");
    assert_eq!(t.cell(0, 8).unwrap().character, 'c');
    t.process_content("\x08\x08Z");
    assert_eq!(t.cell(0, 7).unwrap().character, 'Z');
    t.process_content("\rY");
    assert_eq!(t.cell(0, 0).unwrap().character, 'Y');
    t.process_content("\x1B[1;19H\t");
    assert_eq!((t.cursor_x(), t.cursor_y()), (0, 1));
    t.process_content("\x08");
    assert_eq!(t.cursor_x(), 0);
}

#[test]
fn tab_on_last_row_scrolls() {
    let mut t = VirtualTerminal::new(4, 2, true);
    t.process_content("ab\ncd\t");
    assert_eq!(row_text(&t, 0), "cd  ");
    assert_eq!(row_text(&t, 1), "    ");
    assert_eq!((t.cursor_x(), t.cursor_y()), (0, 1));
}

#[test]
fn erase_in_display_modes() {
    let fill = "abc\r\ndef\r\nghi";
    let rows = |t: &VirtualTerminal| (row_text(t, 0), row_text(t, 1), row_text(t, 2));
    let mut t = VirtualTerminal::new(4, 3, true);
    t.process_content(fill);
    assert_eq!(rows(&t), ("abc ".into(), "def ".into(), "ghi ".into()));
    t.process_content("\x1B[2;2H\x1B[J");
    assert_eq!(rows(&t), ("abc ".into(), "d   ".into(), "    ".into()));

    let mut t = VirtualTerminal::new(4, 3, true);
    t.process_content(fill);
    t.process_content("\x1B[2;2H\x1B[1J");
    assert_eq!(rows(&t), ("    ".into(), "  f ".into(), "ghi ".into()));

    let mut t = VirtualTerminal::new(4, 3, true);
    t.process_content(fill);
    t.process_content("\x1B[31m\x1B[2J");
    assert_eq!(rows(&t), ("    ".into(), "    ".into(), "    ".into()));
    assert_eq!(t.cell(1, 1).unwrap().fg_color, rgb(170, 0, 0));

    let mut t = VirtualTerminal::new(4, 3, true);
    t.process_content(fill);
    t.process_content("\x1B[7J");
    assert_eq!(rows(&t), ("abc ".into(), "def ".into(), "ghi ".into()));
}

#[test]
fn erase_in_line_modes() {
    let mut t = VirtualTerminal::new(4, 2, true);
    t.process_content("abcd\x1B[1;2H\x1B[K");
    assert_eq!(row_text(&t, 0), "a   ");
    let mut t = VirtualTerminal::new(4, 2, true);
    t.process_content("abcd\x1B[1;2H\x1B[1K");
    assert_eq!(row_text(&t, 0), "  cd");
    let mut t = VirtualTerminal::new(4, 2, true);
    t.process_content("abcd\x1B[1;2H\x1B[2K");
    assert_eq!(row_text(&t, 0), "    ");
    let mut t = VirtualTerminal::new(4, 2, true);
    t.process_content("abcd\x1B[1;2H\x1B[?K");
    assert_eq!(row_text(&t, 0), "a   ");
}

#[test]
fn scroll_up_blanks_last_row_in_active_colors() {
    let mut t = VirtualTerminal::new(2, 2, true);
    t.process_content("ab\x1B[42m");
    t.scroll_up();
    assert_eq!(row_text(&t, 0), "  ");
    assert_eq!(t.cell(1, 0).unwrap().bg_color, rgb(0, 170, 0));
    assert_eq!((t.cursor_x(), t.cursor_y()), (0, 1));
}

#[test]
fn write_method_matches_process() {
    let mut t = VirtualTerminal::new(2, 2, true);
    t.write('\n');
    assert_eq!(t.cell(0, 0).unwrap().character, '\n');
    assert_eq!(t.cursor_x(), 1);
}

#[test]
fn codes_without_a_style_change_nothing() {
    let mut t = VirtualTerminal::new(8, 2, true);
    t.process_content("\x1B[1;31m\x1B[999m\x1B[22m\x1B[?m\x1B[5ma");
    let a = t.cell(0, 0).unwrap();
    assert!(a.bold);
    assert_eq!(a.fg_color, rgb(170, 0, 0));
    t.process_content("\x1B[256;4mb");
    assert!(t.cell(0, 1).unwrap().underline);
    assert!(t.cell(0, 1).unwrap().bold);
}

#[test]
fn cut_short_extended_colors_take_their_parameters_along() {
    let mut t = VirtualTerminal::new(8, 2, true);
    t.process_content("\x1B[38;2;1;4ma\x1B[48;2;1mb\x1B[38mc\x1B[48;5md");
    for x in 0..4 {
        let c = t.cell(0, x).unwrap();
        assert!(!c.bold && !c.underline);
        assert_eq!(c.fg_color, rgb(240, 240, 240));
        assert_eq!(c.bg_color, rgb(30, 30, 30));
    }
    t.process_content("\x1B[38;5;300;1me");
    let e = t.cell(0, 4).unwrap();
    assert!(e.bold);
    assert_eq!(e.fg_color, rgb(240, 240, 240));
    t.process_content("\x1B[0;38;2;1;999;3;4mf");
    let f = t.cell(0, 5).unwrap();
    assert!(f.underline);
    assert_eq!(f.fg_color, rgb(240, 240, 240));
}

#[test]
fn empty_parameter_counts_as_reset() {
    let mut t = VirtualTerminal::new(8, 2, true);
    t.process_content("\x1B[4;31m\x1B[;1ma");
    let a = t.cell(0, 0).unwrap();
    assert!(a.bold && !a.underline);
    assert_eq!(a.fg_color, rgb(240, 240, 240));
}
