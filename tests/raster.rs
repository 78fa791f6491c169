use term_recorder::terminal::VirtualTerminal;

fn pixel(buf: &[u8], width: usize, x: usize, y: usize) -> (u8, u8, u8) {
    let i = 3 * (y * width + x);
    (buf[i], buf[i + 1], buf[i + 2])
}

#[test]
fn blank_grid_is_background() {
    let t = VirtualTerminal::new(2, 1, true);
    let buf = t.render_pixels(4);
    assert_eq!(buf.len(), 2 * 4 * 8 * 3);
    assert!(buf.chunks(3).all(|p| p == [30, 30, 30]));
}

#[test]
fn glyph_is_centered_and_scaled() {
    let mut t = VirtualTerminal::new(1, 2, true);
    t.process_content("!");
    // Font size 16: cell 16 x 32, scale 2, '!' is 2 x 14 once scaled.
    let buf = t.render_pixels(16);
    let w = 16;
    let fg = (240, 240, 240);
    let bg = (30, 30, 30);
    // Horizontal offset (16 - 2) / 2 = 7, vertical (32 - 14) / 2 = 9.
    assert_eq!(pixel(&buf, w, 7, 9), fg);
    assert_eq!(pixel(&buf, w, 8, 9), fg);
    assert_eq!(pixel(&buf, w, 6, 9), bg);
    assert_eq!(pixel(&buf, w, 9, 9), bg);
    assert_eq!(pixel(&buf, w, 7, 8), bg);
    // Row 5 of the glyph (pixel rows 19 and 20) is empty, row 6 is set.
    assert_eq!(pixel(&buf, w, 7, 19), bg);
    assert_eq!(pixel(&buf, w, 7, 20), bg);
    assert_eq!(pixel(&buf, w, 7, 21), fg);
    assert_eq!(pixel(&buf, w, 8, 22), fg);
    assert_eq!(pixel(&buf, w, 7, 23), bg);
    let lit = buf.chunks(3).filter(|p| *p == [240, 240, 240]).count();
    assert_eq!(lit, 6 * 4);
}

#[test]
fn scale_factor_rounds_font_size_over_eight() {
    let mut t = VirtualTerminal::new(1, 2, true);
    t.process_content("|");
    // '|' is a single column 3 wide: 0 1 0 on every row.
    // Font size 12 rounds to scale 2: 14 lit rows of 2 pixels.
    let buf = t.render_pixels(12);
    let lit = buf.chunks(3).filter(|p| *p == [240, 240, 240]).count();
    assert_eq!(lit, 7 * 2 * 2);
    // Font size 11 rounds to scale 1.
    let buf = t.render_pixels(11);
    let lit = buf.chunks(3).filter(|p| *p == [240, 240, 240]).count();
    assert_eq!(lit, 7);
}

#[test]
fn underline_row_near_bottom() {
    let mut t = VirtualTerminal::new(2, 2, true);
    t.process_content("\x1B[4;31m \x1B[0m ");
    let buf = t.render_pixels(8);
    let w = 16;
    for x in 0..8 {
        assert_eq!(pixel(&buf, w, x, 14), (170, 0, 0));
        assert_eq!(pixel(&buf, w, x, 15), (30, 30, 30));
        assert_eq!(pixel(&buf, w, x, 13), (30, 30, 30));
    }
    for x in 8..16 {
        assert_eq!(pixel(&buf, w, x, 14), (30, 30, 30));
    }
}

#[test]
fn unknown_character_draws_the_box() {
    let mut t = VirtualTerminal::new(1, 2, false);
    t.process_content("\u{263A}");
    let buf = t.render_pixels(8);
    // Font size 8: scale 1, box 5 x 7 at offset (1, 4).
    let fg = (30, 30, 30);
    let bg = (245, 245, 245);
    assert_eq!(pixel(&buf, 8, 1, 4), fg);
    assert_eq!(pixel(&buf, 8, 5, 4), fg);
    assert_eq!(pixel(&buf, 8, 2, 5), bg);
    assert_eq!(pixel(&buf, 8, 3, 6), fg);
    assert_eq!(pixel(&buf, 8, 0, 4), bg);
}

#[test]
fn tiny_font_clips_glyph_to_cell() {
    let mut t = VirtualTerminal::new(2, 1, true);
    t.process_content("M");
    let buf = t.render_pixels(2);
    assert_eq!(buf.len(), 4 * 4 * 3);
    // The second cell is untouched by the first cell's glyph.
    for y in 0..4 {
        for x in 2..4 {
            assert_eq!(pixel(&buf, 4, x, y), (30, 30, 30));
        }
    }
}

#[test]
fn image_holds_the_rendered_samples() {
    let mut t = VirtualTerminal::new(3, 2, true);
    t.process_content("\x1B[32mok\n\x1B[4m#");
    let img = t.render_to_image(6);
    let buf = t.render_pixels(6);
    assert_eq!(img.buffer.as_raw(), &buf);
    assert_eq!(img.buffer.dimensions(), (18, 24));
    assert_eq!(buf.len(), 18 * 24 * 3);
    assert!(buf.chunks(3).any(|p| p == [0, 170, 0]));
}

#[test]
fn color_as_image_pixel() {
    let p = term_recorder::colors::TermColor { r: 1, g: 2, b: 3 }.to_rgb();
    assert_eq!(p.0, [1, 2, 3]);
}
