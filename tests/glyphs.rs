use term_recorder::glyphs::{create_character_bitmaps, lookup_glyph, scale_bitmap, FALLBACK_GLYPH};

#[test]
fn table_covers_printable_ascii_and_fallback() {
    let table = create_character_bitmaps();
    assert_eq!(table.len(), 96);
    for code in 0x20u32..=0x7e {
        let g = &table[&code];
        assert_eq!(g.len(), 7);
        assert!(g.iter().all(|row| !row.is_empty() && row.len() <= 5 && row.len() == g[0].len()));
    }
    assert!(table.contains_key(&(FALLBACK_GLYPH as u32)));
}

#[test]
fn exclamation_mark_glyph() {
    let g = lookup_glyph('!');
    let expected: Vec<Vec<bool>> = vec![
        vec![true],
        vec![true],
        vec![true],
        vec![true],
        vec![true],
        vec![false],
        vec![true],
    ];
    assert_eq!(g, expected);
}

#[test]
fn unknown_characters_get_the_box() {
    let boxed = lookup_glyph(FALLBACK_GLYPH);
    assert_eq!(lookup_glyph('é'), boxed);
    assert_eq!(lookup_glyph('\u{1F600}'), boxed);
    assert_eq!(boxed[0], vec![true; 5]);
    assert_eq!(boxed[1], vec![true, false, false, false, true]);
    assert_eq!(boxed[2], vec![true, false, true, false, true]);
}

#[test]
fn table_matches_lookup() {
    let table = create_character_bitmaps();
    for c in ['A', 'z', '~', ' ', '#'] {
        assert_eq!(table[&(c as u32)], lookup_glyph(c));
    }
}

#[test]
fn scale_by_one_or_zero_is_identity() {
    let g = lookup_glyph('%');
    assert_eq!(scale_bitmap(&g, 1), g);
    assert_eq!(scale_bitmap(&g, 0), g);
}

#[test]
fn scale_by_three() {
    let g = vec![vec![true, false], vec![false, true]];
    let s = scale_bitmap(&g, 3);
    assert_eq!(s.len(), 6);
    for (y, row) in s.iter().enumerate() {
        assert_eq!(row.len(), 6);
        for (x, &p) in row.iter().enumerate() {
            assert_eq!(p, g[y / 3][x / 3]);
        }
    }
}

#[test]
fn scale_real_glyph_by_two() {
    let g = lookup_glyph('M');
    let s = scale_bitmap(&g, 2);
    assert_eq!(s.len(), 14);
    assert_eq!(s[0].len(), 10);
    assert_eq!(s[13][9], g[6][4]);
    assert_eq!(s[4][5], g[2][2]);
}
