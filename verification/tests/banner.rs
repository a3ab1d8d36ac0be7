use d1v_cli::banner::{compose, glyph_row, is_shadow, shades, width, BannerLayout, Shade};

#[test]
fn banner_rows_join_glyphs() {
    let rows = compose(&BannerLayout::new());
    assert_eq!(rows.len(), 6);
    assert_eq!(
        rows[0],
        ["██████╗ ", " ██╗", "██╗   ██╗"].join(" ") + "     " + &[" ██████╗", "██╗     ", "██╗"].join(" ")
    );
    assert_eq!(
        rows[5],
        ["╚═════╝ ", " ╚═╝", "  ╚═══╝  "].join(" ") + "     " + &[" ╚═════╝", "╚══════╝", "╚═╝"].join(" ")
    );
    assert_eq!(glyph_row(2, 3), "╚██╗ ██╔╝");
}

#[test]
fn banner_layout_spacing_is_used() {
    let mut layout = BannerLayout::new();
    layout.letter_spacing = String::new();
    layout.word_spacing = "|".to_string();
    let rows = compose(&layout);
    assert_eq!(rows[1], "██╔══██╗███║██║   ██║|██╔════╝██║     ██║");
}

#[test]
fn banner_width_is_longest_row() {
    let rows = compose(&BannerLayout::new());
    let expected = rows.iter().map(|r| r.chars().count()).max().unwrap();
    assert_eq!(width(&rows), expected);
    assert_eq!(width(&vec![]), 1);
    assert_eq!(width(&vec!["ab".to_string(), "abcd".to_string(), "".to_string()]), 4);
}

#[test]
fn banner_cells_shaded() {
    assert!(is_shadow('╗'));
    assert!(!is_shadow('█'));
    assert_eq!(shades("█╗ "), vec![Shade::Face, Shade::Shadow, Shade::Blank]);
    assert!(shades("").is_empty());
}
