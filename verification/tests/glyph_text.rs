use png_to_figlet_font::font::FigletFont;
use png_to_figlet_font::glyph::FigletGlyph;

const BANNER: &str = "Font automatically generated from rust crate png-to-figlet-font\n\n";

#[test]
fn blank_glyph_has_the_asked_size() {
    let glyph = FigletGlyph::new(3, 2, '.');
    assert_eq!(glyph.rows(), vec!["...".to_string(), "...".to_string()]);
}

#[test]
fn glyph_rows_end_with_one_sentinel_and_the_last_with_two() {
    let glyph = FigletGlyph::new(2, 3, ' ');
    assert_eq!(glyph.output(), "  @\n  @\n  @@\n");
}

#[test]
fn glyph_of_one_row_ends_with_two_sentinels() {
    let glyph = FigletGlyph::new(1, 1, '#');
    assert_eq!(glyph.output(), "#@@\n");
}

#[test]
fn glyph_without_rows_is_written_as_nothing() {
    let glyph = FigletGlyph::new(4, 0, ' ');
    assert_eq!(glyph.output(), "");
    assert!(glyph.rows().is_empty());
}

#[test]
fn glyph_of_width_zero_keeps_its_sentinels() {
    let glyph = FigletGlyph::new(0, 2, ' ');
    assert_eq!(glyph.output(), "@\n@@\n");
}

#[test]
fn set_cell_changes_one_cell_only() {
    let mut glyph = FigletGlyph::new(3, 2, ' ');
    glyph.set_cell(1, 2, 'x');
    glyph.set_cell(0, 0, 'y');
    assert_eq!(glyph.rows(), vec!["y  ".to_string(), "  x".to_string()]);
    assert_eq!(glyph.output(), "y  @\n  x@@\n");
}

#[test]
fn set_cell_overwrites_an_earlier_value() {
    let mut glyph = FigletGlyph::new(2, 1, ' ');
    glyph.set_cell(0, 1, 'a');
    glyph.set_cell(0, 1, 'b');
    assert_eq!(glyph.output(), " b@@\n");
}

#[test]
fn cloned_glyph_is_independent() {
    let mut glyph = FigletGlyph::new(2, 2, '-');
    let copy = glyph.clone();
    glyph.set_cell(0, 0, '+');
    assert_eq!(copy.output(), "--@\n--@@\n");
    assert_eq!(glyph.output(), "+-@\n--@@\n");
}

#[test]
fn glyph_holds_characters_beyond_ascii() {
    let glyph = FigletGlyph::new(2, 1, '\u{2588}');
    assert_eq!(glyph.output(), "\u{2588}\u{2588}@@\n");
}

#[test]
fn blank_font_has_ninety_six_glyphs() {
    let font = FigletFont::new(2, 3, ' ');
    assert_eq!(font.char_width(), 2);
    assert_eq!(font.char_height(), 3);
    assert_eq!(font.glyphs().len(), 96);
    for glyph in font.glyphs() {
        assert_eq!(glyph.output(), "  @\n  @\n  @@\n");
    }
}

#[test]
fn font_text_starts_with_header_and_banner() {
    let font = FigletFont::new(1, 1, ' ');
    let text = font.output();
    let head = format!("flf2a$ 1 1 20 -1 2\n{}", BANNER);
    assert!(text.starts_with(&head));
}

#[test]
fn font_text_has_one_hundred_and_two_blocks() {
    let font = FigletFont::new(1, 1, '.');
    let mut expected = format!("flf2a$ 1 1 20 -1 2\n{}", BANNER);
    for _ in 0..102 {
        expected.push_str(".@@\n");
    }
    assert_eq!(font.output(), expected);
}

#[test]
fn header_writes_the_height_in_decimal() {
    for height in [0u32, 7, 9, 10, 12, 99, 100, 101, 260] {
        let font = FigletFont::new(0, height, ' ');
        let head = format!("flf2a$ {} {} 20 -1 2\n{}", height, height, BANNER);
        assert!(font.output().starts_with(&head), "height {}", height);
    }
}

#[test]
fn header_does_not_depend_on_the_width() {
    let font = FigletFont::new(5, 2, ' ');
    assert!(font.output().starts_with("flf2a$ 2 2 20 -1 2\n"));
}

#[test]
fn padding_blocks_repeat_the_first_glyph() {
    let mut font = FigletFont::new(2, 2, ' ');
    font.set_cell(0, 0, 1, 'a');
    font.set_cell(1, 1, 0, 'b');
    font.set_cell(95, 0, 0, 'z');
    let text = font.output();
    let body = text.strip_prefix(&format!("flf2a$ 2 2 20 -1 2\n{}", BANNER)).unwrap();
    let blocks: Vec<&str> = body.split_inclusive("@@\n").collect();
    assert_eq!(blocks.len(), 102);
    assert_eq!(blocks[0], " a@\n  @@\n");
    assert_eq!(blocks[1], "  @\nb @@\n");
    assert_eq!(blocks[2], "  @\n  @@\n");
    assert_eq!(blocks[95], "z @\n  @@\n");
    for k in 96..102 {
        assert_eq!(blocks[k], blocks[0]);
    }
}

#[test]
fn font_of_height_zero_is_header_and_banner_only() {
    let font = FigletFont::new(3, 0, ' ');
    assert_eq!(font.output(), format!("flf2a$ 0 0 20 -1 2\n{}", BANNER));
}

#[test]
fn cloned_font_is_independent() {
    let mut font = FigletFont::new(1, 1, '.');
    let copy = font.clone();
    font.set_cell(7, 0, 0, '#');
    assert_eq!(copy.glyphs()[7].output(), ".@@\n");
    assert_eq!(font.glyphs()[7].output(), "#@@\n");
    assert_eq!(copy.char_width(), 1);
    assert_eq!(copy.char_height(), 1);
}
