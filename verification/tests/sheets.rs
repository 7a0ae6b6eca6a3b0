use image::{DynamicImage, GrayImage, ImageBuffer, Luma, LumaA, Rgb, RgbImage, Rgba, RgbaImage};
use png_to_figlet_font::convert::{build_font, convert};
use png_to_figlet_font::error::{CharOption, ConvertError, DimensionFault};
use png_to_figlet_font::extract::extract_font;
use png_to_figlet_font::palette::Palette;

const BANNER: &str = "Font automatically generated from rust crate png-to-figlet-font\n\n";

fn gray(width: u32, height: u32, value: u8) -> DynamicImage {
    DynamicImage::ImageLuma8(GrayImage::from_pixel(width, height, Luma([value])))
}

fn marks() -> Palette {
    Palette { pixel: '#', blank: '.' }
}

#[test]
fn white_sheet_of_32_by_12_gives_rows_of_two_full_blocks() {
    let img = gray(32, 12, 255);
    let font = extract_font(&img, Palette::default()).unwrap();
    assert_eq!(font.char_width(), 2);
    assert_eq!(font.char_height(), 2);
    assert_eq!(font.glyphs().len(), 96);
    for glyph in font.glyphs() {
        assert_eq!(glyph.rows(), vec!["\u{2588}\u{2588}".to_string(), "\u{2588}\u{2588}".to_string()]);
    }
    let text = font.output();
    assert_eq!(text.lines().next(), Some("flf2a$ 2 2 20 -1 2"));
    let via_options = convert(&img, "\u{2588}", " ").unwrap();
    assert_eq!(via_options, text);
}

#[test]
fn smallest_sheet_gives_glyphs_of_one_cell() {
    let img = DynamicImage::ImageLuma8(GrayImage::from_fn(16, 6, |x, y| Luma([((x + y) % 2) as u8])));
    let font = extract_font(&img, marks()).unwrap();
    assert_eq!(font.char_width(), 1);
    assert_eq!(font.char_height(), 1);
    assert_eq!(font.glyphs().len(), 96);
    for (index, glyph) in font.glyphs().iter().enumerate() {
        let x = index % 16;
        let y = index / 16;
        let expected = if (x + y) % 2 == 1 { "#" } else { "." };
        assert_eq!(glyph.rows(), vec![expected.to_string()], "glyph {}", index);
    }
}

#[test]
fn sheet_of_width_17_is_refused() {
    let img = gray(17, 6, 255);
    assert_eq!(
        extract_font(&img, marks()).err(),
        Some(ConvertError::InvalidDimensions(DimensionFault::WidthNotDivisible))
    );
    assert_eq!(
        convert(&img, "#", ".").err(),
        Some(ConvertError::InvalidDimensions(DimensionFault::WidthNotDivisible))
    );
}

#[test]
fn sheet_of_height_7_is_refused() {
    let img = gray(16, 7, 255);
    assert_eq!(
        extract_font(&img, marks()).err(),
        Some(ConvertError::InvalidDimensions(DimensionFault::HeightNotDivisible))
    );
    assert_eq!(
        convert(&img, "#", ".").err(),
        Some(ConvertError::InvalidDimensions(DimensionFault::HeightNotDivisible))
    );
}

#[test]
fn sheet_without_pixels_is_refused() {
    let img = gray(0, 0, 0);
    assert_eq!(extract_font(&img, marks()).err(), Some(ConvertError::InvalidDimensions(DimensionFault::TooSmall)));
    assert_eq!(build_font(&img, "#", ".").err(), Some(ConvertError::InvalidDimensions(DimensionFault::TooSmall)));
}

#[test]
fn size_of_the_sheet_is_judged_before_the_options() {
    let img = gray(17, 7, 255);
    assert_eq!(
        build_font(&img, "", "").err(),
        Some(ConvertError::InvalidDimensions(DimensionFault::WidthNotDivisible))
    );
}

#[test]
fn empty_options_are_refused_for_a_good_sheet() {
    let img = gray(16, 6, 255);
    assert_eq!(build_font(&img, "", ".").err(), Some(ConvertError::InvalidCharacterConfig(CharOption::Pixel)));
    assert_eq!(convert(&img, "#", "").err(), Some(ConvertError::InvalidCharacterConfig(CharOption::Blank)));
    assert_eq!(convert(&img, "", "").err(), Some(ConvertError::InvalidCharacterConfig(CharOption::Pixel)));
}

#[test]
fn black_sheet_gives_blank_glyphs() {
    let img = gray(32, 18, 0);
    let font = extract_font(&img, marks()).unwrap();
    for glyph in font.glyphs() {
        assert_eq!(glyph.output(), "..@\n..@\n..@@\n");
    }
}

#[test]
fn each_pixel_lands_in_its_own_cell() {
    // Cells of 3 by 2 pixels; one lit pixel in glyph 17, row 1, column 2.
    let img = DynamicImage::ImageLuma8(GrayImage::from_fn(48, 12, |x, y| {
        if x == 3 + 2 && y == 2 + 1 {
            Luma([200])
        } else {
            Luma([0])
        }
    }));
    let font = extract_font(&img, marks()).unwrap();
    assert_eq!(font.char_width(), 3);
    assert_eq!(font.char_height(), 2);
    for (index, glyph) in font.glyphs().iter().enumerate() {
        if index == 17 {
            assert_eq!(glyph.rows(), vec!["...".to_string(), "..#".to_string()]);
        } else {
            assert_eq!(glyph.rows(), vec!["...".to_string(), "...".to_string()], "glyph {}", index);
        }
    }
}

#[test]
fn cells_follow_the_sheet_pixel_by_pixel() {
    let lit = |x: u32, y: u32| (x * 7 + y * 13 + x * y) % 5 < 2;
    let img = DynamicImage::ImageLuma8(GrayImage::from_fn(80, 18, |x, y| Luma([if lit(x, y) { 1 } else { 0 }])));
    let font = extract_font(&img, marks()).unwrap();
    assert_eq!(font.char_width(), 5);
    assert_eq!(font.char_height(), 3);
    for (index, glyph) in font.glyphs().iter().enumerate() {
        let rows = glyph.rows();
        assert_eq!(rows.len(), 3);
        for (r, row) in rows.iter().enumerate() {
            let cells: Vec<char> = row.chars().collect();
            assert_eq!(cells.len(), 5);
            for (c, cell) in cells.iter().enumerate() {
                let x = (index % 16) * 5 + c;
                let y = (index / 16) * 3 + r;
                let expected = if lit(x as u32, y as u32) { '#' } else { '.' };
                assert_eq!(*cell, expected, "glyph {} row {} column {}", index, r, c);
            }
        }
    }
}

#[test]
fn brightness_is_the_weighted_sum_of_the_channels() {
    // One colour for each of the ninety-six glyphs, around the threshold
    // of each channel and beyond.
    let colour = |index: u32| -> [u8; 3] {
        match index {
            0 => [0, 0, 0],
            1 => [4, 0, 0],
            2 => [5, 0, 0],
            3 => [0, 1, 0],
            4 => [0, 2, 0],
            5 => [0, 0, 13],
            6 => [0, 0, 14],
            7 => [1, 1, 0],
            8 => [1, 1, 1],
            9 => [2, 0, 7],
            10 => [2, 0, 8],
            11 => [255, 255, 255],
            12 => [4, 0, 2],
            13 => [4, 0, 3],
            n => [(n * 37 % 7) as u8, (n * 11 % 3) as u8, (n * 53 % 17) as u8],
        }
    };
    let img = DynamicImage::ImageRgb8(RgbImage::from_fn(16, 6, |x, y| Rgb(colour(y * 16 + x))));
    let font = extract_font(&img, marks()).unwrap();
    let mut lit = 0;
    for (index, glyph) in font.glyphs().iter().enumerate() {
        let [r, g, b] = colour(index as u32);
        let luma = (2126 * r as u32 + 7152 * g as u32 + 722 * b as u32) / 10000;
        let expected = if luma != 0 { "#" } else { "." };
        assert_eq!(glyph.rows(), vec![expected.to_string()], "glyph {} colour {:?}", index, [r, g, b]);
        if luma != 0 {
            lit += 1;
        }
    }
    assert!(lit > 10 && lit < 90);
}

#[test]
fn alpha_plays_no_part() {
    let img = DynamicImage::ImageRgba8(RgbaImage::from_fn(16, 6, |x, _| {
        if x % 2 == 0 {
            Rgba([255, 255, 255, 0])
        } else {
            Rgba([0, 0, 0, 255])
        }
    }));
    let font = extract_font(&img, marks()).unwrap();
    for (index, glyph) in font.glyphs().iter().enumerate() {
        let expected = if index % 2 == 0 { "#" } else { "." };
        assert_eq!(glyph.rows(), vec![expected.to_string()]);
    }
}

#[test]
fn sheets_of_other_sample_types_are_read_too() {
    let deep: ImageBuffer<Luma<u16>, Vec<u16>> =
        ImageBuffer::from_fn(16, 6, |x, _| if x < 8 { Luma([65535]) } else { Luma([0]) });
    let font = extract_font(&DynamicImage::ImageLuma16(deep), marks()).unwrap();
    for (index, glyph) in font.glyphs().iter().enumerate() {
        let expected = if index % 16 < 8 { "#" } else { "." };
        assert_eq!(glyph.rows(), vec![expected.to_string()]);
    }
    let with_alpha: ImageBuffer<LumaA<u8>, Vec<u8>> =
        ImageBuffer::from_fn(16, 6, |_, y| if y < 3 { LumaA([9, 255]) } else { LumaA([0, 255]) });
    let font = extract_font(&DynamicImage::ImageLumaA8(with_alpha), marks()).unwrap();
    for (index, glyph) in font.glyphs().iter().enumerate() {
        let expected = if index / 16 < 3 { "#" } else { "." };
        assert_eq!(glyph.rows(), vec![expected.to_string()]);
    }
}

#[test]
fn converting_twice_gives_the_same_text() {
    let img = DynamicImage::ImageLuma8(GrayImage::from_fn(64, 24, |x, y| Luma([((x * y) % 3) as u8])));
    let first = convert(&img, "#", ".").unwrap();
    let second = convert(&img, "#", ".").unwrap();
    assert_eq!(first, second);
    assert_eq!(first.as_bytes(), second.as_bytes());
}

#[test]
fn only_the_two_palette_characters_fill_the_cells() {
    let img = DynamicImage::ImageLuma8(GrayImage::from_fn(32, 12, |x, y| Luma([(x * 8 + y) as u8])));
    let font = extract_font(&img, marks()).unwrap();
    for glyph in font.glyphs() {
        for row in glyph.rows() {
            assert!(row.chars().all(|cell| cell == '#' || cell == '.'));
        }
    }
}

#[test]
fn converted_text_is_header_banner_and_blocks() {
    let img = DynamicImage::ImageLuma8(GrayImage::from_fn(32, 12, |x, y| {
        Luma([if x / 2 == 1 && y / 2 == 0 { 255 } else if x == 0 && y == 1 { 255 } else { 0 }])
    }));
    let text = convert(&img, "#x", ". ").unwrap();
    let body = text.strip_prefix(&format!("flf2a$ 2 2 20 -1 2\n{}", BANNER)).unwrap();
    let blocks: Vec<&str> = body.split_inclusive("@@\n").collect();
    assert_eq!(blocks.len(), 102);
    assert_eq!(blocks[0], "..@\n#.@@\n");
    assert_eq!(blocks[1], "##@\n##@@\n");
    for k in 2..96 {
        assert_eq!(blocks[k], "..@\n..@@\n");
    }
    for k in 96..102 {
        assert_eq!(blocks[k], "..@\n#.@@\n");
    }
    for line in body.lines() {
        assert!(line.ends_with('@'));
        assert!(line.len() == 3 || line.len() == 4);
    }
    assert_eq!(body.lines().count(), 204);
    assert_eq!(body.lines().filter(|line| line.ends_with("@@")).count(), 102);
}

#[test]
fn build_font_agrees_with_extract_font() {
    let img = DynamicImage::ImageLuma8(GrayImage::from_fn(16, 12, |x, y| Luma([((x + 2 * y) % 4) as u8])));
    let built = build_font(&img, "ab", "cd").unwrap();
    let extracted = extract_font(&img, Palette { pixel: 'a', blank: 'c' }).unwrap();
    assert_eq!(built.output(), extracted.output());
    assert_eq!(built.char_width(), 1);
    assert_eq!(built.char_height(), 2);
}
