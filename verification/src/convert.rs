//! The whole way from a font sheet to the text of a FIGlet font.

use crate::error::ConvertError;
use crate::extract::{lemma_cell_inside_sheet, sample_font, sampled_font, sheet_x, sheet_y};
use crate::font::{font_text, FigletFont, FontView, GLYPH_COUNT, GRID_COLUMNS, GRID_ROWS};
use crate::geometry::{cell_geometry, geometry_of, CellGeometry};
use crate::palette::{palette_of, Palette};
use crate::sheet::{height, sheet_height, sheet_pixels, sheet_width, width};
use vstd::prelude::*;

verus! {

/// What is settled before any pixel is read: the size of a glyph cell and
/// the two characters to draw with.
#[derive(Debug, Clone, Copy, PartialEq, Eq, Structural)]
pub struct Plan {
    /// Width and height of one glyph cell.
    pub cell: CellGeometry,
    /// The characters for lit and unlit cells.
    pub palette: Palette,
}

/// The plan for a sheet of `width` by `height` pixels and the values of the
/// two character options, or the reason for which there is none. The size
/// of the sheet is judged before the options, the pixel option before the
/// blank option.
pub open spec fn plan_of(width: u32, height: u32, pixel: Seq<char>, blank: Seq<char>) -> Result<
    Plan,
    ConvertError,
> {
    match geometry_of(width, height) {
        Err(error) => Err(error),
        Ok(cell) => match palette_of(pixel, blank) {
            Err(error) => Err(error),
            Ok(palette) => Ok(Plan { cell, palette }),
        },
    }
}

/// The font that a sheet and the values of the two character options give,
/// or the reason for which they give none.
pub open spec fn conversion_font(img: image::DynamicImage, pixel: Seq<char>, blank: Seq<char>) -> Result<
    FontView,
    ConvertError,
> {
    match plan_of(sheet_width(img), sheet_height(img), pixel, blank) {
        Err(error) => Err(error),
        Ok(plan) => Ok(sampled_font(img, plan.cell, plan.palette)),
    }
}

/// The text of the font that a sheet and the two option values give, or
/// the reason for which they give none.
pub open spec fn conversion(img: image::DynamicImage, pixel: Seq<char>, blank: Seq<char>) -> Result<
    Seq<char>,
    ConvertError,
> {
    match conversion_font(img, pixel, blank) {
        Err(error) => Err(error),
        Ok(font) => Ok(font_text(font)),
    }
}

/// Judges the size of a sheet and the values of the two character options.
///
/// Succeeds exactly when the width is a positive multiple of sixteen, the
/// height a positive multiple of six, and neither value is empty.
pub fn plan(width: u32, height: u32, pixel: &str, blank: &str) -> (res: Result<Plan, ConvertError>)
    ensures
        res == plan_of(width, height, pixel@, blank@),
        res is Ok <==> width % GRID_COLUMNS == 0 && height % GRID_ROWS == 0 && width > 0 && height > 0
            && pixel@.len() > 0 && blank@.len() > 0,
{
    let cell = match cell_geometry(width, height) {
        Ok(cell) => cell,
        Err(error) => {
            return Err(error);
        },
    };
    let palette = match Palette::from_options(pixel, blank) {
        Ok(palette) => palette,
        Err(error) => {
            return Err(error);
        },
    };
    Ok(Plan { cell, palette })
}

/// Reads the font from a sheet, drawn with the first character of `pixel`
/// where the sheet is lit and the first character of `blank` where it is
/// not.
pub fn build_font(img: &image::DynamicImage, pixel: &str, blank: &str) -> (res: Result<FigletFont, ConvertError>)
    ensures
        match res {
            Ok(font) => conversion_font(*img, pixel@, blank@) == Ok::<FontView, ConvertError>(font@),
            Err(error) => conversion_font(*img, pixel@, blank@) == Err::<FontView, ConvertError>(error),
        },
        res is Ok <==> plan_of(sheet_width(*img), sheet_height(*img), pixel@, blank@) is Ok,
        res matches Ok(font) ==> font@.well_formed(),
{
    match plan(width(img), height(img), pixel, blank) {
        Ok(plan) => Ok(sample_font(img, plan.cell, plan.palette)),
        Err(error) => Err(error),
    }
}

/// Converts a sheet into the text of a FIGlet font.
pub fn convert(img: &image::DynamicImage, pixel: &str, blank: &str) -> (res: Result<String, ConvertError>)
    ensures
        match res {
            Ok(text) => conversion(*img, pixel@, blank@) == Ok::<Seq<char>, ConvertError>(text@),
            Err(error) => conversion(*img, pixel@, blank@) == Err::<Seq<char>, ConvertError>(error),
        },
        res is Ok <==> plan_of(sheet_width(*img), sheet_height(*img), pixel@, blank@) is Ok,
{
    match build_font(img, pixel, blank) {
        Ok(font) => Ok(font.output()),
        Err(error) => Err(error),
    }
}

/// The outcome of a conversion depends on the sheet only through its size
/// and the pixels inside its bounds. Two sheets that agree in these give
/// the same text or the same error under the same options; in particular,
/// converting one sheet twice gives the same text both times.
pub proof fn lemma_conversion_repeatable(
    first: image::DynamicImage,
    second: image::DynamicImage,
    pixel: Seq<char>,
    blank: Seq<char>,
)
    requires
        sheet_width(first) == sheet_width(second),
        sheet_height(first) == sheet_height(second),
        forall|x: int, y: int|
            0 <= x < sheet_width(first) && 0 <= y < sheet_height(first) ==> #[trigger] sheet_pixels(first)[(x, y)]
                == sheet_pixels(second)[(x, y)],
    ensures
        conversion_font(first, pixel, blank) == conversion_font(second, pixel, blank),
        conversion(first, pixel, blank) == conversion(second, pixel, blank),
{
    if let Ok(plan) = plan_of(sheet_width(first), sheet_height(first), pixel, blank) {
        let cell = plan.cell;
        let a = sampled_font(first, cell, plan.palette);
        let b = sampled_font(second, cell, plan.palette);
        assert forall|g: int| 0 <= g < GLYPH_COUNT implies a.glyphs[g] =~= b.glyphs[g] by {
            assert forall|r: int| 0 <= r < cell.char_height implies a.glyphs[g][r] =~= b.glyphs[g][r] by {
                assert forall|c: int| 0 <= c < cell.char_width implies a.glyphs[g][r][c] == b.glyphs[g][r][c] by {
                    lemma_cell_inside_sheet(cell, g, r, c);
                    let x = sheet_x(cell, g, c);
                    let y = sheet_y(cell, g, r);
                    assert(sheet_pixels(first)[(x, y)] == sheet_pixels(second)[(x, y)]);
                }
            }
        }
        assert(a.glyphs =~= b.glyphs);
    }
}

} // verus!
