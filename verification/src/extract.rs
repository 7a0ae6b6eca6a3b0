//! From the pixels of a font sheet to the glyphs of a font.

use crate::error::ConvertError;
use crate::font::{FigletFont, FontView, GLYPH_COUNT, GRID_COLUMNS, GRID_ROWS};
use crate::geometry::{cell_geometry, geometry_of, CellGeometry};
use crate::palette::Palette;
use crate::sheet::{height, luma_of, luminance, pixel_at, sheet_height, sheet_pixels, sheet_width, width};
use vstd::arithmetic::div_mod::{
    lemma_div_pos_is_pos, lemma_fundamental_div_mod, lemma_fundamental_div_mod_converse, lemma_mod_pos_bound,
    lemma_multiply_divide_lt,
};
use vstd::prelude::*;

verus! {

/// The column of the sheet that holds column `col` of glyph `glyph`.
pub open spec fn sheet_x(cell: CellGeometry, glyph: int, col: int) -> int {
    (glyph % GRID_COLUMNS as int) * cell.char_width + col
}

/// The row of the sheet that holds row `row` of glyph `glyph`.
pub open spec fn sheet_y(cell: CellGeometry, glyph: int, row: int) -> int {
    (glyph / GRID_COLUMNS as int) * cell.char_height + row
}

/// The size of the cells into which a sheet is cut: a sixteenth of its
/// width and a sixth of its height.
pub open spec fn sheet_cell(img: image::DynamicImage) -> CellGeometry {
    CellGeometry {
        char_width: (sheet_width(img) / GRID_COLUMNS) as u32,
        char_height: (sheet_height(img) / GRID_ROWS) as u32,
    }
}

/// The brightness of the pixel that belongs to the given cell of the given
/// glyph.
pub open spec fn cell_luma(img: image::DynamicImage, cell: CellGeometry, glyph: int, row: int, col: int) -> int {
    luma_of(sheet_pixels(img)[(sheet_x(cell, glyph, col), sheet_y(cell, glyph, row))])
}

/// The font that a sheet shows when it is cut into cells of the given size:
/// each cell of each glyph holds the pixel character where the sheet is
/// lit and the blank character where it is not.
pub open spec fn sampled_font(img: image::DynamicImage, cell: CellGeometry, palette: Palette) -> FontView {
    FontView {
        char_width: cell.char_width as nat,
        char_height: cell.char_height as nat,
        glyphs: Seq::new(
            GLYPH_COUNT as nat,
            |g: int|
                Seq::new(
                    cell.char_height as nat,
                    |r: int|
                        Seq::new(cell.char_width as nat, |c: int| palette.cell_of(cell_luma(img, cell, g, r, c))),
                ),
        ),
    }
}

/// The font that a sheet shows, or the reason for which it shows none.
pub open spec fn extraction(img: image::DynamicImage, palette: Palette) -> Result<FontView, ConvertError> {
    match geometry_of(sheet_width(img), sheet_height(img)) {
        Ok(cell) => Ok(sampled_font(img, cell, palette)),
        Err(error) => Err(error),
    }
}

/// True when cell (`g`, `r`, `c`) is visited before cell (`glyph`, `row`,
/// `col`): glyphs in sheet order, within a glyph row by row, within a row
/// from left to right.
spec fn visited_before(g: int, r: int, c: int, glyph: int, row: int, col: int) -> bool {
    g < glyph || (g == glyph && (r < row || (r == row && c < col)))
}

/// True when `font` has the size of `target` and shows what `target`
/// shows in every cell that is visited before (`glyph`, `row`, `col`).
spec fn sampled_up_to(font: FontView, target: FontView, glyph: int, row: int, col: int) -> bool {
    &&& font.well_formed()
    &&& font.char_width == target.char_width
    &&& font.char_height == target.char_height
    &&& forall|g: int, r: int, c: int|
        0 <= g < GLYPH_COUNT && 0 <= r < font.char_height && 0 <= c < font.char_width && visited_before(
            g,
            r,
            c,
            glyph,
            row,
            col,
        ) ==> #[trigger] font.glyphs[g][r][c] == target.glyphs[g][r][c]
}

/// Cuts the sheet into sixteen by six cells and reads each glyph from its
/// cell: a pixel of brightness zero gives the blank character, any other
/// the pixel character.
///
/// A sheet whose width is no multiple of sixteen is refused, then one whose
/// height is no multiple of six, then one without pixels. Every other sheet
/// yields a font.
pub fn extract_font(img: &image::DynamicImage, palette: Palette) -> (res: Result<FigletFont, ConvertError>)
    ensures
        match res {
            Ok(font) => extraction(*img, palette) == Ok::<FontView, ConvertError>(font@),
            Err(error) => extraction(*img, palette) == Err::<FontView, ConvertError>(error),
        },
        res is Ok <==> sheet_width(*img) % GRID_COLUMNS == 0 && sheet_height(*img) % GRID_ROWS == 0
            && sheet_width(*img) > 0 && sheet_height(*img) > 0,
        res matches Ok(font) ==> {
            &&& font@.well_formed()
            &&& font@.char_width == sheet_width(*img) / GRID_COLUMNS
            &&& font@.char_height == sheet_height(*img) / GRID_ROWS
        },
        res matches Ok(font) ==> forall|g: int, r: int, c: int|
            0 <= g < GLYPH_COUNT && 0 <= r < font@.char_height && 0 <= c < font@.char_width
                ==> #[trigger] font@.glyphs[g][r][c] == (if cell_luma(*img, sheet_cell(*img), g, r, c) == 0 {
                palette.blank
            } else {
                palette.pixel
            }),
{
    match cell_geometry(width(img), height(img)) {
        Ok(cell) => Ok(sample_font(img, cell, palette)),
        Err(error) => Err(error),
    }
}

/// Reads the font from a sheet whose cell size is known.
///
/// The font starts out blank. The cells are then visited glyph by glyph in
/// sheet order, within a glyph row by row and within a row from left to
/// right, and each is set from its pixel.
pub(crate) fn sample_font(img: &image::DynamicImage, cell: CellGeometry, palette: Palette) -> (font: FigletFont)
    requires
        geometry_of(sheet_width(*img), sheet_height(*img)) == Ok::<CellGeometry, ConvertError>(cell),
    ensures
        font@ == sampled_font(*img, cell, palette),
        font@.well_formed(),
{
    let char_width = cell.char_width;
    let char_height = cell.char_height;
    let ghost target = sampled_font(*img, cell, palette);
    let mut font = FigletFont::new(char_width, char_height, palette.blank);
    let mut glyph_y: u32 = 0;
    while glyph_y < GRID_ROWS
        invariant
            glyph_y <= GRID_ROWS,
            cell == (CellGeometry { char_width, char_height }),
            char_width * GRID_COLUMNS == sheet_width(*img),
            char_height * GRID_ROWS == sheet_height(*img),
            target == sampled_font(*img, cell, palette),
            sampled_up_to(font@, target, glyph_y * GRID_COLUMNS, 0, 0),
        decreases GRID_ROWS - glyph_y,
    {
        let mut glyph_x: u32 = 0;
        while glyph_x < GRID_COLUMNS
            invariant
                glyph_y < GRID_ROWS,
                glyph_x <= GRID_COLUMNS,
                cell == (CellGeometry { char_width, char_height }),
                char_width * GRID_COLUMNS == sheet_width(*img),
                char_height * GRID_ROWS == sheet_height(*img),
                target == sampled_font(*img, cell, palette),
                sampled_up_to(font@, target, glyph_y * GRID_COLUMNS + glyph_x, 0, 0),
            decreases GRID_COLUMNS - glyph_x,
        {
            let glyph_index = glyph_y * GRID_COLUMNS + glyph_x;
            let mut local_y: u32 = 0;
            while local_y < char_height
                invariant
                    glyph_y < GRID_ROWS,
                    glyph_x < GRID_COLUMNS,
                    glyph_index == glyph_y * GRID_COLUMNS + glyph_x,
                    local_y <= char_height,
                    cell == (CellGeometry { char_width, char_height }),
                    char_width * GRID_COLUMNS == sheet_width(*img),
                    char_height * GRID_ROWS == sheet_height(*img),
                    target == sampled_font(*img, cell, palette),
                    sampled_up_to(font@, target, glyph_index as int, local_y as int, 0),
                decreases char_height - local_y,
            {
                let mut local_x: u32 = 0;
                while local_x < char_width
                    invariant
                        glyph_y < GRID_ROWS,
                        glyph_x < GRID_COLUMNS,
                        glyph_index == glyph_y * GRID_COLUMNS + glyph_x,
                        local_y < char_height,
                        local_x <= char_width,
                        cell == (CellGeometry { char_width, char_height }),
                        char_width * GRID_COLUMNS == sheet_width(*img),
                        char_height * GRID_ROWS == sheet_height(*img),
                        target == sampled_font(*img, cell, palette),
                        sampled_up_to(font@, target, glyph_index as int, local_y as int, local_x as int),
                    decreases char_width - local_x,
                {
                    proof {
                        lemma_cell_inside_sheet(cell, glyph_index as int, local_y as int, local_x as int);
                    }
                    let x = glyph_x * char_width + local_x;
                    let y = glyph_y * char_height + local_y;
                    let brightness = luminance(pixel_at(img, x, y));
                    font.set_cell(
                        glyph_index as usize,
                        local_y as usize,
                        local_x as usize,
                        palette.cell_for(brightness),
                    );
                    local_x = local_x + 1;
                }
                local_y = local_y + 1;
            }
            glyph_x = glyph_x + 1;
        }
        glyph_y = glyph_y + 1;
    }
    assert(font@.glyphs =~= target.glyphs) by {
        assert forall|g: int| 0 <= g < GLYPH_COUNT implies font@.glyphs[g] =~= target.glyphs[g] by {
            assert forall|r: int| 0 <= r < char_height implies font@.glyphs[g][r] =~= target.glyphs[g][r] by {
                assert forall|c: int| 0 <= c < char_width implies font@.glyphs[g][r][c]
                    == target.glyphs[g][r][c] by {
                    assert(visited_before(g, r, c, GLYPH_COUNT as int, 0, 0));
                }
            }
        }
    }
    font
}

/// Every cell of every glyph lies inside a sheet of sixteen by six cells,
/// at the offsets that `sheet_x` and `sheet_y` give.
pub proof fn lemma_cell_inside_sheet(cell: CellGeometry, glyph: int, row: int, col: int)
    requires
        0 <= glyph < GLYPH_COUNT,
        0 <= row < cell.char_height,
        0 <= col < cell.char_width,
    ensures
        0 <= sheet_x(cell, glyph, col) < cell.char_width * GRID_COLUMNS,
        0 <= sheet_y(cell, glyph, row) < cell.char_height * GRID_ROWS,
        0 <= (glyph % GRID_COLUMNS as int) * cell.char_width <= sheet_x(cell, glyph, col),
        0 <= (glyph / GRID_COLUMNS as int) * cell.char_height <= sheet_y(cell, glyph, row),
{
    let gx = glyph % GRID_COLUMNS as int;
    let gy = glyph / GRID_COLUMNS as int;
    let w = cell.char_width as int;
    let h = cell.char_height as int;
    assert(0 <= gx * w <= 15 * w) by (nonlinear_arith)
        requires
            0 <= gx <= 15,
            0 <= w,
    ;
    assert(0 <= gy * h <= 5 * h) by (nonlinear_arith)
        requires
            0 <= gy <= 5,
            0 <= h,
    ;
}

/// A sheet whose width is a positive multiple of sixteen and whose height
/// is a positive multiple of six shows a font of ninety-six glyphs, each of
/// a sixth of the height in rows and a sixteenth of the width in cells.
pub proof fn lemma_extraction_shape(img: image::DynamicImage, palette: Palette)
    requires
        sheet_width(img) % GRID_COLUMNS == 0,
        sheet_height(img) % GRID_ROWS == 0,
        sheet_width(img) > 0,
        sheet_height(img) > 0,
    ensures
        extraction(img, palette) is Ok,
        ({
            let font = extraction(img, palette)->Ok_0;
            &&& font.well_formed()
            &&& font.char_width == sheet_width(img) / GRID_COLUMNS
            &&& font.char_height == sheet_height(img) / GRID_ROWS
            &&& font.glyphs.len() == 96
            &&& forall|g: int| 0 <= g < 96 ==> (#[trigger] font.glyphs[g]).len() == sheet_height(img) / GRID_ROWS
            &&& forall|g: int, r: int|
                0 <= g < 96 && 0 <= r < sheet_height(img) / GRID_ROWS ==> (#[trigger] font.glyphs[g][r]).len()
                    == sheet_width(img) / GRID_COLUMNS
        }),
{
}

/// In the font that a sheet shows, a cell holds the blank character where
/// the brightness of its pixel is zero and the pixel character where it is
/// more. It never holds anything else.
pub proof fn lemma_threshold(img: image::DynamicImage, palette: Palette, glyph: int, row: int, col: int)
    requires
        extraction(img, palette) is Ok,
        0 <= glyph < GLYPH_COUNT,
        0 <= row < extraction(img, palette)->Ok_0.char_height,
        0 <= col < extraction(img, palette)->Ok_0.char_width,
    ensures
        ({
            let luma = cell_luma(img, sheet_cell(img), glyph, row, col);
            let shown = extraction(img, palette)->Ok_0.glyphs[glyph][row][col];
            &&& 0 <= luma <= 255
            &&& luma == 0 ==> shown == palette.blank
            &&& luma > 0 ==> shown == palette.pixel
            &&& shown == palette.blank || shown == palette.pixel
        }),
{
}

/// Every pixel of a sheet belongs to a cell of a glyph: the pixel in
/// column `x` and row `y` to the glyph in cell column `x / char_width` and
/// cell row `y / char_height` of the sheet, and within it to column
/// `x % char_width` of row `y % char_height`.
pub proof fn lemma_pixel_has_a_cell(cell: CellGeometry, x: int, y: int)
    requires
        cell.char_width > 0,
        cell.char_height > 0,
        0 <= x < cell.char_width * GRID_COLUMNS,
        0 <= y < cell.char_height * GRID_ROWS,
    ensures
        ({
            let glyph = (y / cell.char_height as int) * GRID_COLUMNS + x / cell.char_width as int;
            let row = y % cell.char_height as int;
            let col = x % cell.char_width as int;
            &&& 0 <= glyph < GLYPH_COUNT
            &&& 0 <= row < cell.char_height
            &&& 0 <= col < cell.char_width
            &&& sheet_x(cell, glyph, col) == x
            &&& sheet_y(cell, glyph, row) == y
        }),
{
    let w = cell.char_width as int;
    let h = cell.char_height as int;
    lemma_div_pos_is_pos(x, w);
    lemma_div_pos_is_pos(y, h);
    lemma_multiply_divide_lt(x, w, GRID_COLUMNS as int);
    lemma_multiply_divide_lt(y, h, GRID_ROWS as int);
    lemma_mod_pos_bound(x, w);
    lemma_mod_pos_bound(y, h);
    lemma_fundamental_div_mod(x, w);
    lemma_fundamental_div_mod(y, h);
    assert((x / w) * w == w * (x / w)) by (nonlinear_arith);
    assert((y / h) * h == h * (y / h)) by (nonlinear_arith);
}

/// No pixel belongs to two cells: cells that read the same pixel are the
/// same cell of the same glyph.
pub proof fn lemma_cells_share_no_pixel(
    cell: CellGeometry,
    glyph: int,
    row: int,
    col: int,
    other_glyph: int,
    other_row: int,
    other_col: int,
)
    requires
        0 <= glyph < GLYPH_COUNT,
        0 <= row < cell.char_height,
        0 <= col < cell.char_width,
        0 <= other_glyph < GLYPH_COUNT,
        0 <= other_row < cell.char_height,
        0 <= other_col < cell.char_width,
        sheet_x(cell, glyph, col) == sheet_x(cell, other_glyph, other_col),
        sheet_y(cell, glyph, row) == sheet_y(cell, other_glyph, other_row),
    ensures
        glyph == other_glyph,
        row == other_row,
        col == other_col,
{
    let w = cell.char_width as int;
    let h = cell.char_height as int;
    let x = sheet_x(cell, glyph, col);
    let y = sheet_y(cell, glyph, row);
    lemma_fundamental_div_mod_converse(x, w, glyph % GRID_COLUMNS as int, col);
    lemma_fundamental_div_mod_converse(x, w, other_glyph % GRID_COLUMNS as int, other_col);
    lemma_fundamental_div_mod_converse(y, h, glyph / GRID_COLUMNS as int, row);
    lemma_fundamental_div_mod_converse(y, h, other_glyph / GRID_COLUMNS as int, other_row);
}

} // verus!
