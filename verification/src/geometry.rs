//! The size of a glyph cell, derived from the size of the sheet.

use crate::error::{ConvertError, DimensionFault};
use crate::font::{GRID_COLUMNS, GRID_ROWS};
use vstd::prelude::*;

verus! {

/// Width and height of one glyph cell in pixels.
#[derive(Debug, Clone, Copy, PartialEq, Eq, Structural)]
pub struct CellGeometry {
    /// Pixels in each row of a cell.
    pub char_width: u32,
    /// Rows of pixels in a cell.
    pub char_height: u32,
}

/// The cell size of a sheet of `width` by `height` pixels, or the reason
/// for which the sheet has none. The width is judged first, then the
/// height, then whether a cell would hold any pixel at all.
pub open spec fn geometry_of(width: u32, height: u32) -> Result<CellGeometry, ConvertError> {
    if width % GRID_COLUMNS != 0 {
        Err(ConvertError::InvalidDimensions(DimensionFault::WidthNotDivisible))
    } else if height % GRID_ROWS != 0 {
        Err(ConvertError::InvalidDimensions(DimensionFault::HeightNotDivisible))
    } else if width == 0 || height == 0 {
        Err(ConvertError::InvalidDimensions(DimensionFault::TooSmall))
    } else {
        Ok(CellGeometry { char_width: width / GRID_COLUMNS, char_height: height / GRID_ROWS })
    }
}

/// Cuts a sheet of `width` by `height` pixels into sixteen columns and six
/// rows of cells.
pub fn cell_geometry(width: u32, height: u32) -> (res: Result<CellGeometry, ConvertError>)
    ensures
        res == geometry_of(width, height),
        res matches Ok(cell) ==> {
            &&& cell.char_width >= 1
            &&& cell.char_height >= 1
            &&& cell.char_width * GRID_COLUMNS == width
            &&& cell.char_height * GRID_ROWS == height
        },
{
    if width % GRID_COLUMNS != 0 {
        Err(ConvertError::InvalidDimensions(DimensionFault::WidthNotDivisible))
    } else if height % GRID_ROWS != 0 {
        Err(ConvertError::InvalidDimensions(DimensionFault::HeightNotDivisible))
    } else if width == 0 || height == 0 {
        Err(ConvertError::InvalidDimensions(DimensionFault::TooSmall))
    } else {
        Ok(CellGeometry { char_width: width / GRID_COLUMNS, char_height: height / GRID_ROWS })
    }
}

} // verus!
