//! Conversion of a bitmap font sheet into a FIGlet font definition.
//!
//! A font sheet is an image of sixteen columns and six rows of glyph
//! cells, all of one size. [`extract_font`] cuts it into its ninety-six
//! glyphs: a cell of a glyph holds the pixel character where the sheet is
//! lit and the blank character where it is dark. [`FigletFont::output`]
//! writes the glyphs as the text of a FIGlet font. [`convert`] does both.

pub mod convert;
pub mod error;
pub mod extract;
pub mod font;
pub mod geometry;
pub mod glyph;
pub mod layout;
pub mod palette;
pub mod sheet;
pub mod text;

pub use crate::convert::{build_font, convert, plan, Plan};
pub use crate::error::{CharOption, ConvertError, DimensionFault};
pub use crate::extract::extract_font;
pub use crate::font::FigletFont;
pub use crate::geometry::{cell_geometry, CellGeometry};
pub use crate::glyph::FigletGlyph;
pub use crate::palette::Palette;
