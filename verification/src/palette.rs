//! The two characters that a font is drawn with.

use crate::error::{CharOption, ConvertError};
use vstd::prelude::*;

verus! {

/// The character for lit cells unless another is asked for: a full block.
pub const DEFAULT_PIXEL: char = '\u{2588}';

/// The character for unlit cells unless another is asked for: a space.
pub const DEFAULT_BLANK: char = ' ';

/// The character for lit cells and the character for unlit cells.
#[derive(Debug, Clone, Copy, PartialEq, Eq, Structural)]
pub struct Palette {
    /// Stands for a pixel that is lit.
    pub pixel: char,
    /// Stands for a pixel that is not.
    pub blank: char,
}

/// The first character of an option's value, if it has one.
pub open spec fn first_of(value: Seq<char>) -> Option<char> {
    if value.len() > 0 {
        Some(value[0])
    } else {
        None
    }
}

/// The palette that two option values ask for: the first character of
/// each. An empty value for the pixel is reported before one for the blank.
pub open spec fn palette_of(pixel: Seq<char>, blank: Seq<char>) -> Result<Palette, ConvertError> {
    if pixel.len() == 0 {
        Err(ConvertError::InvalidCharacterConfig(CharOption::Pixel))
    } else if blank.len() == 0 {
        Err(ConvertError::InvalidCharacterConfig(CharOption::Blank))
    } else {
        Ok(Palette { pixel: pixel[0], blank: blank[0] })
    }
}

impl Palette {
    /// The character for a cell whose pixel has the given brightness: the
    /// pixel character unless the brightness is zero.
    pub open spec fn cell_of(self, luminance: int) -> char {
        if luminance != 0 {
            self.pixel
        } else {
            self.blank
        }
    }

    /// The character for a cell whose pixel has the given brightness.
    pub fn cell_for(&self, luminance: u8) -> (c: char)
        ensures
            c == self.cell_of(luminance as int),
    {
        if luminance != 0 {
            self.pixel
        } else {
            self.blank
        }
    }

    /// Reads the palette from the values of the two options. Of each value
    /// only the first character counts.
    pub fn from_options(pixel: &str, blank: &str) -> (res: Result<Palette, ConvertError>)
        ensures
            res == palette_of(pixel@, blank@),
    {
        match first_char(pixel) {
            None => Err(ConvertError::InvalidCharacterConfig(CharOption::Pixel)),
            Some(pixel_char) => match first_char(blank) {
                None => Err(ConvertError::InvalidCharacterConfig(CharOption::Blank)),
                Some(blank_char) => Ok(Palette { pixel: pixel_char, blank: blank_char }),
            },
        }
    }
}

impl Default for Palette {
    /// A full block for lit cells and a space for unlit ones.
    fn default() -> (palette: Palette)
        ensures
            palette == (Palette { pixel: DEFAULT_PIXEL, blank: DEFAULT_BLANK }),
    {
        Palette { pixel: DEFAULT_PIXEL, blank: DEFAULT_BLANK }
    }
}

/// The first character of `value`, if it has one.
pub fn first_char(value: &str) -> (first: Option<char>)
    ensures
        first == first_of(value@),
{
    let mut chars = value.chars();
    chars.next()
}

} // verus!
