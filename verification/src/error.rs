//! Why a conversion is refused.

use vstd::prelude::*;

verus! {

/// What is wrong with the size of a font sheet.
#[derive(Debug, Clone, Copy, PartialEq, Eq, Structural)]
pub enum DimensionFault {
    /// The width is not a multiple of sixteen.
    WidthNotDivisible,
    /// The height is not a multiple of six.
    HeightNotDivisible,
    /// The sheet has no pixels, so a glyph cell would have none either.
    TooSmall,
}

/// One of the two characters that a font is drawn with.
#[derive(Debug, Clone, Copy, PartialEq, Eq, Structural)]
pub enum CharOption {
    /// The character for lit cells.
    Pixel,
    /// The character for unlit cells.
    Blank,
}

/// The reasons for which no font is produced.
#[derive(Debug, Clone, Copy, PartialEq, Eq, Structural)]
pub enum ConvertError {
    /// The sheet cannot be cut into sixteen by six cells.
    InvalidDimensions(DimensionFault),
    /// No character was given for the named option.
    InvalidCharacterConfig(CharOption),
}

/// The sentence that reports an error to the user.
pub open spec fn message_of(error: ConvertError) -> Seq<char> {
    match error {
        ConvertError::InvalidDimensions(DimensionFault::WidthNotDivisible) => {
            "Font file is not a width divisible by 16."@
        },
        ConvertError::InvalidDimensions(DimensionFault::HeightNotDivisible) => {
            "Font file is not a height divisible by 6."@
        },
        ConvertError::InvalidDimensions(DimensionFault::TooSmall) => {
            "Font file is smaller than 16 by 6 pixels."@
        },
        ConvertError::InvalidCharacterConfig(CharOption::Pixel) => "Could not use the provided pixel."@,
        ConvertError::InvalidCharacterConfig(CharOption::Blank) => "Could not use the provided blank."@,
    }
}

impl ConvertError {
    /// The sentence that reports this error to the user.
    pub fn message(&self) -> (text: String)
        ensures
            text@ == message_of(*self),
    {
        let sentence = match self {
            ConvertError::InvalidDimensions(DimensionFault::WidthNotDivisible) => {
                "Font file is not a width divisible by 16."
            },
            ConvertError::InvalidDimensions(DimensionFault::HeightNotDivisible) => {
                "Font file is not a height divisible by 6."
            },
            ConvertError::InvalidDimensions(DimensionFault::TooSmall) => {
                "Font file is smaller than 16 by 6 pixels."
            },
            ConvertError::InvalidCharacterConfig(CharOption::Pixel) => "Could not use the provided pixel.",
            ConvertError::InvalidCharacterConfig(CharOption::Blank) => "Could not use the provided blank.",
        };
        sentence.to_owned()
    }
}

} // verus!
