//! The font sheet: a decoded image, read through the `image` crate.
//!
//! Nothing in this file is proved. It declares the image type and states
//! what the library relies on when it asks an image for its size and for
//! its pixels.

use vstd::prelude::*;

verus! {

/// `image::DynamicImage`, a decoded image. Its inside is not looked at.
#[verifier::external_type_specification]
#[verifier::external_body]
pub struct ExDynamicImage(image::DynamicImage);

/// The width of an image in pixels, as `DynamicImage::width` reports it.
pub uninterp spec fn sheet_width(img: image::DynamicImage) -> u32;

/// The height of an image in pixels, as `DynamicImage::height` reports it.
pub uninterp spec fn sheet_height(img: image::DynamicImage) -> u32;

/// The pixels of an image: for each coordinate `(x, y)` inside its bounds
/// the red, green, blue and alpha samples that `get_pixel` hands out there.
pub uninterp spec fn sheet_pixels(img: image::DynamicImage) -> Map<(int, int), (u8, u8, u8, u8)>;

/// The brightness of a colour on the scale 0 to 255: the weighted sum of
/// red, green and blue with the weights 0.2126, 0.7152 and 0.0722, rounded
/// down.
pub open spec fn luma_of(p: (u8, u8, u8, u8)) -> int {
    (2126 * p.0 + 7152 * p.1 + 722 * p.2) / 10000
}

/// The width of `img`.
///
/// Calls `DynamicImage::width`. The result is given the name `sheet_width`;
/// nothing else is claimed of it.
#[verifier::external_body]
pub(crate) fn width(img: &image::DynamicImage) -> (w: u32)
    ensures
        w == sheet_width(*img),
{
    img.width()
}

/// The height of `img`.
///
/// Calls `DynamicImage::height`. The result is given the name
/// `sheet_height`; nothing else is claimed of it.
#[verifier::external_body]
pub(crate) fn height(img: &image::DynamicImage) -> (h: u32)
    ensures
        h == sheet_height(*img),
{
    img.height()
}

/// The pixel of `img` at column `x` and row `y`, as red, green, blue and
/// alpha.
///
/// Calls `GenericImageView::get_pixel` on a `DynamicImage`, which converts
/// the stored sample to 8-bit RGBA and panics outside the image's bounds:
/// hence the precondition. The result is given the name `sheet_pixels`.
#[verifier::external_body]
pub(crate) fn pixel_at(img: &image::DynamicImage, x: u32, y: u32) -> (p: (u8, u8, u8, u8))
    requires
        x < sheet_width(*img),
        y < sheet_height(*img),
    ensures
        p == sheet_pixels(*img)[(x as int, y as int)],
{
    let rgba = image::GenericImageView::get_pixel(img, x, y);
    (rgba.0[0], rgba.0[1], rgba.0[2], rgba.0[3])
}

/// The brightness of a pixel.
///
/// Calls `Pixel::to_luma` on an `Rgba<u8>`. For 8-bit samples that is the
/// integer expression `(2126 r + 7152 g + 722 b) / 10000`; alpha plays no
/// part.
#[verifier::external_body]
pub(crate) fn luminance(p: (u8, u8, u8, u8)) -> (l: u8)
    ensures
        l == luma_of(p),
{
    image::Pixel::to_luma(&image::Rgba([p.0, p.1, p.2, p.3])).0[0]
}

} // verus!
