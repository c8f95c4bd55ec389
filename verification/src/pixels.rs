//! Decoded images, as the `image` crate hands them over.
//!
//! An image is opaque to the verifier. What the library reads from one, its
//! dimensions and its pixels as RGBA bytes, it reads through the functions
//! below, whose contracts are taken on trust from the crate's source.

use image::{DynamicImage, GenericImageView, ImageError};
use vstd::prelude::*;

verus! {

/// `image::DynamicImage`, a decoded image. The verifier sees nothing inside
/// it.
#[verifier::external_type_specification]
#[verifier::external_body]
pub struct ExDynamicImage(image::DynamicImage);

/// `image::ImageError`, why an image could not be opened or decoded. The
/// verifier sees nothing inside it.
#[verifier::external_type_specification]
#[verifier::external_body]
pub struct ExImageError(image::ImageError);

/// The width and height of a decoded image, in pixels.
pub uninterp spec fn image_dimensions(image: DynamicImage) -> (u32, u32);

/// The pixels of a decoded image as 8-bit RGBA, row by row.
pub uninterp spec fn image_rgba(image: DynamicImage) -> Seq<u8>;

/// The number of bytes that an image of these dimensions takes as 8-bit
/// RGBA.
pub open spec fn rgba_len(dimensions: (u32, u32)) -> int {
    4 * dimensions.0 * dimensions.1
}

/// Whether an RGBA copy of an image of these dimensions can be allocated: a
/// buffer holds at most `isize::MAX` bytes.
pub open spec fn fits_in_memory(dimensions: (u32, u32)) -> bool {
    rgba_len(dimensions) <= isize::MAX
}

/// `GenericImageView::dimensions` of `DynamicImage`: the width and height of
/// the image's buffer. The result is a function of the image alone.
#[verifier::external_body]
pub(crate) fn dimensions(image: &DynamicImage) -> (dimensions: (u32, u32))
    ensures
        dimensions == image_dimensions(*image),
{
    image.dimensions()
}

/// `DynamicImage::to_rgba`, then `ImageBuffer::into_raw`: a fresh buffer of
/// four bytes per pixel, filled by converting each pixel. The conversion
/// allocates that buffer and panics where its length overflows, so the
/// caller has to know that it fits. The result is a function of the image
/// alone.
#[verifier::external_body]
pub(crate) fn to_rgba(image: &DynamicImage) -> (raw: Vec<u8>)
    requires
        fits_in_memory(image_dimensions(*image)),
    ensures
        raw@ == image_rgba(*image),
        raw@.len() == rgba_len(image_dimensions(*image)),
{
    image.to_rgba().into_raw()
}

/// The text of an `ImageError`, as its `Display` writes it. Nothing is
/// claimed of the text.
#[verifier::external_body]
pub(crate) fn error_text(error: &ImageError) -> String {
    format!("{}", error)
}

} // verus!
