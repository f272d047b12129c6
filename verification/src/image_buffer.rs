//! The decoded image handed to the JPEG writer: an `image::DynamicImage`.

use vstd::prelude::*;

use image::DynamicImage;

verus! {

/// `image::DynamicImage`, carried through unopened.
#[verifier::external_type_specification]
#[verifier::external_body]
pub struct ExDynamicImage(image::DynamicImage);

/// The RGBA8 image that `ImageBuffer::from_raw` makes of a width, a height
/// and a pixel buffer.
pub uninterp spec fn rgba8_image_of(width: u32, height: u32, rgba: Seq<u8>) -> DynamicImage;

/// Calls `image::ImageBuffer::<Rgba<u8>, Vec<u8>>::from_raw` and wraps the
/// buffer as `DynamicImage::ImageRgba8`. Trusted: `from_raw` accepts the
/// pixels exactly when `4 * width * height` fits in `usize` and the buffer
/// holds at least that many bytes, and the image it makes is
/// `rgba8_image_of` the width, height and buffer (it keeps the buffer as
/// given; what the image holds is not spelled out further).
#[verifier::external_body]
pub(crate) fn rgba8_image(width: u32, height: u32, rgba: Vec<u8>) -> (image: Option<DynamicImage>)
    ensures
        image is Some <==> (4 * width <= usize::MAX && 4 * width * height <= usize::MAX && 4
            * width * height <= rgba@.len()),
        image matches Some(made) ==> made == rgba8_image_of(width, height, rgba@),
{
    image::ImageBuffer::from_raw(width, height, rgba).map(DynamicImage::ImageRgba8)
}

} // verus!
