//! Greyscale pictures, kept in the image buffer of the `image` crate.

use vstd::prelude::*;

verus! {

/// A greyscale picture with one byte for each pixel, rows from the top.
/// It is a `GrayImage` of the `image` crate, of which nothing is known
/// here but what the functions below say.
#[verifier::external_body]
pub struct GreyImage {
    buffer: image::GrayImage,
}

/// The bytes that the picture holds: its pixels, row by row, and whatever
/// the buffer it was made from held after them.
pub uninterp spec fn grey_image_pixels(picture: GreyImage) -> Seq<u8>;

/// The number of pixels in a row of the picture.
pub uninterp spec fn grey_image_width(picture: GreyImage) -> u32;

/// Calls `GrayImage::from_vec`, which takes the buffer as it is when it
/// holds at least `width * height` bytes and gives nothing when it is too
/// small.
#[verifier::external_body]
pub(crate) fn grey_image_from_vec(width: u32, height: u32, pixels: Vec<u8>) -> (picture: Option<
    GreyImage,
>)
    ensures
        picture is Some <==> width * height <= pixels@.len(),
        picture matches Some(p) ==> grey_image_pixels(p) == pixels@ && grey_image_width(p) == width,
{
    match image::GrayImage::from_vec(width, height, pixels) {
        Some(buffer) => Some(GreyImage { buffer }),
        None => None,
    }
}

/// Calls `ImageBuffer::width`, which gives the width that the picture was
/// made with.
#[verifier::external_body]
fn grey_image_raw_width(picture: &GreyImage) -> (width: u32)
    ensures
        width == grey_image_width(*picture),
{
    picture.buffer.width()
}

/// Calls `ImageBuffer::into_raw`, which gives back the buffer that the
/// picture was made from.
#[verifier::external_body]
fn grey_image_into_raw(picture: GreyImage) -> (pixels: Vec<u8>)
    ensures
        pixels@ == grey_image_pixels(picture),
{
    picture.buffer.into_raw()
}

impl GreyImage {
    /// The picture that holds `pixels` as rows of `width` pixels, if there
    /// are at least `width * height` of them.
    pub fn from_pixels(width: u32, height: u32, pixels: Vec<u8>) -> (picture: Option<Self>)
        ensures
            picture is Some <==> width * height <= pixels@.len(),
            picture matches Some(p) ==> grey_image_pixels(p) == pixels@ && grey_image_width(p)
                == width,
    {
        grey_image_from_vec(width, height, pixels)
    }

    /// The number of pixels in a row.
    pub fn width(&self) -> (width: u32)
        ensures
            width == grey_image_width(*self),
    {
        grey_image_raw_width(self)
    }

    /// The bytes of the picture, which is given up for them.
    pub fn into_raw(self) -> (pixels: Vec<u8>)
        ensures
            pixels@ == grey_image_pixels(self),
    {
        grey_image_into_raw(self)
    }
}

} // verus!
