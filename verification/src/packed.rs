//! Packed RGB images, built by the `image` crate from stripped pixel rows.

use vstd::prelude::*;
use image::DynamicImage;
use crate::error::PlayerError;
use crate::frame::{lemma_packed_len, strip_padding, RawFrame};

verus! {

#[verifier::external_type_specification]
#[verifier::external_body]
pub struct ExDynamicImage(image::DynamicImage);

/// The bytes of the buffer that an image owns.
pub uninterp spec fn image_bytes(img: DynamicImage) -> Seq<u8>;

/// The width and the height of an image, in pixels.
pub uninterp spec fn image_size(img: DynamicImage) -> (u32, u32);

/// What the player knows of an image: its dimensions and its bytes.
pub struct ImageView {
    pub width: u32,
    pub height: u32,
    pub bytes: Seq<u8>,
}

/// The dimensions and bytes of `img`.
pub open spec fn image_view(img: DynamicImage) -> ImageView {
    ImageView { width: image_size(img).0, height: image_size(img).1, bytes: image_bytes(img) }
}

/// A buffer of `len` bytes can back an RGB image of the given dimensions:
/// three bytes for every pixel, counted without overflow in `usize`.
pub open spec fn rgb_buffer_fits(width: u32, height: u32, len: nat) -> bool {
    &&& 3 * width <= usize::MAX
    &&& 3 * width * height <= len
}

/// Calls `image::RgbImage::from_raw` and wraps the buffer it returns as
/// `DynamicImage::ImageRgb8`.
///
/// Trusted: `from_raw` multiplies three channels by the width and then by the
/// height with overflow checks in `usize`, and returns an image that owns
/// `pixels` unchanged, with the given dimensions, exactly when both products
/// fit and the buffer is at least that long.
#[verifier::external_body]
fn rgb_image_from_raw(width: u32, height: u32, pixels: Vec<u8>) -> (result: Option<DynamicImage>)
    ensures
        result.is_some() == rgb_buffer_fits(width, height, pixels@.len()),
        result matches Some(img) ==> image_bytes(img) == pixels@,
        result matches Some(img) ==> image_size(img) == (width, height),
{
    image::RgbImage::from_raw(width, height, pixels).map(DynamicImage::ImageRgb8)
}

/// Turns a raw frame into a packed RGB image of the same dimensions.
///
/// Fails with `FrameConversion` where the frame's stride or buffer length
/// does not fit its dimensions.
pub fn packed_image(frame: &RawFrame) -> (result: Result<DynamicImage, PlayerError>)
    ensures
        result is Ok <==> frame.consistent(),
        result matches Ok(img) ==> image_view(img) == (ImageView {
            width: frame.width,
            height: frame.height,
            bytes: frame.packed(),
        }),
        result matches Err(e) ==> e == PlayerError::FrameConversion,
{
    match strip_padding(frame) {
        Err(e) => Err(e),
        Ok(pixels) => {
            proof {
                lemma_packed_len(
                    frame.data@,
                    frame.row_bytes(),
                    frame.stride as nat,
                    frame.height as nat,
                );
                assert(frame.height * frame.row_bytes() == 3 * frame.width * frame.height)
                    by (nonlinear_arith)
                    requires
                        frame.row_bytes() == frame.width * 3,
                ;
            }
            match rgb_image_from_raw(frame.width, frame.height, pixels) {
                Some(img) => Ok(img),
                None => Err(PlayerError::FrameConversion),
            }
        },
    }
}

} // verus!
