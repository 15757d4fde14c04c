//! Decoding an image file's bytes with the `image` crate, under the
//! preview's limits.
use vstd::prelude::*;

use image::metadata::Orientation;
use image::{DynamicImage, ImageDecoder, ImageReader, Limits};

verus! {

/// The largest width or height decoded, in pixels.
pub const MAX_DIMENSION: u32 = 16384;

/// The most memory one decode may allocate, in bytes.
pub const MAX_DECODE_ALLOC: u64 = 268435456;

/// `image::DynamicImage`, a decoded image, carried as an opaque value.
#[verifier::external_type_specification]
#[verifier::external_body]
pub struct ExDynamicImage(DynamicImage);

/// The width and height of the image that the `image` crate decodes from
/// `bytes` under the given limits, after its EXIF orientation is applied;
/// `None` where the decode fails.
pub uninterp spec fn spec_decoded_size(bytes: Seq<u8>, max_side: u32, max_alloc: u64) -> Option<(u32, u32)>;

/// The text of the error where that decode fails.
pub uninterp spec fn spec_decode_error(bytes: Seq<u8>, max_side: u32, max_alloc: u64) -> Seq<char>;

/// Calls `ImageReader::new(Cursor::new(bytes)).with_guessed_format()`, sets
/// `Limits` (width, height and allocation), `into_decoder`, reads the
/// decoder's `orientation`, `DynamicImage::from_decoder` and
/// `apply_orientation`. The outcome is named; the decoder checks both sides
/// against `max_side` (`Limits::check_dimensions`, called by
/// `ImageDecoder::set_limits`), and a quarter turn only swaps them.
#[verifier::external_body]
fn decode_bytes(bytes: &[u8], max_side: u32, max_alloc: u64) -> (r: Result<(DynamicImage, u32, u32), String>)
    ensures
        r is Ok <==> spec_decoded_size(bytes@, max_side, max_alloc) is Some,
        r matches Ok((_, w, h)) ==> spec_decoded_size(bytes@, max_side, max_alloc) == Some((w, h))
            && w <= max_side && h <= max_side,
        r matches Err(m) ==> m@ == spec_decode_error(bytes@, max_side, max_alloc),
{
    let mut reader = ImageReader::new(std::io::Cursor::new(bytes)).with_guessed_format().map_err(|e| e.to_string())?;
    let mut limits = Limits::no_limits();
    limits.max_image_width = Some(max_side);
    limits.max_image_height = Some(max_side);
    limits.max_alloc = Some(max_alloc);
    reader.limits(limits);
    let mut decoder = reader.into_decoder().map_err(|e| e.to_string())?;
    let orientation = decoder.orientation().unwrap_or(Orientation::NoTransforms);
    let mut img = DynamicImage::from_decoder(decoder).map_err(|e| e.to_string())?;
    img.apply_orientation(orientation);
    let (w, h) = (img.width(), img.height());
    Ok((img, w, h))
}

/// Decodes an image file's bytes under the preview's limits (at most
/// `MAX_DIMENSION` pixels a side, `MAX_DECODE_ALLOC` bytes allocated), upright
/// by its EXIF orientation, with its width and height.
pub fn decode_image(bytes: &[u8]) -> (r: Result<(DynamicImage, u32, u32), String>)
    ensures
        r is Ok <==> spec_decoded_size(bytes@, MAX_DIMENSION, MAX_DECODE_ALLOC) is Some,
        r matches Ok((_, w, h)) ==> spec_decoded_size(bytes@, MAX_DIMENSION, MAX_DECODE_ALLOC)
            == Some((w, h)) && w <= MAX_DIMENSION && h <= MAX_DIMENSION,
        r matches Err(m) ==> m@ == spec_decode_error(bytes@, MAX_DIMENSION, MAX_DECODE_ALLOC),
{
    decode_bytes(bytes, MAX_DIMENSION, MAX_DECODE_ALLOC)
}

} // verus!
