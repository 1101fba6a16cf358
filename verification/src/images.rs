//! Image validation and processing.
//!
//! A candidate image is a byte string; decoding and re-encoding are done by
//! the `image` crate behind two trusted wrappers, and every rule about sizes
//! and dimensions is checked in verified code on the plain values the
//! wrappers hand back.

use vstd::prelude::*;

verus! {

/// Smallest byte length a plausible image file can have.
pub const MIN_IMAGE_BYTES: usize = 100;

/// Largest byte length accepted before a file counts as corrupt.
pub const MAX_IMAGE_BYTES: usize = 50_000_000;

/// Smallest accepted width or height of a decoded image.
pub const MIN_IMAGE_DIM: u32 = 10;

/// Largest accepted width or height of a decoded image.
pub const MAX_IMAGE_DIM: u32 = 10_000;

/// Why a candidate image was rejected, in the order the checks run.
#[derive(Debug, Clone, Copy, PartialEq, Eq, Structural)]
pub enum CorruptionReason {
    /// Fewer than `MIN_IMAGE_BYTES` bytes.
    TooSmall,
    /// More than `MAX_IMAGE_BYTES` bytes.
    TooLarge,
    /// The bytes do not decode as a supported raster image.
    DecodeFailed,
    /// Decoded width or height is zero.
    ZeroDimension,
    /// Decoded width or height is below `MIN_IMAGE_DIM`.
    TooSmallDimensions,
    /// Decoded width or height is above `MAX_IMAGE_DIM`.
    TooLargeDimensions,
}

/// Why processing a source image failed.
#[derive(Debug, Clone, Copy, PartialEq, Eq, Structural)]
pub enum ProcessError {
    /// The source did not decode, or the resized result did not encode.
    TranscodeFailed,
    /// The freshly encoded output did not pass validation again.
    OutputRejected(CorruptionReason),
}

/// Width and height that decoding the given bytes yields, or `None` when they
/// do not decode. Decoding is a function of the bytes alone; its result is
/// named rather than written out.
pub uninterp spec fn decoded_dims(bytes: Seq<u8>) -> Option<(u32, u32)>;

/// The canonical JPEG re-encoding of the given bytes at the given target
/// size, or `None` when decoding, resizing or encoding fails. A function of
/// its arguments alone, named rather than written out.
pub uninterp spec fn transcoded_jpeg(bytes: Seq<u8>, width: u32, height: u32) -> Option<Seq<u8>>;

/// Relies on `image::load_from_memory` and `GenericImageView::dimensions`:
/// decoding bytes in memory is deterministic, and the call only reads the
/// decoded width and height out as plain values.
#[verifier::external_body]
fn decode_dimensions(bytes: &[u8]) -> (r: Option<(u32, u32)>)
    ensures
        r == decoded_dims(bytes@),
{
    let img = image::load_from_memory(bytes).ok()?;
    Some(image::GenericImageView::dimensions(&img))
}

/// Relies on `image::load_from_memory`, `DynamicImage::into_rgb8`,
/// `image::imageops::resize` with the Lanczos3 filter and
/// `DynamicImage::write_to` with `ImageFormat::Jpeg`: each is a function of
/// its arguments alone, so the composite result is named, and any failure in
/// the chain is reported as `None`. For targets within the dimension bounds
/// the output decodes back to the requested dimensions: `resize` returns a
/// buffer of exactly the dimensions it is asked for, the JPEG encoder
/// writes those dimensions into the frame header, and a decode of at most
/// `MAX_IMAGE_DIM` squared times three bytes stays under the decoder's
/// default allocation limit. Beyond those bounds the decoder may refuse the
/// output, so nothing is promised of it.
#[verifier::external_body]
fn transcode_to_jpeg(bytes: &[u8], width: u32, height: u32) -> (r: Option<Vec<u8>>)
    ensures
        r matches Some(v) ==> transcoded_jpeg(bytes@, width, height) == Some(v@),
        width <= MAX_IMAGE_DIM && height <= MAX_IMAGE_DIM ==> (r matches Some(v)
            ==> decoded_dims(v@) == Some((width, height))),
        r is None ==> transcoded_jpeg(bytes@, width, height) is None,
{
    let img = image::load_from_memory(bytes).ok()?;
    let rgb = img.into_rgb8();
    let resized = image::imageops::resize(&rgb, width, height, image::imageops::FilterType::Lanczos3);
    let mut out: Vec<u8> = Vec::new();
    image::DynamicImage::ImageRgb8(resized)
        .write_to(&mut std::io::Cursor::new(&mut out), image::ImageFormat::Jpeg)
        .ok()?;
    Some(out)
}

/// What validation says about a byte string: the checks run in order and
/// stop at the first failure.
pub open spec fn spec_validate(bytes: Seq<u8>) -> Result<(), CorruptionReason> {
    if bytes.len() < MIN_IMAGE_BYTES {
        Err(CorruptionReason::TooSmall)
    } else if bytes.len() > MAX_IMAGE_BYTES {
        Err(CorruptionReason::TooLarge)
    } else {
        match decoded_dims(bytes) {
            None => Err(CorruptionReason::DecodeFailed),
            Some(dims) => {
                if dims.0 == 0 || dims.1 == 0 {
                    Err(CorruptionReason::ZeroDimension)
                } else if dims.0 < MIN_IMAGE_DIM || dims.1 < MIN_IMAGE_DIM {
                    Err(CorruptionReason::TooSmallDimensions)
                } else if dims.0 > MAX_IMAGE_DIM || dims.1 > MAX_IMAGE_DIM {
                    Err(CorruptionReason::TooLargeDimensions)
                } else {
                    Ok(())
                }
            },
        }
    }
}

/// Validate a candidate image: byte-length bounds, then decodability, then
/// dimension bounds. Side-effect free.
pub fn validate_image(bytes: &[u8]) -> (r: Result<(), CorruptionReason>)
    ensures
        r == spec_validate(bytes@),
{
    if bytes.len() < MIN_IMAGE_BYTES {
        return Err(CorruptionReason::TooSmall);
    }
    if bytes.len() > MAX_IMAGE_BYTES {
        return Err(CorruptionReason::TooLarge);
    }
    match decode_dimensions(bytes) {
        None => Err(CorruptionReason::DecodeFailed),
        Some((width, height)) => {
            if width == 0 || height == 0 {
                Err(CorruptionReason::ZeroDimension)
            } else if width < MIN_IMAGE_DIM || height < MIN_IMAGE_DIM {
                Err(CorruptionReason::TooSmallDimensions)
            } else if width > MAX_IMAGE_DIM || height > MAX_IMAGE_DIM {
                Err(CorruptionReason::TooLargeDimensions)
            } else {
                Ok(())
            }
        },
    }
}

/// What processing says about a byte string: re-encode at the target size,
/// then hold the fresh output to the same validation as a download.
pub open spec fn spec_process(bytes: Seq<u8>, width: u32, height: u32) -> Result<
    Seq<u8>,
    ProcessError,
> {
    match transcoded_jpeg(bytes, width, height) {
        None => Err(ProcessError::TranscodeFailed),
        Some(out) => match spec_validate(out) {
            Err(reason) => Err(ProcessError::OutputRejected(reason)),
            Ok(()) => Ok(out),
        },
    }
}

/// Process a source image: decode, resize to exactly `width` by `height`
/// (direct stretch-to-fit, no letterboxing), re-encode as JPEG, and validate
/// the result before handing it out. The result is a function of the inputs
/// alone, so processing the same source twice yields byte-identical output;
/// for targets within the dimension bounds — outside them no output passes
/// validation anyway — a released output decodes to exactly the target
/// dimensions.
pub fn process_image(bytes: &[u8], width: u32, height: u32) -> (r: Result<Vec<u8>, ProcessError>)
    ensures
        r matches Ok(out) ==> spec_process(bytes@, width, height) == Ok::<_, ProcessError>(out@),
        width <= MAX_IMAGE_DIM && height <= MAX_IMAGE_DIM ==> (r matches Ok(out)
            ==> decoded_dims(out@) == Some((width, height))),
        r matches Err(e) ==> spec_process(bytes@, width, height) == Err::<Seq<u8>, _>(e),
{
    match transcode_to_jpeg(bytes, width, height) {
        None => Err(ProcessError::TranscodeFailed),
        Some(out) => match validate_image(out.as_slice()) {
            Err(reason) => Err(ProcessError::OutputRejected(reason)),
            Ok(()) => Ok(out),
        },
    }
}

/// Law: whatever processing returns, an output it does hand out has passed
/// validation — a corrupt re-encoding is never released.
pub proof fn lemma_processed_output_valid(bytes: Seq<u8>, width: u32, height: u32)
    ensures
        spec_process(bytes, width, height) matches Ok(out) ==> spec_validate(out) is Ok,
{
}

/// Law: the validator's boundary, for every byte string. A file under the
/// size floor is too small outright; within the size bounds, a decodable
/// image with a nonzero dimension under the floor — a well-formed 1-by-1
/// image, say — is rejected for its dimensions, and one with both
/// dimensions inside the accepted range passes. The size bounds are part of
/// each premise because the size checks run first.
pub proof fn lemma_validator_boundary(bytes: Seq<u8>)
    ensures
        bytes.len() < MIN_IMAGE_BYTES ==> spec_validate(bytes) == Err::<(), _>(
            CorruptionReason::TooSmall,
        ),
        (MIN_IMAGE_BYTES <= bytes.len() <= MAX_IMAGE_BYTES && (decoded_dims(bytes) matches Some(d)
            && d.0 > 0 && d.1 > 0 && (d.0 < MIN_IMAGE_DIM || d.1 < MIN_IMAGE_DIM)))
            ==> spec_validate(bytes) == Err::<(), _>(CorruptionReason::TooSmallDimensions),
        (MIN_IMAGE_BYTES <= bytes.len() <= MAX_IMAGE_BYTES && (decoded_dims(bytes) matches Some(d)
            && MIN_IMAGE_DIM <= d.0 <= MAX_IMAGE_DIM && MIN_IMAGE_DIM <= d.1 <= MAX_IMAGE_DIM))
            ==> spec_validate(bytes) is Ok,
{
}

} // verus!
