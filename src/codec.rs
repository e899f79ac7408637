//! The calls into the `image` crate: signature sniffing, decoding to 8-bit
//! RGBA, resampling and encoding. Each result that takes pages to state is
//! given a name; what the crate documents in a few words is stated.
use vstd::prelude::*;
use crate::options::{FilterKind, FormatKind};
use crate::raster::MAX_PIXELS;
use image::ImageError as CodecError;

verus! {

#[verifier::external_type_specification]
#[verifier::external_body]
pub struct ExCodecError(CodecError);

/// Whether the leading bytes carry the signature of an image format the
/// decoder knows.
pub uninterp spec fn signature_known(bytes: Seq<u8>) -> bool;

/// What decoding the bytes gives: width, height and 8-bit RGBA samples.
pub uninterp spec fn decoded(bytes: Seq<u8>) -> Option<(u32, u32, Seq<u8>)>;

/// The RGBA samples of an image scaled to a new size with a filter.
pub uninterp spec fn resampled(
    pixels: Seq<u8>,
    width: u32,
    height: u32,
    new_width: u32,
    new_height: u32,
    filter: FilterKind,
) -> Seq<u8>;

/// The bytes of an RGBA image written in an encoding, when the encoder succeeds.
pub uninterp spec fn encoded(pixels: Seq<u8>, width: u32, height: u32, format: FormatKind) -> Option<
    Seq<u8>,
>;

/// Relies on `image::guess_format`: it matches the leading bytes against the
/// crate's table of magic numbers, and fails when none matches.
#[verifier::external_body]
pub(crate) fn sniff(bytes: &[u8]) -> (r: bool)
    ensures
        r == signature_known(bytes@),
{
    image::guess_format(bytes).is_ok()
}

/// Relies on `image::load_from_memory` (which sniffs the format, then decodes)
/// followed by `DynamicImage::into_rgba8`.
#[verifier::external_body]
pub(crate) fn decode_rgba(bytes: &[u8]) -> (r: Result<(u32, u32, Vec<u8>), CodecError>)
    ensures
        match r {
            Ok((w, h, px)) => decoded(bytes@) == Some((w, h, px@)),
            Err(_) => decoded(bytes@).is_none(),
        },
{
    let img = image::load_from_memory(bytes)?.into_rgba8();
    let (w, h) = img.dimensions();
    Ok((w, h, img.into_raw()))
}

/// Relies on `image::imageops::resize` on an RGBA buffer: the result is a new
/// buffer of exactly `new_width` by `new_height` pixels.
#[verifier::external_body]
pub(crate) fn resample(
    pixels: &Vec<u8>,
    width: u32,
    height: u32,
    new_width: u32,
    new_height: u32,
    filter: FilterKind,
) -> (r: Vec<u8>)
    requires
        pixels@.len() == 4 * width * height,
        width > 0,
        height > 0,
        new_width > 0,
        new_height > 0,
        new_width * new_height <= MAX_PIXELS,
    ensures
        r@ == resampled(pixels@, width, height, new_width, new_height, filter),
        r@.len() == 4 * new_width * new_height,
{
    let src = image::ImageBuffer::<image::Rgba<u8>, &[u8]>::from_raw(width, height, pixels.as_slice())
        .expect("buffer length matches the dimensions");
    let kernel = match filter {
        FilterKind::Nearest => image::imageops::FilterType::Nearest,
        FilterKind::Gaussian => image::imageops::FilterType::Gaussian,
    };
    image::imageops::resize(&src, new_width, new_height, kernel).into_raw()
}

/// Relies on `image::write_buffer_with_format` with the RGBA color type.
#[verifier::external_body]
pub(crate) fn encode_rgba(pixels: &Vec<u8>, width: u32, height: u32, format: FormatKind) -> (r:
    Result<Vec<u8>, CodecError>)
    requires
        pixels@.len() == 4 * width * height,
    ensures
        match r {
            Ok(v) => encoded(pixels@, width, height, format) == Some(v@),
            Err(_) => encoded(pixels@, width, height, format).is_none(),
        },
{
    let target = match format {
        FormatKind::Png => image::ImageOutputFormat::Png,
        FormatKind::Jpeg(q) => image::ImageOutputFormat::Jpeg(q),
        FormatKind::Gif => image::ImageOutputFormat::Gif,
    };
    let mut out = std::io::Cursor::new(Vec::new());
    image::write_buffer_with_format(&mut out, pixels, width, height, image::ColorType::Rgba8, target)?;
    Ok(out.into_inner())
}

/// Relies on the `Display` impl of `image::ImageError` for a diagnostic text.
#[verifier::external_body]
pub(crate) fn codec_error_text(e: &CodecError) -> String {
    e.to_string()
}

} // verus!
