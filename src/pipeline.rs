//! One request from upload to reply body: decode the upload, apply one
//! transform, encode the result.
use vstd::prelude::*;
use crate::codec::{decoded, encoded, signature_known};
use crate::error::ImageError;
use crate::models::ImageStats;
use crate::options::{
    filter_choice, format_name, keep_choice, output_choice, FormatKind, ImageOutputQuery,
    ImageResizeQuery, OutputFormat,
};
use crate::raster::{decode_outcome, resize_outcome, rotation_of, Image, ImageModel};

verus! {

/// A transformed image in its output encoding.
#[derive(Clone, Debug)]
pub struct EncodedImage {
    pub bytes: Vec<u8>,
    /// `image/<name of the encoding>`.
    pub mime: String,
}

/// Whether `r` is what encoding `m` in `f` gives.
pub open spec fn encodes(r: Result<EncodedImage, ImageError>, m: ImageModel, f: FormatKind) -> bool {
    match encoded(m.pixels, m.width, m.height, f) {
        Some(b) => r matches Ok(out) && out.bytes@ == b && out.mime@ == "image/"@ + format_name(f),
        None => r matches Err(e) && e is EncodeError,
    }
}

/// Whether `r` is what decoding an upload, transforming the image with `t`
/// (where `None` is a refused parameter) and encoding the result in `f` gives.
pub open spec fn transforms(
    bytes: Seq<u8>,
    content_type: Seq<char>,
    r: Result<EncodedImage, ImageError>,
    f: FormatKind,
    t: spec_fn(ImageModel) -> Option<ImageModel>,
) -> bool {
    if !signature_known(bytes) {
        r matches Err(e) && e is UnrecognizedFormat
    } else {
        match decode_outcome(bytes, content_type) {
            None => r matches Err(e) && e is DecodeError,
            Some(m) => match t(m) {
                None => r matches Err(e) && e is InvalidParameter,
                Some(n) => encodes(r, n, f),
            },
        }
    }
}

/// Encodes an image and names its MIME type.
pub fn encode_image(img: &Image, format: OutputFormat) -> (r: Result<EncodedImage, ImageError>)
    ensures
        encodes(r, img@, format.format),
{
    let mut bytes: Vec<u8> = Vec::new();
    match img.write_to(&mut bytes, format) {
        Ok(()) => {
            assert(bytes@ =~= encoded(img@.pixels, img@.width, img@.height, format.format)->Some_0);
            Ok(EncodedImage { bytes, mime: format.mime() })
        },
        Err(e) => Err(e),
    }
}

/// Decodes an upload and reports its size in pixels, its length in bytes and
/// its declared content type.
pub fn inspect_upload(bytes: &Vec<u8>, content_type: &str) -> (r: Result<ImageStats, ImageError>)
    ensures
        !signature_known(bytes@) ==> (r matches Err(e) && e is UnrecognizedFormat),
        signature_known(bytes@) ==> match decode_outcome(bytes@, content_type@) {
            Some(m) => r matches Ok(s) && s.width == m.width && s.height == m.height && s.size
                == m.size && s.format@ == m.format,
            None => r matches Err(e) && e is DecodeError,
        },
        r matches Ok(s) ==> (decoded(bytes@) matches Some((w, h, _)) && s.width == w && s.height == h
            && s.size == bytes@.len()),
{
    proof {
        assert(bytes@.len() == bytes.len());
    }
    match Image::parse(bytes, content_type) {
        Ok(img) => Ok(img.stats()),
        Err(e) => Err(e),
    }
}

/// Resizes an upload as the query asks and encodes the result. The filter
/// and the encoding are checked first, before the upload is decoded.
pub fn resize_upload(
    bytes: &Vec<u8>,
    content_type: &str,
    width: u32,
    height: u32,
    query: &ImageResizeQuery,
) -> (r: Result<EncodedImage, ImageError>)
    ensures
        match (filter_choice(query.filter_type), output_choice(query.output_format)) {
            (None, _) => r matches Err(e) && e is InvalidParameter,
            (Some(_), None) => r matches Err(e) && e is UnsupportedOutputFormat,
            (Some(k), Some(f)) => transforms(
                bytes@,
                content_type@,
                r,
                f,
                |m: ImageModel| resize_outcome(m, width, height, k, keep_choice(query.keep_aspect)),
            ),
        },
{
    let filter = match query.filter() {
        Ok(f) => f,
        Err(e) => return Err(e),
    };
    let format = match query.output() {
        Ok(f) => f,
        Err(e) => return Err(e),
    };
    let img = match Image::parse(bytes, content_type) {
        Ok(img) => img,
        Err(e) => return Err(e),
    };
    match img.resize(width, height, filter, query.keeps_aspect()) {
        Ok(out) => encode_image(&out, format),
        Err(e) => Err(e),
    }
}

/// Rotates an upload by `degrees` and encodes the result. The encoding is
/// checked first, before the upload is decoded.
pub fn rotate_upload(bytes: &Vec<u8>, content_type: &str, degrees: u32, query: &ImageOutputQuery) -> (r:
    Result<EncodedImage, ImageError>)
    ensures
        match output_choice(query.output_format) {
            None => r matches Err(e) && e is UnsupportedOutputFormat,
            Some(f) => transforms(
                bytes@,
                content_type@,
                r,
                f,
                |m: ImageModel| rotation_of(m, degrees as int),
            ),
        },
{
    let format = match query.output() {
        Ok(f) => f,
        Err(e) => return Err(e),
    };
    let img = match Image::parse(bytes, content_type) {
        Ok(img) => img,
        Err(e) => return Err(e),
    };
    match img.rotate(degrees) {
        Ok(out) => encode_image(&out, format),
        Err(e) => Err(e),
    }
}

} // verus!
