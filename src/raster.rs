use vstd::prelude::*;
use crate::codec::{
    codec_error_text, decode_rgba, decoded, encode_rgba, encoded, resample, resampled, signature_known,
    sniff,
};
use crate::options::{FilterKind, ImageFilter, OutputFormat};
use crate::error::ImageError;
use crate::models::ImageStats;
use crate::geometry::{fit_dimensions, fit_within, lemma_fit_keeps_aspect, lemma_area_fits, turned_size, turn_source, source_pixel};
use vstd::arithmetic::div_mod::{lemma_fundamental_div_mod, lemma_fundamental_div_mod_converse, lemma_mod_bound, lemma_multiply_divide_lt};

verus! {

/// The largest number of pixels a transform may produce.
pub const MAX_PIXELS: u64 = 0x400_0000;

/// The mathematical content of a decoded image: its size in pixels, its RGBA
/// samples row by row (four per pixel), the length of the upload it came
/// from and the content type declared for that upload.
pub struct ImageModel {
    pub width: u32,
    pub height: u32,
    pub pixels: Seq<u8>,
    pub size: usize,
    pub format: Seq<char>,
}

impl ImageModel {
    pub open spec fn wf(&self) -> bool {
        &&& self.width > 0
        &&& self.height > 0
        &&& self.pixels.len() == 4 * self.width * self.height
    }
}

/// The image an upload decodes to, if it decodes to one that is not empty.
pub open spec fn decode_outcome(bytes: Seq<u8>, format: Seq<char>) -> Option<ImageModel> {
    match decoded(bytes) {
        Some((w, h, px)) => {
            let m = ImageModel { width: w, height: h, pixels: px, size: bytes.len() as usize, format };
            if m.wf() {
                Some(m)
            } else {
                None
            }
        },
        None => None,
    }
}

/// The samples of an image turned clockwise by `quarter` quarter turns.
pub open spec fn turned_pixels(m: ImageModel, quarter: int) -> Seq<u8> {
    let (dw, dh) = turned_size(m.width as int, m.height as int, quarter);
    Seq::new(
        m.pixels.len(),
        |i: int|
            {
                let p = i / 4;
                let (sx, sy) = turn_source(m.width as int, m.height as int, quarter, p % dw, p / dw);
                m.pixels[4 * (sy * m.width + sx) + i % 4]
            },
    )
}

/// An image rotated clockwise by `degrees`, taken modulo 360; only multiples
/// of 90 degrees are supported.
pub open spec fn rotation_of(m: ImageModel, degrees: int) -> Option<ImageModel> {
    let d = degrees % 360;
    if d % 90 != 0 {
        None
    } else {
        let quarter = d / 90;
        let (dw, dh) = turned_size(m.width as int, m.height as int, quarter);
        Some(
            ImageModel {
                width: dw as u32,
                height: dh as u32,
                pixels: turned_pixels(m, quarter),
                size: m.size,
                format: m.format,
            },
        )
    }
}

/// Rotating by zero degrees gives back the same image, pixel for pixel, with
/// its width and height unchanged.
pub proof fn lemma_rotate_zero_is_identity(m: ImageModel)
    requires
        m.wf(),
    ensures
        rotation_of(m, 0) == Some(m),
{
    let w = m.width as int;
    let t = turned_pixels(m, 0);
    assert forall|i: int| 0 <= i < m.pixels.len() implies t[i] == m.pixels[i] by {
        let p = i / 4;
        lemma_fundamental_div_mod(i, 4);
        lemma_fundamental_div_mod(p, w);
        assert((p / w) * w == w * (p / w)) by (nonlinear_arith);
        assert(4 * ((p / w) * w + p % w) + i % 4 == i);
    }
    assert(t =~= m.pixels);
}

/// A rotation depends on the angle modulo a full turn.
pub proof fn lemma_rotate_full_turn(m: ImageModel, degrees: int)
    requires
        degrees >= 0,
    ensures
        rotation_of(m, degrees + 360) == rotation_of(m, degrees),
{
    assert((degrees + 360) % 360 == degrees % 360);
}

/// Rotating by 360 degrees is the same as rotating by zero: the identity.
pub proof fn lemma_rotate_360_is_identity(m: ImageModel)
    requires
        m.wf(),
    ensures
        rotation_of(m, 360) == rotation_of(m, 0),
        rotation_of(m, 360) == Some(m),
{
    lemma_rotate_full_turn(m, 0);
    lemma_rotate_zero_is_identity(m);
}

/// The size a resize produces: exactly the requested box, or the largest box
/// of the image's aspect ratio that fits in it.
pub open spec fn resize_target(m: ImageModel, width: int, height: int, keep_aspect: bool) -> (int, int) {
    if keep_aspect {
        fit_within(m.width as int, m.height as int, width, height)
    } else {
        (width, height)
    }
}

/// The image a resize produces. An empty box, or a result of more than
/// `MAX_PIXELS` pixels, is refused.
pub open spec fn resize_outcome(
    m: ImageModel,
    width: u32,
    height: u32,
    filter: FilterKind,
    keep_aspect: bool,
) -> Option<ImageModel> {
    if width == 0 || height == 0 {
        None
    } else {
        let (nw, nh) = resize_target(m, width as int, height as int, keep_aspect);
        if nw * nh > MAX_PIXELS {
            None
        } else {
            Some(
                ImageModel {
                    width: nw as u32,
                    height: nh as u32,
                    pixels: resampled(m.pixels, m.width, m.height, nw as u32, nh as u32, filter),
                    size: m.size,
                    format: m.format,
                },
            )
        }
    }
}

/// Without keeping the aspect ratio, a resize produces exactly the requested
/// width and height.
pub proof fn lemma_stretch_is_exact(m: ImageModel, width: u32, height: u32, filter: FilterKind)
    requires
        width > 0,
        height > 0,
        width * height <= MAX_PIXELS,
    ensures
        resize_outcome(m, width, height, filter, false) matches Some(r) && r.width == width
            && r.height == height,
{
}

/// Keeping the aspect ratio, a resize produces an image that fits in the
/// requested box, fills it along one side, and along the other side differs
/// from the ratio of the image by less than one pixel.
pub proof fn lemma_keep_aspect_fits(m: ImageModel, width: u32, height: u32, filter: FilterKind)
    requires
        m.wf(),
        width > 0,
        height > 0,
        width * height <= MAX_PIXELS,
    ensures
        resize_outcome(m, width, height, filter, true) matches Some(r) && {
            let (w, h, nw, nh) = (m.width as int, m.height as int, r.width as int, r.height as int);
            &&& 1 <= nw <= width
            &&& 1 <= nh <= height
            &&& (nw == width && -w < nw * h - nh * w < w) || (nh == height && -h < nw * h - nh * w
                < h)
        },
{
    lemma_fit_keeps_aspect(m.width as int, m.height as int, width as int, height as int);
    let (nw, nh) = fit_within(m.width as int, m.height as int, width as int, height as int);
    assert(nw * nh <= width * height) by (nonlinear_arith)
        requires
            1 <= nw <= width,
            1 <= nh <= height,
    ;
}

/// A decoded image: RGBA samples, four bytes per pixel, row by row.
pub struct Image {
    width: u32,
    height: u32,
    pixels: Vec<u8>,
    size: usize,
    format: String,
}

impl View for Image {
    type V = ImageModel;

    closed spec fn view(&self) -> ImageModel {
        ImageModel {
            width: self.width,
            height: self.height,
            pixels: self.pixels@,
            size: self.size,
            format: self.format@,
        }
    }
}

impl Image {
    #[verifier::type_invariant]
    closed spec fn inv(&self) -> bool {
        self@.wf()
    }

    /// Builds an image from RGBA samples; fails with `DecodeError` when the
    /// image is empty or the samples do not match its size.
    pub fn from_rgba(width: u32, height: u32, pixels: Vec<u8>, size: usize, format: &str) -> (r:
        Result<Image, ImageError>)
        ensures
            ({
                let m = ImageModel { width, height, pixels: pixels@, size, format: format@ };
                if m.wf() {
                    r matches Ok(img) && img@ == m
                } else {
                    r matches Err(e) && e is DecodeError
                }
            }),
    {
        if width == 0 || height == 0 {
            return Err(ImageError::DecodeError(String::from_str("image has no pixels")));
        }
        proof {
            lemma_area_fits(width, height);
        }
        let expected: u128 = 4u128 * ((width as u128) * (height as u128));
        if pixels.len() as u128 != expected {
            return Err(ImageError::DecodeError(String::from_str("pixel data does not match the image size")));
        }
        Ok(Image { width, height, pixels, size, format: String::from_str(format) })
    }

    /// Sniffs the encoding of an upload from its bytes and decodes it. The
    /// declared content type is not used for decoding; it is kept, with the
    /// upload's length, to be reported back.
    pub fn parse(bytes: &Vec<u8>, format: &str) -> (r: Result<Image, ImageError>)
        ensures
            !signature_known(bytes@) ==> (r matches Err(e) && e is UnrecognizedFormat),
            signature_known(bytes@) ==> match decode_outcome(bytes@, format@) {
                Some(m) => r matches Ok(img) && img@ == m,
                None => r matches Err(e) && e is DecodeError,
            },
    {
        if !sniff(bytes.as_slice()) {
            return Err(ImageError::UnrecognizedFormat(String::from_str("unrecognized image format")));
        }
        match decode_rgba(bytes.as_slice()) {
            Ok((w, h, px)) => Image::from_rgba(w, h, px, bytes.len(), format),
            Err(e) => Err(ImageError::DecodeError(String::from_str("error reading image: ").concat(codec_error_text(&e).as_str()))),
        }
    }

    /// Rotates the image clockwise by `degrees`, taken modulo 360. Rotations
    /// by 90 and 270 degrees swap width and height. Angles that are not a
    /// multiple of 90 degrees are refused with `InvalidParameter`.
    pub fn rotate(&self, degrees: u32) -> (r: Result<Image, ImageError>)
        ensures
            match rotation_of(self@, degrees as int) {
                Some(m) => r matches Ok(img) && img@ == m,
                None => r matches Err(e) && e is InvalidParameter,
            },
    {
        proof {
            use_type_invariant(self);
        }
        let d = degrees % 360;
        if d % 90 != 0 {
            return Err(
                ImageError::InvalidParameter(
                    String::from_str("rotation must be a multiple of 90 degrees"),
                ),
            );
        }
        let quarter: u64 = (d / 90) as u64;
        let w: u64 = self.width as u64;
        let h: u64 = self.height as u64;
        let (dw, dh) = if quarter % 2 == 1 {
            (h, w)
        } else {
            (w, h)
        };
        proof {
            lemma_area_fits(self.width, self.height);
            assert(w * h == h * w) by (nonlinear_arith);
        }
        let total: u64 = w * h;
        let ghost model = self@;
        let ghost target = turned_pixels(model, quarter as int);
        let n: usize = self.pixels.len();
        let mut out: Vec<u8> = Vec::new();
        let mut p: u64 = 0;
        while p < total
            invariant
                model == self@,
                model.wf(),
                target == turned_pixels(model, quarter as int),
                w == model.width,
                h == model.height,
                quarter < 4,
                (dw as int, dh as int) == turned_size(w as int, h as int, quarter as int),
                total == w * h,
                dw * dh == total,
                4 * total == model.pixels.len(),
                n == 4 * total,
                p <= total,
                out@.len() == 4 * p,
                forall|i: int| 0 <= i < out@.len() ==> out@[i] == target[i],
            decreases total - p,
        {
            proof {
                lemma_mod_bound(p as int, dw as int);
                lemma_multiply_divide_lt(p as int, dw as int, dh as int);
            }
            let x = p % dw;
            let y = p / dw;
            let (sx, sy) = source_pixel(w, h, quarter, x, y);
            proof {
                assert(sy * w + sx < w * h) by (nonlinear_arith)
                    requires
                        sy < h,
                        sx < w,
                ;
                assert(4 * (sy * w + sx) + 3 < 4 * total);
            }
            let base: u64 = 4 * (sy * w + sx);
            let ghost before = out@;
            out.push(self.pixels[base as usize]);
            out.push(self.pixels[(base + 1) as usize]);
            out.push(self.pixels[(base + 2) as usize]);
            out.push(self.pixels[(base + 3) as usize]);
            proof {
                assert forall|i: int| 0 <= i < out@.len() implies out@[i] == target[i] by {
                    if i >= 4 * p {
                        lemma_fundamental_div_mod_converse(i, 4, p as int, i - 4 * p);
                        assert(i / 4 == p);
                        let k = i - 4 * p;
                        assert(turn_source(w as int, h as int, quarter as int, (p as int) % (dw as int), (p as int) / (dw as int)) == (sx as int, sy as int));
                        assert(target[i] == model.pixels[4 * (sy * w + sx) + k]);
                        assert(out@[i] == self.pixels@[base + k]);
                    } else {
                        assert(out@[i] == before[i]);
                    }
                }
            }
            p = p + 1;
        }
        proof {
            assert(out@ =~= target);
            assert(4 * dw * dh == 4 * (dw * dh)) by (nonlinear_arith);
        }
        Ok(
            Image {
                width: dw as u32,
                height: dh as u32,
                pixels: out,
                size: self.size,
                format: self.format.clone(),
            },
        )
    }

    /// Scales the image to `width` by `height`, or, keeping the aspect ratio,
    /// to the largest box of that ratio that fits in `width` by `height`.
    /// Fails with `InvalidParameter` on an empty box or on a result of more
    /// than `MAX_PIXELS` pixels.
    pub fn resize(&self, width: u32, height: u32, filter: ImageFilter, keep_aspect: bool) -> (r:
        Result<Image, ImageError>)
        ensures
            match resize_outcome(self@, width, height, filter.filter, keep_aspect) {
                Some(m) => r matches Ok(img) && img@ == m,
                None => r matches Err(e) && e is InvalidParameter,
            },
    {
        proof {
            use_type_invariant(self);
        }
        if width == 0 || height == 0 {
            return Err(ImageError::InvalidParameter(String::from_str("width and height must be positive")));
        }
        let (nw, nh) = if keep_aspect {
            proof {
                lemma_fit_keeps_aspect(self.width as int, self.height as int, width as int, height as int);
            }
            fit_dimensions(self.width, self.height, width, height)
        } else {
            (width, height)
        };
        proof {
            lemma_area_fits(nw, nh);
        }
        if (nw as u64) * (nh as u64) > MAX_PIXELS {
            return Err(ImageError::InvalidParameter(String::from_str("requested size exceeds the pixel limit")));
        }
        let px = resample(&self.pixels, self.width, self.height, nw, nh, filter.filter);
        Ok(Image { width: nw, height: nh, pixels: px, size: self.size, format: self.format.clone() })
    }

    /// Writes the image in the given encoding at the end of `buf`. Fails with
    /// `EncodeError`, leaving `buf` as it was, when the encoder fails.
    pub fn write_to(&self, buf: &mut Vec<u8>, format: OutputFormat) -> (r: Result<(), ImageError>)
        ensures
            match encoded(self@.pixels, self@.width, self@.height, format.format) {
                Some(bytes) => r is Ok && final(buf)@ == old(buf)@ + bytes,
                None => (r matches Err(e) && e is EncodeError) && final(buf)@ == old(buf)@,
            },
    {
        proof {
            use_type_invariant(self);
        }
        match encode_rgba(&self.pixels, self.width, self.height, format.format) {
            Ok(v) => {
                let mut v = v;
                buf.append(&mut v);
                Ok(())
            },
            Err(e) => Err(
                ImageError::EncodeError(
                    String::from_str("image write error: ").concat(codec_error_text(&e).as_str()),
                ),
            ),
        }
    }

    /// The RGBA samples, four bytes per pixel, row by row.
    pub fn img_data(&self) -> (r: &Vec<u8>)
        ensures
            r@ == self@.pixels,
    {
        &self.pixels
    }

    pub fn width(&self) -> (r: u32)
        ensures
            r == self@.width,
    {
        self.width
    }

    pub fn height(&self) -> (r: u32)
        ensures
            r == self@.height,
    {
        self.height
    }

    /// The length in bytes of the upload the image was decoded from.
    pub fn size(&self) -> (r: usize)
        ensures
            r == self@.size,
    {
        self.size
    }

    /// The content type declared for the upload.
    pub fn format(&self) -> (r: &str)
        ensures
            r@ == self@.format,
    {
        self.format.as_str()
    }

    /// What an inspect request reports.
    pub fn stats(&self) -> (r: ImageStats)
        ensures
            r.width == self@.width,
            r.height == self@.height,
            r.size == self@.size,
            r.format@ == self@.format,
    {
        ImageStats::new(self.width, self.height, self.size, self.format.clone())
    }
}

} // verus!
