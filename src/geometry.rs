//! Integer geometry of the transforms: fitting a box while keeping the aspect
//! ratio, and where each pixel of a rotated image comes from.
use vstd::prelude::*;
use vstd::arithmetic::div_mod::{lemma_fundamental_div_mod, lemma_div_is_ordered, lemma_div_by_multiple, lemma_mod_bound};

verus! {

/// The number of pixels of a `u32` by `u32` image fits in 64 bits.
pub proof fn lemma_area_fits(w: u32, h: u32)
    ensures
        0 <= w * h <= 0xFFFF_FFFE_0000_0001,
        4 * w * h == 4 * (w * h),
{
    assert(4 * w * h == 4 * (w * h)) by (nonlinear_arith);
    assert(0 <= w * h <= 0xFFFF_FFFE_0000_0001) by (nonlinear_arith)
        requires
            0 <= w <= 0xFFFF_FFFF,
            0 <= h <= 0xFFFF_FFFF,
    ;
}

/// The largest box of the aspect ratio `w : h` that fits in `bw` by `bh`:
/// the limiting side is taken whole, the other is scaled and rounded down,
/// and never below one pixel.
pub open spec fn fit_within(w: int, h: int, bw: int, bh: int) -> (int, int) {
    if bw * h <= bh * w {
        let q = bw * h / w;
        (bw, if q >= 1 { q } else { 1 })
    } else {
        let q = bh * w / h;
        (if q >= 1 { q } else { 1 }, bh)
    }
}

/// A box fitted to the aspect ratio of a `w` by `h` image lies within the
/// requested box, fills it along one side, and along the other side differs
/// from the exact ratio by less than one pixel.
pub proof fn lemma_fit_keeps_aspect(w: int, h: int, bw: int, bh: int)
    requires
        w > 0,
        h > 0,
        bw > 0,
        bh > 0,
    ensures
        ({
            let (nw, nh) = fit_within(w, h, bw, bh);
            &&& 1 <= nw <= bw
            &&& 1 <= nh <= bh
            &&& (nw == bw && -w < nw * h - nh * w < w) || (nh == bh && -h < nw * h - nh * w < h)
        }),
{
    if bw * h <= bh * w {
        let a = bw * h;
        let q = a / w;
        lemma_fundamental_div_mod(a, w);
        lemma_mod_bound(a, w);
        lemma_div_is_ordered(a, bh * w, w);
        lemma_div_by_multiple(bh, w);
        assert(a >= 1) by (nonlinear_arith)
            requires
                bw > 0,
                h > 0,
                a == bw * h,
        ;
        assert(w * q == q * w) by (nonlinear_arith);
        assert(q <= bh);
        if q >= 1 {
            assert(bw * h - q * w == a % w);
        } else {
            assert(q == 0);
            assert(a < w);
            assert(bw * h - 1 * w == a - w);
        }
    } else {
        let a = bh * w;
        let q = a / h;
        lemma_fundamental_div_mod(a, h);
        lemma_mod_bound(a, h);
        lemma_div_is_ordered(a, bw * h, h);
        lemma_div_by_multiple(bw, h);
        assert(a >= 1) by (nonlinear_arith)
            requires
                bh > 0,
                w > 0,
                a == bh * w,
        ;
        assert(h * q == q * h) by (nonlinear_arith);
        assert(w * bh == bh * w) by (nonlinear_arith);
        assert(q <= bw);
        if q >= 1 {
            assert(q * h - bh * w == -(a % h));
        } else {
            assert(q == 0);
            assert(h * q == 0) by (nonlinear_arith)
                requires
                    q == 0,
            ;
            assert(a < h);
            assert(1 * h - bh * w == h - a);
        }
    }
}

/// Computes `fit_within` for a `width` by `height` image and a
/// `box_width` by `box_height` box.
pub fn fit_dimensions(width: u32, height: u32, box_width: u32, box_height: u32) -> (r: (u32, u32))
    requires
        width > 0,
        height > 0,
        box_width > 0,
        box_height > 0,
    ensures
        (r.0 as int, r.1 as int) == fit_within(width as int, height as int, box_width as int, box_height as int),
{
    proof {
        lemma_area_fits(box_width, height);
        lemma_area_fits(box_height, width);
        lemma_fit_keeps_aspect(width as int, height as int, box_width as int, box_height as int);
    }
    let a: u64 = (box_width as u64) * (height as u64);
    let b: u64 = (box_height as u64) * (width as u64);
    if a <= b {
        let q: u64 = a / (width as u64);
        if q >= 1 {
            (box_width, q as u32)
        } else {
            (box_width, 1)
        }
    } else {
        let q: u64 = b / (height as u64);
        if q >= 1 {
            (q as u32, box_height)
        } else {
            (1, box_height)
        }
    }
}

/// The size of a `w` by `h` image after `quarter` clockwise quarter turns.
pub open spec fn turned_size(w: int, h: int, quarter: int) -> (int, int) {
    if quarter % 2 == 1 {
        (h, w)
    } else {
        (w, h)
    }
}

/// Where the pixel at column `x`, row `y` of a `w` by `h` image turned
/// clockwise by `quarter` quarter turns comes from in the unturned image.
pub open spec fn turn_source(w: int, h: int, quarter: int, x: int, y: int) -> (int, int) {
    if quarter == 1 {
        (y, h - 1 - x)
    } else if quarter == 2 {
        (w - 1 - x, h - 1 - y)
    } else if quarter == 3 {
        (w - 1 - y, x)
    } else {
        (x, y)
    }
}

/// Computes `turn_source` for a pixel of the turned image.
pub fn source_pixel(w: u64, h: u64, quarter: u64, x: u64, y: u64) -> (r: (u64, u64))
    requires
        quarter < 4,
        ({
            let (dw, dh) = turned_size(w as int, h as int, quarter as int);
            x < dw && y < dh
        }),
    ensures
        (r.0 as int, r.1 as int) == turn_source(w as int, h as int, quarter as int, x as int, y as int),
        r.0 < w,
        r.1 < h,
{
    if quarter == 1 {
        (y, h - 1 - x)
    } else if quarter == 2 {
        (w - 1 - x, h - 1 - y)
    } else if quarter == 3 {
        (w - 1 - y, x)
    } else {
        (x, y)
    }
}

} // verus!
