//! Coordinate rescaling between the detector's input resolution and the
//! full display resolution.
//!
//! Detections run on a downscaled copy of the frame, but bounding boxes are
//! always expressed in full-resolution display coordinates: the detector
//! rescales before publishing. Rescaling rounds to the nearest pixel, and a
//! box taken up to the display resolution and back lands within one pixel
//! of where it started.

use vstd::prelude::*;
use vstd::arithmetic::div_mod::lemma_fundamental_div_mod;
use crate::BoundingBox;

verus! {

/// Full-resolution display frame size.
pub const DISPLAY_WIDTH: u32 = 1920;

pub const DISPLAY_HEIGHT: u32 = 1080;

/// Detector input size: frames are downscaled to this before inference.
pub const MODEL_INPUT_WIDTH: u32 = 320;

pub const MODEL_INPUT_HEIGHT: u32 = 320;

/// A coordinate moved from an axis of length `from` to an axis of length
/// `to`, rounded to the nearest grid point (halves round down).
pub open spec fn spec_scale(v: int, from: int, to: int) -> int
    recommends
        from >= 1,
{
    (v * to + from / 2) / from
}

/// Rescale one coordinate from an axis of length `from` to one of length
/// `to`.
pub fn scale_coord(v: u32, from: u32, to: u32) -> (r: u64)
    requires
        from >= 1,
    ensures
        r == spec_scale(v as int, from as int, to as int),
{
    proof {
        assert((v as int) * (to as int) + (from as int) / 2 < 18446744073709551616int)
            by (nonlinear_arith)
            requires
                0 <= v as int <= 4294967295int,
                0 <= to as int <= 4294967295int,
                0 <= (from as int) / 2 <= 4294967295int,
        ;
    }
    ((v as u64) * (to as u64) + (from as u64) / 2) / (from as u64)
}

/// A coordinate inside the source axis stays inside the destination axis.
pub proof fn lemma_scale_in_range(v: int, from: int, to: int)
    requires
        1 <= from,
        0 <= to,
        0 <= v <= from,
    ensures
        0 <= spec_scale(v, from, to) <= to,
{
    let a = v * to + from / 2;
    let q = a / from;
    let r = a % from;
    lemma_fundamental_div_mod(a, from);
    vstd::arithmetic::div_mod::lemma_mod_bound(a, from);
    assert(0 <= a) by (nonlinear_arith)
        requires
            a == v * to + from / 2,
            0 <= v,
            0 <= to,
            0 <= from / 2,
    ;
    assert(a <= from * to + from / 2) by (nonlinear_arith)
        requires
            a == v * to + from / 2,
            v <= from,
            0 <= to,
    ;
    assert(0 <= q <= to) by (nonlinear_arith)
        requires
            a == from * q + r,
            0 <= r < from,
            0 <= a,
            a <= from * to + from / 2,
            from / 2 < from,
            from >= 1,
            to >= 0,
    ;
}

/// Round-trip tolerance: taking a coordinate from the detector's axis up to
/// a display axis at least as long, then back down, lands within one pixel
/// of the original coordinate.
///
/// The bound needs the first hop to go to the finer axis: a trip that
/// starts by discarding resolution (display down to model and back) can be
/// off by up to the scale ratio, so it is not covered here.
pub proof fn lemma_scale_round_trip(v: int, from: int, to: int)
    requires
        1 <= from <= to,
        0 <= v,
    ensures
        v - 1 <= spec_scale(spec_scale(v, from, to), to, from) <= v + 1,
{
    let a = v * to + from / 2;
    let y = a / from;
    let ra = a % from;
    lemma_fundamental_div_mod(a, from);
    vstd::arithmetic::div_mod::lemma_mod_bound(a, from);
    assert(0 <= a) by (nonlinear_arith)
        requires
            a == v * to + from / 2,
            0 <= v,
            0 <= to,
            0 <= from / 2,
    ;
    assert(y >= 0) by (nonlinear_arith)
        requires
            0 <= a,
            from >= 1,
            a == from * y + ra,
            0 <= ra < from,
    ;
    let b = y * from + to / 2;
    let x = b / to;
    let rb = b % to;
    lemma_fundamental_div_mod(b, to);
    vstd::arithmetic::div_mod::lemma_mod_bound(b, to);
    // Upper bound: to*x <= b = y*from + to/2 <= a + to/2 <= v*to + from/2 + to/2
    //              < v*to + 2*to, hence x <= v + 1.
    assert(x <= v + 1) by (nonlinear_arith)
        requires
            b == to * x + rb,
            0 <= rb < to,
            b == y * from + to / 2,
            a == from * y + ra,
            0 <= ra < from,
            a == v * to + from / 2,
            from <= to,
            to >= 1,
            from / 2 < from,
            to / 2 < to,
    ;
    // Lower bound: to*x > b - to = y*from + to/2 - to, and y*from > a - from
    //              >= v*to - from >= v*to - to, hence to*x > v*to - 2*to.
    assert(x >= v - 1) by (nonlinear_arith)
        requires
            b == to * x + rb,
            0 <= rb < to,
            b == y * from + to / 2,
            a == from * y + ra,
            0 <= ra < from,
            a == v * to + from / 2,
            from <= to,
            to >= 1,
            0 <= from / 2,
            0 <= to / 2,
    ;
}

/// Rescaling preserves order along an axis.
pub proof fn lemma_scale_monotone(v1: int, v2: int, from: int, to: int)
    requires
        1 <= from,
        0 <= to,
        0 <= v1 <= v2,
    ensures
        spec_scale(v1, from, to) <= spec_scale(v2, from, to),
{
    assert(v1 * to <= v2 * to) by (nonlinear_arith)
        requires
            v1 <= v2,
            0 <= to,
    ;
    vstd::arithmetic::div_mod::lemma_div_is_ordered(
        v1 * to + from / 2,
        v2 * to + from / 2,
        from,
    );
}

/// A bounding box rescaled from a `from_w` by `from_h` frame to a `to_w` by
/// `to_h` frame. The near and far edges of the box are mapped and the
/// extent is their difference: rounding the width on its own could push the
/// far edge one pixel past the destination frame, while a mapped far edge
/// of an in-frame box always lands inside it.
pub open spec fn spec_scale_box(
    b: BoundingBox,
    from_w: int,
    from_h: int,
    to_w: int,
    to_h: int,
) -> BoundingBox {
    let x = spec_scale(b.x as int, from_w, to_w);
    let y = spec_scale(b.y as int, from_h, to_h);
    let x_end = spec_scale(b.x + b.w, from_w, to_w);
    let y_end = spec_scale(b.y + b.h, from_h, to_h);
    BoundingBox { x: x as u16, y: y as u16, w: (x_end - x) as u16, h: (y_end - y) as u16 }
}

/// Rescale a bounding box between frame geometries: a box inside the
/// source frame comes out inside the destination frame.
pub fn scale_box(b: &BoundingBox, from_w: u32, from_h: u32, to_w: u32, to_h: u32) -> (r: BoundingBox)
    requires
        1 <= from_w,
        1 <= from_h,
        to_w <= u16::MAX,
        to_h <= u16::MAX,
        b.x + b.w <= from_w,
        b.y + b.h <= from_h,
    ensures
        r == spec_scale_box(*b, from_w as int, from_h as int, to_w as int, to_h as int),
        r.x + r.w <= to_w,
        r.y + r.h <= to_h,
{
    proof {
        lemma_scale_in_range(b.x + b.w, from_w as int, to_w as int);
        lemma_scale_in_range(b.y + b.h, from_h as int, to_h as int);
        lemma_scale_monotone(b.x as int, b.x + b.w, from_w as int, to_w as int);
        lemma_scale_monotone(b.y as int, b.y + b.h, from_h as int, to_h as int);
        lemma_scale_in_range(b.x as int, from_w as int, to_w as int);
        lemma_scale_in_range(b.y as int, from_h as int, to_h as int);
    }
    let x = scale_coord(b.x as u32, from_w, to_w);
    let y = scale_coord(b.y as u32, from_h, to_h);
    let x_end = scale_coord(b.x as u32 + b.w as u32, from_w, to_w);
    let y_end = scale_coord(b.y as u32 + b.h as u32, from_h, to_h);
    BoundingBox {
        x: x as u16,
        y: y as u16,
        w: (x_end - x) as u16,
        h: (y_end - y) as u16,
    }
}

} // verus!
