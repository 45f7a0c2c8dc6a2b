use vstd::arithmetic::div_mod::{
    lemma_fundamental_div_mod, lemma_fundamental_div_mod_converse,
};
use vstd::math::{max, min};
use vstd::prelude::*;

verus! {

/// Target shape of a scaled output, kept exact as a pair of integers:
/// the ratio of the longer edge to the shorter one is `num / den`.
/// `num == 0` stands for "derive the ratio from the source image".
#[derive(Clone, Copy, PartialEq, Eq, Structural, Debug)]
pub struct Aspect {
    pub num: u32,
    pub den: u32,
}

/// Ratio of the longer source edge to the shorter one.
pub fn aspect(width: i32, height: i32) -> (r: Aspect)
    requires
        0 <= width,
        0 <= height,
    ensures
        r.num == max(width as int, height as int),
        r.den == min(width as int, height as int),
{
    if width >= height {
        Aspect { num: width as u32, den: height as u32 }
    } else {
        Aspect { num: height as u32, den: width as u32 }
    }
}

/// Saturation applied wherever a computed dimension leaves the range of
/// the pixel capability's edge lengths.
pub open spec fn clamp_i32(x: int) -> int {
    if x > i32::MAX as int {
        i32::MAX as int
    } else if x < i32::MIN as int {
        i32::MIN as int
    } else {
        x
    }
}

fn clamp_to_i32(x: i128) -> (r: i32)
    ensures
        r == clamp_i32(x as int),
{
    if x > i32::MAX as i128 {
        i32::MAX
    } else if x < i32::MIN as i128 {
        i32::MIN
    } else {
        x as i32
    }
}

/// Floor division with a positive divisor. On `int`, `/` is Euclidean
/// division, which agrees with flooring whenever the divisor is positive.
fn div_floor(a: i128, b: i128) -> (r: i128)
    requires
        1 <= b <= 0x1_0000_0000_0000_0000,
        -0x10_0000_0000_0000_0000_0000_0000 <= a <= 0x10_0000_0000_0000_0000_0000_0000,
    ensures
        r == a as int / b as int,
{
    if a >= 0 {
        let q = (a as u128) / (b as u128);
        q as i128
    } else {
        let n = (-a) as u128;
        let d = b as u128;
        let q = (n + d - 1) / d;
        proof {
            lemma_neg_div_floor(n as int, d as int);
        }
        -(q as i128)
    }
}

/// For a positive divisor `d`, dividing `-n` rounds toward minus
/// infinity, which is the negated ceiling of `n / d`.
proof fn lemma_neg_div_floor(n: int, d: int)
    requires
        1 <= n,
        1 <= d,
    ensures
        (-n) / d == -((n + d - 1) / d),
{
    let q = (n + d - 1) / d;
    let r = (n + d - 1) % d;
    lemma_fundamental_div_mod(n + d - 1, d);
    assert(n + d - 1 == d * q + r);
    let r2 = d - 1 - r;
    assert(-n == (-q) * d + r2) by {
        assert((-q) * d == -(d * q)) by (nonlinear_arith);
    }
    lemma_fundamental_div_mod_converse(-n, d, -q, r2);
}

/// Where one scale step starts from: the configured output size when
/// one is given, else the longer source edge.
pub open spec fn scale_base(size: Option<i32>, src_edge: int) -> int {
    match size {
        Some(s) => s as int,
        None => src_edge,
    }
}

/// The shape a scale step aims for: the configured ratio, or the
/// source's own ratio when the configured numerator is zero.
pub open spec fn effective_aspect(aspect: Aspect, src_w: int, src_h: int) -> (int, int) {
    if aspect.num == 0 {
        (max(src_w, src_h), min(src_w, src_h))
    } else {
        (aspect.num as int, aspect.den as int)
    }
}

/// Exact letterbox geometry of one scale step, as
/// `(thumb_width, thumb_height, area_width, area_height)`.
///
/// With ratio `A = num / den`, margin percent `m` and base edge `b`, the
/// canvas is `b` along the longer direction and `floor(b / A)` along the
/// shorter one, and the thumbnail loses a margin of `m percent of
/// (b / A)` on both directions:
/// `floor(b - margin)` by `floor(b / A - margin)` for a landscape
/// source, mirrored for a portrait source. Every result saturates to
/// the edge range of the pixel capability.
pub open spec fn spec_scale_geometry(
    aspect: Aspect,
    m: int,
    size: Option<i32>,
    src_w: int,
    src_h: int,
) -> (int, int, int, int) {
    let (num, den) = effective_aspect(aspect, src_w, src_h);
    if src_w > src_h {
        let base = scale_base(size, src_w);
        (
            clamp_i32((100 * num * base - m * (den * base)) / (100 * num)),
            clamp_i32(((den * base) * (100 - m)) / (100 * num)),
            clamp_i32(base),
            clamp_i32((den * base) / num),
        )
    } else {
        let base = scale_base(size, src_h);
        (
            clamp_i32(((den * base) * (100 - m)) / (100 * num)),
            clamp_i32((100 * num * base - m * (den * base)) / (100 * num)),
            clamp_i32((den * base) / num),
            clamp_i32(base),
        )
    }
}

/// Thumbnail and canvas edges of one scale step.
pub struct ScaleGeometry {
    pub thumb_width: i32,
    pub thumb_height: i32,
    pub area_width: i32,
    pub area_height: i32,
}

/// Computes the letterbox geometry of one scale step exactly.
pub fn compute_scale_geometry(
    aspect: Aspect,
    margin_percent: i32,
    size: Option<i32>,
    src_w: i32,
    src_h: i32,
) -> (g: ScaleGeometry)
    requires
        1 <= src_w,
        1 <= src_h,
    ensures
        ({
            let (tw, th, aw, ah) = spec_scale_geometry(
                aspect,
                margin_percent as int,
                size,
                src_w as int,
                src_h as int,
            );
            g.thumb_width == tw && g.thumb_height == th && g.area_width == aw
                && g.area_height == ah
        }),
{
    let (num, den): (i128, i128) = if aspect.num == 0 {
        if src_w >= src_h {
            (src_w as i128, src_h as i128)
        } else {
            (src_h as i128, src_w as i128)
        }
    } else {
        (aspect.num as i128, aspect.den as i128)
    };
    let landscape = src_w > src_h;
    let base: i128 = match size {
        Some(s) => s as i128,
        None => if landscape {
            src_w as i128
        } else {
            src_h as i128
        },
    };
    let m = margin_percent as i128;
    proof {
        assert(-0x8000_0000_0000_0000 <= den * base <= 0x8000_0000_0000_0000) by (nonlinear_arith)
            requires
                0 <= den <= 0x1_0000_0000,
                -0x8000_0000 <= base <= 0x8000_0000,
        ;
    }
    let db: i128 = den * base;
    proof {
        assert(-0x1_0000_0000_0000_0000_0000_0000 <= db * (100 - m)
            <= 0x1_0000_0000_0000_0000_0000_0000) by (nonlinear_arith)
            requires
                -0x8000_0000_0000_0000 <= db <= 0x8000_0000_0000_0000,
                -0x8000_0000 <= m <= 0x8000_0000,
        ;
        assert(-0x1_0000_0000_0000_0000_0000_0000 <= 100 * num * base
            <= 0x1_0000_0000_0000_0000_0000_0000) by (nonlinear_arith)
            requires
                0 <= num <= 0x1_0000_0000,
                -0x8000_0000 <= base <= 0x8000_0000,
        ;
        assert(-0x1_0000_0000_0000_0000_0000_0000 <= m * db
            <= 0x1_0000_0000_0000_0000_0000_0000) by (nonlinear_arith)
            requires
                -0x8000_0000_0000_0000 <= db <= 0x8000_0000_0000_0000,
                -0x8000_0000 <= m <= 0x8000_0000,
        ;
    }
    let longer: i128 = div_floor(100 * num * base - m * db, 100 * num);
    let shorter: i128 = div_floor(db * (100 - m), 100 * num);
    let area_shorter: i128 = div_floor(db, num);
    if landscape {
        ScaleGeometry {
            thumb_width: clamp_to_i32(longer),
            thumb_height: clamp_to_i32(shorter),
            area_width: clamp_to_i32(base),
            area_height: clamp_to_i32(area_shorter),
        }
    } else {
        ScaleGeometry {
            thumb_width: clamp_to_i32(shorter),
            thumb_height: clamp_to_i32(longer),
            area_width: clamp_to_i32(area_shorter),
            area_height: clamp_to_i32(base),
        }
    }
}

/// Edges an uncropped thumbnail request ends in: the source shape is
/// kept and scaled to the largest size that fits the requested box.
/// This is the dimension rule of the pixel capability's plain
/// thumbnail; a cropped thumbnail fills the box exactly instead.
pub open spec fn spec_fit_within(src_w: int, src_h: int, box_w: int, box_h: int) -> (int, int) {
    if box_w * src_h <= box_h * src_w {
        (box_w, clamp_i32(box_w * src_h / src_w))
    } else {
        (clamp_i32(box_h * src_w / src_h), box_h)
    }
}

/// Computes the edges an uncropped thumbnail request ends in.
pub fn fit_within(src_w: i32, src_h: i32, box_w: i32, box_h: i32) -> (r: (i32, i32))
    requires
        1 <= src_w,
        1 <= src_h,
        0 <= box_w,
        0 <= box_h,
    ensures
        (r.0 as int, r.1 as int) == spec_fit_within(src_w as int, src_h as int, box_w as int, box_h as int),
{
    proof {
        assert(0 <= (box_w as u64) * (src_h as u64) <= 0x4000_0000_0000_0000) by (nonlinear_arith)
            requires
                0 <= box_w <= 0x8000_0000u64,
                0 <= src_h <= 0x8000_0000u64,
        ;
        assert(0 <= (box_h as u64) * (src_w as u64) <= 0x4000_0000_0000_0000) by (nonlinear_arith)
            requires
                0 <= box_h <= 0x8000_0000u64,
                0 <= src_w <= 0x8000_0000u64,
        ;
    }
    let wh: u64 = (box_w as u64) * (src_h as u64);
    let hw: u64 = (box_h as u64) * (src_w as u64);
    if wh <= hw {
        let other = wh / (src_w as u64);
        (box_w, if other > i32::MAX as u64 {
            i32::MAX
        } else {
            other as i32
        })
    } else {
        let other = hw / (src_h as u64);
        (if other > i32::MAX as u64 {
            i32::MAX
        } else {
            other as i32
        }, box_h)
    }
}

/// The other edge of a single-dimension resize: the given edge times
/// the source ratio, floored, saturating at the capability's limit.
pub open spec fn spec_resize_other(pixels: int, src_w: int, src_h: int) -> int {
    clamp_i32((pixels * max(src_w, src_h)) / min(src_w, src_h))
}

/// Computes the derived edge of a single-dimension resize.
pub fn compute_resize_other(pixels: i32, src_w: i32, src_h: i32) -> (r: i32)
    requires
        1 <= src_w,
        1 <= src_h,
    ensures
        r == spec_resize_other(pixels as int, src_w as int, src_h as int),
{
    let (lo, hi): (i128, i128) = if src_w >= src_h {
        (src_h as i128, src_w as i128)
    } else {
        (src_w as i128, src_h as i128)
    };
    proof {
        assert(-0x4000_0000_0000_0000 <= (pixels as i128) * hi <= 0x4000_0000_0000_0000)
            by (nonlinear_arith)
            requires
                -0x8000_0000 <= pixels <= 0x8000_0000,
                0 <= hi <= 0x8000_0000i128,
        ;
    }
    let scaled: i128 = div_floor((pixels as i128) * hi, lo);
    clamp_to_i32(scaled)
}

} // verus!
