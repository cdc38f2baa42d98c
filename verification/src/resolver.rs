//! The dimension resolver: a pure function from the original pixel
//! dimensions and a target specification to the target dimensions.
//!
//! Constraint layers are applied in a fixed order, each overriding or
//! narrowing the previous result: pixel constraints first, then
//! aspect-ratio bounds, then physical size (with millimetres applied after
//! and therefore over centimetres), and finally a floor of one pixel on
//! both axes. The order is a policy choice and is part of the contract.

use vstd::prelude::*;

use crate::constraints::{AspectRatioSpec, DimensionsSpec, DocumentSpec, PixelSpec};

verus! {

/// Clamp `x` into `[lo, hi]`, checking the lower bound first.
pub open spec fn clamp_dim(x: int, lo: int, hi: int) -> int {
    if x < lo {
        lo
    } else if x > hi {
        hi
    } else {
        x
    }
}

/// The effective lower width bound: the direct field, else the nested
/// `min` pair, else 1.
pub open spec fn eff_min_width(p: PixelSpec) -> int {
    match p.min_width {
        Some(w) => w as int,
        None => match p.min {
            Some(m) => m.width as int,
            None => 1,
        },
    }
}

/// The effective upper width bound: the direct field, else the nested
/// `max` pair, else unbounded (`u32::MAX`).
pub open spec fn eff_max_width(p: PixelSpec) -> int {
    match p.max_width {
        Some(w) => w as int,
        None => match p.max {
            Some(m) => m.width as int,
            None => u32::MAX as int,
        },
    }
}

/// The effective lower height bound.
pub open spec fn eff_min_height(p: PixelSpec) -> int {
    match p.min_height {
        Some(h) => h as int,
        None => match p.min {
            Some(m) => m.height as int,
            None => 1,
        },
    }
}

/// The effective upper height bound.
pub open spec fn eff_max_height(p: PixelSpec) -> int {
    match p.max_height {
        Some(h) => h as int,
        None => match p.max {
            Some(m) => m.height as int,
            None => u32::MAX as int,
        },
    }
}

/// The pixel-constraint layer. Exact width and height override the working
/// pair unconditionally; otherwise each axis is clamped into its range
/// independently, which alone may distort the aspect ratio.
pub open spec fn pixel_layer(w: int, h: int, pixels: Option<PixelSpec>) -> (int, int) {
    match pixels {
        None => (w, h),
        Some(p) => {
            match (p.width, p.height) {
                (Some(ew), Some(eh)) => (ew as int, eh as int),
                _ => (
                    clamp_dim(w, eff_min_width(p), eff_max_width(p)),
                    clamp_dim(h, eff_min_height(p), eff_max_height(p)),
                ),
            }
        },
    }
}

/// `(a * num) / den`, truncated, then saturated to `u32::MAX`: the value
/// a saturating cast of the scaled length to `u32` yields.
pub open spec fn mul_div_sat_spec(a: int, num: int, den: int) -> int {
    let q = (a * num) / den;
    if q > u32::MAX as int {
        u32::MAX as int
    } else {
        q
    }
}

/// The width/height-ratio check: below `min` the width is recomputed from
/// the height; above `max` the height is recomputed from the width. Only
/// one axis is corrected. Both ends of the pair must be present for the
/// check to run. Ratio comparisons are by cross-multiplication, so a zero
/// height never divides.
pub open spec fn wh_ratio_layer(w: int, h: int, a: AspectRatioSpec) -> (int, int) {
    match (a.min, a.max) {
        (Some(mn), Some(mx)) => {
            if w * mn.den < h * mn.num {
                (mul_div_sat_spec(h, mn.num as int, mn.den as int), h)
            } else if w * mx.den > h * mx.num {
                (w, mul_div_sat_spec(w, mx.den as int, mx.num as int))
            } else {
                (w, h)
            }
        },
        _ => (w, h),
    }
}

/// The height/width-ratio check, applied after `wh_ratio_layer` and
/// independent of it: either correction rewrites the height from the
/// width, possibly overwriting what the first check set.
pub open spec fn hw_ratio_layer(w: int, h: int, a: AspectRatioSpec) -> (int, int) {
    match (a.height_to_width_min, a.height_to_width_max) {
        (Some(mn), Some(mx)) => {
            if h * mn.den < w * mn.num {
                (w, mul_div_sat_spec(w, mn.num as int, mn.den as int))
            } else if h * mx.den > w * mx.num {
                (w, mul_div_sat_spec(w, mx.num as int, mx.den as int))
            } else {
                (w, h)
            }
        },
        _ => (w, h),
    }
}

/// The aspect-ratio layer: the width/height check, then the height/width
/// check on its output.
pub open spec fn aspect_layer(w: int, h: int, aspect: Option<AspectRatioSpec>) -> (int, int) {
    match aspect {
        None => (w, h),
        Some(a) => {
            let wh = wh_ratio_layer(w, h, a);
            hw_ratio_layer(wh.0, wh.1, a)
        },
    }
}

/// The DPI the physical-size layer uses: the specified value or 150.
pub open spec fn dpi_of(target_spec: DocumentSpec) -> int {
    match target_spec.resolution_px_per_inch {
        Some(d) => d as int,
        None => 150,
    }
}

/// Pixels for a physical length of `len_centi` hundredths of a unit at
/// `dpi`, where an inch holds `centis_per_inch` hundredths of that unit
/// (254 for centimetres, 2540 for millimetres), truncating to whole
/// pixels.
pub open spec fn physical_px(len_centi: int, dpi: int, centis_per_inch: int) -> int {
    mul_div_sat_spec(len_centi, dpi, centis_per_inch)
}

/// The physical-size layer: when present it overrides all prior layers;
/// a millimetre size is applied after and therefore over a centimetre
/// size.
pub open spec fn physical_layer(w: int, h: int, target_spec: DocumentSpec) -> (int, int) {
    let dpi = dpi_of(target_spec);
    let after_cm = match target_spec.dimensions_cm {
        Some(d) => (
            physical_px(d.width_centi as int, dpi, 254),
            physical_px(d.height_centi as int, dpi, 254),
        ),
        None => (w, h),
    };
    match target_spec.dimensions_mm {
        Some(d) => (
            physical_px(d.width_centi as int, dpi, 2540),
            physical_px(d.height_centi as int, dpi, 2540),
        ),
        None => after_cm,
    }
}

/// Clamp a final dimension to at least one pixel.
pub open spec fn floor_one(x: int) -> int {
    if x < 1 {
        1
    } else {
        x
    }
}

/// The resolved target dimensions: pixel layer, aspect-ratio layer,
/// physical-size layer, then the one-pixel floor.
pub open spec fn resolved_dims(w: int, h: int, target_spec: DocumentSpec) -> (int, int) {
    let p = pixel_layer(w, h, target_spec.pixels);
    let a = aspect_layer(p.0, p.1, target_spec.aspect_ratio);
    let f = physical_layer(a.0, a.1, target_spec);
    (floor_one(f.0), floor_one(f.1))
}

/// With an exact pixel constraint of at least one pixel on each axis and
/// no aspect-ratio or physical-size constraints, the resolver returns
/// exactly the requested pair, whatever the original dimensions and their
/// aspect ratio were.
pub proof fn lemma_exact_pixels_decide(
    w: int,
    h: int,
    target_spec: DocumentSpec,
    ew: u32,
    eh: u32,
)
    requires
        target_spec.pixels matches Some(p) && p.width == Some(ew) && p.height == Some(eh),
        ew >= 1,
        eh >= 1,
        target_spec.aspect_ratio is None,
        target_spec.dimensions_cm is None,
        target_spec.dimensions_mm is None,
    ensures
        resolved_dims(w, h, target_spec) == (ew as int, eh as int),
{
}

/// With a width range `[lo, hi]` (and no exact pair, aspect-ratio or
/// physical-size constraints), the resolved width lies in `[lo, hi]`, and
/// an original width already in range passes through unchanged.
pub proof fn lemma_range_clamps_width(
    w: int,
    h: int,
    target_spec: DocumentSpec,
    lo: u32,
    hi: u32,
)
    requires
        target_spec.pixels matches Some(p) && p.min_width == Some(lo) && p.max_width == Some(hi)
            && !(p.width is Some && p.height is Some),
        1 <= lo <= hi,
        target_spec.aspect_ratio is None,
        target_spec.dimensions_cm is None,
        target_spec.dimensions_mm is None,
    ensures
        lo <= resolved_dims(w, h, target_spec).0 <= hi,
        lo <= w <= hi ==> resolved_dims(w, h, target_spec).0 == w,
{
}

/// When both a centimetre and a millimetre physical size are present, the
/// millimetre one wins: the result is exactly the millimetre-derived pair,
/// with no dependence on the centimetre values or on any earlier layer.
pub proof fn lemma_mm_wins(w: int, h: int, target_spec: DocumentSpec, m: DimensionsSpec)
    requires
        target_spec.dimensions_cm is Some,
        target_spec.dimensions_mm == Some(m),
    ensures
        resolved_dims(w, h, target_spec) == (
            floor_one(physical_px(m.width_centi as int, dpi_of(target_spec), 2540)),
            floor_one(physical_px(m.height_centi as int, dpi_of(target_spec), 2540)),
        ),
{
}

/// The resolver never returns a dimension below one pixel, whatever the
/// input, including degenerate zero originals.
pub proof fn lemma_resolved_at_least_one(w: int, h: int, target_spec: DocumentSpec)
    ensures
        resolved_dims(w, h, target_spec).0 >= 1,
        resolved_dims(w, h, target_spec).1 >= 1,
{
}

/// `(a * num) / den`, truncated and saturated to `u32::MAX`.
fn mul_div_sat(a: u32, num: u32, den: u32) -> (r: u32)
    requires
        den >= 1,
    ensures
        r as int == mul_div_sat_spec(a as int, num as int, den as int),
{
    proof {
        assert((a as int) * (num as int) <= (u32::MAX as int) * (u32::MAX as int))
            by (nonlinear_arith)
            requires
                0 <= a as int <= u32::MAX as int,
                0 <= num as int <= u32::MAX as int,
        ;
    }
    let p: u64 = (a as u64) * (num as u64);
    let q: u64 = p / (den as u64);
    if q > u32::MAX as u64 {
        u32::MAX
    } else {
        q as u32
    }
}

/// Compare `a * b` with `c * d` without overflow, for the
/// cross-multiplied ratio tests.
fn mul_lt(a: u32, b: u32, c: u32, d: u32) -> (r: bool)
    ensures
        r == ((a as int) * (b as int) < (c as int) * (d as int)),
{
    proof {
        assert((a as int) * (b as int) <= (u32::MAX as int) * (u32::MAX as int)
            && (c as int) * (d as int) <= (u32::MAX as int) * (u32::MAX as int))
            by (nonlinear_arith)
            requires
                0 <= a as int <= u32::MAX as int,
                0 <= b as int <= u32::MAX as int,
                0 <= c as int <= u32::MAX as int,
                0 <= d as int <= u32::MAX as int,
        ;
    }
    (a as u64) * (b as u64) < (c as u64) * (d as u64)
}

/// Clamp `x` into `[lo, hi]`, checking the lower bound first.
fn clamp_u32(x: u32, lo: u32, hi: u32) -> (r: u32)
    ensures
        r as int == clamp_dim(x as int, lo as int, hi as int),
{
    if x < lo {
        lo
    } else if x > hi {
        hi
    } else {
        x
    }
}

/// Resolve the target dimensions for an original `width` x `height` image
/// under `target_spec`. Total: degenerate inputs clamp to one pixel rather
/// than erroring, and the result never has a dimension below 1.
pub fn resolve(width: u32, height: u32, target_spec: &DocumentSpec) -> (r: (u32, u32))
    requires
        target_spec.ratios_valid(),
    ensures
        (r.0 as int, r.1 as int) == resolved_dims(width as int, height as int, *target_spec),
        r.0 >= 1,
        r.1 >= 1,
{
    let mut w = width;
    let mut h = height;

    // Pixel-constraint layer.
    if let Some(p) = target_spec.pixels {
        if p.width.is_some() && p.height.is_some() {
            w = p.width.unwrap();
            h = p.height.unwrap();
        } else {
            let min_w = if let Some(v) = p.min_width {
                v
            } else if let Some(m) = p.min {
                m.width
            } else {
                1
            };
            let max_w = if let Some(v) = p.max_width {
                v
            } else if let Some(m) = p.max {
                m.width
            } else {
                u32::MAX
            };
            let min_h = if let Some(v) = p.min_height {
                v
            } else if let Some(m) = p.min {
                m.height
            } else {
                1
            };
            let max_h = if let Some(v) = p.max_height {
                v
            } else if let Some(m) = p.max {
                m.height
            } else {
                u32::MAX
            };
            w = clamp_u32(w, min_w, max_w);
            h = clamp_u32(h, min_h, max_h);
        }
    }

    // Aspect-ratio layer: width/height check, then height/width check.
    if let Some(a) = target_spec.aspect_ratio {
        if a.min.is_some() && a.max.is_some() {
            let mn = a.min.unwrap();
            let mx = a.max.unwrap();
            if mul_lt(w, mn.den, h, mn.num) {
                w = mul_div_sat(h, mn.num, mn.den);
            } else if mul_lt(h, mx.num, w, mx.den) {
                h = mul_div_sat(w, mx.den, mx.num);
            }
        }
        if a.height_to_width_min.is_some() && a.height_to_width_max.is_some() {
            let mn = a.height_to_width_min.unwrap();
            let mx = a.height_to_width_max.unwrap();
            if mul_lt(h, mn.den, w, mn.num) {
                h = mul_div_sat(w, mn.num, mn.den);
            } else if mul_lt(w, mx.num, h, mx.den) {
                h = mul_div_sat(w, mx.num, mx.den);
            }
        }
    }

    // Physical-size layer: centimetres, then millimetres over them.
    let dpi = if let Some(d) = target_spec.resolution_px_per_inch {
        d
    } else {
        150
    };
    if let Some(d) = target_spec.dimensions_cm {
        w = mul_div_sat(d.width_centi, dpi, 254);
        h = mul_div_sat(d.height_centi, dpi, 254);
    }
    if let Some(d) = target_spec.dimensions_mm {
        w = mul_div_sat(d.width_centi, dpi, 2540);
        h = mul_div_sat(d.height_centi, dpi, 2540);
    }

    // Floor of one pixel on both axes.
    if w < 1 {
        w = 1;
    }
    if h < 1 {
        h = 1;
    }
    (w, h)
}

} // verus!
