//! Resize strategies and the resolution of target dimensions.
//!
//! A `Resize` value describes how the dimensions of the decoded output are
//! derived from the native dimensions of the stream: either an exact
//! override, or the largest aspect-ratio-preserving fit within given bounds.
//! The fit is computed with exact integer arithmetic: the scale factor is
//! `min(w_max / w, h_max / h)` as a rational, and each scaled dimension is
//! truncated.

use vstd::prelude::*;
use vstd::arithmetic::div_mod::lemma_div_is_ordered;
use vstd::arithmetic::div_mod::lemma_div_multiples_vanish;
use vstd::arithmetic::div_mod::lemma_fundamental_div_mod;
use vstd::arithmetic::div_mod::lemma_mod_division_less_than_divisor;
use vstd::arithmetic::mul::lemma_mul_is_commutative;
use vstd::arithmetic::mul::lemma_mul_nonnegative;

verus! {

/// The possible resize strategies.
#[derive(Clone, Copy, Debug, PartialEq, Eq, Structural)]
pub enum Resize {
    /// Resize each frame to exactly this width and height, without taking
    /// the native aspect ratio into account.
    Exact(u32, u32),
    /// Resize each frame to the biggest width and height possible within
    /// the given dimensions without changing the native aspect ratio, and
    /// never upscale.
    Fit(u32, u32),
}

/// The dimensions produced by fitting native dimensions `(w, h)` inside
/// `(w_max, h_max)`: unchanged when they already fit, otherwise both scaled
/// by the rational `min(w_max / w, h_max / h)` and truncated.
pub open spec fn fit_dims_spec(w: int, h: int, w_max: int, h_max: int) -> (int, int)
    recommends
        w > 0,
        h > 0,
{
    if w_max >= w && h_max >= h {
        (w, h)
    } else if w_max * h <= h_max * w {
        // the width bound is the tighter one: scale by w_max / w
        (w_max, (h * w_max) / w)
    } else {
        // the height bound is the tighter one: scale by h_max / h
        ((w * h_max) / h, h_max)
    }
}

/// The target dimensions for an optional resize strategy: an exact override,
/// an aspect-preserving fit, or the native dimensions when no strategy is
/// given.
pub open spec fn target_dims_spec(resize: Option<Resize>, w: int, h: int) -> (int, int)
    recommends
        w > 0,
        h > 0,
{
    match resize {
        None => (w, h),
        Some(Resize::Exact(tw, th)) => (tw as int, th as int),
        Some(Resize::Fit(tw, th)) => fit_dims_spec(w, h, tw as int, th as int),
    }
}

/// Calculates the maximum image dimensions that fit inside `fit_dims`
/// while retaining the aspect ratio of `dims`.
pub fn calculate_fit_dims(dims: (u32, u32), fit_dims: (u32, u32)) -> (r: (u32, u32))
    requires
        dims.0 > 0,
        dims.1 > 0,
    ensures
        (r.0 as int, r.1 as int) == fit_dims_spec(
            dims.0 as int,
            dims.1 as int,
            fit_dims.0 as int,
            fit_dims.1 as int,
        ),
{
    let (w, h) = dims;
    let (w_max, h_max) = fit_dims;
    if w_max >= w && h_max >= h {
        (w, h)
    } else {
        let w64: u64 = w as u64;
        let h64: u64 = h as u64;
        let wm64: u64 = w_max as u64;
        let hm64: u64 = h_max as u64;
        assert(wm64 * h64 <= u64::MAX && hm64 * w64 <= u64::MAX && h64 * wm64 <= u64::MAX
            && w64 * hm64 <= u64::MAX) by (nonlinear_arith)
            requires
                w64 <= u32::MAX,
                h64 <= u32::MAX,
                wm64 <= u32::MAX,
                hm64 <= u32::MAX,
        ;
        if wm64 * h64 <= hm64 * w64 {
            let oh: u64 = (h64 * wm64) / w64;
            proof {
                lemma_mul_is_commutative(h64 as int, wm64 as int);
                lemma_div_is_ordered((h64 * wm64) as int, (hm64 * w64) as int, w64 as int);
                lemma_mul_is_commutative(hm64 as int, w64 as int);
                lemma_div_multiples_vanish(hm64 as int, w64 as int);
            }
            (w_max, oh as u32)
        } else {
            let ow: u64 = (w64 * hm64) / h64;
            proof {
                lemma_mul_is_commutative(w64 as int, hm64 as int);
                lemma_div_is_ordered((w64 * hm64) as int, (wm64 * h64) as int, h64 as int);
                lemma_mul_is_commutative(wm64 as int, h64 as int);
                lemma_div_multiples_vanish(wm64 as int, h64 as int);
            }
            (ow as u32, h_max)
        }
    }
}

/// Resolves the target dimensions for an optional resize strategy applied
/// to the given native dimensions.
pub fn resolve_target_dims(resize: Option<Resize>, dims: (u32, u32)) -> (r: (u32, u32))
    requires
        (match resize {
            Some(Resize::Fit(_, _)) => dims.0 > 0 && dims.1 > 0,
            _ => true,
        }),
    ensures
        (r.0 as int, r.1 as int) == target_dims_spec(resize, dims.0 as int, dims.1 as int),
{
    match resize {
        None => dims,
        Some(Resize::Exact(tw, th)) => (tw, th),
        Some(Resize::Fit(tw, th)) => calculate_fit_dims(dims, (tw, th)),
    }
}

/// When the bounds are smaller than the native dimensions in at least one
/// direction, the fitted dimensions stay within the bounds, and the output
/// aspect ratio matches the native one up to the error of one truncation:
/// `h * out_w` and `w * out_h` differ by less than one unit of either side.
pub proof fn lemma_fit_dims_within_bounds_and_aspect(w: u32, h: u32, w_max: u32, h_max: u32)
    requires
        w > 0,
        h > 0,
        w_max < w || h_max < h,
    ensures
        fit_dims_spec(w as int, h as int, w_max as int, h_max as int).0 <= w_max,
        fit_dims_spec(w as int, h as int, w_max as int, h_max as int).1 <= h_max,
        h * fit_dims_spec(w as int, h as int, w_max as int, h_max as int).0
            < w * fit_dims_spec(w as int, h as int, w_max as int, h_max as int).1 + w,
        w * fit_dims_spec(w as int, h as int, w_max as int, h_max as int).1
            < h * fit_dims_spec(w as int, h as int, w_max as int, h_max as int).0 + h,
{
    let wi = w as int;
    let hi = h as int;
    let wm = w_max as int;
    let hm = h_max as int;
    if wm * hi <= hm * wi {
        let oh = (hi * wm) / wi;
        lemma_mul_nonnegative(hi, wm);
        lemma_fundamental_div_mod(hi * wm, wi);
        lemma_mod_division_less_than_divisor(hi * wm, wi);
        lemma_mul_is_commutative(wm, hi);
        lemma_div_is_ordered(hi * wm, hm * wi, wi);
        lemma_mul_is_commutative(hm, wi);
        lemma_div_multiples_vanish(hm, wi);
        assert(oh <= hm);
        assert(hi * wm == wi * oh + (hi * wm) % wi);
    } else {
        let ow = (wi * hm) / hi;
        lemma_mul_nonnegative(wi, hm);
        lemma_fundamental_div_mod(wi * hm, hi);
        lemma_mod_division_less_than_divisor(wi * hm, hi);
        lemma_mul_is_commutative(wi, hm);
        lemma_div_is_ordered(wi * hm, wm * hi, hi);
        lemma_mul_is_commutative(wm, hi);
        lemma_div_multiples_vanish(wm, hi);
        assert(ow <= wm);
        assert(wi * hm == hi * ow + (wi * hm) % hi);
    }
}

/// When the native dimensions already fit inside the bounds, fitting leaves
/// them unchanged: the fit never upscales.
pub proof fn lemma_fit_never_upscales(w: u32, h: u32, w_max: u32, h_max: u32)
    requires
        w_max >= w,
        h_max >= h,
    ensures
        fit_dims_spec(w as int, h as int, w_max as int, h_max as int) == (w as int, h as int),
{
}

/// An exact resize strategy yields exactly the requested dimensions,
/// regardless of the native dimensions.
pub proof fn lemma_exact_overrides_native(w: int, h: int, tw: u32, th: u32)
    ensures
        target_dims_spec(Some(Resize::Exact(tw, th)), w, h) == (tw as int, th as int),
{
}

} // verus!
