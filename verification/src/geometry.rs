//! Target geometry for the resize step.
//!
//! Every image is normalized to a fixed target width; the target height is
//! the source height scaled by the same factor, rounded to the nearest
//! integer, so the aspect ratio is preserved as closely as an integer pixel
//! grid allows.

use vstd::prelude::*;
use vstd::arithmetic::div_mod::{lemma_fundamental_div_mod, lemma_mod_bound};

verus! {

/// The height that keeps the source aspect ratio at width `target_w`:
/// `round(target_w * src_h / src_w)`, written with integer arithmetic as
/// `(2 * target_w * src_h + src_w) / (2 * src_w)` (round half up).
pub open spec fn rounded_height(target_w: int, src_w: int, src_h: int) -> int
    recommends
        1 <= src_w,
{
    (2 * target_w * src_h + src_w) / (2 * src_w)
}

/// Computes `rounded_height` for the given source size, or `None` when a
/// source dimension is zero or the rounded height leaves `1..=u32::MAX`.
pub fn resized_height(target_w: u32, src_w: u32, src_h: u32) -> (r: Option<u32>)
    requires
        1 <= target_w,
    ensures
        (r is Some) <==> (1 <= src_w && 1 <= src_h
            && 1 <= rounded_height(target_w as int, src_w as int, src_h as int) <= u32::MAX),
        r matches Some(h) ==> h == rounded_height(target_w as int, src_w as int, src_h as int),
{
    if src_w == 0 || src_h == 0 {
        return None;
    }
    proof {
        assert(2 * (target_w as int) * (src_h as int) <= 2 * 0xffff_ffff * 0xffff_ffff)
            by (nonlinear_arith)
            requires
                target_w <= 0xffff_ffff,
                src_h <= 0xffff_ffff,
        {}
    }
    let num: u128 = 2 * (target_w as u128) * (src_h as u128) + (src_w as u128);
    let den: u128 = 2 * (src_w as u128);
    let h: u128 = num / den;
    if h == 0 || h > (u32::MAX as u128) {
        None
    } else {
        Some(h as u32)
    }
}

/// The rounded height deviates from the exact aspect ratio by at most half a
/// pixel: `|h / target_w - src_h / src_w| <= 1 / (2 * target_w)`. Multiplied
/// through by `target_w * src_w`, that reads
/// `|2 * (h * src_w - target_w * src_h)| <= src_w`.
pub proof fn lemma_aspect_ratio_bound(target_w: int, src_w: int, src_h: int, h: int)
    requires
        1 <= target_w,
        1 <= src_w,
        1 <= src_h,
        h == rounded_height(target_w, src_w, src_h),
    ensures
        -src_w <= 2 * (h * src_w - target_w * src_h),
        2 * (h * src_w - target_w * src_h) <= src_w,
{
    let x = 2 * target_w * src_h + src_w;
    let d = 2 * src_w;
    lemma_fundamental_div_mod(x, d);
    lemma_mod_bound(x, d);
    let q = x / d;
    let r = x % d;
    assert(x == d * q + r);
    assert(0 <= r < d);
    assert(2 * (q * src_w - target_w * src_h) == src_w - r) by (nonlinear_arith)
        requires
            x == d * q + r,
            x == 2 * target_w * src_h + src_w,
            d == 2 * src_w,
    {}
}

} // verus!
