//! The luminance model: an RGB triple is reduced to a single perceptual
//! brightness scalar by the fixed ITU-R BT.709 channel weighting
//! 0.2126 r + 0.7152 g + 0.0722 b, computed here in fixed point with four
//! decimal digits of weight precision and rounded to the nearest integer.

use vstd::prelude::*;

verus! {

/// Brightness of an RGB triple: the weighted channel sum in ten-thousandths,
/// rounded to the nearest integer (ties rounding up).
pub open spec fn lum_spec(r: int, g: int, b: int) -> int {
    (2126 * r + 7152 * g + 722 * b + 5000) / 10000
}

/// Perceptual brightness of a pixel, in the same 0..=255 scale as the inputs.
pub fn luma(rgb: (u8, u8, u8)) -> (l: u8)
    ensures
        l as int == lum_spec(rgb.0 as int, rgb.1 as int, rgb.2 as int),
{
    let (r, g, b) = rgb;
    let weighted: u32 = 2126 * (r as u32) + 7152 * (g as u32) + 722 * (b as u32) + 5000;
    (weighted / 10000) as u8
}

/// Every RGB triple of bytes has a luminance that is itself a byte value:
/// the weighting coefficients sum to one, so the scale is preserved.
pub proof fn lemma_luminance_range(r: int, g: int, b: int)
    requires
        0 <= r <= 255,
        0 <= g <= 255,
        0 <= b <= 255,
    ensures
        0 <= lum_spec(r, g, b) <= 255,
{
    assert(2126 * r + 7152 * g + 722 * b + 5000 <= 2555000) by (nonlinear_arith)
        requires
            0 <= r <= 255,
            0 <= g <= 255,
            0 <= b <= 255,
    ;
}

} // verus!
