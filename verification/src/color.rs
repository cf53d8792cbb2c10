//! The colour model conversion layer.
//!
//! A colour is a quadruple `(a, b, c, alpha)` of single-precision bit
//! patterns whose meaning is given by a [`ColorModel`]: hue/saturation/value,
//! hue/chroma/luma, luma-chroma, plain RGB or CMY.  This module converts
//! between the models (through RGB as the common hub), applies the
//! perceptual component remap and the per-component gamma transform, embeds
//! a colour into a spatial [`ColorSpace`], and mirrors a spatial point
//! across the space's symmetry plane.
//!
//! Every conversion is a closed-form composition of the IEEE 754 primitives
//! of [`crate::float_bits`]; each public function's contract states that
//! exact composition.  Domain assumptions follow the hub conventions: hue is
//! a fraction of a turn and components are expected in `[0, 1]` (luma-chroma
//! offsets in `[-0.5, 0.5]`); out-of-domain values are not guarded and
//! propagate through the arithmetic (possibly as NaN).

use vstd::prelude::*;
use crate::float_bits::{
    abs_of, add_of, cos_of, div_of, from_count_of, is_nan_pattern, le_of, lt_of, mul_of, neg_of,
    pow_of, sin_of,
    sub_of, lemma_neg_involution, FIVE_BITS, FOUR_BITS, HALF_BITS, ONE_BITS, SIX_BITS, THREE_BITS,
    TWO_BITS, TWO_PI_BITS, ZERO_BITS,
    abs_bits, add_bits, cos_bits, div_bits, from_count_bits, lt_bits, le_bits, mul_bits, neg_bits,
    pow_bits, sin_bits, sub_bits,
};

verus! {

/// The colour model a coordinate quadruple is expressed in.
#[derive(Debug, Clone, Copy, PartialEq, Eq, Structural)]
pub enum ColorModel {
    SphericalHCLA,
    CubicHSVA,
    CubicHSLA,
    YUVA,
    RGBA,
    CMYA,
}

/// The family a colour model is picked from.
#[derive(Debug, Clone, Copy, PartialEq, Eq, Structural)]
pub enum ColorModelCategory {
    Spherical,
    Cubic,
    LumaChroma,
}

/// The spatial embedding of a colour's three components.
#[derive(Debug, Clone, Copy, PartialEq, Eq, Structural)]
pub enum ColorSpace {
    XYZ,
    Cylindrical,
    Symmetric,
}

/// Bit pattern of `0.299`, the red luma weight.
pub const LUMA_R_BITS: u32 = 0x3E99_1687;

/// Bit pattern of `0.587`, the green luma weight.
pub const LUMA_G_BITS: u32 = 0x3F16_45A2;

/// Bit pattern of `0.114`, the blue luma weight.
pub const LUMA_B_BITS: u32 = 0x3DE9_78D5;

/// Bit pattern of `0.492`, the U chroma scale.
pub const U_SCALE_BITS: u32 = 0x3EFB_E76D;

/// Bit pattern of `0.877`, the V chroma scale.
pub const V_SCALE_BITS: u32 = 0x3F60_8312;

/// Whether the model centres its second and third components on zero, so
/// that the channel values feeding them are offset by `-0.5`.
pub open spec fn is_luma_chroma_model(m: ColorModel) -> bool {
    m == ColorModel::YUVA
}

impl ColorModel {
    /// Whether this is a luma-chroma model.
    pub fn is_luma_chroma(&self) -> (r: bool)
        ensures
            r == is_luma_chroma_model(*self),
    {
        *self == ColorModel::YUVA
    }
}

/// The larger of two single-precision values under the IEEE `<=` order.
pub open spec fn max_of(a: u32, b: u32) -> u32 {
    if le_of(a, b) {
        b
    } else {
        a
    }
}

/// The smaller of two single-precision values under the IEEE `<=` order.
pub open spec fn min_of(a: u32, b: u32) -> u32 {
    if le_of(b, a) {
        b
    } else {
        a
    }
}

/// Whether the value compares equal to zero (both `<=` directions hold, so
/// this is the IEEE equality, which also accepts the negative zero).
pub open spec fn is_zero_value(a: u32) -> bool {
    le_of(a, ZERO_BITS) && le_of(ZERO_BITS, a)
}

fn max_bits(a: u32, b: u32) -> (r: u32)
    ensures
        r == max_of(a, b),
{
    if le_bits(a, b) {
        b
    } else {
        a
    }
}

fn min_bits(a: u32, b: u32) -> (r: u32)
    ensures
        r == min_of(a, b),
{
    if le_bits(b, a) {
        b
    } else {
        a
    }
}

fn is_zero_bits(a: u32) -> (r: bool)
    ensures
        r == is_zero_value(a),
{
    le_bits(a, ZERO_BITS) && le_bits(ZERO_BITS, a)
}

/// The hue sector `0..=5` that a scaled hue `h * 6` falls into; values at
/// or beyond `5.0` (including a full-turn hue of exactly `1.0`) fall into
/// the last sector, whose formulas continue it to the wrap-around.
pub open spec fn sector_of(h6: u32) -> usize {
    if lt_of(h6, ONE_BITS) {
        0
    } else if lt_of(h6, TWO_BITS) {
        1
    } else if lt_of(h6, THREE_BITS) {
        2
    } else if lt_of(h6, FOUR_BITS) {
        3
    } else if lt_of(h6, FIVE_BITS) {
        4
    } else {
        5
    }
}

fn sector_bits(h6: u32) -> (k: usize)
    ensures
        k == sector_of(h6),
        k <= 5,
{
    if lt_bits(h6, ONE_BITS) {
        0
    } else if lt_bits(h6, TWO_BITS) {
        1
    } else if lt_bits(h6, THREE_BITS) {
        2
    } else if lt_bits(h6, FOUR_BITS) {
        3
    } else if lt_bits(h6, FIVE_BITS) {
        4
    } else {
        5
    }
}

/// RGB of a hue (fraction of a turn), a chroma width and the additive
/// offset `m` that lifts the hexcone slice to its lightness.
pub open spec fn hue_chroma_rgb(h: u32, ch: u32, m: u32, alpha: u32) -> (u32, u32, u32, u32) {
    let h6 = mul_of(h, SIX_BITS);
    let k = sector_of(h6);
    let fm = sub_of(h6, from_count_of((k - (k % 2)) as usize));
    let x = mul_of(ch, sub_of(ONE_BITS, abs_of(sub_of(fm, ONE_BITS))));
    let rgb = if k == 0 {
        (ch, x, ZERO_BITS)
    } else if k == 1 {
        (x, ch, ZERO_BITS)
    } else if k == 2 {
        (ZERO_BITS, ch, x)
    } else if k == 3 {
        (ZERO_BITS, x, ch)
    } else if k == 4 {
        (x, ZERO_BITS, ch)
    } else {
        (ch, ZERO_BITS, x)
    };
    (add_of(rgb.0, m), add_of(rgb.1, m), add_of(rgb.2, m), alpha)
}

fn hue_chroma_rgb_bits(h: u32, ch: u32, m: u32, alpha: u32) -> (r: (u32, u32, u32, u32))
    ensures
        r == hue_chroma_rgb(h, ch, m, alpha),
{
    let h6 = mul_bits(h, SIX_BITS);
    let k = sector_bits(h6);
    let fm = sub_bits(h6, from_count_bits(k - (k % 2)));
    let x = mul_bits(ch, sub_bits(ONE_BITS, abs_bits(sub_bits(fm, ONE_BITS))));
    let rgb = if k == 0 {
        (ch, x, ZERO_BITS)
    } else if k == 1 {
        (x, ch, ZERO_BITS)
    } else if k == 2 {
        (ZERO_BITS, ch, x)
    } else if k == 3 {
        (ZERO_BITS, x, ch)
    } else if k == 4 {
        (x, ZERO_BITS, ch)
    } else {
        (ch, ZERO_BITS, x)
    };
    (add_bits(rgb.0, m), add_bits(rgb.1, m), add_bits(rgb.2, m), alpha)
}

/// RGB of a hue/saturation/value colour.
pub open spec fn hsv_rgb(c: (u32, u32, u32, u32)) -> (u32, u32, u32, u32) {
    let h6 = mul_of(c.0, SIX_BITS);
    let k = sector_of(h6);
    let f = sub_of(h6, from_count_of(k));
    let s = c.1;
    let v = c.2;
    let p = mul_of(v, sub_of(ONE_BITS, s));
    let q = mul_of(v, sub_of(ONE_BITS, mul_of(s, f)));
    let t = mul_of(v, sub_of(ONE_BITS, mul_of(s, sub_of(ONE_BITS, f))));
    if k == 0 {
        (v, t, p, c.3)
    } else if k == 1 {
        (q, v, p, c.3)
    } else if k == 2 {
        (p, v, t, c.3)
    } else if k == 3 {
        (p, q, v, c.3)
    } else if k == 4 {
        (t, p, v, c.3)
    } else {
        (v, p, q, c.3)
    }
}

fn hsv_rgb_bits(c: (u32, u32, u32, u32)) -> (r: (u32, u32, u32, u32))
    ensures
        r == hsv_rgb(c),
{
    let h6 = mul_bits(c.0, SIX_BITS);
    let k = sector_bits(h6);
    let f = sub_bits(h6, from_count_bits(k));
    let s = c.1;
    let v = c.2;
    let p = mul_bits(v, sub_bits(ONE_BITS, s));
    let q = mul_bits(v, sub_bits(ONE_BITS, mul_bits(s, f)));
    let t = mul_bits(v, sub_bits(ONE_BITS, mul_bits(s, sub_bits(ONE_BITS, f))));
    if k == 0 {
        (v, t, p, c.3)
    } else if k == 1 {
        (q, v, p, c.3)
    } else if k == 2 {
        (p, v, t, c.3)
    } else if k == 3 {
        (p, q, v, c.3)
    } else if k == 4 {
        (t, p, v, c.3)
    } else {
        (v, p, q, c.3)
    }
}

/// RGB of a luma-chroma colour: red and blue recover their chroma offsets
/// and green balances the luma sum.
pub open spec fn yuv_rgb(c: (u32, u32, u32, u32)) -> (u32, u32, u32, u32) {
    let r = add_of(c.0, div_of(c.2, V_SCALE_BITS));
    let b = add_of(c.0, div_of(c.1, U_SCALE_BITS));
    let g = div_of(sub_of(sub_of(c.0, mul_of(LUMA_R_BITS, r)), mul_of(LUMA_B_BITS, b)), LUMA_G_BITS);
    (r, g, b, c.3)
}

fn yuv_rgb_bits(c: (u32, u32, u32, u32)) -> (r: (u32, u32, u32, u32))
    ensures
        r == yuv_rgb(c),
{
    let red = add_bits(c.0, div_bits(c.2, V_SCALE_BITS));
    let blue = add_bits(c.0, div_bits(c.1, U_SCALE_BITS));
    let green = div_bits(
        sub_bits(sub_bits(c.0, mul_bits(LUMA_R_BITS, red)), mul_bits(LUMA_B_BITS, blue)),
        LUMA_G_BITS,
    );
    (red, green, blue, c.3)
}

/// The RGB expression of a colour in any model.  The hue/chroma/luma model
/// feeds its chroma to the hexcone directly; hue/saturation/lightness
/// derives the chroma width from saturation and lightness first.
pub open spec fn rgb_of(c: (u32, u32, u32, u32), m: ColorModel) -> (u32, u32, u32, u32) {
    match m {
        ColorModel::RGBA => c,
        ColorModel::CMYA => (sub_of(ONE_BITS, c.0), sub_of(ONE_BITS, c.1), sub_of(ONE_BITS, c.2), c.3),
        ColorModel::CubicHSVA => hsv_rgb(c),
        ColorModel::CubicHSLA => {
            let ch = mul_of(sub_of(ONE_BITS, abs_of(sub_of(mul_of(TWO_BITS, c.2), ONE_BITS))), c.1);
            hue_chroma_rgb(c.0, ch, sub_of(c.2, div_of(ch, TWO_BITS)), c.3)
        },
        ColorModel::SphericalHCLA => hue_chroma_rgb(
            c.0,
            c.1,
            sub_of(c.2, div_of(c.1, TWO_BITS)),
            c.3,
        ),
        ColorModel::YUVA => yuv_rgb(c),
    }
}

/// Converts a colour of model `m` to its RGB expression.
pub fn to_rgb(c: (u32, u32, u32, u32), m: ColorModel) -> (r: (u32, u32, u32, u32))
    ensures
        r == rgb_of(c, m),
{
    match m {
        ColorModel::RGBA => c,
        ColorModel::CMYA => (
            sub_bits(ONE_BITS, c.0),
            sub_bits(ONE_BITS, c.1),
            sub_bits(ONE_BITS, c.2),
            c.3,
        ),
        ColorModel::CubicHSVA => hsv_rgb_bits(c),
        ColorModel::CubicHSLA => {
            let ch = mul_bits(
                sub_bits(ONE_BITS, abs_bits(sub_bits(mul_bits(TWO_BITS, c.2), ONE_BITS))),
                c.1,
            );
            hue_chroma_rgb_bits(c.0, ch, sub_bits(c.2, div_bits(ch, TWO_BITS)), c.3)
        },
        ColorModel::SphericalHCLA => hue_chroma_rgb_bits(
            c.0,
            c.1,
            sub_bits(c.2, div_bits(c.1, TWO_BITS)),
            c.3,
        ),
        ColorModel::YUVA => yuv_rgb_bits(c),
    }
}

/// The hue (fraction of a turn) of an RGB triple with maximum `mx` and
/// chroma width `d`; grey (zero width) takes hue zero.
pub open spec fn hue_of_rgb(r: u32, g: u32, b: u32, mx: u32, d: u32) -> u32 {
    if is_zero_value(d) {
        ZERO_BITS
    } else {
        let h6 = if mx == r {
            let t = div_of(sub_of(g, b), d);
            if lt_of(t, ZERO_BITS) {
                add_of(t, SIX_BITS)
            } else {
                t
            }
        } else if mx == g {
            add_of(div_of(sub_of(b, r), d), TWO_BITS)
        } else {
            add_of(div_of(sub_of(r, g), d), FOUR_BITS)
        };
        div_of(h6, SIX_BITS)
    }
}

fn hue_of_rgb_bits(r: u32, g: u32, b: u32, mx: u32, d: u32) -> (h: u32)
    ensures
        h == hue_of_rgb(r, g, b, mx, d),
{
    if is_zero_bits(d) {
        ZERO_BITS
    } else {
        let h6 = if mx == r {
            let t = div_bits(sub_bits(g, b), d);
            if lt_bits(t, ZERO_BITS) {
                add_bits(t, SIX_BITS)
            } else {
                t
            }
        } else if mx == g {
            add_bits(div_bits(sub_bits(b, r), d), TWO_BITS)
        } else {
            add_bits(div_bits(sub_bits(r, g), d), FOUR_BITS)
        };
        div_bits(h6, SIX_BITS)
    }
}

/// The expression of an RGB colour in the model `m`.
pub open spec fn model_of_rgb(c: (u32, u32, u32, u32), m: ColorModel) -> (u32, u32, u32, u32) {
    let mx = max_of(max_of(c.0, c.1), c.2);
    let mn = min_of(min_of(c.0, c.1), c.2);
    let d = sub_of(mx, mn);
    let l = div_of(add_of(mx, mn), TWO_BITS);
    let y = add_of(add_of(mul_of(LUMA_R_BITS, c.0), mul_of(LUMA_G_BITS, c.1)), mul_of(LUMA_B_BITS, c.2));
    match m {
        ColorModel::RGBA => c,
        ColorModel::CMYA => (sub_of(ONE_BITS, c.0), sub_of(ONE_BITS, c.1), sub_of(ONE_BITS, c.2), c.3),
        ColorModel::CubicHSVA => (
            hue_of_rgb(c.0, c.1, c.2, mx, d),
            if is_zero_value(mx) {
                ZERO_BITS
            } else {
                div_of(d, mx)
            },
            mx,
            c.3,
        ),
        ColorModel::CubicHSLA => (
            hue_of_rgb(c.0, c.1, c.2, mx, d),
            if is_zero_value(d) {
                ZERO_BITS
            } else {
                div_of(d, sub_of(ONE_BITS, abs_of(sub_of(mul_of(TWO_BITS, l), ONE_BITS))))
            },
            l,
            c.3,
        ),
        ColorModel::SphericalHCLA => (hue_of_rgb(c.0, c.1, c.2, mx, d), d, l, c.3),
        ColorModel::YUVA => (y, mul_of(U_SCALE_BITS, sub_of(c.2, y)), mul_of(V_SCALE_BITS, sub_of(c.0, y)), c.3),
    }
}

/// Converts an RGB colour into the model `m`.
pub fn from_rgb(c: (u32, u32, u32, u32), m: ColorModel) -> (r: (u32, u32, u32, u32))
    ensures
        r == model_of_rgb(c, m),
{
    let mx = max_bits(max_bits(c.0, c.1), c.2);
    let mn = min_bits(min_bits(c.0, c.1), c.2);
    let d = sub_bits(mx, mn);
    match m {
        ColorModel::RGBA => c,
        ColorModel::CMYA => (
            sub_bits(ONE_BITS, c.0),
            sub_bits(ONE_BITS, c.1),
            sub_bits(ONE_BITS, c.2),
            c.3,
        ),
        ColorModel::CubicHSVA => {
            let s = if is_zero_bits(mx) {
                ZERO_BITS
            } else {
                div_bits(d, mx)
            };
            (hue_of_rgb_bits(c.0, c.1, c.2, mx, d), s, mx, c.3)
        },
        ColorModel::CubicHSLA => {
            let l = div_bits(add_bits(mx, mn), TWO_BITS);
            let s = if is_zero_bits(d) {
                ZERO_BITS
            } else {
                div_bits(d, sub_bits(ONE_BITS, abs_bits(sub_bits(mul_bits(TWO_BITS, l), ONE_BITS))))
            };
            (hue_of_rgb_bits(c.0, c.1, c.2, mx, d), s, l, c.3)
        },
        ColorModel::SphericalHCLA => {
            let l = div_bits(add_bits(mx, mn), TWO_BITS);
            (hue_of_rgb_bits(c.0, c.1, c.2, mx, d), d, l, c.3)
        },
        ColorModel::YUVA => {
            let y = add_bits(
                add_bits(mul_bits(LUMA_R_BITS, c.0), mul_bits(LUMA_G_BITS, c.1)),
                mul_bits(LUMA_B_BITS, c.2),
            );
            (y, mul_bits(U_SCALE_BITS, sub_bits(c.2, y)), mul_bits(V_SCALE_BITS, sub_bits(c.0, y)), c.3)
        },
    }
}

/// The colour re-expressed in the model `to`: unchanged when the models
/// agree, else through the RGB hub.
pub open spec fn converted_color(
    c: (u32, u32, u32, u32),
    from: ColorModel,
    to: ColorModel,
) -> (u32, u32, u32, u32) {
    if from == to {
        c
    } else {
        model_of_rgb(rgb_of(c, from), to)
    }
}

/// Re-expresses a colour of model `from` in model `to`.
pub fn convert_color(c: (u32, u32, u32, u32), from: ColorModel, to: ColorModel) -> (r: (
    u32,
    u32,
    u32,
    u32,
))
    ensures
        r == converted_color(c, from, to),
{
    if from == to {
        c
    } else {
        from_rgb(to_rgb(c, from), to)
    }
}

/// One component scaled toward its limit in proportion to the chroma:
/// the factor is `1 + chroma * (limit - 1)`, so a limit of one or a zero
/// chroma leaves the component alone.
pub open spec fn remapped_component(x: u32, chroma: u32, limit: u32) -> u32 {
    mul_of(x, add_of(ONE_BITS, mul_of(chroma, sub_of(limit, ONE_BITS))))
}

/// The perceptual component remap of a colour: each of the three
/// components scaled toward its limit in proportion to the chroma.
pub open spec fn remapped_components(
    c: (u32, u32, u32, u32),
    chroma: u32,
    lr: u32,
    lg: u32,
    lb: u32,
) -> (u32, u32, u32, u32) {
    (
        remapped_component(c.0, chroma, lr),
        remapped_component(c.1, chroma, lg),
        remapped_component(c.2, chroma, lb),
        c.3,
    )
}

/// Scales each colour component toward its limit in proportion to the
/// chroma: a purely cosmetic perceptual offset.
pub fn remap_rgb_components(c: (u32, u32, u32, u32), chroma: u32, lr: u32, lg: u32, lb: u32) -> (r: (
    u32,
    u32,
    u32,
    u32,
))
    ensures
        r == remapped_components(c, chroma, lr, lg, lb),
{
    (
        mul_bits(c.0, add_bits(ONE_BITS, mul_bits(chroma, sub_bits(lr, ONE_BITS)))),
        mul_bits(c.1, add_bits(ONE_BITS, mul_bits(chroma, sub_bits(lg, ONE_BITS)))),
        mul_bits(c.2, add_bits(ONE_BITS, mul_bits(chroma, sub_bits(lb, ONE_BITS)))),
        c.3,
    )
}

/// The power-law gamma transform of a colour: each component raised to its
/// exponent, alpha untouched.
pub open spec fn gamma_transformed(
    c: (u32, u32, u32, u32),
    gr: u32,
    gg: u32,
    gb: u32,
) -> (u32, u32, u32, u32) {
    (pow_of(c.0, gr), pow_of(c.1, gg), pow_of(c.2, gb), c.3)
}

/// Raises each colour component to its gamma exponent.  An exponent whose
/// bits are exactly those of `1.0` leaves its component untouched (for any
/// component that is not a NaN), so the transform with all exponents one is
/// the identity: the gamma round trip.
pub fn component_gamma_transform(c: (u32, u32, u32, u32), gr: u32, gg: u32, gb: u32) -> (r: (
    u32,
    u32,
    u32,
    u32,
))
    ensures
        r == gamma_transformed(c, gr, gg, gb),
        gr == ONE_BITS && !is_nan_pattern(c.0) ==> r.0 == c.0,
        gg == ONE_BITS && !is_nan_pattern(c.1) ==> r.1 == c.1,
        gb == ONE_BITS && !is_nan_pattern(c.2) ==> r.2 == c.2,
        r.3 == c.3,
{
    (pow_bits(c.0, gr), pow_bits(c.1, gg), pow_bits(c.2, gb), c.3)
}

/// The Cartesian point of a cylindrical triple: the first component is the
/// angle as a fraction of a turn, the second the radius, the third the
/// height.
pub open spec fn cylinder_point(a: u32, radius: u32, height: u32, alpha: u32) -> (
    u32,
    u32,
    u32,
    u32,
) {
    (
        mul_of(radius, cos_of(mul_of(a, TWO_PI_BITS))),
        mul_of(radius, sin_of(mul_of(a, TWO_PI_BITS))),
        height,
        alpha,
    )
}

/// The angle folded onto the half turn: angles beyond `0.5` are reflected
/// back, which mirror-folds the cylinder onto itself.
pub open spec fn folded_angle(a: u32) -> u32 {
    if le_of(a, HALF_BITS) {
        a
    } else {
        sub_of(ONE_BITS, a)
    }
}

/// The Cartesian expression of a colour's components read in the space
/// `from`: unchanged for the Cartesian space, the cylindrical embedding for
/// the cylindrical space, and the cylindrical embedding of the folded angle
/// for the symmetric space.
pub open spec fn space_point(c: (u32, u32, u32, u32), from: ColorSpace) -> (u32, u32, u32, u32) {
    match from {
        ColorSpace::XYZ => c,
        ColorSpace::Cylindrical => cylinder_point(c.0, c.1, c.2, c.3),
        ColorSpace::Symmetric => cylinder_point(folded_angle(c.0), c.1, c.2, c.3),
    }
}

/// Embeds a colour's components, read in the space `from`, into Cartesian
/// coordinates.  Only the Cartesian target space is needed by the
/// visualization, so `to` is constrained to it.
pub fn from_space_to_space(c: (u32, u32, u32, u32), from: ColorSpace, to: ColorSpace) -> (r: (
    u32,
    u32,
    u32,
    u32,
))
    requires
        to == ColorSpace::XYZ,
    ensures
        r == space_point(c, from),
{
    match from {
        ColorSpace::XYZ => c,
        ColorSpace::Cylindrical => {
            let angle = mul_bits(c.0, TWO_PI_BITS);
            (mul_bits(c.1, cos_bits(angle)), mul_bits(c.1, sin_bits(angle)), c.2, c.3)
        },
        ColorSpace::Symmetric => {
            let a = if le_bits(c.0, HALF_BITS) {
                c.0
            } else {
                sub_bits(ONE_BITS, c.0)
            };
            let angle = mul_bits(a, TWO_PI_BITS);
            (mul_bits(c.1, cos_bits(angle)), mul_bits(c.1, sin_bits(angle)), c.2, c.3)
        },
    }
}

/// The point reflected across the space's symmetry plane: the second
/// Cartesian coordinate is negated, which flips exactly its sign bit.
pub open spec fn mirrored_point(p: (u32, u32, u32, u32)) -> (u32, u32, u32, u32) {
    (p.0, neg_of(p.1), p.2, p.3)
}

/// Reflects a spatial point across the space's symmetry plane.
pub fn mirror_colorspace(p: (u32, u32, u32, u32)) -> (r: (u32, u32, u32, u32))
    ensures
        r == mirrored_point(p),
{
    (p.0, neg_bits(p.1), p.2, p.3)
}

/// Mirroring is an involution: reflecting a point twice returns exactly
/// the original coordinate, since IEEE 754 negation flips one bit.
pub proof fn lemma_mirror_involution(p: (u32, u32, u32, u32))
    ensures
        mirrored_point(mirrored_point(p)) == p,
{
    lemma_neg_involution(p.1);
}

} // verus!
