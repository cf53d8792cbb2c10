use prismatic_viz::color::{
    component_gamma_transform, convert_color, from_rgb, from_space_to_space, mirror_colorspace,
    remap_rgb_components, to_rgb, ColorModel, ColorSpace,
};
use prismatic_viz::float_bits::GAMMA_REFERENCE_BITS;

fn quad(a: f32, b: f32, c: f32, alpha: f32) -> (u32, u32, u32, u32) {
    (a.to_bits(), b.to_bits(), c.to_bits(), alpha.to_bits())
}

#[test]
fn mirror_twice_is_identity() {
    let p = quad(0.3, -0.7, 0.9, 1.0);
    assert_eq!(mirror_colorspace(mirror_colorspace(p)), p);
    let q = quad(0.0, 0.0, -0.0, 0.5);
    assert_eq!(mirror_colorspace(mirror_colorspace(q)), q);
}

#[test]
fn mirror_negates_second_coordinate() {
    let p = quad(0.25, 0.5, 0.75, 1.0);
    let m = mirror_colorspace(p);
    assert_eq!(f32::from_bits(m.1), -0.5f32);
    assert_eq!(m.0, p.0);
    assert_eq!(m.2, p.2);
    assert_eq!(m.3, p.3);
}

#[test]
fn reference_gamma_exponent_is_identity() {
    // The configured gamma equals the reference gamma, so the exponent is
    // 2.2 / 2.2 == 1.0 and the transform returns the colour unchanged.
    let exponent = (f32::from_bits(GAMMA_REFERENCE_BITS) / f32::from_bits(GAMMA_REFERENCE_BITS))
        .to_bits();
    assert_eq!(exponent, 1.0f32.to_bits());
    let c = quad(0.125, 0.621, 0.984, 1.0);
    let out = component_gamma_transform(c, exponent, exponent, exponent);
    assert_eq!(out, c);
}

#[test]
fn doubled_gamma_squares_each_component() {
    // A configured gamma of 4.4 gives the exponent 4.4 / 2.2 == 2.0.
    let exponent = (4.4f32 / 2.2f32).to_bits();
    let c = quad(0.5, 0.25, 0.9, 1.0);
    let out = component_gamma_transform(c, exponent, exponent, exponent);
    assert_eq!(out.0, (0.5f32 * 0.5f32).to_bits());
    assert_eq!(out.1, (0.25f32 * 0.25f32).to_bits());
    assert_eq!(out.2, (0.9f32 * 0.9f32).to_bits());
    assert_eq!(out.3, c.3);
}

#[test]
fn remap_scales_toward_limits_by_chroma() {
    let c = quad(0.8, 0.6, 0.4, 1.0);
    // With a full chroma of one, each component is scaled by its limit.
    let full = remap_rgb_components(c, 1.0f32.to_bits(), 0.5f32.to_bits(), 1.0f32.to_bits(), 0.0f32.to_bits());
    assert_eq!(full.0, (0.8f32 * (1.0 + 1.0 * (0.5 - 1.0))).to_bits());
    assert_eq!(full.1, (0.6f32 * 1.0).to_bits());
    assert_eq!(full.2, (0.4f32 * (1.0 + 1.0 * (0.0 - 1.0))).to_bits());
    // With zero chroma the limits have no effect.
    let none = remap_rgb_components(c, 0.0f32.to_bits(), 0.5f32.to_bits(), 1.0f32.to_bits(), 0.0f32.to_bits());
    assert_eq!(none, c);
}

#[test]
fn hsl_primary_red_and_hcl_cyan() {
    let red = to_rgb(quad(0.0, 1.0, 0.5, 1.0), ColorModel::CubicHSLA);
    assert_eq!(
        (f32::from_bits(red.0), f32::from_bits(red.1), f32::from_bits(red.2)),
        (1.0, 0.0, 0.0),
    );
    let cyan = to_rgb(quad(0.5, 1.0, 0.5, 1.0), ColorModel::SphericalHCLA);
    assert_eq!(
        (f32::from_bits(cyan.0), f32::from_bits(cyan.1), f32::from_bits(cyan.2)),
        (0.0, 1.0, 1.0),
    );
}

#[test]
fn rgb_is_its_own_rgb_expression() {
    let c = quad(0.1, 0.2, 0.3, 0.4);
    assert_eq!(to_rgb(c, ColorModel::RGBA), c);
    assert_eq!(from_rgb(c, ColorModel::RGBA), c);
}

#[test]
fn cmy_complements_rgb() {
    let c = quad(1.0, 0.75, 0.0, 1.0);
    let rgb = to_rgb(c, ColorModel::CMYA);
    assert_eq!(f32::from_bits(rgb.0), 0.0);
    assert_eq!(f32::from_bits(rgb.1), 0.25);
    assert_eq!(f32::from_bits(rgb.2), 1.0);
}

#[test]
fn hsv_primary_hues() {
    let red = to_rgb(quad(0.0, 1.0, 1.0, 1.0), ColorModel::CubicHSVA);
    assert_eq!(
        (f32::from_bits(red.0), f32::from_bits(red.1), f32::from_bits(red.2)),
        (1.0, 0.0, 0.0),
    );
    let green = to_rgb(quad(1.0 / 3.0, 1.0, 1.0, 1.0), ColorModel::CubicHSVA);
    assert_eq!(f32::from_bits(green.1), 1.0);
    assert!(f32::from_bits(green.0).abs() < 1e-6);
    assert!(f32::from_bits(green.2).abs() < 1e-6);
    let blue = to_rgb(quad(2.0 / 3.0, 1.0, 1.0, 1.0), ColorModel::CubicHSVA);
    assert_eq!(f32::from_bits(blue.2), 1.0);
    assert!(f32::from_bits(blue.0).abs() < 1e-6);
    assert!(f32::from_bits(blue.1).abs() < 1e-6);
}

#[test]
fn hsv_round_trip_recovers_components() {
    let c = quad(0.15, 0.8, 0.6, 1.0);
    let back = from_rgb(to_rgb(c, ColorModel::CubicHSVA), ColorModel::CubicHSVA);
    assert!((f32::from_bits(back.0) - 0.15).abs() < 1e-5);
    assert!((f32::from_bits(back.1) - 0.8).abs() < 1e-5);
    assert!((f32::from_bits(back.2) - 0.6).abs() < 1e-5);
}

#[test]
fn luma_chroma_grey_has_no_chroma() {
    let grey = from_rgb(quad(0.5, 0.5, 0.5, 1.0), ColorModel::YUVA);
    assert!((f32::from_bits(grey.0) - 0.5).abs() < 1e-6);
    assert_eq!(f32::from_bits(grey.1), 0.0);
    assert_eq!(f32::from_bits(grey.2), 0.0);
}

#[test]
fn luma_chroma_round_trip_recovers_rgb() {
    let c = quad(0.9, 0.3, 0.1, 1.0);
    let back = to_rgb(from_rgb(c, ColorModel::YUVA), ColorModel::YUVA);
    assert!((f32::from_bits(back.0) - 0.9).abs() < 1e-5);
    assert!((f32::from_bits(back.1) - 0.3).abs() < 1e-5);
    assert!((f32::from_bits(back.2) - 0.1).abs() < 1e-5);
}

#[test]
fn convert_to_same_model_is_identity() {
    let c = quad(0.37, 0.91, 0.18, 0.5);
    assert_eq!(convert_color(c, ColorModel::SphericalHCLA, ColorModel::SphericalHCLA), c);
    assert_eq!(convert_color(c, ColorModel::YUVA, ColorModel::YUVA), c);
}

#[test]
fn is_luma_chroma_only_for_yuv() {
    assert!(ColorModel::YUVA.is_luma_chroma());
    assert!(!ColorModel::RGBA.is_luma_chroma());
    assert!(!ColorModel::SphericalHCLA.is_luma_chroma());
    assert!(!ColorModel::CubicHSVA.is_luma_chroma());
    assert!(!ColorModel::CubicHSLA.is_luma_chroma());
    assert!(!ColorModel::CMYA.is_luma_chroma());
}

#[test]
fn cartesian_space_keeps_components() {
    let c = quad(0.1, 0.6, 0.8, 1.0);
    assert_eq!(from_space_to_space(c, ColorSpace::XYZ, ColorSpace::XYZ), c);
}

#[test]
fn cylindrical_space_matches_trigonometry() {
    let c = quad(0.25, 1.0, 0.5, 1.0);
    let p = from_space_to_space(c, ColorSpace::Cylindrical, ColorSpace::XYZ);
    let angle = 0.25f32 * 6.2831855f32;
    // A quarter turn: x near zero, y near one, height untouched.
    assert!((f32::from_bits(p.0) - angle.cos()).abs() < 1e-6);
    assert!((f32::from_bits(p.1) - angle.sin()).abs() < 1e-6);
    assert_eq!(f32::from_bits(p.2), 0.5);
    // And the embedding is deterministic: a second pass is bit-identical.
    let again = from_space_to_space(c, ColorSpace::Cylindrical, ColorSpace::XYZ);
    assert_eq!(p, again);
}

#[test]
fn symmetric_space_folds_the_angle() {
    let folded = from_space_to_space(quad(0.75, 1.0, 0.2, 1.0), ColorSpace::Symmetric, ColorSpace::XYZ);
    let direct = from_space_to_space(quad(0.25, 1.0, 0.2, 1.0), ColorSpace::Cylindrical, ColorSpace::XYZ);
    assert_eq!(folded, direct);
}
