//! Single-precision values carried as their raw bit patterns.
//!
//! Verified code in this crate never holds a native floating-point value:
//! every sample, coordinate and colour component is a `u32` holding the bit
//! pattern of the single-precision number it stands for.  Arithmetic on
//! those numbers is done behind the trusted wrappers below by deterministic,
//! pure-Rust implementations — const_soft_float's software IEEE 754
//! operations and libm's power function — never by the host's native
//! floating-point instructions, whose NaN payloads and libm precision Rust
//! documents as unspecified.  Each wrapper's result is therefore a genuine
//! function of the operand bit patterns, the same on every machine, and is
//! named by an uninterpreted spec function; contracts elsewhere in the
//! crate are exact compositions of these names.

use vstd::prelude::*;
use const_soft_float::soft_f32::SoftF32;

verus! {

/// Bit pattern of `+0.0`.
pub const ZERO_BITS: u32 = 0x0000_0000;

/// Bit pattern of `1.0`.
pub const ONE_BITS: u32 = 0x3F80_0000;

/// Bit pattern of `-0.5`.
pub const NEG_HALF_BITS: u32 = 0xBF00_0000;

/// Bit pattern of `2.2`, the reference gamma that configured gamma values
/// are divided by.
pub const GAMMA_REFERENCE_BITS: u32 = 0x400C_CCCD;

/// Bit pattern of `6.0`, the number of hue sectors of the hexcone models.
pub const SIX_BITS: u32 = 0x40C0_0000;

/// Bit pattern of the closest single-precision number to two pi, the full
/// turn used by the cylindrical embedding.
pub const TWO_PI_BITS: u32 = 0x40C9_0FDB;

/// Bit pattern of `0.5`.
pub const HALF_BITS: u32 = 0x3F00_0000;

/// Bit pattern of `2.0`.
pub const TWO_BITS: u32 = 0x4000_0000;

/// Bit pattern of `3.0`.
pub const THREE_BITS: u32 = 0x4040_0000;

/// Bit pattern of `4.0`.
pub const FOUR_BITS: u32 = 0x4080_0000;

/// Bit pattern of `5.0`.
pub const FIVE_BITS: u32 = 0x40A0_0000;

/// The sign bit of a single-precision pattern.
pub const SIGN_MASK: u32 = 0x8000_0000;

/// Everything but the sign bit of a single-precision pattern.
pub const MAGNITUDE_MASK: u32 = 0x7FFF_FFFF;

/// The exponent field of a single-precision pattern.
pub const EXPONENT_MASK: u32 = 0x7F80_0000;

/// Whether the pattern encodes a NaN: all exponent bits set and a non-zero
/// significand.
pub open spec fn is_nan_pattern(a: u32) -> bool {
    a & MAGNITUDE_MASK > EXPONENT_MASK
}

/// Whether the pattern encodes a finite, non-zero number: not every
/// exponent bit set (so neither an infinity nor a NaN), and a non-zero
/// magnitude.
pub open spec fn is_finite_nonzero_pattern(a: u32) -> bool {
    a & EXPONENT_MASK != EXPONENT_MASK && a & MAGNITUDE_MASK != 0
}

/// The bit pattern of the IEEE 754 sum of the numbers behind `a` and `b`.
pub uninterp spec fn add_of(a: u32, b: u32) -> u32;

/// The bit pattern of the IEEE 754 difference of the numbers behind `a` and `b`.
pub uninterp spec fn sub_of(a: u32, b: u32) -> u32;

/// The bit pattern of the IEEE 754 product of the numbers behind `a` and `b`.
pub uninterp spec fn mul_of(a: u32, b: u32) -> u32;

/// The bit pattern of the IEEE 754 quotient of the numbers behind `a` and `b`.
pub uninterp spec fn div_of(a: u32, b: u32) -> u32;

/// The bit pattern of the number behind `a` raised to the number behind `b`.
pub uninterp spec fn pow_of(a: u32, b: u32) -> u32;

/// The bit pattern of the sine of the number behind `a` (radians).
pub uninterp spec fn sin_of(a: u32) -> u32;

/// The bit pattern of the cosine of the number behind `a` (radians).
pub uninterp spec fn cos_of(a: u32) -> u32;

/// Whether the number behind `a` compares `<=` to the number behind `b`.
pub uninterp spec fn le_of(a: u32, b: u32) -> bool;

/// Whether the number behind `a` compares `<` to the number behind `b`.
pub uninterp spec fn lt_of(a: u32, b: u32) -> bool;

/// The bit pattern of `n` converted to the nearest single-precision number.
pub uninterp spec fn from_count_of(n: usize) -> u32;

/// Negation of a single-precision number: IEEE 754 negation is exactly a
/// flip of the sign bit, so it needs no trusted operation.
pub open spec fn neg_of(a: u32) -> u32 {
    a ^ SIGN_MASK
}

/// Flips the sign bit, negating the number behind `a`.
pub fn neg_bits(a: u32) -> (r: u32)
    ensures
        r == neg_of(a),
{
    a ^ SIGN_MASK
}

/// Negating twice restores the original bit pattern.
pub proof fn lemma_neg_involution(a: u32)
    ensures
        neg_of(neg_of(a)) == a,
{
    assert((a ^ SIGN_MASK) ^ SIGN_MASK == a) by (bit_vector);
}

/// Absolute value of a single-precision number: IEEE 754 magnitude is
/// exactly the pattern with the sign bit cleared, so it needs no trusted
/// operation.
pub open spec fn abs_of(a: u32) -> u32 {
    a & MAGNITUDE_MASK
}

/// Clears the sign bit, taking the magnitude of the number behind `a`.
pub fn abs_bits(a: u32) -> (r: u32)
    ensures
        r == abs_of(a),
{
    a & MAGNITUDE_MASK
}

/// Relies on const_soft_float's `SoftF32::add`: a deterministic, pure-Rust
/// IEEE 754 addition on bit patterns (the compiler-rt soft-float port, with
/// fixed NaN payloads), so the result is a function of the operand bits on
/// every machine.
#[verifier::external_body]
pub(crate) fn add_bits(a: u32, b: u32) -> (r: u32)
    ensures
        r == add_of(a, b),
{
    SoftF32::from_bits(a).add(SoftF32::from_bits(b)).to_bits()
}

/// Relies on const_soft_float's `SoftF32::sub`: a deterministic, pure-Rust
/// IEEE 754 subtraction on bit patterns.
#[verifier::external_body]
pub(crate) fn sub_bits(a: u32, b: u32) -> (r: u32)
    ensures
        r == sub_of(a, b),
{
    SoftF32::from_bits(a).sub(SoftF32::from_bits(b)).to_bits()
}

/// Relies on const_soft_float's `SoftF32::mul`: a deterministic, pure-Rust
/// IEEE 754 multiplication on bit patterns.
#[verifier::external_body]
pub(crate) fn mul_bits(a: u32, b: u32) -> (r: u32)
    ensures
        r == mul_of(a, b),
{
    SoftF32::from_bits(a).mul(SoftF32::from_bits(b)).to_bits()
}

/// Relies on const_soft_float's `SoftF32::div`: a deterministic, pure-Rust,
/// correctly rounded IEEE 754 division on bit patterns; a zero divisor
/// yields an infinity, or the implementation's fixed quiet-NaN pattern for
/// zero over zero.  Dividing a finite non-zero number by itself is exact,
/// so it returns the pattern of `1.0`.
#[verifier::external_body]
pub(crate) fn div_bits(a: u32, b: u32) -> (r: u32)
    ensures
        r == div_of(a, b),
        b == a && is_finite_nonzero_pattern(a) ==> r == ONE_BITS,
{
    SoftF32::from_bits(a).div(SoftF32::from_bits(b)).to_bits()
}

/// Relies on libm's `powf`: a fixed, pure-Rust port of the musl power
/// function, the same code on every platform.  Its source returns the base
/// unchanged when the exponent's bits are exactly those of `1.0` and the
/// base is not a NaN.
#[verifier::external_body]
pub(crate) fn pow_bits(a: u32, b: u32) -> (r: u32)
    ensures
        r == pow_of(a, b),
        b == ONE_BITS && !is_nan_pattern(a) ==> r == a,
{
    SoftF32::from_f32(libm::powf(SoftF32::from_bits(a).to_f32(), SoftF32::from_bits(b).to_f32()))
        .to_bits()
}

/// Relies on const_soft_float's `SoftF32::sin`: a deterministic, pure-Rust
/// port of the musl sine kernel over software doubles.
#[verifier::external_body]
pub(crate) fn sin_bits(a: u32) -> (r: u32)
    ensures
        r == sin_of(a),
{
    SoftF32::from_bits(a).sin().to_bits()
}

/// Relies on const_soft_float's `SoftF32::cos`: a deterministic, pure-Rust
/// port of the musl cosine kernel over software doubles.
#[verifier::external_body]
pub(crate) fn cos_bits(a: u32) -> (r: u32)
    ensures
        r == cos_of(a),
{
    SoftF32::from_bits(a).cos().to_bits()
}

/// Relies on std's IEEE 754 `<=` comparison of single-precision values — a
/// total, deterministic predicate on bit patterns (NaN compares false) —
/// with const_soft_float's lossless bit-pattern casts.
#[verifier::external_body]
pub(crate) fn le_bits(a: u32, b: u32) -> (r: bool)
    ensures
        r == le_of(a, b),
{
    SoftF32::from_bits(a).to_f32() <= SoftF32::from_bits(b).to_f32()
}

/// Relies on std's IEEE 754 `<` comparison of single-precision values, with
/// const_soft_float's lossless bit-pattern casts.
#[verifier::external_body]
pub(crate) fn lt_bits(a: u32, b: u32) -> (r: bool)
    ensures
        r == lt_of(a, b),
{
    SoftF32::from_bits(a).to_f32() < SoftF32::from_bits(b).to_f32()
}

/// Relies on std's integer-to-float cast, which rounds to the nearest
/// single-precision number deterministically; the bit-pattern cast is
/// const_soft_float's `SoftF32::to_bits`.
#[verifier::external_body]
pub(crate) fn from_count_bits(n: usize) -> (r: u32)
    ensures
        r == from_count_of(n),
{
    SoftF32::from_f32(n as _).to_bits()
}

} // verus!
