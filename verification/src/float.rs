//! The floating point operations of Wasm on untyped values.
//!
//! Floats are handled by their IEEE 754 bit patterns only. What depends on
//! nothing but the bits (classification, sign manipulation, equality) is
//! computed here. Arithmetic and rounding are computed by `wasmi_core`; the
//! results are named by the spec functions ending in `_bits`.
//!
//! IEEE 754 fixes every result of those operations but the sign and payload
//! of a NaN result, which processors choose differently. The contracts
//! therefore equate a result with its name up to [`f32_agree`] and
//! [`f64_agree`]: equal bits, or NaN on both sides.

use crate::value::UntypedValue;
use vstd::prelude::*;

verus! {

/// The bit pattern with the sign bit cleared.
pub open spec fn spec_f32_magnitude(bits: u32) -> u32 {
    if bits >= 0x8000_0000 {
        (bits - 0x8000_0000) as u32
    } else {
        bits
    }
}

/// Clears the sign bit of a bit pattern.
#[verifier::when_used_as_spec(spec_f32_magnitude)]
pub fn f32_magnitude(bits: u32) -> (res: u32)
    ensures
        res == spec_f32_magnitude(bits),
{
    if bits >= 0x8000_0000 {
        bits - 0x8000_0000
    } else {
        bits
    }
}

/// Whether the bit pattern is a NaN: all exponent bits set and a mantissa
/// that is not zero.
pub open spec fn spec_f32_is_nan(bits: u32) -> bool {
    f32_magnitude(bits) > 0x7f80_0000
}

/// Tells whether a bit pattern is a NaN.
#[verifier::when_used_as_spec(spec_f32_is_nan)]
pub fn f32_is_nan(bits: u32) -> (res: bool)
    ensures
        res == spec_f32_is_nan(bits),
{
    f32_magnitude(bits) > 0x7f80_0000
}

/// Whether the bit pattern is positive or negative zero.
pub open spec fn spec_f32_is_zero(bits: u32) -> bool {
    f32_magnitude(bits) == 0
}

/// Tells whether a bit pattern is positive or negative zero.
#[verifier::when_used_as_spec(spec_f32_is_zero)]
pub fn f32_is_zero(bits: u32) -> (res: bool)
    ensures
        res == spec_f32_is_zero(bits),
{
    f32_magnitude(bits) == 0
}

/// Whether the bit pattern is positive zero.
pub open spec fn spec_f32_is_positive_zero(bits: u32) -> bool {
    bits == 0
}

/// Tells whether a bit pattern is positive zero.
#[verifier::when_used_as_spec(spec_f32_is_positive_zero)]
pub fn f32_is_positive_zero(bits: u32) -> (res: bool)
    ensures
        res == spec_f32_is_positive_zero(bits),
{
    bits == 0
}

/// Whether the bit pattern is positive infinity.
pub open spec fn spec_f32_is_positive_infinity(bits: u32) -> bool {
    bits == 0x7f80_0000
}

/// Tells whether a bit pattern is positive infinity.
#[verifier::when_used_as_spec(spec_f32_is_positive_infinity)]
pub fn f32_is_positive_infinity(bits: u32) -> (res: bool)
    ensures
        res == spec_f32_is_positive_infinity(bits),
{
    bits == 0x7f80_0000
}

/// Whether the bit pattern is negative infinity.
pub open spec fn spec_f32_is_negative_infinity(bits: u32) -> bool {
    bits == 0xff80_0000
}

/// Tells whether a bit pattern is negative infinity.
#[verifier::when_used_as_spec(spec_f32_is_negative_infinity)]
pub fn f32_is_negative_infinity(bits: u32) -> (res: bool)
    ensures
        res == spec_f32_is_negative_infinity(bits),
{
    bits == 0xff80_0000
}

/// Two bit patterns stand for the same result of an arithmetic operation:
/// they are equal, or both are NaN.
pub open spec fn f32_agree(actual: u32, expected: u32) -> bool {
    actual == expected || (f32_is_nan(actual) && f32_is_nan(expected))
}

/// `f32.abs`: clears the sign bit.
pub open spec fn spec_f32_abs(input: UntypedValue) -> UntypedValue {
    UntypedValue::from_f32_bits(f32_magnitude(input.to_f32_bits()))
}

/// Evaluates `f32.abs`.
#[verifier::when_used_as_spec(spec_f32_abs)]
pub fn f32_abs(input: UntypedValue) -> (res: UntypedValue)
    ensures
        res == spec_f32_abs(input),
{
    UntypedValue::from_f32_bits(f32_magnitude(input.to_f32_bits()))
}

/// `f32.neg`: flips the sign bit.
pub open spec fn spec_f32_neg(input: UntypedValue) -> UntypedValue {
    let bits = input.to_f32_bits();
    if bits >= 0x8000_0000 {
        UntypedValue::from_f32_bits((bits - 0x8000_0000) as u32)
    } else {
        UntypedValue::from_f32_bits((bits + 0x8000_0000) as u32)
    }
}

/// Evaluates `f32.neg`.
#[verifier::when_used_as_spec(spec_f32_neg)]
pub fn f32_neg(input: UntypedValue) -> (res: UntypedValue)
    ensures
        res == spec_f32_neg(input),
{
    let bits: u32 = input.to_f32_bits();
    if bits >= 0x8000_0000 {
        UntypedValue::from_f32_bits(bits - 0x8000_0000)
    } else {
        UntypedValue::from_f32_bits(bits + 0x8000_0000)
    }
}

/// `f32.copysign`: the magnitude of `lhs` with the sign bit of `rhs`.
pub open spec fn spec_f32_copysign(lhs: UntypedValue, rhs: UntypedValue) -> UntypedValue {
    if rhs.to_f32_bits() >= 0x8000_0000 {
        UntypedValue::from_f32_bits((f32_magnitude(lhs.to_f32_bits()) + 0x8000_0000) as u32)
    } else {
        UntypedValue::from_f32_bits(f32_magnitude(lhs.to_f32_bits()))
    }
}

/// Evaluates `f32.copysign`.
#[verifier::when_used_as_spec(spec_f32_copysign)]
pub fn f32_copysign(lhs: UntypedValue, rhs: UntypedValue) -> (res: UntypedValue)
    ensures
        res == spec_f32_copysign(lhs, rhs),
{
    let magnitude: u32 = f32_magnitude(lhs.to_f32_bits());
    if rhs.to_f32_bits() >= 0x8000_0000 {
        UntypedValue::from_f32_bits(magnitude + 0x8000_0000)
    } else {
        UntypedValue::from_f32_bits(magnitude)
    }
}

/// `f32.eq`: `1` if neither operand is NaN and both are the same number,
/// where the two zeros are the same number; else `0`.
pub open spec fn spec_f32_eq(lhs: UntypedValue, rhs: UntypedValue) -> UntypedValue {
    let l = lhs.to_f32_bits();
    let r = rhs.to_f32_bits();
    UntypedValue::from_bool(
        !f32_is_nan(l) && !f32_is_nan(r) && (l == r || (f32_is_zero(l) && f32_is_zero(r))),
    )
}

/// Evaluates `f32.eq`.
#[verifier::when_used_as_spec(spec_f32_eq)]
pub fn f32_eq(lhs: UntypedValue, rhs: UntypedValue) -> (res: UntypedValue)
    ensures
        res == spec_f32_eq(lhs, rhs),
{
    let l: u32 = lhs.to_f32_bits();
    let r: u32 = rhs.to_f32_bits();
    UntypedValue::from_bool(
        !f32_is_nan(l) && !f32_is_nan(r) && (l == r || (f32_is_zero(l) && f32_is_zero(r))),
    )
}

/// `f32.ne`: the negation of `f32.eq`.
pub open spec fn spec_f32_ne(lhs: UntypedValue, rhs: UntypedValue) -> UntypedValue {
    let l = lhs.to_f32_bits();
    let r = rhs.to_f32_bits();
    UntypedValue::from_bool(
        !(!f32_is_nan(l) && !f32_is_nan(r) && (l == r || (f32_is_zero(l) && f32_is_zero(r)))),
    )
}

/// Evaluates `f32.ne`.
#[verifier::when_used_as_spec(spec_f32_ne)]
pub fn f32_ne(lhs: UntypedValue, rhs: UntypedValue) -> (res: UntypedValue)
    ensures
        res == spec_f32_ne(lhs, rhs),
{
    let l: u32 = lhs.to_f32_bits();
    let r: u32 = rhs.to_f32_bits();
    UntypedValue::from_bool(
        !(!f32_is_nan(l) && !f32_is_nan(r) && (l == r || (f32_is_zero(l) && f32_is_zero(r)))),
    )
}

/// The bit pattern that `wasmi_core` computes for `f32.add` on two bit
/// patterns.
pub uninterp spec fn f32_add_bits(lhs: u32, rhs: u32) -> u32;

/// Evaluates `f32.add` with `wasmi_core::UntypedValue::f32_add`.
///
/// Not proved: that the call reads its operands as `f32` bit patterns,
/// adds them, and returns the bit pattern of the result zero extended. The
/// result is [`f32_add_bits`] of the operands, up to which NaN it is.
#[verifier::external_body]
pub(crate) fn f32_add(lhs: UntypedValue, rhs: UntypedValue) -> (res: UntypedValue)
    ensures
        res == UntypedValue::from_f32_bits(res.to_f32_bits()),
        f32_agree(res.to_f32_bits(), f32_add_bits(lhs.to_f32_bits(), rhs.to_f32_bits())),
{
    let lhs = wasmi_core::UntypedValue::from(lhs.bits);
    let rhs = wasmi_core::UntypedValue::from(rhs.bits);
    UntypedValue { bits: lhs.f32_add(rhs).to_bits() }
}

/// The bit pattern that `wasmi_core` computes for `f32.sub` on two bit
/// patterns.
pub uninterp spec fn f32_sub_bits(lhs: u32, rhs: u32) -> u32;

/// Evaluates `f32.sub` with `wasmi_core::UntypedValue::f32_sub`.
///
/// Not proved: that the call reads its operands as `f32` bit patterns,
/// subtracts the second from the first, and returns the bit pattern of the
/// result zero extended. The result is [`f32_sub_bits`] of the operands, up to
/// which NaN it is.
#[verifier::external_body]
pub(crate) fn f32_sub(lhs: UntypedValue, rhs: UntypedValue) -> (res: UntypedValue)
    ensures
        res == UntypedValue::from_f32_bits(res.to_f32_bits()),
        f32_agree(res.to_f32_bits(), f32_sub_bits(lhs.to_f32_bits(), rhs.to_f32_bits())),
{
    let lhs = wasmi_core::UntypedValue::from(lhs.bits);
    let rhs = wasmi_core::UntypedValue::from(rhs.bits);
    UntypedValue { bits: lhs.f32_sub(rhs).to_bits() }
}

/// The bit pattern that `wasmi_core` computes for `f32.mul` on two bit
/// patterns.
pub uninterp spec fn f32_mul_bits(lhs: u32, rhs: u32) -> u32;

/// Evaluates `f32.mul` with `wasmi_core::UntypedValue::f32_mul`.
///
/// Not proved: that the call reads its operands as `f32` bit patterns,
/// multiplies them, and returns the bit pattern of the result zero extended.
/// The result is [`f32_mul_bits`] of the operands, up to which NaN it is.
#[verifier::external_body]
pub(crate) fn f32_mul(lhs: UntypedValue, rhs: UntypedValue) -> (res: UntypedValue)
    ensures
        res == UntypedValue::from_f32_bits(res.to_f32_bits()),
        f32_agree(res.to_f32_bits(), f32_mul_bits(lhs.to_f32_bits(), rhs.to_f32_bits())),
{
    let lhs = wasmi_core::UntypedValue::from(lhs.bits);
    let rhs = wasmi_core::UntypedValue::from(rhs.bits);
    UntypedValue { bits: lhs.f32_mul(rhs).to_bits() }
}

/// The bit pattern that `wasmi_core` computes for `f32.div` on two bit
/// patterns.
pub uninterp spec fn f32_div_bits(lhs: u32, rhs: u32) -> u32;

/// Evaluates `f32.div` with `wasmi_core::UntypedValue::f32_div`.
///
/// Not proved: that the call reads its operands as `f32` bit patterns, divides
/// the first by the second, and returns the bit pattern of the result zero
/// extended. The result is [`f32_div_bits`] of the operands, up to which NaN
/// it is.
#[verifier::external_body]
pub(crate) fn f32_div(lhs: UntypedValue, rhs: UntypedValue) -> (res: UntypedValue)
    ensures
        res == UntypedValue::from_f32_bits(res.to_f32_bits()),
        f32_agree(res.to_f32_bits(), f32_div_bits(lhs.to_f32_bits(), rhs.to_f32_bits())),
{
    let lhs = wasmi_core::UntypedValue::from(lhs.bits);
    let rhs = wasmi_core::UntypedValue::from(rhs.bits);
    UntypedValue { bits: lhs.f32_div(rhs).to_bits() }
}

/// The bit pattern that `wasmi_core` computes for `f32.min` on two bit
/// patterns.
pub uninterp spec fn f32_min_bits(lhs: u32, rhs: u32) -> u32;

/// Evaluates `f32.min` with `wasmi_core::UntypedValue::f32_min`.
///
/// Not proved: that the call reads its operands as `f32` bit patterns, takes
/// the smaller, or a NaN if one of them is NaN, and returns the bit pattern of
/// the result zero extended. The result is [`f32_min_bits`] of the operands,
/// up to which NaN it is.
#[verifier::external_body]
pub(crate) fn f32_min(lhs: UntypedValue, rhs: UntypedValue) -> (res: UntypedValue)
    ensures
        res == UntypedValue::from_f32_bits(res.to_f32_bits()),
        f32_agree(res.to_f32_bits(), f32_min_bits(lhs.to_f32_bits(), rhs.to_f32_bits())),
{
    let lhs = wasmi_core::UntypedValue::from(lhs.bits);
    let rhs = wasmi_core::UntypedValue::from(rhs.bits);
    UntypedValue { bits: lhs.f32_min(rhs).to_bits() }
}

/// The bit pattern that `wasmi_core` computes for `f32.max` on two bit
/// patterns.
pub uninterp spec fn f32_max_bits(lhs: u32, rhs: u32) -> u32;

/// Evaluates `f32.max` with `wasmi_core::UntypedValue::f32_max`.
///
/// Not proved: that the call reads its operands as `f32` bit patterns, takes
/// the larger, or a NaN if one of them is NaN, and returns the bit pattern of
/// the result zero extended. The result is [`f32_max_bits`] of the operands,
/// up to which NaN it is.
#[verifier::external_body]
pub(crate) fn f32_max(lhs: UntypedValue, rhs: UntypedValue) -> (res: UntypedValue)
    ensures
        res == UntypedValue::from_f32_bits(res.to_f32_bits()),
        f32_agree(res.to_f32_bits(), f32_max_bits(lhs.to_f32_bits(), rhs.to_f32_bits())),
{
    let lhs = wasmi_core::UntypedValue::from(lhs.bits);
    let rhs = wasmi_core::UntypedValue::from(rhs.bits);
    UntypedValue { bits: lhs.f32_max(rhs).to_bits() }
}

/// The bit pattern that `wasmi_core` computes for `f32.ceil` on a bit
/// pattern.
pub uninterp spec fn f32_ceil_bits(input: u32) -> u32;

/// Evaluates `f32.ceil` with `wasmi_core::UntypedValue::f32_ceil`.
///
/// Not proved: that the call reads its operand as an `f32` bit pattern, rounds
/// it up to an integer, and returns the bit pattern of the result zero
/// extended. The result is [`f32_ceil_bits`] of the operand, up to which NaN
/// it is.
#[verifier::external_body]
pub(crate) fn f32_ceil(input: UntypedValue) -> (res: UntypedValue)
    ensures
        res == UntypedValue::from_f32_bits(res.to_f32_bits()),
        f32_agree(res.to_f32_bits(), f32_ceil_bits(input.to_f32_bits())),
{
    let input = wasmi_core::UntypedValue::from(input.bits);
    UntypedValue { bits: input.f32_ceil().to_bits() }
}

/// The bit pattern that `wasmi_core` computes for `f32.floor` on a bit
/// pattern.
pub uninterp spec fn f32_floor_bits(input: u32) -> u32;

/// Evaluates `f32.floor` with `wasmi_core::UntypedValue::f32_floor`.
///
/// Not proved: that the call reads its operand as an `f32` bit pattern, rounds
/// it down to an integer, and returns the bit pattern of the result zero
/// extended. The result is [`f32_floor_bits`] of the operand, up to which NaN
/// it is.
#[verifier::external_body]
pub(crate) fn f32_floor(input: UntypedValue) -> (res: UntypedValue)
    ensures
        res == UntypedValue::from_f32_bits(res.to_f32_bits()),
        f32_agree(res.to_f32_bits(), f32_floor_bits(input.to_f32_bits())),
{
    let input = wasmi_core::UntypedValue::from(input.bits);
    UntypedValue { bits: input.f32_floor().to_bits() }
}

/// The bit pattern that `wasmi_core` computes for `f32.trunc` on a bit
/// pattern.
pub uninterp spec fn f32_trunc_bits(input: u32) -> u32;

/// Evaluates `f32.trunc` with `wasmi_core::UntypedValue::f32_trunc`.
///
/// Not proved: that the call reads its operand as an `f32` bit pattern, rounds
/// it towards zero to an integer, and returns the bit pattern of the result
/// zero extended. The result is [`f32_trunc_bits`] of the operand, up to which
/// NaN it is.
#[verifier::external_body]
pub(crate) fn f32_trunc(input: UntypedValue) -> (res: UntypedValue)
    ensures
        res == UntypedValue::from_f32_bits(res.to_f32_bits()),
        f32_agree(res.to_f32_bits(), f32_trunc_bits(input.to_f32_bits())),
{
    let input = wasmi_core::UntypedValue::from(input.bits);
    UntypedValue { bits: input.f32_trunc().to_bits() }
}

/// The bit pattern that `wasmi_core` computes for `f32.nearest` on a bit
/// pattern.
pub uninterp spec fn f32_nearest_bits(input: u32) -> u32;

/// Evaluates `f32.nearest` with `wasmi_core::UntypedValue::f32_nearest`.
///
/// Not proved: that the call reads its operand as an `f32` bit pattern, rounds
/// it to the nearest integer, ties to even, and returns the bit pattern of the
/// result zero extended. The result is [`f32_nearest_bits`] of the operand, up
/// to which NaN it is.
#[verifier::external_body]
pub(crate) fn f32_nearest(input: UntypedValue) -> (res: UntypedValue)
    ensures
        res == UntypedValue::from_f32_bits(res.to_f32_bits()),
        f32_agree(res.to_f32_bits(), f32_nearest_bits(input.to_f32_bits())),
{
    let input = wasmi_core::UntypedValue::from(input.bits);
    UntypedValue { bits: input.f32_nearest().to_bits() }
}

/// The bit pattern that `wasmi_core` computes for `f32.sqrt` on a bit
/// pattern.
pub uninterp spec fn f32_sqrt_bits(input: u32) -> u32;

/// Evaluates `f32.sqrt` with `wasmi_core::UntypedValue::f32_sqrt`.
///
/// Not proved: that the call reads its operand as an `f32` bit pattern, takes
/// its square root, and returns the bit pattern of the result zero extended.
/// The result is [`f32_sqrt_bits`] of the operand, up to which NaN it is.
#[verifier::external_body]
pub(crate) fn f32_sqrt(input: UntypedValue) -> (res: UntypedValue)
    ensures
        res == UntypedValue::from_f32_bits(res.to_f32_bits()),
        f32_agree(res.to_f32_bits(), f32_sqrt_bits(input.to_f32_bits())),
{
    let input = wasmi_core::UntypedValue::from(input.bits);
    UntypedValue { bits: input.f32_sqrt().to_bits() }
}

/// The bit pattern with the sign bit cleared.
pub open spec fn spec_f64_magnitude(bits: u64) -> u64 {
    if bits >= 0x8000_0000_0000_0000 {
        (bits - 0x8000_0000_0000_0000) as u64
    } else {
        bits
    }
}

/// Clears the sign bit of a bit pattern.
#[verifier::when_used_as_spec(spec_f64_magnitude)]
pub fn f64_magnitude(bits: u64) -> (res: u64)
    ensures
        res == spec_f64_magnitude(bits),
{
    if bits >= 0x8000_0000_0000_0000 {
        bits - 0x8000_0000_0000_0000
    } else {
        bits
    }
}

/// Whether the bit pattern is a NaN: all exponent bits set and a mantissa
/// that is not zero.
pub open spec fn spec_f64_is_nan(bits: u64) -> bool {
    f64_magnitude(bits) > 0x7ff0_0000_0000_0000
}

/// Tells whether a bit pattern is a NaN.
#[verifier::when_used_as_spec(spec_f64_is_nan)]
pub fn f64_is_nan(bits: u64) -> (res: bool)
    ensures
        res == spec_f64_is_nan(bits),
{
    f64_magnitude(bits) > 0x7ff0_0000_0000_0000
}

/// Whether the bit pattern is positive or negative zero.
pub open spec fn spec_f64_is_zero(bits: u64) -> bool {
    f64_magnitude(bits) == 0
}

/// Tells whether a bit pattern is positive or negative zero.
#[verifier::when_used_as_spec(spec_f64_is_zero)]
pub fn f64_is_zero(bits: u64) -> (res: bool)
    ensures
        res == spec_f64_is_zero(bits),
{
    f64_magnitude(bits) == 0
}

/// Whether the bit pattern is positive zero.
pub open spec fn spec_f64_is_positive_zero(bits: u64) -> bool {
    bits == 0
}

/// Tells whether a bit pattern is positive zero.
#[verifier::when_used_as_spec(spec_f64_is_positive_zero)]
pub fn f64_is_positive_zero(bits: u64) -> (res: bool)
    ensures
        res == spec_f64_is_positive_zero(bits),
{
    bits == 0
}

/// Whether the bit pattern is positive infinity.
pub open spec fn spec_f64_is_positive_infinity(bits: u64) -> bool {
    bits == 0x7ff0_0000_0000_0000
}

/// Tells whether a bit pattern is positive infinity.
#[verifier::when_used_as_spec(spec_f64_is_positive_infinity)]
pub fn f64_is_positive_infinity(bits: u64) -> (res: bool)
    ensures
        res == spec_f64_is_positive_infinity(bits),
{
    bits == 0x7ff0_0000_0000_0000
}

/// Whether the bit pattern is negative infinity.
pub open spec fn spec_f64_is_negative_infinity(bits: u64) -> bool {
    bits == 0xfff0_0000_0000_0000
}

/// Tells whether a bit pattern is negative infinity.
#[verifier::when_used_as_spec(spec_f64_is_negative_infinity)]
pub fn f64_is_negative_infinity(bits: u64) -> (res: bool)
    ensures
        res == spec_f64_is_negative_infinity(bits),
{
    bits == 0xfff0_0000_0000_0000
}

/// Two bit patterns stand for the same result of an arithmetic operation:
/// they are equal, or both are NaN.
pub open spec fn f64_agree(actual: u64, expected: u64) -> bool {
    actual == expected || (f64_is_nan(actual) && f64_is_nan(expected))
}

/// `f64.abs`: clears the sign bit.
pub open spec fn spec_f64_abs(input: UntypedValue) -> UntypedValue {
    UntypedValue::from_f64_bits(f64_magnitude(input.to_f64_bits()))
}

/// Evaluates `f64.abs`.
#[verifier::when_used_as_spec(spec_f64_abs)]
pub fn f64_abs(input: UntypedValue) -> (res: UntypedValue)
    ensures
        res == spec_f64_abs(input),
{
    UntypedValue::from_f64_bits(f64_magnitude(input.to_f64_bits()))
}

/// `f64.neg`: flips the sign bit.
pub open spec fn spec_f64_neg(input: UntypedValue) -> UntypedValue {
    let bits = input.to_f64_bits();
    if bits >= 0x8000_0000_0000_0000 {
        UntypedValue::from_f64_bits((bits - 0x8000_0000_0000_0000) as u64)
    } else {
        UntypedValue::from_f64_bits((bits + 0x8000_0000_0000_0000) as u64)
    }
}

/// Evaluates `f64.neg`.
#[verifier::when_used_as_spec(spec_f64_neg)]
pub fn f64_neg(input: UntypedValue) -> (res: UntypedValue)
    ensures
        res == spec_f64_neg(input),
{
    let bits: u64 = input.to_f64_bits();
    if bits >= 0x8000_0000_0000_0000 {
        UntypedValue::from_f64_bits(bits - 0x8000_0000_0000_0000)
    } else {
        UntypedValue::from_f64_bits(bits + 0x8000_0000_0000_0000)
    }
}

/// `f64.copysign`: the magnitude of `lhs` with the sign bit of `rhs`.
pub open spec fn spec_f64_copysign(lhs: UntypedValue, rhs: UntypedValue) -> UntypedValue {
    if rhs.to_f64_bits() >= 0x8000_0000_0000_0000 {
        UntypedValue::from_f64_bits((f64_magnitude(lhs.to_f64_bits()) + 0x8000_0000_0000_0000) as u64)
    } else {
        UntypedValue::from_f64_bits(f64_magnitude(lhs.to_f64_bits()))
    }
}

/// Evaluates `f64.copysign`.
#[verifier::when_used_as_spec(spec_f64_copysign)]
pub fn f64_copysign(lhs: UntypedValue, rhs: UntypedValue) -> (res: UntypedValue)
    ensures
        res == spec_f64_copysign(lhs, rhs),
{
    let magnitude: u64 = f64_magnitude(lhs.to_f64_bits());
    if rhs.to_f64_bits() >= 0x8000_0000_0000_0000 {
        UntypedValue::from_f64_bits(magnitude + 0x8000_0000_0000_0000)
    } else {
        UntypedValue::from_f64_bits(magnitude)
    }
}

/// `f64.eq`: `1` if neither operand is NaN and both are the same number,
/// where the two zeros are the same number; else `0`.
pub open spec fn spec_f64_eq(lhs: UntypedValue, rhs: UntypedValue) -> UntypedValue {
    let l = lhs.to_f64_bits();
    let r = rhs.to_f64_bits();
    UntypedValue::from_bool(
        !f64_is_nan(l) && !f64_is_nan(r) && (l == r || (f64_is_zero(l) && f64_is_zero(r))),
    )
}

/// Evaluates `f64.eq`.
#[verifier::when_used_as_spec(spec_f64_eq)]
pub fn f64_eq(lhs: UntypedValue, rhs: UntypedValue) -> (res: UntypedValue)
    ensures
        res == spec_f64_eq(lhs, rhs),
{
    let l: u64 = lhs.to_f64_bits();
    let r: u64 = rhs.to_f64_bits();
    UntypedValue::from_bool(
        !f64_is_nan(l) && !f64_is_nan(r) && (l == r || (f64_is_zero(l) && f64_is_zero(r))),
    )
}

/// `f64.ne`: the negation of `f64.eq`.
pub open spec fn spec_f64_ne(lhs: UntypedValue, rhs: UntypedValue) -> UntypedValue {
    let l = lhs.to_f64_bits();
    let r = rhs.to_f64_bits();
    UntypedValue::from_bool(
        !(!f64_is_nan(l) && !f64_is_nan(r) && (l == r || (f64_is_zero(l) && f64_is_zero(r)))),
    )
}

/// Evaluates `f64.ne`.
#[verifier::when_used_as_spec(spec_f64_ne)]
pub fn f64_ne(lhs: UntypedValue, rhs: UntypedValue) -> (res: UntypedValue)
    ensures
        res == spec_f64_ne(lhs, rhs),
{
    let l: u64 = lhs.to_f64_bits();
    let r: u64 = rhs.to_f64_bits();
    UntypedValue::from_bool(
        !(!f64_is_nan(l) && !f64_is_nan(r) && (l == r || (f64_is_zero(l) && f64_is_zero(r)))),
    )
}

/// The bit pattern that `wasmi_core` computes for `f64.add` on two bit
/// patterns.
pub uninterp spec fn f64_add_bits(lhs: u64, rhs: u64) -> u64;

/// Evaluates `f64.add` with `wasmi_core::UntypedValue::f64_add`.
///
/// Not proved: that the call reads its operands as `f64` bit patterns,
/// adds them, and returns the bit pattern of the result. The
/// result is [`f64_add_bits`] of the operands, up to which NaN it is.
#[verifier::external_body]
pub(crate) fn f64_add(lhs: UntypedValue, rhs: UntypedValue) -> (res: UntypedValue)
    ensures
        f64_agree(res.to_f64_bits(), f64_add_bits(lhs.to_f64_bits(), rhs.to_f64_bits())),
{
    let lhs = wasmi_core::UntypedValue::from(lhs.bits);
    let rhs = wasmi_core::UntypedValue::from(rhs.bits);
    UntypedValue { bits: lhs.f64_add(rhs).to_bits() }
}

/// The bit pattern that `wasmi_core` computes for `f64.sub` on two bit
/// patterns.
pub uninterp spec fn f64_sub_bits(lhs: u64, rhs: u64) -> u64;

/// Evaluates `f64.sub` with `wasmi_core::UntypedValue::f64_sub`.
///
/// Not proved: that the call reads its operands as `f64` bit patterns,
/// subtracts the second from the first, and returns the bit pattern of the
/// result. The result is [`f64_sub_bits`] of the operands, up to which NaN it
/// is.
#[verifier::external_body]
pub(crate) fn f64_sub(lhs: UntypedValue, rhs: UntypedValue) -> (res: UntypedValue)
    ensures
        f64_agree(res.to_f64_bits(), f64_sub_bits(lhs.to_f64_bits(), rhs.to_f64_bits())),
{
    let lhs = wasmi_core::UntypedValue::from(lhs.bits);
    let rhs = wasmi_core::UntypedValue::from(rhs.bits);
    UntypedValue { bits: lhs.f64_sub(rhs).to_bits() }
}

/// The bit pattern that `wasmi_core` computes for `f64.mul` on two bit
/// patterns.
pub uninterp spec fn f64_mul_bits(lhs: u64, rhs: u64) -> u64;

/// Evaluates `f64.mul` with `wasmi_core::UntypedValue::f64_mul`.
///
/// Not proved: that the call reads its operands as `f64` bit patterns,
/// multiplies them, and returns the bit pattern of the result. The
/// result is [`f64_mul_bits`] of the operands, up to which NaN it is.
#[verifier::external_body]
pub(crate) fn f64_mul(lhs: UntypedValue, rhs: UntypedValue) -> (res: UntypedValue)
    ensures
        f64_agree(res.to_f64_bits(), f64_mul_bits(lhs.to_f64_bits(), rhs.to_f64_bits())),
{
    let lhs = wasmi_core::UntypedValue::from(lhs.bits);
    let rhs = wasmi_core::UntypedValue::from(rhs.bits);
    UntypedValue { bits: lhs.f64_mul(rhs).to_bits() }
}

/// The bit pattern that `wasmi_core` computes for `f64.div` on two bit
/// patterns.
pub uninterp spec fn f64_div_bits(lhs: u64, rhs: u64) -> u64;

/// Evaluates `f64.div` with `wasmi_core::UntypedValue::f64_div`.
///
/// Not proved: that the call reads its operands as `f64` bit patterns, divides
/// the first by the second, and returns the bit pattern of the result. The
/// result is [`f64_div_bits`] of the operands, up to which NaN it is.
#[verifier::external_body]
pub(crate) fn f64_div(lhs: UntypedValue, rhs: UntypedValue) -> (res: UntypedValue)
    ensures
        f64_agree(res.to_f64_bits(), f64_div_bits(lhs.to_f64_bits(), rhs.to_f64_bits())),
{
    let lhs = wasmi_core::UntypedValue::from(lhs.bits);
    let rhs = wasmi_core::UntypedValue::from(rhs.bits);
    UntypedValue { bits: lhs.f64_div(rhs).to_bits() }
}

/// The bit pattern that `wasmi_core` computes for `f64.min` on two bit
/// patterns.
pub uninterp spec fn f64_min_bits(lhs: u64, rhs: u64) -> u64;

/// Evaluates `f64.min` with `wasmi_core::UntypedValue::f64_min`.
///
/// Not proved: that the call reads its operands as `f64` bit patterns, takes
/// the smaller, or a NaN if one of them is NaN, and returns the bit pattern of
/// the result. The result is [`f64_min_bits`] of the operands, up to which NaN
/// it is.
#[verifier::external_body]
pub(crate) fn f64_min(lhs: UntypedValue, rhs: UntypedValue) -> (res: UntypedValue)
    ensures
        f64_agree(res.to_f64_bits(), f64_min_bits(lhs.to_f64_bits(), rhs.to_f64_bits())),
{
    let lhs = wasmi_core::UntypedValue::from(lhs.bits);
    let rhs = wasmi_core::UntypedValue::from(rhs.bits);
    UntypedValue { bits: lhs.f64_min(rhs).to_bits() }
}

/// The bit pattern that `wasmi_core` computes for `f64.max` on two bit
/// patterns.
pub uninterp spec fn f64_max_bits(lhs: u64, rhs: u64) -> u64;

/// Evaluates `f64.max` with `wasmi_core::UntypedValue::f64_max`.
///
/// Not proved: that the call reads its operands as `f64` bit patterns, takes
/// the larger, or a NaN if one of them is NaN, and returns the bit pattern of
/// the result. The result is [`f64_max_bits`] of the operands, up to which NaN
/// it is.
#[verifier::external_body]
pub(crate) fn f64_max(lhs: UntypedValue, rhs: UntypedValue) -> (res: UntypedValue)
    ensures
        f64_agree(res.to_f64_bits(), f64_max_bits(lhs.to_f64_bits(), rhs.to_f64_bits())),
{
    let lhs = wasmi_core::UntypedValue::from(lhs.bits);
    let rhs = wasmi_core::UntypedValue::from(rhs.bits);
    UntypedValue { bits: lhs.f64_max(rhs).to_bits() }
}

/// The bit pattern that `wasmi_core` computes for `f64.ceil` on a bit
/// pattern.
pub uninterp spec fn f64_ceil_bits(input: u64) -> u64;

/// Evaluates `f64.ceil` with `wasmi_core::UntypedValue::f64_ceil`.
///
/// Not proved: that the call reads its operand as an `f64` bit pattern,
/// rounds it up to an integer, and returns the bit pattern of the result. The
/// result is [`f64_ceil_bits`] of the operand, up to which NaN it is.
#[verifier::external_body]
pub(crate) fn f64_ceil(input: UntypedValue) -> (res: UntypedValue)
    ensures
        f64_agree(res.to_f64_bits(), f64_ceil_bits(input.to_f64_bits())),
{
    let input = wasmi_core::UntypedValue::from(input.bits);
    UntypedValue { bits: input.f64_ceil().to_bits() }
}

/// The bit pattern that `wasmi_core` computes for `f64.floor` on a bit
/// pattern.
pub uninterp spec fn f64_floor_bits(input: u64) -> u64;

/// Evaluates `f64.floor` with `wasmi_core::UntypedValue::f64_floor`.
///
/// Not proved: that the call reads its operand as an `f64` bit pattern, rounds
/// it down to an integer, and returns the bit pattern of the result. The
/// result is [`f64_floor_bits`] of the operand, up to which NaN it is.
#[verifier::external_body]
pub(crate) fn f64_floor(input: UntypedValue) -> (res: UntypedValue)
    ensures
        f64_agree(res.to_f64_bits(), f64_floor_bits(input.to_f64_bits())),
{
    let input = wasmi_core::UntypedValue::from(input.bits);
    UntypedValue { bits: input.f64_floor().to_bits() }
}

/// The bit pattern that `wasmi_core` computes for `f64.trunc` on a bit
/// pattern.
pub uninterp spec fn f64_trunc_bits(input: u64) -> u64;

/// Evaluates `f64.trunc` with `wasmi_core::UntypedValue::f64_trunc`.
///
/// Not proved: that the call reads its operand as an `f64` bit pattern, rounds
/// it towards zero to an integer, and returns the bit pattern of the result.
/// The result is [`f64_trunc_bits`] of the operand, up to which NaN it is.
#[verifier::external_body]
pub(crate) fn f64_trunc(input: UntypedValue) -> (res: UntypedValue)
    ensures
        f64_agree(res.to_f64_bits(), f64_trunc_bits(input.to_f64_bits())),
{
    let input = wasmi_core::UntypedValue::from(input.bits);
    UntypedValue { bits: input.f64_trunc().to_bits() }
}

/// The bit pattern that `wasmi_core` computes for `f64.nearest` on a bit
/// pattern.
pub uninterp spec fn f64_nearest_bits(input: u64) -> u64;

/// Evaluates `f64.nearest` with `wasmi_core::UntypedValue::f64_nearest`.
///
/// Not proved: that the call reads its operand as an `f64` bit pattern, rounds
/// it to the nearest integer, ties to even, and returns the bit pattern of the
/// result. The result is [`f64_nearest_bits`] of the operand, up to which NaN
/// it is.
#[verifier::external_body]
pub(crate) fn f64_nearest(input: UntypedValue) -> (res: UntypedValue)
    ensures
        f64_agree(res.to_f64_bits(), f64_nearest_bits(input.to_f64_bits())),
{
    let input = wasmi_core::UntypedValue::from(input.bits);
    UntypedValue { bits: input.f64_nearest().to_bits() }
}

/// The bit pattern that `wasmi_core` computes for `f64.sqrt` on a bit
/// pattern.
pub uninterp spec fn f64_sqrt_bits(input: u64) -> u64;

/// Evaluates `f64.sqrt` with `wasmi_core::UntypedValue::f64_sqrt`.
///
/// Not proved: that the call reads its operand as an `f64` bit pattern,
/// takes its square root, and returns the bit pattern of the result. The
/// result is [`f64_sqrt_bits`] of the operand, up to which NaN it is.
#[verifier::external_body]
pub(crate) fn f64_sqrt(input: UntypedValue) -> (res: UntypedValue)
    ensures
        f64_agree(res.to_f64_bits(), f64_sqrt_bits(input.to_f64_bits())),
{
    let input = wasmi_core::UntypedValue::from(input.bits);
    UntypedValue { bits: input.f64_sqrt().to_bits() }
}

} // verus!
