//! The integer operations of Wasm on untyped values.
//!
//! Every operation reads its operands at the width of its type, computes
//! with two's complement wrapping and stores the result zero extended.
//! Division and remainder report the trap that Wasm mandates.

use crate::value::{TrapCode, UntypedValue};
use vstd::prelude::*;

verus! {

/// Integer division that rounds towards zero.
pub open spec fn trunc_div(x: int, d: int) -> int {
    if x >= 0 {
        if d > 0 {
            x / d
        } else {
            -(x / (-d))
        }
    } else {
        if d > 0 {
            -((-x) / d)
        } else {
            (-x) / (-d)
        }
    }
}

/// The remainder of [`trunc_div`]: it has the sign of the dividend.
pub open spec fn trunc_rem(x: int, d: int) -> int {
    if x >= 0 {
        if d > 0 {
            x % d
        } else {
            x % (-d)
        }
    } else {
        if d > 0 {
            -((-x) % d)
        } else {
            -((-x) % (-d))
        }
    }
}

/// The number of one bits in the binary representation of `x`.
pub open spec fn count_ones(x: nat) -> nat
    decreases x,
{
    if x == 0 {
        0
    } else {
        (x % 2) + count_ones(x / 2)
    }
}

proof fn lemma_count_ones_bound(x: nat)
    ensures
        count_ones(x) <= x,
    decreases x,
{
    if x != 0 {
        lemma_count_ones_bound(x / 2);
    }
}

/// Counts the one bits of `x`.
fn popcnt(x: u64) -> (res: u64)
    ensures
        res == count_ones(x as nat),
{
    let mut rest: u64 = x;
    let mut count: u64 = 0;
    proof {
        lemma_count_ones_bound(x as nat);
    }
    while rest != 0
        invariant
            count + count_ones(rest as nat) == count_ones(x as nat),
            count_ones(x as nat) <= x,
        decreases rest,
    {
        count = count + rest % 2;
        rest = rest / 2;
    }
    count
}

/// A quotient that rounds towards zero fits the signed type of its
/// operands, but for `MIN / -1`.
proof fn lemma_trunc_div_range(x: int, d: int, max: int)
    requires
        -max - 1 <= x <= max,
        -max - 1 <= d <= max,
        d != 0,
        !(x == -max - 1 && d == -1),
    ensures
        -max - 1 <= trunc_div(x, d) <= max,
{
    let n = if x >= 0 { x } else { -x };
    let m = if d > 0 { d } else { -d };
    vstd::arithmetic::div_mod::lemma_div_pos_is_pos(n, m);
    vstd::arithmetic::div_mod::lemma_div_nonincreasing(n, m);
    if n > 0 && m > 1 {
        vstd::arithmetic::div_mod::lemma_div_decreases(n, m);
    }
}

/// A remainder with the sign of the dividend is smaller in magnitude than
/// the divisor.
proof fn lemma_trunc_rem_range(x: int, d: int)
    requires
        d != 0,
    ensures
        d > 0 ==> -d < trunc_rem(x, d) < d,
        d < 0 ==> d < trunc_rem(x, d) < -d,
{
    let n = if x >= 0 { x } else { -x };
    let m = if d > 0 { d } else { -d };
    vstd::arithmetic::div_mod::lemma_mod_bound(n, m);
}

/// `i32.add`: wrapping addition.
pub open spec fn spec_i32_add(lhs: UntypedValue, rhs: UntypedValue) -> UntypedValue {
    UntypedValue::from_i32(lhs.to_i32().wrapping_add(rhs.to_i32()))
}

/// Evaluates `i32.add`.
#[verifier::when_used_as_spec(spec_i32_add)]
pub fn i32_add(lhs: UntypedValue, rhs: UntypedValue) -> (res: UntypedValue)
    ensures
        res == spec_i32_add(lhs, rhs),
{
    UntypedValue::from_i32(lhs.to_i32().wrapping_add(rhs.to_i32()))
}

/// `i32.sub`: wrapping subtraction.
pub open spec fn spec_i32_sub(lhs: UntypedValue, rhs: UntypedValue) -> UntypedValue {
    UntypedValue::from_i32(lhs.to_i32().wrapping_sub(rhs.to_i32()))
}

/// Evaluates `i32.sub`.
#[verifier::when_used_as_spec(spec_i32_sub)]
pub fn i32_sub(lhs: UntypedValue, rhs: UntypedValue) -> (res: UntypedValue)
    ensures
        res == spec_i32_sub(lhs, rhs),
{
    UntypedValue::from_i32(lhs.to_i32().wrapping_sub(rhs.to_i32()))
}

/// `i32.mul`: wrapping multiplication.
pub open spec fn spec_i32_mul(lhs: UntypedValue, rhs: UntypedValue) -> UntypedValue {
    UntypedValue::from_i32(lhs.to_i32().wrapping_mul(rhs.to_i32()))
}

/// Evaluates `i32.mul`.
#[verifier::when_used_as_spec(spec_i32_mul)]
pub fn i32_mul(lhs: UntypedValue, rhs: UntypedValue) -> (res: UntypedValue)
    ensures
        res == spec_i32_mul(lhs, rhs),
{
    UntypedValue::from_i32(lhs.to_i32().wrapping_mul(rhs.to_i32()))
}

/// `i32.div_s`: signed division rounding towards zero. Traps on a zero
/// divisor and on the one quotient that does not fit, `MIN / -1`.
pub open spec fn spec_i32_div_s(lhs: UntypedValue, rhs: UntypedValue) -> Result<
    UntypedValue,
    TrapCode,
> {
    if rhs.to_i32() == 0 {
        Err(TrapCode::IntegerDivisionByZero)
    } else if lhs.to_i32() == i32::MIN && rhs.to_i32() == -1 {
        Err(TrapCode::IntegerOverflow)
    } else {
        Ok(UntypedValue::from_i32(trunc_div(lhs.to_i32() as int, rhs.to_i32() as int) as i32))
    }
}

/// Evaluates `i32.div_s`.
#[verifier::when_used_as_spec(spec_i32_div_s)]
pub fn i32_div_s(lhs: UntypedValue, rhs: UntypedValue) -> (res: Result<UntypedValue, TrapCode>)
    ensures
        res == spec_i32_div_s(lhs, rhs),
{
    let divisor: i32 = rhs.to_i32();
    if divisor == 0 {
        return Err(TrapCode::IntegerDivisionByZero);
    }
    proof {
        if !(lhs.to_i32() == i32::MIN && divisor == -1) {
            lemma_trunc_div_range(lhs.to_i32() as int, divisor as int, i32::MAX as int);
        }
    }
    match lhs.to_i32().checked_div(divisor) {
        Some(quotient) => Ok(UntypedValue::from_i32(quotient)),
        None => Err(TrapCode::IntegerOverflow),
    }
}

/// `i32.div_u`: unsigned division. Traps on a zero divisor.
pub open spec fn spec_i32_div_u(lhs: UntypedValue, rhs: UntypedValue) -> Result<
    UntypedValue,
    TrapCode,
> {
    if rhs.to_u32() == 0 {
        Err(TrapCode::IntegerDivisionByZero)
    } else {
        Ok(UntypedValue::from_u32(lhs.to_u32() / rhs.to_u32()))
    }
}

/// Evaluates `i32.div_u`.
#[verifier::when_used_as_spec(spec_i32_div_u)]
pub fn i32_div_u(lhs: UntypedValue, rhs: UntypedValue) -> (res: Result<UntypedValue, TrapCode>)
    ensures
        res == spec_i32_div_u(lhs, rhs),
{
    let divisor: u32 = rhs.to_u32();
    if divisor == 0 {
        return Err(TrapCode::IntegerDivisionByZero);
    }
    Ok(UntypedValue::from_u32(lhs.to_u32() / divisor))
}

/// `i32.rem_s`: the signed remainder, which has the sign of the dividend.
/// Traps on a zero divisor; `MIN % -1` is `0`.
pub open spec fn spec_i32_rem_s(lhs: UntypedValue, rhs: UntypedValue) -> Result<
    UntypedValue,
    TrapCode,
> {
    if rhs.to_i32() == 0 {
        Err(TrapCode::IntegerDivisionByZero)
    } else {
        Ok(UntypedValue::from_i32(trunc_rem(lhs.to_i32() as int, rhs.to_i32() as int) as i32))
    }
}

/// Evaluates `i32.rem_s`.
#[verifier::when_used_as_spec(spec_i32_rem_s)]
pub fn i32_rem_s(lhs: UntypedValue, rhs: UntypedValue) -> (res: Result<UntypedValue, TrapCode>)
    ensures
        res == spec_i32_rem_s(lhs, rhs),
{
    let divisor: i32 = rhs.to_i32();
    if divisor == 0 {
        return Err(TrapCode::IntegerDivisionByZero);
    }
    proof {
        let x = lhs.to_i32() as int;
        let d = divisor as int;
        lemma_trunc_rem_range(x, d);
        assert(x * -1 == -x && d * -1 == -d);
        if x == 0 {
            vstd::arithmetic::div_mod::lemma_small_mod(0, (if d > 0 { d } else { -d }) as nat);
        }
        if x < 0 && d < 0 {
            assert(((x * -1) % (d * -1)) * -1 == trunc_rem(x, d));
        } else if x < 0 {
            assert(((x * -1) % d) * -1 == trunc_rem(x, d));
        } else if d < 0 {
            assert(x % (d * -1) == trunc_rem(x, d));
        }
    }
    match lhs.to_i32().checked_rem(divisor) {
        Some(remainder) => Ok(UntypedValue::from_i32(remainder)),
        None => Ok(UntypedValue::from_i32(0)),
    }
}

/// `i32.rem_u`: the unsigned remainder. Traps on a zero divisor.
pub open spec fn spec_i32_rem_u(lhs: UntypedValue, rhs: UntypedValue) -> Result<
    UntypedValue,
    TrapCode,
> {
    if rhs.to_u32() == 0 {
        Err(TrapCode::IntegerDivisionByZero)
    } else {
        Ok(UntypedValue::from_u32(lhs.to_u32() % rhs.to_u32()))
    }
}

/// Evaluates `i32.rem_u`.
#[verifier::when_used_as_spec(spec_i32_rem_u)]
pub fn i32_rem_u(lhs: UntypedValue, rhs: UntypedValue) -> (res: Result<UntypedValue, TrapCode>)
    ensures
        res == spec_i32_rem_u(lhs, rhs),
{
    let divisor: u32 = rhs.to_u32();
    if divisor == 0 {
        return Err(TrapCode::IntegerDivisionByZero);
    }
    Ok(UntypedValue::from_u32(lhs.to_u32() % divisor))
}

/// `i32.and`: bitwise conjunction.
pub open spec fn spec_i32_and(lhs: UntypedValue, rhs: UntypedValue) -> UntypedValue {
    UntypedValue::from_u32(lhs.to_u32() & rhs.to_u32())
}

/// Evaluates `i32.and`.
#[verifier::when_used_as_spec(spec_i32_and)]
pub fn i32_and(lhs: UntypedValue, rhs: UntypedValue) -> (res: UntypedValue)
    ensures
        res == spec_i32_and(lhs, rhs),
{
    UntypedValue::from_u32(lhs.to_u32() & rhs.to_u32())
}

/// `i32.or`: bitwise disjunction.
pub open spec fn spec_i32_or(lhs: UntypedValue, rhs: UntypedValue) -> UntypedValue {
    UntypedValue::from_u32(lhs.to_u32() | rhs.to_u32())
}

/// Evaluates `i32.or`.
#[verifier::when_used_as_spec(spec_i32_or)]
pub fn i32_or(lhs: UntypedValue, rhs: UntypedValue) -> (res: UntypedValue)
    ensures
        res == spec_i32_or(lhs, rhs),
{
    UntypedValue::from_u32(lhs.to_u32() | rhs.to_u32())
}

/// `i32.xor`: bitwise exclusive disjunction.
pub open spec fn spec_i32_xor(lhs: UntypedValue, rhs: UntypedValue) -> UntypedValue {
    UntypedValue::from_u32(lhs.to_u32() ^ rhs.to_u32())
}

/// Evaluates `i32.xor`.
#[verifier::when_used_as_spec(spec_i32_xor)]
pub fn i32_xor(lhs: UntypedValue, rhs: UntypedValue) -> (res: UntypedValue)
    ensures
        res == spec_i32_xor(lhs, rhs),
{
    UntypedValue::from_u32(lhs.to_u32() ^ rhs.to_u32())
}

/// The number of bits by which an `i32` shift or rotation moves: the shift
/// operand modulo 32.
pub open spec fn spec_i32_shift_amount(rhs: UntypedValue) -> u32 {
    rhs.to_u32() % 32
}

/// Computes [`spec_i32_shift_amount`].
#[verifier::when_used_as_spec(spec_i32_shift_amount)]
pub fn i32_shift_amount(rhs: UntypedValue) -> (res: u32)
    ensures
        res == spec_i32_shift_amount(rhs),
        res < 32,
{
    rhs.to_u32() % 32
}

/// `i32.shl`: shifts left, dropping the bits that leave the 32 bits.
pub open spec fn spec_i32_shl(lhs: UntypedValue, rhs: UntypedValue) -> UntypedValue {
    UntypedValue::from_u32(lhs.to_u32() << i32_shift_amount(rhs))
}

/// Evaluates `i32.shl`.
#[verifier::when_used_as_spec(spec_i32_shl)]
pub fn i32_shl(lhs: UntypedValue, rhs: UntypedValue) -> (res: UntypedValue)
    ensures
        res == spec_i32_shl(lhs, rhs),
{
    UntypedValue::from_u32(lhs.to_u32() << i32_shift_amount(rhs))
}

/// `i32.shr_s`: shifts right and fills with copies of the sign bit.
pub open spec fn spec_i32_shr_s(lhs: UntypedValue, rhs: UntypedValue) -> UntypedValue {
    UntypedValue::from_i32(lhs.to_i32() >> i32_shift_amount(rhs))
}

/// Evaluates `i32.shr_s`.
#[verifier::when_used_as_spec(spec_i32_shr_s)]
pub fn i32_shr_s(lhs: UntypedValue, rhs: UntypedValue) -> (res: UntypedValue)
    ensures
        res == spec_i32_shr_s(lhs, rhs),
{
    UntypedValue::from_i32(lhs.to_i32() >> i32_shift_amount(rhs))
}

/// `i32.shr_u`: shifts right and fills with zeros.
pub open spec fn spec_i32_shr_u(lhs: UntypedValue, rhs: UntypedValue) -> UntypedValue {
    UntypedValue::from_u32(lhs.to_u32() >> i32_shift_amount(rhs))
}

/// Evaluates `i32.shr_u`.
#[verifier::when_used_as_spec(spec_i32_shr_u)]
pub fn i32_shr_u(lhs: UntypedValue, rhs: UntypedValue) -> (res: UntypedValue)
    ensures
        res == spec_i32_shr_u(lhs, rhs),
{
    UntypedValue::from_u32(lhs.to_u32() >> i32_shift_amount(rhs))
}

/// `i32.rotl`: rotates left; the bits that leave on the left enter on the
/// right.
pub open spec fn spec_i32_rotl(lhs: UntypedValue, rhs: UntypedValue) -> UntypedValue {
    let amount = i32_shift_amount(rhs);
    if amount == 0 {
        UntypedValue::from_u32(lhs.to_u32())
    } else {
        UntypedValue::from_u32(
            (lhs.to_u32() << amount) | (lhs.to_u32() >> ((32 - amount) as u32)),
        )
    }
}

/// Evaluates `i32.rotl`.
#[verifier::when_used_as_spec(spec_i32_rotl)]
pub fn i32_rotl(lhs: UntypedValue, rhs: UntypedValue) -> (res: UntypedValue)
    ensures
        res == spec_i32_rotl(lhs, rhs),
{
    let amount: u32 = i32_shift_amount(rhs);
    let value: u32 = lhs.to_u32();
    if amount == 0 {
        UntypedValue::from_u32(value)
    } else {
        UntypedValue::from_u32((value << amount) | (value >> (32 - amount)))
    }
}

/// `i32.rotr`: rotates right; the bits that leave on the right enter on
/// the left.
pub open spec fn spec_i32_rotr(lhs: UntypedValue, rhs: UntypedValue) -> UntypedValue {
    let amount = i32_shift_amount(rhs);
    if amount == 0 {
        UntypedValue::from_u32(lhs.to_u32())
    } else {
        UntypedValue::from_u32(
            (lhs.to_u32() >> amount) | (lhs.to_u32() << ((32 - amount) as u32)),
        )
    }
}

/// Evaluates `i32.rotr`.
#[verifier::when_used_as_spec(spec_i32_rotr)]
pub fn i32_rotr(lhs: UntypedValue, rhs: UntypedValue) -> (res: UntypedValue)
    ensures
        res == spec_i32_rotr(lhs, rhs),
{
    let amount: u32 = i32_shift_amount(rhs);
    let value: u32 = lhs.to_u32();
    if amount == 0 {
        UntypedValue::from_u32(value)
    } else {
        UntypedValue::from_u32((value >> amount) | (value << (32 - amount)))
    }
}

/// `i32.clz`: the number of leading zero bits.
pub open spec fn spec_i32_clz(input: UntypedValue) -> UntypedValue {
    UntypedValue::from_u32(vstd::std_specs::bits::u32_leading_zeros(input.to_u32()) as u32)
}

/// Evaluates `i32.clz`.
#[verifier::when_used_as_spec(spec_i32_clz)]
pub fn i32_clz(input: UntypedValue) -> (res: UntypedValue)
    ensures
        res == spec_i32_clz(input),
{
    UntypedValue::from_u32(input.to_u32().leading_zeros())
}

/// `i32.ctz`: the number of trailing zero bits.
pub open spec fn spec_i32_ctz(input: UntypedValue) -> UntypedValue {
    UntypedValue::from_u32(vstd::std_specs::bits::u32_trailing_zeros(input.to_u32()) as u32)
}

/// Evaluates `i32.ctz`.
#[verifier::when_used_as_spec(spec_i32_ctz)]
pub fn i32_ctz(input: UntypedValue) -> (res: UntypedValue)
    ensures
        res == spec_i32_ctz(input),
{
    UntypedValue::from_u32(input.to_u32().trailing_zeros())
}

/// `i32.popcnt`: the number of one bits.
pub open spec fn spec_i32_popcnt(input: UntypedValue) -> UntypedValue {
    UntypedValue::from_u64(count_ones(input.to_u32() as nat) as u64)
}

/// Evaluates `i32.popcnt`.
#[verifier::when_used_as_spec(spec_i32_popcnt)]
pub fn i32_popcnt(input: UntypedValue) -> (res: UntypedValue)
    ensures
        res == spec_i32_popcnt(input),
{
    UntypedValue::from_u64(popcnt(input.to_u32() as u64))
}

/// `i32.eq`: `1` if the operands are equal, else `0`.
pub open spec fn spec_i32_eq(lhs: UntypedValue, rhs: UntypedValue) -> UntypedValue {
    UntypedValue::from_bool(lhs.to_u32() == rhs.to_u32())
}

/// Evaluates `i32.eq`.
#[verifier::when_used_as_spec(spec_i32_eq)]
pub fn i32_eq(lhs: UntypedValue, rhs: UntypedValue) -> (res: UntypedValue)
    ensures
        res == spec_i32_eq(lhs, rhs),
{
    UntypedValue::from_bool(lhs.to_u32() == rhs.to_u32())
}

/// `i32.ne`: `1` if the operands differ, else `0`.
pub open spec fn spec_i32_ne(lhs: UntypedValue, rhs: UntypedValue) -> UntypedValue {
    UntypedValue::from_bool(lhs.to_u32() != rhs.to_u32())
}

/// Evaluates `i32.ne`.
#[verifier::when_used_as_spec(spec_i32_ne)]
pub fn i32_ne(lhs: UntypedValue, rhs: UntypedValue) -> (res: UntypedValue)
    ensures
        res == spec_i32_ne(lhs, rhs),
{
    UntypedValue::from_bool(lhs.to_u32() != rhs.to_u32())
}

/// `i32.lt_s`: `1` if `lhs < rhs` holds of the operands read as signed
/// integers, else `0`.
pub open spec fn spec_i32_lt_s(lhs: UntypedValue, rhs: UntypedValue) -> UntypedValue {
    UntypedValue::from_bool(lhs.to_i32() < rhs.to_i32())
}

/// Evaluates `i32.lt_s`.
#[verifier::when_used_as_spec(spec_i32_lt_s)]
pub fn i32_lt_s(lhs: UntypedValue, rhs: UntypedValue) -> (res: UntypedValue)
    ensures
        res == spec_i32_lt_s(lhs, rhs),
{
    UntypedValue::from_bool(lhs.to_i32() < rhs.to_i32())
}

/// `i32.lt_u`: `1` if `lhs < rhs` holds of the operands read as unsigned
/// integers, else `0`.
pub open spec fn spec_i32_lt_u(lhs: UntypedValue, rhs: UntypedValue) -> UntypedValue {
    UntypedValue::from_bool(lhs.to_u32() < rhs.to_u32())
}

/// Evaluates `i32.lt_u`.
#[verifier::when_used_as_spec(spec_i32_lt_u)]
pub fn i32_lt_u(lhs: UntypedValue, rhs: UntypedValue) -> (res: UntypedValue)
    ensures
        res == spec_i32_lt_u(lhs, rhs),
{
    UntypedValue::from_bool(lhs.to_u32() < rhs.to_u32())
}

/// `i32.gt_s`: `1` if `lhs > rhs` holds of the operands read as signed
/// integers, else `0`.
pub open spec fn spec_i32_gt_s(lhs: UntypedValue, rhs: UntypedValue) -> UntypedValue {
    UntypedValue::from_bool(lhs.to_i32() > rhs.to_i32())
}

/// Evaluates `i32.gt_s`.
#[verifier::when_used_as_spec(spec_i32_gt_s)]
pub fn i32_gt_s(lhs: UntypedValue, rhs: UntypedValue) -> (res: UntypedValue)
    ensures
        res == spec_i32_gt_s(lhs, rhs),
{
    UntypedValue::from_bool(lhs.to_i32() > rhs.to_i32())
}

/// `i32.gt_u`: `1` if `lhs > rhs` holds of the operands read as unsigned
/// integers, else `0`.
pub open spec fn spec_i32_gt_u(lhs: UntypedValue, rhs: UntypedValue) -> UntypedValue {
    UntypedValue::from_bool(lhs.to_u32() > rhs.to_u32())
}

/// Evaluates `i32.gt_u`.
#[verifier::when_used_as_spec(spec_i32_gt_u)]
pub fn i32_gt_u(lhs: UntypedValue, rhs: UntypedValue) -> (res: UntypedValue)
    ensures
        res == spec_i32_gt_u(lhs, rhs),
{
    UntypedValue::from_bool(lhs.to_u32() > rhs.to_u32())
}

/// `i32.le_s`: `1` if `lhs <= rhs` holds of the operands read as signed
/// integers, else `0`.
pub open spec fn spec_i32_le_s(lhs: UntypedValue, rhs: UntypedValue) -> UntypedValue {
    UntypedValue::from_bool(lhs.to_i32() <= rhs.to_i32())
}

/// Evaluates `i32.le_s`.
#[verifier::when_used_as_spec(spec_i32_le_s)]
pub fn i32_le_s(lhs: UntypedValue, rhs: UntypedValue) -> (res: UntypedValue)
    ensures
        res == spec_i32_le_s(lhs, rhs),
{
    UntypedValue::from_bool(lhs.to_i32() <= rhs.to_i32())
}

/// `i32.le_u`: `1` if `lhs <= rhs` holds of the operands read as unsigned
/// integers, else `0`.
pub open spec fn spec_i32_le_u(lhs: UntypedValue, rhs: UntypedValue) -> UntypedValue {
    UntypedValue::from_bool(lhs.to_u32() <= rhs.to_u32())
}

/// Evaluates `i32.le_u`.
#[verifier::when_used_as_spec(spec_i32_le_u)]
pub fn i32_le_u(lhs: UntypedValue, rhs: UntypedValue) -> (res: UntypedValue)
    ensures
        res == spec_i32_le_u(lhs, rhs),
{
    UntypedValue::from_bool(lhs.to_u32() <= rhs.to_u32())
}

/// `i32.ge_s`: `1` if `lhs >= rhs` holds of the operands read as signed
/// integers, else `0`.
pub open spec fn spec_i32_ge_s(lhs: UntypedValue, rhs: UntypedValue) -> UntypedValue {
    UntypedValue::from_bool(lhs.to_i32() >= rhs.to_i32())
}

/// Evaluates `i32.ge_s`.
#[verifier::when_used_as_spec(spec_i32_ge_s)]
pub fn i32_ge_s(lhs: UntypedValue, rhs: UntypedValue) -> (res: UntypedValue)
    ensures
        res == spec_i32_ge_s(lhs, rhs),
{
    UntypedValue::from_bool(lhs.to_i32() >= rhs.to_i32())
}

/// `i32.ge_u`: `1` if `lhs >= rhs` holds of the operands read as unsigned
/// integers, else `0`.
pub open spec fn spec_i32_ge_u(lhs: UntypedValue, rhs: UntypedValue) -> UntypedValue {
    UntypedValue::from_bool(lhs.to_u32() >= rhs.to_u32())
}

/// Evaluates `i32.ge_u`.
#[verifier::when_used_as_spec(spec_i32_ge_u)]
pub fn i32_ge_u(lhs: UntypedValue, rhs: UntypedValue) -> (res: UntypedValue)
    ensures
        res == spec_i32_ge_u(lhs, rhs),
{
    UntypedValue::from_bool(lhs.to_u32() >= rhs.to_u32())
}

/// `i64.add`: wrapping addition.
pub open spec fn spec_i64_add(lhs: UntypedValue, rhs: UntypedValue) -> UntypedValue {
    UntypedValue::from_i64(lhs.to_i64().wrapping_add(rhs.to_i64()))
}

/// Evaluates `i64.add`.
#[verifier::when_used_as_spec(spec_i64_add)]
pub fn i64_add(lhs: UntypedValue, rhs: UntypedValue) -> (res: UntypedValue)
    ensures
        res == spec_i64_add(lhs, rhs),
{
    UntypedValue::from_i64(lhs.to_i64().wrapping_add(rhs.to_i64()))
}

/// `i64.sub`: wrapping subtraction.
pub open spec fn spec_i64_sub(lhs: UntypedValue, rhs: UntypedValue) -> UntypedValue {
    UntypedValue::from_i64(lhs.to_i64().wrapping_sub(rhs.to_i64()))
}

/// Evaluates `i64.sub`.
#[verifier::when_used_as_spec(spec_i64_sub)]
pub fn i64_sub(lhs: UntypedValue, rhs: UntypedValue) -> (res: UntypedValue)
    ensures
        res == spec_i64_sub(lhs, rhs),
{
    UntypedValue::from_i64(lhs.to_i64().wrapping_sub(rhs.to_i64()))
}

/// `i64.mul`: wrapping multiplication.
pub open spec fn spec_i64_mul(lhs: UntypedValue, rhs: UntypedValue) -> UntypedValue {
    UntypedValue::from_i64(lhs.to_i64().wrapping_mul(rhs.to_i64()))
}

/// Evaluates `i64.mul`.
#[verifier::when_used_as_spec(spec_i64_mul)]
pub fn i64_mul(lhs: UntypedValue, rhs: UntypedValue) -> (res: UntypedValue)
    ensures
        res == spec_i64_mul(lhs, rhs),
{
    UntypedValue::from_i64(lhs.to_i64().wrapping_mul(rhs.to_i64()))
}

/// `i64.div_s`: signed division rounding towards zero. Traps on a zero
/// divisor and on the one quotient that does not fit, `MIN / -1`.
pub open spec fn spec_i64_div_s(lhs: UntypedValue, rhs: UntypedValue) -> Result<
    UntypedValue,
    TrapCode,
> {
    if rhs.to_i64() == 0 {
        Err(TrapCode::IntegerDivisionByZero)
    } else if lhs.to_i64() == i64::MIN && rhs.to_i64() == -1 {
        Err(TrapCode::IntegerOverflow)
    } else {
        Ok(UntypedValue::from_i64(trunc_div(lhs.to_i64() as int, rhs.to_i64() as int) as i64))
    }
}

/// Evaluates `i64.div_s`.
#[verifier::when_used_as_spec(spec_i64_div_s)]
pub fn i64_div_s(lhs: UntypedValue, rhs: UntypedValue) -> (res: Result<UntypedValue, TrapCode>)
    ensures
        res == spec_i64_div_s(lhs, rhs),
{
    let divisor: i64 = rhs.to_i64();
    if divisor == 0 {
        return Err(TrapCode::IntegerDivisionByZero);
    }
    proof {
        if !(lhs.to_i64() == i64::MIN && divisor == -1) {
            lemma_trunc_div_range(lhs.to_i64() as int, divisor as int, i64::MAX as int);
        }
    }
    match lhs.to_i64().checked_div(divisor) {
        Some(quotient) => Ok(UntypedValue::from_i64(quotient)),
        None => Err(TrapCode::IntegerOverflow),
    }
}

/// `i64.div_u`: unsigned division. Traps on a zero divisor.
pub open spec fn spec_i64_div_u(lhs: UntypedValue, rhs: UntypedValue) -> Result<
    UntypedValue,
    TrapCode,
> {
    if rhs.to_u64() == 0 {
        Err(TrapCode::IntegerDivisionByZero)
    } else {
        Ok(UntypedValue::from_u64(lhs.to_u64() / rhs.to_u64()))
    }
}

/// Evaluates `i64.div_u`.
#[verifier::when_used_as_spec(spec_i64_div_u)]
pub fn i64_div_u(lhs: UntypedValue, rhs: UntypedValue) -> (res: Result<UntypedValue, TrapCode>)
    ensures
        res == spec_i64_div_u(lhs, rhs),
{
    let divisor: u64 = rhs.to_u64();
    if divisor == 0 {
        return Err(TrapCode::IntegerDivisionByZero);
    }
    Ok(UntypedValue::from_u64(lhs.to_u64() / divisor))
}

/// `i64.rem_s`: the signed remainder, which has the sign of the dividend.
/// Traps on a zero divisor; `MIN % -1` is `0`.
pub open spec fn spec_i64_rem_s(lhs: UntypedValue, rhs: UntypedValue) -> Result<
    UntypedValue,
    TrapCode,
> {
    if rhs.to_i64() == 0 {
        Err(TrapCode::IntegerDivisionByZero)
    } else {
        Ok(UntypedValue::from_i64(trunc_rem(lhs.to_i64() as int, rhs.to_i64() as int) as i64))
    }
}

/// Evaluates `i64.rem_s`.
#[verifier::when_used_as_spec(spec_i64_rem_s)]
pub fn i64_rem_s(lhs: UntypedValue, rhs: UntypedValue) -> (res: Result<UntypedValue, TrapCode>)
    ensures
        res == spec_i64_rem_s(lhs, rhs),
{
    let divisor: i64 = rhs.to_i64();
    if divisor == 0 {
        return Err(TrapCode::IntegerDivisionByZero);
    }
    proof {
        let x = lhs.to_i64() as int;
        let d = divisor as int;
        lemma_trunc_rem_range(x, d);
        assert(x * -1 == -x && d * -1 == -d);
        if x == 0 {
            vstd::arithmetic::div_mod::lemma_small_mod(0, (if d > 0 { d } else { -d }) as nat);
        }
        if x < 0 && d < 0 {
            assert(((x * -1) % (d * -1)) * -1 == trunc_rem(x, d));
        } else if x < 0 {
            assert(((x * -1) % d) * -1 == trunc_rem(x, d));
        } else if d < 0 {
            assert(x % (d * -1) == trunc_rem(x, d));
        }
    }
    match lhs.to_i64().checked_rem(divisor) {
        Some(remainder) => Ok(UntypedValue::from_i64(remainder)),
        None => Ok(UntypedValue::from_i64(0)),
    }
}

/// `i64.rem_u`: the unsigned remainder. Traps on a zero divisor.
pub open spec fn spec_i64_rem_u(lhs: UntypedValue, rhs: UntypedValue) -> Result<
    UntypedValue,
    TrapCode,
> {
    if rhs.to_u64() == 0 {
        Err(TrapCode::IntegerDivisionByZero)
    } else {
        Ok(UntypedValue::from_u64(lhs.to_u64() % rhs.to_u64()))
    }
}

/// Evaluates `i64.rem_u`.
#[verifier::when_used_as_spec(spec_i64_rem_u)]
pub fn i64_rem_u(lhs: UntypedValue, rhs: UntypedValue) -> (res: Result<UntypedValue, TrapCode>)
    ensures
        res == spec_i64_rem_u(lhs, rhs),
{
    let divisor: u64 = rhs.to_u64();
    if divisor == 0 {
        return Err(TrapCode::IntegerDivisionByZero);
    }
    Ok(UntypedValue::from_u64(lhs.to_u64() % divisor))
}

/// `i64.and`: bitwise conjunction.
pub open spec fn spec_i64_and(lhs: UntypedValue, rhs: UntypedValue) -> UntypedValue {
    UntypedValue::from_u64(lhs.to_u64() & rhs.to_u64())
}

/// Evaluates `i64.and`.
#[verifier::when_used_as_spec(spec_i64_and)]
pub fn i64_and(lhs: UntypedValue, rhs: UntypedValue) -> (res: UntypedValue)
    ensures
        res == spec_i64_and(lhs, rhs),
{
    UntypedValue::from_u64(lhs.to_u64() & rhs.to_u64())
}

/// `i64.or`: bitwise disjunction.
pub open spec fn spec_i64_or(lhs: UntypedValue, rhs: UntypedValue) -> UntypedValue {
    UntypedValue::from_u64(lhs.to_u64() | rhs.to_u64())
}

/// Evaluates `i64.or`.
#[verifier::when_used_as_spec(spec_i64_or)]
pub fn i64_or(lhs: UntypedValue, rhs: UntypedValue) -> (res: UntypedValue)
    ensures
        res == spec_i64_or(lhs, rhs),
{
    UntypedValue::from_u64(lhs.to_u64() | rhs.to_u64())
}

/// `i64.xor`: bitwise exclusive disjunction.
pub open spec fn spec_i64_xor(lhs: UntypedValue, rhs: UntypedValue) -> UntypedValue {
    UntypedValue::from_u64(lhs.to_u64() ^ rhs.to_u64())
}

/// Evaluates `i64.xor`.
#[verifier::when_used_as_spec(spec_i64_xor)]
pub fn i64_xor(lhs: UntypedValue, rhs: UntypedValue) -> (res: UntypedValue)
    ensures
        res == spec_i64_xor(lhs, rhs),
{
    UntypedValue::from_u64(lhs.to_u64() ^ rhs.to_u64())
}

/// The number of bits by which an `i64` shift or rotation moves: the shift
/// operand modulo 64.
pub open spec fn spec_i64_shift_amount(rhs: UntypedValue) -> u64 {
    rhs.to_u64() % 64
}

/// Computes [`spec_i64_shift_amount`].
#[verifier::when_used_as_spec(spec_i64_shift_amount)]
pub fn i64_shift_amount(rhs: UntypedValue) -> (res: u64)
    ensures
        res == spec_i64_shift_amount(rhs),
        res < 64,
{
    rhs.to_u64() % 64
}

/// `i64.shl`: shifts left, dropping the bits that leave the 64 bits.
pub open spec fn spec_i64_shl(lhs: UntypedValue, rhs: UntypedValue) -> UntypedValue {
    UntypedValue::from_u64(lhs.to_u64() << i64_shift_amount(rhs))
}

/// Evaluates `i64.shl`.
#[verifier::when_used_as_spec(spec_i64_shl)]
pub fn i64_shl(lhs: UntypedValue, rhs: UntypedValue) -> (res: UntypedValue)
    ensures
        res == spec_i64_shl(lhs, rhs),
{
    UntypedValue::from_u64(lhs.to_u64() << i64_shift_amount(rhs))
}

/// `i64.shr_s`: shifts right and fills with copies of the sign bit.
pub open spec fn spec_i64_shr_s(lhs: UntypedValue, rhs: UntypedValue) -> UntypedValue {
    UntypedValue::from_i64(lhs.to_i64() >> i64_shift_amount(rhs))
}

/// Evaluates `i64.shr_s`.
#[verifier::when_used_as_spec(spec_i64_shr_s)]
pub fn i64_shr_s(lhs: UntypedValue, rhs: UntypedValue) -> (res: UntypedValue)
    ensures
        res == spec_i64_shr_s(lhs, rhs),
{
    UntypedValue::from_i64(lhs.to_i64() >> i64_shift_amount(rhs))
}

/// `i64.shr_u`: shifts right and fills with zeros.
pub open spec fn spec_i64_shr_u(lhs: UntypedValue, rhs: UntypedValue) -> UntypedValue {
    UntypedValue::from_u64(lhs.to_u64() >> i64_shift_amount(rhs))
}

/// Evaluates `i64.shr_u`.
#[verifier::when_used_as_spec(spec_i64_shr_u)]
pub fn i64_shr_u(lhs: UntypedValue, rhs: UntypedValue) -> (res: UntypedValue)
    ensures
        res == spec_i64_shr_u(lhs, rhs),
{
    UntypedValue::from_u64(lhs.to_u64() >> i64_shift_amount(rhs))
}

/// `i64.rotl`: rotates left; the bits that leave on the left enter on the
/// right.
pub open spec fn spec_i64_rotl(lhs: UntypedValue, rhs: UntypedValue) -> UntypedValue {
    let amount = i64_shift_amount(rhs);
    if amount == 0 {
        UntypedValue::from_u64(lhs.to_u64())
    } else {
        UntypedValue::from_u64(
            (lhs.to_u64() << amount) | (lhs.to_u64() >> ((64 - amount) as u64)),
        )
    }
}

/// Evaluates `i64.rotl`.
#[verifier::when_used_as_spec(spec_i64_rotl)]
pub fn i64_rotl(lhs: UntypedValue, rhs: UntypedValue) -> (res: UntypedValue)
    ensures
        res == spec_i64_rotl(lhs, rhs),
{
    let amount: u64 = i64_shift_amount(rhs);
    let value: u64 = lhs.to_u64();
    if amount == 0 {
        UntypedValue::from_u64(value)
    } else {
        UntypedValue::from_u64((value << amount) | (value >> (64 - amount)))
    }
}

/// `i64.rotr`: rotates right; the bits that leave on the right enter on
/// the left.
pub open spec fn spec_i64_rotr(lhs: UntypedValue, rhs: UntypedValue) -> UntypedValue {
    let amount = i64_shift_amount(rhs);
    if amount == 0 {
        UntypedValue::from_u64(lhs.to_u64())
    } else {
        UntypedValue::from_u64(
            (lhs.to_u64() >> amount) | (lhs.to_u64() << ((64 - amount) as u64)),
        )
    }
}

/// Evaluates `i64.rotr`.
#[verifier::when_used_as_spec(spec_i64_rotr)]
pub fn i64_rotr(lhs: UntypedValue, rhs: UntypedValue) -> (res: UntypedValue)
    ensures
        res == spec_i64_rotr(lhs, rhs),
{
    let amount: u64 = i64_shift_amount(rhs);
    let value: u64 = lhs.to_u64();
    if amount == 0 {
        UntypedValue::from_u64(value)
    } else {
        UntypedValue::from_u64((value >> amount) | (value << (64 - amount)))
    }
}

/// `i64.clz`: the number of leading zero bits.
pub open spec fn spec_i64_clz(input: UntypedValue) -> UntypedValue {
    UntypedValue::from_u32(vstd::std_specs::bits::u64_leading_zeros(input.to_u64()) as u32)
}

/// Evaluates `i64.clz`.
#[verifier::when_used_as_spec(spec_i64_clz)]
pub fn i64_clz(input: UntypedValue) -> (res: UntypedValue)
    ensures
        res == spec_i64_clz(input),
{
    UntypedValue::from_u32(input.to_u64().leading_zeros())
}

/// `i64.ctz`: the number of trailing zero bits.
pub open spec fn spec_i64_ctz(input: UntypedValue) -> UntypedValue {
    UntypedValue::from_u32(vstd::std_specs::bits::u64_trailing_zeros(input.to_u64()) as u32)
}

/// Evaluates `i64.ctz`.
#[verifier::when_used_as_spec(spec_i64_ctz)]
pub fn i64_ctz(input: UntypedValue) -> (res: UntypedValue)
    ensures
        res == spec_i64_ctz(input),
{
    UntypedValue::from_u32(input.to_u64().trailing_zeros())
}

/// `i64.popcnt`: the number of one bits.
pub open spec fn spec_i64_popcnt(input: UntypedValue) -> UntypedValue {
    UntypedValue::from_u64(count_ones(input.to_u64() as nat) as u64)
}

/// Evaluates `i64.popcnt`.
#[verifier::when_used_as_spec(spec_i64_popcnt)]
pub fn i64_popcnt(input: UntypedValue) -> (res: UntypedValue)
    ensures
        res == spec_i64_popcnt(input),
{
    UntypedValue::from_u64(popcnt(input.to_u64() as u64))
}

/// `i64.eq`: `1` if the operands are equal, else `0`.
pub open spec fn spec_i64_eq(lhs: UntypedValue, rhs: UntypedValue) -> UntypedValue {
    UntypedValue::from_bool(lhs.to_u64() == rhs.to_u64())
}

/// Evaluates `i64.eq`.
#[verifier::when_used_as_spec(spec_i64_eq)]
pub fn i64_eq(lhs: UntypedValue, rhs: UntypedValue) -> (res: UntypedValue)
    ensures
        res == spec_i64_eq(lhs, rhs),
{
    UntypedValue::from_bool(lhs.to_u64() == rhs.to_u64())
}

/// `i64.ne`: `1` if the operands differ, else `0`.
pub open spec fn spec_i64_ne(lhs: UntypedValue, rhs: UntypedValue) -> UntypedValue {
    UntypedValue::from_bool(lhs.to_u64() != rhs.to_u64())
}

/// Evaluates `i64.ne`.
#[verifier::when_used_as_spec(spec_i64_ne)]
pub fn i64_ne(lhs: UntypedValue, rhs: UntypedValue) -> (res: UntypedValue)
    ensures
        res == spec_i64_ne(lhs, rhs),
{
    UntypedValue::from_bool(lhs.to_u64() != rhs.to_u64())
}

/// `i64.lt_s`: `1` if `lhs < rhs` holds of the operands read as signed
/// integers, else `0`.
pub open spec fn spec_i64_lt_s(lhs: UntypedValue, rhs: UntypedValue) -> UntypedValue {
    UntypedValue::from_bool(lhs.to_i64() < rhs.to_i64())
}

/// Evaluates `i64.lt_s`.
#[verifier::when_used_as_spec(spec_i64_lt_s)]
pub fn i64_lt_s(lhs: UntypedValue, rhs: UntypedValue) -> (res: UntypedValue)
    ensures
        res == spec_i64_lt_s(lhs, rhs),
{
    UntypedValue::from_bool(lhs.to_i64() < rhs.to_i64())
}

/// `i64.lt_u`: `1` if `lhs < rhs` holds of the operands read as unsigned
/// integers, else `0`.
pub open spec fn spec_i64_lt_u(lhs: UntypedValue, rhs: UntypedValue) -> UntypedValue {
    UntypedValue::from_bool(lhs.to_u64() < rhs.to_u64())
}

/// Evaluates `i64.lt_u`.
#[verifier::when_used_as_spec(spec_i64_lt_u)]
pub fn i64_lt_u(lhs: UntypedValue, rhs: UntypedValue) -> (res: UntypedValue)
    ensures
        res == spec_i64_lt_u(lhs, rhs),
{
    UntypedValue::from_bool(lhs.to_u64() < rhs.to_u64())
}

/// `i64.gt_s`: `1` if `lhs > rhs` holds of the operands read as signed
/// integers, else `0`.
pub open spec fn spec_i64_gt_s(lhs: UntypedValue, rhs: UntypedValue) -> UntypedValue {
    UntypedValue::from_bool(lhs.to_i64() > rhs.to_i64())
}

/// Evaluates `i64.gt_s`.
#[verifier::when_used_as_spec(spec_i64_gt_s)]
pub fn i64_gt_s(lhs: UntypedValue, rhs: UntypedValue) -> (res: UntypedValue)
    ensures
        res == spec_i64_gt_s(lhs, rhs),
{
    UntypedValue::from_bool(lhs.to_i64() > rhs.to_i64())
}

/// `i64.gt_u`: `1` if `lhs > rhs` holds of the operands read as unsigned
/// integers, else `0`.
pub open spec fn spec_i64_gt_u(lhs: UntypedValue, rhs: UntypedValue) -> UntypedValue {
    UntypedValue::from_bool(lhs.to_u64() > rhs.to_u64())
}

/// Evaluates `i64.gt_u`.
#[verifier::when_used_as_spec(spec_i64_gt_u)]
pub fn i64_gt_u(lhs: UntypedValue, rhs: UntypedValue) -> (res: UntypedValue)
    ensures
        res == spec_i64_gt_u(lhs, rhs),
{
    UntypedValue::from_bool(lhs.to_u64() > rhs.to_u64())
}

/// `i64.le_s`: `1` if `lhs <= rhs` holds of the operands read as signed
/// integers, else `0`.
pub open spec fn spec_i64_le_s(lhs: UntypedValue, rhs: UntypedValue) -> UntypedValue {
    UntypedValue::from_bool(lhs.to_i64() <= rhs.to_i64())
}

/// Evaluates `i64.le_s`.
#[verifier::when_used_as_spec(spec_i64_le_s)]
pub fn i64_le_s(lhs: UntypedValue, rhs: UntypedValue) -> (res: UntypedValue)
    ensures
        res == spec_i64_le_s(lhs, rhs),
{
    UntypedValue::from_bool(lhs.to_i64() <= rhs.to_i64())
}

/// `i64.le_u`: `1` if `lhs <= rhs` holds of the operands read as unsigned
/// integers, else `0`.
pub open spec fn spec_i64_le_u(lhs: UntypedValue, rhs: UntypedValue) -> UntypedValue {
    UntypedValue::from_bool(lhs.to_u64() <= rhs.to_u64())
}

/// Evaluates `i64.le_u`.
#[verifier::when_used_as_spec(spec_i64_le_u)]
pub fn i64_le_u(lhs: UntypedValue, rhs: UntypedValue) -> (res: UntypedValue)
    ensures
        res == spec_i64_le_u(lhs, rhs),
{
    UntypedValue::from_bool(lhs.to_u64() <= rhs.to_u64())
}

/// `i64.ge_s`: `1` if `lhs >= rhs` holds of the operands read as signed
/// integers, else `0`.
pub open spec fn spec_i64_ge_s(lhs: UntypedValue, rhs: UntypedValue) -> UntypedValue {
    UntypedValue::from_bool(lhs.to_i64() >= rhs.to_i64())
}

/// Evaluates `i64.ge_s`.
#[verifier::when_used_as_spec(spec_i64_ge_s)]
pub fn i64_ge_s(lhs: UntypedValue, rhs: UntypedValue) -> (res: UntypedValue)
    ensures
        res == spec_i64_ge_s(lhs, rhs),
{
    UntypedValue::from_bool(lhs.to_i64() >= rhs.to_i64())
}

/// `i64.ge_u`: `1` if `lhs >= rhs` holds of the operands read as unsigned
/// integers, else `0`.
pub open spec fn spec_i64_ge_u(lhs: UntypedValue, rhs: UntypedValue) -> UntypedValue {
    UntypedValue::from_bool(lhs.to_u64() >= rhs.to_u64())
}

/// Evaluates `i64.ge_u`.
#[verifier::when_used_as_spec(spec_i64_ge_u)]
pub fn i64_ge_u(lhs: UntypedValue, rhs: UntypedValue) -> (res: UntypedValue)
    ensures
        res == spec_i64_ge_u(lhs, rhs),
{
    UntypedValue::from_bool(lhs.to_u64() >= rhs.to_u64())
}

} // verus!
