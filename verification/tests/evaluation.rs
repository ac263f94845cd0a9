//! Evaluation of operators on constants, held against `wasmi_core`.

use wasmi_translator::bytecode::{BinaryOp, UnaryOp};
use wasmi_translator::value::{TrapCode, UntypedValue};

type Core = wasmi_core::UntypedValue;

fn to_core(value: UntypedValue) -> Core {
    Core::from(value.to_bits())
}

fn trap(code: wasmi_core::TrapCode) -> TrapCode {
    match code {
        wasmi_core::TrapCode::IntegerDivisionByZero => TrapCode::IntegerDivisionByZero,
        wasmi_core::TrapCode::IntegerOverflow => TrapCode::IntegerOverflow,
        other => panic!("unexpected trap code {:?}", other),
    }
}

/// Bit patterns that exercise the corners of the integer and float types,
/// some of them with bits above the low 32.
fn samples() -> Vec<UntypedValue> {
    let bits: [u64; 44] = [
        0,
        1,
        2,
        3,
        5,
        7,
        31,
        32,
        33,
        63,
        64,
        65,
        100,
        0x7fff,
        0x8000,
        0xffff,
        0x1_0000,
        0x7fff_ffff,
        0x8000_0000,
        0x8000_0001,
        0xffff_fffe,
        0xffff_ffff,
        0x1_0000_0000,
        0xdead_beef_0000_0005,
        0x7fff_ffff_ffff_ffff,
        0x8000_0000_0000_0000,
        0x8000_0000_0000_0001,
        0xffff_ffff_ffff_fffe,
        0xffff_ffff_ffff_ffff,
        // floats
        0x3f80_0000,
        0xbf80_0000,
        0x3fc0_0000,
        0x4020_0000,
        0x7f80_0000,
        0xff80_0000,
        0x7fc0_0000,
        0xffc0_0001,
        0x7f80_0001,
        0x0000_0001,
        0x3ff0_0000_0000_0000,
        0xbff8_0000_0000_0000,
        0x7ff0_0000_0000_0000,
        0xfff0_0000_0000_0000,
        0x7ff8_0000_0000_0001,
    ];
    bits.iter().map(|bits| UntypedValue::from_bits(*bits)).collect()
}

fn check_binary(op: BinaryOp, reference: fn(Core, Core) -> Core) {
    for lhs in samples() {
        for rhs in samples() {
            let expected = UntypedValue::from_bits(reference(to_core(lhs), to_core(rhs)).to_bits());
            assert_eq!(op.eval(lhs, rhs), Ok(expected), "{:?} on {:?} and {:?}", op, lhs, rhs);
        }
    }
}

fn check_fallible(op: BinaryOp, reference: fn(Core, Core) -> Result<Core, wasmi_core::TrapCode>) {
    for lhs in samples() {
        for rhs in samples() {
            let expected = reference(to_core(lhs), to_core(rhs))
                .map(|value| UntypedValue::from_bits(value.to_bits()))
                .map_err(trap);
            assert_eq!(op.eval(lhs, rhs), expected, "{:?} on {:?} and {:?}", op, lhs, rhs);
        }
    }
}

fn check_unary(op: UnaryOp, reference: fn(Core) -> Core) {
    for input in samples() {
        let expected = UntypedValue::from_bits(reference(to_core(input)).to_bits());
        assert_eq!(op.eval(input), expected, "{:?} on {:?}", op, input);
    }
}

#[test]
fn i32_arithmetic_agrees_with_wasmi_core() {
    check_binary(BinaryOp::I32Add, Core::i32_add);
    check_binary(BinaryOp::I32Sub, Core::i32_sub);
    check_binary(BinaryOp::I32Mul, Core::i32_mul);
    check_fallible(BinaryOp::I32DivS, Core::i32_div_s);
    check_fallible(BinaryOp::I32DivU, Core::i32_div_u);
    check_fallible(BinaryOp::I32RemS, Core::i32_rem_s);
    check_fallible(BinaryOp::I32RemU, Core::i32_rem_u);
}

#[test]
fn i64_arithmetic_agrees_with_wasmi_core() {
    check_binary(BinaryOp::I64Add, Core::i64_add);
    check_binary(BinaryOp::I64Sub, Core::i64_sub);
    check_binary(BinaryOp::I64Mul, Core::i64_mul);
    check_fallible(BinaryOp::I64DivS, Core::i64_div_s);
    check_fallible(BinaryOp::I64DivU, Core::i64_div_u);
    check_fallible(BinaryOp::I64RemS, Core::i64_rem_s);
    check_fallible(BinaryOp::I64RemU, Core::i64_rem_u);
}

#[test]
fn i32_bit_operations_agree_with_wasmi_core() {
    check_binary(BinaryOp::I32And, Core::i32_and);
    check_binary(BinaryOp::I32Or, Core::i32_or);
    check_binary(BinaryOp::I32Xor, Core::i32_xor);
    check_binary(BinaryOp::I32Shl, Core::i32_shl);
    check_binary(BinaryOp::I32ShrS, Core::i32_shr_s);
    check_binary(BinaryOp::I32ShrU, Core::i32_shr_u);
    check_binary(BinaryOp::I32Rotl, Core::i32_rotl);
    check_binary(BinaryOp::I32Rotr, Core::i32_rotr);
    check_unary(UnaryOp::I32Clz, Core::i32_clz);
    check_unary(UnaryOp::I32Ctz, Core::i32_ctz);
    check_unary(UnaryOp::I32Popcnt, Core::i32_popcnt);
}

#[test]
fn i64_bit_operations_agree_with_wasmi_core() {
    check_binary(BinaryOp::I64And, Core::i64_and);
    check_binary(BinaryOp::I64Or, Core::i64_or);
    check_binary(BinaryOp::I64Xor, Core::i64_xor);
    check_binary(BinaryOp::I64Shl, Core::i64_shl);
    check_binary(BinaryOp::I64ShrS, Core::i64_shr_s);
    check_binary(BinaryOp::I64ShrU, Core::i64_shr_u);
    check_binary(BinaryOp::I64Rotl, Core::i64_rotl);
    check_binary(BinaryOp::I64Rotr, Core::i64_rotr);
    check_unary(UnaryOp::I64Clz, Core::i64_clz);
    check_unary(UnaryOp::I64Ctz, Core::i64_ctz);
    check_unary(UnaryOp::I64Popcnt, Core::i64_popcnt);
}

#[test]
fn i32_comparisons_agree_with_wasmi_core() {
    check_binary(BinaryOp::I32Eq, Core::i32_eq);
    check_binary(BinaryOp::I32Ne, Core::i32_ne);
    check_binary(BinaryOp::I32LtS, Core::i32_lt_s);
    check_binary(BinaryOp::I32LtU, Core::i32_lt_u);
    check_binary(BinaryOp::I32GtS, Core::i32_gt_s);
    check_binary(BinaryOp::I32GtU, Core::i32_gt_u);
    check_binary(BinaryOp::I32LeS, Core::i32_le_s);
    check_binary(BinaryOp::I32LeU, Core::i32_le_u);
    check_binary(BinaryOp::I32GeS, Core::i32_ge_s);
    check_binary(BinaryOp::I32GeU, Core::i32_ge_u);
}

#[test]
fn i64_comparisons_agree_with_wasmi_core() {
    check_binary(BinaryOp::I64Eq, Core::i64_eq);
    check_binary(BinaryOp::I64Ne, Core::i64_ne);
    check_binary(BinaryOp::I64LtS, Core::i64_lt_s);
    check_binary(BinaryOp::I64LtU, Core::i64_lt_u);
    check_binary(BinaryOp::I64GtS, Core::i64_gt_s);
    check_binary(BinaryOp::I64GtU, Core::i64_gt_u);
    check_binary(BinaryOp::I64LeS, Core::i64_le_s);
    check_binary(BinaryOp::I64LeU, Core::i64_le_u);
    check_binary(BinaryOp::I64GeS, Core::i64_ge_s);
    check_binary(BinaryOp::I64GeU, Core::i64_ge_u);
}

#[test]
fn float_bit_operations_agree_with_wasmi_core() {
    check_binary(BinaryOp::F32Eq, Core::f32_eq);
    check_binary(BinaryOp::F32Ne, Core::f32_ne);
    check_binary(BinaryOp::F32Copysign, Core::f32_copysign);
    check_binary(BinaryOp::F64Eq, Core::f64_eq);
    check_binary(BinaryOp::F64Ne, Core::f64_ne);
    check_binary(BinaryOp::F64Copysign, Core::f64_copysign);
    check_unary(UnaryOp::F32Abs, Core::f32_abs);
    check_unary(UnaryOp::F32Neg, Core::f32_neg);
    check_unary(UnaryOp::F64Abs, Core::f64_abs);
    check_unary(UnaryOp::F64Neg, Core::f64_neg);
}

#[test]
fn float_arithmetic_agrees_with_wasmi_core() {
    check_binary(BinaryOp::F32Add, Core::f32_add);
    check_binary(BinaryOp::F32Sub, Core::f32_sub);
    check_binary(BinaryOp::F32Mul, Core::f32_mul);
    check_binary(BinaryOp::F32Div, Core::f32_div);
    check_binary(BinaryOp::F32Min, Core::f32_min);
    check_binary(BinaryOp::F32Max, Core::f32_max);
    check_binary(BinaryOp::F64Add, Core::f64_add);
    check_binary(BinaryOp::F64Sub, Core::f64_sub);
    check_binary(BinaryOp::F64Mul, Core::f64_mul);
    check_binary(BinaryOp::F64Div, Core::f64_div);
    check_binary(BinaryOp::F64Min, Core::f64_min);
    check_binary(BinaryOp::F64Max, Core::f64_max);
    check_unary(UnaryOp::F32Ceil, Core::f32_ceil);
    check_unary(UnaryOp::F32Floor, Core::f32_floor);
    check_unary(UnaryOp::F32Trunc, Core::f32_trunc);
    check_unary(UnaryOp::F32Nearest, Core::f32_nearest);
    check_unary(UnaryOp::F32Sqrt, Core::f32_sqrt);
    check_unary(UnaryOp::F64Ceil, Core::f64_ceil);
    check_unary(UnaryOp::F64Floor, Core::f64_floor);
    check_unary(UnaryOp::F64Trunc, Core::f64_trunc);
    check_unary(UnaryOp::F64Nearest, Core::f64_nearest);
    check_unary(UnaryOp::F64Sqrt, Core::f64_sqrt);
}

fn f32v(value: f32) -> UntypedValue {
    UntypedValue::from_f32_bits(value.to_bits())
}

fn f64v(value: f64) -> UntypedValue {
    UntypedValue::from_f64_bits(value.to_bits())
}

#[test]
fn f32_arithmetic_on_given_values() {
    assert_eq!(BinaryOp::F32Add.eval(f32v(1.5), f32v(2.25)), Ok(f32v(3.75)));
    assert_eq!(BinaryOp::F32Sub.eval(f32v(1.5), f32v(2.25)), Ok(f32v(-0.75)));
    assert_eq!(BinaryOp::F32Mul.eval(f32v(1.5), f32v(2.5)), Ok(f32v(3.75)));
    assert_eq!(BinaryOp::F32Div.eval(f32v(7.5), f32v(2.5)), Ok(f32v(3.0)));
    assert_eq!(BinaryOp::F32Min.eval(f32v(3.0), f32v(1.0)), Ok(f32v(1.0)));
    assert_eq!(BinaryOp::F32Min.eval(f32v(1.0), f32v(3.0)), Ok(f32v(1.0)));
    assert_eq!(BinaryOp::F32Max.eval(f32v(3.0), f32v(1.0)), Ok(f32v(3.0)));
    assert_eq!(BinaryOp::F32Max.eval(f32v(1.0), f32v(3.0)), Ok(f32v(3.0)));
    assert_eq!(BinaryOp::F32Min.eval(f32v(-0.0), f32v(0.0)), Ok(f32v(-0.0)));
    assert_eq!(BinaryOp::F32Max.eval(f32v(-0.0), f32v(0.0)), Ok(f32v(0.0)));
}

#[test]
fn f64_arithmetic_on_given_values() {
    assert_eq!(BinaryOp::F64Add.eval(f64v(1.5), f64v(2.25)), Ok(f64v(3.75)));
    assert_eq!(BinaryOp::F64Sub.eval(f64v(1.5), f64v(2.25)), Ok(f64v(-0.75)));
    assert_eq!(BinaryOp::F64Mul.eval(f64v(1.5), f64v(2.5)), Ok(f64v(3.75)));
    assert_eq!(BinaryOp::F64Div.eval(f64v(7.5), f64v(2.5)), Ok(f64v(3.0)));
    assert_eq!(BinaryOp::F64Min.eval(f64v(3.0), f64v(1.0)), Ok(f64v(1.0)));
    assert_eq!(BinaryOp::F64Min.eval(f64v(1.0), f64v(3.0)), Ok(f64v(1.0)));
    assert_eq!(BinaryOp::F64Max.eval(f64v(3.0), f64v(1.0)), Ok(f64v(3.0)));
    assert_eq!(BinaryOp::F64Max.eval(f64v(1.0), f64v(3.0)), Ok(f64v(3.0)));
}

#[test]
fn f32_rounding_on_given_values() {
    assert_eq!(UnaryOp::F32Ceil.eval(f32v(1.25)), f32v(2.0));
    assert_eq!(UnaryOp::F32Floor.eval(f32v(1.75)), f32v(1.0));
    assert_eq!(UnaryOp::F32Trunc.eval(f32v(-1.75)), f32v(-1.0));
    assert_eq!(UnaryOp::F32Nearest.eval(f32v(2.5)), f32v(2.0));
    assert_eq!(UnaryOp::F32Nearest.eval(f32v(3.5)), f32v(4.0));
    assert_eq!(UnaryOp::F32Sqrt.eval(f32v(6.25)), f32v(2.5));
    assert_eq!(UnaryOp::F32Abs.eval(f32v(-6.25)), f32v(6.25));
    assert_eq!(UnaryOp::F32Neg.eval(f32v(6.25)), f32v(-6.25));
}

#[test]
fn f64_rounding_on_given_values() {
    assert_eq!(UnaryOp::F64Ceil.eval(f64v(1.25)), f64v(2.0));
    assert_eq!(UnaryOp::F64Floor.eval(f64v(1.75)), f64v(1.0));
    assert_eq!(UnaryOp::F64Trunc.eval(f64v(-1.75)), f64v(-1.0));
    assert_eq!(UnaryOp::F64Nearest.eval(f64v(2.5)), f64v(2.0));
    assert_eq!(UnaryOp::F64Nearest.eval(f64v(3.5)), f64v(4.0));
    assert_eq!(UnaryOp::F64Sqrt.eval(f64v(6.25)), f64v(2.5));
    assert_eq!(UnaryOp::F64Abs.eval(f64v(-6.25)), f64v(6.25));
    assert_eq!(UnaryOp::F64Neg.eval(f64v(6.25)), f64v(-6.25));
}

#[test]
fn integer_formulas_on_given_values() {
    let i32v = UntypedValue::from_i32;
    let i64v = UntypedValue::from_i64;
    // wrapping
    assert_eq!(BinaryOp::I32Add.eval(i32v(i32::MAX), i32v(1)), Ok(i32v(i32::MIN)));
    assert_eq!(BinaryOp::I32Sub.eval(i32v(i32::MIN), i32v(1)), Ok(i32v(i32::MAX)));
    assert_eq!(BinaryOp::I32Mul.eval(i32v(0x4000_0000), i32v(4)), Ok(i32v(0)));
    assert_eq!(BinaryOp::I64Add.eval(i64v(i64::MAX), i64v(1)), Ok(i64v(i64::MIN)));
    assert_eq!(BinaryOp::I64Mul.eval(i64v(-3), i64v(5)), Ok(i64v(-15)));
    // division rounds towards zero, the remainder has the sign of the dividend
    assert_eq!(BinaryOp::I32DivS.eval(i32v(-7), i32v(2)), Ok(i32v(-3)));
    assert_eq!(BinaryOp::I32DivS.eval(i32v(7), i32v(-2)), Ok(i32v(-3)));
    assert_eq!(BinaryOp::I32RemS.eval(i32v(-7), i32v(2)), Ok(i32v(-1)));
    assert_eq!(BinaryOp::I32RemS.eval(i32v(7), i32v(-2)), Ok(i32v(1)));
    assert_eq!(BinaryOp::I32DivU.eval(i32v(-7), i32v(2)), Ok(i32v(0x7fff_fffc)));
    assert_eq!(BinaryOp::I64DivS.eval(i64v(-7), i64v(2)), Ok(i64v(-3)));
    assert_eq!(BinaryOp::I64RemS.eval(i64v(-7), i64v(-2)), Ok(i64v(-1)));
    // traps
    assert_eq!(BinaryOp::I32DivS.eval(i32v(1), i32v(0)), Err(TrapCode::IntegerDivisionByZero));
    assert_eq!(BinaryOp::I32DivS.eval(i32v(i32::MIN), i32v(-1)), Err(TrapCode::IntegerOverflow));
    assert_eq!(BinaryOp::I64DivS.eval(i64v(i64::MIN), i64v(-1)), Err(TrapCode::IntegerOverflow));
    assert_eq!(BinaryOp::I32RemS.eval(i32v(i32::MIN), i32v(-1)), Ok(i32v(0)));
    assert_eq!(BinaryOp::I64RemS.eval(i64v(i64::MIN), i64v(-1)), Ok(i64v(0)));
    assert_eq!(BinaryOp::I64RemU.eval(i64v(-4), i64v(0)), Err(TrapCode::IntegerDivisionByZero));
    // shifts and rotations move by the operand modulo the width
    assert_eq!(BinaryOp::I32Shl.eval(i32v(1), i32v(33)), Ok(i32v(2)));
    assert_eq!(BinaryOp::I32ShrS.eval(i32v(-8), i32v(1)), Ok(i32v(-4)));
    assert_eq!(BinaryOp::I32ShrU.eval(i32v(-8), i32v(1)), Ok(i32v(0x7fff_fffc)));
    assert_eq!(BinaryOp::I32Rotl.eval(i32v(i32::MIN), i32v(1)), Ok(i32v(1)));
    assert_eq!(BinaryOp::I32Rotr.eval(i32v(1), i32v(1)), Ok(i32v(i32::MIN)));
    assert_eq!(BinaryOp::I64Rotl.eval(i64v(10), i64v(66)), Ok(i64v(40)));
    // counts
    assert_eq!(UnaryOp::I32Clz.eval(i32v(1)), i32v(31));
    assert_eq!(UnaryOp::I32Ctz.eval(i32v(8)), i32v(3));
    assert_eq!(UnaryOp::I32Popcnt.eval(i32v(-1)), i32v(32));
    assert_eq!(UnaryOp::I64Clz.eval(i64v(1)), i64v(63));
    assert_eq!(UnaryOp::I64Ctz.eval(i64v(0)), i64v(64));
    assert_eq!(UnaryOp::I64Popcnt.eval(i64v(0xff00)), i64v(8));
}

#[test]
fn untyped_values_hold_their_bits() {
    assert_eq!(UntypedValue::from_i32(-1).to_bits(), 0xffff_ffff);
    assert_eq!(UntypedValue::from_i64(-1).to_bits(), u64::MAX);
    assert_eq!(UntypedValue::from_u32(7).to_bits(), 7);
    assert_eq!(UntypedValue::from_bool(true).to_bits(), 1);
    assert_eq!(UntypedValue::from_bool(false).to_bits(), 0);
    assert_eq!(UntypedValue::from_f32_bits(f32::NAN.to_bits()).to_f32_bits(), 0x7fc0_0000);
    assert_eq!(UntypedValue::from_bits(0xdead_beef_0000_0005).to_i32(), 5);
    assert_eq!(UntypedValue::from_bits(0xdead_beef_8000_0000).to_i32(), i32::MIN);
    assert_eq!(UntypedValue::from_bits(u64::MAX).to_i64(), -1);
    for value in samples() {
        assert_eq!(Core::from(value.to_i32()).to_bits(), UntypedValue::from_i32(value.to_i32()).to_bits());
        assert_eq!(Core::from(value.to_i64()).to_bits(), UntypedValue::from_i64(value.to_i64()).to_bits());
        assert_eq!(i32::from(to_core(value)), value.to_i32());
        assert_eq!(u32::from(to_core(value)), value.to_u32());
        assert_eq!(i64::from(to_core(value)), value.to_i64());
    }
}
