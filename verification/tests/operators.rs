//! Translation of single operators on registers and constants.

use wasmi_translator::bytecode::{BinaryOp, Const16, Const32, Instruction, Register};
use wasmi_translator::operator::Operator;
use wasmi_translator::translator::FuncTranslator;
use wasmi_translator::value::{UntypedValue, ValueType};

/// Translates the operators of a function body and returns its instructions
/// and pooled constants.
fn translate(
    results: &[ValueType],
    len_locals: u16,
    body: &[Operator],
) -> (Vec<Instruction>, Vec<UntypedValue>) {
    let mut translator = FuncTranslator::new(results.to_vec(), len_locals).unwrap();
    for op in body {
        assert!(translator.accepts(*op), "the stack lacks operands of {:?}", op);
        translator.translate(*op).unwrap();
    }
    assert!(translator.accepts(Operator::End));
    translator.translate(Operator::End).unwrap();
    let (instrs, consts) = translator.finish();
    let mut pooled = Vec::new();
    let mut index = 0;
    while let Some(value) = consts.get(wasmi_translator::bytecode::ConstRef::from_u32(index)) {
        pooled.push(value);
        index += 1;
    }
    (instrs, pooled)
}

fn local(index: u32) -> Operator {
    Operator::LocalGet { local_index: index }
}

fn reg(index: u16) -> Register {
    Register::from_u16(index)
}

/// The operator that pushes the constant `value` of the type `ty`.
fn constant(ty: ValueType, value: UntypedValue) -> Operator {
    match ty {
        ValueType::I32 => Operator::I32Const { value: value.to_i32() },
        ValueType::I64 => Operator::I64Const { value: value.to_i64() },
        ValueType::F32 => Operator::F32Const { bits: value.to_f32_bits() },
        ValueType::F64 => Operator::F64Const { bits: value.to_f64_bits() },
        _ => unreachable!(),
    }
}

fn i32v(value: i32) -> UntypedValue {
    UntypedValue::from_i32(value)
}

fn i64v(value: i64) -> UntypedValue {
    UntypedValue::from_i64(value)
}

fn u64v(value: u64) -> UntypedValue {
    UntypedValue::from_u64(value)
}

fn f32v(value: f32) -> UntypedValue {
    UntypedValue::from_f32_bits(value.to_bits())
}

fn f64v(value: f64) -> UntypedValue {
    UntypedValue::from_f64_bits(value.to_bits())
}

/// A Wasm operator under test with the types of its operands and result.
#[derive(Clone, Copy)]
struct WasmOp {
    op: Operator,
    param_ty: ValueType,
    result_ty: ValueType,
}

impl WasmOp {
    fn binary(ty: ValueType, op: Operator) -> Self {
        WasmOp { op, param_ty: ty, result_ty: ty }
    }

    fn cmp(ty: ValueType, op: Operator) -> Self {
        WasmOp { op, param_ty: ty, result_ty: ValueType::I32 }
    }
}

fn test_binary_reg_reg(wasm_op: WasmOp, op: BinaryOp) {
    let (instrs, consts) = translate(&[wasm_op.result_ty], 2, &[local(0), local(1), wasm_op.op]);
    let expected = [Instruction::binary(op, reg(2), reg(0), reg(1)), Instruction::return_reg(2)];
    assert_eq!(instrs, expected);
    assert!(consts.is_empty());
}

fn test_binary_same_reg(wasm_op: WasmOp, expected: &[Instruction]) {
    let (instrs, _) = translate(&[wasm_op.result_ty], 1, &[local(0), local(0), wasm_op.op]);
    assert_eq!(instrs, expected);
}

fn test_binary_reg_imm_with(wasm_op: WasmOp, value: UntypedValue, expected: &[Instruction]) {
    let body = [local(0), constant(wasm_op.param_ty, value), wasm_op.op];
    let (instrs, _) = translate(&[wasm_op.result_ty], 1, &body);
    assert_eq!(instrs, expected);
}

fn test_binary_reg_imm_rev_with(wasm_op: WasmOp, value: UntypedValue, expected: &[Instruction]) {
    let body = [constant(wasm_op.param_ty, value), local(0), wasm_op.op];
    let (instrs, _) = translate(&[wasm_op.result_ty], 1, &body);
    assert_eq!(instrs, expected);
}

fn test_binary_consteval(
    wasm_op: WasmOp,
    lhs: UntypedValue,
    rhs: UntypedValue,
    expected: &[Instruction],
) {
    let body = [constant(wasm_op.param_ty, lhs), constant(wasm_op.param_ty, rhs), wasm_op.op];
    let (instrs, _) = translate(&[wasm_op.result_ty], 0, &body);
    assert_eq!(instrs, expected);
}

/// A constant that fits a 16-bit immediate.
const SMALL: i16 = 100;

fn small(ty: ValueType) -> UntypedValue {
    match ty {
        ValueType::I32 => i32v(i32::from(SMALL)),
        _ => i64v(i64::from(SMALL)),
    }
}

fn test_binary_reg_imm16(wasm_op: WasmOp, make: fn(Register, Register, Const16) -> Instruction) {
    let expected = [make(reg(1), reg(0), Const16::from_i16(SMALL)), Instruction::return_reg(1)];
    test_binary_reg_imm_with(wasm_op, small(wasm_op.param_ty), &expected)
}

fn test_binary_reg_imm16_rev(wasm_op: WasmOp, make: fn(Register, Const16, Register) -> Instruction) {
    let expected = [make(reg(1), Const16::from_i16(SMALL), reg(0)), Instruction::return_reg(1)];
    test_binary_reg_imm_rev_with(wasm_op, small(wasm_op.param_ty), &expected)
}

fn test_binary_reg_imm32(wasm_op: WasmOp, value: UntypedValue, head: Instruction) {
    let expected =
        [head, Instruction::const32(Const32::from_u32(value.to_u32())), Instruction::return_reg(1)];
    test_binary_reg_imm_with(wasm_op, value, &expected)
}

fn test_binary_reg_imm32_rev(wasm_op: WasmOp, value: UntypedValue, head: Instruction) {
    let expected =
        [head, Instruction::const32(Const32::from_u32(value.to_u32())), Instruction::return_reg(1)];
    test_binary_reg_imm_rev_with(wasm_op, value, &expected)
}

fn test_binary_reg_imm64(wasm_op: WasmOp, value: UntypedValue, head: Instruction) {
    let body = [local(0), constant(wasm_op.param_ty, value), wasm_op.op];
    let (instrs, consts) = translate(&[wasm_op.result_ty], 1, &body);
    assert_eq!(instrs, [head, Instruction::const_ref(0), Instruction::return_reg(1)]);
    assert_eq!(consts, [value]);
}

fn test_binary_reg_imm64_rev(wasm_op: WasmOp, value: UntypedValue, head: Instruction) {
    let body = [constant(wasm_op.param_ty, value), local(0), wasm_op.op];
    let (instrs, consts) = translate(&[wasm_op.result_ty], 1, &body);
    assert_eq!(instrs, [head, Instruction::const_ref(0), Instruction::return_reg(1)]);
    assert_eq!(consts, [value]);
}

fn imm16(op: BinaryOp) -> impl Fn(Register, Register, Const16) -> Instruction {
    move |result, reg_in, imm_in| Instruction::binary_imm16(op, result, reg_in, imm_in)
}

fn return_imm32(value: i32) -> [Instruction; 1] {
    [Instruction::ReturnImm32 { value: Const32::from_i32(value) }]
}

fn return_bool(value: bool) -> [Instruction; 1] {
    [Instruction::ReturnImm32 { value: Const32::from_bool(value) }]
}

fn return_i64imm32(value: i32) -> [Instruction; 1] {
    [Instruction::ReturnI64Imm32 { value: Const32::from_i32(value) }]
}

fn return_f32(value: f32) -> [Instruction; 1] {
    [Instruction::ReturnImm32 { value: Const32::from_f32_bits(value.to_bits()) }]
}

// f32.mul

fn f32_mul() -> WasmOp {
    WasmOp::binary(ValueType::F32, Operator::F32Mul)
}

#[test]
fn f32_mul_reg_reg() {
    test_binary_reg_reg(f32_mul(), BinaryOp::F32Mul)
}

#[test]
fn f32_mul_reg_imm() {
    let head = Instruction::binary_imm(BinaryOp::F32Mul, reg(1), reg(0));
    test_binary_reg_imm32(f32_mul(), f32v(1.0_f32), head)
}

#[test]
fn f32_mul_reg_imm_rev() {
    let head = Instruction::binary_imm(BinaryOp::F32Mul, reg(1), reg(0));
    test_binary_reg_imm32_rev(f32_mul(), f32v(1.0_f32), head)
}

#[test]
fn f32_mul_reg_nan() {
    let body = [local(0), Operator::F32Const { bits: f32::NAN.to_bits() }, Operator::F32Add];
    let (instrs, _) = translate(&[ValueType::F32], 1, &body);
    assert_eq!(instrs, return_f32(f32::NAN));
}

#[test]
fn f32_mul_nan_reg() {
    let body = [Operator::F32Const { bits: f32::NAN.to_bits() }, local(0), Operator::F32Add];
    let (instrs, _) = translate(&[ValueType::F32], 1, &body);
    assert_eq!(instrs, return_f32(f32::NAN));
}

#[test]
fn f32_mul_consteval() {
    let lhs = 5.0_f32;
    let rhs = 13.0;
    test_binary_consteval(f32_mul(), f32v(lhs), f32v(rhs), &return_f32(lhs * rhs))
}

// f64.mul

fn f64_mul() -> WasmOp {
    WasmOp::binary(ValueType::F64, Operator::F64Mul)
}

#[test]
fn f64_mul_reg_reg() {
    test_binary_reg_reg(f64_mul(), BinaryOp::F64Mul)
}

#[test]
fn f64_mul_reg_imm() {
    let head = Instruction::binary_imm(BinaryOp::F64Mul, reg(1), reg(0));
    test_binary_reg_imm64(f64_mul(), f64v(1.0_f64), head)
}

#[test]
fn f64_mul_reg_imm_rev() {
    let head = Instruction::binary_imm(BinaryOp::F64Mul, reg(1), reg(0));
    test_binary_reg_imm64_rev(f64_mul(), f64v(1.0_f64), head)
}

#[test]
fn f64_mul_reg_nan() {
    let body = [local(0), Operator::F64Const { bits: f64::NAN.to_bits() }, Operator::F64Mul];
    let (instrs, consts) = translate(&[ValueType::F64], 1, &body);
    assert_eq!(
        instrs,
        [Instruction::ReturnImm { value: wasmi_translator::bytecode::ConstRef::from_u32(0) }]
    );
    assert_eq!(consts, [f64v(f64::NAN)]);
}

#[test]
fn f64_mul_nan_reg() {
    let body = [Operator::F64Const { bits: f64::NAN.to_bits() }, local(0), Operator::F64Mul];
    let (instrs, consts) = translate(&[ValueType::F64], 1, &body);
    assert_eq!(
        instrs,
        [Instruction::ReturnImm { value: wasmi_translator::bytecode::ConstRef::from_u32(0) }]
    );
    assert_eq!(consts, [f64v(f64::NAN)]);
}

#[test]
fn f64_mul_consteval() {
    let lhs = 5.0_f64;
    let rhs: f64 = 13.0;
    let body = [
        Operator::F64Const { bits: lhs.to_bits() },
        Operator::F64Const { bits: rhs.to_bits() },
        Operator::F64Mul,
    ];
    let (instrs, consts) = translate(&[ValueType::F64], 0, &body);
    assert_eq!(
        instrs,
        [Instruction::ReturnImm { value: wasmi_translator::bytecode::ConstRef::from_u32(0) }]
    );
    assert_eq!(consts, [f64v(lhs * rhs)]);
}

// i32.add

fn i32_add() -> WasmOp {
    WasmOp::binary(ValueType::I32, Operator::I32Add)
}

#[test]
fn i32_add_reg_reg() {
    test_binary_reg_reg(i32_add(), BinaryOp::I32Add)
}

#[test]
fn i32_add_reg_imm16() {
    test_binary_reg_imm16(i32_add(), |result, lhs, rhs| {
        Instruction::binary_imm16(BinaryOp::I32Add, result, lhs, rhs)
    })
}

#[test]
fn i32_add_reg_imm16_rev() {
    test_binary_reg_imm16_rev(i32_add(), |result, lhs, rhs| {
        Instruction::binary_imm16(BinaryOp::I32Add, result, rhs, lhs)
    })
}

#[test]
fn i32_add_reg_imm() {
    let head = Instruction::binary_imm(BinaryOp::I32Add, reg(1), reg(0));
    test_binary_reg_imm32(i32_add(), i32v(i32::MAX), head)
}

#[test]
fn i32_add_reg_imm_rev() {
    let head = Instruction::binary_imm(BinaryOp::I32Add, reg(1), reg(0));
    test_binary_reg_imm32_rev(i32_add(), i32v(i32::MAX), head)
}

#[test]
fn i32_add_reg_zero() {
    let expected = [Instruction::ReturnReg { value: Register::from_u16(0) }];
    test_binary_reg_imm_with(i32_add(), i32v(0i32), &expected)
}

#[test]
fn i32_add_reg_zero_rev() {
    let expected = [Instruction::ReturnReg { value: Register::from_u16(0) }];
    test_binary_reg_imm_rev_with(i32_add(), i32v(0i32), &expected)
}

#[test]
fn i32_add_consteval() {
    let lhs = 1;
    let rhs = 2;
    test_binary_consteval(i32_add(), i32v(lhs), i32v(rhs), &return_imm32(lhs + rhs))
}

// i32.ne

fn i32_ne() -> WasmOp {
    WasmOp::cmp(ValueType::I32, Operator::I32Ne)
}

#[test]
fn i32_ne_same_reg() {
    test_binary_same_reg(i32_ne(), &return_imm32(0))
}

#[test]
fn i32_ne_reg_reg() {
    test_binary_reg_reg(i32_ne(), BinaryOp::I32Ne)
}

#[test]
fn i32_ne_reg_imm16() {
    test_binary_reg_imm16(i32_ne(), |result, lhs, rhs| {
        Instruction::binary_imm16(BinaryOp::I32Ne, result, lhs, rhs)
    })
}

#[test]
fn i32_ne_reg_imm16_rev() {
    test_binary_reg_imm16_rev(i32_ne(), |result, lhs, rhs| {
        Instruction::binary_imm16(BinaryOp::I32Ne, result, rhs, lhs)
    })
}

#[test]
fn i32_ne_reg_imm() {
    let head = Instruction::binary_imm(BinaryOp::I32Ne, reg(1), reg(0));
    test_binary_reg_imm32(i32_ne(), i32v(i32::MAX), head)
}

#[test]
fn i32_ne_reg_imm_rev() {
    let head = Instruction::binary_imm(BinaryOp::I32Ne, reg(1), reg(0));
    test_binary_reg_imm32_rev(i32_ne(), i32v(i32::MAX), head)
}

#[test]
fn i32_ne_consteval() {
    test_binary_consteval(i32_ne(), i32v(1), i32v(1), &return_imm32(0));
    test_binary_consteval(i32_ne(), i32v(42), i32v(5), &return_imm32(1));
}

// i32.sub

fn i32_sub() -> WasmOp {
    WasmOp::binary(ValueType::I32, Operator::I32Sub)
}

#[test]
fn i32_sub_same_reg() {
    test_binary_same_reg(i32_sub(), &return_imm32(0))
}

#[test]
fn i32_sub_reg_reg() {
    test_binary_reg_reg(i32_sub(), BinaryOp::I32Sub)
}

#[test]
fn i32_sub_reg_imm16() {
    test_binary_reg_imm16(i32_sub(), |result, lhs, rhs| {
        Instruction::binary_imm16(BinaryOp::I32Sub, result, lhs, rhs)
    })
}

#[test]
fn i32_sub_reg_imm16_rev() {
    test_binary_reg_imm16_rev(i32_sub(), |result, lhs, rhs| {
        Instruction::binary_imm16_rev(BinaryOp::I32Sub, result, lhs, rhs)
    })
}

#[test]
fn i32_sub_reg_imm() {
    let head = Instruction::binary_imm(BinaryOp::I32Sub, reg(1), reg(0));
    test_binary_reg_imm32(i32_sub(), i32v(i32::MAX), head)
}

#[test]
fn i32_sub_reg_imm_rev() {
    // The constant is the minuend, so the instruction is the reversed form.
    let head = Instruction::binary_imm_rev(BinaryOp::I32Sub, reg(1), reg(0));
    test_binary_reg_imm32_rev(i32_sub(), i32v(i32::MAX), head)
}

#[test]
fn i32_sub_reg_zero() {
    let expected = [Instruction::ReturnReg { value: Register::from_u16(0) }];
    test_binary_reg_imm_with(i32_sub(), i32v(0i32), &expected)
}

#[test]
fn i32_sub_consteval() {
    let lhs = 1;
    let rhs = 2;
    test_binary_consteval(i32_sub(), i32v(lhs), i32v(rhs), &return_imm32(lhs - rhs))
}

// i32.xor

fn i32_xor() -> WasmOp {
    WasmOp::binary(ValueType::I32, Operator::I32Xor)
}

#[test]
fn i32_xor_same_reg() {
    test_binary_same_reg(i32_xor(), &return_imm32(0))
}

#[test]
fn i32_xor_reg_reg() {
    test_binary_reg_reg(i32_xor(), BinaryOp::I32Xor)
}

#[test]
fn i32_xor_reg_imm16() {
    test_binary_reg_imm16(i32_xor(), |result, lhs, rhs| {
        Instruction::binary_imm16(BinaryOp::I32Xor, result, lhs, rhs)
    })
}

#[test]
fn i32_xor_reg_imm16_rev() {
    test_binary_reg_imm16_rev(i32_xor(), |result, lhs, rhs| {
        Instruction::binary_imm16(BinaryOp::I32Xor, result, rhs, lhs)
    })
}

#[test]
fn i32_xor_reg_imm() {
    let head = Instruction::binary_imm(BinaryOp::I32Xor, reg(1), reg(0));
    test_binary_reg_imm32(i32_xor(), i32v(i32::MAX), head)
}

#[test]
fn i32_xor_reg_imm_rev() {
    let head = Instruction::binary_imm(BinaryOp::I32Xor, reg(1), reg(0));
    test_binary_reg_imm32_rev(i32_xor(), i32v(i32::MAX), head)
}

#[test]
fn i32_xor_reg_zero() {
    let expected = [Instruction::ReturnReg { value: Register::from_u16(0) }];
    test_binary_reg_imm_with(i32_xor(), i32v(0i32), &expected)
}

#[test]
fn i32_xor_reg_zero_rev() {
    let expected = [Instruction::ReturnReg { value: Register::from_u16(0) }];
    test_binary_reg_imm_rev_with(i32_xor(), i32v(0i32), &expected)
}

#[test]
fn i32_xor_consteval() {
    let lhs = 10;
    let rhs = 20;
    test_binary_consteval(i32_xor(), i32v(lhs), i32v(rhs), &return_imm32(lhs ^ rhs))
}

// i64.add

fn i64_add() -> WasmOp {
    WasmOp::binary(ValueType::I64, Operator::I64Add)
}

#[test]
fn i64_add_reg_reg() {
    test_binary_reg_reg(i64_add(), BinaryOp::I64Add)
}

#[test]
fn i64_add_reg_imm16() {
    test_binary_reg_imm16(i64_add(), |result, lhs, rhs| {
        Instruction::binary_imm16(BinaryOp::I64Add, result, lhs, rhs)
    })
}

#[test]
fn i64_add_reg_imm16_rev() {
    test_binary_reg_imm16_rev(i64_add(), |result, lhs, rhs| {
        Instruction::binary_imm16(BinaryOp::I64Add, result, rhs, lhs)
    })
}

#[test]
fn i64_add_reg_imm() {
    let head = Instruction::binary_imm(BinaryOp::I64Add, reg(1), reg(0));
    test_binary_reg_imm64(i64_add(), i64v(i64::MAX), head)
}

#[test]
fn i64_add_reg_imm_rev() {
    let head = Instruction::binary_imm(BinaryOp::I64Add, reg(1), reg(0));
    test_binary_reg_imm64_rev(i64_add(), i64v(i64::MAX), head)
}

#[test]
fn i64_add_reg_zero() {
    let expected = [Instruction::ReturnReg { value: Register::from_u16(0) }];
    test_binary_reg_imm_with(i64_add(), i64v(i64::from(0i32)), &expected)
}

#[test]
fn i64_add_reg_zero_rev() {
    let expected = [Instruction::ReturnReg { value: Register::from_u16(0) }];
    test_binary_reg_imm_rev_with(i64_add(), i64v(i64::from(0i32)), &expected)
}

#[test]
fn i64_add_consteval() {
    let lhs = 1;
    let rhs = 2;
    test_binary_consteval(
        i64_add(),
        i64v(i64::from(lhs)),
        i64v(i64::from(rhs)),
        &return_i64imm32(lhs + rhs),
    )
}

// i64.ge_u

fn i64_ge_u() -> WasmOp {
    WasmOp::cmp(ValueType::I64, Operator::I64GeU)
}

#[test]
fn i64_ge_u_same_reg() {
    test_binary_same_reg(i64_ge_u(), &return_bool(true))
}

#[test]
fn i64_ge_u_reg_reg() {
    test_binary_reg_reg(i64_ge_u(), BinaryOp::I64GeU)
}

#[test]
fn i64_ge_u_reg_imm16() {
    test_binary_reg_imm16(i64_ge_u(), |result, lhs, rhs| {
        Instruction::binary_imm16(BinaryOp::I64GeU, result, lhs, rhs)
    })
}

#[test]
fn i64_ge_u_reg_imm16_rev() {
    test_binary_reg_imm16_rev(i64_ge_u(), |result, lhs, rhs| {
        Instruction::binary_imm16(BinaryOp::I64LeU, result, rhs, lhs)
    })
}

#[test]
fn i64_ge_u_reg_imm() {
    // 100_000 does not fit 16 bits but fits 32 bits.
    let head = Instruction::binary_imm(BinaryOp::I64GeU, reg(1), reg(0));
    test_binary_reg_imm32(i64_ge_u(), u64v(100_000), head)
}

#[test]
fn i64_ge_u_reg_imm_rev() {
    let head = Instruction::binary_imm(BinaryOp::I64LeU, reg(1), reg(0));
    test_binary_reg_imm32_rev(i64_ge_u(), u64v(100_000), head)
}

#[test]
fn reg_min() {
    test_binary_reg_imm_with(i64_ge_u(), u64v(u64::MIN), &return_bool(true))
}

#[test]
fn max_reg() {
    test_binary_reg_imm_rev_with(i64_ge_u(), u64v(u64::MAX), &return_bool(true))
}

#[test]
fn i64_ge_u_consteval() {
    let lhs = 1_u64;
    let rhs = 2;
    test_binary_consteval(i64_ge_u(), u64v(lhs), u64v(rhs), &return_bool(lhs >= rhs))
}

// i64.gt_u

fn i64_gt_u() -> WasmOp {
    WasmOp::cmp(ValueType::I64, Operator::I64GtU)
}

#[test]
fn i64_gt_u_same_reg() {
    test_binary_same_reg(i64_gt_u(), &return_bool(false))
}

#[test]
fn i64_gt_u_reg_reg() {
    test_binary_reg_reg(i64_gt_u(), BinaryOp::I64GtU)
}

#[test]
fn i64_gt_u_reg_imm16() {
    test_binary_reg_imm16(i64_gt_u(), |result, lhs, rhs| {
        Instruction::binary_imm16(BinaryOp::I64GtU, result, lhs, rhs)
    })
}

#[test]
fn i64_gt_u_reg_imm16_rev() {
    test_binary_reg_imm16_rev(i64_gt_u(), |result, lhs, rhs| {
        Instruction::binary_imm16(BinaryOp::I64LtU, result, rhs, lhs)
    })
}

#[test]
fn i64_gt_u_reg_imm() {
    let head = Instruction::binary_imm(BinaryOp::I64GtU, reg(1), reg(0));
    test_binary_reg_imm32(i64_gt_u(), u64v(100_000), head)
}

#[test]
fn i64_gt_u_reg_imm_rev() {
    let head = Instruction::binary_imm(BinaryOp::I64LtU, reg(1), reg(0));
    test_binary_reg_imm32_rev(i64_gt_u(), u64v(100_000), head)
}

#[test]
fn reg_max() {
    test_binary_reg_imm_with(i64_gt_u(), u64v(u64::MAX), &return_bool(false))
}

#[test]
fn min_reg() {
    test_binary_reg_imm_rev_with(i64_gt_u(), u64v(u64::MIN), &return_bool(false))
}

#[test]
fn i64_gt_u_consteval() {
    let lhs = 1_u64;
    let rhs = 2;
    test_binary_consteval(i64_gt_u(), u64v(lhs), u64v(rhs), &return_bool(lhs > rhs))
}

// i64.or

fn i64_or() -> WasmOp {
    WasmOp::binary(ValueType::I64, Operator::I64Or)
}

#[test]
fn i64_or_same_reg() {
    let expected = [Instruction::ReturnReg { value: Register::from_u16(0) }];
    test_binary_same_reg(i64_or(), &expected)
}

#[test]
fn i64_or_reg_reg() {
    test_binary_reg_reg(i64_or(), BinaryOp::I64Or)
}

#[test]
fn i64_or_reg_imm16() {
    test_binary_reg_imm16(i64_or(), |result, lhs, rhs| {
        Instruction::binary_imm16(BinaryOp::I64Or, result, lhs, rhs)
    })
}

#[test]
fn i64_or_reg_imm16_rev() {
    test_binary_reg_imm16_rev(i64_or(), |result, lhs, rhs| {
        Instruction::binary_imm16(BinaryOp::I64Or, result, rhs, lhs)
    })
}

#[test]
fn i64_or_reg_imm() {
    let head = Instruction::binary_imm(BinaryOp::I64Or, reg(1), reg(0));
    test_binary_reg_imm64(i64_or(), i64v(i64::MAX), head)
}

#[test]
fn i64_or_reg_imm_rev() {
    let head = Instruction::binary_imm(BinaryOp::I64Or, reg(1), reg(0));
    test_binary_reg_imm64_rev(i64_or(), i64v(i64::MAX), head)
}

#[test]
fn i64_or_reg_zero() {
    let expected = [Instruction::ReturnReg { value: Register::from_u16(0) }];
    test_binary_reg_imm_with(i64_or(), i64v(0i64), &expected)
}

#[test]
fn i64_or_reg_zero_rev() {
    let expected = [Instruction::ReturnReg { value: Register::from_u16(0) }];
    test_binary_reg_imm_rev_with(i64_or(), i64v(0i64), &expected)
}

#[test]
fn reg_ones() {
    test_binary_reg_imm_with(i64_or(), i64v(-1_i64), &return_i64imm32(-1))
}

#[test]
fn reg_ones_rev() {
    test_binary_reg_imm_rev_with(i64_or(), i64v(-1_i64), &return_i64imm32(-1))
}

#[test]
fn i64_or_consteval() {
    let lhs = 10;
    let rhs = 20;
    test_binary_consteval(
        i64_or(),
        i64v(i64::from(lhs)),
        i64v(i64::from(rhs)),
        &return_i64imm32(lhs | rhs),
    )
}

// i64.rem_u

fn i64_rem_u() -> WasmOp {
    WasmOp::binary(ValueType::I64, Operator::I64RemU)
}

#[test]
fn i64_rem_u_same_reg() {
    test_binary_same_reg(i64_rem_u(), &return_i64imm32(0))
}

#[test]
fn i64_rem_u_reg_reg() {
    test_binary_reg_reg(i64_rem_u(), BinaryOp::I64RemU)
}

#[test]
fn i64_rem_u_reg_imm16() {
    test_binary_reg_imm16(i64_rem_u(), |result, lhs, rhs| {
        Instruction::binary_imm16(BinaryOp::I64RemU, result, lhs, rhs)
    })
}

#[test]
fn i64_rem_u_reg_imm16_rev() {
    test_binary_reg_imm16_rev(i64_rem_u(), |result, lhs, rhs| {
        Instruction::binary_imm16_rev(BinaryOp::I64RemU, result, lhs, rhs)
    })
}

#[test]
fn i64_rem_u_reg_imm() {
    let head = Instruction::binary_imm(BinaryOp::I64RemU, reg(1), reg(0));
    test_binary_reg_imm64(i64_rem_u(), i64v(i64::MAX), head)
}

#[test]
fn i64_rem_u_reg_imm_rev() {
    // The constant is the dividend, so the instruction is the reversed form.
    let head = Instruction::binary_imm_rev(BinaryOp::I64RemU, reg(1), reg(0));
    test_binary_reg_imm64_rev(i64_rem_u(), i64v(i64::MAX), head)
}

#[test]
fn i64_rem_u_reg_zero() {
    let expected =
        [Instruction::Trap(wasmi_translator::value::TrapCode::IntegerDivisionByZero)];
    test_binary_reg_imm_with(i64_rem_u(), i64v(0_i64), &expected)
}

#[test]
fn reg_one() {
    test_binary_reg_imm_with(i64_rem_u(), i64v(1_i64), &return_i64imm32(0))
}

#[test]
fn i64_rem_u_consteval() {
    let lhs = 13;
    let rhs = 5;
    test_binary_consteval(
        i64_rem_u(),
        i64v(i64::from(lhs)),
        i64v(i64::from(rhs)),
        &return_i64imm32(lhs % rhs),
    )
}

#[test]
fn consteval_div_by_zero() {
    let lhs = -4;
    let rhs = 0;
    test_binary_consteval(
        i64_rem_u(),
        i64v(lhs),
        i64v(rhs),
        &[Instruction::Trap(wasmi_translator::value::TrapCode::IntegerDivisionByZero)],
    )
}

// i64.rotl

fn i64_rotl() -> WasmOp {
    WasmOp::binary(ValueType::I64, Operator::I64Rotl)
}

#[test]
fn i64_rotl_reg_reg() {
    test_binary_reg_reg(i64_rotl(), BinaryOp::I64Rotl)
}

#[test]
fn i64_rotl_reg_imm_rev() {
    let head = Instruction::binary_imm_rev(BinaryOp::I64Rotl, reg(1), reg(0));
    test_binary_reg_imm64_rev(i64_rotl(), i64v(i64::MAX), head)
}

#[test]
fn i64_rotl_reg_imm16_rev() {
    test_binary_reg_imm16_rev(i64_rotl(), |result, lhs, rhs| {
        Instruction::binary_imm16_rev(BinaryOp::I64Rotl, result, lhs, rhs)
    })
}

#[test]
fn i64_rotl_reg_zero() {
    let expected = [Instruction::ReturnReg { value: Register::from_u16(0) }];
    test_binary_reg_imm_with(i64_rotl(), i64v(i64::from(0_i32)), &expected)
}

#[test]
fn reg_0_after_mod32() {
    let expected = [Instruction::ReturnReg { value: Register::from_u16(0) }];
    test_binary_reg_imm_with(i64_rotl(), i64v(i64::from(0_i32)), &expected);
    test_binary_reg_imm_with(i64_rotl(), i64v(i64::from(64_i32)), &expected);
    test_binary_reg_imm_with(i64_rotl(), i64v(i64::from(128_i32)), &expected);
}

#[test]
fn reg_1_after_mod32() {
    let expected = [
        imm16(BinaryOp::I64Rotl)(
            Register::from_u16(1),
            Register::from_u16(0),
            Const16::from_i16(1),
        ),
        Instruction::ReturnReg { value: Register::from_u16(1) },
    ];
    test_binary_reg_imm_with(i64_rotl(), i64v(i64::from(1_i32)), &expected);
    test_binary_reg_imm_with(i64_rotl(), i64v(i64::from(65_i32)), &expected);
    test_binary_reg_imm_with(i64_rotl(), i64v(i64::from(129_i32)), &expected);
}

#[test]
fn zero_reg() {
    test_binary_reg_imm_rev_with(i64_rotl(), i64v(i64::from(0_i32)), &return_i64imm32(0_i32))
}

#[test]
fn minus_one_reg() {
    test_binary_reg_imm_rev_with(i64_rotl(), i64v(i64::from(-1_i32)), &return_i64imm32(-1_i32))
}

#[test]
fn i64_rotl_consteval() {
    let lhs = 10_i32;
    let rhs = 2;
    test_binary_consteval(
        i64_rotl(),
        i64v(i64::from(lhs)),
        i64v(i64::from(rhs)),
        &return_i64imm32(lhs.rotate_left(rhs as u32)),
    )
}
