//! Translation of operator sequences: folding, identities, encodings,
//! unreachable code and the limits of the bytecode.

use wasmi_translator::bytecode::{BinaryOp, Const16, Const32, ConstRef, Instruction, Register, UnaryOp};
use wasmi_translator::consts::ConstPool;
use wasmi_translator::encoder::InstrEncoder;
use wasmi_translator::error::TranslationErrorInner;
use wasmi_translator::operator::Operator;
use wasmi_translator::stack::{Provider, ValueStack};
use wasmi_translator::translator::FuncTranslator;
use wasmi_translator::value::{TrapCode, UntypedValue, ValueType};

fn translator(results: &[ValueType], len_locals: u16) -> FuncTranslator {
    FuncTranslator::new(results.to_vec(), len_locals).unwrap()
}

fn run(translator: &mut FuncTranslator, body: &[Operator]) {
    for op in body {
        assert!(translator.accepts(*op), "the stack lacks operands of {:?}", op);
        translator.translate(*op).unwrap();
    }
}

fn pool(consts: &ConstPool) -> Vec<UntypedValue> {
    (0..consts.len() as u32).map(|index| consts.get(ConstRef::from_u32(index)).unwrap()).collect()
}

fn local(index: u32) -> Operator {
    Operator::LocalGet { local_index: index }
}

fn reg(index: u16) -> Register {
    Register::from_u16(index)
}

fn f32c(value: f32) -> Operator {
    Operator::F32Const { bits: value.to_bits() }
}

fn f64c(value: f64) -> Operator {
    Operator::F64Const { bits: value.to_bits() }
}

/// The topmost slots of the operand stack, at most two, the top last.
fn stack_of(translator: &FuncTranslator) -> Vec<Provider> {
    match translator.stack().len() {
        0 => vec![],
        1 => vec![translator.stack().peek()],
        _ => {
            let (lower, top) = translator.stack().peek2();
            vec![lower, top]
        }
    }
}

#[test]
fn constant_folding_emits_only_the_return() {
    let mut t = translator(&[ValueType::I32], 0);
    run(&mut t, &[Operator::I32Const { value: 1 }, Operator::I32Const { value: 2 }, Operator::I32Add]);
    assert!(t.instrs().is_empty());
    assert_eq!(stack_of(&t), [Provider::Const(UntypedValue::from_i32(3))]);
    run(&mut t, &[Operator::End]);
    assert_eq!(t.instrs().as_slice(), [Instruction::ReturnImm32 { value: Const32::from_i32(3) }]);
}

#[test]
fn constant_folding_wraps() {
    let mut t = translator(&[ValueType::I32], 0);
    let body = [
        Operator::I32Const { value: i32::MAX },
        Operator::I32Const { value: 1 },
        Operator::I32Add,
        Operator::End,
    ];
    run(&mut t, &body);
    assert_eq!(
        t.instrs().as_slice(),
        [Instruction::ReturnImm32 { value: Const32::from_i32(i32::MIN) }]
    );
}

#[test]
fn constant_folding_of_unary_operators() {
    let mut t = translator(&[ValueType::I32], 0);
    run(&mut t, &[Operator::I32Const { value: 1 }, Operator::I32Clz, Operator::End]);
    assert_eq!(t.instrs().as_slice(), [Instruction::ReturnImm32 { value: Const32::from_i32(31) }]);

    let mut t = translator(&[ValueType::F32], 0);
    run(&mut t, &[f32c(6.25), Operator::F32Sqrt, Operator::End]);
    assert_eq!(
        t.instrs().as_slice(),
        [Instruction::ReturnImm32 { value: Const32::from_f32_bits(2.5_f32.to_bits()) }]
    );

    let mut t = translator(&[ValueType::F64], 0);
    run(&mut t, &[f64c(-1.5), Operator::F64Abs, Operator::End]);
    assert_eq!(t.instrs().as_slice(), [Instruction::ReturnImm { value: ConstRef::from_u32(0) }]);
    assert_eq!(pool(t.consts()), [UntypedValue::from_f64_bits(1.5_f64.to_bits())]);
}

#[test]
fn unary_operator_on_a_register() {
    let mut t = translator(&[ValueType::I64], 1);
    run(&mut t, &[local(0), Operator::I64Popcnt, Operator::End]);
    assert_eq!(
        t.instrs().as_slice(),
        [Instruction::unary(UnaryOp::I64Popcnt, reg(1), reg(0)), Instruction::return_reg(1)]
    );
}

#[test]
fn trapping_fold_emits_the_trap() {
    for (op, lhs, rhs, code) in [
        (Operator::I32DivS, 1, 0, TrapCode::IntegerDivisionByZero),
        (Operator::I32DivU, -4, 0, TrapCode::IntegerDivisionByZero),
        (Operator::I32RemS, -4, 0, TrapCode::IntegerDivisionByZero),
        (Operator::I32RemU, -4, 0, TrapCode::IntegerDivisionByZero),
        (Operator::I32DivS, i32::MIN, -1, TrapCode::IntegerOverflow),
    ] {
        let mut t = translator(&[ValueType::I32], 0);
        let body = [Operator::I32Const { value: lhs }, Operator::I32Const { value: rhs }, op];
        run(&mut t, &body);
        assert!(!t.is_reachable());
        run(&mut t, &[Operator::End]);
        assert_eq!(t.instrs().as_slice(), [Instruction::Trap(code)]);
    }
    let mut t = translator(&[ValueType::I64], 0);
    let body = [
        Operator::I64Const { value: i64::MIN },
        Operator::I64Const { value: -1 },
        Operator::I64DivS,
        Operator::End,
    ];
    run(&mut t, &body);
    assert_eq!(t.instrs().as_slice(), [Instruction::Trap(TrapCode::IntegerOverflow)]);
}

#[test]
fn division_by_constant_zero_traps() {
    let mut t = translator(&[ValueType::I32], 1);
    run(&mut t, &[local(0), Operator::I32Const { value: 0 }, Operator::I32DivS, Operator::End]);
    assert_eq!(t.instrs().as_slice(), [Instruction::Trap(TrapCode::IntegerDivisionByZero)]);
}

#[test]
fn identities_of_equal_registers() {
    let cases = [
        (Operator::I32Sub, Instruction::ReturnImm32 { value: Const32::from_i32(0) }),
        (Operator::I32Xor, Instruction::ReturnImm32 { value: Const32::from_i32(0) }),
        (Operator::I32DivS, Instruction::ReturnImm32 { value: Const32::from_i32(1) }),
        (Operator::I32DivU, Instruction::ReturnImm32 { value: Const32::from_i32(1) }),
        (Operator::I32RemS, Instruction::ReturnImm32 { value: Const32::from_i32(0) }),
        (Operator::I32And, Instruction::return_reg(0)),
        (Operator::I32Or, Instruction::return_reg(0)),
        (Operator::I32Eq, Instruction::ReturnImm32 { value: Const32::from_i32(1) }),
        (Operator::I32LtS, Instruction::ReturnImm32 { value: Const32::from_i32(0) }),
        (Operator::I32GeU, Instruction::ReturnImm32 { value: Const32::from_i32(1) }),
    ];
    for (op, expected) in cases {
        let mut t = translator(&[ValueType::I32], 1);
        run(&mut t, &[local(0), local(0), op, Operator::End]);
        assert_eq!(t.instrs().as_slice(), [expected], "{:?}", op);
    }
    let mut t = translator(&[ValueType::I64], 1);
    run(&mut t, &[local(0), local(0), Operator::I64DivS, Operator::End]);
    assert_eq!(
        t.instrs().as_slice(),
        [Instruction::ReturnI64Imm32 { value: Const32::from_i32(1) }]
    );
    let mut t = translator(&[ValueType::F32], 1);
    run(&mut t, &[local(0), local(0), Operator::F32Copysign, Operator::End]);
    assert_eq!(t.instrs().as_slice(), [Instruction::return_reg(0)]);
}

#[test]
fn equal_registers_without_identity_emit_the_instruction() {
    let mut t = translator(&[ValueType::I32], 1);
    run(&mut t, &[local(0), local(0), Operator::I32Add, Operator::End]);
    assert_eq!(
        t.instrs().as_slice(),
        [Instruction::binary(BinaryOp::I32Add, reg(1), reg(0), reg(0)), Instruction::return_reg(1)]
    );
    let mut t = translator(&[ValueType::F32], 1);
    run(&mut t, &[local(0), local(0), Operator::F32Sub, Operator::End]);
    assert_eq!(
        t.instrs().as_slice(),
        [Instruction::binary(BinaryOp::F32Sub, reg(1), reg(0), reg(0)), Instruction::return_reg(1)]
    );
}

#[test]
fn identities_of_constant_operands() {
    // x & -1 is x in either order
    for body in [
        [local(0), Operator::I32Const { value: -1 }, Operator::I32And],
        [Operator::I32Const { value: -1 }, local(0), Operator::I32And],
        [local(0), Operator::I32Const { value: 1 }, Operator::I32Mul],
        [local(0), Operator::I32Const { value: 1 }, Operator::I32DivU],
        [local(0), Operator::I32Const { value: 0 }, Operator::I32Shl],
        [local(0), Operator::I32Const { value: 32 }, Operator::I32Rotr],
    ] {
        let mut t = translator(&[ValueType::I32], 1);
        run(&mut t, &body);
        run(&mut t, &[Operator::End]);
        assert_eq!(t.instrs().as_slice(), [Instruction::return_reg(0)], "{:?}", body);
    }
    for (body, value) in [
        ([local(0), Operator::I32Const { value: 0 }, Operator::I32Mul], 0),
        ([local(0), Operator::I32Const { value: 0 }, Operator::I32And], 0),
        ([local(0), Operator::I32Const { value: -1 }, Operator::I32Or], -1),
        ([local(0), Operator::I32Const { value: -1 }, Operator::I32RemS], 0),
        ([local(0), Operator::I32Const { value: i32::MIN }, Operator::I32LtS], 0),
        ([Operator::I32Const { value: i32::MAX }, local(0), Operator::I32LtS], 0),
        ([local(0), Operator::I32Const { value: -1 }, Operator::I32LeU], 1),
        ([Operator::I32Const { value: 0 }, local(0), Operator::I32LeU], 1),
        ([Operator::I32Const { value: -1 }, local(0), Operator::I32ShrS], -1),
        ([Operator::I32Const { value: -1 }, local(0), Operator::I32Rotr], -1),
        ([Operator::I32Const { value: 0 }, local(0), Operator::I32Shl], 0),
    ] {
        let mut t = translator(&[ValueType::I32], 1);
        run(&mut t, &body);
        run(&mut t, &[Operator::End]);
        assert_eq!(
            t.instrs().as_slice(),
            [Instruction::ReturnImm32 { value: Const32::from_i32(value) }],
            "{:?}",
            body
        );
    }
}

#[test]
fn constant_without_identity_in_that_place_emits_the_instruction() {
    // 0 - x is no identity, -1 << x neither
    let mut t = translator(&[ValueType::I32], 1);
    run(&mut t, &[Operator::I32Const { value: 0 }, local(0), Operator::I32Sub, Operator::End]);
    assert_eq!(
        t.instrs().as_slice(),
        [
            Instruction::binary_imm16_rev(BinaryOp::I32Sub, reg(1), Const16::from_i16(0), reg(0)),
            Instruction::return_reg(1)
        ]
    );
    let mut t = translator(&[ValueType::I32], 1);
    run(&mut t, &[Operator::I32Const { value: -1 }, local(0), Operator::I32Shl, Operator::End]);
    assert_eq!(
        t.instrs().as_slice(),
        [
            Instruction::binary_imm16_rev(BinaryOp::I32Shl, reg(1), Const16::from_i16(-1), reg(0)),
            Instruction::return_reg(1)
        ]
    );
}

#[test]
fn float_identities_respect_the_sign_of_zero() {
    // x - (+0.0) is x
    let mut t = translator(&[ValueType::F32], 1);
    run(&mut t, &[local(0), f32c(0.0), Operator::F32Sub, Operator::End]);
    assert_eq!(t.instrs().as_slice(), [Instruction::return_reg(0)]);
    // x - (-0.0) is not
    let mut t = translator(&[ValueType::F32], 1);
    run(&mut t, &[local(0), f32c(-0.0), Operator::F32Sub, Operator::End]);
    assert_eq!(
        t.instrs().as_slice(),
        [
            Instruction::binary_imm(BinaryOp::F32Sub, reg(1), reg(0)),
            Instruction::const32(Const32::from_f32_bits((-0.0_f32).to_bits())),
            Instruction::return_reg(1)
        ]
    );
    // (+0.0) - x is not
    let mut t = translator(&[ValueType::F64], 1);
    run(&mut t, &[f64c(0.0), local(0), Operator::F64Sub, Operator::End]);
    assert_eq!(
        t.instrs().as_slice(),
        [
            Instruction::binary_imm_rev(BinaryOp::F64Sub, reg(1), reg(0)),
            Instruction::const_ref(0),
            Instruction::return_reg(1)
        ]
    );
    // x * 0.0 is not
    let mut t = translator(&[ValueType::F32], 1);
    run(&mut t, &[local(0), f32c(0.0), Operator::F32Mul, Operator::End]);
    assert_eq!(t.instrs().len(), 3);
    // min(x, +inf) and max(x, -inf) are x
    let mut t = translator(&[ValueType::F64], 1);
    run(&mut t, &[local(0), f64c(f64::INFINITY), Operator::F64Min, Operator::End]);
    assert_eq!(t.instrs().as_slice(), [Instruction::return_reg(0)]);
    let mut t = translator(&[ValueType::F64], 1);
    run(&mut t, &[f64c(f64::NEG_INFINITY), local(0), Operator::F64Max, Operator::End]);
    assert_eq!(t.instrs().as_slice(), [Instruction::return_reg(0)]);
    let mut t = translator(&[ValueType::F64], 1);
    run(&mut t, &[local(0), f64c(f64::NEG_INFINITY), Operator::F64Min, Operator::End]);
    assert_eq!(t.instrs().len(), 3);
}

#[test]
fn float_comparison_with_nan_is_decided() {
    let nan32 = Operator::F32Const { bits: 0xffc0_1234 };
    let nan64 = Operator::F64Const { bits: 0x7ff8_0000_0000_0001 };
    for (body, value) in [
        ([local(0), nan32, Operator::F32Eq], false),
        ([nan32, local(0), Operator::F32Eq], false),
        ([local(0), nan32, Operator::F32Ne], true),
        ([nan32, local(0), Operator::F32Ne], true),
        ([local(0), nan64, Operator::F64Eq], false),
        ([nan64, local(0), Operator::F64Eq], false),
        ([local(0), nan64, Operator::F64Ne], true),
        ([nan64, local(0), Operator::F64Ne], true),
    ] {
        let mut t = translator(&[ValueType::I32], 1);
        run(&mut t, &body);
        run(&mut t, &[Operator::End]);
        assert_eq!(
            t.instrs().as_slice(),
            [Instruction::ReturnImm32 { value: Const32::from_bool(value) }],
            "{:?}",
            body
        );
    }
}

#[test]
fn nan_operand_is_the_result_with_its_payload() {
    let mut t = translator(&[ValueType::F32], 1);
    run(&mut t, &[local(0), Operator::F32Const { bits: 0xffc0_1234 }, Operator::F32Div]);
    run(&mut t, &[Operator::End]);
    assert_eq!(
        t.instrs().as_slice(),
        [Instruction::ReturnImm32 { value: Const32::from_f32_bits(0xffc0_1234) }]
    );
    // the sign copy of a NaN is not decided by the NaN
    let mut t = translator(&[ValueType::F32], 1);
    run(&mut t, &[local(0), Operator::F32Const { bits: 0xffc0_1234 }, Operator::F32Copysign]);
    run(&mut t, &[Operator::End]);
    assert_eq!(
        t.instrs().as_slice(),
        [
            Instruction::binary_imm(BinaryOp::F32Copysign, reg(1), reg(0)),
            Instruction::const32(Const32::from_f32_bits(0xffc0_1234)),
            Instruction::return_reg(1)
        ]
    );
}

#[test]
fn encoding_tiers_of_a_subtraction() {
    // 16 bits
    let mut t = translator(&[ValueType::I64], 1);
    run(&mut t, &[local(0), Operator::I64Const { value: -32768 }, Operator::I64Sub, Operator::End]);
    assert_eq!(
        t.instrs().as_slice(),
        [
            Instruction::binary_imm16(BinaryOp::I64Sub, reg(1), reg(0), Const16::from_i16(i16::MIN)),
            Instruction::return_reg(1)
        ]
    );
    // 32 bits
    let mut t = translator(&[ValueType::I64], 1);
    run(&mut t, &[local(0), Operator::I64Const { value: -32769 }, Operator::I64Sub, Operator::End]);
    assert_eq!(
        t.instrs().as_slice(),
        [
            Instruction::binary_imm(BinaryOp::I64Sub, reg(1), reg(0)),
            Instruction::const32(Const32::from_i32(-32769)),
            Instruction::return_reg(1)
        ]
    );
    assert!(pool(t.consts()).is_empty());
    // the pool
    let mut t = translator(&[ValueType::I64], 1);
    let wide = i64::from(i32::MAX) + 1;
    run(&mut t, &[local(0), Operator::I64Const { value: wide }, Operator::I64Sub, Operator::End]);
    assert_eq!(
        t.instrs().as_slice(),
        [
            Instruction::binary_imm(BinaryOp::I64Sub, reg(1), reg(0)),
            Instruction::const_ref(0),
            Instruction::return_reg(1)
        ]
    );
    assert_eq!(pool(t.consts()), [UntypedValue::from_i64(wide)]);
}

#[test]
fn unsigned_immediates_use_the_unsigned_ranges() {
    // 65535 fits the 16 bits of an unsigned comparison, not those of a signed
    let mut t = translator(&[ValueType::I32], 1);
    run(&mut t, &[local(0), Operator::I32Const { value: 65535 }, Operator::I32LtU]);
    assert_eq!(
        t.instrs().as_slice(),
        [Instruction::binary_imm16(BinaryOp::I32LtU, reg(1), reg(0), Const16::from_u16(65535))]
    );
    let mut t = translator(&[ValueType::I32], 1);
    run(&mut t, &[local(0), Operator::I32Const { value: 65535 }, Operator::I32LtS]);
    assert_eq!(
        t.instrs().as_slice(),
        [
            Instruction::binary_imm(BinaryOp::I32LtS, reg(1), reg(0)),
            Instruction::const32(Const32::from_i32(65535))
        ]
    );
    // -1 read as unsigned does not fit
    let mut t = translator(&[ValueType::I32], 1);
    run(&mut t, &[local(0), Operator::I32Const { value: -2 }, Operator::I32LtU]);
    assert_eq!(t.instrs().len(), 2);
}

#[test]
fn same_literal_shares_one_pool_slot() {
    let mut t = translator(&[ValueType::F64], 1);
    let body = [
        local(0),
        f64c(1.5),
        Operator::F64Add,
        f64c(2.5),
        Operator::F64Add,
        f64c(1.5),
        Operator::F64Add,
        Operator::End,
    ];
    run(&mut t, &body);
    assert_eq!(
        t.instrs().as_slice(),
        [
            Instruction::binary_imm(BinaryOp::F64Add, reg(1), reg(0)),
            Instruction::const_ref(0),
            Instruction::binary_imm(BinaryOp::F64Add, reg(1), reg(1)),
            Instruction::const_ref(1),
            Instruction::binary_imm(BinaryOp::F64Add, reg(1), reg(1)),
            Instruction::const_ref(0),
            Instruction::return_reg(1),
        ]
    );
    assert_eq!(
        pool(t.consts()),
        [UntypedValue::from_f64_bits(1.5_f64.to_bits()), UntypedValue::from_f64_bits(2.5_f64.to_bits())]
    );
}

#[test]
fn const_pool_deduplicates() {
    let mut consts = ConstPool::new();
    let a = consts.alloc_const(UntypedValue::from_i64(7)).unwrap();
    let b = consts.alloc_const(UntypedValue::from_i64(8)).unwrap();
    let c = consts.alloc_const(UntypedValue::from_i64(7)).unwrap();
    assert_eq!(a, ConstRef::from_u32(0));
    assert_eq!(b, ConstRef::from_u32(1));
    assert_eq!(c, a);
    assert_eq!(consts.len(), 2);
    assert_eq!(consts.get(a), Some(UntypedValue::from_i64(7)));
    assert_eq!(consts.get(ConstRef::from_u32(2)), None);
}

#[test]
fn operand_order_selects_the_instruction() {
    let mut t = translator(&[ValueType::I32], 1);
    run(&mut t, &[local(0), Operator::I32Const { value: 5 }, Operator::I32Sub]);
    let right = t.instrs()[0];
    let mut t = translator(&[ValueType::I32], 1);
    run(&mut t, &[Operator::I32Const { value: 5 }, local(0), Operator::I32Sub]);
    let left = t.instrs()[0];
    assert_eq!(right, Instruction::binary_imm16(BinaryOp::I32Sub, reg(1), reg(0), Const16::from_i16(5)));
    assert_eq!(left, Instruction::binary_imm16_rev(BinaryOp::I32Sub, reg(1), Const16::from_i16(5), reg(0)));
    assert_ne!(left, right);
    // with x = 12: x - 5 and 5 - x as the operator computes them
    let x = UntypedValue::from_i32(12);
    let five = UntypedValue::from_i32(5);
    assert_eq!(BinaryOp::I32Sub.eval(x, five), Ok(UntypedValue::from_i32(7)));
    assert_eq!(BinaryOp::I32Sub.eval(five, x), Ok(UntypedValue::from_i32(-7)));
    // a swapped comparison computes the comparison on swapped operands
    assert_eq!(BinaryOp::I32LtS.swapped(), BinaryOp::I32GtS);
    assert_eq!(BinaryOp::I32LtS.eval(five, x), BinaryOp::I32GtS.eval(x, five));
}

#[test]
fn intermediate_registers_follow_the_stack() {
    let mut t = translator(&[ValueType::I32], 2);
    let body = [
        local(0),
        local(1),
        Operator::I32Add,
        local(0),
        local(1),
        Operator::I32Mul,
        Operator::I32Sub,
        Operator::End,
    ];
    run(&mut t, &body);
    assert_eq!(
        t.instrs().as_slice(),
        [
            Instruction::binary(BinaryOp::I32Add, reg(2), reg(0), reg(1)),
            Instruction::binary(BinaryOp::I32Mul, reg(3), reg(0), reg(1)),
            Instruction::binary(BinaryOp::I32Sub, reg(2), reg(2), reg(3)),
            Instruction::return_reg(2),
        ]
    );
}

#[test]
fn eqz_is_the_equality_with_zero() {
    let mut t = translator(&[ValueType::I32], 1);
    run(&mut t, &[local(0), Operator::I32Eqz, Operator::End]);
    assert_eq!(
        t.instrs().as_slice(),
        [
            Instruction::binary_imm16(BinaryOp::I32Eq, reg(1), reg(0), Const16::from_i16(0)),
            Instruction::return_reg(1)
        ]
    );
    let mut t = translator(&[ValueType::I32], 0);
    run(&mut t, &[Operator::I64Const { value: 0 }, Operator::I64Eqz, Operator::End]);
    assert_eq!(t.instrs().as_slice(), [Instruction::ReturnImm32 { value: Const32::from_i32(1) }]);
}

#[test]
fn return_sequences() {
    let mut t = translator(&[], 0);
    run(&mut t, &[Operator::Return]);
    assert_eq!(t.instrs().as_slice(), [Instruction::Return]);

    let mut t = translator(&[ValueType::I64], 0);
    run(&mut t, &[Operator::I64Const { value: i64::from(i32::MIN) }, Operator::Return]);
    assert_eq!(
        t.instrs().as_slice(),
        [Instruction::ReturnI64Imm32 { value: Const32::from_i32(i32::MIN) }]
    );

    let mut t = translator(&[ValueType::I64], 0);
    run(&mut t, &[Operator::I64Const { value: i64::from(i32::MIN) - 1 }, Operator::Return]);
    assert_eq!(t.instrs().as_slice(), [Instruction::ReturnImm { value: ConstRef::from_u32(0) }]);
    assert_eq!(pool(t.consts()), [UntypedValue::from_i64(i64::from(i32::MIN) - 1)]);

    let mut t = translator(&[ValueType::F32], 0);
    run(&mut t, &[f32c(1.0), Operator::Return]);
    assert_eq!(
        t.instrs().as_slice(),
        [Instruction::ReturnImm32 { value: Const32::from_f32_bits(0x3f80_0000) }]
    );

    let mut t = translator(&[ValueType::F64], 1);
    run(&mut t, &[local(0), Operator::Return]);
    assert_eq!(t.instrs().as_slice(), [Instruction::return_reg(0)]);
}

#[test]
fn unsupported_result_types_have_no_translator() {
    assert!(FuncTranslator::new(vec![ValueType::I32, ValueType::I32], 0).is_none());
    assert!(FuncTranslator::new(vec![ValueType::FuncRef], 0).is_none());
    assert!(FuncTranslator::new(vec![ValueType::ExternRef], 0).is_none());
    assert!(FuncTranslator::new(vec![], 0).is_some());
}

#[test]
fn unreachable_code_is_skipped() {
    let mut t = translator(&[ValueType::I32], 1);
    run(&mut t, &[local(0), Operator::I32Const { value: 0 }, Operator::I32RemU]);
    assert!(!t.is_reachable());
    let instrs = t.instrs().clone();
    let len = t.stack().len();
    // none of these finds operands on the stack, and none looks for them
    let body = [
        Operator::I32Add,
        Operator::I32Eqz,
        Operator::F64Sqrt,
        Operator::I32Const { value: 1 },
        Operator::F64Const { bits: 1 },
        local(0),
        local(77),
        Operator::Return,
        Operator::End,
    ];
    for op in body {
        assert!(t.accepts(op));
        t.translate(op).unwrap();
        assert_eq!(t.instrs(), &instrs);
        assert_eq!(t.stack().len(), len);
        assert!(!t.is_reachable());
    }
    t.translate_trap(TrapCode::UnreachableCodeReached).unwrap();
    assert_eq!(t.instrs(), &instrs);
    t.set_reachable(true);
    run(&mut t, &[Operator::I32Const { value: 1 }, Operator::End]);
    assert_eq!(t.instrs().len(), instrs.len() + 1);
}

#[test]
fn local_index_out_of_bounds() {
    let mut t = translator(&[], 2);
    assert!(t.translate(local(1)).is_ok());
    let error = t.translate(local(2)).unwrap_err();
    assert!(matches!(error.inner(), TranslationErrorInner::LocalIndexOutOfBounds));
    assert_eq!(error.message(), "local variable index is out of bounds for wasmi bytecode");
    assert_eq!(t.stack().len(), 1);
}

#[test]
fn register_out_of_bounds() {
    let mut t = translator(&[], u16::MAX);
    run(&mut t, &[local(0), local(1), Operator::I32Add]);
    assert_eq!(t.stack().peek(), Provider::Register(reg(u16::MAX)));
    run(&mut t, &[local(0), local(1)]);
    let error = t.translate(Operator::I32Add).unwrap_err();
    assert!(matches!(error.inner(), TranslationErrorInner::RegisterOutOfBounds));
    assert_eq!(error.message(), "register index is out of bounds for wasmi bytecode");
}

#[test]
fn const_ref_out_of_bounds() {
    let mut t = FuncTranslator::with_parts(
        vec![ValueType::F64],
        1,
        InstrEncoder::new(),
        ConstPool::with_capacity(1),
    )
    .unwrap();
    run(&mut t, &[local(0), f64c(1.5), Operator::F64Add, f64c(1.5), Operator::F64Add]);
    run(&mut t, &[f64c(2.5)]);
    let error = t.translate(Operator::F64Add).unwrap_err();
    assert!(matches!(error.inner(), TranslationErrorInner::ConstRefOutOfBounds));
    assert_eq!(error.message(), "constant pool index is out of bounds for wasmi bytecode");

    let mut t = FuncTranslator::with_parts(
        vec![ValueType::F64],
        0,
        InstrEncoder::new(),
        ConstPool::with_capacity(0),
    )
    .unwrap();
    run(&mut t, &[f64c(1.5)]);
    let error = t.translate(Operator::End).unwrap_err();
    assert!(matches!(error.inner(), TranslationErrorInner::ConstRefOutOfBounds));
}

#[test]
fn instr_out_of_bounds() {
    let mut t = FuncTranslator::with_parts(
        vec![ValueType::I32],
        2,
        InstrEncoder::with_limit(1),
        ConstPool::new(),
    )
    .unwrap();
    run(&mut t, &[local(0), local(1), Operator::I32Add]);
    let error = t.translate(Operator::End).unwrap_err();
    assert!(matches!(error.inner(), TranslationErrorInner::InstrOutOfBounds));
    assert_eq!(error.message(), "instruction index is out of bounds for wasmi bytecode");

    // the immediate of an instruction needs room too
    let mut t = FuncTranslator::with_parts(
        vec![ValueType::I32],
        1,
        InstrEncoder::with_limit(1),
        ConstPool::new(),
    )
    .unwrap();
    run(&mut t, &[local(0), Operator::I32Const { value: 100_000 }]);
    let error = t.translate(Operator::I32Add).unwrap_err();
    assert!(matches!(error.inner(), TranslationErrorInner::InstrOutOfBounds));

    let mut t = FuncTranslator::with_parts(
        vec![ValueType::I32],
        0,
        InstrEncoder::with_limit(0),
        ConstPool::new(),
    )
    .unwrap();
    let error = t.translate_trap(TrapCode::UnreachableCodeReached).unwrap_err();
    assert!(matches!(error.inner(), TranslationErrorInner::InstrOutOfBounds));
}

#[test]
fn operators_without_translation_end_it() {
    let mut t = translator(&[ValueType::I32], 1);
    run(&mut t, &[local(0)]);
    for (op, name) in [
        (Operator::Nop, "Nop"),
        (Operator::Unreachable, "Unreachable"),
        (Operator::F32Lt, "F32Lt"),
        (Operator::I32TruncSatF64U, "I32TruncSatF64U"),
        (Operator::TableSize, "TableSize"),
        (Operator::I64Load32U, "I64Load32U"),
    ] {
        assert!(!op.is_implemented());
        assert_eq!(op.name(), name);
        assert!(t.accepts(op));
        let error = t.translate(op).unwrap_err();
        match error.inner() {
            TranslationErrorInner::UnsupportedOperator(operator) => assert_eq!(operator, name),
            other => panic!("unexpected error {:?}", other),
        }
        assert_eq!(
            error.message(),
            format!("tried to translate an unsupported Wasm operator: {}", name)
        );
        assert!(t.instrs().is_empty());
        assert_eq!(t.stack().len(), 1);
    }
    assert!(Operator::I32Add.is_implemented());
    assert!(Operator::End.is_implemented());
}

#[test]
fn unsupported_operator_names_the_operator() {
    let t = translator(&[], 0);
    let error = t.unsupported_operator("V128Load").unwrap_err();
    assert_eq!(
        error.message(),
        "tried to translate an unsupported Wasm operator: V128Load"
    );
}

#[test]
fn accepts_counts_the_operands() {
    let mut t = translator(&[ValueType::I32], 1);
    assert!(!t.accepts(Operator::I32Add));
    assert!(!t.accepts(Operator::I32Eqz));
    assert!(!t.accepts(Operator::End));
    assert!(t.accepts(local(0)));
    run(&mut t, &[local(0)]);
    assert!(!t.accepts(Operator::I32Add));
    assert!(t.accepts(Operator::I32Eqz));
    assert!(t.accepts(Operator::I32Clz));
    assert!(t.accepts(Operator::End));
    run(&mut t, &[local(0)]);
    assert!(t.accepts(Operator::I32Add));
}

#[test]
fn value_stack_counts_its_registers() {
    let mut stack = ValueStack::new(2);
    assert!(stack.is_empty());
    stack.push_local(1).unwrap();
    assert!(stack.push_local(2).is_err());
    stack.push_const(UntypedValue::from_i32(7));
    assert_eq!(stack.push_dynamic().unwrap(), reg(2));
    assert_eq!(stack.push_dynamic().unwrap(), reg(3));
    assert_eq!(stack.len(), 4);
    assert_eq!(stack.peek2(), (Provider::Register(reg(2)), Provider::Register(reg(3))));
    assert_eq!(stack.pop(), Provider::Register(reg(3)));
    assert_eq!(stack.push_dynamic().unwrap(), reg(3));
    assert_eq!(stack.pop2(), (Provider::Register(reg(2)), Provider::Register(reg(3))));
    assert_eq!(stack.peek(), Provider::Const(UntypedValue::from_i32(7)));
    stack.push_register(reg(2));
    assert_eq!(stack.push_dynamic().unwrap(), reg(3));
    assert_eq!(stack.len_locals(), 2);
}

#[test]
fn instructions_are_only_appended() {
    let mut encoder = InstrEncoder::with_limit(2);
    assert_eq!(encoder.push_instr(Instruction::Return).unwrap().index, 0);
    assert_eq!(encoder.push_instr(Instruction::return_reg(3)).unwrap().index, 1);
    assert!(encoder.push_instr(Instruction::Return).is_err());
    assert_eq!(encoder.len(), 2);
    assert_eq!(encoder.instrs().as_slice(), [Instruction::Return, Instruction::return_reg(3)]);
    assert_eq!(encoder.into_instrs(), [Instruction::Return, Instruction::return_reg(3)]);
}
