//! What the emitted instructions compute, and that they compute what the
//! translated operators do.

use crate::bytecode::{BinaryOp, Const16, Const32, Instruction, Register, UnaryOp};
use crate::ops::OperandType;
use crate::plan::Plan;
use crate::stack::Provider;
use crate::translator::TranslatorView;
use crate::value::{TrapCode, UntypedValue, ValueType};
use vstd::prelude::*;

verus! {

/// The value that a 16-bit immediate stands for at the given type: a signed
/// type sign extends it, an unsigned type zero extends it.
pub open spec fn const16_value(ty: OperandType, imm: Const16) -> UntypedValue {
    match ty {
        OperandType::I32 => UntypedValue::from_i32(imm.to_i16() as i32),
        OperandType::I64 => UntypedValue::from_i64(imm.to_i16() as i64),
        _ => UntypedValue::from_u64(imm.to_u16() as u64),
    }
}

/// The value that a 32-bit immediate stands for at the given type: the signed
/// 64-bit type sign extends it, any other type zero extends it.
pub open spec fn const32_value(ty: OperandType, imm: Const32) -> UntypedValue {
    match ty {
        OperandType::I64 => UntypedValue::from_i64(imm.to_i32() as i64),
        _ => UntypedValue::from_u64(imm.to_u32() as u64),
    }
}

proof fn lemma_casts_32(a: u32)
    by (bit_vector)
    ensures
        (a as i32) as u32 == a,
        -0x8000 <= (a as i32) <= 0x7fff ==> ((((a as i32) as i16) as u16 as i16) as i32) as u32 == a,
{
}

proof fn lemma_casts_64(b: u64)
    by (bit_vector)
    ensures
        (b as i64) as u64 == b,
        -0x8000 <= (b as i64) <= 0x7fff ==> ((((b as i64) as i16) as u16 as i16) as i64) as u64 == b,
        -0x8000_0000 <= (b as i64) <= 0x7fff_ffff ==> ((((b as i64) as i32) as u32 as i32) as i64)
            as u64 == b,
        (b as u32) as i32 as u32 == (b as u32),
{
}

/// A 16-bit immediate stands for the value that was compressed into it.
pub proof fn lemma_const16_round_trip(ty: OperandType, value: UntypedValue)
    requires
        ty.try_const16(value) is Some,
    ensures
        const16_value(ty, ty.try_const16(value).unwrap()) == ty.canonical(value),
{
    lemma_casts_32(value.bits as u32);
    lemma_casts_64(value.bits);
}

/// A 32-bit immediate stands for the value that was compressed into it.
pub proof fn lemma_const32_round_trip(ty: OperandType, value: UntypedValue)
    requires
        ty.try_const32(value) is Some,
    ensures
        const32_value(ty, ty.try_const32(value).unwrap()) == ty.canonical(value),
{
    lemma_casts_32(value.bits as u32);
    lemma_casts_64(value.bits);
}

/// The value that a slot of the operand stack holds when the code runs with
/// the given registers.
pub open spec fn provider_value(
    provider: Provider,
    regs: spec_fn(Register) -> UntypedValue,
) -> UntypedValue {
    match provider {
        Provider::Register(register) => regs(register),
        Provider::Const(value) => value,
    }
}

/// What an instruction of a binary operator computes with the given registers,
/// where `param` is the immediate that the next instruction carries for it:
/// the result of the operator on its operands, each of which is the value of a
/// register or an immediate.
pub open spec fn binary_instr_result(
    instr: Instruction,
    param: UntypedValue,
    regs: spec_fn(Register) -> UntypedValue,
) -> Result<UntypedValue, TrapCode> {
    match instr {
        Instruction::Binary { op, lhs, rhs, .. } => op.spec_eval(regs(lhs), regs(rhs)),
        Instruction::BinaryImm { op, reg_in, .. } => op.spec_eval(regs(reg_in), param),
        Instruction::BinaryImmRev { op, reg_in, .. } => op.spec_eval(param, regs(reg_in)),
        Instruction::BinaryImm16 { op, reg_in, imm_in, .. } => op.spec_eval(
            regs(reg_in),
            const16_value(op.operand_type(), imm_in),
        ),
        Instruction::BinaryImm16Rev { op, imm_in, reg_in, .. } => op.spec_eval(
            const16_value(op.operand_type(), imm_in),
            regs(reg_in),
        ),
        _ => Err(TrapCode::UnreachableCodeReached),
    }
}

/// An operator reads its operands at its type: operands that are the same at
/// that type give the same result.
pub proof fn lemma_eval_reads_operand_type(
    op: BinaryOp,
    lhs: UntypedValue,
    rhs: UntypedValue,
    other_lhs: UntypedValue,
    other_rhs: UntypedValue,
)
    requires
        op.operand_type().canonical(lhs) == op.operand_type().canonical(other_lhs),
        op.operand_type().canonical(rhs) == op.operand_type().canonical(other_rhs),
    ensures
        op.spec_eval(lhs, rhs) == op.spec_eval(other_lhs, other_rhs),
{
    if op.operand_type().is_32() {
        assert(lhs.to_u32() == other_lhs.to_u32());
        assert(rhs.to_u32() == other_rhs.to_u32());
    }
}

/// A swapped comparison on swapped operands is the comparison.
pub proof fn lemma_swapped_comparison(op: BinaryOp, lhs: UntypedValue, rhs: UntypedValue)
    ensures
        op.is_ordering() ==> op.swapped().spec_eval(rhs, lhs) == op.spec_eval(lhs, rhs),
        op.swapped().operand_type() == op.operand_type(),
{
}

/// A shift or rotation by its operand is the shift or rotation by the number
/// of bits that the operand reduces to.
pub proof fn lemma_shift_by_amount(op: BinaryOp, lhs: UntypedValue, rhs: UntypedValue)
    requires
        op.template() is Shift,
    ensures
        op.spec_eval(lhs, const16_value(op.operand_type(), op.operand_type().shift_amount(rhs)))
            == op.spec_eval(lhs, rhs),
{
    let ty = op.operand_type();
    let amount = ty.shift_amount(rhs);
    let value = const16_value(ty, amount);
    if ty.is_32() {
        let n = crate::arith::i32_shift_amount(rhs);
        assert(n < 32);
        assert(amount.bits == n);
        lemma_casts_32(n);
        assert(crate::arith::i32_shift_amount(value) == n);
    } else {
        let n = crate::arith::i64_shift_amount(rhs);
        assert(n < 64);
        assert(amount.bits == n);
        lemma_casts_64(n);
        assert(crate::arith::i64_shift_amount(value) == n);
    }
}

/// What an operator on a register and a constant computes, where the constant
/// is the left operand if `imm_on_left` and else the right one.
pub open spec fn eval_with_imm(
    op: BinaryOp,
    reg_value: UntypedValue,
    imm: UntypedValue,
    imm_on_left: bool,
) -> Result<UntypedValue, TrapCode> {
    if imm_on_left {
        op.spec_eval(imm, reg_value)
    } else {
        op.spec_eval(reg_value, imm)
    }
}

/// The instruction with a 16-bit immediate computes the operator on the
/// register and the value of the immediate, in their order. For an operator
/// whose operands may be swapped the register comes first.
pub proof fn lemma_imm16_instr_computes_operator(
    op: BinaryOp,
    result: Register,
    reg: Register,
    imm16: Const16,
    imm_on_left: bool,
    regs: spec_fn(Register) -> UntypedValue,
    param: UntypedValue,
)
    ensures
        binary_instr_result(op.imm16_instr(result, reg, imm16, imm_on_left), param, regs)
            == eval_with_imm(
            op,
            regs(reg),
            const16_value(op.operand_type(), imm16),
            imm_on_left && !op.template().is_commutative(),
        ),
{
    let decoded = const16_value(op.operand_type(), imm16);
    lemma_swapped_comparison(op, decoded, regs(reg));
}

/// The instruction whose immediate the next instruction carries computes the
/// operator on the register and that immediate, in their order. For an
/// operator whose operands may be swapped the register comes first.
pub proof fn lemma_imm_instr_computes_operator(
    op: BinaryOp,
    result: Register,
    reg: Register,
    imm_on_left: bool,
    regs: spec_fn(Register) -> UntypedValue,
    param: UntypedValue,
)
    ensures
        binary_instr_result(op.imm_instr(result, reg, imm_on_left), param, regs) == eval_with_imm(
            op,
            regs(reg),
            param,
            imm_on_left && !op.template().is_commutative(),
        ),
{
    lemma_swapped_comparison(op, param, regs(reg));
}

/// The instruction that is emitted for an operator on a register and a
/// constant computes the operator on the value of the register and the
/// constant in their order, whichever form and encoding was chosen for it. For
/// an operator whose operands may be swapped the register comes first.
///
/// The value of the register is taken from `regs`. An instruction whose
/// immediate the next instruction carries computes the operator for every
/// immediate `param` that is the constant at the type of the operator.
pub proof fn lemma_emitted_instruction_computes_operator(
    op: BinaryOp,
    reg: Register,
    imm: UntypedValue,
    imm_on_left: bool,
    result: Register,
    regs: spec_fn(Register) -> UntypedValue,
    param: UntypedValue,
)
    ensures
        op.plan_imm(reg, imm, imm_on_left, result) matches Plan::Emit(instr)
            ==> binary_instr_result(instr, param, regs) == eval_with_imm(
            op,
            regs(reg),
            imm,
            imm_on_left && !op.template().is_commutative(),
        ),
        op.plan_imm(reg, imm, imm_on_left, result) matches Plan::EmitImm(instr, ty, value) ==> {
            &&& ty == op.operand_type()
            &&& value == imm
            &&& ty.canonical(param) == ty.canonical(imm) ==> binary_instr_result(
                instr,
                param,
                regs,
            ) == eval_with_imm(
                op,
                regs(reg),
                imm,
                imm_on_left && !op.template().is_commutative(),
            )
        },
{
    let ty = op.operand_type();
    let x = regs(reg);
    let on_left = imm_on_left && !op.template().is_commutative();
    match op.plan_imm(reg, imm, imm_on_left, result) {
        Plan::Emit(instr) => {
            if op.template() is Shift && !imm_on_left {
                lemma_shift_by_amount(op, x, imm);
            } else {
                let imm16 = ty.try_const16(imm).unwrap();
                let decoded = const16_value(ty, imm16);
                assert(instr == op.imm16_instr(result, reg, imm16, imm_on_left));
                lemma_imm16_instr_computes_operator(op, result, reg, imm16, imm_on_left, regs, param);
                lemma_const16_round_trip(ty, imm);
                lemma_eval_reads_operand_type(op, x, decoded, x, imm);
                lemma_eval_reads_operand_type(op, decoded, x, imm, x);
            }
        },
        Plan::EmitImm(instr, _, _) => {
            assert(instr == op.imm_instr(result, reg, imm_on_left));
            lemma_imm_instr_computes_operator(op, result, reg, imm_on_left, regs, param);
            if ty.canonical(param) == ty.canonical(imm) {
                lemma_eval_reads_operand_type(op, x, param, x, imm);
                lemma_eval_reads_operand_type(op, param, x, imm, x);
            }
        },
        _ => {},
    }
}

/// The instruction that is emitted for an operator on two registers computes
/// the operator on the values of the registers.
pub proof fn lemma_emitted_register_instruction_computes_operator(
    op: BinaryOp,
    lhs: Register,
    rhs: Register,
    result: Register,
    regs: spec_fn(Register) -> UntypedValue,
    param: UntypedValue,
)
    ensures
        op.plan_reg_reg(lhs, rhs, result) matches Plan::Emit(instr) ==> binary_instr_result(
            instr,
            param,
            regs,
        ) == op.spec_eval(regs(lhs), regs(rhs)),
{
}

proof fn lemma_bits_32(a: u32, b: u32)
    by (bit_vector)
    ensures
        a & b == b & a,
        a | b == b | a,
        a ^ b == b ^ a,
        a & a == a,
        a | a == a,
        a ^ a == 0,
        a & 0 == 0,
        a | 0 == a,
        a ^ 0 == a,
        a & 0xffff_ffff == a,
        a | 0xffff_ffff == 0xffff_ffff,
        (a as i32) == -1i32 <==> a == 0xffff_ffff,
        (a as i32) == 0i32 <==> a == 0,
        (a as i32) == 1i32 <==> a == 1,
{
}

proof fn lemma_bits_64(a: u64, b: u64)
    by (bit_vector)
    ensures
        a & b == b & a,
        a | b == b | a,
        a ^ b == b ^ a,
        a & a == a,
        a | a == a,
        a ^ a == 0,
        a & 0 == 0,
        a | 0 == a,
        a ^ 0 == a,
        a & 0xffff_ffff_ffff_ffff == a,
        a | 0xffff_ffff_ffff_ffff == 0xffff_ffff_ffff_ffff,
        (a as i64) == -1i64 <==> a == 0xffff_ffff_ffff_ffff,
        (a as i64) == 0i64 <==> a == 0,
        (a as i64) == 1i64 <==> a == 1,
{
}

proof fn lemma_shifts_32(a: u32, k: u32)
    by (bit_vector)
    requires
        k < 32,
    ensures
        a << 0u32 == a,
        a >> 0u32 == a,
        (a as i32) >> 0u32 == (a as i32),
        0u32 << k == 0,
        0u32 >> k == 0,
        0i32 >> k == 0,
        (-1i32) >> k == -1i32,
        0 < k ==> (0xffff_ffffu32 << k) | (0xffff_ffffu32 >> ((32 - k) as u32)) == 0xffff_ffffu32,
        0 < k ==> (0xffff_ffffu32 >> k) | (0xffff_ffffu32 << ((32 - k) as u32)) == 0xffff_ffffu32,
        0 < k ==> (0u32 << k) | (0u32 >> ((32 - k) as u32)) == 0u32,
        0 < k ==> (0u32 >> k) | (0u32 << ((32 - k) as u32)) == 0u32,
{
}

proof fn lemma_shifts_64(a: u64, k: u64)
    by (bit_vector)
    requires
        k < 64,
    ensures
        a << 0u64 == a,
        a >> 0u64 == a,
        (a as i64) >> 0u64 == (a as i64),
        0u64 << k == 0,
        0u64 >> k == 0,
        0i64 >> k == 0,
        (-1i64) >> k == -1i64,
        0 < k ==> (0xffff_ffff_ffff_ffffu64 << k) | (0xffff_ffff_ffff_ffffu64 >> ((64 - k) as u64))
            == 0xffff_ffff_ffff_ffffu64,
        0 < k ==> (0xffff_ffff_ffff_ffffu64 >> k) | (0xffff_ffff_ffff_ffffu64 << ((64 - k) as u64))
            == 0xffff_ffff_ffff_ffffu64,
        0 < k ==> (0u64 << k) | (0u64 >> ((64 - k) as u64)) == 0u64,
        0 < k ==> (0u64 >> k) | (0u64 << ((64 - k) as u64)) == 0u64,
{
}

/// Whether the operator computes on integers.
pub open spec fn is_integer_op(op: BinaryOp) -> bool {
    !(op.operand_type() is F32) && !(op.operand_type() is F64)
}

/// The operands of an integer operator whose operands may be swapped, and
/// those of a float equality or inequality, may be swapped indeed.
pub proof fn lemma_commutative_eval(op: BinaryOp, lhs: UntypedValue, rhs: UntypedValue)
    requires
        op.template().is_commutative(),
        is_integer_op(op) || op is F32Eq || op is F32Ne || op is F64Eq || op is F64Ne,
    ensures
        op.spec_eval(lhs, rhs) == op.spec_eval(rhs, lhs),
{
    lemma_bits_32(lhs.to_u32(), rhs.to_u32());
    lemma_bits_64(lhs.to_u64(), rhs.to_u64());
    assert(lhs.to_i32() * rhs.to_i32() == rhs.to_i32() * lhs.to_i32()) by (nonlinear_arith);
    assert(lhs.to_i64() * rhs.to_i64() == rhs.to_i64() * lhs.to_i64()) by (nonlinear_arith);
}

/// The value that a rewrite stands for when the register operand holds
/// `reg_value`: the constant, or the value of the register as the type of the
/// operator holds it.
pub open spec fn rewrite_value(
    op: BinaryOp,
    rewrite: crate::ops::Rewrite,
    reg_value: UntypedValue,
) -> UntypedValue {
    match rewrite {
        crate::ops::Rewrite::Operand => op.operand_type().canonical(reg_value),
        crate::ops::Rewrite::Const(value) => value,
    }
}

/// The identities of the integer operators for equal registers are sound: the
/// operator on twice the same value is what the identity says it is. The one
/// exception is kept from the division and the remainder of zero by itself,
/// which trap though the identity gives a value.
pub proof fn lemma_same_register_rule_is_sound(op: BinaryOp, value: UntypedValue)
    requires
        is_integer_op(op),
        op.same_register_rule() is Some,
        !(op.template() is DivRem && op.operand_type().is_zero(value)),
    ensures
        op.spec_eval(value, value) == Ok::<UntypedValue, TrapCode>(
            rewrite_value(op, op.same_register_rule().unwrap(), value),
        ),
{
    lemma_bits_32(value.to_u32(), value.to_u32());
    lemma_bits_64(value.to_u64(), value.to_u64());
    lemma_casts_32(value.to_u32());
    lemma_casts_64(value.to_u64());
    if op.template() is DivRem {
        let s32 = value.to_i32() as int;
        let s64 = value.to_i64() as int;
        let u32v = value.to_u32() as int;
        let u64v = value.to_u64() as int;
        if s32 != 0 {
            vstd::arithmetic::div_mod::lemma_div_by_self(if s32 > 0 { s32 } else { -s32 });
            vstd::arithmetic::div_mod::lemma_mod_self_0(if s32 > 0 { s32 } else { -s32 });
        }
        if s64 != 0 {
            vstd::arithmetic::div_mod::lemma_div_by_self(if s64 > 0 { s64 } else { -s64 });
            vstd::arithmetic::div_mod::lemma_mod_self_0(if s64 > 0 { s64 } else { -s64 });
        }
        if u32v != 0 {
            vstd::arithmetic::div_mod::lemma_div_by_self(u32v);
            vstd::arithmetic::div_mod::lemma_mod_self_0(u32v);
        }
        if u64v != 0 {
            vstd::arithmetic::div_mod::lemma_div_by_self(u64v);
            vstd::arithmetic::div_mod::lemma_mod_self_0(u64v);
        }
    }
}

proof fn lemma_comparison_imm_rule_is_sound(
    op: BinaryOp,
    reg_value: UntypedValue,
    imm: UntypedValue,
    imm_on_left: bool,
)
    requires
        is_integer_op(op),
        op.is_ordering(),
        op.imm_rule(imm, imm_on_left) is Some,
    ensures
        eval_with_imm(op, reg_value, imm, imm_on_left) == Ok::<UntypedValue, TrapCode>(
            rewrite_value(op, op.imm_rule(imm, imm_on_left).unwrap(), reg_value),
        ),
{
}

proof fn lemma_commutative_imm_rule_is_sound(
    op: BinaryOp,
    reg_value: UntypedValue,
    imm: UntypedValue,
    imm_on_left: bool,
)
    requires
        is_integer_op(op),
        op.template() is BinaryCommutative,
        op.imm_rule(imm, imm_on_left) is Some,
    ensures
        eval_with_imm(op, reg_value, imm, imm_on_left) == Ok::<UntypedValue, TrapCode>(
            rewrite_value(op, op.imm_rule(imm, imm_on_left).unwrap(), reg_value),
        ),
{
    lemma_commutative_eval(op, reg_value, imm);
    if op.operand_type().is_32() {
        let x = reg_value.to_i32() as int;
        lemma_bits_32(reg_value.to_u32(), imm.to_u32());
        lemma_bits_32(imm.to_u32(), reg_value.to_u32());
        lemma_casts_32(reg_value.to_u32());
        lemma_casts_32(imm.to_u32());
        assert(x * 0 == 0 && x * 1 == x);
    } else {
        let x = reg_value.to_i64() as int;
        lemma_bits_64(reg_value.to_u64(), imm.to_u64());
        lemma_bits_64(imm.to_u64(), reg_value.to_u64());
        lemma_casts_64(reg_value.to_u64());
        lemma_casts_64(imm.to_u64());
        assert(x * 0 == 0 && x * 1 == x);
    }
}

proof fn lemma_sub_imm_rule_is_sound(
    op: BinaryOp,
    reg_value: UntypedValue,
    imm: UntypedValue,
    imm_on_left: bool,
)
    requires
        op is I32Sub || op is I64Sub,
        op.imm_rule(imm, imm_on_left) is Some,
    ensures
        eval_with_imm(op, reg_value, imm, imm_on_left) == Ok::<UntypedValue, TrapCode>(
            rewrite_value(op, op.imm_rule(imm, imm_on_left).unwrap(), reg_value),
        ),
{
    lemma_casts_32(reg_value.to_u32());
    lemma_casts_64(reg_value.to_u64());
}

proof fn lemma_divrem_imm_rule_is_sound(
    op: BinaryOp,
    reg_value: UntypedValue,
    imm: UntypedValue,
    imm_on_left: bool,
)
    requires
        op.template() is DivRem,
        op.imm_rule(imm, imm_on_left) is Some,
    ensures
        eval_with_imm(op, reg_value, imm, imm_on_left) == Ok::<UntypedValue, TrapCode>(
            rewrite_value(op, op.imm_rule(imm, imm_on_left).unwrap(), reg_value),
        ),
{
    if op.operand_type().is_32() {
        let signed = reg_value.to_i32() as int;
        let magnitude = if signed >= 0 {
            signed
        } else {
            -signed
        };
        lemma_bits_32(imm.to_u32(), imm.to_u32());
        lemma_casts_32(reg_value.to_u32());
        vstd::arithmetic::div_mod::lemma_div_basics(magnitude);
        vstd::arithmetic::div_mod::lemma_div_basics(reg_value.to_u32() as int);
        vstd::arithmetic::div_mod::lemma_mod_bound(magnitude, 1);
        vstd::arithmetic::div_mod::lemma_mod_bound(reg_value.to_u32() as int, 1);
    } else {
        let signed = reg_value.to_i64() as int;
        let magnitude = if signed >= 0 {
            signed
        } else {
            -signed
        };
        lemma_bits_64(imm.to_u64(), imm.to_u64());
        lemma_casts_64(reg_value.to_u64());
        vstd::arithmetic::div_mod::lemma_div_basics(magnitude);
        vstd::arithmetic::div_mod::lemma_div_basics(reg_value.to_u64() as int);
        vstd::arithmetic::div_mod::lemma_mod_bound(magnitude, 1);
        vstd::arithmetic::div_mod::lemma_mod_bound(reg_value.to_u64() as int, 1);
    }
}

proof fn lemma_shift_imm_rule_is_sound(
    op: BinaryOp,
    reg_value: UntypedValue,
    imm: UntypedValue,
    imm_on_left: bool,
)
    requires
        op.template() is Shift,
        op.imm_rule(imm, imm_on_left) is Some,
    ensures
        eval_with_imm(op, reg_value, imm, imm_on_left) == Ok::<UntypedValue, TrapCode>(
            rewrite_value(op, op.imm_rule(imm, imm_on_left).unwrap(), reg_value),
        ),
{
    if op.operand_type().is_32() {
        lemma_bits_32(imm.to_u32(), imm.to_u32());
        lemma_casts_32(imm.to_u32());
        lemma_shifts_32(imm.to_u32(), crate::arith::i32_shift_amount(reg_value));
    } else {
        lemma_bits_64(imm.to_u64(), imm.to_u64());
        lemma_casts_64(imm.to_u64());
        lemma_shifts_64(imm.to_u64(), crate::arith::i64_shift_amount(reg_value));
    }
}

/// The identities of the integer operators for a constant operand are sound:
/// the operator on any value and the constant, in their order, is what the
/// identity says it is.
pub proof fn lemma_imm_rule_is_sound(
    op: BinaryOp,
    reg_value: UntypedValue,
    imm: UntypedValue,
    imm_on_left: bool,
)
    requires
        is_integer_op(op),
        op.imm_rule(imm, imm_on_left) is Some,
    ensures
        eval_with_imm(op, reg_value, imm, imm_on_left) == Ok::<UntypedValue, TrapCode>(
            rewrite_value(op, op.imm_rule(imm, imm_on_left).unwrap(), reg_value),
        ),
{
    if op.is_ordering() {
        lemma_comparison_imm_rule_is_sound(op, reg_value, imm, imm_on_left);
    } else if op.template() is BinaryCommutative {
        lemma_commutative_imm_rule_is_sound(op, reg_value, imm, imm_on_left);
    } else if op.template() is DivRem {
        lemma_divrem_imm_rule_is_sound(op, reg_value, imm, imm_on_left);
    } else if op.template() is Shift {
        lemma_shift_imm_rule_is_sound(op, reg_value, imm, imm_on_left);
    } else {
        lemma_sub_imm_rule_is_sound(op, reg_value, imm, imm_on_left);
    }
}

/// The identities of a shift or rotation by a constant number of bits and of a
/// shifted or rotated zero are sound: moving by zero bits changes nothing, and
/// moving zero gives zero.
pub proof fn lemma_shift_identities_are_sound(op: BinaryOp, lhs: UntypedValue, rhs: UntypedValue)
    requires
        op.template() is Shift,
    ensures
        op.operand_type().shift_amount(rhs).bits == 0 ==> op.spec_eval(lhs, rhs) == Ok::<
            UntypedValue,
            TrapCode,
        >(op.operand_type().canonical(lhs)),
        op.operand_type().is_zero(lhs) ==> op.spec_eval(lhs, rhs) == Ok::<UntypedValue, TrapCode>(
            op.operand_type().canonical(lhs),
        ),
{
    lemma_shifts_32(lhs.to_u32(), crate::arith::i32_shift_amount(rhs));
    lemma_shifts_64(lhs.to_u64(), crate::arith::i64_shift_amount(rhs));
    lemma_casts_32(lhs.to_u32());
    lemma_casts_64(lhs.to_u64());
    lemma_bits_32(lhs.to_u32(), lhs.to_u32());
    lemma_bits_64(lhs.to_u64(), lhs.to_u64());
}

/// The identities of the float equality and inequality for equal registers are
/// sound but for NaN: a value that is not NaN is equal to itself.
pub proof fn lemma_float_same_register_rule_is_sound(op: BinaryOp, value: UntypedValue)
    requires
        op is F32Eq || op is F32Ne || op is F64Eq || op is F64Ne,
        !op.operand_type().is_nan(value),
    ensures
        op.spec_eval(value, value) == Ok::<UntypedValue, TrapCode>(
            rewrite_value(op, op.same_register_rule().unwrap(), value),
        ),
{
}

/// The sign copy of a value to itself is that value.
pub proof fn lemma_copysign_same_register_rule_is_sound(op: BinaryOp, value: UntypedValue)
    requires
        op is F32Copysign || op is F64Copysign,
    ensures
        op.spec_eval(value, value) == Ok::<UntypedValue, TrapCode>(
            rewrite_value(op, op.same_register_rule().unwrap(), value),
        ),
{
}

/// A value is never equal to a NaN and always unequal to it, in either order.
pub proof fn lemma_nan_comparison_is_sound(lhs: UntypedValue, rhs: UntypedValue)
    ensures
        crate::float::f32_is_nan(lhs.to_f32_bits()) || crate::float::f32_is_nan(rhs.to_f32_bits())
            ==> BinaryOp::F32Eq.spec_eval(lhs, rhs) == Ok::<UntypedValue, TrapCode>(
            UntypedValue::from_bool(false),
        ) && BinaryOp::F32Ne.spec_eval(lhs, rhs) == Ok::<UntypedValue, TrapCode>(
            UntypedValue::from_bool(true),
        ),
        crate::float::f64_is_nan(lhs.to_f64_bits()) || crate::float::f64_is_nan(rhs.to_f64_bits())
            ==> BinaryOp::F64Eq.spec_eval(lhs, rhs) == Ok::<UntypedValue, TrapCode>(
            UntypedValue::from_bool(false),
        ) && BinaryOp::F64Ne.spec_eval(lhs, rhs) == Ok::<UntypedValue, TrapCode>(
            UntypedValue::from_bool(true),
        ),
{
}

/// The immediate that the instruction `param` carries for an operator of the
/// given type: the value of its 32-bit immediate, or the constant in the pool
/// slot that it refers to.
pub open spec fn param_value(
    param: Instruction,
    ty: OperandType,
    pool: Seq<UntypedValue>,
) -> UntypedValue {
    match param {
        Instruction::Const32(imm) => const32_value(ty, imm),
        Instruction::ConstRef(cref) => pool[cref.index as int],
        _ => UntypedValue { bits: 0 },
    }
}

/// The instruction that carries an immediate carries the constant that was
/// encoded, as the type of the operator holds it.
pub proof fn lemma_param_carries_immediate(pre: TranslatorView, ty: OperandType, imm: UntypedValue)
    requires
        pre.consts.wf(),
        pre.can_encode_imm(ty, imm),
    ensures
        ty.canonical(
            param_value(pre.imm_param(ty, imm), ty, pre.encode_imm(ty, imm).consts.values),
        ) == ty.canonical(imm),
{
    if ty.try_const32(imm) is Some {
        lemma_const32_round_trip(ty, imm);
    } else {
        crate::consts::lemma_interned_slot(pre.consts, imm);
    }
}

/// Translation keeps the meaning of the integer operators: whatever the
/// translation of an integer operator on two operands amounts to, it is what
/// executing the operator on the values of the operands gives.
///
/// The values of registers are taken from `regs`. A constant or register that
/// replaces the operator is its result. A trap that replaces it is the trap
/// that it raises. An emitted instruction computes its result, where `param`
/// is the immediate that the next instruction carries for it, if one does. The
/// one exception is the division or remainder of a register by itself, which
/// is replaced by a constant though it traps if the register holds zero.
pub proof fn lemma_integer_translation_is_sound(
    op: BinaryOp,
    lhs: Provider,
    rhs: Provider,
    result: Register,
    regs: spec_fn(Register) -> UntypedValue,
    param: UntypedValue,
)
    requires
        is_integer_op(op),
        !(op.template() is DivRem && lhs is Register && lhs == rhs && op.operand_type().is_zero(
            provider_value(lhs, regs),
        )),
    ensures
        ({
            let expected = op.spec_eval(provider_value(lhs, regs), provider_value(rhs, regs));
            match op.plan(lhs, rhs, result) {
                Plan::Push(Provider::Const(value)) => expected == Ok::<UntypedValue, TrapCode>(
                    value,
                ),
                Plan::Push(Provider::Register(register)) => expected == Ok::<
                    UntypedValue,
                    TrapCode,
                >(op.operand_type().canonical(regs(register))),
                Plan::Fold(value, precision) => expected == Ok::<UntypedValue, TrapCode>(value)
                    && precision is Exact,
                Plan::Trap(code) => expected == Err::<UntypedValue, TrapCode>(code),
                Plan::Emit(instr) => binary_instr_result(instr, param, regs) == expected,
                Plan::EmitImm(instr, ty, imm) => ty.canonical(param) == ty.canonical(imm)
                    ==> binary_instr_result(instr, param, regs) == expected,
            }
        }),
{
    let ty = op.operand_type();
    match (lhs, rhs) {
        (Provider::Const(a), Provider::Const(b)) => {},
        (Provider::Register(l), Provider::Register(r)) => {
            if l == r && op.same_register_rule() is Some {
                lemma_same_register_rule_is_sound(op, regs(l));
            }
        },
        (Provider::Register(reg), Provider::Const(imm)) => {
            lemma_emitted_instruction_computes_operator(op, reg, imm, false, result, regs, param);
            if op.template() is Shift {
                lemma_shift_identities_are_sound(op, regs(reg), imm);
            }
            if op.imm_rule(imm, false) is Some {
                lemma_imm_rule_is_sound(op, regs(reg), imm, false);
            }
        },
        (Provider::Const(imm), Provider::Register(reg)) => {
            lemma_emitted_instruction_computes_operator(op, reg, imm, true, result, regs, param);
            if op.template().is_commutative() {
                lemma_commutative_eval(op, regs(reg), imm);
            }
            if op.template() is Shift {
                lemma_shift_identities_are_sound(op, imm, regs(reg));
            }
            if op.imm_rule(imm, true) is Some {
                lemma_imm_rule_is_sound(op, regs(reg), imm, true);
            }
        },
    }
}

/// What an instruction of a unary operator computes with the given registers:
/// the result of the operator on the value of its register.
pub open spec fn unary_instr_result(
    instr: Instruction,
    regs: spec_fn(Register) -> UntypedValue,
) -> UntypedValue {
    match instr {
        Instruction::Unary { op, input, .. } => op.spec_eval(regs(input)),
        _ => UntypedValue { bits: 0 },
    }
}

/// Translation keeps the meaning of the unary operators: a folded constant is
/// the result of the operator on the constant, and an emitted instruction
/// computes the operator on the value of the register.
pub proof fn lemma_unary_translation_is_sound(
    op: UnaryOp,
    input: Provider,
    result: Register,
    regs: spec_fn(Register) -> UntypedValue,
)
    ensures
        match op.plan(input, result) {
            Plan::Fold(value, precision) => value == op.spec_eval(provider_value(input, regs))
                && precision == op.precision(),
            Plan::Emit(instr) => unary_instr_result(instr, regs) == op.spec_eval(
                provider_value(input, regs),
            ),
            _ => false,
        },
{
}

/// The value as a result of the given type holds it: a 32-bit value has its
/// high half cleared.
pub open spec fn result_canonical(ty: ValueType, value: UntypedValue) -> UntypedValue {
    match ty {
        ValueType::I32 | ValueType::F32 => UntypedValue::from_u32(value.to_u32()),
        _ => value,
    }
}

/// The value that a return instruction hands out when the code runs with the
/// given registers and pooled constants.
pub open spec fn returned_value(
    instr: Instruction,
    pool: Seq<UntypedValue>,
    regs: spec_fn(Register) -> UntypedValue,
) -> UntypedValue {
    match instr {
        Instruction::ReturnReg { value } => regs(value),
        Instruction::ReturnImm32 { value } => UntypedValue::from_u32(value.to_u32()),
        Instruction::ReturnI64Imm32 { value } => UntypedValue::from_i64(value.to_i32() as i64),
        Instruction::ReturnImm { value } => pool[value.index as int],
        _ => UntypedValue { bits: 0 },
    }
}

/// The return instruction of a function with one result hands out the value of
/// the top stack slot, as the result type holds it.
pub proof fn lemma_return_hands_out_result(
    pre: TranslatorView,
    regs: spec_fn(Register) -> UntypedValue,
)
    requires
        pre.results.len() == 1,
        pre.results[0].is_num(),
        pre.stack.len() >= 1,
        pre.consts.wf(),
        pre.return_failure() is None,
    ensures
        result_canonical(
            pre.results[0],
            returned_value(pre.return_instr(), pre.returned().consts.values, regs),
        ) == result_canonical(pre.results[0], provider_value(pre.stack.peek(0), regs)),
{
    match pre.stack.peek(0) {
        Provider::Register(_) => {},
        Provider::Const(value) => {
            lemma_casts_32(value.to_u32());
            lemma_casts_64(value.to_u64());
            if pre.results[0] is I64 && OperandType::I64.try_const32(value) is Some {
                lemma_const32_round_trip(OperandType::I64, value);
            }
            if pre.return_pooled() is Some {
                crate::consts::lemma_interned_slot(pre.drop(1).consts, value);
            }
        },
    }
}

} // verus!
