//! What the translation of an operator amounts to, decided from the operator
//! and its operands alone.
//!
//! A [`Plan`] is the outcome of the translation templates: the constant
//! that folds the operator, the register that an identity forwards, the trap
//! that the operator is known to raise, or the instruction to emit in the
//! narrowest encoding that holds its operands.

use crate::bytecode::{BinaryOp, Const16, Instruction, Register, UnaryOp};
use crate::ops::{OperandType, Precision, Rewrite, Template};
use crate::stack::Provider;
use crate::value::{TrapCode, UntypedValue};
use vstd::prelude::*;

verus! {

/// What translating one operator does.
pub enum Plan {
    /// Nothing is emitted. The operator is replaced by the given slot: a
    /// constant, or a register that an operand lives in.
    Push(Provider),
    /// Nothing is emitted. The operator is replaced by the constant that
    /// evaluating it gave, which is the given value as closely as the
    /// precision says.
    Fold(UntypedValue, Precision),
    /// The operator is replaced by an unconditional trap, and the code after
    /// it is unreachable.
    Trap(TrapCode),
    /// A result register is acquired and the instruction, which writes to it,
    /// is emitted.
    Emit(Instruction),
    /// A result register is acquired and the instruction, which writes to it,
    /// is emitted, followed by the instruction that carries the immediate
    /// operand of the given type.
    EmitImm(Instruction, OperandType, UntypedValue),
}

impl Rewrite {
    /// The slot that the rewrite stands for when `operand` is the register
    /// operand.
    pub open spec fn spec_provider(self, operand: Register) -> Provider {
        match self {
            Rewrite::Operand => Provider::Register(operand),
            Rewrite::Const(value) => Provider::Const(value),
        }
    }

    /// Makes the slot that the rewrite stands for.
    #[verifier::when_used_as_spec(spec_provider)]
    pub fn provider(self, operand: Register) -> (res: Provider)
        ensures
            res == self.spec_provider(operand),
    {
        match self {
            Rewrite::Operand => Provider::Register(operand),
            Rewrite::Const(value) => Provider::Const(value),
        }
    }
}

impl Template {
    /// Whether the operands of the operators of this template may be
    /// swapped.
    pub open spec fn spec_is_commutative(self) -> bool {
        self is BinaryCommutative || self is FBinaryCommutative
    }

    /// Tells whether the operands may be swapped.
    #[verifier::when_used_as_spec(spec_is_commutative)]
    pub fn is_commutative(self) -> (res: bool)
        ensures
            res == self.spec_is_commutative(),
    {
        match self {
            Template::BinaryCommutative | Template::FBinaryCommutative => true,
            _ => false,
        }
    }

    /// Whether a NaN operand makes the result of the operators of this
    /// template a NaN.
    pub open spec fn spec_propagates_nan(self) -> bool {
        self is FBinary || self is FBinaryCommutative
    }

    /// Tells whether a NaN operand makes the result a NaN.
    #[verifier::when_used_as_spec(spec_propagates_nan)]
    pub fn propagates_nan(self) -> (res: bool)
        ensures
            res == self.spec_propagates_nan(),
    {
        match self {
            Template::FBinary | Template::FBinaryCommutative => true,
            _ => false,
        }
    }
}

impl BinaryOp {
    /// The instruction for the operator on a register and a 16-bit
    /// immediate, which is the left operand if `imm_on_left` and else the
    /// right one.
    ///
    /// With the immediate on the right this is the plain 16-bit form. With
    /// it on the left, an operator whose operands may be swapped keeps that
    /// form, an ordering comparison becomes the swapped comparison in that
    /// form, and any other operator takes the reversed form.
    pub open spec fn spec_imm16_instr(
        self,
        result: Register,
        reg_in: Register,
        imm_in: Const16,
        imm_on_left: bool,
    ) -> Instruction {
        if !imm_on_left || self.template().is_commutative() {
            Instruction::binary_imm16(self, result, reg_in, imm_in)
        } else if self.is_ordering() {
            Instruction::binary_imm16(self.swapped(), result, reg_in, imm_in)
        } else {
            Instruction::binary_imm16_rev(self, result, imm_in, reg_in)
        }
    }

    /// Makes the instruction for the operator on a register and a 16-bit
    /// immediate.
    #[verifier::when_used_as_spec(spec_imm16_instr)]
    pub fn imm16_instr(
        self,
        result: Register,
        reg_in: Register,
        imm_in: Const16,
        imm_on_left: bool,
    ) -> (res: Instruction)
        ensures
            res == self.spec_imm16_instr(result, reg_in, imm_in, imm_on_left),
    {
        if !imm_on_left || self.template().is_commutative() {
            Instruction::binary_imm16(self, result, reg_in, imm_in)
        } else if self.is_ordering() {
            Instruction::binary_imm16(self.swapped(), result, reg_in, imm_in)
        } else {
            Instruction::binary_imm16_rev(self, result, imm_in, reg_in)
        }
    }

    /// The instruction for the operator on a register and an immediate that
    /// the next instruction carries, which is the left operand if
    /// `imm_on_left` and else the right one.
    ///
    /// The form is chosen as [`BinaryOp::spec_imm16_instr`] chooses it.
    pub open spec fn spec_imm_instr(
        self,
        result: Register,
        reg_in: Register,
        imm_on_left: bool,
    ) -> Instruction {
        if !imm_on_left || self.template().is_commutative() {
            Instruction::binary_imm(self, result, reg_in)
        } else if self.is_ordering() {
            Instruction::binary_imm(self.swapped(), result, reg_in)
        } else {
            Instruction::binary_imm_rev(self, result, reg_in)
        }
    }

    /// Makes the instruction for the operator on a register and an immediate
    /// that the next instruction carries.
    #[verifier::when_used_as_spec(spec_imm_instr)]
    pub fn imm_instr(self, result: Register, reg_in: Register, imm_on_left: bool) -> (res:
        Instruction)
        ensures
            res == self.spec_imm_instr(result, reg_in, imm_on_left),
    {
        if !imm_on_left || self.template().is_commutative() {
            Instruction::binary_imm(self, result, reg_in)
        } else if self.is_ordering() {
            Instruction::binary_imm(self.swapped(), result, reg_in)
        } else {
            Instruction::binary_imm_rev(self, result, reg_in)
        }
    }

    /// The identity that simplifies the operator on a register and the
    /// constant `imm`, which is the left operand if `imm_on_left` and else
    /// the right one.
    pub open spec fn spec_imm_rule(self, imm: UntypedValue, imm_on_left: bool) -> Option<Rewrite> {
        if imm_on_left && !self.template().is_commutative() {
            self.imm_reg_rule(imm)
        } else {
            self.reg_imm_rule(imm)
        }
    }

    /// Looks up the identity that simplifies the operator on a register and
    /// a constant.
    #[verifier::when_used_as_spec(spec_imm_rule)]
    pub fn imm_rule(self, imm: UntypedValue, imm_on_left: bool) -> (res: Option<Rewrite>)
        ensures
            res == self.spec_imm_rule(imm, imm_on_left),
    {
        if imm_on_left && !self.template().is_commutative() {
            self.imm_reg_rule(imm)
        } else {
            self.reg_imm_rule(imm)
        }
    }

    /// The plan for the operator on two constants: the constant that it
    /// evaluates to, or the trap that it raises.
    pub open spec fn plan_const_const(self, lhs: UntypedValue, rhs: UntypedValue) -> Plan {
        match self.spec_eval(lhs, rhs) {
            Ok(value) => Plan::Fold(value, self.precision()),
            Err(code) => Plan::Trap(code),
        }
    }

    /// The plan for the operator on two registers: what its identity for
    /// equal registers says if the registers are equal, else the instruction
    /// on two registers.
    pub open spec fn plan_reg_reg(self, lhs: Register, rhs: Register, result: Register) -> Plan {
        match self.same_register_rule() {
            Some(rewrite) if lhs == rhs => Plan::Push(rewrite.provider(lhs)),
            _ => Plan::Emit(Instruction::binary(self, result, lhs, rhs)),
        }
    }

    /// The plan for the operator on a register and the constant `imm`, which
    /// is the left operand if `imm_on_left` and else the right one.
    ///
    /// The first of these that applies decides:
    /// - a shift by a constant moves by that constant modulo the width: by
    ///   zero bits it is the shifted register, else it is the instruction
    ///   with the number of bits as 16-bit immediate;
    /// - a division or remainder by the constant zero is a trap;
    /// - an identity of the operator for the constant is applied;
    /// - a shift of the constant zero is zero;
    /// - a float operator that propagates NaN is the constant if that is NaN;
    /// - a constant that fits 16 bits goes into the 16-bit form;
    /// - any other constant is carried by the next instruction.
    pub open spec fn plan_imm(
        self,
        reg: Register,
        imm: UntypedValue,
        imm_on_left: bool,
        result: Register,
    ) -> Plan {
        let ty = self.operand_type();
        let template = self.template();
        if template is Shift && !imm_on_left {
            let amount = ty.shift_amount(imm);
            if amount.bits == 0 {
                Plan::Push(Provider::Register(reg))
            } else {
                Plan::Emit(Instruction::binary_imm16(self, result, reg, amount))
            }
        } else if template is DivRem && !imm_on_left && ty.is_zero(imm) {
            Plan::Trap(TrapCode::IntegerDivisionByZero)
        } else if self.imm_rule(imm, imm_on_left) is Some {
            Plan::Push(self.imm_rule(imm, imm_on_left).unwrap().provider(reg))
        } else if template is Shift && ty.is_zero(imm) {
            Plan::Push(Provider::Const(ty.canonical(imm)))
        } else if template.propagates_nan() && ty.is_nan(imm) {
            Plan::Push(Provider::Const(ty.canonical(imm)))
        } else if ty.try_const16(imm) is Some {
            Plan::Emit(self.imm16_instr(result, reg, ty.try_const16(imm).unwrap(), imm_on_left))
        } else {
            Plan::EmitImm(self.imm_instr(result, reg, imm_on_left), ty, imm)
        }
    }

    /// The plan for the operator on the two given operands, the result going
    /// to `result` if an instruction is emitted.
    pub open spec fn plan(self, lhs: Provider, rhs: Provider, result: Register) -> Plan {
        match (lhs, rhs) {
            (Provider::Const(lhs), Provider::Const(rhs)) => self.plan_const_const(lhs, rhs),
            (Provider::Register(lhs), Provider::Register(rhs)) => self.plan_reg_reg(
                lhs,
                rhs,
                result,
            ),
            (Provider::Register(lhs), Provider::Const(rhs)) => self.plan_imm(
                lhs,
                rhs,
                false,
                result,
            ),
            (Provider::Const(lhs), Provider::Register(rhs)) => self.plan_imm(
                rhs,
                lhs,
                true,
                result,
            ),
        }
    }
}

impl UnaryOp {
    /// The plan for the operator on the given operand, the result going to
    /// `result` if an instruction is emitted: a constant is folded, a
    /// register gives the instruction.
    pub open spec fn plan(self, input: Provider, result: Register) -> Plan {
        match input {
            Provider::Const(value) => Plan::Fold(self.spec_eval(value), self.precision()),
            Provider::Register(input) => Plan::Emit(Instruction::unary(self, result, input)),
        }
    }
}

} // verus!
