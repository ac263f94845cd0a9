//! The handlers of the Wasm operators, one per operator, and the dispatch
//! from an operator to its handler.

use crate::bytecode::{BinaryOp, Const32, Instruction, UnaryOp};
use crate::error::{TranslationError, TranslationErrorInner};
use crate::operator::{Action, Operator};
use crate::ops::OperandType;
use crate::stack::Provider;
use crate::translator::{outcome, FuncTranslator, TranslatorView};
use crate::value::{UntypedValue, ValueType};
use vstd::prelude::*;

verus! {

impl TranslatorView {
    /// The constant that a return puts into the pool, if it puts one: a
    /// constant `i64` result that no 32-bit immediate holds, or a constant
    /// `f64` result.
    pub open spec fn return_pooled(self) -> Option<UntypedValue> {
        if self.results.len() == 0 {
            None
        } else {
            match self.stack.peek(0) {
                Provider::Register(_) => None,
                Provider::Const(value) => match self.results[0] {
                    ValueType::I32 | ValueType::F32 => None,
                    ValueType::I64 => if OperandType::I64.try_const32(value) is Some {
                        None
                    } else {
                        Some(value)
                    },
                    _ => Some(value),
                },
            }
        }
    }

    /// The instruction that a return emits.
    ///
    /// A function without results returns nothing. Else the top slot is the
    /// result. A register is returned as it is. A constant `i32` or `f32` is
    /// returned as 32-bit immediate, a constant `i64` in the range of `i32`
    /// as the 32-bit immediate that sign extends to it, and any other
    /// constant by the reference to its slot in the pool.
    pub open spec fn return_instr(self) -> Instruction {
        if self.results.len() == 0 {
            Instruction::Return
        } else {
            match self.stack.peek(0) {
                Provider::Register(value) => Instruction::ReturnReg { value },
                Provider::Const(value) => match self.results[0] {
                    ValueType::I32 => Instruction::ReturnImm32 {
                        value: Const32::from_i32(value.to_i32()),
                    },
                    ValueType::F32 => Instruction::ReturnImm32 {
                        value: Const32::from_f32_bits(value.to_f32_bits()),
                    },
                    ValueType::I64 => match OperandType::I64.try_const32(value) {
                        Some(imm) => Instruction::ReturnI64Imm32 { value: imm },
                        None => Instruction::ReturnImm { value: self.consts.slot(value) },
                    },
                    _ => Instruction::ReturnImm { value: self.consts.slot(value) },
                },
            }
        }
    }

    /// The error that a return fails with, if it fails: the pool cannot hold
    /// the constant that the return puts into it, or else no instruction can
    /// be emitted.
    pub open spec fn return_failure(self) -> Option<TranslationErrorInner> {
        if self.return_pooled() is Some && !self.consts.can_intern(self.return_pooled().unwrap()) {
            Some(TranslationErrorInner::ConstRefOutOfBounds)
        } else if !self.instrs.has_room(1) {
            Some(TranslationErrorInner::InstrOutOfBounds)
        } else {
            None
        }
    }

    /// The state after a return: the result, if the function has one, is
    /// popped, its constant pooled where the return pools it, and the return
    /// instruction emitted.
    pub open spec fn returned(self) -> TranslatorView {
        let base = self.drop(self.results.len());
        let pooled = match self.return_pooled() {
            Some(value) => TranslatorView { consts: base.consts.interned(value), ..base },
            None => base,
        };
        pooled.emit(self.return_instr())
    }

    /// Whether translating a return in this state may end in the state
    /// `post` with the error `error`. Unreachable code is skipped.
    pub open spec fn return_step(
        self,
        post: TranslatorView,
        error: Option<TranslationErrorInner>,
    ) -> bool {
        if !self.reachable {
            post == self && error is None
        } else {
            error == self.return_failure() && (error is None ==> post == self.returned())
        }
    }

    /// Whether translating `local.get` of the local variable with the given
    /// index in this state may end in the state `post` with the error
    /// `error`.
    ///
    /// Unreachable code is skipped. Else the register of the local variable
    /// is pushed; there is an error if the function has no such local
    /// variable.
    pub open spec fn local_get_step(
        self,
        local_index: u32,
        post: TranslatorView,
        error: Option<TranslationErrorInner>,
    ) -> bool {
        if !self.reachable {
            post == self && error is None
        } else if local_index < self.stack.len_locals {
            post == self.push(
                Provider::Register(crate::bytecode::Register { index: local_index as u16 }),
            ) && error is None
        } else {
            error == Some(TranslationErrorInner::LocalIndexOutOfBounds)
        }
    }

    /// The state after a constant operator: the constant is pushed, unless
    /// the code is unreachable.
    pub open spec fn const_pushed(self, value: UntypedValue) -> TranslatorView {
        if self.reachable {
            self.push(Provider::Const(value))
        } else {
            self
        }
    }

    /// Whether translating a test for zero in this state may end in the
    /// state `post` with the error `error`, where `eq` is the equality of
    /// the tested type.
    ///
    /// Unreachable code is skipped. Else the test is the equality with the
    /// constant zero as right operand.
    pub open spec fn eqz_step(
        self,
        eq: BinaryOp,
        post: TranslatorView,
        error: Option<TranslationErrorInner>,
    ) -> bool {
        if !self.reachable {
            post == self && error is None
        } else {
            self.push(Provider::Const(UntypedValue { bits: 0 })).binary_step(eq, post, error)
        }
    }

    /// Whether the operand stack holds the operands of `op`. In unreachable
    /// code every operator is accepted.
    pub open spec fn accepts(self, op: Operator) -> bool {
        self.reachable ==> self.stack.len() >= op.action().spec_pops(self.results.len())
    }

    /// Whether translating `op` in this state may end in the state `post`
    /// with the error `error`.
    pub open spec fn operator_step(
        self,
        op: Operator,
        post: TranslatorView,
        error: Option<TranslationErrorInner>,
    ) -> bool {
        match op.action() {
            Action::Return => self.return_step(post, error),
            Action::LocalGet(local_index) => self.local_get_step(local_index, post, error),
            Action::Const(value) => post == self.const_pushed(value) && error is None,
            Action::Eqz(eq) => self.eqz_step(eq, post, error),
            Action::Unary(op) => self.unary_step(op, post, error),
            Action::Binary(op) => self.binary_step(op, post, error),
            Action::Unsupported => {
                &&& post == self
                &&& error matches Some(TranslationErrorInner::UnsupportedOperator(name))
                &&& name@ == op.spec_name()
            },
        }
    }
}

impl FuncTranslator {
    /// Translates the end of the function: the implicit return.
    pub fn visit_end(&mut self) -> (res: Result<(), TranslationError>)
        requires
            old(self).wf(),
            old(self)@.reachable ==> old(self)@.stack.len() >= old(self)@.results.len(),
        ensures
            final(self).wf(),
            old(self)@.return_step(final(self)@, outcome(res)),
    {
        self.visit_return()
    }

    /// Translates `return`.
    ///
    /// The return instruction is chosen by the result types of the function
    /// and by where the result lives: see [`TranslatorView::return_instr`].
    pub fn visit_return(&mut self) -> (res: Result<(), TranslationError>)
        requires
            old(self).wf(),
            old(self)@.reachable ==> old(self)@.stack.len() >= old(self)@.results.len(),
        ensures
            final(self).wf(),
            old(self)@.return_step(final(self)@, outcome(res)),
    {
        if !self.is_reachable() {
            return Ok(());
        }
        proof {
            self.lemma_wf();
        }
        let instr = if self.results().len() == 0 {
            proof {
                assert(self@.stack.providers.take(self@.stack.providers.len() as int)
                    == self@.stack.providers);
                assert(self@.drop(0) == self@);
            }
            // The function returns nothing, so does every return.
            Instruction::Return
        } else {
            let ty = self.results()[0];
            match self.pop() {
                Provider::Register(value) => Instruction::ReturnReg { value },
                Provider::Const(value) => match ty {
                    ValueType::I32 => Instruction::ReturnImm32 {
                        value: Const32::from_i32(value.to_i32()),
                    },
                    ValueType::F32 => Instruction::ReturnImm32 {
                        value: Const32::from_f32_bits(value.to_f32_bits()),
                    },
                    ValueType::I64 => match OperandType::I64.try_const32(value) {
                        Some(imm) => Instruction::ReturnI64Imm32 { value: imm },
                        None => match self.alloc_const(value) {
                            Ok(cref) => Instruction::ReturnImm { value: cref },
                            Err(error) => {
                                return Err(error);
                            },
                        },
                    },
                    _ => match self.alloc_const(value) {
                        Ok(cref) => Instruction::ReturnImm { value: cref },
                        Err(error) => {
                            return Err(error);
                        },
                    },
                },
            }
        };
        self.push_instr(instr)
    }

    /// Translates `local.get`.
    pub fn visit_local_get(&mut self, local_index: u32) -> (res: Result<(), TranslationError>)
        requires
            old(self).wf(),
        ensures
            final(self).wf(),
            old(self)@.local_get_step(local_index, final(self)@, outcome(res)),
    {
        if !self.is_reachable() {
            return Ok(());
        }
        self.push_local(local_index)
    }

    /// Translates `i32.const`: pushes an `i32` constant.
    pub fn visit_i32_const(&mut self, value: i32) -> (res: Result<(), TranslationError>)
        requires
            old(self).wf(),
        ensures
            final(self).wf(),
            res is Ok,
            final(self)@ == old(self)@.const_pushed(UntypedValue::from_i32(value)),
    {
        if !self.is_reachable() {
            return Ok(());
        }
        self.push_const(UntypedValue::from_i32(value));
        Ok(())
    }

    /// Translates `i64.const`: pushes an `i64` constant.
    pub fn visit_i64_const(&mut self, value: i64) -> (res: Result<(), TranslationError>)
        requires
            old(self).wf(),
        ensures
            final(self).wf(),
            res is Ok,
            final(self)@ == old(self)@.const_pushed(UntypedValue::from_i64(value)),
    {
        if !self.is_reachable() {
            return Ok(());
        }
        self.push_const(UntypedValue::from_i64(value));
        Ok(())
    }

    /// Translates `f32.const`: pushes an `f32` constant, given by its bit pattern.
    pub fn visit_f32_const(&mut self, bits: u32) -> (res: Result<(), TranslationError>)
        requires
            old(self).wf(),
        ensures
            final(self).wf(),
            res is Ok,
            final(self)@ == old(self)@.const_pushed(UntypedValue::from_f32_bits(bits)),
    {
        if !self.is_reachable() {
            return Ok(());
        }
        self.push_const(UntypedValue::from_f32_bits(bits));
        Ok(())
    }

    /// Translates `f64.const`: pushes an `f64` constant, given by its bit pattern.
    pub fn visit_f64_const(&mut self, bits: u64) -> (res: Result<(), TranslationError>)
        requires
            old(self).wf(),
        ensures
            final(self).wf(),
            res is Ok,
            final(self)@ == old(self)@.const_pushed(UntypedValue::from_f64_bits(bits)),
    {
        if !self.is_reachable() {
            return Ok(());
        }
        self.push_const(UntypedValue::from_f64_bits(bits));
        Ok(())
    }

    /// Translates `i32.eqz` as `i32.eq` with zero.
    pub fn visit_i32_eqz(&mut self) -> (res: Result<(), TranslationError>)
        requires
            old(self).wf(),
            old(self)@.reachable ==> old(self)@.stack.len() >= 1,
        ensures
            final(self).wf(),
            old(self)@.eqz_step(BinaryOp::I32Eq, final(self)@, outcome(res)),
    {
        if !self.is_reachable() {
            return Ok(());
        }
        // With a zero on the stack the test is the equality with it.
        self.push_const(UntypedValue::from_i32(0));
        self.visit_i32_eq()
    }

    /// Translates `i64.eqz` as `i64.eq` with zero.
    pub fn visit_i64_eqz(&mut self) -> (res: Result<(), TranslationError>)
        requires
            old(self).wf(),
            old(self)@.reachable ==> old(self)@.stack.len() >= 1,
        ensures
            final(self).wf(),
            old(self)@.eqz_step(BinaryOp::I64Eq, final(self)@, outcome(res)),
    {
        if !self.is_reachable() {
            return Ok(());
        }
        // With a zero on the stack the test is the equality with it.
        self.push_const(UntypedValue::from_i64(0));
        self.visit_i64_eq()
    }

    /// Translates `i32.eq`.
    pub fn visit_i32_eq(&mut self) -> (res: Result<(), TranslationError>)
        requires
            old(self).wf(),
            old(self)@.reachable ==> old(self)@.stack.len() >= 2,
        ensures
            final(self).wf(),
            old(self)@.binary_step(BinaryOp::I32Eq, final(self)@, outcome(res)),
    {
        self.translate_binary_commutative(BinaryOp::I32Eq)
    }

    /// Translates `i32.ne`.
    pub fn visit_i32_ne(&mut self) -> (res: Result<(), TranslationError>)
        requires
            old(self).wf(),
            old(self)@.reachable ==> old(self)@.stack.len() >= 2,
        ensures
            final(self).wf(),
            old(self)@.binary_step(BinaryOp::I32Ne, final(self)@, outcome(res)),
    {
        self.translate_binary_commutative(BinaryOp::I32Ne)
    }

    /// Translates `i32.lt_s`.
    pub fn visit_i32_lt_s(&mut self) -> (res: Result<(), TranslationError>)
        requires
            old(self).wf(),
            old(self)@.reachable ==> old(self)@.stack.len() >= 2,
        ensures
            final(self).wf(),
            old(self)@.binary_step(BinaryOp::I32LtS, final(self)@, outcome(res)),
    {
        self.translate_binary(BinaryOp::I32LtS)
    }

    /// Translates `i32.lt_u`.
    pub fn visit_i32_lt_u(&mut self) -> (res: Result<(), TranslationError>)
        requires
            old(self).wf(),
            old(self)@.reachable ==> old(self)@.stack.len() >= 2,
        ensures
            final(self).wf(),
            old(self)@.binary_step(BinaryOp::I32LtU, final(self)@, outcome(res)),
    {
        self.translate_binary(BinaryOp::I32LtU)
    }

    /// Translates `i32.gt_s`.
    pub fn visit_i32_gt_s(&mut self) -> (res: Result<(), TranslationError>)
        requires
            old(self).wf(),
            old(self)@.reachable ==> old(self)@.stack.len() >= 2,
        ensures
            final(self).wf(),
            old(self)@.binary_step(BinaryOp::I32GtS, final(self)@, outcome(res)),
    {
        self.translate_binary(BinaryOp::I32GtS)
    }

    /// Translates `i32.gt_u`.
    pub fn visit_i32_gt_u(&mut self) -> (res: Result<(), TranslationError>)
        requires
            old(self).wf(),
            old(self)@.reachable ==> old(self)@.stack.len() >= 2,
        ensures
            final(self).wf(),
            old(self)@.binary_step(BinaryOp::I32GtU, final(self)@, outcome(res)),
    {
        self.translate_binary(BinaryOp::I32GtU)
    }

    /// Translates `i32.le_s`.
    pub fn visit_i32_le_s(&mut self) -> (res: Result<(), TranslationError>)
        requires
            old(self).wf(),
            old(self)@.reachable ==> old(self)@.stack.len() >= 2,
        ensures
            final(self).wf(),
            old(self)@.binary_step(BinaryOp::I32LeS, final(self)@, outcome(res)),
    {
        self.translate_binary(BinaryOp::I32LeS)
    }

    /// Translates `i32.le_u`.
    pub fn visit_i32_le_u(&mut self) -> (res: Result<(), TranslationError>)
        requires
            old(self).wf(),
            old(self)@.reachable ==> old(self)@.stack.len() >= 2,
        ensures
            final(self).wf(),
            old(self)@.binary_step(BinaryOp::I32LeU, final(self)@, outcome(res)),
    {
        self.translate_binary(BinaryOp::I32LeU)
    }

    /// Translates `i32.ge_s`.
    pub fn visit_i32_ge_s(&mut self) -> (res: Result<(), TranslationError>)
        requires
            old(self).wf(),
            old(self)@.reachable ==> old(self)@.stack.len() >= 2,
        ensures
            final(self).wf(),
            old(self)@.binary_step(BinaryOp::I32GeS, final(self)@, outcome(res)),
    {
        self.translate_binary(BinaryOp::I32GeS)
    }

    /// Translates `i32.ge_u`.
    pub fn visit_i32_ge_u(&mut self) -> (res: Result<(), TranslationError>)
        requires
            old(self).wf(),
            old(self)@.reachable ==> old(self)@.stack.len() >= 2,
        ensures
            final(self).wf(),
            old(self)@.binary_step(BinaryOp::I32GeU, final(self)@, outcome(res)),
    {
        self.translate_binary(BinaryOp::I32GeU)
    }

    /// Translates `i64.eq`.
    pub fn visit_i64_eq(&mut self) -> (res: Result<(), TranslationError>)
        requires
            old(self).wf(),
            old(self)@.reachable ==> old(self)@.stack.len() >= 2,
        ensures
            final(self).wf(),
            old(self)@.binary_step(BinaryOp::I64Eq, final(self)@, outcome(res)),
    {
        self.translate_binary_commutative(BinaryOp::I64Eq)
    }

    /// Translates `i64.ne`.
    pub fn visit_i64_ne(&mut self) -> (res: Result<(), TranslationError>)
        requires
            old(self).wf(),
            old(self)@.reachable ==> old(self)@.stack.len() >= 2,
        ensures
            final(self).wf(),
            old(self)@.binary_step(BinaryOp::I64Ne, final(self)@, outcome(res)),
    {
        self.translate_binary_commutative(BinaryOp::I64Ne)
    }

    /// Translates `i64.lt_s`.
    pub fn visit_i64_lt_s(&mut self) -> (res: Result<(), TranslationError>)
        requires
            old(self).wf(),
            old(self)@.reachable ==> old(self)@.stack.len() >= 2,
        ensures
            final(self).wf(),
            old(self)@.binary_step(BinaryOp::I64LtS, final(self)@, outcome(res)),
    {
        self.translate_binary(BinaryOp::I64LtS)
    }

    /// Translates `i64.lt_u`.
    pub fn visit_i64_lt_u(&mut self) -> (res: Result<(), TranslationError>)
        requires
            old(self).wf(),
            old(self)@.reachable ==> old(self)@.stack.len() >= 2,
        ensures
            final(self).wf(),
            old(self)@.binary_step(BinaryOp::I64LtU, final(self)@, outcome(res)),
    {
        self.translate_binary(BinaryOp::I64LtU)
    }

    /// Translates `i64.gt_s`.
    pub fn visit_i64_gt_s(&mut self) -> (res: Result<(), TranslationError>)
        requires
            old(self).wf(),
            old(self)@.reachable ==> old(self)@.stack.len() >= 2,
        ensures
            final(self).wf(),
            old(self)@.binary_step(BinaryOp::I64GtS, final(self)@, outcome(res)),
    {
        self.translate_binary(BinaryOp::I64GtS)
    }

    /// Translates `i64.gt_u`.
    pub fn visit_i64_gt_u(&mut self) -> (res: Result<(), TranslationError>)
        requires
            old(self).wf(),
            old(self)@.reachable ==> old(self)@.stack.len() >= 2,
        ensures
            final(self).wf(),
            old(self)@.binary_step(BinaryOp::I64GtU, final(self)@, outcome(res)),
    {
        self.translate_binary(BinaryOp::I64GtU)
    }

    /// Translates `i64.le_s`.
    pub fn visit_i64_le_s(&mut self) -> (res: Result<(), TranslationError>)
        requires
            old(self).wf(),
            old(self)@.reachable ==> old(self)@.stack.len() >= 2,
        ensures
            final(self).wf(),
            old(self)@.binary_step(BinaryOp::I64LeS, final(self)@, outcome(res)),
    {
        self.translate_binary(BinaryOp::I64LeS)
    }

    /// Translates `i64.le_u`.
    pub fn visit_i64_le_u(&mut self) -> (res: Result<(), TranslationError>)
        requires
            old(self).wf(),
            old(self)@.reachable ==> old(self)@.stack.len() >= 2,
        ensures
            final(self).wf(),
            old(self)@.binary_step(BinaryOp::I64LeU, final(self)@, outcome(res)),
    {
        self.translate_binary(BinaryOp::I64LeU)
    }

    /// Translates `i64.ge_s`.
    pub fn visit_i64_ge_s(&mut self) -> (res: Result<(), TranslationError>)
        requires
            old(self).wf(),
            old(self)@.reachable ==> old(self)@.stack.len() >= 2,
        ensures
            final(self).wf(),
            old(self)@.binary_step(BinaryOp::I64GeS, final(self)@, outcome(res)),
    {
        self.translate_binary(BinaryOp::I64GeS)
    }

    /// Translates `i64.ge_u`.
    pub fn visit_i64_ge_u(&mut self) -> (res: Result<(), TranslationError>)
        requires
            old(self).wf(),
            old(self)@.reachable ==> old(self)@.stack.len() >= 2,
        ensures
            final(self).wf(),
            old(self)@.binary_step(BinaryOp::I64GeU, final(self)@, outcome(res)),
    {
        self.translate_binary(BinaryOp::I64GeU)
    }

    /// Translates `f32.eq`.
    pub fn visit_f32_eq(&mut self) -> (res: Result<(), TranslationError>)
        requires
            old(self).wf(),
            old(self)@.reachable ==> old(self)@.stack.len() >= 2,
        ensures
            final(self).wf(),
            old(self)@.binary_step(BinaryOp::F32Eq, final(self)@, outcome(res)),
    {
        self.translate_fbinary_commutative(BinaryOp::F32Eq)
    }

    /// Translates `f32.ne`.
    pub fn visit_f32_ne(&mut self) -> (res: Result<(), TranslationError>)
        requires
            old(self).wf(),
            old(self)@.reachable ==> old(self)@.stack.len() >= 2,
        ensures
            final(self).wf(),
            old(self)@.binary_step(BinaryOp::F32Ne, final(self)@, outcome(res)),
    {
        self.translate_fbinary_commutative(BinaryOp::F32Ne)
    }

    /// Translates `f64.eq`.
    pub fn visit_f64_eq(&mut self) -> (res: Result<(), TranslationError>)
        requires
            old(self).wf(),
            old(self)@.reachable ==> old(self)@.stack.len() >= 2,
        ensures
            final(self).wf(),
            old(self)@.binary_step(BinaryOp::F64Eq, final(self)@, outcome(res)),
    {
        self.translate_fbinary_commutative(BinaryOp::F64Eq)
    }

    /// Translates `f64.ne`.
    pub fn visit_f64_ne(&mut self) -> (res: Result<(), TranslationError>)
        requires
            old(self).wf(),
            old(self)@.reachable ==> old(self)@.stack.len() >= 2,
        ensures
            final(self).wf(),
            old(self)@.binary_step(BinaryOp::F64Ne, final(self)@, outcome(res)),
    {
        self.translate_fbinary_commutative(BinaryOp::F64Ne)
    }

    /// Translates `i32.clz`.
    pub fn visit_i32_clz(&mut self) -> (res: Result<(), TranslationError>)
        requires
            old(self).wf(),
            old(self)@.reachable ==> old(self)@.stack.len() >= 1,
        ensures
            final(self).wf(),
            old(self)@.unary_step(UnaryOp::I32Clz, final(self)@, outcome(res)),
    {
        self.translate_unary(UnaryOp::I32Clz)
    }

    /// Translates `i32.ctz`.
    pub fn visit_i32_ctz(&mut self) -> (res: Result<(), TranslationError>)
        requires
            old(self).wf(),
            old(self)@.reachable ==> old(self)@.stack.len() >= 1,
        ensures
            final(self).wf(),
            old(self)@.unary_step(UnaryOp::I32Ctz, final(self)@, outcome(res)),
    {
        self.translate_unary(UnaryOp::I32Ctz)
    }

    /// Translates `i32.popcnt`.
    pub fn visit_i32_popcnt(&mut self) -> (res: Result<(), TranslationError>)
        requires
            old(self).wf(),
            old(self)@.reachable ==> old(self)@.stack.len() >= 1,
        ensures
            final(self).wf(),
            old(self)@.unary_step(UnaryOp::I32Popcnt, final(self)@, outcome(res)),
    {
        self.translate_unary(UnaryOp::I32Popcnt)
    }

    /// Translates `i32.add`.
    pub fn visit_i32_add(&mut self) -> (res: Result<(), TranslationError>)
        requires
            old(self).wf(),
            old(self)@.reachable ==> old(self)@.stack.len() >= 2,
        ensures
            final(self).wf(),
            old(self)@.binary_step(BinaryOp::I32Add, final(self)@, outcome(res)),
    {
        self.translate_binary_commutative(BinaryOp::I32Add)
    }

    /// Translates `i32.sub`.
    pub fn visit_i32_sub(&mut self) -> (res: Result<(), TranslationError>)
        requires
            old(self).wf(),
            old(self)@.reachable ==> old(self)@.stack.len() >= 2,
        ensures
            final(self).wf(),
            old(self)@.binary_step(BinaryOp::I32Sub, final(self)@, outcome(res)),
    {
        self.translate_binary(BinaryOp::I32Sub)
    }

    /// Translates `i32.mul`.
    pub fn visit_i32_mul(&mut self) -> (res: Result<(), TranslationError>)
        requires
            old(self).wf(),
            old(self)@.reachable ==> old(self)@.stack.len() >= 2,
        ensures
            final(self).wf(),
            old(self)@.binary_step(BinaryOp::I32Mul, final(self)@, outcome(res)),
    {
        self.translate_binary_commutative(BinaryOp::I32Mul)
    }

    /// Translates `i32.div_s`.
    pub fn visit_i32_div_s(&mut self) -> (res: Result<(), TranslationError>)
        requires
            old(self).wf(),
            old(self)@.reachable ==> old(self)@.stack.len() >= 2,
        ensures
            final(self).wf(),
            old(self)@.binary_step(BinaryOp::I32DivS, final(self)@, outcome(res)),
    {
        self.translate_divrem(BinaryOp::I32DivS)
    }

    /// Translates `i32.div_u`.
    pub fn visit_i32_div_u(&mut self) -> (res: Result<(), TranslationError>)
        requires
            old(self).wf(),
            old(self)@.reachable ==> old(self)@.stack.len() >= 2,
        ensures
            final(self).wf(),
            old(self)@.binary_step(BinaryOp::I32DivU, final(self)@, outcome(res)),
    {
        self.translate_divrem(BinaryOp::I32DivU)
    }

    /// Translates `i32.rem_s`.
    pub fn visit_i32_rem_s(&mut self) -> (res: Result<(), TranslationError>)
        requires
            old(self).wf(),
            old(self)@.reachable ==> old(self)@.stack.len() >= 2,
        ensures
            final(self).wf(),
            old(self)@.binary_step(BinaryOp::I32RemS, final(self)@, outcome(res)),
    {
        self.translate_divrem(BinaryOp::I32RemS)
    }

    /// Translates `i32.rem_u`.
    pub fn visit_i32_rem_u(&mut self) -> (res: Result<(), TranslationError>)
        requires
            old(self).wf(),
            old(self)@.reachable ==> old(self)@.stack.len() >= 2,
        ensures
            final(self).wf(),
            old(self)@.binary_step(BinaryOp::I32RemU, final(self)@, outcome(res)),
    {
        self.translate_divrem(BinaryOp::I32RemU)
    }

    /// Translates `i32.and`.
    pub fn visit_i32_and(&mut self) -> (res: Result<(), TranslationError>)
        requires
            old(self).wf(),
            old(self)@.reachable ==> old(self)@.stack.len() >= 2,
        ensures
            final(self).wf(),
            old(self)@.binary_step(BinaryOp::I32And, final(self)@, outcome(res)),
    {
        self.translate_binary_commutative(BinaryOp::I32And)
    }

    /// Translates `i32.or`.
    pub fn visit_i32_or(&mut self) -> (res: Result<(), TranslationError>)
        requires
            old(self).wf(),
            old(self)@.reachable ==> old(self)@.stack.len() >= 2,
        ensures
            final(self).wf(),
            old(self)@.binary_step(BinaryOp::I32Or, final(self)@, outcome(res)),
    {
        self.translate_binary_commutative(BinaryOp::I32Or)
    }

    /// Translates `i32.xor`.
    pub fn visit_i32_xor(&mut self) -> (res: Result<(), TranslationError>)
        requires
            old(self).wf(),
            old(self)@.reachable ==> old(self)@.stack.len() >= 2,
        ensures
            final(self).wf(),
            old(self)@.binary_step(BinaryOp::I32Xor, final(self)@, outcome(res)),
    {
        self.translate_binary_commutative(BinaryOp::I32Xor)
    }

    /// Translates `i32.shl`.
    pub fn visit_i32_shl(&mut self) -> (res: Result<(), TranslationError>)
        requires
            old(self).wf(),
            old(self)@.reachable ==> old(self)@.stack.len() >= 2,
        ensures
            final(self).wf(),
            old(self)@.binary_step(BinaryOp::I32Shl, final(self)@, outcome(res)),
    {
        self.translate_shift(BinaryOp::I32Shl)
    }

    /// Translates `i32.shr_s`.
    pub fn visit_i32_shr_s(&mut self) -> (res: Result<(), TranslationError>)
        requires
            old(self).wf(),
            old(self)@.reachable ==> old(self)@.stack.len() >= 2,
        ensures
            final(self).wf(),
            old(self)@.binary_step(BinaryOp::I32ShrS, final(self)@, outcome(res)),
    {
        self.translate_shift(BinaryOp::I32ShrS)
    }

    /// Translates `i32.shr_u`.
    pub fn visit_i32_shr_u(&mut self) -> (res: Result<(), TranslationError>)
        requires
            old(self).wf(),
            old(self)@.reachable ==> old(self)@.stack.len() >= 2,
        ensures
            final(self).wf(),
            old(self)@.binary_step(BinaryOp::I32ShrU, final(self)@, outcome(res)),
    {
        self.translate_shift(BinaryOp::I32ShrU)
    }

    /// Translates `i32.rotl`.
    pub fn visit_i32_rotl(&mut self) -> (res: Result<(), TranslationError>)
        requires
            old(self).wf(),
            old(self)@.reachable ==> old(self)@.stack.len() >= 2,
        ensures
            final(self).wf(),
            old(self)@.binary_step(BinaryOp::I32Rotl, final(self)@, outcome(res)),
    {
        self.translate_shift(BinaryOp::I32Rotl)
    }

    /// Translates `i32.rotr`.
    pub fn visit_i32_rotr(&mut self) -> (res: Result<(), TranslationError>)
        requires
            old(self).wf(),
            old(self)@.reachable ==> old(self)@.stack.len() >= 2,
        ensures
            final(self).wf(),
            old(self)@.binary_step(BinaryOp::I32Rotr, final(self)@, outcome(res)),
    {
        self.translate_shift(BinaryOp::I32Rotr)
    }

    /// Translates `i64.clz`.
    pub fn visit_i64_clz(&mut self) -> (res: Result<(), TranslationError>)
        requires
            old(self).wf(),
            old(self)@.reachable ==> old(self)@.stack.len() >= 1,
        ensures
            final(self).wf(),
            old(self)@.unary_step(UnaryOp::I64Clz, final(self)@, outcome(res)),
    {
        self.translate_unary(UnaryOp::I64Clz)
    }

    /// Translates `i64.ctz`.
    pub fn visit_i64_ctz(&mut self) -> (res: Result<(), TranslationError>)
        requires
            old(self).wf(),
            old(self)@.reachable ==> old(self)@.stack.len() >= 1,
        ensures
            final(self).wf(),
            old(self)@.unary_step(UnaryOp::I64Ctz, final(self)@, outcome(res)),
    {
        self.translate_unary(UnaryOp::I64Ctz)
    }

    /// Translates `i64.popcnt`.
    pub fn visit_i64_popcnt(&mut self) -> (res: Result<(), TranslationError>)
        requires
            old(self).wf(),
            old(self)@.reachable ==> old(self)@.stack.len() >= 1,
        ensures
            final(self).wf(),
            old(self)@.unary_step(UnaryOp::I64Popcnt, final(self)@, outcome(res)),
    {
        self.translate_unary(UnaryOp::I64Popcnt)
    }

    /// Translates `i64.add`.
    pub fn visit_i64_add(&mut self) -> (res: Result<(), TranslationError>)
        requires
            old(self).wf(),
            old(self)@.reachable ==> old(self)@.stack.len() >= 2,
        ensures
            final(self).wf(),
            old(self)@.binary_step(BinaryOp::I64Add, final(self)@, outcome(res)),
    {
        self.translate_binary_commutative(BinaryOp::I64Add)
    }

    /// Translates `i64.sub`.
    pub fn visit_i64_sub(&mut self) -> (res: Result<(), TranslationError>)
        requires
            old(self).wf(),
            old(self)@.reachable ==> old(self)@.stack.len() >= 2,
        ensures
            final(self).wf(),
            old(self)@.binary_step(BinaryOp::I64Sub, final(self)@, outcome(res)),
    {
        self.translate_binary(BinaryOp::I64Sub)
    }

    /// Translates `i64.mul`.
    pub fn visit_i64_mul(&mut self) -> (res: Result<(), TranslationError>)
        requires
            old(self).wf(),
            old(self)@.reachable ==> old(self)@.stack.len() >= 2,
        ensures
            final(self).wf(),
            old(self)@.binary_step(BinaryOp::I64Mul, final(self)@, outcome(res)),
    {
        self.translate_binary_commutative(BinaryOp::I64Mul)
    }

    /// Translates `i64.div_s`.
    pub fn visit_i64_div_s(&mut self) -> (res: Result<(), TranslationError>)
        requires
            old(self).wf(),
            old(self)@.reachable ==> old(self)@.stack.len() >= 2,
        ensures
            final(self).wf(),
            old(self)@.binary_step(BinaryOp::I64DivS, final(self)@, outcome(res)),
    {
        self.translate_divrem(BinaryOp::I64DivS)
    }

    /// Translates `i64.div_u`.
    pub fn visit_i64_div_u(&mut self) -> (res: Result<(), TranslationError>)
        requires
            old(self).wf(),
            old(self)@.reachable ==> old(self)@.stack.len() >= 2,
        ensures
            final(self).wf(),
            old(self)@.binary_step(BinaryOp::I64DivU, final(self)@, outcome(res)),
    {
        self.translate_divrem(BinaryOp::I64DivU)
    }

    /// Translates `i64.rem_s`.
    pub fn visit_i64_rem_s(&mut self) -> (res: Result<(), TranslationError>)
        requires
            old(self).wf(),
            old(self)@.reachable ==> old(self)@.stack.len() >= 2,
        ensures
            final(self).wf(),
            old(self)@.binary_step(BinaryOp::I64RemS, final(self)@, outcome(res)),
    {
        self.translate_divrem(BinaryOp::I64RemS)
    }

    /// Translates `i64.rem_u`.
    pub fn visit_i64_rem_u(&mut self) -> (res: Result<(), TranslationError>)
        requires
            old(self).wf(),
            old(self)@.reachable ==> old(self)@.stack.len() >= 2,
        ensures
            final(self).wf(),
            old(self)@.binary_step(BinaryOp::I64RemU, final(self)@, outcome(res)),
    {
        self.translate_divrem(BinaryOp::I64RemU)
    }

    /// Translates `i64.and`.
    pub fn visit_i64_and(&mut self) -> (res: Result<(), TranslationError>)
        requires
            old(self).wf(),
            old(self)@.reachable ==> old(self)@.stack.len() >= 2,
        ensures
            final(self).wf(),
            old(self)@.binary_step(BinaryOp::I64And, final(self)@, outcome(res)),
    {
        self.translate_binary_commutative(BinaryOp::I64And)
    }

    /// Translates `i64.or`.
    pub fn visit_i64_or(&mut self) -> (res: Result<(), TranslationError>)
        requires
            old(self).wf(),
            old(self)@.reachable ==> old(self)@.stack.len() >= 2,
        ensures
            final(self).wf(),
            old(self)@.binary_step(BinaryOp::I64Or, final(self)@, outcome(res)),
    {
        self.translate_binary_commutative(BinaryOp::I64Or)
    }

    /// Translates `i64.xor`.
    pub fn visit_i64_xor(&mut self) -> (res: Result<(), TranslationError>)
        requires
            old(self).wf(),
            old(self)@.reachable ==> old(self)@.stack.len() >= 2,
        ensures
            final(self).wf(),
            old(self)@.binary_step(BinaryOp::I64Xor, final(self)@, outcome(res)),
    {
        self.translate_binary_commutative(BinaryOp::I64Xor)
    }

    /// Translates `i64.shl`.
    pub fn visit_i64_shl(&mut self) -> (res: Result<(), TranslationError>)
        requires
            old(self).wf(),
            old(self)@.reachable ==> old(self)@.stack.len() >= 2,
        ensures
            final(self).wf(),
            old(self)@.binary_step(BinaryOp::I64Shl, final(self)@, outcome(res)),
    {
        self.translate_shift(BinaryOp::I64Shl)
    }

    /// Translates `i64.shr_s`.
    pub fn visit_i64_shr_s(&mut self) -> (res: Result<(), TranslationError>)
        requires
            old(self).wf(),
            old(self)@.reachable ==> old(self)@.stack.len() >= 2,
        ensures
            final(self).wf(),
            old(self)@.binary_step(BinaryOp::I64ShrS, final(self)@, outcome(res)),
    {
        self.translate_shift(BinaryOp::I64ShrS)
    }

    /// Translates `i64.shr_u`.
    pub fn visit_i64_shr_u(&mut self) -> (res: Result<(), TranslationError>)
        requires
            old(self).wf(),
            old(self)@.reachable ==> old(self)@.stack.len() >= 2,
        ensures
            final(self).wf(),
            old(self)@.binary_step(BinaryOp::I64ShrU, final(self)@, outcome(res)),
    {
        self.translate_shift(BinaryOp::I64ShrU)
    }

    /// Translates `i64.rotl`.
    pub fn visit_i64_rotl(&mut self) -> (res: Result<(), TranslationError>)
        requires
            old(self).wf(),
            old(self)@.reachable ==> old(self)@.stack.len() >= 2,
        ensures
            final(self).wf(),
            old(self)@.binary_step(BinaryOp::I64Rotl, final(self)@, outcome(res)),
    {
        self.translate_shift(BinaryOp::I64Rotl)
    }

    /// Translates `i64.rotr`.
    pub fn visit_i64_rotr(&mut self) -> (res: Result<(), TranslationError>)
        requires
            old(self).wf(),
            old(self)@.reachable ==> old(self)@.stack.len() >= 2,
        ensures
            final(self).wf(),
            old(self)@.binary_step(BinaryOp::I64Rotr, final(self)@, outcome(res)),
    {
        self.translate_shift(BinaryOp::I64Rotr)
    }

    /// Translates `f32.abs`.
    pub fn visit_f32_abs(&mut self) -> (res: Result<(), TranslationError>)
        requires
            old(self).wf(),
            old(self)@.reachable ==> old(self)@.stack.len() >= 1,
        ensures
            final(self).wf(),
            old(self)@.unary_step(UnaryOp::F32Abs, final(self)@, outcome(res)),
    {
        self.translate_unary(UnaryOp::F32Abs)
    }

    /// Translates `f32.neg`.
    pub fn visit_f32_neg(&mut self) -> (res: Result<(), TranslationError>)
        requires
            old(self).wf(),
            old(self)@.reachable ==> old(self)@.stack.len() >= 1,
        ensures
            final(self).wf(),
            old(self)@.unary_step(UnaryOp::F32Neg, final(self)@, outcome(res)),
    {
        self.translate_unary(UnaryOp::F32Neg)
    }

    /// Translates `f32.ceil`.
    pub fn visit_f32_ceil(&mut self) -> (res: Result<(), TranslationError>)
        requires
            old(self).wf(),
            old(self)@.reachable ==> old(self)@.stack.len() >= 1,
        ensures
            final(self).wf(),
            old(self)@.unary_step(UnaryOp::F32Ceil, final(self)@, outcome(res)),
    {
        self.translate_unary(UnaryOp::F32Ceil)
    }

    /// Translates `f32.floor`.
    pub fn visit_f32_floor(&mut self) -> (res: Result<(), TranslationError>)
        requires
            old(self).wf(),
            old(self)@.reachable ==> old(self)@.stack.len() >= 1,
        ensures
            final(self).wf(),
            old(self)@.unary_step(UnaryOp::F32Floor, final(self)@, outcome(res)),
    {
        self.translate_unary(UnaryOp::F32Floor)
    }

    /// Translates `f32.trunc`.
    pub fn visit_f32_trunc(&mut self) -> (res: Result<(), TranslationError>)
        requires
            old(self).wf(),
            old(self)@.reachable ==> old(self)@.stack.len() >= 1,
        ensures
            final(self).wf(),
            old(self)@.unary_step(UnaryOp::F32Trunc, final(self)@, outcome(res)),
    {
        self.translate_unary(UnaryOp::F32Trunc)
    }

    /// Translates `f32.nearest`.
    pub fn visit_f32_nearest(&mut self) -> (res: Result<(), TranslationError>)
        requires
            old(self).wf(),
            old(self)@.reachable ==> old(self)@.stack.len() >= 1,
        ensures
            final(self).wf(),
            old(self)@.unary_step(UnaryOp::F32Nearest, final(self)@, outcome(res)),
    {
        self.translate_unary(UnaryOp::F32Nearest)
    }

    /// Translates `f32.sqrt`.
    pub fn visit_f32_sqrt(&mut self) -> (res: Result<(), TranslationError>)
        requires
            old(self).wf(),
            old(self)@.reachable ==> old(self)@.stack.len() >= 1,
        ensures
            final(self).wf(),
            old(self)@.unary_step(UnaryOp::F32Sqrt, final(self)@, outcome(res)),
    {
        self.translate_unary(UnaryOp::F32Sqrt)
    }

    /// Translates `f32.add`.
    pub fn visit_f32_add(&mut self) -> (res: Result<(), TranslationError>)
        requires
            old(self).wf(),
            old(self)@.reachable ==> old(self)@.stack.len() >= 2,
        ensures
            final(self).wf(),
            old(self)@.binary_step(BinaryOp::F32Add, final(self)@, outcome(res)),
    {
        self.translate_fbinary_commutative(BinaryOp::F32Add)
    }

    /// Translates `f32.sub`.
    pub fn visit_f32_sub(&mut self) -> (res: Result<(), TranslationError>)
        requires
            old(self).wf(),
            old(self)@.reachable ==> old(self)@.stack.len() >= 2,
        ensures
            final(self).wf(),
            old(self)@.binary_step(BinaryOp::F32Sub, final(self)@, outcome(res)),
    {
        self.translate_fbinary(BinaryOp::F32Sub)
    }

    /// Translates `f32.mul`.
    pub fn visit_f32_mul(&mut self) -> (res: Result<(), TranslationError>)
        requires
            old(self).wf(),
            old(self)@.reachable ==> old(self)@.stack.len() >= 2,
        ensures
            final(self).wf(),
            old(self)@.binary_step(BinaryOp::F32Mul, final(self)@, outcome(res)),
    {
        self.translate_fbinary_commutative(BinaryOp::F32Mul)
    }

    /// Translates `f32.div`.
    pub fn visit_f32_div(&mut self) -> (res: Result<(), TranslationError>)
        requires
            old(self).wf(),
            old(self)@.reachable ==> old(self)@.stack.len() >= 2,
        ensures
            final(self).wf(),
            old(self)@.binary_step(BinaryOp::F32Div, final(self)@, outcome(res)),
    {
        self.translate_fbinary(BinaryOp::F32Div)
    }

    /// Translates `f32.min`.
    pub fn visit_f32_min(&mut self) -> (res: Result<(), TranslationError>)
        requires
            old(self).wf(),
            old(self)@.reachable ==> old(self)@.stack.len() >= 2,
        ensures
            final(self).wf(),
            old(self)@.binary_step(BinaryOp::F32Min, final(self)@, outcome(res)),
    {
        self.translate_fbinary_commutative(BinaryOp::F32Min)
    }

    /// Translates `f32.max`.
    pub fn visit_f32_max(&mut self) -> (res: Result<(), TranslationError>)
        requires
            old(self).wf(),
            old(self)@.reachable ==> old(self)@.stack.len() >= 2,
        ensures
            final(self).wf(),
            old(self)@.binary_step(BinaryOp::F32Max, final(self)@, outcome(res)),
    {
        self.translate_fbinary_commutative(BinaryOp::F32Max)
    }

    /// Translates `f32.copysign`.
    pub fn visit_f32_copysign(&mut self) -> (res: Result<(), TranslationError>)
        requires
            old(self).wf(),
            old(self)@.reachable ==> old(self)@.stack.len() >= 2,
        ensures
            final(self).wf(),
            old(self)@.binary_step(BinaryOp::F32Copysign, final(self)@, outcome(res)),
    {
        self.translate_fcopysign(BinaryOp::F32Copysign)
    }

    /// Translates `f64.abs`.
    pub fn visit_f64_abs(&mut self) -> (res: Result<(), TranslationError>)
        requires
            old(self).wf(),
            old(self)@.reachable ==> old(self)@.stack.len() >= 1,
        ensures
            final(self).wf(),
            old(self)@.unary_step(UnaryOp::F64Abs, final(self)@, outcome(res)),
    {
        self.translate_unary(UnaryOp::F64Abs)
    }

    /// Translates `f64.neg`.
    pub fn visit_f64_neg(&mut self) -> (res: Result<(), TranslationError>)
        requires
            old(self).wf(),
            old(self)@.reachable ==> old(self)@.stack.len() >= 1,
        ensures
            final(self).wf(),
            old(self)@.unary_step(UnaryOp::F64Neg, final(self)@, outcome(res)),
    {
        self.translate_unary(UnaryOp::F64Neg)
    }

    /// Translates `f64.ceil`.
    pub fn visit_f64_ceil(&mut self) -> (res: Result<(), TranslationError>)
        requires
            old(self).wf(),
            old(self)@.reachable ==> old(self)@.stack.len() >= 1,
        ensures
            final(self).wf(),
            old(self)@.unary_step(UnaryOp::F64Ceil, final(self)@, outcome(res)),
    {
        self.translate_unary(UnaryOp::F64Ceil)
    }

    /// Translates `f64.floor`.
    pub fn visit_f64_floor(&mut self) -> (res: Result<(), TranslationError>)
        requires
            old(self).wf(),
            old(self)@.reachable ==> old(self)@.stack.len() >= 1,
        ensures
            final(self).wf(),
            old(self)@.unary_step(UnaryOp::F64Floor, final(self)@, outcome(res)),
    {
        self.translate_unary(UnaryOp::F64Floor)
    }

    /// Translates `f64.trunc`.
    pub fn visit_f64_trunc(&mut self) -> (res: Result<(), TranslationError>)
        requires
            old(self).wf(),
            old(self)@.reachable ==> old(self)@.stack.len() >= 1,
        ensures
            final(self).wf(),
            old(self)@.unary_step(UnaryOp::F64Trunc, final(self)@, outcome(res)),
    {
        self.translate_unary(UnaryOp::F64Trunc)
    }

    /// Translates `f64.nearest`.
    pub fn visit_f64_nearest(&mut self) -> (res: Result<(), TranslationError>)
        requires
            old(self).wf(),
            old(self)@.reachable ==> old(self)@.stack.len() >= 1,
        ensures
            final(self).wf(),
            old(self)@.unary_step(UnaryOp::F64Nearest, final(self)@, outcome(res)),
    {
        self.translate_unary(UnaryOp::F64Nearest)
    }

    /// Translates `f64.sqrt`.
    pub fn visit_f64_sqrt(&mut self) -> (res: Result<(), TranslationError>)
        requires
            old(self).wf(),
            old(self)@.reachable ==> old(self)@.stack.len() >= 1,
        ensures
            final(self).wf(),
            old(self)@.unary_step(UnaryOp::F64Sqrt, final(self)@, outcome(res)),
    {
        self.translate_unary(UnaryOp::F64Sqrt)
    }

    /// Translates `f64.add`.
    pub fn visit_f64_add(&mut self) -> (res: Result<(), TranslationError>)
        requires
            old(self).wf(),
            old(self)@.reachable ==> old(self)@.stack.len() >= 2,
        ensures
            final(self).wf(),
            old(self)@.binary_step(BinaryOp::F64Add, final(self)@, outcome(res)),
    {
        self.translate_fbinary_commutative(BinaryOp::F64Add)
    }

    /// Translates `f64.sub`.
    pub fn visit_f64_sub(&mut self) -> (res: Result<(), TranslationError>)
        requires
            old(self).wf(),
            old(self)@.reachable ==> old(self)@.stack.len() >= 2,
        ensures
            final(self).wf(),
            old(self)@.binary_step(BinaryOp::F64Sub, final(self)@, outcome(res)),
    {
        self.translate_fbinary(BinaryOp::F64Sub)
    }

    /// Translates `f64.mul`.
    pub fn visit_f64_mul(&mut self) -> (res: Result<(), TranslationError>)
        requires
            old(self).wf(),
            old(self)@.reachable ==> old(self)@.stack.len() >= 2,
        ensures
            final(self).wf(),
            old(self)@.binary_step(BinaryOp::F64Mul, final(self)@, outcome(res)),
    {
        self.translate_fbinary_commutative(BinaryOp::F64Mul)
    }

    /// Translates `f64.div`.
    pub fn visit_f64_div(&mut self) -> (res: Result<(), TranslationError>)
        requires
            old(self).wf(),
            old(self)@.reachable ==> old(self)@.stack.len() >= 2,
        ensures
            final(self).wf(),
            old(self)@.binary_step(BinaryOp::F64Div, final(self)@, outcome(res)),
    {
        self.translate_fbinary(BinaryOp::F64Div)
    }

    /// Translates `f64.min`.
    pub fn visit_f64_min(&mut self) -> (res: Result<(), TranslationError>)
        requires
            old(self).wf(),
            old(self)@.reachable ==> old(self)@.stack.len() >= 2,
        ensures
            final(self).wf(),
            old(self)@.binary_step(BinaryOp::F64Min, final(self)@, outcome(res)),
    {
        self.translate_fbinary_commutative(BinaryOp::F64Min)
    }

    /// Translates `f64.max`.
    pub fn visit_f64_max(&mut self) -> (res: Result<(), TranslationError>)
        requires
            old(self).wf(),
            old(self)@.reachable ==> old(self)@.stack.len() >= 2,
        ensures
            final(self).wf(),
            old(self)@.binary_step(BinaryOp::F64Max, final(self)@, outcome(res)),
    {
        self.translate_fbinary_commutative(BinaryOp::F64Max)
    }

    /// Translates `f64.copysign`.
    pub fn visit_f64_copysign(&mut self) -> (res: Result<(), TranslationError>)
        requires
            old(self).wf(),
            old(self)@.reachable ==> old(self)@.stack.len() >= 2,
        ensures
            final(self).wf(),
            old(self)@.binary_step(BinaryOp::F64Copysign, final(self)@, outcome(res)),
    {
        self.translate_fcopysign(BinaryOp::F64Copysign)
    }

    /// Tells whether the operand stack holds the operands of `op`, as
    /// [`FuncTranslator::translate`] asks. In unreachable code every
    /// operator is accepted.
    pub fn accepts(&self, op: Operator) -> (res: bool)
        ensures
            res == self@.accepts(op),
    {
        !self.is_reachable() || self.stack().len() >= op.action().pops(self.results().len())
    }

    /// Translates one operator with the handler of that operator.
    ///
    /// An operator that the translator does not translate ends the
    /// translation with an error that names it, and changes nothing.
    pub fn translate(&mut self, op: Operator) -> (res: Result<(), TranslationError>)
        requires
            old(self).wf(),
            old(self)@.accepts(op),
        ensures
            final(self).wf(),
            old(self)@.operator_step(op, final(self)@, outcome(res)),
    {
        match op {
            Operator::End => self.visit_end(),
            Operator::Return => self.visit_return(),
            Operator::LocalGet { local_index } => self.visit_local_get(local_index),
            Operator::I32Const { value } => self.visit_i32_const(value),
            Operator::I64Const { value } => self.visit_i64_const(value),
            Operator::F32Const { bits } => self.visit_f32_const(bits),
            Operator::F64Const { bits } => self.visit_f64_const(bits),
            Operator::I32Eqz => self.visit_i32_eqz(),
            Operator::I32Eq => self.visit_i32_eq(),
            Operator::I32Ne => self.visit_i32_ne(),
            Operator::I32LtS => self.visit_i32_lt_s(),
            Operator::I32LtU => self.visit_i32_lt_u(),
            Operator::I32GtS => self.visit_i32_gt_s(),
            Operator::I32GtU => self.visit_i32_gt_u(),
            Operator::I32LeS => self.visit_i32_le_s(),
            Operator::I32LeU => self.visit_i32_le_u(),
            Operator::I32GeS => self.visit_i32_ge_s(),
            Operator::I32GeU => self.visit_i32_ge_u(),
            Operator::I64Eqz => self.visit_i64_eqz(),
            Operator::I64Eq => self.visit_i64_eq(),
            Operator::I64Ne => self.visit_i64_ne(),
            Operator::I64LtS => self.visit_i64_lt_s(),
            Operator::I64LtU => self.visit_i64_lt_u(),
            Operator::I64GtS => self.visit_i64_gt_s(),
            Operator::I64GtU => self.visit_i64_gt_u(),
            Operator::I64LeS => self.visit_i64_le_s(),
            Operator::I64LeU => self.visit_i64_le_u(),
            Operator::I64GeS => self.visit_i64_ge_s(),
            Operator::I64GeU => self.visit_i64_ge_u(),
            Operator::F32Eq => self.visit_f32_eq(),
            Operator::F32Ne => self.visit_f32_ne(),
            Operator::F64Eq => self.visit_f64_eq(),
            Operator::F64Ne => self.visit_f64_ne(),
            Operator::I32Clz => self.visit_i32_clz(),
            Operator::I32Ctz => self.visit_i32_ctz(),
            Operator::I32Popcnt => self.visit_i32_popcnt(),
            Operator::I32Add => self.visit_i32_add(),
            Operator::I32Sub => self.visit_i32_sub(),
            Operator::I32Mul => self.visit_i32_mul(),
            Operator::I32DivS => self.visit_i32_div_s(),
            Operator::I32DivU => self.visit_i32_div_u(),
            Operator::I32RemS => self.visit_i32_rem_s(),
            Operator::I32RemU => self.visit_i32_rem_u(),
            Operator::I32And => self.visit_i32_and(),
            Operator::I32Or => self.visit_i32_or(),
            Operator::I32Xor => self.visit_i32_xor(),
            Operator::I32Shl => self.visit_i32_shl(),
            Operator::I32ShrS => self.visit_i32_shr_s(),
            Operator::I32ShrU => self.visit_i32_shr_u(),
            Operator::I32Rotl => self.visit_i32_rotl(),
            Operator::I32Rotr => self.visit_i32_rotr(),
            Operator::I64Clz => self.visit_i64_clz(),
            Operator::I64Ctz => self.visit_i64_ctz(),
            Operator::I64Popcnt => self.visit_i64_popcnt(),
            Operator::I64Add => self.visit_i64_add(),
            Operator::I64Sub => self.visit_i64_sub(),
            Operator::I64Mul => self.visit_i64_mul(),
            Operator::I64DivS => self.visit_i64_div_s(),
            Operator::I64DivU => self.visit_i64_div_u(),
            Operator::I64RemS => self.visit_i64_rem_s(),
            Operator::I64RemU => self.visit_i64_rem_u(),
            Operator::I64And => self.visit_i64_and(),
            Operator::I64Or => self.visit_i64_or(),
            Operator::I64Xor => self.visit_i64_xor(),
            Operator::I64Shl => self.visit_i64_shl(),
            Operator::I64ShrS => self.visit_i64_shr_s(),
            Operator::I64ShrU => self.visit_i64_shr_u(),
            Operator::I64Rotl => self.visit_i64_rotl(),
            Operator::I64Rotr => self.visit_i64_rotr(),
            Operator::F32Abs => self.visit_f32_abs(),
            Operator::F32Neg => self.visit_f32_neg(),
            Operator::F32Ceil => self.visit_f32_ceil(),
            Operator::F32Floor => self.visit_f32_floor(),
            Operator::F32Trunc => self.visit_f32_trunc(),
            Operator::F32Nearest => self.visit_f32_nearest(),
            Operator::F32Sqrt => self.visit_f32_sqrt(),
            Operator::F32Add => self.visit_f32_add(),
            Operator::F32Sub => self.visit_f32_sub(),
            Operator::F32Mul => self.visit_f32_mul(),
            Operator::F32Div => self.visit_f32_div(),
            Operator::F32Min => self.visit_f32_min(),
            Operator::F32Max => self.visit_f32_max(),
            Operator::F32Copysign => self.visit_f32_copysign(),
            Operator::F64Abs => self.visit_f64_abs(),
            Operator::F64Neg => self.visit_f64_neg(),
            Operator::F64Ceil => self.visit_f64_ceil(),
            Operator::F64Floor => self.visit_f64_floor(),
            Operator::F64Trunc => self.visit_f64_trunc(),
            Operator::F64Nearest => self.visit_f64_nearest(),
            Operator::F64Sqrt => self.visit_f64_sqrt(),
            Operator::F64Add => self.visit_f64_add(),
            Operator::F64Sub => self.visit_f64_sub(),
            Operator::F64Mul => self.visit_f64_mul(),
            Operator::F64Div => self.visit_f64_div(),
            Operator::F64Min => self.visit_f64_min(),
            Operator::F64Max => self.visit_f64_max(),
            Operator::F64Copysign => self.visit_f64_copysign(),
            _ => self.unsupported_operator(op.name()),
        }
    }
}

} // verus!
