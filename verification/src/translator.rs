//! The translation context of one function and the templates that translate
//! its operators.

use crate::bytecode::{BinaryOp, Const16, Instruction, Register, UnaryOp};
use crate::consts::{ConstPool, ConstPoolView};
use crate::encoder::{InstrEncoder, InstrEncoderView};
use crate::error::{TranslationError, TranslationErrorInner};
use crate::ops::{OperandType, Template};
use crate::plan::Plan;
use crate::stack::{Provider, ValueStack, ValueStackView};
use crate::value::{TrapCode, UntypedValue, ValueType};
use vstd::prelude::*;

verus! {

/// The error that a result carries, if it carries one.
pub open spec fn outcome(res: Result<(), TranslationError>) -> Option<TranslationErrorInner> {
    match res {
        Ok(_) => None,
        Err(error) => Some(error@),
    }
}

/// Whether the return sequence can be emitted for a function with the given
/// result types: it has no result, or one result of a numeric type.
pub open spec fn spec_supports_results(results: Seq<ValueType>) -> bool {
    results.len() == 0 || (results.len() == 1 && results[0].is_num())
}

/// Tells whether the return sequence can be emitted for a function with the
/// given result types.
pub fn supports_results(results: &Vec<ValueType>) -> (res: bool)
    ensures
        res == spec_supports_results(results@),
{
    results.len() == 0 || (results.len() == 1 && results[0].is_num())
}

/// The state of a translation.
pub struct TranslatorView {
    /// The result types of the function that is translated.
    pub results: Seq<ValueType>,
    /// The operand stack.
    pub stack: ValueStackView,
    /// The instructions emitted so far.
    pub instrs: InstrEncoderView,
    /// The constant pool.
    pub consts: ConstPoolView,
    /// Whether the code at the current position can be reached.
    pub reachable: bool,
}

impl TranslatorView {
    /// The state with the `n` topmost slots of the stack removed.
    pub open spec fn drop(self, n: nat) -> TranslatorView {
        TranslatorView { stack: self.stack.drop(n), ..self }
    }

    /// The state with `provider` pushed on the stack.
    pub open spec fn push(self, provider: Provider) -> TranslatorView {
        TranslatorView { stack: self.stack.push(provider), ..self }
    }

    /// The state with `instr` appended to the instructions.
    pub open spec fn emit(self, instr: Instruction) -> TranslatorView {
        TranslatorView { instrs: self.instrs.push(instr), ..self }
    }

    /// The state with a register acquired for the result of `instr`, the
    /// register pushed, and `instr` appended.
    pub open spec fn emit_with_result(self, instr: Instruction) -> TranslatorView {
        self.push(Provider::Register(self.stack.next_register())).emit(instr)
    }

    /// The state after the immediate `value` of type `ty` was encoded: the
    /// pool holds the value if no 32-bit immediate does.
    pub open spec fn encode_imm(self, ty: OperandType, value: UntypedValue) -> TranslatorView {
        if ty.try_const32(value) is Some {
            self
        } else {
            TranslatorView { consts: self.consts.interned(value), ..self }
        }
    }

    /// The instruction that carries the immediate `value` of type `ty`: the
    /// 32-bit immediate if the value fits one, else the reference to its
    /// slot in the pool.
    pub open spec fn imm_param(self, ty: OperandType, value: UntypedValue) -> Instruction {
        match ty.try_const32(value) {
            Some(imm) => Instruction::Const32(imm),
            None => Instruction::ConstRef(self.consts.slot(value)),
        }
    }

    /// Whether the immediate `value` of type `ty` can be encoded: it fits 32
    /// bits, or the pool can hold it.
    pub open spec fn can_encode_imm(self, ty: OperandType, value: UntypedValue) -> bool {
        ty.try_const32(value) is Some || self.consts.can_intern(value)
    }

    /// The state after `plan` was carried out, where it can be.
    pub open spec fn apply(self, plan: Plan) -> TranslatorView {
        match plan {
            Plan::Push(provider) => self.push(provider),
            Plan::Fold(value, _) => self.push(Provider::Const(value)),
            Plan::Trap(code) => TranslatorView { reachable: false, ..self.emit(Instruction::Trap(code)) },
            Plan::Emit(instr) => self.emit_with_result(instr),
            Plan::EmitImm(instr, ty, value) => self.emit_with_result(instr).encode_imm(ty, value).emit(
                self.imm_param(ty, value),
            ),
        }
    }

    /// The error that carrying out `plan` fails with, if it fails: the first
    /// limit that is hit when a register is acquired, the instruction
    /// emitted, the immediate encoded and its instruction emitted, in that
    /// order.
    pub open spec fn failure(self, plan: Plan) -> Option<TranslationErrorInner> {
        match plan {
            Plan::Push(_) => None,
            Plan::Fold(_, _) => None,
            Plan::Trap(_) => if self.instrs.has_room(1) {
                None
            } else {
                Some(TranslationErrorInner::InstrOutOfBounds)
            },
            Plan::Emit(_) => if !self.stack.can_alloc_register() {
                Some(TranslationErrorInner::RegisterOutOfBounds)
            } else if !self.instrs.has_room(1) {
                Some(TranslationErrorInner::InstrOutOfBounds)
            } else {
                None
            },
            Plan::EmitImm(_, ty, value) => if !self.stack.can_alloc_register() {
                Some(TranslationErrorInner::RegisterOutOfBounds)
            } else if !self.instrs.has_room(1) {
                Some(TranslationErrorInner::InstrOutOfBounds)
            } else if !self.can_encode_imm(ty, value) {
                Some(TranslationErrorInner::ConstRefOutOfBounds)
            } else if !self.instrs.has_room(2) {
                Some(TranslationErrorInner::InstrOutOfBounds)
            } else {
                None
            },
        }
    }

    /// Whether carrying out `plan` in this state may end in the state `post`
    /// with the error `error`.
    ///
    /// The error is the one of [`TranslatorView::failure`]. Without an error
    /// the state is the one of [`TranslatorView::apply`], where a folded
    /// constant is any that the precision of the fold admits. With an error
    /// nothing is said of the state: the translation is over.
    pub open spec fn step(
        self,
        plan: Plan,
        post: TranslatorView,
        error: Option<TranslationErrorInner>,
    ) -> bool {
        &&& error == self.failure(plan)
        &&& error is None ==> match plan {
            Plan::Fold(expected, precision) => {
                &&& post.stack.len() >= 1
                &&& post.stack.peek(0) matches Provider::Const(actual)
                &&& precision.admits(actual, expected)
                &&& post == self.push(Provider::Const(actual))
            },
            _ => post == self.apply(plan),
        }
    }

    /// Whether translating the binary operator `op` in this state may end in
    /// the state `post` with the error `error`.
    ///
    /// Unreachable code is skipped. Else the two topmost slots are the
    /// operands, the lower one the left, and the plan of the operator for
    /// them is carried out on the stack without them.
    pub open spec fn binary_step(
        self,
        op: BinaryOp,
        post: TranslatorView,
        error: Option<TranslationErrorInner>,
    ) -> bool {
        if !self.reachable {
            post == self && error is None
        } else {
            self.drop(2).step(
                op.plan(self.stack.peek(1), self.stack.peek(0), self.drop(2).stack.next_register()),
                post,
                error,
            )
        }
    }

    /// Whether translating the unary operator `op` in this state may end in
    /// the state `post` with the error `error`.
    ///
    /// Unreachable code is skipped. Else the top slot is the operand, and
    /// the plan of the operator for it is carried out on the stack without
    /// it.
    pub open spec fn unary_step(
        self,
        op: UnaryOp,
        post: TranslatorView,
        error: Option<TranslationErrorInner>,
    ) -> bool {
        if !self.reachable {
            post == self && error is None
        } else {
            self.drop(1).step(
                op.plan(self.stack.peek(0), self.drop(1).stack.next_register()),
                post,
                error,
            )
        }
    }
}

/// The translation context of one function: its operand stack, its emitted
/// instructions, the constant pool and whether the current position can be
/// reached.
#[derive(Debug)]
pub struct FuncTranslator {
    results: Vec<ValueType>,
    stack: ValueStack,
    instr_encoder: InstrEncoder,
    consts: ConstPool,
    reachable: bool,
}

impl View for FuncTranslator {
    type V = TranslatorView;

    closed spec fn view(&self) -> TranslatorView {
        TranslatorView {
            results: self.results@,
            stack: self.stack@,
            instrs: self.instr_encoder@,
            consts: self.consts@,
            reachable: self.reachable,
        }
    }
}

impl FuncTranslator {
    /// The invariant of the translation context: those of its parts, and
    /// result types for which the return sequence can be emitted.
    pub closed spec fn wf(&self) -> bool {
        &&& self.stack.wf()
        &&& self.consts.wf()
        &&& spec_supports_results(self.results@)
    }

    /// The pool of a translation context holds no value twice and at most as
    /// many values as can be referred to.
    pub proof fn lemma_wf(&self)
        requires
            self.wf(),
        ensures
            self@.consts.wf(),
            spec_supports_results(self@.results),
    {
    }

    /// Creates the translation context for a function with the given result
    /// types and number of parameters and locals, with an empty constant
    /// pool.
    ///
    /// Returns `None` if the return sequence cannot be emitted for the
    /// result types.
    pub fn new(results: Vec<ValueType>, len_locals: u16) -> (res: Option<FuncTranslator>)
        ensures
            res is Some <==> spec_supports_results(results@),
            res matches Some(translator) ==> translator.wf() && translator@ == (TranslatorView {
                results: results@,
                stack: ValueStackView { providers: Seq::empty(), len_locals: len_locals as nat },
                instrs: InstrEncoderView { instrs: Seq::empty(), limit: u32::MAX as nat },
                consts: ConstPoolView { values: Seq::empty(), capacity: u32::MAX as nat },
                reachable: true,
            }),
    {
        Self::with_parts(results, len_locals, InstrEncoder::new(), ConstPool::new())
    }

    /// Creates the translation context for a function with the given result
    /// types and number of parameters and locals, which appends to the given
    /// instructions and shares the given constant pool.
    ///
    /// Returns `None` if the return sequence cannot be emitted for the
    /// result types.
    pub fn with_parts(
        results: Vec<ValueType>,
        len_locals: u16,
        instr_encoder: InstrEncoder,
        consts: ConstPool,
    ) -> (res: Option<FuncTranslator>)
        requires
            consts.wf(),
        ensures
            res is Some <==> spec_supports_results(results@),
            res matches Some(translator) ==> translator.wf() && translator@ == (TranslatorView {
                results: results@,
                stack: ValueStackView { providers: Seq::empty(), len_locals: len_locals as nat },
                instrs: instr_encoder@,
                consts: consts@,
                reachable: true,
            }),
    {
        if !supports_results(&results) {
            return None;
        }
        Some(
            FuncTranslator {
                results,
                stack: ValueStack::new(len_locals),
                instr_encoder,
                consts,
                reachable: true,
            },
        )
    }

    /// Ends the translation and hands out the emitted instructions and the
    /// constant pool.
    pub fn finish(self) -> (res: (Vec<Instruction>, ConstPool))
        requires
            self.wf(),
        ensures
            res.0@ == self@.instrs.instrs,
            res.1@ == self@.consts,
            res.1.wf(),
    {
        (self.instr_encoder.into_instrs(), self.consts)
    }

    /// Whether the code at the current position can be reached.
    pub fn is_reachable(&self) -> (res: bool)
        ensures
            res == self@.reachable,
    {
        self.reachable
    }

    /// Sets whether the code at the current position can be reached. The
    /// translation of control flow resumes reachability with it.
    pub fn set_reachable(&mut self, reachable: bool)
        requires
            old(self).wf(),
        ensures
            final(self).wf(),
            final(self)@ == (TranslatorView { reachable, ..old(self)@ }),
    {
        self.reachable = reachable;
    }

    /// The result types of the function.
    pub fn results(&self) -> (res: &Vec<ValueType>)
        ensures
            res@ == self@.results,
    {
        &self.results
    }

    /// The operand stack.
    pub fn stack(&self) -> (res: &ValueStack)
        ensures
            res@ == self@.stack,
    {
        &self.stack
    }

    /// The instructions emitted so far.
    pub fn instrs(&self) -> (res: &Vec<Instruction>)
        ensures
            res@ == self@.instrs.instrs,
    {
        self.instr_encoder.instrs()
    }

    /// The constant pool.
    pub fn consts(&self) -> (res: &ConstPool)
        ensures
            res@ == self@.consts,
    {
        &self.consts
    }

    /// Called when translating an unsupported Wasm operator.
    ///
    /// Validation filters out the operators that the translator does not
    /// support, so an operator that arrives here reveals a defect. The
    /// returned error names the operator and ends the translation.
    pub fn unsupported_operator(&self, name: &str) -> (res: Result<(), TranslationError>)
        ensures
            res matches Err(error) && error@ matches TranslationErrorInner::UnsupportedOperator(
                operator,
            ) && operator@ == name@,
    {
        Err(TranslationError::new(TranslationErrorInner::UnsupportedOperator(name.to_string())))
    }

    /// Pushes a value that is known while translating on the operand stack.
    pub fn push_const(&mut self, value: UntypedValue)
        requires
            old(self).wf(),
        ensures
            final(self).wf(),
            final(self)@ == old(self)@.push(Provider::Const(value)),
    {
        self.stack.push_const(value);
    }

    /// Pushes the register of the local variable with the given index on the
    /// operand stack.
    ///
    /// Fails if the function has no local variable with that index.
    pub fn push_local(&mut self, local_index: u32) -> (res: Result<(), TranslationError>)
        requires
            old(self).wf(),
        ensures
            final(self).wf(),
            res is Ok <==> local_index < old(self)@.stack.len_locals,
            res is Ok ==> final(self)@ == old(self)@.push(
                Provider::Register(Register { index: local_index as u16 }),
            ),
            res matches Err(error) ==> error@ == TranslationErrorInner::LocalIndexOutOfBounds
                && final(self)@ == old(self)@,
    {
        self.stack.push_local(local_index)
    }

    /// Removes the top slot of the operand stack and returns it.
    pub fn pop(&mut self) -> (res: Provider)
        requires
            old(self).wf(),
            old(self)@.stack.len() >= 1,
        ensures
            final(self).wf(),
            res == old(self)@.stack.peek(0),
            final(self)@ == old(self)@.drop(1),
    {
        self.stack.pop()
    }

    /// Gives `value` a slot in the constant pool and returns the reference
    /// to it. A value that is pooled already keeps its slot.
    ///
    /// Fails if the value is new and the pool is full.
    pub fn alloc_const(&mut self, value: UntypedValue) -> (res: Result<
        crate::bytecode::ConstRef,
        TranslationError,
    >)
        requires
            old(self).wf(),
        ensures
            final(self).wf(),
            res is Ok <==> old(self)@.consts.can_intern(value),
            res matches Ok(cref) ==> cref == old(self)@.consts.slot(value) && final(self)@ == (
            TranslatorView { consts: old(self)@.consts.interned(value), ..old(self)@ }),
            res matches Err(error) ==> error@ == TranslationErrorInner::ConstRefOutOfBounds
                && final(self)@ == old(self)@,
    {
        self.consts.alloc_const(value)
    }

    /// Appends an instruction to the emitted instructions.
    ///
    /// Fails if the sequence of instructions is full.
    pub fn push_instr(&mut self, instr: Instruction) -> (res: Result<(), TranslationError>)
        requires
            old(self).wf(),
        ensures
            final(self).wf(),
            res is Ok <==> old(self)@.instrs.has_room(1),
            res is Ok ==> final(self)@ == old(self)@.emit(instr),
            res matches Err(error) ==> error@ == TranslationErrorInner::InstrOutOfBounds
                && final(self)@ == old(self)@,
    {
        match self.instr_encoder.push_instr(instr) {
            Ok(_) => Ok(()),
            Err(error) => Err(error),
        }
    }

    /// Pushes the plan's slot: the outcome of a fold or of an identity.
    fn push_provider(&mut self, provider: Provider)
        requires
            old(self).wf(),
        ensures
            final(self).wf(),
            final(self)@ == old(self)@.push(provider),
    {
        match provider {
            Provider::Register(register) => self.stack.push_register(register),
            Provider::Const(value) => self.stack.push_const(value),
        }
    }

    /// Emits an unconditional trap and makes the code after it unreachable.
    pub fn translate_trap(&mut self, code: TrapCode) -> (res: Result<(), TranslationError>)
        requires
            old(self).wf(),
        ensures
            final(self).wf(),
            if old(self)@.reachable {
                old(self)@.step(Plan::Trap(code), final(self)@, outcome(res))
            } else {
                final(self)@ == old(self)@ && res is Ok
            },
    {
        if !self.reachable {
            return Ok(());
        }
        match self.instr_encoder.push_instr(Instruction::Trap(code)) {
            Ok(_) => {},
            Err(error) => {
                return Err(error);
            },
        }
        self.reachable = false;
        Ok(())
    }

    /// Makes the instruction that carries the immediate `value` of type
    /// `ty`, giving the value a slot in the pool if it does not fit 32 bits.
    fn make_instr_imm_param(&mut self, ty: OperandType, value: UntypedValue) -> (res: Result<
        Instruction,
        TranslationError,
    >)
        requires
            old(self).wf(),
        ensures
            final(self).wf(),
            res is Ok <==> old(self)@.can_encode_imm(ty, value),
            res matches Ok(instr) ==> instr == old(self)@.imm_param(ty, value) && final(self)@ == old(
                self,
            )@.encode_imm(ty, value),
            res matches Err(error) ==> error@ == TranslationErrorInner::ConstRefOutOfBounds,
    {
        match ty.try_const32(value) {
            Some(imm) => Ok(Instruction::const32(imm)),
            None => match self.consts.alloc_const(value) {
                Ok(cref) => Ok(Instruction::ConstRef(cref)),
                Err(error) => Err(error),
            },
        }
    }

    /// Translates a binary operator whose operands are both constants: the
    /// operator is evaluated, and its value is pushed or its trap emitted.
    fn push_binary_consteval(&mut self, op: BinaryOp, lhs: UntypedValue, rhs: UntypedValue) -> (res:
        Result<(), TranslationError>)
        requires
            old(self).wf(),
            old(self)@.reachable,
        ensures
            final(self).wf(),
            old(self)@.step(op.plan_const_const(lhs, rhs), final(self)@, outcome(res)),
    {
        match op.eval(lhs, rhs) {
            Ok(value) => {
                self.stack.push_const(value);
                proof {
                    assert(self@.stack.peek(0) == Provider::Const(value));
                }
                Ok(())
            },
            Err(code) => self.translate_trap(code),
        }
    }

    /// Applies the identity of `op` for two equal registers, if it has one
    /// and the registers are equal. Returns whether it did.
    fn try_same_register_rule(&mut self, op: BinaryOp, lhs: Register, rhs: Register) -> (res: bool)
        requires
            old(self).wf(),
        ensures
            final(self).wf(),
            res == (lhs == rhs && op.same_register_rule() is Some),
            res ==> final(self)@ == old(self)@.push(op.same_register_rule().unwrap().provider(lhs)),
            !res ==> final(self)@ == old(self)@,
    {
        if lhs == rhs {
            if let Some(rewrite) = op.same_register_rule() {
                self.push_provider(rewrite.provider(lhs));
                return true;
            }
        }
        false
    }

    /// Emits the instruction of `op` on two registers, which writes to a
    /// register that is acquired for it.
    fn push_binary_instr(&mut self, op: BinaryOp, lhs: Register, rhs: Register) -> (res: Result<
        (),
        TranslationError,
    >)
        requires
            old(self).wf(),
        ensures
            final(self).wf(),
            old(self)@.step(
                Plan::Emit(Instruction::binary(op, old(self)@.stack.next_register(), lhs, rhs)),
                final(self)@,
                outcome(res),
            ),
    {
        let result = match self.stack.push_dynamic() {
            Ok(result) => result,
            Err(error) => {
                return Err(error);
            },
        };
        self.push_instr(Instruction::binary(op, result, lhs, rhs))
    }

    /// Emits the instruction of `op` on a register and a 16-bit immediate,
    /// which is the left operand if `imm_on_left` and else the right one. The
    /// instruction writes to a register that is acquired for it.
    fn push_binary_instr_imm16(
        &mut self,
        op: BinaryOp,
        reg: Register,
        imm16: Const16,
        imm_on_left: bool,
    ) -> (res: Result<(), TranslationError>)
        requires
            old(self).wf(),
        ensures
            final(self).wf(),
            old(self)@.step(
                Plan::Emit(
                    op.imm16_instr(old(self)@.stack.next_register(), reg, imm16, imm_on_left),
                ),
                final(self)@,
                outcome(res),
            ),
    {
        let result = match self.stack.push_dynamic() {
            Ok(result) => result,
            Err(error) => {
                return Err(error);
            },
        };
        self.push_instr(op.imm16_instr(result, reg, imm16, imm_on_left))
    }

    /// Emits the instruction of `op` on a register and a constant, which is
    /// the left operand if `imm_on_left` and else the right one, followed by
    /// the instruction that carries the constant. The first instruction
    /// writes to a register that is acquired for it.
    fn push_binary_instr_imm(
        &mut self,
        op: BinaryOp,
        reg: Register,
        imm: UntypedValue,
        imm_on_left: bool,
    ) -> (res: Result<(), TranslationError>)
        requires
            old(self).wf(),
        ensures
            final(self).wf(),
            old(self)@.step(
                Plan::EmitImm(
                    op.imm_instr(old(self)@.stack.next_register(), reg, imm_on_left),
                    op.operand_type(),
                    imm,
                ),
                final(self)@,
                outcome(res),
            ),
    {
        let result = match self.stack.push_dynamic() {
            Ok(result) => result,
            Err(error) => {
                return Err(error);
            },
        };
        match self.push_instr(op.imm_instr(result, reg, imm_on_left)) {
            Ok(_) => {},
            Err(error) => {
                return Err(error);
            },
        }
        let param = match self.make_instr_imm_param(op.operand_type(), imm) {
            Ok(param) => param,
            Err(error) => {
                return Err(error);
            },
        };
        self.push_instr(param)
    }

    /// Emits the instruction of `op` on a register and a constant in the
    /// narrowest encoding that holds the constant: with a 16-bit immediate if
    /// the constant fits one, else with the constant in the next instruction.
    fn push_binary_instr_narrowest(
        &mut self,
        op: BinaryOp,
        reg: Register,
        imm: UntypedValue,
        imm_on_left: bool,
    ) -> (res: Result<(), TranslationError>)
        requires
            old(self).wf(),
        ensures
            final(self).wf(),
            old(self)@.step(
                match op.operand_type().try_const16(imm) {
                    Some(imm16) => Plan::Emit(
                        op.imm16_instr(old(self)@.stack.next_register(), reg, imm16, imm_on_left),
                    ),
                    None => Plan::EmitImm(
                        op.imm_instr(old(self)@.stack.next_register(), reg, imm_on_left),
                        op.operand_type(),
                        imm,
                    ),
                },
                final(self)@,
                outcome(res),
            ),
    {
        if let Some(imm16) = op.operand_type().try_const16(imm) {
            return self.push_binary_instr_imm16(op, reg, imm16, imm_on_left);
        }
        self.push_binary_instr_imm(op, reg, imm, imm_on_left)
    }

    /// Translates an integer operator whose operands may not be swapped: an
    /// ordering comparison or a subtraction.
    ///
    /// Two constants are folded. Else an identity of the operator is applied
    /// if one holds of the operands. Else the instruction is emitted in the
    /// form that matches the place of the constant, if there is one, and in
    /// the narrowest encoding that holds it.
    pub fn translate_binary(&mut self, op: BinaryOp) -> (res: Result<(), TranslationError>)
        requires
            old(self).wf(),
            op.template() is Binary,
            old(self)@.reachable ==> old(self)@.stack.len() >= 2,
        ensures
            final(self).wf(),
            old(self)@.binary_step(op, final(self)@, outcome(res)),
    {
        if !self.reachable {
            return Ok(());
        }
        match self.stack.pop2() {
            (Provider::Register(lhs), Provider::Register(rhs)) => {
                if self.try_same_register_rule(op, lhs, rhs) {
                    return Ok(());
                }
                self.push_binary_instr(op, lhs, rhs)
            },
            (Provider::Register(lhs), Provider::Const(rhs)) => {
                if let Some(rewrite) = op.reg_imm_rule(rhs) {
                    self.push_provider(rewrite.provider(lhs));
                    return Ok(());
                }
                self.push_binary_instr_narrowest(op, lhs, rhs, false)
            },
            (Provider::Const(lhs), Provider::Register(rhs)) => {
                if let Some(rewrite) = op.imm_reg_rule(lhs) {
                    self.push_provider(rewrite.provider(rhs));
                    return Ok(());
                }
                self.push_binary_instr_narrowest(op, rhs, lhs, true)
            },
            (Provider::Const(lhs), Provider::Const(rhs)) => self.push_binary_consteval(
                op,
                lhs,
                rhs,
            ),
        }
    }

    /// Translates an integer operator whose operands may be swapped.
    ///
    /// Two constants are folded. Else an identity of the operator is applied
    /// if one holds of the operands. Else the instruction is emitted; a
    /// constant operand is its immediate wherever it stood, in the narrowest
    /// encoding that holds it.
    pub fn translate_binary_commutative(&mut self, op: BinaryOp) -> (res: Result<
        (),
        TranslationError,
    >)
        requires
            old(self).wf(),
            op.template() is BinaryCommutative,
            old(self)@.reachable ==> old(self)@.stack.len() >= 2,
        ensures
            final(self).wf(),
            old(self)@.binary_step(op, final(self)@, outcome(res)),
    {
        if !self.reachable {
            return Ok(());
        }
        match self.stack.pop2() {
            (Provider::Register(lhs), Provider::Register(rhs)) => {
                if self.try_same_register_rule(op, lhs, rhs) {
                    return Ok(());
                }
                self.push_binary_instr(op, lhs, rhs)
            },
            (Provider::Register(reg_in), Provider::Const(imm_in)) => {
                if let Some(rewrite) = op.reg_imm_rule(imm_in) {
                    self.push_provider(rewrite.provider(reg_in));
                    return Ok(());
                }
                self.push_binary_instr_narrowest(op, reg_in, imm_in, false)
            },
            (Provider::Const(imm_in), Provider::Register(reg_in)) => {
                if let Some(rewrite) = op.reg_imm_rule(imm_in) {
                    self.push_provider(rewrite.provider(reg_in));
                    return Ok(());
                }
                self.push_binary_instr_narrowest(op, reg_in, imm_in, true)
            },
            (Provider::Const(lhs), Provider::Const(rhs)) => self.push_binary_consteval(
                op,
                lhs,
                rhs,
            ),
        }
    }

    /// Translates an integer division or remainder.
    ///
    /// Two constants are folded; where the operator traps on them, the trap
    /// is emitted in its place. A constant zero divisor is always a trap.
    /// Else an identity of the operator is applied if one holds of the
    /// operands. Else the instruction is emitted in the form that matches
    /// the place of the constant, if there is one, and in the narrowest
    /// encoding that holds it.
    pub fn translate_divrem(&mut self, op: BinaryOp) -> (res: Result<(), TranslationError>)
        requires
            old(self).wf(),
            op.template() is DivRem,
            old(self)@.reachable ==> old(self)@.stack.len() >= 2,
        ensures
            final(self).wf(),
            old(self)@.binary_step(op, final(self)@, outcome(res)),
    {
        if !self.reachable {
            return Ok(());
        }
        match self.stack.pop2() {
            (Provider::Register(lhs), Provider::Register(rhs)) => {
                if self.try_same_register_rule(op, lhs, rhs) {
                    return Ok(());
                }
                self.push_binary_instr(op, lhs, rhs)
            },
            (Provider::Register(lhs), Provider::Const(rhs)) => {
                if op.operand_type().is_zero(rhs) {
                    return self.translate_trap(TrapCode::IntegerDivisionByZero);
                }
                if let Some(rewrite) = op.reg_imm_rule(rhs) {
                    self.push_provider(rewrite.provider(lhs));
                    return Ok(());
                }
                self.push_binary_instr_narrowest(op, lhs, rhs, false)
            },
            (Provider::Const(lhs), Provider::Register(rhs)) => {
                proof {
                    lemma_no_imm_reg_rule(op, lhs);
                }
                self.push_binary_instr_narrowest(op, rhs, lhs, true)
            },
            (Provider::Const(lhs), Provider::Const(rhs)) => self.push_binary_consteval(
                op,
                lhs,
                rhs,
            ),
        }
    }

    /// Translates an integer shift or rotation.
    ///
    /// Two constants are folded. A constant number of bits is reduced modulo
    /// the width of the type: for zero bits the shifted register is the
    /// result, else the instruction carries the number as 16-bit immediate.
    /// A constant to be shifted is the result if an identity of the operator
    /// says so or if it is zero; else the instruction is emitted in the
    /// reversed form, in the narrowest encoding that holds the constant.
    pub fn translate_shift(&mut self, op: BinaryOp) -> (res: Result<(), TranslationError>)
        requires
            old(self).wf(),
            op.template() is Shift,
            old(self)@.reachable ==> old(self)@.stack.len() >= 2,
        ensures
            final(self).wf(),
            old(self)@.binary_step(op, final(self)@, outcome(res)),
    {
        if !self.reachable {
            return Ok(());
        }
        let ty = op.operand_type();
        match self.stack.pop2() {
            (Provider::Register(lhs), Provider::Register(rhs)) => {
                proof {
                    lemma_no_same_register_rule(op);
                }
                self.push_binary_instr(op, lhs, rhs)
            },
            (Provider::Register(lhs), Provider::Const(rhs)) => {
                let amount = ty.shift_amount(rhs);
                if amount.to_u16() == 0 {
                    self.stack.push_register(lhs);
                    return Ok(());
                }
                self.push_binary_instr_imm16(op, lhs, amount, false)
            },
            (Provider::Const(lhs), Provider::Register(rhs)) => {
                if let Some(rewrite) = op.imm_reg_rule(lhs) {
                    self.push_provider(rewrite.provider(rhs));
                    return Ok(());
                }
                if ty.is_zero(lhs) {
                    self.stack.push_const(ty.canonical(lhs));
                    return Ok(());
                }
                self.push_binary_instr_narrowest(op, rhs, lhs, true)
            },
            (Provider::Const(lhs), Provider::Const(rhs)) => self.push_binary_consteval(
                op,
                lhs,
                rhs,
            ),
        }
    }

    /// Translates a float operator whose operands may not be swapped.
    ///
    /// Two constants are folded. Else an identity of the operator is applied
    /// if one holds of the operands. Else a constant NaN operand is the
    /// result. Else the instruction is emitted in the form that matches the
    /// place of the constant, if there is one, which the next instruction
    /// carries.
    pub fn translate_fbinary(&mut self, op: BinaryOp) -> (res: Result<(), TranslationError>)
        requires
            old(self).wf(),
            op.template() is FBinary,
            old(self)@.reachable ==> old(self)@.stack.len() >= 2,
        ensures
            final(self).wf(),
            old(self)@.binary_step(op, final(self)@, outcome(res)),
    {
        if !self.reachable {
            return Ok(());
        }
        let ty = op.operand_type();
        match self.stack.pop2() {
            (Provider::Register(lhs), Provider::Register(rhs)) => {
                if self.try_same_register_rule(op, lhs, rhs) {
                    return Ok(());
                }
                self.push_binary_instr(op, lhs, rhs)
            },
            (Provider::Register(lhs), Provider::Const(rhs)) => {
                if let Some(rewrite) = op.reg_imm_rule(rhs) {
                    self.push_provider(rewrite.provider(lhs));
                    return Ok(());
                }
                if ty.is_nan(rhs) {
                    self.stack.push_const(ty.canonical(rhs));
                    return Ok(());
                }
                proof {
                    lemma_float_has_no_const16(op, rhs);
                }
                self.push_binary_instr_imm(op, lhs, rhs, false)
            },
            (Provider::Const(lhs), Provider::Register(rhs)) => {
                if let Some(rewrite) = op.imm_reg_rule(lhs) {
                    self.push_provider(rewrite.provider(rhs));
                    return Ok(());
                }
                if ty.is_nan(lhs) {
                    self.stack.push_const(ty.canonical(lhs));
                    return Ok(());
                }
                proof {
                    lemma_float_has_no_const16(op, lhs);
                }
                self.push_binary_instr_imm(op, rhs, lhs, true)
            },
            (Provider::Const(lhs), Provider::Const(rhs)) => self.push_binary_consteval(
                op,
                lhs,
                rhs,
            ),
        }
    }

    /// Translates a float operator whose operands may be swapped.
    ///
    /// Two constants are folded. Else an identity of the operator is applied
    /// if one holds of the operands. Else a constant NaN operand is the
    /// result. Else the instruction is emitted; a constant operand is its
    /// immediate wherever it stood, and the next instruction carries it.
    pub fn translate_fbinary_commutative(&mut self, op: BinaryOp) -> (res: Result<
        (),
        TranslationError,
    >)
        requires
            old(self).wf(),
            op.template() is FBinaryCommutative,
            old(self)@.reachable ==> old(self)@.stack.len() >= 2,
        ensures
            final(self).wf(),
            old(self)@.binary_step(op, final(self)@, outcome(res)),
    {
        if !self.reachable {
            return Ok(());
        }
        let ty = op.operand_type();
        match self.stack.pop2() {
            (Provider::Register(lhs), Provider::Register(rhs)) => {
                if self.try_same_register_rule(op, lhs, rhs) {
                    return Ok(());
                }
                self.push_binary_instr(op, lhs, rhs)
            },
            (Provider::Register(reg_in), Provider::Const(imm_in)) => {
                if let Some(rewrite) = op.reg_imm_rule(imm_in) {
                    self.push_provider(rewrite.provider(reg_in));
                    return Ok(());
                }
                if ty.is_nan(imm_in) {
                    self.stack.push_const(ty.canonical(imm_in));
                    return Ok(());
                }
                proof {
                    lemma_float_has_no_const16(op, imm_in);
                }
                self.push_binary_instr_imm(op, reg_in, imm_in, false)
            },
            (Provider::Const(imm_in), Provider::Register(reg_in)) => {
                if let Some(rewrite) = op.reg_imm_rule(imm_in) {
                    self.push_provider(rewrite.provider(reg_in));
                    return Ok(());
                }
                if ty.is_nan(imm_in) {
                    self.stack.push_const(ty.canonical(imm_in));
                    return Ok(());
                }
                proof {
                    lemma_float_has_no_const16(op, imm_in);
                }
                self.push_binary_instr_imm(op, reg_in, imm_in, true)
            },
            (Provider::Const(lhs), Provider::Const(rhs)) => self.push_binary_consteval(
                op,
                lhs,
                rhs,
            ),
        }
    }

    /// Translates the float sign copy.
    ///
    /// Two constants are folded. The sign copy of a register to itself is
    /// that register. Else the instruction is emitted in the form that
    /// matches the place of the constant, if there is one, which the next
    /// instruction carries. No NaN operand decides the result.
    pub fn translate_fcopysign(&mut self, op: BinaryOp) -> (res: Result<(), TranslationError>)
        requires
            old(self).wf(),
            op.template() is FCopysign,
            old(self)@.reachable ==> old(self)@.stack.len() >= 2,
        ensures
            final(self).wf(),
            old(self)@.binary_step(op, final(self)@, outcome(res)),
    {
        if !self.reachable {
            return Ok(());
        }
        let ty = op.operand_type();
        match self.stack.pop2() {
            (Provider::Register(lhs), Provider::Register(rhs)) => {
                if self.try_same_register_rule(op, lhs, rhs) {
                    return Ok(());
                }
                self.push_binary_instr(op, lhs, rhs)
            },
            (Provider::Register(lhs), Provider::Const(rhs)) => {
                proof {
                    lemma_float_has_no_const16(op, rhs);
                    lemma_no_reg_imm_rule(op, rhs);
                }
                self.push_binary_instr_imm(op, lhs, rhs, false)
            },
            (Provider::Const(lhs), Provider::Register(rhs)) => {
                proof {
                    lemma_float_has_no_const16(op, lhs);
                    lemma_no_imm_reg_rule(op, lhs);
                }
                self.push_binary_instr_imm(op, rhs, lhs, true)
            },
            (Provider::Const(lhs), Provider::Const(rhs)) => self.push_binary_consteval(
                op,
                lhs,
                rhs,
            ),
        }
    }

    /// Translates a binary operator with the template that the operator
    /// follows.
    pub fn translate_binary_op(&mut self, op: BinaryOp) -> (res: Result<(), TranslationError>)
        requires
            old(self).wf(),
            old(self)@.reachable ==> old(self)@.stack.len() >= 2,
        ensures
            final(self).wf(),
            old(self)@.binary_step(op, final(self)@, outcome(res)),
    {
        match op.template() {
            Template::Binary => self.translate_binary(op),
            Template::BinaryCommutative => self.translate_binary_commutative(op),
            Template::DivRem => self.translate_divrem(op),
            Template::Shift => self.translate_shift(op),
            Template::FBinary => self.translate_fbinary(op),
            Template::FBinaryCommutative => self.translate_fbinary_commutative(op),
            Template::FCopysign => self.translate_fcopysign(op),
        }
    }

    /// Translates a unary operator: pops its operand and folds it if it is a
    /// constant, else emits the instruction. Unreachable code is skipped.
    pub fn translate_unary(&mut self, op: UnaryOp) -> (res: Result<(), TranslationError>)
        requires
            old(self).wf(),
            old(self)@.reachable ==> old(self)@.stack.len() >= 1,
        ensures
            final(self).wf(),
            old(self)@.unary_step(op, final(self)@, outcome(res)),
    {
        if !self.reachable {
            return Ok(());
        }
        match self.stack.pop() {
            Provider::Register(input) => {
                let result = match self.stack.push_dynamic() {
                    Ok(result) => result,
                    Err(error) => {
                        return Err(error);
                    },
                };
                self.push_instr(Instruction::unary(op, result, input))
            },
            Provider::Const(input) => {
                let value = op.eval(input);
                self.stack.push_const(value);
                proof {
                    assert(self@.stack.peek(0) == Provider::Const(value));
                }
                Ok(())
            },
        }
    }
}

/// A shift or rotation has no identity for two equal registers.
proof fn lemma_no_same_register_rule(op: BinaryOp)
    requires
        op.template() is Shift,
    ensures
        op.same_register_rule() is None,
{
}

/// Only an integer operator whose operands may not be swapped, or a shift,
/// has an identity for a constant left operand.
proof fn lemma_no_imm_reg_rule(op: BinaryOp, imm: UntypedValue)
    requires
        op.template() is DivRem || op.template() is FCopysign,
    ensures
        op.imm_reg_rule(imm) is None,
{
}

/// The float sign copy has no identity for a constant right operand.
proof fn lemma_no_reg_imm_rule(op: BinaryOp, imm: UntypedValue)
    requires
        op.template() is FCopysign,
    ensures
        op.reg_imm_rule(imm) is None,
{
}

/// No float constant has a 16-bit immediate.
proof fn lemma_float_has_no_const16(op: BinaryOp, imm: UntypedValue)
    requires
        op.template() is FBinary || op.template() is FBinaryCommutative || op.template()
            is FCopysign,
    ensures
        op.operand_type().try_const16(imm) is None,
{
}

} // verus!
