//! What holds of every translation: the laws of constant folding, of the
//! identities, of the encoding of immediates and of unreachable code.

use crate::bytecode::{BinaryOp, Instruction, Register};
use crate::error::TranslationErrorInner;
use crate::operator::{Action, Operator};
use crate::plan::Plan;
use crate::stack::{lemma_drop_keeps_order, lemma_push_keeps_order, Provider};
use crate::translator::TranslatorView;
use crate::value::{TrapCode, UntypedValue};
use vstd::prelude::*;

verus! {

/// Popping what was pushed gives back the stack from before.
pub proof fn lemma_push_drop(pre: TranslatorView, lhs: Provider, rhs: Provider)
    ensures
        pre.push(lhs).drop(1) == pre,
        pre.push(lhs).push(rhs).drop(2) == pre,
        pre.push(lhs).stack.peek(0) == lhs,
        pre.push(lhs).push(rhs).stack.peek(0) == rhs,
        pre.push(lhs).push(rhs).stack.peek(1) == lhs,
{
    let one = pre.stack.providers.push(lhs);
    let two = one.push(rhs);
    assert(one.take(one.len() - 1) == pre.stack.providers);
    assert(two.take(two.len() - 2) == pre.stack.providers);
}

/// An operator that is translated in unreachable code emits nothing and leaves
/// the operand stack, the constant pool and the reachability as they are. It
/// fails only if the translator does not translate the operator at all.
pub proof fn lemma_unreachable_is_skipped(
    pre: TranslatorView,
    op: Operator,
    post: TranslatorView,
    error: Option<TranslationErrorInner>,
)
    requires
        !pre.reachable,
        pre.operator_step(op, post, error),
    ensures
        post == pre,
        error is None <==> op.is_implemented(),
{
}

/// An operator on two constants is folded: it emits no instruction for the
/// operation. Where the operator has a value on them, that value is pushed as
/// a constant and nothing else changes; an integer result is determined to the
/// bit, a float result but for which NaN it is. Where the operator traps on
/// them, the trap is emitted in its place with the trap code of the operator,
/// and the code after it is unreachable.
pub proof fn lemma_constant_folding(
    pre: TranslatorView,
    op: BinaryOp,
    lhs: UntypedValue,
    rhs: UntypedValue,
    post: TranslatorView,
    error: Option<TranslationErrorInner>,
)
    requires
        pre.reachable,
        pre.push(Provider::Const(lhs)).push(Provider::Const(rhs)).binary_step(op, post, error),
    ensures
        match op.spec_eval(lhs, rhs) {
            Ok(expected) => {
                &&& error is None
                &&& post.stack.len() == pre.stack.len() + 1
                &&& post.stack.peek(0) matches Provider::Const(actual)
                &&& op.precision().admits(actual, expected)
                &&& post == pre.push(Provider::Const(actual))
            },
            Err(code) => {
                &&& error is None <==> pre.instrs.has_room(1)
                &&& error is None ==> post == (TranslatorView {
                    reachable: false,
                    ..pre.emit(Instruction::Trap(code))
                })
            },
        },
        op.precision() is Exact ==> (op.spec_eval(lhs, rhs) matches Ok(expected) ==> post
            == pre.push(Provider::Const(expected))),
{
    lemma_push_drop(pre, Provider::Const(lhs), Provider::Const(rhs));
}

/// Whether the instruction returns an immediate: a constant that it holds or
/// refers to.
pub open spec fn is_return_imm(instr: Instruction) -> bool {
    instr is ReturnImm32 || instr is ReturnI64Imm32 || instr is ReturnImm
}

/// A function that computes its one result from two constants consists of one
/// instruction, which returns an immediate, or of the trap.
///
/// The immediate is the 32-bit constant of an `i32` or `f32` result, the
/// 32-bit constant that sign extends to an `i64` result, or the reference to
/// the pool slot of the result.
pub proof fn lemma_folded_function(
    pre: TranslatorView,
    op: BinaryOp,
    lhs: UntypedValue,
    rhs: UntypedValue,
    folded: TranslatorView,
    post: TranslatorView,
)
    requires
        pre.reachable,
        pre.results.len() == 1,
        pre.push(Provider::Const(lhs)).push(Provider::Const(rhs)).binary_step(op, folded, None),
        folded.return_step(post, None),
    ensures
        post.instrs.instrs.len() == pre.instrs.instrs.len() + 1,
        post.instrs.instrs.take(pre.instrs.instrs.len() as int) == pre.instrs.instrs,
        op.spec_eval(lhs, rhs) is Ok ==> is_return_imm(post.instrs.instrs.last()),
        op.spec_eval(lhs, rhs) matches Err(code) ==> post.instrs.instrs.last()
            == Instruction::Trap(code),
{
    lemma_constant_folding(pre, op, lhs, rhs, folded, None);
    match op.spec_eval(lhs, rhs) {
        Ok(expected) => {
            let actual = folded.stack.peek(0)->Const_0;
            lemma_push_drop(pre, Provider::Const(actual), Provider::Const(actual));
            assert(post.instrs.instrs == pre.instrs.instrs.push(folded.return_instr()));
            assert(pre.instrs.instrs.push(folded.return_instr()).take(
                pre.instrs.instrs.len() as int,
            ) == pre.instrs.instrs);
        },
        Err(code) => {
            assert(post == folded);
            assert(pre.instrs.instrs.push(Instruction::Trap(code)).take(
                pre.instrs.instrs.len() as int,
            ) == pre.instrs.instrs);
        },
    }
}

/// A function that computes its one result from two constants returns the
/// result of the operator on them: the one instruction that it consists of
/// hands out that value, as the result type holds it. A float result is
/// determined but for which NaN it is.
pub proof fn lemma_folded_function_returns_result(
    pre: TranslatorView,
    op: BinaryOp,
    lhs: UntypedValue,
    rhs: UntypedValue,
    folded: TranslatorView,
    post: TranslatorView,
    regs: spec_fn(Register) -> UntypedValue,
)
    requires
        pre.reachable,
        pre.results.len() == 1,
        pre.results[0].is_num(),
        pre.consts.wf(),
        op.spec_eval(lhs, rhs) is Ok,
        pre.push(Provider::Const(lhs)).push(Provider::Const(rhs)).binary_step(op, folded, None),
        folded.return_step(post, None),
    ensures
        post.instrs.instrs == pre.instrs.instrs.push(folded.return_instr()),
        folded.stack.peek(0) matches Provider::Const(actual) && op.precision().admits(
            actual,
            op.spec_eval(lhs, rhs)->Ok_0,
        ) && crate::semantics::result_canonical(
            pre.results[0],
            crate::semantics::returned_value(post.instrs.instrs.last(), post.consts.values, regs),
        ) == crate::semantics::result_canonical(pre.results[0], actual),
{
    lemma_constant_folding(pre, op, lhs, rhs, folded, None);
    let actual = folded.stack.peek(0)->Const_0;
    lemma_push_drop(pre, Provider::Const(actual), Provider::Const(actual));
    crate::semantics::lemma_return_hands_out_result(folded, regs);
}

/// A division or remainder by the constant zero traps with a division by zero,
/// whatever the dividend is.
pub proof fn lemma_division_by_zero_traps(op: BinaryOp, lhs: UntypedValue, rhs: UntypedValue)
    requires
        op.template() is DivRem,
        op.operand_type().is_zero(rhs),
    ensures
        op.spec_eval(lhs, rhs) == Err::<UntypedValue, TrapCode>(TrapCode::IntegerDivisionByZero),
{
}

/// An operator on twice the same register that has an identity for it emits
/// nothing and is replaced by what the identity says, the register or a
/// constant.
pub proof fn lemma_same_register_rewrite(
    pre: TranslatorView,
    op: BinaryOp,
    register: Register,
    post: TranslatorView,
    error: Option<TranslationErrorInner>,
)
    requires
        pre.reachable,
        op.same_register_rule() is Some,
        pre.push(Provider::Register(register)).push(Provider::Register(register)).binary_step(
            op,
            post,
            error,
        ),
    ensures
        error is None,
        post == pre.push(op.same_register_rule().unwrap().provider(register)),
{
    lemma_push_drop(pre, Provider::Register(register), Provider::Register(register));
}

/// The identities for equal registers of the integer operators: `x - x`, `x ^
/// x` and `x % x` are `0`, `x / x` is `1`, `x & x` and `x | x` are `x`.
pub proof fn lemma_same_register_rules()
    ensures
        BinaryOp::I32Sub.same_register_rule() == Some(
            crate::ops::Rewrite::Const(UntypedValue { bits: 0 }),
        ),
        BinaryOp::I64Sub.same_register_rule() == Some(
            crate::ops::Rewrite::Const(UntypedValue { bits: 0 }),
        ),
        BinaryOp::I32Xor.same_register_rule() == Some(
            crate::ops::Rewrite::Const(UntypedValue { bits: 0 }),
        ),
        BinaryOp::I64Xor.same_register_rule() == Some(
            crate::ops::Rewrite::Const(UntypedValue { bits: 0 }),
        ),
        BinaryOp::I32RemS.same_register_rule() == Some(
            crate::ops::Rewrite::Const(UntypedValue { bits: 0 }),
        ),
        BinaryOp::I32RemU.same_register_rule() == Some(
            crate::ops::Rewrite::Const(UntypedValue { bits: 0 }),
        ),
        BinaryOp::I64RemS.same_register_rule() == Some(
            crate::ops::Rewrite::Const(UntypedValue { bits: 0 }),
        ),
        BinaryOp::I64RemU.same_register_rule() == Some(
            crate::ops::Rewrite::Const(UntypedValue { bits: 0 }),
        ),
        BinaryOp::I32DivS.same_register_rule() == Some(
            crate::ops::Rewrite::Const(UntypedValue { bits: 1 }),
        ),
        BinaryOp::I32DivU.same_register_rule() == Some(
            crate::ops::Rewrite::Const(UntypedValue { bits: 1 }),
        ),
        BinaryOp::I64DivS.same_register_rule() == Some(
            crate::ops::Rewrite::Const(UntypedValue { bits: 1 }),
        ),
        BinaryOp::I64DivU.same_register_rule() == Some(
            crate::ops::Rewrite::Const(UntypedValue { bits: 1 }),
        ),
        BinaryOp::I32And.same_register_rule() == Some(crate::ops::Rewrite::Operand),
        BinaryOp::I64And.same_register_rule() == Some(crate::ops::Rewrite::Operand),
        BinaryOp::I32Or.same_register_rule() == Some(crate::ops::Rewrite::Operand),
        BinaryOp::I64Or.same_register_rule() == Some(crate::ops::Rewrite::Operand),
{
}

/// An operator on a register and a constant, in either order, that has an
/// identity for that constant in that place emits nothing and is replaced by
/// what the identity says, the register or a constant. The exceptions are a
/// shift by a constant number of bits and a division or remainder by zero,
/// which are decided first.
pub proof fn lemma_imm_rewrite(
    pre: TranslatorView,
    op: BinaryOp,
    register: Register,
    imm: UntypedValue,
    imm_on_left: bool,
    post: TranslatorView,
    error: Option<TranslationErrorInner>,
)
    requires
        pre.reachable,
        op.imm_rule(imm, imm_on_left) is Some,
        imm_on_left || !(op.template() is Shift),
        imm_on_left || !(op.template() is DivRem && op.operand_type().is_zero(imm)),
        if imm_on_left {
            pre.push(Provider::Const(imm)).push(Provider::Register(register)).binary_step(
                op,
                post,
                error,
            )
        } else {
            pre.push(Provider::Register(register)).push(Provider::Const(imm)).binary_step(
                op,
                post,
                error,
            )
        },
    ensures
        error is None,
        post == pre.push(op.imm_rule(imm, imm_on_left).unwrap().provider(register)),
{
    lemma_push_drop(pre, Provider::Const(imm), Provider::Register(register));
    lemma_push_drop(pre, Provider::Register(register), Provider::Const(imm));
}

/// The bitwise conjunction with the constant of all ones is the other operand:
/// `x & -1` is replaced by the register of `x`.
pub proof fn lemma_and_all_ones_rule(imm_on_left: bool)
    ensures
        BinaryOp::I32And.imm_rule(UntypedValue::from_i32(-1i32), imm_on_left) == Some(
            crate::ops::Rewrite::Operand,
        ),
        BinaryOp::I64And.imm_rule(UntypedValue::from_i64(-1i64), imm_on_left) == Some(
            crate::ops::Rewrite::Operand,
        ),
{
    assert((-1i32) as u32 as u64 as u32 as i32 == -1i32) by (bit_vector);
    assert((-1i64) as u64 as i64 == -1i64) by (bit_vector);
}

/// The equality of a register with a constant NaN, in either order, is the
/// constant `0`, and the inequality is the constant `1`, for `f32` and `f64`
/// alike.
pub proof fn lemma_nan_comparison_rules(op: BinaryOp, imm: UntypedValue, imm_on_left: bool)
    requires
        op.operand_type().is_nan(imm),
    ensures
        (op is F32Eq || op is F64Eq) ==> op.imm_rule(imm, imm_on_left) == Some(
            crate::ops::Rewrite::Const(UntypedValue::from_bool(false)),
        ),
        (op is F32Ne || op is F64Ne) ==> op.imm_rule(imm, imm_on_left) == Some(
            crate::ops::Rewrite::Const(UntypedValue::from_bool(true)),
        ),
{
}

/// Whether the operator on a register and the constant `imm` is decided
/// without an instruction on the constant: by the number of bits of a shift,
/// by the trap of a division by zero, by an identity, by a shifted zero or by
/// a NaN operand.
pub open spec fn is_simplified(op: BinaryOp, imm: UntypedValue, imm_on_left: bool) -> bool {
    ||| op.template() is Shift && !imm_on_left
    ||| op.template() is DivRem && !imm_on_left && op.operand_type().is_zero(imm)
    ||| op.imm_rule(imm, imm_on_left) is Some
    ||| op.template() is Shift && op.operand_type().is_zero(imm)
    ||| op.template().propagates_nan() && op.operand_type().is_nan(imm)
}

/// An operator on a register and a constant that is not simplified is emitted
/// in the narrowest encoding that holds the constant. A constant that fits 16
/// bits is held by the instruction itself. Else the next instruction carries
/// it: as 32-bit immediate if it fits 32 bits, else by the reference to its
/// slot in the pool.
pub proof fn lemma_encoding_tiers(
    pre: TranslatorView,
    op: BinaryOp,
    register: Register,
    imm: UntypedValue,
    imm_on_left: bool,
    post: TranslatorView,
)
    requires
        pre.reachable,
        !is_simplified(op, imm, imm_on_left),
        if imm_on_left {
            pre.push(Provider::Const(imm)).push(Provider::Register(register)).binary_step(
                op,
                post,
                None,
            )
        } else {
            pre.push(Provider::Register(register)).push(Provider::Const(imm)).binary_step(
                op,
                post,
                None,
            )
        },
    ensures
        post.stack == pre.stack.push(Provider::Register(pre.stack.next_register())),
        match op.operand_type().try_const16(imm) {
            Some(imm16) => {
                &&& post.instrs.instrs == pre.instrs.instrs.push(
                    op.imm16_instr(pre.stack.next_register(), register, imm16, imm_on_left),
                )
                &&& post.consts == pre.consts
            },
            None => match op.operand_type().try_const32(imm) {
                Some(imm32) => {
                    &&& post.instrs.instrs == pre.instrs.instrs.push(
                        op.imm_instr(pre.stack.next_register(), register, imm_on_left),
                    ).push(Instruction::Const32(imm32))
                    &&& post.consts == pre.consts
                },
                None => {
                    &&& post.instrs.instrs == pre.instrs.instrs.push(
                        op.imm_instr(pre.stack.next_register(), register, imm_on_left),
                    ).push(Instruction::ConstRef(pre.consts.slot(imm)))
                    &&& post.consts == pre.consts.interned(imm)
                },
            },
        },
{
    lemma_push_drop(pre, Provider::Const(imm), Provider::Register(register));
    lemma_push_drop(pre, Provider::Register(register), Provider::Const(imm));
}

/// A constant that is encoded a second time is carried by the same instruction
/// as the first time, and the pool does not change again.
pub proof fn lemma_same_literal_shares_slot(
    pre: TranslatorView,
    ty: crate::ops::OperandType,
    imm: UntypedValue,
)
    requires
        pre.consts.wf(),
        pre.can_encode_imm(ty, imm),
    ensures
        pre.encode_imm(ty, imm).can_encode_imm(ty, imm),
        pre.encode_imm(ty, imm).imm_param(ty, imm) == pre.imm_param(ty, imm),
        pre.encode_imm(ty, imm).encode_imm(ty, imm) == pre.encode_imm(ty, imm),
{
    if ty.try_const32(imm) is None {
        crate::consts::lemma_intern_twice(pre.consts, imm);
    }
}

/// An operator whose operands may not be swapped is emitted as one instruction
/// for a constant on the right and as another for a constant on the left, in
/// the 16-bit encoding and in the wider one.
pub proof fn lemma_operand_order_is_kept(
    op: BinaryOp,
    result: Register,
    register: Register,
    imm16: crate::bytecode::Const16,
)
    requires
        !op.template().is_commutative(),
    ensures
        op.imm16_instr(result, register, imm16, false) != op.imm16_instr(
            result,
            register,
            imm16,
            true,
        ),
        op.imm_instr(result, register, false) != op.imm_instr(result, register, true),
{
}

/// An operator whose operands may be swapped is emitted as the same
/// instruction wherever the constant stood.
pub proof fn lemma_commutative_order_is_dropped(
    op: BinaryOp,
    register: Register,
    imm: UntypedValue,
    result: Register,
)
    requires
        op.template().is_commutative(),
    ensures
        op.plan_imm(register, imm, false, result) == op.plan_imm(register, imm, true, result),
{
}

/// Whether `before` is the beginning of `after`.
pub open spec fn is_prefix<T>(before: Seq<T>, after: Seq<T>) -> bool {
    before.len() <= after.len() && after.take(before.len() as int) == before
}

/// An operator that is translated without error leaves the emitted
/// instructions and the pooled constants where they are and only appends to
/// them. The result types and the number of locals stay.
pub proof fn lemma_translation_appends(
    pre: TranslatorView,
    op: Operator,
    post: TranslatorView,
)
    requires
        pre.accepts(op),
        pre.operator_step(op, post, None),
    ensures
        is_prefix(pre.instrs.instrs, post.instrs.instrs),
        is_prefix(pre.consts.values, post.consts.values),
        post.results == pre.results,
        post.stack.len_locals == pre.stack.len_locals,
        post.instrs.limit == pre.instrs.limit,
        post.consts.capacity == pre.consts.capacity,
{
    let instrs = pre.instrs.instrs;
    let values = pre.consts.values;
    assert(instrs.take(instrs.len() as int) == instrs);
    assert(values.take(values.len() as int) == values);
    assert forall|a: Instruction| #[trigger] instrs.push(a).take(instrs.len() as int) == instrs by {}
    assert forall|a: Instruction, b: Instruction| #[trigger]
        instrs.push(a).push(b).take(instrs.len() as int) == instrs by {}
    assert forall|v: UntypedValue| #[trigger] values.push(v).take(values.len() as int) == values by {}
    if pre.reachable {
        match op.action() {
            Action::Return => {},
            Action::LocalGet(_) => {},
            Action::Const(_) => {},
            Action::Eqz(eq) => {
                let pushed = pre.push(Provider::Const(UntypedValue { bits: 0 }));
                lemma_plan_appends(
                    pushed.drop(2),
                    eq.plan(
                        pushed.stack.peek(1),
                        pushed.stack.peek(0),
                        pushed.drop(2).stack.next_register(),
                    ),
                    post,
                );
            },
            Action::Unary(unary) => {
                lemma_plan_appends(
                    pre.drop(1),
                    unary.plan(pre.stack.peek(0), pre.drop(1).stack.next_register()),
                    post,
                );
            },
            Action::Binary(binary) => {
                lemma_plan_appends(
                    pre.drop(2),
                    binary.plan(
                        pre.stack.peek(1),
                        pre.stack.peek(0),
                        pre.drop(2).stack.next_register(),
                    ),
                    post,
                );
            },
            Action::Unsupported => {},
        }
    }
}

/// Carrying out a plan only appends to the emitted instructions and to the
/// pooled constants.
pub proof fn lemma_plan_appends(pre: TranslatorView, plan: Plan, post: TranslatorView)
    requires
        pre.step(plan, post, None),
    ensures
        is_prefix(pre.instrs.instrs, post.instrs.instrs),
        is_prefix(pre.consts.values, post.consts.values),
        post.results == pre.results,
        post.stack.len_locals == pre.stack.len_locals,
        post.instrs.limit == pre.instrs.limit,
        post.consts.capacity == pre.consts.capacity,
{
    let instrs = pre.instrs.instrs;
    let values = pre.consts.values;
    assert(instrs.take(instrs.len() as int) == instrs);
    assert(values.take(values.len() as int) == values);
    assert forall|a: Instruction| #[trigger] instrs.push(a).take(instrs.len() as int) == instrs by {}
    assert forall|a: Instruction, b: Instruction| #[trigger]
        instrs.push(a).push(b).take(instrs.len() as int) == instrs by {}
    assert forall|v: UntypedValue| #[trigger] values.push(v).take(values.len() as int) == values by {}
}

/// Translating a binary operator keeps the registers of the operand stack in
/// the order in which they are acquired.
pub proof fn lemma_binary_step_keeps_order(
    pre: TranslatorView,
    op: BinaryOp,
    post: TranslatorView,
)
    requires
        pre.stack.is_ordered(),
        pre.reachable ==> pre.stack.len() >= 2,
        pre.binary_step(op, post, None),
    ensures
        post.stack.is_ordered(),
{
    if pre.reachable {
        let n = pre.stack.len_locals;
        let len = pre.stack.providers.len() as int;
        let base = pre.drop(2);
        let lhs = pre.stack.peek(1);
        let rhs = pre.stack.peek(0);
        lemma_drop_keeps_order(pre.stack, 2);
        lemma_drop_keeps_order(pre.stack, 1);
        // The slots below the right operand are those below the left one
        // and the left one.
        assert(pre.stack.drop(1).providers == base.stack.providers.push(lhs));
        crate::stack::lemma_count_dynamic_push(base.stack.providers, lhs, n);
        let plan = op.plan(lhs, rhs, base.stack.next_register());
        match plan {
            Plan::Push(provider) => {
                lemma_push_keeps_order(base.stack, provider);
            },
            Plan::Fold(_, _) => {
                lemma_push_keeps_order(base.stack, post.stack.peek(0));
            },
            Plan::Trap(_) => {},
            Plan::Emit(_) => {
                lemma_push_keeps_order(
                    base.stack,
                    Provider::Register(base.stack.next_register()),
                );
            },
            Plan::EmitImm(_, _, _) => {
                lemma_push_keeps_order(
                    base.stack,
                    Provider::Register(base.stack.next_register()),
                );
            },
        }
    }
}

/// Translating an operator keeps the registers of the operand stack in the
/// order in which they are acquired. The register that an emitted instruction
/// writes to is therefore held by no slot that stays on the stack, by
/// [`lemma_next_register_is_fresh`](crate::stack::lemma_next_register_is_fresh).
pub proof fn lemma_translation_keeps_order(pre: TranslatorView, op: Operator, post: TranslatorView)
    requires
        pre.stack.is_ordered(),
        pre.accepts(op),
        pre.operator_step(op, post, None),
    ensures
        post.stack.is_ordered(),
{
    if pre.reachable {
        match op.action() {
            Action::Return => {
                lemma_drop_keeps_order(pre.stack, pre.results.len());
            },
            Action::LocalGet(local_index) => {
                lemma_push_keeps_order(
                    pre.stack,
                    Provider::Register(Register { index: local_index as u16 }),
                );
            },
            Action::Const(value) => {
                lemma_push_keeps_order(pre.stack, Provider::Const(value));
            },
            Action::Eqz(eq) => {
                let zero = Provider::Const(UntypedValue { bits: 0 });
                lemma_push_keeps_order(pre.stack, zero);
                lemma_binary_step_keeps_order(pre.push(zero), eq, post);
            },
            Action::Unary(unary) => {
                let base = pre.drop(1);
                lemma_drop_keeps_order(pre.stack, 1);
                match unary.plan(pre.stack.peek(0), base.stack.next_register()) {
                    Plan::Fold(_, _) => {
                        lemma_push_keeps_order(base.stack, post.stack.peek(0));
                    },
                    _ => {
                        lemma_push_keeps_order(
                            base.stack,
                            Provider::Register(base.stack.next_register()),
                        );
                    },
                }
            },
            Action::Binary(binary) => {
                lemma_binary_step_keeps_order(pre, binary, post);
            },
            Action::Unsupported => {},
        }
    }
}

} // verus!
