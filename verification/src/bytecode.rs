//! The bytecode that the translator emits.

use crate::value::TrapCode;
use vstd::prelude::*;

verus! {

/// A register of the function's register file, by its index.
///
/// The registers with the lowest indices hold the function's parameters and
/// locals; those above them hold intermediate values.
#[derive(Clone, Copy, Debug, PartialEq, Eq, Structural)]
pub struct Register {
    /// The index of the register.
    pub index: u16,
}

impl Register {
    pub open spec fn spec_from_u16(index: u16) -> Register {
        Register { index }
    }

    /// The register with the given index.
    #[verifier::when_used_as_spec(spec_from_u16)]
    pub fn from_u16(index: u16) -> (res: Register)
        ensures
            res == Self::spec_from_u16(index),
    {
        Register { index }
    }

    pub open spec fn spec_to_u16(self) -> u16 {
        self.index
    }

    /// The index of the register.
    #[verifier::when_used_as_spec(spec_to_u16)]
    pub fn to_u16(self) -> (res: u16)
        ensures
            res == self.index,
    {
        self.index
    }
}

/// A 16-bit immediate operand. Whether its bits are read as signed or as
/// unsigned is decided by the instruction that carries it.
#[derive(Clone, Copy, Debug, PartialEq, Eq, Structural)]
pub struct Const16 {
    /// The 16 bits of the immediate.
    pub bits: u16,
}

impl Const16 {
    pub open spec fn spec_from_i16(value: i16) -> Const16 {
        Const16 { bits: value as u16 }
    }

    /// The immediate with the two's complement bits of `value`.
    #[verifier::when_used_as_spec(spec_from_i16)]
    pub fn from_i16(value: i16) -> (res: Const16)
        ensures
            res == Self::spec_from_i16(value),
    {
        Const16 { bits: value as u16 }
    }

    pub open spec fn spec_from_u16(value: u16) -> Const16 {
        Const16 { bits: value }
    }

    /// The immediate with the bits of `value`.
    #[verifier::when_used_as_spec(spec_from_u16)]
    pub fn from_u16(value: u16) -> (res: Const16)
        ensures
            res == Self::spec_from_u16(value),
    {
        Const16 { bits: value }
    }

    pub open spec fn spec_to_i16(self) -> i16 {
        self.bits as i16
    }

    /// The immediate read as a signed integer.
    #[verifier::when_used_as_spec(spec_to_i16)]
    pub fn to_i16(self) -> (res: i16)
        ensures
            res == self.spec_to_i16(),
    {
        self.bits as i16
    }

    pub open spec fn spec_to_u16(self) -> u16 {
        self.bits
    }

    /// The immediate read as an unsigned integer.
    #[verifier::when_used_as_spec(spec_to_u16)]
    pub fn to_u16(self) -> (res: u16)
        ensures
            res == self.bits,
    {
        self.bits
    }
}

/// A 32-bit immediate operand: an `i32`, a `u32`, the bit pattern of an
/// `f32`, or a 64-bit integer that its 32 bits represent when extended.
#[derive(Clone, Copy, Debug, PartialEq, Eq, Structural)]
pub struct Const32 {
    /// The 32 bits of the immediate.
    pub bits: u32,
}

impl Const32 {
    pub open spec fn spec_from_i32(value: i32) -> Const32 {
        Const32 { bits: value as u32 }
    }

    /// The immediate with the two's complement bits of `value`.
    #[verifier::when_used_as_spec(spec_from_i32)]
    pub fn from_i32(value: i32) -> (res: Const32)
        ensures
            res == Self::spec_from_i32(value),
    {
        Const32 { bits: value as u32 }
    }

    pub open spec fn spec_from_u32(value: u32) -> Const32 {
        Const32 { bits: value }
    }

    /// The immediate with the bits of `value`.
    #[verifier::when_used_as_spec(spec_from_u32)]
    pub fn from_u32(value: u32) -> (res: Const32)
        ensures
            res == Self::spec_from_u32(value),
    {
        Const32 { bits: value }
    }

    pub open spec fn spec_from_f32_bits(bits: u32) -> Const32 {
        Const32 { bits }
    }

    /// The immediate that holds an `f32` by its bit pattern.
    #[verifier::when_used_as_spec(spec_from_f32_bits)]
    pub fn from_f32_bits(bits: u32) -> (res: Const32)
        ensures
            res == Self::spec_from_f32_bits(bits),
    {
        Const32 { bits }
    }

    pub open spec fn spec_from_bool(value: bool) -> Const32 {
        Const32 { bits: if value { 1 } else { 0 } }
    }

    /// The immediate `1` for `true` and `0` for `false`.
    #[verifier::when_used_as_spec(spec_from_bool)]
    pub fn from_bool(value: bool) -> (res: Const32)
        ensures
            res == Self::spec_from_bool(value),
    {
        if value {
            Const32 { bits: 1 }
        } else {
            Const32 { bits: 0 }
        }
    }

    pub open spec fn spec_to_i32(self) -> i32 {
        self.bits as i32
    }

    /// The immediate read as a signed integer.
    #[verifier::when_used_as_spec(spec_to_i32)]
    pub fn to_i32(self) -> (res: i32)
        ensures
            res == self.spec_to_i32(),
    {
        self.bits as i32
    }

    pub open spec fn spec_to_u32(self) -> u32 {
        self.bits
    }

    /// The immediate read as an unsigned integer.
    #[verifier::when_used_as_spec(spec_to_u32)]
    pub fn to_u32(self) -> (res: u32)
        ensures
            res == self.bits,
    {
        self.bits
    }
}

/// A reference to a slot of the constant pool.
#[derive(Clone, Copy, Debug, PartialEq, Eq, Structural)]
pub struct ConstRef {
    /// The index of the slot.
    pub index: u32,
}

impl ConstRef {
    pub open spec fn spec_from_u32(index: u32) -> ConstRef {
        ConstRef { index }
    }

    /// The reference to the slot with the given index.
    #[verifier::when_used_as_spec(spec_from_u32)]
    pub fn from_u32(index: u32) -> (res: ConstRef)
        ensures
            res == Self::spec_from_u32(index),
    {
        ConstRef { index }
    }

    pub open spec fn spec_to_u32(self) -> u32 {
        self.index
    }

    /// The index of the referenced slot.
    #[verifier::when_used_as_spec(spec_to_u32)]
    pub fn to_u32(self) -> (res: u32)
        ensures
            res == self.index,
    {
        self.index
    }
}

/// A reference to an emitted instruction, by its position in the sequence.
#[derive(Clone, Copy, Debug, PartialEq, Eq, Structural)]
pub struct Instr {
    /// The position of the instruction.
    pub index: u32,
}

/// The operation of an instruction with two operands.
#[derive(Clone, Copy, Debug, PartialEq, Eq, Structural)]
pub enum BinaryOp {
    /// `i32.eq`: equality.
    I32Eq,
    /// `i32.ne`: inequality.
    I32Ne,
    /// `i32.lt_s`: signed less-than.
    I32LtS,
    /// `i32.lt_u`: unsigned less-than.
    I32LtU,
    /// `i32.gt_s`: signed greater-than.
    I32GtS,
    /// `i32.gt_u`: unsigned greater-than.
    I32GtU,
    /// `i32.le_s`: signed less-or-equal.
    I32LeS,
    /// `i32.le_u`: unsigned less-or-equal.
    I32LeU,
    /// `i32.ge_s`: signed greater-or-equal.
    I32GeS,
    /// `i32.ge_u`: unsigned greater-or-equal.
    I32GeU,
    /// `i32.add`: addition.
    I32Add,
    /// `i32.sub`: subtraction.
    I32Sub,
    /// `i32.mul`: multiplication.
    I32Mul,
    /// `i32.div_s`: signed division.
    I32DivS,
    /// `i32.div_u`: unsigned division.
    I32DivU,
    /// `i32.rem_s`: signed remainder.
    I32RemS,
    /// `i32.rem_u`: unsigned remainder.
    I32RemU,
    /// `i32.and`: bitwise and.
    I32And,
    /// `i32.or`: bitwise or.
    I32Or,
    /// `i32.xor`: bitwise exclusive or.
    I32Xor,
    /// `i32.shl`: shift left.
    I32Shl,
    /// `i32.shr_s`: arithmetic shift right.
    I32ShrS,
    /// `i32.shr_u`: logical shift right.
    I32ShrU,
    /// `i32.rotl`: rotate left.
    I32Rotl,
    /// `i32.rotr`: rotate right.
    I32Rotr,
    /// `i64.eq`: equality.
    I64Eq,
    /// `i64.ne`: inequality.
    I64Ne,
    /// `i64.lt_s`: signed less-than.
    I64LtS,
    /// `i64.lt_u`: unsigned less-than.
    I64LtU,
    /// `i64.gt_s`: signed greater-than.
    I64GtS,
    /// `i64.gt_u`: unsigned greater-than.
    I64GtU,
    /// `i64.le_s`: signed less-or-equal.
    I64LeS,
    /// `i64.le_u`: unsigned less-or-equal.
    I64LeU,
    /// `i64.ge_s`: signed greater-or-equal.
    I64GeS,
    /// `i64.ge_u`: unsigned greater-or-equal.
    I64GeU,
    /// `i64.add`: addition.
    I64Add,
    /// `i64.sub`: subtraction.
    I64Sub,
    /// `i64.mul`: multiplication.
    I64Mul,
    /// `i64.div_s`: signed division.
    I64DivS,
    /// `i64.div_u`: unsigned division.
    I64DivU,
    /// `i64.rem_s`: signed remainder.
    I64RemS,
    /// `i64.rem_u`: unsigned remainder.
    I64RemU,
    /// `i64.and`: bitwise and.
    I64And,
    /// `i64.or`: bitwise or.
    I64Or,
    /// `i64.xor`: bitwise exclusive or.
    I64Xor,
    /// `i64.shl`: shift left.
    I64Shl,
    /// `i64.shr_s`: arithmetic shift right.
    I64ShrS,
    /// `i64.shr_u`: logical shift right.
    I64ShrU,
    /// `i64.rotl`: rotate left.
    I64Rotl,
    /// `i64.rotr`: rotate right.
    I64Rotr,
    /// `f32.eq`: equality.
    F32Eq,
    /// `f32.ne`: inequality.
    F32Ne,
    /// `f32.add`: addition.
    F32Add,
    /// `f32.sub`: subtraction.
    F32Sub,
    /// `f32.mul`: multiplication.
    F32Mul,
    /// `f32.div`: division.
    F32Div,
    /// `f32.min`: minimum.
    F32Min,
    /// `f32.max`: maximum.
    F32Max,
    /// `f32.copysign`: sign copy.
    F32Copysign,
    /// `f64.eq`: equality.
    F64Eq,
    /// `f64.ne`: inequality.
    F64Ne,
    /// `f64.add`: addition.
    F64Add,
    /// `f64.sub`: subtraction.
    F64Sub,
    /// `f64.mul`: multiplication.
    F64Mul,
    /// `f64.div`: division.
    F64Div,
    /// `f64.min`: minimum.
    F64Min,
    /// `f64.max`: maximum.
    F64Max,
    /// `f64.copysign`: sign copy.
    F64Copysign,
}

/// The operation of an instruction with one operand.
#[derive(Clone, Copy, Debug, PartialEq, Eq, Structural)]
pub enum UnaryOp {
    /// `i32.clz`: count of leading zeros.
    I32Clz,
    /// `i32.ctz`: count of trailing zeros.
    I32Ctz,
    /// `i32.popcnt`: count of one bits.
    I32Popcnt,
    /// `i64.clz`: count of leading zeros.
    I64Clz,
    /// `i64.ctz`: count of trailing zeros.
    I64Ctz,
    /// `i64.popcnt`: count of one bits.
    I64Popcnt,
    /// `f32.abs`: absolute value.
    F32Abs,
    /// `f32.neg`: negation.
    F32Neg,
    /// `f32.ceil`: rounding up.
    F32Ceil,
    /// `f32.floor`: rounding down.
    F32Floor,
    /// `f32.trunc`: rounding towards zero.
    F32Trunc,
    /// `f32.nearest`: rounding to nearest.
    F32Nearest,
    /// `f32.sqrt`: square root.
    F32Sqrt,
    /// `f64.abs`: absolute value.
    F64Abs,
    /// `f64.neg`: negation.
    F64Neg,
    /// `f64.ceil`: rounding up.
    F64Ceil,
    /// `f64.floor`: rounding down.
    F64Floor,
    /// `f64.trunc`: rounding towards zero.
    F64Trunc,
    /// `f64.nearest`: rounding to nearest.
    F64Nearest,
    /// `f64.sqrt`: square root.
    F64Sqrt,
}

/// One unit of bytecode: an operation with its operands.
///
/// An operand is a register, a 16-bit immediate held by the instruction
/// itself, or an immediate held by the instruction that follows: a
/// [`Instruction::Const32`] or a [`Instruction::ConstRef`].
#[allow(inconsistent_fields)]
#[derive(Clone, Copy, Debug, PartialEq, Eq, Structural)]
pub enum Instruction {
    /// Aborts execution with the given trap code.
    Trap(TrapCode),
    /// Returns from a function without results.
    Return,
    /// Returns the value of a register.
    ReturnReg {
        /// The register that holds the returned value.
        value: Register,
    },
    /// Returns a 32-bit constant: an `i32` or an `f32`.
    ReturnImm32 {
        /// The returned value.
        value: Const32,
    },
    /// Returns the `i64` constant that sign extends the immediate.
    ReturnI64Imm32 {
        /// The low 32 bits of the returned value.
        value: Const32,
    },
    /// Returns a constant of the constant pool.
    ReturnImm {
        /// The slot that holds the returned value.
        value: ConstRef,
    },
    /// The 32-bit immediate operand of the instruction before it.
    Const32(Const32),
    /// The pooled immediate operand of the instruction before it.
    ConstRef(ConstRef),
    /// `result = op(input)`.
    Unary {
        /// The operation.
        op: UnaryOp,
        /// The register that receives the result.
        result: Register,
        /// The register that holds the operand.
        input: Register,
    },
    /// `result = op(lhs, rhs)`.
    Binary {
        /// The operation.
        op: BinaryOp,
        /// The register that receives the result.
        result: Register,
        /// The register that holds the left operand.
        lhs: Register,
        /// The register that holds the right operand.
        rhs: Register,
    },
    /// `result = op(reg_in, imm)`, where `imm` is the immediate that the next
    /// instruction carries.
    BinaryImm {
        /// The operation.
        op: BinaryOp,
        /// The register that receives the result.
        result: Register,
        /// The register that holds the left operand.
        reg_in: Register,
    },
    /// `result = op(imm, reg_in)`, where `imm` is the immediate that the next
    /// instruction carries.
    BinaryImmRev {
        /// The operation.
        op: BinaryOp,
        /// The register that receives the result.
        result: Register,
        /// The register that holds the right operand.
        reg_in: Register,
    },
    /// `result = op(reg_in, imm_in)`.
    BinaryImm16 {
        /// The operation.
        op: BinaryOp,
        /// The register that receives the result.
        result: Register,
        /// The register that holds the left operand.
        reg_in: Register,
        /// The right operand.
        imm_in: Const16,
    },
    /// `result = op(imm_in, reg_in)`.
    BinaryImm16Rev {
        /// The operation.
        op: BinaryOp,
        /// The register that receives the result.
        result: Register,
        /// The left operand.
        imm_in: Const16,
        /// The register that holds the right operand.
        reg_in: Register,
    },
}

impl Instruction {
    pub open spec fn spec_return_reg(index: u16) -> Instruction {
        Instruction::ReturnReg { value: Register { index } }
    }

    /// The instruction that returns the register with the given index.
    #[verifier::when_used_as_spec(spec_return_reg)]
    pub fn return_reg(index: u16) -> (res: Instruction)
        ensures
            res == Self::spec_return_reg(index),
    {
        Instruction::ReturnReg { value: Register { index } }
    }

    pub open spec fn spec_const32(value: Const32) -> Instruction {
        Instruction::Const32(value)
    }

    /// The instruction that carries a 32-bit immediate.
    #[verifier::when_used_as_spec(spec_const32)]
    pub fn const32(value: Const32) -> (res: Instruction)
        ensures
            res == Self::spec_const32(value),
    {
        Instruction::Const32(value)
    }

    pub open spec fn spec_const_ref(index: u32) -> Instruction {
        Instruction::ConstRef(ConstRef { index })
    }

    /// The instruction that carries a reference to the pool slot with the
    /// given index.
    #[verifier::when_used_as_spec(spec_const_ref)]
    pub fn const_ref(index: u32) -> (res: Instruction)
        ensures
            res == Self::spec_const_ref(index),
    {
        Instruction::ConstRef(ConstRef { index })
    }

    pub open spec fn spec_unary(op: UnaryOp, result: Register, input: Register) -> Instruction {
        Instruction::Unary { op, result, input }
    }

    /// The instruction `result = op(input)`.
    #[verifier::when_used_as_spec(spec_unary)]
    pub fn unary(op: UnaryOp, result: Register, input: Register) -> (res: Instruction)
        ensures
            res == Self::spec_unary(op, result, input),
    {
        Instruction::Unary { op, result, input }
    }

    pub open spec fn spec_binary(
        op: BinaryOp,
        result: Register,
        lhs: Register,
        rhs: Register,
    ) -> Instruction {
        Instruction::Binary { op, result, lhs, rhs }
    }

    /// The instruction `result = op(lhs, rhs)` on two registers.
    #[verifier::when_used_as_spec(spec_binary)]
    pub fn binary(op: BinaryOp, result: Register, lhs: Register, rhs: Register) -> (res:
        Instruction)
        ensures
            res == Self::spec_binary(op, result, lhs, rhs),
    {
        Instruction::Binary { op, result, lhs, rhs }
    }

    pub open spec fn spec_binary_imm(op: BinaryOp, result: Register, reg_in: Register) -> Instruction {
        Instruction::BinaryImm { op, result, reg_in }
    }

    /// The instruction `result = op(reg_in, imm)` whose immediate follows it.
    #[verifier::when_used_as_spec(spec_binary_imm)]
    pub fn binary_imm(op: BinaryOp, result: Register, reg_in: Register) -> (res: Instruction)
        ensures
            res == Self::spec_binary_imm(op, result, reg_in),
    {
        Instruction::BinaryImm { op, result, reg_in }
    }

    pub open spec fn spec_binary_imm_rev(
        op: BinaryOp,
        result: Register,
        reg_in: Register,
    ) -> Instruction {
        Instruction::BinaryImmRev { op, result, reg_in }
    }

    /// The instruction `result = op(imm, reg_in)` whose immediate follows it.
    #[verifier::when_used_as_spec(spec_binary_imm_rev)]
    pub fn binary_imm_rev(op: BinaryOp, result: Register, reg_in: Register) -> (res: Instruction)
        ensures
            res == Self::spec_binary_imm_rev(op, result, reg_in),
    {
        Instruction::BinaryImmRev { op, result, reg_in }
    }

    pub open spec fn spec_binary_imm16(
        op: BinaryOp,
        result: Register,
        reg_in: Register,
        imm_in: Const16,
    ) -> Instruction {
        Instruction::BinaryImm16 { op, result, reg_in, imm_in }
    }

    /// The instruction `result = op(reg_in, imm_in)`.
    #[verifier::when_used_as_spec(spec_binary_imm16)]
    pub fn binary_imm16(op: BinaryOp, result: Register, reg_in: Register, imm_in: Const16) -> (res:
        Instruction)
        ensures
            res == Self::spec_binary_imm16(op, result, reg_in, imm_in),
    {
        Instruction::BinaryImm16 { op, result, reg_in, imm_in }
    }

    pub open spec fn spec_binary_imm16_rev(
        op: BinaryOp,
        result: Register,
        imm_in: Const16,
        reg_in: Register,
    ) -> Instruction {
        Instruction::BinaryImm16Rev { op, result, imm_in, reg_in }
    }

    /// The instruction `result = op(imm_in, reg_in)`.
    #[verifier::when_used_as_spec(spec_binary_imm16_rev)]
    pub fn binary_imm16_rev(
        op: BinaryOp,
        result: Register,
        imm_in: Const16,
        reg_in: Register,
    ) -> (res: Instruction)
        ensures
            res == Self::spec_binary_imm16_rev(op, result, imm_in, reg_in),
    {
        Instruction::BinaryImm16Rev { op, result, imm_in, reg_in }
    }
}

} // verus!
