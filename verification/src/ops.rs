//! What the translator knows of each operator: how its immediates are
//! typed, which translation template it follows, which algebraic identities
//! simplify it, and how it is evaluated on constants.

use crate::arith::{
    i32_eq,
    i32_ne,
    i32_lt_s,
    i32_lt_u,
    i32_gt_s,
    i32_gt_u,
    i32_le_s,
    i32_le_u,
    i32_ge_s,
    i32_ge_u,
    i32_add,
    i32_sub,
    i32_mul,
    i32_div_s,
    i32_div_u,
    i32_rem_s,
    i32_rem_u,
    i32_and,
    i32_or,
    i32_xor,
    i32_shl,
    i32_shr_s,
    i32_shr_u,
    i32_rotl,
    i32_rotr,
    i32_clz,
    i32_ctz,
    i32_popcnt,
    i32_shift_amount,
    i64_eq,
    i64_ne,
    i64_lt_s,
    i64_lt_u,
    i64_gt_s,
    i64_gt_u,
    i64_le_s,
    i64_le_u,
    i64_ge_s,
    i64_ge_u,
    i64_add,
    i64_sub,
    i64_mul,
    i64_div_s,
    i64_div_u,
    i64_rem_s,
    i64_rem_u,
    i64_and,
    i64_or,
    i64_xor,
    i64_shl,
    i64_shr_s,
    i64_shr_u,
    i64_rotl,
    i64_rotr,
    i64_clz,
    i64_ctz,
    i64_popcnt,
    i64_shift_amount,
};
use crate::bytecode::{BinaryOp, Const16, Const32, UnaryOp};
use crate::float::{
    f32_eq,
    f32_ne,
    f32_add,
    f32_sub,
    f32_mul,
    f32_div,
    f32_min,
    f32_max,
    f32_copysign,
    f32_abs,
    f32_neg,
    f32_ceil,
    f32_floor,
    f32_trunc,
    f32_nearest,
    f32_sqrt,
    f32_agree,
    f32_is_nan,
    f32_is_zero,
    f32_is_positive_zero,
    f32_is_positive_infinity,
    f32_is_negative_infinity,
    f32_add_bits,
    f32_sub_bits,
    f32_mul_bits,
    f32_div_bits,
    f32_min_bits,
    f32_max_bits,
    f32_ceil_bits,
    f32_floor_bits,
    f32_trunc_bits,
    f32_nearest_bits,
    f32_sqrt_bits,
    f64_eq,
    f64_ne,
    f64_add,
    f64_sub,
    f64_mul,
    f64_div,
    f64_min,
    f64_max,
    f64_copysign,
    f64_abs,
    f64_neg,
    f64_ceil,
    f64_floor,
    f64_trunc,
    f64_nearest,
    f64_sqrt,
    f64_agree,
    f64_is_nan,
    f64_is_zero,
    f64_is_positive_zero,
    f64_is_positive_infinity,
    f64_is_negative_infinity,
    f64_add_bits,
    f64_sub_bits,
    f64_mul_bits,
    f64_div_bits,
    f64_min_bits,
    f64_max_bits,
    f64_ceil_bits,
    f64_floor_bits,
    f64_trunc_bits,
    f64_nearest_bits,
    f64_sqrt_bits,
};
use crate::value::{TrapCode, UntypedValue};
use vstd::prelude::*;

verus! {

/// The type at which an operator reads its immediate operands.
#[derive(Clone, Copy, Debug, PartialEq, Eq, Structural)]
pub enum OperandType {
    /// 32-bit integer read as signed.
    I32,
    /// 32-bit integer read as unsigned.
    U32,
    /// 64-bit integer read as signed.
    I64,
    /// 64-bit integer read as unsigned.
    U64,
    /// 32-bit float.
    F32,
    /// 64-bit float.
    F64,
}

impl OperandType {
    /// Whether values of the type are 32 bits wide.
    pub open spec fn spec_is_32(self) -> bool {
        self is I32 || self is U32 || self is F32
    }

    /// Tells whether values of the type are 32 bits wide.
    #[verifier::when_used_as_spec(spec_is_32)]
    pub fn is_32(self) -> (res: bool)
        ensures
            res == self.spec_is_32(),
    {
        match self {
            OperandType::I32 | OperandType::U32 | OperandType::F32 => true,
            OperandType::I64 | OperandType::U64 | OperandType::F64 => false,
        }
    }

    /// The value as the type holds it: a 32-bit value has its high half
    /// cleared.
    pub open spec fn spec_canonical(self, value: UntypedValue) -> UntypedValue {
        if self.is_32() {
            UntypedValue::from_u32(value.to_u32())
        } else {
            value
        }
    }

    /// Reads a value at the type and stores it again.
    #[verifier::when_used_as_spec(spec_canonical)]
    pub fn canonical(self, value: UntypedValue) -> (res: UntypedValue)
        ensures
            res == self.spec_canonical(value),
    {
        if self.is_32() {
            UntypedValue::from_u32(value.to_u32())
        } else {
            value
        }
    }

    /// Whether the value is a zero of the type. For a float type these are
    /// both zeros.
    pub open spec fn spec_is_zero(self, value: UntypedValue) -> bool {
        match self {
            OperandType::I32 | OperandType::U32 => value.to_u32() == 0,
            OperandType::I64 | OperandType::U64 => value.to_u64() == 0,
            OperandType::F32 => f32_is_zero(value.to_f32_bits()),
            OperandType::F64 => f64_is_zero(value.to_f64_bits()),
        }
    }

    /// Tells whether the value is a zero of the type.
    #[verifier::when_used_as_spec(spec_is_zero)]
    pub fn is_zero(self, value: UntypedValue) -> (res: bool)
        ensures
            res == self.spec_is_zero(value),
    {
        match self {
            OperandType::I32 | OperandType::U32 => value.to_u32() == 0,
            OperandType::I64 | OperandType::U64 => value.to_u64() == 0,
            OperandType::F32 => f32_is_zero(value.to_f32_bits()),
            OperandType::F64 => f64_is_zero(value.to_f64_bits()),
        }
    }

    /// Whether the value is a NaN of the type. No integer is.
    pub open spec fn spec_is_nan(self, value: UntypedValue) -> bool {
        match self {
            OperandType::F32 => f32_is_nan(value.to_f32_bits()),
            OperandType::F64 => f64_is_nan(value.to_f64_bits()),
            _ => false,
        }
    }

    /// Tells whether the value is a NaN of the type.
    #[verifier::when_used_as_spec(spec_is_nan)]
    pub fn is_nan(self, value: UntypedValue) -> (res: bool)
        ensures
            res == self.spec_is_nan(value),
    {
        match self {
            OperandType::F32 => f32_is_nan(value.to_f32_bits()),
            OperandType::F64 => f64_is_nan(value.to_f64_bits()),
            _ => false,
        }
    }

    /// The 16-bit immediate that holds the value, if one can: a signed
    /// integer from `-32768` to `32767`, or an unsigned integer up to
    /// `65535`. No float has one.
    pub open spec fn spec_try_const16(self, value: UntypedValue) -> Option<Const16> {
        match self {
            OperandType::I32 => if i16::MIN <= value.to_i32() <= i16::MAX {
                Some(Const16::from_i16(value.to_i32() as i16))
            } else {
                None
            },
            OperandType::U32 => if value.to_u32() <= u16::MAX {
                Some(Const16::from_u16(value.to_u32() as u16))
            } else {
                None
            },
            OperandType::I64 => if i16::MIN <= value.to_i64() <= i16::MAX {
                Some(Const16::from_i16(value.to_i64() as i16))
            } else {
                None
            },
            OperandType::U64 => if value.to_u64() <= u16::MAX {
                Some(Const16::from_u16(value.to_u64() as u16))
            } else {
                None
            },
            OperandType::F32 | OperandType::F64 => None,
        }
    }

    /// Compresses the value into a 16-bit immediate if it fits.
    #[verifier::when_used_as_spec(spec_try_const16)]
    pub fn try_const16(self, value: UntypedValue) -> (res: Option<Const16>)
        ensures
            res == self.spec_try_const16(value),
    {
        match self {
            OperandType::I32 => {
                let v: i32 = value.to_i32();
                if -0x8000 <= v && v <= 0x7fff {
                    Some(Const16::from_i16(v as i16))
                } else {
                    None
                }
            },
            OperandType::U32 => {
                let v: u32 = value.to_u32();
                if v <= 0xffff {
                    Some(Const16::from_u16(v as u16))
                } else {
                    None
                }
            },
            OperandType::I64 => {
                let v: i64 = value.to_i64();
                if -0x8000 <= v && v <= 0x7fff {
                    Some(Const16::from_i16(v as i16))
                } else {
                    None
                }
            },
            OperandType::U64 => {
                let v: u64 = value.to_u64();
                if v <= 0xffff {
                    Some(Const16::from_u16(v as u16))
                } else {
                    None
                }
            },
            OperandType::F32 | OperandType::F64 => None,
        }
    }

    /// The 32-bit immediate that holds the value, if one can: any 32-bit
    /// value, a signed 64-bit integer in the range of `i32`, or an unsigned
    /// 64-bit integer in the range of `u32`. No 64-bit float has one.
    pub open spec fn spec_try_const32(self, value: UntypedValue) -> Option<Const32> {
        match self {
            OperandType::I32 | OperandType::U32 | OperandType::F32 => Some(
                Const32::from_u32(value.to_u32()),
            ),
            OperandType::I64 => if i32::MIN <= value.to_i64() <= i32::MAX {
                Some(Const32::from_i32(value.to_i64() as i32))
            } else {
                None
            },
            OperandType::U64 => if value.to_u64() <= u32::MAX {
                Some(Const32::from_u32(value.to_u64() as u32))
            } else {
                None
            },
            OperandType::F64 => None,
        }
    }

    /// Compresses the value into a 32-bit immediate if it fits.
    #[verifier::when_used_as_spec(spec_try_const32)]
    pub fn try_const32(self, value: UntypedValue) -> (res: Option<Const32>)
        ensures
            res == self.spec_try_const32(value),
    {
        match self {
            OperandType::I32 | OperandType::U32 | OperandType::F32 => Some(
                Const32::from_u32(value.to_u32()),
            ),
            OperandType::I64 => {
                let v: i64 = value.to_i64();
                if -0x8000_0000 <= v && v <= 0x7fff_ffff {
                    Some(Const32::from_i32(v as i32))
                } else {
                    None
                }
            },
            OperandType::U64 => {
                let v: u64 = value.to_u64();
                if v <= 0xffff_ffff {
                    Some(Const32::from_u32(v as u32))
                } else {
                    None
                }
            },
            OperandType::F64 => None,
        }
    }

    /// The number of bits by which a shift or rotation of the type moves
    /// when `value` is its shift operand, as an immediate: the value modulo
    /// the width of the type.
    pub open spec fn spec_shift_amount(self, value: UntypedValue) -> Const16 {
        if self.is_32() {
            Const16::from_u16(i32_shift_amount(value) as u16)
        } else {
            Const16::from_u16(i64_shift_amount(value) as u16)
        }
    }

    /// Reduces a shift operand to the number of bits by which it moves.
    #[verifier::when_used_as_spec(spec_shift_amount)]
    pub fn shift_amount(self, value: UntypedValue) -> (res: Const16)
        ensures
            res == self.spec_shift_amount(value),
    {
        if self.is_32() {
            Const16::from_u16(i32_shift_amount(value) as u16)
        } else {
            Const16::from_u16(i64_shift_amount(value) as u16)
        }
    }
}

/// The procedure by which a binary operator is translated.
#[derive(Clone, Copy, Debug, PartialEq, Eq, Structural)]
pub enum Template {
    /// An integer operator whose operands may not be swapped.
    Binary,
    /// An integer operator whose operands may be swapped.
    BinaryCommutative,
    /// An integer division or remainder, which traps on a zero divisor.
    DivRem,
    /// An integer shift or rotation.
    Shift,
    /// A float operator whose operands may not be swapped.
    FBinary,
    /// A float operator whose operands may be swapped.
    FBinaryCommutative,
    /// The float sign copy.
    FCopysign,
}

/// What an operator is replaced with when an algebraic identity applies.
#[derive(Clone, Copy, Debug, PartialEq, Eq, Structural)]
pub enum Rewrite {
    /// The result is the register operand, unchanged.
    Operand,
    /// The result is the given constant.
    Const(UntypedValue),
}

/// How closely the evaluation of an operator on constants is determined.
#[derive(Clone, Copy, Debug, PartialEq, Eq, Structural)]
pub enum Precision {
    /// The result is determined to the bit.
    Exact,
    /// The result is a 32-bit float that is determined but for the sign and
    /// payload of a NaN.
    F32,
    /// The result is a 64-bit float that is determined but for the sign and
    /// payload of a NaN.
    F64,
}

impl Precision {
    /// Whether `actual` is a result that an evaluation may give where
    /// `expected` is the named result.
    pub open spec fn admits(self, actual: UntypedValue, expected: UntypedValue) -> bool {
        match self {
            Precision::Exact => actual == expected,
            Precision::F32 => actual == UntypedValue::from_f32_bits(actual.to_f32_bits())
                && f32_agree(actual.to_f32_bits(), expected.to_f32_bits()),
            Precision::F64 => f64_agree(actual.to_f64_bits(), expected.to_f64_bits()),
        }
    }
}

impl BinaryOp {
    /// The type at which the operator reads its immediate operands.
    pub open spec fn spec_operand_type(self) -> OperandType {
        match self {
            BinaryOp::I32Eq => OperandType::I32,
            BinaryOp::I32Ne => OperandType::I32,
            BinaryOp::I32LtS => OperandType::I32,
            BinaryOp::I32LtU => OperandType::U32,
            BinaryOp::I32GtS => OperandType::I32,
            BinaryOp::I32GtU => OperandType::U32,
            BinaryOp::I32LeS => OperandType::I32,
            BinaryOp::I32LeU => OperandType::U32,
            BinaryOp::I32GeS => OperandType::I32,
            BinaryOp::I32GeU => OperandType::U32,
            BinaryOp::I32Add => OperandType::I32,
            BinaryOp::I32Sub => OperandType::I32,
            BinaryOp::I32Mul => OperandType::I32,
            BinaryOp::I32DivS => OperandType::I32,
            BinaryOp::I32DivU => OperandType::I32,
            BinaryOp::I32RemS => OperandType::I32,
            BinaryOp::I32RemU => OperandType::I32,
            BinaryOp::I32And => OperandType::I32,
            BinaryOp::I32Or => OperandType::I32,
            BinaryOp::I32Xor => OperandType::I32,
            BinaryOp::I32Shl => OperandType::I32,
            BinaryOp::I32ShrS => OperandType::I32,
            BinaryOp::I32ShrU => OperandType::I32,
            BinaryOp::I32Rotl => OperandType::I32,
            BinaryOp::I32Rotr => OperandType::I32,
            BinaryOp::I64Eq => OperandType::I64,
            BinaryOp::I64Ne => OperandType::I64,
            BinaryOp::I64LtS => OperandType::I64,
            BinaryOp::I64LtU => OperandType::U64,
            BinaryOp::I64GtS => OperandType::I64,
            BinaryOp::I64GtU => OperandType::U64,
            BinaryOp::I64LeS => OperandType::I64,
            BinaryOp::I64LeU => OperandType::U64,
            BinaryOp::I64GeS => OperandType::I64,
            BinaryOp::I64GeU => OperandType::U64,
            BinaryOp::I64Add => OperandType::I64,
            BinaryOp::I64Sub => OperandType::I64,
            BinaryOp::I64Mul => OperandType::I64,
            BinaryOp::I64DivS => OperandType::I64,
            BinaryOp::I64DivU => OperandType::I64,
            BinaryOp::I64RemS => OperandType::I64,
            BinaryOp::I64RemU => OperandType::I64,
            BinaryOp::I64And => OperandType::I64,
            BinaryOp::I64Or => OperandType::I64,
            BinaryOp::I64Xor => OperandType::I64,
            BinaryOp::I64Shl => OperandType::I64,
            BinaryOp::I64ShrS => OperandType::I64,
            BinaryOp::I64ShrU => OperandType::I64,
            BinaryOp::I64Rotl => OperandType::I64,
            BinaryOp::I64Rotr => OperandType::I64,
            BinaryOp::F32Eq => OperandType::F32,
            BinaryOp::F32Ne => OperandType::F32,
            BinaryOp::F32Add => OperandType::F32,
            BinaryOp::F32Sub => OperandType::F32,
            BinaryOp::F32Mul => OperandType::F32,
            BinaryOp::F32Div => OperandType::F32,
            BinaryOp::F32Min => OperandType::F32,
            BinaryOp::F32Max => OperandType::F32,
            BinaryOp::F32Copysign => OperandType::F32,
            BinaryOp::F64Eq => OperandType::F64,
            BinaryOp::F64Ne => OperandType::F64,
            BinaryOp::F64Add => OperandType::F64,
            BinaryOp::F64Sub => OperandType::F64,
            BinaryOp::F64Mul => OperandType::F64,
            BinaryOp::F64Div => OperandType::F64,
            BinaryOp::F64Min => OperandType::F64,
            BinaryOp::F64Max => OperandType::F64,
            BinaryOp::F64Copysign => OperandType::F64,
        }
    }

    /// Tells the type at which the operator reads its immediate operands.
    #[verifier::when_used_as_spec(spec_operand_type)]
    pub fn operand_type(self) -> (res: OperandType)
        ensures
            res == self.spec_operand_type(),
    {
        match self {
            BinaryOp::I32Eq => OperandType::I32,
            BinaryOp::I32Ne => OperandType::I32,
            BinaryOp::I32LtS => OperandType::I32,
            BinaryOp::I32LtU => OperandType::U32,
            BinaryOp::I32GtS => OperandType::I32,
            BinaryOp::I32GtU => OperandType::U32,
            BinaryOp::I32LeS => OperandType::I32,
            BinaryOp::I32LeU => OperandType::U32,
            BinaryOp::I32GeS => OperandType::I32,
            BinaryOp::I32GeU => OperandType::U32,
            BinaryOp::I32Add => OperandType::I32,
            BinaryOp::I32Sub => OperandType::I32,
            BinaryOp::I32Mul => OperandType::I32,
            BinaryOp::I32DivS => OperandType::I32,
            BinaryOp::I32DivU => OperandType::I32,
            BinaryOp::I32RemS => OperandType::I32,
            BinaryOp::I32RemU => OperandType::I32,
            BinaryOp::I32And => OperandType::I32,
            BinaryOp::I32Or => OperandType::I32,
            BinaryOp::I32Xor => OperandType::I32,
            BinaryOp::I32Shl => OperandType::I32,
            BinaryOp::I32ShrS => OperandType::I32,
            BinaryOp::I32ShrU => OperandType::I32,
            BinaryOp::I32Rotl => OperandType::I32,
            BinaryOp::I32Rotr => OperandType::I32,
            BinaryOp::I64Eq => OperandType::I64,
            BinaryOp::I64Ne => OperandType::I64,
            BinaryOp::I64LtS => OperandType::I64,
            BinaryOp::I64LtU => OperandType::U64,
            BinaryOp::I64GtS => OperandType::I64,
            BinaryOp::I64GtU => OperandType::U64,
            BinaryOp::I64LeS => OperandType::I64,
            BinaryOp::I64LeU => OperandType::U64,
            BinaryOp::I64GeS => OperandType::I64,
            BinaryOp::I64GeU => OperandType::U64,
            BinaryOp::I64Add => OperandType::I64,
            BinaryOp::I64Sub => OperandType::I64,
            BinaryOp::I64Mul => OperandType::I64,
            BinaryOp::I64DivS => OperandType::I64,
            BinaryOp::I64DivU => OperandType::I64,
            BinaryOp::I64RemS => OperandType::I64,
            BinaryOp::I64RemU => OperandType::I64,
            BinaryOp::I64And => OperandType::I64,
            BinaryOp::I64Or => OperandType::I64,
            BinaryOp::I64Xor => OperandType::I64,
            BinaryOp::I64Shl => OperandType::I64,
            BinaryOp::I64ShrS => OperandType::I64,
            BinaryOp::I64ShrU => OperandType::I64,
            BinaryOp::I64Rotl => OperandType::I64,
            BinaryOp::I64Rotr => OperandType::I64,
            BinaryOp::F32Eq => OperandType::F32,
            BinaryOp::F32Ne => OperandType::F32,
            BinaryOp::F32Add => OperandType::F32,
            BinaryOp::F32Sub => OperandType::F32,
            BinaryOp::F32Mul => OperandType::F32,
            BinaryOp::F32Div => OperandType::F32,
            BinaryOp::F32Min => OperandType::F32,
            BinaryOp::F32Max => OperandType::F32,
            BinaryOp::F32Copysign => OperandType::F32,
            BinaryOp::F64Eq => OperandType::F64,
            BinaryOp::F64Ne => OperandType::F64,
            BinaryOp::F64Add => OperandType::F64,
            BinaryOp::F64Sub => OperandType::F64,
            BinaryOp::F64Mul => OperandType::F64,
            BinaryOp::F64Div => OperandType::F64,
            BinaryOp::F64Min => OperandType::F64,
            BinaryOp::F64Max => OperandType::F64,
            BinaryOp::F64Copysign => OperandType::F64,
        }
    }

    /// The template that translates the operator.
    pub open spec fn spec_template(self) -> Template {
        match self {
            BinaryOp::I32Eq => Template::BinaryCommutative,
            BinaryOp::I32Ne => Template::BinaryCommutative,
            BinaryOp::I32LtS => Template::Binary,
            BinaryOp::I32LtU => Template::Binary,
            BinaryOp::I32GtS => Template::Binary,
            BinaryOp::I32GtU => Template::Binary,
            BinaryOp::I32LeS => Template::Binary,
            BinaryOp::I32LeU => Template::Binary,
            BinaryOp::I32GeS => Template::Binary,
            BinaryOp::I32GeU => Template::Binary,
            BinaryOp::I32Add => Template::BinaryCommutative,
            BinaryOp::I32Sub => Template::Binary,
            BinaryOp::I32Mul => Template::BinaryCommutative,
            BinaryOp::I32DivS => Template::DivRem,
            BinaryOp::I32DivU => Template::DivRem,
            BinaryOp::I32RemS => Template::DivRem,
            BinaryOp::I32RemU => Template::DivRem,
            BinaryOp::I32And => Template::BinaryCommutative,
            BinaryOp::I32Or => Template::BinaryCommutative,
            BinaryOp::I32Xor => Template::BinaryCommutative,
            BinaryOp::I32Shl => Template::Shift,
            BinaryOp::I32ShrS => Template::Shift,
            BinaryOp::I32ShrU => Template::Shift,
            BinaryOp::I32Rotl => Template::Shift,
            BinaryOp::I32Rotr => Template::Shift,
            BinaryOp::I64Eq => Template::BinaryCommutative,
            BinaryOp::I64Ne => Template::BinaryCommutative,
            BinaryOp::I64LtS => Template::Binary,
            BinaryOp::I64LtU => Template::Binary,
            BinaryOp::I64GtS => Template::Binary,
            BinaryOp::I64GtU => Template::Binary,
            BinaryOp::I64LeS => Template::Binary,
            BinaryOp::I64LeU => Template::Binary,
            BinaryOp::I64GeS => Template::Binary,
            BinaryOp::I64GeU => Template::Binary,
            BinaryOp::I64Add => Template::BinaryCommutative,
            BinaryOp::I64Sub => Template::Binary,
            BinaryOp::I64Mul => Template::BinaryCommutative,
            BinaryOp::I64DivS => Template::DivRem,
            BinaryOp::I64DivU => Template::DivRem,
            BinaryOp::I64RemS => Template::DivRem,
            BinaryOp::I64RemU => Template::DivRem,
            BinaryOp::I64And => Template::BinaryCommutative,
            BinaryOp::I64Or => Template::BinaryCommutative,
            BinaryOp::I64Xor => Template::BinaryCommutative,
            BinaryOp::I64Shl => Template::Shift,
            BinaryOp::I64ShrS => Template::Shift,
            BinaryOp::I64ShrU => Template::Shift,
            BinaryOp::I64Rotl => Template::Shift,
            BinaryOp::I64Rotr => Template::Shift,
            BinaryOp::F32Eq => Template::FBinaryCommutative,
            BinaryOp::F32Ne => Template::FBinaryCommutative,
            BinaryOp::F32Add => Template::FBinaryCommutative,
            BinaryOp::F32Sub => Template::FBinary,
            BinaryOp::F32Mul => Template::FBinaryCommutative,
            BinaryOp::F32Div => Template::FBinary,
            BinaryOp::F32Min => Template::FBinaryCommutative,
            BinaryOp::F32Max => Template::FBinaryCommutative,
            BinaryOp::F32Copysign => Template::FCopysign,
            BinaryOp::F64Eq => Template::FBinaryCommutative,
            BinaryOp::F64Ne => Template::FBinaryCommutative,
            BinaryOp::F64Add => Template::FBinaryCommutative,
            BinaryOp::F64Sub => Template::FBinary,
            BinaryOp::F64Mul => Template::FBinaryCommutative,
            BinaryOp::F64Div => Template::FBinary,
            BinaryOp::F64Min => Template::FBinaryCommutative,
            BinaryOp::F64Max => Template::FBinaryCommutative,
            BinaryOp::F64Copysign => Template::FCopysign,
        }
    }

    /// Tells the template that translates the operator.
    #[verifier::when_used_as_spec(spec_template)]
    pub fn template(self) -> (res: Template)
        ensures
            res == self.spec_template(),
    {
        match self {
            BinaryOp::I32Eq => Template::BinaryCommutative,
            BinaryOp::I32Ne => Template::BinaryCommutative,
            BinaryOp::I32LtS => Template::Binary,
            BinaryOp::I32LtU => Template::Binary,
            BinaryOp::I32GtS => Template::Binary,
            BinaryOp::I32GtU => Template::Binary,
            BinaryOp::I32LeS => Template::Binary,
            BinaryOp::I32LeU => Template::Binary,
            BinaryOp::I32GeS => Template::Binary,
            BinaryOp::I32GeU => Template::Binary,
            BinaryOp::I32Add => Template::BinaryCommutative,
            BinaryOp::I32Sub => Template::Binary,
            BinaryOp::I32Mul => Template::BinaryCommutative,
            BinaryOp::I32DivS => Template::DivRem,
            BinaryOp::I32DivU => Template::DivRem,
            BinaryOp::I32RemS => Template::DivRem,
            BinaryOp::I32RemU => Template::DivRem,
            BinaryOp::I32And => Template::BinaryCommutative,
            BinaryOp::I32Or => Template::BinaryCommutative,
            BinaryOp::I32Xor => Template::BinaryCommutative,
            BinaryOp::I32Shl => Template::Shift,
            BinaryOp::I32ShrS => Template::Shift,
            BinaryOp::I32ShrU => Template::Shift,
            BinaryOp::I32Rotl => Template::Shift,
            BinaryOp::I32Rotr => Template::Shift,
            BinaryOp::I64Eq => Template::BinaryCommutative,
            BinaryOp::I64Ne => Template::BinaryCommutative,
            BinaryOp::I64LtS => Template::Binary,
            BinaryOp::I64LtU => Template::Binary,
            BinaryOp::I64GtS => Template::Binary,
            BinaryOp::I64GtU => Template::Binary,
            BinaryOp::I64LeS => Template::Binary,
            BinaryOp::I64LeU => Template::Binary,
            BinaryOp::I64GeS => Template::Binary,
            BinaryOp::I64GeU => Template::Binary,
            BinaryOp::I64Add => Template::BinaryCommutative,
            BinaryOp::I64Sub => Template::Binary,
            BinaryOp::I64Mul => Template::BinaryCommutative,
            BinaryOp::I64DivS => Template::DivRem,
            BinaryOp::I64DivU => Template::DivRem,
            BinaryOp::I64RemS => Template::DivRem,
            BinaryOp::I64RemU => Template::DivRem,
            BinaryOp::I64And => Template::BinaryCommutative,
            BinaryOp::I64Or => Template::BinaryCommutative,
            BinaryOp::I64Xor => Template::BinaryCommutative,
            BinaryOp::I64Shl => Template::Shift,
            BinaryOp::I64ShrS => Template::Shift,
            BinaryOp::I64ShrU => Template::Shift,
            BinaryOp::I64Rotl => Template::Shift,
            BinaryOp::I64Rotr => Template::Shift,
            BinaryOp::F32Eq => Template::FBinaryCommutative,
            BinaryOp::F32Ne => Template::FBinaryCommutative,
            BinaryOp::F32Add => Template::FBinaryCommutative,
            BinaryOp::F32Sub => Template::FBinary,
            BinaryOp::F32Mul => Template::FBinaryCommutative,
            BinaryOp::F32Div => Template::FBinary,
            BinaryOp::F32Min => Template::FBinaryCommutative,
            BinaryOp::F32Max => Template::FBinaryCommutative,
            BinaryOp::F32Copysign => Template::FCopysign,
            BinaryOp::F64Eq => Template::FBinaryCommutative,
            BinaryOp::F64Ne => Template::FBinaryCommutative,
            BinaryOp::F64Add => Template::FBinaryCommutative,
            BinaryOp::F64Sub => Template::FBinary,
            BinaryOp::F64Mul => Template::FBinaryCommutative,
            BinaryOp::F64Div => Template::FBinary,
            BinaryOp::F64Min => Template::FBinaryCommutative,
            BinaryOp::F64Max => Template::FBinaryCommutative,
            BinaryOp::F64Copysign => Template::FCopysign,
        }
    }

    /// For an ordering comparison, the comparison that gives the same
    /// result on swapped operands: `a < b` is `b > a`. Any other operator is
    /// its own.
    pub open spec fn spec_swapped(self) -> BinaryOp {
        match self {
            BinaryOp::I32LtS => BinaryOp::I32GtS,
            BinaryOp::I32GtS => BinaryOp::I32LtS,
            BinaryOp::I32LtU => BinaryOp::I32GtU,
            BinaryOp::I32GtU => BinaryOp::I32LtU,
            BinaryOp::I32LeS => BinaryOp::I32GeS,
            BinaryOp::I32GeS => BinaryOp::I32LeS,
            BinaryOp::I32LeU => BinaryOp::I32GeU,
            BinaryOp::I32GeU => BinaryOp::I32LeU,
            BinaryOp::I64LtS => BinaryOp::I64GtS,
            BinaryOp::I64GtS => BinaryOp::I64LtS,
            BinaryOp::I64LtU => BinaryOp::I64GtU,
            BinaryOp::I64GtU => BinaryOp::I64LtU,
            BinaryOp::I64LeS => BinaryOp::I64GeS,
            BinaryOp::I64GeS => BinaryOp::I64LeS,
            BinaryOp::I64LeU => BinaryOp::I64GeU,
            BinaryOp::I64GeU => BinaryOp::I64LeU,
            _ => self,
        }
    }

    /// Tells the comparison that gives the same result on swapped operands.
    #[verifier::when_used_as_spec(spec_swapped)]
    pub fn swapped(self) -> (res: BinaryOp)
        ensures
            res == self.spec_swapped(),
    {
        match self {
            BinaryOp::I32LtS => BinaryOp::I32GtS,
            BinaryOp::I32GtS => BinaryOp::I32LtS,
            BinaryOp::I32LtU => BinaryOp::I32GtU,
            BinaryOp::I32GtU => BinaryOp::I32LtU,
            BinaryOp::I32LeS => BinaryOp::I32GeS,
            BinaryOp::I32GeS => BinaryOp::I32LeS,
            BinaryOp::I32LeU => BinaryOp::I32GeU,
            BinaryOp::I32GeU => BinaryOp::I32LeU,
            BinaryOp::I64LtS => BinaryOp::I64GtS,
            BinaryOp::I64GtS => BinaryOp::I64LtS,
            BinaryOp::I64LtU => BinaryOp::I64GtU,
            BinaryOp::I64GtU => BinaryOp::I64LtU,
            BinaryOp::I64LeS => BinaryOp::I64GeS,
            BinaryOp::I64GeS => BinaryOp::I64LeS,
            BinaryOp::I64LeU => BinaryOp::I64GeU,
            BinaryOp::I64GeU => BinaryOp::I64LeU,
            _ => self,
        }
    }

    /// Whether the operator is an ordering comparison: one that
    /// [`BinaryOp::swapped`] changes.
    pub open spec fn spec_is_ordering(self) -> bool {
        self.spec_swapped() != self
    }

    /// Tells whether the operator is an ordering comparison.
    #[verifier::when_used_as_spec(spec_is_ordering)]
    pub fn is_ordering(self) -> (res: bool)
        ensures
            res == self.spec_is_ordering(),
    {
        self.swapped() != self
    }

    /// The identity that simplifies `x op x`, where both operands are the
    /// same register.
    pub open spec fn spec_same_register_rule(self) -> Option<Rewrite> {
        match self {
            // `x == x` is always true
            BinaryOp::I32Eq => Some(Rewrite::Const(UntypedValue::from_bool(true))),
            // `x != x` is always false
            BinaryOp::I32Ne => Some(Rewrite::Const(UntypedValue::from_bool(false))),
            // `x < x` is always false
            BinaryOp::I32LtS => Some(Rewrite::Const(UntypedValue::from_bool(false))),
            // `x < x` is always false
            BinaryOp::I32LtU => Some(Rewrite::Const(UntypedValue::from_bool(false))),
            // `x > x` is always false
            BinaryOp::I32GtS => Some(Rewrite::Const(UntypedValue::from_bool(false))),
            // `x > x` is always false
            BinaryOp::I32GtU => Some(Rewrite::Const(UntypedValue::from_bool(false))),
            // `x <= x` is always true
            BinaryOp::I32LeS => Some(Rewrite::Const(UntypedValue::from_bool(true))),
            // `x <= x` is always true
            BinaryOp::I32LeU => Some(Rewrite::Const(UntypedValue::from_bool(true))),
            // `x >= x` is always true
            BinaryOp::I32GeS => Some(Rewrite::Const(UntypedValue::from_bool(true))),
            // `x >= x` is always true
            BinaryOp::I32GeU => Some(Rewrite::Const(UntypedValue::from_bool(true))),
            // `x - x` is always `0`
            BinaryOp::I32Sub => Some(Rewrite::Const(UntypedValue::from_i32(0i32))),
            // `x / x` is always `1`
            BinaryOp::I32DivS => Some(Rewrite::Const(UntypedValue::from_i32(1i32))),
            // `x / x` is always `1`
            BinaryOp::I32DivU => Some(Rewrite::Const(UntypedValue::from_i32(1i32))),
            // `x % x` is always `0`
            BinaryOp::I32RemS => Some(Rewrite::Const(UntypedValue::from_i32(0i32))),
            // `x % x` is always `0`
            BinaryOp::I32RemU => Some(Rewrite::Const(UntypedValue::from_i32(0i32))),
            // `x & x` is always `x`
            BinaryOp::I32And => Some(Rewrite::Operand),
            // `x | x` is always `x`
            BinaryOp::I32Or => Some(Rewrite::Operand),
            // `x ^ x` is always `0`
            BinaryOp::I32Xor => Some(Rewrite::Const(UntypedValue::from_i32(0i32))),
            // `x == x` is always true
            BinaryOp::I64Eq => Some(Rewrite::Const(UntypedValue::from_bool(true))),
            // `x != x` is always false
            BinaryOp::I64Ne => Some(Rewrite::Const(UntypedValue::from_bool(false))),
            // `x < x` is always false
            BinaryOp::I64LtS => Some(Rewrite::Const(UntypedValue::from_bool(false))),
            // `x < x` is always false
            BinaryOp::I64LtU => Some(Rewrite::Const(UntypedValue::from_bool(false))),
            // `x > x` is always false
            BinaryOp::I64GtS => Some(Rewrite::Const(UntypedValue::from_bool(false))),
            // `x > x` is always false
            BinaryOp::I64GtU => Some(Rewrite::Const(UntypedValue::from_bool(false))),
            // `x <= x` is always true
            BinaryOp::I64LeS => Some(Rewrite::Const(UntypedValue::from_bool(true))),
            // `x <= x` is always true
            BinaryOp::I64LeU => Some(Rewrite::Const(UntypedValue::from_bool(true))),
            // `x >= x` is always true
            BinaryOp::I64GeS => Some(Rewrite::Const(UntypedValue::from_bool(true))),
            // `x >= x` is always true
            BinaryOp::I64GeU => Some(Rewrite::Const(UntypedValue::from_bool(true))),
            // `x - x` is always `0`
            BinaryOp::I64Sub => Some(Rewrite::Const(UntypedValue::from_i64(0i64))),
            // `x / x` is always `1`
            BinaryOp::I64DivS => Some(Rewrite::Const(UntypedValue::from_i64(1i64))),
            // `x / x` is always `1`
            BinaryOp::I64DivU => Some(Rewrite::Const(UntypedValue::from_i64(1i64))),
            // `x % x` is always `0`
            BinaryOp::I64RemS => Some(Rewrite::Const(UntypedValue::from_i64(0i64))),
            // `x % x` is always `0`
            BinaryOp::I64RemU => Some(Rewrite::Const(UntypedValue::from_i64(0i64))),
            // `x & x` is always `x`
            BinaryOp::I64And => Some(Rewrite::Operand),
            // `x | x` is always `x`
            BinaryOp::I64Or => Some(Rewrite::Operand),
            // `x ^ x` is always `0`
            BinaryOp::I64Xor => Some(Rewrite::Const(UntypedValue::from_i64(0i64))),
            // `x == x` is taken to be true, as it is unless `x` is NaN
            BinaryOp::F32Eq => Some(Rewrite::Const(UntypedValue::from_bool(true))),
            // `x != x` is taken to be false, as it is unless `x` is NaN
            BinaryOp::F32Ne => Some(Rewrite::Const(UntypedValue::from_bool(false))),
            // the sign copy of `x` to itself is `x`
            BinaryOp::F32Copysign => Some(Rewrite::Operand),
            // `x == x` is taken to be true, as it is unless `x` is NaN
            BinaryOp::F64Eq => Some(Rewrite::Const(UntypedValue::from_bool(true))),
            // `x != x` is taken to be false, as it is unless `x` is NaN
            BinaryOp::F64Ne => Some(Rewrite::Const(UntypedValue::from_bool(false))),
            // the sign copy of `x` to itself is `x`
            BinaryOp::F64Copysign => Some(Rewrite::Operand),
            _ => None,
        }
    }

    /// Looks up the identity that simplifies `x op x`.
    #[verifier::when_used_as_spec(spec_same_register_rule)]
    pub fn same_register_rule(self) -> (res: Option<Rewrite>)
        ensures
            res == self.spec_same_register_rule(),
    {
        match self {
            // `x == x` is always true
            BinaryOp::I32Eq => Some(Rewrite::Const(UntypedValue::from_bool(true))),
            // `x != x` is always false
            BinaryOp::I32Ne => Some(Rewrite::Const(UntypedValue::from_bool(false))),
            // `x < x` is always false
            BinaryOp::I32LtS => Some(Rewrite::Const(UntypedValue::from_bool(false))),
            // `x < x` is always false
            BinaryOp::I32LtU => Some(Rewrite::Const(UntypedValue::from_bool(false))),
            // `x > x` is always false
            BinaryOp::I32GtS => Some(Rewrite::Const(UntypedValue::from_bool(false))),
            // `x > x` is always false
            BinaryOp::I32GtU => Some(Rewrite::Const(UntypedValue::from_bool(false))),
            // `x <= x` is always true
            BinaryOp::I32LeS => Some(Rewrite::Const(UntypedValue::from_bool(true))),
            // `x <= x` is always true
            BinaryOp::I32LeU => Some(Rewrite::Const(UntypedValue::from_bool(true))),
            // `x >= x` is always true
            BinaryOp::I32GeS => Some(Rewrite::Const(UntypedValue::from_bool(true))),
            // `x >= x` is always true
            BinaryOp::I32GeU => Some(Rewrite::Const(UntypedValue::from_bool(true))),
            // `x - x` is always `0`
            BinaryOp::I32Sub => Some(Rewrite::Const(UntypedValue::from_i32(0i32))),
            // `x / x` is always `1`
            BinaryOp::I32DivS => Some(Rewrite::Const(UntypedValue::from_i32(1i32))),
            // `x / x` is always `1`
            BinaryOp::I32DivU => Some(Rewrite::Const(UntypedValue::from_i32(1i32))),
            // `x % x` is always `0`
            BinaryOp::I32RemS => Some(Rewrite::Const(UntypedValue::from_i32(0i32))),
            // `x % x` is always `0`
            BinaryOp::I32RemU => Some(Rewrite::Const(UntypedValue::from_i32(0i32))),
            // `x & x` is always `x`
            BinaryOp::I32And => Some(Rewrite::Operand),
            // `x | x` is always `x`
            BinaryOp::I32Or => Some(Rewrite::Operand),
            // `x ^ x` is always `0`
            BinaryOp::I32Xor => Some(Rewrite::Const(UntypedValue::from_i32(0i32))),
            // `x == x` is always true
            BinaryOp::I64Eq => Some(Rewrite::Const(UntypedValue::from_bool(true))),
            // `x != x` is always false
            BinaryOp::I64Ne => Some(Rewrite::Const(UntypedValue::from_bool(false))),
            // `x < x` is always false
            BinaryOp::I64LtS => Some(Rewrite::Const(UntypedValue::from_bool(false))),
            // `x < x` is always false
            BinaryOp::I64LtU => Some(Rewrite::Const(UntypedValue::from_bool(false))),
            // `x > x` is always false
            BinaryOp::I64GtS => Some(Rewrite::Const(UntypedValue::from_bool(false))),
            // `x > x` is always false
            BinaryOp::I64GtU => Some(Rewrite::Const(UntypedValue::from_bool(false))),
            // `x <= x` is always true
            BinaryOp::I64LeS => Some(Rewrite::Const(UntypedValue::from_bool(true))),
            // `x <= x` is always true
            BinaryOp::I64LeU => Some(Rewrite::Const(UntypedValue::from_bool(true))),
            // `x >= x` is always true
            BinaryOp::I64GeS => Some(Rewrite::Const(UntypedValue::from_bool(true))),
            // `x >= x` is always true
            BinaryOp::I64GeU => Some(Rewrite::Const(UntypedValue::from_bool(true))),
            // `x - x` is always `0`
            BinaryOp::I64Sub => Some(Rewrite::Const(UntypedValue::from_i64(0i64))),
            // `x / x` is always `1`
            BinaryOp::I64DivS => Some(Rewrite::Const(UntypedValue::from_i64(1i64))),
            // `x / x` is always `1`
            BinaryOp::I64DivU => Some(Rewrite::Const(UntypedValue::from_i64(1i64))),
            // `x % x` is always `0`
            BinaryOp::I64RemS => Some(Rewrite::Const(UntypedValue::from_i64(0i64))),
            // `x % x` is always `0`
            BinaryOp::I64RemU => Some(Rewrite::Const(UntypedValue::from_i64(0i64))),
            // `x & x` is always `x`
            BinaryOp::I64And => Some(Rewrite::Operand),
            // `x | x` is always `x`
            BinaryOp::I64Or => Some(Rewrite::Operand),
            // `x ^ x` is always `0`
            BinaryOp::I64Xor => Some(Rewrite::Const(UntypedValue::from_i64(0i64))),
            // `x == x` is taken to be true, as it is unless `x` is NaN
            BinaryOp::F32Eq => Some(Rewrite::Const(UntypedValue::from_bool(true))),
            // `x != x` is taken to be false, as it is unless `x` is NaN
            BinaryOp::F32Ne => Some(Rewrite::Const(UntypedValue::from_bool(false))),
            // the sign copy of `x` to itself is `x`
            BinaryOp::F32Copysign => Some(Rewrite::Operand),
            // `x == x` is taken to be true, as it is unless `x` is NaN
            BinaryOp::F64Eq => Some(Rewrite::Const(UntypedValue::from_bool(true))),
            // `x != x` is taken to be false, as it is unless `x` is NaN
            BinaryOp::F64Ne => Some(Rewrite::Const(UntypedValue::from_bool(false))),
            // the sign copy of `x` to itself is `x`
            BinaryOp::F64Copysign => Some(Rewrite::Operand),
            _ => None,
        }
    }

    /// The identity that simplifies `x op imm`, where the left operand is a
    /// register and the right operand is the constant `imm`. For an
    /// operator whose operands may be swapped it simplifies `imm op x` too.
    pub open spec fn spec_reg_imm_rule(self, imm: UntypedValue) -> Option<Rewrite> {
        match self {
            BinaryOp::I32LtS => {
                if imm.to_i32() == i32::MIN {
                    // `x < MIN` is always false
                    Some(Rewrite::Const(UntypedValue::from_bool(false)))
                } else {
                    None
                }
            },
            BinaryOp::I32LtU => {
                if imm.to_u32() == 0 {
                    // `x < 0` is always false
                    Some(Rewrite::Const(UntypedValue::from_bool(false)))
                } else {
                    None
                }
            },
            BinaryOp::I32GtS => {
                if imm.to_i32() == i32::MAX {
                    // `x > MAX` is always false
                    Some(Rewrite::Const(UntypedValue::from_bool(false)))
                } else {
                    None
                }
            },
            BinaryOp::I32GtU => {
                if imm.to_u32() == u32::MAX {
                    // `x > MAX` is always false
                    Some(Rewrite::Const(UntypedValue::from_bool(false)))
                } else {
                    None
                }
            },
            BinaryOp::I32LeS => {
                if imm.to_i32() == i32::MAX {
                    // `x <= MAX` is always true
                    Some(Rewrite::Const(UntypedValue::from_bool(true)))
                } else {
                    None
                }
            },
            BinaryOp::I32LeU => {
                if imm.to_u32() == u32::MAX {
                    // `x <= MAX` is always true
                    Some(Rewrite::Const(UntypedValue::from_bool(true)))
                } else {
                    None
                }
            },
            BinaryOp::I32GeS => {
                if imm.to_i32() == i32::MIN {
                    // `x >= MIN` is always true
                    Some(Rewrite::Const(UntypedValue::from_bool(true)))
                } else {
                    None
                }
            },
            BinaryOp::I32GeU => {
                if imm.to_u32() == 0 {
                    // `x >= 0` is always true
                    Some(Rewrite::Const(UntypedValue::from_bool(true)))
                } else {
                    None
                }
            },
            BinaryOp::I32Add => {
                if imm.to_i32() == 0 {
                    // `x + 0` is `x`
                    Some(Rewrite::Operand)
                } else {
                    None
                }
            },
            BinaryOp::I32Sub => {
                if imm.to_i32() == 0 {
                    // `x - 0` is `x`
                    Some(Rewrite::Operand)
                } else {
                    None
                }
            },
            BinaryOp::I32Mul => {
                if imm.to_i32() == 0 {
                    // `x * 0` is `0`
                    Some(Rewrite::Const(UntypedValue::from_i32(0i32)))
                } else if imm.to_i32() == 1 {
                    // `x * 1` is `x`
                    Some(Rewrite::Operand)
                } else {
                    None
                }
            },
            BinaryOp::I32DivS => {
                if imm.to_i32() == 1 {
                    // `x / 1` is `x`
                    Some(Rewrite::Operand)
                } else {
                    None
                }
            },
            BinaryOp::I32DivU => {
                if imm.to_i32() == 1 {
                    // `x / 1` is `x`
                    Some(Rewrite::Operand)
                } else {
                    None
                }
            },
            BinaryOp::I32RemS => {
                if imm.to_i32() == 1 || imm.to_i32() == -1 {
                    // `x % 1` and `x % -1` are `0`
                    Some(Rewrite::Const(UntypedValue::from_i32(0i32)))
                } else {
                    None
                }
            },
            BinaryOp::I32RemU => {
                if imm.to_i32() == 1 {
                    // `x % 1` is `0`
                    Some(Rewrite::Const(UntypedValue::from_i32(0i32)))
                } else {
                    None
                }
            },
            BinaryOp::I32And => {
                if imm.to_i32() == -1 {
                    // `x & -1` is `x`: `-1` has all bits set
                    Some(Rewrite::Operand)
                } else if imm.to_i32() == 0 {
                    // `x & 0` is `0`
                    Some(Rewrite::Const(UntypedValue::from_i32(0i32)))
                } else {
                    None
                }
            },
            BinaryOp::I32Or => {
                if imm.to_i32() == -1 {
                    // `x | -1` is `-1`: `-1` has all bits set
                    Some(Rewrite::Const(UntypedValue::from_i32(-1i32)))
                } else if imm.to_i32() == 0 {
                    // `x | 0` is `x`
                    Some(Rewrite::Operand)
                } else {
                    None
                }
            },
            BinaryOp::I32Xor => {
                if imm.to_i32() == 0 {
                    // `x ^ 0` is `x`
                    Some(Rewrite::Operand)
                } else {
                    None
                }
            },
            BinaryOp::I64LtS => {
                if imm.to_i64() == i64::MIN {
                    // `x < MIN` is always false
                    Some(Rewrite::Const(UntypedValue::from_bool(false)))
                } else {
                    None
                }
            },
            BinaryOp::I64LtU => {
                if imm.to_u64() == 0 {
                    // `x < 0` is always false
                    Some(Rewrite::Const(UntypedValue::from_bool(false)))
                } else {
                    None
                }
            },
            BinaryOp::I64GtS => {
                if imm.to_i64() == i64::MAX {
                    // `x > MAX` is always false
                    Some(Rewrite::Const(UntypedValue::from_bool(false)))
                } else {
                    None
                }
            },
            BinaryOp::I64GtU => {
                if imm.to_u64() == u64::MAX {
                    // `x > MAX` is always false
                    Some(Rewrite::Const(UntypedValue::from_bool(false)))
                } else {
                    None
                }
            },
            BinaryOp::I64LeS => {
                if imm.to_i64() == i64::MAX {
                    // `x <= MAX` is always true
                    Some(Rewrite::Const(UntypedValue::from_bool(true)))
                } else {
                    None
                }
            },
            BinaryOp::I64LeU => {
                if imm.to_u64() == u64::MAX {
                    // `x <= MAX` is always true
                    Some(Rewrite::Const(UntypedValue::from_bool(true)))
                } else {
                    None
                }
            },
            BinaryOp::I64GeS => {
                if imm.to_i64() == i64::MIN {
                    // `x >= MIN` is always true
                    Some(Rewrite::Const(UntypedValue::from_bool(true)))
                } else {
                    None
                }
            },
            BinaryOp::I64GeU => {
                if imm.to_u64() == 0 {
                    // `x >= 0` is always true
                    Some(Rewrite::Const(UntypedValue::from_bool(true)))
                } else {
                    None
                }
            },
            BinaryOp::I64Add => {
                if imm.to_i64() == 0 {
                    // `x + 0` is `x`
                    Some(Rewrite::Operand)
                } else {
                    None
                }
            },
            BinaryOp::I64Sub => {
                if imm.to_i64() == 0 {
                    // `x - 0` is `x`
                    Some(Rewrite::Operand)
                } else {
                    None
                }
            },
            BinaryOp::I64Mul => {
                if imm.to_i64() == 0 {
                    // `x * 0` is `0`
                    Some(Rewrite::Const(UntypedValue::from_i64(0i64)))
                } else if imm.to_i64() == 1 {
                    // `x * 1` is `x`
                    Some(Rewrite::Operand)
                } else {
                    None
                }
            },
            BinaryOp::I64DivS => {
                if imm.to_i64() == 1 {
                    // `x / 1` is `x`
                    Some(Rewrite::Operand)
                } else {
                    None
                }
            },
            BinaryOp::I64DivU => {
                if imm.to_i64() == 1 {
                    // `x / 1` is `x`
                    Some(Rewrite::Operand)
                } else {
                    None
                }
            },
            BinaryOp::I64RemS => {
                if imm.to_i64() == 1 || imm.to_i64() == -1 {
                    // `x % 1` and `x % -1` are `0`
                    Some(Rewrite::Const(UntypedValue::from_i64(0i64)))
                } else {
                    None
                }
            },
            BinaryOp::I64RemU => {
                if imm.to_i64() == 1 {
                    // `x % 1` is `0`
                    Some(Rewrite::Const(UntypedValue::from_i64(0i64)))
                } else {
                    None
                }
            },
            BinaryOp::I64And => {
                if imm.to_i64() == -1 {
                    // `x & -1` is `x`: `-1` has all bits set
                    Some(Rewrite::Operand)
                } else if imm.to_i64() == 0 {
                    // `x & 0` is `0`
                    Some(Rewrite::Const(UntypedValue::from_i64(0i64)))
                } else {
                    None
                }
            },
            BinaryOp::I64Or => {
                if imm.to_i64() == -1 {
                    // `x | -1` is `-1`: `-1` has all bits set
                    Some(Rewrite::Const(UntypedValue::from_i64(-1i64)))
                } else if imm.to_i64() == 0 {
                    // `x | 0` is `x`
                    Some(Rewrite::Operand)
                } else {
                    None
                }
            },
            BinaryOp::I64Xor => {
                if imm.to_i64() == 0 {
                    // `x ^ 0` is `x`
                    Some(Rewrite::Operand)
                } else {
                    None
                }
            },
            BinaryOp::F32Eq => {
                if f32_is_nan(imm.to_f32_bits()) {
                    // nothing is equal to NaN
                    Some(Rewrite::Const(UntypedValue::from_bool(false)))
                } else {
                    None
                }
            },
            BinaryOp::F32Ne => {
                if f32_is_nan(imm.to_f32_bits()) {
                    // everything is unequal to NaN
                    Some(Rewrite::Const(UntypedValue::from_bool(true)))
                } else {
                    None
                }
            },
            BinaryOp::F32Add => {
                if f32_is_zero(imm.to_f32_bits()) {
                    // `x + 0` is taken to be `x` for both zeros
                    Some(Rewrite::Operand)
                } else {
                    None
                }
            },
            BinaryOp::F32Sub => {
                if f32_is_positive_zero(imm.to_f32_bits()) {
                    // `x - 0` is `x`, but only for the positive zero
                    Some(Rewrite::Operand)
                } else {
                    None
                }
            },
            BinaryOp::F32Min => {
                if f32_is_positive_infinity(imm.to_f32_bits()) {
                    // the minimum of `x` and positive infinity is `x`
                    Some(Rewrite::Operand)
                } else {
                    None
                }
            },
            BinaryOp::F32Max => {
                if f32_is_negative_infinity(imm.to_f32_bits()) {
                    // the maximum of `x` and negative infinity is `x`
                    Some(Rewrite::Operand)
                } else {
                    None
                }
            },
            BinaryOp::F64Eq => {
                if f64_is_nan(imm.to_f64_bits()) {
                    // nothing is equal to NaN
                    Some(Rewrite::Const(UntypedValue::from_bool(false)))
                } else {
                    None
                }
            },
            BinaryOp::F64Ne => {
                if f64_is_nan(imm.to_f64_bits()) {
                    // everything is unequal to NaN
                    Some(Rewrite::Const(UntypedValue::from_bool(true)))
                } else {
                    None
                }
            },
            BinaryOp::F64Add => {
                if f64_is_zero(imm.to_f64_bits()) {
                    // `x + 0` is taken to be `x` for both zeros
                    Some(Rewrite::Operand)
                } else {
                    None
                }
            },
            BinaryOp::F64Sub => {
                if f64_is_positive_zero(imm.to_f64_bits()) {
                    // `x - 0` is `x`, but only for the positive zero
                    Some(Rewrite::Operand)
                } else {
                    None
                }
            },
            BinaryOp::F64Min => {
                if f64_is_positive_infinity(imm.to_f64_bits()) {
                    // the minimum of `x` and positive infinity is `x`
                    Some(Rewrite::Operand)
                } else {
                    None
                }
            },
            BinaryOp::F64Max => {
                if f64_is_negative_infinity(imm.to_f64_bits()) {
                    // the maximum of `x` and negative infinity is `x`
                    Some(Rewrite::Operand)
                } else {
                    None
                }
            },
            _ => None,
        }
    }

    /// Looks up the identity that simplifies `x op imm`.
    #[verifier::when_used_as_spec(spec_reg_imm_rule)]
    pub fn reg_imm_rule(self, imm: UntypedValue) -> (res: Option<Rewrite>)
        ensures
            res == self.spec_reg_imm_rule(imm),
    {
        match self {
            BinaryOp::I32LtS => {
                if imm.to_i32() == i32::MIN {
                    // `x < MIN` is always false
                    Some(Rewrite::Const(UntypedValue::from_bool(false)))
                } else {
                    None
                }
            },
            BinaryOp::I32LtU => {
                if imm.to_u32() == 0 {
                    // `x < 0` is always false
                    Some(Rewrite::Const(UntypedValue::from_bool(false)))
                } else {
                    None
                }
            },
            BinaryOp::I32GtS => {
                if imm.to_i32() == i32::MAX {
                    // `x > MAX` is always false
                    Some(Rewrite::Const(UntypedValue::from_bool(false)))
                } else {
                    None
                }
            },
            BinaryOp::I32GtU => {
                if imm.to_u32() == u32::MAX {
                    // `x > MAX` is always false
                    Some(Rewrite::Const(UntypedValue::from_bool(false)))
                } else {
                    None
                }
            },
            BinaryOp::I32LeS => {
                if imm.to_i32() == i32::MAX {
                    // `x <= MAX` is always true
                    Some(Rewrite::Const(UntypedValue::from_bool(true)))
                } else {
                    None
                }
            },
            BinaryOp::I32LeU => {
                if imm.to_u32() == u32::MAX {
                    // `x <= MAX` is always true
                    Some(Rewrite::Const(UntypedValue::from_bool(true)))
                } else {
                    None
                }
            },
            BinaryOp::I32GeS => {
                if imm.to_i32() == i32::MIN {
                    // `x >= MIN` is always true
                    Some(Rewrite::Const(UntypedValue::from_bool(true)))
                } else {
                    None
                }
            },
            BinaryOp::I32GeU => {
                if imm.to_u32() == 0 {
                    // `x >= 0` is always true
                    Some(Rewrite::Const(UntypedValue::from_bool(true)))
                } else {
                    None
                }
            },
            BinaryOp::I32Add => {
                if imm.to_i32() == 0 {
                    // `x + 0` is `x`
                    Some(Rewrite::Operand)
                } else {
                    None
                }
            },
            BinaryOp::I32Sub => {
                if imm.to_i32() == 0 {
                    // `x - 0` is `x`
                    Some(Rewrite::Operand)
                } else {
                    None
                }
            },
            BinaryOp::I32Mul => {
                if imm.to_i32() == 0 {
                    // `x * 0` is `0`
                    Some(Rewrite::Const(UntypedValue::from_i32(0i32)))
                } else if imm.to_i32() == 1 {
                    // `x * 1` is `x`
                    Some(Rewrite::Operand)
                } else {
                    None
                }
            },
            BinaryOp::I32DivS => {
                if imm.to_i32() == 1 {
                    // `x / 1` is `x`
                    Some(Rewrite::Operand)
                } else {
                    None
                }
            },
            BinaryOp::I32DivU => {
                if imm.to_i32() == 1 {
                    // `x / 1` is `x`
                    Some(Rewrite::Operand)
                } else {
                    None
                }
            },
            BinaryOp::I32RemS => {
                if imm.to_i32() == 1 || imm.to_i32() == -1 {
                    // `x % 1` and `x % -1` are `0`
                    Some(Rewrite::Const(UntypedValue::from_i32(0i32)))
                } else {
                    None
                }
            },
            BinaryOp::I32RemU => {
                if imm.to_i32() == 1 {
                    // `x % 1` is `0`
                    Some(Rewrite::Const(UntypedValue::from_i32(0i32)))
                } else {
                    None
                }
            },
            BinaryOp::I32And => {
                if imm.to_i32() == -1 {
                    // `x & -1` is `x`: `-1` has all bits set
                    Some(Rewrite::Operand)
                } else if imm.to_i32() == 0 {
                    // `x & 0` is `0`
                    Some(Rewrite::Const(UntypedValue::from_i32(0i32)))
                } else {
                    None
                }
            },
            BinaryOp::I32Or => {
                if imm.to_i32() == -1 {
                    // `x | -1` is `-1`: `-1` has all bits set
                    Some(Rewrite::Const(UntypedValue::from_i32(-1i32)))
                } else if imm.to_i32() == 0 {
                    // `x | 0` is `x`
                    Some(Rewrite::Operand)
                } else {
                    None
                }
            },
            BinaryOp::I32Xor => {
                if imm.to_i32() == 0 {
                    // `x ^ 0` is `x`
                    Some(Rewrite::Operand)
                } else {
                    None
                }
            },
            BinaryOp::I64LtS => {
                if imm.to_i64() == i64::MIN {
                    // `x < MIN` is always false
                    Some(Rewrite::Const(UntypedValue::from_bool(false)))
                } else {
                    None
                }
            },
            BinaryOp::I64LtU => {
                if imm.to_u64() == 0 {
                    // `x < 0` is always false
                    Some(Rewrite::Const(UntypedValue::from_bool(false)))
                } else {
                    None
                }
            },
            BinaryOp::I64GtS => {
                if imm.to_i64() == i64::MAX {
                    // `x > MAX` is always false
                    Some(Rewrite::Const(UntypedValue::from_bool(false)))
                } else {
                    None
                }
            },
            BinaryOp::I64GtU => {
                if imm.to_u64() == u64::MAX {
                    // `x > MAX` is always false
                    Some(Rewrite::Const(UntypedValue::from_bool(false)))
                } else {
                    None
                }
            },
            BinaryOp::I64LeS => {
                if imm.to_i64() == i64::MAX {
                    // `x <= MAX` is always true
                    Some(Rewrite::Const(UntypedValue::from_bool(true)))
                } else {
                    None
                }
            },
            BinaryOp::I64LeU => {
                if imm.to_u64() == u64::MAX {
                    // `x <= MAX` is always true
                    Some(Rewrite::Const(UntypedValue::from_bool(true)))
                } else {
                    None
                }
            },
            BinaryOp::I64GeS => {
                if imm.to_i64() == i64::MIN {
                    // `x >= MIN` is always true
                    Some(Rewrite::Const(UntypedValue::from_bool(true)))
                } else {
                    None
                }
            },
            BinaryOp::I64GeU => {
                if imm.to_u64() == 0 {
                    // `x >= 0` is always true
                    Some(Rewrite::Const(UntypedValue::from_bool(true)))
                } else {
                    None
                }
            },
            BinaryOp::I64Add => {
                if imm.to_i64() == 0 {
                    // `x + 0` is `x`
                    Some(Rewrite::Operand)
                } else {
                    None
                }
            },
            BinaryOp::I64Sub => {
                if imm.to_i64() == 0 {
                    // `x - 0` is `x`
                    Some(Rewrite::Operand)
                } else {
                    None
                }
            },
            BinaryOp::I64Mul => {
                if imm.to_i64() == 0 {
                    // `x * 0` is `0`
                    Some(Rewrite::Const(UntypedValue::from_i64(0i64)))
                } else if imm.to_i64() == 1 {
                    // `x * 1` is `x`
                    Some(Rewrite::Operand)
                } else {
                    None
                }
            },
            BinaryOp::I64DivS => {
                if imm.to_i64() == 1 {
                    // `x / 1` is `x`
                    Some(Rewrite::Operand)
                } else {
                    None
                }
            },
            BinaryOp::I64DivU => {
                if imm.to_i64() == 1 {
                    // `x / 1` is `x`
                    Some(Rewrite::Operand)
                } else {
                    None
                }
            },
            BinaryOp::I64RemS => {
                if imm.to_i64() == 1 || imm.to_i64() == -1 {
                    // `x % 1` and `x % -1` are `0`
                    Some(Rewrite::Const(UntypedValue::from_i64(0i64)))
                } else {
                    None
                }
            },
            BinaryOp::I64RemU => {
                if imm.to_i64() == 1 {
                    // `x % 1` is `0`
                    Some(Rewrite::Const(UntypedValue::from_i64(0i64)))
                } else {
                    None
                }
            },
            BinaryOp::I64And => {
                if imm.to_i64() == -1 {
                    // `x & -1` is `x`: `-1` has all bits set
                    Some(Rewrite::Operand)
                } else if imm.to_i64() == 0 {
                    // `x & 0` is `0`
                    Some(Rewrite::Const(UntypedValue::from_i64(0i64)))
                } else {
                    None
                }
            },
            BinaryOp::I64Or => {
                if imm.to_i64() == -1 {
                    // `x | -1` is `-1`: `-1` has all bits set
                    Some(Rewrite::Const(UntypedValue::from_i64(-1i64)))
                } else if imm.to_i64() == 0 {
                    // `x | 0` is `x`
                    Some(Rewrite::Operand)
                } else {
                    None
                }
            },
            BinaryOp::I64Xor => {
                if imm.to_i64() == 0 {
                    // `x ^ 0` is `x`
                    Some(Rewrite::Operand)
                } else {
                    None
                }
            },
            BinaryOp::F32Eq => {
                if f32_is_nan(imm.to_f32_bits()) {
                    // nothing is equal to NaN
                    Some(Rewrite::Const(UntypedValue::from_bool(false)))
                } else {
                    None
                }
            },
            BinaryOp::F32Ne => {
                if f32_is_nan(imm.to_f32_bits()) {
                    // everything is unequal to NaN
                    Some(Rewrite::Const(UntypedValue::from_bool(true)))
                } else {
                    None
                }
            },
            BinaryOp::F32Add => {
                if f32_is_zero(imm.to_f32_bits()) {
                    // `x + 0` is taken to be `x` for both zeros
                    Some(Rewrite::Operand)
                } else {
                    None
                }
            },
            BinaryOp::F32Sub => {
                if f32_is_positive_zero(imm.to_f32_bits()) {
                    // `x - 0` is `x`, but only for the positive zero
                    Some(Rewrite::Operand)
                } else {
                    None
                }
            },
            BinaryOp::F32Min => {
                if f32_is_positive_infinity(imm.to_f32_bits()) {
                    // the minimum of `x` and positive infinity is `x`
                    Some(Rewrite::Operand)
                } else {
                    None
                }
            },
            BinaryOp::F32Max => {
                if f32_is_negative_infinity(imm.to_f32_bits()) {
                    // the maximum of `x` and negative infinity is `x`
                    Some(Rewrite::Operand)
                } else {
                    None
                }
            },
            BinaryOp::F64Eq => {
                if f64_is_nan(imm.to_f64_bits()) {
                    // nothing is equal to NaN
                    Some(Rewrite::Const(UntypedValue::from_bool(false)))
                } else {
                    None
                }
            },
            BinaryOp::F64Ne => {
                if f64_is_nan(imm.to_f64_bits()) {
                    // everything is unequal to NaN
                    Some(Rewrite::Const(UntypedValue::from_bool(true)))
                } else {
                    None
                }
            },
            BinaryOp::F64Add => {
                if f64_is_zero(imm.to_f64_bits()) {
                    // `x + 0` is taken to be `x` for both zeros
                    Some(Rewrite::Operand)
                } else {
                    None
                }
            },
            BinaryOp::F64Sub => {
                if f64_is_positive_zero(imm.to_f64_bits()) {
                    // `x - 0` is `x`, but only for the positive zero
                    Some(Rewrite::Operand)
                } else {
                    None
                }
            },
            BinaryOp::F64Min => {
                if f64_is_positive_infinity(imm.to_f64_bits()) {
                    // the minimum of `x` and positive infinity is `x`
                    Some(Rewrite::Operand)
                } else {
                    None
                }
            },
            BinaryOp::F64Max => {
                if f64_is_negative_infinity(imm.to_f64_bits()) {
                    // the maximum of `x` and negative infinity is `x`
                    Some(Rewrite::Operand)
                } else {
                    None
                }
            },
            _ => None,
        }
    }

    /// The identity that simplifies `imm op x`, where the left operand is
    /// the constant `imm` and the right operand is a register, for an
    /// operator whose operands may not be swapped.
    pub open spec fn spec_imm_reg_rule(self, imm: UntypedValue) -> Option<Rewrite> {
        match self {
            BinaryOp::I32LtS => {
                if imm.to_i32() == i32::MAX {
                    // `MAX < x` is always false
                    Some(Rewrite::Const(UntypedValue::from_bool(false)))
                } else {
                    None
                }
            },
            BinaryOp::I32LtU => {
                if imm.to_u32() == u32::MAX {
                    // `MAX < x` is always false
                    Some(Rewrite::Const(UntypedValue::from_bool(false)))
                } else {
                    None
                }
            },
            BinaryOp::I32GtS => {
                if imm.to_i32() == i32::MIN {
                    // `MIN > x` is always false
                    Some(Rewrite::Const(UntypedValue::from_bool(false)))
                } else {
                    None
                }
            },
            BinaryOp::I32GtU => {
                if imm.to_u32() == 0 {
                    // `0 > x` is always false
                    Some(Rewrite::Const(UntypedValue::from_bool(false)))
                } else {
                    None
                }
            },
            BinaryOp::I32LeS => {
                if imm.to_i32() == i32::MIN {
                    // `MIN <= x` is always true
                    Some(Rewrite::Const(UntypedValue::from_bool(true)))
                } else {
                    None
                }
            },
            BinaryOp::I32LeU => {
                if imm.to_u32() == 0 {
                    // `0 <= x` is always true
                    Some(Rewrite::Const(UntypedValue::from_bool(true)))
                } else {
                    None
                }
            },
            BinaryOp::I32GeS => {
                if imm.to_i32() == i32::MAX {
                    // `MAX >= x` is always true
                    Some(Rewrite::Const(UntypedValue::from_bool(true)))
                } else {
                    None
                }
            },
            BinaryOp::I32GeU => {
                if imm.to_u32() == u32::MAX {
                    // `MAX >= x` is always true
                    Some(Rewrite::Const(UntypedValue::from_bool(true)))
                } else {
                    None
                }
            },
            BinaryOp::I32ShrS => {
                if imm.to_i32() == -1 {
                    // `-1 >> x` is `-1`: the sign bit fills in
                    Some(Rewrite::Const(UntypedValue::from_i32(-1i32)))
                } else {
                    None
                }
            },
            BinaryOp::I32Rotl => {
                if imm.to_i32() == -1 {
                    // `-1` rotated is `-1`: it has all bits set
                    Some(Rewrite::Const(UntypedValue::from_i32(-1i32)))
                } else {
                    None
                }
            },
            BinaryOp::I32Rotr => {
                if imm.to_i32() == -1 {
                    // `-1` rotated is `-1`: it has all bits set
                    Some(Rewrite::Const(UntypedValue::from_i32(-1i32)))
                } else {
                    None
                }
            },
            BinaryOp::I64LtS => {
                if imm.to_i64() == i64::MAX {
                    // `MAX < x` is always false
                    Some(Rewrite::Const(UntypedValue::from_bool(false)))
                } else {
                    None
                }
            },
            BinaryOp::I64LtU => {
                if imm.to_u64() == u64::MAX {
                    // `MAX < x` is always false
                    Some(Rewrite::Const(UntypedValue::from_bool(false)))
                } else {
                    None
                }
            },
            BinaryOp::I64GtS => {
                if imm.to_i64() == i64::MIN {
                    // `MIN > x` is always false
                    Some(Rewrite::Const(UntypedValue::from_bool(false)))
                } else {
                    None
                }
            },
            BinaryOp::I64GtU => {
                if imm.to_u64() == 0 {
                    // `0 > x` is always false
                    Some(Rewrite::Const(UntypedValue::from_bool(false)))
                } else {
                    None
                }
            },
            BinaryOp::I64LeS => {
                if imm.to_i64() == i64::MIN {
                    // `MIN <= x` is always true
                    Some(Rewrite::Const(UntypedValue::from_bool(true)))
                } else {
                    None
                }
            },
            BinaryOp::I64LeU => {
                if imm.to_u64() == 0 {
                    // `0 <= x` is always true
                    Some(Rewrite::Const(UntypedValue::from_bool(true)))
                } else {
                    None
                }
            },
            BinaryOp::I64GeS => {
                if imm.to_i64() == i64::MAX {
                    // `MAX >= x` is always true
                    Some(Rewrite::Const(UntypedValue::from_bool(true)))
                } else {
                    None
                }
            },
            BinaryOp::I64GeU => {
                if imm.to_u64() == u64::MAX {
                    // `MAX >= x` is always true
                    Some(Rewrite::Const(UntypedValue::from_bool(true)))
                } else {
                    None
                }
            },
            BinaryOp::I64ShrS => {
                if imm.to_i64() == -1 {
                    // `-1 >> x` is `-1`: the sign bit fills in
                    Some(Rewrite::Const(UntypedValue::from_i64(-1i64)))
                } else {
                    None
                }
            },
            BinaryOp::I64Rotl => {
                if imm.to_i64() == -1 {
                    // `-1` rotated is `-1`: it has all bits set
                    Some(Rewrite::Const(UntypedValue::from_i64(-1i64)))
                } else {
                    None
                }
            },
            BinaryOp::I64Rotr => {
                if imm.to_i64() == -1 {
                    // `-1` rotated is `-1`: it has all bits set
                    Some(Rewrite::Const(UntypedValue::from_i64(-1i64)))
                } else {
                    None
                }
            },
            _ => None,
        }
    }

    /// Looks up the identity that simplifies `imm op x`.
    #[verifier::when_used_as_spec(spec_imm_reg_rule)]
    pub fn imm_reg_rule(self, imm: UntypedValue) -> (res: Option<Rewrite>)
        ensures
            res == self.spec_imm_reg_rule(imm),
    {
        match self {
            BinaryOp::I32LtS => {
                if imm.to_i32() == i32::MAX {
                    // `MAX < x` is always false
                    Some(Rewrite::Const(UntypedValue::from_bool(false)))
                } else {
                    None
                }
            },
            BinaryOp::I32LtU => {
                if imm.to_u32() == u32::MAX {
                    // `MAX < x` is always false
                    Some(Rewrite::Const(UntypedValue::from_bool(false)))
                } else {
                    None
                }
            },
            BinaryOp::I32GtS => {
                if imm.to_i32() == i32::MIN {
                    // `MIN > x` is always false
                    Some(Rewrite::Const(UntypedValue::from_bool(false)))
                } else {
                    None
                }
            },
            BinaryOp::I32GtU => {
                if imm.to_u32() == 0 {
                    // `0 > x` is always false
                    Some(Rewrite::Const(UntypedValue::from_bool(false)))
                } else {
                    None
                }
            },
            BinaryOp::I32LeS => {
                if imm.to_i32() == i32::MIN {
                    // `MIN <= x` is always true
                    Some(Rewrite::Const(UntypedValue::from_bool(true)))
                } else {
                    None
                }
            },
            BinaryOp::I32LeU => {
                if imm.to_u32() == 0 {
                    // `0 <= x` is always true
                    Some(Rewrite::Const(UntypedValue::from_bool(true)))
                } else {
                    None
                }
            },
            BinaryOp::I32GeS => {
                if imm.to_i32() == i32::MAX {
                    // `MAX >= x` is always true
                    Some(Rewrite::Const(UntypedValue::from_bool(true)))
                } else {
                    None
                }
            },
            BinaryOp::I32GeU => {
                if imm.to_u32() == u32::MAX {
                    // `MAX >= x` is always true
                    Some(Rewrite::Const(UntypedValue::from_bool(true)))
                } else {
                    None
                }
            },
            BinaryOp::I32ShrS => {
                if imm.to_i32() == -1 {
                    // `-1 >> x` is `-1`: the sign bit fills in
                    Some(Rewrite::Const(UntypedValue::from_i32(-1i32)))
                } else {
                    None
                }
            },
            BinaryOp::I32Rotl => {
                if imm.to_i32() == -1 {
                    // `-1` rotated is `-1`: it has all bits set
                    Some(Rewrite::Const(UntypedValue::from_i32(-1i32)))
                } else {
                    None
                }
            },
            BinaryOp::I32Rotr => {
                if imm.to_i32() == -1 {
                    // `-1` rotated is `-1`: it has all bits set
                    Some(Rewrite::Const(UntypedValue::from_i32(-1i32)))
                } else {
                    None
                }
            },
            BinaryOp::I64LtS => {
                if imm.to_i64() == i64::MAX {
                    // `MAX < x` is always false
                    Some(Rewrite::Const(UntypedValue::from_bool(false)))
                } else {
                    None
                }
            },
            BinaryOp::I64LtU => {
                if imm.to_u64() == u64::MAX {
                    // `MAX < x` is always false
                    Some(Rewrite::Const(UntypedValue::from_bool(false)))
                } else {
                    None
                }
            },
            BinaryOp::I64GtS => {
                if imm.to_i64() == i64::MIN {
                    // `MIN > x` is always false
                    Some(Rewrite::Const(UntypedValue::from_bool(false)))
                } else {
                    None
                }
            },
            BinaryOp::I64GtU => {
                if imm.to_u64() == 0 {
                    // `0 > x` is always false
                    Some(Rewrite::Const(UntypedValue::from_bool(false)))
                } else {
                    None
                }
            },
            BinaryOp::I64LeS => {
                if imm.to_i64() == i64::MIN {
                    // `MIN <= x` is always true
                    Some(Rewrite::Const(UntypedValue::from_bool(true)))
                } else {
                    None
                }
            },
            BinaryOp::I64LeU => {
                if imm.to_u64() == 0 {
                    // `0 <= x` is always true
                    Some(Rewrite::Const(UntypedValue::from_bool(true)))
                } else {
                    None
                }
            },
            BinaryOp::I64GeS => {
                if imm.to_i64() == i64::MAX {
                    // `MAX >= x` is always true
                    Some(Rewrite::Const(UntypedValue::from_bool(true)))
                } else {
                    None
                }
            },
            BinaryOp::I64GeU => {
                if imm.to_u64() == u64::MAX {
                    // `MAX >= x` is always true
                    Some(Rewrite::Const(UntypedValue::from_bool(true)))
                } else {
                    None
                }
            },
            BinaryOp::I64ShrS => {
                if imm.to_i64() == -1 {
                    // `-1 >> x` is `-1`: the sign bit fills in
                    Some(Rewrite::Const(UntypedValue::from_i64(-1i64)))
                } else {
                    None
                }
            },
            BinaryOp::I64Rotl => {
                if imm.to_i64() == -1 {
                    // `-1` rotated is `-1`: it has all bits set
                    Some(Rewrite::Const(UntypedValue::from_i64(-1i64)))
                } else {
                    None
                }
            },
            BinaryOp::I64Rotr => {
                if imm.to_i64() == -1 {
                    // `-1` rotated is `-1`: it has all bits set
                    Some(Rewrite::Const(UntypedValue::from_i64(-1i64)))
                } else {
                    None
                }
            },
            _ => None,
        }
    }

    /// How closely the result of the operator on constants is determined.
    pub open spec fn precision(self) -> Precision {
        match self {
            BinaryOp::F32Add
            | BinaryOp::F32Sub
            | BinaryOp::F32Mul
            | BinaryOp::F32Div
            | BinaryOp::F32Min
            | BinaryOp::F32Max => Precision::F32,
            BinaryOp::F64Add
            | BinaryOp::F64Sub
            | BinaryOp::F64Mul
            | BinaryOp::F64Div
            | BinaryOp::F64Min
            | BinaryOp::F64Max => Precision::F64,
            _ => Precision::Exact,
        }
    }

    /// The result of the operator on two constants: a value, or the trap
    /// that executing the operator on them raises.
    pub open spec fn spec_eval(self, lhs: UntypedValue, rhs: UntypedValue) -> Result<
        UntypedValue,
        TrapCode,
    > {
        match self {
            BinaryOp::I32Eq => Ok(i32_eq(lhs, rhs)),
            BinaryOp::I32Ne => Ok(i32_ne(lhs, rhs)),
            BinaryOp::I32LtS => Ok(i32_lt_s(lhs, rhs)),
            BinaryOp::I32LtU => Ok(i32_lt_u(lhs, rhs)),
            BinaryOp::I32GtS => Ok(i32_gt_s(lhs, rhs)),
            BinaryOp::I32GtU => Ok(i32_gt_u(lhs, rhs)),
            BinaryOp::I32LeS => Ok(i32_le_s(lhs, rhs)),
            BinaryOp::I32LeU => Ok(i32_le_u(lhs, rhs)),
            BinaryOp::I32GeS => Ok(i32_ge_s(lhs, rhs)),
            BinaryOp::I32GeU => Ok(i32_ge_u(lhs, rhs)),
            BinaryOp::I32Add => Ok(i32_add(lhs, rhs)),
            BinaryOp::I32Sub => Ok(i32_sub(lhs, rhs)),
            BinaryOp::I32Mul => Ok(i32_mul(lhs, rhs)),
            BinaryOp::I32DivS => i32_div_s(lhs, rhs),
            BinaryOp::I32DivU => i32_div_u(lhs, rhs),
            BinaryOp::I32RemS => i32_rem_s(lhs, rhs),
            BinaryOp::I32RemU => i32_rem_u(lhs, rhs),
            BinaryOp::I32And => Ok(i32_and(lhs, rhs)),
            BinaryOp::I32Or => Ok(i32_or(lhs, rhs)),
            BinaryOp::I32Xor => Ok(i32_xor(lhs, rhs)),
            BinaryOp::I32Shl => Ok(i32_shl(lhs, rhs)),
            BinaryOp::I32ShrS => Ok(i32_shr_s(lhs, rhs)),
            BinaryOp::I32ShrU => Ok(i32_shr_u(lhs, rhs)),
            BinaryOp::I32Rotl => Ok(i32_rotl(lhs, rhs)),
            BinaryOp::I32Rotr => Ok(i32_rotr(lhs, rhs)),
            BinaryOp::I64Eq => Ok(i64_eq(lhs, rhs)),
            BinaryOp::I64Ne => Ok(i64_ne(lhs, rhs)),
            BinaryOp::I64LtS => Ok(i64_lt_s(lhs, rhs)),
            BinaryOp::I64LtU => Ok(i64_lt_u(lhs, rhs)),
            BinaryOp::I64GtS => Ok(i64_gt_s(lhs, rhs)),
            BinaryOp::I64GtU => Ok(i64_gt_u(lhs, rhs)),
            BinaryOp::I64LeS => Ok(i64_le_s(lhs, rhs)),
            BinaryOp::I64LeU => Ok(i64_le_u(lhs, rhs)),
            BinaryOp::I64GeS => Ok(i64_ge_s(lhs, rhs)),
            BinaryOp::I64GeU => Ok(i64_ge_u(lhs, rhs)),
            BinaryOp::I64Add => Ok(i64_add(lhs, rhs)),
            BinaryOp::I64Sub => Ok(i64_sub(lhs, rhs)),
            BinaryOp::I64Mul => Ok(i64_mul(lhs, rhs)),
            BinaryOp::I64DivS => i64_div_s(lhs, rhs),
            BinaryOp::I64DivU => i64_div_u(lhs, rhs),
            BinaryOp::I64RemS => i64_rem_s(lhs, rhs),
            BinaryOp::I64RemU => i64_rem_u(lhs, rhs),
            BinaryOp::I64And => Ok(i64_and(lhs, rhs)),
            BinaryOp::I64Or => Ok(i64_or(lhs, rhs)),
            BinaryOp::I64Xor => Ok(i64_xor(lhs, rhs)),
            BinaryOp::I64Shl => Ok(i64_shl(lhs, rhs)),
            BinaryOp::I64ShrS => Ok(i64_shr_s(lhs, rhs)),
            BinaryOp::I64ShrU => Ok(i64_shr_u(lhs, rhs)),
            BinaryOp::I64Rotl => Ok(i64_rotl(lhs, rhs)),
            BinaryOp::I64Rotr => Ok(i64_rotr(lhs, rhs)),
            BinaryOp::F32Eq => Ok(f32_eq(lhs, rhs)),
            BinaryOp::F32Ne => Ok(f32_ne(lhs, rhs)),
            BinaryOp::F32Add => Ok(
                UntypedValue::from_f32_bits(f32_add_bits(lhs.to_f32_bits(), rhs.to_f32_bits())),
            ),
            BinaryOp::F32Sub => Ok(
                UntypedValue::from_f32_bits(f32_sub_bits(lhs.to_f32_bits(), rhs.to_f32_bits())),
            ),
            BinaryOp::F32Mul => Ok(
                UntypedValue::from_f32_bits(f32_mul_bits(lhs.to_f32_bits(), rhs.to_f32_bits())),
            ),
            BinaryOp::F32Div => Ok(
                UntypedValue::from_f32_bits(f32_div_bits(lhs.to_f32_bits(), rhs.to_f32_bits())),
            ),
            BinaryOp::F32Min => Ok(
                UntypedValue::from_f32_bits(f32_min_bits(lhs.to_f32_bits(), rhs.to_f32_bits())),
            ),
            BinaryOp::F32Max => Ok(
                UntypedValue::from_f32_bits(f32_max_bits(lhs.to_f32_bits(), rhs.to_f32_bits())),
            ),
            BinaryOp::F32Copysign => Ok(f32_copysign(lhs, rhs)),
            BinaryOp::F64Eq => Ok(f64_eq(lhs, rhs)),
            BinaryOp::F64Ne => Ok(f64_ne(lhs, rhs)),
            BinaryOp::F64Add => Ok(
                UntypedValue::from_f64_bits(f64_add_bits(lhs.to_f64_bits(), rhs.to_f64_bits())),
            ),
            BinaryOp::F64Sub => Ok(
                UntypedValue::from_f64_bits(f64_sub_bits(lhs.to_f64_bits(), rhs.to_f64_bits())),
            ),
            BinaryOp::F64Mul => Ok(
                UntypedValue::from_f64_bits(f64_mul_bits(lhs.to_f64_bits(), rhs.to_f64_bits())),
            ),
            BinaryOp::F64Div => Ok(
                UntypedValue::from_f64_bits(f64_div_bits(lhs.to_f64_bits(), rhs.to_f64_bits())),
            ),
            BinaryOp::F64Min => Ok(
                UntypedValue::from_f64_bits(f64_min_bits(lhs.to_f64_bits(), rhs.to_f64_bits())),
            ),
            BinaryOp::F64Max => Ok(
                UntypedValue::from_f64_bits(f64_max_bits(lhs.to_f64_bits(), rhs.to_f64_bits())),
            ),
            BinaryOp::F64Copysign => Ok(f64_copysign(lhs, rhs)),
        }
    }

    /// Whether `res` is a result that evaluating the operator on two
    /// constants may give: the trap or the value of [`BinaryOp::spec_eval`],
    /// where a float result that is NaN may be any NaN.
    pub open spec fn evaluates(
        self,
        lhs: UntypedValue,
        rhs: UntypedValue,
        res: Result<UntypedValue, TrapCode>,
    ) -> bool {
        match self.spec_eval(lhs, rhs) {
            Ok(expected) => res matches Ok(actual) && self.precision().admits(actual, expected),
            Err(code) => res == Err::<UntypedValue, TrapCode>(code),
        }
    }

    /// Evaluates the operator on two constants.
    pub fn eval(self, lhs: UntypedValue, rhs: UntypedValue) -> (res: Result<UntypedValue, TrapCode>)
        ensures
            self.evaluates(lhs, rhs, res),
    {
        match self {
            BinaryOp::I32Eq => Ok(i32_eq(lhs, rhs)),
            BinaryOp::I32Ne => Ok(i32_ne(lhs, rhs)),
            BinaryOp::I32LtS => Ok(i32_lt_s(lhs, rhs)),
            BinaryOp::I32LtU => Ok(i32_lt_u(lhs, rhs)),
            BinaryOp::I32GtS => Ok(i32_gt_s(lhs, rhs)),
            BinaryOp::I32GtU => Ok(i32_gt_u(lhs, rhs)),
            BinaryOp::I32LeS => Ok(i32_le_s(lhs, rhs)),
            BinaryOp::I32LeU => Ok(i32_le_u(lhs, rhs)),
            BinaryOp::I32GeS => Ok(i32_ge_s(lhs, rhs)),
            BinaryOp::I32GeU => Ok(i32_ge_u(lhs, rhs)),
            BinaryOp::I32Add => Ok(i32_add(lhs, rhs)),
            BinaryOp::I32Sub => Ok(i32_sub(lhs, rhs)),
            BinaryOp::I32Mul => Ok(i32_mul(lhs, rhs)),
            BinaryOp::I32DivS => i32_div_s(lhs, rhs),
            BinaryOp::I32DivU => i32_div_u(lhs, rhs),
            BinaryOp::I32RemS => i32_rem_s(lhs, rhs),
            BinaryOp::I32RemU => i32_rem_u(lhs, rhs),
            BinaryOp::I32And => Ok(i32_and(lhs, rhs)),
            BinaryOp::I32Or => Ok(i32_or(lhs, rhs)),
            BinaryOp::I32Xor => Ok(i32_xor(lhs, rhs)),
            BinaryOp::I32Shl => Ok(i32_shl(lhs, rhs)),
            BinaryOp::I32ShrS => Ok(i32_shr_s(lhs, rhs)),
            BinaryOp::I32ShrU => Ok(i32_shr_u(lhs, rhs)),
            BinaryOp::I32Rotl => Ok(i32_rotl(lhs, rhs)),
            BinaryOp::I32Rotr => Ok(i32_rotr(lhs, rhs)),
            BinaryOp::I64Eq => Ok(i64_eq(lhs, rhs)),
            BinaryOp::I64Ne => Ok(i64_ne(lhs, rhs)),
            BinaryOp::I64LtS => Ok(i64_lt_s(lhs, rhs)),
            BinaryOp::I64LtU => Ok(i64_lt_u(lhs, rhs)),
            BinaryOp::I64GtS => Ok(i64_gt_s(lhs, rhs)),
            BinaryOp::I64GtU => Ok(i64_gt_u(lhs, rhs)),
            BinaryOp::I64LeS => Ok(i64_le_s(lhs, rhs)),
            BinaryOp::I64LeU => Ok(i64_le_u(lhs, rhs)),
            BinaryOp::I64GeS => Ok(i64_ge_s(lhs, rhs)),
            BinaryOp::I64GeU => Ok(i64_ge_u(lhs, rhs)),
            BinaryOp::I64Add => Ok(i64_add(lhs, rhs)),
            BinaryOp::I64Sub => Ok(i64_sub(lhs, rhs)),
            BinaryOp::I64Mul => Ok(i64_mul(lhs, rhs)),
            BinaryOp::I64DivS => i64_div_s(lhs, rhs),
            BinaryOp::I64DivU => i64_div_u(lhs, rhs),
            BinaryOp::I64RemS => i64_rem_s(lhs, rhs),
            BinaryOp::I64RemU => i64_rem_u(lhs, rhs),
            BinaryOp::I64And => Ok(i64_and(lhs, rhs)),
            BinaryOp::I64Or => Ok(i64_or(lhs, rhs)),
            BinaryOp::I64Xor => Ok(i64_xor(lhs, rhs)),
            BinaryOp::I64Shl => Ok(i64_shl(lhs, rhs)),
            BinaryOp::I64ShrS => Ok(i64_shr_s(lhs, rhs)),
            BinaryOp::I64ShrU => Ok(i64_shr_u(lhs, rhs)),
            BinaryOp::I64Rotl => Ok(i64_rotl(lhs, rhs)),
            BinaryOp::I64Rotr => Ok(i64_rotr(lhs, rhs)),
            BinaryOp::F32Eq => Ok(f32_eq(lhs, rhs)),
            BinaryOp::F32Ne => Ok(f32_ne(lhs, rhs)),
            BinaryOp::F32Add => Ok(f32_add(lhs, rhs)),
            BinaryOp::F32Sub => Ok(f32_sub(lhs, rhs)),
            BinaryOp::F32Mul => Ok(f32_mul(lhs, rhs)),
            BinaryOp::F32Div => Ok(f32_div(lhs, rhs)),
            BinaryOp::F32Min => Ok(f32_min(lhs, rhs)),
            BinaryOp::F32Max => Ok(f32_max(lhs, rhs)),
            BinaryOp::F32Copysign => Ok(f32_copysign(lhs, rhs)),
            BinaryOp::F64Eq => Ok(f64_eq(lhs, rhs)),
            BinaryOp::F64Ne => Ok(f64_ne(lhs, rhs)),
            BinaryOp::F64Add => Ok(f64_add(lhs, rhs)),
            BinaryOp::F64Sub => Ok(f64_sub(lhs, rhs)),
            BinaryOp::F64Mul => Ok(f64_mul(lhs, rhs)),
            BinaryOp::F64Div => Ok(f64_div(lhs, rhs)),
            BinaryOp::F64Min => Ok(f64_min(lhs, rhs)),
            BinaryOp::F64Max => Ok(f64_max(lhs, rhs)),
            BinaryOp::F64Copysign => Ok(f64_copysign(lhs, rhs)),
        }
    }
}

impl UnaryOp {
    /// How closely the result of the operator on a constant is determined.
    pub open spec fn precision(self) -> Precision {
        match self {
            UnaryOp::F32Ceil
            | UnaryOp::F32Floor
            | UnaryOp::F32Trunc
            | UnaryOp::F32Nearest
            | UnaryOp::F32Sqrt => Precision::F32,
            UnaryOp::F64Ceil
            | UnaryOp::F64Floor
            | UnaryOp::F64Trunc
            | UnaryOp::F64Nearest
            | UnaryOp::F64Sqrt => Precision::F64,
            _ => Precision::Exact,
        }
    }

    /// The result of the operator on a constant.
    pub open spec fn spec_eval(self, input: UntypedValue) -> UntypedValue {
        match self {
            UnaryOp::I32Clz => i32_clz(input),
            UnaryOp::I32Ctz => i32_ctz(input),
            UnaryOp::I32Popcnt => i32_popcnt(input),
            UnaryOp::I64Clz => i64_clz(input),
            UnaryOp::I64Ctz => i64_ctz(input),
            UnaryOp::I64Popcnt => i64_popcnt(input),
            UnaryOp::F32Abs => f32_abs(input),
            UnaryOp::F32Neg => f32_neg(input),
            UnaryOp::F32Ceil => UntypedValue::from_f32_bits(f32_ceil_bits(input.to_f32_bits())),
            UnaryOp::F32Floor => UntypedValue::from_f32_bits(f32_floor_bits(input.to_f32_bits())),
            UnaryOp::F32Trunc => UntypedValue::from_f32_bits(f32_trunc_bits(input.to_f32_bits())),
            UnaryOp::F32Nearest => UntypedValue::from_f32_bits(f32_nearest_bits(input.to_f32_bits())),
            UnaryOp::F32Sqrt => UntypedValue::from_f32_bits(f32_sqrt_bits(input.to_f32_bits())),
            UnaryOp::F64Abs => f64_abs(input),
            UnaryOp::F64Neg => f64_neg(input),
            UnaryOp::F64Ceil => UntypedValue::from_f64_bits(f64_ceil_bits(input.to_f64_bits())),
            UnaryOp::F64Floor => UntypedValue::from_f64_bits(f64_floor_bits(input.to_f64_bits())),
            UnaryOp::F64Trunc => UntypedValue::from_f64_bits(f64_trunc_bits(input.to_f64_bits())),
            UnaryOp::F64Nearest => UntypedValue::from_f64_bits(f64_nearest_bits(input.to_f64_bits())),
            UnaryOp::F64Sqrt => UntypedValue::from_f64_bits(f64_sqrt_bits(input.to_f64_bits())),
        }
    }

    /// Whether `res` is a result that evaluating the operator on a constant
    /// may give: the value of [`UnaryOp::spec_eval`], where a float result
    /// that is NaN may be any NaN.
    pub open spec fn evaluates(self, input: UntypedValue, res: UntypedValue) -> bool {
        self.precision().admits(res, self.spec_eval(input))
    }

    /// Evaluates the operator on a constant.
    pub fn eval(self, input: UntypedValue) -> (res: UntypedValue)
        ensures
            self.evaluates(input, res),
    {
        match self {
            UnaryOp::I32Clz => i32_clz(input),
            UnaryOp::I32Ctz => i32_ctz(input),
            UnaryOp::I32Popcnt => i32_popcnt(input),
            UnaryOp::I64Clz => i64_clz(input),
            UnaryOp::I64Ctz => i64_ctz(input),
            UnaryOp::I64Popcnt => i64_popcnt(input),
            UnaryOp::F32Abs => f32_abs(input),
            UnaryOp::F32Neg => f32_neg(input),
            UnaryOp::F32Ceil => f32_ceil(input),
            UnaryOp::F32Floor => f32_floor(input),
            UnaryOp::F32Trunc => f32_trunc(input),
            UnaryOp::F32Nearest => f32_nearest(input),
            UnaryOp::F32Sqrt => f32_sqrt(input),
            UnaryOp::F64Abs => f64_abs(input),
            UnaryOp::F64Neg => f64_neg(input),
            UnaryOp::F64Ceil => f64_ceil(input),
            UnaryOp::F64Floor => f64_floor(input),
            UnaryOp::F64Trunc => f64_trunc(input),
            UnaryOp::F64Nearest => f64_nearest(input),
            UnaryOp::F64Sqrt => f64_sqrt(input),
        }
    }
}

} // verus!
