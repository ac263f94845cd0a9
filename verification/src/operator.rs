//! The Wasm operators that reach the translator.

use crate::bytecode::{BinaryOp, UnaryOp};
use crate::value::UntypedValue;
use vstd::prelude::*;

verus! {

/// A Wasm operator.
///
/// An operator that the translator translates comes with its immediates;
/// the immediates of the others are not kept.
#[allow(inconsistent_fields)]
#[derive(Clone, Copy, Debug, PartialEq, Eq, Structural)]
pub enum Operator {
    /// `unreachable`.
    Unreachable,
    /// `nop`.
    Nop,
    /// `block`.
    Block,
    /// `loop`.
    Loop,
    /// `if`.
    If,
    /// `else`.
    Else,
    /// `end`.
    End,
    /// `br`.
    Br,
    /// `br_if`.
    BrIf,
    /// `br_table`.
    BrTable,
    /// `return`.
    Return,
    /// `call`.
    Call,
    /// `call_indirect`.
    CallIndirect,
    /// `return_call`.
    ReturnCall,
    /// `return_call_indirect`.
    ReturnCallIndirect,
    /// `drop`.
    Drop,
    /// `select`.
    Select,
    /// `typed_select`.
    TypedSelect,
    /// `local.get`.
    LocalGet {
        /// The index of the local variable.
        local_index: u32,
    },
    /// `local.set`.
    LocalSet,
    /// `local.tee`.
    LocalTee,
    /// `global.get`.
    GlobalGet,
    /// `global.set`.
    GlobalSet,
    /// `i32.load`.
    I32Load,
    /// `i64.load`.
    I64Load,
    /// `f32.load`.
    F32Load,
    /// `f64.load`.
    F64Load,
    /// `i32.load8_s`.
    I32Load8S,
    /// `i32.load8_u`.
    I32Load8U,
    /// `i32.load16_s`.
    I32Load16S,
    /// `i32.load16_u`.
    I32Load16U,
    /// `i64.load8_s`.
    I64Load8S,
    /// `i64.load8_u`.
    I64Load8U,
    /// `i64.load16_s`.
    I64Load16S,
    /// `i64.load16_u`.
    I64Load16U,
    /// `i64.load32_s`.
    I64Load32S,
    /// `i64.load32_u`.
    I64Load32U,
    /// `i32.store`.
    I32Store,
    /// `i64.store`.
    I64Store,
    /// `f32.store`.
    F32Store,
    /// `f64.store`.
    F64Store,
    /// `i32.store8`.
    I32Store8,
    /// `i32.store16`.
    I32Store16,
    /// `i64.store8`.
    I64Store8,
    /// `i64.store16`.
    I64Store16,
    /// `i64.store32`.
    I64Store32,
    /// `memory.size`.
    MemorySize,
    /// `memory.grow`.
    MemoryGrow,
    /// `i32.const`.
    I32Const {
        /// The constant.
        value: i32,
    },
    /// `i64.const`.
    I64Const {
        /// The constant.
        value: i64,
    },
    /// `f32.const`.
    F32Const {
        /// The bit pattern of the constant.
        bits: u32,
    },
    /// `f64.const`.
    F64Const {
        /// The bit pattern of the constant.
        bits: u64,
    },
    /// `ref.null`.
    RefNull,
    /// `ref.is_null`.
    RefIsNull,
    /// `ref.func`.
    RefFunc,
    /// `i32.eqz`.
    I32Eqz,
    /// `i32.eq`.
    I32Eq,
    /// `i32.ne`.
    I32Ne,
    /// `i32.lt_s`.
    I32LtS,
    /// `i32.lt_u`.
    I32LtU,
    /// `i32.gt_s`.
    I32GtS,
    /// `i32.gt_u`.
    I32GtU,
    /// `i32.le_s`.
    I32LeS,
    /// `i32.le_u`.
    I32LeU,
    /// `i32.ge_s`.
    I32GeS,
    /// `i32.ge_u`.
    I32GeU,
    /// `i64.eqz`.
    I64Eqz,
    /// `i64.eq`.
    I64Eq,
    /// `i64.ne`.
    I64Ne,
    /// `i64.lt_s`.
    I64LtS,
    /// `i64.lt_u`.
    I64LtU,
    /// `i64.gt_s`.
    I64GtS,
    /// `i64.gt_u`.
    I64GtU,
    /// `i64.le_s`.
    I64LeS,
    /// `i64.le_u`.
    I64LeU,
    /// `i64.ge_s`.
    I64GeS,
    /// `i64.ge_u`.
    I64GeU,
    /// `f32.eq`.
    F32Eq,
    /// `f32.ne`.
    F32Ne,
    /// `f32.lt`.
    F32Lt,
    /// `f32.gt`.
    F32Gt,
    /// `f32.le`.
    F32Le,
    /// `f32.ge`.
    F32Ge,
    /// `f64.eq`.
    F64Eq,
    /// `f64.ne`.
    F64Ne,
    /// `f64.lt`.
    F64Lt,
    /// `f64.gt`.
    F64Gt,
    /// `f64.le`.
    F64Le,
    /// `f64.ge`.
    F64Ge,
    /// `i32.clz`.
    I32Clz,
    /// `i32.ctz`.
    I32Ctz,
    /// `i32.popcnt`.
    I32Popcnt,
    /// `i32.add`.
    I32Add,
    /// `i32.sub`.
    I32Sub,
    /// `i32.mul`.
    I32Mul,
    /// `i32.div_s`.
    I32DivS,
    /// `i32.div_u`.
    I32DivU,
    /// `i32.rem_s`.
    I32RemS,
    /// `i32.rem_u`.
    I32RemU,
    /// `i32.and`.
    I32And,
    /// `i32.or`.
    I32Or,
    /// `i32.xor`.
    I32Xor,
    /// `i32.shl`.
    I32Shl,
    /// `i32.shr_s`.
    I32ShrS,
    /// `i32.shr_u`.
    I32ShrU,
    /// `i32.rotl`.
    I32Rotl,
    /// `i32.rotr`.
    I32Rotr,
    /// `i64.clz`.
    I64Clz,
    /// `i64.ctz`.
    I64Ctz,
    /// `i64.popcnt`.
    I64Popcnt,
    /// `i64.add`.
    I64Add,
    /// `i64.sub`.
    I64Sub,
    /// `i64.mul`.
    I64Mul,
    /// `i64.div_s`.
    I64DivS,
    /// `i64.div_u`.
    I64DivU,
    /// `i64.rem_s`.
    I64RemS,
    /// `i64.rem_u`.
    I64RemU,
    /// `i64.and`.
    I64And,
    /// `i64.or`.
    I64Or,
    /// `i64.xor`.
    I64Xor,
    /// `i64.shl`.
    I64Shl,
    /// `i64.shr_s`.
    I64ShrS,
    /// `i64.shr_u`.
    I64ShrU,
    /// `i64.rotl`.
    I64Rotl,
    /// `i64.rotr`.
    I64Rotr,
    /// `f32.abs`.
    F32Abs,
    /// `f32.neg`.
    F32Neg,
    /// `f32.ceil`.
    F32Ceil,
    /// `f32.floor`.
    F32Floor,
    /// `f32.trunc`.
    F32Trunc,
    /// `f32.nearest`.
    F32Nearest,
    /// `f32.sqrt`.
    F32Sqrt,
    /// `f32.add`.
    F32Add,
    /// `f32.sub`.
    F32Sub,
    /// `f32.mul`.
    F32Mul,
    /// `f32.div`.
    F32Div,
    /// `f32.min`.
    F32Min,
    /// `f32.max`.
    F32Max,
    /// `f32.copysign`.
    F32Copysign,
    /// `f64.abs`.
    F64Abs,
    /// `f64.neg`.
    F64Neg,
    /// `f64.ceil`.
    F64Ceil,
    /// `f64.floor`.
    F64Floor,
    /// `f64.trunc`.
    F64Trunc,
    /// `f64.nearest`.
    F64Nearest,
    /// `f64.sqrt`.
    F64Sqrt,
    /// `f64.add`.
    F64Add,
    /// `f64.sub`.
    F64Sub,
    /// `f64.mul`.
    F64Mul,
    /// `f64.div`.
    F64Div,
    /// `f64.min`.
    F64Min,
    /// `f64.max`.
    F64Max,
    /// `f64.copysign`.
    F64Copysign,
    /// `i32.wrap_i64`.
    I32WrapI64,
    /// `i32.trunc_f32_s`.
    I32TruncF32S,
    /// `i32.trunc_f32_u`.
    I32TruncF32U,
    /// `i32.trunc_f64_s`.
    I32TruncF64S,
    /// `i32.trunc_f64_u`.
    I32TruncF64U,
    /// `i64.extend_i32_s`.
    I64ExtendI32S,
    /// `i64.extend_i32_u`.
    I64ExtendI32U,
    /// `i64.trunc_f32_s`.
    I64TruncF32S,
    /// `i64.trunc_f32_u`.
    I64TruncF32U,
    /// `i64.trunc_f64_s`.
    I64TruncF64S,
    /// `i64.trunc_f64_u`.
    I64TruncF64U,
    /// `f32.convert_i32_s`.
    F32ConvertI32S,
    /// `f32.convert_i32_u`.
    F32ConvertI32U,
    /// `f32.convert_i64_s`.
    F32ConvertI64S,
    /// `f32.convert_i64_u`.
    F32ConvertI64U,
    /// `f32.demote_f64`.
    F32DemoteF64,
    /// `f64.convert_i32_s`.
    F64ConvertI32S,
    /// `f64.convert_i32_u`.
    F64ConvertI32U,
    /// `f64.convert_i64_s`.
    F64ConvertI64S,
    /// `f64.convert_i64_u`.
    F64ConvertI64U,
    /// `f64.promote_f32`.
    F64PromoteF32,
    /// `i32.reinterpret_f32`.
    I32ReinterpretF32,
    /// `i64.reinterpret_f64`.
    I64ReinterpretF64,
    /// `f32.reinterpret_i32`.
    F32ReinterpretI32,
    /// `f64.reinterpret_i64`.
    F64ReinterpretI64,
    /// `i32.extend8_s`.
    I32Extend8S,
    /// `i32.extend16_s`.
    I32Extend16S,
    /// `i64.extend8_s`.
    I64Extend8S,
    /// `i64.extend16_s`.
    I64Extend16S,
    /// `i64.extend32_s`.
    I64Extend32S,
    /// `i32.trunc_sat_f32_s`.
    I32TruncSatF32S,
    /// `i32.trunc_sat_f32_u`.
    I32TruncSatF32U,
    /// `i32.trunc_sat_f64_s`.
    I32TruncSatF64S,
    /// `i32.trunc_sat_f64_u`.
    I32TruncSatF64U,
    /// `i64.trunc_sat_f32_s`.
    I64TruncSatF32S,
    /// `i64.trunc_sat_f32_u`.
    I64TruncSatF32U,
    /// `i64.trunc_sat_f64_s`.
    I64TruncSatF64S,
    /// `i64.trunc_sat_f64_u`.
    I64TruncSatF64U,
    /// `memory.init`.
    MemoryInit,
    /// `data.drop`.
    DataDrop,
    /// `memory.copy`.
    MemoryCopy,
    /// `memory.fill`.
    MemoryFill,
    /// `table.init`.
    TableInit,
    /// `elem.drop`.
    ElemDrop,
    /// `table.copy`.
    TableCopy,
    /// `table.fill`.
    TableFill,
    /// `table.get`.
    TableGet,
    /// `table.set`.
    TableSet,
    /// `table.grow`.
    TableGrow,
    /// `table.size`.
    TableSize,
}

/// What the translator does for an operator.
#[derive(Clone, Copy, Debug, PartialEq, Eq, Structural)]
pub enum Action {
    /// Emits the return sequence of the function.
    Return,
    /// Pushes the register of the local variable with the given index.
    LocalGet(u32),
    /// Pushes the given constant.
    Const(UntypedValue),
    /// Tests for zero with the given equality.
    Eqz(BinaryOp),
    /// Translates the given unary operator.
    Unary(UnaryOp),
    /// Translates the given binary operator.
    Binary(BinaryOp),
    /// Nothing: the translator does not translate the operator.
    Unsupported,
}

impl Action {
    /// The number of operands that the action takes from the stack of a
    /// function with `len_results` results.
    pub open spec fn spec_pops(self, len_results: nat) -> nat {
        match self {
            Action::Return => len_results,
            Action::LocalGet(_) => 0,
            Action::Const(_) => 0,
            Action::Eqz(_) => 1,
            Action::Unary(_) => 1,
            Action::Binary(_) => 2,
            Action::Unsupported => 0,
        }
    }

    /// Counts the operands that the action takes from the stack of a
    /// function with `len_results` results.
    pub fn pops(self, len_results: usize) -> (res: usize)
        ensures
            res == self.spec_pops(len_results as nat),
    {
        match self {
            Action::Return => len_results,
            Action::LocalGet(_) => 0,
            Action::Const(_) => 0,
            Action::Eqz(_) => 1,
            Action::Unary(_) => 1,
            Action::Binary(_) => 2,
            Action::Unsupported => 0,
        }
    }
}

impl Operator {
    /// What the translator does for the operator.
    pub open spec fn spec_action(self) -> Action {
        match self {
            Operator::End => Action::Return,
            Operator::Return => Action::Return,
            Operator::LocalGet { local_index } => Action::LocalGet(local_index),
            Operator::I32Const { value } => Action::Const(UntypedValue::from_i32(value)),
            Operator::I64Const { value } => Action::Const(UntypedValue::from_i64(value)),
            Operator::F32Const { bits } => Action::Const(UntypedValue::from_f32_bits(bits)),
            Operator::F64Const { bits } => Action::Const(UntypedValue::from_f64_bits(bits)),
            Operator::I32Eqz => Action::Eqz(BinaryOp::I32Eq),
            Operator::I32Eq => Action::Binary(BinaryOp::I32Eq),
            Operator::I32Ne => Action::Binary(BinaryOp::I32Ne),
            Operator::I32LtS => Action::Binary(BinaryOp::I32LtS),
            Operator::I32LtU => Action::Binary(BinaryOp::I32LtU),
            Operator::I32GtS => Action::Binary(BinaryOp::I32GtS),
            Operator::I32GtU => Action::Binary(BinaryOp::I32GtU),
            Operator::I32LeS => Action::Binary(BinaryOp::I32LeS),
            Operator::I32LeU => Action::Binary(BinaryOp::I32LeU),
            Operator::I32GeS => Action::Binary(BinaryOp::I32GeS),
            Operator::I32GeU => Action::Binary(BinaryOp::I32GeU),
            Operator::I64Eqz => Action::Eqz(BinaryOp::I64Eq),
            Operator::I64Eq => Action::Binary(BinaryOp::I64Eq),
            Operator::I64Ne => Action::Binary(BinaryOp::I64Ne),
            Operator::I64LtS => Action::Binary(BinaryOp::I64LtS),
            Operator::I64LtU => Action::Binary(BinaryOp::I64LtU),
            Operator::I64GtS => Action::Binary(BinaryOp::I64GtS),
            Operator::I64GtU => Action::Binary(BinaryOp::I64GtU),
            Operator::I64LeS => Action::Binary(BinaryOp::I64LeS),
            Operator::I64LeU => Action::Binary(BinaryOp::I64LeU),
            Operator::I64GeS => Action::Binary(BinaryOp::I64GeS),
            Operator::I64GeU => Action::Binary(BinaryOp::I64GeU),
            Operator::F32Eq => Action::Binary(BinaryOp::F32Eq),
            Operator::F32Ne => Action::Binary(BinaryOp::F32Ne),
            Operator::F64Eq => Action::Binary(BinaryOp::F64Eq),
            Operator::F64Ne => Action::Binary(BinaryOp::F64Ne),
            Operator::I32Clz => Action::Unary(UnaryOp::I32Clz),
            Operator::I32Ctz => Action::Unary(UnaryOp::I32Ctz),
            Operator::I32Popcnt => Action::Unary(UnaryOp::I32Popcnt),
            Operator::I32Add => Action::Binary(BinaryOp::I32Add),
            Operator::I32Sub => Action::Binary(BinaryOp::I32Sub),
            Operator::I32Mul => Action::Binary(BinaryOp::I32Mul),
            Operator::I32DivS => Action::Binary(BinaryOp::I32DivS),
            Operator::I32DivU => Action::Binary(BinaryOp::I32DivU),
            Operator::I32RemS => Action::Binary(BinaryOp::I32RemS),
            Operator::I32RemU => Action::Binary(BinaryOp::I32RemU),
            Operator::I32And => Action::Binary(BinaryOp::I32And),
            Operator::I32Or => Action::Binary(BinaryOp::I32Or),
            Operator::I32Xor => Action::Binary(BinaryOp::I32Xor),
            Operator::I32Shl => Action::Binary(BinaryOp::I32Shl),
            Operator::I32ShrS => Action::Binary(BinaryOp::I32ShrS),
            Operator::I32ShrU => Action::Binary(BinaryOp::I32ShrU),
            Operator::I32Rotl => Action::Binary(BinaryOp::I32Rotl),
            Operator::I32Rotr => Action::Binary(BinaryOp::I32Rotr),
            Operator::I64Clz => Action::Unary(UnaryOp::I64Clz),
            Operator::I64Ctz => Action::Unary(UnaryOp::I64Ctz),
            Operator::I64Popcnt => Action::Unary(UnaryOp::I64Popcnt),
            Operator::I64Add => Action::Binary(BinaryOp::I64Add),
            Operator::I64Sub => Action::Binary(BinaryOp::I64Sub),
            Operator::I64Mul => Action::Binary(BinaryOp::I64Mul),
            Operator::I64DivS => Action::Binary(BinaryOp::I64DivS),
            Operator::I64DivU => Action::Binary(BinaryOp::I64DivU),
            Operator::I64RemS => Action::Binary(BinaryOp::I64RemS),
            Operator::I64RemU => Action::Binary(BinaryOp::I64RemU),
            Operator::I64And => Action::Binary(BinaryOp::I64And),
            Operator::I64Or => Action::Binary(BinaryOp::I64Or),
            Operator::I64Xor => Action::Binary(BinaryOp::I64Xor),
            Operator::I64Shl => Action::Binary(BinaryOp::I64Shl),
            Operator::I64ShrS => Action::Binary(BinaryOp::I64ShrS),
            Operator::I64ShrU => Action::Binary(BinaryOp::I64ShrU),
            Operator::I64Rotl => Action::Binary(BinaryOp::I64Rotl),
            Operator::I64Rotr => Action::Binary(BinaryOp::I64Rotr),
            Operator::F32Abs => Action::Unary(UnaryOp::F32Abs),
            Operator::F32Neg => Action::Unary(UnaryOp::F32Neg),
            Operator::F32Ceil => Action::Unary(UnaryOp::F32Ceil),
            Operator::F32Floor => Action::Unary(UnaryOp::F32Floor),
            Operator::F32Trunc => Action::Unary(UnaryOp::F32Trunc),
            Operator::F32Nearest => Action::Unary(UnaryOp::F32Nearest),
            Operator::F32Sqrt => Action::Unary(UnaryOp::F32Sqrt),
            Operator::F32Add => Action::Binary(BinaryOp::F32Add),
            Operator::F32Sub => Action::Binary(BinaryOp::F32Sub),
            Operator::F32Mul => Action::Binary(BinaryOp::F32Mul),
            Operator::F32Div => Action::Binary(BinaryOp::F32Div),
            Operator::F32Min => Action::Binary(BinaryOp::F32Min),
            Operator::F32Max => Action::Binary(BinaryOp::F32Max),
            Operator::F32Copysign => Action::Binary(BinaryOp::F32Copysign),
            Operator::F64Abs => Action::Unary(UnaryOp::F64Abs),
            Operator::F64Neg => Action::Unary(UnaryOp::F64Neg),
            Operator::F64Ceil => Action::Unary(UnaryOp::F64Ceil),
            Operator::F64Floor => Action::Unary(UnaryOp::F64Floor),
            Operator::F64Trunc => Action::Unary(UnaryOp::F64Trunc),
            Operator::F64Nearest => Action::Unary(UnaryOp::F64Nearest),
            Operator::F64Sqrt => Action::Unary(UnaryOp::F64Sqrt),
            Operator::F64Add => Action::Binary(BinaryOp::F64Add),
            Operator::F64Sub => Action::Binary(BinaryOp::F64Sub),
            Operator::F64Mul => Action::Binary(BinaryOp::F64Mul),
            Operator::F64Div => Action::Binary(BinaryOp::F64Div),
            Operator::F64Min => Action::Binary(BinaryOp::F64Min),
            Operator::F64Max => Action::Binary(BinaryOp::F64Max),
            Operator::F64Copysign => Action::Binary(BinaryOp::F64Copysign),
            _ => Action::Unsupported,
        }
    }

    /// Tells what the translator does for the operator.
    #[verifier::when_used_as_spec(spec_action)]
    pub fn action(self) -> (res: Action)
        ensures
            res == self.spec_action(),
    {
        match self {
            Operator::End => Action::Return,
            Operator::Return => Action::Return,
            Operator::LocalGet { local_index } => Action::LocalGet(local_index),
            Operator::I32Const { value } => Action::Const(UntypedValue::from_i32(value)),
            Operator::I64Const { value } => Action::Const(UntypedValue::from_i64(value)),
            Operator::F32Const { bits } => Action::Const(UntypedValue::from_f32_bits(bits)),
            Operator::F64Const { bits } => Action::Const(UntypedValue::from_f64_bits(bits)),
            Operator::I32Eqz => Action::Eqz(BinaryOp::I32Eq),
            Operator::I32Eq => Action::Binary(BinaryOp::I32Eq),
            Operator::I32Ne => Action::Binary(BinaryOp::I32Ne),
            Operator::I32LtS => Action::Binary(BinaryOp::I32LtS),
            Operator::I32LtU => Action::Binary(BinaryOp::I32LtU),
            Operator::I32GtS => Action::Binary(BinaryOp::I32GtS),
            Operator::I32GtU => Action::Binary(BinaryOp::I32GtU),
            Operator::I32LeS => Action::Binary(BinaryOp::I32LeS),
            Operator::I32LeU => Action::Binary(BinaryOp::I32LeU),
            Operator::I32GeS => Action::Binary(BinaryOp::I32GeS),
            Operator::I32GeU => Action::Binary(BinaryOp::I32GeU),
            Operator::I64Eqz => Action::Eqz(BinaryOp::I64Eq),
            Operator::I64Eq => Action::Binary(BinaryOp::I64Eq),
            Operator::I64Ne => Action::Binary(BinaryOp::I64Ne),
            Operator::I64LtS => Action::Binary(BinaryOp::I64LtS),
            Operator::I64LtU => Action::Binary(BinaryOp::I64LtU),
            Operator::I64GtS => Action::Binary(BinaryOp::I64GtS),
            Operator::I64GtU => Action::Binary(BinaryOp::I64GtU),
            Operator::I64LeS => Action::Binary(BinaryOp::I64LeS),
            Operator::I64LeU => Action::Binary(BinaryOp::I64LeU),
            Operator::I64GeS => Action::Binary(BinaryOp::I64GeS),
            Operator::I64GeU => Action::Binary(BinaryOp::I64GeU),
            Operator::F32Eq => Action::Binary(BinaryOp::F32Eq),
            Operator::F32Ne => Action::Binary(BinaryOp::F32Ne),
            Operator::F64Eq => Action::Binary(BinaryOp::F64Eq),
            Operator::F64Ne => Action::Binary(BinaryOp::F64Ne),
            Operator::I32Clz => Action::Unary(UnaryOp::I32Clz),
            Operator::I32Ctz => Action::Unary(UnaryOp::I32Ctz),
            Operator::I32Popcnt => Action::Unary(UnaryOp::I32Popcnt),
            Operator::I32Add => Action::Binary(BinaryOp::I32Add),
            Operator::I32Sub => Action::Binary(BinaryOp::I32Sub),
            Operator::I32Mul => Action::Binary(BinaryOp::I32Mul),
            Operator::I32DivS => Action::Binary(BinaryOp::I32DivS),
            Operator::I32DivU => Action::Binary(BinaryOp::I32DivU),
            Operator::I32RemS => Action::Binary(BinaryOp::I32RemS),
            Operator::I32RemU => Action::Binary(BinaryOp::I32RemU),
            Operator::I32And => Action::Binary(BinaryOp::I32And),
            Operator::I32Or => Action::Binary(BinaryOp::I32Or),
            Operator::I32Xor => Action::Binary(BinaryOp::I32Xor),
            Operator::I32Shl => Action::Binary(BinaryOp::I32Shl),
            Operator::I32ShrS => Action::Binary(BinaryOp::I32ShrS),
            Operator::I32ShrU => Action::Binary(BinaryOp::I32ShrU),
            Operator::I32Rotl => Action::Binary(BinaryOp::I32Rotl),
            Operator::I32Rotr => Action::Binary(BinaryOp::I32Rotr),
            Operator::I64Clz => Action::Unary(UnaryOp::I64Clz),
            Operator::I64Ctz => Action::Unary(UnaryOp::I64Ctz),
            Operator::I64Popcnt => Action::Unary(UnaryOp::I64Popcnt),
            Operator::I64Add => Action::Binary(BinaryOp::I64Add),
            Operator::I64Sub => Action::Binary(BinaryOp::I64Sub),
            Operator::I64Mul => Action::Binary(BinaryOp::I64Mul),
            Operator::I64DivS => Action::Binary(BinaryOp::I64DivS),
            Operator::I64DivU => Action::Binary(BinaryOp::I64DivU),
            Operator::I64RemS => Action::Binary(BinaryOp::I64RemS),
            Operator::I64RemU => Action::Binary(BinaryOp::I64RemU),
            Operator::I64And => Action::Binary(BinaryOp::I64And),
            Operator::I64Or => Action::Binary(BinaryOp::I64Or),
            Operator::I64Xor => Action::Binary(BinaryOp::I64Xor),
            Operator::I64Shl => Action::Binary(BinaryOp::I64Shl),
            Operator::I64ShrS => Action::Binary(BinaryOp::I64ShrS),
            Operator::I64ShrU => Action::Binary(BinaryOp::I64ShrU),
            Operator::I64Rotl => Action::Binary(BinaryOp::I64Rotl),
            Operator::I64Rotr => Action::Binary(BinaryOp::I64Rotr),
            Operator::F32Abs => Action::Unary(UnaryOp::F32Abs),
            Operator::F32Neg => Action::Unary(UnaryOp::F32Neg),
            Operator::F32Ceil => Action::Unary(UnaryOp::F32Ceil),
            Operator::F32Floor => Action::Unary(UnaryOp::F32Floor),
            Operator::F32Trunc => Action::Unary(UnaryOp::F32Trunc),
            Operator::F32Nearest => Action::Unary(UnaryOp::F32Nearest),
            Operator::F32Sqrt => Action::Unary(UnaryOp::F32Sqrt),
            Operator::F32Add => Action::Binary(BinaryOp::F32Add),
            Operator::F32Sub => Action::Binary(BinaryOp::F32Sub),
            Operator::F32Mul => Action::Binary(BinaryOp::F32Mul),
            Operator::F32Div => Action::Binary(BinaryOp::F32Div),
            Operator::F32Min => Action::Binary(BinaryOp::F32Min),
            Operator::F32Max => Action::Binary(BinaryOp::F32Max),
            Operator::F32Copysign => Action::Binary(BinaryOp::F32Copysign),
            Operator::F64Abs => Action::Unary(UnaryOp::F64Abs),
            Operator::F64Neg => Action::Unary(UnaryOp::F64Neg),
            Operator::F64Ceil => Action::Unary(UnaryOp::F64Ceil),
            Operator::F64Floor => Action::Unary(UnaryOp::F64Floor),
            Operator::F64Trunc => Action::Unary(UnaryOp::F64Trunc),
            Operator::F64Nearest => Action::Unary(UnaryOp::F64Nearest),
            Operator::F64Sqrt => Action::Unary(UnaryOp::F64Sqrt),
            Operator::F64Add => Action::Binary(BinaryOp::F64Add),
            Operator::F64Sub => Action::Binary(BinaryOp::F64Sub),
            Operator::F64Mul => Action::Binary(BinaryOp::F64Mul),
            Operator::F64Div => Action::Binary(BinaryOp::F64Div),
            Operator::F64Min => Action::Binary(BinaryOp::F64Min),
            Operator::F64Max => Action::Binary(BinaryOp::F64Max),
            Operator::F64Copysign => Action::Binary(BinaryOp::F64Copysign),
            _ => Action::Unsupported,
        }
    }

    /// Whether the translator translates the operator.
    pub open spec fn spec_is_implemented(self) -> bool {
        !(self.spec_action() is Unsupported)
    }

    /// Tells whether the translator translates the operator.
    #[verifier::when_used_as_spec(spec_is_implemented)]
    pub fn is_implemented(self) -> (res: bool)
        ensures
            res == self.spec_is_implemented(),
    {
        match self.action() {
            Action::Unsupported => false,
            _ => true,
        }
    }

    /// The name of the operator.
    pub open spec fn spec_name(self) -> Seq<char> {
        match self {
            Operator::Unreachable => "Unreachable"@,
            Operator::Nop => "Nop"@,
            Operator::Block => "Block"@,
            Operator::Loop => "Loop"@,
            Operator::If => "If"@,
            Operator::Else => "Else"@,
            Operator::End => "End"@,
            Operator::Br => "Br"@,
            Operator::BrIf => "BrIf"@,
            Operator::BrTable => "BrTable"@,
            Operator::Return => "Return"@,
            Operator::Call => "Call"@,
            Operator::CallIndirect => "CallIndirect"@,
            Operator::ReturnCall => "ReturnCall"@,
            Operator::ReturnCallIndirect => "ReturnCallIndirect"@,
            Operator::Drop => "Drop"@,
            Operator::Select => "Select"@,
            Operator::TypedSelect => "TypedSelect"@,
            Operator::LocalGet { .. } => "LocalGet"@,
            Operator::LocalSet => "LocalSet"@,
            Operator::LocalTee => "LocalTee"@,
            Operator::GlobalGet => "GlobalGet"@,
            Operator::GlobalSet => "GlobalSet"@,
            Operator::I32Load => "I32Load"@,
            Operator::I64Load => "I64Load"@,
            Operator::F32Load => "F32Load"@,
            Operator::F64Load => "F64Load"@,
            Operator::I32Load8S => "I32Load8S"@,
            Operator::I32Load8U => "I32Load8U"@,
            Operator::I32Load16S => "I32Load16S"@,
            Operator::I32Load16U => "I32Load16U"@,
            Operator::I64Load8S => "I64Load8S"@,
            Operator::I64Load8U => "I64Load8U"@,
            Operator::I64Load16S => "I64Load16S"@,
            Operator::I64Load16U => "I64Load16U"@,
            Operator::I64Load32S => "I64Load32S"@,
            Operator::I64Load32U => "I64Load32U"@,
            Operator::I32Store => "I32Store"@,
            Operator::I64Store => "I64Store"@,
            Operator::F32Store => "F32Store"@,
            Operator::F64Store => "F64Store"@,
            Operator::I32Store8 => "I32Store8"@,
            Operator::I32Store16 => "I32Store16"@,
            Operator::I64Store8 => "I64Store8"@,
            Operator::I64Store16 => "I64Store16"@,
            Operator::I64Store32 => "I64Store32"@,
            Operator::MemorySize => "MemorySize"@,
            Operator::MemoryGrow => "MemoryGrow"@,
            Operator::I32Const { .. } => "I32Const"@,
            Operator::I64Const { .. } => "I64Const"@,
            Operator::F32Const { .. } => "F32Const"@,
            Operator::F64Const { .. } => "F64Const"@,
            Operator::RefNull => "RefNull"@,
            Operator::RefIsNull => "RefIsNull"@,
            Operator::RefFunc => "RefFunc"@,
            Operator::I32Eqz => "I32Eqz"@,
            Operator::I32Eq => "I32Eq"@,
            Operator::I32Ne => "I32Ne"@,
            Operator::I32LtS => "I32LtS"@,
            Operator::I32LtU => "I32LtU"@,
            Operator::I32GtS => "I32GtS"@,
            Operator::I32GtU => "I32GtU"@,
            Operator::I32LeS => "I32LeS"@,
            Operator::I32LeU => "I32LeU"@,
            Operator::I32GeS => "I32GeS"@,
            Operator::I32GeU => "I32GeU"@,
            Operator::I64Eqz => "I64Eqz"@,
            Operator::I64Eq => "I64Eq"@,
            Operator::I64Ne => "I64Ne"@,
            Operator::I64LtS => "I64LtS"@,
            Operator::I64LtU => "I64LtU"@,
            Operator::I64GtS => "I64GtS"@,
            Operator::I64GtU => "I64GtU"@,
            Operator::I64LeS => "I64LeS"@,
            Operator::I64LeU => "I64LeU"@,
            Operator::I64GeS => "I64GeS"@,
            Operator::I64GeU => "I64GeU"@,
            Operator::F32Eq => "F32Eq"@,
            Operator::F32Ne => "F32Ne"@,
            Operator::F32Lt => "F32Lt"@,
            Operator::F32Gt => "F32Gt"@,
            Operator::F32Le => "F32Le"@,
            Operator::F32Ge => "F32Ge"@,
            Operator::F64Eq => "F64Eq"@,
            Operator::F64Ne => "F64Ne"@,
            Operator::F64Lt => "F64Lt"@,
            Operator::F64Gt => "F64Gt"@,
            Operator::F64Le => "F64Le"@,
            Operator::F64Ge => "F64Ge"@,
            Operator::I32Clz => "I32Clz"@,
            Operator::I32Ctz => "I32Ctz"@,
            Operator::I32Popcnt => "I32Popcnt"@,
            Operator::I32Add => "I32Add"@,
            Operator::I32Sub => "I32Sub"@,
            Operator::I32Mul => "I32Mul"@,
            Operator::I32DivS => "I32DivS"@,
            Operator::I32DivU => "I32DivU"@,
            Operator::I32RemS => "I32RemS"@,
            Operator::I32RemU => "I32RemU"@,
            Operator::I32And => "I32And"@,
            Operator::I32Or => "I32Or"@,
            Operator::I32Xor => "I32Xor"@,
            Operator::I32Shl => "I32Shl"@,
            Operator::I32ShrS => "I32ShrS"@,
            Operator::I32ShrU => "I32ShrU"@,
            Operator::I32Rotl => "I32Rotl"@,
            Operator::I32Rotr => "I32Rotr"@,
            Operator::I64Clz => "I64Clz"@,
            Operator::I64Ctz => "I64Ctz"@,
            Operator::I64Popcnt => "I64Popcnt"@,
            Operator::I64Add => "I64Add"@,
            Operator::I64Sub => "I64Sub"@,
            Operator::I64Mul => "I64Mul"@,
            Operator::I64DivS => "I64DivS"@,
            Operator::I64DivU => "I64DivU"@,
            Operator::I64RemS => "I64RemS"@,
            Operator::I64RemU => "I64RemU"@,
            Operator::I64And => "I64And"@,
            Operator::I64Or => "I64Or"@,
            Operator::I64Xor => "I64Xor"@,
            Operator::I64Shl => "I64Shl"@,
            Operator::I64ShrS => "I64ShrS"@,
            Operator::I64ShrU => "I64ShrU"@,
            Operator::I64Rotl => "I64Rotl"@,
            Operator::I64Rotr => "I64Rotr"@,
            Operator::F32Abs => "F32Abs"@,
            Operator::F32Neg => "F32Neg"@,
            Operator::F32Ceil => "F32Ceil"@,
            Operator::F32Floor => "F32Floor"@,
            Operator::F32Trunc => "F32Trunc"@,
            Operator::F32Nearest => "F32Nearest"@,
            Operator::F32Sqrt => "F32Sqrt"@,
            Operator::F32Add => "F32Add"@,
            Operator::F32Sub => "F32Sub"@,
            Operator::F32Mul => "F32Mul"@,
            Operator::F32Div => "F32Div"@,
            Operator::F32Min => "F32Min"@,
            Operator::F32Max => "F32Max"@,
            Operator::F32Copysign => "F32Copysign"@,
            Operator::F64Abs => "F64Abs"@,
            Operator::F64Neg => "F64Neg"@,
            Operator::F64Ceil => "F64Ceil"@,
            Operator::F64Floor => "F64Floor"@,
            Operator::F64Trunc => "F64Trunc"@,
            Operator::F64Nearest => "F64Nearest"@,
            Operator::F64Sqrt => "F64Sqrt"@,
            Operator::F64Add => "F64Add"@,
            Operator::F64Sub => "F64Sub"@,
            Operator::F64Mul => "F64Mul"@,
            Operator::F64Div => "F64Div"@,
            Operator::F64Min => "F64Min"@,
            Operator::F64Max => "F64Max"@,
            Operator::F64Copysign => "F64Copysign"@,
            Operator::I32WrapI64 => "I32WrapI64"@,
            Operator::I32TruncF32S => "I32TruncF32S"@,
            Operator::I32TruncF32U => "I32TruncF32U"@,
            Operator::I32TruncF64S => "I32TruncF64S"@,
            Operator::I32TruncF64U => "I32TruncF64U"@,
            Operator::I64ExtendI32S => "I64ExtendI32S"@,
            Operator::I64ExtendI32U => "I64ExtendI32U"@,
            Operator::I64TruncF32S => "I64TruncF32S"@,
            Operator::I64TruncF32U => "I64TruncF32U"@,
            Operator::I64TruncF64S => "I64TruncF64S"@,
            Operator::I64TruncF64U => "I64TruncF64U"@,
            Operator::F32ConvertI32S => "F32ConvertI32S"@,
            Operator::F32ConvertI32U => "F32ConvertI32U"@,
            Operator::F32ConvertI64S => "F32ConvertI64S"@,
            Operator::F32ConvertI64U => "F32ConvertI64U"@,
            Operator::F32DemoteF64 => "F32DemoteF64"@,
            Operator::F64ConvertI32S => "F64ConvertI32S"@,
            Operator::F64ConvertI32U => "F64ConvertI32U"@,
            Operator::F64ConvertI64S => "F64ConvertI64S"@,
            Operator::F64ConvertI64U => "F64ConvertI64U"@,
            Operator::F64PromoteF32 => "F64PromoteF32"@,
            Operator::I32ReinterpretF32 => "I32ReinterpretF32"@,
            Operator::I64ReinterpretF64 => "I64ReinterpretF64"@,
            Operator::F32ReinterpretI32 => "F32ReinterpretI32"@,
            Operator::F64ReinterpretI64 => "F64ReinterpretI64"@,
            Operator::I32Extend8S => "I32Extend8S"@,
            Operator::I32Extend16S => "I32Extend16S"@,
            Operator::I64Extend8S => "I64Extend8S"@,
            Operator::I64Extend16S => "I64Extend16S"@,
            Operator::I64Extend32S => "I64Extend32S"@,
            Operator::I32TruncSatF32S => "I32TruncSatF32S"@,
            Operator::I32TruncSatF32U => "I32TruncSatF32U"@,
            Operator::I32TruncSatF64S => "I32TruncSatF64S"@,
            Operator::I32TruncSatF64U => "I32TruncSatF64U"@,
            Operator::I64TruncSatF32S => "I64TruncSatF32S"@,
            Operator::I64TruncSatF32U => "I64TruncSatF32U"@,
            Operator::I64TruncSatF64S => "I64TruncSatF64S"@,
            Operator::I64TruncSatF64U => "I64TruncSatF64U"@,
            Operator::MemoryInit => "MemoryInit"@,
            Operator::DataDrop => "DataDrop"@,
            Operator::MemoryCopy => "MemoryCopy"@,
            Operator::MemoryFill => "MemoryFill"@,
            Operator::TableInit => "TableInit"@,
            Operator::ElemDrop => "ElemDrop"@,
            Operator::TableCopy => "TableCopy"@,
            Operator::TableFill => "TableFill"@,
            Operator::TableGet => "TableGet"@,
            Operator::TableSet => "TableSet"@,
            Operator::TableGrow => "TableGrow"@,
            Operator::TableSize => "TableSize"@,
        }
    }

    /// Returns the name of the operator.
    pub fn name(self) -> (res: &'static str)
        ensures
            res@ == self.spec_name(),
    {
        match self {
            Operator::Unreachable => "Unreachable",
            Operator::Nop => "Nop",
            Operator::Block => "Block",
            Operator::Loop => "Loop",
            Operator::If => "If",
            Operator::Else => "Else",
            Operator::End => "End",
            Operator::Br => "Br",
            Operator::BrIf => "BrIf",
            Operator::BrTable => "BrTable",
            Operator::Return => "Return",
            Operator::Call => "Call",
            Operator::CallIndirect => "CallIndirect",
            Operator::ReturnCall => "ReturnCall",
            Operator::ReturnCallIndirect => "ReturnCallIndirect",
            Operator::Drop => "Drop",
            Operator::Select => "Select",
            Operator::TypedSelect => "TypedSelect",
            Operator::LocalGet { .. } => "LocalGet",
            Operator::LocalSet => "LocalSet",
            Operator::LocalTee => "LocalTee",
            Operator::GlobalGet => "GlobalGet",
            Operator::GlobalSet => "GlobalSet",
            Operator::I32Load => "I32Load",
            Operator::I64Load => "I64Load",
            Operator::F32Load => "F32Load",
            Operator::F64Load => "F64Load",
            Operator::I32Load8S => "I32Load8S",
            Operator::I32Load8U => "I32Load8U",
            Operator::I32Load16S => "I32Load16S",
            Operator::I32Load16U => "I32Load16U",
            Operator::I64Load8S => "I64Load8S",
            Operator::I64Load8U => "I64Load8U",
            Operator::I64Load16S => "I64Load16S",
            Operator::I64Load16U => "I64Load16U",
            Operator::I64Load32S => "I64Load32S",
            Operator::I64Load32U => "I64Load32U",
            Operator::I32Store => "I32Store",
            Operator::I64Store => "I64Store",
            Operator::F32Store => "F32Store",
            Operator::F64Store => "F64Store",
            Operator::I32Store8 => "I32Store8",
            Operator::I32Store16 => "I32Store16",
            Operator::I64Store8 => "I64Store8",
            Operator::I64Store16 => "I64Store16",
            Operator::I64Store32 => "I64Store32",
            Operator::MemorySize => "MemorySize",
            Operator::MemoryGrow => "MemoryGrow",
            Operator::I32Const { .. } => "I32Const",
            Operator::I64Const { .. } => "I64Const",
            Operator::F32Const { .. } => "F32Const",
            Operator::F64Const { .. } => "F64Const",
            Operator::RefNull => "RefNull",
            Operator::RefIsNull => "RefIsNull",
            Operator::RefFunc => "RefFunc",
            Operator::I32Eqz => "I32Eqz",
            Operator::I32Eq => "I32Eq",
            Operator::I32Ne => "I32Ne",
            Operator::I32LtS => "I32LtS",
            Operator::I32LtU => "I32LtU",
            Operator::I32GtS => "I32GtS",
            Operator::I32GtU => "I32GtU",
            Operator::I32LeS => "I32LeS",
            Operator::I32LeU => "I32LeU",
            Operator::I32GeS => "I32GeS",
            Operator::I32GeU => "I32GeU",
            Operator::I64Eqz => "I64Eqz",
            Operator::I64Eq => "I64Eq",
            Operator::I64Ne => "I64Ne",
            Operator::I64LtS => "I64LtS",
            Operator::I64LtU => "I64LtU",
            Operator::I64GtS => "I64GtS",
            Operator::I64GtU => "I64GtU",
            Operator::I64LeS => "I64LeS",
            Operator::I64LeU => "I64LeU",
            Operator::I64GeS => "I64GeS",
            Operator::I64GeU => "I64GeU",
            Operator::F32Eq => "F32Eq",
            Operator::F32Ne => "F32Ne",
            Operator::F32Lt => "F32Lt",
            Operator::F32Gt => "F32Gt",
            Operator::F32Le => "F32Le",
            Operator::F32Ge => "F32Ge",
            Operator::F64Eq => "F64Eq",
            Operator::F64Ne => "F64Ne",
            Operator::F64Lt => "F64Lt",
            Operator::F64Gt => "F64Gt",
            Operator::F64Le => "F64Le",
            Operator::F64Ge => "F64Ge",
            Operator::I32Clz => "I32Clz",
            Operator::I32Ctz => "I32Ctz",
            Operator::I32Popcnt => "I32Popcnt",
            Operator::I32Add => "I32Add",
            Operator::I32Sub => "I32Sub",
            Operator::I32Mul => "I32Mul",
            Operator::I32DivS => "I32DivS",
            Operator::I32DivU => "I32DivU",
            Operator::I32RemS => "I32RemS",
            Operator::I32RemU => "I32RemU",
            Operator::I32And => "I32And",
            Operator::I32Or => "I32Or",
            Operator::I32Xor => "I32Xor",
            Operator::I32Shl => "I32Shl",
            Operator::I32ShrS => "I32ShrS",
            Operator::I32ShrU => "I32ShrU",
            Operator::I32Rotl => "I32Rotl",
            Operator::I32Rotr => "I32Rotr",
            Operator::I64Clz => "I64Clz",
            Operator::I64Ctz => "I64Ctz",
            Operator::I64Popcnt => "I64Popcnt",
            Operator::I64Add => "I64Add",
            Operator::I64Sub => "I64Sub",
            Operator::I64Mul => "I64Mul",
            Operator::I64DivS => "I64DivS",
            Operator::I64DivU => "I64DivU",
            Operator::I64RemS => "I64RemS",
            Operator::I64RemU => "I64RemU",
            Operator::I64And => "I64And",
            Operator::I64Or => "I64Or",
            Operator::I64Xor => "I64Xor",
            Operator::I64Shl => "I64Shl",
            Operator::I64ShrS => "I64ShrS",
            Operator::I64ShrU => "I64ShrU",
            Operator::I64Rotl => "I64Rotl",
            Operator::I64Rotr => "I64Rotr",
            Operator::F32Abs => "F32Abs",
            Operator::F32Neg => "F32Neg",
            Operator::F32Ceil => "F32Ceil",
            Operator::F32Floor => "F32Floor",
            Operator::F32Trunc => "F32Trunc",
            Operator::F32Nearest => "F32Nearest",
            Operator::F32Sqrt => "F32Sqrt",
            Operator::F32Add => "F32Add",
            Operator::F32Sub => "F32Sub",
            Operator::F32Mul => "F32Mul",
            Operator::F32Div => "F32Div",
            Operator::F32Min => "F32Min",
            Operator::F32Max => "F32Max",
            Operator::F32Copysign => "F32Copysign",
            Operator::F64Abs => "F64Abs",
            Operator::F64Neg => "F64Neg",
            Operator::F64Ceil => "F64Ceil",
            Operator::F64Floor => "F64Floor",
            Operator::F64Trunc => "F64Trunc",
            Operator::F64Nearest => "F64Nearest",
            Operator::F64Sqrt => "F64Sqrt",
            Operator::F64Add => "F64Add",
            Operator::F64Sub => "F64Sub",
            Operator::F64Mul => "F64Mul",
            Operator::F64Div => "F64Div",
            Operator::F64Min => "F64Min",
            Operator::F64Max => "F64Max",
            Operator::F64Copysign => "F64Copysign",
            Operator::I32WrapI64 => "I32WrapI64",
            Operator::I32TruncF32S => "I32TruncF32S",
            Operator::I32TruncF32U => "I32TruncF32U",
            Operator::I32TruncF64S => "I32TruncF64S",
            Operator::I32TruncF64U => "I32TruncF64U",
            Operator::I64ExtendI32S => "I64ExtendI32S",
            Operator::I64ExtendI32U => "I64ExtendI32U",
            Operator::I64TruncF32S => "I64TruncF32S",
            Operator::I64TruncF32U => "I64TruncF32U",
            Operator::I64TruncF64S => "I64TruncF64S",
            Operator::I64TruncF64U => "I64TruncF64U",
            Operator::F32ConvertI32S => "F32ConvertI32S",
            Operator::F32ConvertI32U => "F32ConvertI32U",
            Operator::F32ConvertI64S => "F32ConvertI64S",
            Operator::F32ConvertI64U => "F32ConvertI64U",
            Operator::F32DemoteF64 => "F32DemoteF64",
            Operator::F64ConvertI32S => "F64ConvertI32S",
            Operator::F64ConvertI32U => "F64ConvertI32U",
            Operator::F64ConvertI64S => "F64ConvertI64S",
            Operator::F64ConvertI64U => "F64ConvertI64U",
            Operator::F64PromoteF32 => "F64PromoteF32",
            Operator::I32ReinterpretF32 => "I32ReinterpretF32",
            Operator::I64ReinterpretF64 => "I64ReinterpretF64",
            Operator::F32ReinterpretI32 => "F32ReinterpretI32",
            Operator::F64ReinterpretI64 => "F64ReinterpretI64",
            Operator::I32Extend8S => "I32Extend8S",
            Operator::I32Extend16S => "I32Extend16S",
            Operator::I64Extend8S => "I64Extend8S",
            Operator::I64Extend16S => "I64Extend16S",
            Operator::I64Extend32S => "I64Extend32S",
            Operator::I32TruncSatF32S => "I32TruncSatF32S",
            Operator::I32TruncSatF32U => "I32TruncSatF32U",
            Operator::I32TruncSatF64S => "I32TruncSatF64S",
            Operator::I32TruncSatF64U => "I32TruncSatF64U",
            Operator::I64TruncSatF32S => "I64TruncSatF32S",
            Operator::I64TruncSatF32U => "I64TruncSatF32U",
            Operator::I64TruncSatF64S => "I64TruncSatF64S",
            Operator::I64TruncSatF64U => "I64TruncSatF64U",
            Operator::MemoryInit => "MemoryInit",
            Operator::DataDrop => "DataDrop",
            Operator::MemoryCopy => "MemoryCopy",
            Operator::MemoryFill => "MemoryFill",
            Operator::TableInit => "TableInit",
            Operator::ElemDrop => "ElemDrop",
            Operator::TableCopy => "TableCopy",
            Operator::TableFill => "TableFill",
            Operator::TableGet => "TableGet",
            Operator::TableSet => "TableSet",
            Operator::TableGrow => "TableGrow",
            Operator::TableSize => "TableSize",
        }
    }
}

} // verus!
