//! Untyped Wasm values together with the value types and trap codes that
//! the translator speaks about.

use vstd::prelude::*;

verus! {

/// The type of a Wasm value.
#[derive(Clone, Copy, Debug, PartialEq, Eq, Structural)]
pub enum ValueType {
    /// 32-bit signed or unsigned integer.
    I32,
    /// 64-bit signed or unsigned integer.
    I64,
    /// 32-bit IEEE 754 floating point number.
    F32,
    /// 64-bit IEEE 754 floating point number.
    F64,
    /// A nullable function reference.
    FuncRef,
    /// A nullable external reference.
    ExternRef,
}

impl ValueType {
    /// Whether the type is one of the four numeric types.
    pub open spec fn spec_is_num(self) -> bool {
        self is I32 || self is I64 || self is F32 || self is F64
    }

    /// Returns `true` for `I32`, `I64`, `F32` and `F64`.
    #[verifier::when_used_as_spec(spec_is_num)]
    pub fn is_num(self) -> (res: bool)
        ensures
            res == self.spec_is_num(),
    {
        match self {
            ValueType::I32 | ValueType::I64 | ValueType::F32 | ValueType::F64 => true,
            ValueType::FuncRef | ValueType::ExternRef => false,
        }
    }
}

/// The reason for which executing an instruction aborts.
#[derive(Clone, Copy, Debug, PartialEq, Eq, Structural)]
pub enum TrapCode {
    /// The `unreachable` instruction was executed.
    UnreachableCodeReached,
    /// A linear memory access was out of bounds.
    MemoryOutOfBounds,
    /// A table access was out of bounds.
    TableOutOfBounds,
    /// An indirect call went through a null table entry.
    IndirectCallToNull,
    /// An integer was divided by zero.
    IntegerDivisionByZero,
    /// The result of an integer operation cannot be represented.
    IntegerOverflow,
    /// A float could not be converted to an integer.
    BadConversionToInteger,
    /// The call stack was exhausted.
    StackOverflow,
    /// An indirect call had a mismatching signature.
    BadSignature,
    /// Execution ran out of fuel.
    OutOfFuel,
    /// A growth operation was limited by the embedder.
    GrowthOperationLimited,
}

/// An untyped value: the 64 bits that hold any `i32`, `i64`, `f32` or `f64`.
///
/// 32-bit values live in the low half with the high half cleared. Floats are
/// held by their IEEE 754 bit pattern, so NaN payloads are never normalised.
#[derive(Clone, Copy, Debug, PartialEq, Eq, Structural)]
pub struct UntypedValue {
    /// The raw bits of the value.
    pub bits: u64,
}

impl UntypedValue {
    pub open spec fn spec_from_bits(bits: u64) -> UntypedValue {
        UntypedValue { bits }
    }

    /// Creates a value from its raw bits.
    #[verifier::when_used_as_spec(spec_from_bits)]
    pub fn from_bits(bits: u64) -> (res: UntypedValue)
        ensures
            res == Self::spec_from_bits(bits),
    {
        UntypedValue { bits }
    }

    pub open spec fn spec_to_bits(self) -> u64 {
        self.bits
    }

    /// Returns the raw bits of the value.
    #[verifier::when_used_as_spec(spec_to_bits)]
    pub fn to_bits(self) -> (res: u64)
        ensures
            res == self.bits,
    {
        self.bits
    }

    pub open spec fn spec_from_u32(value: u32) -> UntypedValue {
        UntypedValue { bits: value as u64 }
    }

    /// Creates a value from a `u32` by zero extension.
    #[verifier::when_used_as_spec(spec_from_u32)]
    pub fn from_u32(value: u32) -> (res: UntypedValue)
        ensures
            res == Self::spec_from_u32(value),
    {
        UntypedValue { bits: value as u64 }
    }

    pub open spec fn spec_from_i32(value: i32) -> UntypedValue {
        UntypedValue { bits: value as u32 as u64 }
    }

    /// Creates a value from an `i32`: its two's complement bits, zero extended.
    #[verifier::when_used_as_spec(spec_from_i32)]
    pub fn from_i32(value: i32) -> (res: UntypedValue)
        ensures
            res == Self::spec_from_i32(value),
    {
        UntypedValue { bits: value as u32 as u64 }
    }

    pub open spec fn spec_from_u64(value: u64) -> UntypedValue {
        UntypedValue { bits: value }
    }

    /// Creates a value from a `u64`.
    #[verifier::when_used_as_spec(spec_from_u64)]
    pub fn from_u64(value: u64) -> (res: UntypedValue)
        ensures
            res == Self::spec_from_u64(value),
    {
        UntypedValue { bits: value }
    }

    pub open spec fn spec_from_i64(value: i64) -> UntypedValue {
        UntypedValue { bits: value as u64 }
    }

    /// Creates a value from an `i64`: its two's complement bits.
    #[verifier::when_used_as_spec(spec_from_i64)]
    pub fn from_i64(value: i64) -> (res: UntypedValue)
        ensures
            res == Self::spec_from_i64(value),
    {
        UntypedValue { bits: value as u64 }
    }

    pub open spec fn spec_from_bool(value: bool) -> UntypedValue {
        UntypedValue { bits: if value { 1 } else { 0 } }
    }

    /// Creates a value from a `bool`: `1` for `true` and `0` for `false`.
    #[verifier::when_used_as_spec(spec_from_bool)]
    pub fn from_bool(value: bool) -> (res: UntypedValue)
        ensures
            res == Self::spec_from_bool(value),
    {
        if value {
            UntypedValue { bits: 1 }
        } else {
            UntypedValue { bits: 0 }
        }
    }

    pub open spec fn spec_from_f32_bits(bits: u32) -> UntypedValue {
        UntypedValue { bits: bits as u64 }
    }

    /// Creates a value from the bit pattern of an `f32`.
    #[verifier::when_used_as_spec(spec_from_f32_bits)]
    pub fn from_f32_bits(bits: u32) -> (res: UntypedValue)
        ensures
            res == Self::spec_from_f32_bits(bits),
    {
        UntypedValue { bits: bits as u64 }
    }

    pub open spec fn spec_from_f64_bits(bits: u64) -> UntypedValue {
        UntypedValue { bits }
    }

    /// Creates a value from the bit pattern of an `f64`.
    #[verifier::when_used_as_spec(spec_from_f64_bits)]
    pub fn from_f64_bits(bits: u64) -> (res: UntypedValue)
        ensures
            res == Self::spec_from_f64_bits(bits),
    {
        UntypedValue { bits }
    }

    pub open spec fn spec_to_u32(self) -> u32 {
        self.bits as u32
    }

    /// The value read as a `u32`: its low 32 bits.
    #[verifier::when_used_as_spec(spec_to_u32)]
    pub fn to_u32(self) -> (res: u32)
        ensures
            res == self.spec_to_u32(),
    {
        self.bits as u32
    }

    pub open spec fn spec_to_i32(self) -> i32 {
        self.bits as u32 as i32
    }

    /// The value read as an `i32`: its low 32 bits in two's complement.
    #[verifier::when_used_as_spec(spec_to_i32)]
    pub fn to_i32(self) -> (res: i32)
        ensures
            res == self.spec_to_i32(),
    {
        self.bits as u32 as i32
    }

    pub open spec fn spec_to_u64(self) -> u64 {
        self.bits
    }

    /// The value read as a `u64`.
    #[verifier::when_used_as_spec(spec_to_u64)]
    pub fn to_u64(self) -> (res: u64)
        ensures
            res == self.spec_to_u64(),
    {
        self.bits
    }

    pub open spec fn spec_to_i64(self) -> i64 {
        self.bits as i64
    }

    /// The value read as an `i64`: its bits in two's complement.
    #[verifier::when_used_as_spec(spec_to_i64)]
    pub fn to_i64(self) -> (res: i64)
        ensures
            res == self.spec_to_i64(),
    {
        self.bits as i64
    }

    pub open spec fn spec_to_f32_bits(self) -> u32 {
        self.bits as u32
    }

    /// The bit pattern of the value read as an `f32`: its low 32 bits.
    #[verifier::when_used_as_spec(spec_to_f32_bits)]
    pub fn to_f32_bits(self) -> (res: u32)
        ensures
            res == self.spec_to_f32_bits(),
    {
        self.bits as u32
    }

    pub open spec fn spec_to_f64_bits(self) -> u64 {
        self.bits
    }

    /// The bit pattern of the value read as an `f64`.
    #[verifier::when_used_as_spec(spec_to_f64_bits)]
    pub fn to_f64_bits(self) -> (res: u64)
        ensures
            res == self.spec_to_f64_bits(),
    {
        self.bits
    }
}

} // verus!
