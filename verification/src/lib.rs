//! Translation of WebAssembly function bodies into register machine bytecode.
//!
//! A [`FuncTranslator`] takes the validated operators of one function, one
//! at a time, and emits [`Instruction`]s. While it does, it keeps an operand
//! stack of registers and constants, folds operators on constants, applies
//! algebraic identities, and holds each immediate operand in the narrowest
//! encoding that fits it.
//!
//! What a translation step does is stated by
//! [`TranslatorView::operator_step`](translator::TranslatorView). What holds
//! of every translation is proved in [`laws`] and [`semantics`].

pub mod arith;
pub mod bytecode;
pub mod consts;
pub mod encoder;
pub mod error;
pub mod float;
pub mod laws;
pub mod operator;
pub mod ops;
pub mod plan;
pub mod semantics;
pub mod stack;
pub mod translator;
pub mod value;
pub mod visit;

pub use bytecode::{BinaryOp, Const16, Const32, ConstRef, Instr, Instruction, Register, UnaryOp};
pub use consts::ConstPool;
pub use error::{DropKeepError, TranslationError, TranslationErrorInner};
pub use operator::Operator;
pub use stack::{Provider, ValueStack};
pub use translator::FuncTranslator;
pub use value::{TrapCode, UntypedValue, ValueType};
