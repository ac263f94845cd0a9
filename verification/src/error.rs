//! The errors that abort the translation of a function.

use vstd::prelude::*;
use vstd::string::StringExecFns;

verus! {

/// An error of the Wasm parser or validator. Its content is not looked at.
#[verifier::external_type_specification]
#[verifier::external_body]
pub struct ExBinaryReaderError(wasmparser::BinaryReaderError);

/// The type of a Wasm block. Its content is not looked at.
#[verifier::external_type_specification]
#[verifier::external_body]
pub struct ExBlockType(wasmparser::BlockType);

/// The type of a Wasm value as the parser reports it. Its content is not
/// looked at.
#[verifier::external_type_specification]
#[verifier::external_body]
pub struct ExValType(wasmparser::ValType);

/// An error about the limits of dropping and keeping values of the stack.
#[derive(Clone, Copy, Debug, PartialEq, Eq, Structural)]
pub enum DropKeepError {
    /// The number of kept values exceeds the limit.
    KeepOutOfBounds,
    /// The number of dropped values exceeds the limit.
    DropOutOfBounds,
}

impl DropKeepError {
    /// The text that describes the error.
    pub open spec fn spec_message(self) -> Seq<char> {
        match self {
            DropKeepError::KeepOutOfBounds => "number of kept elements exceeds engine limits"@,
            DropKeepError::DropOutOfBounds => "number of dropped elements exceeds engine limits"@,
        }
    }

    /// Describes the error in words.
    pub fn message(&self) -> (res: String)
        ensures
            res@ == self.spec_message(),
    {
        match self {
            DropKeepError::KeepOutOfBounds => {
                "number of kept elements exceeds engine limits".to_string()
            },
            DropKeepError::DropOutOfBounds => {
                "number of dropped elements exceeds engine limits".to_string()
            },
        }
    }
}

/// What went wrong when a [`TranslationError`] was raised.
#[derive(Debug)]
pub enum TranslationErrorInner {
    /// There was either a problem parsing a Wasm input or validating it.
    Validate(wasmparser::BinaryReaderError),
    /// Encountered an unsupported Wasm block type.
    UnsupportedBlockType(wasmparser::BlockType),
    /// Encountered an unsupported Wasm value type.
    UnsupportedValueType(wasmparser::ValType),
    /// An error with limitations of dropping and keeping values.
    DropKeep(DropKeepError),
    /// A branch table has too many targets.
    BranchTableTargetsOutOfBounds,
    /// Function index out of bounds.
    FunctionIndexOutOfBounds,
    /// Table index out of bounds.
    TableIndexOutOfBounds,
    /// Global variable index out of bounds.
    GlobalIndexOutOfBounds,
    /// Type index out of bounds.
    TypeIndexOutOfBounds,
    /// Local variable index out of bounds.
    LocalIndexOutOfBounds,
    /// Data segment index out of bounds.
    DataSegmentIndexOutOfBounds,
    /// Element segment index out of bounds.
    ElementSegmentIndexOutOfBounds,
    /// Branching offset out of bounds.
    BranchOffsetOutOfBounds,
    /// Fuel required for a block is out of bounds.
    BlockFuelOutOfBounds,
    /// Address offset is out of bounds.
    AddressOffsetOutOfBounds,
    /// The function needs more registers than an instruction can address.
    RegisterOutOfBounds,
    /// The constant pool holds as many values as an instruction can address.
    ConstRefOutOfBounds,
    /// The function holds as many instructions as can be addressed.
    InstrOutOfBounds,
    /// The named operator reached the translator though the translator does
    /// not translate it. Validation lets no such operator through, so this
    /// reveals a defect of the engine and not of the Wasm input.
    UnsupportedOperator(String),
}

/// An error that may occur upon parsing, validating and translating Wasm.
#[derive(Debug)]
pub struct TranslationError {
    /// What went wrong.
    inner: Box<TranslationErrorInner>,
}

impl View for TranslationError {
    type V = TranslationErrorInner;

    closed spec fn view(&self) -> TranslationErrorInner {
        *self.inner
    }
}

/// Renders a parser error with `Display` of `wasmparser::BinaryReaderError`.
///
/// Nothing is claimed of the text.
#[verifier::external_body]
fn reader_error_text(error: &wasmparser::BinaryReaderError) -> (res: String) {
    format!("{}", error)
}

/// Renders a block type with `Debug` of `wasmparser::BlockType`.
///
/// Nothing is claimed of the text.
#[verifier::external_body]
fn block_type_text(block_type: &wasmparser::BlockType) -> (res: String) {
    format!("{:?}", block_type)
}

/// Renders a value type with `Debug` of `wasmparser::ValType`.
///
/// Nothing is claimed of the text.
#[verifier::external_body]
fn value_type_text(value_type: &wasmparser::ValType) -> (res: String) {
    format!("{:?}", value_type)
}

impl TranslationErrorInner {
    /// The message of an error whose text depends on nothing but its variant
    /// and, for an unsupported operator, its name. The three variants that
    /// wrap a value of the parser have no such message.
    pub open spec fn fixed_message(self) -> Option<Seq<char>> {
        match self {
            TranslationErrorInner::Validate(_) => None,
            TranslationErrorInner::UnsupportedBlockType(_) => None,
            TranslationErrorInner::UnsupportedValueType(_) => None,
            TranslationErrorInner::DropKeep(error) => Some(error.spec_message()),
            TranslationErrorInner::BranchTableTargetsOutOfBounds => Some(
                "branch table targets are out of bounds for wasmi bytecode"@,
            ),
            TranslationErrorInner::FunctionIndexOutOfBounds => Some(
                "function index is out of bounds for wasmi bytecode"@,
            ),
            TranslationErrorInner::TableIndexOutOfBounds => Some(
                "table index is out of bounds for wasmi bytecode"@,
            ),
            TranslationErrorInner::GlobalIndexOutOfBounds => Some(
                "global variable index is out of bounds for wasmi bytecode"@,
            ),
            TranslationErrorInner::TypeIndexOutOfBounds => Some(
                "type index is out of bounds for wasmi bytecode"@,
            ),
            TranslationErrorInner::LocalIndexOutOfBounds => Some(
                "local variable index is out of bounds for wasmi bytecode"@,
            ),
            TranslationErrorInner::DataSegmentIndexOutOfBounds => Some(
                "data segment index is out of bounds for wasmi bytecode"@,
            ),
            TranslationErrorInner::ElementSegmentIndexOutOfBounds => Some(
                "element segment index is out of bounds for wasmi bytecode"@,
            ),
            TranslationErrorInner::BranchOffsetOutOfBounds => Some(
                "branching offset is out of bounds for wasmi bytecode"@,
            ),
            TranslationErrorInner::BlockFuelOutOfBounds => Some(
                "fuel required to execute a block is out of bounds for wasmi bytecode"@,
            ),
            TranslationErrorInner::AddressOffsetOutOfBounds => Some(
                "address offset is out of bounds for wasmi bytecode"@,
            ),
            TranslationErrorInner::RegisterOutOfBounds => Some(
                "register index is out of bounds for wasmi bytecode"@,
            ),
            TranslationErrorInner::ConstRefOutOfBounds => Some(
                "constant pool index is out of bounds for wasmi bytecode"@,
            ),
            TranslationErrorInner::InstrOutOfBounds => Some(
                "instruction index is out of bounds for wasmi bytecode"@,
            ),
            TranslationErrorInner::UnsupportedOperator(name) => Some(
                "tried to translate an unsupported Wasm operator: "@ + name@,
            ),
        }
    }
}

impl TranslationError {
    /// Creates a new error from what went wrong.
    pub fn new(inner: TranslationErrorInner) -> (res: Self)
        ensures
            res@ == inner,
    {
        TranslationError { inner: Box::new(inner) }
    }

    /// Creates a new error indicating an unsupported Wasm block type.
    pub fn unsupported_block_type(block_type: wasmparser::BlockType) -> (res: Self)
        ensures
            res@ == TranslationErrorInner::UnsupportedBlockType(block_type),
    {
        TranslationError { inner: Box::new(TranslationErrorInner::UnsupportedBlockType(block_type)) }
    }

    /// Creates a new error indicating an unsupported Wasm value type.
    pub fn unsupported_value_type(value_type: wasmparser::ValType) -> (res: Self)
        ensures
            res@ == TranslationErrorInner::UnsupportedValueType(value_type),
    {
        TranslationError { inner: Box::new(TranslationErrorInner::UnsupportedValueType(value_type)) }
    }

    /// What went wrong.
    pub fn inner(&self) -> (res: &TranslationErrorInner)
        ensures
            *res == self@,
    {
        &*self.inner
    }

    /// Describes the error in words.
    ///
    /// An error of the parser is described with the text of the parser. An
    /// unsupported block or value type is named as the parser names it,
    /// after a fixed beginning. Every other message is fixed.
    pub fn message(&self) -> (res: String)
        ensures
            self@.fixed_message() matches Some(text) ==> res@ == text,
            self@ is UnsupportedBlockType ==> "encountered unsupported Wasm block type: "@.is_prefix_of(
                res@,
            ),
            self@ is UnsupportedValueType ==> "encountered unsupported Wasm value type: "@.is_prefix_of(
                res@,
            ),
    {
        match &*self.inner {
            TranslationErrorInner::Validate(error) => reader_error_text(error),
            TranslationErrorInner::UnsupportedBlockType(block_type) => {
                let text = block_type_text(block_type);
                let message = "encountered unsupported Wasm block type: ".to_string().concat(
                    text.as_str(),
                );
                assert(message@.subrange(
                    0,
                    "encountered unsupported Wasm block type: "@.len() as int,
                ) == "encountered unsupported Wasm block type: "@);
                message
            },
            TranslationErrorInner::UnsupportedValueType(value_type) => {
                let text = value_type_text(value_type);
                let message = "encountered unsupported Wasm value type: ".to_string().concat(
                    text.as_str(),
                );
                assert(message@.subrange(
                    0,
                    "encountered unsupported Wasm value type: "@.len() as int,
                ) == "encountered unsupported Wasm value type: "@);
                message
            },
            TranslationErrorInner::DropKeep(error) => error.message(),
            TranslationErrorInner::BranchTableTargetsOutOfBounds => {
                "branch table targets are out of bounds for wasmi bytecode".to_string()
            },
            TranslationErrorInner::FunctionIndexOutOfBounds => {
                "function index is out of bounds for wasmi bytecode".to_string()
            },
            TranslationErrorInner::TableIndexOutOfBounds => {
                "table index is out of bounds for wasmi bytecode".to_string()
            },
            TranslationErrorInner::GlobalIndexOutOfBounds => {
                "global variable index is out of bounds for wasmi bytecode".to_string()
            },
            TranslationErrorInner::TypeIndexOutOfBounds => {
                "type index is out of bounds for wasmi bytecode".to_string()
            },
            TranslationErrorInner::LocalIndexOutOfBounds => {
                "local variable index is out of bounds for wasmi bytecode".to_string()
            },
            TranslationErrorInner::DataSegmentIndexOutOfBounds => {
                "data segment index is out of bounds for wasmi bytecode".to_string()
            },
            TranslationErrorInner::ElementSegmentIndexOutOfBounds => {
                "element segment index is out of bounds for wasmi bytecode".to_string()
            },
            TranslationErrorInner::BranchOffsetOutOfBounds => {
                "branching offset is out of bounds for wasmi bytecode".to_string()
            },
            TranslationErrorInner::BlockFuelOutOfBounds => {
                "fuel required to execute a block is out of bounds for wasmi bytecode".to_string()
            },
            TranslationErrorInner::AddressOffsetOutOfBounds => {
                "address offset is out of bounds for wasmi bytecode".to_string()
            },
            TranslationErrorInner::RegisterOutOfBounds => {
                "register index is out of bounds for wasmi bytecode".to_string()
            },
            TranslationErrorInner::ConstRefOutOfBounds => {
                "constant pool index is out of bounds for wasmi bytecode".to_string()
            },
            TranslationErrorInner::InstrOutOfBounds => {
                "instruction index is out of bounds for wasmi bytecode".to_string()
            },
            TranslationErrorInner::UnsupportedOperator(name) => {
                "tried to translate an unsupported Wasm operator: ".to_string().concat(
                    name.as_str(),
                )
            },
        }
    }
}

impl From<wasmparser::BinaryReaderError> for TranslationError {
    fn from(error: wasmparser::BinaryReaderError) -> (res: Self) {
        TranslationError { inner: Box::new(TranslationErrorInner::Validate(error)) }
    }
}

impl vstd::std_specs::convert::FromSpecImpl<wasmparser::BinaryReaderError> for TranslationError {
    open spec fn obeys_from_spec() -> bool {
        true
    }

    closed spec fn from_spec(error: wasmparser::BinaryReaderError) -> TranslationError {
        TranslationError { inner: Box::new(TranslationErrorInner::Validate(error)) }
    }
}

impl From<DropKeepError> for TranslationError {
    fn from(error: DropKeepError) -> (res: Self) {
        TranslationError { inner: Box::new(TranslationErrorInner::DropKeep(error)) }
    }
}

impl vstd::std_specs::convert::FromSpecImpl<DropKeepError> for TranslationError {
    open spec fn obeys_from_spec() -> bool {
        true
    }

    closed spec fn from_spec(error: DropKeepError) -> TranslationError {
        TranslationError { inner: Box::new(TranslationErrorInner::DropKeep(error)) }
    }
}

/// An error made from a parser error is a validation error that wraps it.
pub proof fn lemma_from_reader_error(error: wasmparser::BinaryReaderError)
    ensures
        <TranslationError as vstd::std_specs::convert::FromSpec<
            wasmparser::BinaryReaderError,
        >>::from_spec(error)@ == TranslationErrorInner::Validate(error),
{
}

/// An error made from a drop-keep error wraps it.
pub proof fn lemma_from_drop_keep_error(error: DropKeepError)
    ensures
        <TranslationError as vstd::std_specs::convert::FromSpec<DropKeepError>>::from_spec(error)@
            == TranslationErrorInner::DropKeep(error),
{
}

} // verus!
