//! The errors of the translation and their messages.

use wasmi_translator::error::{DropKeepError, TranslationError, TranslationErrorInner};

#[test]
fn messages_of_the_limits() {
    let cases = [
        (
            TranslationErrorInner::BranchTableTargetsOutOfBounds,
            "branch table targets are out of bounds for wasmi bytecode",
        ),
        (
            TranslationErrorInner::FunctionIndexOutOfBounds,
            "function index is out of bounds for wasmi bytecode",
        ),
        (TranslationErrorInner::TableIndexOutOfBounds, "table index is out of bounds for wasmi bytecode"),
        (
            TranslationErrorInner::GlobalIndexOutOfBounds,
            "global variable index is out of bounds for wasmi bytecode",
        ),
        (TranslationErrorInner::TypeIndexOutOfBounds, "type index is out of bounds for wasmi bytecode"),
        (
            TranslationErrorInner::LocalIndexOutOfBounds,
            "local variable index is out of bounds for wasmi bytecode",
        ),
        (
            TranslationErrorInner::DataSegmentIndexOutOfBounds,
            "data segment index is out of bounds for wasmi bytecode",
        ),
        (
            TranslationErrorInner::ElementSegmentIndexOutOfBounds,
            "element segment index is out of bounds for wasmi bytecode",
        ),
        (
            TranslationErrorInner::BranchOffsetOutOfBounds,
            "branching offset is out of bounds for wasmi bytecode",
        ),
        (
            TranslationErrorInner::BlockFuelOutOfBounds,
            "fuel required to execute a block is out of bounds for wasmi bytecode",
        ),
        (
            TranslationErrorInner::AddressOffsetOutOfBounds,
            "address offset is out of bounds for wasmi bytecode",
        ),
        (
            TranslationErrorInner::RegisterOutOfBounds,
            "register index is out of bounds for wasmi bytecode",
        ),
        (
            TranslationErrorInner::ConstRefOutOfBounds,
            "constant pool index is out of bounds for wasmi bytecode",
        ),
        (
            TranslationErrorInner::InstrOutOfBounds,
            "instruction index is out of bounds for wasmi bytecode",
        ),
        (
            TranslationErrorInner::UnsupportedOperator(String::from("Nop")),
            "tried to translate an unsupported Wasm operator: Nop",
        ),
    ];
    for (inner, message) in cases {
        assert_eq!(TranslationError::new(inner).message(), message);
    }
}

#[test]
fn new_keeps_the_inner_error() {
    let error = TranslationError::new(TranslationErrorInner::TypeIndexOutOfBounds);
    assert!(matches!(error.inner(), TranslationErrorInner::TypeIndexOutOfBounds));
}

#[test]
fn unsupported_block_type() {
    let error = TranslationError::unsupported_block_type(wasmparser::BlockType::FuncType(7));
    match error.inner() {
        TranslationErrorInner::UnsupportedBlockType(block_type) => {
            assert_eq!(*block_type, wasmparser::BlockType::FuncType(7))
        }
        other => panic!("unexpected error {:?}", other),
    }
    assert_eq!(error.message(), "encountered unsupported Wasm block type: FuncType(7)");
    let error = TranslationError::unsupported_block_type(wasmparser::BlockType::Empty);
    assert_eq!(error.message(), "encountered unsupported Wasm block type: Empty");
}

#[test]
fn unsupported_value_type() {
    let error = TranslationError::unsupported_value_type(wasmparser::ValType::V128);
    match error.inner() {
        TranslationErrorInner::UnsupportedValueType(value_type) => {
            assert_eq!(*value_type, wasmparser::ValType::V128)
        }
        other => panic!("unexpected error {:?}", other),
    }
    assert_eq!(error.message(), "encountered unsupported Wasm value type: V128");
}

#[test]
fn drop_keep_errors() {
    let error = TranslationError::from(DropKeepError::KeepOutOfBounds);
    assert!(matches!(
        error.inner(),
        TranslationErrorInner::DropKeep(DropKeepError::KeepOutOfBounds)
    ));
    assert_eq!(error.message(), "number of kept elements exceeds engine limits");
    assert_eq!(
        DropKeepError::DropOutOfBounds.message(),
        "number of dropped elements exceeds engine limits"
    );
    assert_eq!(
        TranslationError::from(DropKeepError::DropOutOfBounds).message(),
        DropKeepError::DropOutOfBounds.message()
    );
}

#[test]
fn validation_errors_keep_the_text_of_the_parser() {
    // Four bytes that are no Wasm header make the parser fail.
    let bytes = [1_u8, 2, 3, 4, 5, 6, 7, 8];
    let reader_error = match wasmparser::Parser::new(0).parse(&bytes, true) {
        Err(error) => error,
        Ok(_) => panic!("the parser accepted a header that is none"),
    };
    let text = reader_error.to_string();
    assert!(!text.is_empty());
    let error = TranslationError::from(reader_error);
    assert!(matches!(error.inner(), TranslationErrorInner::Validate(_)));
    assert_eq!(error.message(), text);
}
