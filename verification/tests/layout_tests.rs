//! The golden layout fixture: the context field offsets and the record
//! sizes are the ABI between generated code and the runtime, and any
//! divergence from these values is a breaking change.

use wasm_engine::vm::{ANYFUNC_OFFSET_FUNC, ANYFUNC_OFFSET_SIG_ID, ANYFUNC_OFFSET_VMCTX, CtxField,
    IMPORTED_FUNC_OFFSET_FUNC, IMPORTED_FUNC_OFFSET_VMCTX, LOCAL_GLOBAL_OFFSET_DATA,
    LOCAL_MEMORY_OFFSET_BASE, LOCAL_MEMORY_OFFSET_BOUND, LOCAL_TABLE_OFFSET_BASE,
    LOCAL_TABLE_OFFSET_COUNT, POINTER_BYTES, Record, ctx_offset, record_size};

#[test]
fn context_field_offsets_are_stable() {
    let golden: [(CtxField, usize); 8] = [
        (CtxField::Memories, 0),
        (CtxField::ImportedMemories, 8),
        (CtxField::Tables, 16),
        (CtxField::ImportedTables, 24),
        (CtxField::Globals, 32),
        (CtxField::ImportedGlobals, 40),
        (CtxField::LocalFunctions, 48),
        (CtxField::ImportedFuncs, 56),
    ];
    for (field, offset) in golden {
        assert_eq!(ctx_offset(field), offset);
    }
}

#[test]
fn record_sizes_are_stable() {
    assert_eq!(POINTER_BYTES, 8);
    let golden: [(Record, usize); 5] = [
        (Record::LocalMemory, 16),
        (Record::LocalTable, 16),
        (Record::LocalGlobal, 16),
        (Record::ImportedFunc, 16),
        (Record::Anyfunc, 24),
    ];
    for (record, size) in golden {
        assert_eq!(record_size(record), size);
    }
}

#[test]
fn record_field_offsets_are_stable() {
    assert_eq!(LOCAL_MEMORY_OFFSET_BASE, 0);
    assert_eq!(LOCAL_MEMORY_OFFSET_BOUND, 8);
    assert_eq!(LOCAL_TABLE_OFFSET_BASE, 0);
    assert_eq!(LOCAL_TABLE_OFFSET_COUNT, 8);
    assert_eq!(LOCAL_GLOBAL_OFFSET_DATA, 0);
    assert_eq!(IMPORTED_FUNC_OFFSET_FUNC, 0);
    assert_eq!(IMPORTED_FUNC_OFFSET_VMCTX, 8);
    assert_eq!(ANYFUNC_OFFSET_FUNC, 0);
    assert_eq!(ANYFUNC_OFFSET_VMCTX, 8);
    assert_eq!(ANYFUNC_OFFSET_SIG_ID, 16);
}
