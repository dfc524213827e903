//! The bit-exact layout of the per-instance context addressed by generated
//! code.
//!
//! These offsets are the ABI between the code generator and the runtime: the
//! function code generator bakes them into every preamble load, and the
//! runtime lays its records out to match.  Changing one side requires
//! changing the other in lockstep, so both read the constants from here and
//! nowhere else.  The engine targets 64-bit hosts: every pointer and every
//! native word is eight bytes wide.

use vstd::prelude::*;

verus! {

/// The width of a pointer and of a native word, in bytes.
pub const POINTER_BYTES: usize = 8;

/// The fields of the flat per-instance context record, in layout order.
///
/// Each field is one pointer to an array: local entities are reached through
/// the even slots, imported entities through the odd ones, and the two
/// function tables close the record.  Implementation-private state follows
/// and has no offset named here.
#[derive(Debug, Clone, Copy, PartialEq, Eq, Structural)]
pub enum CtxField {
    /// Pointer to the array of pointers to local-memory records.
    Memories,
    /// Pointer to the array of pointers to imported-memory records.
    ImportedMemories,
    /// Pointer to the array of local-table records.
    Tables,
    /// Pointer to the array of imported-table records.
    ImportedTables,
    /// Pointer to the array of pointers to local-global records.
    Globals,
    /// Pointer to the array of pointers to imported-global records.
    ImportedGlobals,
    /// Pointer to the array of local function code pointers.
    LocalFunctions,
    /// Pointer to the array of imported-function records.
    ImportedFuncs,
}

/// The byte offset of a context field.
pub open spec fn spec_ctx_offset(field: CtxField) -> usize {
    match field {
        CtxField::Memories => 0,
        CtxField::ImportedMemories => 8,
        CtxField::Tables => 16,
        CtxField::ImportedTables => 24,
        CtxField::Globals => 32,
        CtxField::ImportedGlobals => 40,
        CtxField::LocalFunctions => 48,
        CtxField::ImportedFuncs => 56,
    }
}

#[verifier::when_used_as_spec(spec_ctx_offset)]
pub fn ctx_offset(field: CtxField) -> (r: usize)
    ensures
        r == spec_ctx_offset(field),
{
    match field {
        CtxField::Memories => 0,
        CtxField::ImportedMemories => 8,
        CtxField::Tables => 16,
        CtxField::ImportedTables => 24,
        CtxField::Globals => 32,
        CtxField::ImportedGlobals => 40,
        CtxField::LocalFunctions => 48,
        CtxField::ImportedFuncs => 56,
    }
}

/// The subrecords reachable from the context, whose strides generated code
/// multiplies indices by.
#[derive(Debug, Clone, Copy, PartialEq, Eq, Structural)]
pub enum Record {
    /// `{base: pointer, bound: native word}` of one linear memory.
    LocalMemory,
    /// `{base: pointer, count: native word}` of one table.
    LocalTable,
    /// `{data: up to 128 bits}` of one global.
    LocalGlobal,
    /// `{code pointer, context pointer}` of one imported function.
    ImportedFunc,
    /// `{code pointer, context pointer, signature id}` of one table element.
    Anyfunc,
}

/// The size in bytes of a subrecord.
pub open spec fn spec_record_size(record: Record) -> usize {
    match record {
        Record::LocalMemory => 16,
        Record::LocalTable => 16,
        Record::LocalGlobal => 16,
        Record::ImportedFunc => 16,
        Record::Anyfunc => 24,
    }
}

#[verifier::when_used_as_spec(spec_record_size)]
pub fn record_size(record: Record) -> (r: usize)
    ensures
        r == spec_record_size(record),
{
    match record {
        Record::LocalMemory => 16,
        Record::LocalTable => 16,
        Record::LocalGlobal => 16,
        Record::ImportedFunc => 16,
        Record::Anyfunc => 24,
    }
}

/// Byte offset of the `base` pointer inside a local-memory record.
pub const LOCAL_MEMORY_OFFSET_BASE: usize = 0;

/// Byte offset of the live `bound` word inside a local-memory record.
pub const LOCAL_MEMORY_OFFSET_BOUND: usize = 8;

/// Byte offset of the `base` pointer inside a local-table record.
pub const LOCAL_TABLE_OFFSET_BASE: usize = 0;

/// Byte offset of the element `count` inside a local-table record.
pub const LOCAL_TABLE_OFFSET_COUNT: usize = 8;

/// Byte offset of the value `data` inside a local-global record.
pub const LOCAL_GLOBAL_OFFSET_DATA: usize = 0;

/// Byte offset of the code pointer inside an imported-function record.
pub const IMPORTED_FUNC_OFFSET_FUNC: usize = 0;

/// Byte offset of the context pointer inside an imported-function record.
pub const IMPORTED_FUNC_OFFSET_VMCTX: usize = 8;

/// Byte offset of the code pointer inside a table element.
pub const ANYFUNC_OFFSET_FUNC: usize = 0;

/// Byte offset of the context pointer inside a table element.
pub const ANYFUNC_OFFSET_VMCTX: usize = 8;

/// Byte offset of the signature id inside a table element.
pub const ANYFUNC_OFFSET_SIG_ID: usize = 16;

/// Every context field has its own slot: the eight offsets are pairwise
/// distinct, pointer-aligned, and densely packed in layout order.
pub proof fn lemma_ctx_offsets_dense(a: CtxField, b: CtxField)
    ensures
        a != b ==> spec_ctx_offset(a) != spec_ctx_offset(b),
        spec_ctx_offset(a) % POINTER_BYTES == 0,
        spec_ctx_offset(a) < 8 * POINTER_BYTES,
{
}

/// Every named field of a subrecord lies inside the record it belongs to,
/// with room for its width: a pointer or native word is eight bytes, a
/// signature id four, and the global value takes the whole record.
pub proof fn lemma_record_fields_in_bounds()
    ensures
        LOCAL_MEMORY_OFFSET_BASE + POINTER_BYTES <= spec_record_size(Record::LocalMemory),
        LOCAL_MEMORY_OFFSET_BOUND + POINTER_BYTES <= spec_record_size(Record::LocalMemory),
        LOCAL_TABLE_OFFSET_BASE + POINTER_BYTES <= spec_record_size(Record::LocalTable),
        LOCAL_TABLE_OFFSET_COUNT + POINTER_BYTES <= spec_record_size(Record::LocalTable),
        LOCAL_GLOBAL_OFFSET_DATA + 16 <= spec_record_size(Record::LocalGlobal),
        IMPORTED_FUNC_OFFSET_FUNC + POINTER_BYTES <= spec_record_size(Record::ImportedFunc),
        IMPORTED_FUNC_OFFSET_VMCTX + POINTER_BYTES <= spec_record_size(Record::ImportedFunc),
        ANYFUNC_OFFSET_FUNC + POINTER_BYTES <= spec_record_size(Record::Anyfunc),
        ANYFUNC_OFFSET_VMCTX + POINTER_BYTES <= spec_record_size(Record::Anyfunc),
        ANYFUNC_OFFSET_SIG_ID + 4 <= spec_record_size(Record::Anyfunc),
{
}

} // verus!
