//! The function code generator: lowering one function's operators into a
//! backend-ready body.
//!
//! For every resource an operator touches — a global, a linear memory, a
//! table, a callee — the generator materializes an *access plan*: the exact
//! sequence of context-relative loads the backend must emit, with the byte
//! offsets from the layout contract, the read-only flags, and the trap codes.
//! Every plan starts by projecting the combined index onto the local or
//! imported sub-space, which decides which context field the walk starts at.

use vstd::prelude::*;

use crate::memory::MemoryType;
use crate::module::ModuleInfo;
use crate::ops::WasmOp;
use crate::trap::TrapCode;
use crate::types::Type;
use crate::vm::{ANYFUNC_OFFSET_FUNC, ANYFUNC_OFFSET_SIG_ID, ANYFUNC_OFFSET_VMCTX, CtxField,
    IMPORTED_FUNC_OFFSET_FUNC, IMPORTED_FUNC_OFFSET_VMCTX, LOCAL_GLOBAL_OFFSET_DATA,
    LOCAL_MEMORY_OFFSET_BASE, LOCAL_MEMORY_OFFSET_BOUND, LOCAL_TABLE_OFFSET_BASE,
    LOCAL_TABLE_OFFSET_COUNT, POINTER_BYTES, Record, ctx_offset, record_size, spec_ctx_offset,
    spec_record_size};

verus! {

/// How generated code reaches one global: a read-only walk from the
/// context pointer to the global's record, then the value at its declared
/// type.
#[derive(Debug, Clone, Copy, PartialEq, Eq, Structural)]
pub struct GlobalPlan {
    /// Whether the global is imported.
    pub imported: bool,
    /// Context offset of the global-array pointer the walk starts at; the
    /// load is read-only.
    pub base_offset: u64,
    /// Byte offset of this global's record pointer within the array:
    /// sub-index times the pointer size; the load is read-only.
    pub elem_offset: u64,
    /// Byte offset of the value within the global's record.
    pub data_offset: u64,
    /// The global's declared type, which the value is accessed at.
    pub ty: Type,
}

/// The access plan of one global, or `None` when the combined index is not
/// a global of the module.
pub open spec fn spec_make_global(info: ModuleInfo, index: u32) -> Option<GlobalPlan> {
    if index < info.imported_globals@.len() {
        Some(
            GlobalPlan {
                imported: true,
                base_offset: spec_ctx_offset(CtxField::ImportedGlobals) as u64,
                elem_offset: (index * POINTER_BYTES) as u64,
                data_offset: LOCAL_GLOBAL_OFFSET_DATA as u64,
                ty: info.imported_globals@[index as int].ty,
            },
        )
    } else if index - info.imported_globals@.len() < info.globals@.len() {
        Some(
            GlobalPlan {
                imported: false,
                base_offset: spec_ctx_offset(CtxField::Globals) as u64,
                elem_offset: ((index - info.imported_globals@.len()) * POINTER_BYTES) as u64,
                data_offset: LOCAL_GLOBAL_OFFSET_DATA as u64,
                ty: info.globals@[index - info.imported_globals@.len()].desc.ty,
            },
        )
    } else {
        None
    }
}

/// Builds the access plan for global `index`: project onto the local or
/// imported sub-space, walk the matching context field, and expose the
/// value at the global's declared type.  Fails only on an out-of-range
/// index, which a validated module never feeds here.
pub fn make_global(info: &ModuleInfo, index: u32) -> (r: Result<GlobalPlan, String>)
    ensures
        r matches Ok(p) ==> spec_make_global(*info, index) == Some(p),
        r is Err <==> spec_make_global(*info, index) is None,
{
    if (index as usize) < info.imported_globals.len() {
        Ok(
            GlobalPlan {
                imported: true,
                base_offset: ctx_offset(CtxField::ImportedGlobals) as u64,
                elem_offset: index as u64 * POINTER_BYTES as u64,
                data_offset: LOCAL_GLOBAL_OFFSET_DATA as u64,
                ty: info.imported_globals[index as usize].ty,
            },
        )
    } else {
        let sub = index as usize - info.imported_globals.len();
        if sub < info.globals.len() {
            Ok(
                GlobalPlan {
                    imported: false,
                    base_offset: ctx_offset(CtxField::Globals) as u64,
                    elem_offset: sub as u64 * POINTER_BYTES as u64,
                    data_offset: LOCAL_GLOBAL_OFFSET_DATA as u64,
                    ty: info.globals[sub].desc.ty,
                },
            )
        } else {
            Err(String::from_str("global index out of range"))
        }
    }
}

/// How a heap declaration checks its accesses.
#[derive(Debug, Clone, Copy, PartialEq, Eq, Structural)]
pub enum HeapStyle {
    /// The memory may move and grow: accesses check against the live bound
    /// word at this offset within the memory's record; the load of the
    /// bound is not read-only.
    Dynamic {
        /// Byte offset of the bound word within the memory's record.
        bound_offset: u64,
    },
    /// The memory has a static reservation of `bound` bytes: no live
    /// check, overruns trap on the guard pages.
    Static {
        /// The statically known bound, in bytes.
        bound: u64,
    },
}

/// How generated code reaches one linear memory: the walk from the context
/// pointer to the memory's record, the base load, and the bounds policy.
#[derive(Debug, Clone, Copy, PartialEq, Eq, Structural)]
pub struct HeapPlan {
    /// Whether the memory is imported.
    pub imported: bool,
    /// Context offset of the memory-array pointer; the load is read-only.
    pub base_field_offset: u64,
    /// Byte offset of this memory's record pointer within the array; the
    /// load is read-only.
    pub elem_offset: u64,
    /// Byte offset of the `base` pointer within the memory's record.
    pub memory_base_offset: u64,
    /// Whether the base load is read-only: true for static memories, which
    /// never move; false for dynamic memories, which may.
    pub base_readonly: bool,
    /// The bounds-check policy.
    pub style: HeapStyle,
    /// The memory's minimum size, in bytes.
    pub min_size: u64,
    /// The guard region following the memory, in bytes.
    pub guard_size: u64,
}

/// The memory type of the descriptor at a combined memory index, if the
/// index and the descriptor are valid.
pub open spec fn spec_memory_type_at(info: ModuleInfo, index: u32) -> Option<(
    bool,
    crate::types::MemoryDescriptor,
    MemoryType,
)> {
    if index < info.imported_memories@.len() {
        let desc = info.imported_memories@[index as int];
        match desc.maximum {
            Some(_) => Some(
                (true, desc, if desc.shared {
                    MemoryType::SharedStatic
                } else {
                    MemoryType::Static
                }),
            ),
            None => if desc.shared {
                None
            } else {
                Some((true, desc, MemoryType::Dynamic))
            },
        }
    } else if index - info.imported_memories@.len() < info.memories@.len() {
        let desc = info.memories@[index - info.imported_memories@.len()];
        match desc.maximum {
            Some(_) => Some(
                (false, desc, if desc.shared {
                    MemoryType::SharedStatic
                } else {
                    MemoryType::Static
                }),
            ),
            None => if desc.shared {
                None
            } else {
                Some((false, desc, MemoryType::Dynamic))
            },
        }
    } else {
        None
    }
}

/// The access plan of one linear memory, or `None` when the index is not a
/// memory of the module or its descriptor is invalid.
pub open spec fn spec_make_heap(info: ModuleInfo, index: u32) -> Option<HeapPlan> {
    match spec_memory_type_at(info, index) {
        None => None,
        Some((imported, desc, mem_type)) => Some(
            HeapPlan {
                imported,
                base_field_offset: (if imported {
                    spec_ctx_offset(CtxField::ImportedMemories)
                } else {
                    spec_ctx_offset(CtxField::Memories)
                }) as u64,
                elem_offset: ((if imported {
                    index as int
                } else {
                    index - info.imported_memories@.len()
                }) * POINTER_BYTES) as u64,
                memory_base_offset: LOCAL_MEMORY_OFFSET_BASE as u64,
                base_readonly: !(mem_type is Dynamic),
                style: if mem_type is Dynamic {
                    HeapStyle::Dynamic { bound_offset: LOCAL_MEMORY_OFFSET_BOUND as u64 }
                } else {
                    HeapStyle::Static { bound: crate::memory::STATIC_HEAP_BOUND }
                },
                min_size: desc.minimum.spec_bytes(),
                guard_size: mem_type.spec_guard_size(),
            },
        ),
    }
}

/// Builds the access plan for linear memory `index`: project, walk the
/// matching context field, and pick the bounds policy the memory's kind
/// demands — a live bound word for a dynamic memory, the static
/// reservation and its guard for a static one.
pub fn make_heap(info: &ModuleInfo, index: u32) -> (r: Result<HeapPlan, String>)
    ensures
        r matches Ok(p) ==> spec_make_heap(*info, index) == Some(p),
        r is Err <==> spec_make_heap(*info, index) is None,
{
    let (imported, desc): (bool, crate::types::MemoryDescriptor) = if (index as usize)
        < info.imported_memories.len() {
        (true, info.imported_memories[index as usize])
    } else {
        let sub = index as usize - info.imported_memories.len();
        if sub < info.memories.len() {
            (false, info.memories[sub])
        } else {
            return Err(String::from_str("memory index out of range"));
        }
    };
    let mem_type = match desc.memory_type_checked() {
        Some(t) => t,
        None => {
            return Err(String::from_str("shared memory without a maximum"));
        },
    };
    let elem_offset: u64 = if imported {
        index as u64 * POINTER_BYTES as u64
    } else {
        (index as usize - info.imported_memories.len()) as u64 * POINTER_BYTES as u64
    };
    Ok(
        HeapPlan {
            imported,
            base_field_offset: if imported {
                ctx_offset(CtxField::ImportedMemories) as u64
            } else {
                ctx_offset(CtxField::Memories) as u64
            },
            elem_offset,
            memory_base_offset: LOCAL_MEMORY_OFFSET_BASE as u64,
            base_readonly: !matches!(mem_type, MemoryType::Dynamic),
            style: match mem_type {
                MemoryType::Dynamic => HeapStyle::Dynamic {
                    bound_offset: LOCAL_MEMORY_OFFSET_BOUND as u64,
                },
                MemoryType::Static | MemoryType::SharedStatic => HeapStyle::Static {
                    bound: crate::memory::STATIC_HEAP_BOUND,
                },
            },
            min_size: desc.minimum.bytes(),
            guard_size: mem_type.guard_size(),
        },
    )
}

/// How generated code reaches one table: the walk to the table's record,
/// the mutable base and count loads, and the element stride.
#[derive(Debug, Clone, Copy, PartialEq, Eq, Structural)]
pub struct TablePlan {
    /// Whether the table is imported.
    pub imported: bool,
    /// Context offset of the table-array pointer; the load is read-only.
    pub base_field_offset: u64,
    /// Byte offset of this table's slot within the array: sub-index times
    /// the table record size; the record pointer load is read-only.
    pub struct_offset: u64,
    /// Byte offset of the `base` pointer within the table's record; the
    /// table can reallocate, so this load is not read-only.
    pub table_base_offset: u64,
    /// Byte offset of the element `count` within the table's record; the
    /// count can change, so this load is not read-only.
    pub table_count_offset: u64,
    /// The stride between elements: the size of a table-element record.
    pub element_size: u64,
    /// The table's minimum element count.
    pub min_elements: u64,
}

/// The access plan of one table, or `None` when the index is not a table
/// of the module.
pub open spec fn spec_make_table(info: ModuleInfo, index: u32) -> Option<TablePlan> {
    if index < info.imported_tables@.len() {
        Some(
            TablePlan {
                imported: true,
                base_field_offset: spec_ctx_offset(CtxField::ImportedTables) as u64,
                struct_offset: (index * spec_record_size(Record::LocalTable)) as u64,
                table_base_offset: LOCAL_TABLE_OFFSET_BASE as u64,
                table_count_offset: LOCAL_TABLE_OFFSET_COUNT as u64,
                element_size: spec_record_size(Record::Anyfunc) as u64,
                min_elements: info.imported_tables@[index as int].minimum as u64,
            },
        )
    } else if index - info.imported_tables@.len() < info.tables@.len() {
        Some(
            TablePlan {
                imported: false,
                base_field_offset: spec_ctx_offset(CtxField::Tables) as u64,
                struct_offset: ((index - info.imported_tables@.len()) * spec_record_size(
                    Record::LocalTable,
                )) as u64,
                table_base_offset: LOCAL_TABLE_OFFSET_BASE as u64,
                table_count_offset: LOCAL_TABLE_OFFSET_COUNT as u64,
                element_size: spec_record_size(Record::Anyfunc) as u64,
                min_elements: info.tables@[index - info.imported_tables@.len()].minimum as u64,
            },
        )
    } else {
        None
    }
}

/// Builds the access plan for table `index`: project, walk the matching
/// context field, and declare the element stride and minimum size.
pub fn make_table(info: &ModuleInfo, index: u32) -> (r: Result<TablePlan, String>)
    ensures
        r matches Ok(p) ==> spec_make_table(*info, index) == Some(p),
        r is Err <==> spec_make_table(*info, index) is None,
{
    if (index as usize) < info.imported_tables.len() {
        Ok(
            TablePlan {
                imported: true,
                base_field_offset: ctx_offset(CtxField::ImportedTables) as u64,
                struct_offset: index as u64 * record_size(Record::LocalTable) as u64,
                table_base_offset: LOCAL_TABLE_OFFSET_BASE as u64,
                table_count_offset: LOCAL_TABLE_OFFSET_COUNT as u64,
                element_size: record_size(Record::Anyfunc) as u64,
                min_elements: info.imported_tables[index as usize].minimum as u64,
            },
        )
    } else {
        let sub = index as usize - info.imported_tables.len();
        if sub < info.tables.len() {
            Ok(
                TablePlan {
                    imported: false,
                    base_field_offset: ctx_offset(CtxField::Tables) as u64,
                    struct_offset: sub as u64 * record_size(Record::LocalTable) as u64,
                    table_base_offset: LOCAL_TABLE_OFFSET_BASE as u64,
                    table_count_offset: LOCAL_TABLE_OFFSET_COUNT as u64,
                    element_size: record_size(Record::Anyfunc) as u64,
                    min_elements: info.tables[sub].minimum as u64,
                },
            )
        } else {
            Err(String::from_str("table index out of range"))
        }
    }
}

/// How generated code performs a direct call.
#[derive(Debug, Clone, Copy, PartialEq, Eq, Structural)]
pub enum DirectCallPlan {
    /// The callee is a local function: the caller's own context is passed
    /// through, the code pointer is read from the local function table,
    /// and the call site is colocated — the linker patches it relative.
    Local {
        /// Context offset of the local function code table.
        fn_table_offset: u64,
        /// The callee's local sub-index.
        local_index: u32,
        /// Byte offset of the callee's code pointer within the table:
        /// sub-index times the pointer size.
        elem_offset: u64,
    },
    /// The callee is imported: its record holds both the code pointer and
    /// the context to pass as the first argument.
    Import {
        /// Context offset of the imported-function record array; the load
        /// is read-only.
        funcs_offset: u64,
        /// Byte offset of the callee's record within the array: sub-index
        /// times the record size.
        struct_offset: u64,
        /// Byte offset of the code pointer within the record; read-only.
        code_offset: u64,
        /// Byte offset of the callee context within the record, passed as
        /// the call's first argument; read-only.
        vmctx_offset: u64,
    },
}

/// The call plan for a direct call to combined function index `callee`, or
/// `None` when the index is not a function of the module.
pub open spec fn spec_translate_call(info: ModuleInfo, callee: u32) -> Option<DirectCallPlan> {
    if callee < info.imported_functions@.len() {
        Some(
            DirectCallPlan::Import {
                funcs_offset: spec_ctx_offset(CtxField::ImportedFuncs) as u64,
                struct_offset: (callee * spec_record_size(Record::ImportedFunc)) as u64,
                code_offset: IMPORTED_FUNC_OFFSET_FUNC as u64,
                vmctx_offset: IMPORTED_FUNC_OFFSET_VMCTX as u64,
            },
        )
    } else if callee < info.func_assoc@.len() {
        Some(
            DirectCallPlan::Local {
                fn_table_offset: spec_ctx_offset(CtxField::LocalFunctions) as u64,
                local_index: (callee - info.imported_functions@.len()) as u32,
                elem_offset: ((callee - info.imported_functions@.len()) * POINTER_BYTES) as u64,
            },
        )
    } else {
        None
    }
}

/// Builds the call plan for a direct call: project the callee index; a
/// local callee is reached through the local function table with the
/// caller's context and a relative (colocated) call site, an imported one
/// through its record, whose own context is passed instead.
pub fn translate_call(info: &ModuleInfo, callee: u32) -> (r: Result<DirectCallPlan, String>)
    ensures
        r matches Ok(p) ==> spec_translate_call(*info, callee) == Some(p),
        r is Err <==> spec_translate_call(*info, callee) is None,
{
    if (callee as usize) < info.imported_functions.len() {
        Ok(
            DirectCallPlan::Import {
                funcs_offset: ctx_offset(CtxField::ImportedFuncs) as u64,
                struct_offset: callee as u64 * record_size(Record::ImportedFunc) as u64,
                code_offset: IMPORTED_FUNC_OFFSET_FUNC as u64,
                vmctx_offset: IMPORTED_FUNC_OFFSET_VMCTX as u64,
            },
        )
    } else if (callee as usize) < info.func_assoc.len() {
        let sub = callee as usize - info.imported_functions.len();
        Ok(
            DirectCallPlan::Local {
                fn_table_offset: ctx_offset(CtxField::LocalFunctions) as u64,
                local_index: sub as u32,
                elem_offset: sub as u64 * POINTER_BYTES as u64,
            },
        )
    } else {
        Err(String::from_str("function index out of range"))
    }
}

/// How generated code performs an indirect call through a table: find the
/// element, trap on a null code pointer, compare the element's signature
/// id against the expected one resolved through a linker symbol, trap on
/// mismatch, then call with the element's context if it has one and the
/// caller's otherwise.
#[derive(Debug, Clone, Copy, PartialEq, Eq, Structural)]
pub struct IndirectCallPlan {
    /// The table the element is read from.
    pub table: TablePlan,
    /// Byte offset of the code pointer within the element; a zero value
    /// raises `null_trap`.
    pub func_offset: u64,
    /// Byte offset of the element's context pointer; if zero, the caller's
    /// context is passed instead (one select instruction).
    pub vmctx_offset: u64,
    /// Byte offset of the signature id within the element.
    pub sig_id_offset: u64,
    /// Namespace of the symbol holding the expected canonical signature
    /// id.
    pub sig_namespace: u32,
    /// The undeduplicated, module-declared signature index keying that
    /// symbol; the linker resolves it to the canonical interned id, which
    /// keeps signature equality across modules.
    pub sig_index: u32,
    /// Raised when the element's code pointer is null.
    pub null_trap: TrapCode,
    /// Raised when the signature ids differ.
    pub mismatch_trap: TrapCode,
}

/// The plan of an indirect call, or `None` when the table index or the
/// declared signature index is not part of the module.
pub open spec fn spec_translate_call_indirect(info: ModuleInfo, table_index: u32, sig_index: u32)
    -> Option<IndirectCallPlan> {
    match spec_make_table(info, table_index) {
        None => None,
        Some(table) => if sig_index < info.signatures@.len() {
            Some(
                IndirectCallPlan {
                    table,
                    func_offset: ANYFUNC_OFFSET_FUNC as u64,
                    vmctx_offset: ANYFUNC_OFFSET_VMCTX as u64,
                    sig_id_offset: ANYFUNC_OFFSET_SIG_ID as u64,
                    sig_namespace: crate::backend::SIG_NAMESPACE,
                    sig_index,
                    null_trap: TrapCode::IndirectCallToNull,
                    mismatch_trap: TrapCode::BadSignature,
                },
            )
        } else {
            None
        },
    }
}

/// Builds the plan of an indirect call through `table_index` expecting the
/// module-declared signature `sig_index`.
pub fn translate_call_indirect(info: &ModuleInfo, table_index: u32, sig_index: u32) -> (r: Result<
    IndirectCallPlan,
    String,
>)
    ensures
        r matches Ok(p) ==> spec_translate_call_indirect(*info, table_index, sig_index) == Some(p),
        r is Err <==> spec_translate_call_indirect(*info, table_index, sig_index) is None,
{
    let table = make_table(info, table_index)?;
    if (sig_index as usize) < info.signatures.len() {
        Ok(
            IndirectCallPlan {
                table,
                func_offset: ANYFUNC_OFFSET_FUNC as u64,
                vmctx_offset: ANYFUNC_OFFSET_VMCTX as u64,
                sig_id_offset: ANYFUNC_OFFSET_SIG_ID as u64,
                sig_namespace: crate::backend::SIG_NAMESPACE,
                sig_index,
                null_trap: TrapCode::IndirectCallToNull,
                mismatch_trap: TrapCode::BadSignature,
            },
        )
    } else {
        Err(String::from_str("signature index out of range"))
    }
}

/// A call to a runtime helper resolved at link time by a namespace-tagged
/// name, receiving the caller's context and the memory's sub-index.
#[derive(Debug, Clone, Copy, PartialEq, Eq, Structural)]
pub struct RuntimeCallPlan {
    /// The namespace tag: local or imported entities.
    pub namespace: u32,
    /// The helper's name index within the namespace.
    pub name_index: u32,
    /// The memory's sub-index, passed to the helper.
    pub mem_sub_index: u32,
}

/// The grow-helper call for a memory, or `None` when the index or the
/// descriptor is invalid.  The helper variant is chosen by the memory's
/// kind, so linking resolves the matching implementation.
pub open spec fn spec_translate_memory_grow(info: ModuleInfo, index: u32) -> Option<
    RuntimeCallPlan,
> {
    match spec_memory_type_at(info, index) {
        None => None,
        Some((imported, _desc, mem_type)) => Some(
            RuntimeCallPlan {
                namespace: if imported {
                    crate::backend::IMPORT_NAMESPACE
                } else {
                    crate::backend::LOCAL_NAMESPACE
                },
                name_index: match mem_type {
                    MemoryType::Dynamic => crate::backend::DYNAMIC_MEM_GROW,
                    MemoryType::Static => crate::backend::STATIC_MEM_GROW,
                    MemoryType::SharedStatic => crate::backend::SHARED_STATIC_MEM_GROW,
                },
                mem_sub_index: (if imported {
                    index as int
                } else {
                    index - info.imported_memories@.len()
                }) as u32,
            },
        ),
    }
}

/// The size-helper call for a memory, or `None` when the index or the
/// descriptor is invalid.
pub open spec fn spec_translate_memory_size(info: ModuleInfo, index: u32) -> Option<
    RuntimeCallPlan,
> {
    match spec_memory_type_at(info, index) {
        None => None,
        Some((imported, _desc, mem_type)) => Some(
            RuntimeCallPlan {
                namespace: if imported {
                    crate::backend::IMPORT_NAMESPACE
                } else {
                    crate::backend::LOCAL_NAMESPACE
                },
                name_index: match mem_type {
                    MemoryType::Dynamic => crate::backend::DYNAMIC_MEM_SIZE,
                    MemoryType::Static => crate::backend::STATIC_MEM_SIZE,
                    MemoryType::SharedStatic => crate::backend::SHARED_STATIC_MEM_SIZE,
                },
                mem_sub_index: (if imported {
                    index as int
                } else {
                    index - info.imported_memories@.len()
                }) as u32,
            },
        ),
    }
}

/// Builds the runtime call lowering `memory.grow` on memory `index`.
pub fn translate_memory_grow(info: &ModuleInfo, index: u32) -> (r: Result<RuntimeCallPlan, String>)
    ensures
        r matches Ok(p) ==> spec_translate_memory_grow(*info, index) == Some(p),
        r is Err <==> spec_translate_memory_grow(*info, index) is None,
{
    let (imported, desc): (bool, crate::types::MemoryDescriptor) = if (index as usize)
        < info.imported_memories.len() {
        (true, info.imported_memories[index as usize])
    } else {
        let sub = index as usize - info.imported_memories.len();
        if sub < info.memories.len() {
            (false, info.memories[sub])
        } else {
            return Err(String::from_str("memory index out of range"));
        }
    };
    let mem_type = match desc.memory_type_checked() {
        Some(t) => t,
        None => {
            return Err(String::from_str("shared memory without a maximum"));
        },
    };
    Ok(
        RuntimeCallPlan {
            namespace: if imported {
                crate::backend::IMPORT_NAMESPACE
            } else {
                crate::backend::LOCAL_NAMESPACE
            },
            name_index: match mem_type {
                MemoryType::Dynamic => crate::backend::DYNAMIC_MEM_GROW,
                MemoryType::Static => crate::backend::STATIC_MEM_GROW,
                MemoryType::SharedStatic => crate::backend::SHARED_STATIC_MEM_GROW,
            },
            mem_sub_index: if imported {
                index
            } else {
                (index as usize - info.imported_memories.len()) as u32
            },
        },
    )
}

/// Builds the runtime call lowering `memory.size` on memory `index`.
pub fn translate_memory_size(info: &ModuleInfo, index: u32) -> (r: Result<RuntimeCallPlan, String>)
    ensures
        r matches Ok(p) ==> spec_translate_memory_size(*info, index) == Some(p),
        r is Err <==> spec_translate_memory_size(*info, index) is None,
{
    let (imported, desc): (bool, crate::types::MemoryDescriptor) = if (index as usize)
        < info.imported_memories.len() {
        (true, info.imported_memories[index as usize])
    } else {
        let sub = index as usize - info.imported_memories.len();
        if sub < info.memories.len() {
            (false, info.memories[sub])
        } else {
            return Err(String::from_str("memory index out of range"));
        }
    };
    let mem_type = match desc.memory_type_checked() {
        Some(t) => t,
        None => {
            return Err(String::from_str("shared memory without a maximum"));
        },
    };
    Ok(
        RuntimeCallPlan {
            namespace: if imported {
                crate::backend::IMPORT_NAMESPACE
            } else {
                crate::backend::LOCAL_NAMESPACE
            },
            name_index: match mem_type {
                MemoryType::Dynamic => crate::backend::DYNAMIC_MEM_SIZE,
                MemoryType::Static => crate::backend::STATIC_MEM_SIZE,
                MemoryType::SharedStatic => crate::backend::SHARED_STATIC_MEM_SIZE,
            },
            mem_sub_index: if imported {
                index
            } else {
                (index as usize - info.imported_memories.len()) as u32
            },
        },
    )
}

/// One parameter of a machine-level signature.
#[derive(Debug, Clone, Copy, PartialEq, Eq, Structural)]
pub struct AbiParam {
    /// The machine type of the parameter; the context pointer is
    /// pointer-sized, so 64-bit here.
    pub ty: Type,
    /// Whether this parameter is the special per-instance context pointer
    /// rather than a wasm-level parameter.
    pub vmctx: bool,
}

/// A signature in the machine-level form the backend compiles against.
#[derive(Debug, PartialEq)]
pub struct MachineSignature {
    /// The parameters, in call order.
    pub params: Vec<AbiParam>,
    /// The return types, in order.
    pub rets: Vec<Type>,
}

impl Clone for MachineSignature {
    /// A clone carries the same parameters and returns.
    fn clone(&self) -> (res: Self)
        ensures
            res.params@ == self.params@,
            res.rets@ == self.rets@,
    {
        let mut params: Vec<AbiParam> = Vec::new();
        let np = self.params.len();
        for i in 0..np
            invariant
                np == self.params@.len(),
                params@ == self.params@.take(i as int),
        {
            params.push(self.params[i]);
            proof {
                assert(params@ =~= self.params@.take(i as int + 1));
            }
        }
        let mut rets: Vec<Type> = Vec::new();
        let nr = self.rets.len();
        for i in 0..nr
            invariant
                nr == self.rets@.len(),
                rets@ == self.rets@.take(i as int),
        {
            rets.push(self.rets[i]);
            proof {
                assert(rets@ =~= self.rets@.take(i as int + 1));
            }
        }
        proof {
            assert(self.params@.take(np as int) =~= self.params@);
            assert(self.rets@.take(nr as int) =~= self.rets@);
        }
        MachineSignature { params, rets }
    }
}

/// Converts a wasm signature into its plain machine form: every parameter
/// becomes a normal machine parameter, returns carry over.
pub fn convert_func_sig(sig: &crate::types::FuncSig) -> (r: MachineSignature)
    ensures
        r.params@.len() == sig.params@.len(),
        forall|i: int|
            0 <= i < sig.params@.len() ==> #[trigger] r.params@[i] == (AbiParam {
                ty: sig.params@[i],
                vmctx: false,
            }),
        r.rets@ == sig.rets@,
{
    let mut params: Vec<AbiParam> = Vec::new();
    let n = sig.params.len();
    for i in 0..n
        invariant
            n == sig.params@.len(),
            params@.len() == i,
            forall|j: int|
                0 <= j < i ==> #[trigger] params@[j] == (AbiParam {
                    ty: sig.params@[j],
                    vmctx: false,
                }),
    {
        params.push(AbiParam { ty: sig.params[i], vmctx: false });
    }
    MachineSignature { params, rets: sig.rets.clone() }
}

/// Prepends the special context-pointer parameter to a machine signature:
/// the machine-ABI form every compiled function and call site uses.
pub fn generate_signature(sig: &MachineSignature) -> (r: MachineSignature)
    ensures
        r.params@ == seq![AbiParam { ty: Type::I64, vmctx: true }] + sig.params@,
        r.rets@ == sig.rets@,
{
    let mut params: Vec<AbiParam> = Vec::new();
    params.push(AbiParam { ty: Type::I64, vmctx: true });
    let n = sig.params.len();
    for i in 0..n
        invariant
            n == sig.params@.len(),
            params@.len() == i + 1,
            params@[0] == (AbiParam { ty: Type::I64, vmctx: true }),
            forall|j: int| 0 <= j < i ==> #[trigger] params@[j + 1] == sig.params@[j],
    {
        params.push(sig.params[i]);
    }
    proof {
        let full = seq![AbiParam { ty: Type::I64, vmctx: true }] + sig.params@;
        assert forall|k: int| 0 <= k < params@.len() implies params@[k] == full[k] by {
            if k > 0 {
                assert(params@[(k - 1) + 1] == sig.params@[k - 1]);
            }
        }
        assert(params@ =~= full);
    }
    MachineSignature { params, rets: sig.rets.clone() }
}

/// How many of a machine signature's parameters are wasm-level parameters
/// — the ones that become locals — as opposed to special parameters such
/// as the context pointer.
pub open spec fn spec_count_normal(params: Seq<AbiParam>) -> int
    decreases params.len(),
{
    if params.len() == 0 {
        0
    } else {
        spec_count_normal(params.drop_last()) + if params.last().vmctx {
            0int
        } else {
            1int
        }
    }
}

/// Declares a local for every normal parameter of the signature, skipping
/// special-purpose parameters such as the context pointer; returns the
/// number of locals declared.
pub fn declare_wasm_parameters(sig: &MachineSignature) -> (n: usize)
    ensures
        n == spec_count_normal(sig.params@),
        n <= sig.params@.len(),
{
    let mut next_local: usize = 0;
    let len = sig.params.len();
    for i in 0..len
        invariant
            len == sig.params@.len(),
            next_local == spec_count_normal(sig.params@.take(i as int)),
            next_local <= i,
    {
        proof {
            assert(sig.params@.take(i as int).push(sig.params@[i as int]) =~= sig.params@.take(
                i as int + 1,
            ));
            assert(sig.params@.take(i as int + 1).drop_last() =~= sig.params@.take(i as int));
        }
        if !sig.params[i].vmctx {
            next_local = next_local + 1;
        }
    }
    proof {
        assert(sig.params@.take(len as int) =~= sig.params@);
    }
    next_local
}

/// How the terminating return of a function body is emitted.
#[derive(Debug, Clone, Copy, PartialEq, Eq, Structural)]
pub enum ReturnMode {
    /// Emit a normal return instruction.
    NormalReturns,
    /// Emit a fallthrough return.
    FallthroughReturn,
}

/// One lowered element of a function body: either an operator that needs
/// no module state, or an operator bound to the access plan it uses.
#[derive(Debug, Clone, Copy, PartialEq, Eq, Structural)]
pub enum LoweredOp {
    /// An operator lowered without touching module state.
    Plain(WasmOp),
    /// A global read through its access plan.
    GetGlobal(GlobalPlan),
    /// A global write through its access plan.
    SetGlobal(GlobalPlan),
    /// A linear-memory load through its heap plan.
    Load {
        /// The heap the access goes through.
        heap: HeapPlan,
        /// The load operator, carrying width and constant offset.
        op: WasmOp,
    },
    /// A linear-memory store through its heap plan.
    Store {
        /// The heap the access goes through.
        heap: HeapPlan,
        /// The store operator, carrying width and constant offset.
        op: WasmOp,
    },
    /// A direct call through its call plan.
    Call {
        /// How the callee is reached and which context is passed.
        plan: DirectCallPlan,
    },
    /// An indirect call through its plan.
    CallIndirect {
        /// The table walk, the two traps, and the signature symbol.
        plan: IndirectCallPlan,
    },
    /// A `memory.grow` lowered to its runtime helper call.
    MemoryGrow {
        /// The helper and the memory it operates on.
        call: RuntimeCallPlan,
    },
    /// A `memory.size` lowered to its runtime helper call.
    MemorySize {
        /// The helper and the memory it operates on.
        call: RuntimeCallPlan,
    },
    /// The terminating return emitted when the exit is reachable.
    EmitReturn {
        /// Whether the return is a fallthrough return.
        fallthrough: bool,
    },
}

/// What one decoded operator appends to the lowered body, or `None` when a
/// resource it names is not part of the module.  Loads and stores go
/// through linear memory zero.
pub open spec fn spec_lowered_ops(info: ModuleInfo, op: WasmOp) -> Option<Seq<LoweredOp>> {
    match op {
        WasmOp::GlobalGet(g) => match spec_make_global(info, g) {
            Some(p) => Some(seq![LoweredOp::GetGlobal(p)]),
            None => None,
        },
        WasmOp::GlobalSet(g) => match spec_make_global(info, g) {
            Some(p) => Some(seq![LoweredOp::SetGlobal(p)]),
            None => None,
        },
        WasmOp::I32Load { .. } | WasmOp::I64Load { .. } | WasmOp::F32Load { .. } | WasmOp::F64Load { .. } | WasmOp::V128Load { .. } | WasmOp::I32Load8S { .. } | WasmOp::I32Load8U { .. } | WasmOp::I32Load16S { .. } | WasmOp::I32Load16U { .. } | WasmOp::I64Load8S { .. } | WasmOp::I64Load8U { .. } | WasmOp::I64Load16S { .. } | WasmOp::I64Load16U { .. } | WasmOp::I64Load32S { .. } | WasmOp::I64Load32U { .. } => match spec_make_heap(info, 0) {
            Some(h) => Some(seq![LoweredOp::Load { heap: h, op }]),
            None => None,
        },
        WasmOp::I32Store { .. } | WasmOp::I64Store { .. } | WasmOp::F32Store { .. } | WasmOp::F64Store { .. } | WasmOp::V128Store { .. } | WasmOp::I32Store8 { .. } | WasmOp::I32Store16 { .. } | WasmOp::I64Store8 { .. } | WasmOp::I64Store16 { .. } | WasmOp::I64Store32 { .. } => match spec_make_heap(info, 0) {
            Some(h) => Some(seq![LoweredOp::Store { heap: h, op }]),
            None => None,
        },
        WasmOp::MemoryGrow(m) => match spec_translate_memory_grow(info, m) {
            Some(c) => Some(seq![LoweredOp::MemoryGrow { call: c }]),
            None => None,
        },
        WasmOp::MemorySize(m) => match spec_translate_memory_size(info, m) {
            Some(c) => Some(seq![LoweredOp::MemorySize { call: c }]),
            None => None,
        },
        WasmOp::Call(f) => match spec_translate_call(info, f) {
            Some(p) => Some(seq![LoweredOp::Call { plan: p }]),
            None => None,
        },
        WasmOp::CallIndirect { sig_index, table_index } => match spec_translate_call_indirect(
            info,
            table_index,
            sig_index,
        ) {
            Some(p) => Some(seq![LoweredOp::CallIndirect { plan: p }]),
            None => None,
        },
        _ => Some(seq![LoweredOp::Plain(op)]),
    }
}

/// The number of open control frames after one operator.
pub open spec fn spec_next_depth(depth: u32, op: WasmOp) -> int {
    match op {
        WasmOp::Block | WasmOp::Loop | WasmOp::If => depth + 1,
        WasmOp::End => depth - 1,
        _ => depth as int,
    }
}

/// Whether the lowering position is still reachable after one operator:
/// an unconditional transfer makes it unreachable; an `else` or the end of
/// an inner frame rejoins a reachable edge; the function's own final `end`
/// keeps whatever reachability the body ended with, which is what decides
/// the terminating return.
pub open spec fn spec_next_reachable(reachable: bool, depth: u32, op: WasmOp) -> bool {
    match op {
        WasmOp::Unreachable | WasmOp::Return | WasmOp::Br(_) => false,
        WasmOp::Else => true,
        WasmOp::End => if depth == 1 {
            reachable
        } else {
            true
        },
        _ => reachable,
    }
}

/// The full transition of the function code generator on one decoded
/// operator: what is appended and how depth and reachability move, or
/// `None` on a lowering error.  Operators arriving after the function's
/// final `end` are ignored.
pub open spec fn spec_feed_wasm(depth: u32, reachable: bool, info: ModuleInfo, op: WasmOp)
    -> Option<(Seq<LoweredOp>, int, bool)> {
    if depth == 0 {
        Some((Seq::<LoweredOp>::empty(), 0int, reachable))
    } else {
        match spec_lowered_ops(info, op) {
            None => None,
            Some(ops) => if (op is Block || op is Loop || op is If) && depth == u32::MAX {
                None
            } else {
                Some((ops, spec_next_depth(depth, op), spec_next_reachable(reachable, depth, op)))
            },
        }
    }
}

/// The function-scope code generator of the streaming backend: it owns one
/// function's machine signature, its local counter, and the lowered body
/// being built.
pub struct IrFunctionCodeGenerator {
    /// The combined index of the function being compiled.
    pub func_index: u32,
    /// The machine-ABI signature, context parameter included.
    pub sig: MachineSignature,
    /// The next local index to declare: parameters first, then locals.
    pub next_local: usize,
    /// The lowered body, in operator order.
    pub body: Vec<LoweredOp>,
    /// Open control frames; the function region itself counts as one, so
    /// zero means the final `end` was consumed.
    pub control_depth: u32,
    /// Whether the current lowering position is reachable.
    pub reachable: bool,
    /// How the terminating return is emitted.
    pub return_mode: ReturnMode,
}

impl IrFunctionCodeGenerator {
    /// The return mode of this function's terminator.
    pub fn return_mode(&self) -> (r: ReturnMode)
        ensures
            r == self.return_mode,
    {
        self.return_mode
    }
}

impl crate::codegen::FunctionCodeGenerator for IrFunctionCodeGenerator {
    /// The return types are fixed by the signature the generator was
    /// created with, so declaring them is a no-op.
    fn feed_return(&mut self, ty: Type) -> (r: Result<(), String>)
        ensures
            r is Ok,
            *final(self) == *old(self),
    {
        Ok(())
    }

    /// Declares one parameter as the next local.
    fn feed_param(&mut self, ty: Type) -> (r: Result<(), String>)
        ensures
            r is Ok <==> old(self).next_local < usize::MAX,
            r is Ok ==> *final(self) == (IrFunctionCodeGenerator {
                next_local: (old(self).next_local + 1) as usize,
                ..*old(self)
            }),
            r is Err ==> *final(self) == *old(self),
    {
        if self.next_local == usize::MAX {
            return Err(String::from_str("too many locals"));
        }
        self.next_local = self.next_local + 1;
        Ok(())
    }

    /// Declares `n` locals of one type.
    fn feed_local(&mut self, ty: Type, n: usize) -> (r: Result<(), String>)
        ensures
            r is Ok <==> old(self).next_local + n <= usize::MAX,
            r is Ok ==> *final(self) == (IrFunctionCodeGenerator {
                next_local: (old(self).next_local + n) as usize,
                ..*old(self)
            }),
            r is Err ==> *final(self) == *old(self),
    {
        match self.next_local.checked_add(n) {
            Some(next) => {
                self.next_local = next;
                Ok(())
            },
            None => Err(String::from_str("too many locals")),
        }
    }

    /// The entry block was set up when the generator was created, so
    /// nothing is left to do before the first operator.
    fn begin_body(&mut self, module_info: &ModuleInfo) -> (r: Result<(), String>)
        ensures
            r is Ok,
            *final(self) == *old(self),
    {
        Ok(())
    }

    /// Lowers one event: internal events pass the generator by; a decoded
    /// operator is lowered by `spec_feed_wasm` — resource operators
    /// through their access plans, everything else as a plain operator.
    fn feed_event(&mut self, event: crate::codegen::Event, module_info: &ModuleInfo) -> (r: Result<
        (),
        String,
    >)
        ensures
            event matches crate::codegen::Event::Internal(_) ==> r is Ok && *final(self) == *old(
                self,
            ),
            event matches crate::codegen::Event::Wasm(op) ==> {
                let t = spec_feed_wasm(old(self).control_depth, old(self).reachable, *module_info, op);
                &&& (r is Ok <==> t is Some)
                &&& (r is Err ==> *final(self) == *old(self))
                &&& (t matches Some(step) ==> {
                    &&& final(self).body@ == old(self).body@ + step.0
                    &&& final(self).control_depth == step.1
                    &&& final(self).reachable == step.2
                    &&& final(self).func_index == old(self).func_index
                    &&& final(self).sig == old(self).sig
                    &&& final(self).next_local == old(self).next_local
                    &&& final(self).return_mode == old(self).return_mode
                })
            },
    {
        let op = match event {
            crate::codegen::Event::Internal(_) => {
                return Ok(());
            },
            crate::codegen::Event::Wasm(op) => op,
        };
        if self.control_depth == 0 {
            proof {
                assert(old(self).body@ + Seq::<LoweredOp>::empty() =~= old(self).body@);
            }
            return Ok(());
        }
        let lowered: LoweredOp = match op {
            WasmOp::GlobalGet(g) => LoweredOp::GetGlobal(make_global(module_info, g)?),
            WasmOp::GlobalSet(g) => LoweredOp::SetGlobal(make_global(module_info, g)?),
            WasmOp::I32Load { .. } | WasmOp::I64Load { .. } | WasmOp::F32Load { .. } | WasmOp::F64Load { .. } | WasmOp::V128Load { .. } | WasmOp::I32Load8S { .. } | WasmOp::I32Load8U { .. } | WasmOp::I32Load16S { .. } | WasmOp::I32Load16U { .. } | WasmOp::I64Load8S { .. } | WasmOp::I64Load8U { .. } | WasmOp::I64Load16S { .. } | WasmOp::I64Load16U { .. } | WasmOp::I64Load32S { .. } | WasmOp::I64Load32U { .. } => LoweredOp::Load {
                heap: make_heap(module_info, 0)?,
                op,
            },
            WasmOp::I32Store { .. } | WasmOp::I64Store { .. } | WasmOp::F32Store { .. } | WasmOp::F64Store { .. } | WasmOp::V128Store { .. } | WasmOp::I32Store8 { .. } | WasmOp::I32Store16 { .. } | WasmOp::I64Store8 { .. } | WasmOp::I64Store16 { .. } | WasmOp::I64Store32 { .. } => LoweredOp::Store {
                heap: make_heap(module_info, 0)?,
                op,
            },
            WasmOp::MemoryGrow(m) => LoweredOp::MemoryGrow {
                call: translate_memory_grow(module_info, m)?,
            },
            WasmOp::MemorySize(m) => LoweredOp::MemorySize {
                call: translate_memory_size(module_info, m)?,
            },
            WasmOp::Call(f) => LoweredOp::Call { plan: translate_call(module_info, f)? },
            WasmOp::CallIndirect { sig_index, table_index } => LoweredOp::CallIndirect {
                plan: translate_call_indirect(module_info, table_index, sig_index)?,
            },
            _ => LoweredOp::Plain(op),
        };
        match op {
            WasmOp::Block | WasmOp::Loop | WasmOp::If => {
                if self.control_depth == u32::MAX {
                    return Err(String::from_str("control nesting too deep"));
                }
                self.control_depth = self.control_depth + 1;
            },
            WasmOp::End => {
                if self.control_depth > 1 {
                    self.reachable = true;
                }
                self.control_depth = self.control_depth - 1;
            },
            WasmOp::Unreachable | WasmOp::Return | WasmOp::Br(_) => {
                self.reachable = false;
            },
            WasmOp::Else => {
                self.reachable = true;
            },
            _ => {},
        }
        self.body.push(lowered);
        proof {
            assert(self.body@ =~= old(self).body@ + seq![lowered]);
        }
        Ok(())
    }

    /// Closes the body: if the exit is still reachable a terminating
    /// return is emitted in the function's return mode; an unreachable
    /// exit — a body ending in an unconditional trap — gets none, and any
    /// residual operand stack is the backend's to discard.
    fn finalize(&mut self) -> (r: Result<(), String>)
        ensures
            r is Ok,
            old(self).reachable ==> final(self).body@ == old(self).body@ + seq![
                LoweredOp::EmitReturn {
                    fallthrough: old(self).return_mode is FallthroughReturn,
                },
            ],
            !old(self).reachable ==> final(self).body@ == old(self).body@,
            final(self).control_depth == old(self).control_depth,
            final(self).reachable == old(self).reachable,
            final(self).func_index == old(self).func_index,
            final(self).sig == old(self).sig,
            final(self).next_local == old(self).next_local,
            final(self).return_mode == old(self).return_mode,
    {
        if self.reachable {
            let fallthrough = match self.return_mode {
                ReturnMode::NormalReturns => false,
                ReturnMode::FallthroughReturn => true,
            };
            self.body.push(LoweredOp::EmitReturn { fallthrough });
        }
        Ok(())
    }
}

} // verus!
