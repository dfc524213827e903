//! The immutable description of a parsed module.
//!
//! `ModuleInfo` is what the decoder hands the compilation pipeline: the
//! signature table, the function-to-signature association, and the
//! descriptors of every imported and locally defined memory, table and
//! global.  Combined index spaces put imported entities in the low range, so
//! the lengths of the `imported_*` tables below are what every index
//! projection compares against.

use vstd::prelude::*;

use crate::types::{FuncSig, GlobalDescriptor, GlobalInit, MemoryDescriptor, SigIndex,
    TableDescriptor};

verus! {

/// The resolver name of an imported entity.
#[derive(Debug, Clone, PartialEq, Eq, Hash)]
pub struct ImportName {
    /// The namespace (module) the import is resolved in.
    pub namespace: String,
    /// The name within the namespace.
    pub name: String,
}

/// The immutable result of parsing a module.
pub struct ModuleInfo {
    /// Descriptors of locally defined memories, by local index.
    pub memories: Vec<MemoryDescriptor>,
    /// Descriptors of imported memories, by imported index.
    pub imported_memories: Vec<MemoryDescriptor>,
    /// Descriptors of locally defined tables, by local index.
    pub tables: Vec<TableDescriptor>,
    /// Descriptors of imported tables, by imported index.
    pub imported_tables: Vec<TableDescriptor>,
    /// Locally defined globals, by local index.
    pub globals: Vec<GlobalInit>,
    /// Descriptors of imported globals, by imported index.
    pub imported_globals: Vec<GlobalDescriptor>,
    /// Resolver names of imported functions, by imported index.
    pub imported_functions: Vec<ImportName>,
    /// The signature index of every function, by combined index.
    pub func_assoc: Vec<SigIndex>,
    /// The interned signature table, by signature index.
    pub signatures: Vec<FuncSig>,
    /// The module's custom sections, imported from the binary as one
    /// opaque blob; the cache record persists it.
    pub custom_sections: Vec<u8>,
}

impl ModuleInfo {
    /// Internal consistency of the parsed tables: every function has an
    /// in-range signature index, imported functions occupy the low range of
    /// the combined function index space, and every table is small enough to
    /// index with 32 bits.
    pub open spec fn wf(&self) -> bool {
        &&& forall|i: int|
            0 <= i < self.func_assoc@.len() ==> 0 <= #[trigger] self.func_assoc@[i].0
                < self.signatures@.len()
        &&& self.imported_functions@.len() <= self.func_assoc@.len()
        &&& self.func_assoc@.len() <= u32::MAX
        &&& self.signatures@.len() <= u32::MAX
        &&& self.memories@.len() <= u32::MAX
        &&& self.imported_memories@.len() <= u32::MAX
        &&& self.tables@.len() <= u32::MAX
        &&& self.imported_tables@.len() <= u32::MAX
        &&& self.globals@.len() <= u32::MAX
        &&& self.imported_globals@.len() <= u32::MAX
    }

    /// An empty module.
    pub fn empty() -> (r: Self)
        ensures
            r.wf(),
            r.memories@.len() == 0,
            r.imported_memories@.len() == 0,
            r.tables@.len() == 0,
            r.imported_tables@.len() == 0,
            r.globals@.len() == 0,
            r.imported_globals@.len() == 0,
            r.imported_functions@.len() == 0,
            r.func_assoc@.len() == 0,
            r.signatures@.len() == 0,
            r.custom_sections@.len() == 0,
    {
        ModuleInfo {
            memories: Vec::new(),
            imported_memories: Vec::new(),
            tables: Vec::new(),
            imported_tables: Vec::new(),
            globals: Vec::new(),
            imported_globals: Vec::new(),
            imported_functions: Vec::new(),
            func_assoc: Vec::new(),
            signatures: Vec::new(),
            custom_sections: Vec::new(),
        }
    }
}

/// One defined function as the decoder hands it over: its extra local
/// declarations and its operator stream.
pub struct DecodedFunction {
    /// The local declarations following the parameters: `(count, type)`
    /// runs, in declaration order.
    pub locals: Vec<(usize, crate::types::Type)>,
    /// The decoded operator stream of the body, ending with the function's
    /// own `end`.
    pub ops: Vec<crate::ops::WasmOp>,
}

/// A whole decoded module: the parsed tables and every defined function
/// body, in declaration order.
pub struct DecodedModule {
    /// The parsed module description.
    pub info: ModuleInfo,
    /// The defined functions, by local index.
    pub functions: Vec<DecodedFunction>,
}

/// A compiled module: the runnable artifact, its persistable cache record,
/// and the module description.
pub struct Module<RM> {
    /// The sealed runnable artifact.
    pub runnable: RM,
    /// The cache record that rehydrates an equivalent artifact.
    pub cache: crate::backend::Artifact,
    /// The module description.
    pub info: ModuleInfo,
}

} // verus!
