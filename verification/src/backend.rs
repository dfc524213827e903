//! The backend boundary: which emitter compiles the module, what the
//! pipeline feeds it, and what it must hand back.
//!
//! The machine-code emitter itself is an external collaborator.  The
//! pipeline gives it lowered function bodies and receives, per function, a
//! byte vector of machine code, relocation records naming the symbols the
//! code refers to, and trap records mapping instruction offsets to trap
//! codes.  Laying the functions out contiguously, patching colocated
//! references relative, and building the module trap table from the
//! per-function records is the engine's own job.

use vstd::prelude::*;

use crate::trap::TrapCode;

verus! {

/// Identity of a machine-code emitter.
#[derive(Debug, Clone, Copy, PartialEq, Eq, Structural, Hash)]
pub enum Backend {
    /// The streaming code generator this crate drives.
    Cranelift,
    /// An LLVM-based emitter.
    LLVM,
    /// A single-pass emitter.
    Singlepass,
}

/// The wasm proposals the embedder enables.
#[derive(Debug, Clone, Copy, PartialEq, Eq, Structural)]
pub struct Features {
    /// Enable SIMD operators.
    pub simd: bool,
    /// Enable the threads proposal.
    pub threads: bool,
}

impl Default for Features {
    /// By default no optional proposal is enabled.
    fn default() -> (r: Self)
        ensures
            r == (Features { simd: false, threads: false }),
    {
        Features { simd: false, threads: false }
    }
}

/// Configuration the embedder hands the compiler.
#[derive(Debug, Clone, Copy, PartialEq, Eq, Structural)]
pub struct CompilerConfig {
    /// The wasm proposals to accept.
    pub features: Features,
    /// Insert an explicit stack-limit check in every function prologue.
    pub enforce_stack_check: bool,
    /// Record enough metadata to reconstruct wasm-level state at traps.
    pub track_state: bool,
}

impl Default for CompilerConfig {
    /// Default configuration: no optional proposal, no extra checks.
    fn default() -> (r: Self)
        ensures
            r == (CompilerConfig {
                features: Features { simd: false, threads: false },
                enforce_stack_check: false,
                track_state: false,
            }),
    {
        CompilerConfig {
            features: Features { simd: false, threads: false },
            enforce_stack_check: false,
            track_state: false,
        }
    }
}

/// Namespace tag of symbols naming canonical signature ids.
pub const SIG_NAMESPACE: u32 = 1;

/// Namespace tag of runtime helpers operating on local entities.
pub const LOCAL_NAMESPACE: u32 = 2;

/// Namespace tag of runtime helpers operating on imported entities.
pub const IMPORT_NAMESPACE: u32 = 3;

/// Name index of the grow helper for dynamic memories.
pub const DYNAMIC_MEM_GROW: u32 = 0;

/// Name index of the grow helper for static memories.
pub const STATIC_MEM_GROW: u32 = 1;

/// Name index of the grow helper for shared static memories.
pub const SHARED_STATIC_MEM_GROW: u32 = 2;

/// Name index of the size helper for dynamic memories.
pub const DYNAMIC_MEM_SIZE: u32 = 3;

/// Name index of the size helper for static memories.
pub const STATIC_MEM_SIZE: u32 = 4;

/// Name index of the size helper for shared static memories.
pub const SHARED_STATIC_MEM_SIZE: u32 = 5;

/// What a relocation site refers to.
#[derive(Debug, Clone, Copy, PartialEq, Eq, Structural, Hash)]
pub enum RelocationTarget {
    /// A locally defined function; patched relative, since local functions
    /// are laid out in one region (colocated).
    LocalFunc(u32),
    /// The canonical signature id the linker resolves for an
    /// undeduplicated, module-declared signature index.
    Sig(u32),
    /// A runtime helper, named by `(namespace, name index)`.
    RuntimeCall {
        /// The namespace tag of the helper.
        namespace: u32,
        /// The name index within the namespace.
        name_index: u32,
    },
}

/// One relocation record emitted for a function.
#[derive(Debug, Clone, Copy, PartialEq, Eq, Structural, Hash)]
pub struct Relocation {
    /// Byte offset of the patch site within the function's code.
    pub offset: u32,
    /// What the site refers to.
    pub target: RelocationTarget,
}

/// One trap record emitted for a function: the instruction at `offset`
/// traps with `code`.
#[derive(Debug, Clone, Copy, PartialEq, Eq, Structural, Hash)]
pub struct TrapSite {
    /// Byte offset of the trapping instruction within the function's code.
    pub offset: u32,
    /// The trap code attached to the instruction.
    pub code: TrapCode,
    /// The source location the instruction came from.
    pub srcloc: u32,
}

/// What the emitter returns for one function.
pub struct EmittedFunction {
    /// The function's machine code.
    pub bytes: Vec<u8>,
    /// The relocation records for sites inside `bytes`.
    pub relocations: Vec<Relocation>,
    /// The trap records for instructions inside `bytes`.
    pub traps: Vec<TrapSite>,
}

/// The persisted form of a compiled module: everything needed to rebuild a
/// behaviorally equivalent runnable module without recompiling.
pub struct Artifact {
    /// Which emitter produced the machine code.
    pub backend: Backend,
    /// The interned signature table.
    pub signatures: Vec<crate::types::FuncSig>,
    /// The signature index of every function, by combined index.
    pub func_assoc: Vec<crate::types::SigIndex>,
    /// The per-function emitter output: bytes, relocations, trap records.
    pub functions: Vec<EmittedFunction>,
    /// The module's custom sections, as one opaque blob.
    pub custom_sections: Vec<u8>,
}

} // verus!
