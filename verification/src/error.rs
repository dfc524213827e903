//! The compile-time error taxonomy.
//!
//! Runtime traps travel separately, as `CallProtError` values produced by
//! the recovery barrier; everything here is fatal for the compile or load
//! it happens in.

use vstd::prelude::*;

verus! {

/// Why a compile failed.
#[derive(Debug, Clone, PartialEq, Eq, Hash)]
pub enum CompileError {
    /// The decoder rejected the binary.
    ValidationError {
        /// The decoder's message.
        msg: String,
    },
    /// A stage of the pipeline or the backend failed; the message carries
    /// the stage's error text.
    InternalError {
        /// The stage's error text.
        msg: String,
    },
}

/// The result of a compile.
pub type CompileResult<T> = Result<T, CompileError>;

} // verus!
