//! Units of linear-memory size.

use vstd::prelude::*;

verus! {

/// The size of one WebAssembly linear-memory page, in bytes.
pub const WASM_PAGE_SIZE: u64 = 65536;

/// A count of WebAssembly pages.
#[derive(Debug, Clone, Copy, PartialEq, Eq, Structural, Hash)]
pub struct Pages(pub u32);

impl Pages {
    /// This page count in bytes.
    pub open spec fn spec_bytes(&self) -> u64 {
        (self.0 * WASM_PAGE_SIZE) as u64
    }

    #[verifier::when_used_as_spec(spec_bytes)]
    pub fn bytes(&self) -> (r: u64)
        ensures
            r == self.0 as u64 * WASM_PAGE_SIZE,
    {
        self.0 as u64 * WASM_PAGE_SIZE
    }
}

} // verus!
