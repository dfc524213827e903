//! Linear-memory kinds and the guard policy behind their bounds checks.

use vstd::prelude::*;

verus! {

/// The full 32-bit address range a static linear memory reserves, in bytes.
///
/// With the whole index range reserved, a statically-sized memory never needs
/// a live bounds check: any 32-bit index lands inside the reservation.
pub const STATIC_HEAP_BOUND: u64 = 0x1_0000_0000;

/// Guard region following a static memory, in bytes.
///
/// Sized so that every in-range 32-bit address plus any legal constant offset
/// still falls in unmapped-but-reserved space, letting the backend elide
/// explicit bounds checks and rely on the fault the guard pages raise.
pub const STATIC_GUARD_SIZE: u64 = 0x8000_0000;

/// How a linear memory is sized and checked.
///
/// * `Dynamic` — no declared maximum: the memory may move when it grows, and
///   generated code checks accesses against a live bound word.
/// * `Static` — a declared maximum: the reservation covers the whole index
///   range and out-of-bounds accesses trap on guard pages.
/// * `SharedStatic` — a static memory that may be shared between threads.
#[derive(Debug, Clone, Copy, PartialEq, Eq, Structural, Hash)]
pub enum MemoryType {
    /// A memory that grows by remapping; bounds-checked in code.
    Dynamic,
    /// A memory with a static reservation; guard pages trap overruns.
    Static,
    /// A static memory that may be shared between threads.
    SharedStatic,
}

impl MemoryType {
    /// The statically-known bound used by the heap declaration, if any.
    pub open spec fn spec_bounds(&self) -> Option<u64> {
        match self {
            MemoryType::Dynamic => None,
            MemoryType::Static => Some(STATIC_HEAP_BOUND),
            MemoryType::SharedStatic => Some(STATIC_HEAP_BOUND),
        }
    }

    #[verifier::when_used_as_spec(spec_bounds)]
    pub fn bounds(&self) -> (r: Option<u64>)
        ensures
            r == self.spec_bounds(),
    {
        match self {
            MemoryType::Dynamic => None,
            MemoryType::Static => Some(STATIC_HEAP_BOUND),
            MemoryType::SharedStatic => Some(STATIC_HEAP_BOUND),
        }
    }

    /// The size of the unmapped guard region that follows the memory.
    pub open spec fn spec_guard_size(&self) -> u64 {
        match self {
            MemoryType::Dynamic => 0,
            MemoryType::Static => STATIC_GUARD_SIZE,
            MemoryType::SharedStatic => STATIC_GUARD_SIZE,
        }
    }

    #[verifier::when_used_as_spec(spec_guard_size)]
    pub fn guard_size(&self) -> (r: u64)
        ensures
            r == self.spec_guard_size(),
    {
        match self {
            MemoryType::Dynamic => 0,
            MemoryType::Static => STATIC_GUARD_SIZE,
            MemoryType::SharedStatic => STATIC_GUARD_SIZE,
        }
    }
}

} // verus!
