//! Trap recovery: classifying hardware faults raised by generated code.
//!
//! The runtime runs generated code inside a protected scope.  When one of
//! the four synchronous CPU signals arrives, the handler performs a
//! non-local jump back to the scope, which then classifies the fault: the
//! faulting instruction pointer is looked up in the relocation table the
//! code generator emitted, the trap code found there is translated into a
//! typed exception, and the typed error is returned to the caller.  The
//! signal plumbing itself is host glue; every decision it takes — the
//! lookup, the translation, and the save/restore discipline that makes
//! nested protected scopes safe — lives here.

use vstd::prelude::*;

verus! {

/// A trap code attached by the code generator to a potentially-trapping
/// instruction.
#[derive(Debug, Clone, Copy, PartialEq, Eq, Structural, Hash)]
pub enum TrapCode {
    /// The call stack overflowed.
    StackOverflow,
    /// A linear-memory access was out of bounds.
    HeapOutOfBounds,
    /// A table access was out of bounds.
    TableOutOfBounds,
    /// An access was out of bounds.
    OutOfBounds,
    /// An indirect call hit a null table entry.
    IndirectCallToNull,
    /// An indirect call found a signature id other than the expected one.
    BadSignature,
    /// Integer arithmetic overflowed.
    IntegerOverflow,
    /// An integer division divided by zero.
    IntegerDivisionByZero,
    /// A float could not be converted to an integer.
    BadConversionToInteger,
    /// Code that validation proved unreachable was reached.
    UnreachableCodeReached,
    /// Execution was interrupted.
    Interrupt,
    /// A user-defined trap code.
    User(u16),
}

/// The typed error surfaced to the caller of a protected scope.
#[derive(Debug, Clone, Copy, PartialEq, Eq, Structural, Hash)]
pub enum ExceptionCode {
    /// Code that validation proved unreachable was reached.
    Unreachable,
    /// An indirect call signature check failed.
    IncorrectCallIndirectSignature,
    /// A linear-memory access was out of bounds.
    MemoryOutOfBounds,
    /// An indirect call index was out of table bounds or hit a null entry.
    CallIndirectOOB,
    /// Arithmetic trapped: overflow, division by zero, or a bad conversion.
    IllegalArithmetic,
}

/// The exception a trap code translates to, or `None` for a code the
/// translation table does not list.
pub open spec fn spec_exception_of_trap_code(code: TrapCode) -> Option<ExceptionCode> {
    match code {
        TrapCode::StackOverflow => Some(ExceptionCode::MemoryOutOfBounds),
        TrapCode::HeapOutOfBounds => Some(ExceptionCode::MemoryOutOfBounds),
        TrapCode::TableOutOfBounds => Some(ExceptionCode::CallIndirectOOB),
        TrapCode::OutOfBounds => Some(ExceptionCode::MemoryOutOfBounds),
        TrapCode::IndirectCallToNull => Some(ExceptionCode::CallIndirectOOB),
        TrapCode::BadSignature => Some(ExceptionCode::IncorrectCallIndirectSignature),
        TrapCode::IntegerOverflow => Some(ExceptionCode::IllegalArithmetic),
        TrapCode::IntegerDivisionByZero => Some(ExceptionCode::IllegalArithmetic),
        TrapCode::BadConversionToInteger => Some(ExceptionCode::IllegalArithmetic),
        TrapCode::UnreachableCodeReached => Some(ExceptionCode::Unreachable),
        TrapCode::Interrupt => None,
        TrapCode::User(_) => None,
    }
}

/// Translates a trap code found in the relocation table into the typed
/// exception handed to the caller.
#[verifier::when_used_as_spec(spec_exception_of_trap_code)]
pub fn exception_of_trap_code(code: TrapCode) -> (r: Option<ExceptionCode>)
    ensures
        r == spec_exception_of_trap_code(code),
{
    match code {
        TrapCode::StackOverflow => Some(ExceptionCode::MemoryOutOfBounds),
        TrapCode::HeapOutOfBounds => Some(ExceptionCode::MemoryOutOfBounds),
        TrapCode::TableOutOfBounds => Some(ExceptionCode::CallIndirectOOB),
        TrapCode::OutOfBounds => Some(ExceptionCode::MemoryOutOfBounds),
        TrapCode::IndirectCallToNull => Some(ExceptionCode::CallIndirectOOB),
        TrapCode::BadSignature => Some(ExceptionCode::IncorrectCallIndirectSignature),
        TrapCode::IntegerOverflow => Some(ExceptionCode::IllegalArithmetic),
        TrapCode::IntegerDivisionByZero => Some(ExceptionCode::IllegalArithmetic),
        TrapCode::BadConversionToInteger => Some(ExceptionCode::IllegalArithmetic),
        TrapCode::UnreachableCodeReached => Some(ExceptionCode::Unreachable),
        TrapCode::Interrupt => None,
        TrapCode::User(_) => None,
    }
}

/// The translation table is total on the ten listed trap codes — each maps
/// to exactly one exception — and only the unlisted codes fall through to
/// the "unknown trap code" error.
pub proof fn lemma_trap_mapping_total(code: TrapCode)
    ensures
        !(code is Interrupt || code is User) ==> spec_exception_of_trap_code(code) is Some,
        (code is Interrupt || code is User) ==> spec_exception_of_trap_code(code) is None,
{
}

/// One of the four synchronous CPU signals a protected scope recovers from.
#[derive(Debug, Clone, Copy, PartialEq, Eq, Structural, Hash)]
pub enum FaultSignal {
    /// An illegal-instruction fault; the backend's trap instructions raise
    /// this, so the trap code decides the exception.
    IllegalInstruction,
    /// A segmentation violation.
    SegmentationViolation,
    /// A bus error.
    BusError,
    /// A floating-point exception.
    FloatingPointException,
}

/// A trap record emitted by the code generator: the trap code of one
/// instruction and its source location.
#[derive(Debug, Clone, Copy, PartialEq, Eq, Structural, Hash)]
pub struct TrapData {
    /// The trap code the generator attached to the instruction.
    pub trapcode: TrapCode,
    /// The source location the instruction came from.
    pub srcloc: u32,
}

/// The error returned by a protected call.
#[derive(Debug, Clone, Copy, PartialEq, Eq, Structural, Hash)]
pub enum CallProtError {
    /// A typed trap requested through the one-shot early-trap slot.
    EarlyTrap(ExceptionCode),
    /// A fault whose instruction pointer matched the relocation table.
    Exception(ExceptionCode),
    /// The relocation table matched, but the trap code is not in the
    /// translation table.
    UnknownTrapCode,
    /// A fault at an instruction pointer the relocation table does not know.
    UnknownTrap {
        /// The faulting address.
        faulting_addr: usize,
        /// The signal that was caught.
        signal: FaultSignal,
    },
}

/// Classifies a caught fault, exactly as the protected scope does on the
/// recovery path:
///
/// 1. a pending early-trap entry wins over the signal-derived class;
/// 2. a relocation-table hit is translated: illegal-instruction faults go
///    through the trap-code table (an unlisted code is an unknown trap
///    code), memory signals mean out-of-bounds, and a floating-point
///    exception means illegal arithmetic;
/// 3. with no relocation match the trap is unknown and reported with its
///    faulting address.
pub fn classify_trap(
    signal: FaultSignal,
    faulting_addr: usize,
    lookup: Option<TrapData>,
    early: Option<ExceptionCode>,
) -> (r: CallProtError)
    ensures
        r == spec_classify_trap(signal, faulting_addr, lookup, early),
{
    match early {
        Some(code) => CallProtError::EarlyTrap(code),
        None => match lookup {
            Some(data) => match signal {
                FaultSignal::IllegalInstruction => match exception_of_trap_code(data.trapcode) {
                    Some(code) => CallProtError::Exception(code),
                    None => CallProtError::UnknownTrapCode,
                },
                FaultSignal::SegmentationViolation | FaultSignal::BusError => {
                    CallProtError::Exception(ExceptionCode::MemoryOutOfBounds)
                },
                FaultSignal::FloatingPointException => {
                    CallProtError::Exception(ExceptionCode::IllegalArithmetic)
                },
            },
            None => CallProtError::UnknownTrap { faulting_addr, signal },
        },
    }
}

/// The classification decision, as a function of everything the recovery
/// path reads.
pub open spec fn spec_classify_trap(
    signal: FaultSignal,
    faulting_addr: usize,
    lookup: Option<TrapData>,
    early: Option<ExceptionCode>,
) -> CallProtError {
    match early {
        Some(code) => CallProtError::EarlyTrap(code),
        None => match lookup {
            Some(data) => match signal {
                FaultSignal::IllegalInstruction => match spec_exception_of_trap_code(
                    data.trapcode,
                ) {
                    Some(code) => CallProtError::Exception(code),
                    None => CallProtError::UnknownTrapCode,
                },
                FaultSignal::SegmentationViolation => CallProtError::Exception(
                    ExceptionCode::MemoryOutOfBounds,
                ),
                FaultSignal::BusError => CallProtError::Exception(
                    ExceptionCode::MemoryOutOfBounds,
                ),
                FaultSignal::FloatingPointException => CallProtError::Exception(
                    ExceptionCode::IllegalArithmetic,
                ),
            },
            None => CallProtError::UnknownTrap { faulting_addr, signal },
        },
    }
}

/// One entry of the module's trap relocation table: the byte offset of a
/// potentially-trapping instruction within the code region, and its trap
/// record.
#[derive(Debug, Clone, Copy, PartialEq, Eq, Structural, Hash)]
pub struct TrapEntry {
    /// Byte offset of the instruction within the code region.
    pub offset: usize,
    /// The trap record the code generator attached there.
    pub data: TrapData,
}

/// The codegen-provided metadata a protected scope classifies faults with:
/// where the executable region lives and which instruction offsets carry
/// trap records.
pub struct HandlerData {
    /// Start address of the executable code region.
    pub code_base: usize,
    /// Size of the executable code region, in bytes.
    pub code_size: usize,
    /// The trap records, one per potentially-trapping instruction.
    pub trap_table: Vec<TrapEntry>,
}

impl HandlerData {
    /// Well-formedness: the region does not wrap the address space, every
    /// recorded offset lies inside it, and no offset is recorded twice.
    pub open spec fn wf(&self) -> bool {
        &&& self.code_base + self.code_size <= usize::MAX
        &&& forall|k: int|
            0 <= k < self.trap_table@.len() ==> #[trigger] self.trap_table@[k].offset
                < self.code_size
        &&& forall|k: int, l: int|
            0 <= k < l < self.trap_table@.len() ==> (#[trigger] self.trap_table@[k]).offset != (
            #[trigger] self.trap_table@[l]).offset
    }

    /// Tests well-formedness at run time, so a caller outside the
    /// verifier can establish `lookup`'s precondition before classifying
    /// a fault.
    pub fn check_wf(&self) -> (r: bool)
        ensures
            r == self.wf(),
    {
        if self.code_size > usize::MAX - self.code_base {
            return false;
        }
        let n = self.trap_table.len();
        for k in 0..n
            invariant
                n == self.trap_table@.len(),
                self.code_base + self.code_size <= usize::MAX,
                forall|i: int|
                    0 <= i < k ==> #[trigger] self.trap_table@[i].offset < self.code_size,
                forall|i: int, j: int|
                    0 <= i < j < k ==> (#[trigger] self.trap_table@[i]).offset != (
                    #[trigger] self.trap_table@[j]).offset,
        {
            if self.trap_table[k].offset >= self.code_size {
                return false;
            }
            for j in 0..k
                invariant
                    n == self.trap_table@.len(),
                    k < n,
                    forall|i: int|
                        0 <= i < j ==> (#[trigger] self.trap_table@[i]).offset
                            != self.trap_table@[k as int].offset,
            {
                if self.trap_table[j].offset == self.trap_table[k].offset {
                    return false;
                }
            }
        }
        true
    }

    /// Whether an instruction pointer has a trap record: `ip` must fall in
    /// the code region and its offset must be recorded.  Returns that
    /// record, which well-formedness makes unique.
    pub fn lookup(&self, ip: usize) -> (r: Option<TrapData>)
        requires
            self.wf(),
        ensures
            r matches Some(data) ==> exists|k: int|
                0 <= k < self.trap_table@.len() && #[trigger] self.trap_table@[k] == (TrapEntry {
                    offset: (ip - self.code_base) as usize,
                    data,
                }) && self.code_base <= ip < self.code_base + self.code_size,
            r is None ==> forall|k: int|
                0 <= k < self.trap_table@.len() ==> !(self.code_base <= ip < self.code_base
                    + self.code_size && #[trigger] self.trap_table@[k].offset == ip
                    - self.code_base),
    {
        if ip < self.code_base {
            return None;
        }
        let offset = ip - self.code_base;
        if offset >= self.code_size {
            return None;
        }
        let n = self.trap_table.len();
        for k in 0..n
            invariant
                n == self.trap_table@.len(),
                self.code_base <= ip < self.code_base + self.code_size,
                offset == ip - self.code_base,
                forall|l: int| 0 <= l < k ==> #[trigger] self.trap_table@[l].offset != offset,
            decreases n - k,
        {
            if self.trap_table[k].offset == offset {
                return Some(self.trap_table[k].data);
            }
        }
        None
    }
}

/// The published jump-buffer slot of one thread.
///
/// A protected scope publishes its own buffer here for the signal handler
/// to jump to; zero means no scope is active and a fault must abort the
/// process.
#[derive(Debug, Clone, Copy, PartialEq, Eq, Structural)]
pub struct BarrierSlot {
    /// The currently published jump buffer, or zero.
    pub current: u64,
}

/// What a protected scope holds on its own stack while it runs: the buffer
/// it published and the previously published one, to restore on every exit
/// path.
#[derive(Debug, Clone, Copy, PartialEq, Eq, Structural)]
pub struct ScopeGuard {
    /// The buffer this scope published.
    pub published: u64,
    /// The buffer that was published when this scope was entered.
    pub saved: u64,
}

/// Entering a protected scope: the new buffer is published and the previous
/// one saved.
pub open spec fn spec_enter_scope(current: u64, buf: u64) -> (BarrierSlot, ScopeGuard) {
    (BarrierSlot { current: buf }, ScopeGuard { published: buf, saved: current })
}

/// Leaving a protected scope: the saved buffer is published again.
pub open spec fn spec_exit_scope(guard: ScopeGuard) -> BarrierSlot {
    BarrierSlot { current: guard.saved }
}

/// Publishes `buf` for the duration of a protected scope, saving whatever
/// was published before.
pub fn enter_scope(slot: &mut BarrierSlot, buf: u64) -> (guard: ScopeGuard)
    ensures
        (*final(slot), guard) == spec_enter_scope(old(slot).current, buf),
{
    let guard = ScopeGuard { published: buf, saved: slot.current };
    slot.current = buf;
    guard
}

/// Restores the previously published buffer, on both the normal and the
/// fault exit path of a protected scope.
pub fn exit_scope(slot: &mut BarrierSlot, guard: ScopeGuard)
    ensures
        *final(slot) == spec_exit_scope(guard),
{
    slot.current = guard.saved;
}

/// Nested protected scopes leak nothing: however a scope is entered inside
/// another, leaving the inner scope republishes the outer scope's buffer,
/// and leaving the outer scope restores what was published before either
/// ran.
pub proof fn lemma_nested_scopes_restore(start: BarrierSlot, outer_buf: u64, inner_buf: u64)
    ensures
        ({
            let (after_outer, outer_guard) = spec_enter_scope(start.current, outer_buf);
            let (after_inner, inner_guard) = spec_enter_scope(after_outer.current, inner_buf);
            let inner_done = spec_exit_scope(inner_guard);
            let outer_done = spec_exit_scope(outer_guard);
            inner_done.current == outer_buf && outer_done == start
        }),
{
}

/// The one-shot slot through which a host callback requests a typed trap
/// without raising a signal.
#[derive(Debug, Clone, Copy, PartialEq, Eq, Structural)]
pub struct EarlyTrapSlot {
    /// The pending typed trap, if one was requested.
    pub pending: Option<ExceptionCode>,
}

impl EarlyTrapSlot {
    /// An empty slot.
    pub fn new() -> (r: Self)
        ensures
            r.pending is None,
    {
        EarlyTrapSlot { pending: None }
    }

    /// Requests a typed trap, replacing any pending one.
    pub fn set(&mut self, code: ExceptionCode)
        ensures
            final(self).pending == Some(code),
    {
        self.pending = Some(code);
    }

    /// Takes the pending trap, leaving the slot empty: each request is
    /// delivered at most once.
    pub fn take(&mut self) -> (r: Option<ExceptionCode>)
        ensures
            r == old(self).pending,
            final(self).pending is None,
    {
        let r = self.pending;
        self.pending = None;
        r
    }
}

} // verus!
