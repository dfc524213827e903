//! The decoded-operator model the pipeline moves between the decoder, the
//! middleware chain and the function code generator.
//!
//! The decoder hands every operator over as a plain value.  Operators the
//! lowering treats specially — the ones that reach module state through the
//! per-instance context, and the control operators that drive reachability —
//! are modelled by name; every other operator travels as its opcode.

use vstd::prelude::*;

use crate::trap::TrapCode;

verus! {

/// One decoded WebAssembly operator.
#[derive(Debug, Clone, Copy, PartialEq, Eq, Structural, Hash)]
pub enum WasmOp {
    /// `unreachable`.
    Unreachable,
    /// `nop`.
    Nop,
    /// `block`.
    Block,
    /// `loop`.
    Loop,
    /// `if`.
    If,
    /// `else`.
    Else,
    /// `end`.
    End,
    /// `br depth`.
    Br(u32),
    /// `br_if depth`.
    BrIf(u32),
    /// `return`.
    Return,
    /// `call f`, with a combined function index.
    Call(u32),
    /// `call_indirect` with the undeduplicated signature index and the
    /// table index.
    CallIndirect {
        /// The module-declared (undeduplicated) signature index.
        sig_index: u32,
        /// The table searched for the callee.
        table_index: u32,
    },
    /// `drop`.
    Drop,
    /// `select`.
    Select,
    /// `local.get i`.
    LocalGet(u32),
    /// `local.set i`.
    LocalSet(u32),
    /// `local.tee i`.
    LocalTee(u32),
    /// `global.get g`, with a combined global index.
    GlobalGet(u32),
    /// `global.set g`, with a combined global index.
    GlobalSet(u32),
    /// `i32.load` with its constant offset.  Every load and store travels
    /// with its offset; width and sign extension are the backend
    /// translator's concern, while the heap plan and the out-of-bounds
    /// trap record are the same for all of them.
    I32Load {
        /// The constant offset added to the address operand.
        offset: u32,
    },
    /// `i64.load` with its constant offset.
    I64Load {
        /// The constant offset added to the address operand.
        offset: u32,
    },
    /// `i32.store` with its constant offset.
    I32Store {
        /// The constant offset added to the address operand.
        offset: u32,
    },
    /// `i64.store` with its constant offset.
    I64Store {
        /// The constant offset added to the address operand.
        offset: u32,
    },
    /// `f32.load` with its constant offset.
    F32Load {
        /// The constant offset added to the address operand.
        offset: u32,
    },
    /// `f64.load` with its constant offset.
    F64Load {
        /// The constant offset added to the address operand.
        offset: u32,
    },
    /// `v128.load` with its constant offset.
    V128Load {
        /// The constant offset added to the address operand.
        offset: u32,
    },
    /// `i32.load8_s` with its constant offset.
    I32Load8S {
        /// The constant offset added to the address operand.
        offset: u32,
    },
    /// `i32.load8_u` with its constant offset.
    I32Load8U {
        /// The constant offset added to the address operand.
        offset: u32,
    },
    /// `i32.load16_s` with its constant offset.
    I32Load16S {
        /// The constant offset added to the address operand.
        offset: u32,
    },
    /// `i32.load16_u` with its constant offset.
    I32Load16U {
        /// The constant offset added to the address operand.
        offset: u32,
    },
    /// `i64.load8_s` with its constant offset.
    I64Load8S {
        /// The constant offset added to the address operand.
        offset: u32,
    },
    /// `i64.load8_u` with its constant offset.
    I64Load8U {
        /// The constant offset added to the address operand.
        offset: u32,
    },
    /// `i64.load16_s` with its constant offset.
    I64Load16S {
        /// The constant offset added to the address operand.
        offset: u32,
    },
    /// `i64.load16_u` with its constant offset.
    I64Load16U {
        /// The constant offset added to the address operand.
        offset: u32,
    },
    /// `i64.load32_s` with its constant offset.
    I64Load32S {
        /// The constant offset added to the address operand.
        offset: u32,
    },
    /// `i64.load32_u` with its constant offset.
    I64Load32U {
        /// The constant offset added to the address operand.
        offset: u32,
    },
    /// `f32.store` with its constant offset.
    F32Store {
        /// The constant offset added to the address operand.
        offset: u32,
    },
    /// `f64.store` with its constant offset.
    F64Store {
        /// The constant offset added to the address operand.
        offset: u32,
    },
    /// `v128.store` with its constant offset.
    V128Store {
        /// The constant offset added to the address operand.
        offset: u32,
    },
    /// `i32.store8` with its constant offset.
    I32Store8 {
        /// The constant offset added to the address operand.
        offset: u32,
    },
    /// `i32.store16` with its constant offset.
    I32Store16 {
        /// The constant offset added to the address operand.
        offset: u32,
    },
    /// `i64.store8` with its constant offset.
    I64Store8 {
        /// The constant offset added to the address operand.
        offset: u32,
    },
    /// `i64.store16` with its constant offset.
    I64Store16 {
        /// The constant offset added to the address operand.
        offset: u32,
    },
    /// `i64.store32` with its constant offset.
    I64Store32 {
        /// The constant offset added to the address operand.
        offset: u32,
    },
    /// `memory.size m`, with a combined memory index.
    MemorySize(u32),
    /// `memory.grow m`, with a combined memory index.
    MemoryGrow(u32),
    /// `i32.const c`.
    I32Const(i32),
    /// `i64.const c`.
    I64Const(i64),
    /// `i32.add`.
    I32Add,
    /// `i32.sub`.
    I32Sub,
    /// `i32.mul`.
    I32Mul,
    /// `i32.div_s`.
    I32DivS,
    /// `i32.div_u`.
    I32DivU,
    /// `i32.rem_s`.
    I32RemS,
    /// `i32.rem_u`.
    I32RemU,
    /// Any other operator, carried by its opcode.
    Other(u32),
}

impl WasmOp {
    /// The trap code the backend attaches to this operator's lowering, if
    /// its translation contains a trapping instruction.  Indirect calls are
    /// not listed here: their two traps are explicit in the call plan.
    pub open spec fn spec_trap_code(&self) -> Option<TrapCode> {
        match self {
            WasmOp::Unreachable => Some(TrapCode::UnreachableCodeReached),
            WasmOp::I32DivS => Some(TrapCode::IntegerDivisionByZero),
            WasmOp::I32DivU => Some(TrapCode::IntegerDivisionByZero),
            WasmOp::I32RemS => Some(TrapCode::IntegerDivisionByZero),
            WasmOp::I32RemU => Some(TrapCode::IntegerDivisionByZero),
            WasmOp::I32Load { .. } | WasmOp::I64Load { .. } | WasmOp::F32Load { .. } | WasmOp::F64Load { .. } | WasmOp::V128Load { .. } | WasmOp::I32Load8S { .. } | WasmOp::I32Load8U { .. } | WasmOp::I32Load16S { .. } | WasmOp::I32Load16U { .. } | WasmOp::I64Load8S { .. } | WasmOp::I64Load8U { .. } | WasmOp::I64Load16S { .. } | WasmOp::I64Load16U { .. } | WasmOp::I64Load32S { .. } | WasmOp::I64Load32U { .. } => Some(TrapCode::HeapOutOfBounds),
            WasmOp::I32Store { .. } | WasmOp::I64Store { .. } | WasmOp::F32Store { .. } | WasmOp::F64Store { .. } | WasmOp::V128Store { .. } | WasmOp::I32Store8 { .. } | WasmOp::I32Store16 { .. } | WasmOp::I64Store8 { .. } | WasmOp::I64Store16 { .. } | WasmOp::I64Store32 { .. } => Some(TrapCode::HeapOutOfBounds),
            _ => None,
        }
    }

    #[verifier::when_used_as_spec(spec_trap_code)]
    pub fn trap_code(&self) -> (r: Option<TrapCode>)
        ensures
            r == self.spec_trap_code(),
    {
        match self {
            WasmOp::Unreachable => Some(TrapCode::UnreachableCodeReached),
            WasmOp::I32DivS => Some(TrapCode::IntegerDivisionByZero),
            WasmOp::I32DivU => Some(TrapCode::IntegerDivisionByZero),
            WasmOp::I32RemS => Some(TrapCode::IntegerDivisionByZero),
            WasmOp::I32RemU => Some(TrapCode::IntegerDivisionByZero),
            WasmOp::I32Load { .. } | WasmOp::I64Load { .. } | WasmOp::F32Load { .. } | WasmOp::F64Load { .. } | WasmOp::V128Load { .. } | WasmOp::I32Load8S { .. } | WasmOp::I32Load8U { .. } | WasmOp::I32Load16S { .. } | WasmOp::I32Load16U { .. } | WasmOp::I64Load8S { .. } | WasmOp::I64Load8U { .. } | WasmOp::I64Load16S { .. } | WasmOp::I64Load16U { .. } | WasmOp::I64Load32S { .. } | WasmOp::I64Load32U { .. } => Some(TrapCode::HeapOutOfBounds),
            WasmOp::I32Store { .. } | WasmOp::I64Store { .. } | WasmOp::F32Store { .. } | WasmOp::F64Store { .. } | WasmOp::V128Store { .. } | WasmOp::I32Store8 { .. } | WasmOp::I32Store16 { .. } | WasmOp::I64Store8 { .. } | WasmOp::I64Store16 { .. } | WasmOp::I64Store32 { .. } => Some(TrapCode::HeapOutOfBounds),
            _ => None,
        }
    }
}

} // verus!
