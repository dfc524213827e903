//! The module code generator: lifecycle, per-function encoding, and the
//! link step that seals a compiled module.
//!
//! The generator walks the lifecycle `Fresh → SignaturesFed → AssocFed →
//! Compiling` and refuses every out-of-order transition as a usage error.
//! At finalization each lowered body is encoded into fixed-width records
//! with its relocation and trap tables; the link step lays the functions
//! out contiguously, patches colocated call sites relative, and builds the
//! module-level trap table the recovery barrier classifies faults with.

use vstd::prelude::*;

use crate::backend::{Backend, EmittedFunction, Relocation, RelocationTarget, TrapSite};
use crate::codegen::ModuleCodeGenerator;
use crate::fcg::{IrFunctionCodeGenerator, LoweredOp};
use crate::trap::{TrapData, TrapEntry};

verus! {

/// The size of one encoded operator record, in bytes.  The record holds
/// the operator tag and, for sites the linker patches, a 4-byte field at
/// offset four.
pub const OP_RECORD_BYTES: usize = 8;

/// The most operators one encoded function may hold, so that every record
/// offset fits comfortably in 32 bits.
pub const MAX_FUNCTION_OPS: usize = 0x0FFF_FFFF;

/// The largest module code region the linker lays out: relative patches
/// are 32-bit displacements, so the region must stay below two gibibytes.
pub const MAX_CODE_SIZE: usize = 0x7FFF_FFFF;

/// The tag byte of one lowered operator's record.
pub open spec fn spec_op_tag(op: LoweredOp) -> u8 {
    match op {
        LoweredOp::Plain(_) => 1,
        LoweredOp::GetGlobal(_) => 2,
        LoweredOp::SetGlobal(_) => 3,
        LoweredOp::Load { .. } => 4,
        LoweredOp::Store { .. } => 5,
        LoweredOp::Call { .. } => 6,
        LoweredOp::CallIndirect { .. } => 7,
        LoweredOp::MemoryGrow { .. } => 8,
        LoweredOp::MemorySize { .. } => 9,
        LoweredOp::EmitReturn { .. } => 10,
    }
}

/// The eight-byte record of one lowered operator: the tag, then zeros;
/// bytes four to seven are the patch field of call records.
pub open spec fn spec_encode_op(op: LoweredOp) -> Seq<u8> {
    seq![spec_op_tag(op), 0, 0, 0, 0, 0, 0, 0]
}

/// The encoded bytes of a lowered body: one record per operator, in
/// order.
pub open spec fn spec_encode_body(body: Seq<LoweredOp>) -> Seq<u8>
    decreases body.len(),
{
    if body.len() == 0 {
        Seq::<u8>::empty()
    } else {
        spec_encode_body(body.drop_last()) + spec_encode_op(body.last())
    }
}

/// The relocation records one operator contributes, given its position:
/// local direct calls are patched relative by the linker; indirect calls
/// name the canonical signature id symbol; memory helpers name their
/// namespace-tagged runtime call.
pub open spec fn spec_op_relocs(op: LoweredOp, k: int) -> Seq<Relocation> {
    match op {
        LoweredOp::Call { plan: crate::fcg::DirectCallPlan::Local { local_index, .. } } => seq![
            Relocation {
                offset: (k * OP_RECORD_BYTES + 4) as u32,
                target: RelocationTarget::LocalFunc(local_index),
            },
        ],
        LoweredOp::CallIndirect { plan } => seq![
            Relocation {
                offset: (k * OP_RECORD_BYTES + 4) as u32,
                target: RelocationTarget::Sig(plan.sig_index),
            },
        ],
        LoweredOp::MemoryGrow { call } => seq![
            Relocation {
                offset: (k * OP_RECORD_BYTES + 4) as u32,
                target: RelocationTarget::RuntimeCall {
                    namespace: call.namespace,
                    name_index: call.name_index,
                },
            },
        ],
        LoweredOp::MemorySize { call } => seq![
            Relocation {
                offset: (k * OP_RECORD_BYTES + 4) as u32,
                target: RelocationTarget::RuntimeCall {
                    namespace: call.namespace,
                    name_index: call.name_index,
                },
            },
        ],
        _ => Seq::<Relocation>::empty(),
    }
}

/// The relocation records of a whole body, in operator order.
pub open spec fn spec_body_relocs(body: Seq<LoweredOp>) -> Seq<Relocation>
    decreases body.len(),
{
    if body.len() == 0 {
        Seq::<Relocation>::empty()
    } else {
        spec_body_relocs(body.drop_last()) + spec_op_relocs(body.last(), body.len() - 1)
    }
}

/// The trap records one operator contributes, given its position.  An
/// indirect call carries two: the null-callee test precedes the signature
/// check within the record.
pub open spec fn spec_op_traps(op: LoweredOp, k: int) -> Seq<TrapSite> {
    match op {
        LoweredOp::Plain(w) => match w.spec_trap_code() {
            Some(code) => seq![
                TrapSite { offset: (k * OP_RECORD_BYTES) as u32, code, srcloc: 0 },
            ],
            None => Seq::<TrapSite>::empty(),
        },
        LoweredOp::Load { op: w, .. } => match w.spec_trap_code() {
            Some(code) => seq![
                TrapSite { offset: (k * OP_RECORD_BYTES) as u32, code, srcloc: 0 },
            ],
            None => Seq::<TrapSite>::empty(),
        },
        LoweredOp::Store { op: w, .. } => match w.spec_trap_code() {
            Some(code) => seq![
                TrapSite { offset: (k * OP_RECORD_BYTES) as u32, code, srcloc: 0 },
            ],
            None => Seq::<TrapSite>::empty(),
        },
        LoweredOp::CallIndirect { plan } => seq![
            TrapSite { offset: (k * OP_RECORD_BYTES) as u32, code: plan.null_trap, srcloc: 0 },
            TrapSite {
                offset: (k * OP_RECORD_BYTES + 1) as u32,
                code: plan.mismatch_trap,
                srcloc: 0,
            },
        ],
        _ => Seq::<TrapSite>::empty(),
    }
}

/// The trap records of a whole body, in operator order.
pub open spec fn spec_body_traps(body: Seq<LoweredOp>) -> Seq<TrapSite>
    decreases body.len(),
{
    if body.len() == 0 {
        Seq::<TrapSite>::empty()
    } else {
        spec_body_traps(body.drop_last()) + spec_op_traps(body.last(), body.len() - 1)
    }
}

/// Encodes one lowered body into its machine records, relocations and
/// trap table.  Fails only on a body over the implementation limit.
pub fn encode_function(fcg: &IrFunctionCodeGenerator) -> (r: Result<EmittedFunction, String>)
    ensures
        r is Ok <==> fcg.body@.len() <= MAX_FUNCTION_OPS,
        r matches Ok(ef) ==> ef.bytes@ == spec_encode_body(fcg.body@) && ef.relocations@
            == spec_body_relocs(fcg.body@) && ef.traps@ == spec_body_traps(fcg.body@),
{
    let n = fcg.body.len();
    if n > MAX_FUNCTION_OPS {
        return Err(String::from_str("function body exceeds the implementation limit"));
    }
    let mut bytes: Vec<u8> = Vec::new();
    let mut relocations: Vec<Relocation> = Vec::new();
    let mut traps: Vec<TrapSite> = Vec::new();
    for k in 0..n
        invariant
            n == fcg.body@.len(),
            n <= MAX_FUNCTION_OPS,
            bytes@ == spec_encode_body(fcg.body@.take(k as int)),
            relocations@ == spec_body_relocs(fcg.body@.take(k as int)),
            traps@ == spec_body_traps(fcg.body@.take(k as int)),
    {
        let op = fcg.body[k];
        let ghost prev_bytes = bytes@;
        let ghost prev_relocs = relocations@;
        let ghost prev_traps = traps@;
        let tag: u8 = match op {
            LoweredOp::Plain(_) => 1,
            LoweredOp::GetGlobal(_) => 2,
            LoweredOp::SetGlobal(_) => 3,
            LoweredOp::Load { .. } => 4,
            LoweredOp::Store { .. } => 5,
            LoweredOp::Call { .. } => 6,
            LoweredOp::CallIndirect { .. } => 7,
            LoweredOp::MemoryGrow { .. } => 8,
            LoweredOp::MemorySize { .. } => 9,
            LoweredOp::EmitReturn { .. } => 10,
        };
        bytes.push(tag);
        bytes.push(0);
        bytes.push(0);
        bytes.push(0);
        bytes.push(0);
        bytes.push(0);
        bytes.push(0);
        bytes.push(0);
        match op {
            LoweredOp::Call { plan: crate::fcg::DirectCallPlan::Local { local_index, .. } } => {
                relocations.push(
                    Relocation {
                        offset: (k * OP_RECORD_BYTES + 4) as u32,
                        target: RelocationTarget::LocalFunc(local_index),
                    },
                );
            },
            LoweredOp::CallIndirect { plan } => {
                relocations.push(
                    Relocation {
                        offset: (k * OP_RECORD_BYTES + 4) as u32,
                        target: RelocationTarget::Sig(plan.sig_index),
                    },
                );
            },
            LoweredOp::MemoryGrow { call } => {
                relocations.push(
                    Relocation {
                        offset: (k * OP_RECORD_BYTES + 4) as u32,
                        target: RelocationTarget::RuntimeCall {
                            namespace: call.namespace,
                            name_index: call.name_index,
                        },
                    },
                );
            },
            LoweredOp::MemorySize { call } => {
                relocations.push(
                    Relocation {
                        offset: (k * OP_RECORD_BYTES + 4) as u32,
                        target: RelocationTarget::RuntimeCall {
                            namespace: call.namespace,
                            name_index: call.name_index,
                        },
                    },
                );
            },
            _ => {},
        }
        match op {
            LoweredOp::Plain(w) | LoweredOp::Load { op: w, .. } | LoweredOp::Store {
                op: w,
                ..
            } => {
                match w.trap_code() {
                    Some(code) => {
                        traps.push(
                            TrapSite { offset: (k * OP_RECORD_BYTES) as u32, code, srcloc: 0 },
                        );
                    },
                    None => {},
                }
            },
            LoweredOp::CallIndirect { plan } => {
                traps.push(
                    TrapSite {
                        offset: (k * OP_RECORD_BYTES) as u32,
                        code: plan.null_trap,
                        srcloc: 0,
                    },
                );
                traps.push(
                    TrapSite {
                        offset: (k * OP_RECORD_BYTES + 1) as u32,
                        code: plan.mismatch_trap,
                        srcloc: 0,
                    },
                );
            },
            _ => {},
        }
        proof {
            let taken = fcg.body@.take(k as int + 1);
            assert(taken.drop_last() =~= fcg.body@.take(k as int));
            assert(taken.last() == op);
            assert(bytes@ =~= prev_bytes + spec_encode_op(op));
            assert(relocations@ =~= prev_relocs + spec_op_relocs(op, k as int));
            assert(traps@ =~= prev_traps + spec_op_traps(op, k as int));
        }
    }
    proof {
        assert(fcg.body@.take(n as int) =~= fcg.body@);
    }
    Ok(EmittedFunction { bytes, relocations, traps })
}

/// The total code size of a function sequence, in bytes.
pub open spec fn spec_total_len(fns: Seq<EmittedFunction>) -> int
    decreases fns.len(),
{
    if fns.len() == 0 {
        0
    } else {
        spec_total_len(fns.drop_last()) + fns.last().bytes@.len()
    }
}

/// The code offset of function `k` in the contiguous layout: the total
/// size of everything laid out before it.
pub open spec fn spec_offset_of(fns: Seq<EmittedFunction>, k: int) -> int {
    spec_total_len(fns.take(k))
}

/// A 32-bit displacement as an unsigned value: negative displacements
/// wrap, two's complement.
pub open spec fn spec_wrap32(v: int) -> int {
    if v < 0 {
        v + 0x1_0000_0000
    } else {
        v
    }
}

/// The four little-endian bytes of a value in `[0, 2^32)`.
pub open spec fn spec_le4(v: int) -> Seq<u8> {
    seq![
        (v % 256) as u8,
        ((v / 256) % 256) as u8,
        ((v / 65536) % 256) as u8,
        ((v / 16777216) % 256) as u8,
    ]
}

/// `bytes` with the four little-endian bytes of `v` written at `pos`.
pub open spec fn spec_write4(bytes: Seq<u8>, pos: int, v: int) -> Seq<u8> {
    bytes.update(pos, spec_le4(v)[0]).update(pos + 1, spec_le4(v)[1]).update(
        pos + 2,
        spec_le4(v)[2],
    ).update(pos + 3, spec_le4(v)[3])
}

/// Whether one relocation can be applied: its patch field lies inside the
/// function and, for a colocated call, the target function exists.
pub open spec fn spec_reloc_ok(r: Relocation, bytes_len: int, fn_count: int) -> bool {
    &&& r.offset + 4 <= bytes_len
    &&& (r.target matches RelocationTarget::LocalFunc(j) ==> j < fn_count)
}

/// One relocation applied to a function's bytes.  A colocated call site
/// receives the displacement from the end of its patch field to the
/// target function's offset; other targets are resolved later, at
/// instantiation, and leave the bytes unchanged here.
pub open spec fn spec_apply_reloc(bytes: Seq<u8>, r: Relocation, base: int, offsets: Seq<usize>)
    -> Seq<u8> {
    match r.target {
        RelocationTarget::LocalFunc(j) => if r.offset + 4 <= bytes.len() && j < offsets.len() {
            spec_write4(
                bytes,
                r.offset as int,
                spec_wrap32(offsets[j as int] - (base + r.offset + 4)),
            )
        } else {
            bytes
        },
        _ => bytes,
    }
}

/// A function's bytes with all its relocations applied, in record order.
pub open spec fn spec_patch(bytes: Seq<u8>, relocs: Seq<Relocation>, base: int,
    offsets: Seq<usize>) -> Seq<u8>
    decreases relocs.len(),
{
    if relocs.len() == 0 {
        bytes
    } else {
        spec_apply_reloc(spec_patch(bytes, relocs.drop_last(), base, offsets), relocs.last(),
            base, offsets)
    }
}

/// Patching never changes a function's size.
pub proof fn lemma_patch_len(bytes: Seq<u8>, relocs: Seq<Relocation>, base: int,
    offsets: Seq<usize>)
    ensures
        spec_patch(bytes, relocs, base, offsets).len() == bytes.len(),
    decreases relocs.len(),
{
    if relocs.len() > 0 {
        lemma_patch_len(bytes, relocs.drop_last(), base, offsets);
        let p = spec_patch(bytes, relocs.drop_last(), base, offsets);
        let r = relocs.last();
        match r.target {
            RelocationTarget::LocalFunc(j) => {
                if r.offset + 4 <= p.len() && j < offsets.len() {
                    assert(spec_write4(
                        p,
                        r.offset as int,
                        spec_wrap32(offsets[j as int] - (base + r.offset + 4)),
                    ).len() == p.len());
                }
            },
            _ => {},
        }
    }
}

/// Writes one byte of a vector.
fn set_byte(v: &mut Vec<u8>, i: usize, b: u8)
    requires
        i < old(v)@.len(),
    ensures
        final(v)@ == old(v)@.update(i as int, b),
{
    let slot = &mut v[i];
    *slot = b;
}

/// Applies one function's relocations to its bytes: every colocated call
/// site is patched with the 32-bit displacement to its target.  Fails
/// when a patch field runs outside the function or a target does not
/// exist — a link error.
pub fn patch_function(bytes: &Vec<u8>, relocs: &Vec<Relocation>, base: usize,
    offsets: &Vec<usize>) -> (r: Result<Vec<u8>, String>)
    requires
        base + bytes@.len() <= MAX_CODE_SIZE,
        forall|j: int| 0 <= j < offsets@.len() ==> #[trigger] offsets@[j] <= MAX_CODE_SIZE,
    ensures
        r is Ok <==> (forall|k: int|
            0 <= k < relocs@.len() ==> spec_reloc_ok(
                #[trigger] relocs@[k],
                bytes@.len() as int,
                offsets@.len() as int,
            )),
        r matches Ok(p) ==> p@ == spec_patch(bytes@, relocs@, base as int, offsets@),
{
    let mut patched: Vec<u8> = Vec::new();
    patched.extend_from_slice(bytes.as_slice());
    let n = relocs.len();
    for k in 0..n
        invariant
            n == relocs@.len(),
            base + bytes@.len() <= MAX_CODE_SIZE,
            forall|j: int| 0 <= j < offsets@.len() ==> #[trigger] offsets@[j] <= MAX_CODE_SIZE,
            patched@ == spec_patch(bytes@, relocs@.take(k as int), base as int, offsets@),
            patched@.len() == bytes@.len(),
            forall|l: int|
                0 <= l < k ==> spec_reloc_ok(
                    #[trigger] relocs@[l],
                    bytes@.len() as int,
                    offsets@.len() as int,
                ),
    {
        let r = relocs[k];
        let ghost prev = patched@;
        if r.offset as usize > bytes.len() || bytes.len() - (r.offset as usize) < 4 {
            return Err(String::from_str("relocation site outside the function"));
        }
        match r.target {
            RelocationTarget::LocalFunc(j) => {
                if (j as usize) >= offsets.len() {
                    return Err(String::from_str("relocation target not found"));
                }
                let target: usize = offsets[j as usize];
                let site_end: i64 = base as i64 + r.offset as i64 + 4;
                let rel: i64 = target as i64 - site_end;
                let rel_u: u32 = if rel < 0 {
                    (rel + 0x1_0000_0000i64) as u32
                } else {
                    rel as u32
                };
                let pos = r.offset as usize;
                set_byte(&mut patched, pos, (rel_u % 256) as u8);
                set_byte(&mut patched, pos + 1, ((rel_u / 256) % 256) as u8);
                set_byte(&mut patched, pos + 2, ((rel_u / 65536) % 256) as u8);
                set_byte(&mut patched, pos + 3, ((rel_u / 16777216) % 256) as u8);
                proof {
                    assert(patched@ =~= spec_apply_reloc(prev, r, base as int, offsets@));
                }
            },
            _ => {
                proof {
                    assert(spec_apply_reloc(prev, r, base as int, offsets@) == prev);
                }
            },
        }
        proof {
            assert(relocs@.take(k as int + 1).drop_last() =~= relocs@.take(k as int));
            assert(relocs@.take(k as int + 1).last() == r);
        }
    }
    proof {
        assert(relocs@.take(n as int) =~= relocs@);
    }
    Ok(patched)
}

/// The module code region: every patched function, in order.
pub open spec fn spec_linked_code(fns: Seq<EmittedFunction>, offsets: Seq<usize>, k: int)
    -> Seq<u8>
    decreases k,
{
    if k <= 0 {
        Seq::<u8>::empty()
    } else {
        spec_linked_code(fns, offsets, k - 1) + spec_patch(
            fns[k - 1].bytes@,
            fns[k - 1].relocations@,
            spec_offset_of(fns, k - 1),
            offsets,
        )
    }
}

/// The trap entries one function contributes to the module trap table:
/// its own records, rebased to its code offset.
pub open spec fn spec_fn_trap_entries(traps: Seq<TrapSite>, base: int) -> Seq<TrapEntry>
    decreases traps.len(),
{
    if traps.len() == 0 {
        Seq::<TrapEntry>::empty()
    } else {
        spec_fn_trap_entries(traps.drop_last(), base).push(
            TrapEntry {
                offset: (base + traps.last().offset) as usize,
                data: TrapData { trapcode: traps.last().code, srcloc: traps.last().srcloc },
            },
        )
    }
}

/// The module trap table: every function's rebased trap records, in
/// function order.
pub open spec fn spec_module_traps(fns: Seq<EmittedFunction>, k: int) -> Seq<TrapEntry>
    decreases k,
{
    if k <= 0 {
        Seq::<TrapEntry>::empty()
    } else {
        spec_module_traps(fns, k - 1) + spec_fn_trap_entries(
            fns[k - 1].traps@,
            spec_offset_of(fns, k - 1),
        )
    }
}

/// A sealed, linked module: the contiguous code region, the offset of
/// each function in it, and the trap table the recovery barrier reads.
/// The region is immutable from here on; the loader maps it executable.
#[derive(Debug, PartialEq)]
pub struct LinkedModule {
    /// Which emitter produced the code.
    pub backend: Backend,
    /// The contiguous code region, colocated call sites already patched.
    pub code: Vec<u8>,
    /// The byte offset of each function within `code`, by local index.
    pub offsets: Vec<usize>,
    /// The module trap table, with offsets rebased to the code region.
    pub trap_table: Vec<TrapEntry>,
}

/// Lays the emitted functions out contiguously, patches every colocated
/// call site relative, and builds the module trap table.  Fails when the
/// region would exceed the 32-bit displacement range or a relocation
/// cannot be applied.
/// Whether a function set can be linked: the region fits the 32-bit
/// displacement range, every relocation's patch field lies inside its
/// function and names an existing target, and every trap record lies
/// strictly inside its function — a record at the very end would collide
/// with the next function's first byte in the module trap table.
pub open spec fn spec_linkable(fns: Seq<EmittedFunction>) -> bool {
    &&& spec_total_len(fns) <= MAX_CODE_SIZE
    &&& (forall|i: int, k: int|
        0 <= i < fns.len() && 0 <= k < (#[trigger] fns[i]).relocations@.len() ==> spec_reloc_ok(
            #[trigger] fns[i].relocations@[k],
            fns[i].bytes@.len() as int,
            fns.len() as int,
        ))
    &&& (forall|i: int, t: int|
        0 <= i < fns.len() && 0 <= t < (#[trigger] fns[i]).traps@.len()
            ==> #[trigger] fns[i].traps@[t].offset < fns[i].bytes@.len())
}

pub fn link(functions: &Vec<EmittedFunction>) -> (r: Result<LinkedModule, String>)
    ensures
        r is Ok <==> spec_linkable(functions@),
        r matches Ok(m) ==> {
            &&& spec_total_len(functions@) <= MAX_CODE_SIZE
            &&& m.offsets@.len() == functions@.len()
            &&& (forall|k: int|
                0 <= k < functions@.len() ==> #[trigger] m.offsets@[k] == spec_offset_of(
                    functions@,
                    k,
                ))
            &&& m.code@ == spec_linked_code(functions@, m.offsets@, functions@.len() as int)
            &&& m.code@.len() == spec_total_len(functions@)
            &&& m.trap_table@ == spec_module_traps(functions@, functions@.len() as int)
            &&& m.backend == Backend::Cranelift
        },
{
    let n = functions.len();
    let mut offsets: Vec<usize> = Vec::new();
    let mut total: usize = 0;
    for i in 0..n
        invariant
            n == functions@.len(),
            offsets@.len() == i,
            total == spec_total_len(functions@.take(i as int)),
            total <= MAX_CODE_SIZE,
            forall|k: int|
                0 <= k < i ==> #[trigger] offsets@[k] == spec_offset_of(functions@, k),
    {
        offsets.push(total);
        let len = functions[i].bytes.len();
        if len > MAX_CODE_SIZE - total {
            proof {
                assert(functions@.take(i as int + 1).drop_last() =~= functions@.take(i as int));
                assert(spec_total_len(functions@.take(i as int + 1)) > MAX_CODE_SIZE);
                lemma_total_len_monotonic(functions@, i as int + 1);
            }
            return Err(String::from_str("module code exceeds the implementation limit"));
        }
        total = total + len;
        proof {
            assert(functions@.take(i as int + 1).drop_last() =~= functions@.take(i as int));
            assert(functions@.take(i as int).take(i as int) =~= functions@.take(i as int));
            assert(spec_offset_of(functions@, i as int) == spec_total_len(
                functions@.take(i as int),
            ));
        }
    }
    proof {
        assert(functions@.take(n as int) =~= functions@);
    }
    let mut code: Vec<u8> = Vec::new();
    let mut trap_table: Vec<TrapEntry> = Vec::new();
    for i in 0..n
        invariant
            n == functions@.len(),
            offsets@.len() == n,
            total == spec_total_len(functions@),
            total <= MAX_CODE_SIZE,
            forall|k: int|
                0 <= k < n ==> #[trigger] offsets@[k] == spec_offset_of(functions@, k),
            code@ == spec_linked_code(functions@, offsets@, i as int),
            code@.len() == spec_total_len(functions@.take(i as int)),
            trap_table@ == spec_module_traps(functions@, i as int),
            forall|j: int, k: int|
                0 <= j < i && 0 <= k < (#[trigger] functions@[j]).relocations@.len()
                    ==> spec_reloc_ok(
                    #[trigger] functions@[j].relocations@[k],
                    functions@[j].bytes@.len() as int,
                    n as int,
                ),
            forall|j: int, t: int|
                0 <= j < i && 0 <= t < (#[trigger] functions@[j]).traps@.len()
                    ==> #[trigger] functions@[j].traps@[t].offset < functions@[j].bytes@.len(),
    {
        let base = offsets[i];
        proof {
            lemma_total_len_monotonic(functions@, i as int);
            assert(functions@.take(i as int + 1).drop_last() =~= functions@.take(i as int));
            assert(functions@.take(i as int + 1).last() == functions@[i as int]);
            assert(base + functions@[i as int].bytes@.len() == spec_total_len(
                functions@.take(i as int + 1),
            ));
            assert forall|j: int| 0 <= j < offsets@.len() implies #[trigger] offsets@[j]
                <= MAX_CODE_SIZE by {
                lemma_total_len_monotonic(functions@, j);
                assert(offsets@[j] == spec_total_len(functions@.take(j)));
            }
        }
        let patched = match patch_function(&functions[i].bytes, &functions[i].relocations, base,
            &offsets) {
            Ok(p) => p,
            Err(msg) => {
                return Err(msg);
            },
        };
        let ghost prev_code = code@;
        let mut patched_mut = patched;
        code.append(&mut patched_mut);
        proof {
            assert(code@ == prev_code + spec_patch(
                functions@[i as int].bytes@,
                functions@[i as int].relocations@,
                base as int,
                offsets@,
            ));
            lemma_patch_len(
                functions@[i as int].bytes@,
                functions@[i as int].relocations@,
                base as int,
                offsets@,
            );
            assert(functions@.take(i as int + 1).drop_last() =~= functions@.take(i as int));
        }
        let ghost prev_traps = trap_table@;
        let fn_traps_len = functions[i].traps.len();
        for t in 0..fn_traps_len
            invariant
                n == functions@.len(),
                i < n,
                fn_traps_len == functions@[i as int].traps@.len(),
                base == spec_offset_of(functions@, i as int),
                base + functions@[i as int].bytes@.len() <= MAX_CODE_SIZE,
                trap_table@ == prev_traps + spec_fn_trap_entries(
                    functions@[i as int].traps@.take(t as int),
                    base as int,
                ),
                forall|u: int|
                    0 <= u < t ==> #[trigger] functions@[i as int].traps@[u].offset < functions@[
                        i as int
                    ].bytes@.len(),
        {
            let site = functions[i].traps[t];
            if (site.offset as usize) >= functions[i].bytes.len() {
                return Err(String::from_str("trap record outside the function"));
            }
            trap_table.push(
                TrapEntry {
                    offset: base + site.offset as usize,
                    data: TrapData { trapcode: site.code, srcloc: site.srcloc },
                },
            );
            proof {
                let taken = functions@[i as int].traps@.take(t as int + 1);
                assert(taken.drop_last() =~= functions@[i as int].traps@.take(t as int));
                assert(taken.last() == site);
            }
        }
        proof {
            assert(functions@[i as int].traps@.take(fn_traps_len as int) =~= functions@[
                i as int
            ].traps@);
        }
    }
    proof {
        assert(functions@.take(n as int) =~= functions@);
    }
    Ok(LinkedModule { backend: Backend::Cranelift, code, offsets, trap_table })
}

/// Copies a byte blob.
fn copy_bytes(v: &Vec<u8>) -> (r: Vec<u8>)
    ensures
        r@ == v@,
{
    let mut out: Vec<u8> = Vec::new();
    let n = v.len();
    for i in 0..n
        invariant
            n == v@.len(),
            out@ == v@.take(i as int),
    {
        out.push(v[i]);
        proof {
            assert(out@ =~= v@.take(i as int + 1));
        }
    }
    proof {
        assert(v@.take(n as int) =~= v@);
    }
    out
}

/// The total encoded code size of a body sequence, in bytes.
pub open spec fn spec_encoded_total(fns: Seq<IrFunctionCodeGenerator>) -> int
    decreases fns.len(),
{
    if fns.len() == 0 {
        0
    } else {
        spec_encoded_total(fns.drop_last()) + spec_encode_body(fns.last().body@).len()
    }
}

/// Whether a set of lowered bodies can be finalized: every body is under
/// the per-function limit, the encoded region fits the 32-bit
/// displacement range, every relocation the encoding produces can be
/// applied, and every trap record falls strictly inside its function.
/// These are the implementation limits and unresolvable-symbol failures
/// finalization may report.
pub open spec fn spec_finalizable(fns: Seq<IrFunctionCodeGenerator>) -> bool {
    &&& (forall|i: int| 0 <= i < fns.len() ==> (#[trigger] fns[i]).body@.len() <= MAX_FUNCTION_OPS)
    &&& spec_encoded_total(fns) <= MAX_CODE_SIZE
    &&& (forall|i: int, k: int|
        #![trigger spec_body_relocs(fns[i].body@)[k]]
        0 <= i < fns.len() && 0 <= k < spec_body_relocs(fns[i].body@).len() ==> spec_reloc_ok(
            spec_body_relocs(fns[i].body@)[k],
            spec_encode_body(fns[i].body@).len() as int,
            fns.len() as int,
        ))
    &&& (forall|i: int, t: int|
        #![trigger spec_body_traps(fns[i].body@)[t]]
        0 <= i < fns.len() && 0 <= t < spec_body_traps(fns[i].body@).len() ==> spec_body_traps(
            fns[i].body@,
        )[t].offset < spec_encode_body(fns[i].body@).len())
}

/// The layout total of encoded functions equals the encoded total of
/// their bodies.
proof fn lemma_total_of_encodings(emitted: Seq<EmittedFunction>, fns: Seq<IrFunctionCodeGenerator>)
    requires
        emitted.len() == fns.len(),
        forall|i: int|
            0 <= i < fns.len() ==> (#[trigger] emitted[i]).bytes@ == spec_encode_body(
                fns[i].body@,
            ),
    ensures
        spec_total_len(emitted) == spec_encoded_total(fns),
    decreases fns.len(),
{
    if fns.len() > 0 {
        assert forall|i: int| 0 <= i < fns.drop_last().len() implies (#[trigger] emitted.drop_last()[i]).bytes@
            == spec_encode_body(fns.drop_last()[i].body@) by {
            assert(emitted.drop_last()[i] == emitted[i]);
            assert(fns.drop_last()[i] == fns[i]);
        }
        lemma_total_of_encodings(emitted.drop_last(), fns.drop_last());
        assert(emitted.last() == emitted[emitted.len() - 1]);
        assert(fns.last() == fns[fns.len() - 1]);
    }
}

/// Encoded functions are linkable exactly when their bodies are under the
/// layout, relocation and trap conditions of `spec_finalizable`.
proof fn lemma_linkable_of_encodings(emitted: Seq<EmittedFunction>,
    fns: Seq<IrFunctionCodeGenerator>)
    requires
        emitted.len() == fns.len(),
        forall|i: int|
            0 <= i < fns.len() ==> {
                &&& (#[trigger] emitted[i]).bytes@ == spec_encode_body(fns[i].body@)
                &&& emitted[i].relocations@ == spec_body_relocs(fns[i].body@)
                &&& emitted[i].traps@ == spec_body_traps(fns[i].body@)
            },
    ensures
        spec_linkable(emitted) <==> {
            &&& spec_encoded_total(fns) <= MAX_CODE_SIZE
            &&& (forall|i: int, k: int|
                #![trigger spec_body_relocs(fns[i].body@)[k]]
                0 <= i < fns.len() && 0 <= k < spec_body_relocs(fns[i].body@).len()
                    ==> spec_reloc_ok(
                    spec_body_relocs(fns[i].body@)[k],
                    spec_encode_body(fns[i].body@).len() as int,
                    fns.len() as int,
                ))
            &&& (forall|i: int, t: int|
                #![trigger spec_body_traps(fns[i].body@)[t]]
                0 <= i < fns.len() && 0 <= t < spec_body_traps(fns[i].body@).len()
                    ==> spec_body_traps(fns[i].body@)[t].offset < spec_encode_body(
                    fns[i].body@,
                ).len())
        },
{
    assert forall|i: int| 0 <= i < fns.len() implies (#[trigger] emitted[i]).bytes@
        == spec_encode_body(fns[i].body@) by {}
    lemma_total_of_encodings(emitted, fns);
    if spec_linkable(emitted) {
        assert forall|i: int, k: int|
            0 <= i < fns.len() && 0 <= k < spec_body_relocs(fns[i].body@).len()
                implies spec_reloc_ok(
                #[trigger] spec_body_relocs(fns[i].body@)[k],
                spec_encode_body(fns[i].body@).len() as int,
                fns.len() as int,
            ) by {
            assert(emitted[i].relocations@ == spec_body_relocs(fns[i].body@));
            assert(spec_reloc_ok(
                emitted[i].relocations@[k],
                emitted[i].bytes@.len() as int,
                emitted.len() as int,
            ));
        }
        assert forall|i: int, t: int|
            0 <= i < fns.len() && 0 <= t < spec_body_traps(fns[i].body@).len()
                implies #[trigger] spec_body_traps(fns[i].body@)[t].offset < spec_encode_body(
                fns[i].body@,
            ).len() by {
            assert(emitted[i].traps@ == spec_body_traps(fns[i].body@));
            assert(emitted[i].traps@[t].offset < emitted[i].bytes@.len());
        }
    }
    if spec_encoded_total(fns) <= MAX_CODE_SIZE && (forall|i: int, k: int|
        #![trigger spec_body_relocs(fns[i].body@)[k]]
        0 <= i < fns.len() && 0 <= k < spec_body_relocs(fns[i].body@).len() ==> spec_reloc_ok(
            spec_body_relocs(fns[i].body@)[k],
            spec_encode_body(fns[i].body@).len() as int,
            fns.len() as int,
        )) && (forall|i: int, t: int|
        #![trigger spec_body_traps(fns[i].body@)[t]]
        0 <= i < fns.len() && 0 <= t < spec_body_traps(fns[i].body@).len() ==> spec_body_traps(
            fns[i].body@,
        )[t].offset < spec_encode_body(fns[i].body@).len()) {
        assert forall|i: int, k: int|
            0 <= i < emitted.len() && 0 <= k < (#[trigger] emitted[i]).relocations@.len()
                implies spec_reloc_ok(
                #[trigger] emitted[i].relocations@[k],
                emitted[i].bytes@.len() as int,
                emitted.len() as int,
            ) by {
            assert(emitted[i].relocations@ == spec_body_relocs(fns[i].body@));
            assert(spec_reloc_ok(
                spec_body_relocs(fns[i].body@)[k],
                spec_encode_body(fns[i].body@).len() as int,
                fns.len() as int,
            ));
        }
        assert forall|i: int, t: int|
            0 <= i < emitted.len() && 0 <= t < (#[trigger] emitted[i]).traps@.len()
                implies #[trigger] emitted[i].traps@[t].offset < emitted[i].bytes@.len() by {
            assert(emitted[i].traps@ == spec_body_traps(fns[i].body@));
            assert(spec_body_traps(fns[i].body@)[t].offset < spec_encode_body(
                fns[i].body@,
            ).len());
        }
    }
}

/// The lifecycle of a module code generator.
#[derive(Debug, Clone, Copy, PartialEq, Eq, Structural)]
pub enum Phase {
    /// Freshly created; waiting for the signature table.
    Fresh,
    /// The signature table is installed; waiting for the association.
    SignaturesFed,
    /// The function-to-signature association is installed; imports may be
    /// recorded and compilation may begin.
    AssocFed,
    /// Function bodies are being compiled.
    Compiling,
}

/// Whether `ms` is the machine-ABI form of `sig`: the context pointer
/// prepended, every wasm parameter behind it, returns unchanged.
pub open spec fn spec_is_machine_sig_of(ms: crate::fcg::MachineSignature,
    sig: crate::types::FuncSig) -> bool {
    &&& ms.params@.len() == sig.params@.len() + 1
    &&& ms.params@[0] == (crate::fcg::AbiParam { ty: crate::types::Type::I64, vmctx: true })
    &&& forall|j: int|
        0 <= j < sig.params@.len() ==> ms.params@[j + 1] == (crate::fcg::AbiParam {
            ty: sig.params@[j],
            vmctx: false,
        })
    &&& ms.rets@ == sig.rets@
}

/// A sequence of all-normal parameters declares one local each.
proof fn lemma_count_normal_all_normal(s: Seq<crate::fcg::AbiParam>)
    requires
        forall|j: int| 0 <= j < s.len() ==> !(#[trigger] s[j]).vmctx,
    ensures
        crate::fcg::spec_count_normal(s) == s.len(),
    decreases s.len(),
{
    if s.len() > 0 {
        lemma_count_normal_all_normal(s.drop_last());
    }
}

/// Prepending one parameter adds one local exactly when it is a normal
/// parameter.
proof fn lemma_count_normal_prepend(p: crate::fcg::AbiParam, s: Seq<crate::fcg::AbiParam>)
    ensures
        crate::fcg::spec_count_normal(seq![p] + s) == crate::fcg::spec_count_normal(s) + (
        if p.vmctx {
            0int
        } else {
            1int
        }),
    decreases s.len(),
{
    if s.len() == 0 {
        assert((seq![p] + s).drop_last() =~= Seq::<crate::fcg::AbiParam>::empty());
        assert((seq![p] + s).last() == p);
        assert(crate::fcg::spec_count_normal(Seq::<crate::fcg::AbiParam>::empty()) == 0);
    } else {
        assert((seq![p] + s).drop_last() =~= seq![p] + s.drop_last());
        assert((seq![p] + s).last() == s.last());
        lemma_count_normal_prepend(p, s.drop_last());
        assert(crate::fcg::spec_count_normal(seq![p] + s) == crate::fcg::spec_count_normal(
            seq![p] + s.drop_last(),
        ) + (if s.last().vmctx {
            0int
        } else {
            1int
        }));
    }
}

/// The machine-ABI form of a signature declares exactly one local per
/// wasm parameter: the prepended context pointer is a special parameter
/// and gets none.
pub proof fn lemma_machine_sig_locals(ms: crate::fcg::MachineSignature,
    sig: crate::types::FuncSig)
    requires
        spec_is_machine_sig_of(ms, sig),
    ensures
        crate::fcg::spec_count_normal(ms.params@) == sig.params@.len(),
{
    let normals = ms.params@.skip(1);
    assert forall|j: int| 0 <= j < normals.len() implies !(#[trigger] normals[j]).vmctx by {
        assert(ms.params@[j + 1] == (crate::fcg::AbiParam {
            ty: sig.params@[j],
            vmctx: false,
        }));
        assert(normals[j] == ms.params@[j + 1]);
    }
    lemma_count_normal_all_normal(normals);
    assert(ms.params@ =~= seq![ms.params@[0]] + normals);
    lemma_count_normal_prepend(ms.params@[0], normals);
}

/// The module code generator of the streaming backend.
///
/// It walks `Fresh → SignaturesFed → AssocFed → Compiling`; every call
/// made out of order is refused as a usage error and leaves the generator
/// unchanged.
pub struct IrModuleCodeGenerator {
    /// Where in the lifecycle this generator stands.
    pub phase: Phase,
    /// The canonical signature table, as fed.
    pub signatures: Vec<crate::types::FuncSig>,
    /// The machine-ABI form of each signature, precomputed when the table
    /// is fed.
    pub machine_signatures: Vec<crate::fcg::MachineSignature>,
    /// The signature index of every function, by combined index.
    pub function_signatures: Vec<crate::types::SigIndex>,
    /// How many imported function slots were recorded.
    pub imported_functions: u32,
    /// The finished function bodies, in declaration order.
    pub functions: Vec<IrFunctionCodeGenerator>,
}

impl IrModuleCodeGenerator {
    /// The combined index the next defined function will get.
    pub open spec fn spec_next_index(&self) -> int {
        self.imported_functions + self.functions@.len()
    }

    /// The signature index of the function at a combined index.
    pub fn get_func_type(&self, module_info: &crate::module::ModuleInfo, func_index: u32) -> (r:
        Result<crate::types::SigIndex, String>)
        ensures
            r matches Ok(s) ==> func_index < module_info.func_assoc@.len() && s
                == module_info.func_assoc@[func_index as int],
            r is Err <==> func_index >= module_info.func_assoc@.len(),
    {
        if (func_index as usize) < module_info.func_assoc.len() {
            Ok(module_info.func_assoc[func_index as usize])
        } else {
            Err(String::from_str("function index out of range"))
        }
    }
}

impl crate::codegen::ModuleCodeGenerator for IrModuleCodeGenerator {
    type FCG = IrFunctionCodeGenerator;

    type RM = LinkedModule;

    open spec fn sig_table(&self) -> Seq<crate::types::FuncSig> {
        self.signatures@
    }

    open spec fn assoc_table(&self) -> Seq<crate::types::SigIndex> {
        self.function_signatures@
    }

    /// A fresh generator with nothing fed.
    fn new() -> (r: Self)
        ensures
            r.phase is Fresh,
            r.signatures@.len() == 0,
            r.machine_signatures@.len() == 0,
            r.function_signatures@.len() == 0,
            r.imported_functions == 0,
            r.functions@.len() == 0,
    {
        IrModuleCodeGenerator {
            phase: Phase::Fresh,
            signatures: Vec::new(),
            machine_signatures: Vec::new(),
            function_signatures: Vec::new(),
            imported_functions: 0,
            functions: Vec::new(),
        }
    }

    /// This generator fills the streaming (Cranelift) backend slot of the
    /// pipeline.
    fn backend_id() -> (r: Backend)
        ensures
            r == Backend::Cranelift,
    {
        Backend::Cranelift
    }

    /// The configuration carries nothing this backend acts on.
    fn feed_compiler_config(&mut self, config: &crate::backend::CompilerConfig) -> (r: Result<
        (),
        String,
    >)
        ensures
            r is Ok,
            *final(self) == *old(self),
    {
        Ok(())
    }

    /// Installs the canonical signature table and precomputes the
    /// machine-ABI form of every signature.  Only valid on a fresh
    /// generator.
    fn feed_signatures(&mut self, signatures: Vec<crate::types::FuncSig>) -> (r: Result<
        (),
        String,
    >)
        ensures
            r is Ok <==> old(self).phase is Fresh,
            r is Err ==> *final(self) == *old(self),
            r is Ok ==> {
                &&& final(self).phase is SignaturesFed
                &&& final(self).signatures@ == signatures@
                &&& final(self).machine_signatures@.len() == signatures@.len()
                &&& (forall|i: int|
                    0 <= i < signatures@.len() ==> spec_is_machine_sig_of(
                        #[trigger] final(self).machine_signatures@[i],
                        signatures@[i],
                    ))
                &&& final(self).function_signatures@ == old(self).function_signatures@
                &&& final(self).imported_functions == old(self).imported_functions
                &&& final(self).functions@ == old(self).functions@
            },
    {
        match self.phase {
            Phase::Fresh => {},
            _ => {
                return Err(String::from_str("signatures fed out of order"));
            },
        }
        let mut machine_signatures: Vec<crate::fcg::MachineSignature> = Vec::new();
        let n = signatures.len();
        for i in 0..n
            invariant
                n == signatures@.len(),
                machine_signatures@.len() == i,
                forall|k: int|
                    0 <= k < i ==> spec_is_machine_sig_of(
                        #[trigger] machine_signatures@[k],
                        signatures@[k],
                    ),
        {
            let plain = crate::fcg::convert_func_sig(&signatures[i]);
            let machine = crate::fcg::generate_signature(&plain);
            proof {
                assert forall|j: int| 0 <= j < signatures@[i as int].params@.len()
                    implies machine.params@[j + 1] == (crate::fcg::AbiParam {
                    ty: signatures@[i as int].params@[j],
                    vmctx: false,
                }) by {
                    assert(machine.params@[j + 1] == plain.params@[j]);
                }
            }
            machine_signatures.push(machine);
        }
        self.machine_signatures = machine_signatures;
        self.signatures = signatures;
        self.phase = Phase::SignaturesFed;
        Ok(())
    }

    /// Installs the function-to-signature association.  Only valid right
    /// after the signature table.
    fn feed_function_signatures(&mut self, assoc: Vec<crate::types::SigIndex>) -> (r: Result<
        (),
        String,
    >)
        ensures
            r is Ok <==> old(self).phase is SignaturesFed,
            r is Err ==> *final(self) == *old(self),
            r is Ok ==> {
                &&& final(self).phase is AssocFed
                &&& final(self).function_signatures@ == assoc@
                &&& final(self).signatures@ == old(self).signatures@
                &&& final(self).machine_signatures@ == old(self).machine_signatures@
                &&& final(self).imported_functions == old(self).imported_functions
                &&& final(self).functions@ == old(self).functions@
            },
    {
        match self.phase {
            Phase::SignaturesFed => {},
            _ => {
                return Err(String::from_str("function signatures fed out of order"));
            },
        }
        self.function_signatures = assoc;
        self.phase = Phase::AssocFed;
        Ok(())
    }

    /// Records one imported function slot, advancing the function index
    /// counter.  Imports precede every defined function.
    fn feed_import_function(&mut self) -> (r: Result<(), String>)
        ensures
            r is Ok <==> old(self).phase is AssocFed && old(self).imported_functions < u32::MAX,
            r is Err ==> *final(self) == *old(self),
            r is Ok ==> *final(self) == (IrModuleCodeGenerator {
                imported_functions: (old(self).imported_functions + 1) as u32,
                ..*old(self)
            }),
    {
        match self.phase {
            Phase::AssocFed => {},
            _ => {
                return Err(String::from_str("import recorded out of order"));
            },
        }
        if self.imported_functions == u32::MAX {
            return Err(String::from_str("too many imported functions"));
        }
        self.imported_functions = self.imported_functions + 1;
        Ok(())
    }

    /// This backend accepts every module.
    fn check_precondition(&mut self, module_info: &crate::module::ModuleInfo) -> (r: Result<
        (),
        String,
    >)
        ensures
            r is Ok,
            *final(self) == *old(self),
    {
        Ok(())
    }

    /// Allocates the generator for the next defined function: its machine
    /// signature is the ABI form of the function's signature, its entry is
    /// set up, and its parameters are declared as the first locals.
    fn next_function(&mut self, module_info: &crate::module::ModuleInfo) -> (r: Result<
        IrFunctionCodeGenerator,
        String,
    >)
        ensures
            r is Ok <==> {
                &&& (old(self).phase is AssocFed || old(self).phase is Compiling)
                &&& old(self).spec_next_index() < old(self).function_signatures@.len()
                &&& old(self).spec_next_index() <= u32::MAX
                &&& old(self).function_signatures@[old(self).spec_next_index()].0 < old(
                    self,
                ).machine_signatures@.len()
            },
            r is Err ==> *final(self) == *old(self),
            r matches Ok(fcg) ==> {
                let idx = old(self).spec_next_index();
                let ms = old(self).machine_signatures@[old(self).function_signatures@[idx].0 as int];
                &&& *final(self) == (IrModuleCodeGenerator { phase: Phase::Compiling, ..*old(self) })
                &&& fcg.func_index == idx
                &&& fcg.sig.params@ == ms.params@
                &&& fcg.sig.rets@ == ms.rets@
                &&& fcg.next_local == crate::fcg::spec_count_normal(ms.params@)
                &&& fcg.body@.len() == 0
                &&& fcg.control_depth == 1
                &&& fcg.reachable
                &&& fcg.return_mode is NormalReturns
            },
    {
        match self.phase {
            Phase::AssocFed | Phase::Compiling => {},
            _ => {
                return Err(String::from_str("function compiled out of order"));
            },
        }
        let imp = self.imported_functions as usize;
        let fs_len = self.function_signatures.len();
        if imp >= fs_len || self.functions.len() >= fs_len - imp {
            return Err(String::from_str("function index out of range"));
        }
        let idx: usize = imp + self.functions.len();
        if idx > u32::MAX as usize {
            return Err(String::from_str("function index out of range"));
        }
        let sig_index = self.function_signatures[idx];
        if (sig_index.0 as usize) >= self.machine_signatures.len() {
            return Err(String::from_str("signature index out of range"));
        }
        let sig = self.machine_signatures[sig_index.0 as usize].clone();
        let next_local = crate::fcg::declare_wasm_parameters(&sig);
        self.phase = Phase::Compiling;
        Ok(
            IrFunctionCodeGenerator {
                func_index: idx as u32,
                sig,
                next_local,
                body: Vec::new(),
                control_depth: 1,
                reachable: true,
                return_mode: crate::fcg::ReturnMode::NormalReturns,
            },
        )
    }

    /// Takes a finished function body back, in declaration order.
    fn submit_function(&mut self, fcg: IrFunctionCodeGenerator) -> (r: Result<(), String>)
        ensures
            r is Ok <==> old(self).phase is Compiling,
            r is Err ==> *final(self) == *old(self),
            r is Ok ==> {
                &&& final(self).functions@ == old(self).functions@.push(fcg)
                &&& final(self).phase == old(self).phase
                &&& final(self).signatures@ == old(self).signatures@
                &&& final(self).machine_signatures@ == old(self).machine_signatures@
                &&& final(self).function_signatures@ == old(self).function_signatures@
                &&& final(self).imported_functions == old(self).imported_functions
            },
    {
        match self.phase {
            Phase::Compiling => {},
            _ => {
                return Err(String::from_str("function submitted out of order"));
            },
        }
        self.functions.push(fcg);
        Ok(())
    }

    /// Seals the module: encodes every lowered body, lays the functions
    /// out contiguously, patches colocated call sites, builds the module
    /// trap table, and returns the runnable module with its cache record.
    /// Reloading the cache record reproduces the same linked module.
    /// Succeeds exactly when the bodies are finalizable: within the
    /// implementation limits and with every relocation resolvable.
    fn finalize(self, module_info: &crate::module::ModuleInfo) -> (r: Result<
        (LinkedModule, crate::backend::Artifact),
        String,
    >)
        ensures
            r is Ok <==> spec_finalizable(self.functions@),
            r matches Ok(out) ==> {
                &&& out.1.backend == Backend::Cranelift
                &&& out.1.signatures@ == self.signatures@
                &&& out.1.func_assoc@ == self.function_signatures@
                &&& out.1.custom_sections@ == module_info.custom_sections@
                &&& out.1.functions@.len() == self.functions@.len()
                &&& (forall|i: int|
                    0 <= i < self.functions@.len() ==> {
                        &&& (#[trigger] out.1.functions@[i]).bytes@ == spec_encode_body(
                            self.functions@[i].body@,
                        )
                        &&& out.1.functions@[i].relocations@ == spec_body_relocs(
                            self.functions@[i].body@,
                        )
                        &&& out.1.functions@[i].traps@ == spec_body_traps(
                            self.functions@[i].body@,
                        )
                    })
                &&& out.0.offsets@.len() == out.1.functions@.len()
                &&& (forall|k: int|
                    0 <= k < out.1.functions@.len() ==> #[trigger] out.0.offsets@[k]
                        == spec_offset_of(out.1.functions@, k))
                &&& out.0.code@ == spec_linked_code(
                    out.1.functions@,
                    out.0.offsets@,
                    out.1.functions@.len() as int,
                )
                &&& out.0.trap_table@ == spec_module_traps(
                    out.1.functions@,
                    out.1.functions@.len() as int,
                )
                &&& out.0.backend == Backend::Cranelift
            },
    {
        let mut emitted: Vec<EmittedFunction> = Vec::new();
        let n = self.functions.len();
        for i in 0..n
            invariant
                n == self.functions@.len(),
                emitted@.len() == i,
                forall|k: int|
                    0 <= k < i ==> (#[trigger] self.functions@[k]).body@.len()
                        <= MAX_FUNCTION_OPS,
                forall|k: int|
                    0 <= k < i ==> {
                        &&& (#[trigger] emitted@[k]).bytes@ == spec_encode_body(
                            self.functions@[k].body@,
                        )
                        &&& emitted@[k].relocations@ == spec_body_relocs(self.functions@[k].body@)
                        &&& emitted@[k].traps@ == spec_body_traps(self.functions@[k].body@)
                    },
        {
            let ef = match encode_function(&self.functions[i]) {
                Ok(ef) => ef,
                Err(msg) => {
                    return Err(msg);
                },
            };
            emitted.push(ef);
        }
        proof {
            lemma_linkable_of_encodings(emitted@, self.functions@);
        }
        let module = match link(&emitted) {
            Ok(m) => m,
            Err(msg) => {
                return Err(msg);
            },
        };
        Ok(
            (
                module,
                crate::backend::Artifact {
                    backend: Backend::Cranelift,
                    signatures: self.signatures,
                    func_assoc: self.function_signatures,
                    functions: emitted,
                    custom_sections: copy_bytes(&module_info.custom_sections),
                },
            ),
        )
    }

    /// Rehydrates the runnable module from a cache record by re-running
    /// the deterministic link step on the stored emitter output — no
    /// recompilation, and the result is the module `finalize` produced.
    /// Succeeds exactly when the stored functions are linkable.
    fn from_cache(cache: crate::backend::Artifact) -> (r: Result<LinkedModule, String>)
        ensures
            r is Ok <==> spec_linkable(cache.functions@),
            r matches Ok(m) ==> {
                &&& m.offsets@.len() == cache.functions@.len()
                &&& (forall|k: int|
                    0 <= k < cache.functions@.len() ==> #[trigger] m.offsets@[k] == spec_offset_of(
                        cache.functions@,
                        k,
                    ))
                &&& m.code@ == spec_linked_code(
                    cache.functions@,
                    m.offsets@,
                    cache.functions@.len() as int,
                )
                &&& m.trap_table@ == spec_module_traps(
                    cache.functions@,
                    cache.functions@.len() as int,
                )
                &&& m.backend == Backend::Cranelift
            },
    {
        link(&cache.functions)
    }
}

impl<M: crate::codegen::FunctionMiddleware> crate::codegen::Compiler for crate::codegen::StreamingCompiler<
    IrModuleCodeGenerator,
    M,
> {
    type RM = LinkedModule;

    /// The streaming backend requires the complete validation pre-pass
    /// under the pipeline's decoder configuration.
    open spec fn accepts(wasm: Seq<u8>) -> bool {
        crate::wasm_validates(wasm, true, false, false, false, false, false)
    }

    /// A cache record reloads exactly when its stored functions link.
    open spec fn reload_ok(cache: crate::backend::Artifact) -> bool {
        spec_linkable(cache.functions@)
    }

    /// Runs the pipeline for the streaming backend: the backend requires
    /// the complete validation pre-pass, so a binary the decoder refuses
    /// yields a validation error before any generator work, and a compile
    /// only succeeds on a binary the decoder accepts.  Then the fixed
    /// feeding order of the decoder bridge runs, and the module is
    /// finalized; stage and backend errors are stringified at this
    /// boundary and surfaced as compilation errors.  On success the cache
    /// record carries the decoded module's tables and sections, and the
    /// runnable module is exactly the link of the cache record's
    /// functions — which is what reloading the record rebuilds.
    fn compile(&mut self, wasm: &[u8], module: &crate::module::DecodedModule,
        config: &crate::backend::CompilerConfig) -> (r: crate::error::CompileResult<
        (LinkedModule, crate::backend::Artifact),
    >)
        ensures
            !Self::accepts(wasm@) ==> *final(self) == *old(self),
            r matches Ok(out) ==> {
                &&& out.1.backend == Backend::Cranelift
                &&& out.1.signatures@.len() == module.info.signatures@.len()
                &&& (forall|i: int|
                    0 <= i < module.info.signatures@.len() ==> (
                    #[trigger] out.1.signatures@[i]).params@ == module.info.signatures@[i].params@
                        && out.1.signatures@[i].rets@ == module.info.signatures@[i].rets@)
                &&& out.1.func_assoc@ == module.info.func_assoc@
                &&& out.1.custom_sections@ == module.info.custom_sections@
                &&& spec_linkable(out.1.functions@)
                &&& out.0.offsets@.len() == out.1.functions@.len()
                &&& (forall|k: int|
                    0 <= k < out.1.functions@.len() ==> #[trigger] out.0.offsets@[k]
                        == spec_offset_of(out.1.functions@, k))
                &&& out.0.code@ == spec_linked_code(
                    out.1.functions@,
                    out.0.offsets@,
                    out.1.functions@.len() as int,
                )
                &&& out.0.trap_table@ == spec_module_traps(
                    out.1.functions@,
                    out.1.functions@.len() as int,
                )
                &&& out.0.backend == Backend::Cranelift
            },
    {
        if crate::codegen::requires_pre_validation(
            <IrModuleCodeGenerator as crate::codegen::ModuleCodeGenerator>::backend_id(),
        ) {
            match crate::codegen::validate(wasm) {
                Ok(()) => {},
                Err(e) => {
                    return Err(e);
                },
            }
        }
        let mut mcg = <IrModuleCodeGenerator as crate::codegen::ModuleCodeGenerator>::new();
        match mcg.feed_compiler_config(config) {
            Ok(()) => {},
            Err(msg) => {
                return Err(crate::error::CompileError::InternalError { msg });
            },
        }
        match crate::parse::read_module(module, &mut mcg, &mut self.chain) {
            Ok(()) => {},
            Err(e) => {
                return Err(e);
            },
        }
        let ghost fns = mcg.functions@;
        match mcg.finalize(&module.info) {
            Ok(out) => {
                proof {
                    lemma_linkable_of_encodings(out.1.functions@, fns);
                }
                Ok(out)
            },
            Err(msg) => Err(crate::error::CompileError::InternalError { msg }),
        }
    }

    /// Rehydrates through the backend's deterministic link step, without
    /// recompiling.
    fn from_cache(&self, cache: crate::backend::Artifact) -> Result<LinkedModule, String> {
        <IrModuleCodeGenerator as crate::codegen::ModuleCodeGenerator>::from_cache(cache)
    }
}

/// Prefix sums of function sizes only grow.
pub proof fn lemma_total_len_monotonic(fns: Seq<EmittedFunction>, k: int)
    requires
        0 <= k <= fns.len(),
    ensures
        spec_total_len(fns.take(k)) <= spec_total_len(fns),
        spec_total_len(fns.take(k)) + (if k < fns.len() {
            fns[k].bytes@.len() as int
        } else {
            0
        }) <= spec_total_len(fns),
    decreases fns.len() - k,
{
    if k < fns.len() {
        assert(fns.take(k + 1).drop_last() =~= fns.take(k));
        assert(fns.take(k + 1).last() == fns[k]);
        lemma_total_len_monotonic(fns, k + 1);
    } else {
        assert(fns.take(k) =~= fns);
    }
}

} // verus!
