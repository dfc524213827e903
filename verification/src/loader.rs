//! Loading a linked module for execution.
//!
//! A code region is allocated writable, filled with the linked bytes,
//! and then flipped to executable — never both at once.  Sizes are
//! rounded up to the page size.  The register-width marshalling of call
//! arguments lives here too: every value crosses the call-in boundary as
//! 64-bit words, a 128-bit value as two of them, low half first.  The
//! map-and-jump itself is host glue outside this crate's concern; it
//! consumes exactly what `prepare_call` hands it.

use vstd::prelude::*;

use crate::types::Value;

verus! {

/// The host page size sizes are rounded to.
pub const PAGE_SIZE: usize = 4096;

/// Rounds a size up to the next page boundary.
pub fn round_up_to_page_size(size: usize) -> (r: usize)
    requires
        size + 4095 <= usize::MAX,
    ensures
        r % 4096 == 0,
        size <= r < size + 4096,
{
    let x: u64 = size as u64;
    let y: u64 = x + 4095;
    let rounded: u64 = y & !4095u64;
    proof {
        assert((y & !4095u64) == (y / 4096) * 4096) by (bit_vector);
        assert(((y / 4096) * 4096) % 4096 == 0) by (nonlinear_arith);
        assert(rounded <= y && y < rounded + 4096);
    }
    rounded as usize
}

/// A code region of the engine: page-rounded, filled while writable,
/// executable afterwards.  The region's contents and its protection
/// state are modelled here; mapping them onto host pages is the
/// embedder's glue.
pub struct CodeMemory {
    /// The region's contents.
    pub data: Vec<u8>,
    /// Whether the region has been made executable; an executable region
    /// is immutable.
    pub executable: bool,
}

impl CodeMemory {
    /// Allocates a writable, zeroed region of at least `size` bytes,
    /// rounded up to the page size.
    pub fn new(size: usize) -> (r: CodeMemory)
        requires
            size + 4095 <= usize::MAX,
        ensures
            r.data@.len() % 4096 == 0,
            size <= r.data@.len() < size + 4096,
            forall|i: int| 0 <= i < r.data@.len() ==> r.data@[i] == 0,
            !r.executable,
    {
        let rounded = round_up_to_page_size(size);
        let data: Vec<u8> = vec![0u8; rounded];
        CodeMemory { data, executable: false }
    }

    /// Copies `src` into the start of the region, which must still be
    /// writable; the padding keeps its contents.
    pub fn fill_from(&mut self, src: &[u8])
        requires
            !old(self).executable,
            src@.len() <= old(self).data@.len(),
        ensures
            final(self).data@ == src@ + old(self).data@.skip(src@.len() as int),
            !final(self).executable,
    {
        let n = src.len();
        for i in 0..n
            invariant
                n == src@.len(),
                n <= self.data@.len(),
                self.data@.len() == old(self).data@.len(),
                self.executable == old(self).executable,
                forall|j: int| 0 <= j < i ==> #[trigger] self.data@[j] == src@[j],
                forall|j: int|
                    i <= j < self.data@.len() ==> #[trigger] self.data@[j] == old(self).data@[j],
        {
            let b = src[i];
            let slot = &mut self.data[i];
            *slot = b;
        }
        proof {
            assert(self.data@ =~= src@ + old(self).data@.skip(src@.len() as int));
        }
    }

    /// Flips the region to executable.  From here on its contents are
    /// immutable and may be jumped into.
    pub fn make_executable(&mut self)
        ensures
            final(self).data@ == old(self).data@,
            final(self).executable,
    {
        self.executable = true;
    }
}

/// Loads linked modules into local executable regions.
pub struct LocalLoader;

impl LocalLoader {
    /// Loads a linked module: allocates a region, copies the code in, and
    /// makes it executable.  Fails only on a code size at the address
    /// space limit.
    pub fn load(&self, rm: &crate::mcg::LinkedModule) -> (r: Result<LocalInstance, String>)
        ensures
            r is Ok <==> rm.code@.len() + 4095 <= usize::MAX,
            r matches Ok(inst) ==> {
                &&& inst.code.executable
                &&& inst.code.data@.len() >= rm.code@.len()
                &&& inst.code.data@.subrange(0, rm.code@.len() as int) == rm.code@
                &&& inst.offsets@ == rm.offsets@
            },
    {
        let len = rm.code.len();
        if len > usize::MAX - 4095 {
            return Err(String::from_str("code region too large"));
        }
        let mut code_mem = CodeMemory::new(len);
        code_mem.fill_from(rm.code.as_slice());
        code_mem.make_executable();
        let mut offsets: Vec<usize> = Vec::new();
        let n = rm.offsets.len();
        for i in 0..n
            invariant
                n == rm.offsets@.len(),
                offsets@ == rm.offsets@.take(i as int),
        {
            offsets.push(rm.offsets[i]);
            proof {
                assert(offsets@ =~= rm.offsets@.take(i as int + 1));
            }
        }
        proof {
            assert(rm.offsets@.take(n as int) =~= rm.offsets@);
            assert(code_mem.data@.subrange(0, rm.code@.len() as int) =~= rm.code@);
        }
        Ok(LocalInstance { code: code_mem, offsets })
    }
}

/// A loaded module instance: the executable region and the entry offset
/// of each function.
pub struct LocalInstance {
    /// The executable code region.
    pub code: CodeMemory,
    /// The entry offset of each function within the region.
    pub offsets: Vec<usize>,
}

/// The call arguments flattened to 64-bit transport words: a 128-bit
/// value contributes its low half then its high half; every other value
/// contributes its 128-bit ABI image truncated to one word.
pub open spec fn spec_marshal_args(args: Seq<Value>) -> Seq<u64>
    decreases args.len(),
{
    if args.len() == 0 {
        Seq::<u64>::empty()
    } else {
        spec_marshal_args(args.drop_last()) + (match args.last() {
            Value::V128(x) => seq![x as u64, (x >> 64) as u64],
            v => seq![v.spec_to_u128() as u64],
        })
    }
}

impl LocalInstance {
    /// Resolves a call: the entry offset of function `id` and the
    /// marshalled argument words.  At most five words fit the call-in
    /// ABI; an unknown function or a longer argument list is refused.
    pub fn prepare_call(&self, id: usize, args: &[Value]) -> (r: Result<(usize, Vec<u64>), String>)
        ensures
            r is Ok <==> id < self.offsets@.len() && spec_marshal_args(args@).len() <= 5,
            r matches Ok(p) ==> p.0 == self.offsets@[id as int] && p.1@ == spec_marshal_args(
                args@,
            ),
    {
        if id >= self.offsets.len() {
            return Err(String::from_str("unknown function"));
        }
        let mut words: Vec<u64> = Vec::new();
        let n = args.len();
        for i in 0..n
            invariant
                n == args@.len(),
                words@ == spec_marshal_args(args@.take(i as int)),
                words@.len() <= 2 * i,
        {
            let ghost prev = words@;
            match args[i] {
                Value::V128(x) => {
                    words.push(x as u64);
                    words.push((x >> 64) as u64);
                },
                v => {
                    words.push(v.to_u128() as u64);
                },
            }
            proof {
                assert(args@.take(i as int + 1).drop_last() =~= args@.take(i as int));
                assert(args@.take(i as int + 1).last() == args@[i as int]);
                assert(words@ =~= spec_marshal_args(args@.take(i as int + 1)));
            }
        }
        proof {
            assert(args@.take(n as int) =~= args@);
        }
        if words.len() > 5 {
            return Err(String::from_str("too many arguments"));
        }
        Ok((self.offsets[id], words))
    }
}

} // verus!
