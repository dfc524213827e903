//! Canonical interning of function signatures.
//!
//! Signatures are kept in a dense, deduplicated table indexed by `SigIndex`.
//! Because the table never holds two equal signatures, comparing two interned
//! indices for equality decides signature equality — which is what lets the
//! indirect-call signature check compile down to one integer compare.

use vstd::prelude::*;

use crate::types::{FuncSig, SigIndex};

verus! {

/// Signature equality: the same parameter types and the same return types,
/// position by position.
pub open spec fn sig_eq(a: FuncSig, b: FuncSig) -> bool {
    a.params@ == b.params@ && a.rets@ == b.rets@
}

/// The dense, deduplicating signature table.
pub struct SigRegistry {
    /// The interned signatures, dense and deduplicated, by `SigIndex`.
    pub sig_table: Vec<FuncSig>,
}

impl SigRegistry {
    /// The interned signatures, by index.
    pub open spec fn sigs(&self) -> Seq<FuncSig> {
        self.sig_table@
    }

    /// Well-formedness: no two entries are equal signatures, and the table
    /// is indexable by a 32-bit `SigIndex`.
    pub open spec fn wf(&self) -> bool {
        &&& forall|i: int, j: int|
            0 <= i < j < self.sigs().len() ==> !sig_eq(
                #[trigger] self.sigs()[i],
                #[trigger] self.sigs()[j],
            )
        &&& self.sigs().len() <= u32::MAX
    }

    /// An empty registry.
    pub fn new() -> (r: Self)
        ensures
            r.wf(),
            r.sigs().len() == 0,
    {
        SigRegistry { sig_table: Vec::new() }
    }

    /// The number of interned signatures.
    pub fn len(&self) -> (r: usize)
        ensures
            r == self.sigs().len(),
    {
        self.sig_table.len()
    }

    /// Interns `sig`: returns the index of the entry equal to it, appending
    /// the signature only if no equal entry exists yet.
    pub fn intern(&mut self, sig: FuncSig) -> (r: SigIndex)
        requires
            old(self).wf(),
            old(self).sigs().len() < u32::MAX,
        ensures
            final(self).wf(),
            r.0 < final(self).sigs().len(),
            sig_eq(final(self).sigs()[r.0 as int], sig),
            old(self).sigs().is_prefix_of(final(self).sigs()),
            (exists|i: int|
                0 <= i < old(self).sigs().len() && sig_eq(#[trigger] old(self).sigs()[i], sig))
                ==> final(self).sigs() == old(self).sigs(),
            !(exists|i: int|
                0 <= i < old(self).sigs().len() && sig_eq(#[trigger] old(self).sigs()[i], sig))
                ==> final(self).sigs() == old(self).sigs().push(sig) && r.0
                == old(self).sigs().len(),
    {
        let n = self.sig_table.len();
        for i in 0..n
            invariant
                n == self.sigs().len(),
                self == old(self),
                self.wf(),
                forall|j: int| 0 <= j < i ==> !sig_eq(#[trigger] self.sigs()[j], sig),
        {
            if self.sig_table[i] == sig {
                return SigIndex(i as u32);
            }
        }
        self.sig_table.push(sig);
        proof {
            assert(old(self).sigs().is_prefix_of(self.sigs())) by {
                assert(old(self).sigs() =~= self.sigs().subrange(0, old(self).sigs().len() as int));
            }
        }
        SigIndex(n as u32)
    }

    /// The signature interned under `index`.
    pub fn signature_of(&self, index: SigIndex) -> (r: &FuncSig)
        requires
            index.0 < self.sigs().len(),
        ensures
            *r == self.sigs()[index.0 as int],
    {
        &self.sig_table[index.0 as usize]
    }

    /// Whether `index` is a valid interned index.
    pub fn contains(&self, index: SigIndex) -> (r: bool)
        ensures
            r == (index.0 < self.sigs().len()),
    {
        (index.0 as usize) < self.sig_table.len()
    }
}

/// After interning, signature equality and index equality coincide: two
/// entries of a well-formed registry are equal signatures exactly when their
/// indices are equal.  Together with `intern`'s contract — the entry at the
/// returned index equals the interned signature, and an equal signature is
/// never re-added — this is the signature round-trip law.
pub proof fn lemma_sig_index_identity(reg: SigRegistry, i: int, j: int)
    requires
        reg.wf(),
        0 <= i < reg.sigs().len(),
        0 <= j < reg.sigs().len(),
    ensures
        sig_eq(reg.sigs()[i], reg.sigs()[j]) <==> i == j,
{
    if i < j {
        assert(!sig_eq(reg.sigs()[i], reg.sigs()[j]));
    } else if j < i {
        assert(!sig_eq(reg.sigs()[j], reg.sigs()[i]));
    }
}

} // verus!
