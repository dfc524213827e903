//! Tests of the signature registry: interning round trip and
//! deduplication.

use wasm_engine::sig_registry::SigRegistry;
use wasm_engine::types::{FuncSig, SigIndex, Type};

#[test]
fn intern_round_trip() {
    let mut registry = SigRegistry::new();
    let sig = FuncSig::new(vec![Type::I32, Type::I32], vec![Type::I32]);
    let index = registry.intern(sig.clone());
    assert_eq!(registry.signature_of(index), &sig);
}

#[test]
fn intern_deduplicates() {
    let mut registry = SigRegistry::new();
    let a = FuncSig::new(vec![Type::I32], vec![Type::I64]);
    let b = FuncSig::new(vec![Type::I32], vec![Type::I64]);
    let c = FuncSig::new(vec![Type::I64], vec![Type::I64]);

    let ia = registry.intern(a);
    let ib = registry.intern(b);
    let ic = registry.intern(c);

    // Equal signatures intern to the same index; distinct ones do not.
    assert_eq!(ia, ib);
    assert_ne!(ia, ic);
    assert_eq!(registry.len(), 2);
    assert_eq!(ia, SigIndex(0));
    assert_eq!(ic, SigIndex(1));

    // Index equality decides signature equality after interning.
    assert_eq!(registry.signature_of(ia), registry.signature_of(ib));
    assert_ne!(registry.signature_of(ia), registry.signature_of(ic));
    assert!(registry.contains(ic));
    assert!(!registry.contains(SigIndex(2)));
}
