//! Core of a WebAssembly execution engine: the typed value domain and index
//! spaces, the canonical signature registry, the per-instance context layout
//! that generated code addresses, the streaming compilation pipeline with its
//! middleware chain, the module and function code generators that lower
//! operators into a backend-ready form, and the trap-recovery classification
//! that turns hardware faults raised by generated code into typed errors.

pub mod backend;
pub mod codegen;
pub mod error;
pub mod fcg;
pub mod loader;
pub mod mcg;
pub mod memory;
pub mod module;
pub mod ops;
pub mod parse;
pub mod sig_registry;
pub mod trap;
pub mod types;
pub mod units;
pub mod vm;

use vstd::prelude::*;

use crate::backend::Features;
use crate::codegen::{Compiler, ValidationConfig};
use crate::error::CompileResult;
use crate::module::{DecodedModule, Module};

verus! {

/// Whether a binary validates under the named proposal switches, in the
/// decoder's judgment.  The arguments are, in order: the binary, then the
/// switches for SIMD, threads, reference types, bulk memory, multiple
/// results, and imported mutable globals.
pub uninterp spec fn wasm_validates(
    bytes: Seq<u8>,
    simd: bool,
    threads: bool,
    reference_types: bool,
    bulk_memory: bool,
    multi_value: bool,
    mutable_global_imports: bool,
) -> bool;

/// Relies on wasmparser's `Validator::validate_all`: whether a binary
/// validates is a function of the bytes and the enabled proposals alone.
/// The six configured proposals are switched as asked; every proposal the
/// configuration does not name keeps the decoder's default.
#[verifier::external_body]
pub(crate) fn run_validator(bytes: &[u8], config: &ValidationConfig) -> (r: Result<(), String>)
    ensures
        r is Ok <==> wasm_validates(
            bytes@,
            config.simd,
            config.threads,
            config.reference_types,
            config.bulk_memory,
            config.multi_value,
            config.mutable_global_imports,
        ),
{
    let mut features = wasmparser::WasmFeatures::default();
    features.set(wasmparser::WasmFeatures::SIMD, config.simd);
    features.set(wasmparser::WasmFeatures::THREADS, config.threads);
    features.set(wasmparser::WasmFeatures::REFERENCE_TYPES, config.reference_types);
    features.set(wasmparser::WasmFeatures::BULK_MEMORY, config.bulk_memory);
    features.set(wasmparser::WasmFeatures::MULTI_VALUE, config.multi_value);
    features.set(wasmparser::WasmFeatures::MUTABLE_GLOBAL, config.mutable_global_imports);
    match wasmparser::Validator::new_with_features(features).validate_all(bytes) {
        Ok(_) => Ok(()),
        Err(e) => Err(e.message().to_string()),
    }
}

/// Performs validation as defined by the WebAssembly specification, with
/// no optional proposal enabled: `true` exactly when the binary
/// validates.
pub fn validate(wasm: &[u8]) -> (r: bool)
    ensures
        r == wasm_validates(wasm@, false, false, false, false, false, false),
{
    match validate_and_report_errors(wasm) {
        Ok(()) => true,
        Err(_) => false,
    }
}

/// The same as `validate`, but with the decoder's message on failure.
pub fn validate_and_report_errors(wasm: &[u8]) -> (r: Result<(), String>)
    ensures
        r is Ok <==> wasm_validates(wasm@, false, false, false, false, false, false),
{
    validate_and_report_errors_with_features(wasm, Features { simd: false, threads: false })
}

/// The same as `validate_and_report_errors`, but accepting the SIMD
/// proposal when the features ask for it.  The threads proposal stays
/// off.
pub fn validate_and_report_errors_with_features(wasm: &[u8], features: Features) -> (r: Result<
    (),
    String,
>)
    ensures
        r is Ok <==> wasm_validates(wasm@, features.simd, false, false, false, false, false),
{
    let config = ValidationConfig {
        threads: false,
        reference_types: false,
        simd: features.simd,
        bulk_memory: false,
        multi_value: false,
        mutable_global_imports: false,
    };
    run_validator(wasm, &config)
}

/// Compiles a decoded module with the provided compiler under the default
/// configuration.  `wasm` is the original binary, used by the validation
/// pre-pass of backends that require one: a binary the compiler's
/// pre-pass refuses yields a validation error.  On success the module carries the
/// decoded description, the cache record, and the runnable artifact the
/// compiler produced.
pub fn compile_with<C: Compiler>(wasm: &[u8], module: DecodedModule, compiler: &mut C) -> (r:
    CompileResult<Module<C::RM>>)
    ensures
        r matches Ok(m) ==> C::accepts(wasm@) && m.info == module.info,
        !C::accepts(wasm@) ==> (r matches Err(e) && e is ValidationError),
{
    let config = crate::backend::CompilerConfig {
        features: Features { simd: false, threads: false },
        enforce_stack_check: false,
        track_state: false,
    };
    compile_with_config(wasm, module, compiler, config)
}

/// The same as `compile_with`, but with the compiler behavior changed by
/// the values in the configuration.
pub fn compile_with_config<C: Compiler>(
    wasm: &[u8],
    module: DecodedModule,
    compiler: &mut C,
    compiler_config: crate::backend::CompilerConfig,
) -> (r: CompileResult<Module<C::RM>>)
    ensures
        r matches Ok(m) ==> C::accepts(wasm@) && m.info == module.info,
        !C::accepts(wasm@) ==> (r matches Err(e) && e is ValidationError),
{
    match compiler.compile(wasm, &module, &compiler_config) {
        Ok((runnable, cache)) => Ok(Module { runnable, cache, info: module.info }),
        Err(e) => Err(e),
    }
}

/// Rehydrates a runnable module from a cache record with the provided
/// compiler, without recompiling; succeeds exactly when the compiler can
/// reload the record.
pub fn load_cache_with<C: Compiler>(cache: crate::backend::Artifact, compiler: &C) -> (r: Result<
    C::RM,
    String,
>)
    ensures
        r is Ok <==> C::reload_ok(cache),
{
    compiler.from_cache(cache)
}

} // verus!
