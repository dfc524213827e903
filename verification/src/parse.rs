//! The decoder bridge: feeds a decoded module through the middleware
//! chain into a module code generator, in the pipeline's fixed order.
//!
//! 1. the signature table, in one step;
//! 2. the function-to-signature association, in one step;
//! 3. one import marker per imported function;
//! 4. per defined function, in declaration order: its returns, parameters
//!    and locals, then `begin_body`, then one event per decoded operator
//!    through the chain, closed by an internal function-end event.

use vstd::prelude::*;

use crate::codegen::{Event, FunctionCodeGenerator, FunctionMiddleware, InternalEvent,
    MiddlewareChain, ModuleCodeGenerator};
use crate::error::{CompileError, CompileResult};
use crate::module::DecodedModule;
use crate::types::{FuncSig, SigIndex};

verus! {

/// Copies a signature table so it can be handed to the generator while
/// the module description keeps its own.
fn clone_signatures(sigs: &Vec<FuncSig>) -> (r: Vec<FuncSig>)
    ensures
        r@.len() == sigs@.len(),
        forall|i: int|
            0 <= i < sigs@.len() ==> (#[trigger] r@[i]).params@ == sigs@[i].params@ && r@[i].rets@
                == sigs@[i].rets@,
{
    let mut out: Vec<FuncSig> = Vec::new();
    let n = sigs.len();
    for i in 0..n
        invariant
            n == sigs@.len(),
            out@.len() == i,
            forall|j: int|
                0 <= j < i ==> (#[trigger] out@[j]).params@ == sigs@[j].params@ && out@[j].rets@
                    == sigs@[j].rets@,
    {
        out.push(sigs[i].clone());
    }
    out
}

/// Copies a function-to-signature association.
fn copy_assoc(assoc: &Vec<SigIndex>) -> (r: Vec<SigIndex>)
    ensures
        r@ == assoc@,
{
    let mut out: Vec<SigIndex> = Vec::new();
    let n = assoc.len();
    for i in 0..n
        invariant
            n == assoc@.len(),
            out@ == assoc@.take(i as int),
    {
        out.push(assoc[i]);
        proof {
            assert(out@ =~= assoc@.take(i as int + 1));
        }
    }
    proof {
        assert(assoc@.take(n as int) =~= assoc@);
    }
    out
}

/// Wraps a stage or backend error as a compilation error.
fn internal(msg: String) -> (r: CompileError) {
    CompileError::InternalError { msg }
}

/// Drives one decoded module into `mcg` through `chain`, in the
/// pipeline's fixed order.  The generator's own lifecycle contract
/// refuses any other order, so a successful run is evidence the order
/// was respected.  The first stage or generator error aborts the
/// compile and is surfaced as a compilation error.  On success the
/// generator holds exactly the module's signature table and its
/// function-to-signature association.
pub fn read_module<MCG: ModuleCodeGenerator, M: FunctionMiddleware>(
    module: &DecodedModule,
    mcg: &mut MCG,
    chain: &mut MiddlewareChain<M>,
) -> (r: CompileResult<()>)
    ensures
        r is Ok ==> {
            &&& final(mcg).sig_table().len() == module.info.signatures@.len()
            &&& (forall|i: int|
                0 <= i < module.info.signatures@.len() ==> (#[trigger] final(mcg).sig_table()[i]).params@ == module.info.signatures@[i].params@ && final(mcg).sig_table()[i].rets@ == module.info.signatures@[i].rets@)
            &&& final(mcg).assoc_table() == module.info.func_assoc@
        },
{
    match mcg.check_precondition(&module.info) {
        Ok(()) => {},
        Err(msg) => {
            return Err(internal(msg));
        },
    }
    match mcg.feed_signatures(clone_signatures(&module.info.signatures)) {
        Ok(()) => {},
        Err(msg) => {
            return Err(internal(msg));
        },
    }
    match mcg.feed_function_signatures(copy_assoc(&module.info.func_assoc)) {
        Ok(()) => {},
        Err(msg) => {
            return Err(internal(msg));
        },
    }
    let imports = module.info.imported_functions.len();
    for k in 0..imports
        invariant
            mcg.sig_table().len() == module.info.signatures@.len(),
            forall|i: int|
                0 <= i < module.info.signatures@.len() ==> (#[trigger] mcg.sig_table()[i]).params@
                    == module.info.signatures@[i].params@ && mcg.sig_table()[i].rets@
                    == module.info.signatures@[i].rets@,
            mcg.assoc_table() == module.info.func_assoc@,
    {
        match mcg.feed_import_function() {
            Ok(()) => {},
            Err(msg) => {
                return Err(internal(msg));
            },
        }
    }
    let defined = module.functions.len();
    for f in 0..defined
        invariant
            defined == module.functions@.len(),
            mcg.sig_table().len() == module.info.signatures@.len(),
            forall|i: int|
                0 <= i < module.info.signatures@.len() ==> (#[trigger] mcg.sig_table()[i]).params@
                    == module.info.signatures@[i].params@ && mcg.sig_table()[i].rets@
                    == module.info.signatures@[i].rets@,
            mcg.assoc_table() == module.info.func_assoc@,
    {
        let mut fcg = match mcg.next_function(&module.info) {
            Ok(fcg) => fcg,
            Err(msg) => {
                return Err(internal(msg));
            },
        };
        let combined = match imports.checked_add(f) {
            Some(c) => c,
            None => {
                return Err(internal(String::from_str("function index out of range")));
            },
        };
        if combined >= module.info.func_assoc.len() {
            return Err(internal(String::from_str("function without a signature")));
        }
        let sig_index = module.info.func_assoc[combined];
        if (sig_index.0 as usize) >= module.info.signatures.len() {
            return Err(internal(String::from_str("signature index out of range")));
        }
        let nrets = module.info.signatures[sig_index.0 as usize].rets.len();
        for k in 0..nrets
            invariant
                nrets == module.info.signatures@[sig_index.0 as int].rets@.len(),
                sig_index.0 < module.info.signatures@.len(),
        {
            let ty = module.info.signatures[sig_index.0 as usize].rets[k];
            match fcg.feed_return(ty) {
                Ok(()) => {},
                Err(msg) => {
                    return Err(internal(msg));
                },
            }
        }
        let nparams = module.info.signatures[sig_index.0 as usize].params.len();
        for k in 0..nparams
            invariant
                nparams == module.info.signatures@[sig_index.0 as int].params@.len(),
                sig_index.0 < module.info.signatures@.len(),
        {
            let ty = module.info.signatures[sig_index.0 as usize].params[k];
            match fcg.feed_param(ty) {
                Ok(()) => {},
                Err(msg) => {
                    return Err(internal(msg));
                },
            }
        }
        let nlocals = module.functions[f].locals.len();
        for k in 0..nlocals
            invariant
                f < module.functions@.len(),
                nlocals == module.functions@[f as int].locals@.len(),
        {
            let (count, ty) = module.functions[f].locals[k];
            match fcg.feed_local(ty, count) {
                Ok(()) => {},
                Err(msg) => {
                    return Err(internal(msg));
                },
            }
        }
        match fcg.begin_body(&module.info) {
            Ok(()) => {},
            Err(msg) => {
                return Err(internal(msg));
            },
        }
        let nops = module.functions[f].ops.len();
        for k in 0..nops
            invariant
                f < module.functions@.len(),
                nops == module.functions@[f as int].ops@.len(),
        {
            let op = module.functions[f].ops[k];
            let delivered = match chain.run(Event::Wasm(op), &module.info) {
                Ok(out) => out,
                Err(msg) => {
                    return Err(internal(msg));
                },
            };
            let nd = delivered.len();
            for d in 0..nd
                invariant
                    nd == delivered@.len(),
            {
                match fcg.feed_event(delivered[d], &module.info) {
                    Ok(()) => {},
                    Err(msg) => {
                        return Err(internal(msg));
                    },
                }
            }
        }
        let closing = match chain.run(Event::Internal(InternalEvent::FunctionEnd), &module.info) {
            Ok(out) => out,
            Err(msg) => {
                return Err(internal(msg));
            },
        };
        let nc = closing.len();
        for d in 0..nc
            invariant
                nc == closing@.len(),
        {
            match fcg.feed_event(closing[d], &module.info) {
                Ok(()) => {},
                Err(msg) => {
                    return Err(internal(msg));
                },
            }
        }
        match fcg.finalize() {
            Ok(()) => {},
            Err(msg) => {
                return Err(internal(msg));
            },
        }
        match mcg.submit_function(fcg) {
            Ok(()) => {},
            Err(msg) => {
                return Err(internal(msg));
            },
        }
    }
    Ok(())
}

} // verus!
