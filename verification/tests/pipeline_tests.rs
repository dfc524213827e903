//! End-to-end tests of the compilation pipeline: validation, the
//! middleware chain, the generator lifecycle, lowering, linking, and
//! cache reload.

use wasm_engine::backend::{Backend, CompilerConfig, Features, RelocationTarget,
    DYNAMIC_MEM_GROW, DYNAMIC_MEM_SIZE, LOCAL_NAMESPACE, SIG_NAMESPACE, STATIC_MEM_GROW};
use wasm_engine::codegen::{BreakpointMiddleware, Event, FunctionCodeGenerator, InternalEvent,
    MiddlewareChain, ModuleCodeGenerator, SimpleStreamingCompilerGen, StreamingCompiler,
    default_validating_parser_config, requires_pre_validation};
use wasm_engine::fcg::{DirectCallPlan, HeapStyle, make_global, make_heap, make_table,
    translate_call, translate_call_indirect, translate_memory_grow, translate_memory_size};
use wasm_engine::loader::LocalLoader;
use wasm_engine::mcg::IrModuleCodeGenerator;
use wasm_engine::module::{DecodedFunction, DecodedModule, ModuleInfo};
use wasm_engine::ops::WasmOp;
use wasm_engine::trap::TrapCode;
use wasm_engine::types::{FuncSig, MemoryDescriptor, SigIndex, TableDescriptor, Type, Value,
    ElementType};
use wasm_engine::units::Pages;
use wasm_engine::{compile_with, load_cache_with, validate, validate_and_report_errors};

/// The smallest valid module: just the header.
const EMPTY_MODULE: [u8; 8] = [0x00, 0x61, 0x73, 0x6d, 0x01, 0x00, 0x00, 0x00];

#[test]
fn validation_judges_real_binaries() {
    assert!(validate(&EMPTY_MODULE));
    let bad_version: [u8; 8] = [0x00, 0x61, 0x73, 0x6d, 0x02, 0x00, 0x00, 0x00];
    assert!(!validate(&bad_version));
    assert!(validate_and_report_errors(&bad_version).is_err());
    assert!(!validate(&[]));

    let config = default_validating_parser_config();
    assert!(config.simd);
    assert!(!config.threads);
    assert!(requires_pre_validation(Backend::Cranelift));
    assert!(!requires_pre_validation(Backend::LLVM));
    assert!(!requires_pre_validation(Backend::Singlepass));
}

#[test]
fn empty_chain_delivers_unchanged() {
    let mut chain: MiddlewareChain<BreakpointMiddleware> = MiddlewareChain::new();
    let info = ModuleInfo::empty();
    let out = chain.run(Event::Wasm(WasmOp::Nop), &info).unwrap();
    assert_eq!(out, vec![Event::Wasm(WasmOp::Nop)]);
}

#[test]
fn breakpoint_middleware_keeps_order() {
    let mut chain = MiddlewareChain::new();
    chain.push(BreakpointMiddleware::new(2, 7));
    let info = ModuleInfo::empty();

    let first = chain.run(Event::Wasm(WasmOp::Nop), &info).unwrap();
    assert_eq!(first, vec![Event::Wasm(WasmOp::Nop)]);

    let second = chain.run(Event::Wasm(WasmOp::I32Add), &info).unwrap();
    assert_eq!(
        second,
        vec![
            Event::Wasm(WasmOp::I32Add),
            Event::Internal(InternalEvent::Breakpoint(7)),
        ]
    );

    let internal = chain.run(Event::Internal(InternalEvent::FunctionEnd), &info).unwrap();
    assert_eq!(internal, vec![Event::Internal(InternalEvent::FunctionEnd)]);
}

#[test]
fn lifecycle_refuses_out_of_order_feeding() {
    let mut mcg = IrModuleCodeGenerator::new();
    assert!(mcg.feed_function_signatures(vec![]).is_err());
    assert!(mcg.feed_import_function().is_err());
    assert!(mcg.next_function(&ModuleInfo::empty()).is_err());

    assert!(mcg.feed_signatures(vec![FuncSig::new(vec![], vec![])]).is_ok());
    assert!(mcg.feed_signatures(vec![]).is_err());
    assert!(mcg.feed_function_signatures(vec![SigIndex(0)]).is_ok());
    assert!(mcg.feed_function_signatures(vec![]).is_err());
    assert!(mcg.feed_import_function().is_ok());
    assert!(mcg.next_function(&ModuleInfo::empty()).is_err());
}

fn add_module() -> DecodedModule {
    let mut info = ModuleInfo::empty();
    info.signatures = vec![FuncSig::new(vec![Type::I32, Type::I32], vec![Type::I32])];
    info.func_assoc = vec![SigIndex(0)];
    DecodedModule {
        info,
        functions: vec![DecodedFunction {
            locals: vec![],
            ops: vec![
                WasmOp::LocalGet(0),
                WasmOp::LocalGet(1),
                WasmOp::I32Add,
                WasmOp::End,
            ],
        }],
    }
}

#[test]
fn add_module_compiles_and_links() {
    let mut compiler: StreamingCompiler<IrModuleCodeGenerator, BreakpointMiddleware> =
        SimpleStreamingCompilerGen::new();
    let module = compile_with(&EMPTY_MODULE, add_module(), &mut compiler).unwrap();

    // One function of five 8-byte records: the four operators and the
    // terminating return of the reachable exit.
    assert_eq!(module.runnable.offsets, vec![0]);
    assert_eq!(module.runnable.code.len(), 40);
    assert_eq!(module.runnable.code[0], 1);
    assert_eq!(module.runnable.code[32], 10);
    assert!(module.runnable.trap_table.is_empty());
    assert_eq!(module.runnable.backend, Backend::Cranelift);
    assert_eq!(module.cache.functions.len(), 1);
    assert_eq!(module.cache.signatures.len(), 1);
    assert_eq!(module.cache.func_assoc, vec![SigIndex(0)]);

    // The module description travels with the compiled module.
    assert_eq!(module.info.signatures[0].params().len(), 2);

    // A rejected binary stops the compile before anything is fed, with a
    // validation error.
    let bad_version: [u8; 8] = [0x00, 0x61, 0x73, 0x6d, 0x02, 0x00, 0x00, 0x00];
    match compile_with(&bad_version, add_module(), &mut compiler) {
        Err(wasm_engine::error::CompileError::ValidationError { .. }) => {}
        other => panic!("expected a validation error, got {:?}", other.is_ok()),
    }
}

#[test]
fn cached_reload_reproduces_the_module() {
    let mut compiler: StreamingCompiler<IrModuleCodeGenerator, BreakpointMiddleware> =
        SimpleStreamingCompilerGen::new();
    let module = compile_with(&EMPTY_MODULE, add_module(), &mut compiler).unwrap();
    let reloaded = load_cache_with(module.cache, &compiler).unwrap();
    assert_eq!(reloaded, module.runnable);
}

fn div_module() -> DecodedModule {
    let mut info = ModuleInfo::empty();
    info.signatures = vec![FuncSig::new(vec![Type::I32], vec![Type::I32])];
    info.func_assoc = vec![SigIndex(0)];
    DecodedModule {
        info,
        functions: vec![DecodedFunction {
            locals: vec![],
            ops: vec![
                WasmOp::I32Const(1),
                WasmOp::LocalGet(0),
                WasmOp::I32DivS,
                WasmOp::End,
            ],
        }],
    }
}

#[test]
fn division_records_its_trap_site() {
    let mut compiler: StreamingCompiler<IrModuleCodeGenerator, BreakpointMiddleware> =
        SimpleStreamingCompilerGen::new();
    let module = compile_with(&EMPTY_MODULE, div_module(), &mut compiler).unwrap();
    assert_eq!(module.runnable.trap_table.len(), 1);
    let entry = module.runnable.trap_table[0];
    assert_eq!(entry.offset, 16);
    assert_eq!(entry.data.trapcode, TrapCode::IntegerDivisionByZero);
}

#[test]
fn local_calls_are_patched_relative() {
    let mut info = ModuleInfo::empty();
    info.signatures = vec![FuncSig::new(vec![], vec![])];
    info.func_assoc = vec![SigIndex(0), SigIndex(0)];
    let module = DecodedModule {
        info,
        functions: vec![
            DecodedFunction { locals: vec![], ops: vec![WasmOp::End] },
            DecodedFunction { locals: vec![], ops: vec![WasmOp::Call(0), WasmOp::End] },
        ],
    };
    let mut compiler: StreamingCompiler<IrModuleCodeGenerator, BreakpointMiddleware> =
        SimpleStreamingCompilerGen::new();
    let compiled = compile_with(&EMPTY_MODULE, module, &mut compiler).unwrap();

    // First function: end + return, 16 bytes; second starts at 16.
    assert_eq!(compiled.runnable.offsets, vec![0, 16]);
    // The call record of the second function sits at byte 16; its patch
    // field at 20 holds the displacement back to offset 0: -24.
    let rel = i32::from_le_bytes([
        compiled.runnable.code[20],
        compiled.runnable.code[21],
        compiled.runnable.code[22],
        compiled.runnable.code[23],
    ]);
    assert_eq!(rel, -24);
    // The cache record keeps the unpatched relocation.
    let reloc = compiled.cache.functions[1].relocations[0];
    assert_eq!(reloc.offset, 4);
    assert_eq!(reloc.target, RelocationTarget::LocalFunc(0));
}

fn memory_info(maximum: Option<Pages>) -> ModuleInfo {
    let mut info = ModuleInfo::empty();
    info.memories = vec![MemoryDescriptor { minimum: Pages(1), maximum, shared: false }];
    info
}

#[test]
fn heap_plans_follow_the_memory_kind() {
    let dynamic = memory_info(None);
    let plan = make_heap(&dynamic, 0).unwrap();
    assert!(!plan.imported);
    assert_eq!(plan.base_field_offset, 0);
    assert_eq!(plan.elem_offset, 0);
    assert!(!plan.base_readonly);
    assert_eq!(plan.style, HeapStyle::Dynamic { bound_offset: 8 });
    assert_eq!(plan.min_size, 65536);
    assert_eq!(plan.guard_size, 0);

    let static_info = memory_info(Some(Pages(2)));
    let plan = make_heap(&static_info, 0).unwrap();
    assert!(plan.base_readonly);
    assert_eq!(plan.style, HeapStyle::Static { bound: 0x1_0000_0000 });
    assert_eq!(plan.guard_size, 0x8000_0000);

    assert!(make_heap(&dynamic, 1).is_err());
}

#[test]
fn memory_helpers_resolve_by_kind() {
    let dynamic = memory_info(None);
    let grow = translate_memory_grow(&dynamic, 0).unwrap();
    assert_eq!(grow.namespace, LOCAL_NAMESPACE);
    assert_eq!(grow.name_index, DYNAMIC_MEM_GROW);
    assert_eq!(grow.mem_sub_index, 0);
    let size = translate_memory_size(&dynamic, 0).unwrap();
    assert_eq!(size.name_index, DYNAMIC_MEM_SIZE);

    let static_info = memory_info(Some(Pages(2)));
    let grow = translate_memory_grow(&static_info, 0).unwrap();
    assert_eq!(grow.name_index, STATIC_MEM_GROW);
}

#[test]
fn call_plans_project_the_callee() {
    let mut info = ModuleInfo::empty();
    info.signatures = vec![FuncSig::new(vec![Type::I32], vec![Type::I32])];
    info.func_assoc = vec![SigIndex(0), SigIndex(0)];
    info.imported_functions = vec![wasm_engine::module::ImportName {
        namespace: "env".to_string(),
        name: "f".to_string(),
    }];

    match translate_call(&info, 0).unwrap() {
        DirectCallPlan::Import { funcs_offset, struct_offset, code_offset, vmctx_offset } => {
            assert_eq!(funcs_offset, 56);
            assert_eq!(struct_offset, 0);
            assert_eq!(code_offset, 0);
            assert_eq!(vmctx_offset, 8);
        }
        DirectCallPlan::Local { .. } => panic!("expected an imported callee"),
    }
    match translate_call(&info, 1).unwrap() {
        DirectCallPlan::Local { fn_table_offset, local_index, elem_offset } => {
            assert_eq!(fn_table_offset, 48);
            assert_eq!(local_index, 0);
            assert_eq!(elem_offset, 0);
        }
        DirectCallPlan::Import { .. } => panic!("expected a local callee"),
    }
    assert!(translate_call(&info, 2).is_err());
}

#[test]
fn indirect_calls_check_the_signature_symbol() {
    let mut info = ModuleInfo::empty();
    info.signatures = vec![FuncSig::new(vec![Type::I32], vec![Type::I32])];
    info.tables = vec![TableDescriptor {
        element: ElementType::Anyfunc,
        minimum: 1,
        maximum: None,
    }];
    let plan = translate_call_indirect(&info, 0, 0).unwrap();
    assert_eq!(plan.table.element_size, 24);
    assert_eq!(plan.func_offset, 0);
    assert_eq!(plan.vmctx_offset, 8);
    assert_eq!(plan.sig_id_offset, 16);
    assert_eq!(plan.sig_namespace, SIG_NAMESPACE);
    assert_eq!(plan.sig_index, 0);
    assert_eq!(plan.null_trap, TrapCode::IndirectCallToNull);
    assert_eq!(plan.mismatch_trap, TrapCode::BadSignature);
    assert!(translate_call_indirect(&info, 0, 1).is_err());
    assert!(translate_call_indirect(&info, 1, 0).is_err());

    // An indirect call contributes both of its trap records.
    let mut module_info = ModuleInfo::empty();
    module_info.signatures = vec![FuncSig::new(vec![], vec![])];
    module_info.func_assoc = vec![SigIndex(0)];
    module_info.tables = info.tables.clone();
    let module = DecodedModule {
        info: module_info,
        functions: vec![DecodedFunction {
            locals: vec![],
            ops: vec![
                WasmOp::I32Const(0),
                WasmOp::CallIndirect { sig_index: 0, table_index: 0 },
                WasmOp::End,
            ],
        }],
    };
    let mut compiler: StreamingCompiler<IrModuleCodeGenerator, BreakpointMiddleware> =
        SimpleStreamingCompilerGen::new();
    let compiled = compile_with(&EMPTY_MODULE, module, &mut compiler).unwrap();
    assert_eq!(compiled.runnable.trap_table.len(), 2);
    assert_eq!(compiled.runnable.trap_table[0].offset, 8);
    assert_eq!(compiled.runnable.trap_table[0].data.trapcode, TrapCode::IndirectCallToNull);
    assert_eq!(compiled.runnable.trap_table[1].offset, 9);
    assert_eq!(compiled.runnable.trap_table[1].data.trapcode, TrapCode::BadSignature);
}

#[test]
fn global_plans_project_and_type() {
    let mut info = ModuleInfo::empty();
    info.imported_globals = vec![wasm_engine::types::GlobalDescriptor {
        mutable: false,
        ty: Type::I64,
    }];
    info.globals = vec![wasm_engine::types::GlobalInit {
        desc: wasm_engine::types::GlobalDescriptor { mutable: true, ty: Type::I32 },
        init: wasm_engine::types::Initializer::Const(Value::I32(0)),
    }];
    let imported = make_global(&info, 0).unwrap();
    assert!(imported.imported);
    assert_eq!(imported.base_offset, 40);
    assert_eq!(imported.elem_offset, 0);
    assert_eq!(imported.data_offset, 0);
    assert_eq!(imported.ty, Type::I64);

    let local = make_global(&info, 1).unwrap();
    assert!(!local.imported);
    assert_eq!(local.base_offset, 32);
    assert_eq!(local.elem_offset, 0);
    assert_eq!(local.ty, Type::I32);

    assert!(make_global(&info, 2).is_err());

    let table_info = {
        let mut info = ModuleInfo::empty();
        info.tables = vec![TableDescriptor { element: ElementType::Anyfunc, minimum: 3, maximum: None }];
        info
    };
    let table = make_table(&table_info, 0).unwrap();
    assert_eq!(table.base_field_offset, 16);
    assert_eq!(table.struct_offset, 0);
    assert_eq!(table.table_base_offset, 0);
    assert_eq!(table.table_count_offset, 8);
    assert_eq!(table.element_size, 24);
    assert_eq!(table.min_elements, 3);
}

#[test]
fn unreachable_exit_gets_no_return() {
    let mut info = ModuleInfo::empty();
    info.signatures = vec![FuncSig::new(vec![], vec![])];
    info.func_assoc = vec![SigIndex(0)];
    let module = DecodedModule {
        info,
        functions: vec![DecodedFunction {
            locals: vec![],
            ops: vec![WasmOp::Unreachable, WasmOp::End],
        }],
    };
    let mut compiler: StreamingCompiler<IrModuleCodeGenerator, BreakpointMiddleware> =
        SimpleStreamingCompilerGen::new();
    let compiled = compile_with(&EMPTY_MODULE, module, &mut compiler).unwrap();
    // Two records only — unreachable and end — and no terminating return.
    assert_eq!(compiled.runnable.code.len(), 16);
    assert_eq!(compiled.runnable.trap_table.len(), 1);
    assert_eq!(compiled.runnable.trap_table[0].data.trapcode, TrapCode::UnreachableCodeReached);
}

#[test]
fn loader_prepares_calls() {
    let mut compiler: StreamingCompiler<IrModuleCodeGenerator, BreakpointMiddleware> =
        SimpleStreamingCompilerGen::new();
    let module = compile_with(&EMPTY_MODULE, add_module(), &mut compiler).unwrap();
    let instance = LocalLoader.load(&module.runnable).unwrap();
    assert!(instance.code.executable);
    assert_eq!(instance.code.data.len() % 4096, 0);
    assert_eq!(&instance.code.data[..40], &module.runnable.code[..]);

    let (entry, words) = instance
        .prepare_call(0, &[Value::I32(3), Value::I32(4)])
        .unwrap();
    assert_eq!(entry, 0);
    assert_eq!(words, vec![3, 4]);

    // A 128-bit value crosses as two words, low half first.
    let (_, wide) = instance
        .prepare_call(0, &[Value::V128((7u128 << 64) | 9)])
        .unwrap();
    assert_eq!(wide, vec![9, 7]);

    assert!(instance.prepare_call(1, &[]).is_err());
    assert!(instance
        .prepare_call(0, &[Value::V128(0), Value::V128(0), Value::V128(0)])
        .is_err());
}

#[test]
fn compiler_config_defaults() {
    let config = CompilerConfig::default();
    assert_eq!(config.features, Features { simd: false, threads: false });
    assert!(!config.enforce_stack_check);
    assert!(!config.track_state);
}

#[test]
fn stacked_stages_compose_left_to_right() {
    // Two stages with periods 1 and 2: the first inserts a breakpoint
    // after every operator; the second counts the first stage's output
    // operators, so its breakpoint lands after the second inbound one.
    let mut chain = MiddlewareChain::new();
    chain.push(BreakpointMiddleware::new(1, 1));
    chain.push(BreakpointMiddleware::new(2, 2));
    let info = ModuleInfo::empty();

    let first = chain.run(Event::Wasm(WasmOp::Nop), &info).unwrap();
    assert_eq!(
        first,
        vec![
            Event::Wasm(WasmOp::Nop),
            Event::Internal(InternalEvent::Breakpoint(1)),
        ]
    );

    let second = chain.run(Event::Wasm(WasmOp::Drop), &info).unwrap();
    assert_eq!(
        second,
        vec![
            Event::Wasm(WasmOp::Drop),
            Event::Internal(InternalEvent::Breakpoint(2)),
            Event::Internal(InternalEvent::Breakpoint(1)),
        ]
    );
}

#[test]
fn linking_refuses_an_unknown_call_target() {
    // Two declared functions but only one compiled body, which calls the
    // second: its colocated relocation has no target to patch against.
    let mut info = ModuleInfo::empty();
    info.signatures = vec![FuncSig::new(vec![], vec![])];
    info.func_assoc = vec![SigIndex(0), SigIndex(0)];
    let mut mcg = IrModuleCodeGenerator::new();
    mcg.feed_signatures(info.signatures.clone()).unwrap();
    mcg.feed_function_signatures(info.func_assoc.clone()).unwrap();
    let mut fcg = mcg.next_function(&info).unwrap();
    fcg.feed_event(Event::Wasm(WasmOp::Call(1)), &info).unwrap();
    fcg.feed_event(Event::Wasm(WasmOp::End), &info).unwrap();
    fcg.finalize().unwrap();
    mcg.submit_function(fcg).unwrap();
    assert!(mcg.finalize(&info).is_err());
}

#[test]
fn page_and_size_formulas() {
    assert_eq!(Pages(2).bytes(), 131072);
    assert_eq!(wasm_engine::loader::round_up_to_page_size(1), 4096);
    assert_eq!(wasm_engine::loader::round_up_to_page_size(4096), 4096);
    assert_eq!(wasm_engine::loader::round_up_to_page_size(4097), 8192);
    assert_eq!(wasm_engine::loader::round_up_to_page_size(0), 0);
}

#[test]
fn memory_module_lowers_loads_and_grow() {
    // A single dynamic memory of one page; the function loads from it and
    // grows it.
    let mut info = ModuleInfo::empty();
    info.signatures = vec![FuncSig::new(vec![Type::I32], vec![Type::I32])];
    info.func_assoc = vec![SigIndex(0)];
    info.memories = vec![MemoryDescriptor { minimum: Pages(1), maximum: None, shared: false }];
    let module = DecodedModule {
        info,
        functions: vec![DecodedFunction {
            locals: vec![],
            ops: vec![
                WasmOp::LocalGet(0),
                WasmOp::I32Load { offset: 0 },
                WasmOp::Drop,
                WasmOp::I32Const(1),
                WasmOp::MemoryGrow(0),
                WasmOp::End,
            ],
        }],
    };
    let mut compiler: StreamingCompiler<IrModuleCodeGenerator, BreakpointMiddleware> =
        SimpleStreamingCompilerGen::new();
    let compiled = compile_with(&EMPTY_MODULE, module, &mut compiler).unwrap();

    // The load record carries an out-of-bounds trap site at its own
    // offset.
    assert_eq!(compiled.runnable.trap_table.len(), 1);
    assert_eq!(compiled.runnable.trap_table[0].offset, 8);
    assert_eq!(compiled.runnable.trap_table[0].data.trapcode, TrapCode::HeapOutOfBounds);

    // The grow record names the dynamic-memory helper for the linker.
    let relocs = &compiled.cache.functions[0].relocations;
    assert_eq!(relocs.len(), 1);
    assert_eq!(relocs[0].offset, 4 * 8 + 4);
    assert_eq!(
        relocs[0].target,
        RelocationTarget::RuntimeCall { namespace: LOCAL_NAMESPACE, name_index: DYNAMIC_MEM_GROW }
    );
}

#[test]
fn custom_sections_reach_the_cache_record() {
    let mut module = add_module();
    module.info.custom_sections = vec![1, 2, 3];
    let mut compiler: StreamingCompiler<IrModuleCodeGenerator, BreakpointMiddleware> =
        SimpleStreamingCompilerGen::new();
    let compiled = compile_with(&EMPTY_MODULE, module, &mut compiler).unwrap();
    assert_eq!(compiled.cache.custom_sections, vec![1, 2, 3]);
}

#[test]
fn every_memory_access_gets_a_heap_plan() {
    // A float load and a sub-width store go through the same heap plan and
    // carry the same out-of-bounds trap record as full-width accesses.
    let mut info = ModuleInfo::empty();
    info.signatures = vec![FuncSig::new(vec![Type::I32], vec![])];
    info.func_assoc = vec![SigIndex(0)];
    info.memories = vec![MemoryDescriptor { minimum: Pages(1), maximum: None, shared: false }];
    let module = DecodedModule {
        info,
        functions: vec![DecodedFunction {
            locals: vec![],
            ops: vec![
                WasmOp::LocalGet(0),
                WasmOp::F32Load { offset: 4 },
                WasmOp::Drop,
                WasmOp::LocalGet(0),
                WasmOp::I32Const(0),
                WasmOp::I32Store8 { offset: 0 },
                WasmOp::End,
            ],
        }],
    };
    let mut compiler: StreamingCompiler<IrModuleCodeGenerator, BreakpointMiddleware> =
        SimpleStreamingCompilerGen::new();
    let compiled = compile_with(&EMPTY_MODULE, module, &mut compiler).unwrap();
    assert_eq!(compiled.runnable.trap_table.len(), 2);
    assert_eq!(compiled.runnable.trap_table[0].offset, 8);
    assert_eq!(compiled.runnable.trap_table[0].data.trapcode, TrapCode::HeapOutOfBounds);
    assert_eq!(compiled.runnable.trap_table[1].offset, 40);
    assert_eq!(compiled.runnable.trap_table[1].data.trapcode, TrapCode::HeapOutOfBounds);
}

#[test]
fn chain_keeps_its_stages_after_a_run() {
    let mut chain = MiddlewareChain::new();
    chain.push(BreakpointMiddleware::new(3, 9));
    chain.push(BreakpointMiddleware::new(5, 10));
    let info = ModuleInfo::empty();
    chain.run(Event::Wasm(WasmOp::Nop), &info).unwrap();
    assert_eq!(chain.chain.len(), 2);
    assert_eq!(chain.chain[0].handler, 9);
    assert_eq!(chain.chain[1].handler, 10);
}
