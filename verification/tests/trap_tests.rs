//! Tests of trap classification, the relocation-table lookup, and the
//! protected-scope bookkeeping.

use wasm_engine::trap::{BarrierSlot, CallProtError, EarlyTrapSlot, ExceptionCode, FaultSignal,
    HandlerData, TrapCode, TrapData, TrapEntry, classify_trap, enter_scope, exception_of_trap_code,
    exit_scope};

#[test]
fn trap_mapping_is_total_on_listed_codes() {
    let golden: [(TrapCode, ExceptionCode); 10] = [
        (TrapCode::StackOverflow, ExceptionCode::MemoryOutOfBounds),
        (TrapCode::HeapOutOfBounds, ExceptionCode::MemoryOutOfBounds),
        (TrapCode::TableOutOfBounds, ExceptionCode::CallIndirectOOB),
        (TrapCode::OutOfBounds, ExceptionCode::MemoryOutOfBounds),
        (TrapCode::IndirectCallToNull, ExceptionCode::CallIndirectOOB),
        (TrapCode::BadSignature, ExceptionCode::IncorrectCallIndirectSignature),
        (TrapCode::IntegerOverflow, ExceptionCode::IllegalArithmetic),
        (TrapCode::IntegerDivisionByZero, ExceptionCode::IllegalArithmetic),
        (TrapCode::BadConversionToInteger, ExceptionCode::IllegalArithmetic),
        (TrapCode::UnreachableCodeReached, ExceptionCode::Unreachable),
    ];
    for (code, exception) in golden {
        assert_eq!(exception_of_trap_code(code), Some(exception));
    }
    assert_eq!(exception_of_trap_code(TrapCode::Interrupt), None);
    assert_eq!(exception_of_trap_code(TrapCode::User(3)), None);
}

#[test]
fn classification_follows_the_recovery_path() {
    let data = TrapData { trapcode: TrapCode::BadSignature, srcloc: 0 };

    // An early-trap entry wins over everything.
    assert_eq!(
        classify_trap(
            FaultSignal::IllegalInstruction,
            100,
            Some(data),
            Some(ExceptionCode::Unreachable)
        ),
        CallProtError::EarlyTrap(ExceptionCode::Unreachable)
    );

    // A relocation hit under an illegal-instruction fault goes through
    // the trap-code table.
    assert_eq!(
        classify_trap(FaultSignal::IllegalInstruction, 100, Some(data), None),
        CallProtError::Exception(ExceptionCode::IncorrectCallIndirectSignature)
    );
    let unknown = TrapData { trapcode: TrapCode::Interrupt, srcloc: 0 };
    assert_eq!(
        classify_trap(FaultSignal::IllegalInstruction, 100, Some(unknown), None),
        CallProtError::UnknownTrapCode
    );

    // Memory signals classify as out-of-bounds, arithmetic ones as
    // illegal arithmetic, whatever the recorded code says.
    assert_eq!(
        classify_trap(FaultSignal::SegmentationViolation, 100, Some(data), None),
        CallProtError::Exception(ExceptionCode::MemoryOutOfBounds)
    );
    assert_eq!(
        classify_trap(FaultSignal::BusError, 100, Some(data), None),
        CallProtError::Exception(ExceptionCode::MemoryOutOfBounds)
    );
    assert_eq!(
        classify_trap(FaultSignal::FloatingPointException, 100, Some(data), None),
        CallProtError::Exception(ExceptionCode::IllegalArithmetic)
    );

    // Without a relocation match the trap is unknown, with its address.
    assert_eq!(
        classify_trap(FaultSignal::BusError, 4096, None, None),
        CallProtError::UnknownTrap { faulting_addr: 4096, signal: FaultSignal::BusError }
    );
}

#[test]
fn handler_data_lookup() {
    let handler = HandlerData {
        code_base: 0x1000,
        code_size: 64,
        trap_table: vec![
            TrapEntry { offset: 16, data: TrapData { trapcode: TrapCode::HeapOutOfBounds, srcloc: 1 } },
            TrapEntry { offset: 40, data: TrapData { trapcode: TrapCode::BadSignature, srcloc: 2 } },
        ],
    };
    assert_eq!(
        handler.lookup(0x1010),
        Some(TrapData { trapcode: TrapCode::HeapOutOfBounds, srcloc: 1 })
    );
    assert_eq!(
        handler.lookup(0x1028),
        Some(TrapData { trapcode: TrapCode::BadSignature, srcloc: 2 })
    );
    assert_eq!(handler.lookup(0x1008), None);
    assert_eq!(handler.lookup(0x0FFF), None);
    assert_eq!(handler.lookup(0x1040), None);
}

#[test]
fn nested_scopes_restore_the_outer_buffer() {
    let mut slot = BarrierSlot { current: 0 };

    let outer = enter_scope(&mut slot, 11);
    assert_eq!(slot.current, 11);

    let inner = enter_scope(&mut slot, 22);
    assert_eq!(slot.current, 22);

    exit_scope(&mut slot, inner);
    assert_eq!(slot.current, 11);

    exit_scope(&mut slot, outer);
    assert_eq!(slot.current, 0);
}

#[test]
fn early_trap_slot_is_one_shot() {
    let mut slot = EarlyTrapSlot::new();
    assert_eq!(slot.take(), None);
    slot.set(ExceptionCode::IllegalArithmetic);
    assert_eq!(slot.take(), Some(ExceptionCode::IllegalArithmetic));
    assert_eq!(slot.take(), None);
}

#[test]
fn well_formedness_is_checkable() {
    let good = HandlerData {
        code_base: 0x1000,
        code_size: 64,
        trap_table: vec![
            TrapEntry { offset: 16, data: TrapData { trapcode: TrapCode::HeapOutOfBounds, srcloc: 0 } },
            TrapEntry { offset: 40, data: TrapData { trapcode: TrapCode::BadSignature, srcloc: 0 } },
        ],
    };
    assert!(good.check_wf());

    let out_of_range = HandlerData {
        code_base: 0x1000,
        code_size: 64,
        trap_table: vec![
            TrapEntry { offset: 64, data: TrapData { trapcode: TrapCode::HeapOutOfBounds, srcloc: 0 } },
        ],
    };
    assert!(!out_of_range.check_wf());

    let duplicated = HandlerData {
        code_base: 0x1000,
        code_size: 64,
        trap_table: vec![
            TrapEntry { offset: 16, data: TrapData { trapcode: TrapCode::HeapOutOfBounds, srcloc: 0 } },
            TrapEntry { offset: 16, data: TrapData { trapcode: TrapCode::BadSignature, srcloc: 0 } },
        ],
    };
    assert!(!duplicated.check_wf());

    let wrapping = HandlerData { code_base: usize::MAX, code_size: 2, trap_table: vec![] };
    assert!(!wrapping.check_wf());
}
