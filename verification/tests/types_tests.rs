//! Tests of the value domain, the descriptors and the index spaces.

use wasm_engine::memory::MemoryType;
use wasm_engine::module::ModuleInfo;
use wasm_engine::types::{ElementType, FuncSig, GlobalDescriptor, GlobalIndex, ImportedGlobalIndex,
    LocalGlobalIndex, LocalOrImport, MemoryDescriptor, NativeWasmType, TableDescriptor, Type,
    TypedIndex, Value, WasmExternType, f32_bits_from_binary, f32_bits_to_binary,
    f64_bits_from_binary, f64_bits_to_binary};
use wasm_engine::units::Pages;

#[test]
fn test_native_types_round_trip() {
    assert_eq!(
        42i32,
        i32::from_native(i32::from_binary((42i32).to_native().to_binary()))
    );

    assert_eq!(
        -42i32,
        i32::from_native(i32::from_binary((-42i32).to_native().to_binary()))
    );

    let xi64 = i64::MAX;
    assert_eq!(
        xi64,
        i64::from_native(i64::from_binary((xi64).to_native().to_binary()))
    );
    let yi64 = i64::MIN;
    assert_eq!(
        yi64,
        i64::from_native(i64::from_binary((yi64).to_native().to_binary()))
    );

    assert_eq!(
        16.5f32,
        f32::from_bits(f32_bits_from_binary(f32_bits_to_binary((16.5f32).to_bits())))
    );

    assert_eq!(
        -16.5f32,
        f32::from_bits(f32_bits_from_binary(f32_bits_to_binary((-16.5f32).to_bits())))
    );

    let xf64: f64 = f64::MAX;
    assert_eq!(
        xf64,
        f64::from_bits(f64_bits_from_binary(f64_bits_to_binary((xf64).to_bits())))
    );

    let yf64: f64 = f64::MIN;
    assert_eq!(
        yf64,
        f64::from_bits(f64_bits_from_binary(f64_bits_to_binary((yf64).to_bits())))
    );
}

#[test]
fn value_types_and_abi_image() {
    assert_eq!(Value::I32(-1).ty(), Type::I32);
    assert_eq!(Value::I64(7).ty(), Type::I64);
    assert_eq!(Value::F32(0x4184_0000).ty(), Type::F32);
    assert_eq!(Value::F64(0x4030_8000_0000_0000).ty(), Type::F64);
    assert_eq!(Value::V128(3).ty(), Type::V128);

    assert_eq!(Value::I32(-1).to_u128(), u128::MAX);
    assert_eq!(Value::I64(5).to_u128(), 5);
    assert_eq!(Value::F32((16.5f32).to_bits()).to_u128(), u128::from((16.5f32).to_bits()));
    assert_eq!(Value::V128(1 << 100).to_u128(), 1 << 100);
}

#[test]
fn memory_type_derivation() {
    let dynamic = MemoryDescriptor { minimum: Pages(1), maximum: None, shared: false };
    assert_eq!(dynamic.memory_type(), MemoryType::Dynamic);

    let static_mem = MemoryDescriptor { minimum: Pages(1), maximum: Some(Pages(2)), shared: false };
    assert_eq!(static_mem.memory_type(), MemoryType::Static);

    let shared = MemoryDescriptor { minimum: Pages(1), maximum: Some(Pages(2)), shared: true };
    assert_eq!(shared.memory_type(), MemoryType::SharedStatic);

    let invalid = MemoryDescriptor { minimum: Pages(1), maximum: None, shared: true };
    assert_eq!(invalid.memory_type_checked(), None);
    assert_eq!(dynamic.memory_type_checked(), Some(MemoryType::Dynamic));
}

#[test]
fn memory_type_bounds_and_guards() {
    assert_eq!(MemoryType::Dynamic.bounds(), None);
    assert_eq!(MemoryType::Dynamic.guard_size(), 0);
    assert_eq!(MemoryType::Static.bounds(), Some(0x1_0000_0000));
    assert_eq!(MemoryType::Static.guard_size(), 0x8000_0000);
    assert_eq!(MemoryType::SharedStatic.bounds(), Some(0x1_0000_0000));
    assert_eq!(MemoryType::SharedStatic.guard_size(), 0x8000_0000);
}

#[test]
fn descriptor_import_fit() {
    let table = TableDescriptor { element: ElementType::Anyfunc, minimum: 2, maximum: Some(10) };
    let good = TableDescriptor { element: ElementType::Anyfunc, minimum: 4, maximum: Some(8) };
    let too_small = TableDescriptor { element: ElementType::Anyfunc, minimum: 1, maximum: Some(8) };
    let unbounded = TableDescriptor { element: ElementType::Anyfunc, minimum: 4, maximum: None };
    assert!(table.fits_in_imported(good));
    assert!(!table.fits_in_imported(too_small));
    assert!(!table.fits_in_imported(unbounded));

    let mem = MemoryDescriptor { minimum: Pages(1), maximum: Some(Pages(4)), shared: false };
    let good_mem = MemoryDescriptor { minimum: Pages(2), maximum: Some(Pages(3)), shared: false };
    let shared_mem = MemoryDescriptor { minimum: Pages(2), maximum: Some(Pages(3)), shared: true };
    assert!(mem.fits_in_imported(good_mem));
    assert!(!mem.fits_in_imported(shared_mem));
}

#[test]
fn signature_accessors_and_check() {
    let sig = FuncSig::new(vec![Type::I32, Type::I64], vec![Type::I32]);
    assert_eq!(sig.params().as_slice(), &[Type::I32, Type::I64]);
    assert_eq!(sig.return_types().as_slice(), &[Type::I32]);
    assert!(sig.check_param_value_types(&[Value::I32(1), Value::I64(2)]));
    assert!(!sig.check_param_value_types(&[Value::I32(1), Value::I32(2)]));
    assert!(!sig.check_param_value_types(&[Value::I32(1)]));
    assert_eq!(sig.display_string(), "[I32, I64] -> [I32]");
    assert_eq!(FuncSig::new(vec![], vec![]).display_string(), "[] -> []");
}

fn info_with_two_imported_globals() -> ModuleInfo {
    let mut info = ModuleInfo::empty();
    info.imported_globals = vec![
        GlobalDescriptor { mutable: false, ty: Type::I32 },
        GlobalDescriptor { mutable: true, ty: Type::I64 },
    ];
    info.globals = vec![];
    info
}

#[test]
fn index_projection_and_promotion() {
    let info = info_with_two_imported_globals();

    // Combined index 1 is below the two imports: it projects to the
    // imported sub-space and promotes back unchanged.
    match GlobalIndex(1).local_or_import(&info) {
        LocalOrImport::Import(sub) => {
            assert_eq!(sub, ImportedGlobalIndex(1));
            assert_eq!(sub.convert_up(&info), GlobalIndex(1));
        }
        LocalOrImport::Local(_) => panic!("expected an import projection"),
    }

    // Combined index 2 is the first local global.
    match GlobalIndex(2).local_or_import(&info) {
        LocalOrImport::Local(sub) => {
            assert_eq!(sub, LocalGlobalIndex(0));
            assert_eq!(sub.convert_up(&info), GlobalIndex(2));
        }
        LocalOrImport::Import(_) => panic!("expected a local projection"),
    }

    assert_eq!(GlobalIndex::new(7).index(), 7);
    let projected = GlobalIndex(1).local_or_import(&info);
    assert!(projected.import().is_some());
    assert!(GlobalIndex(2).local_or_import(&info).local().is_some());
    assert!(GlobalIndex(2).local_or_import(&info).import().is_none());
}
