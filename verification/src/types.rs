//! The WebAssembly value domain, entity descriptors, function signatures and
//! the index spaces shared by the whole engine.
//!
//! Every entity category (functions, memories, tables, globals) is addressed
//! by a *combined* index in which imported entities occupy the low range and
//! locally defined entities the high range.  Projection between the combined
//! index and its two sub-indices is pure and is the first step of every
//! lowering decision in the function code generator.

use vstd::prelude::*;

verus! {

/// A WebAssembly scalar type.
#[derive(Debug, Clone, Copy, PartialEq, Eq, Structural, Hash)]
pub enum Type {
    /// The `i32` type.
    I32,
    /// The `i64` type.
    I64,
    /// The `f32` type.
    F32,
    /// The `f64` type.
    F64,
    /// The `v128` type.
    V128,
}

/// A WebAssembly value.
///
/// Floating-point values are carried as their raw IEEE-754 bit patterns:
/// the engine core never computes with them, it only moves them between the
/// host and the generated code, so the bits are the whole story here.
#[derive(Debug, Clone, Copy, PartialEq, Eq, Structural, Hash)]
pub enum Value {
    /// The `i32` type.
    I32(i32),
    /// The `i64` type.
    I64(i64),
    /// The `f32` type, as its raw bit pattern.
    F32(u32),
    /// The `f64` type, as its raw bit pattern.
    F64(u64),
    /// The `v128` type.
    V128(u128),
}

impl Value {
    /// The scalar type of this value.
    pub open spec fn spec_ty(&self) -> Type {
        match self {
            Value::I32(_) => Type::I32,
            Value::I64(_) => Type::I64,
            Value::F32(_) => Type::F32,
            Value::F64(_) => Type::F64,
            Value::V128(_) => Type::V128,
        }
    }

    #[verifier::when_used_as_spec(spec_ty)]
    pub fn ty(&self) -> (t: Type)
        ensures
            t == self.spec_ty(),
    {
        match self {
            Value::I32(_) => Type::I32,
            Value::I64(_) => Type::I64,
            Value::F32(_) => Type::F32,
            Value::F64(_) => Type::F64,
            Value::V128(_) => Type::V128,
        }
    }

    /// The value widened to 128 bits, exactly as it crosses the call-in ABI:
    /// integers zero- or sign-extend through `as`, floats contribute their
    /// bit patterns, vectors pass through.
    pub open spec fn spec_to_u128(&self) -> u128 {
        match self {
            Value::I32(x) => x as u128,
            Value::I64(x) => x as u128,
            Value::F32(x) => x as u128,
            Value::F64(x) => x as u128,
            Value::V128(x) => *x,
        }
    }

    #[verifier::when_used_as_spec(spec_to_u128)]
    pub fn to_u128(&self) -> (r: u128)
        ensures
            r == self.spec_to_u128(),
    {
        match *self {
            Value::I32(x) => x as u128,
            Value::I64(x) => x as u128,
            Value::F32(x) => x as u128,
            Value::F64(x) => x as u128,
            Value::V128(x) => x,
        }
    }
}

impl From<i32> for Value {
    fn from(i: i32) -> (r: Self) {
        Value::I32(i)
    }
}

impl vstd::std_specs::convert::FromSpecImpl<i32> for Value {
    open spec fn obeys_from_spec() -> bool {
        true
    }

    open spec fn from_spec(i: i32) -> Self {
        Value::I32(i)
    }
}

impl From<i64> for Value {
    fn from(i: i64) -> (r: Self) {
        Value::I64(i)
    }
}

impl vstd::std_specs::convert::FromSpecImpl<i64> for Value {
    open spec fn obeys_from_spec() -> bool {
        true
    }

    open spec fn from_spec(i: i64) -> Self {
        Value::I64(i)
    }
}

impl From<u128> for Value {
    fn from(v: u128) -> (r: Self) {
        Value::V128(v)
    }
}

impl vstd::std_specs::convert::FromSpecImpl<u128> for Value {
    open spec fn obeys_from_spec() -> bool {
        true
    }

    open spec fn from_spec(v: u128) -> Self {
        Value::V128(v)
    }
}

impl Type {
    /// The type's name, as it reads in a signature.
    pub fn name(&self) -> (r: &'static str)
        ensures
            r@ == self.spec_name(),
    {
        match self {
            Type::I32 => "I32",
            Type::I64 => "I64",
            Type::F32 => "F32",
            Type::F64 => "F64",
            Type::V128 => "V128",
        }
    }

    /// The characters of the type's name.
    pub open spec fn spec_name(&self) -> Seq<char> {
        match self {
            Type::I32 => "I32"@,
            Type::I64 => "I64"@,
            Type::F32 => "F32"@,
            Type::F64 => "F64"@,
            Type::V128 => "V128"@,
        }
    }
}

/// A type that can cross the boundary between the host and generated code as
/// one 64-bit machine word.
pub trait NativeWasmType: Sized + Copy {
    /// The Wasm scalar type this native type carries.
    fn value_type() -> Type;

    /// Reads the value back out of a 64-bit transport word.
    fn from_binary(bits: u64) -> Self;

    /// Widens the value into a 64-bit transport word.
    fn to_binary(self) -> u64;
}

impl NativeWasmType for i32 {
    fn value_type() -> (t: Type)
        ensures
            t == Type::I32,
    {
        Type::I32
    }

    fn from_binary(bits: u64) -> (r: Self)
        ensures
            r == bits as i32,
    {
        bits as i32
    }

    fn to_binary(self) -> (r: u64)
        ensures
            r == self as u64,
    {
        self as u64
    }
}

impl NativeWasmType for i64 {
    fn value_type() -> (t: Type)
        ensures
            t == Type::I64,
    {
        Type::I64
    }

    fn from_binary(bits: u64) -> (r: Self)
        ensures
            r == bits as i64,
    {
        bits as i64
    }

    fn to_binary(self) -> (r: u64)
        ensures
            r == self as u64,
    {
        self as u64
    }
}

/// Widens an `f32` bit pattern into a 64-bit transport word.  Floats cross
/// the engine as their raw bits; turning bits into a float value is the
/// host's business.
pub fn f32_bits_to_binary(bits: u32) -> (r: u64)
    ensures
        r == bits as u64,
{
    bits as u64
}

/// Reads an `f32` bit pattern back out of a 64-bit transport word.
pub fn f32_bits_from_binary(bits: u64) -> (r: u32)
    ensures
        r == bits as u32,
{
    bits as u32
}

/// Widens an `f64` bit pattern into a 64-bit transport word.
pub fn f64_bits_to_binary(bits: u64) -> (r: u64)
    ensures
        r == bits,
{
    bits
}

/// Reads an `f64` bit pattern back out of a 64-bit transport word.
pub fn f64_bits_from_binary(bits: u64) -> (r: u64)
    ensures
        r == bits,
{
    bits
}

/// A host-visible type with a canonical native Wasm representation.
pub trait WasmExternType: Sized + Copy {
    /// The native type this external type converts through.
    type Native: NativeWasmType;

    /// Conversion from the native representation.
    fn from_native(native: Self::Native) -> Self;

    /// Conversion into the native representation.
    fn to_native(self) -> Self::Native;
}

impl WasmExternType for i8 {
    type Native = i32;

    fn from_native(native: i32) -> (r: Self)
        ensures
            r == native as i8,
    {
        native as i8
    }

    fn to_native(self) -> (r: i32)
        ensures
            r == self as i32,
    {
        self as i32
    }
}

impl WasmExternType for u8 {
    type Native = i32;

    fn from_native(native: i32) -> (r: Self)
        ensures
            r == native as u8,
    {
        native as u8
    }

    fn to_native(self) -> (r: i32)
        ensures
            r == self as i32,
    {
        self as i32
    }
}

impl WasmExternType for i16 {
    type Native = i32;

    fn from_native(native: i32) -> (r: Self)
        ensures
            r == native as i16,
    {
        native as i16
    }

    fn to_native(self) -> (r: i32)
        ensures
            r == self as i32,
    {
        self as i32
    }
}

impl WasmExternType for u16 {
    type Native = i32;

    fn from_native(native: i32) -> (r: Self)
        ensures
            r == native as u16,
    {
        native as u16
    }

    fn to_native(self) -> (r: i32)
        ensures
            r == self as i32,
    {
        self as i32
    }
}

impl WasmExternType for i32 {
    type Native = i32;

    fn from_native(native: i32) -> (r: Self)
        ensures
            r == native,
    {
        native
    }

    fn to_native(self) -> (r: i32)
        ensures
            r == self,
    {
        self
    }
}

impl WasmExternType for u32 {
    type Native = i32;

    fn from_native(native: i32) -> (r: Self)
        ensures
            r == native as u32,
    {
        native as u32
    }

    fn to_native(self) -> (r: i32)
        ensures
            r == self as i32,
    {
        self as i32
    }
}

impl WasmExternType for i64 {
    type Native = i64;

    fn from_native(native: i64) -> (r: Self)
        ensures
            r == native,
    {
        native
    }

    fn to_native(self) -> (r: i64)
        ensures
            r == self,
    {
        self
    }
}

impl WasmExternType for u64 {
    type Native = i64;

    fn from_native(native: i64) -> (r: Self)
        ensures
            r == native as u64,
    {
        native as u64
    }

    fn to_native(self) -> (r: i64)
        ensures
            r == self as i64,
    {
        self as i64
    }
}

/// Marker for plain-old-data types that may live inside a linear memory.
pub trait ValueType: Sized + Copy {
}

impl ValueType for u8 {
}

impl ValueType for i8 {
}

impl ValueType for u16 {
}

impl ValueType for i16 {
}

impl ValueType for u32 {
}

impl ValueType for i32 {
}

impl ValueType for u64 {
}

impl ValueType for i64 {
}

/// The element type of a table.
#[derive(Debug, Clone, Copy, PartialEq, Eq, Structural, Hash)]
pub enum ElementType {
    /// Any wasm function.
    Anyfunc,
}

/// Describes a table: its element type and its size limits.
#[derive(Debug, Clone, Copy, PartialEq, Eq, Structural)]
pub struct TableDescriptor {
    /// Type of data stored in this table.
    pub element: ElementType,
    /// The minimum number of elements that must be stored in this table.
    pub minimum: u32,
    /// The maximum number of elements in this table.
    pub maximum: Option<u32>,
}

impl TableDescriptor {
    /// Whether a table satisfying `self` can be satisfied by one satisfying
    /// `imported`: same element type, the import may not promise more than
    /// `self` allows, and must provide at least `self.minimum` elements.
    pub fn fits_in_imported(&self, imported: TableDescriptor) -> (r: bool)
        ensures
            r == (self.element == imported.element
                && (match imported.maximum {
                    Some(m) => m as int,
                    None => u32::MAX as int,
                }) <= (match self.maximum {
                    Some(m) => m as int,
                    None => u32::MAX as int,
                }) && self.minimum <= imported.minimum),
    {
        let imported_max: u32 = match imported.maximum {
            Some(m) => m,
            None => u32::MAX,
        };
        let self_max: u32 = match self.maximum {
            Some(m) => m,
            None => u32::MAX,
        };
        self.element == imported.element && imported_max <= self_max && self.minimum
            <= imported.minimum
    }
}

/// A constant value initializer for a global or an element segment.
#[derive(Debug, Clone, Copy, PartialEq, Eq, Structural)]
pub enum Initializer {
    /// Corresponds to a `const.*` instruction.
    Const(Value),
    /// Corresponds to a `get_global` instruction.
    GetGlobal(ImportedGlobalIndex),
}

/// Describes the mutability and type of a global.
#[derive(Debug, Clone, Copy, PartialEq, Eq, Structural, Hash)]
pub struct GlobalDescriptor {
    /// Whether the global can be written after instantiation.
    pub mutable: bool,
    /// The type of the global's value.
    pub ty: Type,
}

/// A locally defined global: its descriptor and its initializer.
#[derive(Debug, Clone, Copy, PartialEq, Eq, Structural)]
pub struct GlobalInit {
    /// Mutability and type.
    pub desc: GlobalDescriptor,
    /// The initial value.
    pub init: Initializer,
}

/// Describes a linear memory: its size limits and whether it may be shared.
#[derive(Debug, Clone, Copy, PartialEq, Eq, Structural)]
pub struct MemoryDescriptor {
    /// The minimum number of allowed pages.
    pub minimum: crate::units::Pages,
    /// The maximum number of allowed pages.
    pub maximum: Option<crate::units::Pages>,
    /// This memory can be shared between wasm threads.
    pub shared: bool,
}

impl MemoryDescriptor {
    /// The memory kind this descriptor derives to, or `None` for the one
    /// invalid combination: shared without a declared maximum.
    pub fn memory_type_checked(self) -> (r: Option<crate::memory::MemoryType>)
        ensures
            r == (match (self.maximum, self.shared) {
                (Some(_), true) => Some(crate::memory::MemoryType::SharedStatic),
                (Some(_), false) => Some(crate::memory::MemoryType::Static),
                (None, false) => Some(crate::memory::MemoryType::Dynamic),
                (None, true) => None::<crate::memory::MemoryType>,
            }),
    {
        match (self.maximum, self.shared) {
            (Some(_), true) => Some(crate::memory::MemoryType::SharedStatic),
            (Some(_), false) => Some(crate::memory::MemoryType::Static),
            (None, false) => Some(crate::memory::MemoryType::Dynamic),
            (None, true) => None,
        }
    }

    /// The memory kind this descriptor derives to.
    ///
    /// A shared memory without a declared maximum is invalid and is excluded
    /// by the precondition.
    pub fn memory_type(self) -> (r: crate::memory::MemoryType)
        requires
            !(self.maximum is None && self.shared),
        ensures
            r == (if self.shared {
                crate::memory::MemoryType::SharedStatic
            } else if self.maximum is Some {
                crate::memory::MemoryType::Static
            } else {
                crate::memory::MemoryType::Dynamic
            }),
    {
        match (self.maximum, self.shared) {
            (Some(_), true) => crate::memory::MemoryType::SharedStatic,
            (Some(_), false) => crate::memory::MemoryType::Static,
            (None, false) => crate::memory::MemoryType::Dynamic,
            (None, true) => crate::memory::MemoryType::Dynamic,  // excluded by the precondition
        }
    }

    /// Whether a memory import satisfying `self` can be satisfied by one
    /// satisfying `imported`.
    pub fn fits_in_imported(&self, imported: MemoryDescriptor) -> (r: bool)
        ensures
            r == (self.shared == imported.shared
                && (match imported.maximum {
                    Some(m) => m.0 as int,
                    None => 65536,
                }) <= (match self.maximum {
                    Some(m) => m.0 as int,
                    None => 65536,
                }) && self.minimum.0 <= imported.minimum.0),
    {
        let imported_max: u32 = match imported.maximum {
            Some(m) => m.0,
            None => 65536,
        };
        let self_max: u32 = match self.maximum {
            Some(m) => m.0,
            None => 65536,
        };
        self.shared == imported.shared && imported_max <= self_max && self.minimum.0
            <= imported.minimum.0
    }
}

/// A dense index into one of the engine's index spaces.
///
/// Indices are stored as 32-bit values; `new` therefore requires the index to
/// fit.
pub trait TypedIndex: Sized + Copy {
    /// The mathematical index this value stands for.
    spec fn index_spec(&self) -> int;

    /// Wraps a raw index.
    fn new(index: usize) -> (r: Self)
        requires
            index <= u32::MAX as usize,
        ensures
            r.index_spec() == index as int,
    ;

    /// Unwraps to the raw index.
    fn index(&self) -> (r: usize)
        ensures
            r == self.index_spec(),
            0 <= r <= u32::MAX as usize,
    ;
}

/// An entity category whose combined index space splits into a local and an
/// imported sub-space.
pub trait LocalImport {
    /// The index type for locally defined entities of this category.
    type Local: TypedIndex;

    /// The index type for imported entities of this category.
    type Import: TypedIndex;
}

/// The result of projecting a combined index: either a local sub-index or an
/// imported sub-index.
pub enum LocalOrImport<T> where T: LocalImport {
    /// The entity is defined in this module.
    Local(T::Local),
    /// The entity is imported.
    Import(T::Import),
}

impl<T> LocalOrImport<T> where T: LocalImport {
    /// The local sub-index, if this is a local projection.
    pub fn local(self) -> (r: Option<T::Local>)
        ensures
            r == (match self {
                LocalOrImport::Local(local) => Some(local),
                LocalOrImport::Import(_) => None::<T::Local>,
            }),
    {
        match self {
            LocalOrImport::Local(local) => Some(local),
            LocalOrImport::Import(_) => None,
        }
    }

    /// The imported sub-index, if this is an import projection.
    pub fn import(self) -> (r: Option<T::Import>)
        ensures
            r == (match self {
                LocalOrImport::Import(import) => Some(import),
                LocalOrImport::Local(_) => None::<T::Import>,
            }),
    {
        match self {
            LocalOrImport::Import(import) => Some(import),
            LocalOrImport::Local(_) => None,
        }
    }
}

/// Whether a combined index falls in the imported (low) range.
pub open spec fn spec_is_import(index: int, imports_len: int) -> bool {
    index < imports_len
}

/// The sub-index a combined index projects to, within whichever range it
/// falls in.
pub open spec fn spec_sub_index(index: int, imports_len: int) -> int {
    if index < imports_len {
        index
    } else {
        index - imports_len
    }
}

/// The combined index a sub-index promotes back to.
pub open spec fn spec_promote(is_import: bool, sub_index: int, imports_len: int) -> int {
    if is_import {
        sub_index
    } else {
        sub_index + imports_len
    }
}

/// Promotion is the inverse of projection, and projection selects the
/// imported range exactly when the combined index is below the number of
/// imports.
pub proof fn lemma_projection_round_trip(index: int, imports_len: int)
    requires
        0 <= index,
        0 <= imports_len,
    ensures
        spec_promote(
            spec_is_import(index, imports_len),
            spec_sub_index(index, imports_len),
            imports_len,
        ) == index,
        spec_is_import(index, imports_len) <==> index < imports_len,
{
}

/// Combined index of a function.
#[derive(Debug, Clone, Copy, PartialEq, Eq, Structural, Hash, PartialOrd, Ord)]
pub struct FuncIndex(pub u32);

/// Combined index of a linear memory.
#[derive(Debug, Clone, Copy, PartialEq, Eq, Structural, Hash, PartialOrd, Ord)]
pub struct MemoryIndex(pub u32);

/// Combined index of a table.
#[derive(Debug, Clone, Copy, PartialEq, Eq, Structural, Hash, PartialOrd, Ord)]
pub struct TableIndex(pub u32);

/// Combined index of a global.
#[derive(Debug, Clone, Copy, PartialEq, Eq, Structural, Hash, PartialOrd, Ord)]
pub struct GlobalIndex(pub u32);

/// Index of a locally defined function.
#[derive(Debug, Clone, Copy, PartialEq, Eq, Structural, Hash, PartialOrd, Ord)]
pub struct LocalFuncIndex(pub u32);

/// Index of a locally defined linear memory.
#[derive(Debug, Clone, Copy, PartialEq, Eq, Structural, Hash, PartialOrd, Ord)]
pub struct LocalMemoryIndex(pub u32);

/// Index of a locally defined table.
#[derive(Debug, Clone, Copy, PartialEq, Eq, Structural, Hash, PartialOrd, Ord)]
pub struct LocalTableIndex(pub u32);

/// Index of a locally defined global.
#[derive(Debug, Clone, Copy, PartialEq, Eq, Structural, Hash, PartialOrd, Ord)]
pub struct LocalGlobalIndex(pub u32);

/// Index of an imported function.
#[derive(Debug, Clone, Copy, PartialEq, Eq, Structural, Hash, PartialOrd, Ord)]
pub struct ImportedFuncIndex(pub u32);

/// Index of an imported linear memory.
#[derive(Debug, Clone, Copy, PartialEq, Eq, Structural, Hash, PartialOrd, Ord)]
pub struct ImportedMemoryIndex(pub u32);

/// Index of an imported table.
#[derive(Debug, Clone, Copy, PartialEq, Eq, Structural, Hash, PartialOrd, Ord)]
pub struct ImportedTableIndex(pub u32);

/// Index of an imported global.
#[derive(Debug, Clone, Copy, PartialEq, Eq, Structural, Hash, PartialOrd, Ord)]
pub struct ImportedGlobalIndex(pub u32);

/// Canonical integer identity of a function signature after interning.
///
/// Two interned signatures are equal exactly when their indices are equal,
/// which lets the indirect-call signature check compare integers.
#[derive(Debug, Clone, Copy, PartialEq, Eq, Structural, Hash)]
pub struct SigIndex(pub u32);

impl TypedIndex for FuncIndex {
    open spec fn index_spec(&self) -> int {
        self.0 as int
    }

    fn new(index: usize) -> (r: Self) {
        FuncIndex(index as u32)
    }

    fn index(&self) -> (r: usize) {
        self.0 as usize
    }
}

impl TypedIndex for MemoryIndex {
    open spec fn index_spec(&self) -> int {
        self.0 as int
    }

    fn new(index: usize) -> (r: Self) {
        MemoryIndex(index as u32)
    }

    fn index(&self) -> (r: usize) {
        self.0 as usize
    }
}

impl TypedIndex for TableIndex {
    open spec fn index_spec(&self) -> int {
        self.0 as int
    }

    fn new(index: usize) -> (r: Self) {
        TableIndex(index as u32)
    }

    fn index(&self) -> (r: usize) {
        self.0 as usize
    }
}

impl TypedIndex for GlobalIndex {
    open spec fn index_spec(&self) -> int {
        self.0 as int
    }

    fn new(index: usize) -> (r: Self) {
        GlobalIndex(index as u32)
    }

    fn index(&self) -> (r: usize) {
        self.0 as usize
    }
}

impl TypedIndex for LocalFuncIndex {
    open spec fn index_spec(&self) -> int {
        self.0 as int
    }

    fn new(index: usize) -> (r: Self) {
        LocalFuncIndex(index as u32)
    }

    fn index(&self) -> (r: usize) {
        self.0 as usize
    }
}

impl TypedIndex for LocalMemoryIndex {
    open spec fn index_spec(&self) -> int {
        self.0 as int
    }

    fn new(index: usize) -> (r: Self) {
        LocalMemoryIndex(index as u32)
    }

    fn index(&self) -> (r: usize) {
        self.0 as usize
    }
}

impl TypedIndex for LocalTableIndex {
    open spec fn index_spec(&self) -> int {
        self.0 as int
    }

    fn new(index: usize) -> (r: Self) {
        LocalTableIndex(index as u32)
    }

    fn index(&self) -> (r: usize) {
        self.0 as usize
    }
}

impl TypedIndex for LocalGlobalIndex {
    open spec fn index_spec(&self) -> int {
        self.0 as int
    }

    fn new(index: usize) -> (r: Self) {
        LocalGlobalIndex(index as u32)
    }

    fn index(&self) -> (r: usize) {
        self.0 as usize
    }
}

impl TypedIndex for ImportedFuncIndex {
    open spec fn index_spec(&self) -> int {
        self.0 as int
    }

    fn new(index: usize) -> (r: Self) {
        ImportedFuncIndex(index as u32)
    }

    fn index(&self) -> (r: usize) {
        self.0 as usize
    }
}

impl TypedIndex for ImportedMemoryIndex {
    open spec fn index_spec(&self) -> int {
        self.0 as int
    }

    fn new(index: usize) -> (r: Self) {
        ImportedMemoryIndex(index as u32)
    }

    fn index(&self) -> (r: usize) {
        self.0 as usize
    }
}

impl TypedIndex for ImportedTableIndex {
    open spec fn index_spec(&self) -> int {
        self.0 as int
    }

    fn new(index: usize) -> (r: Self) {
        ImportedTableIndex(index as u32)
    }

    fn index(&self) -> (r: usize) {
        self.0 as usize
    }
}

impl TypedIndex for ImportedGlobalIndex {
    open spec fn index_spec(&self) -> int {
        self.0 as int
    }

    fn new(index: usize) -> (r: Self) {
        ImportedGlobalIndex(index as u32)
    }

    fn index(&self) -> (r: usize) {
        self.0 as usize
    }
}

impl TypedIndex for SigIndex {
    open spec fn index_spec(&self) -> int {
        self.0 as int
    }

    fn new(index: usize) -> (r: Self) {
        SigIndex(index as u32)
    }

    fn index(&self) -> (r: usize) {
        self.0 as usize
    }
}

impl LocalImport for FuncIndex {
    type Local = LocalFuncIndex;

    type Import = ImportedFuncIndex;
}

impl LocalImport for MemoryIndex {
    type Local = LocalMemoryIndex;

    type Import = ImportedMemoryIndex;
}

impl LocalImport for TableIndex {
    type Local = LocalTableIndex;

    type Import = ImportedTableIndex;
}

impl LocalImport for GlobalIndex {
    type Local = LocalGlobalIndex;

    type Import = ImportedGlobalIndex;
}

/// Compares two type lists element by element.
fn type_lists_equal(a: &Vec<Type>, b: &Vec<Type>) -> (r: bool)
    ensures
        r == (a@ == b@),
{
    if a.len() != b.len() {
        return false;
    }
    for i in 0..a.len()
        invariant
            a@.len() == b@.len(),
            forall|j: int| 0 <= j < i ==> a@[j] == b@[j],
    {
        if a[i] != b[i] {
            return false;
        }
    }
    proof {
        assert(a@ =~= b@);
    }
    true
}

/// The signature of a function that is either implemented in a wasm module
/// or exposed to wasm by the host: its ordered parameter types and its
/// ordered return types.
#[derive(Debug, Hash)]
pub struct FuncSig {
    /// The ordered parameter types.
    pub params: Vec<Type>,
    /// The ordered return types.
    pub rets: Vec<Type>,
}

impl FuncSig {
    /// The ordered parameter types.
    pub open spec fn params_spec(&self) -> Seq<Type> {
        self.params@
    }

    /// The ordered return types.
    pub open spec fn returns_spec(&self) -> Seq<Type> {
        self.rets@
    }

    /// Builds a signature from its parameter and return type lists.
    pub fn new(params: Vec<Type>, returns: Vec<Type>) -> (r: Self)
        ensures
            r.params_spec() == params@,
            r.returns_spec() == returns@,
    {
        Self { params, rets: returns }
    }

    /// The parameter types.
    pub fn params(&self) -> (r: &Vec<Type>)
        ensures
            r@ == self.params_spec(),
    {
        &self.params
    }

    /// The return types.
    pub fn return_types(&self) -> (r: &Vec<Type>)
        ensures
            r@ == self.returns_spec(),
    {
        &self.rets
    }

    /// Whether `params` agrees with this signature's parameter list both in
    /// arity and, position by position, in type.
    pub fn check_param_value_types(&self, params: &[Value]) -> (r: bool)
        ensures
            r == (self.params_spec().len() == params@.len() && (forall|i: int|
                0 <= i < params@.len() ==> self.params_spec()[i] == params@[i].spec_ty())),
    {
        if self.params.len() != params.len() {
            return false;
        }
        for i in 0..params.len()
            invariant
                self.params@.len() == params@.len(),
                forall|j: int| 0 <= j < i ==> self.params@[j] == params@[j].spec_ty(),
        {
            if self.params[i] != params[i].ty() {
                return false;
            }
        }
        true
    }
}

impl FuncIndex {
    /// Projects this combined function index onto the local or imported
    /// sub-space, by comparing against the number of imported entities.
    pub fn local_or_import(self, info: &crate::module::ModuleInfo) -> (r: LocalOrImport<FuncIndex>)
        ensures
            self.0 < info.imported_functions@.len() ==> r == LocalOrImport::<FuncIndex>::Import(
                ImportedFuncIndex(self.0),
            ),
            self.0 >= info.imported_functions@.len() ==> r == LocalOrImport::<FuncIndex>::Local(
                LocalFuncIndex((self.0 - info.imported_functions@.len()) as u32),
            ),
    {
        if (self.0 as usize) < info.imported_functions.len() {
            LocalOrImport::Import(ImportedFuncIndex(self.0))
        } else {
            LocalOrImport::Local(LocalFuncIndex(self.0 - info.imported_functions.len() as u32))
        }
    }
}

impl LocalFuncIndex {
    /// Promotes this local function index back to the combined index space.
    pub fn convert_up(self, info: &crate::module::ModuleInfo) -> (r: FuncIndex)
        requires
            self.0 + info.imported_functions@.len() <= u32::MAX,
        ensures
            r.0 == self.0 + info.imported_functions@.len(),
    {
        FuncIndex(self.0 + info.imported_functions.len() as u32)
    }
}

impl ImportedFuncIndex {
    /// Promotes this imported function index back to the combined index space.
    pub fn convert_up(self, _info: &crate::module::ModuleInfo) -> (r: FuncIndex)
        ensures
            r.0 == self.0,
    {
        FuncIndex(self.0)
    }
}

impl MemoryIndex {
    /// Projects this combined memory index onto the local or imported
    /// sub-space, by comparing against the number of imported entities.
    pub fn local_or_import(self, info: &crate::module::ModuleInfo) -> (r: LocalOrImport<MemoryIndex>)
        ensures
            self.0 < info.imported_memories@.len() ==> r == LocalOrImport::<MemoryIndex>::Import(
                ImportedMemoryIndex(self.0),
            ),
            self.0 >= info.imported_memories@.len() ==> r == LocalOrImport::<MemoryIndex>::Local(
                LocalMemoryIndex((self.0 - info.imported_memories@.len()) as u32),
            ),
    {
        if (self.0 as usize) < info.imported_memories.len() {
            LocalOrImport::Import(ImportedMemoryIndex(self.0))
        } else {
            LocalOrImport::Local(LocalMemoryIndex(self.0 - info.imported_memories.len() as u32))
        }
    }
}

impl LocalMemoryIndex {
    /// Promotes this local memory index back to the combined index space.
    pub fn convert_up(self, info: &crate::module::ModuleInfo) -> (r: MemoryIndex)
        requires
            self.0 + info.imported_memories@.len() <= u32::MAX,
        ensures
            r.0 == self.0 + info.imported_memories@.len(),
    {
        MemoryIndex(self.0 + info.imported_memories.len() as u32)
    }
}

impl ImportedMemoryIndex {
    /// Promotes this imported memory index back to the combined index space.
    pub fn convert_up(self, _info: &crate::module::ModuleInfo) -> (r: MemoryIndex)
        ensures
            r.0 == self.0,
    {
        MemoryIndex(self.0)
    }
}

impl TableIndex {
    /// Projects this combined table index onto the local or imported
    /// sub-space, by comparing against the number of imported entities.
    pub fn local_or_import(self, info: &crate::module::ModuleInfo) -> (r: LocalOrImport<TableIndex>)
        ensures
            self.0 < info.imported_tables@.len() ==> r == LocalOrImport::<TableIndex>::Import(
                ImportedTableIndex(self.0),
            ),
            self.0 >= info.imported_tables@.len() ==> r == LocalOrImport::<TableIndex>::Local(
                LocalTableIndex((self.0 - info.imported_tables@.len()) as u32),
            ),
    {
        if (self.0 as usize) < info.imported_tables.len() {
            LocalOrImport::Import(ImportedTableIndex(self.0))
        } else {
            LocalOrImport::Local(LocalTableIndex(self.0 - info.imported_tables.len() as u32))
        }
    }
}

impl LocalTableIndex {
    /// Promotes this local table index back to the combined index space.
    pub fn convert_up(self, info: &crate::module::ModuleInfo) -> (r: TableIndex)
        requires
            self.0 + info.imported_tables@.len() <= u32::MAX,
        ensures
            r.0 == self.0 + info.imported_tables@.len(),
    {
        TableIndex(self.0 + info.imported_tables.len() as u32)
    }
}

impl ImportedTableIndex {
    /// Promotes this imported table index back to the combined index space.
    pub fn convert_up(self, _info: &crate::module::ModuleInfo) -> (r: TableIndex)
        ensures
            r.0 == self.0,
    {
        TableIndex(self.0)
    }
}

impl GlobalIndex {
    /// Projects this combined global index onto the local or imported
    /// sub-space, by comparing against the number of imported entities.
    pub fn local_or_import(self, info: &crate::module::ModuleInfo) -> (r: LocalOrImport<GlobalIndex>)
        ensures
            self.0 < info.imported_globals@.len() ==> r == LocalOrImport::<GlobalIndex>::Import(
                ImportedGlobalIndex(self.0),
            ),
            self.0 >= info.imported_globals@.len() ==> r == LocalOrImport::<GlobalIndex>::Local(
                LocalGlobalIndex((self.0 - info.imported_globals@.len()) as u32),
            ),
    {
        if (self.0 as usize) < info.imported_globals.len() {
            LocalOrImport::Import(ImportedGlobalIndex(self.0))
        } else {
            LocalOrImport::Local(LocalGlobalIndex(self.0 - info.imported_globals.len() as u32))
        }
    }
}

impl LocalGlobalIndex {
    /// Promotes this local global index back to the combined index space.
    pub fn convert_up(self, info: &crate::module::ModuleInfo) -> (r: GlobalIndex)
        requires
            self.0 + info.imported_globals@.len() <= u32::MAX,
        ensures
            r.0 == self.0 + info.imported_globals@.len(),
    {
        GlobalIndex(self.0 + info.imported_globals.len() as u32)
    }
}

impl ImportedGlobalIndex {
    /// Promotes this imported global index back to the combined index space.
    pub fn convert_up(self, _info: &crate::module::ModuleInfo) -> (r: GlobalIndex)
        ensures
            r.0 == self.0,
    {
        GlobalIndex(self.0)
    }
}

impl Clone for FuncSig {
    /// A clone carries the same parameter and return types.
    fn clone(&self) -> (res: Self)
        ensures
            res.params@ == self.params@,
            res.rets@ == self.rets@,
    {
        let mut params: Vec<Type> = Vec::new();
        let np = self.params.len();
        for i in 0..np
            invariant
                np == self.params@.len(),
                params@ == self.params@.take(i as int),
        {
            params.push(self.params[i]);
            proof {
                assert(params@ =~= self.params@.take(i as int + 1));
            }
        }
        let mut rets: Vec<Type> = Vec::new();
        let nr = self.rets.len();
        for i in 0..nr
            invariant
                nr == self.rets@.len(),
                rets@ == self.rets@.take(i as int),
        {
            rets.push(self.rets[i]);
            proof {
                assert(rets@ =~= self.rets@.take(i as int + 1));
            }
        }
        proof {
            assert(self.params@.take(np as int) =~= self.params@);
            assert(self.rets@.take(nr as int) =~= self.rets@);
        }
        FuncSig { params, rets }
    }
}

/// The characters of a comma-joined type list.
pub open spec fn spec_type_list_string(ts: Seq<Type>) -> Seq<char>
    decreases ts.len(),
{
    if ts.len() == 0 {
        Seq::<char>::empty()
    } else if ts.len() == 1 {
        ts[0].spec_name()
    } else {
        spec_type_list_string(ts.drop_last()) + ", "@ + ts.last().spec_name()
    }
}

/// The characters a signature reads as: its comma-joined parameter list in
/// brackets, an arrow, and its comma-joined return list in brackets.
pub open spec fn spec_sig_string(params: Seq<Type>, rets: Seq<Type>) -> Seq<char> {
    "["@ + spec_type_list_string(params) + "] -> ["@ + spec_type_list_string(rets) + "]"@
}

/// Renders a comma-joined type list.
fn type_list_string(ts: &Vec<Type>) -> (r: String)
    ensures
        r@ == spec_type_list_string(ts@),
{
    let mut s = String::new();
    let n = ts.len();
    for i in 0..n
        invariant
            n == ts@.len(),
            s@ == spec_type_list_string(ts@.take(i as int)),
    {
        if i > 0 {
            s.append(", ");
        }
        s.append(ts[i].name());
        proof {
            let taken = ts@.take(i as int + 1);
            assert(taken.drop_last() =~= ts@.take(i as int));
            assert(taken.last() == ts@[i as int]);
            if i == 0 {
                assert(s@ =~= spec_type_list_string(taken));
            } else {
                assert(s@ =~= spec_type_list_string(taken));
            }
        }
    }
    proof {
        assert(ts@.take(n as int) =~= ts@);
    }
    s
}

impl FuncSig {
    /// The signature as text: the parameter types, an arrow, and the
    /// return types.
    pub fn display_string(&self) -> (r: String)
        ensures
            r@ == spec_sig_string(self.params@, self.rets@),
    {
        let mut s = String::from_str("[");
        s.append(type_list_string(&self.params).as_str());
        s.append("] -> [");
        s.append(type_list_string(&self.rets).as_str());
        s.append("]");
        proof {
            assert(s@ =~= spec_sig_string(self.params@, self.rets@));
        }
        s
    }
}

impl PartialEq for FuncSig {
    fn eq(&self, other: &FuncSig) -> (r: bool) {
        type_lists_equal(&self.params, &other.params) && type_lists_equal(
            &self.rets,
            &other.rets,
        )
    }
}

impl Eq for FuncSig {
}

impl vstd::std_specs::cmp::PartialEqSpecImpl for FuncSig {
    open spec fn obeys_eq_spec() -> bool {
        true
    }

    open spec fn eq_spec(&self, other: &FuncSig) -> bool {
        self.params@ == other.params@ && self.rets@ == other.rets@
    }
}

} // verus!
