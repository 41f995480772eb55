use vstd::prelude::*;

verus! {

/// The abstract heap types of the reference-type hierarchy.
#[derive(Debug, Clone, Copy, PartialEq, Eq, Structural)]
pub enum AbstractHeapType {
    Func,
    Extern,
    Any,
    /// The bottom of the `any` hierarchy, written `none` in the text format.
    NoAny,
    NoExtern,
    NoFunc,
    Eq,
    Struct,
    Array,
    I31,
}

/// What a reference points at: an abstract heap type or a type of the
/// module's type section.
#[derive(Debug, Clone, Copy, PartialEq, Eq, Structural)]
pub enum HeapType {
    Abstract { shared: bool, ty: AbstractHeapType },
    Concrete(u32),
}

/// A reference type.
#[derive(Debug, Clone, Copy, PartialEq, Eq, Structural)]
pub struct RefType {
    pub nullable: bool,
    pub heap_type: HeapType,
}

/// A value type.
#[derive(Debug, Clone, Copy, PartialEq, Eq, Structural)]
pub enum ValType {
    I32,
    I64,
    F32,
    F64,
    V128,
    Ref(RefType),
}

/// The type of a struct field or of an array element.
#[derive(Debug, Clone, Copy, PartialEq, Eq, Structural)]
pub enum StorageType {
    I8,
    I16,
    Val(ValType),
}

/// A struct field or an array element, with its mutability.
#[derive(Debug, Clone, Copy, PartialEq, Eq, Structural)]
pub struct FieldType {
    pub element_type: StorageType,
    pub mutable: bool,
}

/// The result annotation of a block, loop or if.
#[derive(Debug, Clone, Copy, PartialEq, Eq, Structural)]
pub enum BlockType {
    Empty,
    Result(ValType),
    FunctionType(u32),
}

/// The immediate of a memory access.
#[derive(Debug, Clone, Copy, PartialEq, Eq, Structural)]
pub struct MemArg {
    pub offset: u64,
    pub align: u32,
    pub memory_index: u32,
}

/// The limits of a linear memory.
#[derive(Debug, Clone, Copy, PartialEq, Eq, Structural)]
pub struct MemoryType {
    pub minimum: u64,
    pub maximum: Option<u64>,
    pub memory64: bool,
    pub shared: bool,
    pub page_size_log2: Option<u32>,
}

/// The element type and limits of a table.
#[derive(Debug, Clone, Copy, PartialEq, Eq, Structural)]
pub struct TableType {
    pub element_type: RefType,
    pub table64: bool,
    pub minimum: u64,
    pub maximum: Option<u64>,
    pub shared: bool,
}

/// A constant expression: the initializer of a global or the offset of a
/// segment. Float constants are given by their bit patterns.
#[derive(Debug, Clone, Copy, PartialEq, Eq, Structural)]
pub enum ConstExpr {
    I32Const(i32),
    I64Const(i64),
    F32Const(u32),
    F64Const(u64),
    GlobalGet(u32),
    RefNull(HeapType),
    RefFunc(u32),
}

/// A copy of a list of value types.
pub(crate) fn copy_types(v: &Vec<ValType>) -> (r: Vec<ValType>)
    ensures
        r@ == v@,
{
    let mut r: Vec<ValType> = Vec::new();
    let mut i: usize = 0;
    while i < v.len()
        invariant
            i <= v@.len(),
            r@ == v@.subrange(0, i as int),
        decreases v@.len() - i,
    {
        r.push(v[i]);
        i = i + 1;
    }
    assert(v@.subrange(0, v@.len() as int) == v@);
    r
}

/// A reference to the abstract heap type `ty`, unshared.
pub open spec fn abstract_ref(nullable: bool, ty: AbstractHeapType) -> ValType {
    ValType::Ref(RefType { nullable, heap_type: HeapType::Abstract { shared: false, ty } })
}

fn abstract_ref_type(nullable: bool, ty: AbstractHeapType) -> (r: ValType)
    ensures
        r == abstract_ref(nullable, ty),
{
    ValType::Ref(RefType { nullable, heap_type: HeapType::Abstract { shared: false, ty } })
}

/// `anyref`, or its non-nullable form.
pub fn any_type(nullable: bool) -> (r: ValType)
    ensures
        r == abstract_ref(nullable, AbstractHeapType::Any),
{
    abstract_ref_type(nullable, AbstractHeapType::Any)
}

/// `nullref`, or its non-nullable form.
pub fn none_type(nullable: bool) -> (r: ValType)
    ensures
        r == abstract_ref(nullable, AbstractHeapType::NoAny),
{
    abstract_ref_type(nullable, AbstractHeapType::NoAny)
}

/// `i31ref`, or its non-nullable form.
pub fn i31_type(nullable: bool) -> (r: ValType)
    ensures
        r == abstract_ref(nullable, AbstractHeapType::I31),
{
    abstract_ref_type(nullable, AbstractHeapType::I31)
}

/// `eqref`, or its non-nullable form.
pub fn eq_type(nullable: bool) -> (r: ValType)
    ensures
        r == abstract_ref(nullable, AbstractHeapType::Eq),
{
    abstract_ref_type(nullable, AbstractHeapType::Eq)
}

/// `funcref`, or its non-nullable form.
pub fn func_type(nullable: bool) -> (r: ValType)
    ensures
        r == abstract_ref(nullable, AbstractHeapType::Func),
{
    abstract_ref_type(nullable, AbstractHeapType::Func)
}

/// `externref`, or its non-nullable form.
pub fn extern_type(nullable: bool) -> (r: ValType)
    ensures
        r == abstract_ref(nullable, AbstractHeapType::Extern),
{
    abstract_ref_type(nullable, AbstractHeapType::Extern)
}

/// A field of the given storage type and mutability.
pub fn field_type(storage: StorageType, mutable: bool) -> (r: FieldType)
    ensures
        r == (FieldType { element_type: storage, mutable }),
{
    FieldType { element_type: storage, mutable }
}

} // verus!
