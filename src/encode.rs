use crate::instr::Instr;
use crate::module::{ExportKind, ExportView, TypeDefView};
use crate::types::{
    AbstractHeapType, BlockType, ConstExpr, FieldType, HeapType, MemoryType, RefType, StorageType,
    TableType, ValType,
};
use vstd::prelude::*;
use wasm_encoder::{
    BlockType as WasmBlockType, ConstExpr as WasmConstExpr, FieldType as WasmFieldType,
    Function as WasmFunction, HeapType as WasmHeapType, Module as WasmModule,
    RefType as WasmRefType, StorageType as WasmStorageType, ValType as WasmValType,
};

verus! {

// The encoder's types, which the library hands from one call to the next
// without looking inside.
#[verifier::external_type_specification]
#[verifier::external_body]
pub struct ExEncModule(WasmModule);

#[verifier::external_type_specification]
#[verifier::external_body]
pub struct ExEncFunction(WasmFunction);

#[verifier::external_type_specification]
#[verifier::external_body]
pub struct ExEncTypeSection(wasm_encoder::TypeSection);

#[verifier::external_type_specification]
#[verifier::external_body]
pub struct ExEncImportSection(wasm_encoder::ImportSection);

#[verifier::external_type_specification]
#[verifier::external_body]
pub struct ExEncFunctionSection(wasm_encoder::FunctionSection);

#[verifier::external_type_specification]
#[verifier::external_body]
pub struct ExEncTableSection(wasm_encoder::TableSection);

#[verifier::external_type_specification]
#[verifier::external_body]
pub struct ExEncMemorySection(wasm_encoder::MemorySection);

#[verifier::external_type_specification]
#[verifier::external_body]
pub struct ExEncGlobalSection(wasm_encoder::GlobalSection);

#[verifier::external_type_specification]
#[verifier::external_body]
pub struct ExEncExportSection(wasm_encoder::ExportSection);

#[verifier::external_type_specification]
#[verifier::external_body]
pub struct ExEncElementSection(wasm_encoder::ElementSection);

#[verifier::external_type_specification]
#[verifier::external_body]
pub struct ExEncCodeSection(wasm_encoder::CodeSection);

#[verifier::external_type_specification]
#[verifier::external_body]
pub struct ExEncDataSection(wasm_encoder::DataSection);

#[verifier::external_type_specification]
#[verifier::external_body]
pub struct ExEncNameSection(wasm_encoder::NameSection);

#[verifier::external_type_specification]
#[verifier::external_body]
pub struct ExEncNameMap(wasm_encoder::NameMap);

#[verifier::external_type_specification]
#[verifier::external_body]
pub struct ExEncValType(WasmValType);

#[verifier::external_type_specification]
#[verifier::external_body]
pub struct ExEncRefType(WasmRefType);

#[verifier::external_type_specification]
#[verifier::external_body]
pub struct ExEncHeapType(WasmHeapType);

#[verifier::external_type_specification]
#[verifier::external_body]
pub struct ExEncStorageType(WasmStorageType);

#[verifier::external_type_specification]
#[verifier::external_body]
pub struct ExEncFieldType(WasmFieldType);

#[verifier::external_type_specification]
#[verifier::external_body]
pub struct ExEncBlockType(WasmBlockType);

#[verifier::external_type_specification]
#[verifier::external_body]
pub struct ExEncConstExpr(WasmConstExpr);

#[verifier::external_type_specification]
#[verifier::external_body]
pub struct ExEncIeee32(wasm_encoder::Ieee32);

#[verifier::external_type_specification]
#[verifier::external_body]
pub struct ExEncIeee64(wasm_encoder::Ieee64);

/// What one section written into a module holds, as plain values.
pub enum SectionView {
    Types(Seq<TypeDefView>),
    Imports(Seq<(Seq<char>, Seq<char>, u32)>),
    Functions(Seq<u32>),
    Tables(Seq<TableType>),
    Memories(Seq<MemoryType>),
    Globals(Seq<(ValType, bool, bool, ConstExpr)>),
    Exports(Seq<ExportView>),
    Start(u32),
    Elements(Seq<(Option<(Option<u32>, ConstExpr)>, Seq<u32>)>),
    Code(Seq<(Seq<ValType>, Seq<Instr>)>),
    Data(Seq<(ConstExpr, Seq<u8>)>),
    Names(Seq<(u8, Seq<(u32, Seq<char>)>)>),
}

/// The sections written so far into a module, in order.
pub uninterp spec fn module_contents(m: WasmModule) -> Seq<SectionView>;

/// The bytes of a module that holds `sections`, in order, after the header.
pub uninterp spec fn module_bytes(sections: Seq<SectionView>) -> Seq<u8>;

/// The types written so far into a type section, in order.
pub uninterp spec fn type_entries(s: wasm_encoder::TypeSection) -> Seq<TypeDefView>;

/// The imports written so far into an import section: module, name and
/// type index of each, in order.
pub uninterp spec fn import_entries(s: wasm_encoder::ImportSection) -> Seq<(Seq<char>, Seq<char>, u32)>;

/// The type indices written so far into a function section, in order.
pub uninterp spec fn function_type_indices(s: wasm_encoder::FunctionSection) -> Seq<u32>;

/// The tables written so far into a table section, in order.
pub uninterp spec fn table_entries(s: wasm_encoder::TableSection) -> Seq<TableType>;

/// The memories written so far into a memory section, in order.
pub uninterp spec fn memory_entries(s: wasm_encoder::MemorySection) -> Seq<MemoryType>;

/// The globals written so far into a global section: type, mutability,
/// sharing and initializer of each, in order.
pub uninterp spec fn global_entries(s: wasm_encoder::GlobalSection) -> Seq<(ValType, bool, bool, ConstExpr)>;

/// The exports written so far into an export section, in order.
pub uninterp spec fn export_entries_written(s: wasm_encoder::ExportSection) -> Seq<ExportView>;

/// The element segments written so far into an element section: table and
/// offset of an active one (`None` for a passive one), and the functions.
pub uninterp spec fn element_entries(s: wasm_encoder::ElementSection) -> Seq<(Option<(Option<u32>, ConstExpr)>, Seq<u32>)>;

/// The bodies written so far into a code section: locals and instructions
/// of each, in order.
pub uninterp spec fn code_bodies(s: wasm_encoder::CodeSection) -> Seq<(Seq<ValType>, Seq<Instr>)>;

/// The locals declared by a function body.
pub uninterp spec fn body_locals(f: WasmFunction) -> Seq<ValType>;

/// The instructions written so far into a function body, in order.
pub uninterp spec fn body_instrs(f: WasmFunction) -> Seq<Instr>;

/// The active segments of memory 0 written so far into a data section:
/// offset and bytes of each, in order.
pub uninterp spec fn data_entries(s: wasm_encoder::DataSection) -> Seq<(ConstExpr, Seq<u8>)>;

/// The subsections written so far into a name section: the subsection id
/// (1 for functions, 7 for globals) and its index-name pairs, in order.
pub uninterp spec fn name_subsections(s: wasm_encoder::NameSection) -> Seq<(u8, Seq<(u32, Seq<char>)>)>;

/// The index-name pairs written so far into a name map, in order.
pub uninterp spec fn name_entries(m: wasm_encoder::NameMap) -> Seq<(u32, Seq<char>)>;

/// Relies on `Module::new`: a module that holds the header and no section.
pub assume_specification[ WasmModule::new ]() -> (r: WasmModule)
    ensures
        module_contents(r) == Seq::<SectionView>::empty(),
;

/// Relies on `Module::finish`: the bytes written so far, which the sections
/// written determine.
pub assume_specification[ WasmModule::finish ](m: WasmModule) -> (r: Vec<u8>)
    ensures
        r@ == module_bytes(module_contents(m)),
;

/// Relies on `TypeSection::new`: an empty encoder.
pub assume_specification[ wasm_encoder::TypeSection::new ]() -> (r: wasm_encoder::TypeSection)
    ensures
        type_entries(r) == Seq::<TypeDefView>::empty(),
;

/// Relies on `ImportSection::new`: an empty encoder.
pub assume_specification[ wasm_encoder::ImportSection::new ]() -> (r: wasm_encoder::ImportSection)
    ensures
        import_entries(r) == Seq::<(Seq<char>, Seq<char>, u32)>::empty(),
;

/// Relies on `FunctionSection::new`: an empty encoder.
pub assume_specification[ wasm_encoder::FunctionSection::new ]() -> (r: wasm_encoder::FunctionSection)
    ensures
        function_type_indices(r) == Seq::<u32>::empty(),
;

/// Relies on `TableSection::new`: an empty encoder.
pub assume_specification[ wasm_encoder::TableSection::new ]() -> (r: wasm_encoder::TableSection)
    ensures
        table_entries(r) == Seq::<TableType>::empty(),
;

/// Relies on `MemorySection::new`: an empty encoder.
pub assume_specification[ wasm_encoder::MemorySection::new ]() -> (r: wasm_encoder::MemorySection)
    ensures
        memory_entries(r) == Seq::<MemoryType>::empty(),
;

/// Relies on `GlobalSection::new`: an empty encoder.
pub assume_specification[ wasm_encoder::GlobalSection::new ]() -> (r: wasm_encoder::GlobalSection)
    ensures
        global_entries(r) == Seq::<(ValType, bool, bool, ConstExpr)>::empty(),
;

/// Relies on `ExportSection::new`: an empty encoder.
pub assume_specification[ wasm_encoder::ExportSection::new ]() -> (r: wasm_encoder::ExportSection)
    ensures
        export_entries_written(r) == Seq::<ExportView>::empty(),
;

/// Relies on `ElementSection::new`: an empty encoder.
pub assume_specification[ wasm_encoder::ElementSection::new ]() -> (r: wasm_encoder::ElementSection)
    ensures
        element_entries(r) == Seq::<(Option<(Option<u32>, ConstExpr)>, Seq<u32>)>::empty(),
;

/// Relies on `CodeSection::new`: an empty encoder.
pub assume_specification[ wasm_encoder::CodeSection::new ]() -> (r: wasm_encoder::CodeSection)
    ensures
        code_bodies(r) == Seq::<(Seq<ValType>, Seq<Instr>)>::empty(),
;

/// Relies on `DataSection::new`: an empty encoder.
pub assume_specification[ wasm_encoder::DataSection::new ]() -> (r: wasm_encoder::DataSection)
    ensures
        data_entries(r) == Seq::<(ConstExpr, Seq<u8>)>::empty(),
;

/// Relies on `NameSection::new`: an empty encoder.
pub assume_specification[ wasm_encoder::NameSection::new ]() -> (r: wasm_encoder::NameSection)
    ensures
        name_subsections(r) == Seq::<(u8, Seq<(u32, Seq<char>)>)>::empty(),
;

/// Relies on `NameMap::new`: an empty encoder.
pub assume_specification[ wasm_encoder::NameMap::new ]() -> (r: wasm_encoder::NameMap)
    ensures
        name_entries(r) == Seq::<(u32, Seq<char>)>::empty(),
;

/// Relies on `ConstExpr::i32_const`: the constant expression of that single instruction.
pub assume_specification[ WasmConstExpr::i32_const ](value: i32) -> WasmConstExpr;

/// Relies on `ConstExpr::i64_const`: the constant expression of that single instruction.
pub assume_specification[ WasmConstExpr::i64_const ](value: i64) -> WasmConstExpr;

/// Relies on `ConstExpr::f32_const`: the constant expression of that single instruction.
pub assume_specification[ WasmConstExpr::f32_const ](
    value: wasm_encoder::Ieee32,
) -> WasmConstExpr;

/// Relies on `ConstExpr::f64_const`: the constant expression of that single instruction.
pub assume_specification[ WasmConstExpr::f64_const ](
    value: wasm_encoder::Ieee64,
) -> WasmConstExpr;

/// Relies on `ConstExpr::global_get`: the constant expression of that single instruction.
pub assume_specification[ WasmConstExpr::global_get ](
    index: u32,
) -> WasmConstExpr;

/// Relies on `ConstExpr::ref_null`: the constant expression of that single instruction.
pub assume_specification[ WasmConstExpr::ref_null ](
    ty: WasmHeapType,
) -> WasmConstExpr;

/// Relies on `ConstExpr::ref_func`: the constant expression of that single instruction.
pub assume_specification[ WasmConstExpr::ref_func ](
    func: u32,
) -> WasmConstExpr;

/// Relies on `Ieee32::new`: the `f32` of these bits.
pub assume_specification[ wasm_encoder::Ieee32::new ](bits: u32) -> wasm_encoder::Ieee32;

/// Relies on `Ieee64::new`: the `f64` of these bits.
pub assume_specification[ wasm_encoder::Ieee64::new ](bits: u64) -> wasm_encoder::Ieee64;

/// Relies on the encoder's `ValType`: the same numeric type.
#[verifier::external_body]
fn enc_num_val_type(t: ValType) -> WasmValType
    requires
        !(t is Ref),
{
    match t {
        ValType::I32 => WasmValType::I32,
        ValType::I64 => WasmValType::I64,
        ValType::F32 => WasmValType::F32,
        ValType::F64 => WasmValType::F64,
        _ => WasmValType::V128,
    }
}

/// Relies on the encoder's `ValType::Ref`.
#[verifier::external_body]
fn enc_ref_val_type(r: WasmRefType) -> WasmValType {
    WasmValType::Ref(r)
}

/// Relies on the encoder's `RefType`.
#[verifier::external_body]
fn enc_ref_type(nullable: bool, heap_type: WasmHeapType) -> WasmRefType {
    WasmRefType { nullable, heap_type }
}

/// Relies on the encoder's `HeapType::Abstract`, with the same abstract type.
#[verifier::external_body]
fn enc_abstract_heap_type(shared: bool, ty: AbstractHeapType) -> WasmHeapType {
    let ty = match ty {
        AbstractHeapType::Func => wasm_encoder::AbstractHeapType::Func,
        AbstractHeapType::Extern => wasm_encoder::AbstractHeapType::Extern,
        AbstractHeapType::Any => wasm_encoder::AbstractHeapType::Any,
        AbstractHeapType::NoAny => wasm_encoder::AbstractHeapType::None,
        AbstractHeapType::NoExtern => wasm_encoder::AbstractHeapType::NoExtern,
        AbstractHeapType::NoFunc => wasm_encoder::AbstractHeapType::NoFunc,
        AbstractHeapType::Eq => wasm_encoder::AbstractHeapType::Eq,
        AbstractHeapType::Struct => wasm_encoder::AbstractHeapType::Struct,
        AbstractHeapType::Array => wasm_encoder::AbstractHeapType::Array,
        AbstractHeapType::I31 => wasm_encoder::AbstractHeapType::I31,
    };
    WasmHeapType::Abstract { shared, ty }
}

/// Relies on the encoder's `HeapType::Concrete`.
#[verifier::external_body]
fn enc_concrete_heap_type(index: u32) -> WasmHeapType {
    WasmHeapType::Concrete(index)
}

/// Relies on the encoder's `StorageType`: `I8` or `I16` for a packed type.
#[verifier::external_body]
fn enc_packed_storage_type(s: StorageType) -> WasmStorageType
    requires
        !(s is Val),
{
    match s {
        StorageType::I8 => WasmStorageType::I8,
        _ => WasmStorageType::I16,
    }
}

/// Relies on the encoder's `StorageType::Val`.
#[verifier::external_body]
fn enc_val_storage_type(v: WasmValType) -> WasmStorageType {
    WasmStorageType::Val(v)
}

/// Relies on the encoder's `FieldType`.
#[verifier::external_body]
fn enc_field_type(element_type: WasmStorageType, mutable: bool) -> WasmFieldType {
    WasmFieldType { element_type, mutable }
}

/// Relies on the encoder's `BlockType::Empty`.
#[verifier::external_body]
fn enc_empty_block_type() -> WasmBlockType {
    WasmBlockType::Empty
}

/// Relies on the encoder's `BlockType::Result`.
#[verifier::external_body]
fn enc_result_block_type(v: WasmValType) -> WasmBlockType {
    WasmBlockType::Result(v)
}

/// Relies on the encoder's `BlockType::FunctionType`.
#[verifier::external_body]
fn enc_func_block_type(index: u32) -> WasmBlockType {
    WasmBlockType::FunctionType(index)
}

/// The encoder's form of a heap type.
pub(crate) fn encode_heap_type(h: HeapType) -> WasmHeapType {
    match h {
        HeapType::Abstract { shared, ty } => enc_abstract_heap_type(shared, ty),
        HeapType::Concrete(i) => enc_concrete_heap_type(i),
    }
}

/// The encoder's form of a reference type.
pub(crate) fn encode_ref_type(r: RefType) -> WasmRefType {
    enc_ref_type(r.nullable, encode_heap_type(r.heap_type))
}

/// The encoder's form of a value type.
pub(crate) fn encode_val_type(t: ValType) -> WasmValType {
    match t {
        ValType::Ref(r) => enc_ref_val_type(encode_ref_type(r)),
        _ => enc_num_val_type(t),
    }
}

/// The encoder's form of a list of value types.
pub(crate) fn encode_val_types(ts: &Vec<ValType>) -> Vec<WasmValType>
{
    let mut r: Vec<WasmValType> = Vec::new();
    let mut i: usize = 0;
    while i < ts.len()
        invariant
            i <= ts@.len(),
        decreases ts@.len() - i,
    {
        r.push(encode_val_type(ts[i]));
        i = i + 1;
    }
    r
}

/// The encoder's form of a field type.
pub(crate) fn encode_field_type(f: FieldType) -> WasmFieldType {
    let s = match f.element_type {
        StorageType::Val(v) => enc_val_storage_type(encode_val_type(v)),
        _ => enc_packed_storage_type(f.element_type),
    };
    enc_field_type(s, f.mutable)
}

/// The encoder's form of a block type.
pub(crate) fn encode_block_type(bt: BlockType) -> WasmBlockType {
    match bt {
        BlockType::Empty => enc_empty_block_type(),
        BlockType::Result(v) => enc_result_block_type(encode_val_type(v)),
        BlockType::FunctionType(i) => enc_func_block_type(i),
    }
}

/// The encoder's form of a constant expression.
pub(crate) fn encode_const_expr(e: ConstExpr) -> WasmConstExpr {
    match e {
        ConstExpr::I32Const(v) => WasmConstExpr::i32_const(v),
        ConstExpr::I64Const(v) => WasmConstExpr::i64_const(v),
        ConstExpr::F32Const(bits) => WasmConstExpr::f32_const(wasm_encoder::Ieee32::new(bits)),
        ConstExpr::F64Const(bits) => WasmConstExpr::f64_const(wasm_encoder::Ieee64::new(bits)),
        ConstExpr::GlobalGet(i) => WasmConstExpr::global_get(i),
        ConstExpr::RefNull(h) => WasmConstExpr::ref_null(encode_heap_type(h)),
        ConstExpr::RefFunc(f) => WasmConstExpr::ref_func(f),
    }
}

/// Relies on `TypeSection::ty` and `CoreTypeEncoder::function`: appends a
/// function type.
#[verifier::external_body]
pub(crate) fn add_func_type(s: &mut wasm_encoder::TypeSection, params: &Vec<ValType>, results: &Vec<ValType>)
    ensures
        type_entries(*final(s)) == type_entries(*old(s)).push(
            TypeDefView::Func { params: params@, results: results@ },
        ),
{
    s.ty().function(encode_val_types(params), encode_val_types(results));
}

/// Relies on `TypeSection::ty` and `CoreTypeEncoder::struct_`: appends a
/// struct type.
#[verifier::external_body]
pub(crate) fn add_struct_type(s: &mut wasm_encoder::TypeSection, fields: &Vec<FieldType>)
    ensures
        type_entries(*final(s)) == type_entries(*old(s)).push(TypeDefView::Struct(fields@)),
{
    s.ty().struct_(encode_field_types(fields));
}

/// Relies on `TypeSection::ty` and `CoreTypeEncoder::array`: appends an
/// array type.
#[verifier::external_body]
pub(crate) fn add_array_type(s: &mut wasm_encoder::TypeSection, item: FieldType)
    ensures
        type_entries(*final(s)) == type_entries(*old(s)).push(TypeDefView::Array(item)),
{
    let f = encode_field_type(item);
    s.ty().array(&f.element_type, f.mutable);
}

/// Relies on `ImportSection::import`: appends the import of a function whose
/// signature is the type at `type_index`.
#[verifier::external_body]
pub(crate) fn add_func_import(
    s: &mut wasm_encoder::ImportSection,
    module: &str,
    name: &str,
    type_index: u32,
)
    ensures
        import_entries(*final(s)) == import_entries(*old(s)).push((module@, name@, type_index)),
{
    s.import(module, name, wasm_encoder::EntityType::Function(type_index));
}

/// Relies on `FunctionSection::function`: appends a function's type index.
#[verifier::external_body]
pub(crate) fn add_function(s: &mut wasm_encoder::FunctionSection, type_index: u32)
    ensures
        function_type_indices(*final(s)) == function_type_indices(*old(s)).push(type_index),
{
    s.function(type_index);
}

/// Relies on `TableSection::table`: appends a table.
#[verifier::external_body]
pub(crate) fn add_table(s: &mut wasm_encoder::TableSection, t: TableType)
    ensures
        table_entries(*final(s)) == table_entries(*old(s)).push(t),
{
    s.table(wasm_encoder::TableType {
        element_type: encode_ref_type(t.element_type),
        table64: t.table64,
        minimum: t.minimum,
        maximum: t.maximum,
        shared: t.shared,
    });
}

/// Relies on `MemorySection::memory`: appends a memory.
#[verifier::external_body]
pub(crate) fn add_memory(s: &mut wasm_encoder::MemorySection, m: MemoryType)
    ensures
        memory_entries(*final(s)) == memory_entries(*old(s)).push(m),
{
    s.memory(wasm_encoder::MemoryType {
        minimum: m.minimum,
        maximum: m.maximum,
        memory64: m.memory64,
        shared: m.shared,
        page_size_log2: m.page_size_log2,
    });
}

/// Relies on `GlobalSection::global`: appends a global.
#[verifier::external_body]
pub(crate) fn add_global(
    s: &mut wasm_encoder::GlobalSection,
    ty: ValType,
    mutable: bool,
    shared: bool,
    init: ConstExpr,
)
    ensures
        global_entries(*final(s)) == global_entries(*old(s)).push((ty, mutable, shared, init)),
{
    let global_type = wasm_encoder::GlobalType { val_type: encode_val_type(ty), mutable, shared };
    s.global(global_type, &encode_const_expr(init));
}

/// Relies on `ExportSection::export`: appends the export of the item of
/// that kind at `index`.
#[verifier::external_body]
pub(crate) fn add_export(s: &mut wasm_encoder::ExportSection, name: &str, kind: ExportKind, index: u32)
    ensures
        export_entries_written(*final(s)) == export_entries_written(*old(s)).push(
            ExportView { name: name@, kind, index },
        ),
{
    let kind = match kind {
        ExportKind::Func => wasm_encoder::ExportKind::Func,
        ExportKind::Global => wasm_encoder::ExportKind::Global,
    };
    s.export(name, kind, index);
}

/// Relies on `ElementSection::active`: appends an active segment of function
/// references.
#[verifier::external_body]
pub(crate) fn add_active_element(
    s: &mut wasm_encoder::ElementSection,
    table: Option<u32>,
    offset: ConstExpr,
    functions: &Vec<u32>,
)
    ensures
        element_entries(*final(s)) == element_entries(*old(s)).push(
            (Some((table, offset)), functions@),
        ),
{
    let elements = wasm_encoder::Elements::Functions(functions.as_slice().into());
    s.active(table, &encode_const_expr(offset), elements);
}

/// Relies on `ElementSection::passive`: appends a passive segment of function
/// references.
#[verifier::external_body]
pub(crate) fn add_passive_element(s: &mut wasm_encoder::ElementSection, functions: &Vec<u32>)
    ensures
        element_entries(*final(s)) == element_entries(*old(s)).push((None, functions@)),
{
    s.passive(wasm_encoder::Elements::Functions(functions.as_slice().into()));
}

/// Relies on `Function::new_with_locals_types`: a body with these locals and
/// no instructions yet.
#[verifier::external_body]
pub(crate) fn new_body(locals: &Vec<ValType>) -> (r: WasmFunction)
    ensures
        body_locals(r) == locals@,
        body_instrs(r) == Seq::<Instr>::empty(),
{
    WasmFunction::new_with_locals_types(encode_val_types(locals))
}

/// Relies on `CodeSection::function`: appends a function body.
#[verifier::external_body]
pub(crate) fn add_code(s: &mut wasm_encoder::CodeSection, f: &WasmFunction)
    ensures
        code_bodies(*final(s)) == code_bodies(*old(s)).push((body_locals(*f), body_instrs(*f))),
{
    s.function(f);
}

/// Relies on `DataSection::active`: appends an active segment of memory 0.
#[verifier::external_body]
pub(crate) fn add_data(s: &mut wasm_encoder::DataSection, offset: ConstExpr, data: &Vec<u8>)
    ensures
        data_entries(*final(s)) == data_entries(*old(s)).push((offset, data@)),
{
    s.active(0, &encode_const_expr(offset), data.iter().copied());
}

/// Relies on `NameMap::append`: names the item at `index`.
#[verifier::external_body]
pub(crate) fn add_name(m: &mut wasm_encoder::NameMap, index: u32, name: &str)
    ensures
        name_entries(*final(m)) == name_entries(*old(m)).push((index, name@)),
{
    m.append(index, name);
}

/// Relies on `NameSection::functions`: adds the function names, subsection 1.
#[verifier::external_body]
pub(crate) fn set_function_names(s: &mut wasm_encoder::NameSection, names: &wasm_encoder::NameMap)
    ensures
        name_subsections(*final(s)) == name_subsections(*old(s)).push((1u8, name_entries(*names))),
{
    s.functions(names);
}

/// Relies on `NameSection::globals`: adds the global names, subsection 7.
#[verifier::external_body]
pub(crate) fn set_global_names(s: &mut wasm_encoder::NameSection, names: &wasm_encoder::NameMap)
    ensures
        name_subsections(*final(s)) == name_subsections(*old(s)).push((7u8, name_entries(*names))),
{
    s.globals(names);
}

/// Relies on `Module::section`: appends the type section.
#[verifier::external_body]
pub(crate) fn put_type_section(m: &mut WasmModule, s: &wasm_encoder::TypeSection)
    ensures
        module_contents(*final(m)) == module_contents(*old(m)).push(SectionView::Types(type_entries(*s))),
{
    m.section(s);
}

/// Relies on `Module::section`: appends the import section.
#[verifier::external_body]
pub(crate) fn put_import_section(m: &mut WasmModule, s: &wasm_encoder::ImportSection)
    ensures
        module_contents(*final(m)) == module_contents(*old(m)).push(SectionView::Imports(import_entries(*s))),
{
    m.section(s);
}

/// Relies on `Module::section`: appends the function section.
#[verifier::external_body]
pub(crate) fn put_function_section(m: &mut WasmModule, s: &wasm_encoder::FunctionSection)
    ensures
        module_contents(*final(m)) == module_contents(*old(m)).push(SectionView::Functions(function_type_indices(*s))),
{
    m.section(s);
}

/// Relies on `Module::section`: appends the table section.
#[verifier::external_body]
pub(crate) fn put_table_section(m: &mut WasmModule, s: &wasm_encoder::TableSection)
    ensures
        module_contents(*final(m)) == module_contents(*old(m)).push(SectionView::Tables(table_entries(*s))),
{
    m.section(s);
}

/// Relies on `Module::section`: appends the memory section.
#[verifier::external_body]
pub(crate) fn put_memory_section(m: &mut WasmModule, s: &wasm_encoder::MemorySection)
    ensures
        module_contents(*final(m)) == module_contents(*old(m)).push(SectionView::Memories(memory_entries(*s))),
{
    m.section(s);
}

/// Relies on `Module::section`: appends the global section.
#[verifier::external_body]
pub(crate) fn put_global_section(m: &mut WasmModule, s: &wasm_encoder::GlobalSection)
    ensures
        module_contents(*final(m)) == module_contents(*old(m)).push(SectionView::Globals(global_entries(*s))),
{
    m.section(s);
}

/// Relies on `Module::section`: appends the export section.
#[verifier::external_body]
pub(crate) fn put_export_section(m: &mut WasmModule, s: &wasm_encoder::ExportSection)
    ensures
        module_contents(*final(m)) == module_contents(*old(m)).push(SectionView::Exports(export_entries_written(*s))),
{
    m.section(s);
}

/// Relies on `Module::section`: appends the element section.
#[verifier::external_body]
pub(crate) fn put_element_section(m: &mut WasmModule, s: &wasm_encoder::ElementSection)
    ensures
        module_contents(*final(m)) == module_contents(*old(m)).push(SectionView::Elements(element_entries(*s))),
{
    m.section(s);
}

/// Relies on `Module::section`: appends the code section.
#[verifier::external_body]
pub(crate) fn put_code_section(m: &mut WasmModule, s: &wasm_encoder::CodeSection)
    ensures
        module_contents(*final(m)) == module_contents(*old(m)).push(SectionView::Code(code_bodies(*s))),
{
    m.section(s);
}

/// Relies on `Module::section`: appends the data section.
#[verifier::external_body]
pub(crate) fn put_data_section(m: &mut WasmModule, s: &wasm_encoder::DataSection)
    ensures
        module_contents(*final(m)) == module_contents(*old(m)).push(SectionView::Data(data_entries(*s))),
{
    m.section(s);
}

/// Relies on `Module::section`: appends the name section.
#[verifier::external_body]
pub(crate) fn put_name_section(m: &mut WasmModule, s: &wasm_encoder::NameSection)
    ensures
        module_contents(*final(m)) == module_contents(*old(m)).push(SectionView::Names(name_subsections(*s))),
{
    m.section(s);
}

/// Relies on `Module::section` with a `StartSection`: appends the start
/// section.
#[verifier::external_body]
pub(crate) fn put_start_section(m: &mut WasmModule, function_index: u32)
    ensures
        module_contents(*final(m)) == module_contents(*old(m)).push(SectionView::Start(function_index)),
{
    m.section(&wasm_encoder::StartSection { function_index });
}

/// The encoder's form of a list of fields.
pub(crate) fn encode_field_types(fields: &Vec<FieldType>) -> Vec<WasmFieldType> {
    let mut r: Vec<WasmFieldType> = Vec::new();
    let mut i: usize = 0;
    while i < fields.len()
        invariant
            i <= fields@.len(),
        decreases fields@.len() - i,
    {
        r.push(encode_field_type(fields[i]));
        i = i + 1;
    }
    r
}

} // verus!
