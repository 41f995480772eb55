//! A programmatic assembler for WebAssembly modules.
//!
//! Functions are described as sequences of instructions built from
//! appendable fragments; the module collects every declaration and
//! serializes the sections in the order that the binary format requires.

mod assemble;
mod builder;
mod emit;
mod encode;
mod function;
mod index;
mod instr;
mod laws;
mod link;
mod module;
mod resolve;
mod type_list;
mod types;

pub use assemble::{validate, ValidationError};
pub use emit::is_encodable;
pub use builder::{Builder, Expr, Fragment, F32_ONE_BITS, F64_ONE_BITS};
pub use function::Function;
pub use index::{
    ArrayTypeHandle, ArrayTypeIndex, DataSegmentHandle, DataSegmentIndex, FunctionHandle,
    FunctionIndex, FunctionTypeHandle, FunctionTypeIndex, GlobalHandle, GlobalIndex, Index, Local,
    LocalHandle, MemoryHandle, MemoryIndex, Param, ParamHandle, StructTypeHandle, StructTypeIndex,
};
pub use instr::Instr;
pub use link::{ExtismFunctions, EXTISM_HOST_MODULE};
pub use module::{
    ArrayType, DataSegment, ElementSegment, Export, ExportKind, Global, Import, Module, StructType,
    TypeDef,
};
pub use type_list::TypeList;
pub use types::{
    any_type, eq_type, extern_type, field_type, func_type, i31_type, none_type,
    AbstractHeapType, BlockType, ConstExpr, FieldType, HeapType, MemArg, MemoryType, RefType,
    StorageType, TableType, ValType,
};
