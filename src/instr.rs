use crate::index::{
    ArrayTypeHandle, FunctionTypeHandle, Index, LocalHandle, StructTypeHandle,
};
use crate::types::{BlockType, HeapType, MemArg, RefType, ValType};
use vstd::prelude::*;

verus! {

/// One instruction of a function body. Float constants are given by their
/// bit patterns.
#[derive(Debug, Clone, Copy, PartialEq, Eq, Structural)]
pub enum Instr {
    Unreachable,
    Nop,
    Block(BlockType),
    Loop(BlockType),
    If(BlockType),
    Else,
    End,
    Br(u32),
    BrIf(u32),
    BrOnNull(u32),
    BrOnNonNull(u32),
    Return,
    Call(u32),
    CallRef(u32),
    CallIndirect { table_index: u32, type_index: u32 },
    ReturnCall(u32),
    ReturnCallRef(u32),
    ReturnCallIndirect { table_index: u32, type_index: u32 },
    Drop,
    Select,
    TypedSelect(ValType),
    LocalGet(u32),
    LocalSet(u32),
    LocalTee(u32),
    GlobalGet(u32),
    GlobalSet(u32),
    I32Load(MemArg),
    I64Load(MemArg),
    F32Load(MemArg),
    F64Load(MemArg),
    I32Load8S(MemArg),
    I32Load8U(MemArg),
    I32Load16S(MemArg),
    I32Load16U(MemArg),
    I64Load8S(MemArg),
    I64Load8U(MemArg),
    I64Load16S(MemArg),
    I64Load16U(MemArg),
    I64Load32S(MemArg),
    I64Load32U(MemArg),
    I32Store(MemArg),
    I64Store(MemArg),
    F32Store(MemArg),
    F64Store(MemArg),
    I32Store8(MemArg),
    I32Store16(MemArg),
    I64Store8(MemArg),
    I64Store16(MemArg),
    I64Store32(MemArg),
    MemorySize(u32),
    MemoryGrow(u32),
    MemoryInit { mem: u32, data_index: u32 },
    DataDrop(u32),
    MemoryCopy { dst_mem: u32, src_mem: u32 },
    MemoryFill(u32),
    I32Const(i32),
    I64Const(i64),
    F32Const(u32),
    F64Const(u64),
    I32Eqz,
    I32Eq,
    I32Ne,
    I32LtS,
    I32LtU,
    I32GtS,
    I32GtU,
    I32LeS,
    I32LeU,
    I32GeS,
    I32GeU,
    I64Eqz,
    I64Eq,
    I64Ne,
    I64LtS,
    I64LtU,
    I64GtS,
    I64GtU,
    I64LeS,
    I64LeU,
    I64GeS,
    I64GeU,
    F32Eq,
    F32Ne,
    F32Lt,
    F32Gt,
    F32Le,
    F32Ge,
    F64Eq,
    F64Ne,
    F64Lt,
    F64Gt,
    F64Le,
    F64Ge,
    I32Clz,
    I32Ctz,
    I32Popcnt,
    I32Add,
    I32Sub,
    I32Mul,
    I32DivS,
    I32DivU,
    I32RemS,
    I32RemU,
    I32And,
    I32Or,
    I32Xor,
    I32Shl,
    I32ShrS,
    I32ShrU,
    I32Rotl,
    I32Rotr,
    I64Clz,
    I64Ctz,
    I64Popcnt,
    I64Add,
    I64Sub,
    I64Mul,
    I64DivS,
    I64DivU,
    I64RemS,
    I64RemU,
    I64And,
    I64Or,
    I64Xor,
    I64Shl,
    I64ShrS,
    I64ShrU,
    I64Rotl,
    I64Rotr,
    F32Abs,
    F32Neg,
    F32Ceil,
    F32Floor,
    F32Trunc,
    F32Nearest,
    F32Sqrt,
    F32Add,
    F32Sub,
    F32Mul,
    F32Div,
    F32Min,
    F32Max,
    F32Copysign,
    F64Abs,
    F64Neg,
    F64Ceil,
    F64Floor,
    F64Trunc,
    F64Nearest,
    F64Sqrt,
    F64Add,
    F64Sub,
    F64Mul,
    F64Div,
    F64Min,
    F64Max,
    F64Copysign,
    I32WrapI64,
    I32TruncF32S,
    I32TruncF32U,
    I32TruncF64S,
    I32TruncF64U,
    I64ExtendI32S,
    I64ExtendI32U,
    I64TruncF32S,
    I64TruncF32U,
    I64TruncF64S,
    I64TruncF64U,
    F32ConvertI32S,
    F32ConvertI32U,
    F32ConvertI64S,
    F32ConvertI64U,
    F32DemoteF64,
    F64ConvertI32S,
    F64ConvertI32U,
    F64ConvertI64S,
    F64ConvertI64U,
    F64PromoteF32,
    I32ReinterpretF32,
    I64ReinterpretF64,
    F32ReinterpretI32,
    F64ReinterpretI64,
    I32Extend8S,
    I32Extend16S,
    I64Extend8S,
    I64Extend16S,
    I64Extend32S,
    I32TruncSatF32S,
    I32TruncSatF32U,
    I32TruncSatF64S,
    I32TruncSatF64U,
    I64TruncSatF32S,
    I64TruncSatF32U,
    I64TruncSatF64S,
    I64TruncSatF64U,
    RefNull(HeapType),
    RefIsNull,
    RefFunc(u32),
    RefEq,
    RefAsNonNull,
    StructNew(u32),
    StructNewDefault(u32),
    StructGet { struct_type_index: u32, field_index: u32 },
    StructGetS { struct_type_index: u32, field_index: u32 },
    StructGetU { struct_type_index: u32, field_index: u32 },
    StructSet { struct_type_index: u32, field_index: u32 },
    ArrayNew(u32),
    ArrayNewDefault(u32),
    ArrayNewFixed { array_type_index: u32, array_size: u32 },
    ArrayNewData { array_type_index: u32, array_data_index: u32 },
    ArrayNewElem { array_type_index: u32, array_elem_index: u32 },
    ArrayGet(u32),
    ArrayGetS(u32),
    ArrayGetU(u32),
    ArraySet(u32),
    ArrayLen,
    ArrayFill(u32),
    RefTestNonNull(HeapType),
    RefTestNullable(HeapType),
    RefCastNonNull(HeapType),
    RefCastNullable(HeapType),
    AnyConvertExtern,
    ExternConvertAny,
    RefI31,
    I31GetS,
    I31GetU,
    TableInit { table: u32, elem_index: u32 },
    ElemDrop(u32),
}

impl Index<LocalHandle> {
    /// The instruction that stores into the local.
    pub fn set(&self) -> (r: Instr)
        ensures
            r == Instr::LocalSet(self.0),
    {
        Instr::LocalSet(self.0)
    }

    /// The instruction that stores into the local and keeps the value.
    pub fn tee(&self) -> (r: Instr)
        ensures
            r == Instr::LocalTee(self.0),
    {
        Instr::LocalTee(self.0)
    }
}

/// A reference to the type at `index` of the type section.
pub open spec fn concrete_ref(index: u32, nullable: bool) -> RefType {
    RefType { nullable, heap_type: HeapType::Concrete(index) }
}

impl Index<FunctionTypeHandle> {
    /// A reference to this function type.
    pub fn ref_type(self, nullable: bool) -> (r: RefType)
        ensures
            r == concrete_ref(self.0, nullable),
    {
        RefType { nullable, heap_type: HeapType::Concrete(self.0) }
    }

    /// The value type of references to this function type.
    pub fn val_type(self, nullable: bool) -> (r: ValType)
        ensures
            r == ValType::Ref(concrete_ref(self.0, nullable)),
    {
        ValType::Ref(self.ref_type(nullable))
    }
}

impl Index<ArrayTypeHandle> {
    /// A reference to this array type.
    pub fn ref_type(self, nullable: bool) -> (r: RefType)
        ensures
            r == concrete_ref(self.0, nullable),
    {
        RefType { nullable, heap_type: HeapType::Concrete(self.0) }
    }

    /// The value type of references to this array type.
    pub fn val_type(self, nullable: bool) -> (r: ValType)
        ensures
            r == ValType::Ref(concrete_ref(self.0, nullable)),
    {
        ValType::Ref(self.ref_type(nullable))
    }

    /// `array.new` of this type.
    pub fn array_new(&self) -> (r: Instr)
        ensures
            r == Instr::ArrayNew(self.0),
    {
        Instr::ArrayNew(self.0)
    }

    /// `array.new_default` of this type.
    pub fn array_new_default(&self) -> (r: Instr)
        ensures
            r == Instr::ArrayNewDefault(self.0),
    {
        Instr::ArrayNewDefault(self.0)
    }

    /// `array.get` of this type.
    pub fn array_get(&self) -> (r: Instr)
        ensures
            r == Instr::ArrayGet(self.0),
    {
        Instr::ArrayGet(self.0)
    }

    /// `array.get_s` of this type.
    pub fn array_get_s(&self) -> (r: Instr)
        ensures
            r == Instr::ArrayGetS(self.0),
    {
        Instr::ArrayGetS(self.0)
    }

    /// `array.get_u` of this type.
    pub fn array_get_u(&self) -> (r: Instr)
        ensures
            r == Instr::ArrayGetU(self.0),
    {
        Instr::ArrayGetU(self.0)
    }

    /// `array.set` of this type.
    pub fn array_set(&self) -> (r: Instr)
        ensures
            r == Instr::ArraySet(self.0),
    {
        Instr::ArraySet(self.0)
    }
}

impl Index<StructTypeHandle> {
    /// A reference to this struct type.
    pub fn ref_type(self, nullable: bool) -> (r: RefType)
        ensures
            r == concrete_ref(self.0, nullable),
    {
        RefType { nullable, heap_type: HeapType::Concrete(self.0) }
    }

    /// The value type of references to this struct type.
    pub fn val_type(self, nullable: bool) -> (r: ValType)
        ensures
            r == ValType::Ref(concrete_ref(self.0, nullable)),
    {
        ValType::Ref(self.ref_type(nullable))
    }

    /// `struct.new` of this type.
    pub fn struct_new(&self) -> (r: Instr)
        ensures
            r == Instr::StructNew(self.0),
    {
        Instr::StructNew(self.0)
    }

    /// `struct.new_default` of this type.
    pub fn struct_new_default(&self) -> (r: Instr)
        ensures
            r == Instr::StructNewDefault(self.0),
    {
        Instr::StructNewDefault(self.0)
    }

    /// `struct.get` of field `field` of this type.
    pub fn struct_get(&self, field: u32) -> (r: Instr)
        ensures
            r == (Instr::StructGet { struct_type_index: self.0, field_index: field }),
    {
        Instr::StructGet { struct_type_index: self.0, field_index: field }
    }

    /// `struct.get_s` of field `field` of this type.
    pub fn struct_get_s(&self, field: u32) -> (r: Instr)
        ensures
            r == (Instr::StructGetS { struct_type_index: self.0, field_index: field }),
    {
        Instr::StructGetS { struct_type_index: self.0, field_index: field }
    }

    /// `struct.get_u` of field `field` of this type.
    pub fn struct_get_u(&self, field: u32) -> (r: Instr)
        ensures
            r == (Instr::StructGetU { struct_type_index: self.0, field_index: field }),
    {
        Instr::StructGetU { struct_type_index: self.0, field_index: field }
    }

    /// `struct.set` of field `field` of this type.
    pub fn struct_set(&self, field: u32) -> (r: Instr)
        ensures
            r == (Instr::StructSet { struct_type_index: self.0, field_index: field }),
    {
        Instr::StructSet { struct_type_index: self.0, field_index: field }
    }
}

} // verus!
