use wagen::AbstractHeapType as A;
use wagen::{any_type, eq_type, extern_type, field_type, func_type, i31_type, none_type};
use wagen::{
    validate, ArrayType, ArrayTypeIndex, BlockType, Builder, ConstExpr, FieldType, Fragment,
    FunctionIndex, HeapType, Instr, Local, MemoryType, Module, Param, RefType, StorageType,
    StructType, StructTypeIndex, TableType, TypeList, ValType, EXTISM_HOST_MODULE,
};

#[test]
fn push_all_appends_each_expansion_in_order() {
    let mut inner = Builder::new(vec![]);
    inner.push(Instr::Drop);
    let fragments = vec![
        Fragment::Instr(Instr::Nop),
        Fragment::Instrs(vec![Instr::I32Const(4), Instr::I32Const(5)]),
        Fragment::Sequence(inner),
        Fragment::Call(FunctionIndex::new(9)),
        Fragment::Local(Local::new(1)),
        Fragment::Param(Param::new(0)),
        Fragment::Bool(true),
        Fragment::I32(-3),
        Fragment::I64(1 << 40),
    ];
    let mut b = Builder::new(vec![Instr::Unreachable]);
    b.push_all(fragments);
    assert_eq!(
        b.instrs,
        vec![
            Instr::Unreachable,
            Instr::Nop,
            Instr::I32Const(4),
            Instr::I32Const(5),
            Instr::Drop,
            Instr::Call(9),
            Instr::LocalGet(1),
            Instr::LocalGet(0),
            Instr::I32Const(1),
            Instr::I32Const(-3),
            Instr::I64Const(1 << 40),
        ]
    );
    let mut empty = Builder::new(vec![Instr::Nop]);
    empty.push_all(vec![]);
    assert_eq!(empty.instrs, vec![Instr::Nop]);
}

#[test]
fn block_and_if_else_wrap_their_bodies() {
    let mut b = Builder::new(vec![]);
    b.block(BlockType::Result(ValType::I32), 7i32)
        .if_then_else(BlockType::Empty, false, Instr::Nop, Instr::Drop);
    b.return_();
    assert_eq!(
        b.instrs,
        vec![
            Instr::Block(BlockType::Result(ValType::I32)),
            Instr::I32Const(7),
            Instr::End,
            Instr::I32Const(0),
            Instr::If(BlockType::Empty),
            Instr::Nop,
            Instr::Else,
            Instr::Drop,
            Instr::End,
            Instr::Return,
        ]
    );
}

#[test]
fn handles_expand_to_their_instructions() {
    let l = Local::new(4);
    assert_eq!(l.set(), Instr::LocalSet(4));
    assert_eq!(l.tee(), Instr::LocalTee(4));
    let s = StructTypeIndex::new(2);
    assert_eq!(s.struct_new(), Instr::StructNew(2));
    assert_eq!(s.struct_new_default(), Instr::StructNewDefault(2));
    assert_eq!(s.struct_get(1), Instr::StructGet { struct_type_index: 2, field_index: 1 });
    assert_eq!(s.struct_get_s(1), Instr::StructGetS { struct_type_index: 2, field_index: 1 });
    assert_eq!(s.struct_get_u(1), Instr::StructGetU { struct_type_index: 2, field_index: 1 });
    assert_eq!(s.struct_set(0), Instr::StructSet { struct_type_index: 2, field_index: 0 });
    let a = ArrayTypeIndex::new(5);
    assert_eq!(a.array_new(), Instr::ArrayNew(5));
    assert_eq!(a.array_new_default(), Instr::ArrayNewDefault(5));
    assert_eq!(a.array_get(), Instr::ArrayGet(5));
    assert_eq!(a.array_get_s(), Instr::ArrayGetS(5));
    assert_eq!(a.array_get_u(), Instr::ArrayGetU(5));
    assert_eq!(a.array_set(), Instr::ArraySet(5));
    assert_eq!(
        a.val_type(true),
        ValType::Ref(RefType { nullable: true, heap_type: HeapType::Concrete(5) })
    );
    assert_eq!(
        s.ref_type(false),
        RefType { nullable: false, heap_type: HeapType::Concrete(2) }
    );
}

#[test]
fn reference_type_constructors() {
    let abs = |nullable, ty| {
        ValType::Ref(RefType { nullable, heap_type: HeapType::Abstract { shared: false, ty } })
    };
    assert_eq!(any_type(true), abs(true, A::Any));
    assert_eq!(none_type(false), abs(false, A::NoAny));
    assert_eq!(i31_type(true), abs(true, A::I31));
    assert_eq!(eq_type(true), abs(true, A::Eq));
    assert_eq!(func_type(false), abs(false, A::Func));
    assert_eq!(extern_type(true), abs(true, A::Extern));
    assert_eq!(
        field_type(StorageType::I8, true),
        FieldType { element_type: StorageType::I8, mutable: true }
    );
}

#[test]
fn gc_struct_module_runs() {
    let mut module = Module::new();
    let field = FieldType { element_type: StorageType::Val(ValType::I32), mutable: true };
    let pair = module.struct_type(StructType { fields: vec![field, field] });
    let arr = module.array_type(&ArrayType { item: StorageType::I8, mutable: true });
    assert_eq!((pair.index(), arr.index()), (0, 1));
    let mut params = TypeList::new();
    let a = params.push(ValType::I32);
    let b = params.push(ValType::I32);
    let mut body = Builder::new(vec![]);
    body.push(a).push(b).push(pair.struct_new()).push(pair.struct_get(1)).return_();
    module
        .func("second", params, vec![ValType::I32], TypeList::new())
        .push(body)
        .export("second");
    let bytes = module.finish();
    assert!(validate(&bytes).is_ok());
    let mut config = wasmtime::Config::new();
    config
        .gc_heap_reservation(1 << 20)
        .gc_heap_guard_size(0)
        .gc_heap_may_move(true)
        .memory_reservation(1 << 20)
        .memory_guard_size(0);
    let engine = wasmtime::Engine::new(&config).unwrap();
    let m = wasmtime::Module::new(&engine, &bytes).unwrap();
    let mut store = wasmtime::Store::new(&engine, ());
    let instance = wasmtime::Instance::new(&mut store, &m, &[]).unwrap();
    let f = instance.get_typed_func::<(i32, i32), i32>(&mut store, "second").unwrap();
    assert_eq!(f.call(&mut store, (3, 4)).unwrap(), 4);
}

#[test]
fn tables_elements_memories_and_data() {
    let mut module = Module::new();
    let t = module.table(TableType {
        element_type: RefType {
            nullable: true,
            heap_type: HeapType::Abstract { shared: false, ty: wagen::AbstractHeapType::Func },
        },
        table64: false,
        minimum: 1,
        maximum: None,
        shared: false,
    });
    assert_eq!(t, 0);
    let f = module.func("f", TypeList::new(), vec![], TypeList::new()).index();
    assert_eq!(module.active_element(None, vec![f.index()]), 0);
    assert_eq!(module.passive_element(vec![f.index()]), 1);
    let mem = module.memory(MemoryType {
        minimum: 1,
        maximum: Some(2),
        memory64: false,
        shared: false,
        page_size_log2: None,
    });
    assert_eq!(mem.index(), 0);
    let d0 = module.data_segment(ConstExpr::I32Const(0), b"hi".to_vec());
    let d1 = module.data_segment(ConstExpr::I32Const(16), vec![0xff]);
    assert_eq!((d0.index(), d1.index()), (0, 1));
    module.start(f);
    assert!(module.validate().is_ok());
}

#[test]
fn invalid_module_is_reported() {
    let err = validate(&[0, 1, 2, 3]).unwrap_err();
    assert!(!err.message.is_empty());
    let mut module = Module::new();
    // a function whose body leaves nothing where an i32 is due
    module.func("bad", TypeList::new(), vec![ValType::I32], TypeList::new());
    let err = module.validate().unwrap_err();
    assert!(err.offset > 0);
}

#[test]
fn function_instr_and_instrs_append() {
    let mut module = Module::new();
    let f = module.func("f", TypeList::new(), vec![ValType::I32], TypeList::new());
    f.instr(Instr::I32Const(2)).instrs(vec![Instr::I32Const(3), Instr::I32Add]);
    assert_eq!(
        f.body.instrs,
        vec![Instr::I32Const(2), Instr::I32Const(3), Instr::I32Add]
    );
    assert_eq!(
        f.code(),
        vec![Instr::I32Const(2), Instr::I32Const(3), Instr::I32Add, Instr::End]
    );
    assert!(module.validate().is_ok());
}

#[test]
fn link_extism_imports_host_functions_in_order() {
    let mut module = Module::new();
    module.import("env", "first", None, vec![], vec![]);
    let host = module.link_extism();
    assert_eq!(host.input_load_u8.index(), 1);
    assert_eq!(host.input_length.index(), 3);
    assert_eq!(host.length_unsafe.index(), 5);
    assert_eq!(host.log_error.index(), 22);
    assert_eq!(module.imports.len(), 23);
    assert_eq!(module.imports[1].module, EXTISM_HOST_MODULE);
    assert_eq!(module.imports[1].name, "input_load_u8");
    assert_eq!(module.imports[17].name, "http_request");
    assert_eq!(module.imports[1].type_index, 1);
    let f = module.func("main", TypeList::new(), vec![], TypeList::new());
    assert_eq!(f.index().index(), 23);
    assert!(module.validate().is_ok());
}

fn read_leb_u32(bytes: &[u8], pos: &mut usize) -> u32 {
    let mut result: u32 = 0;
    let mut shift = 0;
    loop {
        let b = bytes[*pos];
        *pos += 1;
        result |= ((b & 0x7f) as u32) << shift;
        if b & 0x80 == 0 {
            return result;
        }
        shift += 7;
    }
}

fn section_ids(bytes: &[u8]) -> Vec<u8> {
    assert_eq!(&bytes[..8], &[0x00, 0x61, 0x73, 0x6d, 0x01, 0x00, 0x00, 0x00]);
    let mut ids = vec![];
    let mut pos = 8;
    while pos < bytes.len() {
        ids.push(bytes[pos]);
        pos += 1;
        let size = read_leb_u32(bytes, &mut pos) as usize;
        pos += size;
    }
    ids
}

#[test]
fn sections_come_in_format_order() {
    let module = Module::new();
    assert_eq!(section_ids(&module.finish()), vec![1, 2, 3, 4, 5, 6, 7, 9, 10, 11, 0]);
    let mut module = Module::new();
    let f = module.func("init", TypeList::new(), vec![], TypeList::new()).index();
    module.start(f);
    assert_eq!(section_ids(&module.finish()), vec![1, 2, 3, 4, 5, 6, 7, 8, 9, 10, 11, 0]);
}

#[test]
fn from_conversions_keep_values() {
    let i: FunctionIndex = FunctionIndex::from(7u32);
    assert_eq!(u32::from(i), 7);
    let b = Builder::from(vec![Instr::Nop]);
    assert_eq!(b.instrs, vec![Instr::Nop]);
}

#[test]
fn import_after_local_function_keeps_handles() {
    let mut module = Module::new();
    let mut params = TypeList::new();
    let a = params.push(ValType::I32);
    let twice = module.func("twice", params, vec![ValType::I32], TypeList::new());
    let twice_handle = twice.index();
    twice.push(a).push(a).push(Instr::I32Add);
    assert_eq!(twice_handle.index(), 0);
    let import = module.import("env", "unused", None, vec![], vec![]);
    assert_eq!(import.index(), 1);
    assert_eq!(module.imports[0].decl, 1);
    let mut params = TypeList::new();
    let b = params.push(ValType::I32);
    module
        .func("quad", params, vec![ValType::I32], TypeList::new())
        .push(b)
        .push(twice_handle)
        .push(twice_handle)
        .export("quad");
    assert_eq!(module.resolve_index(twice_handle.index()), 1);
    assert_eq!(module.resolve_index(import.index()), 0);
    assert_eq!(module.resolve_index(2), 2);
    let names = module.function_names();
    assert_eq!(names[0], (0, "unused".to_string()));
    assert_eq!(names[1], (1, "twice".to_string()));
    let bytes = module.validate().unwrap();
    let engine = wasmtime::Engine::default();
    let m = wasmtime::Module::new(&engine, &bytes).unwrap();
    let mut store = wasmtime::Store::new(&engine, ());
    let mut linker = wasmtime::Linker::new(&engine);
    linker.func_wrap("env", "unused", || {}).unwrap();
    let instance = linker.instantiate(&mut store, &m).unwrap();
    let f = instance.get_typed_func::<i32, i32>(&mut store, "quad").unwrap();
    assert_eq!(f.call(&mut store, 3).unwrap(), 12);
}

#[test]
fn wide_instruction_set_runs() {
    let mut module = Module::new();
    module.memory(MemoryType {
        minimum: 1,
        maximum: None,
        memory64: false,
        shared: false,
        page_size_log2: None,
    });
    module.data_segment(ConstExpr::I32Const(0), vec![200, 7]);
    let mut params = TypeList::new();
    let a = params.push(ValType::I32);
    let b = params.push(ValType::I32);
    let mem = wagen::MemArg { offset: 0, align: 0, memory_index: 0 };
    let mut body = Builder::new(vec![]);
    // (a / b) + load8_u(0) + (select 1 2 (a > b)) + memory.size
    body.push(a)
        .push(b)
        .push(Instr::I32DivS)
        .push(0i32)
        .push(Instr::I32Load8U(mem))
        .push(Instr::I32Add)
        .push(1i32)
        .push(2i32)
        .push(a)
        .push(b)
        .push(Instr::I32GtS)
        .push(Instr::Select)
        .push(Instr::I32Add)
        .push(Instr::MemorySize(0))
        .push(Instr::I32Add);
    module.func("mix", params, vec![ValType::I32], TypeList::new()).push(body).export("mix");
    assert!(module.is_encodable());
    let bytes = module.validate().unwrap();
    let mut config = wasmtime::Config::new();
    config.memory_reservation(1 << 20).memory_guard_size(0);
    let engine = wasmtime::Engine::new(&config).unwrap();
    let m = wasmtime::Module::new(&engine, &bytes).unwrap();
    let mut store = wasmtime::Store::new(&engine, ());
    let instance = wasmtime::Instance::new(&mut store, &m, &[]).unwrap();
    let f = instance.get_typed_func::<(i32, i32), i32>(&mut store, "mix").unwrap();
    assert_eq!(f.call(&mut store, (9, 2)).unwrap(), 4 + 200 + 1 + 1);
}

#[test]
fn wide_alignment_is_not_encodable() {
    let mut module = Module::new();
    let bad = wagen::MemArg { offset: 5, align: 64, memory_index: 0 };
    module
        .func("f", TypeList::new(), vec![], TypeList::new())
        .instrs(vec![Instr::I32Const(0), Instr::I32Load(bad), Instr::Drop]);
    assert!(!module.is_encodable());
    assert!(!wagen::is_encodable(Instr::I64Store(bad)));
    assert!(wagen::is_encodable(Instr::Nop));
}
