use wagen::{
    validate, BlockType, Builder, ConstExpr, Function, Global, Instr, Local, LocalHandle,
    MemoryType, Module, Param, ParamHandle, TypeList, ValType,
};

fn add1_body(a: Param) -> Builder {
    let mut b = Builder::new(vec![]);
    b.push(a).push(1i32).push(Instr::I32Add).return_();
    b
}

fn one_i32_param() -> (TypeList<ParamHandle>, Param) {
    let mut params = TypeList::new();
    let a = params.push(ValType::I32);
    (params, a)
}

fn instantiate(bytes: &[u8]) -> (wasmtime::Store<()>, wasmtime::Instance) {
    let engine = wasmtime::Engine::default();
    let module = wasmtime::Module::new(&engine, bytes).unwrap();
    let mut store = wasmtime::Store::new(&engine, ());
    let instance = wasmtime::Instance::new(&mut store, &module, &[]).unwrap();
    (store, instance)
}

fn declare_add1(module: &mut Module) -> wagen::FunctionIndex {
    let (params, a) = one_i32_param();
    module
        .func("add1", params, vec![ValType::I32], TypeList::new())
        .push(add1_body(a))
        .export("add1")
        .index()
}

#[test]
fn generate_valid_module() {
    let mut module = Module::new();
    let add1 = declare_add1(&mut module);
    let (params, a) = one_i32_param();
    module
        .func("add2", params, vec![ValType::I32], TypeList::new())
        .push(a)
        .push(add1)
        .push(add1)
        .push(Instr::Return)
        .export("add2");
    assert!(module.validate().is_ok());
}

#[test]
fn generate_empty_module() {
    let module = Module::new();
    assert!(module.validate().is_ok());
}

#[test]
fn add1_returns_successor() {
    let mut module = Module::new();
    declare_add1(&mut module);
    let bytes = module.finish();
    let (mut store, instance) = instantiate(&bytes);
    let f = instance.get_typed_func::<i32, i32>(&mut store, "add1").unwrap();
    assert_eq!(f.call(&mut store, 41).unwrap(), 42);
}

#[test]
fn chained_call_adds_two() {
    let mut module = Module::new();
    let add1 = declare_add1(&mut module);
    let (params, a) = one_i32_param();
    module
        .func("add2", params, vec![ValType::I32], TypeList::new())
        .push(a)
        .push(add1)
        .push(add1)
        .push(Instr::Return)
        .export("add2");
    let bytes = module.finish();
    let (mut store, instance) = instantiate(&bytes);
    let f = instance.get_typed_func::<i32, i32>(&mut store, "add2").unwrap();
    assert_eq!(f.call(&mut store, 5).unwrap(), 7);
}

fn counting_loop_module() -> Vec<u8> {
    let mut module = Module::new();
    let mut params = TypeList::new();
    let n = params.push(ValType::I64);
    let mut locals: TypeList<LocalHandle> = TypeList::new();
    let counter = locals.push(ValType::I64);
    let mut body = Builder::new(vec![]);
    body.push(counter)
        .push(n)
        .push(Instr::I64LtS)
        .push(Instr::I32Eqz)
        .push(Instr::BrIf(1));
    body.local_incr(counter, ValType::I64).push(Instr::Br(0));
    let mut inner = Builder::new(vec![]);
    inner.loop_(BlockType::Empty, body);
    module
        .func("count", params, vec![ValType::I64], locals)
        .builder()
        .block(BlockType::Empty, inner)
        .push(counter)
        .return_();
    module.defs[0].export("count");
    module.finish()
}

#[test]
fn loop_with_exit_counts_to_n() {
    let bytes = counting_loop_module();
    assert!(validate(&bytes).is_ok());
    let (mut store, instance) = instantiate(&bytes);
    let f = instance.get_typed_func::<i64, i64>(&mut store, "count").unwrap();
    for n in [0i64, 1, 2, 5, 100] {
        assert_eq!(f.call(&mut store, n).unwrap(), n);
    }
}

fn increment_module(ty: ValType) -> Vec<u8> {
    let mut module = Module::new();
    let mut params = TypeList::new();
    let p = params.push(ty);
    let mut locals: TypeList<LocalHandle> = TypeList::new();
    let l: Local = locals.push(ty);
    let mut b = Builder::new(vec![]);
    b.push(p).push(Instr::LocalSet(l.index())).local_incr(l, ty).push(l).return_();
    module.func("incr", params, vec![ty], locals).push(b).export("incr");
    module.finish()
}

#[test]
fn local_incr_adds_one_to_i32() {
    let bytes = increment_module(ValType::I32);
    let (mut store, instance) = instantiate(&bytes);
    let f = instance.get_typed_func::<i32, i32>(&mut store, "incr").unwrap();
    assert_eq!(f.call(&mut store, 41).unwrap(), 42);
    assert_eq!(f.call(&mut store, -1).unwrap(), 0);
    assert_eq!(f.call(&mut store, i32::MAX).unwrap(), i32::MIN);
}

#[test]
fn local_incr_adds_one_to_each_numeric_type() {
    let bytes = increment_module(ValType::I64);
    let (mut store, instance) = instantiate(&bytes);
    let f = instance.get_typed_func::<i64, i64>(&mut store, "incr").unwrap();
    assert_eq!(f.call(&mut store, 9).unwrap(), 10);
    let bytes = increment_module(ValType::F32);
    let (mut store, instance) = instantiate(&bytes);
    let f = instance.get_typed_func::<f32, f32>(&mut store, "incr").unwrap();
    assert_eq!(f.call(&mut store, 1.5).unwrap(), 2.5);
    let bytes = increment_module(ValType::F64);
    let (mut store, instance) = instantiate(&bytes);
    let f = instance.get_typed_func::<f64, f64>(&mut store, "incr").unwrap();
    assert_eq!(f.call(&mut store, -0.5).unwrap(), 0.5);
}

#[test]
fn local_incr_emits_four_instructions() {
    let mut b = Builder::new(vec![]);
    let l: Local = Local::new(3);
    b.local_incr(l, ValType::I32);
    assert_eq!(
        b.instrs,
        vec![Instr::LocalGet(3), Instr::I32Const(1), Instr::I32Add, Instr::LocalSet(3)]
    );
    let mut b = Builder::new(vec![]);
    b.local_incr(l, ValType::F64);
    assert_eq!(
        b.instrs,
        vec![
            Instr::LocalGet(3),
            Instr::F64Const(0x3ff0_0000_0000_0000),
            Instr::F64Add,
            Instr::LocalSet(3)
        ]
    );
}

#[test]
fn recursive_call_uses_own_index() {
    // fact(n) = if n == 0 { 1 } else { n * fact(n - 1) }
    let mut module = Module::new();
    let (params, n) = one_i32_param();
    let f: &mut Function = module.func("fact", params, vec![ValType::I32], TypeList::new());
    let fact = f.index();
    let mut then_ = Builder::new(vec![]);
    then_.push(1i32);
    let mut else_ = Builder::new(vec![]);
    else_.push(n).push(n).push(1i32).push(Instr::I32Sub).push(fact).push(Instr::I32Mul);
    let mut cond = Builder::new(vec![]);
    cond.push(n).push(Instr::I32Eqz);
    f.builder().if_then_else(BlockType::Result(ValType::I32), cond, then_, else_);
    f.export("fact");
    assert_eq!(fact.index(), 0);
    let bytes = module.finish();
    let (mut store, instance) = instantiate(&bytes);
    let g = instance.get_typed_func::<i32, i32>(&mut store, "fact").unwrap();
    assert_eq!(g.call(&mut store, 5).unwrap(), 120);
}

#[test]
fn call_to_later_function() {
    let mut module = Module::new();
    let (params, _) = one_i32_param();
    let first = module.func("first", params, vec![ValType::I32], TypeList::new());
    let first_index = first.index();
    let (params, a) = one_i32_param();
    let later = module.func("later", params, vec![ValType::I32], TypeList::new());
    let later_index = later.index();
    later.push(a).push(7i32).push(Instr::I32Mul);
    let p0 = Param::new(0);
    module.defs[first_index.index() as usize]
        .push(p0)
        .push(later_index)
        .export("first");
    assert_eq!(later_index.index(), 1);
    let bytes = module.finish();
    let (mut store, instance) = instantiate(&bytes);
    let g = instance.get_typed_func::<i32, i32>(&mut store, "first").unwrap();
    assert_eq!(g.call(&mut store, 6).unwrap(), 42);
}

#[test]
fn first_local_function_follows_imports() {
    let mut module = Module::new();
    let a = module.import("env", "a", None, vec![], vec![]);
    let b = module.import("env", "b", Some("bee"), vec![ValType::I32], vec![]);
    let c = module.import("env", "c", None, vec![], vec![ValType::I64]);
    assert_eq!((a.index(), b.index(), c.index()), (0, 1, 2));
    let f = module.func("f", TypeList::new(), vec![], TypeList::new());
    assert_eq!(f.index().index(), 3);
    let g = module.func("g", TypeList::new(), vec![], TypeList::new());
    assert_eq!(g.index().index(), 4);
    let names = module.function_names();
    assert_eq!(
        names,
        vec![
            (0, "a".to_string()),
            (1, "bee".to_string()),
            (2, "c".to_string()),
            (3, "f".to_string()),
            (4, "g".to_string())
        ]
    );
    assert!(module.validate().is_ok());
}

#[test]
fn finishing_twice_gives_same_bytes() {
    let mut module = Module::new();
    declare_add1(&mut module);
    module.global("g", ValType::I64, true, false, ConstExpr::I64Const(7)).export("g");
    module.memory(MemoryType {
        minimum: 1,
        maximum: None,
        memory64: false,
        shared: false,
        page_size_log2: None,
    });
    module.data_segment(ConstExpr::I32Const(8), vec![1, 2, 3]);
    let copy = module.clone();
    let first = module.finish();
    let second = copy.finish();
    assert_eq!(first, second);
    assert!(validate(&first).is_ok());
}

#[test]
fn exports_list_functions_then_globals() {
    let mut module = Module::new();
    let g: &mut Global = module.global("counter", ValType::I32, true, false, ConstExpr::I32Const(0));
    g.export("counter");
    assert_eq!(g.index().index(), 0);
    declare_add1(&mut module);
    module.func("hidden", TypeList::new(), vec![], TypeList::new());
    let exports = module.exports();
    assert_eq!(exports.len(), 2);
    assert_eq!((exports[0].name.as_str(), exports[0].index), ("add1", 0));
    assert_eq!(exports[0].kind, wagen::ExportKind::Func);
    assert_eq!((exports[1].name.as_str(), exports[1].index), ("counter", 0));
    assert_eq!(exports[1].kind, wagen::ExportKind::Global);
    assert_eq!(module.global_names(), vec![(0, "counter".to_string())]);
    let bytes = module.finish();
    let (mut store, instance) = instantiate(&bytes);
    assert!(instance.get_global(&mut store, "counter").is_some());
}

#[test]
fn push_flattens_fragments() {
    let mut inner = Builder::new(vec![Instr::I32Const(1)]);
    inner.push(Instr::Drop);
    let mut a = Builder::new(vec![]);
    a.push(Instr::Nop).push(vec![Instr::I32Const(2), Instr::Drop]).push(inner.clone()).push(true).push(5i64);
    let mut b = Builder::new(vec![]);
    b.extend(vec![
        Instr::Nop,
        Instr::I32Const(2),
        Instr::Drop,
        Instr::I32Const(1),
        Instr::Drop,
        Instr::I32Const(1),
        Instr::I64Const(5),
    ]);
    assert_eq!(a.instrs, b.instrs);
    let mut c = Builder::new(vec![]);
    c.push([Instr::Nop, Instr::Unreachable]).push(Local::new(2)).push(false);
    assert_eq!(
        c.instrs,
        vec![Instr::Nop, Instr::Unreachable, Instr::LocalGet(2), Instr::I32Const(0)]
    );
}

#[test]
fn structured_helpers_wrap_bodies() {
    let mut b = Builder::new(vec![]);
    b.if_then(BlockType::Empty, true, Instr::Nop)
        .loop_while(BlockType::Empty, 0i32, Instr::Nop);
    assert_eq!(
        b.instrs,
        vec![
            Instr::I32Const(1),
            Instr::If(BlockType::Empty),
            Instr::Nop,
            Instr::End,
            Instr::Loop(BlockType::Empty),
            Instr::I32Const(0),
            Instr::Nop,
            Instr::BrIf(0),
            Instr::End
        ]
    );
}

#[test]
fn type_list_numbers_slots_densely() {
    let mut l: TypeList<LocalHandle> = TypeList::new();
    let a = l.push(ValType::I32);
    let b = l.push(ValType::F64);
    assert_eq!((a.index(), b.index()), (0, 1));
    assert_eq!(l.ty(b), Some(ValType::F64));
    assert_eq!(l.ty(Local::new(2)), None);
    assert_eq!(l.len(), 2);
}

