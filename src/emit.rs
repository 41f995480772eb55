use crate::encode::{body_instrs, body_locals, encode_block_type, encode_heap_type, encode_val_type};
use crate::instr::Instr;
use crate::types::{BlockType, HeapType, MemArg, ValType};
use vstd::prelude::*;
use wasm_encoder::Function as WasmFunction;

verus! {

/// Relies on `InstructionSink::unreachable`: appends `unreachable`.
#[verifier::external_body]
fn emit_unreachable(f: &mut WasmFunction)
    ensures
        body_instrs(*final(f)) == body_instrs(*old(f)).push(Instr::Unreachable),
        body_locals(*final(f)) == body_locals(*old(f)),
{
    f.instructions().unreachable();
}

/// Relies on `InstructionSink::nop`: appends `nop`.
#[verifier::external_body]
fn emit_nop(f: &mut WasmFunction)
    ensures
        body_instrs(*final(f)) == body_instrs(*old(f)).push(Instr::Nop),
        body_locals(*final(f)) == body_locals(*old(f)),
{
    f.instructions().nop();
}

/// Relies on `InstructionSink::block`: appends `block`.
#[verifier::external_body]
fn emit_block(f: &mut WasmFunction, bt: BlockType)
    ensures
        body_instrs(*final(f)) == body_instrs(*old(f)).push(Instr::Block(bt)),
        body_locals(*final(f)) == body_locals(*old(f)),
{
    f.instructions().block(encode_block_type(bt));
}

/// Relies on `InstructionSink::loop_`: appends `loop`.
#[verifier::external_body]
fn emit_loop(f: &mut WasmFunction, bt: BlockType)
    ensures
        body_instrs(*final(f)) == body_instrs(*old(f)).push(Instr::Loop(bt)),
        body_locals(*final(f)) == body_locals(*old(f)),
{
    f.instructions().loop_(encode_block_type(bt));
}

/// Relies on `InstructionSink::if_`: appends `if`.
#[verifier::external_body]
fn emit_if(f: &mut WasmFunction, bt: BlockType)
    ensures
        body_instrs(*final(f)) == body_instrs(*old(f)).push(Instr::If(bt)),
        body_locals(*final(f)) == body_locals(*old(f)),
{
    f.instructions().if_(encode_block_type(bt));
}

/// Relies on `InstructionSink::else_`: appends `else`.
#[verifier::external_body]
fn emit_else(f: &mut WasmFunction)
    ensures
        body_instrs(*final(f)) == body_instrs(*old(f)).push(Instr::Else),
        body_locals(*final(f)) == body_locals(*old(f)),
{
    f.instructions().else_();
}

/// Relies on `InstructionSink::end`: appends `end`.
#[verifier::external_body]
fn emit_end(f: &mut WasmFunction)
    ensures
        body_instrs(*final(f)) == body_instrs(*old(f)).push(Instr::End),
        body_locals(*final(f)) == body_locals(*old(f)),
{
    f.instructions().end();
}

/// Relies on `InstructionSink::br`: appends `br`.
#[verifier::external_body]
fn emit_br(f: &mut WasmFunction, x: u32)
    ensures
        body_instrs(*final(f)) == body_instrs(*old(f)).push(Instr::Br(x)),
        body_locals(*final(f)) == body_locals(*old(f)),
{
    f.instructions().br(x);
}

/// Relies on `InstructionSink::br_if`: appends `br_if`.
#[verifier::external_body]
fn emit_br_if(f: &mut WasmFunction, x: u32)
    ensures
        body_instrs(*final(f)) == body_instrs(*old(f)).push(Instr::BrIf(x)),
        body_locals(*final(f)) == body_locals(*old(f)),
{
    f.instructions().br_if(x);
}

/// Relies on `InstructionSink::br_on_null`: appends `br_on_null`.
#[verifier::external_body]
fn emit_br_on_null(f: &mut WasmFunction, x: u32)
    ensures
        body_instrs(*final(f)) == body_instrs(*old(f)).push(Instr::BrOnNull(x)),
        body_locals(*final(f)) == body_locals(*old(f)),
{
    f.instructions().br_on_null(x);
}

/// Relies on `InstructionSink::br_on_non_null`: appends `br_on_non_null`.
#[verifier::external_body]
fn emit_br_on_non_null(f: &mut WasmFunction, x: u32)
    ensures
        body_instrs(*final(f)) == body_instrs(*old(f)).push(Instr::BrOnNonNull(x)),
        body_locals(*final(f)) == body_locals(*old(f)),
{
    f.instructions().br_on_non_null(x);
}

/// Relies on `InstructionSink::return_`: appends `return`.
#[verifier::external_body]
fn emit_return(f: &mut WasmFunction)
    ensures
        body_instrs(*final(f)) == body_instrs(*old(f)).push(Instr::Return),
        body_locals(*final(f)) == body_locals(*old(f)),
{
    f.instructions().return_();
}

/// Relies on `InstructionSink::call`: appends `call`.
#[verifier::external_body]
fn emit_call(f: &mut WasmFunction, x: u32)
    ensures
        body_instrs(*final(f)) == body_instrs(*old(f)).push(Instr::Call(x)),
        body_locals(*final(f)) == body_locals(*old(f)),
{
    f.instructions().call(x);
}

/// Relies on `InstructionSink::call_ref`: appends `call_ref`.
#[verifier::external_body]
fn emit_call_ref(f: &mut WasmFunction, x: u32)
    ensures
        body_instrs(*final(f)) == body_instrs(*old(f)).push(Instr::CallRef(x)),
        body_locals(*final(f)) == body_locals(*old(f)),
{
    f.instructions().call_ref(x);
}

/// Relies on `InstructionSink::call_indirect`: appends `call_indirect`.
#[verifier::external_body]
fn emit_call_indirect(f: &mut WasmFunction, table_index: u32, type_index: u32)
    ensures
        body_instrs(*final(f)) == body_instrs(*old(f)).push((Instr::CallIndirect { table_index, type_index })),
        body_locals(*final(f)) == body_locals(*old(f)),
{
    f.instructions().call_indirect(table_index, type_index);
}

/// Relies on `InstructionSink::return_call`: appends `return_call`.
#[verifier::external_body]
fn emit_return_call(f: &mut WasmFunction, x: u32)
    ensures
        body_instrs(*final(f)) == body_instrs(*old(f)).push(Instr::ReturnCall(x)),
        body_locals(*final(f)) == body_locals(*old(f)),
{
    f.instructions().return_call(x);
}

/// Relies on `InstructionSink::return_call_ref`: appends `return_call_ref`.
#[verifier::external_body]
fn emit_return_call_ref(f: &mut WasmFunction, x: u32)
    ensures
        body_instrs(*final(f)) == body_instrs(*old(f)).push(Instr::ReturnCallRef(x)),
        body_locals(*final(f)) == body_locals(*old(f)),
{
    f.instructions().return_call_ref(x);
}

/// Relies on `InstructionSink::return_call_indirect`: appends `return_call_indirect`.
#[verifier::external_body]
fn emit_return_call_indirect(f: &mut WasmFunction, table_index: u32, type_index: u32)
    ensures
        body_instrs(*final(f)) == body_instrs(*old(f)).push((Instr::ReturnCallIndirect { table_index, type_index })),
        body_locals(*final(f)) == body_locals(*old(f)),
{
    f.instructions().return_call_indirect(table_index, type_index);
}

/// Relies on `InstructionSink::drop`: appends `drop`.
#[verifier::external_body]
fn emit_drop(f: &mut WasmFunction)
    ensures
        body_instrs(*final(f)) == body_instrs(*old(f)).push(Instr::Drop),
        body_locals(*final(f)) == body_locals(*old(f)),
{
    f.instructions().drop();
}

/// Relies on `InstructionSink::select`: appends `select`.
#[verifier::external_body]
fn emit_select(f: &mut WasmFunction)
    ensures
        body_instrs(*final(f)) == body_instrs(*old(f)).push(Instr::Select),
        body_locals(*final(f)) == body_locals(*old(f)),
{
    f.instructions().select();
}

/// Relies on `InstructionSink::typed_select`: appends `typed_select`.
#[verifier::external_body]
fn emit_typed_select(f: &mut WasmFunction, t: ValType)
    ensures
        body_instrs(*final(f)) == body_instrs(*old(f)).push(Instr::TypedSelect(t)),
        body_locals(*final(f)) == body_locals(*old(f)),
{
    f.instructions().typed_select(encode_val_type(t));
}

/// Relies on `InstructionSink::local_get`: appends `local.get`.
#[verifier::external_body]
fn emit_local_get(f: &mut WasmFunction, x: u32)
    ensures
        body_instrs(*final(f)) == body_instrs(*old(f)).push(Instr::LocalGet(x)),
        body_locals(*final(f)) == body_locals(*old(f)),
{
    f.instructions().local_get(x);
}

/// Relies on `InstructionSink::local_set`: appends `local.set`.
#[verifier::external_body]
fn emit_local_set(f: &mut WasmFunction, x: u32)
    ensures
        body_instrs(*final(f)) == body_instrs(*old(f)).push(Instr::LocalSet(x)),
        body_locals(*final(f)) == body_locals(*old(f)),
{
    f.instructions().local_set(x);
}

/// Relies on `InstructionSink::local_tee`: appends `local.tee`.
#[verifier::external_body]
fn emit_local_tee(f: &mut WasmFunction, x: u32)
    ensures
        body_instrs(*final(f)) == body_instrs(*old(f)).push(Instr::LocalTee(x)),
        body_locals(*final(f)) == body_locals(*old(f)),
{
    f.instructions().local_tee(x);
}

/// Relies on `InstructionSink::global_get`: appends `global.get`.
#[verifier::external_body]
fn emit_global_get(f: &mut WasmFunction, x: u32)
    ensures
        body_instrs(*final(f)) == body_instrs(*old(f)).push(Instr::GlobalGet(x)),
        body_locals(*final(f)) == body_locals(*old(f)),
{
    f.instructions().global_get(x);
}

/// Relies on `InstructionSink::global_set`: appends `global.set`.
#[verifier::external_body]
fn emit_global_set(f: &mut WasmFunction, x: u32)
    ensures
        body_instrs(*final(f)) == body_instrs(*old(f)).push(Instr::GlobalSet(x)),
        body_locals(*final(f)) == body_locals(*old(f)),
{
    f.instructions().global_set(x);
}

/// Relies on `InstructionSink::i32_load`: appends `i32.load`.
#[verifier::external_body]
fn emit_i32_load(f: &mut WasmFunction, m: MemArg)
    requires
        m.align < 64,
    ensures
        body_instrs(*final(f)) == body_instrs(*old(f)).push(Instr::I32Load(m)),
        body_locals(*final(f)) == body_locals(*old(f)),
{
    f.instructions().i32_load(wasm_encoder::MemArg {
        offset: m.offset,
        align: m.align,
        memory_index: m.memory_index,
    });
}

/// Relies on `InstructionSink::i64_load`: appends `i64.load`.
#[verifier::external_body]
fn emit_i64_load(f: &mut WasmFunction, m: MemArg)
    requires
        m.align < 64,
    ensures
        body_instrs(*final(f)) == body_instrs(*old(f)).push(Instr::I64Load(m)),
        body_locals(*final(f)) == body_locals(*old(f)),
{
    f.instructions().i64_load(wasm_encoder::MemArg {
        offset: m.offset,
        align: m.align,
        memory_index: m.memory_index,
    });
}

/// Relies on `InstructionSink::f32_load`: appends `f32.load`.
#[verifier::external_body]
fn emit_f32_load(f: &mut WasmFunction, m: MemArg)
    requires
        m.align < 64,
    ensures
        body_instrs(*final(f)) == body_instrs(*old(f)).push(Instr::F32Load(m)),
        body_locals(*final(f)) == body_locals(*old(f)),
{
    f.instructions().f32_load(wasm_encoder::MemArg {
        offset: m.offset,
        align: m.align,
        memory_index: m.memory_index,
    });
}

/// Relies on `InstructionSink::f64_load`: appends `f64.load`.
#[verifier::external_body]
fn emit_f64_load(f: &mut WasmFunction, m: MemArg)
    requires
        m.align < 64,
    ensures
        body_instrs(*final(f)) == body_instrs(*old(f)).push(Instr::F64Load(m)),
        body_locals(*final(f)) == body_locals(*old(f)),
{
    f.instructions().f64_load(wasm_encoder::MemArg {
        offset: m.offset,
        align: m.align,
        memory_index: m.memory_index,
    });
}

/// Relies on `InstructionSink::i32_load8_s`: appends `i32.load8_s`.
#[verifier::external_body]
fn emit_i32_load8_s(f: &mut WasmFunction, m: MemArg)
    requires
        m.align < 64,
    ensures
        body_instrs(*final(f)) == body_instrs(*old(f)).push(Instr::I32Load8S(m)),
        body_locals(*final(f)) == body_locals(*old(f)),
{
    f.instructions().i32_load8_s(wasm_encoder::MemArg {
        offset: m.offset,
        align: m.align,
        memory_index: m.memory_index,
    });
}

/// Relies on `InstructionSink::i32_load8_u`: appends `i32.load8_u`.
#[verifier::external_body]
fn emit_i32_load8_u(f: &mut WasmFunction, m: MemArg)
    requires
        m.align < 64,
    ensures
        body_instrs(*final(f)) == body_instrs(*old(f)).push(Instr::I32Load8U(m)),
        body_locals(*final(f)) == body_locals(*old(f)),
{
    f.instructions().i32_load8_u(wasm_encoder::MemArg {
        offset: m.offset,
        align: m.align,
        memory_index: m.memory_index,
    });
}

/// Relies on `InstructionSink::i32_load16_s`: appends `i32.load16_s`.
#[verifier::external_body]
fn emit_i32_load16_s(f: &mut WasmFunction, m: MemArg)
    requires
        m.align < 64,
    ensures
        body_instrs(*final(f)) == body_instrs(*old(f)).push(Instr::I32Load16S(m)),
        body_locals(*final(f)) == body_locals(*old(f)),
{
    f.instructions().i32_load16_s(wasm_encoder::MemArg {
        offset: m.offset,
        align: m.align,
        memory_index: m.memory_index,
    });
}

/// Relies on `InstructionSink::i32_load16_u`: appends `i32.load16_u`.
#[verifier::external_body]
fn emit_i32_load16_u(f: &mut WasmFunction, m: MemArg)
    requires
        m.align < 64,
    ensures
        body_instrs(*final(f)) == body_instrs(*old(f)).push(Instr::I32Load16U(m)),
        body_locals(*final(f)) == body_locals(*old(f)),
{
    f.instructions().i32_load16_u(wasm_encoder::MemArg {
        offset: m.offset,
        align: m.align,
        memory_index: m.memory_index,
    });
}

/// Relies on `InstructionSink::i64_load8_s`: appends `i64.load8_s`.
#[verifier::external_body]
fn emit_i64_load8_s(f: &mut WasmFunction, m: MemArg)
    requires
        m.align < 64,
    ensures
        body_instrs(*final(f)) == body_instrs(*old(f)).push(Instr::I64Load8S(m)),
        body_locals(*final(f)) == body_locals(*old(f)),
{
    f.instructions().i64_load8_s(wasm_encoder::MemArg {
        offset: m.offset,
        align: m.align,
        memory_index: m.memory_index,
    });
}

/// Relies on `InstructionSink::i64_load8_u`: appends `i64.load8_u`.
#[verifier::external_body]
fn emit_i64_load8_u(f: &mut WasmFunction, m: MemArg)
    requires
        m.align < 64,
    ensures
        body_instrs(*final(f)) == body_instrs(*old(f)).push(Instr::I64Load8U(m)),
        body_locals(*final(f)) == body_locals(*old(f)),
{
    f.instructions().i64_load8_u(wasm_encoder::MemArg {
        offset: m.offset,
        align: m.align,
        memory_index: m.memory_index,
    });
}

/// Relies on `InstructionSink::i64_load16_s`: appends `i64.load16_s`.
#[verifier::external_body]
fn emit_i64_load16_s(f: &mut WasmFunction, m: MemArg)
    requires
        m.align < 64,
    ensures
        body_instrs(*final(f)) == body_instrs(*old(f)).push(Instr::I64Load16S(m)),
        body_locals(*final(f)) == body_locals(*old(f)),
{
    f.instructions().i64_load16_s(wasm_encoder::MemArg {
        offset: m.offset,
        align: m.align,
        memory_index: m.memory_index,
    });
}

/// Relies on `InstructionSink::i64_load16_u`: appends `i64.load16_u`.
#[verifier::external_body]
fn emit_i64_load16_u(f: &mut WasmFunction, m: MemArg)
    requires
        m.align < 64,
    ensures
        body_instrs(*final(f)) == body_instrs(*old(f)).push(Instr::I64Load16U(m)),
        body_locals(*final(f)) == body_locals(*old(f)),
{
    f.instructions().i64_load16_u(wasm_encoder::MemArg {
        offset: m.offset,
        align: m.align,
        memory_index: m.memory_index,
    });
}

/// Relies on `InstructionSink::i64_load32_s`: appends `i64.load32_s`.
#[verifier::external_body]
fn emit_i64_load32_s(f: &mut WasmFunction, m: MemArg)
    requires
        m.align < 64,
    ensures
        body_instrs(*final(f)) == body_instrs(*old(f)).push(Instr::I64Load32S(m)),
        body_locals(*final(f)) == body_locals(*old(f)),
{
    f.instructions().i64_load32_s(wasm_encoder::MemArg {
        offset: m.offset,
        align: m.align,
        memory_index: m.memory_index,
    });
}

/// Relies on `InstructionSink::i64_load32_u`: appends `i64.load32_u`.
#[verifier::external_body]
fn emit_i64_load32_u(f: &mut WasmFunction, m: MemArg)
    requires
        m.align < 64,
    ensures
        body_instrs(*final(f)) == body_instrs(*old(f)).push(Instr::I64Load32U(m)),
        body_locals(*final(f)) == body_locals(*old(f)),
{
    f.instructions().i64_load32_u(wasm_encoder::MemArg {
        offset: m.offset,
        align: m.align,
        memory_index: m.memory_index,
    });
}

/// Relies on `InstructionSink::i32_store`: appends `i32.store`.
#[verifier::external_body]
fn emit_i32_store(f: &mut WasmFunction, m: MemArg)
    requires
        m.align < 64,
    ensures
        body_instrs(*final(f)) == body_instrs(*old(f)).push(Instr::I32Store(m)),
        body_locals(*final(f)) == body_locals(*old(f)),
{
    f.instructions().i32_store(wasm_encoder::MemArg {
        offset: m.offset,
        align: m.align,
        memory_index: m.memory_index,
    });
}

/// Relies on `InstructionSink::i64_store`: appends `i64.store`.
#[verifier::external_body]
fn emit_i64_store(f: &mut WasmFunction, m: MemArg)
    requires
        m.align < 64,
    ensures
        body_instrs(*final(f)) == body_instrs(*old(f)).push(Instr::I64Store(m)),
        body_locals(*final(f)) == body_locals(*old(f)),
{
    f.instructions().i64_store(wasm_encoder::MemArg {
        offset: m.offset,
        align: m.align,
        memory_index: m.memory_index,
    });
}

/// Relies on `InstructionSink::f32_store`: appends `f32.store`.
#[verifier::external_body]
fn emit_f32_store(f: &mut WasmFunction, m: MemArg)
    requires
        m.align < 64,
    ensures
        body_instrs(*final(f)) == body_instrs(*old(f)).push(Instr::F32Store(m)),
        body_locals(*final(f)) == body_locals(*old(f)),
{
    f.instructions().f32_store(wasm_encoder::MemArg {
        offset: m.offset,
        align: m.align,
        memory_index: m.memory_index,
    });
}

/// Relies on `InstructionSink::f64_store`: appends `f64.store`.
#[verifier::external_body]
fn emit_f64_store(f: &mut WasmFunction, m: MemArg)
    requires
        m.align < 64,
    ensures
        body_instrs(*final(f)) == body_instrs(*old(f)).push(Instr::F64Store(m)),
        body_locals(*final(f)) == body_locals(*old(f)),
{
    f.instructions().f64_store(wasm_encoder::MemArg {
        offset: m.offset,
        align: m.align,
        memory_index: m.memory_index,
    });
}

/// Relies on `InstructionSink::i32_store8`: appends `i32.store8`.
#[verifier::external_body]
fn emit_i32_store8(f: &mut WasmFunction, m: MemArg)
    requires
        m.align < 64,
    ensures
        body_instrs(*final(f)) == body_instrs(*old(f)).push(Instr::I32Store8(m)),
        body_locals(*final(f)) == body_locals(*old(f)),
{
    f.instructions().i32_store8(wasm_encoder::MemArg {
        offset: m.offset,
        align: m.align,
        memory_index: m.memory_index,
    });
}

/// Relies on `InstructionSink::i32_store16`: appends `i32.store16`.
#[verifier::external_body]
fn emit_i32_store16(f: &mut WasmFunction, m: MemArg)
    requires
        m.align < 64,
    ensures
        body_instrs(*final(f)) == body_instrs(*old(f)).push(Instr::I32Store16(m)),
        body_locals(*final(f)) == body_locals(*old(f)),
{
    f.instructions().i32_store16(wasm_encoder::MemArg {
        offset: m.offset,
        align: m.align,
        memory_index: m.memory_index,
    });
}

/// Relies on `InstructionSink::i64_store8`: appends `i64.store8`.
#[verifier::external_body]
fn emit_i64_store8(f: &mut WasmFunction, m: MemArg)
    requires
        m.align < 64,
    ensures
        body_instrs(*final(f)) == body_instrs(*old(f)).push(Instr::I64Store8(m)),
        body_locals(*final(f)) == body_locals(*old(f)),
{
    f.instructions().i64_store8(wasm_encoder::MemArg {
        offset: m.offset,
        align: m.align,
        memory_index: m.memory_index,
    });
}

/// Relies on `InstructionSink::i64_store16`: appends `i64.store16`.
#[verifier::external_body]
fn emit_i64_store16(f: &mut WasmFunction, m: MemArg)
    requires
        m.align < 64,
    ensures
        body_instrs(*final(f)) == body_instrs(*old(f)).push(Instr::I64Store16(m)),
        body_locals(*final(f)) == body_locals(*old(f)),
{
    f.instructions().i64_store16(wasm_encoder::MemArg {
        offset: m.offset,
        align: m.align,
        memory_index: m.memory_index,
    });
}

/// Relies on `InstructionSink::i64_store32`: appends `i64.store32`.
#[verifier::external_body]
fn emit_i64_store32(f: &mut WasmFunction, m: MemArg)
    requires
        m.align < 64,
    ensures
        body_instrs(*final(f)) == body_instrs(*old(f)).push(Instr::I64Store32(m)),
        body_locals(*final(f)) == body_locals(*old(f)),
{
    f.instructions().i64_store32(wasm_encoder::MemArg {
        offset: m.offset,
        align: m.align,
        memory_index: m.memory_index,
    });
}

/// Relies on `InstructionSink::memory_size`: appends `memory.size`.
#[verifier::external_body]
fn emit_memory_size(f: &mut WasmFunction, x: u32)
    ensures
        body_instrs(*final(f)) == body_instrs(*old(f)).push(Instr::MemorySize(x)),
        body_locals(*final(f)) == body_locals(*old(f)),
{
    f.instructions().memory_size(x);
}

/// Relies on `InstructionSink::memory_grow`: appends `memory.grow`.
#[verifier::external_body]
fn emit_memory_grow(f: &mut WasmFunction, x: u32)
    ensures
        body_instrs(*final(f)) == body_instrs(*old(f)).push(Instr::MemoryGrow(x)),
        body_locals(*final(f)) == body_locals(*old(f)),
{
    f.instructions().memory_grow(x);
}

/// Relies on `InstructionSink::memory_init`: appends `memory.init`.
#[verifier::external_body]
fn emit_memory_init(f: &mut WasmFunction, mem: u32, data_index: u32)
    ensures
        body_instrs(*final(f)) == body_instrs(*old(f)).push((Instr::MemoryInit { mem, data_index })),
        body_locals(*final(f)) == body_locals(*old(f)),
{
    f.instructions().memory_init(mem, data_index);
}

/// Relies on `InstructionSink::data_drop`: appends `data.drop`.
#[verifier::external_body]
fn emit_data_drop(f: &mut WasmFunction, x: u32)
    ensures
        body_instrs(*final(f)) == body_instrs(*old(f)).push(Instr::DataDrop(x)),
        body_locals(*final(f)) == body_locals(*old(f)),
{
    f.instructions().data_drop(x);
}

/// Relies on `InstructionSink::memory_copy`: appends `memory.copy`.
#[verifier::external_body]
fn emit_memory_copy(f: &mut WasmFunction, dst_mem: u32, src_mem: u32)
    ensures
        body_instrs(*final(f)) == body_instrs(*old(f)).push((Instr::MemoryCopy { dst_mem, src_mem })),
        body_locals(*final(f)) == body_locals(*old(f)),
{
    f.instructions().memory_copy(dst_mem, src_mem);
}

/// Relies on `InstructionSink::memory_fill`: appends `memory.fill`.
#[verifier::external_body]
fn emit_memory_fill(f: &mut WasmFunction, x: u32)
    ensures
        body_instrs(*final(f)) == body_instrs(*old(f)).push(Instr::MemoryFill(x)),
        body_locals(*final(f)) == body_locals(*old(f)),
{
    f.instructions().memory_fill(x);
}

/// Relies on `InstructionSink::i32_const`: appends `i32.const`.
#[verifier::external_body]
fn emit_i32_const(f: &mut WasmFunction, x: i32)
    ensures
        body_instrs(*final(f)) == body_instrs(*old(f)).push(Instr::I32Const(x)),
        body_locals(*final(f)) == body_locals(*old(f)),
{
    f.instructions().i32_const(x);
}

/// Relies on `InstructionSink::i64_const`: appends `i64.const`.
#[verifier::external_body]
fn emit_i64_const(f: &mut WasmFunction, x: i64)
    ensures
        body_instrs(*final(f)) == body_instrs(*old(f)).push(Instr::I64Const(x)),
        body_locals(*final(f)) == body_locals(*old(f)),
{
    f.instructions().i64_const(x);
}

/// Relies on `InstructionSink::f32_const`: appends `f32.const` of the float with these bits.
#[verifier::external_body]
fn emit_f32_const(f: &mut WasmFunction, bits: u32)
    ensures
        body_instrs(*final(f)) == body_instrs(*old(f)).push(Instr::F32Const(bits)),
        body_locals(*final(f)) == body_locals(*old(f)),
{
    f.instructions().f32_const(wasm_encoder::Ieee32::new(bits));
}

/// Relies on `InstructionSink::f64_const`: appends `f64.const` of the float with these bits.
#[verifier::external_body]
fn emit_f64_const(f: &mut WasmFunction, bits: u64)
    ensures
        body_instrs(*final(f)) == body_instrs(*old(f)).push(Instr::F64Const(bits)),
        body_locals(*final(f)) == body_locals(*old(f)),
{
    f.instructions().f64_const(wasm_encoder::Ieee64::new(bits));
}

/// Relies on `InstructionSink::i32_eqz`: appends `i32.eqz`.
#[verifier::external_body]
fn emit_i32_eqz(f: &mut WasmFunction)
    ensures
        body_instrs(*final(f)) == body_instrs(*old(f)).push(Instr::I32Eqz),
        body_locals(*final(f)) == body_locals(*old(f)),
{
    f.instructions().i32_eqz();
}

/// Relies on `InstructionSink::i32_eq`: appends `i32.eq`.
#[verifier::external_body]
fn emit_i32_eq(f: &mut WasmFunction)
    ensures
        body_instrs(*final(f)) == body_instrs(*old(f)).push(Instr::I32Eq),
        body_locals(*final(f)) == body_locals(*old(f)),
{
    f.instructions().i32_eq();
}

/// Relies on `InstructionSink::i32_ne`: appends `i32.ne`.
#[verifier::external_body]
fn emit_i32_ne(f: &mut WasmFunction)
    ensures
        body_instrs(*final(f)) == body_instrs(*old(f)).push(Instr::I32Ne),
        body_locals(*final(f)) == body_locals(*old(f)),
{
    f.instructions().i32_ne();
}

/// Relies on `InstructionSink::i32_lt_s`: appends `i32.lt_s`.
#[verifier::external_body]
fn emit_i32_lt_s(f: &mut WasmFunction)
    ensures
        body_instrs(*final(f)) == body_instrs(*old(f)).push(Instr::I32LtS),
        body_locals(*final(f)) == body_locals(*old(f)),
{
    f.instructions().i32_lt_s();
}

/// Relies on `InstructionSink::i32_lt_u`: appends `i32.lt_u`.
#[verifier::external_body]
fn emit_i32_lt_u(f: &mut WasmFunction)
    ensures
        body_instrs(*final(f)) == body_instrs(*old(f)).push(Instr::I32LtU),
        body_locals(*final(f)) == body_locals(*old(f)),
{
    f.instructions().i32_lt_u();
}

/// Relies on `InstructionSink::i32_gt_s`: appends `i32.gt_s`.
#[verifier::external_body]
fn emit_i32_gt_s(f: &mut WasmFunction)
    ensures
        body_instrs(*final(f)) == body_instrs(*old(f)).push(Instr::I32GtS),
        body_locals(*final(f)) == body_locals(*old(f)),
{
    f.instructions().i32_gt_s();
}

/// Relies on `InstructionSink::i32_gt_u`: appends `i32.gt_u`.
#[verifier::external_body]
fn emit_i32_gt_u(f: &mut WasmFunction)
    ensures
        body_instrs(*final(f)) == body_instrs(*old(f)).push(Instr::I32GtU),
        body_locals(*final(f)) == body_locals(*old(f)),
{
    f.instructions().i32_gt_u();
}

/// Relies on `InstructionSink::i32_le_s`: appends `i32.le_s`.
#[verifier::external_body]
fn emit_i32_le_s(f: &mut WasmFunction)
    ensures
        body_instrs(*final(f)) == body_instrs(*old(f)).push(Instr::I32LeS),
        body_locals(*final(f)) == body_locals(*old(f)),
{
    f.instructions().i32_le_s();
}

/// Relies on `InstructionSink::i32_le_u`: appends `i32.le_u`.
#[verifier::external_body]
fn emit_i32_le_u(f: &mut WasmFunction)
    ensures
        body_instrs(*final(f)) == body_instrs(*old(f)).push(Instr::I32LeU),
        body_locals(*final(f)) == body_locals(*old(f)),
{
    f.instructions().i32_le_u();
}

/// Relies on `InstructionSink::i32_ge_s`: appends `i32.ge_s`.
#[verifier::external_body]
fn emit_i32_ge_s(f: &mut WasmFunction)
    ensures
        body_instrs(*final(f)) == body_instrs(*old(f)).push(Instr::I32GeS),
        body_locals(*final(f)) == body_locals(*old(f)),
{
    f.instructions().i32_ge_s();
}

/// Relies on `InstructionSink::i32_ge_u`: appends `i32.ge_u`.
#[verifier::external_body]
fn emit_i32_ge_u(f: &mut WasmFunction)
    ensures
        body_instrs(*final(f)) == body_instrs(*old(f)).push(Instr::I32GeU),
        body_locals(*final(f)) == body_locals(*old(f)),
{
    f.instructions().i32_ge_u();
}

/// Relies on `InstructionSink::i64_eqz`: appends `i64.eqz`.
#[verifier::external_body]
fn emit_i64_eqz(f: &mut WasmFunction)
    ensures
        body_instrs(*final(f)) == body_instrs(*old(f)).push(Instr::I64Eqz),
        body_locals(*final(f)) == body_locals(*old(f)),
{
    f.instructions().i64_eqz();
}

/// Relies on `InstructionSink::i64_eq`: appends `i64.eq`.
#[verifier::external_body]
fn emit_i64_eq(f: &mut WasmFunction)
    ensures
        body_instrs(*final(f)) == body_instrs(*old(f)).push(Instr::I64Eq),
        body_locals(*final(f)) == body_locals(*old(f)),
{
    f.instructions().i64_eq();
}

/// Relies on `InstructionSink::i64_ne`: appends `i64.ne`.
#[verifier::external_body]
fn emit_i64_ne(f: &mut WasmFunction)
    ensures
        body_instrs(*final(f)) == body_instrs(*old(f)).push(Instr::I64Ne),
        body_locals(*final(f)) == body_locals(*old(f)),
{
    f.instructions().i64_ne();
}

/// Relies on `InstructionSink::i64_lt_s`: appends `i64.lt_s`.
#[verifier::external_body]
fn emit_i64_lt_s(f: &mut WasmFunction)
    ensures
        body_instrs(*final(f)) == body_instrs(*old(f)).push(Instr::I64LtS),
        body_locals(*final(f)) == body_locals(*old(f)),
{
    f.instructions().i64_lt_s();
}

/// Relies on `InstructionSink::i64_lt_u`: appends `i64.lt_u`.
#[verifier::external_body]
fn emit_i64_lt_u(f: &mut WasmFunction)
    ensures
        body_instrs(*final(f)) == body_instrs(*old(f)).push(Instr::I64LtU),
        body_locals(*final(f)) == body_locals(*old(f)),
{
    f.instructions().i64_lt_u();
}

/// Relies on `InstructionSink::i64_gt_s`: appends `i64.gt_s`.
#[verifier::external_body]
fn emit_i64_gt_s(f: &mut WasmFunction)
    ensures
        body_instrs(*final(f)) == body_instrs(*old(f)).push(Instr::I64GtS),
        body_locals(*final(f)) == body_locals(*old(f)),
{
    f.instructions().i64_gt_s();
}

/// Relies on `InstructionSink::i64_gt_u`: appends `i64.gt_u`.
#[verifier::external_body]
fn emit_i64_gt_u(f: &mut WasmFunction)
    ensures
        body_instrs(*final(f)) == body_instrs(*old(f)).push(Instr::I64GtU),
        body_locals(*final(f)) == body_locals(*old(f)),
{
    f.instructions().i64_gt_u();
}

/// Relies on `InstructionSink::i64_le_s`: appends `i64.le_s`.
#[verifier::external_body]
fn emit_i64_le_s(f: &mut WasmFunction)
    ensures
        body_instrs(*final(f)) == body_instrs(*old(f)).push(Instr::I64LeS),
        body_locals(*final(f)) == body_locals(*old(f)),
{
    f.instructions().i64_le_s();
}

/// Relies on `InstructionSink::i64_le_u`: appends `i64.le_u`.
#[verifier::external_body]
fn emit_i64_le_u(f: &mut WasmFunction)
    ensures
        body_instrs(*final(f)) == body_instrs(*old(f)).push(Instr::I64LeU),
        body_locals(*final(f)) == body_locals(*old(f)),
{
    f.instructions().i64_le_u();
}

/// Relies on `InstructionSink::i64_ge_s`: appends `i64.ge_s`.
#[verifier::external_body]
fn emit_i64_ge_s(f: &mut WasmFunction)
    ensures
        body_instrs(*final(f)) == body_instrs(*old(f)).push(Instr::I64GeS),
        body_locals(*final(f)) == body_locals(*old(f)),
{
    f.instructions().i64_ge_s();
}

/// Relies on `InstructionSink::i64_ge_u`: appends `i64.ge_u`.
#[verifier::external_body]
fn emit_i64_ge_u(f: &mut WasmFunction)
    ensures
        body_instrs(*final(f)) == body_instrs(*old(f)).push(Instr::I64GeU),
        body_locals(*final(f)) == body_locals(*old(f)),
{
    f.instructions().i64_ge_u();
}

/// Relies on `InstructionSink::f32_eq`: appends `f32.eq`.
#[verifier::external_body]
fn emit_f32_eq(f: &mut WasmFunction)
    ensures
        body_instrs(*final(f)) == body_instrs(*old(f)).push(Instr::F32Eq),
        body_locals(*final(f)) == body_locals(*old(f)),
{
    f.instructions().f32_eq();
}

/// Relies on `InstructionSink::f32_ne`: appends `f32.ne`.
#[verifier::external_body]
fn emit_f32_ne(f: &mut WasmFunction)
    ensures
        body_instrs(*final(f)) == body_instrs(*old(f)).push(Instr::F32Ne),
        body_locals(*final(f)) == body_locals(*old(f)),
{
    f.instructions().f32_ne();
}

/// Relies on `InstructionSink::f32_lt`: appends `f32.lt`.
#[verifier::external_body]
fn emit_f32_lt(f: &mut WasmFunction)
    ensures
        body_instrs(*final(f)) == body_instrs(*old(f)).push(Instr::F32Lt),
        body_locals(*final(f)) == body_locals(*old(f)),
{
    f.instructions().f32_lt();
}

/// Relies on `InstructionSink::f32_gt`: appends `f32.gt`.
#[verifier::external_body]
fn emit_f32_gt(f: &mut WasmFunction)
    ensures
        body_instrs(*final(f)) == body_instrs(*old(f)).push(Instr::F32Gt),
        body_locals(*final(f)) == body_locals(*old(f)),
{
    f.instructions().f32_gt();
}

/// Relies on `InstructionSink::f32_le`: appends `f32.le`.
#[verifier::external_body]
fn emit_f32_le(f: &mut WasmFunction)
    ensures
        body_instrs(*final(f)) == body_instrs(*old(f)).push(Instr::F32Le),
        body_locals(*final(f)) == body_locals(*old(f)),
{
    f.instructions().f32_le();
}

/// Relies on `InstructionSink::f32_ge`: appends `f32.ge`.
#[verifier::external_body]
fn emit_f32_ge(f: &mut WasmFunction)
    ensures
        body_instrs(*final(f)) == body_instrs(*old(f)).push(Instr::F32Ge),
        body_locals(*final(f)) == body_locals(*old(f)),
{
    f.instructions().f32_ge();
}

/// Relies on `InstructionSink::f64_eq`: appends `f64.eq`.
#[verifier::external_body]
fn emit_f64_eq(f: &mut WasmFunction)
    ensures
        body_instrs(*final(f)) == body_instrs(*old(f)).push(Instr::F64Eq),
        body_locals(*final(f)) == body_locals(*old(f)),
{
    f.instructions().f64_eq();
}

/// Relies on `InstructionSink::f64_ne`: appends `f64.ne`.
#[verifier::external_body]
fn emit_f64_ne(f: &mut WasmFunction)
    ensures
        body_instrs(*final(f)) == body_instrs(*old(f)).push(Instr::F64Ne),
        body_locals(*final(f)) == body_locals(*old(f)),
{
    f.instructions().f64_ne();
}

/// Relies on `InstructionSink::f64_lt`: appends `f64.lt`.
#[verifier::external_body]
fn emit_f64_lt(f: &mut WasmFunction)
    ensures
        body_instrs(*final(f)) == body_instrs(*old(f)).push(Instr::F64Lt),
        body_locals(*final(f)) == body_locals(*old(f)),
{
    f.instructions().f64_lt();
}

/// Relies on `InstructionSink::f64_gt`: appends `f64.gt`.
#[verifier::external_body]
fn emit_f64_gt(f: &mut WasmFunction)
    ensures
        body_instrs(*final(f)) == body_instrs(*old(f)).push(Instr::F64Gt),
        body_locals(*final(f)) == body_locals(*old(f)),
{
    f.instructions().f64_gt();
}

/// Relies on `InstructionSink::f64_le`: appends `f64.le`.
#[verifier::external_body]
fn emit_f64_le(f: &mut WasmFunction)
    ensures
        body_instrs(*final(f)) == body_instrs(*old(f)).push(Instr::F64Le),
        body_locals(*final(f)) == body_locals(*old(f)),
{
    f.instructions().f64_le();
}

/// Relies on `InstructionSink::f64_ge`: appends `f64.ge`.
#[verifier::external_body]
fn emit_f64_ge(f: &mut WasmFunction)
    ensures
        body_instrs(*final(f)) == body_instrs(*old(f)).push(Instr::F64Ge),
        body_locals(*final(f)) == body_locals(*old(f)),
{
    f.instructions().f64_ge();
}

/// Relies on `InstructionSink::i32_clz`: appends `i32.clz`.
#[verifier::external_body]
fn emit_i32_clz(f: &mut WasmFunction)
    ensures
        body_instrs(*final(f)) == body_instrs(*old(f)).push(Instr::I32Clz),
        body_locals(*final(f)) == body_locals(*old(f)),
{
    f.instructions().i32_clz();
}

/// Relies on `InstructionSink::i32_ctz`: appends `i32.ctz`.
#[verifier::external_body]
fn emit_i32_ctz(f: &mut WasmFunction)
    ensures
        body_instrs(*final(f)) == body_instrs(*old(f)).push(Instr::I32Ctz),
        body_locals(*final(f)) == body_locals(*old(f)),
{
    f.instructions().i32_ctz();
}

/// Relies on `InstructionSink::i32_popcnt`: appends `i32.popcnt`.
#[verifier::external_body]
fn emit_i32_popcnt(f: &mut WasmFunction)
    ensures
        body_instrs(*final(f)) == body_instrs(*old(f)).push(Instr::I32Popcnt),
        body_locals(*final(f)) == body_locals(*old(f)),
{
    f.instructions().i32_popcnt();
}

/// Relies on `InstructionSink::i32_add`: appends `i32.add`.
#[verifier::external_body]
fn emit_i32_add(f: &mut WasmFunction)
    ensures
        body_instrs(*final(f)) == body_instrs(*old(f)).push(Instr::I32Add),
        body_locals(*final(f)) == body_locals(*old(f)),
{
    f.instructions().i32_add();
}

/// Relies on `InstructionSink::i32_sub`: appends `i32.sub`.
#[verifier::external_body]
fn emit_i32_sub(f: &mut WasmFunction)
    ensures
        body_instrs(*final(f)) == body_instrs(*old(f)).push(Instr::I32Sub),
        body_locals(*final(f)) == body_locals(*old(f)),
{
    f.instructions().i32_sub();
}

/// Relies on `InstructionSink::i32_mul`: appends `i32.mul`.
#[verifier::external_body]
fn emit_i32_mul(f: &mut WasmFunction)
    ensures
        body_instrs(*final(f)) == body_instrs(*old(f)).push(Instr::I32Mul),
        body_locals(*final(f)) == body_locals(*old(f)),
{
    f.instructions().i32_mul();
}

/// Relies on `InstructionSink::i32_div_s`: appends `i32.div_s`.
#[verifier::external_body]
fn emit_i32_div_s(f: &mut WasmFunction)
    ensures
        body_instrs(*final(f)) == body_instrs(*old(f)).push(Instr::I32DivS),
        body_locals(*final(f)) == body_locals(*old(f)),
{
    f.instructions().i32_div_s();
}

/// Relies on `InstructionSink::i32_div_u`: appends `i32.div_u`.
#[verifier::external_body]
fn emit_i32_div_u(f: &mut WasmFunction)
    ensures
        body_instrs(*final(f)) == body_instrs(*old(f)).push(Instr::I32DivU),
        body_locals(*final(f)) == body_locals(*old(f)),
{
    f.instructions().i32_div_u();
}

/// Relies on `InstructionSink::i32_rem_s`: appends `i32.rem_s`.
#[verifier::external_body]
fn emit_i32_rem_s(f: &mut WasmFunction)
    ensures
        body_instrs(*final(f)) == body_instrs(*old(f)).push(Instr::I32RemS),
        body_locals(*final(f)) == body_locals(*old(f)),
{
    f.instructions().i32_rem_s();
}

/// Relies on `InstructionSink::i32_rem_u`: appends `i32.rem_u`.
#[verifier::external_body]
fn emit_i32_rem_u(f: &mut WasmFunction)
    ensures
        body_instrs(*final(f)) == body_instrs(*old(f)).push(Instr::I32RemU),
        body_locals(*final(f)) == body_locals(*old(f)),
{
    f.instructions().i32_rem_u();
}

/// Relies on `InstructionSink::i32_and`: appends `i32.and`.
#[verifier::external_body]
fn emit_i32_and(f: &mut WasmFunction)
    ensures
        body_instrs(*final(f)) == body_instrs(*old(f)).push(Instr::I32And),
        body_locals(*final(f)) == body_locals(*old(f)),
{
    f.instructions().i32_and();
}

/// Relies on `InstructionSink::i32_or`: appends `i32.or`.
#[verifier::external_body]
fn emit_i32_or(f: &mut WasmFunction)
    ensures
        body_instrs(*final(f)) == body_instrs(*old(f)).push(Instr::I32Or),
        body_locals(*final(f)) == body_locals(*old(f)),
{
    f.instructions().i32_or();
}

/// Relies on `InstructionSink::i32_xor`: appends `i32.xor`.
#[verifier::external_body]
fn emit_i32_xor(f: &mut WasmFunction)
    ensures
        body_instrs(*final(f)) == body_instrs(*old(f)).push(Instr::I32Xor),
        body_locals(*final(f)) == body_locals(*old(f)),
{
    f.instructions().i32_xor();
}

/// Relies on `InstructionSink::i32_shl`: appends `i32.shl`.
#[verifier::external_body]
fn emit_i32_shl(f: &mut WasmFunction)
    ensures
        body_instrs(*final(f)) == body_instrs(*old(f)).push(Instr::I32Shl),
        body_locals(*final(f)) == body_locals(*old(f)),
{
    f.instructions().i32_shl();
}

/// Relies on `InstructionSink::i32_shr_s`: appends `i32.shr_s`.
#[verifier::external_body]
fn emit_i32_shr_s(f: &mut WasmFunction)
    ensures
        body_instrs(*final(f)) == body_instrs(*old(f)).push(Instr::I32ShrS),
        body_locals(*final(f)) == body_locals(*old(f)),
{
    f.instructions().i32_shr_s();
}

/// Relies on `InstructionSink::i32_shr_u`: appends `i32.shr_u`.
#[verifier::external_body]
fn emit_i32_shr_u(f: &mut WasmFunction)
    ensures
        body_instrs(*final(f)) == body_instrs(*old(f)).push(Instr::I32ShrU),
        body_locals(*final(f)) == body_locals(*old(f)),
{
    f.instructions().i32_shr_u();
}

/// Relies on `InstructionSink::i32_rotl`: appends `i32.rotl`.
#[verifier::external_body]
fn emit_i32_rotl(f: &mut WasmFunction)
    ensures
        body_instrs(*final(f)) == body_instrs(*old(f)).push(Instr::I32Rotl),
        body_locals(*final(f)) == body_locals(*old(f)),
{
    f.instructions().i32_rotl();
}

/// Relies on `InstructionSink::i32_rotr`: appends `i32.rotr`.
#[verifier::external_body]
fn emit_i32_rotr(f: &mut WasmFunction)
    ensures
        body_instrs(*final(f)) == body_instrs(*old(f)).push(Instr::I32Rotr),
        body_locals(*final(f)) == body_locals(*old(f)),
{
    f.instructions().i32_rotr();
}

/// Relies on `InstructionSink::i64_clz`: appends `i64.clz`.
#[verifier::external_body]
fn emit_i64_clz(f: &mut WasmFunction)
    ensures
        body_instrs(*final(f)) == body_instrs(*old(f)).push(Instr::I64Clz),
        body_locals(*final(f)) == body_locals(*old(f)),
{
    f.instructions().i64_clz();
}

/// Relies on `InstructionSink::i64_ctz`: appends `i64.ctz`.
#[verifier::external_body]
fn emit_i64_ctz(f: &mut WasmFunction)
    ensures
        body_instrs(*final(f)) == body_instrs(*old(f)).push(Instr::I64Ctz),
        body_locals(*final(f)) == body_locals(*old(f)),
{
    f.instructions().i64_ctz();
}

/// Relies on `InstructionSink::i64_popcnt`: appends `i64.popcnt`.
#[verifier::external_body]
fn emit_i64_popcnt(f: &mut WasmFunction)
    ensures
        body_instrs(*final(f)) == body_instrs(*old(f)).push(Instr::I64Popcnt),
        body_locals(*final(f)) == body_locals(*old(f)),
{
    f.instructions().i64_popcnt();
}

/// Relies on `InstructionSink::i64_add`: appends `i64.add`.
#[verifier::external_body]
fn emit_i64_add(f: &mut WasmFunction)
    ensures
        body_instrs(*final(f)) == body_instrs(*old(f)).push(Instr::I64Add),
        body_locals(*final(f)) == body_locals(*old(f)),
{
    f.instructions().i64_add();
}

/// Relies on `InstructionSink::i64_sub`: appends `i64.sub`.
#[verifier::external_body]
fn emit_i64_sub(f: &mut WasmFunction)
    ensures
        body_instrs(*final(f)) == body_instrs(*old(f)).push(Instr::I64Sub),
        body_locals(*final(f)) == body_locals(*old(f)),
{
    f.instructions().i64_sub();
}

/// Relies on `InstructionSink::i64_mul`: appends `i64.mul`.
#[verifier::external_body]
fn emit_i64_mul(f: &mut WasmFunction)
    ensures
        body_instrs(*final(f)) == body_instrs(*old(f)).push(Instr::I64Mul),
        body_locals(*final(f)) == body_locals(*old(f)),
{
    f.instructions().i64_mul();
}

/// Relies on `InstructionSink::i64_div_s`: appends `i64.div_s`.
#[verifier::external_body]
fn emit_i64_div_s(f: &mut WasmFunction)
    ensures
        body_instrs(*final(f)) == body_instrs(*old(f)).push(Instr::I64DivS),
        body_locals(*final(f)) == body_locals(*old(f)),
{
    f.instructions().i64_div_s();
}

/// Relies on `InstructionSink::i64_div_u`: appends `i64.div_u`.
#[verifier::external_body]
fn emit_i64_div_u(f: &mut WasmFunction)
    ensures
        body_instrs(*final(f)) == body_instrs(*old(f)).push(Instr::I64DivU),
        body_locals(*final(f)) == body_locals(*old(f)),
{
    f.instructions().i64_div_u();
}

/// Relies on `InstructionSink::i64_rem_s`: appends `i64.rem_s`.
#[verifier::external_body]
fn emit_i64_rem_s(f: &mut WasmFunction)
    ensures
        body_instrs(*final(f)) == body_instrs(*old(f)).push(Instr::I64RemS),
        body_locals(*final(f)) == body_locals(*old(f)),
{
    f.instructions().i64_rem_s();
}

/// Relies on `InstructionSink::i64_rem_u`: appends `i64.rem_u`.
#[verifier::external_body]
fn emit_i64_rem_u(f: &mut WasmFunction)
    ensures
        body_instrs(*final(f)) == body_instrs(*old(f)).push(Instr::I64RemU),
        body_locals(*final(f)) == body_locals(*old(f)),
{
    f.instructions().i64_rem_u();
}

/// Relies on `InstructionSink::i64_and`: appends `i64.and`.
#[verifier::external_body]
fn emit_i64_and(f: &mut WasmFunction)
    ensures
        body_instrs(*final(f)) == body_instrs(*old(f)).push(Instr::I64And),
        body_locals(*final(f)) == body_locals(*old(f)),
{
    f.instructions().i64_and();
}

/// Relies on `InstructionSink::i64_or`: appends `i64.or`.
#[verifier::external_body]
fn emit_i64_or(f: &mut WasmFunction)
    ensures
        body_instrs(*final(f)) == body_instrs(*old(f)).push(Instr::I64Or),
        body_locals(*final(f)) == body_locals(*old(f)),
{
    f.instructions().i64_or();
}

/// Relies on `InstructionSink::i64_xor`: appends `i64.xor`.
#[verifier::external_body]
fn emit_i64_xor(f: &mut WasmFunction)
    ensures
        body_instrs(*final(f)) == body_instrs(*old(f)).push(Instr::I64Xor),
        body_locals(*final(f)) == body_locals(*old(f)),
{
    f.instructions().i64_xor();
}

/// Relies on `InstructionSink::i64_shl`: appends `i64.shl`.
#[verifier::external_body]
fn emit_i64_shl(f: &mut WasmFunction)
    ensures
        body_instrs(*final(f)) == body_instrs(*old(f)).push(Instr::I64Shl),
        body_locals(*final(f)) == body_locals(*old(f)),
{
    f.instructions().i64_shl();
}

/// Relies on `InstructionSink::i64_shr_s`: appends `i64.shr_s`.
#[verifier::external_body]
fn emit_i64_shr_s(f: &mut WasmFunction)
    ensures
        body_instrs(*final(f)) == body_instrs(*old(f)).push(Instr::I64ShrS),
        body_locals(*final(f)) == body_locals(*old(f)),
{
    f.instructions().i64_shr_s();
}

/// Relies on `InstructionSink::i64_shr_u`: appends `i64.shr_u`.
#[verifier::external_body]
fn emit_i64_shr_u(f: &mut WasmFunction)
    ensures
        body_instrs(*final(f)) == body_instrs(*old(f)).push(Instr::I64ShrU),
        body_locals(*final(f)) == body_locals(*old(f)),
{
    f.instructions().i64_shr_u();
}

/// Relies on `InstructionSink::i64_rotl`: appends `i64.rotl`.
#[verifier::external_body]
fn emit_i64_rotl(f: &mut WasmFunction)
    ensures
        body_instrs(*final(f)) == body_instrs(*old(f)).push(Instr::I64Rotl),
        body_locals(*final(f)) == body_locals(*old(f)),
{
    f.instructions().i64_rotl();
}

/// Relies on `InstructionSink::i64_rotr`: appends `i64.rotr`.
#[verifier::external_body]
fn emit_i64_rotr(f: &mut WasmFunction)
    ensures
        body_instrs(*final(f)) == body_instrs(*old(f)).push(Instr::I64Rotr),
        body_locals(*final(f)) == body_locals(*old(f)),
{
    f.instructions().i64_rotr();
}

/// Relies on `InstructionSink::f32_abs`: appends `f32.abs`.
#[verifier::external_body]
fn emit_f32_abs(f: &mut WasmFunction)
    ensures
        body_instrs(*final(f)) == body_instrs(*old(f)).push(Instr::F32Abs),
        body_locals(*final(f)) == body_locals(*old(f)),
{
    f.instructions().f32_abs();
}

/// Relies on `InstructionSink::f32_neg`: appends `f32.neg`.
#[verifier::external_body]
fn emit_f32_neg(f: &mut WasmFunction)
    ensures
        body_instrs(*final(f)) == body_instrs(*old(f)).push(Instr::F32Neg),
        body_locals(*final(f)) == body_locals(*old(f)),
{
    f.instructions().f32_neg();
}

/// Relies on `InstructionSink::f32_ceil`: appends `f32.ceil`.
#[verifier::external_body]
fn emit_f32_ceil(f: &mut WasmFunction)
    ensures
        body_instrs(*final(f)) == body_instrs(*old(f)).push(Instr::F32Ceil),
        body_locals(*final(f)) == body_locals(*old(f)),
{
    f.instructions().f32_ceil();
}

/// Relies on `InstructionSink::f32_floor`: appends `f32.floor`.
#[verifier::external_body]
fn emit_f32_floor(f: &mut WasmFunction)
    ensures
        body_instrs(*final(f)) == body_instrs(*old(f)).push(Instr::F32Floor),
        body_locals(*final(f)) == body_locals(*old(f)),
{
    f.instructions().f32_floor();
}

/// Relies on `InstructionSink::f32_trunc`: appends `f32.trunc`.
#[verifier::external_body]
fn emit_f32_trunc(f: &mut WasmFunction)
    ensures
        body_instrs(*final(f)) == body_instrs(*old(f)).push(Instr::F32Trunc),
        body_locals(*final(f)) == body_locals(*old(f)),
{
    f.instructions().f32_trunc();
}

/// Relies on `InstructionSink::f32_nearest`: appends `f32.nearest`.
#[verifier::external_body]
fn emit_f32_nearest(f: &mut WasmFunction)
    ensures
        body_instrs(*final(f)) == body_instrs(*old(f)).push(Instr::F32Nearest),
        body_locals(*final(f)) == body_locals(*old(f)),
{
    f.instructions().f32_nearest();
}

/// Relies on `InstructionSink::f32_sqrt`: appends `f32.sqrt`.
#[verifier::external_body]
fn emit_f32_sqrt(f: &mut WasmFunction)
    ensures
        body_instrs(*final(f)) == body_instrs(*old(f)).push(Instr::F32Sqrt),
        body_locals(*final(f)) == body_locals(*old(f)),
{
    f.instructions().f32_sqrt();
}

/// Relies on `InstructionSink::f32_add`: appends `f32.add`.
#[verifier::external_body]
fn emit_f32_add(f: &mut WasmFunction)
    ensures
        body_instrs(*final(f)) == body_instrs(*old(f)).push(Instr::F32Add),
        body_locals(*final(f)) == body_locals(*old(f)),
{
    f.instructions().f32_add();
}

/// Relies on `InstructionSink::f32_sub`: appends `f32.sub`.
#[verifier::external_body]
fn emit_f32_sub(f: &mut WasmFunction)
    ensures
        body_instrs(*final(f)) == body_instrs(*old(f)).push(Instr::F32Sub),
        body_locals(*final(f)) == body_locals(*old(f)),
{
    f.instructions().f32_sub();
}

/// Relies on `InstructionSink::f32_mul`: appends `f32.mul`.
#[verifier::external_body]
fn emit_f32_mul(f: &mut WasmFunction)
    ensures
        body_instrs(*final(f)) == body_instrs(*old(f)).push(Instr::F32Mul),
        body_locals(*final(f)) == body_locals(*old(f)),
{
    f.instructions().f32_mul();
}

/// Relies on `InstructionSink::f32_div`: appends `f32.div`.
#[verifier::external_body]
fn emit_f32_div(f: &mut WasmFunction)
    ensures
        body_instrs(*final(f)) == body_instrs(*old(f)).push(Instr::F32Div),
        body_locals(*final(f)) == body_locals(*old(f)),
{
    f.instructions().f32_div();
}

/// Relies on `InstructionSink::f32_min`: appends `f32.min`.
#[verifier::external_body]
fn emit_f32_min(f: &mut WasmFunction)
    ensures
        body_instrs(*final(f)) == body_instrs(*old(f)).push(Instr::F32Min),
        body_locals(*final(f)) == body_locals(*old(f)),
{
    f.instructions().f32_min();
}

/// Relies on `InstructionSink::f32_max`: appends `f32.max`.
#[verifier::external_body]
fn emit_f32_max(f: &mut WasmFunction)
    ensures
        body_instrs(*final(f)) == body_instrs(*old(f)).push(Instr::F32Max),
        body_locals(*final(f)) == body_locals(*old(f)),
{
    f.instructions().f32_max();
}

/// Relies on `InstructionSink::f32_copysign`: appends `f32.copysign`.
#[verifier::external_body]
fn emit_f32_copysign(f: &mut WasmFunction)
    ensures
        body_instrs(*final(f)) == body_instrs(*old(f)).push(Instr::F32Copysign),
        body_locals(*final(f)) == body_locals(*old(f)),
{
    f.instructions().f32_copysign();
}

/// Relies on `InstructionSink::f64_abs`: appends `f64.abs`.
#[verifier::external_body]
fn emit_f64_abs(f: &mut WasmFunction)
    ensures
        body_instrs(*final(f)) == body_instrs(*old(f)).push(Instr::F64Abs),
        body_locals(*final(f)) == body_locals(*old(f)),
{
    f.instructions().f64_abs();
}

/// Relies on `InstructionSink::f64_neg`: appends `f64.neg`.
#[verifier::external_body]
fn emit_f64_neg(f: &mut WasmFunction)
    ensures
        body_instrs(*final(f)) == body_instrs(*old(f)).push(Instr::F64Neg),
        body_locals(*final(f)) == body_locals(*old(f)),
{
    f.instructions().f64_neg();
}

/// Relies on `InstructionSink::f64_ceil`: appends `f64.ceil`.
#[verifier::external_body]
fn emit_f64_ceil(f: &mut WasmFunction)
    ensures
        body_instrs(*final(f)) == body_instrs(*old(f)).push(Instr::F64Ceil),
        body_locals(*final(f)) == body_locals(*old(f)),
{
    f.instructions().f64_ceil();
}

/// Relies on `InstructionSink::f64_floor`: appends `f64.floor`.
#[verifier::external_body]
fn emit_f64_floor(f: &mut WasmFunction)
    ensures
        body_instrs(*final(f)) == body_instrs(*old(f)).push(Instr::F64Floor),
        body_locals(*final(f)) == body_locals(*old(f)),
{
    f.instructions().f64_floor();
}

/// Relies on `InstructionSink::f64_trunc`: appends `f64.trunc`.
#[verifier::external_body]
fn emit_f64_trunc(f: &mut WasmFunction)
    ensures
        body_instrs(*final(f)) == body_instrs(*old(f)).push(Instr::F64Trunc),
        body_locals(*final(f)) == body_locals(*old(f)),
{
    f.instructions().f64_trunc();
}

/// Relies on `InstructionSink::f64_nearest`: appends `f64.nearest`.
#[verifier::external_body]
fn emit_f64_nearest(f: &mut WasmFunction)
    ensures
        body_instrs(*final(f)) == body_instrs(*old(f)).push(Instr::F64Nearest),
        body_locals(*final(f)) == body_locals(*old(f)),
{
    f.instructions().f64_nearest();
}

/// Relies on `InstructionSink::f64_sqrt`: appends `f64.sqrt`.
#[verifier::external_body]
fn emit_f64_sqrt(f: &mut WasmFunction)
    ensures
        body_instrs(*final(f)) == body_instrs(*old(f)).push(Instr::F64Sqrt),
        body_locals(*final(f)) == body_locals(*old(f)),
{
    f.instructions().f64_sqrt();
}

/// Relies on `InstructionSink::f64_add`: appends `f64.add`.
#[verifier::external_body]
fn emit_f64_add(f: &mut WasmFunction)
    ensures
        body_instrs(*final(f)) == body_instrs(*old(f)).push(Instr::F64Add),
        body_locals(*final(f)) == body_locals(*old(f)),
{
    f.instructions().f64_add();
}

/// Relies on `InstructionSink::f64_sub`: appends `f64.sub`.
#[verifier::external_body]
fn emit_f64_sub(f: &mut WasmFunction)
    ensures
        body_instrs(*final(f)) == body_instrs(*old(f)).push(Instr::F64Sub),
        body_locals(*final(f)) == body_locals(*old(f)),
{
    f.instructions().f64_sub();
}

/// Relies on `InstructionSink::f64_mul`: appends `f64.mul`.
#[verifier::external_body]
fn emit_f64_mul(f: &mut WasmFunction)
    ensures
        body_instrs(*final(f)) == body_instrs(*old(f)).push(Instr::F64Mul),
        body_locals(*final(f)) == body_locals(*old(f)),
{
    f.instructions().f64_mul();
}

/// Relies on `InstructionSink::f64_div`: appends `f64.div`.
#[verifier::external_body]
fn emit_f64_div(f: &mut WasmFunction)
    ensures
        body_instrs(*final(f)) == body_instrs(*old(f)).push(Instr::F64Div),
        body_locals(*final(f)) == body_locals(*old(f)),
{
    f.instructions().f64_div();
}

/// Relies on `InstructionSink::f64_min`: appends `f64.min`.
#[verifier::external_body]
fn emit_f64_min(f: &mut WasmFunction)
    ensures
        body_instrs(*final(f)) == body_instrs(*old(f)).push(Instr::F64Min),
        body_locals(*final(f)) == body_locals(*old(f)),
{
    f.instructions().f64_min();
}

/// Relies on `InstructionSink::f64_max`: appends `f64.max`.
#[verifier::external_body]
fn emit_f64_max(f: &mut WasmFunction)
    ensures
        body_instrs(*final(f)) == body_instrs(*old(f)).push(Instr::F64Max),
        body_locals(*final(f)) == body_locals(*old(f)),
{
    f.instructions().f64_max();
}

/// Relies on `InstructionSink::f64_copysign`: appends `f64.copysign`.
#[verifier::external_body]
fn emit_f64_copysign(f: &mut WasmFunction)
    ensures
        body_instrs(*final(f)) == body_instrs(*old(f)).push(Instr::F64Copysign),
        body_locals(*final(f)) == body_locals(*old(f)),
{
    f.instructions().f64_copysign();
}

/// Relies on `InstructionSink::i32_wrap_i64`: appends `i32.wrap_i64`.
#[verifier::external_body]
fn emit_i32_wrap_i64(f: &mut WasmFunction)
    ensures
        body_instrs(*final(f)) == body_instrs(*old(f)).push(Instr::I32WrapI64),
        body_locals(*final(f)) == body_locals(*old(f)),
{
    f.instructions().i32_wrap_i64();
}

/// Relies on `InstructionSink::i32_trunc_f32_s`: appends `i32.trunc_f32_s`.
#[verifier::external_body]
fn emit_i32_trunc_f32_s(f: &mut WasmFunction)
    ensures
        body_instrs(*final(f)) == body_instrs(*old(f)).push(Instr::I32TruncF32S),
        body_locals(*final(f)) == body_locals(*old(f)),
{
    f.instructions().i32_trunc_f32_s();
}

/// Relies on `InstructionSink::i32_trunc_f32_u`: appends `i32.trunc_f32_u`.
#[verifier::external_body]
fn emit_i32_trunc_f32_u(f: &mut WasmFunction)
    ensures
        body_instrs(*final(f)) == body_instrs(*old(f)).push(Instr::I32TruncF32U),
        body_locals(*final(f)) == body_locals(*old(f)),
{
    f.instructions().i32_trunc_f32_u();
}

/// Relies on `InstructionSink::i32_trunc_f64_s`: appends `i32.trunc_f64_s`.
#[verifier::external_body]
fn emit_i32_trunc_f64_s(f: &mut WasmFunction)
    ensures
        body_instrs(*final(f)) == body_instrs(*old(f)).push(Instr::I32TruncF64S),
        body_locals(*final(f)) == body_locals(*old(f)),
{
    f.instructions().i32_trunc_f64_s();
}

/// Relies on `InstructionSink::i32_trunc_f64_u`: appends `i32.trunc_f64_u`.
#[verifier::external_body]
fn emit_i32_trunc_f64_u(f: &mut WasmFunction)
    ensures
        body_instrs(*final(f)) == body_instrs(*old(f)).push(Instr::I32TruncF64U),
        body_locals(*final(f)) == body_locals(*old(f)),
{
    f.instructions().i32_trunc_f64_u();
}

/// Relies on `InstructionSink::i64_extend_i32_s`: appends `i64.extend_i32_s`.
#[verifier::external_body]
fn emit_i64_extend_i32_s(f: &mut WasmFunction)
    ensures
        body_instrs(*final(f)) == body_instrs(*old(f)).push(Instr::I64ExtendI32S),
        body_locals(*final(f)) == body_locals(*old(f)),
{
    f.instructions().i64_extend_i32_s();
}

/// Relies on `InstructionSink::i64_extend_i32_u`: appends `i64.extend_i32_u`.
#[verifier::external_body]
fn emit_i64_extend_i32_u(f: &mut WasmFunction)
    ensures
        body_instrs(*final(f)) == body_instrs(*old(f)).push(Instr::I64ExtendI32U),
        body_locals(*final(f)) == body_locals(*old(f)),
{
    f.instructions().i64_extend_i32_u();
}

/// Relies on `InstructionSink::i64_trunc_f32_s`: appends `i64.trunc_f32_s`.
#[verifier::external_body]
fn emit_i64_trunc_f32_s(f: &mut WasmFunction)
    ensures
        body_instrs(*final(f)) == body_instrs(*old(f)).push(Instr::I64TruncF32S),
        body_locals(*final(f)) == body_locals(*old(f)),
{
    f.instructions().i64_trunc_f32_s();
}

/// Relies on `InstructionSink::i64_trunc_f32_u`: appends `i64.trunc_f32_u`.
#[verifier::external_body]
fn emit_i64_trunc_f32_u(f: &mut WasmFunction)
    ensures
        body_instrs(*final(f)) == body_instrs(*old(f)).push(Instr::I64TruncF32U),
        body_locals(*final(f)) == body_locals(*old(f)),
{
    f.instructions().i64_trunc_f32_u();
}

/// Relies on `InstructionSink::i64_trunc_f64_s`: appends `i64.trunc_f64_s`.
#[verifier::external_body]
fn emit_i64_trunc_f64_s(f: &mut WasmFunction)
    ensures
        body_instrs(*final(f)) == body_instrs(*old(f)).push(Instr::I64TruncF64S),
        body_locals(*final(f)) == body_locals(*old(f)),
{
    f.instructions().i64_trunc_f64_s();
}

/// Relies on `InstructionSink::i64_trunc_f64_u`: appends `i64.trunc_f64_u`.
#[verifier::external_body]
fn emit_i64_trunc_f64_u(f: &mut WasmFunction)
    ensures
        body_instrs(*final(f)) == body_instrs(*old(f)).push(Instr::I64TruncF64U),
        body_locals(*final(f)) == body_locals(*old(f)),
{
    f.instructions().i64_trunc_f64_u();
}

/// Relies on `InstructionSink::f32_convert_i32_s`: appends `f32.convert_i32_s`.
#[verifier::external_body]
fn emit_f32_convert_i32_s(f: &mut WasmFunction)
    ensures
        body_instrs(*final(f)) == body_instrs(*old(f)).push(Instr::F32ConvertI32S),
        body_locals(*final(f)) == body_locals(*old(f)),
{
    f.instructions().f32_convert_i32_s();
}

/// Relies on `InstructionSink::f32_convert_i32_u`: appends `f32.convert_i32_u`.
#[verifier::external_body]
fn emit_f32_convert_i32_u(f: &mut WasmFunction)
    ensures
        body_instrs(*final(f)) == body_instrs(*old(f)).push(Instr::F32ConvertI32U),
        body_locals(*final(f)) == body_locals(*old(f)),
{
    f.instructions().f32_convert_i32_u();
}

/// Relies on `InstructionSink::f32_convert_i64_s`: appends `f32.convert_i64_s`.
#[verifier::external_body]
fn emit_f32_convert_i64_s(f: &mut WasmFunction)
    ensures
        body_instrs(*final(f)) == body_instrs(*old(f)).push(Instr::F32ConvertI64S),
        body_locals(*final(f)) == body_locals(*old(f)),
{
    f.instructions().f32_convert_i64_s();
}

/// Relies on `InstructionSink::f32_convert_i64_u`: appends `f32.convert_i64_u`.
#[verifier::external_body]
fn emit_f32_convert_i64_u(f: &mut WasmFunction)
    ensures
        body_instrs(*final(f)) == body_instrs(*old(f)).push(Instr::F32ConvertI64U),
        body_locals(*final(f)) == body_locals(*old(f)),
{
    f.instructions().f32_convert_i64_u();
}

/// Relies on `InstructionSink::f32_demote_f64`: appends `f32.demote_f64`.
#[verifier::external_body]
fn emit_f32_demote_f64(f: &mut WasmFunction)
    ensures
        body_instrs(*final(f)) == body_instrs(*old(f)).push(Instr::F32DemoteF64),
        body_locals(*final(f)) == body_locals(*old(f)),
{
    f.instructions().f32_demote_f64();
}

/// Relies on `InstructionSink::f64_convert_i32_s`: appends `f64.convert_i32_s`.
#[verifier::external_body]
fn emit_f64_convert_i32_s(f: &mut WasmFunction)
    ensures
        body_instrs(*final(f)) == body_instrs(*old(f)).push(Instr::F64ConvertI32S),
        body_locals(*final(f)) == body_locals(*old(f)),
{
    f.instructions().f64_convert_i32_s();
}

/// Relies on `InstructionSink::f64_convert_i32_u`: appends `f64.convert_i32_u`.
#[verifier::external_body]
fn emit_f64_convert_i32_u(f: &mut WasmFunction)
    ensures
        body_instrs(*final(f)) == body_instrs(*old(f)).push(Instr::F64ConvertI32U),
        body_locals(*final(f)) == body_locals(*old(f)),
{
    f.instructions().f64_convert_i32_u();
}

/// Relies on `InstructionSink::f64_convert_i64_s`: appends `f64.convert_i64_s`.
#[verifier::external_body]
fn emit_f64_convert_i64_s(f: &mut WasmFunction)
    ensures
        body_instrs(*final(f)) == body_instrs(*old(f)).push(Instr::F64ConvertI64S),
        body_locals(*final(f)) == body_locals(*old(f)),
{
    f.instructions().f64_convert_i64_s();
}

/// Relies on `InstructionSink::f64_convert_i64_u`: appends `f64.convert_i64_u`.
#[verifier::external_body]
fn emit_f64_convert_i64_u(f: &mut WasmFunction)
    ensures
        body_instrs(*final(f)) == body_instrs(*old(f)).push(Instr::F64ConvertI64U),
        body_locals(*final(f)) == body_locals(*old(f)),
{
    f.instructions().f64_convert_i64_u();
}

/// Relies on `InstructionSink::f64_promote_f32`: appends `f64.promote_f32`.
#[verifier::external_body]
fn emit_f64_promote_f32(f: &mut WasmFunction)
    ensures
        body_instrs(*final(f)) == body_instrs(*old(f)).push(Instr::F64PromoteF32),
        body_locals(*final(f)) == body_locals(*old(f)),
{
    f.instructions().f64_promote_f32();
}

/// Relies on `InstructionSink::i32_reinterpret_f32`: appends `i32.reinterpret_f32`.
#[verifier::external_body]
fn emit_i32_reinterpret_f32(f: &mut WasmFunction)
    ensures
        body_instrs(*final(f)) == body_instrs(*old(f)).push(Instr::I32ReinterpretF32),
        body_locals(*final(f)) == body_locals(*old(f)),
{
    f.instructions().i32_reinterpret_f32();
}

/// Relies on `InstructionSink::i64_reinterpret_f64`: appends `i64.reinterpret_f64`.
#[verifier::external_body]
fn emit_i64_reinterpret_f64(f: &mut WasmFunction)
    ensures
        body_instrs(*final(f)) == body_instrs(*old(f)).push(Instr::I64ReinterpretF64),
        body_locals(*final(f)) == body_locals(*old(f)),
{
    f.instructions().i64_reinterpret_f64();
}

/// Relies on `InstructionSink::f32_reinterpret_i32`: appends `f32.reinterpret_i32`.
#[verifier::external_body]
fn emit_f32_reinterpret_i32(f: &mut WasmFunction)
    ensures
        body_instrs(*final(f)) == body_instrs(*old(f)).push(Instr::F32ReinterpretI32),
        body_locals(*final(f)) == body_locals(*old(f)),
{
    f.instructions().f32_reinterpret_i32();
}

/// Relies on `InstructionSink::f64_reinterpret_i64`: appends `f64.reinterpret_i64`.
#[verifier::external_body]
fn emit_f64_reinterpret_i64(f: &mut WasmFunction)
    ensures
        body_instrs(*final(f)) == body_instrs(*old(f)).push(Instr::F64ReinterpretI64),
        body_locals(*final(f)) == body_locals(*old(f)),
{
    f.instructions().f64_reinterpret_i64();
}

/// Relies on `InstructionSink::i32_extend8_s`: appends `i32.extend8_s`.
#[verifier::external_body]
fn emit_i32_extend8_s(f: &mut WasmFunction)
    ensures
        body_instrs(*final(f)) == body_instrs(*old(f)).push(Instr::I32Extend8S),
        body_locals(*final(f)) == body_locals(*old(f)),
{
    f.instructions().i32_extend8_s();
}

/// Relies on `InstructionSink::i32_extend16_s`: appends `i32.extend16_s`.
#[verifier::external_body]
fn emit_i32_extend16_s(f: &mut WasmFunction)
    ensures
        body_instrs(*final(f)) == body_instrs(*old(f)).push(Instr::I32Extend16S),
        body_locals(*final(f)) == body_locals(*old(f)),
{
    f.instructions().i32_extend16_s();
}

/// Relies on `InstructionSink::i64_extend8_s`: appends `i64.extend8_s`.
#[verifier::external_body]
fn emit_i64_extend8_s(f: &mut WasmFunction)
    ensures
        body_instrs(*final(f)) == body_instrs(*old(f)).push(Instr::I64Extend8S),
        body_locals(*final(f)) == body_locals(*old(f)),
{
    f.instructions().i64_extend8_s();
}

/// Relies on `InstructionSink::i64_extend16_s`: appends `i64.extend16_s`.
#[verifier::external_body]
fn emit_i64_extend16_s(f: &mut WasmFunction)
    ensures
        body_instrs(*final(f)) == body_instrs(*old(f)).push(Instr::I64Extend16S),
        body_locals(*final(f)) == body_locals(*old(f)),
{
    f.instructions().i64_extend16_s();
}

/// Relies on `InstructionSink::i64_extend32_s`: appends `i64.extend32_s`.
#[verifier::external_body]
fn emit_i64_extend32_s(f: &mut WasmFunction)
    ensures
        body_instrs(*final(f)) == body_instrs(*old(f)).push(Instr::I64Extend32S),
        body_locals(*final(f)) == body_locals(*old(f)),
{
    f.instructions().i64_extend32_s();
}

/// Relies on `InstructionSink::i32_trunc_sat_f32_s`: appends `i32.trunc_sat_f32_s`.
#[verifier::external_body]
fn emit_i32_trunc_sat_f32_s(f: &mut WasmFunction)
    ensures
        body_instrs(*final(f)) == body_instrs(*old(f)).push(Instr::I32TruncSatF32S),
        body_locals(*final(f)) == body_locals(*old(f)),
{
    f.instructions().i32_trunc_sat_f32_s();
}

/// Relies on `InstructionSink::i32_trunc_sat_f32_u`: appends `i32.trunc_sat_f32_u`.
#[verifier::external_body]
fn emit_i32_trunc_sat_f32_u(f: &mut WasmFunction)
    ensures
        body_instrs(*final(f)) == body_instrs(*old(f)).push(Instr::I32TruncSatF32U),
        body_locals(*final(f)) == body_locals(*old(f)),
{
    f.instructions().i32_trunc_sat_f32_u();
}

/// Relies on `InstructionSink::i32_trunc_sat_f64_s`: appends `i32.trunc_sat_f64_s`.
#[verifier::external_body]
fn emit_i32_trunc_sat_f64_s(f: &mut WasmFunction)
    ensures
        body_instrs(*final(f)) == body_instrs(*old(f)).push(Instr::I32TruncSatF64S),
        body_locals(*final(f)) == body_locals(*old(f)),
{
    f.instructions().i32_trunc_sat_f64_s();
}

/// Relies on `InstructionSink::i32_trunc_sat_f64_u`: appends `i32.trunc_sat_f64_u`.
#[verifier::external_body]
fn emit_i32_trunc_sat_f64_u(f: &mut WasmFunction)
    ensures
        body_instrs(*final(f)) == body_instrs(*old(f)).push(Instr::I32TruncSatF64U),
        body_locals(*final(f)) == body_locals(*old(f)),
{
    f.instructions().i32_trunc_sat_f64_u();
}

/// Relies on `InstructionSink::i64_trunc_sat_f32_s`: appends `i64.trunc_sat_f32_s`.
#[verifier::external_body]
fn emit_i64_trunc_sat_f32_s(f: &mut WasmFunction)
    ensures
        body_instrs(*final(f)) == body_instrs(*old(f)).push(Instr::I64TruncSatF32S),
        body_locals(*final(f)) == body_locals(*old(f)),
{
    f.instructions().i64_trunc_sat_f32_s();
}

/// Relies on `InstructionSink::i64_trunc_sat_f32_u`: appends `i64.trunc_sat_f32_u`.
#[verifier::external_body]
fn emit_i64_trunc_sat_f32_u(f: &mut WasmFunction)
    ensures
        body_instrs(*final(f)) == body_instrs(*old(f)).push(Instr::I64TruncSatF32U),
        body_locals(*final(f)) == body_locals(*old(f)),
{
    f.instructions().i64_trunc_sat_f32_u();
}

/// Relies on `InstructionSink::i64_trunc_sat_f64_s`: appends `i64.trunc_sat_f64_s`.
#[verifier::external_body]
fn emit_i64_trunc_sat_f64_s(f: &mut WasmFunction)
    ensures
        body_instrs(*final(f)) == body_instrs(*old(f)).push(Instr::I64TruncSatF64S),
        body_locals(*final(f)) == body_locals(*old(f)),
{
    f.instructions().i64_trunc_sat_f64_s();
}

/// Relies on `InstructionSink::i64_trunc_sat_f64_u`: appends `i64.trunc_sat_f64_u`.
#[verifier::external_body]
fn emit_i64_trunc_sat_f64_u(f: &mut WasmFunction)
    ensures
        body_instrs(*final(f)) == body_instrs(*old(f)).push(Instr::I64TruncSatF64U),
        body_locals(*final(f)) == body_locals(*old(f)),
{
    f.instructions().i64_trunc_sat_f64_u();
}

/// Relies on `InstructionSink::ref_null`: appends `ref.null`.
#[verifier::external_body]
fn emit_ref_null(f: &mut WasmFunction, h: HeapType)
    ensures
        body_instrs(*final(f)) == body_instrs(*old(f)).push(Instr::RefNull(h)),
        body_locals(*final(f)) == body_locals(*old(f)),
{
    f.instructions().ref_null(encode_heap_type(h));
}

/// Relies on `InstructionSink::ref_is_null`: appends `ref.is_null`.
#[verifier::external_body]
fn emit_ref_is_null(f: &mut WasmFunction)
    ensures
        body_instrs(*final(f)) == body_instrs(*old(f)).push(Instr::RefIsNull),
        body_locals(*final(f)) == body_locals(*old(f)),
{
    f.instructions().ref_is_null();
}

/// Relies on `InstructionSink::ref_func`: appends `ref.func`.
#[verifier::external_body]
fn emit_ref_func(f: &mut WasmFunction, x: u32)
    ensures
        body_instrs(*final(f)) == body_instrs(*old(f)).push(Instr::RefFunc(x)),
        body_locals(*final(f)) == body_locals(*old(f)),
{
    f.instructions().ref_func(x);
}

/// Relies on `InstructionSink::ref_eq`: appends `ref.eq`.
#[verifier::external_body]
fn emit_ref_eq(f: &mut WasmFunction)
    ensures
        body_instrs(*final(f)) == body_instrs(*old(f)).push(Instr::RefEq),
        body_locals(*final(f)) == body_locals(*old(f)),
{
    f.instructions().ref_eq();
}

/// Relies on `InstructionSink::ref_as_non_null`: appends `ref.as_non_null`.
#[verifier::external_body]
fn emit_ref_as_non_null(f: &mut WasmFunction)
    ensures
        body_instrs(*final(f)) == body_instrs(*old(f)).push(Instr::RefAsNonNull),
        body_locals(*final(f)) == body_locals(*old(f)),
{
    f.instructions().ref_as_non_null();
}

/// Relies on `InstructionSink::struct_new`: appends `struct.new`.
#[verifier::external_body]
fn emit_struct_new(f: &mut WasmFunction, x: u32)
    ensures
        body_instrs(*final(f)) == body_instrs(*old(f)).push(Instr::StructNew(x)),
        body_locals(*final(f)) == body_locals(*old(f)),
{
    f.instructions().struct_new(x);
}

/// Relies on `InstructionSink::struct_new_default`: appends `struct.new_default`.
#[verifier::external_body]
fn emit_struct_new_default(f: &mut WasmFunction, x: u32)
    ensures
        body_instrs(*final(f)) == body_instrs(*old(f)).push(Instr::StructNewDefault(x)),
        body_locals(*final(f)) == body_locals(*old(f)),
{
    f.instructions().struct_new_default(x);
}

/// Relies on `InstructionSink::struct_get`: appends `struct.get`.
#[verifier::external_body]
fn emit_struct_get(f: &mut WasmFunction, struct_type_index: u32, field_index: u32)
    ensures
        body_instrs(*final(f)) == body_instrs(*old(f)).push((Instr::StructGet { struct_type_index, field_index })),
        body_locals(*final(f)) == body_locals(*old(f)),
{
    f.instructions().struct_get(struct_type_index, field_index);
}

/// Relies on `InstructionSink::struct_get_s`: appends `struct.get_s`.
#[verifier::external_body]
fn emit_struct_get_s(f: &mut WasmFunction, struct_type_index: u32, field_index: u32)
    ensures
        body_instrs(*final(f)) == body_instrs(*old(f)).push((Instr::StructGetS { struct_type_index, field_index })),
        body_locals(*final(f)) == body_locals(*old(f)),
{
    f.instructions().struct_get_s(struct_type_index, field_index);
}

/// Relies on `InstructionSink::struct_get_u`: appends `struct.get_u`.
#[verifier::external_body]
fn emit_struct_get_u(f: &mut WasmFunction, struct_type_index: u32, field_index: u32)
    ensures
        body_instrs(*final(f)) == body_instrs(*old(f)).push((Instr::StructGetU { struct_type_index, field_index })),
        body_locals(*final(f)) == body_locals(*old(f)),
{
    f.instructions().struct_get_u(struct_type_index, field_index);
}

/// Relies on `InstructionSink::struct_set`: appends `struct.set`.
#[verifier::external_body]
fn emit_struct_set(f: &mut WasmFunction, struct_type_index: u32, field_index: u32)
    ensures
        body_instrs(*final(f)) == body_instrs(*old(f)).push((Instr::StructSet { struct_type_index, field_index })),
        body_locals(*final(f)) == body_locals(*old(f)),
{
    f.instructions().struct_set(struct_type_index, field_index);
}

/// Relies on `InstructionSink::array_new`: appends `array.new`.
#[verifier::external_body]
fn emit_array_new(f: &mut WasmFunction, x: u32)
    ensures
        body_instrs(*final(f)) == body_instrs(*old(f)).push(Instr::ArrayNew(x)),
        body_locals(*final(f)) == body_locals(*old(f)),
{
    f.instructions().array_new(x);
}

/// Relies on `InstructionSink::array_new_default`: appends `array.new_default`.
#[verifier::external_body]
fn emit_array_new_default(f: &mut WasmFunction, x: u32)
    ensures
        body_instrs(*final(f)) == body_instrs(*old(f)).push(Instr::ArrayNewDefault(x)),
        body_locals(*final(f)) == body_locals(*old(f)),
{
    f.instructions().array_new_default(x);
}

/// Relies on `InstructionSink::array_new_fixed`: appends `array.new_fixed`.
#[verifier::external_body]
fn emit_array_new_fixed(f: &mut WasmFunction, array_type_index: u32, array_size: u32)
    ensures
        body_instrs(*final(f)) == body_instrs(*old(f)).push((Instr::ArrayNewFixed { array_type_index, array_size })),
        body_locals(*final(f)) == body_locals(*old(f)),
{
    f.instructions().array_new_fixed(array_type_index, array_size);
}

/// Relies on `InstructionSink::array_new_data`: appends `array.new_data`.
#[verifier::external_body]
fn emit_array_new_data(f: &mut WasmFunction, array_type_index: u32, array_data_index: u32)
    ensures
        body_instrs(*final(f)) == body_instrs(*old(f)).push((Instr::ArrayNewData { array_type_index, array_data_index })),
        body_locals(*final(f)) == body_locals(*old(f)),
{
    f.instructions().array_new_data(array_type_index, array_data_index);
}

/// Relies on `InstructionSink::array_new_elem`: appends `array.new_elem`.
#[verifier::external_body]
fn emit_array_new_elem(f: &mut WasmFunction, array_type_index: u32, array_elem_index: u32)
    ensures
        body_instrs(*final(f)) == body_instrs(*old(f)).push((Instr::ArrayNewElem { array_type_index, array_elem_index })),
        body_locals(*final(f)) == body_locals(*old(f)),
{
    f.instructions().array_new_elem(array_type_index, array_elem_index);
}

/// Relies on `InstructionSink::array_get`: appends `array.get`.
#[verifier::external_body]
fn emit_array_get(f: &mut WasmFunction, x: u32)
    ensures
        body_instrs(*final(f)) == body_instrs(*old(f)).push(Instr::ArrayGet(x)),
        body_locals(*final(f)) == body_locals(*old(f)),
{
    f.instructions().array_get(x);
}

/// Relies on `InstructionSink::array_get_s`: appends `array.get_s`.
#[verifier::external_body]
fn emit_array_get_s(f: &mut WasmFunction, x: u32)
    ensures
        body_instrs(*final(f)) == body_instrs(*old(f)).push(Instr::ArrayGetS(x)),
        body_locals(*final(f)) == body_locals(*old(f)),
{
    f.instructions().array_get_s(x);
}

/// Relies on `InstructionSink::array_get_u`: appends `array.get_u`.
#[verifier::external_body]
fn emit_array_get_u(f: &mut WasmFunction, x: u32)
    ensures
        body_instrs(*final(f)) == body_instrs(*old(f)).push(Instr::ArrayGetU(x)),
        body_locals(*final(f)) == body_locals(*old(f)),
{
    f.instructions().array_get_u(x);
}

/// Relies on `InstructionSink::array_set`: appends `array.set`.
#[verifier::external_body]
fn emit_array_set(f: &mut WasmFunction, x: u32)
    ensures
        body_instrs(*final(f)) == body_instrs(*old(f)).push(Instr::ArraySet(x)),
        body_locals(*final(f)) == body_locals(*old(f)),
{
    f.instructions().array_set(x);
}

/// Relies on `InstructionSink::array_len`: appends `array.len`.
#[verifier::external_body]
fn emit_array_len(f: &mut WasmFunction)
    ensures
        body_instrs(*final(f)) == body_instrs(*old(f)).push(Instr::ArrayLen),
        body_locals(*final(f)) == body_locals(*old(f)),
{
    f.instructions().array_len();
}

/// Relies on `InstructionSink::array_fill`: appends `array.fill`.
#[verifier::external_body]
fn emit_array_fill(f: &mut WasmFunction, x: u32)
    ensures
        body_instrs(*final(f)) == body_instrs(*old(f)).push(Instr::ArrayFill(x)),
        body_locals(*final(f)) == body_locals(*old(f)),
{
    f.instructions().array_fill(x);
}

/// Relies on `InstructionSink::ref_test_non_null`: appends `ref.test_non_null`.
#[verifier::external_body]
fn emit_ref_test_non_null(f: &mut WasmFunction, h: HeapType)
    ensures
        body_instrs(*final(f)) == body_instrs(*old(f)).push(Instr::RefTestNonNull(h)),
        body_locals(*final(f)) == body_locals(*old(f)),
{
    f.instructions().ref_test_non_null(encode_heap_type(h));
}

/// Relies on `InstructionSink::ref_test_nullable`: appends `ref.test_nullable`.
#[verifier::external_body]
fn emit_ref_test_nullable(f: &mut WasmFunction, h: HeapType)
    ensures
        body_instrs(*final(f)) == body_instrs(*old(f)).push(Instr::RefTestNullable(h)),
        body_locals(*final(f)) == body_locals(*old(f)),
{
    f.instructions().ref_test_nullable(encode_heap_type(h));
}

/// Relies on `InstructionSink::ref_cast_non_null`: appends `ref.cast_non_null`.
#[verifier::external_body]
fn emit_ref_cast_non_null(f: &mut WasmFunction, h: HeapType)
    ensures
        body_instrs(*final(f)) == body_instrs(*old(f)).push(Instr::RefCastNonNull(h)),
        body_locals(*final(f)) == body_locals(*old(f)),
{
    f.instructions().ref_cast_non_null(encode_heap_type(h));
}

/// Relies on `InstructionSink::ref_cast_nullable`: appends `ref.cast_nullable`.
#[verifier::external_body]
fn emit_ref_cast_nullable(f: &mut WasmFunction, h: HeapType)
    ensures
        body_instrs(*final(f)) == body_instrs(*old(f)).push(Instr::RefCastNullable(h)),
        body_locals(*final(f)) == body_locals(*old(f)),
{
    f.instructions().ref_cast_nullable(encode_heap_type(h));
}

/// Relies on `InstructionSink::any_convert_extern`: appends `any.convert_extern`.
#[verifier::external_body]
fn emit_any_convert_extern(f: &mut WasmFunction)
    ensures
        body_instrs(*final(f)) == body_instrs(*old(f)).push(Instr::AnyConvertExtern),
        body_locals(*final(f)) == body_locals(*old(f)),
{
    f.instructions().any_convert_extern();
}

/// Relies on `InstructionSink::extern_convert_any`: appends `extern.convert_any`.
#[verifier::external_body]
fn emit_extern_convert_any(f: &mut WasmFunction)
    ensures
        body_instrs(*final(f)) == body_instrs(*old(f)).push(Instr::ExternConvertAny),
        body_locals(*final(f)) == body_locals(*old(f)),
{
    f.instructions().extern_convert_any();
}

/// Relies on `InstructionSink::ref_i31`: appends `ref.i31`.
#[verifier::external_body]
fn emit_ref_i31(f: &mut WasmFunction)
    ensures
        body_instrs(*final(f)) == body_instrs(*old(f)).push(Instr::RefI31),
        body_locals(*final(f)) == body_locals(*old(f)),
{
    f.instructions().ref_i31();
}

/// Relies on `InstructionSink::i31_get_s`: appends `i31.get_s`.
#[verifier::external_body]
fn emit_i31_get_s(f: &mut WasmFunction)
    ensures
        body_instrs(*final(f)) == body_instrs(*old(f)).push(Instr::I31GetS),
        body_locals(*final(f)) == body_locals(*old(f)),
{
    f.instructions().i31_get_s();
}

/// Relies on `InstructionSink::i31_get_u`: appends `i31.get_u`.
#[verifier::external_body]
fn emit_i31_get_u(f: &mut WasmFunction)
    ensures
        body_instrs(*final(f)) == body_instrs(*old(f)).push(Instr::I31GetU),
        body_locals(*final(f)) == body_locals(*old(f)),
{
    f.instructions().i31_get_u();
}

/// Relies on `InstructionSink::table_init`: appends `table.init`.
#[verifier::external_body]
fn emit_table_init(f: &mut WasmFunction, table: u32, elem_index: u32)
    ensures
        body_instrs(*final(f)) == body_instrs(*old(f)).push((Instr::TableInit { table, elem_index })),
        body_locals(*final(f)) == body_locals(*old(f)),
{
    f.instructions().table_init(table, elem_index);
}

/// Relies on `InstructionSink::elem_drop`: appends `elem.drop`.
#[verifier::external_body]
fn emit_elem_drop(f: &mut WasmFunction, x: u32)
    ensures
        body_instrs(*final(f)) == body_instrs(*old(f)).push(Instr::ElemDrop(x)),
        body_locals(*final(f)) == body_locals(*old(f)),
{
    f.instructions().elem_drop(x);
}

/// Whether the encoder can write `i` as it stands: the alignment of a
/// memory access is written in the bits below 64, the bit of 64 telling
/// that a memory index follows.
pub open spec fn encodable(i: Instr) -> bool {
    match i {
        Instr::I32Load(m) => m.align < 64,
        Instr::I64Load(m) => m.align < 64,
        Instr::F32Load(m) => m.align < 64,
        Instr::F64Load(m) => m.align < 64,
        Instr::I32Load8S(m) => m.align < 64,
        Instr::I32Load8U(m) => m.align < 64,
        Instr::I32Load16S(m) => m.align < 64,
        Instr::I32Load16U(m) => m.align < 64,
        Instr::I64Load8S(m) => m.align < 64,
        Instr::I64Load8U(m) => m.align < 64,
        Instr::I64Load16S(m) => m.align < 64,
        Instr::I64Load16U(m) => m.align < 64,
        Instr::I64Load32S(m) => m.align < 64,
        Instr::I64Load32U(m) => m.align < 64,
        Instr::I32Store(m) => m.align < 64,
        Instr::I64Store(m) => m.align < 64,
        Instr::F32Store(m) => m.align < 64,
        Instr::F64Store(m) => m.align < 64,
        Instr::I32Store8(m) => m.align < 64,
        Instr::I32Store16(m) => m.align < 64,
        Instr::I64Store8(m) => m.align < 64,
        Instr::I64Store16(m) => m.align < 64,
        Instr::I64Store32(m) => m.align < 64,
        _ => true,
    }
}

/// Whether the encoder can write `i` as it stands.
pub fn is_encodable(i: Instr) -> (r: bool)
    ensures
        r == encodable(i),
{
    match i {
        Instr::I32Load(m) => m.align < 64,
        Instr::I64Load(m) => m.align < 64,
        Instr::F32Load(m) => m.align < 64,
        Instr::F64Load(m) => m.align < 64,
        Instr::I32Load8S(m) => m.align < 64,
        Instr::I32Load8U(m) => m.align < 64,
        Instr::I32Load16S(m) => m.align < 64,
        Instr::I32Load16U(m) => m.align < 64,
        Instr::I64Load8S(m) => m.align < 64,
        Instr::I64Load8U(m) => m.align < 64,
        Instr::I64Load16S(m) => m.align < 64,
        Instr::I64Load16U(m) => m.align < 64,
        Instr::I64Load32S(m) => m.align < 64,
        Instr::I64Load32U(m) => m.align < 64,
        Instr::I32Store(m) => m.align < 64,
        Instr::I64Store(m) => m.align < 64,
        Instr::F32Store(m) => m.align < 64,
        Instr::F64Store(m) => m.align < 64,
        Instr::I32Store8(m) => m.align < 64,
        Instr::I32Store16(m) => m.align < 64,
        Instr::I64Store8(m) => m.align < 64,
        Instr::I64Store16(m) => m.align < 64,
        Instr::I64Store32(m) => m.align < 64,
        _ => true,
    }
}

/// Appends the encoding of `i` to the body `f`.
pub(crate) fn encode_instr(f: &mut WasmFunction, i: Instr)
    requires
        encodable(i),
    ensures
        body_instrs(*final(f)) == body_instrs(*old(f)).push(i),
        body_locals(*final(f)) == body_locals(*old(f)),
{
    match i {
        Instr::Unreachable => emit_unreachable(f),
        Instr::Nop => emit_nop(f),
        Instr::Block(bt) => emit_block(f, bt),
        Instr::Loop(bt) => emit_loop(f, bt),
        Instr::If(bt) => emit_if(f, bt),
        Instr::Else => emit_else(f),
        Instr::End => emit_end(f),
        Instr::Br(x) => emit_br(f, x),
        Instr::BrIf(x) => emit_br_if(f, x),
        Instr::BrOnNull(x) => emit_br_on_null(f, x),
        Instr::BrOnNonNull(x) => emit_br_on_non_null(f, x),
        Instr::Return => emit_return(f),
        Instr::Call(x) => emit_call(f, x),
        Instr::CallRef(x) => emit_call_ref(f, x),
        Instr::CallIndirect { table_index, type_index } => emit_call_indirect(f, table_index, type_index),
        Instr::ReturnCall(x) => emit_return_call(f, x),
        Instr::ReturnCallRef(x) => emit_return_call_ref(f, x),
        Instr::ReturnCallIndirect { table_index, type_index } => emit_return_call_indirect(f, table_index, type_index),
        Instr::Drop => emit_drop(f),
        Instr::Select => emit_select(f),
        Instr::TypedSelect(t) => emit_typed_select(f, t),
        Instr::LocalGet(x) => emit_local_get(f, x),
        Instr::LocalSet(x) => emit_local_set(f, x),
        Instr::LocalTee(x) => emit_local_tee(f, x),
        Instr::GlobalGet(x) => emit_global_get(f, x),
        Instr::GlobalSet(x) => emit_global_set(f, x),
        Instr::I32Load(m) => emit_i32_load(f, m),
        Instr::I64Load(m) => emit_i64_load(f, m),
        Instr::F32Load(m) => emit_f32_load(f, m),
        Instr::F64Load(m) => emit_f64_load(f, m),
        Instr::I32Load8S(m) => emit_i32_load8_s(f, m),
        Instr::I32Load8U(m) => emit_i32_load8_u(f, m),
        Instr::I32Load16S(m) => emit_i32_load16_s(f, m),
        Instr::I32Load16U(m) => emit_i32_load16_u(f, m),
        Instr::I64Load8S(m) => emit_i64_load8_s(f, m),
        Instr::I64Load8U(m) => emit_i64_load8_u(f, m),
        Instr::I64Load16S(m) => emit_i64_load16_s(f, m),
        Instr::I64Load16U(m) => emit_i64_load16_u(f, m),
        Instr::I64Load32S(m) => emit_i64_load32_s(f, m),
        Instr::I64Load32U(m) => emit_i64_load32_u(f, m),
        Instr::I32Store(m) => emit_i32_store(f, m),
        Instr::I64Store(m) => emit_i64_store(f, m),
        Instr::F32Store(m) => emit_f32_store(f, m),
        Instr::F64Store(m) => emit_f64_store(f, m),
        Instr::I32Store8(m) => emit_i32_store8(f, m),
        Instr::I32Store16(m) => emit_i32_store16(f, m),
        Instr::I64Store8(m) => emit_i64_store8(f, m),
        Instr::I64Store16(m) => emit_i64_store16(f, m),
        Instr::I64Store32(m) => emit_i64_store32(f, m),
        Instr::MemorySize(x) => emit_memory_size(f, x),
        Instr::MemoryGrow(x) => emit_memory_grow(f, x),
        Instr::MemoryInit { mem, data_index } => emit_memory_init(f, mem, data_index),
        Instr::DataDrop(x) => emit_data_drop(f, x),
        Instr::MemoryCopy { dst_mem, src_mem } => emit_memory_copy(f, dst_mem, src_mem),
        Instr::MemoryFill(x) => emit_memory_fill(f, x),
        Instr::I32Const(x) => emit_i32_const(f, x),
        Instr::I64Const(x) => emit_i64_const(f, x),
        Instr::F32Const(bits) => emit_f32_const(f, bits),
        Instr::F64Const(bits) => emit_f64_const(f, bits),
        Instr::I32Eqz => emit_i32_eqz(f),
        Instr::I32Eq => emit_i32_eq(f),
        Instr::I32Ne => emit_i32_ne(f),
        Instr::I32LtS => emit_i32_lt_s(f),
        Instr::I32LtU => emit_i32_lt_u(f),
        Instr::I32GtS => emit_i32_gt_s(f),
        Instr::I32GtU => emit_i32_gt_u(f),
        Instr::I32LeS => emit_i32_le_s(f),
        Instr::I32LeU => emit_i32_le_u(f),
        Instr::I32GeS => emit_i32_ge_s(f),
        Instr::I32GeU => emit_i32_ge_u(f),
        Instr::I64Eqz => emit_i64_eqz(f),
        Instr::I64Eq => emit_i64_eq(f),
        Instr::I64Ne => emit_i64_ne(f),
        Instr::I64LtS => emit_i64_lt_s(f),
        Instr::I64LtU => emit_i64_lt_u(f),
        Instr::I64GtS => emit_i64_gt_s(f),
        Instr::I64GtU => emit_i64_gt_u(f),
        Instr::I64LeS => emit_i64_le_s(f),
        Instr::I64LeU => emit_i64_le_u(f),
        Instr::I64GeS => emit_i64_ge_s(f),
        Instr::I64GeU => emit_i64_ge_u(f),
        Instr::F32Eq => emit_f32_eq(f),
        Instr::F32Ne => emit_f32_ne(f),
        Instr::F32Lt => emit_f32_lt(f),
        Instr::F32Gt => emit_f32_gt(f),
        Instr::F32Le => emit_f32_le(f),
        Instr::F32Ge => emit_f32_ge(f),
        Instr::F64Eq => emit_f64_eq(f),
        Instr::F64Ne => emit_f64_ne(f),
        Instr::F64Lt => emit_f64_lt(f),
        Instr::F64Gt => emit_f64_gt(f),
        Instr::F64Le => emit_f64_le(f),
        Instr::F64Ge => emit_f64_ge(f),
        Instr::I32Clz => emit_i32_clz(f),
        Instr::I32Ctz => emit_i32_ctz(f),
        Instr::I32Popcnt => emit_i32_popcnt(f),
        Instr::I32Add => emit_i32_add(f),
        Instr::I32Sub => emit_i32_sub(f),
        Instr::I32Mul => emit_i32_mul(f),
        Instr::I32DivS => emit_i32_div_s(f),
        Instr::I32DivU => emit_i32_div_u(f),
        Instr::I32RemS => emit_i32_rem_s(f),
        Instr::I32RemU => emit_i32_rem_u(f),
        Instr::I32And => emit_i32_and(f),
        Instr::I32Or => emit_i32_or(f),
        Instr::I32Xor => emit_i32_xor(f),
        Instr::I32Shl => emit_i32_shl(f),
        Instr::I32ShrS => emit_i32_shr_s(f),
        Instr::I32ShrU => emit_i32_shr_u(f),
        Instr::I32Rotl => emit_i32_rotl(f),
        Instr::I32Rotr => emit_i32_rotr(f),
        Instr::I64Clz => emit_i64_clz(f),
        Instr::I64Ctz => emit_i64_ctz(f),
        Instr::I64Popcnt => emit_i64_popcnt(f),
        Instr::I64Add => emit_i64_add(f),
        Instr::I64Sub => emit_i64_sub(f),
        Instr::I64Mul => emit_i64_mul(f),
        Instr::I64DivS => emit_i64_div_s(f),
        Instr::I64DivU => emit_i64_div_u(f),
        Instr::I64RemS => emit_i64_rem_s(f),
        Instr::I64RemU => emit_i64_rem_u(f),
        Instr::I64And => emit_i64_and(f),
        Instr::I64Or => emit_i64_or(f),
        Instr::I64Xor => emit_i64_xor(f),
        Instr::I64Shl => emit_i64_shl(f),
        Instr::I64ShrS => emit_i64_shr_s(f),
        Instr::I64ShrU => emit_i64_shr_u(f),
        Instr::I64Rotl => emit_i64_rotl(f),
        Instr::I64Rotr => emit_i64_rotr(f),
        Instr::F32Abs => emit_f32_abs(f),
        Instr::F32Neg => emit_f32_neg(f),
        Instr::F32Ceil => emit_f32_ceil(f),
        Instr::F32Floor => emit_f32_floor(f),
        Instr::F32Trunc => emit_f32_trunc(f),
        Instr::F32Nearest => emit_f32_nearest(f),
        Instr::F32Sqrt => emit_f32_sqrt(f),
        Instr::F32Add => emit_f32_add(f),
        Instr::F32Sub => emit_f32_sub(f),
        Instr::F32Mul => emit_f32_mul(f),
        Instr::F32Div => emit_f32_div(f),
        Instr::F32Min => emit_f32_min(f),
        Instr::F32Max => emit_f32_max(f),
        Instr::F32Copysign => emit_f32_copysign(f),
        Instr::F64Abs => emit_f64_abs(f),
        Instr::F64Neg => emit_f64_neg(f),
        Instr::F64Ceil => emit_f64_ceil(f),
        Instr::F64Floor => emit_f64_floor(f),
        Instr::F64Trunc => emit_f64_trunc(f),
        Instr::F64Nearest => emit_f64_nearest(f),
        Instr::F64Sqrt => emit_f64_sqrt(f),
        Instr::F64Add => emit_f64_add(f),
        Instr::F64Sub => emit_f64_sub(f),
        Instr::F64Mul => emit_f64_mul(f),
        Instr::F64Div => emit_f64_div(f),
        Instr::F64Min => emit_f64_min(f),
        Instr::F64Max => emit_f64_max(f),
        Instr::F64Copysign => emit_f64_copysign(f),
        Instr::I32WrapI64 => emit_i32_wrap_i64(f),
        Instr::I32TruncF32S => emit_i32_trunc_f32_s(f),
        Instr::I32TruncF32U => emit_i32_trunc_f32_u(f),
        Instr::I32TruncF64S => emit_i32_trunc_f64_s(f),
        Instr::I32TruncF64U => emit_i32_trunc_f64_u(f),
        Instr::I64ExtendI32S => emit_i64_extend_i32_s(f),
        Instr::I64ExtendI32U => emit_i64_extend_i32_u(f),
        Instr::I64TruncF32S => emit_i64_trunc_f32_s(f),
        Instr::I64TruncF32U => emit_i64_trunc_f32_u(f),
        Instr::I64TruncF64S => emit_i64_trunc_f64_s(f),
        Instr::I64TruncF64U => emit_i64_trunc_f64_u(f),
        Instr::F32ConvertI32S => emit_f32_convert_i32_s(f),
        Instr::F32ConvertI32U => emit_f32_convert_i32_u(f),
        Instr::F32ConvertI64S => emit_f32_convert_i64_s(f),
        Instr::F32ConvertI64U => emit_f32_convert_i64_u(f),
        Instr::F32DemoteF64 => emit_f32_demote_f64(f),
        Instr::F64ConvertI32S => emit_f64_convert_i32_s(f),
        Instr::F64ConvertI32U => emit_f64_convert_i32_u(f),
        Instr::F64ConvertI64S => emit_f64_convert_i64_s(f),
        Instr::F64ConvertI64U => emit_f64_convert_i64_u(f),
        Instr::F64PromoteF32 => emit_f64_promote_f32(f),
        Instr::I32ReinterpretF32 => emit_i32_reinterpret_f32(f),
        Instr::I64ReinterpretF64 => emit_i64_reinterpret_f64(f),
        Instr::F32ReinterpretI32 => emit_f32_reinterpret_i32(f),
        Instr::F64ReinterpretI64 => emit_f64_reinterpret_i64(f),
        Instr::I32Extend8S => emit_i32_extend8_s(f),
        Instr::I32Extend16S => emit_i32_extend16_s(f),
        Instr::I64Extend8S => emit_i64_extend8_s(f),
        Instr::I64Extend16S => emit_i64_extend16_s(f),
        Instr::I64Extend32S => emit_i64_extend32_s(f),
        Instr::I32TruncSatF32S => emit_i32_trunc_sat_f32_s(f),
        Instr::I32TruncSatF32U => emit_i32_trunc_sat_f32_u(f),
        Instr::I32TruncSatF64S => emit_i32_trunc_sat_f64_s(f),
        Instr::I32TruncSatF64U => emit_i32_trunc_sat_f64_u(f),
        Instr::I64TruncSatF32S => emit_i64_trunc_sat_f32_s(f),
        Instr::I64TruncSatF32U => emit_i64_trunc_sat_f32_u(f),
        Instr::I64TruncSatF64S => emit_i64_trunc_sat_f64_s(f),
        Instr::I64TruncSatF64U => emit_i64_trunc_sat_f64_u(f),
        Instr::RefNull(h) => emit_ref_null(f, h),
        Instr::RefIsNull => emit_ref_is_null(f),
        Instr::RefFunc(x) => emit_ref_func(f, x),
        Instr::RefEq => emit_ref_eq(f),
        Instr::RefAsNonNull => emit_ref_as_non_null(f),
        Instr::StructNew(x) => emit_struct_new(f, x),
        Instr::StructNewDefault(x) => emit_struct_new_default(f, x),
        Instr::StructGet { struct_type_index, field_index } => emit_struct_get(f, struct_type_index, field_index),
        Instr::StructGetS { struct_type_index, field_index } => emit_struct_get_s(f, struct_type_index, field_index),
        Instr::StructGetU { struct_type_index, field_index } => emit_struct_get_u(f, struct_type_index, field_index),
        Instr::StructSet { struct_type_index, field_index } => emit_struct_set(f, struct_type_index, field_index),
        Instr::ArrayNew(x) => emit_array_new(f, x),
        Instr::ArrayNewDefault(x) => emit_array_new_default(f, x),
        Instr::ArrayNewFixed { array_type_index, array_size } => emit_array_new_fixed(f, array_type_index, array_size),
        Instr::ArrayNewData { array_type_index, array_data_index } => emit_array_new_data(f, array_type_index, array_data_index),
        Instr::ArrayNewElem { array_type_index, array_elem_index } => emit_array_new_elem(f, array_type_index, array_elem_index),
        Instr::ArrayGet(x) => emit_array_get(f, x),
        Instr::ArrayGetS(x) => emit_array_get_s(f, x),
        Instr::ArrayGetU(x) => emit_array_get_u(f, x),
        Instr::ArraySet(x) => emit_array_set(f, x),
        Instr::ArrayLen => emit_array_len(f),
        Instr::ArrayFill(x) => emit_array_fill(f, x),
        Instr::RefTestNonNull(h) => emit_ref_test_non_null(f, h),
        Instr::RefTestNullable(h) => emit_ref_test_nullable(f, h),
        Instr::RefCastNonNull(h) => emit_ref_cast_non_null(f, h),
        Instr::RefCastNullable(h) => emit_ref_cast_nullable(f, h),
        Instr::AnyConvertExtern => emit_any_convert_extern(f),
        Instr::ExternConvertAny => emit_extern_convert_any(f),
        Instr::RefI31 => emit_ref_i31(f),
        Instr::I31GetS => emit_i31_get_s(f),
        Instr::I31GetU => emit_i31_get_u(f),
        Instr::TableInit { table, elem_index } => emit_table_init(f, table, elem_index),
        Instr::ElemDrop(x) => emit_elem_drop(f, x),
    }
}

} // verus!
