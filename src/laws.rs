use crate::builder::incr_instrs;
use crate::function::Function;
use crate::instr::Instr;
use crate::module::{next_function_index, Global, Module};
use crate::resolve::{lemma_pos_of_absent, lemma_pos_of_distinct};
use crate::types::ValType;
use vstd::prelude::*;
use vstd::seq_lib::lemma_flatten_concat;

verus! {

/// The instructions after appending, one at a time, fragments whose
/// expansions are `exps`, to a builder that held `s`.
pub open spec fn append_each(s: Seq<Instr>, exps: Seq<Seq<Instr>>) -> Seq<Instr>
    decreases exps.len(),
{
    if exps.len() == 0 {
        s
    } else {
        append_each(s, exps.drop_last()) + exps.last()
    }
}

/// Appending fragments one at a time gives the same instructions as
/// appending the concatenation of their expansions at once.
pub proof fn lemma_append_flattens(s: Seq<Instr>, exps: Seq<Seq<Instr>>)
    ensures
        append_each(s, exps) == s + exps.flatten(),
    decreases exps.len(),
{
    if exps.len() > 0 {
        lemma_append_flattens(s, exps.drop_last());
        exps.drop_last().lemma_flatten_push(exps.last());
        assert(exps.drop_last().push(exps.last()) == exps);
        assert(s + exps.drop_last().flatten() + exps.last() == s + (exps.drop_last().flatten()
            + exps.last()));
    }
}

/// How fragments are grouped does not change what is appended: appending
/// the fragments of `x`, then those of `y`, gives what appending those of
/// `x + y` gives.
pub proof fn lemma_append_grouping(s: Seq<Instr>, x: Seq<Seq<Instr>>, y: Seq<Seq<Instr>>)
    ensures
        append_each(append_each(s, x), y) == append_each(s, x + y),
{
    lemma_append_flattens(s, x);
    lemma_append_flattens(append_each(s, x), y);
    lemma_append_flattens(s, x + y);
    lemma_flatten_concat(x, y);
    assert(s + x.flatten() + y.flatten() == s + (x.flatten() + y.flatten()));
}

/// In a well-formed module, the handle that `func` returned for the local
/// function at position `k` resolves, in the finished module, to the index
/// after every import and every local function before it, and the names
/// section gives that index the function's own name: a call through the
/// handle captured at declaration reaches this function, whatever imports
/// were declared before or after it.
pub proof fn lemma_call_target(m: Module, k: int)
    requires
        m.wf(),
        0 <= k < m.defs@.len(),
    ensures
        m.resolve(m.defs@[k].index) == m.imports@.len() + k,
        m.function_name_entries()[m.imports@.len() + k] == (
            (m.imports@.len() + k) as u32,
            m.defs@[k].name@,
        ),
{
    let id = m.defs@[k].index;
    assert forall|j: int| 0 <= j < m.import_ids().len() implies #[trigger] m.import_ids()[j] != id by {
        assert(m.imports@[j].decl != m.defs@[k].index);
    }
    lemma_pos_of_absent(m.import_ids(), id);
    assert forall|a: int, b: int| 0 <= a < b < m.def_ids().len() implies #[trigger] m.def_ids()[a]
        != #[trigger] m.def_ids()[b] by {
        assert(m.defs@[a].index != m.defs@[b].index);
    }
    lemma_pos_of_distinct(m.def_ids(), k);
}

/// In a well-formed module, the handle that `import` returned for the
/// import at position `i` resolves to `i`.
pub proof fn lemma_import_target(m: Module, i: int)
    requires
        m.wf(),
        0 <= i < m.imports@.len(),
    ensures
        m.resolve(m.imports@[i].decl) == i,
{
    assert forall|a: int, b: int| 0 <= a < b < m.import_ids().len() implies #[trigger] m.import_ids()[a]
        != #[trigger] m.import_ids()[b] by {
        assert(m.imports@[a].decl != m.imports@[b].decl);
    }
    lemma_pos_of_distinct(m.import_ids(), i);
}

/// Declaring a function keeps a module well-formed, as long as the handle's
/// index is left as `func` set it.
pub proof fn lemma_func_keeps_wf(before: Module, after: Module, f: Function)
    requires
        before.wf(),
        before.types@.len() < u32::MAX,
        next_function_index(before) < u32::MAX,
        f.index == next_function_index(before),
        after.types@.len() == before.types@.len() + 1,
        after.defs@ == before.defs@.push(f),
        after == (Module { types: after.types, defs: after.defs, ..before }),
    ensures
        after.wf(),
{
    assert forall|k: int| 0 <= k < after.defs@.len() implies #[trigger] after.defs@[k].index
        < next_function_index(after) by {
        if k < before.defs@.len() {
            assert(after.defs@[k] == before.defs@[k]);
        }
    }
    assert forall|k1: int, k2: int| 0 <= k1 < k2 < after.defs@.len() implies #[trigger] after.defs@[k1].index
        != #[trigger] after.defs@[k2].index by {
        assert(after.defs@[k1] == before.defs@[k1]);
        if k2 < before.defs@.len() {
            assert(after.defs@[k2] == before.defs@[k2]);
        }
    }
    assert forall|i: int, k: int|
        0 <= i < after.imports@.len() && 0 <= k < after.defs@.len() implies #[trigger] after.imports@[i].decl
        != #[trigger] after.defs@[k].index by {
        if k < before.defs@.len() {
            assert(after.defs@[k] == before.defs@[k]);
        }
    }
}

/// Importing a function keeps a module well-formed, whether or not local
/// functions were declared before it.
pub proof fn lemma_import_keeps_wf(before: Module, after: Module)
    requires
        before.wf(),
        before.types@.len() < u32::MAX,
        next_function_index(before) < u32::MAX,
        after.types@.len() == before.types@.len() + 1,
        after.imports@.len() == before.imports@.len() + 1,
        after.imports@.drop_last() == before.imports@,
        after.imports@.last().decl == next_function_index(before),
        after == (Module { types: after.types, imports: after.imports, ..before }),
    ensures
        after.wf(),
{
    assert forall|i: int| 0 <= i < after.imports@.len() implies #[trigger] after.imports@[i].decl
        < next_function_index(after) by {
        if i < before.imports@.len() {
            assert(after.imports@[i] == before.imports@[i]);
        }
    }
    assert forall|i1: int, i2: int| 0 <= i1 < i2 < after.imports@.len() implies #[trigger] after.imports@[i1].decl
        != #[trigger] after.imports@[i2].decl by {
        assert(after.imports@[i1] == before.imports@[i1]);
        if i2 < before.imports@.len() {
            assert(after.imports@[i2] == before.imports@[i2]);
        }
    }
    assert forall|i: int, k: int|
        0 <= i < after.imports@.len() && 0 <= k < after.defs@.len() implies #[trigger] after.imports@[i].decl
        != #[trigger] after.defs@[k].index by {
        if i < before.imports@.len() {
            assert(after.imports@[i] == before.imports@[i]);
        }
    }
}

/// Adding a global keeps a module well-formed, as long as the handle's index
/// is left as `global` set it.
pub proof fn lemma_global_keeps_wf(before: Module, after: Module, g: Global)
    requires
        before.wf(),
        before.globals@.len() < u32::MAX,
        g.index == before.globals@.len(),
        after.globals@ == before.globals@.push(g),
        after == (Module { globals: after.globals, ..before }),
    ensures
        after.wf(),
{
    assert forall|k: int| 0 <= k < after.globals@.len() implies #[trigger] after.globals@[k].index
        == k by {
        if k < before.globals@.len() {
            assert(after.globals@[k] == before.globals@[k]);
        }
    }
}

/// In a module whose only functions so far are imports, the next function
/// declared gets the index that equals the number of imports.
pub proof fn lemma_first_local_follows_imports(m: Module)
    requires
        m.defs@.len() == 0,
    ensures
        next_function_index(m) == m.imports@.len(),
{
}

/// `x` wrapped to a 32-bit two's-complement integer, for `x` within one
/// turn of the range.
pub open spec fn wrap_i32(x: int) -> i32 {
    if x > i32::MAX {
        (x - 0x1_0000_0000) as i32
    } else if x < i32::MIN {
        (x + 0x1_0000_0000) as i32
    } else {
        x as i32
    }
}

/// The state of a function running straight-line `i32` code: its locals and
/// its operand stack, top last.
pub struct I32State {
    pub locals: Seq<i32>,
    pub stack: Seq<i32>,
}

/// One step of `i`, for the instructions that read and write locals, push
/// `i32` constants and add; `None` where `i` is another instruction or
/// cannot run in `s`.
pub open spec fn step_i32(i: Instr, s: I32State) -> Option<I32State> {
    let n = s.stack.len();
    match i {
        Instr::LocalGet(l) => if l < s.locals.len() {
            Some(I32State { locals: s.locals, stack: s.stack.push(s.locals[l as int]) })
        } else {
            None
        },
        Instr::LocalSet(l) => if l < s.locals.len() && n >= 1 {
            Some(I32State { locals: s.locals.update(l as int, s.stack.last()), stack: s.stack.drop_last() })
        } else {
            None
        },
        Instr::I32Const(c) => Some(I32State { locals: s.locals, stack: s.stack.push(c) }),
        Instr::I32Add => if n >= 2 {
            Some(
                I32State {
                    locals: s.locals,
                    stack: s.stack.subrange(0, n - 2).push(wrap_i32(s.stack[n - 2] + s.stack[n - 1])),
                },
            )
        } else {
            None
        },
        _ => None,
    }
}

/// Runs `instrs` from `s`, one step after another.
pub open spec fn run_i32(instrs: Seq<Instr>, s: I32State) -> Option<I32State>
    decreases instrs.len(),
{
    if instrs.len() == 0 {
        Some(s)
    } else {
        match step_i32(instrs[0], s) {
            Some(t) => run_i32(instrs.drop_first(), t),
            None => None,
        }
    }
}

/// The instructions that `local_incr` appends for an `i32` local leave the
/// local one greater (wrapping) and the operand stack as it was.
pub proof fn lemma_local_incr_i32(slot: u32, s: I32State)
    requires
        slot < s.locals.len(),
    ensures
        run_i32(incr_instrs(slot, ValType::I32), s) == Some(
            I32State {
                locals: s.locals.update(slot as int, wrap_i32(s.locals[slot as int] + 1)),
                stack: s.stack,
            },
        ),
{
    let code = incr_instrs(slot, ValType::I32);
    assert(code == seq![Instr::LocalGet(slot), Instr::I32Const(1), Instr::I32Add, Instr::LocalSet(slot)]);
    let v = s.locals[slot as int];
    let s1 = I32State { locals: s.locals, stack: s.stack.push(v) };
    let s2 = I32State { locals: s.locals, stack: s.stack.push(v).push(1) };
    let s3 = I32State { locals: s.locals, stack: s.stack.push(wrap_i32(v + 1)) };
    assert(s2.stack.subrange(0, s2.stack.len() - 2) == s.stack);
    assert(step_i32(code[0], s) == Some(s1));
    assert(step_i32(code[1], s1) == Some(s2));
    assert(step_i32(code[2], s2) == Some(s3));
    assert(s3.stack.drop_last() == s.stack);
    assert(code.drop_first().drop_first().drop_first().drop_first().len() == 0);
    reveal_with_fuel(run_i32, 5);
}

} // verus!
