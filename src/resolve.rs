use crate::function::Function;
use crate::instr::Instr;
use crate::module::{next_function_index, Import, Module};
use crate::types::ConstExpr;
use vstd::prelude::*;

verus! {

/// The position of the first occurrence of `id` in `ids`.
pub open spec fn pos_of(ids: Seq<u32>, id: u32) -> Option<int>
    decreases ids.len(),
{
    if ids.len() == 0 {
        None
    } else {
        match pos_of(ids.drop_last(), id) {
            Some(p) => Some(p),
            None => if ids.last() == id {
                Some(ids.len() - 1)
            } else {
                None
            },
        }
    }
}

/// A first occurrence within a prefix is the first occurrence in the
/// whole sequence.
pub proof fn lemma_pos_of_prefix(ids: Seq<u32>, n: int, id: u32)
    requires
        0 <= n <= ids.len(),
        pos_of(ids.take(n), id) is Some,
    ensures
        pos_of(ids, id) == pos_of(ids.take(n), id),
    decreases ids.len() - n,
{
    if n == ids.len() {
        assert(ids.take(n) == ids);
    } else {
        assert(ids.drop_last().take(n) == ids.take(n));
        lemma_pos_of_prefix(ids.drop_last(), n, id);
    }
}

/// An id that does not occur has no position.
pub proof fn lemma_pos_of_absent(ids: Seq<u32>, id: u32)
    requires
        forall|j: int| 0 <= j < ids.len() ==> #[trigger] ids[j] != id,
    ensures
        pos_of(ids, id) is None,
    decreases ids.len(),
{
    if ids.len() > 0 {
        lemma_pos_of_absent(ids.drop_last(), id);
    }
}

/// In a sequence without repeats, the id at `k` is first found at `k`.
pub proof fn lemma_pos_of_distinct(ids: Seq<u32>, k: int)
    requires
        0 <= k < ids.len(),
        forall|a: int, b: int| 0 <= a < b < ids.len() ==> #[trigger] ids[a] != #[trigger] ids[b],
    ensures
        pos_of(ids, ids[k]) == Some(k),
    decreases ids.len(),
{
    if k == ids.len() - 1 {
        assert forall|j: int| 0 <= j < ids.drop_last().len() implies #[trigger] ids.drop_last()[j]
            != ids[k] by {
            assert(ids[j] != ids[k]);
        }
        lemma_pos_of_absent(ids.drop_last(), ids[k]);
    } else {
        lemma_pos_of_distinct(ids.drop_last(), k);
    }
}

impl Module {
    /// The handles of the imports, in order.
    pub open spec fn import_ids(&self) -> Seq<u32> {
        self.imports@.map_values(|i: Import| i.decl)
    }

    /// The handles of the local functions, in order.
    pub open spec fn def_ids(&self) -> Seq<u32> {
        self.defs@.map_values(|f: Function| f.index)
    }

    /// The index in the finished module of the function whose handle is
    /// `id`: an import's position, or the number of imports plus a local
    /// function's position. A value that no function has stays as it is.
    pub open spec fn resolve(&self, id: u32) -> u32 {
        match pos_of(self.import_ids(), id) {
            Some(p) => p as u32,
            None => match pos_of(self.def_ids(), id) {
                Some(k) => (self.imports@.len() + k) as u32,
                None => id,
            },
        }
    }

    /// `i` with the function handle that it names resolved.
    pub open spec fn resolve_instr(&self, i: Instr) -> Instr {
        match i {
            Instr::Call(f) => Instr::Call(self.resolve(f)),
            Instr::ReturnCall(f) => Instr::ReturnCall(self.resolve(f)),
            Instr::RefFunc(f) => Instr::RefFunc(self.resolve(f)),
            _ => i,
        }
    }

    /// `e` with the function handle that it names resolved.
    pub open spec fn resolve_const(&self, e: ConstExpr) -> ConstExpr {
        match e {
            ConstExpr::RefFunc(f) => ConstExpr::RefFunc(self.resolve(f)),
            _ => e,
        }
    }

    /// The index in the finished module of the function whose handle is `id`.
    pub fn resolve_index(&self, id: u32) -> (r: u32)
        requires
            next_function_index(*self) <= u32::MAX,
        ensures
            r == self.resolve(id),
    {
        let ghost ids = self.import_ids();
        let mut i: usize = 0;
        while i < self.imports.len()
            invariant
                i <= self.imports@.len(),
                ids == self.import_ids(),
                pos_of(ids.take(i as int), id) is None,
            decreases self.imports@.len() - i,
        {
            assert(ids.take(i + 1).drop_last() == ids.take(i as int));
            if self.imports[i].decl == id {
                proof {
                    lemma_pos_of_prefix(ids, i + 1, id);
                }
                return i as u32;
            }
            i = i + 1;
        }
        assert(ids.take(ids.len() as int) == ids);
        let ghost dids = self.def_ids();
        let mut k: usize = 0;
        while k < self.defs.len()
            invariant
                k <= self.defs@.len(),
                next_function_index(*self) <= u32::MAX,
                dids == self.def_ids(),
                ids == self.import_ids(),
                pos_of(ids, id) is None,
                pos_of(dids.take(k as int), id) is None,
            decreases self.defs@.len() - k,
        {
            assert(dids.take(k + 1).drop_last() == dids.take(k as int));
            if self.defs[k].index == id {
                proof {
                    lemma_pos_of_prefix(dids, k + 1, id);
                }
                return (self.imports.len() + k) as u32;
            }
            k = k + 1;
        }
        assert(dids.take(dids.len() as int) == dids);
        id
    }

    /// `i` with the function handle that it names resolved.
    pub fn resolve_instruction(&self, i: Instr) -> (r: Instr)
        requires
            next_function_index(*self) <= u32::MAX,
        ensures
            r == self.resolve_instr(i),
    {
        match i {
            Instr::Call(f) => Instr::Call(self.resolve_index(f)),
            Instr::ReturnCall(f) => Instr::ReturnCall(self.resolve_index(f)),
            Instr::RefFunc(f) => Instr::RefFunc(self.resolve_index(f)),
            _ => i,
        }
    }

    /// `e` with the function handle that it names resolved.
    pub fn resolve_const_expr(&self, e: ConstExpr) -> (r: ConstExpr)
        requires
            next_function_index(*self) <= u32::MAX,
        ensures
            r == self.resolve_const(e),
    {
        match e {
            ConstExpr::RefFunc(f) => ConstExpr::RefFunc(self.resolve_index(f)),
            _ => e,
        }
    }
}

} // verus!
