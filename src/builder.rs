use crate::index::{FunctionIndex, Local, Param};
use crate::instr::Instr;
use crate::types::{BlockType, ValType};
use vstd::prelude::*;

verus! {

/// A growing sequence of instructions.
#[derive(Debug, Clone)]
pub struct Builder {
    pub instrs: Vec<Instr>,
}

impl View for Builder {
    type V = Seq<Instr>;

    open spec fn view(&self) -> Seq<Instr> {
        self.instrs@
    }
}

/// A value that can be appended to a [`Builder`]; `expansion` is the
/// sequence of instructions that it stands for.
pub trait Expr: Sized {
    spec fn expansion(&self) -> Seq<Instr>;

    fn expr(self, builder: &mut Builder)
        ensures
            final(builder)@ == old(builder)@ + self.expansion(),
    ;
}

impl Expr for Instr {
    open spec fn expansion(&self) -> Seq<Instr> {
        seq![*self]
    }

    fn expr(self, builder: &mut Builder) {
        builder.instrs.push(self);
    }
}

impl Expr for Vec<Instr> {
    open spec fn expansion(&self) -> Seq<Instr> {
        self@
    }

    fn expr(self, builder: &mut Builder) {
        let mut v = self;
        builder.instrs.append(&mut v);
    }
}

impl<const N: usize> Expr for [Instr; N] {
    open spec fn expansion(&self) -> Seq<Instr> {
        self@
    }

    fn expr(self, builder: &mut Builder) {
        let ghost start = builder@;
        let mut i: usize = 0;
        while i < N
            invariant
                i <= N,
                self@.len() == N,
                builder@ == start + self@.subrange(0, i as int),
            decreases N - i,
        {
            builder.instrs.push(self[i]);
            assert(self@.subrange(0, i + 1) == self@.subrange(0, i as int).push(self@[i as int]));
            i = i + 1;
        }
        assert(self@.subrange(0, N as int) == self@);
    }
}

impl Expr for Builder {
    open spec fn expansion(&self) -> Seq<Instr> {
        self@
    }

    fn expr(self, builder: &mut Builder) {
        let mut v = self.instrs;
        builder.instrs.append(&mut v);
    }
}

impl Expr for FunctionIndex {
    /// A call of the function.
    open spec fn expansion(&self) -> Seq<Instr> {
        seq![Instr::Call(self.0)]
    }

    fn expr(self, builder: &mut Builder) {
        builder.instrs.push(Instr::Call(self.0));
    }
}

impl Expr for Local {
    /// A read of the local.
    open spec fn expansion(&self) -> Seq<Instr> {
        seq![Instr::LocalGet(self.0)]
    }

    fn expr(self, builder: &mut Builder) {
        builder.instrs.push(Instr::LocalGet(self.0));
    }
}

impl Expr for Param {
    /// A read of the parameter.
    open spec fn expansion(&self) -> Seq<Instr> {
        seq![Instr::LocalGet(self.0)]
    }

    fn expr(self, builder: &mut Builder) {
        builder.instrs.push(Instr::LocalGet(self.0));
    }
}

impl Expr for bool {
    /// The constant 1 or 0 of type `i32`.
    open spec fn expansion(&self) -> Seq<Instr> {
        seq![Instr::I32Const(if *self { 1 } else { 0 })]
    }

    fn expr(self, builder: &mut Builder) {
        let v: i32 = if self { 1 } else { 0 };
        builder.instrs.push(Instr::I32Const(v));
    }
}

impl Expr for i32 {
    open spec fn expansion(&self) -> Seq<Instr> {
        seq![Instr::I32Const(*self)]
    }

    fn expr(self, builder: &mut Builder) {
        builder.instrs.push(Instr::I32Const(self));
    }
}

impl Expr for i64 {
    open spec fn expansion(&self) -> Seq<Instr> {
        seq![Instr::I64Const(*self)]
    }

    fn expr(self, builder: &mut Builder) {
        builder.instrs.push(Instr::I64Const(self));
    }
}

/// The bit pattern of the `f32` value 1.0.
pub const F32_ONE_BITS: u32 = 0x3f80_0000;

/// The bit pattern of the `f64` value 1.0.
pub const F64_ONE_BITS: u64 = 0x3ff0_0000_0000_0000;

/// The numeric types whose locals `local_incr` can increment.
pub open spec fn is_numeric(ty: ValType) -> bool {
    ty == ValType::I32 || ty == ValType::I64 || ty == ValType::F32 || ty == ValType::F64
}

/// The constant one and the addition of the numeric type `ty`.
pub open spec fn one_plus(ty: ValType) -> Seq<Instr> {
    match ty {
        ValType::I32 => seq![Instr::I32Const(1), Instr::I32Add],
        ValType::I64 => seq![Instr::I64Const(1), Instr::I64Add],
        ValType::F32 => seq![Instr::F32Const(F32_ONE_BITS), Instr::F32Add],
        _ => seq![Instr::F64Const(F64_ONE_BITS), Instr::F64Add],
    }
}

/// The instructions that add one to the local `slot` of type `ty`.
pub open spec fn incr_instrs(slot: u32, ty: ValType) -> Seq<Instr> {
    seq![Instr::LocalGet(slot)] + one_plus(ty) + seq![Instr::LocalSet(slot)]
}

/// One of the kinds of values that can be appended to a [`Builder`], as a
/// single type, so that fragments of different kinds can stand in one list.
#[derive(Debug, Clone)]
pub enum Fragment {
    Instr(Instr),
    Instrs(Vec<Instr>),
    Sequence(Builder),
    Call(FunctionIndex),
    Local(Local),
    Param(Param),
    Bool(bool),
    I32(i32),
    I64(i64),
}

impl Expr for Fragment {
    open spec fn expansion(&self) -> Seq<Instr> {
        match self {
            Fragment::Instr(i) => i.expansion(),
            Fragment::Instrs(v) => v.expansion(),
            Fragment::Sequence(b) => b.expansion(),
            Fragment::Call(f) => f.expansion(),
            Fragment::Local(l) => l.expansion(),
            Fragment::Param(p) => p.expansion(),
            Fragment::Bool(b) => b.expansion(),
            Fragment::I32(v) => v.expansion(),
            Fragment::I64(v) => v.expansion(),
        }
    }

    fn expr(self, builder: &mut Builder) {
        match self {
            Fragment::Instr(i) => i.expr(builder),
            Fragment::Instrs(v) => v.expr(builder),
            Fragment::Sequence(b) => b.expr(builder),
            Fragment::Call(f) => f.expr(builder),
            Fragment::Local(l) => l.expr(builder),
            Fragment::Param(p) => p.expr(builder),
            Fragment::Bool(b) => b.expr(builder),
            Fragment::I32(v) => v.expr(builder),
            Fragment::I64(v) => v.expr(builder),
        }
    }
}

/// The expansions of a list of fragments, each in its place.
pub open spec fn expansions(fragments: Seq<Fragment>) -> Seq<Seq<Instr>> {
    fragments.map_values(|f: Fragment| f.expansion())
}

impl From<Vec<Instr>> for Builder {
    fn from(instrs: Vec<Instr>) -> (r: Builder)
        ensures
            r@ == instrs@,
    {
        Builder { instrs }
    }
}

impl vstd::std_specs::convert::FromSpecImpl<Vec<Instr>> for Builder {
    open spec fn obeys_from_spec() -> bool {
        true
    }

    open spec fn from_spec(v: Vec<Instr>) -> Builder {
        Builder { instrs: v }
    }
}

impl Builder {
    /// A builder that starts with `init`.
    pub fn new(init: Vec<Instr>) -> (r: Self)
        ensures
            r@ == init@,
    {
        Builder { instrs: init }
    }

    /// Appends the expansion of `x`.
    pub fn push<E: Expr>(&mut self, x: E) -> (r: &mut Self)
        ensures
            r@ == old(self)@ + x.expansion(),
            *final(self) == *final(r),
    {
        x.expr(self);
        self
    }

    /// Appends the expansion of each fragment, in order.
    pub fn push_all(&mut self, fragments: Vec<Fragment>) -> (r: &mut Self)
        ensures
            r@ == old(self)@ + expansions(fragments@).flatten(),
            *final(self) == *final(r),
    {
        let ghost exps = expansions(fragments@);
        let ghost all = fragments@;
        let mut rest = fragments;
        let n = rest.len();
        let mut taken: usize = 0;
        while taken < n
            invariant
                taken <= n,
                n == all.len(),
                exps == expansions(all),
                exps.len() == n,
                rest@ == all.skip(taken as int),
                self@ == old(self)@ + exps.take(taken as int).flatten(),
            decreases n - taken,
        {
            let f = rest.remove(0);
            proof {
                assert(f == all[taken as int]);
                exps.take(taken as int).lemma_flatten_push(exps[taken as int]);
                assert(exps.take(taken + 1) == exps.take(taken as int).push(exps[taken as int]));
                assert(rest@ == all.skip(taken + 1));
            }
            let ghost mid = self@;
            assert(exps[taken as int] == f.expansion());
            f.expr(self);
            assert(self@ == old(self)@ + exps.take(taken + 1).flatten()) by {
                assert(mid + f.expansion() == old(self)@ + (exps.take(taken as int).flatten()
                    + exps[taken as int]));
            }
            taken = taken + 1;
        }
        assert(exps.take(n as int) == exps);
        self
    }

    /// Appends each instruction of `x` in order.
    pub fn extend(&mut self, x: Vec<Instr>) -> (r: &mut Self)
        ensures
            r@ == old(self)@ + x@,
            *final(self) == *final(r),
    {
        let mut x = x;
        self.instrs.append(&mut x);
        self
    }
    /// Appends the instructions that add one to `local`, whose type is `ty`.
    pub fn local_incr(&mut self, local: Local, ty: ValType) -> (r: &mut Self)
        requires
            is_numeric(ty),
        ensures
            r@ == old(self)@ + incr_instrs(local.0, ty),
            *final(self) == *final(r),
    {
        self.instrs.push(Instr::LocalGet(local.0));
        match ty {
            ValType::I64 => {
                self.instrs.push(Instr::I64Const(1));
                self.instrs.push(Instr::I64Add);
            },
            ValType::I32 => {
                self.instrs.push(Instr::I32Const(1));
                self.instrs.push(Instr::I32Add);
            },
            ValType::F64 => {
                self.instrs.push(Instr::F64Const(F64_ONE_BITS));
                self.instrs.push(Instr::F64Add);
            },
            _ => {
                self.instrs.push(Instr::F32Const(F32_ONE_BITS));
                self.instrs.push(Instr::F32Add);
            },
        }
        self.instrs.push(Instr::LocalSet(local.0));
        assert(self@ == old(self)@ + incr_instrs(local.0, ty));
        self
    }

    /// Appends a block around the expansion of `expr`.
    pub fn block<F: Expr>(&mut self, bt: BlockType, expr: F) -> (r: &mut Self)
        ensures
            r@ == old(self)@ + seq![Instr::Block(bt)] + expr.expansion() + seq![Instr::End],
            *final(self) == *final(r),
    {
        self.instrs.push(Instr::Block(bt));
        expr.expr(self);
        self.instrs.push(Instr::End);
        self
    }

    /// Appends a loop around the expansion of `expr`.
    pub fn loop_<F: Expr>(&mut self, bt: BlockType, expr: F) -> (r: &mut Self)
        ensures
            r@ == old(self)@ + seq![Instr::Loop(bt)] + expr.expansion() + seq![Instr::End],
            *final(self) == *final(r),
    {
        self.instrs.push(Instr::Loop(bt));
        expr.expr(self);
        self.instrs.push(Instr::End);
        self
    }

    /// Appends a loop whose body is `cond` then `expr`, and that branches
    /// back to its start while the value left on the stack is non-zero.
    pub fn loop_while<C: Expr, F: Expr>(&mut self, bt: BlockType, cond: C, expr: F) -> (r:
        &mut Self)
        ensures
            r@ == old(self)@ + seq![Instr::Loop(bt)] + cond.expansion() + expr.expansion() + seq![
                Instr::BrIf(0),
                Instr::End,
            ],
            *final(self) == *final(r),
    {
        self.instrs.push(Instr::Loop(bt));
        cond.expr(self);
        expr.expr(self);
        self.instrs.push(Instr::BrIf(0));
        self.instrs.push(Instr::End);
        assert(self@ == old(self)@ + seq![Instr::Loop(bt)] + cond.expansion() + expr.expansion()
            + seq![Instr::BrIf(0), Instr::End]);
        self
    }

    /// Appends `cond`, then an `if` whose branch is the expansion of `expr`.
    pub fn if_then<C: Expr, F: Expr>(&mut self, bt: BlockType, cond: C, expr: F) -> (r:
        &mut Self)
        ensures
            r@ == old(self)@ + cond.expansion() + seq![Instr::If(bt)] + expr.expansion() + seq![
                Instr::End,
            ],
            *final(self) == *final(r),
    {
        cond.expr(self);
        self.instrs.push(Instr::If(bt));
        expr.expr(self);
        self.instrs.push(Instr::End);
        self
    }

    /// Appends `cond`, then an `if` with the branches `expr` and `else_`.
    pub fn if_then_else<C: Expr, F: Expr, G: Expr>(
        &mut self,
        bt: BlockType,
        cond: C,
        expr: F,
        else_: G,
    ) -> (r: &mut Self)
        ensures
            r@ == old(self)@ + cond.expansion() + seq![Instr::If(bt)] + expr.expansion() + seq![
                Instr::Else,
            ] + else_.expansion() + seq![Instr::End],
            *final(self) == *final(r),
    {
        cond.expr(self);
        self.instrs.push(Instr::If(bt));
        expr.expr(self);
        self.instrs.push(Instr::Else);
        else_.expr(self);
        self.instrs.push(Instr::End);
        self
    }

    /// Appends a `return`.
    pub fn return_(&mut self)
        ensures
            final(self)@ == old(self)@.push(Instr::Return),
    {
        self.instrs.push(Instr::Return);
    }
}

} // verus!
