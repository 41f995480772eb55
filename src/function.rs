use crate::builder::{Builder, Expr};
use crate::index::{FunctionIndex, FunctionTypeIndex, Index};
use crate::instr::Instr;
use crate::types::ValType;
use vstd::prelude::*;

verus! {

/// The text of an optional name.
pub open spec fn opt_name(o: Option<String>) -> Option<Seq<char>> {
    match o {
        Some(s) => Some(s@),
        None => None,
    }
}

/// A function declared in a module: its signature and index are fixed at
/// declaration; its body and export name may change until the module is
/// finished.
#[derive(Debug, Clone)]
pub struct Function {
    pub name: String,
    pub body: Builder,
    pub params: Vec<ValType>,
    pub results: Vec<ValType>,
    pub locals: Vec<ValType>,
    pub type_index: FunctionTypeIndex,
    pub index: u32,
    pub export: Option<String>,
}

/// What a [`Function`] holds, as mathematical values.
pub struct FunctionView {
    pub name: Seq<char>,
    pub body: Seq<Instr>,
    pub params: Seq<ValType>,
    pub results: Seq<ValType>,
    pub locals: Seq<ValType>,
    pub type_index: u32,
    pub index: u32,
    pub export: Option<Seq<char>>,
}

impl View for Function {
    type V = FunctionView;

    open spec fn view(&self) -> FunctionView {
        FunctionView {
            name: self.name@,
            body: self.body@,
            params: self.params@,
            results: self.results@,
            locals: self.locals@,
            type_index: self.type_index.0,
            index: self.index,
            export: opt_name(self.export),
        }
    }
}

impl Function {
    /// Appends the expansion of `expr` to the body.
    pub fn push<E: Expr>(&mut self, expr: E) -> (r: &mut Self)
        ensures
            r@ == (FunctionView { body: old(self)@.body + expr.expansion(), ..old(self)@ }),
            *final(self) == *final(r),
    {
        expr.expr(&mut self.body);
        self
    }

    /// Appends one instruction to the body.
    pub fn instr(&mut self, instr: Instr) -> (r: &mut Self)
        ensures
            r@ == (FunctionView { body: old(self)@.body.push(instr), ..old(self)@ }),
            *final(self) == *final(r),
    {
        self.body.instrs.push(instr);
        self
    }

    /// Appends instructions to the body, in order.
    pub fn instrs(&mut self, instrs: Vec<Instr>) -> (r: &mut Self)
        ensures
            r@ == (FunctionView { body: old(self)@.body + instrs@, ..old(self)@ }),
            *final(self) == *final(r),
    {
        let mut v = instrs;
        self.body.instrs.append(&mut v);
        self
    }

    /// Exports the function under `name`, replacing any earlier export name.
    pub fn export(&mut self, name: &str) -> (r: &mut Self)
        ensures
            r@ == (FunctionView { export: Some(name@), ..old(self)@ }),
            *final(self) == *final(r),
    {
        self.export = Some(name.to_owned());
        self
    }

    /// The body, to compose further.
    pub fn builder(&mut self) -> (r: &mut Builder)
        ensures
            *r == old(self).body,
            final(self)@ == (FunctionView { body: final(r)@, ..old(self)@ }),
    {
        &mut self.body
    }

    /// The body as it is serialized: the instructions, then `end`.
    pub fn code(&self) -> (r: Vec<Instr>)
        ensures
            r@ == self.body@.push(Instr::End),
    {
        let mut r = self.body.instrs.clone();
        r.push(Instr::End);
        r
    }

    /// The function's index, to call it.
    pub fn index(&self) -> (r: FunctionIndex)
        ensures
            r.0 == self.index,
    {
        Index::new(self.index)
    }
}

} // verus!
