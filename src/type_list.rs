use crate::index::Index;
use crate::types::ValType;
use vstd::prelude::*;

verus! {

/// The parameters or the locals of a function: slot `i` is the `i`-th type
/// pushed. Slots are numbered densely from 0 and never reused; `T` is the
/// namespace of the handles that `push` returns.
#[derive(Debug)]
pub struct TypeList<T> {
    pub items: Vec<ValType>,
    pub tag: std::marker::PhantomData<T>,
}

impl<T> View for TypeList<T> {
    type V = Seq<ValType>;

    open spec fn view(&self) -> Seq<ValType> {
        self.items@
    }
}

impl<T> TypeList<T> {
    /// An empty list.
    pub fn new() -> (r: Self)
        ensures
            r@ == Seq::<ValType>::empty(),
    {
        TypeList { items: Vec::new(), tag: std::marker::PhantomData }
    }

    /// A list whose slots hold `types`, in order.
    pub fn from_types(types: Vec<ValType>) -> (r: Self)
        ensures
            r@ == types@,
    {
        TypeList { items: types, tag: std::marker::PhantomData }
    }

    /// Adds a slot of type `ty` and returns its handle.
    pub fn push(&mut self, ty: ValType) -> (r: Index<T>)
        requires
            old(self)@.len() < u32::MAX,
        ensures
            final(self)@ == old(self)@.push(ty),
            r.0 == old(self)@.len(),
    {
        let n = self.items.len() as u32;
        self.items.push(ty);
        Index::new(n)
    }

    /// The type of `slot`, if the list has it.
    pub fn ty(&self, slot: Index<T>) -> (r: Option<ValType>)
        ensures
            r == (if (slot.0 as int) < self@.len() {
                Some(self@[slot.0 as int])
            } else {
                None
            }),
    {
        if (slot.0 as usize) < self.items.len() {
            Some(self.items[slot.0 as usize])
        } else {
            None
        }
    }

    /// The number of slots.
    pub fn len(&self) -> (r: usize)
        ensures
            r == self@.len(),
    {
        self.items.len()
    }
}

impl<T> Clone for TypeList<T> {
    fn clone(&self) -> (r: Self)
        ensures
            r@ == self@,
    {
        TypeList { items: self.items.clone(), tag: std::marker::PhantomData }
    }
}

impl<T> Default for TypeList<T> {
    fn default() -> (r: Self)
        ensures
            r@ == Seq::<ValType>::empty(),
    {
        TypeList::new()
    }
}

} // verus!
