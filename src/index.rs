use vstd::prelude::*;

verus! {

/// An index into one namespace of a module; `T` is a tag that keeps
/// indices of different namespaces apart.
#[derive(Debug)]
pub struct Index<T>(pub u32, pub std::marker::PhantomData<T>);

impl<T> Clone for Index<T> {
    fn clone(&self) -> (r: Self)
        ensures
            r.0 == self.0,
    {
        Index(self.0, std::marker::PhantomData)
    }
}

impl<T> Copy for Index<T> {

}

impl<T> From<u32> for Index<T> {
    fn from(value: u32) -> (r: Index<T>)
        ensures
            r.0 == value,
    {
        Index(value, std::marker::PhantomData)
    }
}

impl<T> vstd::std_specs::convert::FromSpecImpl<u32> for Index<T> {
    open spec fn obeys_from_spec() -> bool {
        true
    }

    open spec fn from_spec(v: u32) -> Index<T> {
        Index(v, std::marker::PhantomData)
    }
}

impl<T> From<Index<T>> for u32 {
    fn from(value: Index<T>) -> (r: u32)
        ensures
            r == value.0,
    {
        value.0
    }
}

impl<T> vstd::std_specs::convert::FromSpecImpl<Index<T>> for u32 {
    open spec fn obeys_from_spec() -> bool {
        true
    }

    open spec fn from_spec(v: Index<T>) -> u32 {
        v.0
    }
}

impl<T> Index<T> {
    /// Wraps a raw index.
    pub fn new(value: u32) -> (r: Self)
        ensures
            r.0 == value,
    {
        Index(value, std::marker::PhantomData)
    }

    /// The raw index.
    pub fn index(&self) -> (r: u32)
        ensures
            r == self.0,
    {
        self.0
    }
}

/// Tag of the function namespace.
#[derive(Debug, Clone, Copy, PartialEq, Eq, PartialOrd, Ord)]
pub struct FunctionHandle;

/// Tag of the local-variable namespace.
#[derive(Debug, Clone, Copy, PartialEq, Eq, PartialOrd, Ord)]
pub struct LocalHandle;

/// Tag of the parameter namespace.
#[derive(Debug, Clone, Copy, PartialEq, Eq, PartialOrd, Ord)]
pub struct ParamHandle;

pub type FunctionIndex = Index<FunctionHandle>;

pub type Local = Index<LocalHandle>;

pub type Param = Index<ParamHandle>;

/// Tag of the global namespace.
#[derive(Debug, Clone, Copy, PartialEq, Eq, PartialOrd, Ord)]
pub struct GlobalHandle;

/// Tag of the memory namespace.
#[derive(Debug, Clone, Copy, PartialEq, Eq, PartialOrd, Ord)]
pub struct MemoryHandle;

/// Tag of the data-segment namespace.
#[derive(Debug, Clone, Copy, PartialEq, Eq, PartialOrd, Ord)]
pub struct DataSegmentHandle;

/// Tag of the type namespace, for function signatures.
#[derive(Debug, Clone, Copy, PartialEq, Eq, PartialOrd, Ord)]
pub struct FunctionTypeHandle;

/// Tag of the type namespace, for struct types.
#[derive(Debug, Clone, Copy, PartialEq, Eq, PartialOrd, Ord)]
pub struct StructTypeHandle;

/// Tag of the type namespace, for array types.
#[derive(Debug, Clone, Copy, PartialEq, Eq, PartialOrd, Ord)]
pub struct ArrayTypeHandle;

pub type GlobalIndex = Index<GlobalHandle>;

pub type MemoryIndex = Index<MemoryHandle>;

pub type DataSegmentIndex = Index<DataSegmentHandle>;

pub type FunctionTypeIndex = Index<FunctionTypeHandle>;

pub type StructTypeIndex = Index<StructTypeHandle>;

pub type ArrayTypeIndex = Index<ArrayTypeHandle>;

} // verus!
