use crate::builder::{Builder, Expr};
use crate::function::{opt_name, Function, FunctionView};
use crate::index::{
    ArrayTypeIndex, DataSegmentIndex, FunctionIndex, GlobalIndex, Index, LocalHandle,
    MemoryIndex, ParamHandle, StructTypeIndex,
};
use crate::instr::Instr;
use crate::type_list::TypeList;
use crate::types::{copy_types, ConstExpr, FieldType, MemoryType, StorageType, TableType, ValType};
use vstd::prelude::*;

verus! {

/// An entry of the type section.
#[derive(Debug, Clone)]
pub enum TypeDef {
    Func { params: Vec<ValType>, results: Vec<ValType> },
    Struct(Vec<FieldType>),
    Array(FieldType),
}

/// What a [`TypeDef`] holds, as mathematical values.
pub enum TypeDefView {
    Func { params: Seq<ValType>, results: Seq<ValType> },
    Struct(Seq<FieldType>),
    Array(FieldType),
}

impl View for TypeDef {
    type V = TypeDefView;

    open spec fn view(&self) -> TypeDefView {
        match self {
            TypeDef::Func { params, results } => TypeDefView::Func {
                params: params@,
                results: results@,
            },
            TypeDef::Struct(fields) => TypeDefView::Struct(fields@),
            TypeDef::Array(item) => TypeDefView::Array(*item),
        }
    }
}

/// The fields of a struct type.
#[derive(Debug, Clone)]
pub struct StructType {
    pub fields: Vec<FieldType>,
}

/// The element of an array type, with its mutability.
#[derive(Debug, Clone, Copy)]
pub struct ArrayType {
    pub item: StorageType,
    pub mutable: bool,
}

/// An imported function: where it comes from, its signature's type index,
/// the name that the names section gives it, and the handle that `import`
/// returned for it.
#[derive(Debug, Clone)]
pub struct Import {
    pub module: String,
    pub name: String,
    pub display_name: String,
    pub type_index: u32,
    pub decl: u32,
}

/// What an [`Import`] holds, as mathematical values.
pub struct ImportView {
    pub module: Seq<char>,
    pub name: Seq<char>,
    pub display_name: Seq<char>,
    pub type_index: u32,
    pub decl: u32,
}

impl View for Import {
    type V = ImportView;

    open spec fn view(&self) -> ImportView {
        ImportView {
            module: self.module@,
            name: self.name@,
            display_name: self.display_name@,
            type_index: self.type_index,
            decl: self.decl,
        }
    }
}

/// A global of the module, with the export name it may get.
#[derive(Debug, Clone)]
pub struct Global {
    pub name: String,
    pub ty: ValType,
    pub mutable: bool,
    pub shared: bool,
    pub init: ConstExpr,
    pub index: u32,
    pub export: Option<String>,
}

/// What a [`Global`] holds, as mathematical values.
pub struct GlobalView {
    pub name: Seq<char>,
    pub ty: ValType,
    pub mutable: bool,
    pub shared: bool,
    pub init: ConstExpr,
    pub index: u32,
    pub export: Option<Seq<char>>,
}

impl View for Global {
    type V = GlobalView;

    open spec fn view(&self) -> GlobalView {
        GlobalView {
            name: self.name@,
            ty: self.ty,
            mutable: self.mutable,
            shared: self.shared,
            init: self.init,
            index: self.index,
            export: opt_name(self.export),
        }
    }
}

impl Expr for Global {
    /// A read of the global.
    open spec fn expansion(&self) -> Seq<Instr> {
        seq![Instr::GlobalGet(self.index)]
    }

    fn expr(self, builder: &mut Builder) {
        builder.instrs.push(Instr::GlobalGet(self.index));
    }
}

impl Global {
    /// Exports the global under `name`, replacing any earlier export name.
    pub fn export(&mut self, name: &str) -> (r: &mut Self)
        ensures
            r@ == (GlobalView { export: Some(name@), ..old(self)@ }),
            *final(self) == *final(r),
    {
        self.export = Some(name.to_owned());
        self
    }

    /// The global's index.
    pub fn index(&self) -> (r: GlobalIndex)
        ensures
            r.0 == self.index,
    {
        Index::new(self.index)
    }

    /// The instruction that stores into the global.
    pub fn set(&self) -> (r: Instr)
        ensures
            r == Instr::GlobalSet(self.index),
    {
        Instr::GlobalSet(self.index)
    }
}

/// An active data segment of memory 0.
#[derive(Debug, Clone)]
pub struct DataSegment {
    pub offset: ConstExpr,
    pub data: Vec<u8>,
}

/// An element segment of function references; `table` is `Some` for an
/// active segment (placed at offset 0 of that table, or of table 0 where
/// it is `Some(None)`) and `None` for a passive one.
#[derive(Debug, Clone)]
pub struct ElementSegment {
    pub table: Option<Option<u32>>,
    pub functions: Vec<u32>,
}

/// The kind of an exported item.
#[derive(Debug, Clone, Copy, PartialEq, Eq, Structural)]
pub enum ExportKind {
    Func,
    Global,
}

/// An entry of the export section.
#[derive(Debug, Clone)]
pub struct Export {
    pub name: String,
    pub kind: ExportKind,
    pub index: u32,
}

/// What an [`Export`] holds, as mathematical values.
pub struct ExportView {
    pub name: Seq<char>,
    pub kind: ExportKind,
    pub index: u32,
}

impl View for Export {
    type V = ExportView;

    open spec fn view(&self) -> ExportView {
        ExportView { name: self.name@, kind: self.kind, index: self.index }
    }
}

/// The exports of the functions `defs`, in order: one for each function that
/// has an export name.
pub open spec fn func_exports(defs: Seq<FunctionView>) -> Seq<ExportView>
    decreases defs.len(),
{
    if defs.len() == 0 {
        Seq::empty()
    } else {
        let f = defs.last();
        func_exports(defs.drop_last()) + match f.export {
            Some(n) => seq![ExportView { name: n, kind: ExportKind::Func, index: f.index }],
            None => Seq::empty(),
        }
    }
}

/// The exports of the globals `globals`, in order: one for each global that
/// has an export name.
pub open spec fn global_exports(globals: Seq<GlobalView>) -> Seq<ExportView>
    decreases globals.len(),
{
    if globals.len() == 0 {
        Seq::empty()
    } else {
        let g = globals.last();
        global_exports(globals.drop_last()) + match g.export {
            Some(n) => seq![ExportView { name: n, kind: ExportKind::Global, index: g.index }],
            None => Seq::empty(),
        }
    }
}

/// The handle that the next function declared in `m`, imported or local,
/// gets.
pub open spec fn next_function_index(m: Module) -> int {
    (m.imports@.len() + m.defs@.len()) as int
}

/// Index-name pairs, with the names as character sequences.
pub open spec fn name_view(r: Seq<(u32, String)>) -> Seq<(u32, Seq<char>)> {
    r.map_values(|p: (u32, String)| (p.0, p.1@))
}

/// A module under construction.
#[derive(Debug, Clone)]
pub struct Module {
    pub types: Vec<TypeDef>,
    pub imports: Vec<Import>,
    pub defs: Vec<Function>,
    pub globals: Vec<Global>,
    pub memories: Vec<MemoryType>,
    pub tables: Vec<TableType>,
    pub elements: Vec<ElementSegment>,
    pub data: Vec<DataSegment>,
    pub start: Option<FunctionIndex>,
}

impl Module {
    /// Every function handle handed out, to an import or to a local
    /// function, is distinct and below the number of functions; every
    /// global's index is its position; and every count fits in a `u32`.
    pub open spec fn wf(&self) -> bool {
        &&& self.types@.len() <= u32::MAX
        &&& self.imports@.len() + self.defs@.len() <= u32::MAX
        &&& self.globals@.len() <= u32::MAX
        &&& self.memories@.len() <= u32::MAX
        &&& self.data@.len() <= u32::MAX
        &&& self.tables@.len() <= u32::MAX
        &&& self.elements@.len() <= u32::MAX
        &&& forall|k: int|
            0 <= k < self.defs@.len() ==> #[trigger] self.defs@[k].index < next_function_index(*self)
        &&& forall|i: int|
            0 <= i < self.imports@.len() ==> #[trigger] self.imports@[i].decl < next_function_index(
                *self,
            )
        &&& forall|k1: int, k2: int|
            0 <= k1 < k2 < self.defs@.len() ==> #[trigger] self.defs@[k1].index
                != #[trigger] self.defs@[k2].index
        &&& forall|i1: int, i2: int|
            0 <= i1 < i2 < self.imports@.len() ==> #[trigger] self.imports@[i1].decl
                != #[trigger] self.imports@[i2].decl
        &&& forall|i: int, k: int|
            0 <= i < self.imports@.len() && 0 <= k < self.defs@.len() ==> #[trigger] self.imports@[i].decl
                != #[trigger] self.defs@[k].index
        &&& forall|k: int| 0 <= k < self.globals@.len() ==> #[trigger] self.globals@[k].index == k
    }

    /// The type section's entries.
    pub open spec fn types_view(&self) -> Seq<TypeDefView> {
        self.types@.map_values(|t: TypeDef| t@)
    }

    /// The imports, in order.
    pub open spec fn imports_view(&self) -> Seq<ImportView> {
        self.imports@.map_values(|i: Import| i@)
    }

    /// The local functions, in order of declaration.
    pub open spec fn defs_view(&self) -> Seq<FunctionView> {
        self.defs@.map_values(|f: Function| f@)
    }

    /// The globals, in order of declaration.
    pub open spec fn globals_view(&self) -> Seq<GlobalView> {
        self.globals@.map_values(|g: Global| g@)
    }

    /// The export section: the functions' exports, then the globals'.
    pub open spec fn export_entries(&self) -> Seq<ExportView> {
        func_exports(self.defs_view()) + global_exports(self.globals_view())
    }

    /// The function names of the names section: each import's display name
    /// at its position, then each local function's name at its index, which
    /// follows every import.
    pub open spec fn function_name_entries(&self) -> Seq<(u32, Seq<char>)> {
        Seq::new(self.imports@.len(), |i: int| (i as u32, self.imports@[i].display_name@)) + Seq::new(
            self.defs@.len(),
            |k: int| ((self.imports@.len() + k) as u32, self.defs@[k].name@),
        )
    }

    /// The global names of the names section, in order of declaration.
    pub open spec fn global_name_entries(&self) -> Seq<(u32, Seq<char>)> {
        Seq::new(self.globals@.len(), |g: int| (self.globals@[g].index, self.globals@[g].name@))
    }

    /// The entries of the export section.
    pub fn exports(&self) -> (r: Vec<Export>)
        ensures
            r@.map_values(|e: Export| e@) == self.export_entries(),
    {
        let mut r: Vec<Export> = Vec::new();
        let mut i: usize = 0;
        while i < self.defs.len()
            invariant
                i <= self.defs@.len(),
                r@.map_values(|e: Export| e@) == func_exports(self.defs_view().take(i as int)),
            decreases self.defs@.len() - i,
        {
            let ghost before = r@.map_values(|e: Export| e@);
            let f = &self.defs[i];
            match &f.export {
                Some(n) => {
                    r.push(Export { name: n.clone(), kind: ExportKind::Func, index: f.index });
                },
                None => {},
            }
            assert(self.defs_view().take(i + 1).drop_last() == self.defs_view().take(i as int));
            assert(r@.map_values(|e: Export| e@) =~= before + match f@.export {
                Some(n) => seq![ExportView { name: n, kind: ExportKind::Func, index: f.index }],
                None => Seq::<ExportView>::empty(),
            });
            i = i + 1;
        }
        assert(self.defs_view().take(self.defs@.len() as int) == self.defs_view());
        let ghost fe = r@.map_values(|e: Export| e@);
        let mut j: usize = 0;
        while j < self.globals.len()
            invariant
                j <= self.globals@.len(),
                r@.map_values(|e: Export| e@) == fe + global_exports(self.globals_view().take(j as int)),
            decreases self.globals@.len() - j,
        {
            let ghost before = r@.map_values(|e: Export| e@);
            let g = &self.globals[j];
            match &g.export {
                Some(n) => {
                    r.push(Export { name: n.clone(), kind: ExportKind::Global, index: g.index });
                },
                None => {},
            }
            assert(self.globals_view().take(j + 1).drop_last() == self.globals_view().take(j as int));
            assert(r@.map_values(|e: Export| e@) =~= before + match g@.export {
                Some(n) => seq![ExportView { name: n, kind: ExportKind::Global, index: g.index }],
                None => Seq::<ExportView>::empty(),
            });
            j = j + 1;
        }
        assert(self.globals_view().take(self.globals@.len() as int) == self.globals_view());
        r
    }

    /// The function names of the names section.
    pub fn function_names(&self) -> (r: Vec<(u32, String)>)
        requires
            self.imports@.len() + self.defs@.len() <= u32::MAX,
        ensures
            name_view(r@) == self.function_name_entries(),
    {
        let mut r: Vec<(u32, String)> = Vec::new();
        let mut i: usize = 0;
        while i < self.imports.len()
            invariant
                i <= self.imports@.len(),
                self.imports@.len() + self.defs@.len() <= u32::MAX,
                r@.len() == i,
                forall|j: int|
                    0 <= j < i ==> #[trigger] r@[j].0 == j && r@[j].1@
                        == self.imports@[j].display_name@,
            decreases self.imports@.len() - i,
        {
            r.push((i as u32, self.imports[i].display_name.clone()));
            i = i + 1;
        }
        let mut k: usize = 0;
        while k < self.defs.len()
            invariant
                k <= self.defs@.len(),
                self.imports@.len() + self.defs@.len() <= u32::MAX,
                r@.len() == self.imports@.len() + k,
                forall|j: int|
                    0 <= j < self.imports@.len() ==> #[trigger] r@[j].0 == j && r@[j].1@
                        == self.imports@[j].display_name@,
                forall|j: int|
                    0 <= j < k ==> #[trigger] r@[self.imports@.len() + j].0 == (self.imports@.len()
                        + j) as u32 && r@[self.imports@.len() + j].1@ == self.defs@[j].name@,
            decreases self.defs@.len() - k,
        {
            r.push(((self.imports.len() + k) as u32, self.defs[k].name.clone()));
            k = k + 1;
        }
        assert(name_view(r@) =~= self.function_name_entries()) by {
            assert forall|j: int| 0 <= j < r@.len() implies name_view(r@)[j]
                == self.function_name_entries()[j] by {
                if j >= self.imports@.len() {
                    let d = j - self.imports@.len();
                    assert(r@[self.imports@.len() + d].0 == (self.imports@.len() + d) as u32);
                }
            }
        }
        r
    }

    /// The global names of the names section.
    pub fn global_names(&self) -> (r: Vec<(u32, String)>)
        ensures
            name_view(r@) == self.global_name_entries(),
    {
        let mut r: Vec<(u32, String)> = Vec::new();
        let mut g: usize = 0;
        while g < self.globals.len()
            invariant
                g <= self.globals@.len(),
                r@.len() == g,
                forall|j: int|
                    0 <= j < g ==> #[trigger] r@[j].0 == self.globals@[j].index && r@[j].1@
                        == self.globals@[j].name@,
            decreases self.globals@.len() - g,
        {
            r.push((self.globals[g].index, self.globals[g].name.clone()));
            g = g + 1;
        }
        assert(name_view(r@) =~= self.global_name_entries());
        r
    }

    /// An empty module.
    pub fn new() -> (r: Self)
        ensures
            r.wf(),
            r.types@.len() == 0,
            r.imports@.len() == 0,
            r.defs@.len() == 0,
            r.globals@.len() == 0,
            r.memories@.len() == 0,
            r.tables@.len() == 0,
            r.elements@.len() == 0,
            r.data@.len() == 0,
            r.start.is_none(),
    {
        Module {
            types: Vec::new(),
            imports: Vec::new(),
            defs: Vec::new(),
            globals: Vec::new(),
            memories: Vec::new(),
            tables: Vec::new(),
            elements: Vec::new(),
            data: Vec::new(),
            start: None,
        }
    }

    /// Adds a global named `name` with the initializer `init`, and returns
    /// it, to export it.
    pub fn global(
        &mut self,
        name: &str,
        ty: ValType,
        mutable: bool,
        shared: bool,
        init: ConstExpr,
    ) -> (r: &mut Global)
        requires
            old(self).globals@.len() < u32::MAX,
        ensures
            r@ == (GlobalView {
                name: name@,
                ty,
                mutable,
                shared,
                init,
                index: old(self).globals@.len() as u32,
                export: None,
            }),
            final(self).globals@ == old(self).globals@.push(*final(r)),
            final(self).types == old(self).types,
            final(self).imports == old(self).imports,
            final(self).defs == old(self).defs,
            final(self).memories == old(self).memories,
            final(self).tables == old(self).tables,
            final(self).elements == old(self).elements,
            final(self).data == old(self).data,
            final(self).start == old(self).start,
    {
        let index = self.globals.len() as u32;
        self.globals.push(
            Global { name: name.to_owned(), ty, mutable, shared, init, index, export: None },
        );
        let n = self.globals.len() - 1;
        &mut self.globals[n]
    }
    /// Imports the function `name` of `module` with the given signature, and
    /// returns its handle, which follows every function handle handed out
    /// before. The names section calls it `func_name`, or `name` where that
    /// is `None`. Imports come first in the finished function-index space,
    /// whatever the order of declaration: `finish` resolves each handle.
    pub fn import(
        &mut self,
        module: &str,
        name: &str,
        func_name: Option<&str>,
        params: Vec<ValType>,
        results: Vec<ValType>,
    ) -> (r: FunctionIndex)
        requires
            old(self).types@.len() < u32::MAX,
            next_function_index(*old(self)) < u32::MAX,
        ensures
            r.0 == next_function_index(*old(self)),
            final(self).types@.len() == old(self).types@.len() + 1,
            final(self).imports@.len() == old(self).imports@.len() + 1,
            final(self).types_view() == old(self).types_view().push(
                TypeDefView::Func { params: params@, results: results@ },
            ),
            final(self).imports_view() == old(self).imports_view().push(
                ImportView {
                    module: module@,
                    name: name@,
                    display_name: match func_name {
                        Some(n) => n@,
                        None => name@,
                    },
                    type_index: old(self).types@.len() as u32,
                    decl: next_function_index(*old(self)) as u32,
                },
            ),
            *final(self) == (Module {
                types: final(self).types,
                imports: final(self).imports,
                ..*old(self)
            }),
    {
        let type_index = self.types.len() as u32;
        let ghost sig = TypeDefView::Func { params: params@, results: results@ };
        self.types.push(TypeDef::Func { params, results });
        let display_name = match func_name {
            Some(n) => n.to_owned(),
            None => name.to_owned(),
        };
        let idx = (self.imports.len() + self.defs.len()) as u32;
        self.imports.push(
            Import {
                module: module.to_owned(),
                name: name.to_owned(),
                display_name,
                type_index,
                decl: idx,
            },
        );
        assert(self.types_view() =~= old(self).types_view().push(sig));
        assert(self.imports_view() =~= old(self).imports_view().push(self.imports@.last()@));
        Index::new(idx)
    }

    /// Makes `f` the start function.
    pub fn start(&mut self, f: FunctionIndex) -> (r: &mut Self)
        ensures
            *r == (Module { start: Some(f), ..*old(self) }),
            *final(self) == *final(r),
    {
        self.start = Some(f);
        self
    }

    /// Declares a local function, and returns it to compose its body. Its
    /// signature takes a new entry of the type section, and its handle
    /// follows every function handle handed out before; `finish` resolves
    /// it to the index after every import and every earlier local function.
    pub fn func(
        &mut self,
        name: &str,
        params: TypeList<ParamHandle>,
        results: Vec<ValType>,
        locals: TypeList<LocalHandle>,
    ) -> (r: &mut Function)
        requires
            old(self).types@.len() < u32::MAX,
            old(self).imports@.len() + old(self).defs@.len() < u32::MAX,
        ensures
            r@ == (FunctionView {
                name: name@,
                body: Seq::empty(),
                params: params@,
                results: results@,
                locals: locals@,
                type_index: old(self).types@.len() as u32,
                index: next_function_index(*old(self)) as u32,
                export: None,
            }),
            final(self).types_view() == old(self).types_view().push(
                TypeDefView::Func { params: params@, results: results@ },
            ),
            final(self).defs@ == old(self).defs@.push(*final(r)),
            *final(self) == (Module {
                types: final(self).types,
                defs: final(self).defs,
                ..*old(self)
            }),
    {
        let type_index = self.types.len() as u32;
        let param_types = params.items;
        self.types.push(
            TypeDef::Func { params: copy_types(&param_types), results: copy_types(&results) },
        );
        assert(self.types_view() =~= old(self).types_view().push(
            TypeDefView::Func { params: params@, results: results@ },
        ));
        let index = (self.imports.len() + self.defs.len()) as u32;
        let f = Function {
            name: name.to_owned(),
            body: Builder::new(Vec::new()),
            params: param_types,
            results,
            locals: locals.items,
            type_index: Index::new(type_index),
            index,
            export: None,
        };
        self.defs.push(f);
        let n = self.defs.len() - 1;
        &mut self.defs[n]
    }

    /// Adds a struct type to the type section, and returns its index.
    pub fn struct_type(&mut self, def: StructType) -> (r: StructTypeIndex)
        requires
            old(self).types@.len() < u32::MAX,
        ensures
            r.0 == old(self).types@.len(),
            final(self).types_view() == old(self).types_view().push(
                TypeDefView::Struct(def.fields@),
            ),
            *final(self) == (Module { types: final(self).types, ..*old(self) }),
    {
        let n = self.types.len() as u32;
        let ghost fields = def.fields@;
        self.types.push(TypeDef::Struct(def.fields));
        assert(self.types_view() =~= old(self).types_view().push(TypeDefView::Struct(fields)));
        Index::new(n)
    }

    /// Adds an array type to the type section, and returns its index.
    pub fn array_type(&mut self, def: &ArrayType) -> (r: ArrayTypeIndex)
        requires
            old(self).types@.len() < u32::MAX,
        ensures
            r.0 == old(self).types@.len(),
            final(self).types_view() == old(self).types_view().push(
                TypeDefView::Array(FieldType { element_type: def.item, mutable: def.mutable }),
            ),
            *final(self) == (Module { types: final(self).types, ..*old(self) }),
    {
        let n = self.types.len() as u32;
        self.types.push(TypeDef::Array(FieldType { element_type: def.item, mutable: def.mutable }));
        assert(self.types_view() =~= old(self).types_view().push(
            TypeDefView::Array(FieldType { element_type: def.item, mutable: def.mutable }),
        ));
        Index::new(n)
    }

    /// Adds a table, and returns its index.
    pub fn table(&mut self, ty: TableType) -> (r: u32)
        requires
            old(self).tables@.len() < u32::MAX,
        ensures
            r == old(self).tables@.len(),
            final(self).tables@ == old(self).tables@.push(ty),
            *final(self) == (Module { tables: final(self).tables, ..*old(self) }),
    {
        let n = self.tables.len() as u32;
        self.tables.push(ty);
        n
    }

    /// Adds an active element segment of `functions`, at offset 0 of table
    /// `table_index` (table 0 where it is `None`), and returns its position.
    pub fn active_element(&mut self, table_index: Option<u32>, functions: Vec<u32>) -> (r: u32)
        requires
            old(self).elements@.len() < u32::MAX,
        ensures
            r == old(self).elements@.len(),
            final(self).elements@.len() == old(self).elements@.len() + 1,
            final(self).elements@.drop_last() == old(self).elements@,
            final(self).elements@.last().table == Some(table_index),
            final(self).elements@.last().functions@ == functions@,
            *final(self) == (Module { elements: final(self).elements, ..*old(self) }),
    {
        let n = self.elements.len() as u32;
        self.elements.push(ElementSegment { table: Some(table_index), functions });
        assert(self.elements@.drop_last() == old(self).elements@);
        n
    }

    /// Adds a passive element segment of `functions`, and returns its
    /// position.
    pub fn passive_element(&mut self, functions: Vec<u32>) -> (r: u32)
        requires
            old(self).elements@.len() < u32::MAX,
        ensures
            r == old(self).elements@.len(),
            final(self).elements@.len() == old(self).elements@.len() + 1,
            final(self).elements@.drop_last() == old(self).elements@,
            final(self).elements@.last().table == None::<Option<u32>>,
            final(self).elements@.last().functions@ == functions@,
            *final(self) == (Module { elements: final(self).elements, ..*old(self) }),
    {
        let n = self.elements.len() as u32;
        self.elements.push(ElementSegment { table: None, functions });
        assert(self.elements@.drop_last() == old(self).elements@);
        n
    }

    /// Adds an element segment, and returns its position.
    pub fn element_segment(&mut self, seg: ElementSegment) -> (r: u32)
        requires
            old(self).elements@.len() < u32::MAX,
        ensures
            r == old(self).elements@.len(),
            final(self).elements@ == old(self).elements@.push(seg),
            *final(self) == (Module { elements: final(self).elements, ..*old(self) }),
    {
        let n = self.elements.len() as u32;
        self.elements.push(seg);
        n
    }

    /// Adds an active data segment of memory 0 holding `data` at `offset`,
    /// and returns its index.
    pub fn data_segment(&mut self, offset: ConstExpr, data: Vec<u8>) -> (r: DataSegmentIndex)
        requires
            old(self).data@.len() < u32::MAX,
        ensures
            r.0 == old(self).data@.len(),
            final(self).data@.len() == old(self).data@.len() + 1,
            final(self).data@.drop_last() == old(self).data@,
            final(self).data@.last().offset == offset,
            final(self).data@.last().data@ == data@,
            *final(self) == (Module { data: final(self).data, ..*old(self) }),
    {
        let n = self.data.len() as u32;
        self.data.push(DataSegment { offset, data });
        assert(self.data@.drop_last() == old(self).data@);
        Index::new(n)
    }

    /// Adds a memory, and returns its index.
    pub fn memory(&mut self, mt: MemoryType) -> (r: MemoryIndex)
        requires
            old(self).memories@.len() < u32::MAX,
        ensures
            r.0 == old(self).memories@.len(),
            final(self).memories@ == old(self).memories@.push(mt),
            *final(self) == (Module { memories: final(self).memories, ..*old(self) }),
    {
        let n = self.memories.len() as u32;
        self.memories.push(mt);
        Index::new(n)
    }
}

} // verus!
