use crate::emit::{encodable, encode_instr, is_encodable};
use crate::encode::{
    add_active_element, add_array_type, add_code, add_data, add_export, add_func_import,
    add_func_type, add_function, add_global, add_memory, add_name, add_passive_element,
    add_struct_type, add_table, body_instrs, body_locals, code_bodies, data_entries,
    element_entries, export_entries_written, function_type_indices, global_entries,
    import_entries, memory_entries, module_bytes, module_contents, name_entries,
    name_subsections, new_body, put_code_section, put_data_section, put_element_section,
    put_export_section, put_function_section, put_global_section, put_import_section,
    put_memory_section, put_name_section, put_start_section, put_table_section,
    put_type_section, set_function_names, set_global_names, table_entries, type_entries,
    SectionView,
};
use crate::function::Function;
use crate::instr::Instr;
use crate::module::{
    name_view, next_function_index, DataSegment, ElementSegment, Export, ExportKind, ExportView,
    Global, Import, Module, TypeDef,
};
use crate::types::{ConstExpr, ValType};
use vstd::prelude::*;
use wasm_encoder::Module as WasmModule;

verus! {

#[verifier::external_type_specification]
#[verifier::external_body]
pub struct ExBinaryReaderError(wasmparser::BinaryReaderError);

/// Relies on `BinaryReaderError::message`: the error's description.
pub assume_specification[ wasmparser::BinaryReaderError::message ](
    e: &wasmparser::BinaryReaderError,
) -> &str;

/// Relies on `BinaryReaderError::offset`: where in the bytes the error lies.
pub assume_specification[ wasmparser::BinaryReaderError::offset ](
    e: &wasmparser::BinaryReaderError,
) -> u64;

/// Whether the validator, with every feature enabled, accepts `data` as a
/// module.
pub uninterp spec fn accepted_module(data: Seq<u8>) -> bool;

/// Relies on `Validator::validate_all`, with every feature enabled: `Ok`
/// where the validator accepts `data`, else the error it reports.
#[verifier::external_body]
fn validate_all(data: &[u8]) -> (r: Result<(), wasmparser::BinaryReaderError>)
    ensures
        r is Ok <==> accepted_module(data@),
{
    let mut v = wasmparser::Validator::new_with_features(wasmparser::WasmFeatures::all());
    v.validate_all(data).map(|_| ())
}

/// Why the validator refused a module: its message, and the offset in the
/// module's bytes where it stopped.
#[derive(Debug, Clone)]
pub struct ValidationError {
    pub message: String,
    pub offset: u64,
}

/// Checks that `data` is a well-formed module, with every feature of the
/// format enabled.
pub fn validate(data: &[u8]) -> (r: Result<(), ValidationError>)
    ensures
        r is Ok <==> accepted_module(data@),
{
    match validate_all(data) {
        Ok(()) => Ok(()),
        Err(e) => Err(ValidationError { message: e.message().to_owned(), offset: e.offset() }),
    }
}

/// The import section's entries for `imports`: module, name and type index.
pub open spec fn import_triples(imports: Seq<Import>) -> Seq<(Seq<char>, Seq<char>, u32)> {
    imports.map_values(|i: Import| (i.module@, i.name@, i.type_index))
}

/// The function section's entries for `defs`: each one's type index.
pub open spec fn type_indices(defs: Seq<Function>) -> Seq<u32> {
    defs.map_values(|f: Function| f.type_index.0)
}

/// Where an element segment goes: an active one at offset 0 of its table.
pub open spec fn element_placement(e: ElementSegment) -> Option<(Option<u32>, ConstExpr)> {
    match e.table {
        Some(t) => Some((t, ConstExpr::I32Const(0))),
        None => None,
    }
}

/// The data section's entries for `data`.
pub open spec fn data_rows(data: Seq<DataSegment>) -> Seq<(ConstExpr, Seq<u8>)> {
    data.map_values(|d: DataSegment| (d.offset, d.data@))
}

/// A name map holding `names`, in order.
fn name_map(names: &Vec<(u32, String)>) -> (r: wasm_encoder::NameMap)
    ensures
        name_entries(r) == name_view(names@),
{
    let mut m = wasm_encoder::NameMap::new();
    let mut i: usize = 0;
    while i < names.len()
        invariant
            i <= names@.len(),
            name_entries(m).len() == i,
            forall|j: int| 0 <= j < i ==> #[trigger] name_entries(m)[j] == (names@[j].0, names@[j].1@),
        decreases names@.len() - i,
    {
        add_name(&mut m, names[i].0, names[i].1.as_str());
        i = i + 1;
    }
    assert(name_entries(m) =~= name_view(names@));
    m
}

impl Module {
    /// The global section's entries, with function handles resolved.
    pub open spec fn global_rows(&self) -> Seq<(ValType, bool, bool, ConstExpr)> {
        self.globals@.map_values(|g: Global| (g.ty, g.mutable, g.shared, self.resolve_const(g.init)))
    }

    /// The functions of an element segment, with their handles resolved.
    pub open spec fn resolve_all(&self, ids: Seq<u32>) -> Seq<u32> {
        ids.map_values(|f: u32| self.resolve(f))
    }

    /// The element section's entries, with function handles resolved.
    pub open spec fn element_rows(&self) -> Seq<(Option<(Option<u32>, ConstExpr)>, Seq<u32>)> {
        self.elements@.map_values(
            |e: ElementSegment| (element_placement(e), self.resolve_all(e.functions@)),
        )
    }

    /// A body as it is written: its instructions and `end`, with function
    /// handles resolved.
    pub open spec fn code_of(&self, f: Function) -> Seq<Instr> {
        f.body@.push(Instr::End).map_values(|i: Instr| self.resolve_instr(i))
    }

    /// The code section's entries: each local function's locals and code.
    pub open spec fn code_rows(&self) -> Seq<(Seq<ValType>, Seq<Instr>)> {
        self.defs@.map_values(|f: Function| (f.locals@, self.code_of(f)))
    }

    /// The export section's entries, with function handles resolved.
    pub open spec fn resolved_exports(&self) -> Seq<ExportView> {
        self.export_entries().map_values(
            |e: ExportView|
                ExportView {
                    name: e.name,
                    kind: e.kind,
                    index: if e.kind == ExportKind::Func {
                        self.resolve(e.index)
                    } else {
                        e.index
                    },
                },
        )
    }

    /// Whether the encoder can write every instruction of every body.
    pub open spec fn encodable(&self) -> bool {
        forall|k: int, j: int|
            0 <= k < self.defs@.len() && 0 <= j < self.defs@[k].body@.len() ==> encodable(
                #[trigger] self.defs@[k].body@[j],
            )
    }

    /// The sections of the finished module, in the order that the format
    /// requires: types, imports, functions, tables, memories, globals,
    /// exports, start (only where there is a start function), elements,
    /// code, data, and the name section, with every function handle
    /// resolved to its index in the finished module with the function names
    /// (subsection 1) and the global names (subsection 7).
    pub open spec fn sections(&self) -> Seq<SectionView> {
        seq![
            SectionView::Types(self.types_view()),
            SectionView::Imports(import_triples(self.imports@)),
            SectionView::Functions(type_indices(self.defs@)),
            SectionView::Tables(self.tables@),
            SectionView::Memories(self.memories@),
            SectionView::Globals(self.global_rows()),
            SectionView::Exports(self.resolved_exports()),
        ] + match self.start {
            Some(f) => seq![SectionView::Start(self.resolve(f.0))],
            None => Seq::empty(),
        } + seq![
            SectionView::Elements(self.element_rows()),
            SectionView::Code(self.code_rows()),
            SectionView::Data(data_rows(self.data@)),
            SectionView::Names(
                seq![(1u8, self.function_name_entries()), (7u8, self.global_name_entries())],
            ),
        ]
    }

    /// Whether the encoder can write every instruction of every body.
    pub fn is_encodable(&self) -> (r: bool)
        ensures
            r == self.encodable(),
    {
        let mut k: usize = 0;
        while k < self.defs.len()
            invariant
                k <= self.defs@.len(),
                forall|k2: int, j: int|
                    0 <= k2 < k && 0 <= j < self.defs@[k2].body@.len() ==> encodable(
                        #[trigger] self.defs@[k2].body@[j],
                    ),
            decreases self.defs@.len() - k,
        {
            let body = &self.defs[k].body.instrs;
            let mut j: usize = 0;
            while j < body.len()
                invariant
                    k < self.defs@.len(),
                    body@ == self.defs@[k as int].body@,
                    j <= body@.len(),
                    forall|k2: int, j2: int|
                        0 <= k2 < k && 0 <= j2 < self.defs@[k2].body@.len() ==> encodable(
                            #[trigger] self.defs@[k2].body@[j2],
                        ),
                    forall|j2: int| 0 <= j2 < j ==> encodable(#[trigger] body@[j2]),
                decreases body@.len() - j,
            {
                if !is_encodable(body[j]) {
                    return false;
                }
                j = j + 1;
            }
            k = k + 1;
        }
        true
    }

    /// The type section.
    fn type_section(&self) -> (r: wasm_encoder::TypeSection)
        ensures
            type_entries(r) == self.types_view(),
    {
        let mut s = wasm_encoder::TypeSection::new();
        let mut i: usize = 0;
        while i < self.types.len()
            invariant
                i <= self.types@.len(),
                type_entries(s).len() == i,
                forall|j: int| 0 <= j < i ==> #[trigger] type_entries(s)[j] == self.types@[j]@,
            decreases self.types@.len() - i,
        {
            match &self.types[i] {
                TypeDef::Func { params, results } => add_func_type(&mut s, params, results),
                TypeDef::Struct(fields) => add_struct_type(&mut s, fields),
                TypeDef::Array(item) => add_array_type(&mut s, *item),
            }
            i = i + 1;
        }
        assert(type_entries(s) =~= self.types_view());
        s
    }

    /// The import section: each import, in order.
    fn import_section(&self) -> (r: wasm_encoder::ImportSection)
        ensures
            import_entries(r) == import_triples(self.imports@),
    {
        let mut s = wasm_encoder::ImportSection::new();
        let mut i: usize = 0;
        while i < self.imports.len()
            invariant
                i <= self.imports@.len(),
                import_entries(s).len() == i,
                forall|j: int|
                    0 <= j < i ==> #[trigger] import_entries(s)[j] == (
                        self.imports@[j].module@,
                        self.imports@[j].name@,
                        self.imports@[j].type_index,
                    ),
            decreases self.imports@.len() - i,
        {
            let imp = &self.imports[i];
            add_func_import(&mut s, imp.module.as_str(), imp.name.as_str(), imp.type_index);
            i = i + 1;
        }
        assert(import_entries(s) =~= import_triples(self.imports@));
        s
    }

    /// The function section: each local function's type index, in order.
    fn function_section(&self) -> (r: wasm_encoder::FunctionSection)
        ensures
            function_type_indices(r) == type_indices(self.defs@),
    {
        let mut s = wasm_encoder::FunctionSection::new();
        let mut i: usize = 0;
        while i < self.defs.len()
            invariant
                i <= self.defs@.len(),
                function_type_indices(s).len() == i,
                forall|j: int|
                    0 <= j < i ==> #[trigger] function_type_indices(s)[j]
                        == self.defs@[j].type_index.0,
            decreases self.defs@.len() - i,
        {
            add_function(&mut s, self.defs[i].type_index.0);
            i = i + 1;
        }
        assert(function_type_indices(s) =~= type_indices(self.defs@));
        s
    }

    /// The table section.
    fn table_section(&self) -> (r: wasm_encoder::TableSection)
        ensures
            table_entries(r) == self.tables@,
    {
        let mut s = wasm_encoder::TableSection::new();
        let mut i: usize = 0;
        while i < self.tables.len()
            invariant
                i <= self.tables@.len(),
                table_entries(s) == self.tables@.take(i as int),
            decreases self.tables@.len() - i,
        {
            add_table(&mut s, self.tables[i]);
            assert(self.tables@.take(i + 1) == self.tables@.take(i as int).push(self.tables@[i as int]));
            i = i + 1;
        }
        assert(self.tables@.take(self.tables@.len() as int) == self.tables@);
        s
    }

    /// The memory section.
    fn memory_section(&self) -> (r: wasm_encoder::MemorySection)
        ensures
            memory_entries(r) == self.memories@,
    {
        let mut s = wasm_encoder::MemorySection::new();
        let mut i: usize = 0;
        while i < self.memories.len()
            invariant
                i <= self.memories@.len(),
                memory_entries(s) == self.memories@.take(i as int),
            decreases self.memories@.len() - i,
        {
            add_memory(&mut s, self.memories[i]);
            assert(self.memories@.take(i + 1) == self.memories@.take(i as int).push(
                self.memories@[i as int],
            ));
            i = i + 1;
        }
        assert(self.memories@.take(self.memories@.len() as int) == self.memories@);
        s
    }

    /// The global section.
    fn global_section(&self) -> (r: wasm_encoder::GlobalSection)
        requires
            next_function_index(*self) <= u32::MAX,
        ensures
            global_entries(r) == self.global_rows(),
    {
        let mut s = wasm_encoder::GlobalSection::new();
        let mut i: usize = 0;
        while i < self.globals.len()
            invariant
                i <= self.globals@.len(),
                next_function_index(*self) <= u32::MAX,
                global_entries(s).len() == i,
                forall|j: int|
                    0 <= j < i ==> #[trigger] global_entries(s)[j] == (
                        self.globals@[j].ty,
                        self.globals@[j].mutable,
                        self.globals@[j].shared,
                        self.resolve_const(self.globals@[j].init),
                    ),
            decreases self.globals@.len() - i,
        {
            let g = &self.globals[i];
            add_global(&mut s, g.ty, g.mutable, g.shared, self.resolve_const_expr(g.init));
            i = i + 1;
        }
        assert(global_entries(s) =~= self.global_rows());
        s
    }

    /// The export section: the entries of `exports`, in order.
    fn export_section(&self) -> (r: wasm_encoder::ExportSection)
        requires
            next_function_index(*self) <= u32::MAX,
        ensures
            export_entries_written(r) == self.resolved_exports(),
    {
        let exports = self.exports();
        let mut s = wasm_encoder::ExportSection::new();
        let mut i: usize = 0;
        while i < exports.len()
            invariant
                i <= exports@.len(),
                next_function_index(*self) <= u32::MAX,
                exports@.map_values(|e: Export| e@) == self.export_entries(),
                export_entries_written(s).len() == i,
                forall|j: int|
                    0 <= j < i ==> #[trigger] export_entries_written(s)[j]
                        == self.resolved_exports()[j],
            decreases exports@.len() - i,
        {
            let e = &exports[i];
            let index = match e.kind {
                ExportKind::Func => self.resolve_index(e.index),
                ExportKind::Global => e.index,
            };
            assert(self.export_entries()[i as int] == e@);
            add_export(&mut s, e.name.as_str(), e.kind, index);
            i = i + 1;
        }
        assert(export_entries_written(s) =~= self.resolved_exports());
        s
    }

    /// `ids` with each function handle resolved.
    fn resolve_indices(&self, ids: &Vec<u32>) -> (r: Vec<u32>)
        requires
            next_function_index(*self) <= u32::MAX,
        ensures
            r@ == self.resolve_all(ids@),
    {
        let mut r: Vec<u32> = Vec::new();
        let mut i: usize = 0;
        while i < ids.len()
            invariant
                i <= ids@.len(),
                next_function_index(*self) <= u32::MAX,
                r@.len() == i,
                forall|j: int| 0 <= j < i ==> #[trigger] r@[j] == self.resolve(ids@[j]),
            decreases ids@.len() - i,
        {
            r.push(self.resolve_index(ids[i]));
            i = i + 1;
        }
        assert(r@ =~= self.resolve_all(ids@));
        r
    }

    /// The element section.
    fn element_section(&self) -> (r: wasm_encoder::ElementSection)
        requires
            next_function_index(*self) <= u32::MAX,
        ensures
            element_entries(r) == self.element_rows(),
    {
        let mut s = wasm_encoder::ElementSection::new();
        let mut i: usize = 0;
        while i < self.elements.len()
            invariant
                i <= self.elements@.len(),
                next_function_index(*self) <= u32::MAX,
                element_entries(s).len() == i,
                forall|j: int|
                    0 <= j < i ==> #[trigger] element_entries(s)[j] == (
                        element_placement(self.elements@[j]),
                        self.resolve_all(self.elements@[j].functions@),
                    ),
            decreases self.elements@.len() - i,
        {
            let seg = &self.elements[i];
            let functions = self.resolve_indices(&seg.functions);
            match seg.table {
                Some(table) => add_active_element(&mut s, table, ConstExpr::I32Const(0), &functions),
                None => add_passive_element(&mut s, &functions),
            }
            i = i + 1;
        }
        assert(element_entries(s) =~= self.element_rows());
        s
    }

    /// The code section: each local function's locals, and its body followed
    /// by `end`, in order.
    fn code_section(&self) -> (r: wasm_encoder::CodeSection)
        requires
            self.encodable(),
            next_function_index(*self) <= u32::MAX,
        ensures
            code_bodies(r) == self.code_rows(),
    {
        let mut code = wasm_encoder::CodeSection::new();
        let mut i: usize = 0;
        while i < self.defs.len()
            invariant
                i <= self.defs@.len(),
                self.encodable(),
                next_function_index(*self) <= u32::MAX,
                code_bodies(code).len() == i,
                forall|j: int|
                    0 <= j < i ==> #[trigger] code_bodies(code)[j] == (
                        self.defs@[j].locals@,
                        self.code_of(self.defs@[j]),
                    ),
            decreases self.defs@.len() - i,
        {
            let def = &self.defs[i];
            let mut body = new_body(&def.locals);
            let instrs = def.code();
            let mut k: usize = 0;
            while k < instrs.len()
                invariant
                    k <= instrs@.len(),
                    instrs@ == def.body@.push(Instr::End),
                    forall|j: int| 0 <= j < def.body@.len() ==> encodable(#[trigger] def.body@[j]),
                    next_function_index(*self) <= u32::MAX,
                    body_locals(body) == def.locals@,
                    body_instrs(body) == instrs@.take(k as int).map_values(
                        |x: Instr| self.resolve_instr(x),
                    ),
                decreases instrs@.len() - k,
            {
                assert(encodable(instrs@[k as int]));
                let x = self.resolve_instruction(instrs[k]);
                encode_instr(&mut body, x);
                assert(instrs@.take(k + 1).map_values(|y: Instr| self.resolve_instr(y))
                    =~= instrs@.take(k as int).map_values(|y: Instr| self.resolve_instr(y)).push(x));
                k = k + 1;
            }
            assert(instrs@.take(instrs@.len() as int) == instrs@);
            assert(body_instrs(body) == self.code_of(*def));
            add_code(&mut code, &body);
            i = i + 1;
        }
        assert(code_bodies(code) =~= self.code_rows());
        code
    }

    /// The data section.
    fn data_section(&self) -> (r: wasm_encoder::DataSection)
        ensures
            data_entries(r) == data_rows(self.data@),
    {
        let mut s = wasm_encoder::DataSection::new();
        let mut i: usize = 0;
        while i < self.data.len()
            invariant
                i <= self.data@.len(),
                data_entries(s).len() == i,
                forall|j: int|
                    0 <= j < i ==> #[trigger] data_entries(s)[j] == (
                        self.data@[j].offset,
                        self.data@[j].data@,
                    ),
            decreases self.data@.len() - i,
        {
            let seg = &self.data[i];
            add_data(&mut s, seg.offset, &seg.data);
            i = i + 1;
        }
        assert(data_entries(s) =~= data_rows(self.data@));
        s
    }

    /// The name section: the function names, then the global names.
    fn name_section(&self) -> (r: wasm_encoder::NameSection)
        requires
            next_function_index(*self) <= u32::MAX,
        ensures
            name_subsections(r) == seq![
                (1u8, self.function_name_entries()),
                (7u8, self.global_name_entries()),
            ],
    {
        let function_names = name_map(&self.function_names());
        let global_names = name_map(&self.global_names());
        let mut names = wasm_encoder::NameSection::new();
        set_function_names(&mut names, &function_names);
        set_global_names(&mut names, &global_names);
        assert(name_subsections(names) =~= seq![
            (1u8, self.function_name_entries()),
            (7u8, self.global_name_entries()),
        ]);
        names
    }

    /// Writes every section into an encoder module, in order.
    fn assemble(&self) -> (r: WasmModule)
        requires
            next_function_index(*self) <= u32::MAX,
            self.encodable(),
        ensures
            module_contents(r) == self.sections(),
    {
        let mut module = WasmModule::new();
        put_type_section(&mut module, &self.type_section());
        put_import_section(&mut module, &self.import_section());
        put_function_section(&mut module, &self.function_section());
        put_table_section(&mut module, &self.table_section());
        put_memory_section(&mut module, &self.memory_section());
        put_global_section(&mut module, &self.global_section());
        put_export_section(&mut module, &self.export_section());
        match self.start {
            Some(f) => put_start_section(&mut module, self.resolve_index(f.0)),
            None => {},
        }
        put_element_section(&mut module, &self.element_section());
        put_code_section(&mut module, &self.code_section());
        put_data_section(&mut module, &self.data_section());
        put_name_section(&mut module, &self.name_section());
        assert(module_contents(module) =~= self.sections());
        module
    }

    /// Serializes the module: the bytes of a module holding
    /// [`Module::sections`], in order.
    pub fn finish(self) -> (r: Vec<u8>)
        requires
            next_function_index(self) <= u32::MAX,
            self.encodable(),
        ensures
            r@ == module_bytes(self.sections()),
    {
        self.assemble().finish()
    }

    /// Serializes the module, then checks the result with the validator: the
    /// bytes where it accepts them, else its error.
    pub fn validate(self) -> (r: Result<Vec<u8>, ValidationError>)
        requires
            next_function_index(self) <= u32::MAX,
            self.encodable(),
        ensures
            r is Ok <==> accepted_module(module_bytes(self.sections())),
            r matches Ok(bytes) ==> bytes@ == module_bytes(self.sections()),
    {
        let ghost expected = module_bytes(self.sections());
        let bytes = self.finish();
        match validate(bytes.as_slice()) {
            Ok(()) => Ok(bytes),
            Err(e) => Err(e),
        }
    }
}

} // verus!
