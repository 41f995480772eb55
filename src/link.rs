use crate::index::FunctionIndex;
use crate::module::{next_function_index, ImportView, Module, TypeDefView};
use crate::types::ValType;
use vstd::prelude::*;

verus! {

/// The module name under which the Extism host exports its functions.
pub const EXTISM_HOST_MODULE: &'static str = "extism:host/env";

/// The indices of the Extism host functions that [`Module::link_extism`]
/// imports.
#[derive(Debug, Clone, Copy)]
pub struct ExtismFunctions {
    pub input_load_u8: FunctionIndex,
    pub input_load_u64: FunctionIndex,
    pub input_length: FunctionIndex,
    pub length: FunctionIndex,
    pub length_unsafe: FunctionIndex,
    pub alloc: FunctionIndex,
    pub free: FunctionIndex,
    pub output_set: FunctionIndex,
    pub error_set: FunctionIndex,
    pub config_get: FunctionIndex,
    pub var_get: FunctionIndex,
    pub var_set: FunctionIndex,
    pub store_u8: FunctionIndex,
    pub load_u8: FunctionIndex,
    pub store_u64: FunctionIndex,
    pub load_u64: FunctionIndex,
    pub http_request: FunctionIndex,
    pub http_status_code: FunctionIndex,
    pub log_info: FunctionIndex,
    pub log_debug: FunctionIndex,
    pub log_warn: FunctionIndex,
    pub log_error: FunctionIndex,
}

/// The entry names and signatures that [`Module::link_extism`] imports, in
/// order.
pub open spec fn extism_entries() -> Seq<(Seq<char>, Seq<ValType>, Seq<ValType>)> {
    seq![
        ("input_load_u8"@, seq![ValType::I64], seq![ValType::I32]),
        ("input_load_u64"@, seq![ValType::I64], seq![ValType::I64]),
        ("input_length"@, seq![], seq![ValType::I64]),
        ("length"@, seq![ValType::I64], seq![ValType::I64]),
        ("length_unsafe"@, seq![ValType::I64], seq![ValType::I64]),
        ("alloc"@, seq![ValType::I64], seq![ValType::I64]),
        ("free"@, seq![ValType::I64], seq![]),
        ("output_set"@, seq![ValType::I64, ValType::I64], seq![]),
        ("error_set"@, seq![ValType::I64], seq![]),
        ("config_get"@, seq![ValType::I64], seq![ValType::I64]),
        ("var_get"@, seq![ValType::I64], seq![ValType::I64]),
        ("var_set"@, seq![ValType::I64, ValType::I64], seq![]),
        ("store_u8"@, seq![ValType::I64, ValType::I32], seq![]),
        ("load_u8"@, seq![ValType::I64], seq![ValType::I32]),
        ("store_u64"@, seq![ValType::I64, ValType::I64], seq![]),
        ("load_u64"@, seq![ValType::I64], seq![ValType::I64]),
        ("http_request"@, seq![ValType::I64, ValType::I64], seq![ValType::I64]),
        ("http_status_code"@, seq![], seq![ValType::I32]),
        ("log_info"@, seq![ValType::I64], seq![]),
        ("log_debug"@, seq![ValType::I64], seq![]),
        ("log_warn"@, seq![ValType::I64], seq![]),
        ("log_error"@, seq![ValType::I64], seq![]),
    ]
}

/// The imports that [`Module::link_extism`] adds to a module whose type
/// section had `first_type` entries and that had handed out `first_handle`
/// function handles.
pub open spec fn extism_imports(first_type: int, first_handle: int) -> Seq<ImportView> {
    Seq::new(
        extism_entries().len(),
        |k: int|
            ImportView {
                module: EXTISM_HOST_MODULE@,
                name: extism_entries()[k].0,
                display_name: extism_entries()[k].0,
                type_index: (first_type + k) as u32,
                decl: (first_handle + k) as u32,
            },
    )
}

/// The signatures that [`Module::link_extism`] adds to the type section.
pub open spec fn extism_types() -> Seq<TypeDefView> {
    Seq::new(
        extism_entries().len(),
        |k: int| TypeDefView::Func { params: extism_entries()[k].1, results: extism_entries()[k].2 },
    )
}

/// The entry name and signature of the `k`-th Extism host import.
fn extism_entry(k: usize) -> (r: (&'static str, Vec<ValType>, Vec<ValType>))
    requires
        k < 22,
    ensures
        (r.0@, r.1@, r.2@) == extism_entries()[k as int],
{
    match k {
        0 => ("input_load_u8", vec![ValType::I64], vec![ValType::I32]),
        1 => ("input_load_u64", vec![ValType::I64], vec![ValType::I64]),
        2 => ("input_length", vec![], vec![ValType::I64]),
        3 => ("length", vec![ValType::I64], vec![ValType::I64]),
        4 => ("length_unsafe", vec![ValType::I64], vec![ValType::I64]),
        5 => ("alloc", vec![ValType::I64], vec![ValType::I64]),
        6 => ("free", vec![ValType::I64], vec![]),
        7 => ("output_set", vec![ValType::I64, ValType::I64], vec![]),
        8 => ("error_set", vec![ValType::I64], vec![]),
        9 => ("config_get", vec![ValType::I64], vec![ValType::I64]),
        10 => ("var_get", vec![ValType::I64], vec![ValType::I64]),
        11 => ("var_set", vec![ValType::I64, ValType::I64], vec![]),
        12 => ("store_u8", vec![ValType::I64, ValType::I32], vec![]),
        13 => ("load_u8", vec![ValType::I64], vec![ValType::I32]),
        14 => ("store_u64", vec![ValType::I64, ValType::I64], vec![]),
        15 => ("load_u64", vec![ValType::I64], vec![ValType::I64]),
        16 => ("http_request", vec![ValType::I64, ValType::I64], vec![ValType::I64]),
        17 => ("http_status_code", vec![], vec![ValType::I32]),
        18 => ("log_info", vec![ValType::I64], vec![]),
        19 => ("log_debug", vec![ValType::I64], vec![]),
        20 => ("log_warn", vec![ValType::I64], vec![]),
        _ => ("log_error", vec![ValType::I64], vec![]),
    }
}

impl Module {
    /// Imports every function of the Extism host, and returns their indices.
    pub fn link_extism(&mut self) -> (r: ExtismFunctions)
        requires
            old(self).types@.len() + 22 <= u32::MAX,
            next_function_index(*old(self)) + 22 <= u32::MAX,
        ensures
            final(self).imports_view() == old(self).imports_view() + extism_imports(
                old(self).types@.len() as int,
                next_function_index(*old(self)),
            ),
            final(self).types_view() == old(self).types_view() + extism_types(),
            r.input_load_u8.0 == next_function_index(*old(self)) + 0,
            r.input_load_u64.0 == next_function_index(*old(self)) + 1,
            r.input_length.0 == next_function_index(*old(self)) + 2,
            r.length.0 == next_function_index(*old(self)) + 3,
            r.length_unsafe.0 == next_function_index(*old(self)) + 4,
            r.alloc.0 == next_function_index(*old(self)) + 5,
            r.free.0 == next_function_index(*old(self)) + 6,
            r.output_set.0 == next_function_index(*old(self)) + 7,
            r.error_set.0 == next_function_index(*old(self)) + 8,
            r.config_get.0 == next_function_index(*old(self)) + 9,
            r.var_get.0 == next_function_index(*old(self)) + 10,
            r.var_set.0 == next_function_index(*old(self)) + 11,
            r.store_u8.0 == next_function_index(*old(self)) + 12,
            r.load_u8.0 == next_function_index(*old(self)) + 13,
            r.store_u64.0 == next_function_index(*old(self)) + 14,
            r.load_u64.0 == next_function_index(*old(self)) + 15,
            r.http_request.0 == next_function_index(*old(self)) + 16,
            r.http_status_code.0 == next_function_index(*old(self)) + 17,
            r.log_info.0 == next_function_index(*old(self)) + 18,
            r.log_debug.0 == next_function_index(*old(self)) + 19,
            r.log_warn.0 == next_function_index(*old(self)) + 20,
            r.log_error.0 == next_function_index(*old(self)) + 21,
            *final(self) == (Module {
                types: final(self).types,
                imports: final(self).imports,
                ..*old(self)
            }),
    {
        let ghost t0 = old(self).types@.len() as int;
        let ghost i0 = old(self).imports@.len() as int;
        let ghost h0 = next_function_index(*old(self));
        let mut idx: Vec<FunctionIndex> = Vec::new();
        let mut k: usize = 0;
        while k < 22
            invariant
                k <= 22,
                extism_entries().len() == 22,
                self.defs@.len() == old(self).defs@.len(),
                self.types@.len() == t0 + k,
                self.imports@.len() == i0 + k,
                t0 + 22 <= u32::MAX,
                h0 == i0 + old(self).defs@.len(),
                h0 + 22 <= u32::MAX,
                self.imports_view() == old(self).imports_view() + extism_imports(t0, h0).take(k as int),
                self.types_view() =~~= old(self).types_view() + extism_types().take(k as int),
                idx@.len() == k,
                forall|j: int| 0 <= j < k ==> #[trigger] idx@[j].0 == h0 + j,
                *self == (Module { types: self.types, imports: self.imports, ..*old(self) }),
            decreases 22 - k,
        {
            let (name, params, results) = extism_entry(k);
            let f = self.import(EXTISM_HOST_MODULE, name, None, params, results);
            idx.push(f);
            assert(extism_imports(t0, h0).take(k + 1) == extism_imports(t0, h0).take(k as int).push(
                extism_imports(t0, h0)[k as int],
            ));
            assert(extism_types().take(k + 1) == extism_types().take(k as int).push(
                extism_types()[k as int],
            ));
            k = k + 1;
        }
        assert(extism_imports(t0, h0).take(22) == extism_imports(t0, h0));
        assert(extism_types().take(22) == extism_types());
        ExtismFunctions {
            input_load_u8: idx[0],
            input_load_u64: idx[1],
            input_length: idx[2],
            length: idx[3],
            length_unsafe: idx[4],
            alloc: idx[5],
            free: idx[6],
            output_set: idx[7],
            error_set: idx[8],
            config_get: idx[9],
            var_get: idx[10],
            var_set: idx[11],
            store_u8: idx[12],
            load_u8: idx[13],
            store_u64: idx[14],
            load_u64: idx[15],
            http_request: idx[16],
            http_status_code: idx[17],
            log_info: idx[18],
            log_debug: idx[19],
            log_warn: idx[20],
            log_error: idx[21],
        }
    }
}

} // verus!
