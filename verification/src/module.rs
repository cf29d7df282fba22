//! The module data model: import and export symbol tables decoded from a
//! WebAssembly binary, and the query primitives the heuristics are built on.
//!
//! A buffer is decoded by `wasmparser` behind a trusted wrapper; everything
//! downstream of the decoded tables is verified.

use vstd::prelude::*;

use crate::text::{contains_seq, str_contains, str_eq};

verus! {

/// One imported symbol: the namespace it is declared under and its local name.
/// The import's kind (function, memory, table, global) is irrelevant to
/// classification and is not kept.
pub struct Import {
    pub namespace: String,
    pub name: String,
}

/// One exported symbol. As with imports, only the name matters.
pub struct Export {
    pub name: String,
}

/// Mathematical model of an import: both fields as character sequences.
pub struct ImportView {
    pub namespace: Seq<char>,
    pub name: Seq<char>,
}

/// Mathematical model of an export.
pub struct ExportView {
    pub name: Seq<char>,
}

impl View for Import {
    type V = ImportView;

    open spec fn view(&self) -> ImportView {
        ImportView { namespace: self.namespace@, name: self.name@ }
    }
}

impl View for Export {
    type V = ExportView;

    open spec fn view(&self) -> ExportView {
        ExportView { name: self.name@ }
    }
}

/// A parsed module: its import and export tables, in order of appearance.
/// Duplicates are permitted and kept; a module is never mutated after
/// construction.
pub struct WasmModule {
    pub imports: Vec<Import>,
    pub exports: Vec<Export>,
}

/// Mathematical model of a parsed module.
pub struct ModuleView {
    pub imports: Seq<ImportView>,
    pub exports: Seq<ExportView>,
}

impl View for WasmModule {
    type V = ModuleView;

    open spec fn view(&self) -> ModuleView {
        ModuleView {
            imports: self.imports@.map_values(|i: Import| i@),
            exports: self.exports@.map_values(|e: Export| e@),
        }
    }
}

/// Why a buffer could not be parsed: the container framing itself was
/// malformed, or an individual import/export entry could not be decoded.
/// Either way the whole parse fails; no partial module is returned.
#[derive(Clone, Copy, PartialEq, Eq, Debug, Structural)]
pub enum ParseError {
    Format,
    EntryDecode,
}

/// The import and export tables that decoding a given buffer yields, or
/// `None` when the buffer is not a well-formed module. Decoding is a function
/// of the buffer's bytes alone; what it yields is fixed by the WebAssembly
/// binary format and is not restated here.
pub uninterp spec fn wasm_symbol_tables(buf: Seq<u8>) -> Option<
    (Seq<(Seq<char>, Seq<char>)>, Seq<Seq<char>>),
>;

/// The views of a decoded import table: (namespace, name) pairs.
pub open spec fn import_pairs_view(v: Seq<(String, String)>) -> Seq<(Seq<char>, Seq<char>)> {
    v.map_values(|p: (String, String)| (p.0@, p.1@))
}

/// The views of a decoded export table: the exported names.
pub open spec fn export_names_view(v: Seq<String>) -> Seq<Seq<char>> {
    v.map_values(|s: String| s@)
}

/// The module that a pair of decoded symbol tables describes.
pub open spec fn module_view_of(t: (Seq<(Seq<char>, Seq<char>)>, Seq<Seq<char>>)) -> ModuleView {
    ModuleView {
        imports: t.0.map_values(|p: (Seq<char>, Seq<char>)| ImportView { namespace: p.0, name: p.1 }),
        exports: t.1.map_values(|n: Seq<char>| ExportView { name: n }),
    }
}

/// Relies on wasmparser's `Parser::parse_all`, `ImportSectionReader` and
/// `ExportSectionReader`: streaming the section payloads of a module and
/// decoding every import-table entry into its (module, name) pair and every
/// export-table entry into its name, in order of appearance, skipping all
/// other section kinds. A malformed payload or entry fails the whole parse.
#[verifier::external_body]
fn decode_symbol_tables(buf: &Vec<u8>) -> (r: Result<
    (Vec<(String, String)>, Vec<String>),
    ParseError,
>)
    ensures
        r matches Ok(t) ==> wasm_symbol_tables(buf@) == Some(
            (import_pairs_view(t.0@), export_names_view(t.1@)),
        ),
        r is Ok <==> wasm_symbol_tables(buf@) is Some,
{
    let (mut im, mut ex) = (Vec::new(), Vec::new());
    for p in wasmparser::Parser::new(0).parse_all(buf) {
        match p.map_err(|_| ParseError::Format)? {
            wasmparser::Payload::ImportSection(s) => for i in s.into_imports() {
                let i = i.map_err(|_| ParseError::EntryDecode)?;
                im.push((i.module.to_string(), i.name.to_string()));
            },
            wasmparser::Payload::ExportSection(s) => for e in s {
                ex.push(e.map_err(|_| ParseError::EntryDecode)?.name.to_string());
            },
            _ => {}
        }
    }
    Ok((im, ex))
}

/// Decode a buffer into a module, or fail when the buffer is not a
/// well-formed instance of the container format. Malformed sections other
/// than the import and export tables are skipped, not rejected; a malformed
/// entry inside either table fails the whole parse.
pub fn parse_wasm(buf: &Vec<u8>) -> (r: Result<WasmModule, ParseError>)
    ensures
        r matches Ok(m) ==> wasm_symbol_tables(buf@) matches Some(t) && m@ == module_view_of(t),
        r is Ok <==> wasm_symbol_tables(buf@) is Some,
{
    let (pairs, names) = match decode_symbol_tables(buf) {
        Ok(t) => t,
        Err(e) => {
            return Err(e);
        },
    };
    let ghost tables = wasm_symbol_tables(buf@)->Some_0;
    let mut imports: Vec<Import> = Vec::new();
    let mut k: usize = 0;
    while k < pairs.len()
        invariant
            imports@.len() == k <= pairs@.len(),
            tables.0 == import_pairs_view(pairs@),
            forall|j: int|
                0 <= j < k ==> imports@[j]@ == (ImportView {
                    namespace: pairs@[j].0@,
                    name: pairs@[j].1@,
                }),
        decreases pairs@.len() - k,
    {
        let p = &pairs[k];
        imports.push(Import { namespace: p.0.clone(), name: p.1.clone() });
        k += 1;
    }
    let mut exports: Vec<Export> = Vec::new();
    let mut k: usize = 0;
    while k < names.len()
        invariant
            exports@.len() == k <= names@.len(),
            tables.1 == export_names_view(names@),
            forall|j: int| 0 <= j < k ==> exports@[j]@ == (ExportView { name: names@[j]@ }),
        decreases names@.len() - k,
    {
        exports.push(Export { name: names[k].clone() });
        k += 1;
    }
    let m = WasmModule { imports, exports };
    proof {
        assert(m@.imports =~= module_view_of(tables).imports);
        assert(m@.exports =~= module_view_of(tables).exports);
    }
    Ok(m)
}

impl WasmModule {
    /// Does any import satisfy the predicate `f`? Evaluates imports in stored
    /// order and stops at the first match. The ghost predicate `p` is the
    /// specification-level meaning of `f` over an import's view.
    pub fn any_imports_match<F: Fn(&Import) -> bool>(
        &self,
        f: F,
        Ghost(p): Ghost<spec_fn(ImportView) -> bool>,
    ) -> (r: bool)
        requires
            forall|i: &Import| #[trigger] call_requires(f, (i,)),
            forall|i: &Import, b: bool| #[trigger] call_ensures(f, (i,), b) ==> b == p(i@),
        ensures
            r == exists|k: int| 0 <= k < self@.imports.len() && p(#[trigger] self@.imports[k]),
    {
        let mut k: usize = 0;
        while k < self.imports.len()
            invariant
                k <= self@.imports.len(),
                self@.imports.len() == self.imports@.len(),
                forall|i: &Import| #[trigger] call_requires(f, (i,)),
                forall|i: &Import, b: bool| #[trigger] call_ensures(f, (i,), b) ==> b == p(i@),
                forall|j: int| 0 <= j < k ==> !p(#[trigger] self@.imports[j]),
            decreases self.imports@.len() - k,
        {
            if f(&self.imports[k]) {
                proof {
                    assert(p(self@.imports[k as int]));
                }
                return true;
            }
            k += 1;
        }
        false
    }

    /// Does any export satisfy the predicate `f`? Symmetric to
    /// `any_imports_match`.
    pub fn any_exports_match<F: Fn(&Export) -> bool>(
        &self,
        f: F,
        Ghost(p): Ghost<spec_fn(ExportView) -> bool>,
    ) -> (r: bool)
        requires
            forall|e: &Export| #[trigger] call_requires(f, (e,)),
            forall|e: &Export, b: bool| #[trigger] call_ensures(f, (e,), b) ==> b == p(e@),
        ensures
            r == exists|k: int| 0 <= k < self@.exports.len() && p(#[trigger] self@.exports[k]),
    {
        let mut k: usize = 0;
        while k < self.exports.len()
            invariant
                k <= self@.exports.len(),
                self@.exports.len() == self.exports@.len(),
                forall|e: &Export| #[trigger] call_requires(f, (e,)),
                forall|e: &Export, b: bool| #[trigger] call_ensures(f, (e,), b) ==> b == p(e@),
                forall|j: int| 0 <= j < k ==> !p(#[trigger] self@.exports[j]),
            decreases self.exports@.len() - k,
        {
            if f(&self.exports[k]) {
                proof {
                    assert(p(self@.exports[k as int]));
                }
                return true;
            }
            k += 1;
        }
        false
    }

    /// Does any import's local name contain `pat` as a substring?
    pub fn any_import_name_contains(&self, pat: &str) -> (r: bool)
        ensures
            r == exists|k: int|
                0 <= k < self@.imports.len() && contains_seq(#[trigger] self@.imports[k].name, pat@),
    {
        let f = |i: &Import| -> (b: bool)
            ensures
                b == contains_seq(i@.name, pat@),
            {
                str_contains(i.name.as_str(), pat)
            };
        self.any_imports_match(f, Ghost(|iv: ImportView| contains_seq(iv.name, pat@)))
    }

    /// Does any import declare namespace `ns` (exact match)?
    pub fn any_import_namespace_is(&self, ns: &str) -> (r: bool)
        ensures
            r == exists|k: int|
                0 <= k < self@.imports.len() && (#[trigger] self@.imports[k].namespace) == ns@,
    {
        let f = |i: &Import| -> (b: bool)
            ensures
                b == (i@.namespace == ns@),
            {
                str_eq(i.namespace.as_str(), ns)
            };
        self.any_imports_match(f, Ghost(|iv: ImportView| iv.namespace == ns@))
    }

    /// Does any import have exactly this namespace and this local name?
    pub fn any_import_is(&self, ns: &str, name: &str) -> (r: bool)
        ensures
            r == exists|k: int|
                0 <= k < self@.imports.len() && (#[trigger] self@.imports[k].namespace) == ns@
                    && self@.imports[k].name == name@,
    {
        let f = |i: &Import| -> (b: bool)
            ensures
                b == (i@.namespace == ns@ && i@.name == name@),
            {
                str_eq(i.namespace.as_str(), ns) && str_eq(i.name.as_str(), name)
            };
        self.any_imports_match(f, Ghost(|iv: ImportView| iv.namespace == ns@ && iv.name == name@))
    }

    /// Does any export's name contain `pat` as a substring?
    pub fn any_export_name_contains(&self, pat: &str) -> (r: bool)
        ensures
            r == exists|k: int|
                0 <= k < self@.exports.len() && contains_seq(#[trigger] self@.exports[k].name, pat@),
    {
        let f = |e: &Export| -> (b: bool)
            ensures
                b == contains_seq(e@.name, pat@),
            {
                str_contains(e.name.as_str(), pat)
            };
        self.any_exports_match(f, Ghost(|ev: ExportView| contains_seq(ev.name, pat@)))
    }

    /// Does any export have exactly this name?
    pub fn any_export_name_is(&self, name: &str) -> (r: bool)
        ensures
            r == exists|k: int|
                0 <= k < self@.exports.len() && (#[trigger] self@.exports[k].name) == name@,
    {
        let f = |e: &Export| -> (b: bool)
            ensures
                b == (e@.name == name@),
            {
                str_eq(e.name.as_str(), name)
            };
        self.any_exports_match(f, Ghost(|ev: ExportView| ev.name == name@))
    }
}

} // verus!
