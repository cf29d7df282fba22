//! The ordered heuristic classifier: maps a module's symbol tables to the
//! probable originating toolchain.
//!
//! Rules are evaluated in a fixed priority order with first-match-wins
//! semantics. The order is load-bearing: a module frequently satisfies more
//! than one rule's surface pattern, and the order encodes which signal is the
//! strongest evidence. `classify_spec` is the canonical statement of both the
//! rules and their order; every executable predicate and the classifier
//! itself are proved against it.

use vstd::prelude::*;

use crate::module::{module_view_of, parse_wasm, wasm_symbol_tables, ModuleView, ParseError,
    WasmModule};
use crate::text::contains_seq;

verus! {

/// The closed set of toolchain categories a module can be labelled with.
/// `LikelyCompressed` marks structural evidence of minification without a
/// toolchain-specific signal; no current rule produces it, but it is part of
/// the category vocabulary. `Unknown` is the fallback when no rule matches.
#[derive(Clone, Copy, PartialEq, Eq, Hash, Debug, Structural)]
pub enum Language {
    Rust,
    Emscripten,
    AssemblyScript,
    Blazor,
    Go,
    LikelyCompressed,
    Unknown,
}

/// Rule 1 (Emscripten, strong): some import's local name contains
/// `"emscripten"`.
pub open spec fn is_emscripten_spec(m: ModuleView) -> bool {
    exists|k: int| 0 <= k < m.imports.len() && contains_seq(#[trigger] m.imports[k].name, "emscripten"@)
}

/// Rule 2 (Blazor): some import's local name contains `"mono"`.
pub open spec fn is_blazor_spec(m: ModuleView) -> bool {
    exists|k: int| 0 <= k < m.imports.len() && contains_seq(#[trigger] m.imports[k].name, "mono"@)
}

/// Rule 3 (Rust): some import's local name contains `"wbindgen"` or `"wbg"`,
/// or is declared under namespace `"wbg"` or `"wbindgen"`, or some export's
/// name contains `"wbindgen"`.
pub open spec fn is_rust_spec(m: ModuleView) -> bool {
    (exists|k: int|
        0 <= k < m.imports.len() && {
            let i = #[trigger] m.imports[k];
            contains_seq(i.name, "wbindgen"@) || contains_seq(i.name, "wbg"@) || i.namespace
                == "wbg"@ || i.namespace == "wbindgen"@
        }) || (exists|k: int|
        0 <= k < m.exports.len() && contains_seq(#[trigger] m.exports[k].name, "wbindgen"@))
}

/// Rule 4 (Go): some import is declared under namespace `"go"`, or some
/// import's local name contains `"go"`, or some export's name contains
/// `"go_scheduler"`. The substring test is deliberately broad and can match
/// unrelated tokens such as `"gopher"`; that imprecision is part of the
/// heuristic, not an accident.
pub open spec fn is_go_spec(m: ModuleView) -> bool {
    (exists|k: int|
        0 <= k < m.imports.len() && {
            let i = #[trigger] m.imports[k];
            i.namespace == "go"@ || contains_seq(i.name, "go"@)
        }) || (exists|k: int|
        0 <= k < m.exports.len() && contains_seq(#[trigger] m.exports[k].name, "go_scheduler"@))
}

/// Rule 5 (AssemblyScript): an `("env", "abort")` import, or an export named
/// exactly `"hyphenate"` (the signature of one widely deployed
/// AssemblyScript library; a narrow, corpus-specific signal).
pub open spec fn is_assemblyscript_spec(m: ModuleView) -> bool {
    (exists|k: int|
        0 <= k < m.imports.len() && {
            let i = #[trigger] m.imports[k];
            i.namespace == "env"@ && i.name == "abort"@
        }) || (exists|k: int| 0 <= k < m.exports.len() && (#[trigger] m.exports[k].name) == "hyphenate"@)
}

/// Helper for rule 6: an import with exactly this namespace and name.
pub open spec fn has_import_spec(m: ModuleView, ns: Seq<char>, name: Seq<char>) -> bool {
    exists|k: int|
        0 <= k < m.imports.len() && {
            let i = #[trigger] m.imports[k];
            i.namespace == ns && i.name == name
        }
}

/// Rule 6 (Emscripten, likely): structural fingerprints of the Emscripten
/// memory-management ABI that survive minification — the paired single-letter
/// imports `("a","a")` with `("a","b")` or `("env","a")` with `("env","b")`,
/// an export named exactly `"malloc"`, or an `("env", "__memory_base")`
/// import.
pub open spec fn is_likely_emscripten_spec(m: ModuleView) -> bool {
    (has_import_spec(m, "a"@, "a"@) && has_import_spec(m, "a"@, "b"@)) || (has_import_spec(
        m,
        "env"@,
        "a"@,
    ) && has_import_spec(m, "env"@, "b"@)) || (exists|k: int|
        0 <= k < m.exports.len() && (#[trigger] m.exports[k].name) == "malloc"@)
        || has_import_spec(m, "env"@, "__memory_base"@)
}

/// The whole rule chain: the category of the first rule that matches, in
/// priority order, falling through to `Unknown`.
pub open spec fn classify_spec(m: ModuleView) -> Language {
    if is_emscripten_spec(m) {
        Language::Emscripten
    } else if is_blazor_spec(m) {
        Language::Blazor
    } else if is_rust_spec(m) {
        Language::Rust
    } else if is_go_spec(m) {
        Language::Go
    } else if is_assemblyscript_spec(m) {
        Language::AssemblyScript
    } else if is_likely_emscripten_spec(m) {
        Language::Emscripten
    } else {
        Language::Unknown
    }
}

/// Rule 1, executable.
pub fn is_emscripten(m: &WasmModule) -> (r: bool)
    ensures
        r == is_emscripten_spec(m@),
{
    m.any_import_name_contains("emscripten")
}

/// Rule 2, executable.
pub fn is_blazor(m: &WasmModule) -> (r: bool)
    ensures
        r == is_blazor_spec(m@),
{
    m.any_import_name_contains("mono")
}

/// Rule 3, executable.
pub fn is_rust(m: &WasmModule) -> (r: bool)
    ensures
        r == is_rust_spec(m@),
{
    m.any_import_name_contains("wbindgen") || m.any_import_name_contains("wbg")
        || m.any_import_namespace_is("wbg") || m.any_import_namespace_is("wbindgen")
        || m.any_export_name_contains("wbindgen")
}

/// Rule 4, executable.
pub fn is_go(m: &WasmModule) -> (r: bool)
    ensures
        r == is_go_spec(m@),
{
    m.any_import_namespace_is("go") || m.any_import_name_contains("go")
        || m.any_export_name_contains("go_scheduler")
}

/// Rule 5, executable.
pub fn is_assemblyscript(m: &WasmModule) -> (r: bool)
    ensures
        r == is_assemblyscript_spec(m@),
{
    m.any_import_is("env", "abort") || m.any_export_name_is("hyphenate")
}

/// Rule 6, executable.
pub fn is_likely_emscripten(m: &WasmModule) -> (r: bool)
    ensures
        r == is_likely_emscripten_spec(m@),
{
    (m.any_import_is("a", "a") && m.any_import_is("a", "b")) || (m.any_import_is("env", "a")
        && m.any_import_is("env", "b")) || m.any_export_name_is("malloc") || m.any_import_is(
        "env",
        "__memory_base",
    )
}

/// Classify a parsed module. Total: every module, including one with empty
/// symbol tables, receives exactly one category, and the result is exactly
/// what the rule chain `classify_spec` assigns.
pub fn classify(m: &WasmModule) -> (r: Language)
    ensures
        r == classify_spec(m@),
{
    if is_emscripten(m) {
        Language::Emscripten
    } else if is_blazor(m) {
        Language::Blazor
    } else if is_rust(m) {
        Language::Rust
    } else if is_go(m) {
        Language::Go
    } else if is_assemblyscript(m) {
        Language::AssemblyScript
    } else if is_likely_emscripten(m) {
        Language::Emscripten
    } else {
        Language::Unknown
    }
}

/// Parse a buffer and classify the resulting module. A buffer that is not a
/// well-formed module is an error, never a classification.
pub fn infer_language(buf: &Vec<u8>) -> (r: Result<Language, ParseError>)
    ensures
        r matches Ok(lang) ==> wasm_symbol_tables(buf@) matches Some(t) && lang == classify_spec(
            module_view_of(t),
        ),
        r is Ok <==> wasm_symbol_tables(buf@) is Some,
{
    match parse_wasm(buf) {
        Ok(m) => Ok(classify(&m)),
        Err(e) => Err(e),
    }
}

/// Priority law: the strong Emscripten signal outranks the Rust signal. A
/// module whose imports satisfy both rule 1 and rule 3 is classified as
/// `Emscripten`, not `Rust`.
pub proof fn lemma_priority_emscripten_over_rust(m: ModuleView)
    requires
        is_emscripten_spec(m),
        is_rust_spec(m),
    ensures
        classify_spec(m) == Language::Emscripten,
{
}

/// Fallback law: a module matches no rule if and only if it is classified as
/// `Unknown`. In particular a module with empty symbol tables is `Unknown`.
pub proof fn lemma_fallback_unknown(m: ModuleView)
    ensures
        classify_spec(m) == Language::Unknown <==> (!is_emscripten_spec(m) && !is_blazor_spec(m)
            && !is_rust_spec(m) && !is_go_spec(m) && !is_assemblyscript_spec(m)
            && !is_likely_emscripten_spec(m)),
{
}

} // verus!
