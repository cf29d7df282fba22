use wasmlang::classify::{classify, is_assemblyscript, is_emscripten, is_go, is_likely_emscripten,
    is_rust, Language};
use wasmlang::module::{Export, Import, WasmModule};

fn imp(namespace: &str, name: &str) -> Import {
    Import { namespace: namespace.to_string(), name: name.to_string() }
}

fn exp(name: &str) -> Export {
    Export { name: name.to_string() }
}

fn module(imports: Vec<Import>, exports: Vec<Export>) -> WasmModule {
    WasmModule { imports, exports }
}

#[test]
fn empty_module_is_unknown() {
    let m = module(vec![], vec![]);
    assert_eq!(classify(&m), Language::Unknown);
}

#[test]
fn fallback_unknown() {
    let m = module(vec![imp("x", "y")], vec![]);
    assert_eq!(classify(&m), Language::Unknown);
}

#[test]
fn emscripten_strong_signal() {
    let m = module(vec![imp("env", "emscripten_notify_memory_growth")], vec![]);
    assert!(is_emscripten(&m));
    assert_eq!(classify(&m), Language::Emscripten);
}

#[test]
fn priority_emscripten_over_rust() {
    let m = module(vec![imp("wbg", "emscripten_asm_const_int")], vec![]);
    assert!(is_emscripten(&m));
    assert!(is_rust(&m));
    assert_eq!(classify(&m), Language::Emscripten);
}

#[test]
fn likely_emscripten_fingerprint() {
    let m = module(vec![imp("a", "a"), imp("a", "b")], vec![]);
    assert!(!is_emscripten(&m)); // not the strong signal: the secondary rule decides
    assert!(is_likely_emscripten(&m));
    assert_eq!(classify(&m), Language::Emscripten);
}

#[test]
fn likely_emscripten_env_pair() {
    let m = module(vec![imp("env", "a"), imp("env", "b")], vec![]);
    assert_eq!(classify(&m), Language::Emscripten);
}

#[test]
fn likely_emscripten_needs_both_of_pair() {
    let m = module(vec![imp("a", "a")], vec![]);
    assert!(!is_likely_emscripten(&m));
    assert_eq!(classify(&m), Language::Unknown);
}

#[test]
fn likely_emscripten_malloc_export() {
    let m = module(vec![], vec![exp("malloc")]);
    assert_eq!(classify(&m), Language::Emscripten);
}

#[test]
fn likely_emscripten_memory_base() {
    let m = module(vec![imp("env", "__memory_base")], vec![]);
    assert_eq!(classify(&m), Language::Emscripten);
}

#[test]
fn go_substring_gopher() {
    let m = module(vec![imp("env", "gopher")], vec![]);
    assert!(is_go(&m));
    assert_eq!(classify(&m), Language::Go);
}

#[test]
fn go_namespace() {
    let m = module(vec![imp("go", "runtime.wasmExit")], vec![]);
    assert_eq!(classify(&m), Language::Go);
}

#[test]
fn go_scheduler_export() {
    let m = module(vec![], vec![exp("go_scheduler_resume")]);
    assert_eq!(classify(&m), Language::Go);
}

#[test]
fn rust_wbg_namespace() {
    let m = module(vec![imp("wbg", "__wbg_alert")], vec![]);
    assert_eq!(classify(&m), Language::Rust);
}

#[test]
fn rust_wbindgen_namespace() {
    let m = module(vec![imp("wbindgen", "throw")], vec![]);
    assert_eq!(classify(&m), Language::Rust);
}

#[test]
fn rust_wbindgen_import_name() {
    let m = module(vec![imp("env", "__wbindgen_placeholder")], vec![]);
    assert_eq!(classify(&m), Language::Rust);
}

#[test]
fn rust_wbindgen_export_name() {
    let m = module(vec![], vec![exp("__wbindgen_malloc")]);
    assert!(is_rust(&m));
    assert_eq!(classify(&m), Language::Rust);
}

#[test]
fn blazor_mono_import() {
    let m = module(vec![imp("env", "mono_wasm_invoke_method")], vec![]);
    assert_eq!(classify(&m), Language::Blazor);
}

#[test]
fn priority_blazor_over_rust() {
    let m = module(vec![imp("env", "mono_wbindgen_bridge")], vec![]);
    assert_eq!(classify(&m), Language::Blazor);
}

#[test]
fn assemblyscript_env_abort() {
    let m = module(vec![imp("env", "abort")], vec![]);
    assert!(is_assemblyscript(&m));
    assert_eq!(classify(&m), Language::AssemblyScript);
}

#[test]
fn assemblyscript_hyphenate_export() {
    let m = module(vec![], vec![exp("hyphenate")]);
    assert_eq!(classify(&m), Language::AssemblyScript);
}

#[test]
fn hyphenate_must_be_exact() {
    let m = module(vec![], vec![exp("hyphenated")]);
    assert!(!is_assemblyscript(&m));
    assert_eq!(classify(&m), Language::Unknown);
}

#[test]
fn priority_go_over_assemblyscript() {
    let m = module(vec![imp("env", "abort"), imp("env", "gopher")], vec![]);
    assert_eq!(classify(&m), Language::Go);
}

#[test]
fn priority_assemblyscript_over_likely_emscripten() {
    let m = module(vec![imp("env", "abort")], vec![exp("malloc")]);
    assert_eq!(classify(&m), Language::AssemblyScript);
}

#[test]
fn facade_queries() {
    let m = module(vec![imp("env", "gopher"), imp("wbg", "x")], vec![exp("malloc")]);
    assert!(m.any_import_name_contains("pher"));
    assert!(!m.any_import_name_contains("mono"));
    assert!(m.any_import_namespace_is("wbg"));
    assert!(!m.any_import_namespace_is("wb"));
    assert!(m.any_import_is("env", "gopher"));
    assert!(!m.any_import_is("env", "x"));
    assert!(m.any_export_name_is("malloc"));
    assert!(!m.any_export_name_is("mallo"));
    assert!(m.any_export_name_contains("alloc"));
    assert!(!m.any_export_name_contains("allocx"));
}
