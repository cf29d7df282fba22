use wasmlang::classify::{infer_language, Language};
use wasmlang::module::parse_wasm;

/// The 8-byte container header: magic plus version 1.
fn header() -> Vec<u8> {
    vec![0x00, 0x61, 0x73, 0x6d, 0x01, 0x00, 0x00, 0x00]
}

/// A module made of the given (section id, payload) pairs after the header.
/// Payloads here are all short enough for a single-byte size.
fn module_bytes(sections: &[(u8, Vec<u8>)]) -> Vec<u8> {
    let mut buf = header();
    for (id, payload) in sections {
        buf.push(*id);
        buf.push(payload.len() as u8);
        buf.extend_from_slice(payload);
    }
    buf
}

/// An import-section payload with one function import per (namespace, name).
fn import_section(entries: &[(&str, &str)]) -> Vec<u8> {
    let mut p = vec![entries.len() as u8];
    for (ns, name) in entries {
        p.push(ns.len() as u8);
        p.extend_from_slice(ns.as_bytes());
        p.push(name.len() as u8);
        p.extend_from_slice(name.as_bytes());
        p.push(0x00); // kind: function
        p.push(0x00); // type index 0
    }
    p
}

/// An export-section payload with one function export per name.
fn export_section(names: &[&str]) -> Vec<u8> {
    let mut p = vec![names.len() as u8];
    for name in names {
        p.push(name.len() as u8);
        p.extend_from_slice(name.as_bytes());
        p.push(0x00); // kind: function
        p.push(0x00); // function index 0
    }
    p
}

#[test]
fn parse_header_only_module() {
    let buf = header();
    let m = parse_wasm(&buf).unwrap();
    assert_eq!(m.imports.len(), 0);
    assert_eq!(m.exports.len(), 0);
    assert_eq!(infer_language(&buf), Ok(Language::Unknown));
}

#[test]
fn parse_import_section_entries() {
    let buf = module_bytes(&[(2, import_section(&[("env", "abort"), ("env", "trace")]))]);
    let m = parse_wasm(&buf).unwrap();
    assert_eq!(m.imports.len(), 2);
    assert_eq!(m.imports[0].namespace, "env");
    assert_eq!(m.imports[0].name, "abort");
    assert_eq!(m.imports[1].name, "trace");
    assert_eq!(m.exports.len(), 0);
    assert_eq!(infer_language(&buf), Ok(Language::AssemblyScript));
}

#[test]
fn parse_export_section_entries() {
    let buf = module_bytes(&[(7, export_section(&["malloc", "free"]))]);
    let m = parse_wasm(&buf).unwrap();
    assert_eq!(m.imports.len(), 0);
    assert_eq!(m.exports.len(), 2);
    assert_eq!(m.exports[0].name, "malloc");
    assert_eq!(m.exports[1].name, "free");
    assert_eq!(infer_language(&buf), Ok(Language::Emscripten));
}

#[test]
fn parse_skips_other_sections() {
    // A custom section (id 0, named "meta") stands between the header and the
    // export table; its payload is never interpreted.
    let custom = vec![4, b'm', b'e', b't', b'a', 1, 2, 3];
    let buf = module_bytes(&[(0, custom), (7, export_section(&["hyphenate"]))]);
    assert_eq!(infer_language(&buf), Ok(Language::AssemblyScript));
}

#[test]
fn parse_keeps_duplicates_and_both_tables() {
    let buf = module_bytes(&[
        (2, import_section(&[("a", "a"), ("a", "a"), ("a", "b")])),
        (7, export_section(&["x"])),
    ]);
    let m = parse_wasm(&buf).unwrap();
    assert_eq!(m.imports.len(), 3);
    assert_eq!(m.imports[0].name, "a");
    assert_eq!(m.imports[1].name, "a");
    assert_eq!(m.exports.len(), 1);
    assert_eq!(infer_language(&buf), Ok(Language::Emscripten));
}

#[test]
fn parse_truncated_header_fails() {
    let buf = vec![0x00, 0x61, 0x73, 0x6d, 0x01, 0x00];
    assert!(parse_wasm(&buf).is_err());
    assert!(infer_language(&buf).is_err());
}

#[test]
fn parse_bad_magic_fails() {
    let buf = b"notwasm!".to_vec();
    assert!(infer_language(&buf).is_err());
}

#[test]
fn parse_corrupt_import_entry_fails() {
    // An import section that declares one entry but ends mid-entry.
    let buf = module_bytes(&[(2, vec![1, 3])]);
    assert!(parse_wasm(&buf).is_err());
}

#[test]
fn parse_empty_buffer_fails() {
    let buf: Vec<u8> = vec![];
    assert!(parse_wasm(&buf).is_err());
}
