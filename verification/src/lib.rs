//! Classifies WebAssembly modules by probable originating toolchain.
//!
//! The library decodes a module's import and export symbol tables and runs an
//! ordered chain of structural heuristics over them, returning the first
//! matching toolchain category. A batch runner aggregates per-category counts
//! over a collection of modules, skipping buffers that fail to parse.

pub mod classify;
pub mod module;
pub mod run;
pub mod text;
