//! A module-syntax scanner for JavaScript/TypeScript sources.
//!
//! Given the syntax tree of one source file (modelled by the types in
//! [`ast`]) together with the source text as UTF-16 code units, the scanner
//! extracts every import- and export-introducing construct as a structured
//! record carrying exact UTF-16 code-unit offsets, classifies each import,
//! and derives two per-file facts: whether the file is a facade module and
//! whether it exhibits module syntax at all.

pub mod ast;
pub mod decl;
pub mod laws;
pub mod parser;
pub mod semantics;
pub mod text;
pub mod visitor;
