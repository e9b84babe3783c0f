//! The result model: one record per import- or export-introducing
//! construct, and the per-file result.
//!
//! All offsets are UTF-16 code-unit positions from the start of the source
//! text. The sentinel `-1` marks an absent offset; in the `d` field, `-2`
//! marks an `import.meta` record.

use vstd::prelude::*;

verus! {

/// Classification of an import record.
///
/// Only `Static`, `Dynamic` and `ImportMeta` are ever produced by the
/// scanner: the syntax-tree model does not carry phase modifiers, so
/// source-phase and defer-phase imports are not classified; the variants
/// exist so the record shape can express them.
#[derive(Debug, Clone, Copy, PartialEq, Eq)]
pub enum ImportKind {
    Static,
    Dynamic,
    ImportMeta,
    StaticSourcePhase,
    DynamicSourcePhase,
    StaticDeferPhase,
    DynamicDeferPhase,
}

/// One import record.
#[derive(Debug, Clone, PartialEq, Eq)]
pub struct ImportSpecifier {
    /// Module specifier, absent for a non-literal dynamic import argument
    /// and for `import.meta`.
    pub n: Option<String>,
    /// Start of the specifier text (quotes excluded for static imports,
    /// included for dynamic ones).
    pub s: i32,
    /// End of the specifier text.
    pub e: i32,
    /// Start of the whole import construct.
    pub ss: i32,
    /// End of the whole import construct, trimmed backward past trailing
    /// whitespace and semicolons.
    pub se: i32,
    /// `-1` for a static import, `-2` for `import.meta`, else the offset of
    /// the `(` of a dynamic import call.
    pub d: i32,
    /// Offset of the import-attributes object, or `-1`.
    pub a: i32,
    /// Classification tag.
    pub kind: ImportKind,
}

/// One export record.
#[derive(Debug, Clone, PartialEq, Eq)]
pub struct ExportSpecifier {
    /// The name visible to importers.
    pub n: String,
    /// The original/local name, absent when no local binding exists.
    pub ln: Option<String>,
    /// Span of the exported name.
    pub s: i32,
    pub e: i32,
    /// Span of the local name, `-1`/`-1` when not applicable.
    pub ls: i32,
    pub le: i32,
}

/// Mathematical view of an import record.
pub ghost struct ImportRecView {
    pub n: Option<Seq<char>>,
    pub s: int,
    pub e: int,
    pub ss: int,
    pub se: int,
    pub d: int,
    pub a: int,
    pub kind: ImportKind,
}

/// Mathematical view of an export record.
pub ghost struct ExportRecView {
    pub n: Seq<char>,
    pub ln: Option<Seq<char>>,
    pub s: int,
    pub e: int,
    pub ls: int,
    pub le: int,
}

impl View for ImportSpecifier {
    type V = ImportRecView;

    open spec fn view(&self) -> ImportRecView {
        ImportRecView {
            n: match self.n {
                Some(name) => Some(name@),
                None => None,
            },
            s: self.s as int,
            e: self.e as int,
            ss: self.ss as int,
            se: self.se as int,
            d: self.d as int,
            a: self.a as int,
            kind: self.kind,
        }
    }
}

impl DeepView for ImportSpecifier {
    type V = ImportRecView;

    open spec fn deep_view(&self) -> ImportRecView {
        self.view()
    }
}

impl View for ExportSpecifier {
    type V = ExportRecView;

    open spec fn view(&self) -> ExportRecView {
        ExportRecView {
            n: self.n@,
            ln: match self.ln {
                Some(name) => Some(name@),
                None => None,
            },
            s: self.s as int,
            e: self.e as int,
            ls: self.ls as int,
            le: self.le as int,
        }
    }
}

impl DeepView for ExportSpecifier {
    type V = ExportRecView;

    open spec fn deep_view(&self) -> ExportRecView {
        self.view()
    }
}

/// One file to scan: its path (for dialect selection and error reporting)
/// and its source text.
#[derive(Debug, Clone)]
pub struct ParseOptions {
    pub filename: String,
    pub code: String,
}

/// The per-file result: record sequences in traversal (source) order plus
/// the two derived facts.
#[derive(Debug)]
pub struct ParseResult {
    pub filename: String,
    pub imports: Vec<ImportSpecifier>,
    pub exports: Vec<ExportSpecifier>,
    pub facade: bool,
    pub has_module_syntax: bool,
}

} // verus!
