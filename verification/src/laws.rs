//! The library-wide laws: general properties of the scanner, stated over
//! the specification functions that the executable scanner is proved to
//! satisfy, and proved here once and for all inputs.

use vstd::prelude::*;

use crate::ast::DefaultDecl;
use crate::ast::Expr;
use crate::ast::Ident;
use crate::ast::ImportDecl;
use crate::ast::Module;
use crate::ast::ModuleDecl;
use crate::ast::ModuleExportName;
use crate::ast::ModuleItem;
use crate::ast::NamedExport;
use crate::ast::Span;
use crate::ast::Stmt;
use crate::decl::ExportRecView;
use crate::decl::ImportRecView;
use crate::semantics::all_type_only_export_specs;
use crate::semantics::all_type_only_import_specs;
use crate::semantics::default_kw_start;
use crate::semantics::dynamic_import_rec;
use crate::semantics::export_name_sym;
use crate::semantics::export_recs_of_spec;
use crate::semantics::export_recs_of_specs;
use crate::ast::ExportSpec;
use crate::ast::StrLit;
use crate::semantics::exports_of_default_decl;
use crate::semantics::exports_of_module;
use crate::semantics::exports_of_named;
use crate::semantics::expr_has_meta;
use crate::semantics::exprs_have_meta;
use crate::semantics::facade_of_items;
use crate::semantics::facade_of_module;
use crate::semantics::imports_of_expr;
use crate::semantics::imports_of_exprs;
use crate::semantics::imports_of_import_decl;
use crate::semantics::imports_of_item;
use crate::semantics::imports_of_items;
use crate::semantics::imports_of_module;
use crate::semantics::imports_of_named;
use crate::semantics::item_facade_ok;
use crate::semantics::item_has_meta;
use crate::semantics::items_have_meta;
use crate::semantics::lparen_units;
use crate::semantics::module_has_syntax;
use crate::text::find_from;
use crate::text::find_or_start;
use crate::text::is_trim_unit;
use crate::text::sig_end;
use crate::text::trim_end_spec;

verus! {

/// Determinism: the scanner's whole result is a function of the module and
/// the source text alone, so any two results of scanning the same input
/// coincide in every record and both facts.
pub proof fn lemma_scan_deterministic(
    m: Module,
    code: Seq<u16>,
    imports1: Seq<ImportRecView>,
    exports1: Seq<ExportRecView>,
    facade1: bool,
    syntax1: bool,
    imports2: Seq<ImportRecView>,
    exports2: Seq<ExportRecView>,
    facade2: bool,
    syntax2: bool,
)
    requires
        imports1 == imports_of_module(m, code),
        exports1 == exports_of_module(m, code),
        facade1 == facade_of_module(m),
        syntax1 == module_has_syntax(m),
        imports2 == imports_of_module(m, code),
        exports2 == exports_of_module(m, code),
        facade2 == facade_of_module(m),
        syntax2 == module_has_syntax(m),
    ensures
        imports1 == imports2,
        exports1 == exports2,
        facade1 == facade2,
        syntax1 == syntax2,
{
}

/// Type-only suppression, import side: an `import type ...` declaration,
/// or one whose named specifiers are all type-only, contributes no import
/// record at all.
pub proof fn lemma_type_only_import_suppressed(d: ImportDecl, code: Seq<u16>)
    requires
        d.type_only || (d.specifiers@.len() > 0 && all_type_only_import_specs(d.specifiers@)),
    ensures
        imports_of_import_decl(d, code) == Seq::<ImportRecView>::empty(),
{
}

/// Type-only suppression, export side: an `export type { ... } [from ...]`
/// list, or one whose specifiers are all type-only, contributes neither an
/// export record nor a synthetic import record.
pub proof fn lemma_type_only_export_suppressed(e: NamedExport, code: Seq<u16>)
    requires
        e.type_only || all_type_only_export_specs(e.specifiers@),
    ensures
        exports_of_named(e) == Seq::<ExportRecView>::empty(),
        imports_of_named(e, code) == Seq::<ImportRecView>::empty(),
{
}

/// Trailing trim: when position `k` holds a significant code unit and
/// everything strictly between `k` and `end` is whitespace or semicolons,
/// the trimmed statement end is exactly `k + 1` — one past the last
/// significant character.
pub proof fn lemma_trim_end_after_significant(code: Seq<u16>, k: int, end: int)
    requires
        0 <= k < end <= code.len(),
        !is_trim_unit(code[k]),
        forall|j: int| k < j < end ==> is_trim_unit(#[trigger] code[j]),
    ensures
        trim_end_spec(code, end) == k + 1,
    decreases end,
{
    if end == k + 1 {
        assert(sig_end(code, end) == end);
    } else {
        assert(is_trim_unit(code[end - 1]));
        lemma_trim_end_after_significant(code, k, end - 1);
        assert(sig_end(code, end) == sig_end(code, end - 1));
    }
}

/// Facade classification: one disqualifying top-level item — in
/// particular any expression statement that is not a single-string-literal
/// dynamic import — makes the whole file a non-facade, wherever it
/// stands.
pub proof fn lemma_facade_disqualified(items: Seq<ModuleItem>, i: int)
    requires
        0 <= i < items.len(),
        !item_facade_ok(items[i]),
    ensures
        !facade_of_items(items),
{
}

/// The first occurrence of `pat` at or after `from` is what the forward
/// search returns.
pub proof fn lemma_find_first_occurrence(code: Seq<u16>, pat: Seq<u16>, from: int, j: int)
    requires
        0 <= from <= j,
        pat.len() >= 1,
        j + pat.len() <= code.len(),
        code.subrange(j, j + pat.len()) == pat,
        forall|m: int| from <= m < j ==> #[trigger] code.subrange(m, m + pat.len()) != pat,
    ensures
        find_or_start(code, pat, from) == j,
    decreases j - from,
{
    if from == j {
        assert(find_from(code, pat, j) == j);
    } else {
        lemma_find_first_occurrence(code, pat, from + 1, j);
        assert(code.subrange(from, from + pat.len()) != pat);
        assert(find_from(code, pat, from) == find_from(code, pat, from + 1));
    }
}

/// Dynamic import offsets: when the first argument of `import(...)` is a
/// string literal and position `j` holds the first `(` at or after the end
/// of the `import` keyword, the emitted record's source span is exactly
/// the literal's quoted span and its dynamic marker is exactly `j`.
pub proof fn lemma_dynamic_import_offsets(
    span: Span,
    import_span: Span,
    args: Seq<Expr>,
    code: Seq<u16>,
    j: int,
)
    requires
        args.len() >= 1,
        args[0] matches Expr::StrLit(_),
        import_span.hi <= j < code.len(),
        code[j] == 0x28,
        forall|m: int| import_span.hi <= m < j ==> #[trigger] code[m] != 0x28,
    ensures
        ({
            let rec = dynamic_import_rec(span, import_span, args, code);
            match args[0] {
                Expr::StrLit(src) => rec.d == j && rec.s == src.span.lo && rec.e == src.span.hi
                    && rec.n == Some(src.value@),
                _ => false,
            }
        }),
{
    assert(code.subrange(j, j + 1) =~= lparen_units());
    assert forall|m: int| import_span.hi <= m < j implies #[trigger] code.subrange(
        m,
        m + lparen_units().len(),
    ) != lparen_units() by {
        assert(code.subrange(m, m + 1)[0] == code[m]);
        assert(lparen_units()[0] == 0x28);
    }
    lemma_find_first_occurrence(code, lparen_units(), import_span.hi as int, j);
}

/// `import.meta` in any expression subtree yields, somewhere in that
/// subtree's records, an import record whose dynamic marker is the meta
/// sentinel `-2`.
pub proof fn lemma_meta_record_in_expr(e: Expr, code: Seq<u16>)
    requires
        expr_has_meta(e),
    ensures
        exists|k: int|
            0 <= k < imports_of_expr(e, code).len() && #[trigger] imports_of_expr(e, code)[k].d
                == -2,
    decreases e,
{
    match e {
        Expr::ImportCall { span, import_span, args } => {
            lemma_meta_record_in_exprs(args@, code);
            let k = choose|k: int|
                0 <= k < imports_of_exprs(args@, code).len() && #[trigger] imports_of_exprs(
                    args@,
                    code,
                )[k].d == -2;
            let prefix = if args@.len() == 0 {
                Seq::<ImportRecView>::empty()
            } else {
                seq![dynamic_import_rec(span, import_span, args@, code)]
            };
            assert(imports_of_expr(e, code)[prefix.len() + k].d == -2);
        },
        Expr::StrLit(_) => {},
        Expr::ObjectLit { children, .. } => {
            lemma_meta_record_in_exprs(children@, code);
        },
        Expr::ImportMeta { span } => {
            assert(imports_of_expr(e, code)[0].d == -2);
        },
        Expr::Other { children } => {
            lemma_meta_record_in_exprs(children@, code);
        },
    }
}

pub proof fn lemma_meta_record_in_exprs(es: Seq<Expr>, code: Seq<u16>)
    requires
        exprs_have_meta(es),
    ensures
        exists|k: int|
            0 <= k < imports_of_exprs(es, code).len() && #[trigger] imports_of_exprs(es, code)[k].d
                == -2,
    decreases es,
{
    if es.len() == 0 {
    } else if expr_has_meta(es[0]) {
        lemma_meta_record_in_expr(es[0], code);
        let k = choose|k: int|
            0 <= k < imports_of_expr(es[0], code).len() && #[trigger] imports_of_expr(
                es[0],
                code,
            )[k].d == -2;
        assert(imports_of_exprs(es, code)[k].d == -2);
    } else {
        lemma_meta_record_in_exprs(es.drop_first(), code);
        let k = choose|k: int|
            0 <= k < imports_of_exprs(es.drop_first(), code).len() && #[trigger] imports_of_exprs(
                es.drop_first(),
                code,
            )[k].d == -2;
        assert(imports_of_exprs(es, code)[imports_of_expr(es[0], code).len() + k].d == -2);
    }
}

pub proof fn lemma_meta_record_in_item(it: ModuleItem, code: Seq<u16>)
    requires
        item_has_meta(it),
    ensures
        exists|k: int|
            0 <= k < imports_of_item(it, code).len() && #[trigger] imports_of_item(it, code)[k].d
                == -2,
{
    match it {
        ModuleItem::Decl(d) => {
            match d {
                ModuleDecl::ExportDecl { children, .. } => {
                    lemma_meta_record_in_exprs(children@, code);
                    let k = choose|k: int|
                        0 <= k < imports_of_exprs(children@, code).len()
                            && #[trigger] imports_of_exprs(children@, code)[k].d == -2;
                    assert(imports_of_item(it, code)[k].d == -2);
                },
                ModuleDecl::ExportDefaultDecl { children, .. } => {
                    lemma_meta_record_in_exprs(children@, code);
                    let k = choose|k: int|
                        0 <= k < imports_of_exprs(children@, code).len()
                            && #[trigger] imports_of_exprs(children@, code)[k].d == -2;
                    assert(imports_of_item(it, code)[k].d == -2);
                },
                ModuleDecl::ExportDefaultExpr { expr, .. } => {
                    lemma_meta_record_in_expr(expr, code);
                    let k = choose|k: int|
                        0 <= k < imports_of_expr(expr, code).len() && #[trigger] imports_of_expr(
                            expr,
                            code,
                        )[k].d == -2;
                    assert(imports_of_item(it, code)[k].d == -2);
                },
                ModuleDecl::TsExportAssignment { children } => {
                    lemma_meta_record_in_exprs(children@, code);
                    let k = choose|k: int|
                        0 <= k < imports_of_exprs(children@, code).len()
                            && #[trigger] imports_of_exprs(children@, code)[k].d == -2;
                    assert(imports_of_item(it, code)[k].d == -2);
                },
                _ => {},
            }
        },
        ModuleItem::Stmt(s) => {
            match s {
                Stmt::Expr { expr } => {
                    lemma_meta_record_in_expr(expr, code);
                    let k = choose|k: int|
                        0 <= k < imports_of_expr(expr, code).len() && #[trigger] imports_of_expr(
                            expr,
                            code,
                        )[k].d == -2;
                    assert(imports_of_item(it, code)[k].d == -2);
                },
                Stmt::Other { children } => {
                    lemma_meta_record_in_exprs(children@, code);
                    let k = choose|k: int|
                        0 <= k < imports_of_exprs(children@, code).len()
                            && #[trigger] imports_of_exprs(children@, code)[k].d == -2;
                    assert(imports_of_item(it, code)[k].d == -2);
                },
            }
        },
    }
}

pub proof fn lemma_meta_record_in_items(items: Seq<ModuleItem>, code: Seq<u16>, j: int)
    requires
        0 <= j < items.len(),
        item_has_meta(items[j]),
    ensures
        exists|k: int|
            0 <= k < imports_of_items(items, code).len() && #[trigger] imports_of_items(
                items,
                code,
            )[k].d == -2,
    decreases j,
{
    if j == 0 {
        lemma_meta_record_in_item(items[0], code);
        let k = choose|k: int|
            0 <= k < imports_of_item(items[0], code).len() && #[trigger] imports_of_item(
                items[0],
                code,
            )[k].d == -2;
        assert(imports_of_items(items, code)[k].d == -2);
    } else {
        assert(items.drop_first()[j - 1] == items[j]);
        lemma_meta_record_in_items(items.drop_first(), code, j - 1);
        let k = choose|k: int|
            0 <= k < imports_of_items(items.drop_first(), code).len()
                && #[trigger] imports_of_items(items.drop_first(), code)[k].d == -2;
        assert(imports_of_items(items, code)[imports_of_item(items[0], code).len() + k].d == -2);
    }
}

/// `import.meta` forcing: a module whose traversal reaches an
/// `import.meta` expression anywhere has module syntax — even with no
/// top-level import or export — and its import records include one whose
/// dynamic marker is the meta sentinel `-2`.
pub proof fn lemma_meta_forces_syntax(m: Module, code: Seq<u16>)
    requires
        items_have_meta(m.body@),
    ensures
        module_has_syntax(m),
        exists|k: int|
            0 <= k < imports_of_module(m, code).len() && #[trigger] imports_of_module(m, code)[k].d
                == -2,
{
    let j = choose|j: int| 0 <= j < m.body@.len() && #[trigger] item_has_meta(m.body@[j]);
    lemma_meta_record_in_items(m.body@, code, j);
    let k = choose|k: int|
        0 <= k < imports_of_items(m.body@, code).len() && #[trigger] imports_of_items(
            m.body@,
            code,
        )[k].d == -2;
    assert(imports_of_module(m, code)[k].d == -2);
}

/// Default-export identifier linkage: `export default function f(){}` (or
/// a class) yields exactly one record, exported as `default` over the
/// `default` keyword's span, whose local name and local span are the
/// declaration's own identifier.
pub proof fn lemma_default_export_linkage(stmt: Span, id: Ident, code: Seq<u16>)
    ensures
        ({
            let recs = exports_of_default_decl(
                stmt,
                DefaultDecl::Func { ident: Some(id) },
                code,
            );
            &&& recs.len() == 1
            &&& recs[0].n == "default"@
            &&& recs[0].ln == Some(id.sym@)
            &&& recs[0].s == default_kw_start(stmt, code)
            &&& recs[0].e == default_kw_start(stmt, code) + 7
            &&& recs[0].ls == id.span.lo
            &&& recs[0].le == id.span.hi
        }),
{
}

/// Renamed re-export: `export { a as b } from 'm'` yields one export
/// record whose exported name is the rename target and whose local name
/// is the original, plus exactly one synthetic import record for `'m'`.
pub proof fn lemma_renamed_reexport(
    e: NamedExport,
    orig: ModuleExportName,
    exported: ModuleExportName,
    src: StrLit,
    code: Seq<u16>,
)
    requires
        !e.type_only,
        e.specifiers@ == seq![
            ExportSpec::Named { orig, exported: Some(exported), is_type_only: false },
        ],
        e.src == Some(src),
    ensures
        exports_of_named(e).len() == 1,
        exports_of_named(e)[0].n == export_name_sym(exported),
        exports_of_named(e)[0].ln == Some(export_name_sym(orig)),
        imports_of_named(e, code).len() == 1,
        imports_of_named(e, code)[0].n == Some(src.value@),
        imports_of_named(e, code)[0].d == -1,
{
    let spec0 = e.specifiers@[0];
    assert(!crate::semantics::export_spec_is_type_only(spec0));
    assert(!all_type_only_export_specs(e.specifiers@));
    assert(e.specifiers@.drop_first() =~= Seq::<ExportSpec>::empty());
    assert(export_recs_of_specs(Seq::<ExportSpec>::empty()) == Seq::<ExportRecView>::empty());
    assert(export_recs_of_specs(e.specifiers@.drop_first()) == Seq::<ExportRecView>::empty());
    assert(export_recs_of_specs(e.specifiers@) =~= export_recs_of_spec(spec0));
    assert(crate::semantics::export_spec_adds_import(spec0));
    assert(crate::semantics::named_export_needs_import(e));
}

} // verus!
