//! The specification of the scanner: for each construct of the syntax-tree
//! model, the exact records it contributes and the facts it forces, as
//! mathematical functions of the construct and the source text.
//!
//! The executable scanner in [`crate::visitor`] is proved to produce
//! precisely these sequences, in this order.

use vstd::prelude::*;

use crate::ast::ArrayPatElem;
use crate::ast::Decl;
use crate::ast::DefaultDecl;
use crate::ast::ExportSpec;
use crate::ast::Expr;
use crate::ast::Ident;
use crate::ast::ImportDecl;
use crate::ast::ImportSpec;
use crate::ast::Module;
use crate::ast::ModuleDecl;
use crate::ast::ModuleExportName;
use crate::ast::ModuleItem;
use crate::ast::NamedExport;
use crate::ast::ObjectPatProp;
use crate::ast::Pat;
use crate::ast::Span;
use crate::ast::Stmt;
use crate::ast::StrLit;
use crate::decl::ExportRecView;
use crate::decl::ImportKind;
use crate::decl::ImportRecView;
use crate::text::find_or_start;
use crate::text::trim_end_spec;

verus! {

/// The UTF-16 code units of the literal word `default`.
pub open spec fn default_units() -> Seq<u16> {
    seq![0x64u16, 0x65u16, 0x66u16, 0x61u16, 0x75u16, 0x6Cu16, 0x74u16]
}

/// The UTF-16 code units of the literal `(`.
pub open spec fn lparen_units() -> Seq<u16> {
    seq![0x28u16]
}

/// Offset of an import-attributes object, or `-1` when absent.
pub open spec fn attr_offset(w: Option<Span>) -> int {
    match w {
        Some(sp) => sp.lo as int,
        None => -1,
    }
}

/// The record of a static import of `src` whose whole construct spans
/// `stmt`: specifier offsets exclude the quotes, and the construct end is
/// trimmed backward past whitespace and semicolons.
pub open spec fn static_import_rec(
    src: StrLit,
    stmt: Span,
    with_span: Option<Span>,
    code: Seq<u16>,
) -> ImportRecView {
    ImportRecView {
        n: Some(src.value@),
        s: src.span.lo + 1,
        e: src.span.hi - 1,
        ss: stmt.lo as int,
        se: trim_end_spec(code, stmt.hi as int),
        d: -1,
        a: attr_offset(with_span),
        kind: ImportKind::Static,
    }
}

/// Whether one import specifier is a type-only named specifier.
pub open spec fn import_spec_is_type_only(s: ImportSpec) -> bool {
    match s {
        ImportSpec::Named { is_type_only } => is_type_only,
        _ => false,
    }
}

/// Every specifier of the list is a type-only named specifier.
pub open spec fn all_type_only_import_specs(ss: Seq<ImportSpec>) -> bool {
    forall|i: int| 0 <= i < ss.len() ==> #[trigger] import_spec_is_type_only(ss[i])
}

/// Records of a static import declaration: none when the declaration is
/// type-only or every specifier is, else exactly one record for the source.
pub open spec fn imports_of_import_decl(d: ImportDecl, code: Seq<u16>) -> Seq<ImportRecView> {
    if d.type_only {
        Seq::empty()
    } else if d.specifiers@.len() == 0 {
        seq![static_import_rec(d.src, d.span, d.with_span, code)]
    } else if all_type_only_import_specs(d.specifiers@) {
        Seq::empty()
    } else {
        seq![static_import_rec(d.src, d.span, d.with_span, code)]
    }
}

/// The export record derived from a declared identifier: exported and local
/// name coincide.
pub open spec fn ident_export_rec(id: Ident) -> ExportRecView {
    ExportRecView {
        n: id.sym@,
        ln: Some(id.sym@),
        s: id.span.lo as int,
        e: id.span.hi as int,
        ls: id.span.lo as int,
        le: id.span.hi as int,
    }
}

pub open spec fn export_name_sym(m: ModuleExportName) -> Seq<char> {
    match m {
        ModuleExportName::Ident(id) => id.sym@,
        ModuleExportName::Str(s) => s.value@,
    }
}

pub open spec fn export_name_span(m: ModuleExportName) -> Span {
    match m {
        ModuleExportName::Ident(id) => id.span,
        ModuleExportName::Str(s) => s.span,
    }
}

/// Records of one export specifier (none or one).
pub open spec fn export_recs_of_spec(s: ExportSpec) -> Seq<ExportRecView> {
    match s {
        ExportSpec::Named { orig, exported, is_type_only } => {
            if is_type_only {
                Seq::empty()
            } else {
                let (name, name_span) = match exported {
                    Some(x) => (export_name_sym(x), export_name_span(x)),
                    None => (export_name_sym(orig), export_name_span(orig)),
                };
                let local_span = export_name_span(orig);
                seq![
                    ExportRecView {
                        n: name,
                        ln: Some(export_name_sym(orig)),
                        s: name_span.lo as int,
                        e: name_span.hi as int,
                        ls: local_span.lo as int,
                        le: local_span.hi as int,
                    },
                ]
            }
        },
        ExportSpec::DefaultBinding => Seq::empty(),
        ExportSpec::Namespace { name } => match name {
            ModuleExportName::Ident(id) => seq![
                ExportRecView {
                    n: id.sym@,
                    ln: None,
                    s: id.span.lo as int,
                    e: id.span.hi as int,
                    ls: -1,
                    le: -1,
                },
            ],
            ModuleExportName::Str(_) => Seq::empty(),
        },
    }
}

/// Whether one export specifier makes the enclosing `from`-export need a
/// synthetic import record.
pub open spec fn export_spec_adds_import(s: ExportSpec) -> bool {
    match s {
        ExportSpec::Named { is_type_only, .. } => !is_type_only,
        ExportSpec::DefaultBinding => false,
        ExportSpec::Namespace { name } => name matches ModuleExportName::Ident(_),
    }
}

pub open spec fn export_recs_of_specs(ss: Seq<ExportSpec>) -> Seq<ExportRecView>
    decreases ss.len(),
{
    if ss.len() == 0 {
        Seq::empty()
    } else {
        export_recs_of_spec(ss[0]) + export_recs_of_specs(ss.drop_first())
    }
}

/// Whether one export specifier is a type-only named specifier.
pub open spec fn export_spec_is_type_only(s: ExportSpec) -> bool {
    match s {
        ExportSpec::Named { is_type_only, .. } => is_type_only,
        _ => false,
    }
}

pub open spec fn all_type_only_export_specs(ss: Seq<ExportSpec>) -> bool {
    forall|i: int| 0 <= i < ss.len() ==> #[trigger] export_spec_is_type_only(ss[i])
}

/// A named export list is suppressed entirely when the declaration is
/// type-only or every specifier is.
pub open spec fn named_export_suppressed(e: NamedExport) -> bool {
    e.type_only || all_type_only_export_specs(e.specifiers@)
}

/// Export records of a named export list.
pub open spec fn exports_of_named(e: NamedExport) -> Seq<ExportRecView> {
    if named_export_suppressed(e) {
        Seq::empty()
    } else {
        export_recs_of_specs(e.specifiers@)
    }
}

/// Whether a named export list asks for a synthetic import record.
pub open spec fn named_export_needs_import(e: NamedExport) -> bool {
    !named_export_suppressed(e) && exists|i: int|
        0 <= i < e.specifiers@.len() && #[trigger] export_spec_adds_import(e.specifiers@[i])
}

/// The synthetic import record of a named re-export (`export { .. } from
/// 'src'`): present exactly when some specifier survives filtering and the
/// list has a source.
pub open spec fn imports_of_named(e: NamedExport, code: Seq<u16>) -> Seq<ImportRecView> {
    if named_export_needs_import(e) {
        match e.src {
            Some(src) => seq![static_import_rec(src, e.span, e.with_span, code)],
            None => Seq::empty(),
        }
    } else {
        Seq::empty()
    }
}

/// Start offset of the literal word `default` of an `export default ...`
/// construct spanning `stmt`: the first occurrence found forward from just
/// past the `export` keyword.
pub open spec fn default_kw_start(stmt: Span, code: Seq<u16>) -> int {
    find_or_start(code, default_units(), stmt.lo + 6)
}

/// The export record of `export default <expr>`: named `default`, spanning
/// the literal word `default`, with no local name.
pub open spec fn default_expr_export_rec(stmt: Span, code: Seq<u16>) -> ExportRecView {
    let start = default_kw_start(stmt, code);
    ExportRecView { n: "default"@, ln: None, s: start, e: start + 7, ls: -1, le: -1 }
}

/// Export records of `export default <class|function|interface>`: the
/// `default` keyword span on the export side, and the declaration's own
/// identifier as the local name when it has one.
pub open spec fn exports_of_default_decl(
    stmt: Span,
    d: DefaultDecl,
    code: Seq<u16>,
) -> Seq<ExportRecView> {
    let start = default_kw_start(stmt, code);
    match d {
        DefaultDecl::Class { ident: Some(id) } | DefaultDecl::Func { ident: Some(id) } => seq![
            ExportRecView {
                n: "default"@,
                ln: Some(id.sym@),
                s: start,
                e: start + 7,
                ls: id.span.lo as int,
                le: id.span.hi as int,
            },
        ],
        DefaultDecl::Class { ident: None } | DefaultDecl::Func { ident: None } => seq![
            ExportRecView { n: "default"@, ln: None, s: start, e: start + 7, ls: -1, le: -1 },
        ],
        DefaultDecl::TsInterface => Seq::empty(),
    }
}

/// Export records of one binding pattern of an exported variable
/// declarator: a simple identifier, the shorthand properties of an object
/// pattern, or the identifier elements of an array pattern.
pub open spec fn export_recs_of_pat(p: Pat) -> Seq<ExportRecView> {
    match p {
        Pat::Ident(id) => seq![ident_export_rec(id)],
        Pat::Object { props } => export_recs_of_props(props@),
        Pat::Array { elems } => export_recs_of_elems(elems@),
        Pat::Other => Seq::empty(),
    }
}

pub open spec fn export_recs_of_props(ps: Seq<ObjectPatProp>) -> Seq<ExportRecView>
    decreases ps.len(),
{
    if ps.len() == 0 {
        Seq::empty()
    } else {
        (match ps[0] {
            ObjectPatProp::Assign { key } => seq![ident_export_rec(key)],
            _ => Seq::empty(),
        }) + export_recs_of_props(ps.drop_first())
    }
}

pub open spec fn export_recs_of_elems(es: Seq<ArrayPatElem>) -> Seq<ExportRecView>
    decreases es.len(),
{
    if es.len() == 0 {
        Seq::empty()
    } else {
        (match es[0] {
            ArrayPatElem::Ident(id) => seq![ident_export_rec(id)],
            _ => Seq::empty(),
        }) + export_recs_of_elems(es.drop_first())
    }
}

pub open spec fn export_recs_of_pats(ps: Seq<Pat>) -> Seq<ExportRecView>
    decreases ps.len(),
{
    if ps.len() == 0 {
        Seq::empty()
    } else {
        export_recs_of_pat(ps[0]) + export_recs_of_pats(ps.drop_first())
    }
}

/// Export records of `export <decl>`.
pub open spec fn export_recs_of_decl(d: Decl) -> Seq<ExportRecView> {
    match d {
        Decl::Class { ident } => seq![ident_export_rec(ident)],
        Decl::Func { ident } => seq![ident_export_rec(ident)],
        Decl::Var { pats } => export_recs_of_pats(pats@),
        Decl::Using => Seq::empty(),
        Decl::TsEnum { ident } => seq![ident_export_rec(ident)],
        Decl::TsModule { ident } => match ident {
            Some(id) => seq![ident_export_rec(id)],
            None => Seq::empty(),
        },
        Decl::TsInterface => Seq::empty(),
        Decl::TsTypeAlias => Seq::empty(),
    }
}

/// A TS namespace/module declaration: its body is excluded from scanning.
pub open spec fn decl_skips_children(d: Decl) -> bool {
    d matches Decl::TsModule { .. }
}

/// Offset of the attributes object of a dynamic import call: the start of
/// the second argument when the first is a string literal and the second an
/// object literal, else `-1`.
pub open spec fn dynamic_attr_offset(args: Seq<Expr>) -> int {
    if args.len() >= 2 {
        match args[1] {
            Expr::ObjectLit { span, .. } => span.lo as int,
            _ => -1,
        }
    } else {
        -1
    }
}

/// The record of a dynamic `import(...)` call with at least one argument.
/// `d` is the offset of the `(` found forward from the end of the `import`
/// keyword; a string-literal first argument contributes its name and its
/// quoted span, any other argument leaves the name absent and approximates
/// the source span as the interior of the parentheses.
pub open spec fn dynamic_import_rec(
    span: Span,
    import_span: Span,
    args: Seq<Expr>,
    code: Seq<u16>,
) -> ImportRecView {
    let d = find_or_start(code, lparen_units(), import_span.hi as int);
    match args[0] {
        Expr::StrLit(src) => ImportRecView {
            n: Some(src.value@),
            s: src.span.lo as int,
            e: src.span.hi as int,
            ss: span.lo as int,
            se: trim_end_spec(code, span.hi as int),
            d: d,
            a: dynamic_attr_offset(args),
            kind: ImportKind::Dynamic,
        },
        _ => ImportRecView {
            n: None,
            s: d + 1,
            e: span.hi - 1,
            ss: span.lo as int,
            se: trim_end_spec(code, span.hi as int),
            d: d,
            a: -1,
            kind: ImportKind::Dynamic,
        },
    }
}

/// The record of an `import.meta` expression.
pub open spec fn meta_rec(span: Span, code: Seq<u16>) -> ImportRecView {
    ImportRecView {
        n: None,
        s: span.lo as int,
        e: span.hi as int,
        ss: span.lo as int,
        se: trim_end_spec(code, span.hi as int),
        d: -2,
        a: -1,
        kind: ImportKind::ImportMeta,
    }
}

/// Import records contributed by one expression subtree, in depth-first
/// order: a dynamic import call contributes its record (when it has an
/// argument) before the records of its arguments.
pub open spec fn imports_of_expr(e: Expr, code: Seq<u16>) -> Seq<ImportRecView>
    decreases e,
{
    match e {
        Expr::ImportCall { span, import_span, args } => (if args@.len() == 0 {
            Seq::empty()
        } else {
            seq![dynamic_import_rec(span, import_span, args@, code)]
        }) + imports_of_exprs(args@, code),
        Expr::StrLit(_) => Seq::empty(),
        Expr::ObjectLit { children, .. } => imports_of_exprs(children@, code),
        Expr::ImportMeta { span } => seq![meta_rec(span, code)],
        Expr::Other { children } => imports_of_exprs(children@, code),
    }
}

pub open spec fn imports_of_exprs(es: Seq<Expr>, code: Seq<u16>) -> Seq<ImportRecView>
    decreases es,
{
    if es.len() == 0 {
        Seq::empty()
    } else {
        imports_of_expr(es[0], code) + imports_of_exprs(es.drop_first(), code)
    }
}

/// Whether an expression subtree contains an `import.meta` expression.
pub open spec fn expr_has_meta(e: Expr) -> bool
    decreases e,
{
    match e {
        Expr::ImportCall { args, .. } => exprs_have_meta(args@),
        Expr::StrLit(_) => false,
        Expr::ObjectLit { children, .. } => exprs_have_meta(children@),
        Expr::ImportMeta { .. } => true,
        Expr::Other { children } => exprs_have_meta(children@),
    }
}

pub open spec fn exprs_have_meta(es: Seq<Expr>) -> bool
    decreases es,
{
    if es.len() == 0 {
        false
    } else {
        expr_has_meta(es[0]) || exprs_have_meta(es.drop_first())
    }
}

/// Import records of one top-level declaration, including those of the
/// expressions nested under it; the body of an exported TS namespace is
/// not descended into.
pub open spec fn imports_of_module_decl(d: ModuleDecl, code: Seq<u16>) -> Seq<ImportRecView> {
    match d {
        ModuleDecl::Import(i) => imports_of_import_decl(i, code),
        ModuleDecl::ExportNamed(e) => imports_of_named(e, code),
        ModuleDecl::ExportDecl { decl, children, .. } => if decl_skips_children(decl) {
            Seq::empty()
        } else {
            imports_of_exprs(children@, code)
        },
        ModuleDecl::ExportDefaultDecl { children, .. } => imports_of_exprs(children@, code),
        ModuleDecl::ExportDefaultExpr { expr, .. } => imports_of_expr(expr, code),
        ModuleDecl::ExportAll { span, src, with_span } => seq![
            static_import_rec(src, span, with_span, code),
        ],
        ModuleDecl::TsImportEquals => Seq::empty(),
        ModuleDecl::TsExportAssignment { children } => imports_of_exprs(children@, code),
        ModuleDecl::TsNamespaceExport => Seq::empty(),
    }
}

/// Export records of one top-level declaration.
pub open spec fn exports_of_module_decl(d: ModuleDecl, code: Seq<u16>) -> Seq<ExportRecView> {
    match d {
        ModuleDecl::Import(_) => Seq::empty(),
        ModuleDecl::ExportNamed(e) => exports_of_named(e),
        ModuleDecl::ExportDecl { decl, .. } => export_recs_of_decl(decl),
        ModuleDecl::ExportDefaultDecl { span, decl, .. } => exports_of_default_decl(
            span,
            decl,
            code,
        ),
        ModuleDecl::ExportDefaultExpr { span, .. } => seq![default_expr_export_rec(span, code)],
        ModuleDecl::ExportAll { .. } => Seq::empty(),
        ModuleDecl::TsImportEquals => Seq::empty(),
        ModuleDecl::TsExportAssignment { .. } => Seq::empty(),
        ModuleDecl::TsNamespaceExport => Seq::empty(),
    }
}

/// Whether the traversal of one top-level declaration reaches an
/// `import.meta` expression.
pub open spec fn module_decl_has_meta(d: ModuleDecl) -> bool {
    match d {
        ModuleDecl::Import(_) => false,
        ModuleDecl::ExportNamed(_) => false,
        ModuleDecl::ExportDecl { decl, children, .. } => !decl_skips_children(decl)
            && exprs_have_meta(children@),
        ModuleDecl::ExportDefaultDecl { children, .. } => exprs_have_meta(children@),
        ModuleDecl::ExportDefaultExpr { expr, .. } => expr_has_meta(expr),
        ModuleDecl::ExportAll { .. } => false,
        ModuleDecl::TsImportEquals => false,
        ModuleDecl::TsExportAssignment { children } => exprs_have_meta(children@),
        ModuleDecl::TsNamespaceExport => false,
    }
}

pub open spec fn imports_of_stmt(s: Stmt, code: Seq<u16>) -> Seq<ImportRecView> {
    match s {
        Stmt::Expr { expr } => imports_of_expr(expr, code),
        Stmt::Other { children } => imports_of_exprs(children@, code),
    }
}

pub open spec fn stmt_has_meta(s: Stmt) -> bool {
    match s {
        Stmt::Expr { expr } => expr_has_meta(expr),
        Stmt::Other { children } => exprs_have_meta(children@),
    }
}

pub open spec fn imports_of_item(it: ModuleItem, code: Seq<u16>) -> Seq<ImportRecView> {
    match it {
        ModuleItem::Decl(d) => imports_of_module_decl(d, code),
        ModuleItem::Stmt(s) => imports_of_stmt(s, code),
    }
}

pub open spec fn exports_of_item(it: ModuleItem, code: Seq<u16>) -> Seq<ExportRecView> {
    match it {
        ModuleItem::Decl(d) => exports_of_module_decl(d, code),
        ModuleItem::Stmt(_) => Seq::empty(),
    }
}

pub open spec fn item_has_meta(it: ModuleItem) -> bool {
    match it {
        ModuleItem::Decl(d) => module_decl_has_meta(d),
        ModuleItem::Stmt(s) => stmt_has_meta(s),
    }
}

pub open spec fn imports_of_items(items: Seq<ModuleItem>, code: Seq<u16>) -> Seq<ImportRecView>
    decreases items.len(),
{
    if items.len() == 0 {
        Seq::empty()
    } else {
        imports_of_item(items[0], code) + imports_of_items(items.drop_first(), code)
    }
}

pub open spec fn exports_of_items(items: Seq<ModuleItem>, code: Seq<u16>) -> Seq<ExportRecView>
    decreases items.len(),
{
    if items.len() == 0 {
        Seq::empty()
    } else {
        exports_of_item(items[0], code) + exports_of_items(items.drop_first(), code)
    }
}

pub open spec fn items_have_meta(items: Seq<ModuleItem>) -> bool {
    exists|i: int| 0 <= i < items.len() && #[trigger] item_has_meta(items[i])
}

/// Facade classification of one top-level item: plain imports, named and
/// star (re-)exports, ambient namespace exports and exported
/// interface/type-alias declarations keep a file facade-eligible; anything
/// else — including any statement other than a single-string-literal
/// dynamic import call — disqualifies it.
pub open spec fn item_facade_ok(it: ModuleItem) -> bool {
    match it {
        ModuleItem::Decl(d) => match d {
            ModuleDecl::Import(_) => true,
            ModuleDecl::ExportNamed(_) => true,
            ModuleDecl::ExportDecl { decl, .. } => decl matches Decl::TsInterface
                || decl matches Decl::TsTypeAlias,
            ModuleDecl::ExportDefaultDecl { .. } => false,
            ModuleDecl::ExportDefaultExpr { .. } => false,
            ModuleDecl::ExportAll { .. } => true,
            ModuleDecl::TsImportEquals => false,
            ModuleDecl::TsExportAssignment { .. } => false,
            ModuleDecl::TsNamespaceExport => true,
        },
        ModuleItem::Stmt(s) => match s {
            Stmt::Expr { expr } => match expr {
                Expr::ImportCall { args, .. } => args@.len() == 1 && args@[0] matches Expr::StrLit(
                    _,
                ),
                _ => false,
            },
            Stmt::Other { .. } => false,
        },
    }
}

/// A module is a facade exactly when every top-level item is
/// facade-eligible; an empty module is vacuously one.
pub open spec fn facade_of_items(items: Seq<ModuleItem>) -> bool {
    forall|i: int| 0 <= i < items.len() ==> #[trigger] item_facade_ok(items[i])
}

/// Whether one top-level item is an import/export declaration.
pub open spec fn item_is_decl(it: ModuleItem) -> bool {
    it matches ModuleItem::Decl(_)
}

/// Module syntax shown by the top-level item list alone: any import/export
/// declaration.
pub open spec fn items_have_decl(items: Seq<ModuleItem>) -> bool {
    exists|i: int| 0 <= i < items.len() && #[trigger] item_is_decl(items[i])
}

/// All import records of a module, in traversal order.
pub open spec fn imports_of_module(m: Module, code: Seq<u16>) -> Seq<ImportRecView> {
    imports_of_items(m.body@, code)
}

/// All export records of a module, in traversal order.
pub open spec fn exports_of_module(m: Module, code: Seq<u16>) -> Seq<ExportRecView> {
    exports_of_items(m.body@, code)
}

pub open spec fn facade_of_module(m: Module) -> bool {
    facade_of_items(m.body@)
}

/// A module has module syntax when a top-level import/export declaration
/// exists, or when the traversal reaches an `import.meta` expression
/// anywhere.
pub open spec fn module_has_syntax(m: Module) -> bool {
    items_have_decl(m.body@) || items_have_meta(m.body@)
}

} // verus!
