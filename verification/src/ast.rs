//! The scanner's model of one parsed source file.
//!
//! The syntax tree is a closed set of tagged variants: one variant per
//! import- or export-producing construct the scanner classifies, plus
//! generic carriers (`Expr::Other`, `Stmt::Other`) that keep the nested
//! expressions of constructs the scanner does not distinguish, in
//! depth-first source order. An external parser's tree is converted into
//! this shape before scanning; every span is a pair of UTF-16 code-unit
//! offsets into the source text.

use vstd::prelude::*;

verus! {

/// A source span in UTF-16 code-unit offsets, `lo` inclusive, `hi` exclusive.
#[derive(Debug, Clone, Copy, PartialEq, Eq)]
pub struct Span {
    pub lo: usize,
    pub hi: usize,
}

/// A quoted string literal; `span` includes the quotes, `value` is the
/// unquoted text.
pub struct StrLit {
    pub span: Span,
    pub value: String,
}

/// An identifier with its span.
pub struct Ident {
    pub span: Span,
    pub sym: String,
}

/// The name under which a binding is exported or imported in an export
/// list: a plain identifier or a string literal (`export { 'a' as 'b' }`).
pub enum ModuleExportName {
    Ident(Ident),
    Str(StrLit),
}

/// One specifier of a static import declaration. Only the shape and the
/// type-only marker matter to the scanner; the bound names do not.
#[derive(Debug, Clone, Copy, PartialEq, Eq)]
pub enum ImportSpec {
    Named { is_type_only: bool },
    DefaultBinding,
    NamespaceBinding,
}

/// A static import declaration (`import ... from 'src'` or `import 'src'`).
pub struct ImportDecl {
    pub span: Span,
    pub src: StrLit,
    pub type_only: bool,
    pub specifiers: Vec<ImportSpec>,
    /// Span of the import-attributes object (`with {...}` / `assert {...}`).
    pub with_span: Option<Span>,
}

/// One specifier of a named export list.
pub enum ExportSpec {
    Named { orig: ModuleExportName, exported: Option<ModuleExportName>, is_type_only: bool },
    /// `export v from 'mod'` — not supported, produces no record.
    DefaultBinding,
    /// `export * as ns from 'src'`.
    Namespace { name: ModuleExportName },
}

/// A named export list (`export { ... } [from 'src']`), possibly type-only.
pub struct NamedExport {
    pub span: Span,
    pub specifiers: Vec<ExportSpec>,
    pub src: Option<StrLit>,
    pub type_only: bool,
    pub with_span: Option<Span>,
}

/// One property of an object destructuring pattern.
pub enum ObjectPatProp {
    /// `{ key }` or `{ key = default }` shorthand.
    Assign { key: Ident },
    /// `{ a: b }` keyed rename — intentionally unsupported, no record.
    KeyValue,
    /// `{ ...rest }` — intentionally unsupported, no record.
    Rest,
}

/// One element of an array destructuring pattern.
pub enum ArrayPatElem {
    Hole,
    Ident(Ident),
    Other,
}

/// The binding pattern of one variable declarator.
pub enum Pat {
    Ident(Ident),
    Object { props: Vec<ObjectPatProp> },
    Array { elems: Vec<ArrayPatElem> },
    Other,
}

/// The declaration carried by `export <decl>`.
pub enum Decl {
    Class { ident: Ident },
    Func { ident: Ident },
    /// One pattern per declarator (`export const a = 1, b = 2`).
    Var { pats: Vec<Pat> },
    Using,
    TsEnum { ident: Ident },
    /// A TS namespace/module declaration; `ident` is `None` for a string
    /// module name (`declare module "m"`). Its body is opaque to the scanner.
    TsModule { ident: Option<Ident> },
    TsInterface,
    TsTypeAlias,
}

/// The declaration carried by `export default <decl>`.
pub enum DefaultDecl {
    Class { ident: Option<Ident> },
    Func { ident: Option<Ident> },
    TsInterface,
}

/// An expression subtree, reduced to the shapes the scanner distinguishes.
/// Children of every variant appear in depth-first source order.
pub enum Expr {
    /// A dynamic `import(...)` call; `import_span` covers the `import`
    /// keyword, `args` the call arguments in order.
    ImportCall { span: Span, import_span: Span, args: Vec<Expr> },
    StrLit(StrLit),
    ObjectLit { span: Span, children: Vec<Expr> },
    /// An `import.meta` expression.
    ImportMeta { span: Span },
    /// Any other expression; only its nested expressions are kept.
    Other { children: Vec<Expr> },
}

/// A statement: a top-level expression statement (whose shape matters to
/// facade classification) or any other statement with its nested
/// expressions.
pub enum Stmt {
    Expr { expr: Expr },
    Other { children: Vec<Expr> },
}

/// A top-level import/export declaration. Variants that may nest further
/// expressions carry them in depth-first source order.
pub enum ModuleDecl {
    Import(ImportDecl),
    ExportNamed(NamedExport),
    ExportDecl { span: Span, decl: Decl, children: Vec<Expr> },
    ExportDefaultDecl { span: Span, decl: DefaultDecl, children: Vec<Expr> },
    ExportDefaultExpr { span: Span, expr: Expr },
    ExportAll { span: Span, src: StrLit, with_span: Option<Span> },
    /// `import a = b.c;` — not supported, produces no record.
    TsImportEquals,
    /// `export = expr;` — not supported; its expression is still traversed.
    TsExportAssignment { children: Vec<Expr> },
    /// `export as namespace a;` — produces no record.
    TsNamespaceExport,
}

/// One top-level item of a module.
pub enum ModuleItem {
    Decl(ModuleDecl),
    Stmt(Stmt),
}

/// A parsed module: its top-level items in source order.
pub struct Module {
    pub body: Vec<ModuleItem>,
}

/// A span lies within a source text of `n` code units.
pub open spec fn wf_span(sp: Span, n: int) -> bool {
    sp.lo <= sp.hi <= n
}

/// A string literal's span is well formed and wide enough for its quotes.
pub open spec fn wf_strlit(s: StrLit, n: int) -> bool {
    sp_lo(s.span) + 2 <= s.span.hi <= n
}

/// Helper to keep trigger shapes simple.
pub open spec fn sp_lo(sp: Span) -> int {
    sp.lo as int
}

pub open spec fn wf_ident(id: Ident, n: int) -> bool {
    wf_span(id.span, n)
}

pub open spec fn wf_opt_span(w: Option<Span>, n: int) -> bool {
    match w {
        Some(sp) => wf_span(sp, n),
        None => true,
    }
}

pub open spec fn wf_export_name(m: ModuleExportName, n: int) -> bool {
    match m {
        ModuleExportName::Ident(id) => wf_ident(id, n),
        ModuleExportName::Str(s) => wf_strlit(s, n),
    }
}

pub open spec fn wf_import_decl(d: ImportDecl, n: int) -> bool {
    wf_span(d.span, n) && wf_strlit(d.src, n) && wf_opt_span(d.with_span, n)
}

pub open spec fn wf_export_spec(s: ExportSpec, n: int) -> bool {
    match s {
        ExportSpec::Named { orig, exported, is_type_only } => wf_export_name(orig, n) && match exported {
            Some(x) => wf_export_name(x, n),
            None => true,
        },
        ExportSpec::DefaultBinding => true,
        ExportSpec::Namespace { name } => wf_export_name(name, n),
    }
}

pub open spec fn wf_export_specs(ss: Seq<ExportSpec>, n: int) -> bool {
    forall|i: int| 0 <= i < ss.len() ==> #[trigger] wf_export_spec(ss[i], n)
}

pub open spec fn wf_named_export(e: NamedExport, n: int) -> bool {
    &&& wf_span(e.span, n)
    &&& match e.src {
        Some(s) => wf_strlit(s, n),
        None => true,
    }
    &&& wf_opt_span(e.with_span, n)
    &&& wf_export_specs(e.specifiers@, n)
}

pub open spec fn wf_prop(p: ObjectPatProp, n: int) -> bool {
    match p {
        ObjectPatProp::Assign { key } => wf_ident(key, n),
        _ => true,
    }
}

pub open spec fn wf_props(ps: Seq<ObjectPatProp>, n: int) -> bool {
    forall|i: int| 0 <= i < ps.len() ==> #[trigger] wf_prop(ps[i], n)
}

pub open spec fn wf_elem(e: ArrayPatElem, n: int) -> bool {
    match e {
        ArrayPatElem::Ident(id) => wf_ident(id, n),
        _ => true,
    }
}

pub open spec fn wf_elems(es: Seq<ArrayPatElem>, n: int) -> bool {
    forall|i: int| 0 <= i < es.len() ==> #[trigger] wf_elem(es[i], n)
}

pub open spec fn wf_pat(p: Pat, n: int) -> bool {
    match p {
        Pat::Ident(id) => wf_ident(id, n),
        Pat::Object { props } => wf_props(props@, n),
        Pat::Array { elems } => wf_elems(elems@, n),
        Pat::Other => true,
    }
}

pub open spec fn wf_pats(ps: Seq<Pat>, n: int) -> bool {
    forall|i: int| 0 <= i < ps.len() ==> #[trigger] wf_pat(ps[i], n)
}

pub open spec fn wf_decl(d: Decl, n: int) -> bool {
    match d {
        Decl::Class { ident } => wf_ident(ident, n),
        Decl::Func { ident } => wf_ident(ident, n),
        Decl::Var { pats } => wf_pats(pats@, n),
        Decl::Using => true,
        Decl::TsEnum { ident } => wf_ident(ident, n),
        Decl::TsModule { ident } => match ident {
            Some(id) => wf_ident(id, n),
            None => true,
        },
        Decl::TsInterface => true,
        Decl::TsTypeAlias => true,
    }
}

pub open spec fn wf_default_decl(d: DefaultDecl, n: int) -> bool {
    match d {
        DefaultDecl::Class { ident } | DefaultDecl::Func { ident } => match ident {
            Some(id) => wf_ident(id, n),
            None => true,
        },
        DefaultDecl::TsInterface => true,
    }
}

pub open spec fn wf_expr(e: Expr, n: int) -> bool
    decreases e,
{
    match e {
        Expr::ImportCall { span, import_span, args } => {
            &&& wf_span(span, n)
            &&& sp_lo(span) < span.hi
            &&& wf_span(import_span, n)
            &&& wf_exprs(args@, n)
        },
        Expr::StrLit(s) => wf_strlit(s, n),
        Expr::ObjectLit { span, children } => wf_span(span, n) && wf_exprs(children@, n),
        Expr::ImportMeta { span } => wf_span(span, n),
        Expr::Other { children } => wf_exprs(children@, n),
    }
}

pub open spec fn wf_exprs(es: Seq<Expr>, n: int) -> bool
    decreases es,
{
    es.len() == 0 || (wf_expr(es[0], n) && wf_exprs(es.drop_first(), n))
}

/// Well-formedness of an expression list passes to each element.
pub proof fn lemma_wf_exprs_index(es: Seq<Expr>, n: int, i: int)
    requires
        wf_exprs(es, n),
        0 <= i < es.len(),
    ensures
        wf_expr(es[i], n),
    decreases i,
{
    if i == 0 {
        assert(wf_expr(es[0], n));
    } else {
        lemma_wf_exprs_index(es.drop_first(), n, i - 1);
        assert(es.drop_first()[i - 1] == es[i]);
    }
}

pub open spec fn wf_stmt(s: Stmt, n: int) -> bool {
    match s {
        Stmt::Expr { expr } => wf_expr(expr, n),
        Stmt::Other { children } => wf_exprs(children@, n),
    }
}

pub open spec fn wf_module_decl(d: ModuleDecl, n: int) -> bool {
    match d {
        ModuleDecl::Import(i) => wf_import_decl(i, n),
        ModuleDecl::ExportNamed(e) => wf_named_export(e, n),
        ModuleDecl::ExportDecl { span, decl, children } => wf_span(span, n) && wf_decl(decl, n)
            && wf_exprs(children@, n),
        ModuleDecl::ExportDefaultDecl { span, decl, children } => wf_span(span, n) && sp_lo(span)
            + 6 <= span.hi && wf_default_decl(decl, n) && wf_exprs(children@, n),
        ModuleDecl::ExportDefaultExpr { span, expr } => wf_span(span, n) && sp_lo(span) + 6
            <= span.hi && wf_expr(expr, n),
        ModuleDecl::ExportAll { span, src, with_span } => wf_span(span, n) && wf_strlit(src, n)
            && wf_opt_span(with_span, n),
        ModuleDecl::TsImportEquals => true,
        ModuleDecl::TsExportAssignment { children } => wf_exprs(children@, n),
        ModuleDecl::TsNamespaceExport => true,
    }
}

pub open spec fn wf_item(it: ModuleItem, n: int) -> bool {
    match it {
        ModuleItem::Decl(d) => wf_module_decl(d, n),
        ModuleItem::Stmt(s) => wf_stmt(s, n),
    }
}

pub open spec fn wf_items(items: Seq<ModuleItem>, n: int) -> bool {
    forall|i: int| 0 <= i < items.len() ==> #[trigger] wf_item(items[i], n)
}

/// Every span of the module lies within a source text of `n` code units,
/// with the width lower bounds that the scanned constructs guarantee.
pub open spec fn wf_module(m: Module, n: int) -> bool {
    wf_items(m.body@, n)
}

fn check_span(sp: &Span, n: usize) -> (b: bool)
    ensures
        b == wf_span(*sp, n as int),
{
    sp.lo <= sp.hi && sp.hi <= n
}

fn check_strlit(s: &StrLit, n: usize) -> (b: bool)
    ensures
        b == wf_strlit(*s, n as int),
{
    s.span.hi <= n && 2 <= s.span.hi && s.span.lo <= s.span.hi - 2
}

fn check_ident(id: &Ident, n: usize) -> (b: bool)
    ensures
        b == wf_ident(*id, n as int),
{
    check_span(&id.span, n)
}

fn check_opt_span(w: &Option<Span>, n: usize) -> (b: bool)
    ensures
        b == wf_opt_span(*w, n as int),
{
    match w {
        Some(sp) => check_span(sp, n),
        None => true,
    }
}

fn check_export_name(m: &ModuleExportName, n: usize) -> (b: bool)
    ensures
        b == wf_export_name(*m, n as int),
{
    match m {
        ModuleExportName::Ident(id) => check_ident(id, n),
        ModuleExportName::Str(s) => check_strlit(s, n),
    }
}

fn check_export_spec(s: &ExportSpec, n: usize) -> (b: bool)
    ensures
        b == wf_export_spec(*s, n as int),
{
    match s {
        ExportSpec::Named { orig, exported, .. } => check_export_name(orig, n) && match exported {
            Some(x) => check_export_name(x, n),
            None => true,
        },
        ExportSpec::DefaultBinding => true,
        ExportSpec::Namespace { name } => check_export_name(name, n),
    }
}

fn check_export_specs(ss: &Vec<ExportSpec>, n: usize) -> (b: bool)
    ensures
        b == wf_export_specs(ss@, n as int),
{
    let len: usize = ss.len();
    let mut i: usize = 0;
    while i < len
        invariant
            i <= len == ss@.len(),
            forall|j: int| 0 <= j < i ==> #[trigger] wf_export_spec(ss@[j], n as int),
        decreases len - i,
    {
        if !check_export_spec(&ss[i], n) {
            proof {
                assert(!wf_export_spec(ss@[i as int], n as int));
            }
            return false;
        }
        i = i + 1;
    }
    true
}

fn check_props(props: &Vec<ObjectPatProp>, n: usize) -> (b: bool)
    ensures
        b == wf_props(props@, n as int),
{
    let len: usize = props.len();
    let mut i: usize = 0;
    while i < len
        invariant
            i <= len == props@.len(),
            forall|j: int| 0 <= j < i ==> #[trigger] wf_prop(props@[j], n as int),
        decreases len - i,
    {
        let ok: bool = match &props[i] {
            ObjectPatProp::Assign { key } => check_ident(key, n),
            _ => true,
        };
        proof {
            assert(ok == wf_prop(props@[i as int], n as int));
        }
        if !ok {
            return false;
        }
        i = i + 1;
    }
    true
}

fn check_elems(elems: &Vec<ArrayPatElem>, n: usize) -> (b: bool)
    ensures
        b == wf_elems(elems@, n as int),
{
    let len: usize = elems.len();
    let mut i: usize = 0;
    while i < len
        invariant
            i <= len == elems@.len(),
            forall|j: int| 0 <= j < i ==> #[trigger] wf_elem(elems@[j], n as int),
        decreases len - i,
    {
        let ok: bool = match &elems[i] {
            ArrayPatElem::Ident(id) => check_ident(id, n),
            _ => true,
        };
        proof {
            assert(ok == wf_elem(elems@[i as int], n as int));
        }
        if !ok {
            return false;
        }
        i = i + 1;
    }
    true
}

fn check_pat(p: &Pat, n: usize) -> (b: bool)
    ensures
        b == wf_pat(*p, n as int),
{
    match p {
        Pat::Ident(id) => check_ident(id, n),
        Pat::Object { props } => check_props(props, n),
        Pat::Array { elems } => check_elems(elems, n),
        Pat::Other => true,
    }
}

fn check_pats(pats: &Vec<Pat>, n: usize) -> (b: bool)
    ensures
        b == wf_pats(pats@, n as int),
{
    let len: usize = pats.len();
    let mut i: usize = 0;
    while i < len
        invariant
            i <= len == pats@.len(),
            forall|j: int| 0 <= j < i ==> #[trigger] wf_pat(pats@[j], n as int),
        decreases len - i,
    {
        if !check_pat(&pats[i], n) {
            proof {
                assert(!wf_pat(pats@[i as int], n as int));
            }
            return false;
        }
        i = i + 1;
    }
    true
}

fn check_decl(d: &Decl, n: usize) -> (b: bool)
    ensures
        b == wf_decl(*d, n as int),
{
    match d {
        Decl::Class { ident } => check_ident(ident, n),
        Decl::Func { ident } => check_ident(ident, n),
        Decl::Var { pats } => check_pats(pats, n),
        Decl::Using => true,
        Decl::TsEnum { ident } => check_ident(ident, n),
        Decl::TsModule { ident } => match ident {
            Some(id) => check_ident(id, n),
            None => true,
        },
        Decl::TsInterface => true,
        Decl::TsTypeAlias => true,
    }
}

fn check_default_decl(d: &DefaultDecl, n: usize) -> (b: bool)
    ensures
        b == wf_default_decl(*d, n as int),
{
    match d {
        DefaultDecl::Class { ident } | DefaultDecl::Func { ident } => match ident {
            Some(id) => check_ident(id, n),
            None => true,
        },
        DefaultDecl::TsInterface => true,
    }
}

fn check_expr(e: &Expr, n: usize) -> (b: bool)
    ensures
        b == wf_expr(*e, n as int),
    decreases *e,
{
    match e {
        Expr::ImportCall { span, import_span, args } => check_span(span, n) && span.lo < span.hi
            && check_span(import_span, n) && check_exprs(args, n),
        Expr::StrLit(s) => check_strlit(s, n),
        Expr::ObjectLit { span, children } => check_span(span, n) && check_exprs(children, n),
        Expr::ImportMeta { span } => check_span(span, n),
        Expr::Other { children } => check_exprs(children, n),
    }
}

fn check_exprs(es: &Vec<Expr>, n: usize) -> (b: bool)
    ensures
        b == wf_exprs(es@, n as int),
    decreases es@,
{
    let ghost seq_all = es@;
    proof {
        assert(seq_all.skip(0) =~= seq_all);
    }
    let len: usize = es.len();
    let mut i: usize = 0;
    while i < len
        invariant
            i <= len == seq_all.len(),
            seq_all == es@,
            wf_exprs(seq_all, n as int) == wf_exprs(seq_all.skip(i as int), n as int),
        decreases len - i,
    {
        proof {
            assert(seq_all.skip(i as int)[0] == seq_all[i as int]);
            assert(seq_all.skip(i as int).drop_first() =~= seq_all.skip(i as int + 1));
        }
        if !check_expr(&es[i], n) {
            return false;
        }
        i = i + 1;
    }
    proof {
        assert(seq_all.skip(len as int) =~= Seq::<Expr>::empty());
    }
    true
}

fn check_import_decl(d: &ImportDecl, n: usize) -> (b: bool)
    ensures
        b == wf_import_decl(*d, n as int),
{
    check_span(&d.span, n) && check_strlit(&d.src, n) && check_opt_span(&d.with_span, n)
}

fn check_named_export(e: &NamedExport, n: usize) -> (b: bool)
    ensures
        b == wf_named_export(*e, n as int),
{
    let src_ok: bool = match &e.src {
        Some(s) => check_strlit(s, n),
        None => true,
    };
    check_span(&e.span, n) && src_ok && check_opt_span(&e.with_span, n) && check_export_specs(
        &e.specifiers,
        n,
    )
}

fn check_module_decl(d: &ModuleDecl, n: usize) -> (b: bool)
    ensures
        b == wf_module_decl(*d, n as int),
{
    match d {
        ModuleDecl::Import(i) => check_import_decl(i, n),
        ModuleDecl::ExportNamed(e) => check_named_export(e, n),
        ModuleDecl::ExportDecl { span, decl, children } => check_span(span, n) && check_decl(
            decl,
            n,
        ) && check_exprs(children, n),
        ModuleDecl::ExportDefaultDecl { span, decl, children } => check_span(span, n) && span.hi
            >= 6 && span.lo <= span.hi - 6 && check_default_decl(decl, n) && check_exprs(
            children,
            n,
        ),
        ModuleDecl::ExportDefaultExpr { span, expr } => check_span(span, n) && span.hi >= 6
            && span.lo <= span.hi - 6 && check_expr(expr, n),
        ModuleDecl::ExportAll { span, src, with_span } => check_span(span, n) && check_strlit(
            src,
            n,
        ) && check_opt_span(with_span, n),
        ModuleDecl::TsImportEquals => true,
        ModuleDecl::TsExportAssignment { children } => check_exprs(children, n),
        ModuleDecl::TsNamespaceExport => true,
    }
}

fn check_item(it: &ModuleItem, n: usize) -> (b: bool)
    ensures
        b == wf_item(*it, n as int),
{
    match it {
        ModuleItem::Decl(d) => check_module_decl(d, n),
        ModuleItem::Stmt(s) => match s {
            Stmt::Expr { expr } => check_expr(expr, n),
            Stmt::Other { children } => check_exprs(children, n),
        },
    }
}

/// Decide at run time whether every span of the module lies within a
/// source text of `code_len` code units, exactly as [`wf_module`] states.
pub fn check_module_wf(module: &Module, code_len: usize) -> (b: bool)
    ensures
        b == wf_module(*module, code_len as int),
{
    let len: usize = module.body.len();
    let mut i: usize = 0;
    while i < len
        invariant
            i <= len == module.body@.len(),
            forall|j: int| 0 <= j < i ==> #[trigger] wf_item(module.body@[j], code_len as int),
        decreases len - i,
    {
        if !check_item(&module.body[i], code_len) {
            proof {
                assert(!wf_item(module.body@[i as int], code_len as int));
            }
            return false;
        }
        i = i + 1;
    }
    true
}

} // verus!
