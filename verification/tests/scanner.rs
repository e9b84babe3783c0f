use module_lexer::ast::ArrayPatElem;
use module_lexer::ast::Decl;
use module_lexer::ast::DefaultDecl;
use module_lexer::ast::ExportSpec;
use module_lexer::ast::Expr;
use module_lexer::ast::Ident;
use module_lexer::ast::ImportDecl;
use module_lexer::ast::ImportSpec;
use module_lexer::ast::Module;
use module_lexer::ast::ModuleDecl;
use module_lexer::ast::ModuleExportName;
use module_lexer::ast::ModuleItem;
use module_lexer::ast::NamedExport;
use module_lexer::ast::ObjectPatProp;
use module_lexer::ast::Pat;
use module_lexer::ast::Span;
use module_lexer::ast::StrLit;
use module_lexer::decl::ImportKind;
use module_lexer::visitor::scan_module;
use module_lexer::visitor::try_scan_module;
use module_lexer::visitor::ImportExportVisitor;

fn units(s: &str) -> Vec<u16> {
    s.encode_utf16().collect()
}

fn sp(lo: usize, hi: usize) -> Span {
    Span { lo, hi }
}

fn lit(lo: usize, hi: usize, v: &str) -> StrLit {
    StrLit { span: sp(lo, hi), value: v.to_string() }
}

fn ident(lo: usize, hi: usize, s: &str) -> Ident {
    Ident { span: sp(lo, hi), sym: s.to_string() }
}

fn scan(src: &str, body: Vec<ModuleItem>) -> ImportExportVisitor {
    scan_module(units(src), &Module { body })
}

fn bare_import(src: &str, span: Span, src_lit: StrLit) -> (String, Vec<ModuleItem>) {
    (
        src.to_string(),
        vec![ModuleItem::Decl(ModuleDecl::Import(ImportDecl {
            span,
            src: src_lit,
            type_only: false,
            specifiers: vec![],
            with_span: None,
        }))],
    )
}

#[test]
fn bare_import_offsets_and_trailing_trim() {
    // import 'm';   (three trailing spaces; the `;` sits at offset 10)
    let (src, body) = bare_import("import 'm';   ", sp(0, 11), lit(7, 10, "m"));
    let v = scan(&src, body);
    assert_eq!(v.imports.len(), 1);
    let rec = &v.imports[0];
    assert_eq!(rec.n.as_deref(), Some("m"));
    assert_eq!(rec.s, 8);
    assert_eq!(rec.e, 9);
    assert_eq!(rec.ss, 0);
    // one past the closing quote: the semicolon is trimmed away
    assert_eq!(rec.se, 10);
    assert_eq!(rec.d, -1);
    assert_eq!(rec.a, -1);
    assert_eq!(rec.kind, ImportKind::Static);
    assert!(v.exports.is_empty());
    assert!(v.has_module_syntax);
    assert!(v.facade);
}

#[test]
fn trailing_trim_keeps_untrimmable_end() {
    // statement span ends right at the closing quote already
    let (src, body) = bare_import("import 'm'", sp(0, 10), lit(7, 10, "m"));
    let v = scan(&src, body);
    assert_eq!(v.imports[0].se, 10);
}

#[test]
fn scan_is_deterministic() {
    let make = || bare_import("import 'm';   ", sp(0, 11), lit(7, 10, "m"));
    let (src1, body1) = make();
    let (src2, body2) = make();
    let v1 = scan(&src1, body1);
    let v2 = scan(&src2, body2);
    assert_eq!(v1.imports, v2.imports);
    assert_eq!(v1.exports, v2.exports);
    assert_eq!(v1.facade, v2.facade);
    assert_eq!(v1.has_module_syntax, v2.has_module_syntax);
}

#[test]
fn type_only_import_is_suppressed() {
    // import type { a } from 'm'
    let src = "import type { a } from 'm'";
    let body = vec![ModuleItem::Decl(ModuleDecl::Import(ImportDecl {
        span: sp(0, 26),
        src: lit(23, 26, "m"),
        type_only: true,
        specifiers: vec![ImportSpec::Named { is_type_only: false }],
        with_span: None,
    }))];
    let v = scan(src, body);
    assert!(v.imports.is_empty());
    assert!(v.exports.is_empty());
}

#[test]
fn all_type_only_specifiers_are_suppressed() {
    // import { type a } from 'm'
    let src = "import { type a } from 'm'";
    let body = vec![ModuleItem::Decl(ModuleDecl::Import(ImportDecl {
        span: sp(0, 26),
        src: lit(23, 26, "m"),
        type_only: false,
        specifiers: vec![ImportSpec::Named { is_type_only: true }],
        with_span: None,
    }))];
    let v = scan(src, body);
    assert!(v.imports.is_empty());
}

#[test]
fn mixed_type_only_specifiers_still_import() {
    // import a, { type b } from 'm'
    let src = "import a, { type b } from 'm'";
    let body = vec![ModuleItem::Decl(ModuleDecl::Import(ImportDecl {
        span: sp(0, 29),
        src: lit(26, 29, "m"),
        type_only: false,
        specifiers: vec![
            ImportSpec::DefaultBinding,
            ImportSpec::Named { is_type_only: true },
        ],
        with_span: None,
    }))];
    let v = scan(src, body);
    assert_eq!(v.imports.len(), 1);
    assert_eq!(v.imports[0].n.as_deref(), Some("m"));
    assert_eq!(v.imports[0].s, 27);
    assert_eq!(v.imports[0].e, 28);
}

#[test]
fn type_only_export_is_suppressed() {
    // export type { a } from 'm'
    let src = "export type { a } from 'm'";
    let body = vec![ModuleItem::Decl(ModuleDecl::ExportNamed(NamedExport {
        span: sp(0, 26),
        specifiers: vec![ExportSpec::Named {
            orig: ModuleExportName::Ident(ident(14, 15, "a")),
            exported: None,
            is_type_only: false,
        }],
        src: Some(lit(23, 26, "m")),
        type_only: true,
        with_span: None,
    }))];
    let v = scan(src, body);
    assert!(v.imports.is_empty());
    assert!(v.exports.is_empty());
}

#[test]
fn renamed_reexport_yields_one_export_and_one_import() {
    // export { a as b } from 'm';
    let src = "export { a as b } from 'm';";
    let body = vec![ModuleItem::Decl(ModuleDecl::ExportNamed(NamedExport {
        span: sp(0, 27),
        specifiers: vec![ExportSpec::Named {
            orig: ModuleExportName::Ident(ident(9, 10, "a")),
            exported: Some(ModuleExportName::Ident(ident(14, 15, "b"))),
            is_type_only: false,
        }],
        src: Some(lit(23, 26, "m")),
        type_only: false,
        with_span: None,
    }))];
    let v = scan(src, body);
    assert_eq!(v.exports.len(), 1);
    let e = &v.exports[0];
    assert_eq!(e.n, "b");
    assert_eq!(e.ln.as_deref(), Some("a"));
    assert_eq!((e.s, e.e), (14, 15));
    assert_eq!((e.ls, e.le), (9, 10));
    assert_eq!(v.imports.len(), 1);
    let i = &v.imports[0];
    assert_eq!(i.n.as_deref(), Some("m"));
    assert_eq!((i.s, i.e), (24, 25));
    assert_eq!(i.ss, 0);
    assert_eq!(i.se, 26);
    assert_eq!(i.d, -1);
}

#[test]
fn namespace_reexport_has_no_local_name() {
    // export * as ns from 'm';
    let src = "export * as ns from 'm';";
    let body = vec![ModuleItem::Decl(ModuleDecl::ExportNamed(NamedExport {
        span: sp(0, 24),
        specifiers: vec![ExportSpec::Namespace {
            name: ModuleExportName::Ident(ident(12, 14, "ns")),
        }],
        src: Some(lit(20, 23, "m")),
        type_only: false,
        with_span: None,
    }))];
    let v = scan(src, body);
    assert_eq!(v.exports.len(), 1);
    let e = &v.exports[0];
    assert_eq!(e.n, "ns");
    assert_eq!(e.ln, None);
    assert_eq!((e.s, e.e), (12, 14));
    assert_eq!((e.ls, e.le), (-1, -1));
    assert_eq!(v.imports.len(), 1);
    assert_eq!(v.imports[0].n.as_deref(), Some("m"));
}

#[test]
fn export_all_yields_import_only() {
    // export * from 'a';
    let src = "export * from 'a';";
    let body = vec![ModuleItem::Decl(ModuleDecl::ExportAll {
        span: sp(0, 18),
        src: lit(14, 17, "a"),
        with_span: None,
    })];
    let v = scan(src, body);
    assert!(v.exports.is_empty());
    assert_eq!(v.imports.len(), 1);
    assert_eq!(v.imports[0].n.as_deref(), Some("a"));
    assert_eq!((v.imports[0].s, v.imports[0].e), (15, 16));
    assert_eq!(v.imports[0].se, 17);
}

#[test]
fn facade_of_pure_reexports_and_its_loss() {
    // export * from 'a'; export { b } from 'c';
    let src = "export * from 'a'; export { b } from 'c';";
    let reexports = || {
        vec![
            ModuleItem::Decl(ModuleDecl::ExportAll {
                span: sp(0, 18),
                src: lit(14, 17, "a"),
                with_span: None,
            }),
            ModuleItem::Decl(ModuleDecl::ExportNamed(NamedExport {
                span: sp(19, 41),
                specifiers: vec![ExportSpec::Named {
                    orig: ModuleExportName::Ident(ident(28, 29, "b")),
                    exported: None,
                    is_type_only: false,
                }],
                src: Some(lit(37, 40, "c")),
                type_only: false,
                with_span: None,
            })),
        ]
    };
    let v = scan(src, reexports());
    assert!(v.facade);
    assert!(v.has_module_syntax);

    // appending `console.log(1)` at top level flips the classification
    let with_stmt = "export * from 'a'; export { b } from 'c'; console.log(1);";
    let mut body = reexports();
    body.push(ModuleItem::Stmt(module_lexer::ast::Stmt::Other { children: vec![] }));
    let v2 = scan(with_stmt, body);
    assert!(!v2.facade);
}

#[test]
fn facade_allows_single_literal_dynamic_import_statement() {
    // import('pkg');  as a whole statement keeps facade-eligibility
    let src = "import('pkg');";
    let call = Expr::ImportCall {
        span: sp(0, 13),
        import_span: sp(0, 6),
        args: vec![Expr::StrLit(lit(7, 12, "pkg"))],
    };
    let body = vec![ModuleItem::Stmt(module_lexer::ast::Stmt::Expr { expr: call })];
    let v = scan(src, body);
    assert!(v.facade);
    assert_eq!(v.imports.len(), 1);
    // but no top-level import/export declaration and no import.meta:
    assert!(!v.has_module_syntax);
}

#[test]
fn dynamic_import_offsets_inside_expression() {
    // let x = import('pkg');
    let src = "let x = import('pkg');";
    let call = Expr::ImportCall {
        span: sp(8, 21),
        import_span: sp(8, 14),
        args: vec![Expr::StrLit(lit(15, 20, "pkg"))],
    };
    let body = vec![ModuleItem::Stmt(module_lexer::ast::Stmt::Other {
        children: vec![call],
    })];
    let v = scan(src, body);
    assert_eq!(v.imports.len(), 1);
    let rec = &v.imports[0];
    assert_eq!(rec.n.as_deref(), Some("pkg"));
    // source span covers 'pkg' including the quotes
    assert_eq!((rec.s, rec.e), (15, 20));
    // the dynamic marker is the offset of the `(`
    assert_eq!(rec.d, 14);
    assert_eq!((rec.ss, rec.se), (8, 21));
    assert_eq!(rec.a, -1);
    assert_eq!(rec.kind, ImportKind::Dynamic);
}

#[test]
fn dynamic_import_non_literal_argument() {
    // import(x)
    let src = "import(x)";
    let call = Expr::ImportCall {
        span: sp(0, 9),
        import_span: sp(0, 6),
        args: vec![Expr::Other { children: vec![] }],
    };
    let body = vec![ModuleItem::Stmt(module_lexer::ast::Stmt::Other { children: vec![call] })];
    let v = scan(src, body);
    assert_eq!(v.imports.len(), 1);
    let rec = &v.imports[0];
    assert_eq!(rec.n, None);
    // interior of the parentheses
    assert_eq!((rec.s, rec.e), (7, 8));
    assert_eq!(rec.d, 6);
}

#[test]
fn dynamic_import_without_arguments_yields_no_record() {
    let src = "import()";
    let call = Expr::ImportCall { span: sp(0, 8), import_span: sp(0, 6), args: vec![] };
    let body = vec![ModuleItem::Stmt(module_lexer::ast::Stmt::Other { children: vec![call] })];
    let v = scan(src, body);
    assert!(v.imports.is_empty());
}

#[test]
fn dynamic_import_attributes_offset() {
    // import('m', { with: { type: 'json' } })
    let src = "import('m', { with: { type: 'json' } })";
    let call = Expr::ImportCall {
        span: sp(0, 39),
        import_span: sp(0, 6),
        args: vec![
            Expr::StrLit(lit(7, 10, "m")),
            Expr::ObjectLit { span: sp(12, 38), children: vec![] },
        ],
    };
    let body = vec![ModuleItem::Stmt(module_lexer::ast::Stmt::Other { children: vec![call] })];
    let v = scan(src, body);
    assert_eq!(v.imports.len(), 1);
    assert_eq!(v.imports[0].a, 12);
}

#[test]
fn static_import_attributes_offset() {
    // import 'm' with { type: 'json' };
    let src = "import 'm' with { type: 'json' };";
    let body = vec![ModuleItem::Decl(ModuleDecl::Import(ImportDecl {
        span: sp(0, 33),
        src: lit(7, 10, "m"),
        type_only: false,
        specifiers: vec![],
        with_span: Some(sp(16, 32)),
    }))];
    let v = scan(src, body);
    assert_eq!(v.imports.len(), 1);
    assert_eq!(v.imports[0].a, 16);
}

#[test]
fn import_meta_forces_module_syntax() {
    // const u = import.meta.url;  (no top-level import/export statement)
    let src = "const u = import.meta.url;";
    let body = vec![ModuleItem::Stmt(module_lexer::ast::Stmt::Other {
        children: vec![Expr::ImportMeta { span: sp(10, 21) }],
    })];
    let v = scan(src, body);
    assert!(v.has_module_syntax);
    assert_eq!(v.imports.len(), 1);
    let rec = &v.imports[0];
    assert_eq!(rec.d, -2);
    assert_eq!(rec.n, None);
    assert_eq!((rec.s, rec.e), (10, 21));
    assert_eq!((rec.ss, rec.se), (10, 21));
    assert_eq!(rec.kind, ImportKind::ImportMeta);
    assert!(!v.facade);
}

#[test]
fn default_export_of_named_function_links_local_name() {
    // export default function foo(){}
    let src = "export default function foo(){}";
    let body = vec![ModuleItem::Decl(ModuleDecl::ExportDefaultDecl {
        span: sp(0, 31),
        decl: DefaultDecl::Func { ident: Some(ident(24, 27, "foo")) },
        children: vec![],
    })];
    let v = scan(src, body);
    assert_eq!(v.exports.len(), 1);
    let e = &v.exports[0];
    assert_eq!(e.n, "default");
    assert_eq!(e.ln.as_deref(), Some("foo"));
    // the word `default` in the source text
    assert_eq!((e.s, e.e), (7, 14));
    // the identifier `foo`
    assert_eq!((e.ls, e.le), (24, 27));
    assert!(!v.facade);
}

#[test]
fn default_export_of_anonymous_class() {
    // export default class {}
    let src = "export default class {}";
    let body = vec![ModuleItem::Decl(ModuleDecl::ExportDefaultDecl {
        span: sp(0, 23),
        decl: DefaultDecl::Class { ident: None },
        children: vec![],
    })];
    let v = scan(src, body);
    assert_eq!(v.exports.len(), 1);
    let e = &v.exports[0];
    assert_eq!(e.n, "default");
    assert_eq!(e.ln, None);
    assert_eq!((e.s, e.e), (7, 14));
    assert_eq!((e.ls, e.le), (-1, -1));
}

#[test]
fn default_export_expression_uses_keyword_span() {
    // export  default   42  (extra spaces: the keyword is searched, not assumed)
    let src = "export  default   42";
    let body = vec![ModuleItem::Decl(ModuleDecl::ExportDefaultExpr {
        span: sp(0, 20),
        expr: Expr::Other { children: vec![] },
    })];
    let v = scan(src, body);
    assert_eq!(v.exports.len(), 1);
    let e = &v.exports[0];
    assert_eq!(e.n, "default");
    assert_eq!((e.s, e.e), (8, 15));
    assert_eq!(e.ln, None);
}

#[test]
fn export_declarations_and_destructuring() {
    // export const a = 1, { b } = o, [c] = r;
    let src = "export const a = 1, { b } = o, [c] = r;";
    let body = vec![ModuleItem::Decl(ModuleDecl::ExportDecl {
        span: sp(0, 39),
        decl: Decl::Var {
            pats: vec![
                Pat::Ident(ident(13, 14, "a")),
                Pat::Object {
                    props: vec![ObjectPatProp::Assign { key: ident(22, 23, "b") }],
                },
                Pat::Array { elems: vec![ArrayPatElem::Ident(ident(32, 33, "c"))] },
            ],
        },
        children: vec![],
    })];
    let v = scan(src, body);
    let names: Vec<&str> = v.exports.iter().map(|e| e.n.as_str()).collect();
    assert_eq!(names, vec!["a", "b", "c"]);
    for e in &v.exports {
        assert_eq!(e.ln.as_deref(), Some(e.n.as_str()));
        assert_eq!((e.ls, e.le), (e.s, e.e));
    }
    assert_eq!(v.exports[0].s, 13);
    assert!(!v.facade);
}

#[test]
fn keyed_rename_and_rest_patterns_are_skipped() {
    // export const { a: b, ...rest } = o;
    let src = "export const { a: b, ...rest } = o;";
    let body = vec![ModuleItem::Decl(ModuleDecl::ExportDecl {
        span: sp(0, 35),
        decl: Decl::Var {
            pats: vec![Pat::Object {
                props: vec![ObjectPatProp::KeyValue, ObjectPatProp::Rest],
            }],
        },
        children: vec![],
    })];
    let v = scan(src, body);
    assert!(v.exports.is_empty());
}

#[test]
fn exported_namespace_body_is_opaque() {
    // export namespace A { import('x') }  — nothing inside is scanned
    let src = "export namespace A { import('x') }";
    let body = vec![ModuleItem::Decl(ModuleDecl::ExportDecl {
        span: sp(0, 34),
        decl: Decl::TsModule { ident: Some(ident(17, 18, "A")) },
        children: vec![Expr::ImportCall {
            span: sp(21, 32),
            import_span: sp(21, 27),
            args: vec![Expr::StrLit(lit(28, 31, "x"))],
        }],
    })];
    let v = scan(src, body);
    assert_eq!(v.exports.len(), 1);
    assert_eq!(v.exports[0].n, "A");
    assert!(v.imports.is_empty());
}

#[test]
fn exported_class_body_is_scanned_for_dynamic_imports() {
    // export class C { m() { import('x') } }
    let src = "export class C { m() { import('x') } }";
    let body = vec![ModuleItem::Decl(ModuleDecl::ExportDecl {
        span: sp(0, 38),
        decl: Decl::Class { ident: ident(13, 14, "C") },
        children: vec![Expr::ImportCall {
            span: sp(23, 34),
            import_span: sp(23, 29),
            args: vec![Expr::StrLit(lit(30, 33, "x"))],
        }],
    })];
    let v = scan(src, body);
    assert_eq!(v.exports.len(), 1);
    assert_eq!(v.exports[0].n, "C");
    assert_eq!(v.imports.len(), 1);
    assert_eq!(v.imports[0].n.as_deref(), Some("x"));
}

#[test]
fn try_scan_rejects_out_of_range_spans() {
    let src = "import 'm'";
    let body = vec![ModuleItem::Decl(ModuleDecl::Import(ImportDecl {
        span: sp(0, 99),
        src: lit(7, 10, "m"),
        type_only: false,
        specifiers: vec![],
        with_span: None,
    }))];
    let r = try_scan_module(units(src), &Module { body });
    assert!(r.is_none());
}

#[test]
fn try_scan_accepts_well_formed_modules() {
    let (src, body) = bare_import("import 'm';   ", sp(0, 11), lit(7, 10, "m"));
    let r = try_scan_module(units(&src), &Module { body });
    assert!(r.is_some());
    assert_eq!(r.unwrap().imports.len(), 1);
}

#[test]
fn into_result_carries_all_fields() {
    let (src, body) = bare_import("import 'm';   ", sp(0, 11), lit(7, 10, "m"));
    let v = scan(&src, body);
    let imports = v.imports.clone();
    let r = v.into_result("a.ts".to_string());
    assert_eq!(r.filename, "a.ts");
    assert_eq!(r.imports, imports);
    assert!(r.exports.is_empty());
    assert!(r.facade);
    assert!(r.has_module_syntax);
}

#[test]
fn nested_dynamic_imports_record_outer_first() {
    // import(import('a'))
    let src = "import(import('a'))";
    let inner = Expr::ImportCall {
        span: sp(7, 18),
        import_span: sp(7, 13),
        args: vec![Expr::StrLit(lit(14, 17, "a"))],
    };
    let outer = Expr::ImportCall { span: sp(0, 19), import_span: sp(0, 6), args: vec![inner] };
    let body = vec![ModuleItem::Stmt(module_lexer::ast::Stmt::Other { children: vec![outer] })];
    let v = scan(src, body);
    assert_eq!(v.imports.len(), 2);
    assert_eq!(v.imports[0].n, None);
    assert_eq!(v.imports[0].d, 6);
    assert_eq!((v.imports[0].s, v.imports[0].e), (7, 18));
    assert_eq!(v.imports[1].n.as_deref(), Some("a"));
    assert_eq!(v.imports[1].d, 13);
    assert_eq!((v.imports[1].s, v.imports[1].e), (14, 17));
}

#[test]
fn exported_enum_yields_record() {
    // export enum E {}
    let src = "export enum E {}";
    let body = vec![ModuleItem::Decl(ModuleDecl::ExportDecl {
        span: sp(0, 16),
        decl: Decl::TsEnum { ident: ident(12, 13, "E") },
        children: vec![],
    })];
    let v = scan(src, body);
    assert_eq!(v.exports.len(), 1);
    assert_eq!(v.exports[0].n, "E");
    assert_eq!(v.exports[0].ln.as_deref(), Some("E"));
    assert!(!v.facade);
}

#[test]
fn export_assignment_yields_no_records_and_no_facade() {
    // export = foo;
    let src = "export = foo;";
    let body = vec![ModuleItem::Decl(ModuleDecl::TsExportAssignment {
        children: vec![Expr::Other { children: vec![] }],
    })];
    let v = scan(src, body);
    assert!(v.imports.is_empty());
    assert!(v.exports.is_empty());
    assert!(!v.facade);
    assert!(v.has_module_syntax);
}

#[test]
fn ambient_namespace_export_keeps_facade() {
    // export as namespace lib;
    let src = "export as namespace lib;";
    let body = vec![ModuleItem::Decl(ModuleDecl::TsNamespaceExport)];
    let v = scan(src, body);
    assert!(v.facade);
    assert!(v.imports.is_empty());
    assert!(v.exports.is_empty());
}
