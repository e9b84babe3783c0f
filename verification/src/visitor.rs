//! The executable scanner: a single depth-first traversal of the
//! syntax-tree model that accumulates the import and export records and
//! the two per-file facts, proved to produce exactly the sequences
//! specified in [`crate::semantics`].

use vstd::prelude::*;

use crate::ast::ArrayPatElem;
use crate::ast::Decl;
use crate::ast::DefaultDecl;
use crate::ast::ExportSpec;
use crate::ast::Expr;
use crate::ast::Ident;
use crate::ast::ImportDecl;
use crate::ast::ImportSpec;
use crate::ast::Module;
use crate::ast::ModuleDecl;
use crate::ast::ModuleExportName;
use crate::ast::ModuleItem;
use crate::ast::NamedExport;
use crate::ast::ObjectPatProp;
use crate::ast::Pat;
use crate::ast::Span;
use crate::ast::Stmt;
use crate::ast::StrLit;
use crate::ast::lemma_wf_exprs_index;
use crate::ast::wf_expr;
use crate::ast::wf_exprs;
use crate::ast::wf_item;
use crate::ast::wf_items;
use crate::ast::wf_module;
use crate::ast::wf_module_decl;
use crate::ast::wf_default_decl;
use crate::ast::wf_decl;
use crate::ast::wf_elem;
use crate::ast::wf_elems;
use crate::ast::wf_export_spec;
use crate::ast::wf_export_specs;
use crate::ast::wf_ident;
use crate::ast::wf_import_decl;
use crate::ast::wf_named_export;
use crate::ast::wf_opt_span;
use crate::ast::wf_pat;
use crate::ast::wf_pats;
use crate::ast::wf_prop;
use crate::ast::wf_props;
use crate::ast::wf_span;
use crate::ast::wf_strlit;
use crate::decl::ExportRecView;
use crate::decl::ImportKind;
use crate::decl::ImportRecView;
use crate::decl::ImportSpecifier;
use crate::decl::ExportSpecifier;
use crate::decl::ParseResult;
use crate::semantics::all_type_only_import_specs;
use crate::semantics::attr_offset;
use crate::semantics::default_expr_export_rec;
use crate::semantics::default_units;
use crate::semantics::decl_skips_children;
use crate::semantics::export_name_span;
use crate::semantics::export_name_sym;
use crate::semantics::export_recs_of_decl;
use crate::semantics::export_recs_of_elems;
use crate::semantics::export_recs_of_pat;
use crate::semantics::export_recs_of_pats;
use crate::semantics::export_recs_of_props;
use crate::semantics::export_recs_of_spec;
use crate::semantics::export_recs_of_specs;
use crate::semantics::export_spec_adds_import;
use crate::semantics::export_spec_is_type_only;
use crate::semantics::exports_of_default_decl;
use crate::semantics::exports_of_named;
use crate::semantics::all_type_only_export_specs;
use crate::semantics::ident_export_rec;
use crate::semantics::import_spec_is_type_only;
use crate::semantics::imports_of_import_decl;
use crate::semantics::named_export_needs_import;
use crate::semantics::dynamic_import_rec;
use crate::semantics::dynamic_attr_offset;
use crate::semantics::expr_has_meta;
use crate::semantics::exprs_have_meta;
use crate::semantics::exports_of_item;
use crate::semantics::exports_of_items;
use crate::semantics::exports_of_module;
use crate::semantics::exports_of_module_decl;
use crate::semantics::facade_of_items;
use crate::semantics::facade_of_module;
use crate::semantics::imports_of_expr;
use crate::semantics::imports_of_exprs;
use crate::semantics::imports_of_item;
use crate::semantics::imports_of_items;
use crate::semantics::imports_of_module;
use crate::semantics::imports_of_module_decl;
use crate::semantics::imports_of_named;
use crate::semantics::item_facade_ok;
use crate::semantics::item_has_meta;
use crate::semantics::item_is_decl;
use crate::semantics::items_have_decl;
use crate::semantics::items_have_meta;
use crate::semantics::lparen_units;
use crate::semantics::meta_rec;
use crate::semantics::module_decl_has_meta;
use crate::semantics::module_has_syntax;
use crate::semantics::static_import_rec;
use crate::text::find_index_of;
use crate::text::find_or_start;
use crate::text::trim_end_index;
use crate::text::trim_end_spec;
use vstd::string::StringExecFns;

verus! {

/// The four accumulators of one file's traversal, plus the source text as
/// UTF-16 code units.
pub struct ImportExportVisitor {
    pub imports: Vec<ImportSpecifier>,
    pub exports: Vec<ExportSpecifier>,
    pub facade: bool,
    pub has_module_syntax: bool,
    pub code: Vec<u16>,
}

impl ImportExportVisitor {
    /// Size bound on the code-unit buffer under which every offset
    /// computed by the scanner fits an `i32` record field.
    pub open spec fn inv(self) -> bool {
        self.code@.len() < 0x4000_0000
    }

    /// Both record lists empty, both facts false.
    pub fn new(code: Vec<u16>) -> (v: Self)
        requires
            code@.len() < 0x4000_0000,
        ensures
            v.inv(),
            v.code == code,
            v.imports.deep_view() == Seq::<ImportRecView>::empty(),
            v.exports.deep_view() == Seq::<crate::decl::ExportRecView>::empty(),
            !v.facade,
            !v.has_module_syntax,
    {
        let v = ImportExportVisitor {
            imports: Vec::new(),
            exports: Vec::new(),
            facade: false,
            has_module_syntax: false,
            code,
        };
        proof {
            assert(v.imports.deep_view() =~= Seq::<ImportRecView>::empty());
            assert(v.exports.deep_view() =~= Seq::<crate::decl::ExportRecView>::empty());
        }
        v
    }

    /// Append one import record, first trimming its construct-end offset
    /// backward past trailing whitespace and semicolons.
    fn add_import(&mut self, imp: ImportSpecifier)
        requires
            old(self).inv(),
            0 <= imp.se <= old(self).code@.len(),
        ensures
            final(self).inv(),
            final(self).code == old(self).code,
            final(self).exports == old(self).exports,
            final(self).facade == old(self).facade,
            final(self).has_module_syntax == old(self).has_module_syntax,
            final(self).imports.deep_view() == old(self).imports.deep_view().push(
                ImportRecView {
                    n: imp@.n,
                    s: imp@.s,
                    e: imp@.e,
                    ss: imp@.ss,
                    se: trim_end_spec(old(self).code@, imp.se as int),
                    d: imp@.d,
                    a: imp@.a,
                    kind: imp@.kind,
                },
            ),
    {
        let se: usize = trim_end_index(&self.code, imp.se as usize);
        let trimmed = ImportSpecifier {
            n: imp.n,
            s: imp.s,
            e: imp.e,
            ss: imp.ss,
            se: se as i32,
            d: imp.d,
            a: imp.a,
            kind: imp.kind,
        };
        self.imports.push(trimmed);
        proof {
            assert(self.imports.deep_view() =~= old(self).imports.deep_view().push(trimmed@));
        }
    }

    /// Append one export record.
    fn add_export(&mut self, exp: ExportSpecifier)
        requires
            old(self).inv(),
        ensures
            final(self).inv(),
            final(self).code == old(self).code,
            final(self).imports == old(self).imports,
            final(self).facade == old(self).facade,
            final(self).has_module_syntax == old(self).has_module_syntax,
            final(self).exports.deep_view() == old(self).exports.deep_view().push(exp@),
    {
        self.exports.push(exp);
        proof {
            assert(self.exports.deep_view() =~= old(self).exports.deep_view().push(exp@));
        }
    }

    /// Offset of an import-attributes object, `-1` when absent.
    fn calc_assert(&self, with_span: &Option<Span>) -> (a: i32)
        requires
            self.inv(),
            wf_opt_span(*with_span, self.code@.len() as int),
        ensures
            a as int == attr_offset(*with_span),
    {
        match with_span {
            Some(sp) => sp.lo as i32,
            None => -1,
        }
    }

    /// Emit the one import record shared by every `from 'src'` construct:
    /// specifier span without quotes, statement span `stmt`, not dynamic.
    fn emit_static_import(&mut self, src: &StrLit, stmt: Span, with_span: &Option<Span>)
        requires
            old(self).inv(),
            wf_strlit(*src, old(self).code@.len() as int),
            wf_span(stmt, old(self).code@.len() as int),
            wf_opt_span(*with_span, old(self).code@.len() as int),
        ensures
            final(self).inv(),
            final(self).code == old(self).code,
            final(self).exports == old(self).exports,
            final(self).facade == old(self).facade,
            final(self).has_module_syntax == old(self).has_module_syntax,
            final(self).imports.deep_view() == old(self).imports.deep_view() + seq![
                static_import_rec(*src, stmt, *with_span, old(self).code@),
            ],
    {
        let a: i32 = self.calc_assert(with_span);
        let rec = ImportSpecifier {
            n: Some(src.value.clone()),
            s: (src.span.lo + 1) as i32,
            e: (src.span.hi - 1) as i32,
            ss: stmt.lo as i32,
            se: stmt.hi as i32,
            d: -1,
            a,
            kind: ImportKind::Static,
        };
        self.add_import(rec);
        proof {
            let r = static_import_rec(*src, stmt, *with_span, old(self).code@);
            assert(final(self).imports.deep_view() =~= old(self).imports.deep_view() + seq![r]);
        }
    }

    /// Records of a static import declaration: skip it entirely when it is
    /// type-only or every specifier is; otherwise one record for the
    /// module source.
    fn parse_import(&mut self, import: &ImportDecl)
        requires
            old(self).inv(),
            wf_import_decl(*import, old(self).code@.len() as int),
        ensures
            final(self).inv(),
            final(self).code == old(self).code,
            final(self).exports == old(self).exports,
            final(self).facade == old(self).facade,
            final(self).has_module_syntax == old(self).has_module_syntax,
            final(self).imports.deep_view() == old(self).imports.deep_view()
                + imports_of_import_decl(*import, old(self).code@),
    {
        if import.type_only {
            proof {
                assert(old(self).imports.deep_view() + imports_of_import_decl(
                    *import,
                    old(self).code@,
                ) =~= old(self).imports.deep_view());
            }
            return ;
        }
        if import.specifiers.len() == 0 {
            self.emit_static_import(&import.src, import.span, &import.with_span);
            return ;
        }
        let n: usize = import.specifiers.len();
        let mut all_type: bool = true;
        let mut i: usize = 0;
        while i < n
            invariant
                i <= n == import.specifiers@.len(),
                all_type <==> (forall|j: int|
                    0 <= j < i ==> #[trigger] import_spec_is_type_only(import.specifiers@[j])),
            decreases n - i,
        {
            let is_t: bool = match &import.specifiers[i] {
                ImportSpec::Named { is_type_only } => *is_type_only,
                _ => false,
            };
            proof {
                assert(import_spec_is_type_only(import.specifiers@[i as int]) == is_t);
            }
            all_type = all_type && is_t;
            i = i + 1;
        }
        if all_type {
            proof {
                assert(all_type_only_import_specs(import.specifiers@));
                assert(old(self).imports.deep_view() + imports_of_import_decl(
                    *import,
                    old(self).code@,
                ) =~= old(self).imports.deep_view());
            }
            return ;
        }
        proof {
            assert(!all_type_only_import_specs(import.specifiers@));
        }
        self.emit_static_import(&import.src, import.span, &import.with_span);
    }

    /// The forward literal search over this file's code-unit buffer.
    fn find_code_idx_by_string(&self, find_start: usize, pat: &Vec<u16>) -> (r: usize)
        requires
            self.inv(),
            find_start <= self.code@.len(),
            1 <= pat@.len() < 0x4000_0000,
        ensures
            r as int == find_or_start(self.code@, pat@, find_start as int),
            find_start <= r <= self.code@.len(),
    {
        find_index_of(&self.code, pat, find_start)
    }

    /// Append the export record of a declared identifier: exported and
    /// local name coincide.
    fn add_export_from_ident(&mut self, ident: &Ident)
        requires
            old(self).inv(),
            wf_ident(*ident, old(self).code@.len() as int),
        ensures
            final(self).inv(),
            final(self).code == old(self).code,
            final(self).imports == old(self).imports,
            final(self).facade == old(self).facade,
            final(self).has_module_syntax == old(self).has_module_syntax,
            final(self).exports.deep_view() == old(self).exports.deep_view() + seq![
                ident_export_rec(*ident),
            ],
    {
        let name: String = ident.sym.clone();
        let rec = ExportSpecifier {
            n: name.clone(),
            ln: Some(name),
            s: ident.span.lo as i32,
            e: ident.span.hi as i32,
            ls: ident.span.lo as i32,
            le: ident.span.hi as i32,
        };
        self.add_export(rec);
        proof {
            assert(final(self).exports.deep_view() =~= old(self).exports.deep_view() + seq![
                ident_export_rec(*ident),
            ]);
        }
    }

    /// Handle one specifier of a named export list; the result says
    /// whether it makes the list need a synthetic import record.
    fn parse_export_spec(&mut self, specifier: &ExportSpec) -> (need: bool)
        requires
            old(self).inv(),
            wf_export_spec(*specifier, old(self).code@.len() as int),
        ensures
            final(self).inv(),
            final(self).code == old(self).code,
            final(self).imports == old(self).imports,
            final(self).facade == old(self).facade,
            final(self).has_module_syntax == old(self).has_module_syntax,
            final(self).exports.deep_view() == old(self).exports.deep_view()
                + export_recs_of_spec(*specifier),
            need == export_spec_adds_import(*specifier),
    {
        match specifier {
            ExportSpec::Named { orig, exported, is_type_only } => {
                if *is_type_only {
                    proof {
                        assert(old(self).exports.deep_view() + export_recs_of_spec(*specifier)
                            =~= old(self).exports.deep_view());
                    }
                    return false;
                }
                let name: String;
                let name_span: Span;
                match exported {
                    Some(x) => {
                        name = name_sym_of(x);
                        name_span = name_span_of(x);
                    },
                    None => {
                        name = name_sym_of(orig);
                        name_span = name_span_of(orig);
                    },
                }
                let local: String = name_sym_of(orig);
                let local_span: Span = name_span_of(orig);
                let rec = ExportSpecifier {
                    n: name,
                    ln: Some(local),
                    s: name_span.lo as i32,
                    e: name_span.hi as i32,
                    ls: local_span.lo as i32,
                    le: local_span.hi as i32,
                };
                self.add_export(rec);
                proof {
                    assert(final(self).exports.deep_view() =~= old(self).exports.deep_view()
                        + export_recs_of_spec(*specifier));
                }
                true
            },
            ExportSpec::DefaultBinding => {
                proof {
                    assert(old(self).exports.deep_view() + export_recs_of_spec(*specifier) =~= old(
                        self,
                    ).exports.deep_view());
                }
                false
            },
            ExportSpec::Namespace { name } => {
                match name {
                    ModuleExportName::Ident(id) => {
                        let sym: String = id.sym.clone();
                        let rec = ExportSpecifier {
                            n: sym,
                            ln: None,
                            s: id.span.lo as i32,
                            e: id.span.hi as i32,
                            ls: -1,
                            le: -1,
                        };
                        self.add_export(rec);
                        proof {
                            assert(final(self).exports.deep_view() =~= old(
                                self,
                            ).exports.deep_view() + export_recs_of_spec(*specifier));
                        }
                        true
                    },
                    ModuleExportName::Str(_) => {
                        proof {
                            assert(old(self).exports.deep_view() + export_recs_of_spec(*specifier)
                                =~= old(self).exports.deep_view());
                        }
                        false
                    },
                }
            },
        }
    }

    /// Handle a named export list; the result says whether a synthetic
    /// import record is owed for its source.
    fn parse_named_export(&mut self, export: &NamedExport) -> (need: bool)
        requires
            old(self).inv(),
            wf_named_export(*export, old(self).code@.len() as int),
        ensures
            final(self).inv(),
            final(self).code == old(self).code,
            final(self).imports == old(self).imports,
            final(self).facade == old(self).facade,
            final(self).has_module_syntax == old(self).has_module_syntax,
            final(self).exports.deep_view() == old(self).exports.deep_view() + exports_of_named(
                *export,
            ),
            need == named_export_needs_import(*export),
    {
        if export.type_only {
            proof {
                assert(old(self).exports.deep_view() + exports_of_named(*export) =~= old(
                    self,
                ).exports.deep_view());
            }
            return false;
        }
        let n: usize = export.specifiers.len();
        let mut all_type: bool = true;
        let mut i: usize = 0;
        while i < n
            invariant
                i <= n == export.specifiers@.len(),
                all_type <==> (forall|j: int|
                    0 <= j < i ==> #[trigger] export_spec_is_type_only(export.specifiers@[j])),
            decreases n - i,
        {
            let is_t: bool = match &export.specifiers[i] {
                ExportSpec::Named { is_type_only, .. } => *is_type_only,
                _ => false,
            };
            proof {
                assert(export_spec_is_type_only(export.specifiers@[i as int]) == is_t);
            }
            all_type = all_type && is_t;
            i = i + 1;
        }
        if all_type {
            proof {
                assert(all_type_only_export_specs(export.specifiers@));
                assert(old(self).exports.deep_view() + exports_of_named(*export) =~= old(
                    self,
                ).exports.deep_view());
            }
            return false;
        }
        proof {
            assert(!all_type_only_export_specs(export.specifiers@));
        }
        let ghost ss = export.specifiers@;
        proof {
            assert(ss.skip(0) =~= ss);
            assert(wf_export_specs(ss, old(self).code@.len() as int));
        }
        let mut need: bool = false;
        let mut k: usize = 0;
        while k < n
            invariant
                k <= n == ss.len(),
                ss == export.specifiers@,
                self.inv(),
                self.code == old(self).code,
                self.imports == old(self).imports,
                self.facade == old(self).facade,
                self.has_module_syntax == old(self).has_module_syntax,
                wf_export_specs(ss, old(self).code@.len() as int),
                old(self).exports.deep_view() + export_recs_of_specs(ss) == self.exports.deep_view()
                    + export_recs_of_specs(ss.skip(k as int)),
                need <==> (exists|j: int|
                    0 <= j < k && #[trigger] export_spec_adds_import(ss[j])),
            decreases n - k,
        {
            let ghost pre = self.exports.deep_view();
            proof {
                assert(ss.skip(k as int)[0] == ss[k as int]);
                assert(ss.skip(k as int).drop_first() =~= ss.skip(k as int + 1));
                assert(export_recs_of_specs(ss.skip(k as int)) == export_recs_of_spec(ss[k as int])
                    + export_recs_of_specs(ss.skip(k as int + 1)));
            }
            let nd: bool = self.parse_export_spec(&export.specifiers[k]);
            proof {
                assert((pre + export_recs_of_spec(ss[k as int])) + export_recs_of_specs(
                    ss.skip(k as int + 1),
                ) =~= pre + (export_recs_of_spec(ss[k as int]) + export_recs_of_specs(
                    ss.skip(k as int + 1),
                )));
                assert(export_spec_adds_import(ss[k as int]) == nd);
            }
            need = need || nd;
            k = k + 1;
        }
        proof {
            assert(ss.skip(n as int) =~= Seq::<ExportSpec>::empty());
            assert(self.exports.deep_view() + export_recs_of_specs(ss.skip(n as int))
                =~= self.exports.deep_view());
            assert(exports_of_named(*export) == export_recs_of_specs(ss));
        }
        need
    }

    /// Handle `export default <expr>`: one record named `default`, spanning
    /// the literal word `default` found forward from just past the
    /// `export` keyword.
    fn parse_default_export_expr(&mut self, export_span: Span)
        requires
            old(self).inv(),
            wf_span(export_span, old(self).code@.len() as int),
            export_span.lo + 6 <= export_span.hi,
        ensures
            final(self).inv(),
            final(self).code == old(self).code,
            final(self).imports == old(self).imports,
            final(self).facade == old(self).facade,
            final(self).has_module_syntax == old(self).has_module_syntax,
            final(self).exports.deep_view() == old(self).exports.deep_view() + seq![
                default_expr_export_rec(export_span, old(self).code@),
            ],
    {
        let pat: Vec<u16> = lit_default();
        let start: usize = self.find_code_idx_by_string(export_span.lo + 6, &pat);
        let rec = ExportSpecifier {
            n: String::from_str("default"),
            ln: None,
            s: start as i32,
            e: (start + 7) as i32,
            ls: -1,
            le: -1,
        };
        self.add_export(rec);
        proof {
            assert(final(self).exports.deep_view() =~= old(self).exports.deep_view() + seq![
                default_expr_export_rec(export_span, old(self).code@),
            ]);
        }
    }

    /// Records of the patterns of one exported variable declarator.
    fn add_exports_of_pat(&mut self, p: &Pat)
        requires
            old(self).inv(),
            wf_pat(*p, old(self).code@.len() as int),
        ensures
            final(self).inv(),
            final(self).code == old(self).code,
            final(self).imports == old(self).imports,
            final(self).facade == old(self).facade,
            final(self).has_module_syntax == old(self).has_module_syntax,
            final(self).exports.deep_view() == old(self).exports.deep_view() + export_recs_of_pat(
                *p,
            ),
    {
        match p {
            Pat::Ident(id) => {
                self.add_export_from_ident(id);
            },
            Pat::Object { props } => {
                let ghost ps = props@;
                proof {
                    assert(ps.skip(0) =~= ps);
                    assert(wf_props(ps, old(self).code@.len() as int));
                }
                let n: usize = props.len();
                let mut i: usize = 0;
                while i < n
                    invariant
                        i <= n == ps.len(),
                        ps == props@,
                        self.inv(),
                        self.code == old(self).code,
                        self.imports == old(self).imports,
                        self.facade == old(self).facade,
                        self.has_module_syntax == old(self).has_module_syntax,
                        wf_props(ps, old(self).code@.len() as int),
                        old(self).exports.deep_view() + export_recs_of_props(ps)
                            == self.exports.deep_view() + export_recs_of_props(ps.skip(i as int)),
                    decreases n - i,
                {
                    let ghost pre = self.exports.deep_view();
                    proof {
                        assert(ps.skip(i as int)[0] == ps[i as int]);
                        assert(ps.skip(i as int).drop_first() =~= ps.skip(i as int + 1));
                    }
                    match &props[i] {
                        ObjectPatProp::Assign { key } => {
                            proof {
                                assert(wf_prop(ps[i as int], old(self).code@.len() as int));
                            }
                            self.add_export_from_ident(key);
                            proof {
                                assert((pre + seq![ident_export_rec(*key)])
                                    + export_recs_of_props(ps.skip(i as int + 1)) =~= pre + (seq![
                                    ident_export_rec(*key),
                                ] + export_recs_of_props(ps.skip(i as int + 1))));
                            }
                        },
                        ObjectPatProp::KeyValue => {
                            proof {
                                assert(pre + (Seq::<ExportRecView>::empty()
                                    + export_recs_of_props(ps.skip(i as int + 1))) =~= pre
                                    + export_recs_of_props(ps.skip(i as int + 1)));
                            }
                        },
                        ObjectPatProp::Rest => {
                            proof {
                                assert(pre + (Seq::<ExportRecView>::empty()
                                    + export_recs_of_props(ps.skip(i as int + 1))) =~= pre
                                    + export_recs_of_props(ps.skip(i as int + 1)));
                            }
                        },
                    }
                    i = i + 1;
                }
                proof {
                    assert(ps.skip(n as int) =~= Seq::<ObjectPatProp>::empty());
                    assert(self.exports.deep_view() + export_recs_of_props(ps.skip(n as int))
                        =~= self.exports.deep_view());
                }
            },
            Pat::Array { elems } => {
                let ghost es = elems@;
                proof {
                    assert(es.skip(0) =~= es);
                    assert(wf_elems(es, old(self).code@.len() as int));
                }
                let n: usize = elems.len();
                let mut i: usize = 0;
                while i < n
                    invariant
                        i <= n == es.len(),
                        es == elems@,
                        self.inv(),
                        self.code == old(self).code,
                        self.imports == old(self).imports,
                        self.facade == old(self).facade,
                        self.has_module_syntax == old(self).has_module_syntax,
                        wf_elems(es, old(self).code@.len() as int),
                        old(self).exports.deep_view() + export_recs_of_elems(es)
                            == self.exports.deep_view() + export_recs_of_elems(es.skip(i as int)),
                    decreases n - i,
                {
                    let ghost pre = self.exports.deep_view();
                    proof {
                        assert(es.skip(i as int)[0] == es[i as int]);
                        assert(es.skip(i as int).drop_first() =~= es.skip(i as int + 1));
                    }
                    match &elems[i] {
                        ArrayPatElem::Ident(id) => {
                            proof {
                                assert(wf_elem(es[i as int], old(self).code@.len() as int));
                            }
                            self.add_export_from_ident(id);
                            proof {
                                assert((pre + seq![ident_export_rec(*id)]) + export_recs_of_elems(
                                    es.skip(i as int + 1),
                                ) =~= pre + (seq![ident_export_rec(*id)] + export_recs_of_elems(
                                    es.skip(i as int + 1),
                                )));
                            }
                        },
                        ArrayPatElem::Hole => {
                            proof {
                                assert(pre + (Seq::<ExportRecView>::empty() + export_recs_of_elems(
                                    es.skip(i as int + 1),
                                )) =~= pre + export_recs_of_elems(es.skip(i as int + 1)));
                            }
                        },
                        ArrayPatElem::Other => {
                            proof {
                                assert(pre + (Seq::<ExportRecView>::empty() + export_recs_of_elems(
                                    es.skip(i as int + 1),
                                )) =~= pre + export_recs_of_elems(es.skip(i as int + 1)));
                            }
                        },
                    }
                    i = i + 1;
                }
                proof {
                    assert(es.skip(n as int) =~= Seq::<ArrayPatElem>::empty());
                    assert(self.exports.deep_view() + export_recs_of_elems(es.skip(n as int))
                        =~= self.exports.deep_view());
                }
            },
            Pat::Other => {
                proof {
                    assert(old(self).exports.deep_view() + export_recs_of_pat(*p) =~= old(
                        self,
                    ).exports.deep_view());
                }
            },
        }
    }

    /// Handle `export <decl>`; the result says whether the children of the
    /// declaration are excluded from further scanning (a TS namespace).
    fn parse_export_decl(&mut self, decl: &Decl) -> (skip_children: bool)
        requires
            old(self).inv(),
            wf_decl(*decl, old(self).code@.len() as int),
        ensures
            final(self).inv(),
            final(self).code == old(self).code,
            final(self).imports == old(self).imports,
            final(self).facade == old(self).facade,
            final(self).has_module_syntax == old(self).has_module_syntax,
            final(self).exports.deep_view() == old(self).exports.deep_view()
                + export_recs_of_decl(*decl),
            skip_children == decl_skips_children(*decl),
    {
        match decl {
            Decl::Class { ident } => {
                self.add_export_from_ident(ident);
                false
            },
            Decl::Func { ident } => {
                self.add_export_from_ident(ident);
                false
            },
            Decl::Var { pats } => {
                let ghost ps = pats@;
                proof {
                    assert(ps.skip(0) =~= ps);
                    assert(wf_pats(ps, old(self).code@.len() as int));
                }
                let n: usize = pats.len();
                let mut i: usize = 0;
                while i < n
                    invariant
                        i <= n == ps.len(),
                        ps == pats@,
                        self.inv(),
                        self.code == old(self).code,
                        self.imports == old(self).imports,
                        self.facade == old(self).facade,
                        self.has_module_syntax == old(self).has_module_syntax,
                        wf_pats(ps, old(self).code@.len() as int),
                        old(self).exports.deep_view() + export_recs_of_pats(ps)
                            == self.exports.deep_view() + export_recs_of_pats(ps.skip(i as int)),
                    decreases n - i,
                {
                    let ghost pre = self.exports.deep_view();
                    proof {
                        assert(ps.skip(i as int)[0] == ps[i as int]);
                        assert(ps.skip(i as int).drop_first() =~= ps.skip(i as int + 1));
                    }
                    proof {
                        assert(wf_pat(ps[i as int], old(self).code@.len() as int));
                    }
                    self.add_exports_of_pat(&pats[i]);
                    proof {
                        assert((pre + export_recs_of_pat(ps[i as int])) + export_recs_of_pats(
                            ps.skip(i as int + 1),
                        ) =~= pre + (export_recs_of_pat(ps[i as int]) + export_recs_of_pats(
                            ps.skip(i as int + 1),
                        )));
                    }
                    i = i + 1;
                }
                proof {
                    assert(ps.skip(n as int) =~= Seq::<Pat>::empty());
                    assert(self.exports.deep_view() + export_recs_of_pats(ps.skip(n as int))
                        =~= self.exports.deep_view());
                }
                false
            },
            Decl::Using => {
                proof {
                    assert(old(self).exports.deep_view() + export_recs_of_decl(*decl) =~= old(
                        self,
                    ).exports.deep_view());
                }
                false
            },
            Decl::TsEnum { ident } => {
                self.add_export_from_ident(ident);
                false
            },
            Decl::TsModule { ident } => {
                match ident {
                    Some(id) => {
                        self.add_export_from_ident(id);
                    },
                    None => {
                        proof {
                            assert(old(self).exports.deep_view() + export_recs_of_decl(*decl)
                                =~= old(self).exports.deep_view());
                        }
                    },
                }
                true
            },
            Decl::TsInterface => {
                proof {
                    assert(old(self).exports.deep_view() + export_recs_of_decl(*decl) =~= old(
                        self,
                    ).exports.deep_view());
                }
                false
            },
            Decl::TsTypeAlias => {
                proof {
                    assert(old(self).exports.deep_view() + export_recs_of_decl(*decl) =~= old(
                        self,
                    ).exports.deep_view());
                }
                false
            },
        }
    }

    /// Handle `export default <class|function|interface>`: the `default`
    /// keyword span on the export side, with the declaration's own
    /// identifier as local name when present.
    fn parse_export_default_decl(&mut self, export_span: Span, decl: &DefaultDecl)
        requires
            old(self).inv(),
            wf_span(export_span, old(self).code@.len() as int),
            export_span.lo + 6 <= export_span.hi,
            wf_default_decl(*decl, old(self).code@.len() as int),
        ensures
            final(self).inv(),
            final(self).code == old(self).code,
            final(self).imports == old(self).imports,
            final(self).facade == old(self).facade,
            final(self).has_module_syntax == old(self).has_module_syntax,
            final(self).exports.deep_view() == old(self).exports.deep_view()
                + exports_of_default_decl(export_span, *decl, old(self).code@),
    {
        let pat: Vec<u16> = lit_default();
        let start: usize = self.find_code_idx_by_string(export_span.lo + 6, &pat);
        match decl {
            DefaultDecl::Class { ident } | DefaultDecl::Func { ident } => {
                match ident {
                    Some(id) => {
                        let rec = ExportSpecifier {
                            n: String::from_str("default"),
                            ln: Some(id.sym.clone()),
                            s: start as i32,
                            e: (start + 7) as i32,
                            ls: id.span.lo as i32,
                            le: id.span.hi as i32,
                        };
                        self.add_export(rec);
                        proof {
                            assert(final(self).exports.deep_view() =~= old(
                                self,
                            ).exports.deep_view() + exports_of_default_decl(
                                export_span,
                                *decl,
                                old(self).code@,
                            ));
                        }
                    },
                    None => {
                        let rec = ExportSpecifier {
                            n: String::from_str("default"),
                            ln: None,
                            s: start as i32,
                            e: (start + 7) as i32,
                            ls: -1,
                            le: -1,
                        };
                        self.add_export(rec);
                        proof {
                            assert(final(self).exports.deep_view() =~= old(
                                self,
                            ).exports.deep_view() + exports_of_default_decl(
                                export_span,
                                *decl,
                                old(self).code@,
                            ));
                        }
                    },
                }
            },
            DefaultDecl::TsInterface => {
                proof {
                    assert(old(self).exports.deep_view() + exports_of_default_decl(
                        export_span,
                        *decl,
                        old(self).code@,
                    ) =~= old(self).exports.deep_view());
                }
            },
        }
    }

    /// Record that the file shows (or does not show) module syntax.
    fn set_module_syntax(&mut self, value: bool)
        ensures
            final(self).code == old(self).code,
            final(self).imports == old(self).imports,
            final(self).exports == old(self).exports,
            final(self).facade == old(self).facade,
            final(self).has_module_syntax == value,
    {
        self.has_module_syntax = value;
    }

    /// Visit one expression subtree: record every dynamic `import(...)`
    /// call and every `import.meta` expression, in depth-first order, and
    /// force the module-syntax fact when an `import.meta` is seen.
    fn visit_expr(&mut self, e: &Expr)
        requires
            old(self).inv(),
            wf_expr(*e, old(self).code@.len() as int),
        ensures
            final(self).inv(),
            final(self).code == old(self).code,
            final(self).exports == old(self).exports,
            final(self).facade == old(self).facade,
            final(self).imports.deep_view() == old(self).imports.deep_view() + imports_of_expr(
                *e,
                old(self).code@,
            ),
            final(self).has_module_syntax == (old(self).has_module_syntax || expr_has_meta(*e)),
        decreases *e,
    {
        match e {
            Expr::ImportCall { span, import_span, args } => {
                if args.len() > 0 {
                    proof {
                        lemma_wf_exprs_index(args@, old(self).code@.len() as int, 0);
                    }
                    let pat: Vec<u16> = lit_lparen();
                    let d: usize = self.find_code_idx_by_string(import_span.hi, &pat);
                    let rec: ImportSpecifier;
                    match &args[0] {
                        Expr::StrLit(src) => {
                            let mut a: i32 = -1;
                            if args.len() >= 2 {
                                proof {
                                    lemma_wf_exprs_index(
                                        args@,
                                        old(self).code@.len() as int,
                                        1,
                                    );
                                }
                                match &args[1] {
                                    Expr::ObjectLit { span: obj_span, .. } => {
                                        a = obj_span.lo as i32;
                                    },
                                    _ => {},
                                }
                            }
                            proof {
                                assert(a as int == dynamic_attr_offset(args@));
                            }
                            rec = ImportSpecifier {
                                n: Some(src.value.clone()),
                                s: src.span.lo as i32,
                                e: src.span.hi as i32,
                                ss: span.lo as i32,
                                se: span.hi as i32,
                                d: d as i32,
                                a,
                                kind: ImportKind::Dynamic,
                            };
                        },
                        _ => {
                            rec = ImportSpecifier {
                                n: None,
                                s: (d + 1) as i32,
                                e: (span.hi - 1) as i32,
                                ss: span.lo as i32,
                                se: span.hi as i32,
                                d: d as i32,
                                a: -1,
                                kind: ImportKind::Dynamic,
                            };
                        },
                    }
                    self.add_import(rec);
                    proof {
                        assert(self.imports.deep_view() =~= old(self).imports.deep_view() + seq![
                            dynamic_import_rec(*span, *import_span, args@, old(self).code@),
                        ]);
                    }
                } else {
                    proof {
                        assert(old(self).imports.deep_view() + Seq::<ImportRecView>::empty()
                            =~= old(self).imports.deep_view());
                    }
                }
                self.visit_exprs(args);
                proof {
                    assert(final(self).imports.deep_view() =~= old(self).imports.deep_view()
                        + imports_of_expr(*e, old(self).code@));
                }
            },
            Expr::StrLit(_) => {
                proof {
                    assert(old(self).imports.deep_view() + imports_of_expr(*e, old(self).code@)
                        =~= old(self).imports.deep_view());
                }
            },
            Expr::ObjectLit { children, .. } => {
                self.visit_exprs(children);
            },
            Expr::ImportMeta { span } => {
                let rec = ImportSpecifier {
                    n: None,
                    s: span.lo as i32,
                    e: span.hi as i32,
                    ss: span.lo as i32,
                    se: span.hi as i32,
                    d: -2,
                    a: -1,
                    kind: ImportKind::ImportMeta,
                };
                self.add_import(rec);
                self.set_module_syntax(true);
                proof {
                    assert(final(self).imports.deep_view() =~= old(self).imports.deep_view()
                        + seq![meta_rec(*span, old(self).code@)]);
                }
            },
            Expr::Other { children } => {
                self.visit_exprs(children);
            },
        }
    }

    /// Visit a list of sibling expression subtrees in order.
    fn visit_exprs(&mut self, es: &Vec<Expr>)
        requires
            old(self).inv(),
            wf_exprs(es@, old(self).code@.len() as int),
        ensures
            final(self).inv(),
            final(self).code == old(self).code,
            final(self).exports == old(self).exports,
            final(self).facade == old(self).facade,
            final(self).imports.deep_view() == old(self).imports.deep_view() + imports_of_exprs(
                es@,
                old(self).code@,
            ),
            final(self).has_module_syntax == (old(self).has_module_syntax || exprs_have_meta(es@)),
        decreases es@,
    {
        let ghost seq_all = es@;
        proof {
            assert(seq_all.skip(0) =~= seq_all);
        }
        let n: usize = es.len();
        let mut i: usize = 0;
        while i < n
            invariant
                i <= n == seq_all.len(),
                seq_all == es@,
                self.inv(),
                self.code == old(self).code,
                self.exports == old(self).exports,
                self.facade == old(self).facade,
                wf_exprs(es@, old(self).code@.len() as int),
                old(self).imports.deep_view() + imports_of_exprs(seq_all, old(self).code@)
                    == self.imports.deep_view() + imports_of_exprs(
                    seq_all.skip(i as int),
                    old(self).code@,
                ),
                (old(self).has_module_syntax || exprs_have_meta(seq_all)) == (
                self.has_module_syntax || exprs_have_meta(seq_all.skip(i as int))),
            decreases n - i,
        {
            let ghost pre = self.imports.deep_view();
            proof {
                assert(seq_all.skip(i as int)[0] == seq_all[i as int]);
                assert(seq_all.skip(i as int).drop_first() =~= seq_all.skip(i as int + 1));
                lemma_wf_exprs_index(seq_all, old(self).code@.len() as int, i as int);
            }
            self.visit_expr(&es[i]);
            proof {
                assert((pre + imports_of_expr(seq_all[i as int], old(self).code@))
                    + imports_of_exprs(seq_all.skip(i as int + 1), old(self).code@) =~= pre + (
                imports_of_expr(seq_all[i as int], old(self).code@) + imports_of_exprs(
                    seq_all.skip(i as int + 1),
                    old(self).code@,
                )));
            }
            i = i + 1;
        }
        proof {
            assert(seq_all.skip(n as int) =~= Seq::<Expr>::empty());
            assert(self.imports.deep_view() + imports_of_exprs(
                seq_all.skip(n as int),
                old(self).code@,
            ) =~= self.imports.deep_view());
        }
    }

    /// Dispatch one top-level import/export declaration and traverse the
    /// expressions nested under it (except under a TS namespace body).
    fn visit_module_decl(&mut self, decl: &ModuleDecl)
        requires
            old(self).inv(),
            wf_module_decl(*decl, old(self).code@.len() as int),
        ensures
            final(self).inv(),
            final(self).code == old(self).code,
            final(self).facade == old(self).facade,
            final(self).imports.deep_view() == old(self).imports.deep_view()
                + imports_of_module_decl(*decl, old(self).code@),
            final(self).exports.deep_view() == old(self).exports.deep_view()
                + exports_of_module_decl(*decl, old(self).code@),
            final(self).has_module_syntax == (old(self).has_module_syntax || module_decl_has_meta(
                *decl,
            )),
    {
        match decl {
            ModuleDecl::Import(import) => {
                self.parse_import(import);
                proof {
                    assert(final(self).exports.deep_view() =~= old(self).exports.deep_view()
                        + exports_of_module_decl(*decl, old(self).code@));
                }
            },
            ModuleDecl::ExportNamed(export) => {
                let need: bool = self.parse_named_export(export);
                if need {
                    match &export.src {
                        Some(src) => {
                            self.emit_static_import(src, export.span, &export.with_span);
                            proof {
                                assert(final(self).imports.deep_view() =~= old(
                                    self,
                                ).imports.deep_view() + imports_of_named(*export, old(self).code@));
                            }
                        },
                        None => {
                            proof {
                                assert(final(self).imports.deep_view() =~= old(
                                    self,
                                ).imports.deep_view() + imports_of_named(*export, old(self).code@));
                            }
                        },
                    }
                } else {
                    proof {
                        assert(final(self).imports.deep_view() =~= old(self).imports.deep_view()
                            + imports_of_named(*export, old(self).code@));
                    }
                }
            },
            ModuleDecl::ExportDefaultExpr { span, expr } => {
                self.parse_default_export_expr(*span);
                self.visit_expr(expr);
                proof {
                    assert(final(self).exports.deep_view() =~= old(self).exports.deep_view()
                        + exports_of_module_decl(*decl, old(self).code@));
                }
            },
            ModuleDecl::ExportDecl { decl: inner, children, .. } => {
                let skip_children: bool = self.parse_export_decl(inner);
                if !skip_children {
                    self.visit_exprs(children);
                } else {
                    proof {
                        assert(final(self).imports.deep_view() =~= old(self).imports.deep_view()
                            + imports_of_module_decl(*decl, old(self).code@));
                    }
                }
            },
            ModuleDecl::ExportDefaultDecl { span, decl: inner, children } => {
                self.parse_export_default_decl(*span, inner);
                self.visit_exprs(children);
            },
            ModuleDecl::ExportAll { span, src, with_span } => {
                self.emit_static_import(src, *span, with_span);
                proof {
                    assert(final(self).exports.deep_view() =~= old(self).exports.deep_view()
                        + exports_of_module_decl(*decl, old(self).code@));
                }
            },
            ModuleDecl::TsImportEquals => {
                proof {
                    assert(final(self).imports.deep_view() =~= old(self).imports.deep_view()
                        + imports_of_module_decl(*decl, old(self).code@));
                    assert(final(self).exports.deep_view() =~= old(self).exports.deep_view()
                        + exports_of_module_decl(*decl, old(self).code@));
                }
            },
            ModuleDecl::TsExportAssignment { children } => {
                self.visit_exprs(children);
                proof {
                    assert(final(self).exports.deep_view() =~= old(self).exports.deep_view()
                        + exports_of_module_decl(*decl, old(self).code@));
                }
            },
            ModuleDecl::TsNamespaceExport => {
                proof {
                    assert(final(self).imports.deep_view() =~= old(self).imports.deep_view()
                        + imports_of_module_decl(*decl, old(self).code@));
                    assert(final(self).exports.deep_view() =~= old(self).exports.deep_view()
                        + exports_of_module_decl(*decl, old(self).code@));
                }
            },
        }
    }

    /// Visit one top-level item.
    fn visit_item(&mut self, it: &ModuleItem)
        requires
            old(self).inv(),
            wf_item(*it, old(self).code@.len() as int),
        ensures
            final(self).inv(),
            final(self).code == old(self).code,
            final(self).facade == old(self).facade,
            final(self).imports.deep_view() == old(self).imports.deep_view() + imports_of_item(
                *it,
                old(self).code@,
            ),
            final(self).exports.deep_view() == old(self).exports.deep_view() + exports_of_item(
                *it,
                old(self).code@,
            ),
            final(self).has_module_syntax == (old(self).has_module_syntax || item_has_meta(*it)),
    {
        match it {
            ModuleItem::Decl(d) => {
                self.visit_module_decl(d);
            },
            ModuleItem::Stmt(s) => {
                match s {
                    Stmt::Expr { expr } => {
                        self.visit_expr(expr);
                    },
                    Stmt::Other { children } => {
                        self.visit_exprs(children);
                    },
                }
                proof {
                    assert(final(self).exports.deep_view() =~= old(self).exports.deep_view()
                        + exports_of_item(*it, old(self).code@));
                }
            },
        }
    }

    /// One shallow pass over the top-level items deciding
    /// facade-eligibility.
    fn detect_facade(&mut self, module: &Module)
        ensures
            final(self).code == old(self).code,
            final(self).imports == old(self).imports,
            final(self).exports == old(self).exports,
            final(self).has_module_syntax == old(self).has_module_syntax,
            final(self).facade == facade_of_items(module.body@),
    {
        let mut is_facade: bool = true;
        let n: usize = module.body.len();
        let mut i: usize = 0;
        while i < n
            invariant
                i <= n == module.body@.len(),
                is_facade <==> (forall|j: int|
                    0 <= j < i ==> #[trigger] item_facade_ok(module.body@[j])),
            decreases n - i,
        {
            let ok: bool = item_facade_ok_exec(&module.body[i]);
            proof {
                assert(item_facade_ok(module.body@[i as int]) == ok);
            }
            is_facade = is_facade && ok;
            i = i + 1;
        }
        self.facade = is_facade;
    }

    /// One shallow pass over the top-level items deciding whether any is
    /// an import/export declaration.
    fn detect_syntax(&mut self, module: &Module)
        ensures
            final(self).code == old(self).code,
            final(self).imports == old(self).imports,
            final(self).exports == old(self).exports,
            final(self).facade == old(self).facade,
            final(self).has_module_syntax == items_have_decl(module.body@),
    {
        let mut has: bool = false;
        let n: usize = module.body.len();
        let mut i: usize = 0;
        while i < n
            invariant
                i <= n == module.body@.len(),
                has <==> (exists|j: int| 0 <= j < i && #[trigger] item_is_decl(module.body@[j])),
            decreases n - i,
        {
            let is_d: bool = match &module.body[i] {
                ModuleItem::Decl(_) => true,
                ModuleItem::Stmt(_) => false,
            };
            proof {
                assert(item_is_decl(module.body@[i as int]) == is_d);
            }
            has = has || is_d;
            i = i + 1;
        }
        self.set_module_syntax(has);
    }

    /// The whole traversal of one module: classify facade and top-level
    /// module syntax, then visit every item in source order.
    fn visit_module(&mut self, module: &Module)
        requires
            old(self).inv(),
            wf_module(*module, old(self).code@.len() as int),
        ensures
            final(self).inv(),
            final(self).code == old(self).code,
            final(self).imports.deep_view() == old(self).imports.deep_view() + imports_of_module(
                *module,
                old(self).code@,
            ),
            final(self).exports.deep_view() == old(self).exports.deep_view() + exports_of_module(
                *module,
                old(self).code@,
            ),
            final(self).facade == facade_of_module(*module),
            final(self).has_module_syntax == (items_have_decl(module.body@) || items_have_meta(
                module.body@,
            )),
    {
        self.detect_facade(module);
        self.detect_syntax(module);
        let ghost items = module.body@;
        proof {
            assert(items.skip(0) =~= items);
        }
        let n: usize = module.body.len();
        let mut i: usize = 0;
        while i < n
            invariant
                i <= n == items.len(),
                items == module.body@,
                self.inv(),
                self.code == old(self).code,
                self.facade == facade_of_items(items),
                wf_items(items, old(self).code@.len() as int),
                old(self).imports.deep_view() + imports_of_items(items, old(self).code@)
                    == self.imports.deep_view() + imports_of_items(
                    items.skip(i as int),
                    old(self).code@,
                ),
                old(self).exports.deep_view() + exports_of_items(items, old(self).code@)
                    == self.exports.deep_view() + exports_of_items(
                    items.skip(i as int),
                    old(self).code@,
                ),
                self.has_module_syntax == (items_have_decl(items) || partial_meta(items, i as int)),
            decreases n - i,
        {
            let ghost pre_i = self.imports.deep_view();
            let ghost pre_e = self.exports.deep_view();
            proof {
                assert(items.skip(i as int)[0] == items[i as int]);
                assert(items.skip(i as int).drop_first() =~= items.skip(i as int + 1));
                assert(wf_item(items[i as int], old(self).code@.len() as int));
            }
            self.visit_item(&module.body[i]);
            proof {
                assert((pre_i + imports_of_item(items[i as int], old(self).code@))
                    + imports_of_items(items.skip(i as int + 1), old(self).code@) =~= pre_i + (
                imports_of_item(items[i as int], old(self).code@) + imports_of_items(
                    items.skip(i as int + 1),
                    old(self).code@,
                )));
                assert((pre_e + exports_of_item(items[i as int], old(self).code@))
                    + exports_of_items(items.skip(i as int + 1), old(self).code@) =~= pre_e + (
                exports_of_item(items[i as int], old(self).code@) + exports_of_items(
                    items.skip(i as int + 1),
                    old(self).code@,
                )));
            }
            i = i + 1;
        }
        proof {
            assert(items.skip(n as int) =~= Seq::<ModuleItem>::empty());
            assert(self.imports.deep_view() + imports_of_items(
                items.skip(n as int),
                old(self).code@,
            ) =~= self.imports.deep_view());
            assert(self.exports.deep_view() + exports_of_items(
                items.skip(n as int),
                old(self).code@,
            ) =~= self.exports.deep_view());
            lemma_partial_meta_full(items);
        }
    }
}

/// Scan one module: a single depth-first traversal producing the import
/// and export records in source order, the facade classification and the
/// module-syntax fact, exactly as the specification functions state them.
pub fn scan_module(code: Vec<u16>, module: &Module) -> (v: ImportExportVisitor)
    requires
        wf_module(*module, code@.len() as int),
        code@.len() < 0x4000_0000,
    ensures
        v.inv(),
        v.code == code,
        v.imports.deep_view() == imports_of_module(*module, code@),
        v.exports.deep_view() == exports_of_module(*module, code@),
        v.facade == facade_of_module(*module),
        v.has_module_syntax == module_has_syntax(*module),
{
    let mut v = ImportExportVisitor::new(code);
    v.visit_module(module);
    proof {
        assert(Seq::<ImportRecView>::empty() + imports_of_module(*module, v.code@) =~= imports_of_module(
            *module,
            v.code@,
        ));
        assert(Seq::<ExportRecView>::empty() + exports_of_module(*module, v.code@) =~= exports_of_module(
            *module,
            v.code@,
        ));
    }
    v
}

/// Scan one module after checking at run time that its spans are well
/// formed: `Some` exactly when every span lies within the source text and
/// the text is small enough for the record fields, with the full scanning
/// contract on the result; `None` otherwise.
pub fn try_scan_module(code: Vec<u16>, module: &Module) -> (r: Option<ImportExportVisitor>)
    ensures
        r is Some <==> (wf_module(*module, code@.len() as int) && code@.len() < 0x4000_0000),
        match r {
            Some(v) => {
                &&& v.inv()
                &&& v.code == code
                &&& v.imports.deep_view() == imports_of_module(*module, code@)
                &&& v.exports.deep_view() == exports_of_module(*module, code@)
                &&& v.facade == facade_of_module(*module)
                &&& v.has_module_syntax == module_has_syntax(*module)
            },
            None => true,
        },
{
    if code.len() >= 0x4000_0000 {
        return None;
    }
    if !crate::ast::check_module_wf(module, code.len()) {
        return None;
    }
    Some(scan_module(code, module))
}

impl ImportExportVisitor {
    /// Assemble the per-file result from the four accumulators.
    pub fn into_result(self, filename: String) -> (r: ParseResult)
        ensures
            r.filename == filename,
            r.imports == self.imports,
            r.exports == self.exports,
            r.facade == self.facade,
            r.has_module_syntax == self.has_module_syntax,
    {
        ParseResult {
            filename,
            imports: self.imports,
            exports: self.exports,
            facade: self.facade,
            has_module_syntax: self.has_module_syntax,
        }
    }
}

/// Whether a whole-list meta search restricted to the first `i` items has
/// found one.
pub open spec fn partial_meta(items: Seq<ModuleItem>, i: int) -> bool {
    exists|j: int| 0 <= j < i && #[trigger] item_has_meta(items[j])
}

proof fn lemma_partial_meta_full(items: Seq<ModuleItem>)
    ensures
        partial_meta(items, items.len() as int) == items_have_meta(items),
{
}

/// Facade-eligibility of one top-level item.
fn item_facade_ok_exec(it: &ModuleItem) -> (b: bool)
    ensures
        b == item_facade_ok(*it),
{
    match it {
        ModuleItem::Decl(d) => match d {
            ModuleDecl::Import(_) => true,
            ModuleDecl::ExportNamed(_) => true,
            ModuleDecl::ExportDecl { decl, .. } => match decl {
                Decl::TsInterface => true,
                Decl::TsTypeAlias => true,
                _ => false,
            },
            ModuleDecl::ExportDefaultDecl { .. } => false,
            ModuleDecl::ExportDefaultExpr { .. } => false,
            ModuleDecl::ExportAll { .. } => true,
            ModuleDecl::TsImportEquals => false,
            ModuleDecl::TsExportAssignment { .. } => false,
            ModuleDecl::TsNamespaceExport => true,
        },
        ModuleItem::Stmt(s) => match s {
            Stmt::Expr { expr } => match expr {
                Expr::ImportCall { args, .. } => {
                    if args.len() == 1 {
                        match &args[0] {
                            Expr::StrLit(_) => true,
                            _ => false,
                        }
                    } else {
                        false
                    }
                },
                _ => false,
            },
            Stmt::Other { .. } => false,
        },
    }
}

/// The code units of the literal `(`.
fn lit_lparen() -> (v: Vec<u16>)
    ensures
        v@ == lparen_units(),
{
    let mut v: Vec<u16> = Vec::new();
    v.push(0x28);
    proof {
        assert(v@ =~= lparen_units());
    }
    v
}

/// The symbol text of an export-list name.
fn name_sym_of(m: &ModuleExportName) -> (s: String)
    ensures
        s@ == export_name_sym(*m),
{
    match m {
        ModuleExportName::Ident(id) => id.sym.clone(),
        ModuleExportName::Str(lit) => lit.value.clone(),
    }
}

/// The span of an export-list name.
fn name_span_of(m: &ModuleExportName) -> (sp: Span)
    ensures
        sp == export_name_span(*m),
{
    match m {
        ModuleExportName::Ident(id) => id.span,
        ModuleExportName::Str(lit) => lit.span,
    }
}

/// The code units of the literal word `default`.
fn lit_default() -> (v: Vec<u16>)
    ensures
        v@ == default_units(),
{
    let mut v: Vec<u16> = Vec::new();
    v.push(0x64);
    v.push(0x65);
    v.push(0x66);
    v.push(0x61);
    v.push(0x75);
    v.push(0x6C);
    v.push(0x74);
    proof {
        assert(v@ =~= default_units());
    }
    v
}

} // verus!
