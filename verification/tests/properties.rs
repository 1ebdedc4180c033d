//! Property scenarios: one test per consumption form, shadowing and
//! re-export tracing, callback scoping, error handling, and repeatability
//! of finalization.

use ts_deadcode::Analyzer;
use ts_deadcode::AnalysisResults;
use ts_deadcode::Callee;
use ts_deadcode::Decl;
use ts_deadcode::Diag;
use ts_deadcode::ExportSpecifier;
use ts_deadcode::Expr;
use ts_deadcode::ImportDecl;
use ts_deadcode::ImportSpecifier;
use ts_deadcode::MemberProp;
use ts_deadcode::Module;
use ts_deadcode::ModuleItem;
use ts_deadcode::ObjectPatProp;
use ts_deadcode::Pat;
use ts_deadcode::Resolution;
use ts_deadcode::ResolverTable;
use ts_deadcode::Stmt;
use ts_deadcode::VarDeclarator;

fn s(x: &str) -> String {
    x.to_string()
}

fn table(map: &[(&str, Resolution)]) -> ResolverTable {
    let mut t = ResolverTable::new();
    for (k, r) in map {
        t.add(s(k), *r);
    }
    t
}

fn export_names(names: &[&str]) -> ModuleItem {
    ModuleItem::ExportNamed(
        names
            .iter()
            .map(|n| ExportSpecifier::Named { orig: s(n), exported: None })
            .collect(),
    )
}

fn import_names(spec: &str, names: &[&str]) -> ModuleItem {
    ModuleItem::Import(ImportDecl {
        specifier: s(spec),
        specifiers: names
            .iter()
            .map(|n| ImportSpecifier::Named { imported: None, local: s(n) })
            .collect(),
    })
}

fn require_call(spec: &str) -> Expr {
    Expr::Call(
        Callee::Expr(Box::new(Expr::Ident(s("require")))),
        vec![Expr::Str(s(spec))],
    )
}

fn import_call(spec: &str) -> Expr {
    Expr::Call(Callee::ImportCall, vec![Expr::Str(s(spec))])
}

fn member(obj: Expr, prop: &str) -> Stmt {
    Stmt::Expr(Expr::Member(Box::new(obj), MemberProp::Ident(s(prop))))
}

fn bind_var(name: &str, init: Expr) -> Stmt {
    Stmt::VarDecl(vec![VarDeclarator { name: Pat::Ident(s(name)), init: Some(init) }])
}

fn destructure(names: &[&str], init: Expr) -> Stmt {
    Stmt::VarDecl(vec![VarDeclarator {
        name: Pat::Object(names.iter().map(|n| ObjectPatProp::Shorthand(s(n))).collect()),
        init: Some(init),
    }])
}

fn stmts(list: Vec<Stmt>) -> Module {
    Module { items: list.into_iter().map(ModuleItem::Stmt).collect() }
}

fn check_unused(r: &AnalysisResults, id: u64, value: &[&str], types: &[&str]) {
    let e = r.get(id).expect("module should be reported");
    assert_eq!(e.unused_exports.len(), value.len());
    for n in value {
        assert!(e.unused_exports.contains(&s(n)), "missing unused value export {}", n);
    }
    assert_eq!(e.unused_type_exports.len(), types.len());
    for n in types {
        assert!(e.unused_type_exports.contains(&s(n)), "missing unused type export {}", n);
    }
}

/// Exporter of `{A, B}`, consumed through one form using only `A`:
/// the report must say `unused = {B}`.
fn expect_only_b_unused(consumer: Module) {
    let mut a = Analyzer::new();
    a.add_file(1, &Module { items: vec![export_names(&["A", "B"])] }, &table(&[])).unwrap();
    a.add_file(2, &consumer, &table(&[("./m", Resolution::Module(1))])).unwrap();
    let results = a.finalize();
    assert_eq!(results.len(), 1);
    check_unused(&results, 1, &["B"], &[]);
}

#[test]
fn form_named_import() {
    expect_only_b_unused(Module { items: vec![import_names("./m", &["A"])] });
}

#[test]
fn form_default_import() {
    let mut a = Analyzer::new();
    let exporter = Module {
        items: vec![ModuleItem::ExportNamed(vec![
            ExportSpecifier::Named { orig: s("A"), exported: Some(s("default")) },
            ExportSpecifier::Named { orig: s("B"), exported: None },
        ])],
    };
    a.add_file(1, &exporter, &table(&[])).unwrap();
    let consumer = Module {
        items: vec![ModuleItem::Import(ImportDecl {
            specifier: s("./m"),
            specifiers: vec![ImportSpecifier::Default],
        })],
    };
    a.add_file(2, &consumer, &table(&[("./m", Resolution::Module(1))])).unwrap();
    let results = a.finalize();
    assert_eq!(results.len(), 1);
    check_unused(&results, 1, &["B"], &[]);
}

#[test]
fn form_namespace_member() {
    expect_only_b_unused(Module {
        items: vec![
            ModuleItem::Import(ImportDecl {
                specifier: s("./m"),
                specifiers: vec![ImportSpecifier::Namespace(s("ns"))],
            }),
            ModuleItem::Stmt(member(Expr::Ident(s("ns")), "A")),
        ],
    });
}

#[test]
fn form_namespace_destructure() {
    expect_only_b_unused(Module {
        items: vec![
            ModuleItem::Import(ImportDecl {
                specifier: s("./m"),
                specifiers: vec![ImportSpecifier::Namespace(s("ns"))],
            }),
            ModuleItem::Stmt(destructure(&["A"], Expr::Ident(s("ns")))),
        ],
    });
}

#[test]
fn form_require_member() {
    expect_only_b_unused(stmts(vec![member(require_call("./m"), "A")]));
}

#[test]
fn form_require_bound() {
    expect_only_b_unused(stmts(vec![
        bind_var("r", Expr::TsAs(Box::new(require_call("./m")))),
        member(Expr::Ident(s("r")), "A"),
    ]));
}

#[test]
fn form_awaited_import_bound() {
    expect_only_b_unused(stmts(vec![
        bind_var("m", Expr::Await(Box::new(import_call("./m")))),
        member(Expr::Ident(s("m")), "A"),
    ]));
}

#[test]
fn form_awaited_import_member() {
    expect_only_b_unused(stmts(vec![member(
        Expr::Paren(Box::new(Expr::Await(Box::new(import_call("./m"))))),
        "A",
    )]));
}

#[test]
fn form_then_callback() {
    expect_only_b_unused(stmts(vec![Stmt::Expr(Expr::Call(
        Callee::Expr(Box::new(Expr::Member(
            Box::new(import_call("./m")),
            MemberProp::Ident(s("then")),
        ))),
        vec![Expr::Arrow(
            vec![Pat::Ident(s("cb"))],
            vec![member(Expr::Ident(s("cb")), "A")],
        )],
    ))]));
}

#[test]
fn shadowing_tie_break() {
    let mut a = Analyzer::new();
    a.add_file(4, &Module { items: vec![export_names(&["X"])] }, &table(&[])).unwrap();
    a.add_file(5, &Module { items: vec![export_names(&["X"])] }, &table(&[])).unwrap();
    let m6 = Module {
        items: vec![ModuleItem::ExportAll(s("./m4")), ModuleItem::ExportAll(s("./m5"))],
    };
    let t6 = table(&[("./m4", Resolution::Module(4)), ("./m5", Resolution::Module(5))]);
    a.add_file(6, &m6, &t6).unwrap();
    let m7 = Module { items: vec![import_names("./m6", &["X"])] };
    a.add_file(7, &m7, &table(&[("./m6", Resolution::Module(6))])).unwrap();
    let results = a.finalize();
    assert_eq!(results.len(), 1);
    check_unused(&results, 4, &["X"], &[]);
    assert!(results.get(5).is_none());
}

#[test]
fn multi_hop_reexport() {
    let mut a = Analyzer::new();
    a.add_file(1, &Module { items: vec![export_names(&["helper", "config"])] }, &table(&[]))
        .unwrap();
    let m2 = Module { items: vec![ModuleItem::ExportAll(s("./m1"))] };
    a.add_file(2, &m2, &table(&[("./m1", Resolution::Module(1))])).unwrap();
    let m3 = Module { items: vec![import_names("./m2", &["helper"])] };
    a.add_file(3, &m3, &table(&[("./m2", Resolution::Module(2))])).unwrap();
    let results = a.finalize();
    assert_eq!(results.len(), 1);
    check_unused(&results, 1, &["config"], &[]);
    assert!(results.get(2).is_none());
}

#[test]
fn callback_alias_does_not_leak() {
    let mut a = Analyzer::new();
    a.add_file(8, &Module { items: vec![export_names(&["A", "B"])] }, &table(&[])).unwrap();
    let m9 = stmts(vec![
        Stmt::Expr(Expr::Call(
            Callee::Expr(Box::new(Expr::Member(
                Box::new(import_call("./m8")),
                MemberProp::Ident(s("then")),
            ))),
            vec![Expr::Arrow(
                vec![Pat::Ident(s("mod_ns"))],
                vec![destructure(&["A"], Expr::Ident(s("mod_ns")))],
            )],
        )),
        member(Expr::Ident(s("mod_ns")), "B"),
    ]);
    a.add_file(9, &m9, &table(&[("./m8", Resolution::Module(8))])).unwrap();
    let results = a.finalize();
    assert_eq!(results.len(), 1);
    check_unused(&results, 8, &["B"], &[]);
}

#[test]
fn baseline_no_consumers() {
    let mut a = Analyzer::new();
    let exporter = Module {
        items: vec![
            ModuleItem::ExportDecl(Decl::Class(s("Class"))),
            ModuleItem::ExportDecl(Decl::Fn(s("Fn"))),
            ModuleItem::ExportDecl(Decl::Var(vec![VarDeclarator {
                name: Pat::Ident(s("Var")),
                init: None,
            }])),
            ModuleItem::ExportDecl(Decl::TsEnum(s("Enum"))),
            ModuleItem::ExportDecl(Decl::TsInterface(s("Interface"))),
            ModuleItem::ExportDecl(Decl::TsTypeAlias(s("Type"))),
        ],
    };
    a.add_file(1, &exporter, &table(&[])).unwrap();
    let results = a.finalize();
    assert_eq!(results.len(), 1);
    check_unused(&results, 1, &["Class", "Fn", "Var", "Enum"], &["Interface", "Type"]);
}

#[test]
fn partial_consumption() {
    let mut a = Analyzer::new();
    let exporter = Module {
        items: vec![
            ModuleItem::ExportDecl(Decl::Class(s("Class"))),
            ModuleItem::ExportDecl(Decl::Fn(s("Fn"))),
            ModuleItem::ExportDecl(Decl::Var(vec![VarDeclarator {
                name: Pat::Ident(s("Var")),
                init: None,
            }])),
            ModuleItem::ExportDecl(Decl::TsEnum(s("Enum"))),
            ModuleItem::ExportDecl(Decl::TsInterface(s("Interface"))),
            ModuleItem::ExportDecl(Decl::TsTypeAlias(s("Type"))),
        ],
    };
    a.add_file(1, &exporter, &table(&[])).unwrap();
    let importer = Module {
        items: vec![import_names("./m", &["Fn", "Var", "Enum", "Interface", "Type"])],
    };
    a.add_file(2, &importer, &table(&[("./m", Resolution::Module(1))])).unwrap();
    let results = a.finalize();
    assert_eq!(results.len(), 1);
    check_unused(&results, 1, &["Class"], &[]);
}

#[test]
fn finalize_twice_same_results() {
    let mut a = Analyzer::new();
    a.add_file(1, &Module { items: vec![export_names(&["kept", "gone"])] }, &table(&[])).unwrap();
    let importer = Module { items: vec![import_names("./m", &["kept"])] };
    a.add_file(2, &importer, &table(&[("./m", Resolution::Module(1))])).unwrap();
    let r1 = a.finalize();
    let r2 = a.finalize();
    assert_eq!(r1.len(), r2.len());
    check_unused(&r1, 1, &["gone"], &[]);
    check_unused(&r2, 1, &["gone"], &[]);
    assert!(r1.get(2).is_none() && r2.get(2).is_none());
}

#[test]
fn malformed_export_pattern_aborts_file() {
    let mut a = Analyzer::new();
    a.add_file(1, &Module { items: vec![export_names(&["a"])] }, &table(&[])).unwrap();
    let bad = Module {
        items: vec![ModuleItem::ExportDecl(Decl::Var(vec![VarDeclarator {
            name: Pat::Other,
            init: None,
        }]))],
    };
    let r = a.add_file(2, &bad, &table(&[]));
    assert!(r.is_err());
    let results = a.finalize();
    assert_eq!(results.len(), 1);
    check_unused(&results, 1, &["a"], &[]);
    assert!(results.get(2).is_none());
}

#[test]
fn malformed_require_binding_aborts_file() {
    let mut a = Analyzer::new();
    let bad = stmts(vec![Stmt::VarDecl(vec![VarDeclarator {
        name: Pat::Array(vec![Some(Pat::Ident(s("a")))]),
        init: Some(require_call("./m")),
    }])]);
    let r = a.add_file(1, &bad, &table(&[("./m", Resolution::Module(2))]));
    assert!(r.is_err());
    assert!(a.finalize().is_empty());
}

#[test]
fn resolution_outcomes_suppress_recording() {
    let mut a = Analyzer::new();
    a.add_file(1, &Module { items: vec![export_names(&["A", "B"])] }, &table(&[])).unwrap();
    let importer = Module {
        items: vec![
            import_names("fs", &["A"]),
            import_names("lodash", &["A"]),
            import_names("./nowhere", &["A"]),
        ],
    };
    let t = table(&[("fs", Resolution::Builtin), ("lodash", Resolution::Ignored)]);
    a.add_file(2, &importer, &t).unwrap();
    let results = a.finalize();
    assert_eq!(results.len(), 1);
    check_unused(&results, 1, &["A", "B"], &[]);
    assert!(a.diags.contains(&Diag::UnresolvedSpecifier));
}

#[test]
fn cyclic_reexports_terminate() {
    let mut a = Analyzer::new();
    let m1 = Module {
        items: vec![export_names(&["x", "z"]), ModuleItem::ExportAll(s("./m2"))],
    };
    a.add_file(1, &m1, &table(&[("./m2", Resolution::Module(2))])).unwrap();
    let m2 = Module { items: vec![ModuleItem::ExportAll(s("./m1"))] };
    a.add_file(2, &m2, &table(&[("./m1", Resolution::Module(1))])).unwrap();
    let importer = Module {
        items: vec![import_names("./m2", &["x"]), import_names("./m1", &["y"])],
    };
    let t = table(&[("./m1", Resolution::Module(1)), ("./m2", Resolution::Module(2))]);
    a.add_file(3, &importer, &t).unwrap();
    let results = a.finalize();
    assert_eq!(results.len(), 1);
    check_unused(&results, 1, &["z"], &[]);
}

#[test]
fn computed_member_of_alias_is_skipped() {
    let mut a = Analyzer::new();
    a.add_file(1, &Module { items: vec![export_names(&["A"])] }, &table(&[])).unwrap();
    let importer = Module {
        items: vec![
            ModuleItem::Import(ImportDecl {
                specifier: s("./m"),
                specifiers: vec![ImportSpecifier::Namespace(s("ns"))],
            }),
            ModuleItem::Stmt(Stmt::Expr(Expr::Member(
                Box::new(Expr::Ident(s("ns"))),
                MemberProp::Other,
            ))),
        ],
    };
    a.add_file(2, &importer, &table(&[("./m", Resolution::Module(1))])).unwrap();
    assert!(a.diags.contains(&Diag::UnrecognizedShape));
    let results = a.finalize();
    check_unused(&results, 1, &["A"], &[]);
}

#[test]
fn computed_member_of_require_aborts() {
    let mut a = Analyzer::new();
    let bad = stmts(vec![Stmt::Expr(Expr::Member(
        Box::new(require_call("./m")),
        MemberProp::Other,
    ))]);
    let r = a.add_file(1, &bad, &table(&[("./m", Resolution::Module(2))]));
    assert!(r.is_err());
}

#[test]
fn later_export_declaration_wins() {
    let mut a = Analyzer::new();
    let exporter = Module {
        items: vec![
            export_names(&["a"]),
            ModuleItem::ExportNamed(vec![ExportSpecifier::Named {
                orig: s("b"),
                exported: Some(s("a")),
            }]),
        ],
    };
    a.add_file(1, &exporter, &table(&[])).unwrap();
    let results = a.finalize();
    assert_eq!(results.len(), 1);
    check_unused(&results, 1, &["a"], &[]);
}

#[test]
fn reanalyzing_a_module_overwrites_its_record() {
    let mut a = Analyzer::new();
    a.add_file(1, &Module { items: vec![export_names(&["old_name"])] }, &table(&[])).unwrap();
    a.add_file(1, &Module { items: vec![export_names(&["new_name"])] }, &table(&[])).unwrap();
    let results = a.finalize();
    assert_eq!(results.len(), 1);
    check_unused(&results, 1, &["new_name"], &[]);
}

#[test]
fn export_star_namespace_and_defaults() {
    let mut a = Analyzer::new();
    let exporter = Module {
        items: vec![ModuleItem::ExportNamed(vec![
            ExportSpecifier::Namespace(s("ns_name")),
            ExportSpecifier::Default,
        ])],
    };
    a.add_file(1, &exporter, &table(&[])).unwrap();
    let results = a.finalize();
    assert_eq!(results.len(), 1);
    check_unused(&results, 1, &["ns_name", "default"], &[]);
}

#[test]
fn exported_destructuring_patterns() {
    let mut a = Analyzer::new();
    let exporter = Module {
        items: vec![
            ModuleItem::ExportDecl(Decl::Var(vec![VarDeclarator {
                name: Pat::Array(vec![
                    Some(Pat::Ident(s("first"))),
                    Some(Pat::Ident(s("second"))),
                ]),
                init: None,
            }])),
            ModuleItem::ExportDecl(Decl::Var(vec![VarDeclarator {
                name: Pat::Object(vec![
                    ObjectPatProp::Shorthand(s("plain")),
                    ObjectPatProp::KeyValue(s("outer"), Box::new(Pat::Ident(s("inner")))),
                ]),
                init: None,
            }])),
        ],
    };
    a.add_file(1, &exporter, &table(&[])).unwrap();
    let results = a.finalize();
    assert_eq!(results.len(), 1);
    check_unused(&results, 1, &["first", "second", "plain", "outer"], &[]);
}
