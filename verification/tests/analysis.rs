//! End-to-end analysis scenarios: each test builds a handful of modules in
//! the library's syntax-tree model, resolves specifiers through a fixed
//! table, and checks the final unused-export report.

use ts_deadcode::Analyzer;
use ts_deadcode::AnalysisResults;
use ts_deadcode::Callee;
use ts_deadcode::Decl;
use ts_deadcode::ExportSpecifier;
use ts_deadcode::Expr;
use ts_deadcode::ImportDecl;
use ts_deadcode::ImportSpecifier;
use ts_deadcode::MemberProp;
use ts_deadcode::Module;
use ts_deadcode::ModuleItem;
use ts_deadcode::ObjectPatProp;
use ts_deadcode::Pat;
use ts_deadcode::Resolution;
use ts_deadcode::ResolverTable;
use ts_deadcode::Stmt;
use ts_deadcode::VarDeclarator;

fn s(x: &str) -> String {
    x.to_string()
}

fn table(map: &[(&str, Resolution)]) -> ResolverTable {
    let mut t = ResolverTable::new();
    for (k, r) in map {
        t.add(s(k), *r);
    }
    t
}

fn export_names(names: &[&str]) -> ModuleItem {
    ModuleItem::ExportNamed(
        names
            .iter()
            .map(|n| ExportSpecifier::Named { orig: s(n), exported: None })
            .collect(),
    )
}

fn export_names_aliased(names: &[&str]) -> ModuleItem {
    ModuleItem::ExportNamed(
        names
            .iter()
            .map(|n| ExportSpecifier::Named { orig: s(n), exported: Some(s(n)) })
            .collect(),
    )
}

fn import_names(spec: &str, names: &[&str]) -> ModuleItem {
    ModuleItem::Import(ImportDecl {
        specifier: s(spec),
        specifiers: names
            .iter()
            .map(|n| ImportSpecifier::Named { imported: None, local: s(n) })
            .collect(),
    })
}

fn import_names_aliased(spec: &str, names: &[&str]) -> ModuleItem {
    ModuleItem::Import(ImportDecl {
        specifier: s(spec),
        specifiers: names
            .iter()
            .map(|n| ImportSpecifier::Named {
                imported: Some(s(n)),
                local: format!("local_{}", n),
            })
            .collect(),
    })
}

fn namespace_import(spec: &str, local: &str) -> ModuleItem {
    ModuleItem::Import(ImportDecl {
        specifier: s(spec),
        specifiers: vec![ImportSpecifier::Namespace(s(local))],
    })
}

fn default_import(spec: &str) -> ModuleItem {
    ModuleItem::Import(ImportDecl {
        specifier: s(spec),
        specifiers: vec![ImportSpecifier::Default],
    })
}

fn require_call(spec: &str) -> Expr {
    Expr::Call(
        Callee::Expr(Box::new(Expr::Ident(s("require")))),
        vec![Expr::Str(s(spec))],
    )
}

fn import_call(spec: &str) -> Expr {
    Expr::Call(Callee::ImportCall, vec![Expr::Str(s(spec))])
}

fn member(obj: Expr, prop: &str) -> Stmt {
    Stmt::Expr(Expr::Member(Box::new(obj), MemberProp::Ident(s(prop))))
}

fn bind_var(name: &str, init: Expr) -> Stmt {
    Stmt::VarDecl(vec![VarDeclarator { name: Pat::Ident(s(name)), init: Some(init) }])
}

fn destructure(names: &[&str], init: Expr) -> Stmt {
    Stmt::VarDecl(vec![VarDeclarator {
        name: Pat::Object(names.iter().map(|n| ObjectPatProp::Shorthand(s(n))).collect()),
        init: Some(init),
    }])
}

fn stmts(list: Vec<Stmt>) -> Module {
    Module { items: list.into_iter().map(ModuleItem::Stmt).collect() }
}

fn check_unused(r: &AnalysisResults, id: u64, value: &[&str], types: &[&str]) {
    let e = r.get(id).expect("module should be reported");
    assert_eq!(e.unused_exports.len(), value.len());
    for n in value {
        assert!(e.unused_exports.contains(&s(n)), "missing unused value export {}", n);
    }
    assert_eq!(e.unused_type_exports.len(), types.len());
    for n in types {
        assert!(e.unused_type_exports.contains(&s(n)), "missing unused type export {}", n);
    }
}

const SEVEN: [&str; 7] = ["Class", "Enum", "Fn", "Var", "Interface", "Const", "Type"];

fn export_named_module() -> Module {
    Module { items: vec![export_names(&SEVEN)] }
}

fn export_decl_module() -> Module {
    Module {
        items: vec![
            ModuleItem::ExportDecl(Decl::Class(s("Class"))),
            ModuleItem::ExportDecl(Decl::TsEnum(s("Enum"))),
            ModuleItem::ExportDecl(Decl::Fn(s("Fn"))),
            ModuleItem::ExportDecl(Decl::Var(vec![VarDeclarator {
                name: Pat::Ident(s("Var")),
                init: None,
            }])),
            ModuleItem::ExportDecl(Decl::Var(vec![VarDeclarator {
                name: Pat::Ident(s("Const")),
                init: None,
            }])),
            ModuleItem::ExportDecl(Decl::TsInterface(s("Interface"))),
            ModuleItem::ExportDecl(Decl::TsTypeAlias(s("Type"))),
        ],
    }
}

const EXPORT_NAMED: u64 = 1;

fn to_named(spec: &str) -> (&str, Resolution) {
    (spec, Resolution::Module(EXPORT_NAMED))
}

#[test]
fn named_exports() {
    let mut a = Analyzer::new();
    a.add_file(EXPORT_NAMED, &export_named_module(), &table(&[])).unwrap();
    let results = a.finalize();
    assert_eq!(results.len(), 1);
    check_unused(&results, EXPORT_NAMED, &SEVEN, &[]);
}

#[test]
fn named_exports_inline() {
    let mut a = Analyzer::new();
    a.add_file(1, &export_decl_module(), &table(&[])).unwrap();
    let results = a.finalize();
    assert_eq!(results.len(), 1);
    check_unused(&results, 1, &["Class", "Enum", "Fn", "Var", "Const"], &["Interface", "Type"]);
}

#[test]
fn named_exports_imported_partially() {
    let mut a = Analyzer::new();
    a.add_file(EXPORT_NAMED, &export_named_module(), &table(&[])).unwrap();
    let importer = Module {
        items: vec![import_names(
            "./export_named",
            &["Enum", "Fn", "Var", "Interface", "Const", "Type"],
        )],
    };
    a.add_file(2, &importer, &table(&[to_named("./export_named")])).unwrap();
    let results = a.finalize();
    assert_eq!(results.len(), 1);
    check_unused(&results, EXPORT_NAMED, &["Class"], &[]);
}

#[test]
fn named_exports_imported_fully() {
    let mut a = Analyzer::new();
    a.add_file(EXPORT_NAMED, &export_named_module(), &table(&[])).unwrap();
    let importer = Module {
        items: vec![import_names(
            "./export_named",
            &["Enum", "Fn", "Var", "Interface", "Const", "Type"],
        )],
    };
    a.add_file(2, &importer, &table(&[to_named("./export_named")])).unwrap();
    let importer_class = Module { items: vec![import_names("./export_named", &["Class"])] };
    a.add_file(3, &importer_class, &table(&[to_named("./export_named")])).unwrap();
    let results = a.finalize();
    assert!(results.is_empty());
    assert_eq!(results.len(), 0);
}

#[test]
fn aliased_named_exports() {
    let mut a = Analyzer::new();
    a.add_file(1, &Module { items: vec![export_names_aliased(&SEVEN)] }, &table(&[])).unwrap();
    let results = a.finalize();
    assert_eq!(results.len(), 1);
    check_unused(&results, 1, &SEVEN, &[]);
}

#[test]
fn aliased_named_exports_imported_partially() {
    let mut a = Analyzer::new();
    a.add_file(EXPORT_NAMED, &Module { items: vec![export_names_aliased(&SEVEN)] }, &table(&[]))
        .unwrap();
    let importer = Module {
        items: vec![import_names_aliased(
            "./aliased",
            &["Class", "Fn", "Var", "Interface", "Const", "Type"],
        )],
    };
    a.add_file(2, &importer, &table(&[to_named("./aliased")])).unwrap();
    let results = a.finalize();
    assert_eq!(results.len(), 1);
    check_unused(&results, EXPORT_NAMED, &["Enum"], &[]);
}

#[test]
fn aliased_named_exports_imported_fully() {
    let mut a = Analyzer::new();
    a.add_file(EXPORT_NAMED, &Module { items: vec![export_names_aliased(&SEVEN)] }, &table(&[]))
        .unwrap();
    let importer = Module {
        items: vec![import_names_aliased(
            "./aliased",
            &["Class", "Fn", "Var", "Interface", "Const", "Type"],
        )],
    };
    a.add_file(2, &importer, &table(&[to_named("./aliased")])).unwrap();
    let importer_enum = Module { items: vec![import_names_aliased("./aliased", &["Enum"])] };
    a.add_file(3, &importer_enum, &table(&[to_named("./aliased")])).unwrap();
    let results = a.finalize();
    assert!(results.is_empty());
}

#[test]
fn namespace_imported_partially() {
    let mut a = Analyzer::new();
    a.add_file(EXPORT_NAMED, &export_named_module(), &table(&[])).unwrap();
    let importer = Module {
        items: vec![
            namespace_import("./export_named", "utils"),
            ModuleItem::Stmt(member(Expr::Ident(s("utils")), "Class")),
            ModuleItem::Stmt(member(Expr::Ident(s("utils")), "Fn")),
            ModuleItem::Stmt(member(Expr::Ident(s("utils")), "Var")),
            ModuleItem::Stmt(member(Expr::Ident(s("utils")), "Interface")),
            ModuleItem::Stmt(destructure(&["Const", "Type"], Expr::Ident(s("utils")))),
        ],
    };
    a.add_file(2, &importer, &table(&[to_named("./export_named")])).unwrap();
    let results = a.finalize();
    assert_eq!(results.len(), 1);
    check_unused(&results, EXPORT_NAMED, &["Enum"], &[]);
}

#[test]
fn require_named() {
    let mut a = Analyzer::new();
    a.add_file(EXPORT_NAMED, &export_named_module(), &table(&[])).unwrap();
    let importer = stmts(vec![
        bind_var("named", require_call("./export_named")),
        member(Expr::Ident(s("named")), "Enum"),
        member(Expr::Ident(s("named")), "Fn"),
        member(Expr::Ident(s("named")), "Var"),
        member(require_call("./export_named"), "Interface"),
        destructure(&["Const"], Expr::Ident(s("named"))),
        bind_var("asserted", Expr::TsAs(Box::new(require_call("./export_named")))),
        member(Expr::Ident(s("asserted")), "Type"),
    ]);
    a.add_file(2, &importer, &table(&[to_named("./export_named")])).unwrap();
    let results = a.finalize();
    assert_eq!(results.len(), 1);
    check_unused(&results, EXPORT_NAMED, &["Class"], &[]);
}

#[test]
fn async_import_named() {
    let mut a = Analyzer::new();
    a.add_file(EXPORT_NAMED, &export_named_module(), &table(&[])).unwrap();
    let importer = stmts(vec![
        bind_var("named", Expr::Await(Box::new(import_call("./export_named")))),
        member(Expr::Ident(s("named")), "Enum"),
        member(Expr::Ident(s("named")), "Fn"),
        member(Expr::Ident(s("named")), "Var"),
        member(
            Expr::Paren(Box::new(Expr::Await(Box::new(import_call("./export_named"))))),
            "Interface",
        ),
        Stmt::Expr(Expr::Call(
            Callee::Expr(Box::new(Expr::Member(
                Box::new(import_call("./export_named")),
                MemberProp::Ident(s("then")),
            ))),
            vec![Expr::Arrow(
                vec![Pat::Ident(s("mod_ns"))],
                vec![
                    member(Expr::Ident(s("mod_ns")), "Type"),
                    destructure(&["Const"], Expr::Ident(s("mod_ns"))),
                ],
            )],
        )),
    ]);
    a.add_file(2, &importer, &table(&[to_named("./export_named")])).unwrap();
    let results = a.finalize();
    assert_eq!(results.len(), 1);
    check_unused(&results, EXPORT_NAMED, &["Class"], &[]);
}

#[test]
fn import_defaults() {
    let mut a = Analyzer::new();
    let default_decl = Module { items: vec![ModuleItem::ExportDefaultDecl] };
    let default_expr = Module { items: vec![ModuleItem::ExportDefaultExpr(Expr::Other(vec![]))] };
    a.add_file(1, &default_decl, &table(&[])).unwrap();
    a.add_file(2, &default_decl, &table(&[])).unwrap();
    a.add_file(3, &default_decl, &table(&[])).unwrap();
    a.add_file(4, &default_expr, &table(&[])).unwrap();
    let importer = Module {
        items: vec![
            default_import("./export_default_class"),
            default_import("./export_default_function"),
            default_import("./export_default_object"),
        ],
    };
    let t = table(&[
        ("./export_default_class", Resolution::Module(1)),
        ("./export_default_function", Resolution::Module(3)),
        ("./export_default_object", Resolution::Module(4)),
    ]);
    a.add_file(5, &importer, &t).unwrap();
    let results = a.finalize();
    assert_eq!(results.len(), 1);
    check_unused(&results, 2, &["default"], &[]);
}

#[test]
fn import_module_obj_name_collisions() {
    let mut a = Analyzer::new();
    a.add_file(1, &Module { items: vec![export_names(&["foo", "bar", "baz"])] }, &table(&[]))
        .unwrap();
    a.add_file(2, &Module { items: vec![export_names(&["foo", "baz"])] }, &table(&[])).unwrap();
    let importer = stmts(vec![
        bind_var("ns", require_call("./export_foo")),
        member(Expr::Ident(s("ns")), "foo"),
        member(Expr::Ident(s("ns")), "bar"),
        bind_var("ns", require_call("./export_bar")),
        member(Expr::Ident(s("ns")), "baz"),
    ]);
    let t = table(&[
        ("./export_foo", Resolution::Module(1)),
        ("./export_bar", Resolution::Module(2)),
    ]);
    a.add_file(3, &importer, &t).unwrap();
    let results = a.finalize();
    assert_eq!(results.len(), 2);
    check_unused(&results, 1, &["baz"], &[]);
    check_unused(&results, 2, &["foo"], &[]);
}

#[test]
fn acid_test() {
    let mut a = Analyzer::new();
    let acid = Module {
        items: vec![
            export_names(&["a"]),
            ModuleItem::OtherDecl,
            import_names("fs", &["readFile"]),
            import_names("lodash", &["map_things"]),
            import_names("missing", &["zzz"]),
            ModuleItem::Stmt(member(require_call("./acid"), "a")),
            ModuleItem::Stmt(Stmt::Expr(Expr::Other(vec![Expr::Ident(s("whatever"))]))),
        ],
    };
    let t = table(&[
        ("./acid", Resolution::Module(1)),
        ("fs", Resolution::Builtin),
        ("lodash", Resolution::Ignored),
    ]);
    a.add_file(1, &acid, &t).unwrap();
    let results = a.finalize();
    assert!(results.is_empty());
}

#[test]
fn export_star_test() {
    let mut a = Analyzer::new();
    a.add_file(1, &Module { items: vec![export_names(&["foo", "bar", "baz"])] }, &table(&[]))
        .unwrap();
    a.add_file(2, &Module { items: vec![export_names(&["foo", "baz"])] }, &table(&[])).unwrap();
    let reexport_all = Module { items: vec![ModuleItem::ExportAll(s("./export_foo"))] };
    a.add_file(3, &reexport_all, &table(&[("./export_foo", Resolution::Module(1))])).unwrap();
    let reexport_all_again = Module {
        items: vec![
            ModuleItem::ExportAll(s("./reexport_all")),
            ModuleItem::ExportAll(s("./export_bar")),
        ],
    };
    let t4 = table(&[
        ("./reexport_all", Resolution::Module(3)),
        ("./export_bar", Resolution::Module(2)),
    ]);
    a.add_file(4, &reexport_all_again, &t4).unwrap();
    let importer = Module { items: vec![import_names("./reexport_all_again", &["foo"])] };
    a.add_file(5, &importer, &table(&[("./reexport_all_again", Resolution::Module(4))])).unwrap();
    let results = a.finalize();
    assert_eq!(results.len(), 2);
    check_unused(&results, 1, &["foo", "bar", "baz"], &[]);
    check_unused(&results, 2, &["baz"], &[]);
}
