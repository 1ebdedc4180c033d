//! The extraction semantics.
//!
//! These specification functions say, once and declaratively, what one pass
//! over a module's syntax tree produces: its export tables, its ordered
//! `export *` edge list, and the usage facts it emits against other modules,
//! under a scope stack of namespace-alias bindings. The executable extractor
//! is verified against precisely this semantics.
//!
//! `None` means the file's analysis aborts: the extractor met a structurally
//! malformed pattern it cannot safely interpret. Everything merely
//! unrecognized is skipped instead (with a diagnostic, which this semantics
//! does not model).

use vstd::prelude::*;

use crate::model::Callee;
use crate::model::Decl;
use crate::model::ExportSpecifier;
use crate::model::Expr;
use crate::model::ImportSpecifier;
use crate::model::MemberProp;
use crate::model::ModuleItem;
use crate::model::ObjectPatProp;
use crate::model::Pat;
use crate::model::Stmt;
use crate::model::VarDeclarator;
use crate::resolve::Resolution;
use crate::resolve::resolution_of;

verus! {

/// The extractor's state while walking one module.
pub struct ExtractState {
    /// The identity of the module under analysis.
    pub module: u64,
    /// Value exports: exported name -> original local name.
    pub value_exports: Map<Seq<char>, Seq<char>>,
    /// Type-only exports: exported name -> original local name.
    pub type_exports: Map<Seq<char>, Seq<char>>,
    /// `export *` targets, in declaration order.
    pub export_alls: Seq<u64>,
    /// Scope stack of namespace-alias bindings: local name -> specifier.
    pub bindings: Seq<(Seq<char>, Seq<char>)>,
    /// Usage facts emitted so far: (target module, symbol), in order.
    pub facts: Seq<(u64, Seq<char>)>,
}

/// The state at the start of a module's extraction.
pub open spec fn init_extract(module: u64) -> ExtractState {
    ExtractState {
        module,
        value_exports: Map::empty(),
        type_exports: Map::empty(),
        export_alls: Seq::empty(),
        bindings: Seq::empty(),
        facts: Seq::empty(),
    }
}

/// Emits a usage fact for `symbol` against whatever `specifier` resolves to;
/// built-in, ignored and failed resolutions record nothing.
pub open spec fn rec_import(
    st: ExtractState,
    r: Map<Seq<char>, Resolution>,
    specifier: Seq<char>,
    symbol: Seq<char>,
) -> ExtractState {
    match resolution_of(r, specifier) {
        Resolution::Module(id) => ExtractState { facts: st.facts.push((id, symbol)), ..st },
        _ => st,
    }
}

/// Records a value export; a later declaration of the same exported name wins.
pub open spec fn rec_export(st: ExtractState, exported: Seq<char>, orig: Seq<char>) -> ExtractState {
    ExtractState { value_exports: st.value_exports.insert(exported, orig), ..st }
}

/// Records a type-only export.
pub open spec fn rec_type_export(
    st: ExtractState,
    exported: Seq<char>,
    orig: Seq<char>,
) -> ExtractState {
    ExtractState { type_exports: st.type_exports.insert(exported, orig), ..st }
}

/// Appends an `export *` edge for a successfully resolved target.
pub open spec fn rec_export_all(
    st: ExtractState,
    r: Map<Seq<char>, Resolution>,
    specifier: Seq<char>,
) -> ExtractState {
    match resolution_of(r, specifier) {
        Resolution::Module(id) => ExtractState { export_alls: st.export_alls.push(id), ..st },
        _ => st,
    }
}

/// Pushes a namespace-alias binding, shadowing any earlier one for the name.
pub open spec fn bind_alias(st: ExtractState, local: Seq<char>, specifier: Seq<char>) -> ExtractState {
    ExtractState { bindings: st.bindings.push((local, specifier)), ..st }
}

/// The specifier an alias name is bound to, innermost binding first.
pub open spec fn alias_target(bs: Seq<(Seq<char>, Seq<char>)>, name: Seq<char>) -> Option<Seq<char>>
    decreases bs.len(),
{
    if bs.len() == 0 {
        None
    } else if bs.last().0 == name {
        Some(bs.last().1)
    } else {
        alias_target(bs.drop_last(), name)
    }
}

// ------------------------------------------------------------------
// Shape recognition.
// ------------------------------------------------------------------

/// The callee is the bare identifier `require`.
pub open spec fn is_require_callee(c: Callee) -> bool {
    match c {
        Callee::Expr(e) => match *e {
            Expr::Ident(name) => name@ == "require"@,
            _ => false,
        },
        _ => false,
    }
}

/// The first argument, when it is a string literal.
pub open spec fn literal_arg(args: Seq<Expr>) -> Option<Seq<char>> {
    if args.len() == 0 {
        None
    } else {
        match args[0] {
            Expr::Str(s) => Some(s@),
            _ => None,
        }
    }
}

/// `require("specifier")` with a literal argument.
pub open spec fn require_specifier(e: Expr) -> Option<Seq<char>> {
    match e {
        Expr::Call(c, args) => if is_require_callee(c) {
            literal_arg(args@)
        } else {
            None
        },
        _ => None,
    }
}

/// `import("specifier")` with a literal argument.
pub open spec fn import_specifier(e: Expr) -> Option<Seq<char>> {
    match e {
        Expr::Call(c, args) => if c is ImportCall {
            literal_arg(args@)
        } else {
            None
        },
        _ => None,
    }
}

/// A module reference in member-object position: `require("m").X`,
/// `(require("m") as T).X`, or `(await import("m")).X`.
pub open spec fn member_obj_specifier(e: Expr) -> Option<Seq<char>> {
    match e {
        Expr::Call(..) => require_specifier(e),
        Expr::Paren(inner) => match *inner {
            Expr::TsAs(i2) => require_specifier(*i2),
            Expr::Await(i2) => import_specifier(*i2),
            _ => None,
        },
        _ => None,
    }
}

/// A module reference in initializer position: `require("m")`,
/// `require("m") as T`, or `await import("m")`, under any parentheses.
pub open spec fn init_specifier(e: Expr) -> Option<Seq<char>>
    decreases e,
{
    match e {
        Expr::Paren(inner) => init_specifier(*inner),
        Expr::Call(..) => require_specifier(e),
        Expr::TsAs(i2) => require_specifier(*i2),
        Expr::Await(i2) => import_specifier(*i2),
        _ => None,
    }
}

/// The identifier parameter of an arrow function in first-argument position.
pub open spec fn arrow_first_param(args: Seq<Expr>) -> Option<Seq<char>> {
    if args.len() == 0 {
        None
    } else {
        match args[0] {
            Expr::Arrow(params, _) => if params@.len() == 0 {
                None
            } else {
                match params@[0] {
                    Pat::Ident(name) => Some(name@),
                    _ => None,
                }
            },
            _ => None,
        }
    }
}

/// `import("specifier").then(param => ...)`: the callback parameter and the
/// specifier, when the whole chain matches.
pub open spec fn then_shape(callee: Callee, args: Seq<Expr>) -> Option<(Seq<char>, Seq<char>)> {
    match callee {
        Callee::Expr(ce) => match *ce {
            Expr::Member(obj, prop) => match prop {
                MemberProp::Ident(p) => if p@ == "then"@ {
                    match import_specifier(*obj) {
                        Some(specifier) => match arrow_first_param(args) {
                            Some(param) => Some((param, specifier)),
                            None => None,
                        },
                        None => None,
                    }
                } else {
                    None
                },
                _ => None,
            },
            _ => None,
        },
        _ => None,
    }
}

// ------------------------------------------------------------------
// Flat folds (no recursion back into the traversal).
// ------------------------------------------------------------------

/// The specifiers of one `import` declaration, in order.
pub open spec fn import_specs_fold(
    st: ExtractState,
    r: Map<Seq<char>, Resolution>,
    specifier: Seq<char>,
    specs: Seq<ImportSpecifier>,
    i: int,
) -> ExtractState
    decreases specs.len() - i,
{
    if i < 0 || i >= specs.len() {
        st
    } else {
        let st1 = match specs[i] {
            ImportSpecifier::Named { imported, local } => {
                let symbol = match imported {
                    Some(im) => im@,
                    None => local@,
                };
                rec_import(st, r, specifier, symbol)
            },
            ImportSpecifier::Default => rec_import(st, r, specifier, "default"@),
            ImportSpecifier::Namespace(local) => bind_alias(st, local@, specifier),
        };
        import_specs_fold(st1, r, specifier, specs, i + 1)
    }
}

/// The specifiers of one `export { ... }` declaration, in order.
pub open spec fn export_named_fold(st: ExtractState, specs: Seq<ExportSpecifier>, i: int) -> ExtractState
    decreases specs.len() - i,
{
    if i < 0 || i >= specs.len() {
        st
    } else {
        let st1 = match specs[i] {
            ExportSpecifier::Named { orig, exported } => {
                let ex = match exported {
                    Some(e) => e@,
                    None => orig@,
                };
                rec_export(st, ex, orig@)
            },
            ExportSpecifier::Namespace(name) => rec_export(st, name@, name@),
            ExportSpecifier::Default => rec_export(st, "default"@, "default"@),
        };
        export_named_fold(st1, specs, i + 1)
    }
}

/// Destructuring a namespace alias: one usage fact per property name;
/// unrecognized properties are skipped.
pub open spec fn destructure_fold(
    st: ExtractState,
    r: Map<Seq<char>, Resolution>,
    file: Seq<char>,
    props: Seq<ObjectPatProp>,
    i: int,
) -> ExtractState
    decreases props.len() - i,
{
    if i < 0 || i >= props.len() {
        st
    } else {
        let st1 = match props[i] {
            ObjectPatProp::Shorthand(key) => rec_import(st, r, file, key@),
            ObjectPatProp::KeyValue(key, _) => rec_import(st, r, file, key@),
            ObjectPatProp::Other => st,
        };
        destructure_fold(st1, r, file, props, i + 1)
    }
}

/// The elements of an exported array pattern: each must be a plain
/// identifier; anything else is malformed and aborts the file.
pub open spec fn export_array_fold(st: ExtractState, elems: Seq<Option<Pat>>, i: int) -> Option<
    ExtractState,
>
    decreases elems.len() - i,
{
    if i < 0 || i >= elems.len() {
        Some(st)
    } else {
        match elems[i] {
            Some(p) => match p {
                Pat::Ident(name) => export_array_fold(rec_export(st, name@, name@), elems, i + 1),
                _ => None,
            },
            None => None,
        }
    }
}

/// The properties of an exported object pattern: shorthand exports the key
/// under its own name; `key: local` must bind a plain identifier; anything
/// else is malformed and aborts the file.
pub open spec fn export_object_fold(st: ExtractState, props: Seq<ObjectPatProp>, i: int) -> Option<
    ExtractState,
>
    decreases props.len() - i,
{
    if i < 0 || i >= props.len() {
        Some(st)
    } else {
        match props[i] {
            ObjectPatProp::Shorthand(key) => export_object_fold(
                rec_export(st, key@, key@),
                props,
                i + 1,
            ),
            ObjectPatProp::KeyValue(key, value) => match *value {
                Pat::Ident(bound) => export_object_fold(
                    rec_export(st, key@, bound@),
                    props,
                    i + 1,
                ),
                _ => None,
            },
            ObjectPatProp::Other => None,
        }
    }
}

/// The exports an exported variable-declaration pattern declares.
pub open spec fn export_pat(st: ExtractState, p: Pat) -> Option<ExtractState> {
    match p {
        Pat::Ident(name) => Some(rec_export(st, name@, name@)),
        Pat::Array(elems) => export_array_fold(st, elems@, 0),
        Pat::Object(props) => export_object_fold(st, props@, 0),
        Pat::Other => None,
    }
}

/// The exports of all declarators of one `export const/let/var`.
pub open spec fn export_var_pats(st: ExtractState, ds: Seq<VarDeclarator>, i: int) -> Option<
    ExtractState,
>
    decreases ds.len() - i,
{
    if i < 0 || i >= ds.len() {
        Some(st)
    } else {
        match export_pat(st, ds[i].name) {
            Some(st1) => export_var_pats(st1, ds, i + 1),
            None => None,
        }
    }
}

// ------------------------------------------------------------------
// The traversal.
// ------------------------------------------------------------------

/// The items of a module, from index `i` on.
pub open spec fn ext_items(
    st: ExtractState,
    r: Map<Seq<char>, Resolution>,
    items: Seq<ModuleItem>,
    i: int,
) -> Option<ExtractState>
    decreases items, items.len() - i,
{
    if i < 0 || i >= items.len() {
        Some(st)
    } else {
        match ext_item(st, r, items[i]) {
            Some(st1) => ext_items(st1, r, items, i + 1),
            None => None,
        }
    }
}

/// One top-level item.
pub open spec fn ext_item(st: ExtractState, r: Map<Seq<char>, Resolution>, item: ModuleItem) -> Option<
    ExtractState,
>
    decreases item, 0int,
{
    match item {
        ModuleItem::Import(d) => Some(import_specs_fold(st, r, d.specifier@, d.specifiers@, 0)),
        ModuleItem::ExportDecl(d) => ext_export_decl(st, r, d),
        ModuleItem::ExportNamed(specs) => Some(export_named_fold(st, specs@, 0)),
        ModuleItem::ExportAll(specifier) => Some(rec_export_all(st, r, specifier@)),
        ModuleItem::ExportDefaultDecl => Some(rec_export(st, "default"@, "default"@)),
        ModuleItem::ExportDefaultExpr(e) => ext_expr(rec_export(st, "default"@, "default"@), r, e),
        ModuleItem::Stmt(s) => ext_stmt(st, r, s),
        ModuleItem::OtherDecl => Some(st),
    }
}

/// A declaration behind `export`: record its exports, then traverse any
/// variable initializers for usages.
pub open spec fn ext_export_decl(st: ExtractState, r: Map<Seq<char>, Resolution>, d: Decl) -> Option<
    ExtractState,
>
    decreases d, 0int,
{
    match d {
        Decl::Class(name) => Some(rec_export(st, name@, name@)),
        Decl::Fn(name) => Some(rec_export(st, name@, name@)),
        Decl::Var(ds) => match export_var_pats(st, ds@, 0) {
            Some(st1) => ext_var_declarators(st1, r, ds@, 0),
            None => None,
        },
        Decl::TsInterface(name) => Some(rec_type_export(st, name@, name@)),
        Decl::TsTypeAlias(name) => Some(rec_type_export(st, name@, name@)),
        Decl::TsEnum(name) => Some(rec_export(st, name@, name@)),
        Decl::Other => Some(st),
    }
}

/// The declarators of one `const/let/var`, from index `i` on.
pub open spec fn ext_var_declarators(
    st: ExtractState,
    r: Map<Seq<char>, Resolution>,
    ds: Seq<VarDeclarator>,
    i: int,
) -> Option<ExtractState>
    decreases ds, ds.len() - i,
{
    if i < 0 || i >= ds.len() {
        Some(st)
    } else {
        match ext_var_declarator(st, r, ds[i]) {
            Some(st1) => ext_var_declarators(st1, r, ds, i + 1),
            None => None,
        }
    }
}

/// One declarator: binds aliases for `require`/`import` initializers,
/// records destructured alias usages, then traverses the initializer.
pub open spec fn ext_var_declarator(
    st: ExtractState,
    r: Map<Seq<char>, Resolution>,
    d: VarDeclarator,
) -> Option<ExtractState>
    decreases d, 0int,
{
    match d.init {
        None => Some(st),
        Some(init) => {
            let aliased = match init {
                Expr::Ident(name) => alias_target(st.bindings, name@),
                _ => None,
            };
            match aliased {
                Some(file) => match d.name {
                    Pat::Object(props) => ext_expr(destructure_fold(st, r, file, props@, 0), r, init),
                    _ => Some(st),
                },
                None => match init_specifier(init) {
                    Some(file) => match d.name {
                        Pat::Ident(local) => ext_expr(bind_alias(st, local@, file), r, init),
                        Pat::Object(props) => ext_expr(
                            destructure_fold(st, r, file, props@, 0),
                            r,
                            init,
                        ),
                        _ => None,
                    },
                    None => ext_expr(st, r, init),
                },
            }
        },
    }
}

/// Statements from index `i` on.
pub open spec fn ext_stmts(
    st: ExtractState,
    r: Map<Seq<char>, Resolution>,
    ss: Seq<Stmt>,
    i: int,
) -> Option<ExtractState>
    decreases ss, ss.len() - i,
{
    if i < 0 || i >= ss.len() {
        Some(st)
    } else {
        match ext_stmt(st, r, ss[i]) {
            Some(st1) => ext_stmts(st1, r, ss, i + 1),
            None => None,
        }
    }
}

/// One statement.
pub open spec fn ext_stmt(st: ExtractState, r: Map<Seq<char>, Resolution>, s: Stmt) -> Option<
    ExtractState,
>
    decreases s, 0int,
{
    match s {
        Stmt::VarDecl(ds) => ext_var_declarators(st, r, ds@, 0),
        Stmt::Expr(e) => ext_expr(st, r, e),
        Stmt::Block(ss) => ext_stmts(st, r, ss@, 0),
    }
}

/// Expressions from index `i` on.
pub open spec fn ext_exprs(
    st: ExtractState,
    r: Map<Seq<char>, Resolution>,
    es: Seq<Expr>,
    i: int,
) -> Option<ExtractState>
    decreases es, es.len() - i,
{
    if i < 0 || i >= es.len() {
        Some(st)
    } else {
        match ext_expr(st, r, es[i]) {
            Some(st1) => ext_exprs(st1, r, es, i + 1),
            None => None,
        }
    }
}

/// A callee position.
pub open spec fn ext_callee(st: ExtractState, r: Map<Seq<char>, Resolution>, c: Callee) -> Option<
    ExtractState,
>
    decreases c, 0int,
{
    match c {
        Callee::Expr(e) => ext_expr(st, r, *e),
        _ => Some(st),
    }
}

/// One expression.
pub open spec fn ext_expr(st: ExtractState, r: Map<Seq<char>, Resolution>, e: Expr) -> Option<
    ExtractState,
>
    decreases e, 0int,
{
    match e {
        Expr::Ident(_) => Some(st),
        Expr::Str(_) => Some(st),
        Expr::Member(obj, prop) => ext_member(st, r, *obj, prop),
        Expr::Call(c, args) => {
            let bound = then_shape(c, args@);
            let st0 = match bound {
                Some((param, specifier)) => bind_alias(st, param, specifier),
                None => st,
            };
            match ext_callee(st0, r, c) {
                Some(st1) => match ext_exprs(st1, r, args@, 0) {
                    Some(st2) => Some(
                        if bound is Some {
                            ExtractState { bindings: st.bindings, ..st2 }
                        } else {
                            st2
                        },
                    ),
                    None => None,
                },
                None => None,
            }
        },
        Expr::Paren(inner) => ext_expr(st, r, *inner),
        Expr::Await(inner) => ext_expr(st, r, *inner),
        Expr::TsAs(inner) => ext_expr(st, r, *inner),
        Expr::Arrow(_, body) => match ext_stmts(st, r, body@, 0) {
            Some(st1) => Some(ExtractState { bindings: st.bindings, ..st1 }),
            None => None,
        },
        Expr::Other(children) => ext_exprs(st, r, children@, 0),
    }
}

/// A member expression: record a usage through a namespace alias or a
/// direct `require`/`import` module reference, then traverse the object.
pub open spec fn ext_member(
    st: ExtractState,
    r: Map<Seq<char>, Resolution>,
    obj: Expr,
    prop: MemberProp,
) -> Option<ExtractState>
    decreases obj, 1int,
{
    let aliased = match obj {
        Expr::Ident(name) => alias_target(st.bindings, name@),
        _ => None,
    };
    let st1 = match aliased {
        Some(file) => match prop {
            MemberProp::Ident(p) => rec_import(st, r, file, p@),
            MemberProp::Other => st,
        },
        None => st,
    };
    match member_obj_specifier(obj) {
        Some(file) => match prop {
            MemberProp::Ident(p) => ext_expr(rec_import(st1, r, file, p@), r, obj),
            MemberProp::Other => None,
        },
        None => ext_expr(st1, r, obj),
    }
}

/// The whole extraction of one module's items.
pub open spec fn extract_module(
    module: u64,
    r: Map<Seq<char>, Resolution>,
    items: Seq<ModuleItem>,
) -> Option<ExtractState> {
    ext_items(init_extract(module), r, items, 0)
}

// ------------------------------------------------------------------
// Scoping laws.
// ------------------------------------------------------------------

/// Destructuring emits usage facts only; it never touches the bindings.
pub proof fn lemma_destructure_preserves_bindings(
    st: ExtractState,
    r: Map<Seq<char>, Resolution>,
    file: Seq<char>,
    props: Seq<ObjectPatProp>,
    i: int,
)
    ensures
        destructure_fold(st, r, file, props, i).bindings == st.bindings,
    decreases props.len() - i,
{
    if 0 <= i < props.len() {
        let st1 = match props[i] {
            ObjectPatProp::Shorthand(key) => rec_import(st, r, file, key@),
            ObjectPatProp::KeyValue(key, _) => rec_import(st, r, file, key@),
            ObjectPatProp::Other => st,
        };
        lemma_destructure_preserves_bindings(st1, r, file, props, i + 1);
    }
}

/// No expression leaks an alias binding: a binding introduced inside a
/// callback body (or by the dynamic-import callback parameter) is gone once
/// traversal leaves the expression, with any shadowed binding back in
/// force. Only declaration statements change the binding stack.
pub proof fn lemma_expr_preserves_bindings(
    st: ExtractState,
    r: Map<Seq<char>, Resolution>,
    e: Expr,
)
    ensures
        ext_expr(st, r, e) matches Some(st2) ==> st2.bindings == st.bindings,
    decreases e, 2int,
{
    match e {
        Expr::Member(obj, prop) => lemma_member_preserves_bindings(st, r, *obj, prop),
        Expr::Call(c, args) => {
            let bound = then_shape(c, args@);
            let st0 = match bound {
                Some((param, specifier)) => bind_alias(st, param, specifier),
                None => st,
            };
            lemma_callee_preserves_bindings(st0, r, c);
            match ext_callee(st0, r, c) {
                Some(st1) => lemma_exprs_preserve_bindings(st1, r, args@, 0),
                None => {},
            }
        },
        Expr::Paren(inner) => lemma_expr_preserves_bindings(st, r, *inner),
        Expr::Await(inner) => lemma_expr_preserves_bindings(st, r, *inner),
        Expr::TsAs(inner) => lemma_expr_preserves_bindings(st, r, *inner),
        Expr::Other(children) => lemma_exprs_preserve_bindings(st, r, children@, 0),
        _ => {},
    }
}

pub proof fn lemma_member_preserves_bindings(
    st: ExtractState,
    r: Map<Seq<char>, Resolution>,
    obj: Expr,
    prop: MemberProp,
)
    ensures
        ext_member(st, r, obj, prop) matches Some(st2) ==> st2.bindings == st.bindings,
    decreases obj, 3int,
{
    let aliased = match obj {
        Expr::Ident(name) => alias_target(st.bindings, name@),
        _ => None,
    };
    let st1 = match aliased {
        Some(file) => match prop {
            MemberProp::Ident(p) => rec_import(st, r, file, p@),
            MemberProp::Other => st,
        },
        None => st,
    };
    match member_obj_specifier(obj) {
        Some(file) => match prop {
            MemberProp::Ident(p) => lemma_expr_preserves_bindings(
                rec_import(st1, r, file, p@),
                r,
                obj,
            ),
            MemberProp::Other => {},
        },
        None => lemma_expr_preserves_bindings(st1, r, obj),
    }
}

pub proof fn lemma_callee_preserves_bindings(
    st: ExtractState,
    r: Map<Seq<char>, Resolution>,
    c: Callee,
)
    ensures
        ext_callee(st, r, c) matches Some(st2) ==> st2.bindings == st.bindings,
    decreases c, 2int,
{
    match c {
        Callee::Expr(e) => lemma_expr_preserves_bindings(st, r, *e),
        _ => {},
    }
}

pub proof fn lemma_exprs_preserve_bindings(
    st: ExtractState,
    r: Map<Seq<char>, Resolution>,
    es: Seq<Expr>,
    i: int,
)
    ensures
        ext_exprs(st, r, es, i) matches Some(st2) ==> st2.bindings == st.bindings,
    decreases es, es.len() - i + 2,
{
    if 0 <= i < es.len() {
        lemma_expr_preserves_bindings(st, r, es[i]);
        match ext_expr(st, r, es[i]) {
            Some(st1) => lemma_exprs_preserve_bindings(st1, r, es, i + 1),
            None => {},
        }
    }
}

} // verus!
