//! The per-file extractor.
//!
//! `FileAnalyzer` walks one module's syntax tree once, classifying every
//! export declaration form and every import/usage form, and is verified to
//! agree exactly with the extraction semantics in [`crate::sem`]. A `false`
//! return from a visit method means the file's analysis aborted on a
//! malformed pattern; the caller then discards the analyzer.

use vstd::prelude::*;

use crate::model::Callee;
use crate::model::Decl;
use crate::model::ExportSpecifier;
use crate::model::Expr;
use crate::model::ImportDecl;
use crate::model::ImportSpecifier;
use crate::model::MemberProp;
use crate::model::Module;
use crate::model::ModuleItem;
use crate::model::ObjectPatProp;
use crate::model::Pat;
use crate::model::Stmt;
use crate::model::VarDeclarator;
use crate::resolve::Resolution;
use crate::resolve::ResolverTable;
use crate::sem::ExtractState;
use crate::sem::alias_target;
use crate::sem::arrow_first_param;
use crate::sem::bind_alias;
use crate::sem::destructure_fold;
use crate::sem::export_array_fold;
use crate::sem::export_named_fold;
use crate::sem::export_object_fold;
use crate::sem::export_pat;
use crate::sem::export_var_pats;
use crate::sem::ext_callee;
use crate::sem::ext_export_decl;
use crate::sem::ext_expr;
use crate::sem::ext_exprs;
use crate::sem::ext_item;
use crate::sem::ext_items;
use crate::sem::ext_member;
use crate::sem::ext_stmt;
use crate::sem::ext_stmts;
use crate::sem::ext_var_declarator;
use crate::sem::ext_var_declarators;
use crate::sem::import_specifier;
use crate::sem::import_specs_fold;
use crate::sem::init_extract;
use crate::sem::init_specifier;
use crate::sem::is_require_callee;
use crate::sem::literal_arg;
use crate::sem::member_obj_specifier;
use crate::sem::rec_export;
use crate::sem::rec_export_all;
use crate::sem::rec_import;
use crate::sem::rec_type_export;
use crate::sem::require_specifier;
use crate::sem::then_shape;
use crate::tables::StrMap;

verus! {

/// A non-fatal diagnostic emitted while extracting one file.
#[derive(Clone, Copy, Debug, PartialEq, Eq, Structural)]
pub enum Diag {
    /// A syntax shape the extractor does not recognize; it was skipped.
    UnrecognizedShape,
    /// A specifier the resolver could not map; recording was skipped.
    UnresolvedSpecifier,
}

/// The view of one usage-fact entry.
pub open spec fn fact_view(p: (u64, String)) -> (u64, Seq<char>) {
    (p.0, p.1@)
}

/// The view of the pending usage-fact list.
pub open spec fn facts_view(s: Seq<(u64, String)>) -> Seq<(u64, Seq<char>)> {
    s.map_values(|p: (u64, String)| fact_view(p))
}

pub broadcast proof fn lemma_facts_view_push(s: Seq<(u64, String)>, p: (u64, String))
    ensures
        #[trigger] facts_view(s.push(p)) == facts_view(s).push(fact_view(p)),
{
    assert(facts_view(s.push(p)) =~= facts_view(s).push(fact_view(p)));
}

/// The view of one alias-binding entry.
pub open spec fn binding_view(p: (String, String)) -> (Seq<char>, Seq<char>) {
    (p.0@, p.1@)
}

/// The view of the alias-binding stack.
pub open spec fn bindings_view(s: Seq<(String, String)>) -> Seq<(Seq<char>, Seq<char>)> {
    s.map_values(|p: (String, String)| binding_view(p))
}

pub broadcast proof fn lemma_bindings_view_push(s: Seq<(String, String)>, p: (String, String))
    ensures
        #[trigger] bindings_view(s.push(p)) == bindings_view(s).push(binding_view(p)),
{
    assert(bindings_view(s.push(p)) =~= bindings_view(s).push(binding_view(p)));
}

/// Bindings after index `i` miss `name`, so lookup agrees with the prefix.
pub proof fn lemma_alias_agree(bs: Seq<(Seq<char>, Seq<char>)>, i: int, name: Seq<char>)
    requires
        0 <= i <= bs.len(),
        forall|j: int| i <= j < bs.len() ==> bs[j].0 != name,
    ensures
        alias_target(bs, name) == alias_target(bs.take(i), name),
    decreases bs.len() - i,
{
    if i < bs.len() {
        assert(bs[bs.len() - 1].0 != name);
        lemma_alias_agree(bs.drop_last(), i, name);
        assert(bs.drop_last().take(i) =~= bs.take(i));
    } else {
        assert(bs.take(i) =~= bs);
    }
}

/// The executable outcome `post`/`ok` agrees with the semantics' `res`.
pub open spec fn step_ok(post: ExtractState, ok: bool, res: Option<ExtractState>) -> bool {
    match res {
        Some(st) => ok && post == st,
        None => !ok,
    }
}

/// An executable optional string agrees with an optional name.
pub open spec fn same_opt_str(r: Option<String>, s: Option<Seq<char>>) -> bool {
    match r {
        Some(x) => s == Some(x@),
        None => s is None,
    }
}

// ------------------------------------------------------------------
// Shape recognition, executable.
// ------------------------------------------------------------------

fn callee_is_require(c: &Callee) -> (b: bool)
    ensures
        b == is_require_callee(*c),
{
    match c {
        Callee::Expr(e) => match &**e {
            Expr::Ident(name) => *name == String::from_str("require"),
            _ => false,
        },
        _ => false,
    }
}

fn literal_arg_x(args: &Vec<Expr>) -> (r: Option<String>)
    ensures
        same_opt_str(r, literal_arg(args@)),
{
    if args.len() == 0 {
        Option::None
    } else {
        match &args[0] {
            Expr::Str(s) => Option::Some(s.clone()),
            _ => Option::None,
        }
    }
}

fn require_specifier_x(e: &Expr) -> (r: Option<String>)
    ensures
        same_opt_str(r, require_specifier(*e)),
{
    match e {
        Expr::Call(c, args) => if callee_is_require(c) {
            literal_arg_x(args)
        } else {
            Option::None
        },
        _ => Option::None,
    }
}

fn import_specifier_x(e: &Expr) -> (r: Option<String>)
    ensures
        same_opt_str(r, import_specifier(*e)),
{
    match e {
        Expr::Call(c, args) => match c {
            Callee::ImportCall => literal_arg_x(args),
            _ => Option::None,
        },
        _ => Option::None,
    }
}

fn member_obj_specifier_x(e: &Expr) -> (r: Option<String>)
    ensures
        same_opt_str(r, member_obj_specifier(*e)),
{
    match e {
        Expr::Call(..) => require_specifier_x(e),
        Expr::Paren(inner) => match &**inner {
            Expr::TsAs(i2) => require_specifier_x(i2),
            Expr::Await(i2) => import_specifier_x(i2),
            _ => Option::None,
        },
        _ => Option::None,
    }
}

fn init_specifier_x(e: &Expr) -> (r: Option<String>)
    ensures
        same_opt_str(r, init_specifier(*e)),
    decreases *e,
{
    match e {
        Expr::Paren(inner) => init_specifier_x(inner),
        Expr::Call(..) => require_specifier_x(e),
        Expr::TsAs(i2) => require_specifier_x(i2),
        Expr::Await(i2) => import_specifier_x(i2),
        _ => Option::None,
    }
}

fn arrow_first_param_x(args: &Vec<Expr>) -> (r: Option<String>)
    ensures
        same_opt_str(r, arrow_first_param(args@)),
{
    if args.len() == 0 {
        Option::None
    } else {
        match &args[0] {
            Expr::Arrow(params, _) => if params.len() == 0 {
                Option::None
            } else {
                match &params[0] {
                    Pat::Ident(name) => Option::Some(name.clone()),
                    _ => Option::None,
                }
            },
            _ => Option::None,
        }
    }
}

/// The dynamic-import callback chain, when the whole shape matches:
/// returns (callback parameter, specifier).
fn then_shape_x(c: &Callee, args: &Vec<Expr>) -> (r: Option<(String, String)>)
    ensures
        match r {
            Some(p) => then_shape(*c, args@) == Some((p.0@, p.1@)),
            None => then_shape(*c, args@) is None,
        },
{
    match c {
        Callee::Expr(ce) => match &**ce {
            Expr::Member(obj, prop) => match prop {
                MemberProp::Ident(p) => if *p == String::from_str("then") {
                    match import_specifier_x(obj) {
                        Option::Some(specifier) => match arrow_first_param_x(args) {
                            Option::Some(param) => Option::Some((param, specifier)),
                            Option::None => Option::None,
                        },
                        Option::None => Option::None,
                    }
                } else {
                    Option::None
                },
                _ => Option::None,
            },
            _ => Option::None,
        },
        _ => Option::None,
    }
}

#[verifier::loop_isolation(false)]
fn clone_bindings(v: &Vec<(String, String)>) -> (r: Vec<(String, String)>)
    ensures
        r@ == v@,
{
    let mut r: Vec<(String, String)> = Vec::new();
    let mut i: usize = 0;
    while i < v.len()
        invariant
            i <= v@.len(),
            r@ =~= v@.take(i as int),
        decreases v@.len() - i,
    {
        let p = &v[i];
        r.push((p.0.clone(), p.1.clone()));
        i = i + 1;
    }
    proof {
        assert(v@.take(v@.len() as int) =~= v@);
    }
    r
}

// ------------------------------------------------------------------
// The extractor.
// ------------------------------------------------------------------

/// Walks one module's tree, accumulating its export record, export-all
/// edges, pending usage facts, and a scope stack of namespace aliases.
pub struct FileAnalyzer {
    /// The identity of the module under analysis.
    pub module: u64,
    /// Value exports: exported name -> original local name.
    pub exports: StrMap,
    /// Type-only exports: exported name -> original local name.
    pub type_exports: StrMap,
    /// `export *` targets, in declaration order.
    pub export_alls: Vec<u64>,
    /// Scope stack of namespace-alias bindings: local name -> specifier.
    pub bindings: Vec<(String, String)>,
    /// Usage facts waiting to be merged into the run's usage index.
    pub pending: Vec<(u64, String)>,
    /// Non-fatal diagnostics, in emission order.
    pub diags: Vec<Diag>,
}

impl View for FileAnalyzer {
    type V = ExtractState;

    open spec fn view(&self) -> ExtractState {
        ExtractState {
            module: self.module,
            value_exports: self.exports@,
            type_exports: self.type_exports@,
            export_alls: self.export_alls@,
            bindings: bindings_view(self.bindings@),
            facts: facts_view(self.pending@),
        }
    }
}

impl FileAnalyzer {
    pub fn new(module: u64) -> (r: FileAnalyzer)
        ensures
            r@ == init_extract(module),
            r.diags@.len() == 0,
    {
        let r = FileAnalyzer {
            module,
            exports: StrMap::new(),
            type_exports: StrMap::new(),
            export_alls: Vec::new(),
            bindings: Vec::new(),
            pending: Vec::new(),
            diags: Vec::new(),
        };
        proof {
            assert(bindings_view(r.bindings@) =~= Seq::<(Seq<char>, Seq<char>)>::empty());
            assert(facts_view(r.pending@) =~= Seq::<(u64, Seq<char>)>::empty());
        }
        r
    }

    /// The specifier an alias name is currently bound to, if any.
    #[verifier::loop_isolation(false)]
    fn alias_lookup(&self, name: &String) -> (r: Option<String>)
        ensures
            same_opt_str(r, alias_target(self@.bindings, name@)),
    {
        let ghost bv = bindings_view(self.bindings@);
        let mut i: usize = self.bindings.len();
        while i > 0
            invariant
                i <= self.bindings@.len(),
                bv == bindings_view(self.bindings@),
                forall|j: int| i <= j < bv.len() ==> bv[j].0 != name@,
            decreases i,
        {
            i = i - 1;
            let p = &self.bindings[i];
            if p.0 == *name {
                proof {
                    assert(bv[i as int].0 == name@);
                    lemma_alias_agree(bv, i + 1, name@);
                    assert(bv.take(i + 1).drop_last() =~= bv.take(i as int));
                    assert(bv.take(i + 1).last() == bv[i as int]);
                }
                return Option::Some(p.1.clone());
            }
            proof {
                assert(bv[i as int].0 == self.bindings@[i as int].0@);
            }
        }
        proof {
            lemma_alias_agree(bv, 0, name@);
            assert(bv.take(0) =~= Seq::<(Seq<char>, Seq<char>)>::empty());
        }
        Option::None
    }

    /// Resolves `specifier` and emits a usage fact for `symbol` on success.
    fn record_import(&mut self, r: &ResolverTable, specifier: &String, symbol: String)
        ensures
            final(self)@ == rec_import(old(self)@, r@, specifier@, symbol@),
    {
        broadcast use lemma_facts_view_push;

        match r.resolve(specifier) {
            Resolution::Module(id) => {
                self.pending.push((id, symbol));
            },
            Resolution::Builtin => {},
            Resolution::Ignored => {},
            Resolution::Failed => {
                self.diags.push(Diag::UnresolvedSpecifier);
            },
        }
    }

    /// Records a value export.
    fn record_export(&mut self, exported: String, orig: String)
        ensures
            final(self)@ == rec_export(old(self)@, exported@, orig@),
    {
        self.exports.insert(exported, orig);
    }

    /// Records a type-only export.
    fn record_type_export(&mut self, exported: String, orig: String)
        ensures
            final(self)@ == rec_type_export(old(self)@, exported@, orig@),
    {
        self.type_exports.insert(exported, orig);
    }

    /// Resolves `specifier` and appends an export-all edge on success.
    fn record_export_all(&mut self, r: &ResolverTable, specifier: &String)
        ensures
            final(self)@ == rec_export_all(old(self)@, r@, specifier@),
    {
        match r.resolve(specifier) {
            Resolution::Module(id) => {
                self.export_alls.push(id);
            },
            Resolution::Builtin => {},
            Resolution::Ignored => {},
            Resolution::Failed => {
                self.diags.push(Diag::UnresolvedSpecifier);
            },
        }
    }

    /// Pushes an alias binding.
    fn push_binding(&mut self, local: String, specifier: String)
        ensures
            final(self)@ == bind_alias(old(self)@, local@, specifier@),
    {
        broadcast use lemma_bindings_view_push;

        self.bindings.push((local, specifier));
    }

    /// Marks every property of a destructured alias object as a usage.
    #[verifier::loop_isolation(false)]
    fn record_destructured_import(&mut self, r: &ResolverTable, file: &String, props: &Vec<
        ObjectPatProp,
    >)
        ensures
            final(self)@ == destructure_fold(old(self)@, r@, file@, props@, 0),
    {
        let ghost st0 = self@;
        let mut i: usize = 0;
        while i < props.len()
            invariant
                i <= props@.len(),
                destructure_fold(st0, r@, file@, props@, 0) == destructure_fold(
                    self@,
                    r@,
                    file@,
                    props@,
                    i as int,
                ),
            decreases props@.len() - i,
        {
            match &props[i] {
                ObjectPatProp::Shorthand(key) => {
                    self.record_import(r, file, key.clone());
                },
                ObjectPatProp::KeyValue(key, _) => {
                    self.record_import(r, file, key.clone());
                },
                ObjectPatProp::Other => {
                    self.diags.push(Diag::UnrecognizedShape);
                },
            }
            i = i + 1;
        }
    }

    /// Records the exports an exported variable pattern declares.
    #[verifier::loop_isolation(false)]
    fn visit_export_pat(&mut self, p: &Pat) -> (ok: bool)
        ensures
            step_ok(final(self)@, ok, export_pat(old(self)@, *p)),
    {
        match p {
            Pat::Ident(name) => {
                self.record_export(name.clone(), name.clone());
                true
            },
            Pat::Array(elems) => {
                let ghost st0 = self@;
                let mut i: usize = 0;
                while i < elems.len()
                    invariant
                        i <= elems@.len(),
                        export_array_fold(st0, elems@, 0) == export_array_fold(
                            self@,
                            elems@,
                            i as int,
                        ),
                    decreases elems@.len() - i,
                {
                    match &elems[i] {
                        Option::Some(ep) => match ep {
                            Pat::Ident(name) => {
                                self.record_export(name.clone(), name.clone());
                            },
                            _ => {
                                return false;
                            },
                        },
                        Option::None => {
                            return false;
                        },
                    }
                    i = i + 1;
                }
                true
            },
            Pat::Object(props) => {
                let ghost st0 = self@;
                let mut i: usize = 0;
                while i < props.len()
                    invariant
                        i <= props@.len(),
                        export_object_fold(st0, props@, 0) == export_object_fold(
                            self@,
                            props@,
                            i as int,
                        ),
                    decreases props@.len() - i,
                {
                    match &props[i] {
                        ObjectPatProp::Shorthand(key) => {
                            self.record_export(key.clone(), key.clone());
                        },
                        ObjectPatProp::KeyValue(key, value) => match &**value {
                            Pat::Ident(bound) => {
                                self.record_export(key.clone(), bound.clone());
                            },
                            _ => {
                                return false;
                            },
                        },
                        ObjectPatProp::Other => {
                            return false;
                        },
                    }
                    i = i + 1;
                }
                true
            },
            Pat::Other => false,
        }
    }

    /// One import declaration: usage facts and namespace-alias bindings.
    #[verifier::loop_isolation(false)]
    fn visit_import_decl(&mut self, r: &ResolverTable, d: &ImportDecl)
        ensures
            final(self)@ == import_specs_fold(old(self)@, r@, d.specifier@, d.specifiers@, 0),
    {
        let ghost st0 = self@;
        let mut i: usize = 0;
        while i < d.specifiers.len()
            invariant
                i <= d.specifiers@.len(),
                import_specs_fold(st0, r@, d.specifier@, d.specifiers@, 0) == import_specs_fold(
                    self@,
                    r@,
                    d.specifier@,
                    d.specifiers@,
                    i as int,
                ),
            decreases d.specifiers@.len() - i,
        {
            match &d.specifiers[i] {
                ImportSpecifier::Named { imported, local } => {
                    let symbol = match imported {
                        Option::Some(im) => im.clone(),
                        Option::None => local.clone(),
                    };
                    self.record_import(r, &d.specifier, symbol);
                },
                ImportSpecifier::Default => {
                    self.record_import(r, &d.specifier, String::from_str("default"));
                },
                ImportSpecifier::Namespace(local) => {
                    self.push_binding(local.clone(), d.specifier.clone());
                },
            }
            i = i + 1;
        }
    }

    /// One `export { ... }` declaration.
    #[verifier::loop_isolation(false)]
    fn visit_export_named(&mut self, specs: &Vec<ExportSpecifier>)
        ensures
            final(self)@ == export_named_fold(old(self)@, specs@, 0),
    {
        let ghost st0 = self@;
        let mut i: usize = 0;
        while i < specs.len()
            invariant
                i <= specs@.len(),
                export_named_fold(st0, specs@, 0) == export_named_fold(self@, specs@, i as int),
            decreases specs@.len() - i,
        {
            match &specs[i] {
                ExportSpecifier::Named { orig, exported } => {
                    let ex = match exported {
                        Option::Some(e) => e.clone(),
                        Option::None => orig.clone(),
                    };
                    self.record_export(ex, orig.clone());
                },
                ExportSpecifier::Namespace(name) => {
                    self.record_export(name.clone(), name.clone());
                },
                ExportSpecifier::Default => {
                    self.record_export(String::from_str("default"), String::from_str("default"));
                },
            }
            i = i + 1;
        }
    }

    /// A declaration behind `export`.
    #[verifier::loop_isolation(false)]
    fn visit_export_decl(&mut self, r: &ResolverTable, d: &Decl) -> (ok: bool)
        ensures
            step_ok(final(self)@, ok, ext_export_decl(old(self)@, r@, *d)),
        decreases *d, 0int,
    {
        match d {
            Decl::Class(name) => {
                self.record_export(name.clone(), name.clone());
                true
            },
            Decl::Fn(name) => {
                self.record_export(name.clone(), name.clone());
                true
            },
            Decl::Var(ds) => {
                let ghost st0 = self@;
                let mut i: usize = 0;
                while i < ds.len()
                    invariant
                        i <= ds@.len(),
                        export_var_pats(st0, ds@, 0) == export_var_pats(self@, ds@, i as int),
                    decreases ds@.len() - i,
                {
                    let ok = self.visit_export_pat(&ds[i].name);
                    if !ok {
                        return false;
                    }
                    i = i + 1;
                }
                self.visit_var_declarators(r, ds)
            },
            Decl::TsInterface(name) => {
                self.record_type_export(name.clone(), name.clone());
                true
            },
            Decl::TsTypeAlias(name) => {
                self.record_type_export(name.clone(), name.clone());
                true
            },
            Decl::TsEnum(name) => {
                self.record_export(name.clone(), name.clone());
                true
            },
            Decl::Other => {
                self.diags.push(Diag::UnrecognizedShape);
                true
            },
        }
    }

    /// The declarators of one `const/let/var` statement.
    #[verifier::loop_isolation(false)]
    fn visit_var_declarators(&mut self, r: &ResolverTable, ds: &Vec<VarDeclarator>) -> (ok: bool)
        ensures
            step_ok(final(self)@, ok, ext_var_declarators(old(self)@, r@, ds@, 0)),
        decreases ds@, 0int,
    {
        let ghost st0 = self@;
        let mut i: usize = 0;
        while i < ds.len()
            invariant
                i <= ds@.len(),
                ext_var_declarators(st0, r@, ds@, 0) == ext_var_declarators(
                    self@,
                    r@,
                    ds@,
                    i as int,
                ),
            decreases ds@.len() - i,
        {
            let ok = self.visit_var_declarator(r, &ds[i]);
            if !ok {
                return false;
            }
            i = i + 1;
        }
        true
    }

    /// One declarator.
    fn visit_var_declarator(&mut self, r: &ResolverTable, d: &VarDeclarator) -> (ok: bool)
        ensures
            step_ok(final(self)@, ok, ext_var_declarator(old(self)@, r@, *d)),
        decreases *d, 0int,
    {
        match &d.init {
            Option::None => true,
            Option::Some(init) => {
                let aliased = match init {
                    Expr::Ident(name) => self.alias_lookup(name),
                    _ => Option::None,
                };
                match aliased {
                    Option::Some(file) => match &d.name {
                        Pat::Object(props) => {
                            self.record_destructured_import(r, &file, props);
                            self.visit_expr(r, init)
                        },
                        _ => {
                            self.diags.push(Diag::UnrecognizedShape);
                            true
                        },
                    },
                    Option::None => {
                        let module_ref = init_specifier_x(init);
                        match module_ref {
                            Option::Some(file) => match &d.name {
                                Pat::Ident(local) => {
                                    self.push_binding(local.clone(), file);
                                    self.visit_expr(r, init)
                                },
                                Pat::Object(props) => {
                                    self.record_destructured_import(r, &file, props);
                                    self.visit_expr(r, init)
                                },
                                _ => false,
                            },
                            Option::None => self.visit_expr(r, init),
                        }
                    },
                }
            },
        }
    }

    /// Statements, in order.
    #[verifier::loop_isolation(false)]
    fn visit_stmts(&mut self, r: &ResolverTable, ss: &Vec<Stmt>) -> (ok: bool)
        ensures
            step_ok(final(self)@, ok, ext_stmts(old(self)@, r@, ss@, 0)),
        decreases ss@, 0int,
    {
        let ghost st0 = self@;
        let mut i: usize = 0;
        while i < ss.len()
            invariant
                i <= ss@.len(),
                ext_stmts(st0, r@, ss@, 0) == ext_stmts(self@, r@, ss@, i as int),
            decreases ss@.len() - i,
        {
            let ok = self.visit_stmt(r, &ss[i]);
            if !ok {
                return false;
            }
            i = i + 1;
        }
        true
    }

    /// One statement.
    fn visit_stmt(&mut self, r: &ResolverTable, s: &Stmt) -> (ok: bool)
        ensures
            step_ok(final(self)@, ok, ext_stmt(old(self)@, r@, *s)),
        decreases *s, 0int,
    {
        match s {
            Stmt::VarDecl(ds) => self.visit_var_declarators(r, ds),
            Stmt::Expr(e) => self.visit_expr(r, e),
            Stmt::Block(ss) => self.visit_stmts(r, ss),
        }
    }

    /// Expressions, in order.
    #[verifier::loop_isolation(false)]
    fn visit_exprs(&mut self, r: &ResolverTable, es: &Vec<Expr>) -> (ok: bool)
        ensures
            step_ok(final(self)@, ok, ext_exprs(old(self)@, r@, es@, 0)),
        decreases es@, 0int,
    {
        let ghost st0 = self@;
        let mut i: usize = 0;
        while i < es.len()
            invariant
                i <= es@.len(),
                ext_exprs(st0, r@, es@, 0) == ext_exprs(self@, r@, es@, i as int),
            decreases es@.len() - i,
        {
            let ok = self.visit_expr(r, &es[i]);
            if !ok {
                return false;
            }
            i = i + 1;
        }
        true
    }

    /// A callee position.
    fn visit_callee(&mut self, r: &ResolverTable, c: &Callee) -> (ok: bool)
        ensures
            step_ok(final(self)@, ok, ext_callee(old(self)@, r@, *c)),
        decreases *c, 0int,
    {
        match c {
            Callee::Expr(e) => self.visit_expr(r, e),
            _ => true,
        }
    }

    /// One expression.
    fn visit_expr(&mut self, r: &ResolverTable, e: &Expr) -> (ok: bool)
        ensures
            step_ok(final(self)@, ok, ext_expr(old(self)@, r@, *e)),
        decreases *e, 0int,
    {
        match e {
            Expr::Ident(_) => true,
            Expr::Str(_) => true,
            Expr::Member(obj, prop) => self.visit_member(r, obj, prop),
            Expr::Call(c, args) => {
                let bound = then_shape_x(c, args);
                let saved = match &bound {
                    Option::Some(ps) => {
                        let saved = clone_bindings(&self.bindings);
                        self.push_binding(ps.0.clone(), ps.1.clone());
                        Option::Some(saved)
                    },
                    Option::None => Option::None,
                };
                let ok1 = self.visit_callee(r, c);
                if !ok1 {
                    return false;
                }
                let ok2 = self.visit_exprs(r, args);
                if !ok2 {
                    return false;
                }
                match saved {
                    Option::Some(sv) => {
                        self.bindings = sv;
                    },
                    Option::None => {},
                }
                true
            },
            Expr::Paren(inner) => self.visit_expr(r, inner),
            Expr::Await(inner) => self.visit_expr(r, inner),
            Expr::TsAs(inner) => self.visit_expr(r, inner),
            Expr::Arrow(_, body) => {
                let saved = clone_bindings(&self.bindings);
                let ok = self.visit_stmts(r, body);
                if !ok {
                    return false;
                }
                self.bindings = saved;
                true
            },
            Expr::Other(children) => self.visit_exprs(r, children),
        }
    }

    /// One member expression.
    fn visit_member(&mut self, r: &ResolverTable, obj: &Expr, prop: &MemberProp) -> (ok: bool)
        ensures
            step_ok(final(self)@, ok, ext_member(old(self)@, r@, *obj, *prop)),
        decreases *obj, 1int,
    {
        let aliased = match obj {
            Expr::Ident(name) => self.alias_lookup(name),
            _ => Option::None,
        };
        match aliased {
            Option::Some(file) => match prop {
                MemberProp::Ident(p) => {
                    self.record_import(r, &file, p.clone());
                },
                MemberProp::Other => {
                    self.diags.push(Diag::UnrecognizedShape);
                },
            },
            Option::None => {},
        }
        let module_ref = member_obj_specifier_x(obj);
        match module_ref {
            Option::Some(file) => match prop {
                MemberProp::Ident(p) => {
                    self.record_import(r, &file, p.clone());
                    self.visit_expr(r, obj)
                },
                MemberProp::Other => false,
            },
            Option::None => self.visit_expr(r, obj),
        }
    }

    /// One top-level item.
    fn visit_item(&mut self, r: &ResolverTable, item: &ModuleItem) -> (ok: bool)
        ensures
            step_ok(final(self)@, ok, ext_item(old(self)@, r@, *item)),
        decreases *item, 0int,
    {
        match item {
            ModuleItem::Import(d) => {
                self.visit_import_decl(r, d);
                true
            },
            ModuleItem::ExportDecl(d) => self.visit_export_decl(r, d),
            ModuleItem::ExportNamed(specs) => {
                self.visit_export_named(specs);
                true
            },
            ModuleItem::ExportAll(specifier) => {
                self.record_export_all(r, specifier);
                true
            },
            ModuleItem::ExportDefaultDecl => {
                self.record_export(String::from_str("default"), String::from_str("default"));
                true
            },
            ModuleItem::ExportDefaultExpr(e) => {
                self.record_export(String::from_str("default"), String::from_str("default"));
                self.visit_expr(r, e)
            },
            ModuleItem::Stmt(s) => self.visit_stmt(r, s),
            ModuleItem::OtherDecl => {
                self.diags.push(Diag::UnrecognizedShape);
                true
            },
        }
    }

    /// The whole tree of one module.
    #[verifier::loop_isolation(false)]
    pub fn visit_module(&mut self, r: &ResolverTable, m: &Module) -> (ok: bool)
        ensures
            step_ok(final(self)@, ok, ext_items(old(self)@, r@, m.items@, 0)),
    {
        let ghost st0 = self@;
        let mut i: usize = 0;
        while i < m.items.len()
            invariant
                i <= m.items@.len(),
                ext_items(st0, r@, m.items@, 0) == ext_items(self@, r@, m.items@, i as int),
            decreases m.items@.len() - i,
        {
            let ok = self.visit_item(r, &m.items[i]);
            if !ok {
                return false;
            }
            i = i + 1;
        }
        true
    }
}

} // verus!
