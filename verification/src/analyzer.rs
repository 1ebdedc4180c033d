//! The run-scoped analyzer: the usage index, the module export registry,
//! and per-file accumulation.
//!
//! One `Analyzer` owns the state of one whole run. Feeding it a file appends
//! that file's usage facts to the usage index and writes the file's export
//! record into the registry; finalization (see [`crate::report`]) is a
//! read-only pass over both.

use vstd::prelude::*;

use crate::extract::Diag;
use crate::extract::FileAnalyzer;
use crate::extract::facts_view;
use crate::model::Module;
use crate::resolve::ResolverTable;
use crate::sem::ExtractState;
use crate::sem::extract_module;
use crate::tables::StrMap;
use crate::tables::id_keys_unique;
use crate::tables::id_map_of;
use crate::tables::lemma_id_map_push;
use crate::tables::lemma_id_map_update;

verus! {

// ------------------------------------------------------------------
// The usage index.
// ------------------------------------------------------------------

/// Which module-and-symbol pairs a set of usage facts accumulates to:
/// module identity -> set of symbol names referenced against it.
pub open spec fn facts_map(s: Seq<(u64, Seq<char>)>) -> Map<u64, Set<Seq<char>>>
    decreases s.len(),
{
    if s.len() == 0 {
        Map::empty()
    } else {
        let m = facts_map(s.drop_last());
        let p = s.last();
        let prev = if m.contains_key(p.0) {
            m[p.0]
        } else {
            Set::empty()
        };
        m.insert(p.0, prev.insert(p.1))
    }
}

/// A usage fact is in the accumulated index exactly when it was recorded.
pub proof fn lemma_facts_map_characterize(s: Seq<(u64, Seq<char>)>, a: u64, x: Seq<char>)
    ensures
        (facts_map(s).contains_key(a) && facts_map(s)[a].contains(x)) <==> exists|j: int|
            0 <= j < s.len() && s[j] == (a, x),
    decreases s.len(),
{
    if s.len() > 0 {
        lemma_facts_map_characterize(s.drop_last(), a, x);
        let p = s.last();
        if facts_map(s).contains_key(a) && facts_map(s)[a].contains(x) {
            if p.0 == a && p.1 == x {
                assert(s[s.len() - 1] == (a, x));
            } else if p.0 == a {
                assert(facts_map(s.drop_last()).contains_key(a) && facts_map(
                    s.drop_last(),
                )[a].contains(x));
                let j = choose|j: int|
                    0 <= j < s.drop_last().len() && s.drop_last()[j] == (a, x);
                assert(s[j] == (a, x));
            } else {
                let j = choose|j: int|
                    0 <= j < s.drop_last().len() && s.drop_last()[j] == (a, x);
                assert(s[j] == (a, x));
            }
        }
        if exists|j: int| 0 <= j < s.len() && s[j] == (a, x) {
            let j = choose|j: int| 0 <= j < s.len() && s[j] == (a, x);
            if j == s.len() - 1 {
            } else {
                assert(s.drop_last()[j] == (a, x));
            }
        }
    }
}

/// Folding further facts into an accumulated index.
pub open spec fn add_facts(m: Map<u64, Set<Seq<char>>>, fs: Seq<(u64, Seq<char>)>) -> Map<
    u64,
    Set<Seq<char>>,
>
    decreases fs.len(),
{
    if fs.len() == 0 {
        m
    } else {
        let m1 = add_facts(m, fs.drop_last());
        let p = fs.last();
        let prev = if m1.contains_key(p.0) {
            m1[p.0]
        } else {
            Set::empty()
        };
        m1.insert(p.0, prev.insert(p.1))
    }
}

/// Accumulating a concatenation is accumulating, then folding the rest in.
pub proof fn lemma_facts_map_add(s: Seq<(u64, Seq<char>)>, t: Seq<(u64, Seq<char>)>)
    ensures
        facts_map(s + t) == add_facts(facts_map(s), t),
    decreases t.len(),
{
    if t.len() == 0 {
        assert(s + t =~= s);
    } else {
        lemma_facts_map_add(s, t.drop_last());
        assert((s + t).drop_last() =~= s + t.drop_last());
        assert((s + t).last() == t.last());
    }
}

/// The usage index: every usage fact recorded in this run, in order; its
/// view is module identity -> set of referenced symbol names. Facts only
/// accumulate; none is ever removed.
pub struct ImportUsage {
    pub imports: Vec<(u64, String)>,
}

impl View for ImportUsage {
    type V = Map<u64, Set<Seq<char>>>;

    open spec fn view(&self) -> Map<u64, Set<Seq<char>>> {
        facts_map(facts_view(self.imports@))
    }
}

impl ImportUsage {
    pub fn new() -> (r: ImportUsage)
        ensures
            r@ == Map::<u64, Set<Seq<char>>>::empty(),
            r.imports@.len() == 0,
    {
        let r = ImportUsage { imports: Vec::new() };
        proof {
            assert(facts_view(r.imports@) =~= Seq::<(u64, Seq<char>)>::empty());
        }
        r
    }
}

// ------------------------------------------------------------------
// The module export registry.
// ------------------------------------------------------------------

/// A module's export record, as the registry keeps it.
pub struct ModuleExports {
    /// Value exports: exported name -> original local name.
    pub exports: StrMap,
    /// Type-only exports: exported name -> original local name.
    pub type_exports: StrMap,
    /// `export *` targets, in declaration order.
    pub export_alls: Vec<u64>,
}

/// The mathematical content of one export record.
pub struct ExportsView {
    pub value: Map<Seq<char>, Seq<char>>,
    pub types: Map<Seq<char>, Seq<char>>,
    pub alls: Seq<u64>,
}

impl View for ModuleExports {
    type V = ExportsView;

    open spec fn view(&self) -> ExportsView {
        ExportsView { value: self.exports@, types: self.type_exports@, alls: self.export_alls@ }
    }
}

/// The export record an extraction produced.
pub open spec fn exports_view_of(st: ExtractState) -> ExportsView {
    ExportsView { value: st.value_exports, types: st.type_exports, alls: st.export_alls }
}

// ------------------------------------------------------------------
// The analyzer.
// ------------------------------------------------------------------

/// The abstract state of one run: the export registry and the usage index.
pub struct AnalyzerView {
    pub registry: Map<u64, ExportsView>,
    pub usage: Map<u64, Set<Seq<char>>>,
}

/// A file whose analysis had to be aborted.
#[derive(Clone, Copy, Debug, PartialEq, Eq, Structural)]
pub enum ExtractError {
    /// The file holds a structurally malformed pattern the extractor cannot
    /// safely interpret.
    MalformedPattern,
}

/// The run-scoped analyzer: feed files one at a time with [`Analyzer::add_file`],
/// then reconcile with [`Analyzer::finalize`](crate::report).
pub struct Analyzer {
    /// The usage index, shared across all files of the run.
    pub import_usage: ImportUsage,
    /// The export registry: module identity -> export record.
    pub exports: Vec<(u64, ModuleExports)>,
    /// Non-fatal diagnostics from all files, in order.
    pub diags: Vec<Diag>,
}

impl View for Analyzer {
    type V = AnalyzerView;

    open spec fn view(&self) -> AnalyzerView {
        AnalyzerView { registry: id_map_of(self.exports@), usage: self.import_usage@ }
    }
}

impl Analyzer {
    /// The registry holds one record per module.
    pub open spec fn wf(&self) -> bool {
        id_keys_unique(self.exports@)
    }

    pub fn new() -> (r: Analyzer)
        ensures
            r@.registry == Map::<u64, ExportsView>::empty(),
            r@.usage == Map::<u64, Set<Seq<char>>>::empty(),
            r.wf(),
    {
        Analyzer { import_usage: ImportUsage::new(), exports: Vec::new(), diags: Vec::new() }
    }

    /// Writes `record` for `module`, overwriting an earlier record.
    #[verifier::loop_isolation(false)]
    fn insert_export_record(&mut self, module: u64, record: ModuleExports)
        requires
            old(self).wf(),
        ensures
            final(self).wf(),
            final(self)@.registry == old(self)@.registry.insert(module, record@),
            final(self)@.usage == old(self)@.usage,
            final(self).diags@ == old(self).diags@,
    {
        let ghost rec_view = record@;
        let mut i: usize = 0;
        while i < self.exports.len()
            invariant
                i <= self.exports@.len(),
                forall|j: int| 0 <= j < i ==> self.exports@[j].0 != module,
                self.exports@ == old(self).exports@,
                self.import_usage == old(self).import_usage,
                self.diags@ == old(self).diags@,
            decreases self.exports@.len() - i,
        {
            if self.exports[i].0 == module {
                let ghost entries0 = self.exports@;
                self.exports[i] = (module, record);
                proof {
                    lemma_id_map_update(entries0, i as int, (module, record));
                    assert(id_keys_unique(self.exports@));
                }
                return ;
            }
            i = i + 1;
        }
        let ghost entries0 = self.exports@;
        self.exports.push((module, record));
        proof {
            lemma_id_map_push(entries0, self.exports@[entries0.len() as int]);
            assert forall|i1: int, j1: int|
                0 <= i1 < j1 < self.exports@.len() implies self.exports@[i1].0
                != self.exports@[j1].0 by {
                if j1 == self.exports@.len() - 1 {
                    assert(self.exports@[i1].0 != module);
                }
            }
        }
    }

    /// Runs the extractor over one module's tree, then merges its results:
    /// its usage facts join the usage index and its export record is written
    /// into the registry. A malformed file changes nothing and reports an
    /// error; unrecognized-but-harmless shapes only add diagnostics.
    pub fn add_file(&mut self, module: u64, tree: &Module, resolver: &ResolverTable) -> (r: Result<
        (),
        ExtractError,
    >)
        requires
            old(self).wf(),
        ensures
            final(self).wf(),
            match extract_module(module, resolver@, tree.items@) {
                Some(st) => r is Ok && final(self)@.registry == old(self)@.registry.insert(
                    module,
                    exports_view_of(st),
                ) && final(self)@.usage == add_facts(old(self)@.usage, st.facts),
                None => r == Result::<(), ExtractError>::Err(ExtractError::MalformedPattern)
                    && final(self)@ == old(self)@,
            },
    {
        let mut fa = FileAnalyzer::new(module);
        let ok = fa.visit_module(resolver, tree);
        self.diags.append(&mut fa.diags);
        if !ok {
            return Result::Err(ExtractError::MalformedPattern);
        }
        let ghost st = extract_module(module, resolver@, tree.items@)->0;
        let ghost flat0 = self.import_usage.imports@;
        self.import_usage.imports.append(&mut fa.pending);
        proof {
            assert(facts_view(self.import_usage.imports@) =~= facts_view(flat0) + st.facts);
            lemma_facts_map_add(facts_view(flat0), st.facts);
        }
        let record = ModuleExports {
            exports: fa.exports,
            type_exports: fa.type_exports,
            export_alls: fa.export_alls,
        };
        proof {
            assert(record@ == exports_view_of(st));
        }
        self.insert_export_record(module, record);
        Result::Ok(())
    }
}

} // verus!
