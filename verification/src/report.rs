//! The finalizer: reconciling declared exports against recorded usage.
//!
//! A declared export of a module counts as used exactly when some recorded
//! usage fact can be attributed to that module by tracing: a fact against a
//! module is attributed to the first module in its `export *` graph, edges
//! taken in reverse declaration order (the most recently declared star
//! re-export shadows earlier ones), that declares the symbol. The trace
//! carries a visited set and answers "not found" on revisiting a module, so
//! cyclic re-export graphs terminate. The final report maps each analyzed
//! module with any unused export to its unused value and type export names.

use vstd::prelude::*;

use crate::analyzer::Analyzer;
use crate::analyzer::AnalyzerView;
use crate::analyzer::ExportsView;
use crate::analyzer::ModuleExports;
use crate::analyzer::lemma_facts_map_characterize;
use crate::extract::facts_view;
use crate::tables::StrMap;
use crate::tables::StrSet;
use crate::tables::id_get;
use crate::tables::id_keys_unique;
use crate::tables::id_map_of;
use crate::tables::lemma_id_map_contains;
use crate::tables::lemma_id_map_dom_finite;
use crate::tables::lemma_id_map_index;
use crate::tables::lemma_id_map_unique_len;
use crate::tables::lemma_str_map_contains;
use crate::tables::str_map_of;

verus! {

// ------------------------------------------------------------------
// Tracing through `export *` edges.
// ------------------------------------------------------------------

/// Traces symbol `s` from module `m`: `m` itself if it declares `s` in
/// either table; otherwise the first hit through its `export *` edges in
/// reverse declaration order; `None` on a revisited or unknown module.
pub open spec fn trace_from(
    reg: Map<u64, ExportsView>,
    visited: Set<u64>,
    m: u64,
    s: Seq<char>,
) -> Option<u64>
    decreases reg.dom().difference(visited).len(), 0int,
    when reg.dom().finite()
    via trace_from_decreases
{
    if visited.contains(m) {
        None
    } else if !reg.contains_key(m) {
        None
    } else if reg[m].value.contains_key(s) || reg[m].types.contains_key(s) {
        Some(m)
    } else {
        trace_edges(reg, visited.insert(m), reg[m].alls, reg[m].alls.len() as int, s)
    }
}

/// Tries the first `i` edges, last first: the edge declared later wins.
pub open spec fn trace_edges(
    reg: Map<u64, ExportsView>,
    visited: Set<u64>,
    edges: Seq<u64>,
    i: int,
    s: Seq<char>,
) -> Option<u64>
    decreases reg.dom().difference(visited).len(), i,
    when reg.dom().finite() && 0 <= i <= edges.len()
    via trace_edges_decreases
{
    if i <= 0 {
        None
    } else {
        match trace_from(reg, visited, edges[i - 1], s) {
            Some(p) => Some(p),
            None => trace_edges(reg, visited, edges, i - 1, s),
        }
    }
}

#[via_fn]
proof fn trace_from_decreases(reg: Map<u64, ExportsView>, visited: Set<u64>, m: u64, s: Seq<char>) {
    if !visited.contains(m) && reg.contains_key(m) && !(reg[m].value.contains_key(s)
        || reg[m].types.contains_key(s)) {
        lemma_visited_grows(reg, visited, m);
    }
}

#[via_fn]
proof fn trace_edges_decreases(
    reg: Map<u64, ExportsView>,
    visited: Set<u64>,
    edges: Seq<u64>,
    i: int,
    s: Seq<char>,
) {
}

/// Visiting one more in-registry module strictly shrinks what is left.
pub proof fn lemma_visited_grows(reg: Map<u64, ExportsView>, visited: Set<u64>, m: u64)
    requires
        reg.dom().finite(),
        reg.contains_key(m),
        !visited.contains(m),
    ensures
        reg.dom().difference(visited.insert(m)).len() < reg.dom().difference(visited).len(),
{
    assert(reg.dom().difference(visited.insert(m)) =~= reg.dom().difference(visited).remove(m));
    assert(reg.dom().difference(visited).contains(m));
    vstd::set::axiom_set_remove_len(reg.dom().difference(visited), m);
}

// ------------------------------------------------------------------
// The report, declaratively.
// ------------------------------------------------------------------

/// Some recorded usage fact for symbol `x` is attributed to module `m`.
pub open spec fn attributed(av: AnalyzerView, m: u64, x: Seq<char>) -> bool {
    exists|src: u64|
        av.usage.contains_key(src) && av.usage[src].contains(x) && trace_from(
            av.registry,
            Set::empty(),
            src,
            x,
        ) == Some(m)
}

/// The value-export names of `m` never matched by any usage.
pub open spec fn unused_value_of(av: AnalyzerView, m: u64) -> Set<Seq<char>> {
    Set::new(|x: Seq<char>| av.registry[m].value.contains_key(x) && !attributed(av, m, x))
}

/// The type-export names of `m` never matched by any usage.
pub open spec fn unused_type_of(av: AnalyzerView, m: u64) -> Set<Seq<char>> {
    Set::new(|x: Seq<char>| av.registry[m].types.contains_key(x) && !attributed(av, m, x))
}

/// What the report says about module `m`.
pub open spec fn results_view_of(av: AnalyzerView, m: u64) -> ResultsView {
    ResultsView { value: unused_value_of(av, m), types: unused_type_of(av, m) }
}

/// A module appears in the report exactly when it was analyzed and keeps
/// some unused export.
pub open spec fn module_reported(av: AnalyzerView, m: u64) -> bool {
    av.registry.contains_key(m) && (!unused_value_of(av, m).is_empty() || !unused_type_of(
        av,
        m,
    ).is_empty())
}

/// The whole report.
pub open spec fn report_of(av: AnalyzerView) -> Map<u64, ResultsView> {
    Map::new(|m: u64| module_reported(av, m), |m: u64| results_view_of(av, m))
}

// ------------------------------------------------------------------
// The report, executably.
// ------------------------------------------------------------------

/// One module's entry in the final report.
#[derive(Debug)]
pub struct ModuleResults {
    /// Value-export names never matched by any usage.
    pub unused_exports: StrSet,
    /// Type-export names never matched by any usage.
    pub unused_type_exports: StrSet,
}

/// The mathematical content of one report entry.
pub struct ResultsView {
    pub value: Set<Seq<char>>,
    pub types: Set<Seq<char>>,
}

impl View for ModuleResults {
    type V = ResultsView;

    open spec fn view(&self) -> ResultsView {
        ResultsView { value: self.unused_exports@, types: self.unused_type_exports@ }
    }
}

impl ModuleResults {
    pub open spec fn wf(&self) -> bool {
        self.unused_exports.wf() && self.unused_type_exports.wf()
    }
}

/// The final report: module identity -> unused exports, holding exactly the
/// modules with a non-empty unused set.
#[derive(Debug)]
pub struct AnalysisResults {
    pub entries: Vec<(u64, ModuleResults)>,
}

impl View for AnalysisResults {
    type V = Map<u64, ResultsView>;

    open spec fn view(&self) -> Map<u64, ResultsView> {
        id_map_of(self.entries@)
    }
}

impl AnalysisResults {
    pub open spec fn wf(&self) -> bool {
        id_keys_unique(self.entries@) && forall|j: int|
            0 <= j < self.entries@.len() ==> (#[trigger] self.entries@[j].1).wf()
    }

    /// The report entry for one module, if it is reported at all.
    pub fn get(&self, module: u64) -> (r: Option<&ModuleResults>)
        ensures
            match r {
                Option::Some(v) => self@.contains_key(module) && v@ == self@[module] && (self.wf()
                    ==> v.wf()),
                Option::None => !self@.contains_key(module),
            },
    {
        let mut i: usize = self.entries.len();
        while i > 0
            invariant
                i <= self.entries@.len(),
                forall|j: int| i <= j < self.entries@.len() ==> self.entries@[j].0 != module,
            decreases i,
        {
            i = i - 1;
            if self.entries[i].0 == module {
                proof {
                    crate::tables::lemma_id_map_agree::<ModuleResults>(self.entries@, i + 1, module);
                    assert(self.entries@.take(i + 1).drop_last() =~= self.entries@.take(i as int));
                    assert(self.entries@.take(i + 1).last() == self.entries@[i as int]);
                }
                return Option::Some(&self.entries[i].1);
            }
        }
        proof {
            crate::tables::lemma_id_map_agree::<ModuleResults>(self.entries@, 0, module);
            assert(self.entries@.take(0) =~= Seq::<(u64, ModuleResults)>::empty());
        }
        Option::None
    }

    /// How many modules the report holds.
    pub fn len(&self) -> (n: usize)
        requires
            self.wf(),
        ensures
            n == self@.dom().len(),
    {
        proof {
            lemma_id_map_unique_len::<ModuleResults>(self.entries@);
        }
        self.entries.len()
    }

    /// Whether no module has an unused export.
    pub fn is_empty(&self) -> (b: bool)
        ensures
            b <==> self@ == Map::<u64, ResultsView>::empty(),
    {
        proof {
            if self.entries@.len() == 0 {
                assert(self@ =~= Map::<u64, ResultsView>::empty());
            } else {
                lemma_id_map_contains::<ModuleResults>(self.entries@, self.entries@[0].0);
            }
        }
        self.entries.len() == 0
    }
}

// ------------------------------------------------------------------
// Executable tracing and finalization.
// ------------------------------------------------------------------

fn contains_id(v: &Vec<u64>, x: u64) -> (b: bool)
    ensures
        b == v@.contains(x),
{
    let mut i: usize = 0;
    while i < v.len()
        invariant
            i <= v@.len(),
            forall|j: int| 0 <= j < i ==> v@[j] != x,
        decreases v@.len() - i,
    {
        if v[i] == x {
            return true;
        }
        i = i + 1;
    }
    false
}

fn push_copy(v: &Vec<u64>, x: u64) -> (r: Vec<u64>)
    ensures
        r@ == v@.push(x),
{
    let mut r: Vec<u64> = Vec::new();
    let mut i: usize = 0;
    while i < v.len()
        invariant
            i <= v@.len(),
            r@ =~= v@.take(i as int),
        decreases v@.len() - i,
    {
        r.push(v[i]);
        i = i + 1;
    }
    proof {
        assert(v@.take(v@.len() as int) =~= v@);
    }
    r.push(x);
    r
}

impl Analyzer {
    /// Walks the `export *` graph from `module` looking for a declarer of
    /// `symbol`, guarding against cycles with `visited`.
    #[verifier::loop_isolation(false)]
    fn trace_export(&self, visited: &Vec<u64>, module: u64, symbol: &String) -> (r: Option<u64>)
        requires
            self.wf(),
        ensures
            r == trace_from(self@.registry, visited@.to_set(), module, symbol@),
        decreases self@.registry.dom().difference(visited@.to_set()).len(), 0int,
    {
        proof {
            lemma_id_map_dom_finite::<ModuleExports>(self.exports@);
        }
        if contains_id(visited, module) {
            return Option::None;
        }
        let rec = id_get(&self.exports, module);
        match rec {
            Option::None => Option::None,
            Option::Some(me) => {
                if me.exports.contains_key(symbol) || me.type_exports.contains_key(symbol) {
                    return Option::Some(module);
                }
                let v2 = push_copy(visited, module);
                proof {
                    assert forall|y: u64|
                        v2@.to_set().contains(y) == visited@.to_set().insert(module).contains(
                            y,
                        ) by {
                        if v2@.contains(y) {
                            let idx = choose|idx: int| 0 <= idx < v2@.len() && v2@[idx] == y;
                            if idx < visited@.len() {
                                assert(visited@[idx] == y);
                            }
                        }
                        if visited@.contains(y) {
                            let idx = choose|idx: int|
                                0 <= idx < visited@.len() && visited@[idx] == y;
                            assert(v2@[idx] == y);
                        }
                        if y == module {
                            assert(v2@[visited@.len() as int] == y);
                        }
                    }
                    assert(v2@.to_set() =~= visited@.to_set().insert(module));
                    lemma_visited_grows(self@.registry, visited@.to_set(), module);
                }
                let ghost reg = self@.registry;
                let ghost vset2 = v2@.to_set();
                let ghost alls = me.export_alls@;
                let mut i: usize = me.export_alls.len();
                while i > 0
                    invariant
                        i <= alls.len(),
                        trace_edges(reg, vset2, alls, alls.len() as int, symbol@) == trace_edges(
                            reg,
                            vset2,
                            alls,
                            i as int,
                            symbol@,
                        ),
                    decreases i,
                {
                    i = i - 1;
                    let target = me.export_alls[i];
                    let sub = self.trace_export(&v2, target, symbol);
                    match sub {
                        Option::Some(p) => {
                            return Option::Some(p);
                        },
                        Option::None => {},
                    }
                }
                Option::None
            },
        }
    }

    /// Whether some recorded usage fact for `symbol` is attributed to `module`.
    #[verifier::loop_isolation(false)]
    fn is_attributed(&self, module: u64, symbol: &String) -> (b: bool)
        requires
            self.wf(),
        ensures
            b == attributed(self@, module, symbol@),
    {
        let empty_visited: Vec<u64> = Vec::new();
        proof {
            assert(empty_visited@.to_set() =~= Set::<u64>::empty());
        }
        let ghost fv = facts_view(self.import_usage.imports@);
        let mut j: usize = 0;
        while j < self.import_usage.imports.len()
            invariant
                j <= fv.len(),
                fv.len() == self.import_usage.imports@.len(),
                forall|k: int|
                    0 <= k < j ==> !((#[trigger] fv[k]).1 == symbol@ && trace_from(
                        self@.registry,
                        Set::empty(),
                        fv[k].0,
                        symbol@,
                    ) == Some(module)),
            decreases fv.len() - j,
        {
            let p = &self.import_usage.imports[j];
            proof {
                assert(fv[j as int] == (p.0, p.1@));
            }
            if p.1 == *symbol {
                let sub = self.trace_export(&empty_visited, p.0, symbol);
                match sub {
                    Option::Some(q) => {
                        if q == module {
                            proof {
                                lemma_facts_map_characterize(fv, p.0, symbol@);
                                assert(self@.usage.contains_key(p.0) && self@.usage[p.0].contains(
                                    symbol@,
                                ));
                            }
                            return true;
                        }
                    },
                    Option::None => {},
                }
            }
            j = j + 1;
        }
        proof {
            if attributed(self@, module, symbol@) {
                let src = choose|src: u64|
                    self@.usage.contains_key(src) && self@.usage[src].contains(symbol@)
                        && trace_from(self@.registry, Set::empty(), src, symbol@) == Some(module);
                lemma_facts_map_characterize(fv, src, symbol@);
                let k = choose|k: int| 0 <= k < fv.len() && fv[k] == (src, symbol@);
                assert(fv[k].1 == symbol@);
                assert(false);
            }
        }
        false
    }

    /// The names of one export table never matched by any usage.
    #[verifier::loop_isolation(false)]
    fn unused_set(&self, module: u64, tbl: &StrMap) -> (out: StrSet)
        requires
            self.wf(),
        ensures
            out@ == Set::new(
                |x: Seq<char>| str_map_of(tbl.entries@).contains_key(x) && !attributed(
                    self@,
                    module,
                    x,
                ),
            ),
            out.wf(),
    {
        let mut out = StrSet::new();
        let mut i: usize = 0;
        while i < tbl.entries.len()
            invariant
                i <= tbl.entries@.len(),
                out.wf(),
                forall|x: Seq<char>|
                    out@.contains(x) <==> ((exists|jj: int|
                        0 <= jj < i && (#[trigger] tbl.entries@[jj]).0@ == x) && !attributed(
                        self@,
                        module,
                        x,
                    )),
            decreases tbl.entries@.len() - i,
        {
            let name = &tbl.entries[i].0;
            if !self.is_attributed(module, name) {
                out.insert(name.clone());
            }
            i = i + 1;
        }
        proof {
            assert forall|x: Seq<char>|
                out@.contains(x) == (str_map_of(tbl.entries@).contains_key(x) && !attributed(
                    self@,
                    module,
                    x,
                )) by {
                lemma_str_map_contains::<String>(tbl.entries@, x);
            }
            assert(out@ =~= Set::new(
                |x: Seq<char>| str_map_of(tbl.entries@).contains_key(x) && !attributed(
                    self@,
                    module,
                    x,
                ),
            ));
        }
        out
    }

    /// Reconciles every analyzed module's declared exports against the
    /// usage index, tracing re-export chains, and reports, per module with
    /// any unused export, the unused value and type export names. Reading
    /// only: calling it again without new input yields the same report.
    #[verifier::loop_isolation(false)]
    pub fn finalize(&self) -> (r: AnalysisResults)
        requires
            self.wf(),
        ensures
            r@ == report_of(self@),
            r.wf(),
    {
        let mut out = AnalysisResults { entries: Vec::new() };
        let mut j: usize = 0;
        while j < self.exports.len()
            invariant
                j <= self.exports@.len(),
                id_keys_unique(out.entries@),
                forall|jj: int|
                    0 <= jj < out.entries@.len() ==> (#[trigger] out.entries@[jj].1).wf(),
                forall|mm: u64|
                    #[trigger] id_map_of(out.entries@).contains_key(mm) ==> (module_reported(
                        self@,
                        mm,
                    ) && id_map_of(out.entries@)[mm] == results_view_of(self@, mm)),
                forall|k: int|
                    0 <= k < j && module_reported(self@, (#[trigger] self.exports@[k]).0)
                        ==> id_map_of(out.entries@).contains_key(self.exports@[k].0),
                forall|k: int|
                    j <= k < self.exports@.len() ==> !id_map_of(out.entries@).contains_key(
                        (#[trigger] self.exports@[k]).0,
                    ),
            decreases self.exports@.len() - j,
        {
            let m = self.exports[j].0;
            let me = &self.exports[j].1;
            proof {
                lemma_id_map_index::<ModuleExports>(self.exports@, j as int);
            }
            let uv = self.unused_set(m, &me.exports);
            let ut = self.unused_set(m, &me.type_exports);
            proof {
                assert(uv@ =~= unused_value_of(self@, m));
                assert(ut@ =~= unused_type_of(self@, m));
            }
            let keep_v = !uv.is_empty();
            let keep_t = !ut.is_empty();
            proof {
                assert(module_reported(self@, m) == (keep_v || keep_t));
            }
            if keep_v || keep_t {
                let mr = ModuleResults { unused_exports: uv, unused_type_exports: ut };
                let ghost out0 = out.entries@;
                out.entries.push((m, mr));
                proof {
                    crate::tables::lemma_id_map_push(out0, (m, mr));
                    assert forall|i1: int, j1: int|
                        0 <= i1 < j1 < out.entries@.len() implies out.entries@[i1].0
                        != out.entries@[j1].0 by {
                        if j1 == out.entries@.len() - 1 {
                            assert(!id_map_of(out0).contains_key(
                                self.exports@[j as int].0,
                            ));
                            lemma_id_map_contains::<ModuleResults>(out0, out.entries@[i1].0);
                        }
                    }
                    assert forall|jj: int|
                        0 <= jj < out.entries@.len() implies (
                    #[trigger] out.entries@[jj].1).wf() by {
                        if jj < out0.len() {
                            assert(out0[jj].1.wf());
                        }
                    }
                    assert(id_map_of(out.entries@)[m] == results_view_of(self@, m));
                }
            }
            j = j + 1;
        }
        proof {
            assert forall|mm: u64|
                id_map_of(out.entries@).contains_key(mm) == module_reported(self@, mm) by {
                if module_reported(self@, mm) {
                    lemma_id_map_contains::<ModuleExports>(self.exports@, mm);
                    let k = choose|k: int|
                        0 <= k < self.exports@.len() && self.exports@[k].0 == mm;
                    assert(module_reported(self@, (#[trigger] self.exports@[k]).0));
                }
            }
            assert(out@ =~= report_of(self@));
        }
        out
    }
}

// ------------------------------------------------------------------
// Laws.
// ------------------------------------------------------------------

/// The report is a function of the accumulated state alone: finalizing
/// twice without new input yields identical results.
pub proof fn lemma_finalize_deterministic(
    av: AnalyzerView,
    r1: Map<u64, ResultsView>,
    r2: Map<u64, ResultsView>,
)
    requires
        r1 == report_of(av),
        r2 == report_of(av),
    ensures
        r1 == r2,
{
}

/// A module nobody consumes keeps every export: with an empty usage index,
/// its unused sets are exactly its declared export names.
pub proof fn lemma_no_consumers_all_unused(av: AnalyzerView, m: u64)
    requires
        av.usage == Map::<u64, Set<Seq<char>>>::empty(),
        av.registry.contains_key(m),
    ensures
        unused_value_of(av, m) == av.registry[m].value.dom(),
        unused_type_of(av, m) == av.registry[m].types.dom(),
{
    assert forall|x: Seq<char>| !attributed(av, m, x) by {
        if attributed(av, m, x) {
            let src = choose|src: u64|
                av.usage.contains_key(src) && av.usage[src].contains(x) && trace_from(
                    av.registry,
                    Set::empty(),
                    src,
                    x,
                ) == Some(m);
            assert(false);
        }
    }
    assert(unused_value_of(av, m) =~= av.registry[m].value.dom());
    assert(unused_type_of(av, m) =~= av.registry[m].types.dom());
}

/// The most recently declared `export *` wins: when a module declares the
/// symbol in neither table, its trace is decided by its last star edge
/// first, and a hit there shadows every earlier edge.
pub proof fn lemma_last_edge_shadows(
    reg: Map<u64, ExportsView>,
    visited: Set<u64>,
    m: u64,
    s: Seq<char>,
)
    requires
        reg.dom().finite(),
        !visited.contains(m),
        reg.contains_key(m),
        !reg[m].value.contains_key(s),
        !reg[m].types.contains_key(s),
        reg[m].alls.len() > 0,
        trace_from(reg, visited.insert(m), reg[m].alls.last(), s) is Some,
    ensures
        trace_from(reg, visited, m, s) == trace_from(reg, visited.insert(m), reg[m].alls.last(), s),
{
    let n = reg[m].alls.len() as int;
    assert(reg[m].alls[n - 1] == reg[m].alls.last());
    assert(trace_edges(reg, visited.insert(m), reg[m].alls, n, s) == trace_from(
        reg,
        visited.insert(m),
        reg[m].alls.last(),
        s,
    ));
}

/// A module that declares no exports never appears in the report, whatever
/// pass-through usage is traced across it.
pub proof fn lemma_no_exports_not_reported(av: AnalyzerView, m: u64)
    requires
        av.registry.contains_key(m) ==> av.registry[m].value == Map::<Seq<char>, Seq<char>>::empty()
            && av.registry[m].types == Map::<Seq<char>, Seq<char>>::empty(),
    ensures
        !report_of(av).contains_key(m),
{
    if av.registry.contains_key(m) {
        assert(unused_value_of(av, m) =~= Set::<Seq<char>>::empty());
        assert(unused_type_of(av, m) =~= Set::<Seq<char>>::empty());
    }
}

/// No export is silently dropped: every declared export name is either in
/// the module's unused set or matched by some attributed usage.
pub proof fn lemma_no_export_dropped(av: AnalyzerView, m: u64, x: Seq<char>)
    requires
        av.registry.contains_key(m),
        av.registry[m].value.contains_key(x) || av.registry[m].types.contains_key(x),
    ensures
        av.registry[m].value.contains_key(x) ==> (unused_value_of(av, m).contains(x) || attributed(
            av,
            m,
            x,
        )),
        av.registry[m].types.contains_key(x) ==> (unused_type_of(av, m).contains(x) || attributed(
            av,
            m,
            x,
        )),
{
}

} // verus!
