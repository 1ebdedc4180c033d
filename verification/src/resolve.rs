//! The resolver contract.
//!
//! Mapping a specifier string such as `"./foo"` or `"@scope/pkg"` to a
//! canonical module identity is resolution policy (Node-style lookup,
//! path aliases, and so on) and lives outside the core. The core sees
//! resolution only as a finite table from specifier to outcome, prepared for
//! the file under analysis: a pure function of the specifier. A specifier
//! the table does not list counts as a failed resolution, which is non-fatal
//! and merely skips recording.

use vstd::prelude::*;

use crate::tables::lemma_str_map_agree;
use crate::tables::lemma_str_map_push;
use crate::tables::str_map_of;

verus! {

/// The outcome of resolving one specifier from one module.
#[derive(Clone, Copy, Debug, PartialEq, Eq, Structural)]
pub enum Resolution {
    /// The specifier names an analyzed (or analyzable) module.
    Module(u64),
    /// A platform built-in: recording is suppressed.
    Builtin,
    /// An intentionally excluded target: recording is suppressed.
    Ignored,
    /// Resolution failed: non-fatal, recording is skipped.
    Failed,
}

impl View for Resolution {
    type V = Resolution;

    open spec fn view(&self) -> Resolution {
        *self
    }
}

/// What a resolver table answers for a specifier: the mapped outcome, or
/// `Failed` for a specifier it does not list.
pub open spec fn resolution_of(r: Map<Seq<char>, Resolution>, specifier: Seq<char>) -> Resolution {
    if r.contains_key(specifier) {
        r[specifier]
    } else {
        Resolution::Failed
    }
}

/// The resolution outcomes for one file under analysis, keyed by specifier;
/// a later entry for the same specifier overwrites an earlier one.
pub struct ResolverTable {
    pub entries: Vec<(String, Resolution)>,
}

impl View for ResolverTable {
    type V = Map<Seq<char>, Resolution>;

    open spec fn view(&self) -> Map<Seq<char>, Resolution> {
        str_map_of(self.entries@)
    }
}

impl ResolverTable {
    pub fn new() -> (r: ResolverTable)
        ensures
            r@ == Map::<Seq<char>, Resolution>::empty(),
    {
        ResolverTable { entries: Vec::new() }
    }

    pub fn add(&mut self, specifier: String, outcome: Resolution)
        ensures
            final(self)@ == old(self)@.insert(specifier@, outcome),
    {
        let ghost p = (specifier, outcome);
        self.entries.push((specifier, outcome));
        proof {
            lemma_str_map_push(old(self).entries@, p);
        }
    }

    /// Resolves one specifier through the table.
    pub fn resolve(&self, specifier: &String) -> (r: Resolution)
        ensures
            r == resolution_of(self@, specifier@),
    {
        let mut i: usize = self.entries.len();
        while i > 0
            invariant
                i <= self.entries@.len(),
                forall|j: int| i <= j < self.entries@.len() ==> self.entries@[j].0@ != specifier@,
            decreases i,
        {
            i = i - 1;
            if self.entries[i].0 == *specifier {
                proof {
                    lemma_str_map_agree(self.entries@, i + 1, specifier@);
                    assert(self.entries@.take(i + 1).drop_last() =~= self.entries@.take(i as int));
                    assert(self.entries@.take(i + 1).last() == self.entries@[i as int]);
                }
                return self.entries[i].1;
            }
        }
        proof {
            lemma_str_map_agree(self.entries@, 0, specifier@);
            assert(self.entries@.take(0) =~= Seq::<(String, Resolution)>::empty());
        }
        Resolution::Failed
    }
}

} // verus!
