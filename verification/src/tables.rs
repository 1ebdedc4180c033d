//! Association tables backing the accumulators.
//!
//! The analysis joins everything on module identities (`u64`) and symbol
//! names (`String`). Both kinds of table are plain vectors of pairs whose
//! mathematical view is a `Map`: a later entry for a key overwrites an
//! earlier one, so pushing a pair is map insertion and lookups scan from the
//! end.

use vstd::prelude::*;

verus! {

broadcast use vstd::seq_lib::seq_to_set_is_finite;

// ------------------------------------------------------------------
// Identity-keyed tables: Vec<(u64, V)> viewed as Map<u64, V::V>.
// ------------------------------------------------------------------

/// The map an identity-keyed entry sequence denotes: later entries win.
pub open spec fn id_map_of<V: View>(s: Seq<(u64, V)>) -> Map<u64, V::V>
    decreases s.len(),
{
    if s.len() == 0 {
        Map::empty()
    } else {
        id_map_of(s.drop_last()).insert(s.last().0, s.last().1@)
    }
}

/// No two entries share a key.
pub open spec fn id_keys_unique<V>(s: Seq<(u64, V)>) -> bool {
    forall|i: int, j: int| 0 <= i < j < s.len() ==> s[i].0 != s[j].0
}

pub broadcast proof fn lemma_id_map_push<V: View>(s: Seq<(u64, V)>, p: (u64, V))
    ensures
        #[trigger] id_map_of(s.push(p)) == id_map_of(s).insert(p.0, p.1@),
{
    assert(s.push(p).drop_last() =~= s);
    assert(s.push(p).last() == p);
}

pub proof fn lemma_id_map_contains<V: View>(s: Seq<(u64, V)>, k: u64)
    ensures
        id_map_of(s).contains_key(k) <==> exists|j: int| 0 <= j < s.len() && s[j].0 == k,
    decreases s.len(),
{
    if s.len() > 0 {
        lemma_id_map_contains(s.drop_last(), k);
        if s.last().0 == k {
            assert(s[s.len() - 1].0 == k);
        } else if id_map_of(s).contains_key(k) {
            let j = choose|j: int| 0 <= j < s.drop_last().len() && s.drop_last()[j].0 == k;
            assert(s[j].0 == k);
        } else if exists|j: int| 0 <= j < s.len() && s[j].0 == k {
            let j = choose|j: int| 0 <= j < s.len() && s[j].0 == k;
            assert(s.drop_last()[j].0 == k);
        }
    }
}

pub proof fn lemma_id_map_dom_finite<V: View>(s: Seq<(u64, V)>)
    ensures
        id_map_of(s).dom().finite(),
    decreases s.len(),
{
    if s.len() > 0 {
        lemma_id_map_dom_finite::<V>(s.drop_last());
    }
}

/// Entries after index `i` say nothing about key `k`, so the map agrees with
/// the map of the prefix at `k`.
pub proof fn lemma_id_map_agree<V: View>(s: Seq<(u64, V)>, i: int, k: u64)
    requires
        0 <= i <= s.len(),
        forall|j: int| i <= j < s.len() ==> s[j].0 != k,
    ensures
        id_map_of(s).contains_key(k) == id_map_of(s.take(i)).contains_key(k),
        id_map_of(s).contains_key(k) ==> id_map_of(s)[k] == id_map_of(s.take(i))[k],
    decreases s.len() - i,
{
    if i < s.len() {
        assert(s[s.len() - 1].0 != k);
        lemma_id_map_agree(s.drop_last(), i, k);
        assert(s.drop_last().take(i) =~= s.take(i));
    } else {
        assert(s.take(i) =~= s);
    }
}

/// With unique keys, every entry is faithfully in the map.
pub proof fn lemma_id_map_index<V: View>(s: Seq<(u64, V)>, j: int)
    requires
        id_keys_unique(s),
        0 <= j < s.len(),
    ensures
        id_map_of(s).contains_key(s[j].0),
        id_map_of(s)[s[j].0] == s[j].1@,
    decreases s.len(),
{
    if j < s.len() - 1 {
        assert(id_keys_unique(s.drop_last()));
        lemma_id_map_index(s.drop_last(), j);
        assert(s.last().0 != s[j].0);
    }
}

/// With unique keys, the map is exactly as large as the entry list.
pub proof fn lemma_id_map_unique_len<V: View>(s: Seq<(u64, V)>)
    requires
        id_keys_unique(s),
    ensures
        id_map_of(s).dom().finite(),
        id_map_of(s).dom().len() == s.len(),
    decreases s.len(),
{
    if s.len() > 0 {
        assert(id_keys_unique(s.drop_last()));
        lemma_id_map_unique_len::<V>(s.drop_last());
        lemma_id_map_contains::<V>(s.drop_last(), s.last().0);
        assert(forall|j: int| 0 <= j < s.len() - 1 ==> s[j].0 != s.last().0);
        assert(!id_map_of(s.drop_last()).contains_key(s.last().0));
    }
}

/// Replacing the entry that holds key `k` is map insertion at `k`.
pub proof fn lemma_id_map_update<V: View>(s: Seq<(u64, V)>, j: int, p: (u64, V))
    requires
        id_keys_unique(s),
        0 <= j < s.len(),
        s[j].0 == p.0,
    ensures
        id_map_of(s.update(j, p)) == id_map_of(s).insert(p.0, p.1@),
    decreases s.len(),
{
    if j == s.len() - 1 {
        assert(s.update(j, p).drop_last() =~= s.drop_last());
        assert(s.update(j, p).last() == p);
        assert(id_map_of(s.drop_last()).insert(p.0, p.1@) =~= id_map_of(s).insert(p.0, p.1@));
    } else {
        assert(id_keys_unique(s.drop_last()));
        lemma_id_map_update(s.drop_last(), j, p);
        assert(s.update(j, p).drop_last() =~= s.drop_last().update(j, p));
        assert(s.update(j, p).last() == s.last());
        assert(s.last().0 != p.0);
        assert(id_map_of(s.drop_last()).insert(p.0, p.1@).insert(s.last().0, s.last().1@) =~= id_map_of(
            s,
        ).insert(p.0, p.1@));
    }
}

/// Looks a key up, honouring later-entry-wins.
pub fn id_get<'a, V: View>(entries: &'a Vec<(u64, V)>, k: u64) -> (r: Option<&'a V>)
    ensures
        match r {
            Option::Some(v) => id_map_of(entries@).contains_key(k) && v@ == id_map_of(entries@)[k],
            Option::None => !id_map_of(entries@).contains_key(k),
        },
{
    let mut i: usize = entries.len();
    while i > 0
        invariant
            i <= entries@.len(),
            forall|j: int| i <= j < entries@.len() ==> entries@[j].0 != k,
        decreases i,
    {
        i = i - 1;
        let p = &entries[i];
        if p.0 == k {
            proof {
                lemma_id_map_agree(entries@, i + 1, k);
                assert(entries@.take(i + 1).drop_last() =~= entries@.take(i as int));
                assert(entries@.take(i + 1).last() == entries@[i as int]);
            }
            return Option::Some(&p.1);
        }
    }
    proof {
        lemma_id_map_agree(entries@, 0, k);
        assert(entries@.take(0) =~= Seq::<(u64, V)>::empty());
    }
    Option::None
}

// ------------------------------------------------------------------
// Name-keyed tables: Vec<(String, V)> viewed as Map<Seq<char>, V::V>.
// ------------------------------------------------------------------

/// The map a name-keyed entry sequence denotes: later entries win.
pub open spec fn str_map_of<V: View>(s: Seq<(String, V)>) -> Map<Seq<char>, V::V>
    decreases s.len(),
{
    if s.len() == 0 {
        Map::empty()
    } else {
        str_map_of(s.drop_last()).insert(s.last().0@, s.last().1@)
    }
}

pub broadcast proof fn lemma_str_map_push<V: View>(s: Seq<(String, V)>, p: (String, V))
    ensures
        #[trigger] str_map_of(s.push(p)) == str_map_of(s).insert(p.0@, p.1@),
{
    assert(s.push(p).drop_last() =~= s);
    assert(s.push(p).last() == p);
}

pub proof fn lemma_str_map_contains<V: View>(s: Seq<(String, V)>, k: Seq<char>)
    ensures
        str_map_of(s).contains_key(k) <==> exists|j: int| 0 <= j < s.len() && s[j].0@ == k,
    decreases s.len(),
{
    if s.len() > 0 {
        lemma_str_map_contains(s.drop_last(), k);
        if s.last().0@ == k {
            assert(s[s.len() - 1].0@ == k);
        } else if str_map_of(s).contains_key(k) {
            let j = choose|j: int| 0 <= j < s.drop_last().len() && s.drop_last()[j].0@ == k;
            assert(s[j].0@ == k);
        } else if exists|j: int| 0 <= j < s.len() && s[j].0@ == k {
            let j = choose|j: int| 0 <= j < s.len() && s[j].0@ == k;
            assert(s.drop_last()[j].0@ == k);
        }
    }
}

pub proof fn lemma_str_map_agree<V: View>(s: Seq<(String, V)>, i: int, k: Seq<char>)
    requires
        0 <= i <= s.len(),
        forall|j: int| i <= j < s.len() ==> s[j].0@ != k,
    ensures
        str_map_of(s).contains_key(k) == str_map_of(s.take(i)).contains_key(k),
        str_map_of(s).contains_key(k) ==> str_map_of(s)[k] == str_map_of(s.take(i))[k],
    decreases s.len() - i,
{
    if i < s.len() {
        assert(s[s.len() - 1].0@ != k);
        lemma_str_map_agree(s.drop_last(), i, k);
        assert(s.drop_last().take(i) =~= s.take(i));
    } else {
        assert(s.take(i) =~= s);
    }
}

// ------------------------------------------------------------------
// StrMap: exported name -> original local name.
// ------------------------------------------------------------------

/// A name-to-name table (an export table): exported name is unique by
/// overwrite-on-insert, the last declaration for a name winning.
#[derive(Debug)]
pub struct StrMap {
    pub entries: Vec<(String, String)>,
}

impl View for StrMap {
    type V = Map<Seq<char>, Seq<char>>;

    open spec fn view(&self) -> Map<Seq<char>, Seq<char>> {
        str_map_of(self.entries@)
    }
}

impl StrMap {
    pub fn new() -> (r: StrMap)
        ensures
            r@ == Map::<Seq<char>, Seq<char>>::empty(),
    {
        StrMap { entries: Vec::new() }
    }

    pub fn insert(&mut self, k: String, v: String)
        ensures
            final(self)@ == old(self)@.insert(k@, v@),
    {
        let ghost p = (k, v);
        self.entries.push((k, v));
        proof {
            lemma_str_map_push(old(self).entries@, p);
        }
    }

    pub fn contains_key(&self, k: &String) -> (b: bool)
        ensures
            b == self@.contains_key(k@),
    {
        let mut i: usize = 0;
        while i < self.entries.len()
            invariant
                i <= self.entries@.len(),
                forall|j: int| 0 <= j < i ==> self.entries@[j].0@ != k@,
            decreases self.entries@.len() - i,
        {
            if self.entries[i].0 == *k {
                proof {
                    lemma_str_map_contains::<String>(self.entries@, k@);
                }
                return true;
            }
            i = i + 1;
        }
        proof {
            lemma_str_map_contains::<String>(self.entries@, k@);
        }
        false
    }
}

// ------------------------------------------------------------------
// StrSet: a set of symbol names.
// ------------------------------------------------------------------

/// The set of names an item sequence denotes.
pub open spec fn strs_set(s: Seq<String>) -> Set<Seq<char>> {
    Set::new(|x: Seq<char>| exists|j: int| 0 <= j < s.len() && s[j]@ == x)
}

/// A set of symbol names, kept without duplicates.
#[derive(Debug)]
pub struct StrSet {
    pub items: Vec<String>,
}

impl View for StrSet {
    type V = Set<Seq<char>>;

    open spec fn view(&self) -> Set<Seq<char>> {
        strs_set(self.items@)
    }
}

impl StrSet {
    /// No two items spell the same name.
    pub open spec fn wf(&self) -> bool {
        forall|i: int, j: int| 0 <= i < j < self.items@.len() ==> self.items@[i]@ != self.items@[j]@
    }

    pub fn new() -> (r: StrSet)
        ensures
            r@ == Set::<Seq<char>>::empty(),
            r.wf(),
    {
        let r = StrSet { items: Vec::new() };
        proof {
            assert(r@ =~= Set::<Seq<char>>::empty());
        }
        r
    }

    pub fn contains(&self, x: &String) -> (b: bool)
        ensures
            b == self@.contains(x@),
    {
        let mut i: usize = 0;
        while i < self.items.len()
            invariant
                i <= self.items@.len(),
                forall|j: int| 0 <= j < i ==> self.items@[j]@ != x@,
            decreases self.items@.len() - i,
        {
            if self.items[i] == *x {
                return true;
            }
            i = i + 1;
        }
        false
    }

    pub fn insert(&mut self, x: String)
        requires
            old(self).wf(),
        ensures
            final(self)@ == old(self)@.insert(x@),
            final(self).wf(),
    {
        if !self.contains(&x) {
            let ghost xv = x@;
            self.items.push(x);
            proof {
                assert forall|y: Seq<char>| self@.contains(y) implies old(self)@.insert(xv).contains(
                    y,
                ) by {
                    let j = choose|j: int| 0 <= j < self.items@.len() && self.items@[j]@ == y;
                    if j < old(self).items@.len() {
                        assert(old(self).items@[j]@ == y);
                    }
                }
                assert forall|y: Seq<char>| old(self)@.insert(xv).contains(y) implies self@.contains(
                    y,
                ) by {
                    if y == xv {
                        assert(self.items@[self.items@.len() - 1]@ == y);
                    } else {
                        let j = choose|j: int|
                            0 <= j < old(self).items@.len() && old(self).items@[j]@ == y;
                        assert(self.items@[j]@ == y);
                    }
                }
                assert(self@ =~= old(self)@.insert(xv));
            }
        } else {
            proof {
                assert(self@ =~= old(self)@.insert(x@));
            }
        }
    }

    pub fn len(&self) -> (n: usize)
        requires
            self.wf(),
        ensures
            n == self@.len(),
    {
        proof {
            let mapped = self.items@.map_values(|s: String| s@);
            assert(mapped.no_duplicates());
            mapped.unique_seq_to_set();
            assert forall|x: Seq<char>| self@.contains(x) implies mapped.to_set().contains(x) by {
                let j = choose|j: int| 0 <= j < self.items@.len() && self.items@[j]@ == x;
                assert(mapped[j] == x);
            }
            assert forall|x: Seq<char>| mapped.to_set().contains(x) implies self@.contains(x) by {
                let j = choose|j: int| 0 <= j < mapped.len() && mapped[j] == x;
                assert(self.items@[j]@ == x);
            }
            assert(self@ =~= mapped.to_set());
        }
        self.items.len()
    }

    pub fn is_empty(&self) -> (b: bool)
        ensures
            b <==> self@ == Set::<Seq<char>>::empty(),
    {
        proof {
            if self.items@.len() == 0 {
                assert(self@ =~= Set::<Seq<char>>::empty());
            } else {
                assert(self@.contains(self.items@[0]@));
            }
        }
        self.items.len() == 0
    }
}

} // verus!
