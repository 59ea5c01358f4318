//! Installation evidence and the evidence map.
//!
//! A probe emits evidence items: a canonical game name paired with the
//! absolute path of the executable it found. The aggregator merges all items
//! into an evidence map keyed by normalized name, last writer winning on a
//! key collision.

use vstd::prelude::*;

verus! {

/// The mathematical view of one evidence item.
pub struct EvidenceFact {
    pub name: Seq<char>,
    pub path: Seq<char>,
}

/// One piece of installation evidence: a canonical game name and the
/// executable path a probe found for it.
pub struct Evidence {
    pub name: String,
    pub path: String,
}

impl View for Evidence {
    type V = EvidenceFact;

    open spec fn view(&self) -> EvidenceFact {
        EvidenceFact { name: self.name@, path: self.path@ }
    }
}

/// The mapping described by a sequence of evidence items, later items
/// overwriting earlier ones with the same name.
pub open spec fn entries_as_map(s: Seq<Evidence>) -> Map<Seq<char>, Seq<char>>
    decreases s.len(),
{
    if s.len() == 0 {
        Map::empty()
    } else {
        entries_as_map(s.drop_last()).insert(s.last().name@, s.last().path@)
    }
}

/// Pairwise distinct names across a sequence of evidence items.
pub open spec fn distinct_names(s: Seq<Evidence>) -> bool {
    forall|p: int, q: int| 0 <= p < q < s.len() ==> s[p].name@ != s[q].name@
}

/// A mapping from normalized game name to discovered executable path, with
/// unique keys and last-write-wins insertion.
pub struct EvidenceMap {
    entries: Vec<Evidence>,
}

impl View for EvidenceMap {
    type V = Map<Seq<char>, Seq<char>>;

    closed spec fn view(&self) -> Map<Seq<char>, Seq<char>> {
        entries_as_map(self.entries@)
    }
}

proof fn lemma_map_update(s: Seq<Evidence>, i: int, f: Evidence)
    requires
        0 <= i < s.len(),
        s[i].name@ == f.name@,
        distinct_names(s),
    ensures
        entries_as_map(s.update(i, f)) =~= entries_as_map(s).insert(f.name@, f.path@),
    decreases s.len(),
{
    if i == s.len() - 1 {
        assert(s.update(i, f).drop_last() =~= s.drop_last());
        assert(s.update(i, f).last() == f);
    } else {
        let front = s.drop_last();
        assert(s.update(i, f).drop_last() =~= front.update(i, f));
        lemma_map_update(front, i, f);
        assert(s.last().name@ != f.name@);
        assert(s.update(i, f).last() == s.last());
    }
}

proof fn lemma_map_lookup(s: Seq<Evidence>, i: int)
    requires
        0 <= i < s.len(),
        distinct_names(s),
    ensures
        entries_as_map(s).contains_key(s[i].name@),
        entries_as_map(s)[s[i].name@] == s[i].path@,
    decreases s.len(),
{
    if i < s.len() - 1 {
        lemma_map_lookup(s.drop_last(), i);
        assert(s.last().name@ != s[i].name@);
    }
}

proof fn lemma_map_absent(s: Seq<Evidence>, k: Seq<char>)
    requires
        forall|p: int| 0 <= p < s.len() ==> s[p].name@ != k,
    ensures
        !entries_as_map(s).contains_key(k),
    decreases s.len(),
{
    if s.len() > 0 {
        lemma_map_absent(s.drop_last(), k);
    }
}

proof fn lemma_map_len(s: Seq<Evidence>)
    requires
        distinct_names(s),
    ensures
        entries_as_map(s).dom().finite(),
        entries_as_map(s).dom().len() == s.len(),
    decreases s.len(),
{
    if s.len() > 0 {
        lemma_map_len(s.drop_last());
        lemma_map_absent(s.drop_last(), s.last().name@);
        assert(entries_as_map(s).dom() =~= entries_as_map(s.drop_last()).dom().insert(
            s.last().name@,
        ));
    }
}

impl EvidenceMap {
    /// Names are pairwise distinct among the stored entries.
    pub closed spec fn wf(&self) -> bool {
        distinct_names(self.entries@)
    }

    /// An empty evidence map.
    pub fn new() -> (r: EvidenceMap)
        ensures
            r.wf(),
            r@ =~= Map::<Seq<char>, Seq<char>>::empty(),
    {
        EvidenceMap { entries: Vec::new() }
    }

    /// Inserts a name-path pair, overwriting any earlier path stored under
    /// the same name.
    pub fn insert(&mut self, name: String, path: String)
        requires
            old(self).wf(),
        ensures
            final(self).wf(),
            final(self)@ =~= old(self)@.insert(name@, path@),
    {
        let n = self.entries.len();
        let mut i: usize = 0;
        while i < n
            invariant
                i <= n,
                n == self.entries@.len(),
                self.entries@ == old(self).entries@,
                distinct_names(self.entries@),
                forall|j: int| 0 <= j < i ==> self.entries@[j].name@ != name@,
            decreases n - i,
        {
            if self.entries[i].name.eq(&name) {
                let ghost s = self.entries@;
                let f = Evidence { name, path };
                proof {
                    lemma_map_update(s, i as int, f);
                }
                self.entries.set(i, f);
                return ;
            }
            i = i + 1;
        }
        let ghost s = self.entries@;
        let f = Evidence { name, path };
        self.entries.push(f);
        proof {
            assert(self.entries@.drop_last() =~= s);
        }
    }

    /// Looks a normalized name up, returning the stored path if the name is
    /// a key of the map.
    pub fn get(&self, name: &String) -> (r: Option<&String>)
        requires
            self.wf(),
        ensures
            match r {
                Some(p) => self@.contains_key(name@) && p@ == self@[name@],
                None => !self@.contains_key(name@),
            },
    {
        let n = self.entries.len();
        let mut i: usize = 0;
        while i < n
            invariant
                i <= n,
                n == self.entries@.len(),
                self.wf(),
                forall|j: int| 0 <= j < i ==> self.entries@[j].name@ != name@,
            decreases n - i,
        {
            if self.entries[i].name.eq(name) {
                proof {
                    lemma_map_lookup(self.entries@, i as int);
                }
                return Some(&self.entries[i].path);
            }
            i = i + 1;
        }
        proof {
            lemma_map_absent(self.entries@, name@);
        }
        None
    }

    /// The number of distinct names held.
    pub fn len(&self) -> (r: usize)
        requires
            self.wf(),
        ensures
            r == self@.dom().len(),
    {
        proof {
            lemma_map_len(self.entries@);
        }
        self.entries.len()
    }
}

} // verus!
