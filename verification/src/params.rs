//! Named string values: the query parameters and headers of a request.
//!
//! Names are kept distinct, so the collection reads as a finite map from
//! name to value.

use vstd::prelude::*;
use crate::text::chars_of;

verus! {

/// A set of `name -> value` pairs in which no name occurs twice.
pub struct Params {
    entries: Vec<(String, String)>,
}

/// The pairs as character sequences.
pub open spec fn pair_view(p: (String, String)) -> (Seq<char>, Seq<char>) {
    (p.0@, p.1@)
}

impl Params {
    /// No name occurs twice.
    #[verifier::type_invariant]
    spec fn distinct_names(self) -> bool {
        forall|i: int, j: int|
            0 <= i < j < self.entries@.len() ==> #[trigger] self.entries@[i].0@
                != #[trigger] self.entries@[j].0@
    }

    /// The pairs, in the order in which their names were first given.
    pub closed spec fn pairs(self) -> Seq<(Seq<char>, Seq<char>)> {
        self.entries@.map_values(|p: (String, String)| pair_view(p))
    }

    /// The position of the pair named `k` (meaningful where `k` is present).
    pub closed spec fn position(self, k: Seq<char>) -> int {
        choose|i: int| 0 <= i < self.entries@.len() && self.entries@[i].0@ == k
    }

    /// `k` names a pair.
    pub closed spec fn has(self, k: Seq<char>) -> bool {
        exists|i: int| 0 <= i < self.entries@.len() && self.entries@[i].0@ == k
    }
}

impl View for Params {
    type V = Map<Seq<char>, Seq<char>>;

    closed spec fn view(&self) -> Map<Seq<char>, Seq<char>> {
        Map::new(|k: Seq<char>| self.has(k), |k: Seq<char>| self.entries@[self.position(k)].1@)
    }
}

fn same_text(a: &String, b: &str) -> (r: bool)
    ensures
        r == (a@ == b@),
{
    let t = b.to_string();
    *a == t
}

impl Params {
    /// No pairs.
    pub fn new() -> (p: Params)
        ensures
            p@ == Map::<Seq<char>, Seq<char>>::empty(),
    {
        let p = Params { entries: Vec::new() };
        assert(p@ =~= Map::<Seq<char>, Seq<char>>::empty());
        p
    }

    /// The number of pairs.
    pub fn len(&self) -> (n: usize)
        ensures
            n == self@.dom().len(),
    {
        proof {
            use_type_invariant(self);
            self.lemma_dom_len();
        }
        self.entries.len()
    }

    proof fn lemma_dom_len(&self)
        requires
            self.distinct_names(),
        ensures
            self@.dom().finite(),
            self@.dom().len() == self.entries@.len(),
    {
        let keys = self.entries@.map_values(|p: (String, String)| p.0@);
        assert(keys.no_duplicates()) by {
            assert forall|i: int, j: int| 0 <= i < keys.len() && 0 <= j < keys.len() && i != j
                implies keys[i] != keys[j] by {
                if i < j {
                    assert(self.entries@[i].0@ != self.entries@[j].0@);
                } else {
                    assert(self.entries@[j].0@ != self.entries@[i].0@);
                }
            }
        }
        assert(self@.dom() =~= keys.to_set()) by {
            assert forall|k: Seq<char>| self@.dom().contains(k) implies keys.to_set().contains(k) by {
                let i = choose|i: int| 0 <= i < self.entries@.len() && self.entries@[i].0@ == k;
                assert(keys[i] == k);
            }
            assert forall|k: Seq<char>| keys.to_set().contains(k) implies self@.dom().contains(k) by {
                let i = choose|i: int| 0 <= i < keys.len() && keys[i] == k;
                assert(self.entries@[i].0@ == k);
            }
        }
        keys.unique_seq_to_set();
    }

    fn index_of(&self, k: &str) -> (r: Option<usize>)
        ensures
            match r {
                Some(i) => i < self.entries@.len() && self.entries@[i as int].0@ == k@,
                None => !self.has(k@),
            },
    {
        let mut i: usize = 0;
        while i < self.entries.len()
            invariant
                i <= self.entries@.len(),
                forall|j: int| 0 <= j < i ==> self.entries@[j].0@ != k@,
            decreases self.entries@.len() - i,
        {
            if same_text(&self.entries[i].0, k) {
                return Some(i);
            }
            i = i + 1;
        }
        None
    }

    proof fn lemma_position(&self, i: int)
        requires
            self.distinct_names(),
            0 <= i < self.entries@.len(),
        ensures
            self.has(self.entries@[i].0@),
            self.position(self.entries@[i].0@) == i,
    {
        let k = self.entries@[i].0@;
        assert(self.has(k));
        let p = self.position(k);
        if p != i {
            if p < i {
                assert(self.entries@[p].0@ != self.entries@[i].0@);
            } else {
                assert(self.entries@[i].0@ != self.entries@[p].0@);
            }
        }
    }

    /// `k` names a pair.
    pub fn contains_key(&self, k: &str) -> (r: bool)
        ensures
            r == self@.contains_key(k@),
    {
        self.index_of(k).is_some()
    }

    /// The value named `k`, if any.
    pub fn get(&self, k: &str) -> (r: Option<&String>)
        ensures
            match r {
                Some(v) => self@.contains_key(k@) && v@ == self@[k@],
                None => !self@.contains_key(k@),
            },
    {
        proof {
            use_type_invariant(self);
        }
        match self.index_of(k) {
            Some(i) => {
                proof {
                    self.lemma_position(i as int);
                }
                Some(&self.entries[i].1)
            }
            None => None,
        }
    }

    /// The value named `k`, or the empty string.
    pub fn get_or_empty(&self, k: &str) -> (r: String)
        ensures
            r@ == (if self@.contains_key(k@) { self@[k@] } else { Seq::<char>::empty() }),
    {
        match self.get(k) {
            Some(v) => v.clone(),
            None => String::new(),
        }
    }

    /// Gives `k` the value `v`, replacing any value it had.
    pub fn insert(&mut self, k: String, v: String)
        ensures
            final(self)@ == old(self)@.insert(k@, v@),
    {
        proof {
            use_type_invariant(&*self);
        }
        let ghost old_entries = self.entries@;
        let ghost old_view = self@;
        match self.index_of(k.as_str()) {
            Some(i) => {
                proof {
                    self.lemma_position(i as int);
                }
                let mut entries: Vec<(String, String)> = Vec::new();
                std::mem::swap(&mut entries, &mut self.entries);
                entries.set(i, (k, v));
                self.entries = entries;
                proof {
                    assert(self.entries@ == old_entries.update(i as int, self.entries@[i as int]));
                    assert forall|a: int, b: int|
                        0 <= a < b < self.entries@.len() implies #[trigger] self.entries@[a].0@
                        != #[trigger] self.entries@[b].0@ by {
                        assert(old_entries[a].0@ != old_entries[b].0@);
                    }
                    assert(self.distinct_names());
                    assert forall|key: Seq<char>| #[trigger] self.has(key) == old_view.insert(k@, v@).dom().contains(key) by {
                        if self.has(key) {
                            let j = choose|j: int| 0 <= j < self.entries@.len() && self.entries@[j].0@ == key;
                            if j != i {
                                assert(old_entries[j].0@ == key);
                            }
                        }
                        if old_view.contains_key(key) && key != k@ {
                            let j = choose|j: int| 0 <= j < old_entries.len() && old_entries[j].0@ == key;
                            assert(j != i);
                            assert(self.entries@[j].0@ == key);
                        }
                    }
                    assert forall|key: Seq<char>| #[trigger] self.has(key) implies self.entries@[self.position(key)].1@ == old_view.insert(k@, v@)[key] by {
                        let j = self.position(key);
                        self.lemma_position(j);
                        if key == k@ {
                            self.lemma_position(i as int);
                        } else {
                            assert(j != i);
                            self.old_position(old_entries, j);
                        }
                    }
                    assert(self@ =~= old_view.insert(k@, v@));
                }
            }
            None => {
                let mut entries: Vec<(String, String)> = Vec::new();
                std::mem::swap(&mut entries, &mut self.entries);
                entries.push((k, v));
                self.entries = entries;
                proof {
                    let n = old_entries.len() as int;
                    assert forall|a: int, b: int|
                        0 <= a < b < self.entries@.len() implies #[trigger] self.entries@[a].0@
                        != #[trigger] self.entries@[b].0@ by {
                        if b == n {
                            assert(old_entries[a].0@ != k@);
                        } else {
                            assert(old_entries[a].0@ != old_entries[b].0@);
                        }
                    }
                    assert(self.distinct_names());
                    assert forall|key: Seq<char>| #[trigger] self.has(key) == old_view.insert(k@, v@).dom().contains(key) by {
                        if self.has(key) {
                            let j = choose|j: int| 0 <= j < self.entries@.len() && self.entries@[j].0@ == key;
                            if j != n {
                                assert(old_entries[j].0@ == key);
                            }
                        }
                        if old_view.contains_key(key) {
                            let j = choose|j: int| 0 <= j < old_entries.len() && old_entries[j].0@ == key;
                            assert(self.entries@[j].0@ == key);
                        }
                        if key == k@ {
                            assert(self.entries@[n].0@ == key);
                        }
                    }
                    assert forall|key: Seq<char>| #[trigger] self.has(key) implies self.entries@[self.position(key)].1@ == old_view.insert(k@, v@)[key] by {
                        let j = self.position(key);
                        self.lemma_position(j);
                        if key == k@ {
                            self.lemma_position(n);
                        } else {
                            assert(j != n);
                            self.old_position(old_entries, j);
                        }
                    }
                    assert(self@ =~= old_view.insert(k@, v@));
                }
            }
        }
    }

    proof fn old_position(&self, old_entries: Seq<(String, String)>, j: int)
        requires
            0 <= j < old_entries.len(),
            j < self.entries@.len(),
            old_entries[j] == self.entries@[j],
            forall|a: int, b: int|
                0 <= a < b < old_entries.len() ==> #[trigger] old_entries[a].0@ != #[trigger] old_entries[b].0@,
        ensures
            ({
                let key = old_entries[j].0@;
                let p = choose|i: int| 0 <= i < old_entries.len() && old_entries[i].0@ == key;
                p == j
            }),
    {
        let key = old_entries[j].0@;
        let p = choose|i: int| 0 <= i < old_entries.len() && old_entries[i].0@ == key;
        if p != j {
            if p < j {
                assert(old_entries[p].0@ != old_entries[j].0@);
            } else {
                assert(old_entries[j].0@ != old_entries[p].0@);
            }
        }
    }

    /// A copy of the pairs.
    pub fn clone_params(&self) -> (p: Params)
        ensures
            p@ == self@,
            p.pairs() == self.pairs(),
    {
        let mut v: Vec<(String, String)> = Vec::new();
        let mut i: usize = 0;
        while i < self.entries.len()
            invariant
                i <= self.entries@.len(),
                v@.len() == i,
                forall|j: int| 0 <= j < i ==> (#[trigger] v@[j]).0@ == self.entries@[j].0@
                    && v@[j].1@ == self.entries@[j].1@,
            decreases self.entries@.len() - i,
        {
            let p = (self.entries[i].0.clone(), self.entries[i].1.clone());
            v.push(p);
            i = i + 1;
        }
        proof {
            use_type_invariant(self);
        }
        let p = Params { entries: v };
        proof {
            assert(p.pairs() =~= self.pairs());
            assert forall|k: Seq<char>| #[trigger] p.has(k) == self.has(k) by {
                if p.has(k) {
                    let j = choose|j: int| 0 <= j < p.entries@.len() && p.entries@[j].0@ == k;
                    assert(self.entries@[j].0@ == k);
                }
                if self.has(k) {
                    let j = choose|j: int| 0 <= j < self.entries@.len() && self.entries@[j].0@ == k;
                    assert(p.entries@[j].0@ == k);
                }
            }
            assert forall|k: Seq<char>| #[trigger] p.has(k) implies p.entries@[p.position(k)].1@ == self.entries@[self.position(k)].1@ by {
                let a = p.position(k);
                let b = self.position(k);
                self.lemma_position(b);
                p.lemma_position(a);
                if a != b {
                    if a < b {
                        assert(self.entries@[a].0@ != self.entries@[b].0@);
                    } else {
                        assert(self.entries@[b].0@ != self.entries@[a].0@);
                    }
                }
            }
            assert(p@ =~= self@);
        }
        p
    }

    /// The pairs, as name and value.
    pub fn to_pairs(&self) -> (v: Vec<(String, String)>)
        ensures
            v@.map_values(|p: (String, String)| pair_view(p)) == self.pairs(),
    {
        let mut v: Vec<(String, String)> = Vec::new();
        let mut i: usize = 0;
        while i < self.entries.len()
            invariant
                i <= self.entries@.len(),
                v@.len() == i,
                forall|j: int| 0 <= j < i ==> #[trigger] pair_view(v@[j]) == pair_view(self.entries@[j]),
            decreases self.entries@.len() - i,
        {
            let p = (self.entries[i].0.clone(), self.entries[i].1.clone());
            v.push(p);
            i = i + 1;
        }
        assert(v@.map_values(|p: (String, String)| pair_view(p)) =~= self.pairs());
        v
    }
}

} // verus!
