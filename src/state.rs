use vstd::prelude::*;

verus! {

/// The abstract value of a list of distinct-keyed pairs: each key maps to the
/// value stored beside it.
pub open spec fn map_of(s: Seq<(String, String)>) -> Map<Seq<char>, Seq<char>> {
    Map::new(
        |k: Seq<char>| exists|i: int| 0 <= i < s.len() && (#[trigger] s[i]).0@ == k,
        |k: Seq<char>| s[choose|i: int| 0 <= i < s.len() && (#[trigger] s[i]).0@ == k].1@,
    )
}

/// No key occurs twice.
pub open spec fn keys_unique(s: Seq<(String, String)>) -> bool {
    forall|i: int, j: int|
        0 <= i < s.len() && 0 <= j < s.len() && i != j ==> (#[trigger] s[i]).0@ != (#[trigger] s[j]).0@
}

/// In a list without repeated keys, each entry is what its key maps to.
pub proof fn lemma_map_of_entry(s: Seq<(String, String)>, i: int)
    requires
        keys_unique(s),
        0 <= i < s.len(),
    ensures
        map_of(s).contains_key(s[i].0@),
        map_of(s)[s[i].0@] == s[i].1@,
{
    let k = s[i].0@;
    assert(s[i].0@ == k);
    let j = choose|j: int| 0 <= j < s.len() && (#[trigger] s[j]).0@ == k;
    assert(j == i);
}

/// One session's data: a map from string keys to string values.
pub struct SessionState {
    entries: Vec<(String, String)>,
}

impl View for SessionState {
    type V = Map<Seq<char>, Seq<char>>;

    closed spec fn view(&self) -> Map<Seq<char>, Seq<char>> {
        map_of(self.entries@)
    }
}

impl SessionState {
    /// The entries, one per key.
    pub closed spec fn spec_entries(&self) -> Seq<(String, String)> {
        self.entries@
    }

    pub open spec fn wf(&self) -> bool {
        keys_unique(self.spec_entries()) && self@ == map_of(self.spec_entries())
    }

    /// An empty session.
    pub fn new() -> (r: SessionState)
        ensures
            r.wf(),
            r@ == Map::<Seq<char>, Seq<char>>::empty(),
    {
        let r = SessionState { entries: Vec::new() };
        assert(r@ =~= Map::<Seq<char>, Seq<char>>::empty());
        r
    }

    /// Builds a session from pairs whose keys are distinct.
    pub(crate) fn from_unique_entries(entries: Vec<(String, String)>) -> (r: SessionState)
        requires
            keys_unique(entries@),
        ensures
            r.wf(),
            r@ == map_of(entries@),
    {
        SessionState { entries }
    }

    /// The pairs of the session, each key once, in no particular order.
    pub fn entries(&self) -> (r: &Vec<(String, String)>)
        ensures
            r@ == self.spec_entries(),
    {
        &self.entries
    }

    /// The number of keys.
    pub fn len(&self) -> (r: usize)
        requires
            self.wf(),
        ensures
            r == self@.len(),
    {
        proof { self.lemma_len(); }
        self.entries.len()
    }

    pub proof fn lemma_len(&self)
        requires
            self.wf(),
        ensures
            self@.dom().finite(),
            self@.len() == self.spec_entries().len(),
        decreases self.spec_entries().len(),
    {
        let s = self.entries@;
        let keys = s.map_values(|e: (String, String)| e.0@);
        assert forall|i: int, j: int| 0 <= i < keys.len() && 0 <= j < keys.len() && i != j
            implies keys[i] != keys[j] by {}
        keys.unique_seq_to_set();
        assert(keys.to_set() =~= self@.dom()) by {
            assert forall|k: Seq<char>| self@.dom().contains(k) implies keys.to_set().contains(k) by {
                let i = choose|i: int| 0 <= i < s.len() && (#[trigger] s[i]).0@ == k;
                assert(keys[i] == k);
            }
            assert forall|k: Seq<char>| keys.to_set().contains(k) implies self@.dom().contains(k) by {
                let i = choose|i: int| 0 <= i < keys.len() && keys[i] == k;
                assert(s[i].0@ == k);
            }
        }
    }

    /// The index of `key`, if the session holds it.
    fn find(&self, key: &String) -> (r: Option<usize>)
        requires
            self.wf(),
        ensures
            match r {
                Some(i) => i < self.spec_entries().len() && self.spec_entries()[i as int].0@ == key@,
                None => !self@.contains_key(key@),
            },
    {
        let mut i: usize = 0;
        while i < self.entries.len()
            invariant
                self.wf(),
                i <= self.entries@.len(),
                forall|j: int| 0 <= j < i ==> (#[trigger] self.entries@[j]).0@ != key@,
            decreases self.entries@.len() - i,
        {
            if self.entries[i].0 == *key {
                return Some(i);
            }
            i = i + 1;
        }
        None
    }

    /// The value stored under `key`.
    pub fn get(&self, key: &String) -> (r: Option<String>)
        requires
            self.wf(),
        ensures
            match r {
                Some(v) => self@.contains_key(key@) && self@[key@] == v@,
                None => !self@.contains_key(key@),
            },
    {
        match self.find(key) {
            Some(i) => {
                proof { lemma_map_of_entry(self.entries@, i as int); }
                Some(self.entries[i].1.clone())
            },
            None => None,
        }
    }

    /// Stores `value` under `key`, replacing what was there.
    pub fn insert(&mut self, key: String, value: String)
        requires
            old(self).wf(),
        ensures
            final(self).wf(),
            final(self)@ == old(self)@.insert(key@, value@),
    {
        let ghost pre = self.entries@;
        let ghost k = key@;
        let ghost v = value@;
        match self.find(&key) {
            Some(i) => {
                self.entries.set(i, (key, value));
                let ghost post = self.entries@;
                assert(post == pre.update(i as int, post[i as int]));
                assert forall|a: int, b: int|
                    0 <= a < post.len() && 0 <= b < post.len() && a != b implies
                    (#[trigger] post[a]).0@ != (#[trigger] post[b]).0@ by {
                    if a != i && b != i {
                        assert(post[a] == pre[a] && post[b] == pre[b]);
                    } else if a == i {
                        assert(post[b] == pre[b]);
                        assert(pre[i as int].0@ == k);
                    } else {
                        assert(post[a] == pre[a]);
                        assert(pre[i as int].0@ == k);
                    }
                }
                proof { self.lemma_insert_view(pre, i as int, k, v); }
            },
            None => {
                self.entries.push((key, value));
                let ghost post = self.entries@;
                assert forall|a: int, b: int|
                    0 <= a < post.len() && 0 <= b < post.len() && a != b implies
                    (#[trigger] post[a]).0@ != (#[trigger] post[b]).0@ by {
                    if a < pre.len() && b < pre.len() {
                        assert(post[a] == pre[a] && post[b] == pre[b]);
                    } else if a < pre.len() {
                        assert(post[a] == pre[a]);
                        assert(map_of(pre).contains_key(pre[a].0@));
                    } else {
                        assert(post[b] == pre[b]);
                        assert(map_of(pre).contains_key(pre[b].0@));
                    }
                }
                proof { self.lemma_insert_view(pre, pre.len() as int, k, v); }
            },
        }
    }

    proof fn lemma_insert_view(&self, pre: Seq<(String, String)>, i: int, k: Seq<char>, v: Seq<char>)
        requires
            keys_unique(pre),
            keys_unique(self.entries@),
            0 <= i < self.entries@.len(),
            i <= pre.len(),
            self.entries@[i].0@ == k,
            self.entries@[i].1@ == v,
            i < pre.len() ==> pre[i].0@ == k && self.entries@.len() == pre.len(),
            i == pre.len() ==> self.entries@.len() == pre.len() + 1,
            forall|j: int| 0 <= j < pre.len() && j != i ==> self.entries@[j] == pre[j],
        ensures
            self@ == map_of(pre).insert(k, v),
    {
        let post = self.entries@;
        lemma_map_of_entry(post, i);
        assert forall|kk: Seq<char>| #[trigger] self@.contains_key(kk) == map_of(pre).insert(k, v).contains_key(kk) by {
            if kk != k {
                if self@.contains_key(kk) {
                    let j = choose|j: int| 0 <= j < post.len() && (#[trigger] post[j]).0@ == kk;
                    assert(j != i);
                    assert(j < pre.len());
                    assert(pre[j] == post[j]);
                    assert(map_of(pre).contains_key(kk));
                }
                if map_of(pre).contains_key(kk) {
                    let j = choose|j: int| 0 <= j < pre.len() && (#[trigger] pre[j]).0@ == kk;
                    assert(j != i);
                    assert(pre[j] == post[j]);
                    assert(self@.contains_key(kk));
                }
            }
        }
        assert forall|kk: Seq<char>| #[trigger] self@.contains_key(kk) implies
            self@[kk] == map_of(pre).insert(k, v)[kk] by {
            if kk != k {
                let j = choose|j: int| 0 <= j < post.len() && (#[trigger] post[j]).0@ == kk;
                assert(j != i);
                assert(j < pre.len());
                assert(pre[j] == post[j]);
                lemma_map_of_entry(post, j);
                lemma_map_of_entry(pre, j);
            }
        }
        assert(self@ =~= map_of(pre).insert(k, v));
    }
}

} // verus!
