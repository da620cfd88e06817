//! The header map: an association of header names to values, both raw
//! bytes, with unique names. A repeated name overwrites the earlier value
//! in place, so the last occurrence wins while the original position is
//! kept, and iteration order is deterministic.
use vstd::prelude::*;

verus! {

/// Position of the first entry with name `k`, if any.
pub open spec fn index_of_key(m: Seq<(Seq<u8>, Seq<u8>)>, k: Seq<u8>) -> Option<int>
    decreases m.len(),
{
    if m.len() == 0 {
        None
    } else if m[0].0 == k {
        Some(0int)
    } else {
        match index_of_key(m.drop_first(), k) {
            None => None,
            Some(i) => Some(i + 1),
        }
    }
}

/// What inserting a pair does: overwrite the entry with the same name in
/// place, or append a new entry at the end.
pub open spec fn insert_pair(m: Seq<(Seq<u8>, Seq<u8>)>, k: Seq<u8>, v: Seq<u8>) -> Seq<
    (Seq<u8>, Seq<u8>),
> {
    match index_of_key(m, k) {
        None => m.push((k, v)),
        Some(i) => m.update(i, (k, v)),
    }
}

/// No two entries share a name.
pub open spec fn unique_keys(m: Seq<(Seq<u8>, Seq<u8>)>) -> bool {
    forall|i: int, j: int| 0 <= i < j < m.len() ==> m[i].0 != m[j].0
}

/// `index_of_key` finds exactly the first entry named `k`.
pub proof fn lemma_index_of_key(m: Seq<(Seq<u8>, Seq<u8>)>, k: Seq<u8>)
    ensures
        match index_of_key(m, k) {
            Some(i) => 0 <= i < m.len() && m[i].0 == k && (forall|j: int|
                0 <= j < i ==> m[j].0 != k),
            None => forall|j: int| 0 <= j < m.len() ==> m[j].0 != k,
        },
    decreases m.len(),
{
    if m.len() == 0 {
    } else if m[0].0 == k {
    } else {
        lemma_index_of_key(m.drop_first(), k);
        assert(forall|j: int| 1 <= j < m.len() ==> m[j] == m.drop_first()[j - 1]);
    }
}

/// Inserting keeps the names unique.
pub proof fn lemma_insert_pair_unique(m: Seq<(Seq<u8>, Seq<u8>)>, k: Seq<u8>, v: Seq<u8>)
    requires
        unique_keys(m),
    ensures
        unique_keys(insert_pair(m, k, v)),
{
    lemma_index_of_key(m, k);
}

/// A map from header names to header values, both held as raw bytes.
#[derive(Debug)]
pub struct HeaderMap {
    entries: Vec<(Vec<u8>, Vec<u8>)>,
}

impl View for HeaderMap {
    type V = Seq<(Seq<u8>, Seq<u8>)>;

    closed spec fn view(&self) -> Seq<(Seq<u8>, Seq<u8>)> {
        self.entries@.map_values(|p: (Vec<u8>, Vec<u8>)| (p.0@, p.1@))
    }
}

impl HeaderMap {
    /// The map is well formed when no name repeats.
    pub open spec fn wf(&self) -> bool {
        unique_keys(self@)
    }

    /// An empty map.
    pub fn new() -> (r: HeaderMap)
        ensures
            r@ == Seq::<(Seq<u8>, Seq<u8>)>::empty(),
            r.wf(),
    {
        let r = HeaderMap { entries: Vec::new() };
        proof {
            assert(r@ =~= Seq::<(Seq<u8>, Seq<u8>)>::empty());
        }
        r
    }

    /// How many entries the map holds.
    pub fn len(&self) -> (r: usize)
        ensures
            r == self@.len(),
    {
        self.entries.len()
    }

    /// The name of entry `i`.
    pub fn key_at(&self, i: usize) -> (r: &Vec<u8>)
        requires
            i < self@.len(),
        ensures
            r@ == self@[i as int].0,
    {
        &self.entries[i].0
    }

    /// The value of entry `i`.
    pub fn value_at(&self, i: usize) -> (r: &Vec<u8>)
        requires
            i < self@.len(),
        ensures
            r@ == self@[i as int].1,
    {
        &self.entries[i].1
    }

    /// Position of the entry named `k`, if any.
    pub fn find_key(&self, k: &[u8]) -> (r: Option<usize>)
        ensures
            match r {
                Some(i) => Some(i as int) == index_of_key(self@, k@),
                None => index_of_key(self@, k@) is None,
            },
    {
        proof {
            lemma_index_of_key(self@, k@);
        }
        let n: usize = self.entries.len();
        let mut i: usize = 0;
        while i < n
            invariant
                n == self@.len(),
                n == self.entries@.len(),
                i <= n,
                forall|j: int| 0 <= j < i ==> self@[j].0 != k@,
            decreases n - i,
        {
            if crate::scan::bytes_eq(self.entries[i].0.as_slice(), k) {
                proof {
                    lemma_index_of_key(self@, k@);
                    assert(self@[i as int].0 == k@);
                }
                return Some(i);
            }
            i = i + 1;
        }
        proof {
            lemma_index_of_key(self@, k@);
        }
        None
    }

    /// The value stored under `k`, if any.
    pub fn get(&self, k: &[u8]) -> (r: Option<&Vec<u8>>)
        ensures
            match r {
                Some(v) => index_of_key(self@, k@) matches Some(i) && v@ == self@[i].1,
                None => index_of_key(self@, k@) is None,
            },
    {
        proof {
            lemma_index_of_key(self@, k@);
        }
        match self.find_key(k) {
            Some(i) => Some(&self.entries[i].1),
            None => None,
        }
    }

    /// A copy of this map, holding its own bytes.
    pub fn duplicate(&self) -> (r: HeaderMap)
        ensures
            r@ == self@,
    {
        let mut entries: Vec<(Vec<u8>, Vec<u8>)> = Vec::new();
        let n: usize = self.entries.len();
        let mut i: usize = 0;
        while i < n
            invariant
                n == self.entries@.len(),
                i <= n,
                entries@.len() == i,
                forall|j: int|
                    0 <= j < i ==> entries@[j].0@ == self.entries@[j].0@ && entries@[j].1@
                        == self.entries@[j].1@,
            decreases n - i,
        {
            let klen: usize = self.entries[i].0.len();
            let k = crate::scan::copy_range(self.entries[i].0.as_slice(), 0, klen);
            let vlen: usize = self.entries[i].1.len();
            let v = crate::scan::copy_range(self.entries[i].1.as_slice(), 0, vlen);
            entries.push((k, v));
            i = i + 1;
        }
        let r = HeaderMap { entries };
        proof {
            assert(r@ =~~= self@);
        }
        r
    }

    /// Insert a pair; an entry already named `k` is overwritten in place.
    pub fn insert(&mut self, k: Vec<u8>, v: Vec<u8>)
        requires
            old(self).wf(),
        ensures
            final(self)@ == insert_pair(old(self)@, k@, v@),
            final(self).wf(),
    {
        proof {
            lemma_insert_pair_unique(old(self)@, k@, v@);
            lemma_index_of_key(old(self)@, k@);
        }
        match self.find_key(k.as_slice()) {
            Some(i) => {
                self.entries.remove(i);
                self.entries.insert(i, (k, v));
                proof {
                    lemma_index_of_key(old(self)@, k@);
                    assert(self@ =~= old(self)@.update(i as int, (k@, v@)));
                }
            },
            None => {
                self.entries.push((k, v));
                proof {
                    assert(self@ =~= old(self)@.push((k@, v@)));
                }
            },
        }
    }
}

} // verus!
