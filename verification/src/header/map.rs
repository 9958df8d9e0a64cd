//! An ordered collection of unique header keys and their (possibly
//! comma-merged) values.
use vstd::prelude::*;

use crate::header::key::{key_check, key_wf, Key};
use crate::header::value::{value_check, value_wf, Value};

verus! {

/// The model of a header collection: the stored entries in insertion
/// order, each a canonical key with its merged value.
pub type Entries = Seq<(Seq<char>, Seq<char>)>;

/// Whether some entry carries key `k`.
pub open spec fn has_key(m: Entries, k: Seq<char>) -> bool {
    exists|i: int| 0 <= i < m.len() && m[i].0 == k
}

/// The index of the entry carrying key `k` (unique when the entries are
/// well formed).
pub open spec fn index_of(m: Entries, k: Seq<char>) -> int {
    choose|i: int| 0 <= i < m.len() && m[i].0 == k
}

/// The value stored under key `k`.
pub open spec fn value_of(m: Entries, k: Seq<char>) -> Seq<char> {
    m[index_of(m, k)].1
}

/// Merging a validated value `v` under key `k`: when the key is present
/// already, `v` is appended to the existing value after a comma;
/// otherwise a fresh entry goes to the end.
pub open spec fn merge(m: Entries, k: Seq<char>, v: Seq<char>) -> Entries {
    if has_key(m, k) {
        let i = index_of(m, k);
        m.update(i, (k, m[i].1 + seq![','] + v))
    } else {
        m.push((k, v))
    }
}

/// Entry well-formedness: canonical keys, valid values, no key twice.
pub open spec fn entries_wf(m: Entries) -> bool {
    &&& forall|i: int| 0 <= i < m.len() ==> key_wf(#[trigger] m[i].0) && value_wf(m[i].1)
    &&& forall|i: int, j: int| 0 <= i < j < m.len() ==> (#[trigger] m[i].0) != (#[trigger] m[j].0)
}

/// A mapping from header keys to header values.  Keys are unique (and
/// case-insensitive, since a [`Key`] is stored lower-case); inserting
/// under a key that is already present merges the values per the HTTP
/// repeated-field rule.  Iteration order is insertion order, but callers
/// must not rely on it.
#[derive(Debug, PartialEq, Eq)]
pub struct HeaderMap {
    pub(crate) entries: Vec<(Key, Value)>,
}

impl View for HeaderMap {
    type V = Entries;

    closed spec fn view(&self) -> Entries {
        Seq::new(self.entries@.len(), |i: int| (self.entries@[i].0@, self.entries@[i].1@))
    }
}

impl Clone for HeaderMap {
    /// Cloning preserves every entry.
    fn clone(&self) -> (r: Self)
        ensures
            r@ == self@,
    {
        let n = self.entries.len();
        let mut entries: Vec<(Key, Value)> = Vec::new();
        let mut i: usize = 0;
        while i < n
            invariant
                0 <= i <= n,
                n == self@.len(),
                entries@.len() == i,
                forall|j: int|
                    0 <= j < i ==> (#[trigger] entries@[j]).0@ == self@[j].0 && entries@[j].1@
                        == self@[j].1,
            decreases n - i,
        {
            let k = self.entries[i].0.clone();
            let v = self.entries[i].1.clone();
            entries.push((k, v));
            i = i + 1;
        }
        let r = HeaderMap { entries };
        proof {
            assert(r@ =~= self@);
        }
        r
    }
}

impl HeaderMap {
    /// Every stored entry is well formed and no key repeats.
    pub open spec fn wf(&self) -> bool {
        entries_wf(self@)
    }

    /// An empty collection.
    pub fn new() -> (m: HeaderMap)
        ensures
            m@ == Seq::<(Seq<char>, Seq<char>)>::empty(),
            m.wf(),
    {
        let m = HeaderMap { entries: Vec::new() };
        proof {
            assert(m@ =~= Seq::<(Seq<char>, Seq<char>)>::empty());
        }
        m
    }

    /// How many distinct keys are stored.
    pub fn len(&self) -> (n: usize)
        ensures
            n == self@.len(),
    {
        self.entries.len()
    }

    /// The key of the entry at position `i`, in storage order.
    pub fn key_at(&self, i: usize) -> (r: &Key)
        requires
            i < self@.len(),
        ensures
            r@ == self@[i as int].0,
    {
        &self.entries[i].0
    }

    /// The value of the entry at position `i`, in storage order.
    pub fn value_at(&self, i: usize) -> (r: &Value)
        requires
            i < self@.len(),
        ensures
            r@ == self@[i as int].1,
    {
        &self.entries[i].1
    }

    /// Where key `k` is stored, if anywhere.
    fn position(&self, k: &Key) -> (r: Option<usize>)
        ensures
            match r {
                Some(i) => i < self@.len() && self@[i as int].0 == k@,
                None => !has_key(self@, k@),
            },
    {
        let n = self.entries.len();
        let mut i: usize = 0;
        while i < n
            invariant
                0 <= i <= n,
                n == self@.len(),
                forall|j: int| 0 <= j < i ==> self@[j].0 != k@,
            decreases n - i,
        {
            if crate::text::str_eq(self.entries[i].0.as_str(), k.as_str()) {
                return Some(i);
            }
            i = i + 1;
        }
        None
    }

    /// Looks a key up.
    pub fn get<'a>(&'a self, k: &Key) -> (r: Option<&'a Value>)
        requires
            self.wf(),
        ensures
            r is Some <==> has_key(self@, k@),
            r is Some ==> r->0@ == value_of(self@, k@),
    {
        match self.position(k) {
            Some(i) => Some(&self.entries[i].1),
            None => None,
        }
    }

    /// Looks a raw key up: the raw text is canonicalized first, exactly
    /// as construction would, so lookup is case-insensitive; a raw key
    /// that no [`Key`] accepts is simply absent.
    pub fn get_str<'a>(&'a self, s: &str) -> (r: Option<&'a Value>)
        requires
            self.wf(),
        ensures
            r is Some <==> (key_check(s@) is Ok && has_key(self@, key_check(s@)->Ok_0)),
            r is Some ==> r->0@ == value_of(self@, key_check(s@)->Ok_0),
    {
        match Key::new(s) {
            Ok(k) => self.get(&k),
            Err(_) => None,
        }
    }

    /// Inserts a raw value under `k`, merging per [`merge`]: the raw
    /// value is validated on its own; when the key is already present
    /// the cleaned value is comma-appended to the stored one.  On a
    /// validation error nothing changes.
    pub fn insert_merged(&mut self, k: Key, raw: &str) -> (r: Result<(), crate::header::ValueError>)
        requires
            old(self).wf(),
            k.wf(),
        ensures
            match value_check(raw@) {
                Ok(t) => r is Ok && final(self)@ == merge(old(self)@, k@, t) && final(self).wf(),
                Err(e) => r is Err && r->Err_0 == e && final(self)@ == old(self)@,
            },
    {
        match self.position(&k) {
            Some(i) => {
                let mut pair = self.entries.remove(i);
                let res = pair.1.append(raw);
                self.entries.insert(i, pair);
                proof {
                    let m = old(self)@;
                    assert(0 <= index_of(m, k@) < m.len() && m[index_of(m, k@)].0 == k@);
                    assert(index_of(m, k@) == i);
                    match value_check(raw@) {
                        Ok(t) => {
                            assert(final(self)@ =~= merge(m, k@, t));
                        },
                        Err(_) => {
                            assert(final(self)@ =~= m);
                        },
                    }
                }
                res
            },
            None => {
                match Value::new(raw) {
                    Ok(v) => {
                        self.entries.push((k, v));
                        proof {
                            let t = value_check(raw@)->Ok_0;
                            assert(final(self)@ =~= merge(old(self)@, k@, t));
                        }
                        Ok(())
                    },
                    Err(e) => Err(e),
                }
            },
        }
    }
}

} // verus!
