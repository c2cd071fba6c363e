//! The process-wide application-name cache.
//!
//! A mapping from `client_id` (a string of decimal digits) to application
//! metadata, only ever inserted into, never evicted.  The structure here is
//! the pure map; the surrounding runtime shares one instance under a
//! multi-reader / single-writer lock and fills it read-through from the
//! lookup interface.

use vstd::prelude::*;

verus! {

/// Metadata of an RPC application: its display name.
#[derive(Clone, Debug)]
pub struct ApplicationRpcData {
    pub name: String,
}

/// Whether some entry of `s` has the key `id`.
pub open spec fn contains_id(s: Seq<(String, String)>, id: Seq<char>) -> bool {
    exists|j: int| 0 <= j < s.len() && s[j].0@ == id
}

/// The position of the entry with key `id`.
pub open spec fn idx_of(s: Seq<(String, String)>, id: Seq<char>) -> int {
    choose|j: int| 0 <= j < s.len() && s[j].0@ == id
}

/// The value stored under key `id`.
pub open spec fn value_of(s: Seq<(String, String)>, id: Seq<char>) -> Seq<char> {
    s[idx_of(s, id)].1@
}

/// The application-name cache: `client_id` to display name, keys unique.
pub struct AppCache {
    entries: Vec<(String, String)>,
}

impl AppCache {
    /// The entries this cache holds, in insertion order.
    pub closed spec fn entries(self) -> Seq<(String, String)> {
        self.entries@
    }

    /// Keys are unique: at most one entry per `client_id`.
    pub open spec fn wf(self) -> bool {
        forall|i: int, j: int|
            0 <= i < j < self.entries().len() ==> self.entries()[i].0@ != self.entries()[j].0@
    }

    /// An empty cache.
    pub fn new() -> (c: AppCache)
        ensures
            c.wf(),
            c.entries().len() == 0,
    {
        AppCache { entries: Vec::new() }
    }

    /// Looks a `client_id` up: returns the cached display name exactly when
    /// one was inserted under that id.
    pub fn get(&self, id: &String) -> (r: Option<String>)
        requires
            self.wf(),
        ensures
            r is Some <==> contains_id(self.entries(), id@),
            r matches Some(n) ==> n@ == value_of(self.entries(), id@),
    {
        let len = self.entries.len();
        for i in 0..len
            invariant
                len == self.entries@.len(),
                self.wf(),
                forall|k: int| 0 <= k < i ==> self.entries@[k].0@ != id@,
        {
            if self.entries[i].0 == *id {
                proof {
                    lemma_idx_unique(self.entries(), id@, i as int);
                }
                return Some(self.entries[i].1.clone());
            }
        }
        None
    }

    /// Inserts a display name under a `client_id`.  An entry already under
    /// that id is replaced (the final writer wins); every other entry is
    /// untouched.
    pub fn insert(&mut self, id: String, name: String)
        requires
            old(self).wf(),
        ensures
            final(self).wf(),
            contains_id(final(self).entries(), id@),
            value_of(final(self).entries(), id@) == name@,
            forall|k: Seq<char>|
                k != id@ ==> (contains_id(final(self).entries(), k) <==> contains_id(
                    old(self).entries(),
                    k,
                )),
            forall|k: Seq<char>|
                k != id@ && contains_id(old(self).entries(), k) ==> value_of(
                    final(self).entries(),
                    k,
                ) == value_of(old(self).entries(), k),
    {
        let ghost s0 = self.entries();
        let len = self.entries.len();
        let mut at: Option<usize> = None;
        for i in 0..len
            invariant
                len == self.entries().len(),
                self.entries() == s0,
                self.wf(),
                at is None ==> (forall|k: int| 0 <= k < i ==> self.entries()[k].0@ != id@),
                at matches Some(p) ==> p < len && self.entries()[p as int].0@ == id@,
        {
            if at.is_none() && self.entries[i].0 == id {
                at = Some(i);
            }
        }
        let ghost removed: Seq<(String, String)> = match at {
            Option::Some(p) => s0.remove(p as int),
            Option::None => s0,
        };
        match at {
            Option::Some(p) => {
                self.entries.remove(p);
            },
            Option::None => {},
        }
        proof {
            assert(self.entries() == removed);
            assert(!contains_id(removed, id@)) by {
                if at is Some {
                    let p = at->0 as int;
                    assert forall|j: int| 0 <= j < removed.len() implies removed[j].0@ != id@ by {
                        if j < p {
                            assert(removed[j] == s0[j]);
                            lemma_idx_unique(s0, id@, p);
                        } else {
                            assert(removed[j] == s0[j + 1]);
                            lemma_idx_unique(s0, id@, p);
                        }
                    }
                } else {
                    assert(forall|j: int| 0 <= j < removed.len() ==> removed[j].0@ != id@);
                }
            }
        }
        self.entries.push((id, name));
        proof {
            let sf = self.entries();
            let n = sf.len() - 1;
            assert(sf[n].0@ == id@);
            lemma_idx_unique(sf, id@, n);
            assert forall|k: Seq<char>|
                k != id@ implies (contains_id(sf, k) <==> contains_id(s0, k)) by {
                if contains_id(sf, k) {
                    let j = choose|j: int| 0 <= j < sf.len() && sf[j].0@ == k;
                    assert(j < n);
                    assert(removed[j] == sf[j]);
                    lemma_removed_from(s0, removed, at, j);
                    let j0 = choose|j0: int| 0 <= j0 < s0.len() && s0[j0] == removed[j];
                    assert(s0[j0].0@ == k);
                }
                if contains_id(s0, k) {
                    let j = choose|j: int| 0 <= j < s0.len() && s0[j].0@ == k;
                    lemma_removed_to(s0, removed, at, j, id@);
                    let j2 = choose|j2: int| 0 <= j2 < removed.len() && removed[j2] == s0[j];
                    assert(sf[j2] == removed[j2]);
                    assert(sf[j2].0@ == k);
                }
            }
            assert forall|k: Seq<char>|
                k != id@ && contains_id(s0, k) implies value_of(sf, k) == value_of(s0, k) by {
                let j = choose|j: int| 0 <= j < s0.len() && s0[j].0@ == k;
                lemma_removed_to(s0, removed, at, j, id@);
                let j2 = choose|j2: int| 0 <= j2 < removed.len() && removed[j2] == s0[j];
                assert(sf[j2] == removed[j2]);
                lemma_idx_unique(sf, k, j2);
                lemma_idx_unique(s0, k, j);
                assert(value_of(sf, k) == removed[j2].1@);
                assert(value_of(s0, k) == s0[j].1@);
            }
        }
    }
}

/// With unique keys, the chosen index of a present key is the only one.
proof fn lemma_idx_unique(s: Seq<(String, String)>, id: Seq<char>, i: int)
    requires
        forall|x: int, y: int| 0 <= x < y < s.len() ==> s[x].0@ != s[y].0@,
        0 <= i < s.len(),
        s[i].0@ == id,
    ensures
        contains_id(s, id),
        idx_of(s, id) == i,
        value_of(s, id) == s[i].1@,
{
    let j = idx_of(s, id);
    assert(0 <= j < s.len() && s[j].0@ == id);
    if j != i {
        if j < i {
            assert(s[j].0@ != s[i].0@);
        } else {
            assert(s[i].0@ != s[j].0@);
        }
    }
}

/// An element of the sequence after removal stood in it before.
proof fn lemma_removed_from(
    s0: Seq<(String, String)>,
    removed: Seq<(String, String)>,
    at: Option<usize>,
    j: int,
)
    requires
        match at {
            Option::Some(p) => (p as int) < s0.len() && removed == s0.remove(p as int),
            Option::None => removed == s0,
        },
        0 <= j < removed.len(),
    ensures
        exists|j0: int| 0 <= j0 < s0.len() && s0[j0] == removed[j],
{
    match at {
        Option::Some(p) => {
            if j < p as int {
                assert(s0[j] == removed[j]);
            } else {
                assert(s0[j + 1] == removed[j]);
            }
        },
        Option::None => {
            assert(s0[j] == removed[j]);
        },
    }
}

/// An element other than the removed one survives into the
/// removal's result.
proof fn lemma_removed_to(
    s0: Seq<(String, String)>,
    removed: Seq<(String, String)>,
    at: Option<usize>,
    j: int,
    id: Seq<char>,
)
    requires
        match at {
            Option::Some(p) => (p as int) < s0.len() && removed == s0.remove(p as int) && s0[
                p as int
            ].0@ == id,
            Option::None => removed == s0,
        },
        0 <= j < s0.len(),
        s0[j].0@ != id,
    ensures
        exists|j2: int| 0 <= j2 < removed.len() && removed[j2] == s0[j],
{
    match at {
        Option::Some(p) => {
            let p = p as int;
            assert(j != p);
            if j < p {
                assert(removed[j] == s0[j]);
            } else {
                assert(removed[j - 1] == s0[j]);
            }
        },
        Option::None => {
            assert(removed[j] == s0[j]);
        },
    }
}

} // verus!
