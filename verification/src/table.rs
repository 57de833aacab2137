//! A small association table keyed by identity.

use crate::identity::Identity;
use vstd::prelude::*;

verus! {

/// One row of a table.
struct Entry<V> {
    key: Identity,
    value: V,
}

/// Whether row `i` of `rows` is the row of `key`.
spec fn row_of<V>(rows: Seq<Entry<V>>, key: Identity, i: int) -> bool {
    0 <= i < rows.len() && rows[i].key == key
}

/// No two rows share a key.
spec fn distinct_keys<V>(rows: Seq<Entry<V>>) -> bool {
    forall|i: int, j: int|
        0 <= i < rows.len() && 0 <= j < rows.len() && #[trigger] rows[i].key
            == #[trigger] rows[j].key ==> i == j
}

/// The map that a sequence of rows stands for.
spec fn rows_map<V>(rows: Seq<Entry<V>>) -> Map<Identity, V> {
    Map::new(
        |k: Identity| exists|i: int| row_of(rows, k, i),
        |k: Identity| rows[choose|i: int| row_of(rows, k, i)].value,
    )
}

/// A finite map from identities to values, kept as a list of rows with
/// pairwise distinct keys.
pub struct Table<V> {
    rows: Vec<Entry<V>>,
}

impl<V> Table<V> {
    #[verifier::type_invariant]
    spec fn distinct(self) -> bool {
        distinct_keys(self.rows@)
    }

    /// The map that the table holds.
    pub closed spec fn view(&self) -> Map<Identity, V> {
        rows_map(self.rows@)
    }
}

impl<V: Copy> Table<V> {

    /// The empty table.
    pub fn new() -> (t: Table<V>)
        ensures
            t@ == Map::<Identity, V>::empty(),
    {
        let t = Table { rows: Vec::new() };
        assert(t@ =~= Map::<Identity, V>::empty());
        t
    }

    fn position(&self, key: &Identity) -> (r: Option<usize>)
        ensures
            match r {
                Some(i) => row_of(self.rows@, *key, i as int),
                None => forall|i: int| !row_of(self.rows@, *key, i),
            },
    {
        let mut i: usize = 0;
        while i < self.rows.len()
            invariant
                i <= self.rows.len(),
                forall|j: int| 0 <= j < i ==> !row_of(self.rows@, *key, j),
            decreases self.rows.len() - i,
        {
            if self.rows[i].key.same(key) {
                return Some(i);
            }
            i = i + 1;
        }
        None
    }

    /// The value stored under `key`, if any.
    pub fn get(&self, key: &Identity) -> (r: Option<V>)
        ensures
            r == (if self@.contains_key(*key) {
                Some(self@[*key])
            } else {
                None
            }),
    {
        proof {
            use_type_invariant(self);
        }
        match self.position(key) {
            Some(i) => {
                assert(row_of(self.rows@, *key, i as int));
                Some(self.rows[i].value)
            },
            None => None,
        }
    }

    /// Whether a value is stored under `key`.
    pub fn contains(&self, key: &Identity) -> (r: bool)
        ensures
            r == self@.contains_key(*key),
    {
        match self.position(key) {
            Some(i) => {
                assert(row_of(self.rows@, *key, i as int));
                true
            },
            None => false,
        }
    }

    /// Store `value` under `key`, replacing what was there.
    pub fn set(&mut self, key: Identity, value: V)
        ensures
            final(self)@ == old(self)@.insert(key, value),
    {
        proof {
            use_type_invariant(&*self);
        }
        let found = self.position(&key);
        let mut rows: Vec<Entry<V>> = Vec::new();
        std::mem::swap(&mut rows, &mut self.rows);
        let ghost before = rows@;
        match found {
            Some(i) => {
                rows[i] = Entry { key, value };
                proof {
                    let after = rows@;
                    assert forall|k: Identity, j: int|
                        row_of(after, k, j) == row_of(before, k, j) by {}
                    assert(distinct_keys(after));
                    assert forall|k: Identity| #[trigger]
                        rows_map(after).contains_key(k) implies rows_map(
                        after,
                    )[k] == rows_map(before).insert(key, value)[k] by {
                        let j = choose|j: int| row_of(after, k, j);
                        assert(row_of(before, k, j));
                        let j0 = choose|j: int| row_of(before, k, j);
                        assert(j0 == j);
                        if k == key {
                            assert(row_of(before, key, i as int));
                            assert(j == i);
                        }
                    }
                    assert(rows_map(after) =~= rows_map(before).insert(key, value)) by {
                        assert(row_of(after, key, i as int));
                    }
                }
            },
            None => {
                rows.push(Entry { key, value });
                proof {
                    let after = rows@;
                    let n = before.len() as int;
                    assert(row_of(after, key, n));
                    assert forall|k: Identity, j: int| row_of(before, k, j) implies row_of(
                        after,
                        k,
                        j,
                    ) by {}
                    assert(distinct_keys(after)) by {
                        assert forall|a: int, b: int|
                            0 <= a < after.len() && 0 <= b < after.len() && after[a].key
                                == after[b].key implies a == b by {
                            if a < n && b < n {
                                assert(before[a].key == before[b].key);
                            } else if a < n {
                                assert(row_of(before, key, a));
                            } else if b < n {
                                assert(row_of(before, key, b));
                            }
                        }
                    }
                    assert forall|k: Identity| #[trigger]
                        rows_map(after).contains_key(k) implies rows_map(
                        before,
                    ).insert(key, value).contains_key(k) && rows_map(after)[k] == rows_map(
                        before,
                    ).insert(key, value)[k] by {
                        let j = choose|j: int| row_of(after, k, j);
                        if k == key {
                            assert(j == n);
                        } else {
                            assert(j < n);
                            assert(row_of(before, k, j));
                            let j0 = choose|j: int| row_of(before, k, j);
                            assert(row_of(after, k, j0));
                            assert(j0 == j);
                        }
                    }
                    assert forall|k: Identity| rows_map(before).insert(key, value).contains_key(k)
                        implies #[trigger] rows_map(after).contains_key(k) by {
                        if k != key {
                            let j0 = choose|j: int| row_of(before, k, j);
                            assert(row_of(after, k, j0));
                        }
                    }
                    assert(rows_map(after) =~= rows_map(before).insert(key, value));
                }
            },
        }
        self.rows = rows;
    }

    /// Drop whatever is stored under `key`.
    pub fn remove(&mut self, key: &Identity)
        ensures
            final(self)@ == old(self)@.remove(*key),
    {
        proof {
            use_type_invariant(&*self);
        }
        let found = self.position(key);
        match found {
            Some(i) => {
                let mut rows: Vec<Entry<V>> = Vec::new();
                std::mem::swap(&mut rows, &mut self.rows);
                let ghost before = rows@;
                rows.remove(i);
                proof {
                    let after = rows@;
                    let p = i as int;
                    assert forall|k: Identity, j: int| row_of(after, k, j) implies row_of(
                        before,
                        k,
                        if j < p {
                            j
                        } else {
                            j + 1
                        },
                    ) by {}
                    assert forall|k: Identity, j: int|
                        row_of(before, k, j) && j != p implies row_of(
                        after,
                        k,
                        if j < p {
                            j
                        } else {
                            j - 1
                        },
                    ) by {}
                    assert(distinct_keys(after)) by {
                        assert forall|a: int, b: int|
                            0 <= a < after.len() && 0 <= b < after.len() && after[a].key
                                == after[b].key implies a == b by {
                            let a0 = if a < p { a } else { a + 1 };
                            let b0 = if b < p { b } else { b + 1 };
                            assert(before[a0].key == before[b0].key);
                        }
                    }
                    assert forall|k: Identity| #[trigger]
                        rows_map(after).contains_key(k) implies k != *key
                        && rows_map(before).contains_key(k) && rows_map(after)[k] == rows_map(
                        before,
                    )[k] by {
                        let j = choose|j: int| row_of(after, k, j);
                        let j1 = if j < p { j } else { j + 1 };
                        assert(row_of(before, k, j1));
                        let j0 = choose|j: int| row_of(before, k, j);
                        assert(j0 == j1);
                        assert(row_of(before, *key, p));
                    }
                    assert forall|k: Identity| rows_map(before).remove(*key).contains_key(k)
                        implies #[trigger] rows_map(after).contains_key(k) by {
                        let j0 = choose|j: int| row_of(before, k, j);
                        assert(row_of(before, *key, p));
                        assert(j0 != p);
                        assert(row_of(after, k, if j0 < p { j0 } else { j0 - 1 }));
                    }
                    assert(rows_map(after) =~= rows_map(before).remove(*key));
                }
                self.rows = rows;
            },
            None => {
                assert(self@ =~= self@.remove(*key));
            },
        }
    }

    /// A copy of the table.
    pub fn duplicate(&self) -> (t: Table<V>)
        ensures
            t@ == self@,
    {
        proof {
            use_type_invariant(self);
        }
        let mut rows: Vec<Entry<V>> = Vec::new();
        let mut i: usize = 0;
        while i < self.rows.len()
            invariant
                i <= self.rows.len(),
                rows@ == self.rows@.subrange(0, i as int),
            decreases self.rows.len() - i,
        {
            rows.push(Entry { key: self.rows[i].key, value: self.rows[i].value });
            assert(rows@ =~= self.rows@.subrange(0, i as int + 1));
            i = i + 1;
        }
        assert(rows@ =~= self.rows@);
        Table { rows }
    }
}

} // verus!
