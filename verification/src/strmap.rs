//! A small association map keyed by strings, backed by parallel vectors.
//!
//! The engine keys every per-voice table by a stable string id. Lookups are
//! linear; the table sizes here are a handful of voices, so simplicity wins.
use vstd::prelude::*;

verus! {

/// No id occurs twice in `s`.
pub open spec fn unique_ids(s: Seq<Seq<char>>) -> bool {
    forall|i: int, j: int| 0 <= i < j < s.len() ==> s[i] !== s[j]
}

/// Some position of `s` holds `id`.
pub open spec fn seq_has_id(s: Seq<Seq<char>>, id: Seq<char>) -> bool {
    exists|i: int| 0 <= i < s.len() && s[i] == id
}

/// A map from string ids to values of `V`.
#[derive(Debug)]
pub struct StrMap<V> {
    keys: Vec<String>,
    vals: Vec<V>,
}

impl<V> StrMap<V> {
    /// The ids, in insertion order.
    pub closed spec fn keys_view(self) -> Seq<Seq<char>> {
        self.keys@.map_values(|s: String| s@)
    }

    /// The values, in insertion order.
    pub closed spec fn vals_view(self) -> Seq<V> {
        self.vals@
    }

    /// Keys and values are aligned and no id occurs twice.
    pub open spec fn wf(self) -> bool {
        &&& self.keys_view().len() == self.vals_view().len()
        &&& unique_ids(self.keys_view())
    }

    /// Number of entries.
    pub open spec fn len_spec(self) -> nat {
        self.keys_view().len()
    }

    /// Whether the map holds `id`.
    pub open spec fn has(self, id: Seq<char>) -> bool {
        seq_has_id(self.keys_view(), id)
    }

    /// The value stored under `id`; meaningful only when `has(id)`.
    pub open spec fn value_of(self, id: Seq<char>) -> V {
        self.vals_view()[self.index_of(id)]
    }

    /// The position of `id`; meaningful only when `has(id)`.
    pub open spec fn index_of(self, id: Seq<char>) -> int {
        choose|i: int| 0 <= i < self.keys_view().len() && self.keys_view()[i] == id
    }

    /// In a well-formed map, the entry at any position is the value of its
    /// key.
    pub proof fn lemma_at(self, i: int)
        requires
            self.wf(),
            0 <= i < self.len_spec(),
        ensures
            self.has(self.keys_view()[i]),
            self.index_of(self.keys_view()[i]) == i,
            self.value_of(self.keys_view()[i]) == self.vals_view()[i],
    {
        let id = self.keys_view()[i];
        assert(seq_has_id(self.keys_view(), id));
        let j = self.index_of(id);
        assert(0 <= j < self.keys_view().len() && self.keys_view()[j] == id);
        if i != j {
            assert(false);
        }
    }

    /// Replacing the value at one position keeps the map well formed,
    /// keeps every id, rebinds that position's key to the new value and
    /// leaves every other binding alone.
    pub proof fn lemma_update_at(pre: StrMap<V>, post: StrMap<V>, i: int, v: V)
        requires
            pre.wf(),
            0 <= i < pre.len_spec(),
            post.keys_view() == pre.keys_view(),
            post.vals_view() == pre.vals_view().update(i, v),
        ensures
            post.wf(),
            forall|id: Seq<char>| post.has(id) == pre.has(id),
            post.has(pre.keys_view()[i]),
            post.value_of(pre.keys_view()[i]) == v,
            forall|id: Seq<char>|
                id !== pre.keys_view()[i] && pre.has(id) ==> post.value_of(id)
                    == pre.value_of(id),
    {
        pre.lemma_at(i);
        post.lemma_at(i);
        assert forall|id: Seq<char>|
            id !== pre.keys_view()[i] && pre.has(id) implies post.value_of(id) == pre.value_of(
            id,
        ) by {
            let k = pre.index_of(id);
            pre.lemma_at(k);
            post.lemma_at(k);
        }
    }

    /// An empty map.
    pub fn new() -> (r: StrMap<V>)
        ensures
            r.wf(),
            r.len_spec() == 0,
            forall|id: Seq<char>| !r.has(id),
    {
        StrMap { keys: Vec::new(), vals: Vec::new() }
    }

    /// Number of entries.
    pub fn len(&self) -> (r: usize)
        requires
            self.wf(),
        ensures
            r == self.len_spec(),
    {
        self.keys.len()
    }

    /// Position of `id`, if present.
    pub fn find(&self, id: &String) -> (r: Option<usize>)
        requires
            self.wf(),
        ensures
            match r {
                Some(i) => {
                    &&& self.has(id@)
                    &&& i == self.index_of(id@)
                    &&& 0 <= i < self.len_spec()
                    &&& self.keys_view()[i as int] == id@
                },
                None => !self.has(id@),
            },
    {
        let n = self.keys.len();
        let mut i: usize = 0;
        while i < n
            invariant
                self.wf(),
                n == self.len_spec(),
                i <= n,
                forall|k: int| 0 <= k < i ==> self.keys_view()[k] !== id@,
            decreases n - i,
        {
            let hit = self.keys[i] == *id;
            proof {
                assert(self.keys_view()[i as int] == self.keys@[i as int]@);
            }
            if hit {
                proof {
                    self.lemma_at(i as int);
                }
                return Some(i);
            }
            i += 1;
        }
        proof {
            assert(!seq_has_id(self.keys_view(), id@));
        }
        None
    }

    /// Whether the map holds `id`.
    pub fn contains(&self, id: &String) -> (r: bool)
        requires
            self.wf(),
        ensures
            r == self.has(id@),
    {
        self.find(id).is_some()
    }

    /// Shared access to the value under `id`.
    pub fn get(&self, id: &String) -> (r: Option<&V>)
        requires
            self.wf(),
        ensures
            match r {
                Some(v) => self.has(id@) && *v == self.value_of(id@),
                None => !self.has(id@),
            },
    {
        match self.find(id) {
            Some(i) => Some(&self.vals[i]),
            None => None,
        }
    }

    /// The id at position `i`.
    pub fn key_at(&self, i: usize) -> (r: &String)
        requires
            self.wf(),
            i < self.len_spec(),
        ensures
            r@ == self.keys_view()[i as int],
    {
        &self.keys[i]
    }

    /// Shared access to the value at position `i`.
    pub fn val_at(&self, i: usize) -> (r: &V)
        requires
            self.wf(),
            i < self.len_spec(),
        ensures
            *r == self.vals_view()[i as int],
            *r == self.value_of(self.keys_view()[i as int]),
    {
        proof {
            self.lemma_at(i as int);
        }
        &self.vals[i]
    }

    /// Exclusive access to the value at position `i`; the keys are left
    /// alone and only that slot changes.
    pub fn val_at_mut(&mut self, i: usize) -> (r: &mut V)
        requires
            old(self).wf(),
            i < old(self).len_spec(),
        ensures
            *r == old(self).vals_view()[i as int],
            final(self).keys_view() == old(self).keys_view(),
            final(self).vals_view() == old(self).vals_view().update(i as int, *final(r)),
            final(self).wf(),
    {
        &mut self.vals[i]
    }

    /// Store `v` under `id`, replacing any previous value.
    pub fn set(&mut self, id: &String, v: V)
        requires
            old(self).wf(),
        ensures
            final(self).wf(),
            final(self).has(id@),
            final(self).value_of(id@) == v,
            forall|other: Seq<char>|
                other !== id@ ==> final(self).has(other) == old(self).has(other),
            forall|other: Seq<char>|
                other !== id@ && old(self).has(other) ==> final(self).value_of(other)
                    == old(self).value_of(other),
            final(self).len_spec() == if old(self).has(id@) {
                old(self).len_spec()
            } else {
                old(self).len_spec() + 1
            },
    {
        let found = self.find(id);
        match found {
            Some(i) => {
                proof {
                    assert(self.keys_view()[i as int] == id@);
                }
                let slot = &mut self.vals[i];
                *slot = v;
                proof {
                    let post = *self;
                    let pre = *old(self);
                    assert(post.keys_view() == pre.keys_view());
                    assert(post.vals_view() =~= pre.vals_view().update(i as int, v));
                    assert(post.has(id@));
                    assert(post.index_of(id@) == i) by {
                        let j = post.index_of(id@);
                        assert(0 <= j < post.keys_view().len() && post.keys_view()[j] == id@);
                        if j != i {
                            assert(false);
                        }
                    }
                    assert forall|other: Seq<char>|
                        other !== id@ && pre.has(other) implies post.value_of(other)
                        == pre.value_of(other) by {
                        let j = pre.index_of(other);
                        assert(0 <= j < pre.keys_view().len() && pre.keys_view()[j] == other);
                        assert(post.index_of(other) == j) by {
                            let k = post.index_of(other);
                            assert(post.keys_view()[k] == other);
                            if k != j {
                                assert(false);
                            }
                        }
                        assert(j != i);
                    }
                }
            },
            None => {
                self.keys.push(id.clone());
                self.vals.push(v);
                proof {
                    let post = *self;
                    let pre = *old(self);
                    let n = pre.keys_view().len() as int;
                    assert(post.keys_view() =~= pre.keys_view().push(id@));
                    assert(post.vals_view() =~= pre.vals_view().push(v));
                    assert(post.keys_view()[n] == id@);
                    assert(unique_ids(post.keys_view()));
                    assert(post.has(id@));
                    assert(post.index_of(id@) == n) by {
                        let k = post.index_of(id@);
                        assert(post.keys_view()[k] == id@);
                        if k != n {
                            assert(pre.keys_view()[k] == id@);
                            assert(pre.has(id@));
                            assert(false);
                        }
                    }
                    assert forall|other: Seq<char>|
                        other !== id@ implies post.has(other) == pre.has(other) by {
                        if post.has(other) {
                            let k = post.index_of(other);
                            assert(post.keys_view()[k] == other);
                            assert(k != n);
                            assert(pre.keys_view()[k] == other);
                        }
                        if pre.has(other) {
                            let k = pre.index_of(other);
                            assert(pre.keys_view()[k] == other);
                            assert(post.keys_view()[k] == other);
                        }
                    }
                    assert forall|other: Seq<char>|
                        other !== id@ && pre.has(other) implies post.value_of(other)
                        == pre.value_of(other) by {
                        let j = pre.index_of(other);
                        assert(0 <= j < pre.keys_view().len() && pre.keys_view()[j] == other);
                        assert(post.keys_view()[j] == other);
                        assert(post.index_of(other) == j) by {
                            let k = post.index_of(other);
                            assert(post.keys_view()[k] == other);
                            if k != j {
                                assert(false);
                            }
                        }
                    }
                }
            },
        }
    }

    /// Drop the entry under `id`, if any; every other entry stays.
    pub fn remove(&mut self, id: &String)
        requires
            old(self).wf(),
        ensures
            final(self).wf(),
            !final(self).has(id@),
            forall|other: Seq<char>|
                other !== id@ ==> final(self).has(other) == old(self).has(other),
            forall|other: Seq<char>|
                other !== id@ && old(self).has(other) ==> final(self).value_of(other)
                    == old(self).value_of(other),
            final(self).len_spec() == if old(self).has(id@) {
                (old(self).len_spec() - 1) as nat
            } else {
                old(self).len_spec()
            },
    {
        let found = self.find(id);
        match found {
            Some(i) => {
                self.keys.remove(i);
                self.vals.remove(i);
                proof {
                    let post = *self;
                    let pre = *old(self);
                    let n = pre.keys_view().len() as int;
                    assert(post.keys_view() =~= pre.keys_view().remove(i as int));
                    assert(post.vals_view() =~= pre.vals_view().remove(i as int));
                    assert(forall|k: int|
                        0 <= k < i ==> post.keys_view()[k] == pre.keys_view()[k]);
                    assert(forall|k: int|
                        i <= k < n - 1 ==> post.keys_view()[k] == pre.keys_view()[k + 1]);
                    assert(unique_ids(post.keys_view()));
                    assert(!post.has(id@)) by {
                        if post.has(id@) {
                            let k = post.index_of(id@);
                            assert(post.keys_view()[k] == id@);
                            if k < i {
                                assert(pre.keys_view()[k] == id@);
                            } else {
                                assert(pre.keys_view()[k + 1] == id@);
                            }
                            assert(false);
                        }
                    }
                    assert forall|other: Seq<char>|
                        other !== id@ implies post.has(other) == pre.has(other) by {
                        if post.has(other) {
                            let k = post.index_of(other);
                            assert(post.keys_view()[k] == other);
                            if k < i {
                                assert(pre.keys_view()[k] == other);
                            } else {
                                assert(pre.keys_view()[k + 1] == other);
                            }
                        }
                        if pre.has(other) {
                            let k = pre.index_of(other);
                            assert(pre.keys_view()[k] == other);
                            assert(k != i);
                            if k < i {
                                assert(post.keys_view()[k] == other);
                            } else {
                                assert(post.keys_view()[k - 1] == other);
                            }
                        }
                    }
                    assert forall|other: Seq<char>|
                        other !== id@ && pre.has(other) implies post.value_of(other)
                        == pre.value_of(other) by {
                        let j = pre.index_of(other);
                        assert(0 <= j < n && pre.keys_view()[j] == other);
                        assert(j != i);
                        let j2: int = if j < i { j } else { j - 1 };
                        assert(post.keys_view()[j2] == other);
                        assert(post.vals_view()[j2] == pre.vals_view()[j]);
                        assert(post.index_of(other) == j2) by {
                            let k = post.index_of(other);
                            assert(post.keys_view()[k] == other);
                            if k != j2 {
                                post.lemma_at(k);
                                post.lemma_at(j2);
                                assert(false);
                            }
                        }
                    }
                }
            },
            None => {},
        }
    }
}

} // verus!
