use vstd::prelude::*;

use crate::account::AccountId;
use crate::id::{duplicate_opt, opt_id_view, same_opt, Id, IdView};

verus! {

/// A type usable as a key of a `Mapping`: keys are compared and copied by
/// their mathematical value.
pub trait StorageKey: Sized {
    type KeyModel;

    spec fn key_model(&self) -> Self::KeyModel;

    fn same_key(&self, other: &Self) -> (r: bool)
        ensures
            r == (self.key_model() == other.key_model()),
    ;

    fn copy_key(&self) -> (r: Self)
        ensures
            r.key_model() == self.key_model(),
    ;
}

impl StorageKey for AccountId {
    type KeyModel = Seq<u8>;

    open spec fn key_model(&self) -> Seq<u8> {
        self@
    }

    fn same_key(&self, other: &Self) -> (r: bool) {
        self.same(other)
    }

    fn copy_key(&self) -> (r: Self) {
        *self
    }
}

impl StorageKey for Id {
    type KeyModel = IdView;

    open spec fn key_model(&self) -> IdView {
        self@
    }

    fn same_key(&self, other: &Self) -> (r: bool) {
        self.same(other)
    }

    fn copy_key(&self) -> (r: Self) {
        self.duplicate()
    }
}

impl StorageKey for (AccountId, Id) {
    type KeyModel = (Seq<u8>, IdView);

    open spec fn key_model(&self) -> (Seq<u8>, IdView) {
        (self.0@, self.1@)
    }

    fn same_key(&self, other: &Self) -> (r: bool) {
        self.0.same(&other.0) && self.1.same(&other.1)
    }

    fn copy_key(&self) -> (r: Self) {
        (self.0, self.1.duplicate())
    }
}

impl StorageKey for (AccountId, AccountId, Option<Id>) {
    type KeyModel = (Seq<u8>, Seq<u8>, Option<IdView>);

    open spec fn key_model(&self) -> (Seq<u8>, Seq<u8>, Option<IdView>) {
        (self.0@, self.1@, opt_id_view(self.2))
    }

    fn same_key(&self, other: &Self) -> (r: bool) {
        self.0.same(&other.0) && self.1.same(&other.1) && same_opt(&self.2, &other.2)
    }

    fn copy_key(&self) -> (r: Self) {
        (self.0, self.1, duplicate_opt(&self.2))
    }
}

/// The value stored under `k` in `m`, if any.
pub open spec fn lookup<A, B>(m: Map<A, B>, k: A) -> Option<B> {
    if m.contains_key(k) {
        Some(m[k])
    } else {
        None
    }
}

/// The value stored under `k` in `m`, or zero where nothing is stored.
pub open spec fn lookup_or_zero<A>(m: Map<A, u128>, k: A) -> u128 {
    if m.contains_key(k) {
        m[k]
    } else {
        0
    }
}

/// A key-value table with get, insert and remove, holding at most one entry
/// per key.
pub struct Mapping<K: StorageKey, Value> {
    entries: Vec<(K, Value)>,
    contents: Ghost<Map<K::KeyModel, Value>>,
}

impl<K: StorageKey, Value> View for Mapping<K, Value> {
    type V = Map<K::KeyModel, Value>;

    closed spec fn view(&self) -> Map<K::KeyModel, Value> {
        self.contents@
    }
}

impl<K: StorageKey, Value: Copy> Mapping<K, Value> {
    /// The table's invariant: keys are unique and the entries are exactly
    /// the contents.
    pub closed spec fn wf(&self) -> bool {
        &&& forall|i: int, j: int|
            0 <= i < j < self.entries@.len() ==> #[trigger] self.entries@[i].0.key_model()
                != #[trigger] self.entries@[j].0.key_model()
        &&& forall|i: int|
            0 <= i < self.entries@.len() ==> self.contents@.contains_key(
                #[trigger] self.entries@[i].0.key_model(),
            ) && self.contents@[self.entries@[i].0.key_model()] == self.entries@[i].1
        &&& forall|k: K::KeyModel| #[trigger]
            self.contents@.contains_key(k) ==> exists|i: int|
                0 <= i < self.entries@.len() && #[trigger] self.entries@[i].0.key_model() == k
    }

    /// An empty table.
    pub fn new() -> (r: Self)
        ensures
            r.wf(),
            r@ == Map::<K::KeyModel, Value>::empty(),
    {
        Mapping { entries: Vec::new(), contents: Ghost(Map::empty()) }
    }

    fn position(&self, k: &K) -> (r: Option<usize>)
        requires
            self.wf(),
        ensures
            match r {
                Some(i) => i < self.entries@.len() && self.entries@[i as int].0.key_model()
                    == k.key_model(),
                None => !self@.contains_key(k.key_model()),
            },
    {
        let mut i: usize = 0;
        while i < self.entries.len()
            invariant
                self.wf(),
                0 <= i <= self.entries@.len(),
                forall|j: int| 0 <= j < i ==> self.entries@[j].0.key_model() != k.key_model(),
            decreases self.entries@.len() - i,
        {
            if self.entries[i].0.same_key(k) {
                return Some(i);
            }
            i += 1;
        }
        None
    }

    /// The value stored under `k`, if any.
    pub fn get(&self, k: &K) -> (r: Option<Value>)
        requires
            self.wf(),
        ensures
            r == lookup(self@, k.key_model()),
    {
        match self.position(k) {
            Some(i) => Some(self.entries[i].1),
            None => None,
        }
    }

    /// Stores `v` under `k`, replacing any value stored there.
    pub fn insert(&mut self, k: K, v: Value)
        requires
            old(self).wf(),
        ensures
            final(self).wf(),
            final(self)@ == old(self)@.insert(k.key_model(), v),
    {
        let ghost km = k.key_model();
        let pos = self.position(&k);
        match pos {
            Some(i) => {
                self.entries.set(i, (k, v));
            },
            None => {
                self.entries.push((k, v));
            },
        }
        self.contents = Ghost(self.contents@.insert(km, v));
        proof {
            let idx: int = match pos {
                Some(i) => i as int,
                None => self.entries@.len() - 1,
            };
            assert(self.entries@[idx].0.key_model() == km);
            assert forall|key: K::KeyModel| #[trigger]
                self.contents@.contains_key(key) implies exists|j: int|
                    0 <= j < self.entries@.len() && #[trigger] self.entries@[j].0.key_model()
                        == key by {
                if key != km {
                    let j = choose|j: int|
                        0 <= j < old(self).entries@.len() && #[trigger] old(
                            self,
                        ).entries@[j].0.key_model() == key;
                    assert(self.entries@[j].0.key_model() == key);
                }
            }
        }
    }

    /// Removes whatever is stored under `k`.
    pub fn remove(&mut self, k: &K)
        requires
            old(self).wf(),
        ensures
            final(self).wf(),
            final(self)@ == old(self)@.remove(k.key_model()),
    {
        let ghost km = k.key_model();
        match self.position(k) {
            Some(i) => {
                self.entries.remove(i);
                self.contents = Ghost(self.contents@.remove(km));
                proof {
                    assert forall|j: int| 0 <= j < self.entries@.len() implies
                        #[trigger] self.entries@[j] == old(self).entries@[if j < i { j } else { j + 1 }] by {}
                    assert forall|key: K::KeyModel| #[trigger]
                        self.contents@.contains_key(key) implies exists|j: int|
                            0 <= j < self.entries@.len() && #[trigger] self.entries@[j].0.key_model()
                                == key by {
                        let j = choose|j: int|
                            0 <= j < old(self).entries@.len() && #[trigger] old(
                                self,
                            ).entries@[j].0.key_model() == key;
                        if j < i {
                            assert(self.entries@[j].0.key_model() == key);
                        } else {
                            assert(j != i);
                            assert(self.entries@[j - 1].0.key_model() == key);
                        }
                    }
                }
            },
            None => {
                assert(self.contents@.remove(km) =~= self.contents@);
            },
        }
    }
}

} // verus!
