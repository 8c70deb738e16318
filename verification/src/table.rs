//! A small keyed table: string keys in insertion order, one item per key.
//!
//! The session registry and the environment registry are both built on it.

use vstd::prelude::*;

verus! {

/// The mathematical content of a [`Table`]: the keys in insertion order and,
/// at the same positions, the items stored under them.
pub struct TableModel<T> {
    pub keys: Seq<Seq<char>>,
    pub items: Seq<T>,
}

impl<T> TableModel<T> {
    /// Every key has one item, and no key occurs twice.
    pub open spec fn wf(self) -> bool {
        &&& self.keys.len() == self.items.len()
        &&& self.keys.no_duplicates()
    }

    pub open spec fn empty() -> Self {
        TableModel { keys: Seq::empty(), items: Seq::empty() }
    }

    pub open spec fn len(self) -> nat {
        self.keys.len()
    }

    pub open spec fn contains(self, key: Seq<char>) -> bool {
        self.keys.contains(key)
    }

    /// The position of `key`; meaningful where the table contains it.
    pub open spec fn position(self, key: Seq<char>) -> int {
        self.keys.index_of(key)
    }

    /// The item stored under `key`; meaningful where the table contains it.
    pub open spec fn get(self, key: Seq<char>) -> T {
        self.items[self.position(key)]
    }

    /// Adds a new key at the end; a table that already has the key is unchanged.
    pub open spec fn insert(self, key: Seq<char>, item: T) -> Self {
        if self.contains(key) {
            self
        } else {
            TableModel { keys: self.keys.push(key), items: self.items.push(item) }
        }
    }

    /// Stores `item` under `key`, replacing the item of a key already present.
    pub open spec fn put(self, key: Seq<char>, item: T) -> Self {
        if self.contains(key) {
            TableModel { keys: self.keys, items: self.items.update(self.position(key), item) }
        } else {
            TableModel { keys: self.keys.push(key), items: self.items.push(item) }
        }
    }

    /// Takes `key` and its item out; a table without the key is unchanged.
    pub open spec fn remove(self, key: Seq<char>) -> Self {
        if self.contains(key) {
            TableModel {
                keys: self.keys.remove(self.position(key)),
                items: self.items.remove(self.position(key)),
            }
        } else {
            self
        }
    }

    /// In a well-formed table a key is found at the one position that holds it.
    pub proof fn lemma_position(self, key: Seq<char>, i: int)
        requires
            self.wf(),
            0 <= i < self.keys.len(),
            self.keys[i] == key,
        ensures
            self.contains(key),
            self.position(key) == i,
    {
        let j = self.keys.index_of(key);
        assert(self.keys[j] == key);
    }

    /// The position of a key that the table contains is in range and holds the key.
    pub proof fn lemma_position_in_range(self, key: Seq<char>)
        requires
            self.contains(key),
        ensures
            0 <= self.position(key) < self.keys.len(),
            self.keys[self.position(key)] == key,
    {
    }

    /// `insert`, `put` and `remove` keep a table well-formed.
    pub proof fn lemma_ops_keep_wf(self, key: Seq<char>, item: T)
        requires
            self.wf(),
        ensures
            self.insert(key, item).wf(),
            self.put(key, item).wf(),
            self.remove(key).wf(),
    {
        if self.contains(key) {
            let p = self.position(key);
            let ks = self.keys.remove(p);
            assert forall|i: int, j: int| 0 <= i < ks.len() && 0 <= j < ks.len() && i != j implies ks[i] != ks[j] by {
                let ii = if i < p { i } else { i + 1 };
                let jj = if j < p { j } else { j + 1 };
                assert(ks[i] == self.keys[ii]);
                assert(ks[j] == self.keys[jj]);
            }
        } else {
            let ks = self.keys.push(key);
            assert forall|i: int, j: int| 0 <= i < ks.len() && 0 <= j < ks.len() && i != j implies ks[i] != ks[j] by {
                if i < self.keys.len() {
                    assert(self.keys.contains(ks[i]));
                }
                if j < self.keys.len() {
                    assert(self.keys.contains(ks[j]));
                }
            }
        }
    }

    /// After `remove`, the key is gone and every other key is where it was found before.
    pub proof fn lemma_remove(self, key: Seq<char>)
        requires
            self.wf(),
        ensures
            !self.remove(key).contains(key),
            forall|other: Seq<char>| other != key ==> (#[trigger] self.remove(key).contains(other) <==> self.contains(other)),
            forall|other: Seq<char>| other != key && self.contains(other) ==> #[trigger] self.remove(key).get(other) == self.get(other),
    {
        self.lemma_ops_keep_wf(key, arbitrary());
        if self.contains(key) {
            let p = self.position(key);
            let after = self.remove(key);
            if after.contains(key) {
                let q = after.keys.index_of(key);
                let qq = if q < p { q } else { q + 1 };
                assert(after.keys[q] == self.keys[qq]);
                assert(false);
            }
            assert forall|other: Seq<char>| other != key implies (#[trigger] after.contains(other) <==> self.contains(other)) by {
                if self.contains(other) {
                    let o = self.position(other);
                    let oo = if o < p { o } else { o - 1 };
                    assert(after.keys[oo] == other);
                }
                if after.contains(other) {
                    let q = after.keys.index_of(other);
                    let qq = if q < p { q } else { q + 1 };
                    assert(self.keys[qq] == other);
                }
            }
            assert forall|other: Seq<char>| other != key && self.contains(other) implies #[trigger] after.get(other) == self.get(other) by {
                let o = self.position(other);
                let oo = if o < p { o } else { o - 1 };
                assert(after.keys[oo] == other);
                after.lemma_position(other, oo);
            }
        }
    }

    /// After `put`, the key holds the new item, and every other key is
    /// contained as before, with its item.
    pub proof fn lemma_put(self, key: Seq<char>, item: T)
        requires
            self.wf(),
        ensures
            self.put(key, item).contains(key),
            self.put(key, item).get(key) == item,
            forall|other: Seq<char>| other != key ==> (#[trigger] self.put(key, item).contains(other) <==> self.contains(other)),
            forall|other: Seq<char>| other != key && self.contains(other) ==> #[trigger] self.put(key, item).get(other) == self.get(other),
    {
        if self.contains(key) {
            let p = self.position(key);
            let after = self.put(key, item);
            assert(after.keys[p] == key);
            assert forall|other: Seq<char>| other != key && self.contains(other) implies #[trigger] after.get(other) == self.get(other) by {
                let o = self.position(other);
                assert(after.keys[o] == other);
            }
        } else {
            self.lemma_insert(key, item);
        }
    }

    /// After `insert` of a key that was absent, the key holds the new item;
    /// every key is contained afterwards that was before, with its item.
    pub proof fn lemma_insert(self, key: Seq<char>, item: T)
        requires
            self.wf(),
        ensures
            self.insert(key, item).contains(key),
            !self.contains(key) ==> self.insert(key, item).get(key) == item,
            forall|other: Seq<char>| other != key ==> (#[trigger] self.insert(key, item).contains(other) <==> self.contains(other)),
            forall|other: Seq<char>| other != key && self.contains(other) ==> #[trigger] self.insert(key, item).get(other) == self.get(other),
    {
        self.lemma_ops_keep_wf(key, item);
        let after = self.insert(key, item);
        if !self.contains(key) {
            assert(after.keys[self.keys.len() as int] == key);
            after.lemma_position(key, self.keys.len() as int);
            assert forall|other: Seq<char>| other != key implies (#[trigger] after.contains(other) <==> self.contains(other)) by {
                if self.contains(other) {
                    let o = self.position(other);
                    assert(after.keys[o] == other);
                }
                if after.contains(other) {
                    let q = after.keys.index_of(other);
                    assert(self.keys[q] == other);
                }
            }
            assert forall|other: Seq<char>| other != key && self.contains(other) implies #[trigger] after.get(other) == self.get(other) by {
                let o = self.position(other);
                assert(after.keys[o] == other);
                after.lemma_position(other, o);
            }
        }
    }
}

/// String keys in insertion order, one item per key.
#[derive(Debug)]
pub struct Table<T> {
    keys: Vec<String>,
    items: Vec<T>,
}

impl<T> View for Table<T> {
    type V = TableModel<T>;

    closed spec fn view(&self) -> TableModel<T> {
        TableModel { keys: self.keys.deep_view(), items: self.items@ }
    }
}

impl<T> Table<T> {
    pub open spec fn wf(&self) -> bool {
        self@.wf()
    }

    pub fn new() -> (r: Self)
        ensures
            r.wf(),
            r@ == TableModel::<T>::empty(),
    {
        let r = Table { keys: Vec::new(), items: Vec::new() };
        assert(r.keys.deep_view() =~= Seq::<Seq<char>>::empty());
        r
    }

    pub fn len(&self) -> (r: usize)
        requires
            self.wf(),
        ensures
            r == self@.len(),
    {
        self.items.len()
    }

    fn find(&self, key: &String) -> (r: Option<usize>)
        requires
            self.wf(),
        ensures
            r is Some <==> self@.contains(key@),
            r is Some ==> r->0 == self@.position(key@) && r->0 < self@.len(),
    {
        let mut i: usize = 0;
        while i < self.keys.len()
            invariant
                self.wf(),
                i <= self.keys@.len(),
                forall|j: int| 0 <= j < i ==> self.keys@[j]@ != key@,
            decreases self.keys@.len() - i,
        {
            if self.keys[i] == *key {
                proof {
                    assert(self@.keys[i as int] == key@);
                    self@.lemma_position(key@, i as int);
                }
                return Some(i);
            }
            i += 1;
        }
        assert(forall|j: int| 0 <= j < self@.keys.len() ==> self@.keys[j] == self.keys@[j]@);
        None
    }

    pub fn contains(&self, key: &String) -> (r: bool)
        requires
            self.wf(),
        ensures
            r == self@.contains(key@),
    {
        self.find(key).is_some()
    }

    pub fn get(&self, key: &String) -> (r: Option<&T>)
        requires
            self.wf(),
        ensures
            r is Some <==> self@.contains(key@),
            r is Some ==> *r->0 == self@.get(key@),
    {
        match self.find(key) {
            Some(i) => Some(&self.items[i]),
            None => None,
        }
    }

    pub fn get_mut(&mut self, key: &String) -> (r: Option<&mut T>)
        requires
            old(self).wf(),
        ensures
            r is Some <==> old(self)@.contains(key@),
            r is Some ==> *r->0 == old(self)@.get(key@) && final(self)@ == old(self)@.put(key@, *final(r->0)),
            r is None ==> final(self)@ == old(self)@,
    {
        match self.find(key) {
            Some(i) => Some(&mut self.items[i]),
            None => None,
        }
    }

    /// Adds `item` under `key` where the key is new; hands the item back where it is not.
    pub fn insert(&mut self, key: String, item: T) -> (r: Option<T>)
        requires
            old(self).wf(),
        ensures
            final(self).wf(),
            final(self)@ == old(self)@.insert(key@, item),
            r is Some <==> old(self)@.contains(key@),
            r is Some ==> r->0 == item,
    {
        match self.find(&key) {
            Some(_) => Some(item),
            None => {
                proof {
                    self@.lemma_ops_keep_wf(key@, item);
                }
                self.keys.push(key);
                self.items.push(item);
                assert(self.keys.deep_view() =~= old(self).keys.deep_view().push(key@));
                None
            },
        }
    }

    /// Stores `item` under `key`; hands back the item that it replaces, if any.
    pub fn put(&mut self, key: String, item: T) -> (r: Option<T>)
        requires
            old(self).wf(),
        ensures
            final(self).wf(),
            final(self)@ == old(self)@.put(key@, item),
            r is Some <==> old(self)@.contains(key@),
            r is Some ==> r->0 == old(self)@.get(key@),
    {
        proof {
            self@.lemma_ops_keep_wf(key@, item);
        }
        match self.find(&key) {
            Some(i) => {
                self.items.push(item);
                let previous = self.items.swap_remove(i);
                assert(self.items@ =~= old(self).items@.update(i as int, item));
                Some(previous)
            },
            None => {
                self.keys.push(key);
                self.items.push(item);
                assert(self.keys.deep_view() =~= old(self).keys.deep_view().push(key@));
                None
            },
        }
    }

    /// Takes `key` and its item out of the table.
    pub fn remove(&mut self, key: &String) -> (r: Option<T>)
        requires
            old(self).wf(),
        ensures
            final(self).wf(),
            final(self)@ == old(self)@.remove(key@),
            r is Some <==> old(self)@.contains(key@),
            r is Some ==> r->0 == old(self)@.get(key@),
    {
        proof {
            self@.lemma_ops_keep_wf(key@, arbitrary());
        }
        match self.find(key) {
            Some(i) => {
                let _ = self.keys.remove(i);
                let item = self.items.remove(i);
                assert(self.keys.deep_view() =~= old(self).keys.deep_view().remove(i as int));
                Some(item)
            },
            None => None,
        }
    }

    /// The key at position `i`.
    pub fn key_at(&self, i: usize) -> (r: &String)
        requires
            self.wf(),
            i < self@.len(),
        ensures
            r@ == self@.keys[i as int],
    {
        &self.keys[i]
    }

    /// The item at position `i`.
    pub fn item_at(&self, i: usize) -> (r: &T)
        requires
            self.wf(),
            i < self@.len(),
        ensures
            *r == self@.items[i as int],
    {
        &self.items[i]
    }
}

} // verus!
