use vstd::prelude::*;

use crate::array::MAX_LEN;
use crate::scalar::Key;
use crate::value::{keys_unique, matched_in, nul_free, same, Item, ItemMut, Plist, Value};

verus! {

/// Whether some entry has key `k`.
pub open spec fn has_key(entries: Seq<(Seq<char>, Plist)>, k: Seq<char>) -> bool {
    exists|i: int| 0 <= i < entries.len() && #[trigger] entries[i].0 == k
}

/// The position of the entry with key `k`, where there is one.
pub open spec fn key_index(entries: Seq<(Seq<char>, Plist)>, k: Seq<char>) -> int {
    choose|i: int| 0 <= i < entries.len() && #[trigger] entries[i].0 == k
}

/// The entries after setting key `k` to `v`: an entry with that key gets the
/// new value where it stands, otherwise the pair goes at the end.
pub open spec fn put(entries: Seq<(Seq<char>, Plist)>, k: Seq<char>, v: Plist) -> Seq<
    (Seq<char>, Plist),
> {
    if has_key(entries, k) {
        entries.update(key_index(entries, k), (k, v))
    } else {
        entries.push((k, v))
    }
}

/// The entries after dropping the one with key `k`, if there is one.
pub open spec fn without(entries: Seq<(Seq<char>, Plist)>, k: Seq<char>) -> Seq<
    (Seq<char>, Plist),
> {
    if has_key(entries, k) {
        entries.remove(key_index(entries, k))
    } else {
        entries
    }
}

/// The entries after setting, in order, each entry of `from`.
pub open spec fn merged(entries: Seq<(Seq<char>, Plist)>, from: Seq<(Seq<char>, Plist)>) -> Seq<
    (Seq<char>, Plist),
>
    decreases from.len(),
{
    if from.len() == 0 {
        entries
    } else {
        let last = from.last();
        put(merged(entries, from.drop_last()), last.0, last.1)
    }
}

/// Setting a key and then looking it up gives the value that was set, and
/// the keys stay distinct.
pub proof fn put_then_lookup(entries: Seq<(Seq<char>, Plist)>, k: Seq<char>, v: Plist)
    requires
        keys_unique(entries),
    ensures
        keys_unique(put(entries, k, v)),
        has_key(put(entries, k, v), k),
        put(entries, k, v)[key_index(put(entries, k, v), k)] == (k, v),
{
    let r = put(entries, k, v);
    if has_key(entries, k) {
        let i = key_index(entries, k);
        assert(r[i].0 == k);
        assert(keys_unique(r)) by {
            assert forall|a: int, b: int| 0 <= a < r.len() && 0 <= b < r.len() && a != b implies r[a].0
                != r[b].0 by {
                if a != i && b != i {
                    assert(r[a] == entries[a] && r[b] == entries[b]);
                } else if a == i {
                    assert(r[b] == entries[b]);
                } else {
                    assert(r[a] == entries[a]);
                }
            }
        }
    } else {
        let n = entries.len() as int;
        assert(r[n].0 == k);
        assert(keys_unique(r)) by {
            assert forall|a: int, b: int| 0 <= a < r.len() && 0 <= b < r.len() && a != b implies r[a].0
                != r[b].0 by {
                if a < n && b < n {
                    assert(r[a] == entries[a] && r[b] == entries[b]);
                } else if a == n {
                    assert(r[b] == entries[b]);
                } else {
                    assert(r[a] == entries[a]);
                }
            }
        }
    }
    assert(has_key(r, k));
    let c = key_index(r, k);
    assert(r[c].0 == k);
}

/// A dictionary node: string keys, each at most once and free of NUL, in
/// order of insertion. It owns its values.
#[derive(Debug)]
pub struct Dictionary {
    keys: Vec<String>,
    values: Vec<Value>,
}

impl Dictionary {
    #[verifier::type_invariant]
    spec fn wf(self) -> bool {
        &&& self.keys@.len() == self.values@.len()
        &&& self.keys@.len() <= MAX_LEN
        &&& forall|i: int, j: int|
            0 <= i < self.keys@.len() && 0 <= j < self.keys@.len() && i != j
                ==> #[trigger] self.keys@[i]@ != #[trigger] self.keys@[j]@
        &&& forall|i: int| 0 <= i < self.keys@.len() ==> nul_free(#[trigger] self.keys@[i]@)
    }

    pub closed spec fn view(&self) -> Seq<(Seq<char>, Plist)>
        decreases self,
    {
        Seq::new(
            self.keys@.len(),
            |i: int|
                if 0 <= i < self.keys@.len() && i < self.values@.len() {
                    (self.keys@[i]@, self.values@[i]@)
                } else {
                    (Seq::<char>::empty(), Plist::Null)
                },
        )
    }

    /// The view entry by entry, under the type invariant.
    proof fn lemma_view(&self)
        requires
            self.keys@.len() == self.values@.len(),
        ensures
            self@.len() == self.keys@.len(),
            forall|i: int|
                0 <= i < self.keys@.len() ==> #[trigger] self@[i] == (
                    self.keys@[i]@,
                    self.values@[i]@,
                ),
    {
    }

    /// Keys of the view are distinct.
    proof fn lemma_unique(&self)
        requires
            self.wf(),
        ensures
            keys_unique(self@),
            forall|i: int| 0 <= i < self@.len() ==> nul_free(#[trigger] self@[i].0),
    {
        self.lemma_view();
        assert forall|i: int, j: int|
            0 <= i < self@.len() && 0 <= j < self@.len() && i != j implies self@[i].0
            != self@[j].0 by {
            assert(self.keys@[i]@ != self.keys@[j]@);
        }
        assert forall|i: int| 0 <= i < self@.len() implies nul_free(#[trigger] self@[i].0) by {
            assert(nul_free(self.keys@[i]@));
        }
    }

    /// Creates an empty dictionary node.
    pub fn new() -> (r: Dictionary)
        ensures
            r@ == Seq::<(Seq<char>, Plist)>::empty(),
    {
        let r = Dictionary { keys: Vec::new(), values: Vec::new() };
        assert(r@ =~= Seq::<(Seq<char>, Plist)>::empty());
        r
    }

    /// Creates a dictionary node from `pairs`, setting each in order, so a
    /// later pair overwrites an earlier one with the same key.
    pub fn from_pairs(pairs: Vec<(String, Value)>) -> (r: Dictionary)
        requires
            pairs@.len() <= MAX_LEN,
            forall|i: int| 0 <= i < pairs@.len() ==> nul_free(#[trigger] pairs@[i].0@),
        ensures
            r@ =~= merged(
                Seq::empty(),
                Seq::new(pairs@.len(), |i: int| (pairs@[i].0@, pairs@[i].1@)),
            ),
    {
        let ghost entries = Seq::new(pairs@.len(), |i: int| (pairs@[i].0@, pairs@[i].1@));
        let ghost n = pairs@.len();
        let mut r = Dictionary::new();
        let mut rest = pairs;
        let mut i: usize = 0;
        while rest.len() > 0
            invariant
                n == pairs@.len(),
                n <= MAX_LEN,
                i + rest@.len() == n,
                rest@ == pairs@.subrange(i as int, n as int),
                entries.len() == n,
                forall|j: int|
                    0 <= j < n ==> #[trigger] entries[j] == (pairs@[j].0@, pairs@[j].1@),
                forall|j: int| 0 <= j < n ==> nul_free(#[trigger] pairs@[j].0@),
                r@ == merged(Seq::empty(), entries.subrange(0, i as int)),
                r@.len() <= i,
            decreases rest@.len(),
        {
            let (k, v) = rest.remove(0);
            proof {
                let s = entries.subrange(0, i as int + 1);
                assert(s.drop_last() =~= entries.subrange(0, i as int));
                assert(s.last() == entries[i as int]);
                assert(pairs@[i as int].0@ == k@);
            }
            r.insert(k.as_str(), v);
            i = i + 1;
        }
        assert(entries.subrange(0, n as int) =~= entries);
        r
    }

    /// Returns the number of entries.
    pub fn len(&self) -> (r: u32)
        ensures
            r == self@.len(),
    {
        proof {
            use_type_invariant(self);
            self.lemma_view();
        }
        self.keys.len() as u32
    }

    /// Returns `true` if the dictionary has no entries.
    pub fn is_empty(&self) -> (r: bool)
        ensures
            r == (self@.len() == 0),
    {
        self.len() == 0
    }

    /// The position of the entry with key `key`, if there is one.
    fn find(&self, key: &str) -> (r: Option<usize>)
        ensures
            keys_unique(self@),
            self@.len() == self.keys@.len(),
            self.keys@.len() == self.values@.len(),
            r is Some <==> has_key(self@, key@),
            r is Some ==> r->0 == key_index(self@, key@) && r->0 < self@.len(),
    {
        proof {
            use_type_invariant(self);
            self.lemma_view();
            self.lemma_unique();
        }
        let k = key.to_owned();
        let mut i: usize = 0;
        while i < self.keys.len()
            invariant
                i <= self.keys@.len(),
                k@ == key@,
                self@.len() == self.keys@.len(),
                self.keys@.len() == self.values@.len(),
                keys_unique(self@),
                forall|j: int| 0 <= j < i ==> self@[j].0 != key@,
            decreases self.keys@.len() - i,
        {
            if self.keys[i] == k {
                proof {
                    assert(self@[i as int].0 == key@);
                    assert(has_key(self@, key@));
                    let c = key_index(self@, key@);
                    assert(self@[c].0 == key@);
                }
                return Some(i);
            }
            i = i + 1;
        }
        proof {
            if has_key(self@, key@) {
                let c = choose|c: int| 0 <= c < self@.len() && #[trigger] self@[c].0 == key@;
                assert(self@[c].0 != key@);
            }
        }
        None
    }

    /// Returns a shared view of the value under `key`, or `None` when the key
    /// is absent. The view borrows the dictionary.
    pub fn get(&self, key: &str) -> (r: Option<Item<'_>>)
        requires
            nul_free(key@),
        ensures
            r is Some <==> has_key(self@, key@),
            r is Some ==> r->0@ == self@[key_index(self@, key@)].1,
    {
        match self.find(key) {
            Some(i) => Some(&self.values[i]),
            None => None,
        }
    }

    /// Returns a mutable view of the value under `key`, or `None` when the
    /// key is absent. What is written through the view lands in the
    /// dictionary.
    pub fn get_mut(&mut self, key: &str) -> (r: Option<ItemMut<'_>>)
        requires
            nul_free(key@),
        ensures
            r is Some <==> has_key(old(self)@, key@),
            r is Some ==> {
                let i = key_index(old(self)@, key@);
                &&& (*r->0)@ == old(self)@[i].1
                &&& final(self)@ =~= old(self)@.update(i, (key@, (*final(r->0))@))
            },
            r is None ==> final(self)@ == old(self)@,
    {
        match self.find(key) {
            Some(i) => Some(self.value_at_mut(i)),
            None => None,
        }
    }

    /// A mutable view of the value of the entry at position `i`.
    fn value_at_mut(&mut self, i: usize) -> (r: &mut Value)
        requires
            i < old(self)@.len(),
        ensures
            (*r)@ == old(self)@[i as int].1,
            final(self)@ =~= old(self)@.update(i as int, (old(self)@[i as int].0, (*final(r))@)),
    {
        proof {
            use_type_invariant(&*self);
            self.lemma_view();
        }
        &mut self.values[i]
    }

    /// Sets `key` to `value`. An entry with that key gets the new value in
    /// place, and its old value is dropped; otherwise the entry is added at
    /// the end.
    pub fn insert(&mut self, key: &str, value: Value)
        requires
            nul_free(key@),
            old(self)@.len() < MAX_LEN,
        ensures
            final(self)@ =~= put(old(self)@, key@, value@),
    {
        match self.find(key) {
            Some(i) => {
                let v = self.value_at_mut(i);
                *v = value;
            },
            None => {
                proof {
                    use_type_invariant(&*self);
                    assert forall|j: int| 0 <= j < self.keys@.len() implies self.keys@[j]@
                        != key@ by {
                        assert(self@[j].0 == self.keys@[j]@);
                    }
                }
let mut d = Dictionary::new();
                std::mem::swap(self, &mut d);
                let Dictionary { mut keys, mut values } = d;
                keys.push(key.to_owned());
                values.push(value);
                *self = Dictionary { keys, values };
                proof { self.lemma_view(); }
            },
        }
    }

    /// Drops the entry with key `key`, if there is one.
    pub fn remove(&mut self, key: &str)
        requires
            nul_free(key@),
        ensures
            final(self)@ =~= without(old(self)@, key@),
    {
        match self.find(key) {
            Some(i) => {
                proof { use_type_invariant(&*self); }
let mut d = Dictionary::new();
                std::mem::swap(self, &mut d);
                let Dictionary { mut keys, mut values } = d;
                let _ = keys.remove(i);
                let _ = values.remove(i);
                proof {
                    assert forall|a: int, b: int|
                        0 <= a < keys@.len() && 0 <= b < keys@.len() && a != b implies
                        #[trigger] keys@[a]@ != #[trigger] keys@[b]@ by {
                        let a0 = if a < i { a } else { a + 1 };
                        let b0 = if b < i { b } else { b + 1 };
                        assert(keys@[a] == d.keys@[a0]);
                        assert(keys@[b] == d.keys@[b0]);
                    }
                    assert forall|a: int| 0 <= a < keys@.len() implies nul_free(#[trigger] keys@[a]@) by {
                        let a0 = if a < i { a } else { a + 1 };
                        assert(keys@[a] == d.keys@[a0]);
                    }
                }
                *self = Dictionary { keys, values };
                proof { self.lemma_view(); }
            },
            None => {},
        }
    }

    /// Copies every entry of `from` into this dictionary, in order, each
    /// overwriting an entry with the same key. `from` is left as it was.
    pub fn merge(&mut self, from: &Dictionary)
        requires
            old(self)@.len() + from@.len() <= MAX_LEN,
        ensures
            final(self)@ =~= merged(old(self)@, from@),
    {
        proof {
            use_type_invariant(from);
            from.lemma_view();
            from.lemma_unique();
        }
        let mut i: usize = 0;
        while i < from.keys.len()
            invariant
                i <= from@.len(),
                from@.len() == from.keys@.len(),
                from.keys@.len() == from.values@.len(),
                forall|j: int| 0 <= j < from@.len() ==> nul_free(#[trigger] from@[j].0),
                self@ == merged(old(self)@, from@.subrange(0, i as int)),
                self@.len() <= old(self)@.len() + i,
                old(self)@.len() + from@.len() <= MAX_LEN,
            decreases from@.len() - i,
        {
            proof {
                let s = from@.subrange(0, i as int + 1);
                assert(s.drop_last() =~= from@.subrange(0, i as int));
                assert(s.last() == from@[i as int]);
                assert(nul_free(from@[i as int].0));
            }
            self.insert(from.keys[i].as_str(), from.values[i].clone());
            i = i + 1;
        }
        assert(from@.subrange(0, from@.len() as int) =~= from@);
    }

    /// Returns an iterator over the keys and shared views of the values.
    pub fn iter(&self) -> (r: Iter<'_>)
        ensures
            r.entries() == self@,
            r.pos() == 0,
    {
        Iter { dict: self, pos: 0 }
    }

    /// Returns an iterator over the keys and mutable views of the values.
    pub fn iter_mut(&mut self) -> (r: IterMut<'_>)
        ensures
            r.entries() == old(self)@,
            (*final(r.dict))@ == final(self)@,
            r.pos() == 0,
    {
        IterMut { dict: self, pos: 0 }
    }

    /// Returns independent copies of the entries, in order.
    pub fn to_vec(&self) -> (r: Vec<(String, Value)>)
        ensures
            r@.len() == self@.len(),
            forall|i: int|
                0 <= i < r@.len() ==> (#[trigger] r@[i]).0@ == self@[i].0 && r@[i].1@ == self@[i].1,
    {
        proof {
            use_type_invariant(self);
            self.lemma_view();
        }
        let mut r: Vec<(String, Value)> = Vec::new();
        let mut i: usize = 0;
        while i < self.keys.len()
            invariant
                i <= self.keys@.len(),
                self.keys@.len() == self.values@.len(),
                self@.len() == self.keys@.len(),
                r@.len() == i,
                forall|j: int|
                    0 <= j < i ==> (#[trigger] r@[j]).0@ == self@[j].0 && r@[j].1@ == self@[j].1,
            decreases self.keys@.len() - i,
        {
            r.push((self.keys[i].clone(), self.values[i].clone()));
            i = i + 1;
        }
        r
    }

    /// Returns a copy of the dictionary and of everything below it.
    pub fn clone(&self) -> (r: Dictionary)
        ensures
            r@ == self@,
        decreases self,
    {
        proof {
            use_type_invariant(self);
            self.lemma_view();
        }
        let mut keys: Vec<String> = Vec::new();
        let mut values: Vec<Value> = Vec::new();
        let mut i: usize = 0;
        assert(decreases_to!(self => self.values));
        while i < self.keys.len()
            invariant
                i <= self.keys@.len(),
                self.keys@.len() == self.values@.len(),
                keys@.len() == i,
                values@.len() == i,
                forall|j: int| 0 <= j < i ==> (#[trigger] keys@[j]) == self.keys@[j],
                forall|j: int| 0 <= j < i ==> (#[trigger] values@[j])@ == self.values@[j]@,
                decreases_to!(self => self.values),
            decreases self.keys@.len() - i,
        {
            assert(decreases_to!(self.values => self.values[i as int]));
            keys.push(self.keys[i].clone());
            values.push(self.values[i].clone());
            i = i + 1;
        }
        assert(keys@ =~= self.keys@);
        let r = Dictionary { keys, values };
        proof { r.lemma_view(); }
        assert(r@ =~= self@);
        r
    }

    /// Equality as sets of entries; see [`same`].
    pub(crate) fn same_entries(&self, other: &Dictionary) -> (r: bool)
        ensures
            r == same(Plist::Dictionary(self@), Plist::Dictionary(other@)),
        decreases self,
    {
        proof {
            use_type_invariant(self);
            use_type_invariant(other);
            self.lemma_view();
            other.lemma_view();
        }
        if self.keys.len() != other.keys.len() {
            return false;
        }
        let ghost xs = self@;
        let ghost ys = other@;
        let ghost mut w: Seq<int> = Seq::empty();
        let mut i: usize = 0;
        assert(decreases_to!(self => self.values));
        while i < self.keys.len()
            invariant
                i <= self.keys@.len(),
                self.keys@.len() == self.values@.len(),
                xs == self@,
                ys == other@,
                xs.len() == self.keys@.len(),
                xs.len() == ys.len(),
                w.len() == i,
                forall|k: int|
                    #![trigger w[k]]
                    0 <= k < i ==> 0 <= w[k] < ys.len() && ys[w[k]].0 == xs[k].0 && same(
                        xs[k].1,
                        ys[w[k]].1,
                    ),
                decreases_to!(self => self.values),
            decreases self.keys@.len() - i,
        {
            match other.find(self.keys[i].as_str()) {
                None => {
                    proof {
                        assert(xs[i as int].0 == self.keys@[i as int]@);
                        assert(!same(Plist::Dictionary(xs), Plist::Dictionary(ys))) by {
                            if matched_in(ys, xs[i as int]) {
                                let j = choose|j: int|
                                    0 <= j < ys.len() && ys[j].0 == xs[i as int].0 && same(
                                        xs[i as int].1,
                                        #[trigger] ys[j].1,
                                    );
                                assert(has_key(ys, xs[i as int].0));
                            }
                        }
                    }
                    return false;
                },
                Some(j) => {
                    assert(decreases_to!(self.values => self.values[i as int]));
                    if !self.values[i].same_as(&other.values[j]) {
                        proof {
                            assert(ys[j as int].0 == xs[i as int].0);
                            assert(!same(Plist::Dictionary(xs), Plist::Dictionary(ys))) by {
                                if matched_in(ys, xs[i as int]) {
                                    let j2 = choose|j2: int|
                                        0 <= j2 < ys.len() && ys[j2].0 == xs[i as int].0 && same(
                                            xs[i as int].1,
                                            #[trigger] ys[j2].1,
                                        );
                                    assert(ys[j2].0 == ys[j as int].0);
                                }
                            }
                        }
                        return false;
                    }
                    assert(ys[j as int].0 == xs[i as int].0);
                    proof { w = w.push(j as int); }
                },
            }
            i = i + 1;
        }
        assert forall|k: int| 0 <= k < xs.len() implies matched_in(ys, #[trigger] xs[k]) by {
            let j = w[k];
            assert(ys[j].0 == xs[k].0 && same(xs[k].1, ys[j].1));
        }
        assert(same(Plist::Dictionary(xs), Plist::Dictionary(ys)));
        true
    }
}

impl PartialEq for Dictionary {
    fn eq(&self, other: &Dictionary) -> (r: bool) {
        self.same_entries(other)
    }
}

impl vstd::std_specs::cmp::PartialEqSpecImpl for Dictionary {
    open spec fn obeys_eq_spec() -> bool {
        true
    }

    open spec fn eq_spec(&self, other: &Dictionary) -> bool {
        same(Plist::Dictionary(self@), Plist::Dictionary(other@))
    }
}

/// An iterator over the entries of a dictionary, handing out each key and a
/// shared view of its value. It borrows the dictionary.
pub struct Iter<'a> {
    dict: &'a Dictionary,
    pos: usize,
}

impl<'a> Iter<'a> {
    /// The entries being walked.
    pub closed spec fn entries(&self) -> Seq<(Seq<char>, Plist)> {
        self.dict@
    }

    /// How many entries have been handed out.
    pub closed spec fn pos(&self) -> int {
        self.pos as int
    }

    /// Hands out the next entry, or `None` once all have been handed out.
    pub fn next(&mut self) -> (r: Option<(String, Item<'a>)>)
        ensures
            final(self).entries() == old(self).entries(),
            old(self).pos() < old(self).entries().len() ==> {
                &&& r is Some
                &&& (r->0).0@ == old(self).entries()[old(self).pos()].0
                &&& (r->0).1@ == old(self).entries()[old(self).pos()].1
                &&& final(self).pos() == old(self).pos() + 1
            },
            old(self).pos() >= old(self).entries().len() ==> r is None && final(self).pos()
                == old(self).pos(),
    {
        proof {
            use_type_invariant(self.dict);
            self.dict.lemma_view();
        }
        if self.pos < self.dict.keys.len() {
            let p = self.pos;
            self.pos = self.pos + 1;
            Some((self.dict.keys[p].clone(), &self.dict.values[p]))
        } else {
            None
        }
    }
}

/// An iterator over the entries of a dictionary, handing out each key and a
/// mutable view of its value. Each view lasts until the next call. `pos`
/// counts the entries handed out so far.
pub struct IterMut<'a> {
    pub dict: &'a mut Dictionary,
    pub pos: usize,
}

impl<'a> IterMut<'a> {
    /// The entries being walked, as they stand now.
    pub open spec fn entries(&self) -> Seq<(Seq<char>, Plist)> {
        self.dict@
    }

    /// How many entries have been handed out.
    pub open spec fn pos(&self) -> int {
        self.pos as int
    }

    /// Hands out the next entry, or `None` once all have been handed out.
    pub fn next(&mut self) -> (r: Option<(Key, ItemMut<'_>)>)
        ensures
            *final(final(self).dict) == *final(old(self).dict),
            old(self).pos() < old(self).entries().len() ==> {
                let e = old(self).entries()[old(self).pos()];
                &&& r is Some
                &&& (r->0).0@ == e.0
                &&& (*(r->0).1)@ == e.1
                &&& final(self).pos() == old(self).pos() + 1
                &&& final(self).entries() =~= old(self).entries().update(
                    old(self).pos(),
                    (e.0, (*final((r->0).1))@),
                )
            },
            old(self).pos() >= old(self).entries().len() ==> r is None && final(self).pos()
                == old(self).pos() && final(self).entries() == old(self).entries(),
    {
        proof {
            use_type_invariant(&*self.dict);
            self.dict.lemma_view();
        }
        if self.pos < self.dict.keys.len() {
            let p = self.pos;
            self.pos = self.pos + 1;
            let k = Key::from_string(self.dict.keys[p].clone());
            let v = self.dict.value_at_mut(p);
            Some((k, v))
        } else {
            None
        }
    }
}

impl Default for Dictionary {
    fn default() -> (r: Dictionary)
        ensures
            r@ == Seq::<(Seq<char>, Plist)>::empty(),
    {
        Dictionary::new()
    }
}
} // verus!
