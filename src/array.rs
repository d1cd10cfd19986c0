use vstd::prelude::*;

use crate::value::{same, Item, ItemMut, Plist, Value};

verus! {

/// The largest number of children a container can hold: sizes and indices
/// are 32-bit.
pub const MAX_LEN: usize = 0xffff_ffff;

/// An array node. It owns its elements: dropping the array drops them, once.
#[derive(Debug)]
pub struct Array {
    items: Vec<Value>,
}

impl Array {
    #[verifier::type_invariant]
    spec fn fits(self) -> bool {
        self.items@.len() <= MAX_LEN
    }

    pub closed spec fn view(&self) -> Seq<Plist>
        decreases self,
    {
        Seq::new(
            self.items@.len(),
            |i: int|
                if 0 <= i < self.items@.len() {
                    self.items@[i]@
                } else {
                    Plist::Null
                },
        )
    }

    proof fn lemma_view_len(&self)
        ensures
            self@.len() == self.items@.len(),
            forall|i: int| 0 <= i < self.items@.len() ==> #[trigger] self@[i] == self.items@[i]@,
    {
    }

    /// Creates an empty array node.
    pub fn new() -> (r: Array)
        ensures
            r@ == Seq::<Plist>::empty(),
    {
        let r = Array { items: Vec::new() };
        assert(r@ =~= Seq::<Plist>::empty());
        r
    }

    /// Creates an array node that takes over `values`, in order.
    pub fn from_values(values: Vec<Value>) -> (r: Array)
        requires
            values@.len() <= MAX_LEN,
        ensures
            r@.len() == values@.len(),
            forall|i: int| 0 <= i < values@.len() ==> #[trigger] r@[i] == values@[i]@,
    {
        let r = Array { items: values };
        proof { r.lemma_view_len(); }
        r
    }

    /// Returns the number of elements in the array.
    pub fn len(&self) -> (r: u32)
        ensures
            r == self@.len(),
    {
        proof {
            use_type_invariant(&*self);
            self.lemma_view_len();
        }
        self.items.len() as u32
    }

    /// Returns `true` if the array has no elements.
    pub fn is_empty(&self) -> (r: bool)
        ensures
            r == (self@.len() == 0),
    {
        self.len() == 0
    }

    /// Returns a shared view of the element at `index`, or `None` when the
    /// index is out of bounds. The view borrows the array.
    pub fn get(&self, index: u32) -> (r: Option<Item<'_>>)
        ensures
            r is Some <==> index < self@.len(),
            r is Some ==> r->0@ == self@[index as int],
    {
        proof {
            use_type_invariant(&*self);
            self.lemma_view_len();
        }
        if (index as usize) < self.items.len() {
            Some(&self.items[index as usize])
        } else {
            None
        }
    }

    /// Returns a mutable view of the element at `index`, or `None` when the
    /// index is out of bounds. What is written through the view lands in the
    /// array.
    pub fn get_mut(&mut self, index: u32) -> (r: Option<ItemMut<'_>>)
        ensures
            r is Some <==> index < old(self)@.len(),
            r is Some ==> (*r->0)@ == old(self)@[index as int] && final(self)@ =~= old(self)@.update(
                index as int,
                (*final(r->0))@,
            ),
            r is None ==> final(self)@ == old(self)@,
    {
        proof {
            use_type_invariant(&*self);
            self.lemma_view_len();
        }
        if (index as usize) < self.items.len() {
            Some(&mut self.items[index as usize])
        } else {
            None
        }
    }

    /// Puts `value` at `index`; the element that was there is dropped.
    pub fn set(&mut self, value: Value, index: u32)
        requires
            index < old(self)@.len(),
        ensures
            final(self)@ =~= old(self)@.update(index as int, value@),
    {
        proof {
            use_type_invariant(&*self);
            self.lemma_view_len();
        }
        let mut items: Vec<Value> = Vec::new();
        std::mem::swap(&mut self.items, &mut items);
        items.set(index as usize, value);
        std::mem::swap(&mut self.items, &mut items);
    }

    /// Adds `value` at the end of the array, which takes it over.
    pub fn append(&mut self, value: Value)
        requires
            old(self)@.len() < MAX_LEN,
        ensures
            final(self)@ =~= old(self)@.push(value@),
    {
        proof {
            use_type_invariant(&*self);
            self.lemma_view_len();
        }
        let mut items: Vec<Value> = Vec::new();
        std::mem::swap(&mut self.items, &mut items);
        items.push(value);
        std::mem::swap(&mut self.items, &mut items);
    }

    /// Puts `value` at `index`, shifting the elements from there on one place
    /// to the right.
    pub fn insert(&mut self, value: Value, index: u32)
        requires
            index < old(self)@.len(),
            old(self)@.len() < MAX_LEN,
        ensures
            final(self)@ =~= old(self)@.insert(index as int, value@),
    {
        proof {
            use_type_invariant(&*self);
            self.lemma_view_len();
        }
        let mut items: Vec<Value> = Vec::new();
        std::mem::swap(&mut self.items, &mut items);
        items.insert(index as usize, value);
        std::mem::swap(&mut self.items, &mut items);
    }

    /// Drops the element at `index`, shifting the elements after it one place
    /// to the left.
    pub fn remove(&mut self, index: u32)
        requires
            index < old(self)@.len(),
        ensures
            final(self)@ =~= old(self)@.remove(index as int),
    {
        proof {
            use_type_invariant(&*self);
            self.lemma_view_len();
        }
        let mut items: Vec<Value> = Vec::new();
        std::mem::swap(&mut self.items, &mut items);
        let _ = items.remove(index as usize);
        std::mem::swap(&mut self.items, &mut items);
    }

    /// Returns an iterator over shared views of the elements.
    pub fn iter(&self) -> (r: Iter<'_>)
        ensures
            r.items() == self@,
            r.pos() == 0,
    {
        Iter { array: self, pos: 0 }
    }

    /// Returns an iterator over mutable views of the elements.
    pub fn iter_mut(&mut self) -> (r: IterMut<'_>)
        ensures
            r.items() == old(self)@,
            (*final(r.array))@ == final(self)@,
            r.pos() == 0,
    {
        IterMut { array: self, pos: 0 }
    }

    /// Returns independent copies of the elements.
    pub fn to_vec(&self) -> (r: Vec<Value>)
        ensures
            r@.len() == self@.len(),
            forall|i: int| 0 <= i < r@.len() ==> #[trigger] r@[i]@ == self@[i],
    {
        proof { self.lemma_view_len(); }
        let mut r: Vec<Value> = Vec::new();
        let mut i: usize = 0;
        while i < self.items.len()
            invariant
                i <= self.items@.len(),
                r@.len() == i,
                forall|j: int| 0 <= j < i ==> #[trigger] r@[j]@ == self.items@[j]@,
            decreases self.items@.len() - i,
        {
            r.push(self.items[i].clone());
            i = i + 1;
        }
        r
    }

    /// Returns a copy of the array and of everything below it.
    pub fn clone(&self) -> (r: Array)
        ensures
            r@ == self@,
        decreases self,
    {
        proof {
            use_type_invariant(self);
            self.lemma_view_len();
        }
        let mut items: Vec<Value> = Vec::new();
        let mut i: usize = 0;
        assert(decreases_to!(self => self.items));
        while i < self.items.len()
            invariant
                i <= self.items@.len(),
                self.items@.len() <= MAX_LEN,
                items@.len() == i,
                forall|j: int| 0 <= j < i ==> #[trigger] items@[j]@ == self.items@[j]@,
                decreases_to!(self => self.items),
            decreases self.items@.len() - i,
        {
            assert(decreases_to!(self.items => self.items[i as int]));
            items.push(self.items[i].clone());
            i = i + 1;
        }
        let r = Array { items };
        proof { r.lemma_view_len(); }
        assert(r@ =~= self@);
        r
    }

    /// Element-wise equality, in order.
    pub(crate) fn same_items(&self, other: &Array) -> (r: bool)
        ensures
            r == same(Plist::Array(self@), Plist::Array(other@)),
        decreases self,
    {
        proof {
            self.lemma_view_len();
            other.lemma_view_len();
        }
        if self.items.len() != other.items.len() {
            return false;
        }
        let mut i: usize = 0;
        assert(decreases_to!(self => self.items));
        while i < self.items.len()
            invariant
                i <= self.items@.len(),
                self.items@.len() == other.items@.len(),
                self@.len() == self.items@.len(),
                other@.len() == other.items@.len(),
                forall|j: int| 0 <= j < i ==> same(#[trigger] self@[j], other@[j]),
                decreases_to!(self => self.items),
            decreases self.items@.len() - i,
        {
            assert(decreases_to!(self.items => self.items[i as int]));
            if !self.items[i].same_as(&other.items[i]) {
                proof {
                    self.lemma_view_len();
                    other.lemma_view_len();
                    assert(!same(self@[i as int], other@[i as int]));
                }
                return false;
            }
            proof {
                self.lemma_view_len();
                other.lemma_view_len();
            }
            i = i + 1;
        }
        true
    }
}

impl PartialEq for Array {
    fn eq(&self, other: &Array) -> (r: bool) {
        self.same_items(other)
    }
}

impl vstd::std_specs::cmp::PartialEqSpecImpl for Array {
    open spec fn obeys_eq_spec() -> bool {
        true
    }

    open spec fn eq_spec(&self, other: &Array) -> bool {
        same(Plist::Array(self@), Plist::Array(other@))
    }
}

/// An iterator over shared views of an array's elements. It borrows the
/// array; dropping it releases nothing else.
pub struct Iter<'a> {
    array: &'a Array,
    pos: usize,
}

impl<'a> Iter<'a> {
    /// The elements being walked.
    pub closed spec fn items(&self) -> Seq<Plist> {
        self.array@
    }

    /// How many elements have been handed out.
    pub closed spec fn pos(&self) -> int {
        self.pos as int
    }

    /// Hands out the next element, or `None` once all have been handed out.
    pub fn next(&mut self) -> (r: Option<Item<'a>>)
        ensures
            final(self).items() == old(self).items(),
            old(self).pos() < old(self).items().len() ==> {
                &&& r is Some
                &&& r->0@ == old(self).items()[old(self).pos()]
                &&& final(self).pos() == old(self).pos() + 1
            },
            old(self).pos() >= old(self).items().len() ==> r is None && final(self).pos()
                == old(self).pos(),
    {
        proof { self.array.lemma_view_len(); }
        if self.pos < self.array.items.len() {
            let v = &self.array.items[self.pos];
            self.pos = self.pos + 1;
            Some(v)
        } else {
            None
        }
    }
}

/// An iterator over mutable views of an array's elements. It borrows the
/// array mutably; each view lasts until the next call. `pos` counts the
/// elements handed out so far.
pub struct IterMut<'a> {
    pub array: &'a mut Array,
    pub pos: usize,
}

impl<'a> IterMut<'a> {
    /// The elements being walked, as they stand now.
    pub open spec fn items(&self) -> Seq<Plist> {
        self.array@
    }

    /// How many elements have been handed out.
    pub open spec fn pos(&self) -> int {
        self.pos as int
    }

    /// Hands out the next element, or `None` once all have been handed out.
    pub fn next(&mut self) -> (r: Option<ItemMut<'_>>)
        ensures
            *final(final(self).array) == *final(old(self).array),
            old(self).pos() < old(self).items().len() ==> {
                &&& r is Some
                &&& (*r->0)@ == old(self).items()[old(self).pos()]
                &&& final(self).pos() == old(self).pos() + 1
                &&& final(self).items() =~= old(self).items().update(
                    old(self).pos(),
                    (*final(r->0))@,
                )
            },
            old(self).pos() >= old(self).items().len() ==> r is None && final(self).pos()
                == old(self).pos() && final(self).items() == old(self).items(),
    {
        proof {
            use_type_invariant(&*self.array);
            self.array.lemma_view_len();
        }
        if self.pos < self.array.items.len() {
            let p = self.pos;
            self.pos = self.pos + 1;
            self.array.get_mut(p as u32)
        } else {
            None
        }
    }
}

impl Default for Array {
    fn default() -> (r: Array)
        ensures
            r@ == Seq::<Plist>::empty(),
    {
        Array::new()
    }
}
} // verus!
