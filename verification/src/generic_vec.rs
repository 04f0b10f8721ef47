//! The growable-sequence capability and the heap-growable buffer.

use vstd::prelude::*;

verus! {

/// The minimal capability the unchecked operations need from a growable
/// sequence: its logical length, its reserved capacity, element reads, an
/// append that is justified by reserved capacity alone, and a truncation
/// that declares a shorter logical length.
///
/// The model is the sequence of valid elements, `contents()`, together with
/// the reserved capacity `cap()`.  An implementation's well-formedness
/// predicate `inv()` must at least bound the length by the capacity.
pub trait GenericVec: Sized {
    type Item;

    /// The elements currently held, in order.
    spec fn contents(&self) -> Seq<Self::Item>;

    /// The reserved capacity, in elements.
    spec fn cap(&self) -> nat;

    /// Well-formedness of the buffer.
    spec fn inv(&self) -> bool;

    /// A well-formed buffer never holds more elements than its capacity.
    proof fn lemma_inv(&self)
        requires
            self.inv(),
        ensures
            self.contents().len() <= self.cap(),
    ;

    /// The logical length: the number of valid elements.
    fn len(&self) -> (n: usize)
        requires
            self.inv(),
        ensures
            n == self.contents().len(),
    ;

    /// The reserved capacity.
    fn capacity(&self) -> (n: usize)
        requires
            self.inv(),
        ensures
            n == self.cap(),
    ;

    /// Reads the element at index `i`, which must lie below the logical
    /// length.
    fn get_at(&self, i: usize) -> (r: &Self::Item)
        requires
            self.inv(),
            i < self.contents().len(),
        ensures
            *r == self.contents()[i as int],
    ;

    /// Appends one element, justified by reserved capacity alone: no growth
    /// path exists behind this call.
    fn push_within_capacity(&mut self, value: Self::Item)
        requires
            old(self).inv(),
            old(self).contents().len() < old(self).cap(),
        ensures
            final(self).inv(),
            final(self).contents() == old(self).contents().push(value),
            final(self).cap() == old(self).cap(),
    ;

    /// Declares a new, shorter logical length; the first `new_len` elements
    /// are kept, the rest become logically dead.
    fn truncate(&mut self, new_len: usize)
        requires
            old(self).inv(),
            new_len <= old(self).contents().len(),
        ensures
            final(self).inv(),
            final(self).contents() == old(self).contents().take(new_len as int),
            final(self).cap() == old(self).cap(),
    ;
}

/// A heap-growable buffer with an explicitly reserved capacity.
///
/// The storage may grow when the owner asks for more room through
/// [`DynVec::reserve`]; the unchecked operations themselves never grow it.
pub struct DynVec<T> {
    data: Vec<T>,
    limit: usize,
}

impl<T> GenericVec for DynVec<T> {
    type Item = T;

    closed spec fn contents(&self) -> Seq<T> {
        self.data@
    }

    closed spec fn cap(&self) -> nat {
        self.limit as nat
    }

    closed spec fn inv(&self) -> bool {
        self.data@.len() <= self.limit
    }

    proof fn lemma_inv(&self) {
    }

    fn len(&self) -> (n: usize) {
        self.data.len()
    }

    fn capacity(&self) -> (n: usize) {
        self.limit
    }

    fn get_at(&self, i: usize) -> (r: &T) {
        &self.data[i]
    }

    fn push_within_capacity(&mut self, value: T) {
        self.data.push(value);
    }

    fn truncate(&mut self, new_len: usize) {
        self.data.truncate(new_len);
    }
}

impl<T> DynVec<T> {
    /// An empty buffer with the given reserved capacity.
    pub fn with_capacity(capacity: usize) -> (v: Self)
        ensures
            v.inv(),
            v.contents() == Seq::<T>::empty(),
            v.cap() == capacity,
    {
        DynVec { data: Vec::with_capacity(capacity), limit: capacity }
    }

    /// Reserves room for at least `additional` more elements; the contents
    /// are untouched.  This is the checked growth path that a caller uses to
    /// discharge the preconditions of the unchecked operations.
    pub fn reserve(&mut self, additional: usize)
        requires
            old(self).inv(),
            old(self).contents().len() + additional <= usize::MAX,
        ensures
            final(self).inv(),
            final(self).contents() == old(self).contents(),
            final(self).cap() >= old(self).contents().len() + additional,
            final(self).cap() >= old(self).cap(),
    {
        self.data.reserve(additional);
        let wanted: usize = self.data.len() + additional;
        if wanted > self.limit {
            self.limit = wanted;
        }
    }

    /// The valid elements, as a slice.
    pub fn as_slice(&self) -> (r: &[T])
        ensures
            r@ == self.contents(),
    {
        self.data.as_slice()
    }
}

} // verus!
