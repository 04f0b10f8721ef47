//! The fixed-capacity buffer, backed by a statically-allocated vector.

use vstd::prelude::*;

use crate::generic_vec::GenericVec;

verus! {

/// Declares `heapless::Vec` so that it can stand in a field.  The type is
/// opaque to the verifier; every operation on it goes through the trusted
/// wrappers below, whose contracts follow the `heapless` sources.
#[verifier::external_type_specification]
#[verifier::external_body]
#[verifier::reject_recursive_types(T)]
pub struct ExHeaplessVec<T, const N: usize>(heapless::Vec<T, N>);

/// A fixed-capacity buffer: storage for at most `N` elements, allocated once,
/// never grown.  The element sequence is mirrored in a ghost model, and the
/// trusted wrappers keep the model and the real vector in step.
#[verifier::reject_recursive_types(T)]
pub struct FixedVec<T, const N: usize> {
    slots: heapless::Vec<T, N>,
    elems: Ghost<Seq<T>>,
}

impl<T, const N: usize> FixedVec<T, N> {
    /// An empty fixed-capacity buffer.
    pub fn new() -> (v: Self)
        ensures
            v.inv(),
            v.contents() == Seq::<T>::empty(),
    {
        FixedVec { slots: Self::empty_raw(), elems: Ghost(Seq::empty()) }
    }

    /// Relies on `heapless::Vec::new`, which constructs an empty vector; the
    /// ghost model starts empty alongside it.
    #[verifier::external_body]
    fn empty_raw() -> heapless::Vec<T, N> {
        heapless::Vec::new()
    }

    /// The valid elements, as a slice.
    ///
    /// Relies on `heapless::Vec::as_slice`, which returns the first `len`
    /// elements of the storage.
    #[verifier::external_body]
    pub fn as_slice(&self) -> (r: &[T])
        ensures
            r@ == self.contents(),
    {
        self.slots.as_slice()
    }

    /// Appends one element.
    ///
    /// Relies on `heapless::Vec::push`, which appends the element and returns
    /// `Ok(())` whenever the length lies below the capacity `N`, as the
    /// precondition demands.
    #[verifier::external_body]
    fn push_raw(&mut self, value: T)
        requires
            old(self).inv(),
            old(self).contents().len() < N,
        ensures
            final(self).inv(),
            final(self).contents() == old(self).contents().push(value),
    {
        let _ = self.slots.push(value);
    }

    /// Keeps the first `new_len` elements and drops the rest.
    ///
    /// Relies on `heapless::Vec::truncate`, which shortens the vector to
    /// `new_len` elements when `new_len` does not exceed the length.
    #[verifier::external_body]
    fn truncate_raw(&mut self, new_len: usize)
        requires
            old(self).inv(),
            new_len <= old(self).contents().len(),
        ensures
            final(self).inv(),
            final(self).contents() == old(self).contents().take(new_len as int),
    {
        self.slots.truncate(new_len);
    }
}

impl<T, const N: usize> GenericVec for FixedVec<T, N> {
    type Item = T;

    closed spec fn contents(&self) -> Seq<T> {
        self.elems@
    }

    open spec fn cap(&self) -> nat {
        N as nat
    }

    closed spec fn inv(&self) -> bool {
        self.elems@.len() <= N
    }

    proof fn lemma_inv(&self) {
    }

    fn len(&self) -> (n: usize) {
        self.as_slice().len()
    }

    fn capacity(&self) -> (n: usize) {
        N
    }

    fn get_at(&self, i: usize) -> (r: &T) {
        let s = self.as_slice();
        &s[i]
    }

    fn push_within_capacity(&mut self, value: T) {
        self.push_raw(value);
    }

    fn truncate(&mut self, new_len: usize) {
        self.truncate_raw(new_len);
    }
}

} // verus!
