//! Capacity-unchecked append operations for growable byte and text buffers.
//!
//! Every operation in this crate appends to a buffer without performing the
//! "do I need to grow?" check that the ordinary, checked operations perform.
//! Instead, each operation carries an explicit precondition: the caller must
//! already have reserved enough capacity.  The preconditions are discharged
//! statically, so a verified caller can never reach an operation with too
//! little room.
//!
//! The operations are written once, generically, against two small capability
//! traits: [`GenericVec`] for growable element sequences and [`GenericString`]
//! for UTF-8 text buffers built on top of them.  Two concrete buffer families
//! implement the capabilities: [`DynVec`], backed by a heap-growable vector,
//! and [`FixedVec`], backed by a fixed-capacity, statically-sized vector.

use vstd::prelude::*;

pub mod fixed_vec;
pub mod generic_string;
pub mod laws;
pub mod generic_vec;

pub use fixed_vec::FixedVec;
pub use generic_string::append_char;
pub use generic_string::DynString;
pub use generic_string::FixedString;
pub use generic_string::GenericString;
pub use generic_string::TextBuf;
pub use generic_vec::DynVec;
pub use generic_vec::GenericVec;

verus! {

/// Single-element append without the capacity check.
///
/// The implementing type chooses what "room for one more element" and
/// "the element was appended" mean through the two specification functions;
/// `push_unchecked` is then bound to exactly that effect.
pub trait PushUnchecked<T>: Sized {
    /// The caller's obligation: the buffer has room for `value`.
    spec fn push_pre(&self, value: T) -> bool;

    /// The effect of the append: how the state after (`post`) relates to the
    /// state before (`self`).
    spec fn push_effect(&self, post: &Self, value: T) -> bool;

    /// Appends an element to the back of a collection without the capacity
    /// check.  The capacity of the collection must be sufficient for the new
    /// item.
    fn push_unchecked(&mut self, value: T)
        requires
            old(self).push_pre(value),
        ensures
            old(self).push_effect(final(self), value),
    ;
}

impl<T> PushUnchecked<T> for DynVec<T> {
    open spec fn push_pre(&self, value: T) -> bool {
        &&& self.inv()
        &&& self.contents().len() < self.cap()
    }

    open spec fn push_effect(&self, post: &Self, value: T) -> bool {
        &&& post.inv()
        &&& post.contents() == self.contents().push(value)
        &&& post.cap() == self.cap()
    }

    fn push_unchecked(&mut self, value: T) {
        self.push_within_capacity(value);
    }
}

impl<T, const N: usize> PushUnchecked<T> for FixedVec<T, N> {
    open spec fn push_pre(&self, value: T) -> bool {
        &&& self.inv()
        &&& self.contents().len() < self.cap()
    }

    open spec fn push_effect(&self, post: &Self, value: T) -> bool {
        &&& post.inv()
        &&& post.contents() == self.contents().push(value)
        &&& post.cap() == self.cap()
    }

    fn push_unchecked(&mut self, value: T) {
        self.push_within_capacity(value);
    }
}

/// Many-element append without the capacity check.
pub trait ExtendUnchecked<T>: Sized {
    /// The caller's obligation: room for every element of `items`.
    spec fn extend_pre(&self, items: Seq<T>) -> bool;

    /// The effect of the append.
    spec fn extend_effect(&self, post: &Self, items: Seq<T>) -> bool;

    /// Extends a collection with a sequence of elements, in order, without
    /// the capacity check.  The capacity of the collection must be sufficient
    /// for the new items.
    fn extend_unchecked(&mut self, items: &[T])
        requires
            old(self).extend_pre(items@),
        ensures
            old(self).extend_effect(final(self), items@),
    ;
}

/// Whole-string append without the capacity check.
pub trait PushStrUnchecked: Sized {
    /// The caller's obligation: room for every byte of `string`.
    spec fn push_str_pre(&self, string: &str) -> bool;

    /// The effect of the append.
    spec fn push_str_effect(&self, post: &Self, string: &str) -> bool;

    /// Appends a given string slice onto the end of this collection without
    /// the capacity check.  The capacity of the collection must be sufficient
    /// for the appended string.
    fn push_str_unchecked(&mut self, string: &str)
        requires
            old(self).push_str_pre(string),
        ensures
            old(self).push_str_effect(final(self), string),
    ;
}

/// Slice append without the capacity check.
pub trait ExtendFromSliceUnchecked<T>: Sized {
    /// The caller's obligation: room for every element of `other`.
    spec fn extend_slice_pre(&self, other: Seq<T>) -> bool;

    /// The effect of the append.
    spec fn extend_slice_effect(&self, post: &Self, other: Seq<T>) -> bool;

    /// Copies and appends all elements in a slice to the collection without
    /// the capacity check.  The capacity of the collection must be sufficient
    /// for the new items.
    fn extend_from_slice_unchecked(&mut self, other: &[T])
        requires
            old(self).extend_slice_pre(other@),
        ensures
            old(self).extend_slice_effect(final(self), other@),
    ;
}

impl<T: Copy> ExtendFromSliceUnchecked<T> for DynVec<T> {
    open spec fn extend_slice_pre(&self, other: Seq<T>) -> bool {
        &&& self.inv()
        &&& self.contents().len() + other.len() <= self.cap()
    }

    open spec fn extend_slice_effect(&self, post: &Self, other: Seq<T>) -> bool {
        &&& post.inv()
        &&& post.contents() == self.contents() + other
        &&& post.cap() == self.cap()
    }

    fn extend_from_slice_unchecked(&mut self, other: &[T]) {
        append_slice(self, other);
    }
}

impl<T: Copy, const N: usize> ExtendFromSliceUnchecked<T> for FixedVec<T, N> {
    open spec fn extend_slice_pre(&self, other: Seq<T>) -> bool {
        &&& self.inv()
        &&& self.contents().len() + other.len() <= self.cap()
    }

    open spec fn extend_slice_effect(&self, post: &Self, other: Seq<T>) -> bool {
        &&& post.inv()
        &&& post.contents() == self.contents() + other
        &&& post.cap() == self.cap()
    }

    fn extend_from_slice_unchecked(&mut self, other: &[T]) {
        append_slice(self, other);
    }
}

/// Range-copy append without the capacity check and without the bounds check
/// for the range.
pub trait ExtendFromWithinUnchecked: Sized {
    /// The caller's obligation: the resolved range is valid for the current
    /// contents and the spare capacity holds it.
    spec fn extend_within_pre(&self, start: SrcBound, end: SrcBound) -> bool;

    /// The effect of the append.
    spec fn extend_within_effect(&self, post: &Self, start: SrcBound, end: SrcBound) -> bool;

    /// Copies the elements of the resolved source range to the end of the
    /// collection without the capacity check and the bounds check for the
    /// range.  The range must be valid for the collection and the capacity
    /// must be sufficient for the new items.
    fn extend_from_within_unchecked(&mut self, start: SrcBound, end: SrcBound)
        requires
            old(self).extend_within_pre(start, end),
        ensures
            old(self).extend_within_effect(final(self), start, end),
    ;
}

impl<T: Copy> ExtendFromWithinUnchecked for DynVec<T> {
    open spec fn extend_within_pre(&self, start: SrcBound, end: SrcBound) -> bool {
        &&& self.inv()
        &&& within_range_ok(*self, start, end)
    }

    open spec fn extend_within_effect(&self, post: &Self, start: SrcBound, end: SrcBound) -> bool {
        &&& post.inv()
        &&& post.cap() == self.cap()
        &&& post.contents() == self.contents() + self.contents().subrange(
            resolved_start(start),
            resolved_end(end, self.contents().len() as int),
        )
    }

    fn extend_from_within_unchecked(&mut self, start: SrcBound, end: SrcBound) {
        append_within(self, start, end);
    }
}

impl<T: Copy, const N: usize> ExtendFromWithinUnchecked for FixedVec<T, N> {
    open spec fn extend_within_pre(&self, start: SrcBound, end: SrcBound) -> bool {
        &&& self.inv()
        &&& within_range_ok(*self, start, end)
    }

    open spec fn extend_within_effect(&self, post: &Self, start: SrcBound, end: SrcBound) -> bool {
        &&& post.inv()
        &&& post.cap() == self.cap()
        &&& post.contents() == self.contents() + self.contents().subrange(
            resolved_start(start),
            resolved_end(end, self.contents().len() as int),
        )
    }

    fn extend_from_within_unchecked(&mut self, start: SrcBound, end: SrcBound) {
        append_within(self, start, end);
    }
}

/// Whole-slice overwrite without the length check.
pub trait CopyFromSliceUnchecked<T> {
    /// The caller's obligation: `src` has exactly the length of `self`.
    spec fn copy_pre(&self, src: Seq<T>) -> bool;

    /// The effect of the overwrite.
    spec fn copy_effect(&self, post: &Self, src: Seq<T>) -> bool;

    /// Copies all elements from `src` into `self` without the length check.
    /// The length of `self` must be equal to the length of `src`.
    fn copy_from_slice_unchecked(&mut self, src: &[T])
        requires
            old(self).copy_pre(src@),
        ensures
            old(self).copy_effect(final(self), src@),
    ;
}

impl<T: Copy> CopyFromSliceUnchecked<T> for [T] {
    open spec fn copy_pre(&self, src: Seq<T>) -> bool {
        self@.len() == src.len()
    }

    open spec fn copy_effect(&self, post: &Self, src: Seq<T>) -> bool {
        post@ == src
    }

    fn copy_from_slice_unchecked(&mut self, src: &[T]) {
        let ghost orig: Seq<T> = self@;
        let n: usize = src.len();
        let mut k: usize = 0;
        while k < n
            invariant
                k <= n,
                n == src@.len(),
                n == self@.len(),
                n == orig.len(),
                self@ == src@.take(k as int) + orig.skip(k as int),
            decreases n - k,
        {
            let x = src[k];
            self[k] = x;
            proof {
                let l = src@.take(k as int + 1) + orig.skip(k as int + 1);
                let r = (src@.take(k as int) + orig.skip(k as int)).update(
                    k as int,
                    src@[k as int],
                );
                assert forall|i: int| 0 <= i < l.len() implies l[i] == r[i] by {
                    if i < k as int {
                    } else if i == k as int {
                    } else {
                        assert(l[i] == orig[i]);
                        assert(r[i] == orig[i]);
                    }
                }
                assert(l =~= r);
            }
            k = k + 1;
        }
        proof {
            assert(src@.take(n as int) + orig.skip(n as int) =~= src@);
        }
    }
}

/// One edge of a caller-supplied source range: inclusive, exclusive, or
/// absent.  Mirrors the three ways a range bound can be written.
#[derive(Clone, Copy, Debug)]
pub enum SrcBound {
    Included(usize),
    Excluded(usize),
    Unbounded,
}

/// The canonical start index a start bound resolves to.
pub open spec fn resolved_start(b: SrcBound) -> int {
    match b {
        SrcBound::Included(s) => s as int,
        SrcBound::Excluded(s) => s as int + 1,
        SrcBound::Unbounded => 0,
    }
}

/// The canonical end index (exclusive) an end bound resolves to, for a buffer
/// of length `len`.
pub open spec fn resolved_end(b: SrcBound, len: int) -> int {
    match b {
        SrcBound::Included(e) => e as int + 1,
        SrcBound::Excluded(e) => e as int,
        SrcBound::Unbounded => len,
    }
}

/// Resolving a bound must not overflow the index type: an exclusive start or
/// an inclusive end at the maximum index has no canonical form.
pub open spec fn src_bounds_fit(start: SrcBound, end: SrcBound) -> bool {
    &&& (start matches SrcBound::Excluded(s) ==> s != usize::MAX)
    &&& (end matches SrcBound::Included(e) ==> e != usize::MAX)
}

/// The whole precondition of the range-copy append: the resolved range is a
/// valid sub-range of the current contents, and the spare capacity holds its
/// elements.
pub open spec fn within_range_ok<V: GenericVec>(v: V, start: SrcBound, end: SrcBound) -> bool {
    let lo = resolved_start(start);
    let hi = resolved_end(end, v.contents().len() as int);
    &&& src_bounds_fit(start, end)
    &&& lo <= hi
    &&& hi <= v.contents().len()
    &&& v.contents().len() + (hi - lo) <= v.cap()
}

/// Slice append: appends every element of `other`, in order, to the back of
/// `v`.  The caller must have reserved room for all of them; no growth path
/// exists behind this operation.
pub fn append_slice<V: GenericVec>(v: &mut V, other: &[V::Item])
    where V::Item: Copy
    requires
        old(v).inv(),
        old(v).contents().len() + other@.len() <= old(v).cap(),
    ensures
        final(v).inv(),
        final(v).contents() == old(v).contents() + other@,
        final(v).cap() == old(v).cap(),
{
    let ghost orig: V = *v;
    let n: usize = other.len();
    let mut k: usize = 0;
    while k < n
        invariant
            v.inv(),
            k <= n,
            n == other@.len(),
            v.cap() == orig.cap(),
            orig.contents().len() + n <= orig.cap(),
            v.contents() == orig.contents() + other@.take(k as int),
        decreases n - k,
    {
        let x = other[k];
        v.push_within_capacity(x);
        proof {
            assert(orig.contents() + other@.take(k as int + 1) =~= (orig.contents()
                + other@.take(k as int)).push(other@[k as int]));
        }
        k = k + 1;
    }
    proof {
        assert(other@.take(n as int) =~= other@);
    }
}

/// Range-copy append: appends the elements of the resolved range
/// `[start, end)` of `v`'s own current contents to its back.  The source
/// range lies entirely below the old length and the destination entirely at
/// or above it, so each read sees the untouched original elements even
/// though the buffer is growing into the same storage.
pub fn append_within<V: GenericVec>(v: &mut V, start: SrcBound, end: SrcBound)
    where V::Item: Copy
    requires
        old(v).inv(),
        within_range_ok(*old(v), start, end),
    ensures
        final(v).inv(),
        final(v).cap() == old(v).cap(),
        final(v).contents() == old(v).contents() + old(v).contents().subrange(
            resolved_start(start),
            resolved_end(end, old(v).contents().len() as int),
        ),
{
    let ghost orig: V = *v;
    let len: usize = v.len();
    let lo: usize = match start {
        SrcBound::Included(s) => s,
        SrcBound::Excluded(s) => s + 1,
        SrcBound::Unbounded => 0,
    };
    let hi: usize = match end {
        SrcBound::Included(e) => e + 1,
        SrcBound::Excluded(e) => e,
        SrcBound::Unbounded => len,
    };
    let count: usize = hi - lo;
    let mut k: usize = 0;
    while k < count
        invariant
            v.inv(),
            k <= count,
            lo == resolved_start(start),
            hi == resolved_end(end, orig.contents().len() as int),
            lo + count == hi,
            hi <= orig.contents().len(),
            orig.contents().len() + count <= orig.cap(),
            v.cap() == orig.cap(),
            v.contents() == orig.contents() + orig.contents().subrange(
                lo as int,
                lo as int + k as int,
            ),
        decreases count - k,
    {
        proof {
            assert(v.contents()[lo as int + k as int] == orig.contents()[lo as int + k as int]);
        }
        let x = *v.get_at(lo + k);
        v.push_within_capacity(x);
        proof {
            assert(orig.contents() + orig.contents().subrange(lo as int, lo as int + k as int + 1)
                =~= (orig.contents() + orig.contents().subrange(lo as int, lo as int + k as int))
                .push(orig.contents()[lo as int + k as int]));
        }
        k = k + 1;
    }
}

/// Repeated single-byte fill: appends `count` copies of `value` to the back
/// of a byte buffer.
pub fn append_fill<V: GenericVec<Item = u8>>(v: &mut V, value: u8, count: usize)
    requires
        old(v).inv(),
        old(v).contents().len() + count <= old(v).cap(),
    ensures
        final(v).inv(),
        final(v).cap() == old(v).cap(),
        final(v).contents() == old(v).contents() + Seq::new(count as nat, |i: int| value),
{
    let ghost orig: V = *v;
    let mut k: usize = 0;
    while k < count
        invariant
            v.inv(),
            k <= count,
            orig.contents().len() + count <= orig.cap(),
            v.cap() == orig.cap(),
            v.contents() == orig.contents() + Seq::new(k as nat, |i: int| value),
        decreases count - k,
    {
        v.push_within_capacity(value);
        proof {
            assert(orig.contents() + Seq::new(k as nat + 1, |i: int| value) =~= (orig.contents()
                + Seq::new(k as nat, |i: int| value)).push(value));
        }
        k = k + 1;
    }
}

} // verus!
