//! The laws of the unchecked operations: each states, and proves, that an
//! unchecked operation leaves a buffer exactly as its checked counterpart
//! would.

use vstd::prelude::*;
use vstd::utf8::encode_utf8;
use vstd::utf8::valid_utf8;

use crate::generic_string::lemma_encode_utf8_singleton;
use crate::generic_string::GenericString;
use crate::generic_string::TextBuf;
use crate::generic_vec::DynVec;
use crate::generic_vec::GenericVec;
use crate::ExtendFromSliceUnchecked;
use crate::ExtendFromWithinUnchecked;
use crate::ExtendUnchecked;
use crate::FixedVec;
use crate::PushUnchecked;
use crate::resolved_end;
use crate::resolved_start;
use crate::SrcBound;

verus! {

/// The buffer state after a run of single-element appends, one element at a
/// time, in order.
pub open spec fn pushed_one_by_one<T>(s: Seq<T>, vs: Seq<T>) -> Seq<T>
    decreases vs.len(),
{
    if vs.len() == 0 {
        s
    } else {
        pushed_one_by_one(s.push(vs[0]), vs.drop_first())
    }
}

/// Law: a run of single-element unchecked appends yields exactly the state
/// the checked appends yield — the old elements followed by every appended
/// value, in order — for every element value tried.
pub proof fn lemma_push_run_matches_checked<T>(s: Seq<T>, vs: Seq<T>)
    ensures
        pushed_one_by_one(s, vs) == s + vs,
    decreases vs.len(),
{
    if vs.len() == 0 {
        assert(s + vs =~= s);
    } else {
        lemma_push_run_matches_checked(s.push(vs[0]), vs.drop_first());
        assert(s.push(vs[0]) + vs.drop_first() =~= s + vs);
    }
}

/// Law: one unchecked single-element append on a heap-growable buffer has
/// exactly the checked push's effect on the element sequence.
pub proof fn lemma_push_unchecked_matches_checked<T>(pre: DynVec<T>, post: DynVec<T>, value: T)
    requires
        pre.push_pre(value),
        pre.push_effect(&post, value),
    ensures
        post.contents() == pre.contents().push(value),
        post.contents().len() == pre.contents().len() + 1,
{
}

/// Law: one unchecked single-element append on a fixed-capacity buffer has
/// exactly the checked push's effect on the element sequence.
pub proof fn lemma_fixed_push_unchecked_matches_checked<T, const N: usize>(
    pre: FixedVec<T, N>,
    post: FixedVec<T, N>,
    value: T,
)
    requires
        pre.push_pre(value),
        pre.push_effect(&post, value),
    ensures
        post.contents() == pre.contents().push(value),
        post.contents().len() == pre.contents().len() + 1,
{
}

/// Law: the unchecked character append leaves the text buffer with exactly
/// the UTF-8 encoding the checked character append produces — including
/// multi-byte code points — and its bytes remain valid UTF-8.
pub proof fn lemma_char_append_matches_checked<V: GenericVec<Item = u8>>(
    pre: TextBuf<V>,
    post: TextBuf<V>,
    ch: char,
)
    requires
        pre.push_pre(ch),
        pre.push_effect(&post, ch),
    ensures
        post.bytes() == pre.bytes() + encode_utf8(seq![ch]),
        valid_utf8(post.bytes()),
{
    post.lemma_inv();
    lemma_encode_utf8_singleton(ch);
}

/// Law: the unchecked character-sequence append leaves the text buffer with
/// exactly the UTF-8 encoding of those characters, appended in order, and
/// its bytes remain valid UTF-8.
pub proof fn lemma_chars_append_matches_checked<V: GenericVec<Item = u8>>(
    pre: TextBuf<V>,
    post: TextBuf<V>,
    cs: Seq<char>,
)
    requires
        pre.extend_pre(cs),
        pre.extend_effect(&post, cs),
    ensures
        post.bytes() == pre.bytes() + encode_utf8(cs),
        valid_utf8(post.bytes()),
{
    post.lemma_inv();
}

/// Law: the unchecked slice append on a heap-growable buffer has exactly the
/// checked slice append's effect — the old elements followed by the slice —
/// for slices of any length the reserved capacity admits, length zero
/// included.
pub proof fn lemma_slice_append_matches_checked<T: Copy>(
    pre: DynVec<T>,
    post: DynVec<T>,
    other: Seq<T>,
)
    requires
        pre.extend_slice_pre(other),
        pre.extend_slice_effect(&post, other),
    ensures
        post.contents() == pre.contents() + other,
        post.contents().len() == pre.contents().len() + other.len(),
        other.len() == 0 ==> post.contents() == pre.contents(),
{
    if other.len() == 0 {
        assert(pre.contents() + other =~= pre.contents());
    }
}

/// Law: the unchecked slice append on a fixed-capacity buffer has exactly
/// the checked slice append's effect.
pub proof fn lemma_fixed_slice_append_matches_checked<T: Copy, const N: usize>(
    pre: FixedVec<T, N>,
    post: FixedVec<T, N>,
    other: Seq<T>,
)
    requires
        pre.extend_slice_pre(other),
        pre.extend_slice_effect(&post, other),
    ensures
        post.contents() == pre.contents() + other,
        post.contents().len() == pre.contents().len() + other.len(),
        other.len() == 0 ==> post.contents() == pre.contents(),
{
    if other.len() == 0 {
        assert(pre.contents() + other =~= pre.contents());
    }
}

/// Law: the unchecked range-copy append resolves every combination of
/// inclusive, exclusive and unbounded start and end bounds to the canonical
/// sub-range of the old contents and appends exactly that block, as the
/// checked operation does; an empty range — the start meeting the end —
/// leaves the contents unchanged, and a range touching the length boundary
/// duplicates the tail.
pub proof fn lemma_within_append_matches_checked<T: Copy>(
    pre: DynVec<T>,
    post: DynVec<T>,
    start: SrcBound,
    end: SrcBound,
)
    requires
        pre.extend_within_pre(start, end),
        pre.extend_within_effect(&post, start, end),
    ensures
        post.contents() == pre.contents() + pre.contents().subrange(
            resolved_start(start),
            resolved_end(end, pre.contents().len() as int),
        ),
        post.contents().len() == pre.contents().len() + resolved_end(
            end,
            pre.contents().len() as int,
        ) - resolved_start(start),
        resolved_start(start) == resolved_end(end, pre.contents().len() as int)
            ==> post.contents() == pre.contents(),
{
    let lo = resolved_start(start);
    let hi = resolved_end(end, pre.contents().len() as int);
    if lo == hi {
        assert(pre.contents() + pre.contents().subrange(lo, hi) =~= pre.contents());
    }
}

/// Law: on a fixed-capacity buffer the unchecked range-copy append likewise
/// appends exactly the resolved sub-range of the old contents, and an empty
/// range leaves them unchanged.
pub proof fn lemma_fixed_within_append_matches_checked<T: Copy, const N: usize>(
    pre: FixedVec<T, N>,
    post: FixedVec<T, N>,
    start: SrcBound,
    end: SrcBound,
)
    requires
        pre.extend_within_pre(start, end),
        pre.extend_within_effect(&post, start, end),
    ensures
        post.contents() == pre.contents() + pre.contents().subrange(
            resolved_start(start),
            resolved_end(end, pre.contents().len() as int),
        ),
        post.contents().len() == pre.contents().len() + resolved_end(
            end,
            pre.contents().len() as int,
        ) - resolved_start(start),
        resolved_start(start) == resolved_end(end, pre.contents().len() as int)
            ==> post.contents() == pre.contents(),
{
    let lo = resolved_start(start);
    let hi = resolved_end(end, pre.contents().len() as int);
    if lo == hi {
        assert(pre.contents() + pre.contents().subrange(lo, hi) =~= pre.contents());
    }
}

/// Law: appending and then truncating back to the original length restores
/// the original contents exactly — the round trip of any append operation
/// with the truncation capability.
pub proof fn lemma_append_then_truncate_round_trip<T>(s: Seq<T>, t: Seq<T>)
    ensures
        (s + t).take(s.len() as int) == s,
{
    assert((s + t).take(s.len() as int) =~= s);
}

} // verus!
