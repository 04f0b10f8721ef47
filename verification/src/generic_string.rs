//! The UTF-8 text-buffer capability, and the text buffer over any byte
//! vector.

use vstd::prelude::*;
use vstd::string::StringSliceAdditionalSpecFns;
use vstd::utf8::char_is_scalar;
use vstd::utf8::encode_scalar;
use vstd::utf8::encode_utf8;
use vstd::utf8::encode_utf8_valid_utf8;
use vstd::utf8::valid_utf8;
use vstd::utf8::valid_utf8_concat;

use crate::append_slice;
use crate::generic_vec::GenericVec;
use crate::ExtendUnchecked;
use crate::PushStrUnchecked;
use crate::PushUnchecked;

verus! {

/// The capability a UTF-8 text buffer offers: it is a byte sequence with an
/// extra validity invariant, and it exposes that byte sequence as a mutable
/// byte buffer so that every byte-level unchecked operation can be reused.
///
/// Writing through [`GenericString::as_mut_vec`] suspends the UTF-8
/// obligation; well-formedness of the text buffer is recovered exactly when
/// the bytes left behind are valid UTF-8 again.
pub trait GenericString: Sized {
    type InnerVec: GenericVec<Item = u8>;

    /// The bytes currently held: always a valid UTF-8 encoding.
    spec fn bytes(&self) -> Seq<u8>;

    /// The reserved capacity, in bytes.
    spec fn cap(&self) -> nat;

    /// Well-formedness of the text buffer.
    spec fn inv(&self) -> bool;

    /// A well-formed text buffer holds valid UTF-8 and never more bytes than
    /// its capacity.
    proof fn lemma_inv(&self)
        requires
            self.inv(),
        ensures
            self.bytes().len() <= self.cap(),
            valid_utf8(self.bytes()),
    ;

    /// The logical length, in bytes.
    fn len(&self) -> (n: usize)
        requires
            self.inv(),
        ensures
            n == self.bytes().len(),
    ;

    /// The reserved capacity, in bytes.
    fn capacity(&self) -> (n: usize)
        requires
            self.inv(),
        ensures
            n == self.cap(),
    ;

    /// The underlying byte buffer, borrowed mutably.
    fn as_mut_vec(&mut self) -> (r: &mut Self::InnerVec)
        requires
            old(self).inv(),
        ensures
            (*r).inv(),
            (*r).contents() == old(self).bytes(),
            (*r).cap() == old(self).cap(),
            final(self).bytes() == (*final(r)).contents(),
            final(self).cap() == (*final(r)).cap(),
            ((*final(r)).inv() && valid_utf8((*final(r)).contents())) ==> final(self).inv(),
    ;
}

/// A UTF-8 text buffer over any byte buffer with the [`GenericVec`]
/// capability: a heap-growable one gives a growable string, a fixed-capacity
/// one gives a statically-allocated string.
pub struct TextBuf<V> {
    vec: V,
}

/// A heap-growable UTF-8 text buffer.
pub type DynString = TextBuf<crate::DynVec<u8>>;

/// A fixed-capacity UTF-8 text buffer holding at most `N` bytes.
pub type FixedString<const N: usize> = TextBuf<crate::FixedVec<u8, N>>;

impl<V: GenericVec<Item = u8>> GenericString for TextBuf<V> {
    type InnerVec = V;

    closed spec fn bytes(&self) -> Seq<u8> {
        self.vec.contents()
    }

    closed spec fn cap(&self) -> nat {
        self.vec.cap()
    }

    closed spec fn inv(&self) -> bool {
        &&& self.vec.inv()
        &&& valid_utf8(self.vec.contents())
    }

    proof fn lemma_inv(&self) {
        self.vec.lemma_inv();
    }

    fn len(&self) -> (n: usize) {
        self.vec.len()
    }

    fn capacity(&self) -> (n: usize) {
        self.vec.capacity()
    }

    fn as_mut_vec(&mut self) -> (r: &mut V) {
        &mut self.vec
    }
}

impl<V: GenericVec<Item = u8>> TextBuf<V> {
    /// Wraps a byte buffer whose contents are already valid UTF-8; an empty
    /// buffer qualifies.
    pub fn from_vec(vec: V) -> (s: Self)
        requires
            vec.inv(),
            valid_utf8(vec.contents()),
        ensures
            s.inv(),
            s.bytes() == vec.contents(),
            s.cap() == vec.cap(),
    {
        TextBuf { vec }
    }

    /// The bytes currently held, copied out; they are always valid UTF-8.
    pub fn to_byte_vec(&self) -> (r: Vec<u8>)
        requires
            self.inv(),
        ensures
            r@ == self.bytes(),
    {
        let n: usize = self.vec.len();
        let mut out: Vec<u8> = Vec::new();
        let mut k: usize = 0;
        while k < n
            invariant
                k <= n,
                self.inv(),
                n == self.bytes().len(),
                out@ == self.bytes().take(k as int),
            decreases n - k,
        {
            out.push(*self.vec.get_at(k));
            proof {
                assert(self.bytes().take(k as int + 1) =~= self.bytes().take(k as int).push(
                    self.bytes()[k as int],
                ));
            }
            k = k + 1;
        }
        proof {
            assert(self.bytes().take(n as int) =~= self.bytes());
        }
        out
    }
}

/// The UTF-8 encoding distributes over concatenation of character sequences.
pub proof fn lemma_encode_utf8_concat(a: Seq<char>, b: Seq<char>)
    ensures
        encode_utf8(a + b) == encode_utf8(a) + encode_utf8(b),
    decreases a.len(),
{
    if a.len() == 0 {
        assert(a + b =~= b);
        assert(encode_utf8(a) + encode_utf8(b) =~= encode_utf8(b));
    } else {
        assert((a + b).drop_first() =~= a.drop_first() + b);
        lemma_encode_utf8_concat(a.drop_first(), b);
        assert(encode_utf8(a + b) == encode_scalar((a + b)[0] as u32) + encode_utf8(
            (a + b).drop_first(),
        ));
        assert(encode_scalar(a[0] as u32) + (encode_utf8(a.drop_first()) + encode_utf8(b))
            =~= (encode_scalar(a[0] as u32) + encode_utf8(a.drop_first())) + encode_utf8(b));
    }
}

/// The UTF-8 encoding of one character, as the encoding of the singleton
/// sequence.
pub proof fn lemma_encode_utf8_singleton(c: char)
    ensures
        encode_utf8(seq![c]) == encode_scalar(c as u32),
{
    let s = seq![c];
    assert(s.drop_first() =~= Seq::<char>::empty());
    assert(encode_utf8(s) == encode_scalar(s[0] as u32) + encode_utf8(s.drop_first()));
    assert(encode_utf8(Seq::<char>::empty()) == Seq::<u8>::empty());
    assert(encode_scalar(c as u32) + Seq::<u8>::empty() =~= encode_scalar(c as u32));
}

/// Single-character UTF-8 append: manually encodes `ch` into one to four
/// bytes per the UTF-8 scheme — ASCII pass-through for one byte, or
/// continuation-byte packing under the 2-, 3- or 4-byte leading markers —
/// and appends them to a byte buffer.  All bytes of the sequence are written
/// before control returns, so no caller ever observes a partial sequence.
pub fn append_char<V: GenericVec<Item = u8>>(v: &mut V, ch: char)
    requires
        old(v).inv(),
        old(v).contents().len() + encode_scalar(ch as u32).len() <= old(v).cap(),
    ensures
        final(v).inv(),
        final(v).cap() == old(v).cap(),
        final(v).contents() == old(v).contents() + encode_scalar(ch as u32),
{
    proof {
        char_is_scalar(ch);
    }
    let ghost orig: Seq<u8> = v.contents();
    let u: u32 = ch as u32;
    if u < 0x80 {
        let b0: u8 = (u & 0x7F) as u8;
        v.push_within_capacity(b0);
        proof {
            assert(v.contents() =~= orig + encode_scalar(u));
        }
    } else if u < 0x800 {
        let b0: u8 = 0xC0 | ((u >> 6) & 0x1F) as u8;
        let b1: u8 = 0x80 | (u & 0x3F) as u8;
        v.push_within_capacity(b0);
        v.push_within_capacity(b1);
        proof {
            assert(v.contents() =~= orig + encode_scalar(u));
        }
    } else if u < 0x10000 {
        let b0: u8 = 0xE0 | ((u >> 12) & 0x0F) as u8;
        let b1: u8 = 0x80 | ((u >> 6) & 0x3F) as u8;
        let b2: u8 = 0x80 | (u & 0x3F) as u8;
        v.push_within_capacity(b0);
        v.push_within_capacity(b1);
        v.push_within_capacity(b2);
        proof {
            assert(v.contents() =~= orig + encode_scalar(u));
        }
    } else {
        let b0: u8 = 0xF0 | ((u >> 18) & 0x7) as u8;
        let b1: u8 = 0x80 | ((u >> 12) & 0x3F) as u8;
        let b2: u8 = 0x80 | ((u >> 6) & 0x3F) as u8;
        let b3: u8 = 0x80 | (u & 0x3F) as u8;
        v.push_within_capacity(b0);
        v.push_within_capacity(b1);
        v.push_within_capacity(b2);
        v.push_within_capacity(b3);
        proof {
            assert(v.contents() =~= orig + encode_scalar(u));
        }
    }
}

impl<V: GenericVec<Item = u8>> PushUnchecked<char> for TextBuf<V> {
    open spec fn push_pre(&self, ch: char) -> bool {
        &&& self.inv()
        &&& self.bytes().len() + encode_scalar(ch as u32).len() <= self.cap()
    }

    open spec fn push_effect(&self, post: &Self, ch: char) -> bool {
        &&& post.inv()
        &&& post.bytes() == self.bytes() + encode_scalar(ch as u32)
        &&& post.cap() == self.cap()
    }

    fn push_unchecked(&mut self, ch: char) {
        let ghost orig: Seq<u8> = self.vec.contents();
        append_char(&mut self.vec, ch);
        proof {
            lemma_encode_utf8_singleton(ch);
            encode_utf8_valid_utf8(seq![ch]);
            valid_utf8_concat(orig, encode_scalar(ch as u32));
        }
    }
}

impl<V: GenericVec<Item = u8>> ExtendUnchecked<char> for TextBuf<V> {
    open spec fn extend_pre(&self, items: Seq<char>) -> bool {
        &&& self.inv()
        &&& self.bytes().len() + encode_utf8(items).len() <= self.cap()
    }

    open spec fn extend_effect(&self, post: &Self, items: Seq<char>) -> bool {
        &&& post.inv()
        &&& post.bytes() == self.bytes() + encode_utf8(items)
        &&& post.cap() == self.cap()
    }

    fn extend_unchecked(&mut self, items: &[char]) {
        let ghost orig: Self = *self;
        let n: usize = items.len();
        let mut k: usize = 0;
        while k < n
            invariant
                k <= n,
                n == items@.len(),
                self.inv(),
                self.cap() == orig.cap(),
                orig.bytes().len() + encode_utf8(items@).len() <= orig.cap(),
                self.bytes() == orig.bytes() + encode_utf8(items@.take(k as int)),
            decreases n - k,
        {
            proof {
                assert(items@.take(k as int + 1) =~= items@.take(k as int) + seq![
                    items@[k as int],
                ]);
                lemma_encode_utf8_concat(items@.take(k as int), seq![items@[k as int]]);
                lemma_encode_utf8_singleton(items@[k as int]);
                assert(items@ =~= items@.take(k as int + 1) + items@.skip(k as int + 1));
                lemma_encode_utf8_concat(items@.take(k as int + 1), items@.skip(k as int + 1));
            }
            let ch = items[k];
            self.push_unchecked(ch);
            proof {
                assert(self.bytes() =~= orig.bytes() + encode_utf8(items@.take(k as int + 1)));
            }
            k = k + 1;
        }
        proof {
            assert(items@.take(n as int) =~= items@);
        }
    }
}

impl<V: GenericVec<Item = u8>> PushStrUnchecked for TextBuf<V> {
    open spec fn push_str_pre(&self, string: &str) -> bool {
        &&& self.inv()
        &&& self.bytes().len() + string.spec_bytes().len() <= self.cap()
    }

    open spec fn push_str_effect(&self, post: &Self, string: &str) -> bool {
        &&& post.inv()
        &&& post.bytes() == self.bytes() + string.spec_bytes()
        &&& post.cap() == self.cap()
    }

    fn push_str_unchecked(&mut self, string: &str) {
        let ghost orig: Seq<u8> = self.vec.contents();
        append_slice(&mut self.vec, string.as_bytes());
        proof {
            encode_utf8_valid_utf8(string@);
            valid_utf8_concat(orig, string.spec_bytes());
        }
    }
}

} // verus!
