//! Comparison of texts and counting in sequences.

use vstd::prelude::*;
use vstd::string::StringSliceAdditionalSpecFns;
use vstd::utf8::{encode_scalar, encode_utf8};

verus! {

/// How many items of `s` meet `pred`.
pub open spec fn count_matching<T>(s: Seq<T>, pred: spec_fn(T) -> bool) -> nat
    decreases s.len(),
{
    if s.len() == 0 {
        0
    } else {
        count_matching(s.drop_last(), pred) + if pred(s.last()) {
            1nat
        } else {
            0nat
        }
    }
}

/// No more items meet a condition than there are items.
pub proof fn lemma_count_matching_bound<T>(s: Seq<T>, pred: spec_fn(T) -> bool)
    ensures
        count_matching(s, pred) <= s.len(),
    decreases s.len(),
{
    if s.len() > 0 {
        lemma_count_matching_bound(s.drop_last(), pred);
    }
}

/// Counting over the first `i + 1` items adds the item at `i` to the count
/// over the first `i`.
pub proof fn lemma_count_matching_step<T>(s: Seq<T>, pred: spec_fn(T) -> bool, i: int)
    requires
        0 <= i < s.len(),
    ensures
        count_matching(s.take(i + 1), pred) == count_matching(s.take(i), pred) + if pred(s[i]) {
            1nat
        } else {
            0nat
        },
{
    assert(s.take(i + 1).drop_last() =~= s.take(i));
    assert(s.take(i + 1).last() == s[i]);
}

/// The length of a text in bytes of UTF-8.
pub open spec fn utf8_len(s: Seq<char>) -> nat {
    encode_utf8(s).len()
}

/// The bytes of a text followed by a character are those of the text
/// followed by those of the character.
pub proof fn lemma_utf8_len_push(s: Seq<char>, c: char)
    ensures
        utf8_len(s.push(c)) == utf8_len(s) + encode_scalar(c as u32).len(),
    decreases s.len(),
{
    if s.len() == 0 {
        assert(s.push(c).drop_first() =~= Seq::<char>::empty());
        assert(encode_utf8(Seq::<char>::empty()) =~= Seq::<u8>::empty());
        assert(encode_utf8(s) =~= Seq::<u8>::empty());
    } else {
        assert(s.push(c).drop_first() =~= s.drop_first().push(c));
        lemma_utf8_len_push(s.drop_first(), c);
    }
}

/// The bytes of two texts in a row are those of the first followed by those
/// of the second.
pub proof fn lemma_utf8_len_concat(a: Seq<char>, b: Seq<char>)
    ensures
        utf8_len(a + b) == utf8_len(a) + utf8_len(b),
    decreases b.len(),
{
    if b.len() == 0 {
        assert(a + b =~= a);
        assert(encode_utf8(b) =~= Seq::<u8>::empty());
    } else {
        assert(a + b =~= (a + b.drop_last()).push(b.last()));
        assert(b =~= b.drop_last().push(b.last()));
        lemma_utf8_len_push(a + b.drop_last(), b.last());
        lemma_utf8_len_push(b.drop_last(), b.last());
        lemma_utf8_len_concat(a, b.drop_last());
    }
}

/// Whether two texts are the same.
pub fn str_eq(a: &str, b: &str) -> (r: bool)
    ensures
        r == (a@ == b@),
{
    let x = a.as_bytes();
    let y = b.as_bytes();
    proof {
        vstd::utf8::encode_utf8_decode_utf8(a@);
        vstd::utf8::encode_utf8_decode_utf8(b@);
    }
    if x.len() != y.len() {
        return false;
    }
    let mut i: usize = 0;
    while i < x.len()
        invariant
            i <= x.len(),
            x.len() == y.len(),
            x@ == a.spec_bytes(),
            y@ == b.spec_bytes(),
            forall|j: int| 0 <= j < i ==> x@[j] == y@[j],
        decreases x.len() - i,
    {
        if x[i] != y[i] {
            return false;
        }
        i += 1;
    }
    assert(x@ =~= y@);
    true
}

} // verus!
