//! Small verified helpers on byte strings: comparison, appending, and
//! stripping leading zero bytes.

use vstd::prelude::*;

use crate::num_codec::be_value;

verus! {

/// Compare two byte strings for equality.
pub fn bytes_eq(a: &[u8], b: &[u8]) -> (r: bool)
    ensures
        r == (a@ == b@),
{
    if a.len() != b.len() {
        return false;
    }
    let n = a.len();
    let mut i: usize = 0;
    while i < n
        invariant
            n == a@.len() == b@.len(),
            i <= n,
            forall|j: int| 0 <= j < i ==> a@[j] == b@[j],
        decreases n - i,
    {
        if *vstd::slice::slice_index_get(a, i) != *vstd::slice::slice_index_get(b, i) {
            return false;
        }
        i = i + 1;
    }
    proof {
        assert(a@ =~= b@);
    }
    true
}

/// Append all of `src` to `dest`.
pub fn push_bytes(dest: &mut Vec<u8>, src: &[u8])
    ensures
        final(dest)@ == old(dest)@ + src@,
{
    let n = src.len();
    let mut i: usize = 0;
    while i < n
        invariant
            n == src@.len(),
            i <= n,
            dest@ == old(dest)@ + src@.subrange(0, i as int),
        decreases n - i,
    {
        dest.push(*vstd::slice::slice_index_get(src, i));
        i = i + 1;
        proof {
            assert(old(dest)@ + src@.subrange(0, i as int) =~= dest@);
        }
    }
    proof {
        assert(src@.subrange(0, n as int) =~= src@);
    }
}

/// `b` with its leading zero bytes removed.
pub open spec fn strip_zeros(b: Seq<u8>) -> Seq<u8>
    decreases b.len(),
{
    if b.len() == 0 || b[0] != 0 {
        b
    } else {
        strip_zeros(b.skip(1))
    }
}

/// A leading zero byte does not change the value of a big-endian string.
pub proof fn lemma_be_value_leading_zero(b: Seq<u8>)
    requires
        b.len() > 0,
        b[0] == 0,
    ensures
        be_value(b) == be_value(b.skip(1)),
    decreases b.len(),
{
    if b.len() == 1 {
        assert(b =~= seq![0u8]);
        assert(b.skip(1) =~= Seq::<u8>::empty());
        assert(b.drop_last() =~= Seq::<u8>::empty());
        assert(be_value(b) == 256 * be_value(Seq::<u8>::empty()) + (b.last() as nat));
    } else {
        assert(b.drop_last()[0] == 0);
        lemma_be_value_leading_zero(b.drop_last());
        assert(b.skip(1).drop_last() =~= b.drop_last().skip(1));
        assert(b.skip(1).last() == b.last());
    }
}

/// Stripping leading zeros does not change the value.
pub proof fn lemma_strip_zeros_value(b: Seq<u8>)
    ensures
        be_value(strip_zeros(b)) == be_value(b),
    decreases b.len(),
{
    if b.len() > 0 && b[0] == 0 {
        lemma_be_value_leading_zero(b);
        lemma_strip_zeros_value(b.skip(1));
    }
}

/// The stripped string has no leading zero byte, and is no longer than the
/// original.
pub proof fn lemma_strip_zeros_shape(b: Seq<u8>)
    ensures
        strip_zeros(b).len() > 0 ==> strip_zeros(b)[0] != 0,
        strip_zeros(b).len() <= b.len(),
    decreases b.len(),
{
    if b.len() > 0 && b[0] == 0 {
        lemma_strip_zeros_shape(b.skip(1));
    }
}

/// A string without a leading zero byte is already stripped.
pub proof fn lemma_strip_zeros_identity(b: Seq<u8>)
    requires
        b.len() > 0 ==> b[0] != 0,
    ensures
        strip_zeros(b) == b,
{
}

/// Remove the leading zero bytes of `b`.
pub fn strip_leading_zeros(b: &[u8]) -> (r: Vec<u8>)
    ensures
        r@ == strip_zeros(b@),
{
    let n = b.len();
    let mut i: usize = 0;
    proof {
        assert(b@.skip(0) =~= b@);
    }
    while i < n && *vstd::slice::slice_index_get(b, i) == 0
        invariant
            n == b@.len(),
            i <= n,
            strip_zeros(b@) == strip_zeros(b@.skip(i as int)),
        decreases n - i,
    {
        i = i + 1;
        proof {
            assert(b@.skip(i as int) =~= b@.skip(i - 1).skip(1));
        }
    }
    let tail = vstd::slice::slice_subrange(b, i, n);
    proof {
        assert(tail@ =~= b@.skip(i as int));
        assert(strip_zeros(b@.skip(i as int)) == b@.skip(i as int));
    }
    vstd::slice::slice_to_vec(tail)
}

} // verus!
