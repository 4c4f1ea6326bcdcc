//! Big-endian byte representations of the unsigned integers, and the codec
//! implementations for `u8`, `u32`, `u64` and `usize`.
//!
//! The nested form of an integer is fixed-width (its width is known
//! statically, so no length prefix is needed). The top-level form is the
//! *minimal* big-endian byte string: leading zero bytes are dropped and zero
//! encodes as the empty string, which keeps persisted values short.

use vstd::prelude::*;

use vstd::arithmetic::div_mod::{lemma_div_is_strictly_smaller, lemma_fundamental_div_mod};

use crate::codec::{
    CodecValue, NestedCodecLaw, NestedDecode, NestedEncode, NestedEncodeNoErr, TopCodecLaw,
    TopDecode, TopEncode,
};
use crate::codec_err::DecodeError;
use crate::handler::{DecodeErrorHandler, EncodeErrorHandler};
use crate::source::ByteSource;

verus! {

/// 256 to the `k`th power: the number of values a `k`-byte string can carry.
pub open spec fn pow256(k: nat) -> nat
    decreases k,
{
    if k == 0 {
        1
    } else {
        256 * pow256((k - 1) as nat)
    }
}

/// The value of a big-endian byte string.
pub open spec fn be_value(b: Seq<u8>) -> nat
    decreases b.len(),
{
    if b.len() == 0 {
        0
    } else {
        256 * be_value(b.drop_last()) + (b.last() as nat)
    }
}

/// The fixed-width big-endian representation of `v` in exactly `k` bytes
/// (the value reduced modulo `pow256(k)`).
pub open spec fn be_fixed(v: nat, k: nat) -> Seq<u8>
    decreases k,
{
    if k == 0 {
        Seq::empty()
    } else {
        be_fixed(v / 256, (k - 1) as nat) + seq![(v % 256) as u8]
    }
}

/// The minimal big-endian representation of `v`: no leading zero byte, and
/// zero is the empty string.
pub open spec fn min_be(v: nat) -> Seq<u8>
    decreases v,
{
    if v == 0 {
        Seq::empty()
    } else {
        min_be(v / 256) + seq![(v % 256) as u8]
    }
}

pub proof fn lemma_be_fixed_len(v: nat, k: nat)
    ensures
        be_fixed(v, k).len() == k,
    decreases k,
{
    if k > 0 {
        lemma_be_fixed_len(v / 256, (k - 1) as nat);
    }
}

/// A `k`-byte fixed-width representation carries values below `pow256(k)`
/// faithfully.
pub proof fn lemma_be_fixed_value(v: nat, k: nat)
    requires
        v < pow256(k),
    ensures
        be_value(be_fixed(v, k)) == v,
    decreases k,
{
    if k == 0 {
        assert(v == 0);
    } else {
        let q = v / 256;
        let inner = be_fixed(q, (k - 1) as nat);
        lemma_be_fixed_len(q, (k - 1) as nat);
        assert(be_fixed(v, k).drop_last() =~= inner);
        assert(q < pow256((k - 1) as nat)) by (nonlinear_arith)
            requires
                v < 256 * pow256((k - 1) as nat),
                q == v / 256,
        ;
        lemma_be_fixed_value(q, (k - 1) as nat);
        lemma_fundamental_div_mod(v as int, 256);
    }
}

/// The value of a byte string fits in as many bytes as it has.
pub proof fn lemma_be_value_bound(b: Seq<u8>)
    ensures
        be_value(b) < pow256(b.len()),
    decreases b.len(),
{
    if b.len() > 0 {
        lemma_be_value_bound(b.drop_last());
    }
}

/// The minimal representation carries every value faithfully.
pub proof fn lemma_min_be_value(v: nat)
    ensures
        be_value(min_be(v)) == v,
    decreases v,
{
    if v > 0 {
        let q = v / 256;
        lemma_div_is_strictly_smaller(v as int, 256);
        lemma_min_be_value(q);
        assert(min_be(v).drop_last() =~= min_be(q));
        lemma_fundamental_div_mod(v as int, 256);
    }
}

/// The minimal representation of a value below `pow256(k)` takes at most
/// `k` bytes.
pub proof fn lemma_min_be_len(v: nat, k: nat)
    requires
        v < pow256(k),
    ensures
        min_be(v).len() <= k,
    decreases v,
{
    if v > 0 {
        let q = v / 256;
        lemma_div_is_strictly_smaller(v as int, 256);
        assert(k > 0);
        assert(q < pow256((k - 1) as nat)) by (nonlinear_arith)
            requires
                v < 256 * pow256((k - 1) as nat),
                q == v / 256,
        ;
        lemma_min_be_len(q, (k - 1) as nat);
    }
}

/// The minimal representation never starts with a zero byte.
pub proof fn lemma_min_be_no_leading_zero(v: nat)
    ensures
        min_be(v).len() > 0 ==> min_be(v)[0] != 0,
    decreases v,
{
    if v > 0 {
        let q = v / 256;
        lemma_div_is_strictly_smaller(v as int, 256);
        lemma_min_be_no_leading_zero(q);
        if q == 0 {
            lemma_fundamental_div_mod(v as int, 256);
            assert(min_be(v) =~= seq![(v % 256) as u8]);
            assert(v % 256 != 0);
        } else {
            assert(min_be(v)[0] == min_be(q)[0]);
        }
    }
}

/// Two byte strings with one value: if neither has a leading zero byte, they
/// are the same string.
pub proof fn lemma_min_be_of_be_value(b: Seq<u8>)
    requires
        b.len() > 0 ==> b[0] != 0,
    ensures
        min_be(be_value(b)) == b,
    decreases b.len(),
{
    if b.len() > 0 {
        let inner = b.drop_last();
        let v = be_value(b);
        assert(v == 256 * be_value(inner) + (b.last() as nat));
        assert(v / 256 == be_value(inner) && v % 256 == b.last() as nat) by (nonlinear_arith)
            requires
                v == 256 * be_value(inner) + (b.last() as nat),
                b.last() < 256,
        ;
        assert(min_be(0) =~= Seq::<u8>::empty());
        if inner.len() > 0 {
            assert(inner[0] == b[0]);
            lemma_min_be_of_be_value(inner);
            assert(be_value(inner) > 0);
            assert(v >= 256) by (nonlinear_arith)
                requires
                    v == 256 * be_value(inner) + (b.last() as nat),
                    be_value(inner) >= 1,
                    b.last() as nat >= 0,
            ;
            assert(min_be(v) =~= b);
        } else {
            assert(b =~= seq![b[0]]);
            assert(be_value(inner) == 0);
            assert(v == b.last() as nat);
            assert(v > 0);
            assert(min_be(v) =~= seq![(v % 256) as u8]);
            assert(min_be(v) =~= b);
        }
    }
}

/// Append the `k`-byte fixed-width big-endian representation of `v`.
pub fn push_be_fixed(dest: &mut Vec<u8>, v: u64, k: usize)
    ensures
        final(dest)@ == old(dest)@ + be_fixed(v as nat, k as nat),
    decreases k,
{
    if k == 0 {
        proof {
            assert(dest@ =~= dest@ + be_fixed(v as nat, 0));
        }
    } else {
        push_be_fixed(dest, v / 256, k - 1);
        dest.push((v % 256) as u8);
        proof {
            assert(dest@ =~= old(dest)@ + be_fixed(v as nat, k as nat));
        }
    }
}

/// Append the minimal big-endian representation of `v`.
pub fn push_min_be(dest: &mut Vec<u8>, v: u64)
    ensures
        final(dest)@ == old(dest)@ + min_be(v as nat),
    decreases v,
{
    if v == 0 {
        proof {
            assert(dest@ =~= dest@ + min_be(0));
        }
    } else {
        proof {
            lemma_div_is_strictly_smaller(v as int, 256);
        }
        push_min_be(dest, v / 256);
        dest.push((v % 256) as u8);
        proof {
            assert(dest@ =~= old(dest)@ + min_be(v as nat));
        }
    }
}

/// Read the value of a big-endian byte string of at most eight bytes.
pub fn be_value_u64(bytes: &[u8]) -> (r: u64)
    requires
        bytes@.len() <= 8,
    ensures
        r as nat == be_value(bytes@),
{
    proof {
        lemma_pow256_values();
    }
    let n = bytes.len();
    let mut acc: u64 = 0;
    let mut i: usize = 0;
    while i < n
        invariant
            n == bytes@.len() <= 8,
            i <= n,
            acc as nat == be_value(bytes@.subrange(0, i as int)),
            pow256(8) == 0x10000000000000000,
        decreases n - i,
    {
        proof {
            lemma_be_value_bound(bytes@.subrange(0, i as int));
            lemma_pow256_increases(i as nat, 7);
            assert(bytes@.subrange(0, i as int + 1).drop_last() =~= bytes@.subrange(0, i as int));
        }
        let b = *vstd::slice::slice_index_get(bytes, i);
        acc = acc * 256 + (b as u64);
        i = i + 1;
    }
    proof {
        assert(bytes@.subrange(0, n as int) =~= bytes@);
    }
    acc
}

/// The first nine powers of 256, unfolded.
pub proof fn lemma_pow256_values()
    ensures
        pow256(0) == 1,
        pow256(1) == 0x100,
        pow256(2) == 0x10000,
        pow256(3) == 0x1000000,
        pow256(4) == 0x100000000,
        pow256(5) == 0x10000000000,
        pow256(6) == 0x1000000000000,
        pow256(7) == 0x100000000000000,
        pow256(8) == 0x10000000000000000,
{
    reveal_with_fuel(pow256, 10);
}

/// `pow256` grows with its exponent.
pub proof fn lemma_pow256_increases(a: nat, b: nat)
    requires
        a <= b,
    ensures
        pow256(a) <= pow256(b),
    decreases b,
{
    if a < b && b > 0 {
        lemma_pow256_increases(a, (b - 1) as nat);
        assert(pow256(b) == 256 * pow256((b - 1) as nat));
        assert(pow256((b - 1) as nat) <= 256 * pow256((b - 1) as nat)) by (nonlinear_arith)
            requires
                pow256((b - 1) as nat) >= 0,
        ;
    }
}

impl CodecValue for u8 {
    type ModelT = u8;

    open spec fn model(&self) -> u8 {
        *self
    }

    fn eq_value(&self, other: &Self) -> (r: bool) {
        *self == *other
    }
}

impl NestedEncode for u8 {
    open spec fn nested_enc(&self) -> Seq<u8> {
        be_fixed(*self as nat, 1)
    }

    open spec fn nested_enc_ok(&self) -> bool {
        true
    }

    fn dep_encode_or_handle_err<H: EncodeErrorHandler>(
        &self,
        dest: &mut Vec<u8>,
        h: &mut H,
    ) -> (r: Result<(), H::HandledErr>) {
        push_be_fixed(dest, *self as u64, 1);
        Ok(())
    }
}

impl NestedDecode for u8 {
    open spec fn nested_dec(b: Seq<u8>) -> Result<(u8, int), DecodeError> {
        if b.len() < 1 {
            Err(DecodeError::InputTooShort)
        } else {
            Ok((be_value(b.subrange(0, 1)) as u8, 1))
        }
    }

    fn dep_decode_or_handle_err<H: DecodeErrorHandler>(input: &mut ByteSource, h: &mut H) -> (r:
        Result<Self, H::HandledErr>) {
        match input.try_read_exact(1, h) {
            Ok(bytes) => {
                proof {
                    lemma_be_value_bound(bytes@);
                    lemma_pow256_values();
                }
                let v = be_value_u64(bytes.as_slice());
                Ok(v as u8)
            },
            Err(e) => Err(e),
        }
    }
}

impl NestedCodecLaw for u8 {
    proof fn lemma_nested_round_trip(&self, rest: Seq<u8>) {
        let enc = self.nested_enc();
        lemma_be_fixed_len(*self as nat, 1);
        lemma_pow256_values();
        lemma_be_fixed_value(*self as nat, 1);
        assert((enc + rest).subrange(0, 1) =~= enc);
    }
}

impl TopEncode for u8 {
    open spec fn top_enc(&self) -> Seq<u8> {
        min_be(*self as nat)
    }

    open spec fn top_enc_ok(&self) -> bool {
        true
    }

    fn top_encode_or_handle_err<H: EncodeErrorHandler>(
        &self,
        output: &mut Vec<u8>,
        h: &mut H,
    ) -> (r: Result<(), H::HandledErr>) {
        output.clear();
        push_min_be(output, *self as u64);
        proof {
            assert(output@ =~= self.top_enc());
        }
        Ok(())
    }
}

impl TopDecode for u8 {
    open spec fn top_dec(b: Seq<u8>) -> Result<u8, DecodeError> {
        if b.len() > 1 {
            Err(DecodeError::InputTooLong)
        } else {
            Ok(be_value(b) as u8)
        }
    }

    fn top_decode_or_handle_err<H: DecodeErrorHandler>(input: &[u8], h: &mut H) -> (r: Result<
        Self,
        H::HandledErr,
    >) {
        if input.len() > 1 {
            Err(h.handle_error(DecodeError::InputTooLong))
        } else {
            proof {
                lemma_be_value_bound(input@);
                lemma_pow256_values();
                lemma_pow256_increases(input@.len(), 1);
            }
            let v = be_value_u64(input);
            Ok(v as u8)
        }
    }
}

impl TopCodecLaw for u8 {
    proof fn lemma_top_round_trip(&self) {
        lemma_pow256_values();
        lemma_min_be_len(*self as nat, 1);
        lemma_min_be_value(*self as nat);
    }
}

impl CodecValue for u32 {
    type ModelT = u32;

    open spec fn model(&self) -> u32 {
        *self
    }

    fn eq_value(&self, other: &Self) -> (r: bool) {
        *self == *other
    }
}

impl NestedEncode for u32 {
    open spec fn nested_enc(&self) -> Seq<u8> {
        be_fixed(*self as nat, 4)
    }

    open spec fn nested_enc_ok(&self) -> bool {
        true
    }

    fn dep_encode_or_handle_err<H: EncodeErrorHandler>(
        &self,
        dest: &mut Vec<u8>,
        h: &mut H,
    ) -> (r: Result<(), H::HandledErr>) {
        push_be_fixed(dest, *self as u64, 4);
        Ok(())
    }
}

impl NestedEncodeNoErr for u32 {
    fn dep_encode_no_err(&self, dest: &mut Vec<u8>) {
        push_be_fixed(dest, *self as u64, 4);
    }
}

impl NestedDecode for u32 {
    open spec fn nested_dec(b: Seq<u8>) -> Result<(u32, int), DecodeError> {
        if b.len() < 4 {
            Err(DecodeError::InputTooShort)
        } else {
            Ok((be_value(b.subrange(0, 4)) as u32, 4))
        }
    }

    fn dep_decode_or_handle_err<H: DecodeErrorHandler>(input: &mut ByteSource, h: &mut H) -> (r:
        Result<Self, H::HandledErr>) {
        match input.try_read_exact(4, h) {
            Ok(bytes) => {
                proof {
                    lemma_be_value_bound(bytes@);
                    lemma_pow256_values();
                }
                let v = be_value_u64(bytes.as_slice());
                Ok(v as u32)
            },
            Err(e) => Err(e),
        }
    }
}

impl NestedCodecLaw for u32 {
    proof fn lemma_nested_round_trip(&self, rest: Seq<u8>) {
        let enc = self.nested_enc();
        lemma_be_fixed_len(*self as nat, 4);
        lemma_pow256_values();
        lemma_be_fixed_value(*self as nat, 4);
        assert((enc + rest).subrange(0, 4) =~= enc);
    }
}

impl TopEncode for u32 {
    open spec fn top_enc(&self) -> Seq<u8> {
        min_be(*self as nat)
    }

    open spec fn top_enc_ok(&self) -> bool {
        true
    }

    fn top_encode_or_handle_err<H: EncodeErrorHandler>(
        &self,
        output: &mut Vec<u8>,
        h: &mut H,
    ) -> (r: Result<(), H::HandledErr>) {
        output.clear();
        push_min_be(output, *self as u64);
        proof {
            assert(output@ =~= self.top_enc());
        }
        Ok(())
    }
}

impl TopDecode for u32 {
    open spec fn top_dec(b: Seq<u8>) -> Result<u32, DecodeError> {
        if b.len() > 4 {
            Err(DecodeError::InputTooLong)
        } else {
            Ok(be_value(b) as u32)
        }
    }

    fn top_decode_or_handle_err<H: DecodeErrorHandler>(input: &[u8], h: &mut H) -> (r: Result<
        Self,
        H::HandledErr,
    >) {
        if input.len() > 4 {
            Err(h.handle_error(DecodeError::InputTooLong))
        } else {
            proof {
                lemma_be_value_bound(input@);
                lemma_pow256_values();
                lemma_pow256_increases(input@.len(), 4);
            }
            let v = be_value_u64(input);
            Ok(v as u32)
        }
    }
}

impl TopCodecLaw for u32 {
    proof fn lemma_top_round_trip(&self) {
        lemma_pow256_values();
        lemma_min_be_len(*self as nat, 4);
        lemma_min_be_value(*self as nat);
    }
}

impl CodecValue for u64 {
    type ModelT = u64;

    open spec fn model(&self) -> u64 {
        *self
    }

    fn eq_value(&self, other: &Self) -> (r: bool) {
        *self == *other
    }
}

impl NestedEncode for u64 {
    open spec fn nested_enc(&self) -> Seq<u8> {
        be_fixed(*self as nat, 8)
    }

    open spec fn nested_enc_ok(&self) -> bool {
        true
    }

    fn dep_encode_or_handle_err<H: EncodeErrorHandler>(
        &self,
        dest: &mut Vec<u8>,
        h: &mut H,
    ) -> (r: Result<(), H::HandledErr>) {
        push_be_fixed(dest, *self, 8);
        Ok(())
    }
}

impl NestedDecode for u64 {
    open spec fn nested_dec(b: Seq<u8>) -> Result<(u64, int), DecodeError> {
        if b.len() < 8 {
            Err(DecodeError::InputTooShort)
        } else {
            Ok((be_value(b.subrange(0, 8)) as u64, 8))
        }
    }

    fn dep_decode_or_handle_err<H: DecodeErrorHandler>(input: &mut ByteSource, h: &mut H) -> (r:
        Result<Self, H::HandledErr>) {
        match input.try_read_exact(8, h) {
            Ok(bytes) => {
                proof {
                    lemma_be_value_bound(bytes@);
                    lemma_pow256_values();
                }
                let v = be_value_u64(bytes.as_slice());
                Ok(v)
            },
            Err(e) => Err(e),
        }
    }
}

impl NestedCodecLaw for u64 {
    proof fn lemma_nested_round_trip(&self, rest: Seq<u8>) {
        let enc = self.nested_enc();
        lemma_be_fixed_len(*self as nat, 8);
        lemma_pow256_values();
        lemma_be_fixed_value(*self as nat, 8);
        assert((enc + rest).subrange(0, 8) =~= enc);
    }
}

impl TopEncode for u64 {
    open spec fn top_enc(&self) -> Seq<u8> {
        min_be(*self as nat)
    }

    open spec fn top_enc_ok(&self) -> bool {
        true
    }

    fn top_encode_or_handle_err<H: EncodeErrorHandler>(
        &self,
        output: &mut Vec<u8>,
        h: &mut H,
    ) -> (r: Result<(), H::HandledErr>) {
        output.clear();
        push_min_be(output, *self);
        proof {
            assert(output@ =~= self.top_enc());
        }
        Ok(())
    }
}

impl TopDecode for u64 {
    open spec fn top_dec(b: Seq<u8>) -> Result<u64, DecodeError> {
        if b.len() > 8 {
            Err(DecodeError::InputTooLong)
        } else {
            Ok(be_value(b) as u64)
        }
    }

    fn top_decode_or_handle_err<H: DecodeErrorHandler>(input: &[u8], h: &mut H) -> (r: Result<
        Self,
        H::HandledErr,
    >) {
        if input.len() > 8 {
            Err(h.handle_error(DecodeError::InputTooLong))
        } else {
            proof {
                lemma_be_value_bound(input@);
                lemma_pow256_values();
                lemma_pow256_increases(input@.len(), 8);
            }
            let v = be_value_u64(input);
            Ok(v)
        }
    }
}

impl TopCodecLaw for u64 {
    proof fn lemma_top_round_trip(&self) {
        lemma_pow256_values();
        lemma_min_be_len(*self as nat, 8);
        lemma_min_be_value(*self as nat);
    }
}

impl CodecValue for usize {
    type ModelT = usize;

    open spec fn model(&self) -> usize {
        *self
    }

    fn eq_value(&self, other: &Self) -> (r: bool) {
        *self == *other
    }
}

impl NestedEncode for usize {
    open spec fn nested_enc(&self) -> Seq<u8> {
        be_fixed(*self as nat, 4)
    }

    open spec fn nested_enc_ok(&self) -> bool {
        *self <= u32::MAX
    }

    fn dep_encode_or_handle_err<H: EncodeErrorHandler>(
        &self,
        dest: &mut Vec<u8>,
        h: &mut H,
    ) -> (r: Result<(), H::HandledErr>) {
        push_be_fixed(dest, *self as u64, 4);
        Ok(())
    }
}

impl NestedDecode for usize {
    open spec fn nested_dec(b: Seq<u8>) -> Result<(usize, int), DecodeError> {
        if b.len() < 4 {
            Err(DecodeError::InputTooShort)
        } else {
            Ok((be_value(b.subrange(0, 4)) as usize, 4))
        }
    }

    fn dep_decode_or_handle_err<H: DecodeErrorHandler>(input: &mut ByteSource, h: &mut H) -> (r:
        Result<Self, H::HandledErr>) {
        match input.try_read_exact(4, h) {
            Ok(bytes) => {
                proof {
                    lemma_be_value_bound(bytes@);
                    lemma_pow256_values();
                }
                let v = be_value_u64(bytes.as_slice());
                Ok(v as usize)
            },
            Err(e) => Err(e),
        }
    }
}

impl NestedCodecLaw for usize {
    proof fn lemma_nested_round_trip(&self, rest: Seq<u8>) {
        let enc = self.nested_enc();
        lemma_be_fixed_len(*self as nat, 4);
        lemma_pow256_values();
        lemma_be_fixed_value(*self as nat, 4);
        assert((enc + rest).subrange(0, 4) =~= enc);
    }
}

impl TopEncode for usize {
    open spec fn top_enc(&self) -> Seq<u8> {
        min_be(*self as nat)
    }

    open spec fn top_enc_ok(&self) -> bool {
        *self <= u32::MAX
    }

    fn top_encode_or_handle_err<H: EncodeErrorHandler>(
        &self,
        output: &mut Vec<u8>,
        h: &mut H,
    ) -> (r: Result<(), H::HandledErr>) {
        output.clear();
        push_min_be(output, *self as u64);
        proof {
            assert(output@ =~= self.top_enc());
        }
        Ok(())
    }
}

impl TopDecode for usize {
    open spec fn top_dec(b: Seq<u8>) -> Result<usize, DecodeError> {
        if b.len() > 4 {
            Err(DecodeError::InputTooLong)
        } else {
            Ok(be_value(b) as usize)
        }
    }

    fn top_decode_or_handle_err<H: DecodeErrorHandler>(input: &[u8], h: &mut H) -> (r: Result<
        Self,
        H::HandledErr,
    >) {
        if input.len() > 4 {
            Err(h.handle_error(DecodeError::InputTooLong))
        } else {
            proof {
                lemma_be_value_bound(input@);
                lemma_pow256_values();
                lemma_pow256_increases(input@.len(), 4);
            }
            let v = be_value_u64(input);
            Ok(v as usize)
        }
    }
}

impl TopCodecLaw for usize {
    proof fn lemma_top_round_trip(&self) {
        lemma_pow256_values();
        lemma_min_be_len(*self as nat, 4);
        lemma_min_be_value(*self as nat);
    }
}

} // verus!
