//! An arbitrary-precision unsigned integer held as its minimal big-endian
//! byte string: no leading zero byte, and zero is the empty string. That
//! byte string is exactly the value's top-level encoding, so persisting it
//! costs as little as the format allows.

use vstd::prelude::*;

use vstd::arithmetic::div_mod::{
    lemma_fundamental_div_mod, lemma_fundamental_div_mod_converse,
};

use crate::bytes_util::{
    bytes_eq, lemma_strip_zeros_shape, lemma_strip_zeros_value, push_bytes, strip_leading_zeros,
    strip_zeros,
};
use crate::codec::{
    CodecValue, NestedCodecLaw, NestedDecode, NestedEncode, TopCodecLaw, TopDecode, TopEncode,
};
use crate::codec_err::DecodeError;
use crate::handler::{DecodeErrorHandler, EncodeErrorHandler};
use crate::num_codec::{
    be_fixed, be_value, lemma_be_fixed_len, lemma_be_fixed_value, lemma_min_be_of_be_value,
    lemma_min_be_value, lemma_pow256_values, min_be, push_be_fixed, push_min_be,
};
use crate::source::ByteSource;

verus! {

/// An unsigned big integer: a minimal big-endian magnitude.
pub struct BigUint {
    bytes: Vec<u8>,
}

impl View for BigUint {
    type V = Seq<u8>;

    closed spec fn view(&self) -> Seq<u8> {
        self.bytes@
    }
}

impl BigUint {
    /// The magnitude never starts with a zero byte, so one value has one
    /// representation.
    #[verifier::type_invariant]
    pub open spec fn inv(&self) -> bool {
        self@.len() > 0 ==> self@[0] != 0
    }

    /// The numeric value of the magnitude.
    pub open spec fn value(&self) -> nat {
        be_value(self@)
    }

    /// Zero, as the empty magnitude.
    pub fn zero() -> (r: Self)
        ensures
            r@ == Seq::<u8>::empty(),
            r.value() == 0,
    {
        BigUint { bytes: Vec::new() }
    }

    /// The value of a big-endian byte string; leading zero bytes are
    /// dropped.
    pub fn from_bytes_be(b: &[u8]) -> (r: Self)
        ensures
            r@ == strip_zeros(b@),
            r.value() == be_value(b@),
    {
        proof {
            lemma_strip_zeros_shape(b@);
            lemma_strip_zeros_value(b@);
        }
        BigUint { bytes: strip_leading_zeros(b) }
    }

    /// The big integer with a machine integer's value.
    pub fn from_u64(v: u64) -> (r: Self)
        ensures
            r@ == min_be(v as nat),
            r.value() == v,
    {
        let mut bytes: Vec<u8> = Vec::new();
        push_min_be(&mut bytes, v);
        proof {
            assert(bytes@ =~= min_be(v as nat));
            crate::num_codec::lemma_min_be_no_leading_zero(v as nat);
            lemma_min_be_value(v as nat);
        }
        BigUint { bytes }
    }

    /// The minimal big-endian magnitude.
    pub fn to_bytes_be(&self) -> (r: Vec<u8>)
        ensures
            r@ == self@,
    {
        vstd::slice::slice_to_vec(self.bytes.as_slice())
    }

    /// A copy of the value.
    pub fn clone_value(&self) -> (r: Self)
        ensures
            r@ == self@,
    {
        proof {
            use_type_invariant(&*self);
        }
        BigUint { bytes: vstd::slice::slice_to_vec(self.bytes.as_slice()) }
    }

    /// Whether the value is zero.
    pub fn is_zero(&self) -> (r: bool)
        ensures
            r == (self.value() == 0),
    {
        proof {
            use_type_invariant(&*self);
            lemma_min_be_of_be_value(self@);
            if self@.len() > 0 {
                assert(min_be(self.value()).len() > 0);
            }
        }
        self.bytes.len() == 0
    }

    /// The value halved, rounding down.
    pub fn half(&self) -> (r: Self)
        ensures
            r.value() == self.value() / 2,
            r@ == min_be(self.value() / 2),
    {
        let n = self.bytes.len();
        let mut out: Vec<u8> = Vec::new();
        let mut carry: u8 = 0;
        let mut i: usize = 0;
        while i < n
            invariant
                n == self@.len(),
                i <= n,
                out@.len() == i,
                carry <= 1,
                2 * be_value(out@) + (carry as nat) == be_value(self@.subrange(0, i as int)),
            decreases n - i,
        {
            let ghost prefix = self@.subrange(0, i as int);
            let ghost out_old = out@;
            let ghost carry_old = carry;
            let b = self.bytes[i];
            let combined: u32 = (carry as u32) * 256 + (b as u32);
            let q = (combined / 2) as u8;
            carry = (combined % 2) as u8;
            out.push(q);
            i = i + 1;
            proof {
                let prefix2 = self@.subrange(0, i as int);
                assert(prefix2.drop_last() =~= prefix);
                assert(prefix2.last() == b);
                assert(out@.drop_last() =~= out_old);
                lemma_fundamental_div_mod(combined as int, 2);
                assert(2 * be_value(out@) + (carry as nat) == be_value(prefix2)) by (nonlinear_arith)
                    requires
                        be_value(out@) == 256 * be_value(out_old) + (q as nat),
                        be_value(prefix2) == 256 * be_value(prefix) + (b as nat),
                        2 * be_value(out_old) + (carry_old as nat) == be_value(prefix),
                        combined == 256 * (carry_old as nat) + (b as nat),
                        combined == 2 * (q as nat) + (carry as nat),
                        carry as nat == combined as nat % 2,
                ;
            }
        }
        proof {
            assert(self@.subrange(0, n as int) =~= self@);
            lemma_fundamental_div_mod_converse(
                self.value() as int,
                2,
                be_value(out@) as int,
                carry as int,
            );
        }
        let r = BigUint::from_bytes_be(out.as_slice());
        proof {
            lemma_strip_zeros_shape(out@);
            lemma_strip_zeros_value(out@);
            lemma_min_be_of_be_value(strip_zeros(out@));
        }
        r
    }
}

impl CodecValue for BigUint {
    type ModelT = Seq<u8>;

    open spec fn model(&self) -> Seq<u8> {
        strip_zeros(self@)
    }

    fn eq_value(&self, other: &Self) -> (r: bool) {
        proof {
            use_type_invariant(&*self);
            use_type_invariant(&*other);
            crate::bytes_util::lemma_strip_zeros_identity(self@);
            crate::bytes_util::lemma_strip_zeros_identity(other@);
        }
        bytes_eq(self.bytes.as_slice(), other.bytes.as_slice())
    }
}

impl NestedEncode for BigUint {
    open spec fn nested_enc(&self) -> Seq<u8> {
        be_fixed(self@.len(), 4) + self@
    }

    open spec fn nested_enc_ok(&self) -> bool {
        self@.len() <= u32::MAX
    }

    fn dep_encode_or_handle_err<H: EncodeErrorHandler>(
        &self,
        dest: &mut Vec<u8>,
        h: &mut H,
    ) -> (r: Result<(), H::HandledErr>) {
        push_be_fixed(dest, self.bytes.len() as u64, 4);
        push_bytes(dest, self.bytes.as_slice());
        proof {
            assert(dest@ =~= old(dest)@ + self.nested_enc());
        }
        Ok(())
    }
}

impl NestedDecode for BigUint {
    open spec fn nested_dec(b: Seq<u8>) -> Result<(Seq<u8>, int), DecodeError> {
        if b.len() < 4 {
            Err(DecodeError::InputTooShort)
        } else {
            let n = be_value(b.subrange(0, 4)) as int;
            if b.len() - 4 < n {
                Err(DecodeError::InputTooShort)
            } else {
                Ok((strip_zeros(b.subrange(4, 4 + n)), 4 + n))
            }
        }
    }

    fn dep_decode_or_handle_err<H: DecodeErrorHandler>(input: &mut ByteSource, h: &mut H) -> (r:
        Result<Self, H::HandledErr>) {
        let ghost b = old(input).remaining();
        let size = match usize::dep_decode_or_handle_err(input, h) {
            Ok(n) => n,
            Err(e) => {
                return Err(e);
            },
        };
        proof {
            assert(input.remaining() =~= b.skip(4));
            crate::num_codec::lemma_be_value_bound(b.subrange(0, 4));
            lemma_pow256_values();
            if size as int <= b.len() - 4 {
                assert(b.skip(4).subrange(0, size as int) =~= b.subrange(4, 4 + size as int));
            }
        }
        match input.try_read_exact(size, h) {
            Ok(bytes) => {
                proof {
                    lemma_strip_zeros_shape(bytes@);
                    crate::bytes_util::lemma_strip_zeros_identity(strip_zeros(bytes@));
                }
                Ok(BigUint::from_bytes_be(bytes.as_slice()))
            },
            Err(e) => Err(e),
        }
    }
}

impl NestedCodecLaw for BigUint {
    proof fn lemma_nested_round_trip(&self, rest: Seq<u8>) {
        let enc = self.nested_enc();
        let n = self@.len();
        lemma_pow256_values();
        lemma_be_fixed_len(n, 4);
        lemma_be_fixed_value(n, 4);
        assert((enc + rest).subrange(0, 4) =~= be_fixed(n, 4));
        assert((enc + rest).subrange(4, 4 + n as int) =~= self@);
    }
}

impl TopEncode for BigUint {
    open spec fn top_enc(&self) -> Seq<u8> {
        self@
    }

    open spec fn top_enc_ok(&self) -> bool {
        true
    }

    fn top_encode_or_handle_err<H: EncodeErrorHandler>(
        &self,
        output: &mut Vec<u8>,
        h: &mut H,
    ) -> (r: Result<(), H::HandledErr>) {
        output.clear();
        push_bytes(output, self.bytes.as_slice());
        proof {
            assert(output@ =~= self@);
        }
        Ok(())
    }
}

impl TopDecode for BigUint {
    open spec fn top_dec(b: Seq<u8>) -> Result<Seq<u8>, DecodeError> {
        Ok(strip_zeros(b))
    }

    fn top_decode_or_handle_err<H: DecodeErrorHandler>(input: &[u8], h: &mut H) -> (r: Result<
        Self,
        H::HandledErr,
    >) {
        proof {
            lemma_strip_zeros_shape(input@);
            crate::bytes_util::lemma_strip_zeros_identity(strip_zeros(input@));
        }
        Ok(BigUint::from_bytes_be(input))
    }
}

impl TopCodecLaw for BigUint {
    proof fn lemma_top_round_trip(&self) {
    }
}

} // verus!
