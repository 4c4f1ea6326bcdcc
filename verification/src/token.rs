//! The token identifier: an owned byte name for a token, itself
//! codec-implementing (nested form: length-prefixed; top-level form: the raw
//! bytes), and the token-type classification used by the call-value queries.

use vstd::prelude::*;

use crate::bytes_util::{bytes_eq, push_bytes};
use crate::codec::{
    CodecValue, NestedCodecLaw, NestedDecode, NestedEncode, TopCodecLaw, TopDecode, TopEncode,
};
use crate::codec_err::DecodeError;
use crate::handler::{DecodeErrorHandler, EncodeErrorHandler};
use crate::num_codec::{
    be_fixed, be_value, lemma_be_fixed_len, lemma_be_fixed_value, lemma_pow256_values,
    push_be_fixed,
};
use crate::source::ByteSource;

verus! {

/// Whether a token is fungible: a nonce of zero means fungible, anything
/// else a non-fungible instance.
#[derive(Clone, Copy, Debug, PartialEq, Eq, Structural)]
pub enum EsdtTokenType {
    Fungible,
    NonFungible,
}

/// A token's byte name.
pub struct TokenIdentifier {
    bytes: Vec<u8>,
}

impl View for TokenIdentifier {
    type V = Seq<u8>;

    closed spec fn view(&self) -> Seq<u8> {
        self.bytes@
    }
}

impl TokenIdentifier {
    /// The identifier holding a copy of `bytes`.
    pub fn from_slice(bytes: &[u8]) -> (r: Self)
        ensures
            r@ == bytes@,
    {
        TokenIdentifier { bytes: vstd::slice::slice_to_vec(bytes) }
    }

    /// A read-only view of the name.
    pub fn as_slice(&self) -> (r: &[u8])
        ensures
            r@ == self@,
    {
        self.bytes.as_slice()
    }

    /// How many bytes the name takes.
    pub fn len(&self) -> (r: usize)
        ensures
            r == self@.len(),
    {
        self.bytes.len()
    }
}

impl CodecValue for TokenIdentifier {
    type ModelT = Seq<u8>;

    open spec fn model(&self) -> Seq<u8> {
        self@
    }

    fn eq_value(&self, other: &Self) -> (r: bool) {
        bytes_eq(self.bytes.as_slice(), other.bytes.as_slice())
    }
}

impl NestedEncode for TokenIdentifier {
    open spec fn nested_enc(&self) -> Seq<u8> {
        be_fixed(self@.len(), 4) + self@
    }

    open spec fn nested_enc_ok(&self) -> bool {
        self@.len() <= u32::MAX
    }

    fn dep_encode_or_handle_err<H: EncodeErrorHandler>(
        &self,
        dest: &mut Vec<u8>,
        h: &mut H,
    ) -> (r: Result<(), H::HandledErr>) {
        push_be_fixed(dest, self.bytes.len() as u64, 4);
        push_bytes(dest, self.bytes.as_slice());
        proof {
            assert(dest@ =~= old(dest)@ + self.nested_enc());
        }
        Ok(())
    }
}

impl NestedDecode for TokenIdentifier {
    open spec fn nested_dec(b: Seq<u8>) -> Result<(Seq<u8>, int), DecodeError> {
        if b.len() < 4 {
            Err(DecodeError::InputTooShort)
        } else {
            let n = be_value(b.subrange(0, 4)) as int;
            if b.len() - 4 < n {
                Err(DecodeError::InputTooShort)
            } else {
                Ok((b.subrange(4, 4 + n), 4 + n))
            }
        }
    }

    fn dep_decode_or_handle_err<H: DecodeErrorHandler>(input: &mut ByteSource, h: &mut H) -> (r:
        Result<Self, H::HandledErr>) {
        let ghost b = old(input).remaining();
        let size = match usize::dep_decode_or_handle_err(input, h) {
            Ok(n) => n,
            Err(e) => {
                return Err(e);
            },
        };
        proof {
            assert(input.remaining() =~= b.skip(4));
            crate::num_codec::lemma_be_value_bound(b.subrange(0, 4));
            lemma_pow256_values();
            if size as int <= b.len() - 4 {
                assert(b.skip(4).subrange(0, size as int) =~= b.subrange(4, 4 + size as int));
            }
        }
        match input.try_read_exact(size, h) {
            Ok(bytes) => Ok(TokenIdentifier { bytes }),
            Err(e) => Err(e),
        }
    }
}

impl NestedCodecLaw for TokenIdentifier {
    proof fn lemma_nested_round_trip(&self, rest: Seq<u8>) {
        let enc = self.nested_enc();
        let n = self@.len();
        lemma_pow256_values();
        lemma_be_fixed_len(n, 4);
        lemma_be_fixed_value(n, 4);
        assert((enc + rest).subrange(0, 4) =~= be_fixed(n, 4));
        assert((enc + rest).subrange(4, 4 + n as int) =~= self@);
    }
}

impl TopEncode for TokenIdentifier {
    open spec fn top_enc(&self) -> Seq<u8> {
        self@
    }

    open spec fn top_enc_ok(&self) -> bool {
        true
    }

    fn top_encode_or_handle_err<H: EncodeErrorHandler>(
        &self,
        output: &mut Vec<u8>,
        h: &mut H,
    ) -> (r: Result<(), H::HandledErr>) {
        output.clear();
        push_bytes(output, self.bytes.as_slice());
        proof {
            assert(output@ =~= self@);
        }
        Ok(())
    }
}

impl TopDecode for TokenIdentifier {
    open spec fn top_dec(b: Seq<u8>) -> Result<Seq<u8>, DecodeError> {
        Ok(b)
    }

    fn top_decode_or_handle_err<H: DecodeErrorHandler>(input: &[u8], h: &mut H) -> (r: Result<
        Self,
        H::HandledErr,
    >) {
        Ok(TokenIdentifier { bytes: vstd::slice::slice_to_vec(input) })
    }
}

impl TopCodecLaw for TokenIdentifier {
    proof fn lemma_top_round_trip(&self) {
    }
}

} // verus!
