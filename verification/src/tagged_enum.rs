//! The reference tagged union and its explicit codec implementation.
//!
//! A tagged union is encoded as a four-byte big-endian variant index equal
//! to the case's zero-based declaration order, followed by the nested
//! encodings of that case's fields in declaration order. No case omits the
//! index, the unit case included. Decoding reads the index, dispatches to
//! the matching case's field decodes in order, and fails with
//! `InvalidValue` on an index outside the known range.

use vstd::prelude::*;

use crate::codec::{
    spec_top_dec_from_nested, top_decode_from_nested_or_handle_err, top_encode_from_nested,
    CodecValue, NestedCodecLaw, NestedDecode, NestedEncode, NestedEncodeNoErr, TopCodecLaw,
    TopDecode, TopEncode,
};
use crate::codec_err::DecodeError;
use crate::handler::{DecodeErrorHandler, EncodeErrorHandler};
use crate::num_codec::{be_fixed, be_value, lemma_be_fixed_len, lemma_be_fixed_value, lemma_be_value_bound, lemma_pow256_values};
use crate::source::ByteSource;

verus! {

/// A four-case tagged union exercising every variant shape: unit, newtype,
/// tuple and struct.
#[derive(Clone, Copy, Debug, PartialEq, Eq, Structural)]
pub enum E {
    Unit,
    Newtype(u32),
    Tuple(u32, u32),
    Struct { a: u32 },
}

/// The zero-based declaration order of a case.
pub open spec fn variant_index(e: E) -> u32 {
    match e {
        E::Unit => 0,
        E::Newtype(_) => 1,
        E::Tuple(_, _) => 2,
        E::Struct { a: _ } => 3,
    }
}

impl CodecValue for E {
    type ModelT = E;

    open spec fn model(&self) -> E {
        *self
    }

    fn eq_value(&self, other: &Self) -> (r: bool) {
        *self == *other
    }
}

impl NestedEncode for E {
    open spec fn nested_enc(&self) -> Seq<u8> {
        match *self {
            E::Unit => be_fixed(0, 4),
            E::Newtype(x) => be_fixed(1, 4) + x.nested_enc(),
            E::Tuple(x, y) => be_fixed(2, 4) + x.nested_enc() + y.nested_enc(),
            E::Struct { a } => be_fixed(3, 4) + a.nested_enc(),
        }
    }

    open spec fn nested_enc_ok(&self) -> bool {
        true
    }

    fn dep_encode_or_handle_err<H: EncodeErrorHandler>(
        &self,
        dest: &mut Vec<u8>,
        h: &mut H,
    ) -> (r: Result<(), H::HandledErr>) {
        self.dep_encode_no_err(dest);
        Ok(())
    }
}

impl NestedEncodeNoErr for E {
    fn dep_encode_no_err(&self, dest: &mut Vec<u8>) {
        match self {
            E::Unit => {
                0u32.dep_encode_no_err(dest);
            },
            E::Newtype(arg1) => {
                1u32.dep_encode_no_err(dest);
                arg1.dep_encode_no_err(dest);
                proof {
                    assert(dest@ =~= old(dest)@ + self.nested_enc());
                }
            },
            E::Tuple(arg1, arg2) => {
                2u32.dep_encode_no_err(dest);
                arg1.dep_encode_no_err(dest);
                arg2.dep_encode_no_err(dest);
                proof {
                    assert(dest@ =~= old(dest)@ + self.nested_enc());
                }
            },
            E::Struct { a } => {
                3u32.dep_encode_no_err(dest);
                a.dep_encode_no_err(dest);
                proof {
                    assert(dest@ =~= old(dest)@ + self.nested_enc());
                }
            },
        }
    }
}

impl NestedDecode for E {
    open spec fn nested_dec(b: Seq<u8>) -> Result<(E, int), DecodeError> {
        match u32::nested_dec(b) {
            Ok((tag, tag_len)) => if tag == 0 {
                Ok((E::Unit, tag_len))
            } else if tag == 1 {
                match u32::nested_dec(b.skip(tag_len)) {
                    Ok((x, xn)) => Ok((E::Newtype(x), tag_len + xn)),
                    Err(e) => Err(e),
                }
            } else if tag == 2 {
                match u32::nested_dec(b.skip(tag_len)) {
                    Ok((x, xn)) => match u32::nested_dec(b.skip(tag_len + xn)) {
                        Ok((y, yn)) => Ok((E::Tuple(x, y), tag_len + xn + yn)),
                        Err(e) => Err(e),
                    },
                    Err(e) => Err(e),
                }
            } else if tag == 3 {
                match u32::nested_dec(b.skip(tag_len)) {
                    Ok((x, xn)) => Ok((E::Struct { a: x }, tag_len + xn)),
                    Err(e) => Err(e),
                }
            } else {
                Err(DecodeError::InvalidValue)
            },
            Err(e) => Err(e),
        }
    }

    fn dep_decode_or_handle_err<H: DecodeErrorHandler>(input: &mut ByteSource, h: &mut H) -> (r:
        Result<Self, H::HandledErr>) {
        let ghost b = old(input).remaining();
        let tag = match u32::dep_decode_or_handle_err(input, h) {
            Ok(t) => t,
            Err(e) => {
                return Err(e);
            },
        };
        proof {
            assert(input.remaining() =~= b.skip(4));
        }
        if tag == 0 {
            Ok(E::Unit)
        } else if tag == 1 {
            match u32::dep_decode_or_handle_err(input, h) {
                Ok(x) => Ok(E::Newtype(x)),
                Err(e) => Err(e),
            }
        } else if tag == 2 {
            let x = match u32::dep_decode_or_handle_err(input, h) {
                Ok(x) => x,
                Err(e) => {
                    return Err(e);
                },
            };
            proof {
                assert(input.remaining() =~= b.skip(8));
            }
            match u32::dep_decode_or_handle_err(input, h) {
                Ok(y) => Ok(E::Tuple(x, y)),
                Err(e) => Err(e),
            }
        } else if tag == 3 {
            match u32::dep_decode_or_handle_err(input, h) {
                Ok(x) => Ok(E::Struct { a: x }),
                Err(e) => Err(e),
            }
        } else {
            Err(h.handle_error(DecodeError::InvalidValue))
        }
    }
}

impl NestedCodecLaw for E {
    proof fn lemma_nested_round_trip(&self, rest: Seq<u8>) {
        let enc = self.nested_enc();
        lemma_pow256_values();
        lemma_be_fixed_len(variant_index(*self) as nat, 4);
        lemma_be_fixed_value(variant_index(*self) as nat, 4);
        let tag_enc = be_fixed(variant_index(*self) as nat, 4);
        assert((enc + rest).subrange(0, 4) =~= tag_enc);
        match *self {
            E::Unit => {},
            E::Newtype(x) => {
                x.lemma_nested_round_trip(rest);
                assert((enc + rest).skip(4) =~= x.nested_enc() + rest);
            },
            E::Tuple(x, y) => {
                x.lemma_nested_round_trip(y.nested_enc() + rest);
                assert((enc + rest).skip(4) =~= x.nested_enc() + (y.nested_enc() + rest));
                y.lemma_nested_round_trip(rest);
                lemma_be_fixed_len(x as nat, 4);
                assert((enc + rest).skip(8) =~= y.nested_enc() + rest);
            },
            E::Struct { a } => {
                a.lemma_nested_round_trip(rest);
                assert((enc + rest).skip(4) =~= a.nested_enc() + rest);
            },
        }
    }
}

impl TopEncode for E {
    open spec fn top_enc(&self) -> Seq<u8> {
        self.nested_enc()
    }

    open spec fn top_enc_ok(&self) -> bool {
        true
    }

    fn top_encode_or_handle_err<H: EncodeErrorHandler>(
        &self,
        output: &mut Vec<u8>,
        h: &mut H,
    ) -> (r: Result<(), H::HandledErr>) {
        top_encode_from_nested(self, output, h)
    }
}

impl TopDecode for E {
    open spec fn top_dec(b: Seq<u8>) -> Result<E, DecodeError> {
        spec_top_dec_from_nested::<E>(b)
    }

    fn top_decode_or_handle_err<H: DecodeErrorHandler>(input: &[u8], h: &mut H) -> (r: Result<
        Self,
        H::HandledErr,
    >) {
        top_decode_from_nested_or_handle_err::<E, H>(input, h)
    }
}

impl TopCodecLaw for E {
    proof fn lemma_top_round_trip(&self) {
        self.lemma_nested_round_trip(Seq::empty());
        assert(self.nested_enc() + Seq::<u8>::empty() =~= self.nested_enc());
    }
}

/// Every tagged-union encoding begins with the four-byte big-endian variant
/// index equal to the case's declaration order, independent of the payload,
/// in the top-level and the nested form alike.
pub proof fn lemma_variant_index_prefix(e: &E)
    ensures
        e.nested_enc().len() >= 4,
        e.nested_enc().subrange(0, 4) == be_fixed(variant_index(*e) as nat, 4),
        be_value(e.nested_enc().subrange(0, 4)) == variant_index(*e) as nat,
        e.top_enc() == e.nested_enc(),
{
    lemma_pow256_values();
    lemma_be_fixed_len(variant_index(*e) as nat, 4);
    lemma_be_fixed_value(variant_index(*e) as nat, 4);
    match *e {
        E::Unit => {
            assert(e.nested_enc().subrange(0, 4) =~= be_fixed(variant_index(*e) as nat, 4));
        },
        E::Newtype(x) => {
            assert(e.nested_enc().subrange(0, 4) =~= be_fixed(variant_index(*e) as nat, 4));
        },
        E::Tuple(x, y) => {
            assert(e.nested_enc().subrange(0, 4) =~= be_fixed(variant_index(*e) as nat, 4));
        },
        E::Struct { a } => {
            assert(e.nested_enc().subrange(0, 4) =~= be_fixed(variant_index(*e) as nat, 4));
        },
    }
}

/// A variant index outside the known range never decodes to a value: it
/// fails with `InvalidValue`, in the nested and the top-level form alike.
pub proof fn lemma_invalid_variant_index(b: Seq<u8>)
    requires
        b.len() >= 4,
        be_value(b.subrange(0, 4)) >= 4,
    ensures
        E::nested_dec(b) == Err::<(E, int), DecodeError>(DecodeError::InvalidValue),
        spec_top_dec_from_nested::<E>(b) == Err::<E, DecodeError>(DecodeError::InvalidValue),
{
    lemma_be_value_bound(b.subrange(0, 4));
    lemma_pow256_values();
}

} // verus!
