//! The codec trait contracts.
//!
//! Every codec-implementing type has a mathematical *model* (its abstract
//! content), a *nested* encoding (self-delimiting, usable inside a larger
//! stream) and a *top-level* encoding (occupying an entire buffer). The
//! decode contracts are stated against per-type spec functions over byte
//! sequences, and the round-trip laws are proof obligations that every
//! implementation must discharge.

use vstd::prelude::*;

use crate::codec_err::DecodeError;
use crate::handler::{DecodeErrorHandler, DefaultErrorHandler, EncodeErrorHandler};
use crate::source::ByteSource;

verus! {

/// A type with a canonical byte representation. `ModelT` is the abstract
/// content that the codec contracts speak of; `eq_value` decides model
/// equality on concrete values.
pub trait CodecValue {
    type ModelT;

    /// The abstract content of this value.
    spec fn model(&self) -> Self::ModelT;

    fn eq_value(&self, other: &Self) -> (r: bool)
        ensures
            r == (self.model() == other.model()),
    ;
}

/// The self-delimiting encoding, used when a value is part of a larger
/// stream.
pub trait NestedEncode: CodecValue {
    /// The nested encoding of this value.
    spec fn nested_enc(&self) -> Seq<u8>;

    /// When the value can be nested-encoded at all (some types bound a
    /// length by what a four-byte prefix can carry).
    spec fn nested_enc_ok(&self) -> bool;

    /// Append the nested encoding of `self` to `dest`. Writing to an
    /// in-memory sink cannot fail, so the handler is never invoked.
    fn dep_encode_or_handle_err<H: EncodeErrorHandler>(
        &self,
        dest: &mut Vec<u8>,
        h: &mut H,
    ) -> (r: Result<(), H::HandledErr>)
        requires
            self.nested_enc_ok(),
        ensures
            r is Ok,
            final(dest)@ == old(dest)@ + self.nested_enc(),
            *final(h) == *old(h),
    ;
}

/// The no-error form of the nested encoding, for types whose encoding to an
/// in-memory sink cannot fail.
pub trait NestedEncodeNoErr: NestedEncode {
    /// Append the nested encoding of `self` to `dest`.
    fn dep_encode_no_err(&self, dest: &mut Vec<u8>)
        requires
            self.nested_enc_ok(),
        ensures
            final(dest)@ == old(dest)@ + self.nested_enc(),
    ;
}

/// The self-delimiting decoding: consume exactly the bytes of one value and
/// advance the source's cursor by that amount.
pub trait NestedDecode: CodecValue + Sized {
    /// What decoding one value from the front of `b` yields: the model of
    /// the value and the number of bytes it occupies, or the error.
    spec fn nested_dec(b: Seq<u8>) -> Result<(Self::ModelT, int), DecodeError>;

    /// Decode one value from `input`. On success the cursor advances by
    /// exactly the value's length; on failure the handler is invoked exactly
    /// once, with the error kind of the first failure, and the cursor only
    /// ever moves forward.
    fn dep_decode_or_handle_err<H: DecodeErrorHandler>(input: &mut ByteSource, h: &mut H) -> (r:
        Result<Self, H::HandledErr>)
        requires
            old(input).wf(),
        ensures
            final(input).wf(),
            final(input).data_spec() == old(input).data_spec(),
            match Self::nested_dec(old(input).remaining()) {
                Ok(p) => (r matches Ok(v) && v.model() == p.0 && final(input).pos_spec() == old(
                    input,
                ).pos_spec() + p.1 && *final(h) == *old(h)),
                Err(e) => (r matches Err(he) && he == old(h).handled(e) && *final(h) == old(
                    h,
                ).state_after(e) && final(input).pos_spec() >= old(input).pos_spec()),
            },
    ;
}

/// The whole-buffer encoding: the value's representation occupies the entire
/// output.
pub trait TopEncode: CodecValue {
    /// The top-level encoding of this value.
    spec fn top_enc(&self) -> Seq<u8>;

    /// When the value can be top-encoded at all.
    spec fn top_enc_ok(&self) -> bool;

    /// Replace `output` with the top-level encoding of `self`. Writing to an
    /// in-memory sink cannot fail, so the handler is never invoked.
    fn top_encode_or_handle_err<H: EncodeErrorHandler>(
        &self,
        output: &mut Vec<u8>,
        h: &mut H,
    ) -> (r: Result<(), H::HandledErr>)
        requires
            self.top_enc_ok(),
        ensures
            r is Ok,
            final(output)@ == self.top_enc(),
            *final(h) == *old(h),
    ;
}

/// The whole-buffer decoding: the entire input is the representation of one
/// value; where the value ends is defined solely by the end of the buffer.
pub trait TopDecode: CodecValue + Sized {
    /// What decoding the whole of `b` yields: the model of the value, or the
    /// error.
    spec fn top_dec(b: Seq<u8>) -> Result<Self::ModelT, DecodeError>;

    /// Decode the entire input as one value. On failure the handler is
    /// invoked exactly once, with the error kind of the first failure.
    fn top_decode_or_handle_err<H: DecodeErrorHandler>(input: &[u8], h: &mut H) -> (r: Result<
        Self,
        H::HandledErr,
    >)
        ensures
            match Self::top_dec(input@) {
                Ok(m) => (r matches Ok(v) && v.model() == m && *final(h) == *old(h)),
                Err(e) => (r matches Err(he) && he == old(h).handled(e) && *final(h) == old(
                    h,
                ).state_after(e)),
            },
    ;
}

/// Round-trip law of the nested codec: decoding an encoding, with anything
/// at all after it, yields the encoded value and consumes exactly the
/// encoding's length. Every implementation proves it.
pub trait NestedCodecLaw: NestedEncode + NestedDecode {
    proof fn lemma_nested_round_trip(&self, rest: Seq<u8>)
        requires
            self.nested_enc_ok(),
        ensures
            Self::nested_dec(self.nested_enc() + rest) == Ok::<(Self::ModelT, int), DecodeError>(
                (self.model(), self.nested_enc().len() as int),
            ),
    ;
}

/// Round-trip law of the top-level codec: decoding an encoding yields the
/// encoded value. Every implementation proves it.
pub trait TopCodecLaw: TopEncode + TopDecode {
    proof fn lemma_top_round_trip(&self)
        requires
            self.top_enc_ok(),
        ensures
            Self::top_dec(self.top_enc()) == Ok::<Self::ModelT, DecodeError>(self.model()),
    ;
}

/// The bridge from the nested to the top-level decoding: decode one value
/// from the front, then demand that nothing is left.
pub open spec fn spec_top_dec_from_nested<T: NestedDecode>(b: Seq<u8>) -> Result<
    T::ModelT,
    DecodeError,
> {
    match T::nested_dec(b) {
        Ok(p) => if p.1 == b.len() {
            Ok(p.0)
        } else {
            Err(DecodeError::InputTooLong)
        },
        Err(e) => Err(e),
    }
}

/// Top-encode by bridging to the nested codec: the whole output is the
/// value's nested encoding.
pub fn top_encode_from_nested<T: NestedEncode, H: EncodeErrorHandler>(
    value: &T,
    output: &mut Vec<u8>,
    h: &mut H,
) -> (r: Result<(), H::HandledErr>)
    requires
        value.nested_enc_ok(),
    ensures
        r is Ok,
        final(output)@ == value.nested_enc(),
        *final(h) == *old(h),
{
    output.clear();
    let r = value.dep_encode_or_handle_err(output, h);
    proof {
        assert(output@ =~= value.nested_enc());
    }
    r
}

/// Top-decode by bridging to the nested codec: decode one value, then fail
/// with `InputTooLong` if any byte is left; trailing bytes are never
/// tolerated.
pub fn top_decode_from_nested_or_handle_err<T: NestedDecode, H: DecodeErrorHandler>(
    input: &[u8],
    h: &mut H,
) -> (r: Result<T, H::HandledErr>)
    ensures
        match spec_top_dec_from_nested::<T>(input@) {
            Ok(m) => (r matches Ok(v) && v.model() == m && *final(h) == *old(h)),
            Err(e) => (r matches Err(he) && he == old(h).handled(e) && *final(h) == old(
                h,
            ).state_after(e)),
        },
{
    let mut source = ByteSource::new_from_slice(input);
    match T::dep_decode_or_handle_err(&mut source, h) {
        Ok(v) => {
            if source.remaining_len() > 0 {
                Err(h.handle_error(DecodeError::InputTooLong))
            } else {
                Ok(v)
            }
        },
        Err(e) => Err(e),
    }
}

/// Top-encode a value into a fresh buffer with the Result convention.
pub fn top_encode_to_vec<T: TopEncode>(value: &T) -> (r: Vec<u8>)
    requires
        value.top_enc_ok(),
    ensures
        r@ == value.top_enc(),
{
    let mut output: Vec<u8> = Vec::new();
    let mut handler = DefaultErrorHandler;
    match value.top_encode_or_handle_err(&mut output, &mut handler) {
        Ok(()) => output,
        Err(_) => output,
    }
}

/// Top-decode a whole buffer with the Result convention.
pub fn top_decode<T: TopDecode>(input: &[u8]) -> (r: Result<T, DecodeError>)
    ensures
        match T::top_dec(input@) {
            Ok(m) => (r matches Ok(v) && v.model() == m),
            Err(e) => r matches Err(he) && he == e,
        },
{
    let mut handler = DefaultErrorHandler;
    T::top_decode_or_handle_err(input, &mut handler)
}

/// A multi-field value's nested encoding is the concatenation of its fields'
/// nested encodings in declared order; decoding the concatenation
/// field-by-field, in the same order, reproduces the fields and consumes
/// each field's exact length.
pub proof fn lemma_concat_fields_round_trip<A: NestedCodecLaw, B: NestedCodecLaw>(
    a: &A,
    b: &B,
    rest: Seq<u8>,
)
    requires
        a.nested_enc_ok(),
        b.nested_enc_ok(),
    ensures
        A::nested_dec(a.nested_enc() + b.nested_enc() + rest) == Ok::<
            (A::ModelT, int),
            DecodeError,
        >((a.model(), a.nested_enc().len() as int)),
        B::nested_dec((a.nested_enc() + b.nested_enc() + rest).skip(a.nested_enc().len() as int))
            == Ok::<(B::ModelT, int), DecodeError>((b.model(), b.nested_enc().len() as int)),
{
    let bytes = a.nested_enc() + b.nested_enc() + rest;
    assert(bytes =~= a.nested_enc() + (b.nested_enc() + rest));
    a.lemma_nested_round_trip(b.nested_enc() + rest);
    b.lemma_nested_round_trip(rest);
    assert(bytes.skip(a.nested_enc().len() as int) =~= b.nested_enc() + rest);
}

/// A top-level decode of a complete value followed by any extra byte fails
/// with `InputTooLong`: it never silently succeeds or truncates.
pub proof fn lemma_top_from_nested_rejects_trailing<T: NestedCodecLaw>(value: &T, extra: Seq<u8>)
    requires
        value.nested_enc_ok(),
        extra.len() > 0,
    ensures
        spec_top_dec_from_nested::<T>(value.nested_enc() + extra) == Err::<T::ModelT, DecodeError>(
            DecodeError::InputTooLong,
        ),
{
    value.lemma_nested_round_trip(extra);
}

} // verus!
