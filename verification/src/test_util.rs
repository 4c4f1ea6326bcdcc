//! Checks used by the test suite: encode a value, compare against the
//! expected bytes, decode them back and compare with the value encoded.

use vstd::prelude::*;

use crate::bytes_util::bytes_eq;
use crate::codec::{
    top_decode, top_encode_to_vec, CodecValue, NestedDecode, NestedEncode, TopDecode, TopEncode,
};
use crate::codec_err::DecodeError;
use crate::handler::DefaultErrorHandler;
use crate::source::ByteSource;

verus! {

/// Whether `element` top-encodes exactly to `expected_bytes` and
/// `expected_bytes` top-decodes back to `element`.
pub fn check_top_encode_decode<T: TopEncode + TopDecode>(element: T, expected_bytes: &[u8]) -> (r:
    bool)
    requires
        element.top_enc_ok(),
    ensures
        r == (element.top_enc() == expected_bytes@ && T::top_dec(expected_bytes@) == Ok::<
            T::ModelT,
            DecodeError,
        >(element.model())),
{
    let enc = top_encode_to_vec(&element);
    if !bytes_eq(enc.as_slice(), expected_bytes) {
        return false;
    }
    match top_decode::<T>(expected_bytes) {
        Ok(v) => v.eq_value(&element),
        Err(_) => false,
    }
}

/// Whether `element` nested-encodes exactly to `expected_bytes` and
/// `expected_bytes` nested-decodes back to `element`, consuming the whole
/// buffer.
pub fn check_dep_encode_decode<T: NestedEncode + NestedDecode>(
    element: T,
    expected_bytes: &[u8],
) -> (r: bool)
    requires
        element.nested_enc_ok(),
    ensures
        r == (element.nested_enc() == expected_bytes@ && T::nested_dec(expected_bytes@) == Ok::<
            (T::ModelT, int),
            DecodeError,
        >((element.model(), expected_bytes@.len() as int))),
{
    let mut enc: Vec<u8> = Vec::new();
    let mut handler = DefaultErrorHandler;
    let _encode_result = element.dep_encode_or_handle_err(&mut enc, &mut handler);
    proof {
        assert(enc@ =~= element.nested_enc());
    }
    if !bytes_eq(enc.as_slice(), expected_bytes) {
        return false;
    }
    let mut source = ByteSource::new_from_slice(expected_bytes);
    match T::dep_decode_or_handle_err(&mut source, &mut handler) {
        Ok(v) => {
            if source.remaining_len() != 0 {
                return false;
            }
            v.eq_value(&element)
        },
        Err(_) => false,
    }
}

} // verus!
