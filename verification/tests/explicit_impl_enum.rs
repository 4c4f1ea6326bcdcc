//! The tagged-union wire format: the four variant shapes, both codec paths,
//! the invalid-index rejection and the exit-handler convention.

use elrond_wasm::tagged_enum::E;
use elrond_wasm::test_util::{check_dep_encode_decode, check_top_encode_decode};
use elrond_wasm::{
    top_decode, top_encode_to_vec, ByteSource, DecodeError, DecodeErrorHandler,
    DefaultErrorHandler, ExitHandler, ExitSignal, NestedDecode, TopDecode,
};

#[test]
fn test_top() {
    let u = E::Unit;
    let expected: &[u8] = &[/*variant index*/ 0, 0, 0, 0];
    assert!(check_top_encode_decode(u, expected));

    let n = E::Newtype(1);
    let expected: &[u8] = &[/*variant index*/ 0, 0, 0, 1, /*data*/ 0, 0, 0, 1];
    assert!(check_top_encode_decode(n, expected));

    let t = E::Tuple(1, 2);
    let expected: &[u8] = &[
        /*variant index*/ 0, 0, 0, 2, /*(*/ 0, 0, 0, 1, /*,*/ 0, 0, 0, 2, /*)*/
    ];
    assert!(check_top_encode_decode(t, expected));

    let s = E::Struct { a: 1 };
    let expected: &[u8] = &[/*variant index*/ 0, 0, 0, 3, /*data*/ 0, 0, 0, 1];
    assert!(check_top_encode_decode(s, expected));
}

#[test]
fn test_dep() {
    let u = E::Unit;
    let expected: &[u8] = &[/*variant index*/ 0, 0, 0, 0];
    assert!(check_dep_encode_decode(u, expected));

    let n = E::Newtype(1);
    let expected: &[u8] = &[/*variant index*/ 0, 0, 0, 1, /*data*/ 0, 0, 0, 1];
    assert!(check_dep_encode_decode(n, expected));

    let t = E::Tuple(1, 2);
    let expected: &[u8] = &[
        /*variant index*/ 0, 0, 0, 2, /*(*/ 0, 0, 0, 1, /*,*/ 0, 0, 0, 2, /*)*/
    ];
    assert!(check_dep_encode_decode(t, expected));

    let s = E::Struct { a: 1 };
    let expected: &[u8] = &[/*variant index*/ 0, 0, 0, 3, /*data*/ 0, 0, 0, 1];
    assert!(check_dep_encode_decode(s, expected));
}

#[test]
fn invalid_variant_index_fails() {
    let r: Result<E, DecodeError> = top_decode(&[0, 0, 0, 4]);
    assert_eq!(r, Err(DecodeError::InvalidValue));

    let r: Result<E, DecodeError> = top_decode(&[0, 0, 0, 255]);
    assert_eq!(r, Err(DecodeError::InvalidValue));
}

#[test]
fn trailing_byte_fails_top_decode() {
    let r: Result<E, DecodeError> = top_decode(&[0, 0, 0, 0, 0]);
    assert_eq!(r, Err(DecodeError::InputTooLong));

    let r: Result<E, DecodeError> = top_decode(&[0, 0, 0, 1, 0, 0, 0, 1, 9]);
    assert_eq!(r, Err(DecodeError::InputTooLong));
}

#[test]
fn truncated_payload_fails_top_decode() {
    let r: Result<E, DecodeError> = top_decode(&[0, 0, 0, 1, 0, 0]);
    assert_eq!(r, Err(DecodeError::InputTooShort));

    let r: Result<E, DecodeError> = top_decode(&[0, 0]);
    assert_eq!(r, Err(DecodeError::InputTooShort));
}

#[test]
fn exit_handler_invoked_exactly_once_on_failure() {
    let mut handler = ExitHandler::new();
    let r = <E as TopDecode>::top_decode_or_handle_err(&[0, 0, 0, 4], &mut handler);
    assert_eq!(r.err(), Some(ExitSignal::DecodeFailure(DecodeError::InvalidValue)));
    assert_eq!(handler.invocations, 1);
    assert_eq!(handler.last_decode_error, Some(DecodeError::InvalidValue));

    let mut handler = ExitHandler::new();
    let r = <E as TopDecode>::top_decode_or_handle_err(&[0, 0, 0, 0, 7], &mut handler);
    assert_eq!(r.err(), Some(ExitSignal::DecodeFailure(DecodeError::InputTooLong)));
    assert_eq!(handler.invocations, 1);
    assert_eq!(handler.last_decode_error, Some(DecodeError::InputTooLong));
}

#[test]
fn exit_handler_untouched_on_success() {
    let mut handler = ExitHandler::new();
    let r = <E as TopDecode>::top_decode_or_handle_err(&[0, 0, 0, 0], &mut handler);
    assert!(r.is_ok());
    assert_eq!(handler.invocations, 0);
    assert_eq!(handler.last_decode_error, None);
}

#[test]
fn variant_index_is_a_four_byte_prefix_whatever_the_payload() {
    // each case's encoding starts with its zero-based declaration order in
    // four big-endian bytes, independent of the payload
    assert_eq!(&top_encode_to_vec(&E::Unit)[0..4], &[0, 0, 0, 0]);
    assert_eq!(&top_encode_to_vec(&E::Newtype(0xDDCCBBAA))[0..4], &[0, 0, 0, 1]);
    assert_eq!(&top_encode_to_vec(&E::Tuple(u32::MAX, 0))[0..4], &[0, 0, 0, 2]);
    assert_eq!(&top_encode_to_vec(&E::Struct { a: 77 })[0..4], &[0, 0, 0, 3]);
}

#[test]
fn concatenated_fields_decode_in_declared_order() {
    // the nested encoding of a multi-field case is the concatenation of its
    // fields' nested encodings after the index; decoding them field by field
    // in the same order reproduces the values
    let tuple_encoding = top_encode_to_vec(&E::Tuple(0x0A0B0C0D, 2));
    let mut field_bytes = top_encode_to_vec(&0x0A0B0C0Du32);
    field_bytes = {
        let mut concat = vec![0u8, 0, 0, 2];
        concat.extend_from_slice(&field_bytes[..]);
        concat.extend_from_slice(&[0, 0, 0, 2]);
        concat
    };
    assert_eq!(tuple_encoding, field_bytes);

    let mut source = ByteSource::new(vec![0, 0, 0, 2, 0x0A, 0x0B, 0x0C, 0x0D, 0, 0, 0, 2]);
    let mut handler = DefaultErrorHandler;
    assert_eq!(u32::dep_decode_or_handle_err(&mut source, &mut handler), Ok(2));
    assert_eq!(u32::dep_decode_or_handle_err(&mut source, &mut handler), Ok(0x0A0B0C0D));
    assert_eq!(u32::dep_decode_or_handle_err(&mut source, &mut handler), Ok(2));
    assert_eq!(source.remaining_len(), 0);
}

#[test]
fn default_handler_returns_the_raw_error() {
    let mut handler = elrond_wasm::DefaultErrorHandler;
    let r = <E as TopDecode>::top_decode_or_handle_err(&[0, 0, 0, 9], &mut handler);
    assert_eq!(r.err(), Some(DecodeError::InvalidValue));
    let raw = handler.handle_error(DecodeError::InputTooShort);
    assert_eq!(raw, DecodeError::InputTooShort);
}
