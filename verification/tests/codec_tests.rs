//! The integer and byte-buffer codecs: fixed-width nested forms, minimal
//! top-level forms, the cursor discipline of nested decoding, and the error
//! cases of each path.

use elrond_wasm::big_uint::BigUint;
use elrond_wasm::boxed_bytes::BoxedBytes;
use elrond_wasm::test_util::{check_dep_encode_decode, check_top_encode_decode};
use elrond_wasm::token::TokenIdentifier;
use elrond_wasm::{
    top_decode, top_encode_to_vec, ByteSource, CodecValue, DecodeError, DefaultErrorHandler,
    NestedDecode, TopDecode,
};

#[test]
fn u32_minimal_top_encoding() {
    assert_eq!(top_encode_to_vec(&0u32), Vec::<u8>::new());
    assert_eq!(top_encode_to_vec(&1u32), vec![1]);
    assert_eq!(top_encode_to_vec(&255u32), vec![255]);
    assert_eq!(top_encode_to_vec(&256u32), vec![1, 0]);
    assert_eq!(top_encode_to_vec(&0x01020304u32), vec![1, 2, 3, 4]);
    assert_eq!(top_encode_to_vec(&u32::MAX), vec![255, 255, 255, 255]);
}

#[test]
fn u32_top_round_trip() {
    assert!(check_top_encode_decode(0u32, &[]));
    assert!(check_top_encode_decode(5u32, &[5]));
    assert!(check_top_encode_decode(0x0100u32, &[1, 0]));
    assert!(check_top_encode_decode(u32::MAX, &[255, 255, 255, 255]));
}

#[test]
fn u32_top_decode_accepts_short_and_rejects_long() {
    assert_eq!(top_decode::<u32>(&[]), Ok(0));
    assert_eq!(top_decode::<u32>(&[7]), Ok(7));
    assert_eq!(top_decode::<u32>(&[0, 7]), Ok(7));
    assert_eq!(top_decode::<u32>(&[1, 2, 3, 4]), Ok(0x01020304));
    assert_eq!(top_decode::<u32>(&[1, 2, 3, 4, 5]), Err(DecodeError::InputTooLong));
}

#[test]
fn u32_nested_is_fixed_width() {
    assert!(check_dep_encode_decode(0u32, &[0, 0, 0, 0]));
    assert!(check_dep_encode_decode(7u32, &[0, 0, 0, 7]));
    assert!(check_dep_encode_decode(0x01020304u32, &[1, 2, 3, 4]));
}

#[test]
fn u8_codec() {
    assert!(check_dep_encode_decode(9u8, &[9]));
    assert!(check_top_encode_decode(0u8, &[]));
    assert!(check_top_encode_decode(9u8, &[9]));
    assert_eq!(top_decode::<u8>(&[1, 2]), Err(DecodeError::InputTooLong));
}

#[test]
fn u64_codec() {
    assert!(check_dep_encode_decode(1u64, &[0, 0, 0, 0, 0, 0, 0, 1]));
    assert!(check_top_encode_decode(0u64, &[]));
    assert!(check_top_encode_decode(0x0102030405060708u64, &[1, 2, 3, 4, 5, 6, 7, 8]));
    assert_eq!(top_decode::<u64>(&[1, 2, 3, 4, 5, 6, 7, 8, 9]), Err(DecodeError::InputTooLong));
}

#[test]
fn usize_nested_is_four_bytes() {
    assert!(check_dep_encode_decode(5usize, &[0, 0, 0, 5]));
    assert!(check_top_encode_decode(5usize, &[5]));
}

#[test]
fn nested_decode_advances_cursor_exactly() {
    let mut source = ByteSource::new(vec![0, 0, 0, 1, 0, 0, 0, 2]);
    let mut handler = DefaultErrorHandler;
    assert_eq!(source.remaining_len(), 8);
    let first = u32::dep_decode_or_handle_err(&mut source, &mut handler);
    assert_eq!(first, Ok(1));
    assert_eq!(source.remaining_len(), 4);
    let second = u32::dep_decode_or_handle_err(&mut source, &mut handler);
    assert_eq!(second, Ok(2));
    assert_eq!(source.remaining_len(), 0);
}

#[test]
fn nested_decode_too_short_fails() {
    let mut source = ByteSource::new(vec![1, 2]);
    let mut handler = DefaultErrorHandler;
    let r = u32::dep_decode_or_handle_err(&mut source, &mut handler);
    assert_eq!(r, Err(DecodeError::InputTooShort));
}

#[test]
fn boxed_bytes_codec() {
    let empty = BoxedBytes::empty();
    assert_eq!(empty.len(), 0);
    assert!(check_top_encode_decode(BoxedBytes::empty(), &[]));
    assert!(check_dep_encode_decode(BoxedBytes::empty(), &[0, 0, 0, 0]));

    let b = BoxedBytes::from_slice(&[10, 20, 30]);
    assert_eq!(b.len(), 3);
    assert_eq!(b.as_slice(), &[10, 20, 30]);
    assert!(check_top_encode_decode(BoxedBytes::from_slice(&[10, 20, 30]), &[10, 20, 30]));
    assert!(check_dep_encode_decode(BoxedBytes::from_slice(&[10, 20, 30]), &[0, 0, 0, 3, 10, 20, 30]));
}

#[test]
fn boxed_bytes_nested_decode_too_short_fails() {
    // length prefix says five bytes, only two follow
    let mut source = ByteSource::new(vec![0, 0, 0, 5, 1, 2]);
    let mut handler = DefaultErrorHandler;
    let r = BoxedBytes::dep_decode_or_handle_err(&mut source, &mut handler);
    assert!(r.is_err());
    assert_eq!(r.err(), Some(DecodeError::InputTooShort));
}

#[test]
fn token_identifier_codec() {
    let t = TokenIdentifier::from_slice(b"TOK-123456");
    assert_eq!(t.len(), 10);
    assert!(check_top_encode_decode(TokenIdentifier::from_slice(b"AB"), &[65, 66]));
    assert!(check_dep_encode_decode(TokenIdentifier::from_slice(b"AB"), &[0, 0, 0, 2, 65, 66]));
    assert!(t.eq_value(&TokenIdentifier::from_slice(b"TOK-123456")));
    assert!(!t.eq_value(&TokenIdentifier::from_slice(b"OTHER")));
}

#[test]
fn big_uint_codec_and_value() {
    assert!(BigUint::zero().is_zero());
    assert_eq!(BigUint::zero().to_bytes_be(), Vec::<u8>::new());
    assert_eq!(BigUint::from_u64(0).to_bytes_be(), Vec::<u8>::new());
    assert_eq!(BigUint::from_u64(1).to_bytes_be(), vec![1]);
    assert_eq!(BigUint::from_u64(256).to_bytes_be(), vec![1, 0]);
    assert_eq!(BigUint::from_bytes_be(&[0, 0, 7]).to_bytes_be(), vec![7]);
    assert!(!BigUint::from_u64(7).is_zero());

    assert!(check_top_encode_decode(BigUint::from_u64(256), &[1, 0]));
    assert!(check_top_encode_decode(BigUint::zero(), &[]));
    assert!(check_dep_encode_decode(BigUint::from_u64(256), &[0, 0, 0, 2, 1, 0]));
}

#[test]
fn big_uint_top_decode_strips_leading_zeros() {
    let decoded: Result<BigUint, DecodeError> = top_decode(&[0, 0, 1, 0]);
    let v = decoded.ok().unwrap();
    assert_eq!(v.to_bytes_be(), vec![1, 0]);
}

#[test]
fn big_uint_half() {
    assert_eq!(BigUint::from_u64(0).half().to_bytes_be(), Vec::<u8>::new());
    assert_eq!(BigUint::from_u64(1).half().to_bytes_be(), Vec::<u8>::new());
    assert_eq!(BigUint::from_u64(7).half().to_bytes_be(), vec![3]);
    assert_eq!(BigUint::from_u64(256).half().to_bytes_be(), vec![128]);
    assert_eq!(BigUint::from_u64(513).half().to_bytes_be(), vec![1, 0]);
    let big = BigUint::from_bytes_be(&[1, 0, 0, 0, 0, 0, 0, 0, 0, 0]);
    assert_eq!(big.half().to_bytes_be(), vec![128, 0, 0, 0, 0, 0, 0, 0, 0]);
}

#[test]
fn encode_errors_do_not_occur_on_memory_sinks() {
    let value = 77u32;
    let encoded = top_encode_to_vec(&value);
    assert_eq!(encoded, vec![77]);
}
