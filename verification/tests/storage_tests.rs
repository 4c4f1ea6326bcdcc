//! The storage boundary: raw slots, the typed accessors and the
//! single-value mapper.

use elrond_wasm::big_uint::BigUint;
use elrond_wasm::{
    storage_clear, storage_get, storage_get_len, storage_set, SingleValueMapper, Storage,
};

#[test]
fn fresh_storage_is_empty() {
    let storage = Storage::new();
    assert_eq!(storage.get_bytes_vec(b"anything"), Vec::<u8>::new());
    assert_eq!(storage.get_len(b"anything"), 0);
}

#[test]
fn set_and_get_bytes() {
    let mut storage = Storage::new();
    storage.set_bytes(b"k1", &[1, 2, 3]);
    storage.set_bytes(b"k2", &[9]);
    assert_eq!(storage.get_bytes_vec(b"k1"), vec![1, 2, 3]);
    assert_eq!(storage.get_bytes_vec(b"k2"), vec![9]);
    storage.set_bytes(b"k1", &[4]);
    assert_eq!(storage.get_bytes_vec(b"k1"), vec![4]);
    assert_eq!(storage.get_bytes_vec(b"k2"), vec![9]);
}

#[test]
fn typed_storage_round_trip() {
    let mut storage = Storage::new();
    storage_set(&mut storage, b"counter", &777u32);
    assert_eq!(storage.get_bytes_vec(b"counter"), vec![3, 9]);
    let read: u32 = storage_get(&storage, b"counter");
    assert_eq!(read, 777);
    assert_eq!(storage_get_len(&storage, b"counter"), 2);
    storage_clear(&mut storage, b"counter");
    assert_eq!(storage_get_len(&storage, b"counter"), 0);
}

#[test]
fn mapper_set_get_and_length() {
    let mut storage = Storage::new();
    let mapper: SingleValueMapper<u32> = SingleValueMapper::new(b"slot");
    assert!(mapper.is_empty(&storage));
    mapper.set(&mut storage, &300u32);
    assert!(!mapper.is_empty(&storage));
    assert_eq!(mapper.raw_byte_length(&storage), 2);
    assert_eq!(mapper.get(&storage), 300);
    mapper.clear(&mut storage);
    assert!(mapper.is_empty(&storage));
}

#[test]
fn mapper_zero_encodes_to_an_empty_slot() {
    // the minimal top-level form of zero is the empty string, so the slot
    // stays "empty" by the raw-byte-length rule
    let mut storage = Storage::new();
    let mapper: SingleValueMapper<u32> = SingleValueMapper::new(b"z");
    mapper.set(&mut storage, &0u32);
    assert!(mapper.is_empty(&storage));
    assert_eq!(mapper.get(&storage), 0);
}

#[test]
fn mapper_set_if_empty_only_writes_once() {
    let mut storage = Storage::new();
    let mapper: SingleValueMapper<u32> = SingleValueMapper::new(b"slot");
    mapper.set_if_empty(&mut storage, &5u32);
    assert_eq!(mapper.get(&storage), 5);
    mapper.set_if_empty(&mut storage, &6u32);
    assert_eq!(mapper.get(&storage), 5);
}

#[test]
fn mapper_update_applies_and_persists() {
    let mut storage = Storage::new();
    let mapper: SingleValueMapper<u32> = SingleValueMapper::new(b"slot");
    mapper.set(&mut storage, &10u32);
    let previous = mapper.update(&mut storage, |v: u32| (v + 1, v));
    assert_eq!(previous, 10);
    assert_eq!(mapper.get(&storage), 11);
}

#[test]
fn mapper_into_nested_keeps_the_slot() {
    let mut storage = Storage::new();
    let mapper: SingleValueMapper<u32> = SingleValueMapper::new(b"slot");
    mapper.set(&mut storage, &4u32);
    let nested = mapper.into_nested();
    assert_eq!(nested.get(&storage), 4);
}

#[test]
fn mapper_with_big_uint_values() {
    let mut storage = Storage::new();
    let mapper: SingleValueMapper<BigUint> = SingleValueMapper::new(b"amount");
    mapper.set(&mut storage, &BigUint::from_u64(1000));
    assert_eq!(storage.get_bytes_vec(b"amount"), vec![3, 232]);
    let read: BigUint = mapper.get(&storage);
    assert_eq!(read.to_bytes_be(), vec![3, 232]);
}
