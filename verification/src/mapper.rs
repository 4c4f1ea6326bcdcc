//! Manages a single serializable item in storage: the typed facade over one
//! storage slot. Values are persisted as their top-level encoding; a slot
//! with raw byte length zero is empty.

use vstd::prelude::*;

use crate::codec::{CodecValue, TopDecode, TopEncode};
use crate::storage::{storage_clear, storage_get, storage_get_len, storage_set, Storage};

verus! {

/// The typed facade over one storage slot, identified by its key. The store
/// itself is handed to each operation by the caller, so the mapper carries
/// no hidden state.
pub struct SingleValueMapper<T> {
    key: Vec<u8>,
    _phantom: core::marker::PhantomData<T>,
}

impl<T: TopEncode + TopDecode> SingleValueMapper<T> {
    /// The slot's key.
    pub closed spec fn key_spec(&self) -> Seq<u8> {
        self.key@
    }

    /// The mapper over the slot at `base_key`.
    pub fn new(base_key: &[u8]) -> (r: Self)
        ensures
            r.key_spec() == base_key@,
    {
        SingleValueMapper {
            key: vstd::slice::slice_to_vec(base_key),
            _phantom: core::marker::PhantomData,
        }
    }

    /// The nested form of this mapper is the mapper itself.
    pub fn into_nested(self) -> (r: Self)
        ensures
            r.key_spec() == self.key_spec(),
    {
        self
    }

    /// Retrieves the current value from storage. The caller must know the
    /// slot decodes; on the metered target a failure here traps.
    pub fn get(&self, storage: &Storage) -> (r: T)
        requires
            T::top_dec(storage.get_bytes(self.key_spec())) is Ok,
        ensures
            r.model() == T::top_dec(storage.get_bytes(self.key_spec())).unwrap(),
    {
        storage_get::<T>(storage, self.key.as_slice())
    }

    /// Whether the storage managed by this mapper is empty: raw byte length
    /// zero, not a decode attempt.
    pub fn is_empty(&self, storage: &Storage) -> (r: bool)
        ensures
            r == (storage.get_bytes(self.key_spec()).len() == 0),
    {
        self.raw_byte_length(storage) == 0
    }

    /// Saves the argument to storage.
    pub fn set(&self, storage: &mut Storage, new_value: &T)
        requires
            new_value.top_enc_ok(),
        ensures
            final(storage).get_bytes(self.key_spec()) == new_value.top_enc(),
            forall|k: Seq<u8>|
                k != self.key_spec() ==> final(storage).get_bytes(k) == old(storage).get_bytes(k),
    {
        storage_set::<T>(storage, self.key.as_slice(), new_value);
    }

    /// Saves the argument to storage only if the slot is empty; does nothing
    /// otherwise.
    pub fn set_if_empty(&self, storage: &mut Storage, value: &T)
        requires
            value.top_enc_ok(),
        ensures
            old(storage).get_bytes(self.key_spec()).len() == 0 ==> final(storage).get_bytes(
                self.key_spec(),
            ) == value.top_enc(),
            old(storage).get_bytes(self.key_spec()).len() != 0 ==> *final(storage) == *old(
                storage,
            ),
            forall|k: Seq<u8>|
                k != self.key_spec() ==> final(storage).get_bytes(k) == old(storage).get_bytes(k),
    {
        if self.is_empty(storage) {
            self.set(storage, value);
        }
    }

    /// Takes the stored value, applies `f`, saves the value `f` hands back
    /// and propagates `f`'s result.
    pub fn update<R, F: FnOnce(T) -> (T, R)>(&self, storage: &mut Storage, f: F) -> (r: R)
        requires
            T::top_dec(old(storage).get_bytes(self.key_spec())) is Ok,
            forall|v: T|
                v.model() == T::top_dec(old(storage).get_bytes(self.key_spec())).unwrap()
                    ==> call_requires(f, (v,)),
            forall|v: T, out: (T, R)| #[trigger]
                call_ensures(f, (v,), out) ==> out.0.top_enc_ok(),
        ensures
            exists|v: T, out: (T, R)|
                {
                    &&& v.model() == T::top_dec(old(storage).get_bytes(self.key_spec())).unwrap()
                    &&& #[trigger] call_ensures(f, (v,), out)
                    &&& final(storage).get_bytes(self.key_spec()) == out.0.top_enc()
                    &&& r == out.1
                },
            forall|k: Seq<u8>|
                k != self.key_spec() ==> final(storage).get_bytes(k) == old(storage).get_bytes(k),
    {
        let value = self.get(storage);
        let (new_value, result) = f(value);
        self.set(storage, &new_value);
        result
    }

    /// The raw byte length of the slot.
    pub fn raw_byte_length(&self, storage: &Storage) -> (r: usize)
        ensures
            r == storage.get_bytes(self.key_spec()).len(),
    {
        storage_get_len(storage, self.key.as_slice())
    }

    /// Clears the storage for this mapper: afterwards the slot is empty.
    pub fn clear(&self, storage: &mut Storage)
        ensures
            final(storage).get_bytes(self.key_spec()) == Seq::<u8>::empty(),
            forall|k: Seq<u8>|
                k != self.key_spec() ==> final(storage).get_bytes(k) == old(storage).get_bytes(k),
    {
        storage_clear(storage, self.key.as_slice());
    }
}

} // verus!
