//! The storage boundary: a key-value byte store and the typed accessors
//! built on the top-level codec. A slot with no bytes under it is empty;
//! persisting a value writes its top-level encoding under the key, and
//! reading decodes the whole slot.

use vstd::prelude::*;

use crate::bytes_util::bytes_eq;
use crate::codec::{top_decode, top_encode_to_vec, CodecValue, TopDecode, TopEncode};

verus! {

/// The latest value written under `key`, or the empty string if none was.
pub open spec fn lookup(entries: Seq<(Vec<u8>, Vec<u8>)>, key: Seq<u8>) -> Seq<u8>
    decreases entries.len(),
{
    if entries.len() == 0 {
        Seq::empty()
    } else if entries.last().0@ == key {
        entries.last().1@
    } else {
        lookup(entries.drop_last(), key)
    }
}

/// An in-memory key-value byte store: a write log where the latest write
/// under a key wins. An absent key and an empty value are the same thing,
/// as the storage boundary defines emptiness by byte length zero.
pub struct Storage {
    entries: Vec<(Vec<u8>, Vec<u8>)>,
}

impl Storage {
    /// The bytes stored under `key`; the empty string if none were.
    pub closed spec fn get_bytes(&self, key: Seq<u8>) -> Seq<u8> {
        lookup(self.entries@, key)
    }

    /// A store with nothing in it.
    pub fn new() -> (r: Self)
        ensures
            forall|k: Seq<u8>| r.get_bytes(k) == Seq::<u8>::empty(),
    {
        Storage { entries: Vec::new() }
    }

    /// Store `value` under `key`, replacing what was there.
    pub fn set_bytes(&mut self, key: &[u8], value: &[u8])
        ensures
            final(self).get_bytes(key@) == value@,
            forall|k: Seq<u8>| k != key@ ==> final(self).get_bytes(k) == old(self).get_bytes(k),
    {
        self.entries.push((vstd::slice::slice_to_vec(key), vstd::slice::slice_to_vec(value)));
        proof {
            assert(self.entries@.last().0@ == key@);
            assert(self.entries@.drop_last() =~= old(self).entries@);
        }
    }

    /// Read a copy of the bytes stored under `key`.
    pub fn get_bytes_vec(&self, key: &[u8]) -> (r: Vec<u8>)
        ensures
            r@ == self.get_bytes(key@),
    {
        let mut i: usize = self.entries.len();
        proof {
            assert(self.entries@.subrange(0, i as int) =~= self.entries@);
        }
        while i > 0
            invariant
                i <= self.entries@.len(),
                lookup(self.entries@.subrange(0, i as int), key@) == lookup(self.entries@, key@),
            decreases i,
        {
            i = i - 1;
            let pair = &self.entries[i];
            proof {
                assert(self.entries@.subrange(0, i + 1).last() == self.entries@[i as int]);
                assert(self.entries@.subrange(0, i + 1).drop_last() =~= self.entries@.subrange(
                    0,
                    i as int,
                ));
            }
            if bytes_eq(pair.0.as_slice(), key) {
                return vstd::slice::slice_to_vec(pair.1.as_slice());
            }
        }
        proof {
            assert(self.entries@.subrange(0, 0) =~= Seq::<(Vec<u8>, Vec<u8>)>::empty());
        }
        Vec::new()
    }

    /// How many bytes are stored under `key`.
    pub fn get_len(&self, key: &[u8]) -> (r: usize)
        ensures
            r == self.get_bytes(key@).len(),
    {
        let bytes = self.get_bytes_vec(key);
        bytes.len()
    }
}

/// Persist a typed value: its top-level encoding is written under the key.
pub fn storage_set<T: TopEncode>(storage: &mut Storage, key: &[u8], value: &T)
    requires
        value.top_enc_ok(),
    ensures
        final(storage).get_bytes(key@) == value.top_enc(),
        forall|k: Seq<u8>| k != key@ ==> final(storage).get_bytes(k) == old(storage).get_bytes(k),
{
    let bytes = top_encode_to_vec(value);
    storage.set_bytes(key, bytes.as_slice());
}

/// Read a typed value back: the whole slot is top-decoded. The caller must
/// know the slot decodes; on the metered target a failure here traps.
pub fn storage_get<T: TopDecode>(storage: &Storage, key: &[u8]) -> (r: T)
    requires
        T::top_dec(storage.get_bytes(key@)) is Ok,
    ensures
        r.model() == T::top_dec(storage.get_bytes(key@)).unwrap(),
{
    let bytes = storage.get_bytes_vec(key);
    match top_decode::<T>(bytes.as_slice()) {
        Ok(v) => v,
        Err(_) => vstd::pervasive::unreached(),
    }
}

/// How many raw bytes a slot holds; zero means the slot is empty.
pub fn storage_get_len(storage: &Storage, key: &[u8]) -> (r: usize)
    ensures
        r == storage.get_bytes(key@).len(),
{
    storage.get_len(key)
}

/// Clear a slot: afterwards it holds no bytes and is empty.
pub fn storage_clear(storage: &mut Storage, key: &[u8])
    ensures
        final(storage).get_bytes(key@) == Seq::<u8>::empty(),
        forall|k: Seq<u8>| k != key@ ==> final(storage).get_bytes(k) == old(storage).get_bytes(k),
{
    let empty: Vec<u8> = Vec::new();
    storage.set_bytes(key, empty.as_slice());
}

} // verus!
