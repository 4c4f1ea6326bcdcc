//! The mock execution host: transaction input, managed-value handle stores,
//! contract and account storage, and memory accounting. The host is a
//! fixture value owned by the harness; nothing here is process-wide.

use vstd::prelude::*;

use crate::big_uint::BigUint;
use crate::bytes_util::bytes_eq;
use crate::storage::Storage;
use crate::vm::VM;

verus! {

/// One token payment attached to the transaction.
pub struct EsdtTransfer {
    pub token_identifier: Vec<u8>,
    pub nonce: u64,
    pub value: BigUint,
}

/// What the transaction carried in: the native-coin payment and the token
/// payments.
pub struct TxInput {
    pub egld_value: BigUint,
    pub esdt_values: Vec<EsdtTransfer>,
}

/// Why a host operation aborted the transaction.
#[derive(Clone, Copy, Debug, PartialEq, Eq, Structural)]
pub enum PanicReason {
    NonPayableFuncEgld,
    NonPayableFuncEsdt,
    TooManyEsdtTransfers,
    EsdtInvalidTokenIndex,
    WriteToReservedKey,
}

/// The abort the host raises: a status code and the reason.
#[derive(Clone, Copy, Debug, PartialEq, Eq, Structural)]
pub struct TxPanic {
    pub status: u64,
    pub reason: PanicReason,
}

/// The latest value written under an account's key, or the empty string.
pub open spec fn account_lookup(
    entries: Seq<(Vec<u8>, Vec<u8>, Vec<u8>)>,
    address: Seq<u8>,
    key: Seq<u8>,
) -> Seq<u8>
    decreases entries.len(),
{
    if entries.len() == 0 {
        Seq::empty()
    } else if entries.last().0@ == address && entries.last().1@ == key {
        entries.last().2@
    } else {
        account_lookup(entries.drop_last(), address, key)
    }
}

/// The reserved key prefix `"ELROND"`: nothing may be stored under it.
pub open spec fn spec_reserved_key_prefix() -> Seq<u8> {
    seq![69u8, 76, 82, 79, 78, 68]
}

/// Whether `key` starts with the reserved prefix.
pub open spec fn spec_is_reserved_key(key: Seq<u8>) -> bool {
    key.len() >= 6 && key.subrange(0, 6) == spec_reserved_key_prefix()
}

fn reserved_key_prefix() -> (r: Vec<u8>)
    ensures
        r@ == spec_reserved_key_prefix(),
{
    let r: Vec<u8> = vec![69u8, 76, 82, 79, 78, 68];
    proof {
        assert(r@ =~= spec_reserved_key_prefix());
    }
    r
}

/// The mock host. Handles index into the managed-buffer and big-integer
/// stores; the contract's own storage and other accounts' storage are plain
/// key-value byte stores.
pub struct DebugApi {
    pub(crate) vm: VM,
    pub(crate) input: TxInput,
    pub(crate) managed_buffers: Vec<Vec<u8>>,
    pub(crate) big_uints: Vec<BigUint>,
    pub(crate) contract_storage: Storage,
    pub(crate) accounts: Vec<(Vec<u8>, Vec<u8>, Vec<u8>)>,
}

impl DebugApi {
    /// The memory-accounting state.
    pub closed spec fn vm_spec(&self) -> VM {
        self.vm
    }

    /// The transaction input.
    pub closed spec fn input_spec(&self) -> TxInput {
        self.input
    }

    /// Within the crate: how the spec accessors read the fields.
    pub(crate) proof fn reveal_host_fields(&self)
        ensures
            self.input_spec() == self.input,
            self.vm_spec() == self.vm,
    {
    }

    /// Within the crate: two hosts with the same stores have the same store
    /// views.
    pub(crate) proof fn lemma_host_parts(&self, other: &Self)
        requires
            self.managed_buffers == other.managed_buffers,
            self.big_uints == other.big_uints,
            self.contract_storage == other.contract_storage,
            self.accounts == other.accounts,
            self.input == other.input,
        ensures
            self.mb_spec() == other.mb_spec(),
            self.bi_spec() == other.bi_spec(),
            self.input_spec() == other.input_spec(),
            forall|k: Seq<u8>| self.storage_bytes(k) == other.storage_bytes(k),
            forall|a: Seq<u8>, k: Seq<u8>| self.account_bytes(a, k) == other.account_bytes(a, k),
    {
        assert(self.bi_spec() =~= other.bi_spec());
    }

    /// A copy of the memory-accounting state.
    pub fn vm_state(&self) -> (r: VM)
        ensures
            r == self.vm_spec(),
    {
        self.vm
    }

    /// The managed buffers, by handle.
    pub closed spec fn mb_spec(&self) -> Seq<Seq<u8>> {
        self.managed_buffers.deep_view()
    }

    /// The big integers, by handle, each as its minimal magnitude.
    pub closed spec fn bi_spec(&self) -> Seq<Seq<u8>> {
        Seq::new(self.big_uints@.len(), |i: int| self.big_uints@[i]@)
    }

    /// The bytes under `key` in the contract's own storage.
    pub closed spec fn storage_bytes(&self, key: Seq<u8>) -> Seq<u8> {
        self.contract_storage.get_bytes(key)
    }

    /// The bytes under `key` in the storage of the account at `address`; an
    /// unknown account holds nothing.
    pub closed spec fn account_bytes(&self, address: Seq<u8>, key: Seq<u8>) -> Seq<u8> {
        account_lookup(self.accounts@, address, key)
    }

    /// Everything that is not the managed-value stores is unchanged.
    pub open spec fn same_host_env(&self, other: &Self) -> bool {
        &&& self.vm_spec() == other.vm_spec()
        &&& self.input_spec() == other.input_spec()
        &&& forall|k: Seq<u8>| self.storage_bytes(k) == other.storage_bytes(k)
        &&& forall|a: Seq<u8>, k: Seq<u8>| self.account_bytes(a, k) == other.account_bytes(a, k)
    }

    /// A fresh host around the given transaction input.
    pub fn new(input: TxInput) -> (r: Self)
        ensures
            r.input_spec() == input,
            r.vm_spec() == (VM { memory_size: 0u32, offset: 0u32, init_offset: 0u32 }),
            r.mb_spec() == Seq::<Seq<u8>>::empty(),
            r.bi_spec() == Seq::<Seq<u8>>::empty(),
            forall|k: Seq<u8>| r.storage_bytes(k) == Seq::<u8>::empty(),
            forall|a: Seq<u8>, k: Seq<u8>| r.account_bytes(a, k) == Seq::<u8>::empty(),
    {
        let r = DebugApi {
            vm: VM { memory_size: 0, offset: 0, init_offset: 0 },
            input,
            managed_buffers: Vec::new(),
            big_uints: Vec::new(),
            contract_storage: Storage::new(),
            accounts: Vec::new(),
        };
        proof {
            assert(r.mb_spec() =~= Seq::<Seq<u8>>::empty());
            assert(r.bi_spec() =~= Seq::<Seq<u8>>::empty());
        }
        r
    }

    /// Create a managed buffer holding `bytes`; its handle is returned.
    pub fn insert_new_managed_buffer(&mut self, bytes: &[u8]) -> (r: usize)
        ensures
            r == old(self).mb_spec().len(),
            final(self).mb_spec() == old(self).mb_spec().push(bytes@),
            final(self).bi_spec() == old(self).bi_spec(),
            final(self).same_host_env(old(self)),
    {
        let handle = self.managed_buffers.len();
        self.managed_buffers.push(vstd::slice::slice_to_vec(bytes));
        proof {
            assert(self.mb_spec() =~~= old(self).mb_spec().push(bytes@));
            assert(self.bi_spec() =~= old(self).bi_spec());
        }
        handle
    }

    /// Replace the contents of the managed buffer at `handle`.
    pub fn mb_overwrite(&mut self, handle: usize, bytes: &[u8])
        requires
            handle < old(self).mb_spec().len(),
        ensures
            final(self).mb_spec() == old(self).mb_spec().update(handle as int, bytes@),
            final(self).bi_spec() == old(self).bi_spec(),
            final(self).same_host_env(old(self)),
    {
        self.managed_buffers[handle] = vstd::slice::slice_to_vec(bytes);
        proof {
            assert(self.mb_spec() =~~= old(self).mb_spec().update(handle as int, bytes@));
            assert(self.bi_spec() =~= old(self).bi_spec());
        }
    }

    /// A copy of the managed buffer at `handle`.
    pub fn mb_to_boxed_bytes(&self, handle: usize) -> (r: crate::boxed_bytes::BoxedBytes)
        requires
            handle < self.mb_spec().len(),
        ensures
            r@ == self.mb_spec()[handle as int],
    {
        crate::boxed_bytes::BoxedBytes::from_slice(self.managed_buffers[handle].as_slice())
    }

    /// Create a big integer; its handle is returned.
    pub fn insert_new_big_uint(&mut self, value: BigUint) -> (r: usize)
        ensures
            r == old(self).bi_spec().len(),
            final(self).bi_spec() == old(self).bi_spec().push(value@),
            final(self).mb_spec() == old(self).mb_spec(),
            final(self).same_host_env(old(self)),
    {
        let handle = self.big_uints.len();
        self.big_uints.push(value);
        proof {
            assert(self.bi_spec() =~= old(self).bi_spec().push(value@));
            assert(self.mb_spec() =~= old(self).mb_spec());
        }
        handle
    }

    /// Replace the big integer at `handle`.
    pub fn bi_overwrite(&mut self, handle: usize, value: BigUint)
        requires
            handle < old(self).bi_spec().len(),
        ensures
            final(self).bi_spec() == old(self).bi_spec().update(handle as int, value@),
            final(self).mb_spec() == old(self).mb_spec(),
            final(self).same_host_env(old(self)),
    {
        self.big_uints[handle] = value;
        proof {
            assert(self.bi_spec() =~= old(self).bi_spec().update(handle as int, value@));
            assert(self.mb_spec() =~= old(self).mb_spec());
        }
    }

    /// Replace the big integer at `handle` with a copy of `value`.
    pub fn set_big_uint(&mut self, handle: usize, value: &BigUint)
        requires
            handle < old(self).bi_spec().len(),
        ensures
            final(self).bi_spec() == old(self).bi_spec().update(handle as int, value@),
            final(self).mb_spec() == old(self).mb_spec(),
            final(self).same_host_env(old(self)),
    {
        self.bi_overwrite(handle, value.clone_value());
    }

    /// The magnitude of the big integer at `handle`.
    pub fn bi_get_bytes(&self, handle: usize) -> (r: Vec<u8>)
        requires
            handle < self.bi_spec().len(),
        ensures
            r@ == self.bi_spec()[handle as int],
    {
        self.big_uints[handle].to_bytes_be()
    }

    /// Write `value` under `key` in the storage of the account at `address`,
    /// for setting a scenario up.
    pub fn set_account_storage(&mut self, address: &[u8], key: &[u8], value: &[u8])
        ensures
            final(self).account_bytes(address@, key@) == value@,
            forall|a: Seq<u8>, k: Seq<u8>|
                !(a == address@ && k == key@) ==> final(self).account_bytes(a, k) == old(
                    self,
                ).account_bytes(a, k),
            final(self).mb_spec() == old(self).mb_spec(),
            final(self).bi_spec() == old(self).bi_spec(),
            final(self).vm_spec() == old(self).vm_spec(),
            final(self).input_spec() == old(self).input_spec(),
            forall|k: Seq<u8>| final(self).storage_bytes(k) == old(self).storage_bytes(k),
    {
        self.accounts.push(
            (
                vstd::slice::slice_to_vec(address),
                vstd::slice::slice_to_vec(key),
                vstd::slice::slice_to_vec(value),
            ),
        );
        proof {
            assert(self.accounts@.drop_last() =~= old(self).accounts@);
            assert(self.mb_spec() =~= old(self).mb_spec());
            assert(self.bi_spec() =~= old(self).bi_spec());
        }
    }

    /// The raw bytes stored under `key` in the contract's own storage; the
    /// empty vector when the slot is empty.
    pub fn storage_load_vec_u8(&self, key: &[u8]) -> (r: Vec<u8>)
        ensures
            r@ == self.storage_bytes(key@),
    {
        self.contract_storage.get_bytes_vec(key)
    }

    /// How many bytes the slot under `key` holds.
    pub fn storage_load_len(&mut self, key: &[u8]) -> (r: usize)
        ensures
            r == old(self).storage_bytes(key@).len(),
            *final(self) == *old(self),
    {
        let bytes = self.storage_load_vec_u8(key);
        bytes.len()
    }

    /// Load the slot under `key` to an owned heap buffer, accounting for the
    /// allocation in the memory store. The caller rules out an accounting
    /// overflow.
    pub fn storage_load_to_heap(&mut self, key: &[u8]) -> (r: Vec<u8>)
        requires
            old(self).storage_bytes(key@).len() <= u32::MAX,
            crate::vm::spec_mem_store_ok(
                old(self).vm_spec(),
                0,
                old(self).storage_bytes(key@).len() as u32,
            ),
        ensures
            r@ == old(self).storage_bytes(key@),
            final(self).vm_spec() == crate::vm::spec_mem_store_post(
                old(self).vm_spec(),
                0,
                old(self).storage_bytes(key@).len() as u32,
            ),
            final(self).mb_spec() == old(self).mb_spec(),
            final(self).bi_spec() == old(self).bi_spec(),
            final(self).input_spec() == old(self).input_spec(),
            forall|k: Seq<u8>| final(self).storage_bytes(k) == old(self).storage_bytes(k),
            forall|a: Seq<u8>, k: Seq<u8>|
                final(self).account_bytes(a, k) == old(self).account_bytes(a, k),
    {
        let data = self.storage_load_vec_u8(key);
        let len = self.storage_load_len(key);
        let _store_result = self.vm.mem_store(0, len as u32);
        data
    }

    /// Load the slot under `key` as a big integer into the handle at `dest`:
    /// the value of the stored big-endian bytes.
    pub fn storage_load_big_uint_raw(&mut self, key: &[u8], dest: usize)
        requires
            dest < old(self).bi_spec().len(),
        ensures
            final(self).bi_spec() == old(self).bi_spec().update(
                dest as int,
                crate::bytes_util::strip_zeros(old(self).storage_bytes(key@)),
            ),
            final(self).mb_spec() == old(self).mb_spec(),
            final(self).same_host_env(old(self)),
    {
        let bytes = self.storage_load_vec_u8(key);
        let bi = BigUint::from_bytes_be(bytes.as_slice());
        self.bi_overwrite(dest, bi);
    }

    /// Load the slot whose key is the managed buffer at `key_handle` into
    /// the managed buffer at `dest`.
    pub fn storage_load_managed_buffer_raw(&mut self, key_handle: usize, dest: usize)
        requires
            key_handle < old(self).mb_spec().len(),
            dest < old(self).mb_spec().len(),
        ensures
            final(self).mb_spec() == old(self).mb_spec().update(
                dest as int,
                old(self).storage_bytes(old(self).mb_spec()[key_handle as int]),
            ),
            final(self).bi_spec() == old(self).bi_spec(),
            final(self).same_host_env(old(self)),
    {
        let key_bytes = self.mb_to_boxed_bytes(key_handle);
        let bytes = self.storage_load_vec_u8(key_bytes.as_slice());
        self.mb_overwrite(dest, bytes.as_slice());
    }

    /// Load, from the account whose address is the managed buffer at
    /// `address_handle`, the slot whose key is the managed buffer at
    /// `key_handle`, into the managed buffer at `dest`. An unknown account
    /// or an empty slot loads the empty string.
    pub fn storage_load_from_address(
        &mut self,
        address_handle: usize,
        key_handle: usize,
        dest: usize,
    )
        requires
            address_handle < old(self).mb_spec().len(),
            key_handle < old(self).mb_spec().len(),
            dest < old(self).mb_spec().len(),
        ensures
            final(self).mb_spec() == old(self).mb_spec().update(
                dest as int,
                old(self).account_bytes(
                    old(self).mb_spec()[address_handle as int],
                    old(self).mb_spec()[key_handle as int],
                ),
            ),
            final(self).bi_spec() == old(self).bi_spec(),
            final(self).same_host_env(old(self)),
    {
        let address = self.mb_to_boxed_bytes(address_handle);
        let key_bytes = self.mb_to_boxed_bytes(key_handle);
        let value = self.account_load_vec_u8(address.as_slice(), key_bytes.as_slice());
        self.mb_overwrite(dest, value.as_slice());
    }

    /// The raw bytes under `key` in the storage of the account at `address`.
    pub fn account_load_vec_u8(&self, address: &[u8], key: &[u8]) -> (r: Vec<u8>)
        ensures
            r@ == self.account_bytes(address@, key@),
    {
        let mut i: usize = self.accounts.len();
        proof {
            assert(self.accounts@.subrange(0, i as int) =~= self.accounts@);
        }
        while i > 0
            invariant
                i <= self.accounts@.len(),
                account_lookup(self.accounts@.subrange(0, i as int), address@, key@)
                    == account_lookup(self.accounts@, address@, key@),
            decreases i,
        {
            i = i - 1;
            let entry = &self.accounts[i];
            proof {
                assert(self.accounts@.subrange(0, i + 1).last() == self.accounts@[i as int]);
                assert(self.accounts@.subrange(0, i + 1).drop_last() =~= self.accounts@.subrange(
                    0,
                    i as int,
                ));
            }
            if bytes_eq(entry.0.as_slice(), address) && bytes_eq(entry.1.as_slice(), key) {
                return vstd::slice::slice_to_vec(entry.2.as_slice());
            }
        }
        proof {
            assert(self.accounts@.subrange(0, 0) =~= Seq::<(Vec<u8>, Vec<u8>, Vec<u8>)>::empty());
        }
        Vec::new()
    }

    /// Store `value` under `key` in the contract's own storage; a key under
    /// the reserved prefix aborts the transaction instead, changing nothing.
    pub fn storage_store_slice_u8(&mut self, key: &[u8], value: &[u8]) -> (r: Result<(), TxPanic>)
        ensures
            spec_is_reserved_key(key@) ==> r == Err::<(), TxPanic>(
                TxPanic { status: 10u64, reason: PanicReason::WriteToReservedKey },
            ) && *final(self) == *old(self),
            !spec_is_reserved_key(key@) ==> {
                &&& r is Ok
                &&& final(self).storage_bytes(key@) == value@
                &&& forall|k: Seq<u8>|
                    k != key@ ==> final(self).storage_bytes(k) == old(self).storage_bytes(k)
                &&& final(self).mb_spec() == old(self).mb_spec()
                &&& final(self).bi_spec() == old(self).bi_spec()
                &&& final(self).vm_spec() == old(self).vm_spec()
                &&& final(self).input_spec() == old(self).input_spec()
                &&& forall|a: Seq<u8>, k: Seq<u8>|
                    final(self).account_bytes(a, k) == old(self).account_bytes(a, k)
            },
    {
        let prefix = reserved_key_prefix();
        if key.len() >= 6 {
            let head = vstd::slice::slice_subrange(key, 0, 6);
            if bytes_eq(head, prefix.as_slice()) {
                return Err(TxPanic { status: 10, reason: PanicReason::WriteToReservedKey });
            }
        }
        self.contract_storage.set_bytes(key, value);
        Ok(())
    }

    /// Store the big integer at `handle` under `key`: its minimal magnitude
    /// is what is persisted.
    pub fn storage_store_big_uint_raw(&mut self, key: &[u8], handle: usize) -> (r: Result<
        (),
        TxPanic,
    >)
        requires
            handle < old(self).bi_spec().len(),
        ensures
            spec_is_reserved_key(key@) ==> r == Err::<(), TxPanic>(
                TxPanic { status: 10u64, reason: PanicReason::WriteToReservedKey },
            ) && *final(self) == *old(self),
            !spec_is_reserved_key(key@) ==> {
                &&& r is Ok
                &&& final(self).storage_bytes(key@) == old(self).bi_spec()[handle as int]
                &&& forall|k: Seq<u8>|
                    k != key@ ==> final(self).storage_bytes(k) == old(self).storage_bytes(k)
                &&& final(self).mb_spec() == old(self).mb_spec()
                &&& final(self).bi_spec() == old(self).bi_spec()
                &&& final(self).vm_spec() == old(self).vm_spec()
                &&& final(self).input_spec() == old(self).input_spec()
                &&& forall|a: Seq<u8>, k: Seq<u8>|
                    final(self).account_bytes(a, k) == old(self).account_bytes(a, k)
            },
    {
        let bytes = self.bi_get_bytes(handle);
        self.storage_store_slice_u8(key, bytes.as_slice())
    }

    /// Store the managed buffer at `value_handle` under the key held by the
    /// managed buffer at `key_handle`.
    pub fn storage_store_managed_buffer_raw(
        &mut self,
        key_handle: usize,
        value_handle: usize,
    ) -> (r: Result<(), TxPanic>)
        requires
            key_handle < old(self).mb_spec().len(),
            value_handle < old(self).mb_spec().len(),
        ensures
            spec_is_reserved_key(old(self).mb_spec()[key_handle as int]) ==> r == Err::<(), TxPanic>(
                TxPanic { status: 10u64, reason: PanicReason::WriteToReservedKey },
            ) && *final(self) == *old(self),
            !spec_is_reserved_key(old(self).mb_spec()[key_handle as int]) ==> {
                &&& r is Ok
                &&& final(self).storage_bytes(old(self).mb_spec()[key_handle as int]) == old(
                    self,
                ).mb_spec()[value_handle as int]
                &&& forall|k: Seq<u8>|
                    k != old(self).mb_spec()[key_handle as int] ==> final(self).storage_bytes(k)
                        == old(self).storage_bytes(k)
                &&& final(self).mb_spec() == old(self).mb_spec()
                &&& final(self).bi_spec() == old(self).bi_spec()
                &&& final(self).vm_spec() == old(self).vm_spec()
                &&& final(self).input_spec() == old(self).input_spec()
                &&& forall|a: Seq<u8>, k: Seq<u8>|
                    final(self).account_bytes(a, k) == old(self).account_bytes(a, k)
            },
    {
        let key_bytes = self.mb_to_boxed_bytes(key_handle);
        let value_bytes = self.mb_to_boxed_bytes(value_handle);
        self.storage_store_slice_u8(key_bytes.as_slice(), value_bytes.as_slice())
    }

    /// Clear the slot whose key is the managed buffer at `key_handle`.
    pub fn storage_store_managed_buffer_clear(&mut self, key_handle: usize) -> (r: Result<
        (),
        TxPanic,
    >)
        requires
            key_handle < old(self).mb_spec().len(),
        ensures
            spec_is_reserved_key(old(self).mb_spec()[key_handle as int]) ==> r == Err::<(), TxPanic>(
                TxPanic { status: 10u64, reason: PanicReason::WriteToReservedKey },
            ) && *final(self) == *old(self),
            !spec_is_reserved_key(old(self).mb_spec()[key_handle as int]) ==> {
                &&& r is Ok
                &&& final(self).storage_bytes(old(self).mb_spec()[key_handle as int])
                    == Seq::<u8>::empty()
                &&& forall|k: Seq<u8>|
                    k != old(self).mb_spec()[key_handle as int] ==> final(self).storage_bytes(k)
                        == old(self).storage_bytes(k)
                &&& final(self).mb_spec() == old(self).mb_spec()
                &&& final(self).bi_spec() == old(self).bi_spec()
                &&& final(self).vm_spec() == old(self).vm_spec()
                &&& final(self).input_spec() == old(self).input_spec()
                &&& forall|a: Seq<u8>, k: Seq<u8>|
                    final(self).account_bytes(a, k) == old(self).account_bytes(a, k)
            },
    {
        let key_bytes = self.mb_to_boxed_bytes(key_handle);
        let empty: Vec<u8> = Vec::new();
        self.storage_store_slice_u8(key_bytes.as_slice(), empty.as_slice())
    }
}

} // verus!
