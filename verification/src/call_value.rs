//! The call-value queries of the mock host: what payment the transaction
//! carried, by token and by index. Where the metered host aborts the
//! transaction, these return the abort value for the boundary to raise.

use vstd::prelude::*;

use crate::debug_api::{DebugApi, PanicReason, TxPanic};
use crate::token::EsdtTokenType;
use crate::vm::{spec_mem_store_ok, spec_mem_store_post};

verus! {

impl DebugApi {
    /// Abort when more than one token payment was attached.
    fn fail_if_more_than_one_esdt_transfer(&self) -> (r: Result<(), TxPanic>)
        ensures
            self.input_spec().esdt_values@.len() > 1 ==> r == Err::<(), TxPanic>(
                TxPanic { status: 10u64, reason: PanicReason::TooManyEsdtTransfers },
            ),
            self.input_spec().esdt_values@.len() <= 1 ==> r is Ok,
    {
        proof {
            self.reveal_host_fields();
        }
        if self.input.esdt_values.len() > 1 {
            Err(TxPanic { status: 10, reason: PanicReason::TooManyEsdtTransfers })
        } else {
            Ok(())
        }
    }

    /// Abort when any payment at all was attached: first checked for the
    /// native coin, then for token payments.
    pub fn check_not_payable(&self) -> (r: Result<(), TxPanic>)
        ensures
            self.input_spec().egld_value.value() > 0 ==> r == Err::<(), TxPanic>(
                TxPanic { status: 10u64, reason: PanicReason::NonPayableFuncEgld },
            ),
            self.input_spec().egld_value.value() == 0 && self.input_spec().esdt_values@.len() > 0
                ==> r == Err::<(), TxPanic>(
                TxPanic { status: 10u64, reason: PanicReason::NonPayableFuncEsdt },
            ),
            self.input_spec().egld_value.value() == 0 && self.input_spec().esdt_values@.len() == 0
                ==> r is Ok,
    {
        proof {
            self.reveal_host_fields();
        }
        if !self.input.egld_value.is_zero() {
            return Err(TxPanic { status: 10, reason: PanicReason::NonPayableFuncEgld });
        }
        if self.esdt_num_transfers() > 0 {
            return Err(TxPanic { status: 10, reason: PanicReason::NonPayableFuncEsdt });
        }
        Ok(())
    }

    /// Write the native-coin payment into the big integer at `dest`.
    pub fn load_egld_value(&mut self, dest: usize)
        requires
            dest < old(self).bi_spec().len(),
        ensures
            final(self).bi_spec() == old(self).bi_spec().update(
                dest as int,
                old(self).input_spec().egld_value@,
            ),
            final(self).mb_spec() == old(self).mb_spec(),
            final(self).same_host_env(old(self)),
    {
        proof {
            self.reveal_host_fields();
        }
        let value = self.input.egld_value.clone_value();
        self.bi_overwrite(dest, value);
    }

    /// Write the single token payment's amount into the big integer at
    /// `dest`; aborts when no payment or more than one was attached.
    pub fn load_single_esdt_value(&mut self, dest: usize) -> (r: Result<(), TxPanic>)
        requires
            dest < old(self).bi_spec().len(),
        ensures
            old(self).input_spec().esdt_values@.len() > 1 ==> r == Err::<(), TxPanic>(
                TxPanic { status: 10u64, reason: PanicReason::TooManyEsdtTransfers },
            ) && *final(self) == *old(self),
            old(self).input_spec().esdt_values@.len() == 0 ==> r == Err::<(), TxPanic>(
                TxPanic { status: 10u64, reason: PanicReason::EsdtInvalidTokenIndex },
            ) && *final(self) == *old(self),
            old(self).input_spec().esdt_values@.len() == 1 ==> {
                &&& r is Ok
                &&& final(self).bi_spec() == old(self).bi_spec().update(
                    dest as int,
                    old(self).input_spec().esdt_values@[0].value@,
                )
                &&& final(self).mb_spec() == old(self).mb_spec()
                &&& final(self).same_host_env(old(self))
            },
    {
        match self.fail_if_more_than_one_esdt_transfer() {
            Ok(()) => {},
            Err(e) => {
                return Err(e);
            },
        }
        proof {
            self.reveal_host_fields();
        }
        if self.input.esdt_values.len() == 0 {
            return Err(TxPanic { status: 10, reason: PanicReason::EsdtInvalidTokenIndex });
        }
        let value = self.input.esdt_values[0].value.clone_value();
        self.bi_overwrite(dest, value);
        Ok(())
    }

    /// The token of the single payment, as a fresh managed buffer holding
    /// its name; `None` when no payment was attached; aborts when more than
    /// one was.
    pub fn token(&mut self) -> (r: Result<Option<usize>, TxPanic>)
        requires
            old(self).input_spec().esdt_values@.len() == 1 ==> {
                &&& old(self).input_spec().esdt_values@[0].token_identifier@.len() <= u32::MAX
                &&& spec_mem_store_ok(
                    old(self).vm_spec(),
                    0,
                    old(self).input_spec().esdt_values@[0].token_identifier@.len() as u32,
                )
            },
        ensures
            old(self).input_spec().esdt_values@.len() > 1 ==> r == Err::<Option<usize>, TxPanic>(
                TxPanic { status: 10u64, reason: PanicReason::TooManyEsdtTransfers },
            ) && *final(self) == *old(self),
            old(self).input_spec().esdt_values@.len() == 0 ==> r == Ok::<Option<usize>, TxPanic>(
                None,
            ) && *final(self) == *old(self),
            old(self).input_spec().esdt_values@.len() == 1 ==> {
                &&& r == Ok::<Option<usize>, TxPanic>(Some(old(self).mb_spec().len() as usize))
                &&& final(self).mb_spec() == old(self).mb_spec().push(
                    old(self).input_spec().esdt_values@[0].token_identifier@,
                )
                &&& final(self).bi_spec() == old(self).bi_spec()
                &&& final(self).vm_spec() == spec_mem_store_post(
                    old(self).vm_spec(),
                    0,
                    old(self).input_spec().esdt_values@[0].token_identifier@.len() as u32,
                )
                &&& final(self).input_spec() == old(self).input_spec()
                &&& forall|k: Seq<u8>|
                    final(self).storage_bytes(k) == old(self).storage_bytes(k)
                &&& forall|a: Seq<u8>, k: Seq<u8>|
                    final(self).account_bytes(a, k) == old(self).account_bytes(a, k)
            },
    {
        match self.fail_if_more_than_one_esdt_transfer() {
            Ok(()) => {},
            Err(e) => {
                return Err(e);
            },
        }
        if self.esdt_num_transfers() > 0 {
            match self.token_by_index(0) {
                Ok(handle) => Ok(Some(handle)),
                Err(e) => Err(e),
            }
        } else {
            Ok(None)
        }
    }

    /// The nonce of the single token payment; aborts when no payment or
    /// more than one was attached.
    pub fn esdt_token_nonce(&self) -> (r: Result<u64, TxPanic>)
        ensures
            self.input_spec().esdt_values@.len() > 1 ==> r == Err::<u64, TxPanic>(
                TxPanic { status: 10u64, reason: PanicReason::TooManyEsdtTransfers },
            ),
            self.input_spec().esdt_values@.len() == 0 ==> r == Err::<u64, TxPanic>(
                TxPanic { status: 10u64, reason: PanicReason::EsdtInvalidTokenIndex },
            ),
            self.input_spec().esdt_values@.len() == 1 ==> r == Ok::<u64, TxPanic>(
                self.input_spec().esdt_values@[0].nonce,
            ),
    {
        match self.fail_if_more_than_one_esdt_transfer() {
            Ok(()) => self.esdt_token_nonce_by_index(0),
            Err(e) => Err(e),
        }
    }

    /// Whether the single token payment is fungible; aborts when no payment
    /// or more than one was attached.
    pub fn esdt_token_type(&self) -> (r: Result<EsdtTokenType, TxPanic>)
        ensures
            self.input_spec().esdt_values@.len() > 1 ==> r == Err::<EsdtTokenType, TxPanic>(
                TxPanic { status: 10u64, reason: PanicReason::TooManyEsdtTransfers },
            ),
            self.input_spec().esdt_values@.len() == 0 ==> r == Err::<EsdtTokenType, TxPanic>(
                TxPanic { status: 10u64, reason: PanicReason::EsdtInvalidTokenIndex },
            ),
            self.input_spec().esdt_values@.len() == 1 ==> r == Ok::<EsdtTokenType, TxPanic>(
                if self.input_spec().esdt_values@[0].nonce == 0 {
                    EsdtTokenType::Fungible
                } else {
                    EsdtTokenType::NonFungible
                },
            ),
    {
        match self.fail_if_more_than_one_esdt_transfer() {
            Ok(()) => self.esdt_token_type_by_index(0),
            Err(e) => Err(e),
        }
    }

    /// How many token payments were attached.
    pub fn esdt_num_transfers(&self) -> (r: usize)
        ensures
            r == self.input_spec().esdt_values@.len(),
    {
        proof {
            self.reveal_host_fields();
        }
        self.input.esdt_values.len()
    }

    /// The amount of the token payment at `index`, as a fresh big integer;
    /// aborts when no payment sits at that index.
    pub fn esdt_value_by_index(&mut self, index: usize) -> (r: Result<usize, TxPanic>)
        ensures
            index >= old(self).input_spec().esdt_values@.len() ==> r == Err::<usize, TxPanic>(
                TxPanic { status: 10u64, reason: PanicReason::EsdtInvalidTokenIndex },
            ) && *final(self) == *old(self),
            index < old(self).input_spec().esdt_values@.len() ==> {
                &&& r == Ok::<usize, TxPanic>(old(self).bi_spec().len() as usize)
                &&& final(self).bi_spec() == old(self).bi_spec().push(
                    old(self).input_spec().esdt_values@[index as int].value@,
                )
                &&& final(self).mb_spec() == old(self).mb_spec()
                &&& final(self).same_host_env(old(self))
            },
    {
        proof {
            self.reveal_host_fields();
        }
        if index >= self.input.esdt_values.len() {
            return Err(TxPanic { status: 10, reason: PanicReason::EsdtInvalidTokenIndex });
        }
        let value = self.input.esdt_values[index].value.clone_value();
        Ok(self.insert_new_big_uint(value))
    }

    /// The token name of the payment at `index`, as a fresh managed buffer,
    /// with the copy accounted for in the memory store; aborts when no
    /// payment sits at that index.
    pub fn token_by_index(&mut self, index: usize) -> (r: Result<usize, TxPanic>)
        requires
            index < old(self).input_spec().esdt_values@.len() ==> {
                &&& old(self).input_spec().esdt_values@[index as int].token_identifier@.len()
                    <= u32::MAX
                &&& spec_mem_store_ok(
                    old(self).vm_spec(),
                    0,
                    old(self).input_spec().esdt_values@[index as int].token_identifier@.len()
                        as u32,
                )
            },
        ensures
            index >= old(self).input_spec().esdt_values@.len() ==> r == Err::<usize, TxPanic>(
                TxPanic { status: 10u64, reason: PanicReason::EsdtInvalidTokenIndex },
            ) && *final(self) == *old(self),
            index < old(self).input_spec().esdt_values@.len() ==> {
                &&& r == Ok::<usize, TxPanic>(old(self).mb_spec().len() as usize)
                &&& final(self).mb_spec() == old(self).mb_spec().push(
                    old(self).input_spec().esdt_values@[index as int].token_identifier@,
                )
                &&& final(self).bi_spec() == old(self).bi_spec()
                &&& final(self).vm_spec() == spec_mem_store_post(
                    old(self).vm_spec(),
                    0,
                    old(self).input_spec().esdt_values@[index as int].token_identifier@.len()
                        as u32,
                )
                &&& final(self).input_spec() == old(self).input_spec()
                &&& forall|k: Seq<u8>|
                    final(self).storage_bytes(k) == old(self).storage_bytes(k)
                &&& forall|a: Seq<u8>, k: Seq<u8>|
                    final(self).account_bytes(a, k) == old(self).account_bytes(a, k)
            },
    {
        proof {
            self.reveal_host_fields();
        }
        if index >= self.input.esdt_values.len() {
            return Err(TxPanic { status: 10, reason: PanicReason::EsdtInvalidTokenIndex });
        }
        let token = vstd::slice::slice_to_vec(
            self.input.esdt_values[index].token_identifier.as_slice(),
        );
        let _account_result = crate::vm::static_vm_mem_store(&mut self.vm, 0, token.len() as u32);
        proof {
            self.reveal_host_fields();
            let ghost orig = *old(self);
            self.lemma_host_parts(&orig);
        }
        Ok(self.insert_new_managed_buffer(token.as_slice()))
    }

    /// The nonce of the token payment at `index`; aborts when no payment
    /// sits at that index.
    pub fn esdt_token_nonce_by_index(&self, index: usize) -> (r: Result<u64, TxPanic>)
        ensures
            index >= self.input_spec().esdt_values@.len() ==> r == Err::<u64, TxPanic>(
                TxPanic { status: 10u64, reason: PanicReason::EsdtInvalidTokenIndex },
            ),
            index < self.input_spec().esdt_values@.len() ==> r == Ok::<u64, TxPanic>(
                self.input_spec().esdt_values@[index as int].nonce,
            ),
    {
        proof {
            self.reveal_host_fields();
        }
        if index < self.input.esdt_values.len() {
            Ok(self.input.esdt_values[index].nonce)
        } else {
            Err(TxPanic { status: 10, reason: PanicReason::EsdtInvalidTokenIndex })
        }
    }

    /// Whether the token payment at `index` is fungible: a nonce of zero
    /// means fungible; aborts when no payment sits at that index.
    pub fn esdt_token_type_by_index(&self, index: usize) -> (r: Result<EsdtTokenType, TxPanic>)
        ensures
            index >= self.input_spec().esdt_values@.len() ==> r == Err::<EsdtTokenType, TxPanic>(
                TxPanic { status: 10u64, reason: PanicReason::EsdtInvalidTokenIndex },
            ),
            index < self.input_spec().esdt_values@.len() ==> r == Ok::<EsdtTokenType, TxPanic>(
                if self.input_spec().esdt_values@[index as int].nonce == 0 {
                    EsdtTokenType::Fungible
                } else {
                    EsdtTokenType::NonFungible
                },
            ),
    {
        match self.esdt_token_nonce_by_index(index) {
            Ok(nonce) => {
                if nonce == 0 {
                    Ok(EsdtTokenType::Fungible)
                } else {
                    Ok(EsdtTokenType::NonFungible)
                }
            },
            Err(e) => Err(e),
        }
    }
}

} // verus!
