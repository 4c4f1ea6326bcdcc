//! The token-forwarding program: it accepts a payment in one expected token
//! and forwards it to a second program, either through an asynchronous
//! built-in transfer call or through a direct transfer-and-execute call.
//! Each endpoint validates the payment and assembles the outgoing call; the
//! boundary that performs the call receives the assembled value.

use vstd::prelude::*;

use crate::big_uint::BigUint;
use crate::builtin_func_names::{esdt_transfer_func_name, spec_esdt_transfer_func_name};
use crate::codec::{CodecValue, TopEncode};
use crate::interaction::{ArgBuffer, AsyncCall, TransferEsdtExecute};
use crate::num_codec::min_be;
use crate::storage::Storage;
use crate::token::TokenIdentifier;

verus! {

/// The errors an endpoint reports: no payment attached, or a payment in the
/// wrong token.
#[derive(Clone, Copy, Debug, PartialEq, Eq, Structural)]
pub enum SCError {
    NoEsdtTransferred,
    WrongEsdtToken,
}

/// The storage key of the expected token name, `"esdtTokenName"`.
pub open spec fn spec_esdt_token_name_key() -> Seq<u8> {
    seq![101u8, 115, 100, 116, 84, 111, 107, 101, 110, 78, 97, 109, 101]
}

/// The storage key of the second program's address,
/// `"secondContractAddress"`.
pub open spec fn spec_second_contract_address_key() -> Seq<u8> {
    seq![
        115u8,
        101,
        99,
        111,
        110,
        100,
        67,
        111,
        110,
        116,
        114,
        97,
        99,
        116,
        65,
        100,
        100,
        114,
        101,
        115,
        115,
    ]
}

/// The second program's accepting endpoint, `"acceptEsdtPayment"`.
pub open spec fn spec_accept_esdt_payment_endpoint() -> Seq<u8> {
    seq![97u8, 99, 99, 101, 112, 116, 69, 115, 100, 116, 80, 97, 121, 109, 101, 110, 116]
}

/// The second program's rejecting endpoint, `"rejectEsdtPayment"`.
pub open spec fn spec_reject_esdt_payment_endpoint() -> Seq<u8> {
    seq![114u8, 101, 106, 101, 99, 116, 69, 115, 100, 116, 80, 97, 121, 109, 101, 110, 116]
}

fn esdt_token_name_key() -> (r: Vec<u8>)
    ensures
        r@ == spec_esdt_token_name_key(),
{
    let r: Vec<u8> = vec![101u8, 115, 100, 116, 84, 111, 107, 101, 110, 78, 97, 109, 101];
    proof {
        assert(r@ =~= spec_esdt_token_name_key());
    }
    r
}

fn second_contract_address_key() -> (r: Vec<u8>)
    ensures
        r@ == spec_second_contract_address_key(),
{
    let r: Vec<u8> = vec![
        115u8,
        101,
        99,
        111,
        110,
        100,
        67,
        111,
        110,
        116,
        114,
        97,
        99,
        116,
        65,
        100,
        100,
        114,
        101,
        115,
        115,
    ];
    proof {
        assert(r@ =~= spec_second_contract_address_key());
    }
    r
}

fn accept_esdt_payment_endpoint() -> (r: Vec<u8>)
    ensures
        r@ == spec_accept_esdt_payment_endpoint(),
{
    let r: Vec<u8> = vec![
        97u8,
        99,
        99,
        101,
        112,
        116,
        69,
        115,
        100,
        116,
        80,
        97,
        121,
        109,
        101,
        110,
        116,
    ];
    proof {
        assert(r@ =~= spec_accept_esdt_payment_endpoint());
    }
    r
}

fn reject_esdt_payment_endpoint() -> (r: Vec<u8>)
    ensures
        r@ == spec_reject_esdt_payment_endpoint(),
{
    let r: Vec<u8> = vec![
        114u8,
        101,
        106,
        101,
        99,
        116,
        69,
        115,
        100,
        116,
        80,
        97,
        121,
        109,
        101,
        110,
        116,
    ];
    proof {
        assert(r@ =~= spec_reject_esdt_payment_endpoint());
    }
    r
}

/// The forwarding program and its storage.
pub struct FirstContract {
    storage: Storage,
}

impl FirstContract {
    /// The expected token name currently in storage.
    pub closed spec fn stored_token_name(&self) -> Seq<u8> {
        self.storage.get_bytes(spec_esdt_token_name_key())
    }

    /// The second program's address currently in storage.
    pub closed spec fn stored_second_contract_address(&self) -> Seq<u8> {
        self.storage.get_bytes(spec_second_contract_address_key())
    }

    /// Deploy: store the expected token name and the second program's
    /// address.
    pub fn init(esdt_token_name: &TokenIdentifier, second_contract_address: &[u8]) -> (r: Self)
        ensures
            r.stored_token_name() == esdt_token_name@,
            r.stored_second_contract_address() == second_contract_address@,
    {
        let mut c = FirstContract { storage: Storage::new() };
        c.set_contract_esdt_token_name(esdt_token_name);
        c.set_second_contract_address(second_contract_address);
        c
    }

    /// Store the expected token name.
    pub fn set_contract_esdt_token_name(&mut self, esdt_token_name: &TokenIdentifier)
        ensures
            final(self).stored_token_name() == esdt_token_name@,
            final(self).stored_second_contract_address() == old(
                self,
            ).stored_second_contract_address(),
    {
        let key = esdt_token_name_key();
        crate::storage::storage_set(&mut self.storage, key.as_slice(), esdt_token_name);
        proof {
            assert(spec_second_contract_address_key() != spec_esdt_token_name_key());
        }
    }

    /// Read the expected token name back.
    pub fn get_contract_esdt_token_name(&self) -> (r: TokenIdentifier)
        ensures
            r@ == self.stored_token_name(),
    {
        let key = esdt_token_name_key();
        crate::storage::storage_get::<TokenIdentifier>(&self.storage, key.as_slice())
    }

    /// Store the second program's address.
    pub fn set_second_contract_address(&mut self, address: &[u8])
        ensures
            final(self).stored_second_contract_address() == address@,
            final(self).stored_token_name() == old(self).stored_token_name(),
    {
        let key = second_contract_address_key();
        self.storage.set_bytes(key.as_slice(), address);
        proof {
            assert(spec_second_contract_address_key() != spec_esdt_token_name_key());
        }
    }

    /// Read the second program's address back.
    pub fn get_second_contract_address(&self) -> (r: Vec<u8>)
        ensures
            r@ == self.stored_second_contract_address(),
    {
        let key = second_contract_address_key();
        self.storage.get_bytes_vec(key.as_slice())
    }

    /// Assemble the asynchronous built-in transfer call to the second
    /// program: the token name, the amount and the endpoint to run go in as
    /// argument slots, followed by the forwarded arguments, and the call
    /// itself targets the built-in single-token transfer with no attached
    /// payment.
    pub fn call_esdt_second_contract(
        &self,
        esdt_token_name: &TokenIdentifier,
        amount: &BigUint,
        to: &[u8],
        func_name: &[u8],
        args: &Vec<Vec<u8>>,
    ) -> (r: AsyncCall)
        ensures
            r.to@ == to@,
            r.egld_payment.value() == 0,
            r.endpoint_name@ == spec_esdt_transfer_func_name(),
            r.arg_buffer.args_spec() == seq![esdt_token_name@, amount@, func_name@]
                + args.deep_view(),
    {
        let mut arg_buffer = ArgBuffer::new_empty();
        arg_buffer.push_arg(esdt_token_name);
        arg_buffer.push_arg(amount);
        arg_buffer.push_arg_raw(func_name);
        let ghost head = seq![esdt_token_name@, amount@, func_name@];
        proof {
            assert(arg_buffer.args_spec() =~~= head + args.deep_view().subrange(0, 0));
        }
        let n = args.len();
        let mut i: usize = 0;
        while i < n
            invariant
                n == args@.len(),
                i <= n,
                arg_buffer.args_spec() == head + args.deep_view().subrange(0, i as int),
            decreases n - i,
        {
            arg_buffer.push_arg_raw(args[i].as_slice());
            i = i + 1;
            proof {
                assert(arg_buffer.args_spec() =~~= head + args.deep_view().subrange(0, i as int));
            }
        }
        proof {
            assert(args.deep_view().subrange(0, n as int) =~~= args.deep_view());
        }
        AsyncCall {
            to: vstd::slice::slice_to_vec(to),
            egld_payment: BigUint::zero(),
            endpoint_name: esdt_transfer_func_name(),
            arg_buffer,
        }
    }

    /// Forward the full payment to the second program's accepting endpoint
    /// through the asynchronous built-in transfer. Rejected with
    /// `NoEsdtTransferred` when no payment came, and with `WrongEsdtToken`
    /// when the payment's token is not the expected one.
    pub fn transfer_to_second_contract_full(
        &self,
        esdt_value: &BigUint,
        actual_token_name: &TokenIdentifier,
    ) -> (r: Result<AsyncCall, SCError>)
        ensures
            esdt_value.value() == 0 ==> r == Err::<AsyncCall, SCError>(SCError::NoEsdtTransferred),
            esdt_value.value() != 0 && actual_token_name@ != self.stored_token_name() ==> r == Err::<
                AsyncCall,
                SCError,
            >(SCError::WrongEsdtToken),
            esdt_value.value() != 0 && actual_token_name@ == self.stored_token_name() ==> (
            r matches Ok(call) && call.to@ == self.stored_second_contract_address()
                && call.egld_payment.value() == 0 && call.endpoint_name@
                == spec_esdt_transfer_func_name() && call.arg_buffer.args_spec() == seq![
                self.stored_token_name(),
                esdt_value@,
                spec_accept_esdt_payment_endpoint(),
            ]),
    {
        let expected_token_name = self.get_contract_esdt_token_name();

        if esdt_value.is_zero() {
            return Err(SCError::NoEsdtTransferred);
        }
        if !actual_token_name.eq_value(&expected_token_name) {
            return Err(SCError::WrongEsdtToken);
        }

        let to = self.get_second_contract_address();
        let func_name = accept_esdt_payment_endpoint();
        let args: Vec<Vec<u8>> = Vec::new();
        proof {
            assert(seq![expected_token_name@, esdt_value@, func_name@] + args.deep_view() =~~= seq![
                self.stored_token_name(),
                esdt_value@,
                spec_accept_esdt_payment_endpoint(),
            ]);
        }
        Ok(
            self.call_esdt_second_contract(
                &expected_token_name,
                esdt_value,
                to.as_slice(),
                func_name.as_slice(),
                &args,
            ),
        )
    }

    /// Forward half the payment, rounding down, to the second program's
    /// accepting endpoint through the asynchronous built-in transfer. The
    /// validation is the same as for the full forward.
    pub fn transfer_to_second_contract_half(
        &self,
        esdt_value: &BigUint,
        actual_token_name: &TokenIdentifier,
    ) -> (r: Result<AsyncCall, SCError>)
        ensures
            esdt_value.value() == 0 ==> r == Err::<AsyncCall, SCError>(SCError::NoEsdtTransferred),
            esdt_value.value() != 0 && actual_token_name@ != self.stored_token_name() ==> r == Err::<
                AsyncCall,
                SCError,
            >(SCError::WrongEsdtToken),
            esdt_value.value() != 0 && actual_token_name@ == self.stored_token_name() ==> (
            r matches Ok(call) && call.to@ == self.stored_second_contract_address()
                && call.egld_payment.value() == 0 && call.endpoint_name@
                == spec_esdt_transfer_func_name() && call.arg_buffer.args_spec() == seq![
                self.stored_token_name(),
                min_be(esdt_value.value() / 2),
                spec_accept_esdt_payment_endpoint(),
            ]),
    {
        let expected_token_name = self.get_contract_esdt_token_name();

        if esdt_value.is_zero() {
            return Err(SCError::NoEsdtTransferred);
        }
        if !actual_token_name.eq_value(&expected_token_name) {
            return Err(SCError::WrongEsdtToken);
        }

        let to = self.get_second_contract_address();
        let func_name = accept_esdt_payment_endpoint();
        let args: Vec<Vec<u8>> = Vec::new();
        let halved = esdt_value.half();
        proof {
            assert(seq![expected_token_name@, halved@, func_name@] + args.deep_view() =~~= seq![
                self.stored_token_name(),
                min_be(esdt_value.value() / 2),
                spec_accept_esdt_payment_endpoint(),
            ]);
        }
        Ok(
            self.call_esdt_second_contract(
                &expected_token_name,
                &halved,
                to.as_slice(),
                func_name.as_slice(),
                &args,
            ),
        )
    }

    /// Forward the full payment to the second program's rejecting endpoint
    /// through the asynchronous built-in transfer. The validation is the
    /// same as for the accepting forward.
    pub fn transfer_to_second_contract_rejected(
        &self,
        esdt_value: &BigUint,
        actual_token_name: &TokenIdentifier,
    ) -> (r: Result<AsyncCall, SCError>)
        ensures
            esdt_value.value() == 0 ==> r == Err::<AsyncCall, SCError>(SCError::NoEsdtTransferred),
            esdt_value.value() != 0 && actual_token_name@ != self.stored_token_name() ==> r == Err::<
                AsyncCall,
                SCError,
            >(SCError::WrongEsdtToken),
            esdt_value.value() != 0 && actual_token_name@ == self.stored_token_name() ==> (
            r matches Ok(call) && call.to@ == self.stored_second_contract_address()
                && call.egld_payment.value() == 0 && call.endpoint_name@
                == spec_esdt_transfer_func_name() && call.arg_buffer.args_spec() == seq![
                self.stored_token_name(),
                esdt_value@,
                spec_reject_esdt_payment_endpoint(),
            ]),
    {
        let expected_token_name = self.get_contract_esdt_token_name();

        if esdt_value.is_zero() {
            return Err(SCError::NoEsdtTransferred);
        }
        if !actual_token_name.eq_value(&expected_token_name) {
            return Err(SCError::WrongEsdtToken);
        }

        let to = self.get_second_contract_address();
        let func_name = reject_esdt_payment_endpoint();
        let args: Vec<Vec<u8>> = Vec::new();
        proof {
            assert(seq![expected_token_name@, esdt_value@, func_name@] + args.deep_view() =~~= seq![
                self.stored_token_name(),
                esdt_value@,
                spec_reject_esdt_payment_endpoint(),
            ]);
        }
        Ok(
            self.call_esdt_second_contract(
                &expected_token_name,
                esdt_value,
                to.as_slice(),
                func_name.as_slice(),
                &args,
            ),
        )
    }

    /// Forward the full payment through a direct transfer-and-execute of the
    /// second program's rejecting endpoint, spending the gas that is left.
    pub fn transfer_to_second_contract_rejected_with_transfer_and_execute(
        &self,
        esdt_value: &BigUint,
        actual_token_name: &TokenIdentifier,
        gas_left: u64,
    ) -> (r: Result<TransferEsdtExecute, SCError>)
        ensures
            esdt_value.value() == 0 ==> r == Err::<TransferEsdtExecute, SCError>(
                SCError::NoEsdtTransferred,
            ),
            esdt_value.value() != 0 && actual_token_name@ != self.stored_token_name() ==> r == Err::<
                TransferEsdtExecute,
                SCError,
            >(SCError::WrongEsdtToken),
            esdt_value.value() != 0 && actual_token_name@ == self.stored_token_name() ==> (
            r matches Ok(call) && call.to@ == self.stored_second_contract_address()
                && call.token_identifier@ == self.stored_token_name() && call.amount@ == esdt_value@
                && call.gas_limit == gas_left && call.endpoint_name@
                == spec_reject_esdt_payment_endpoint() && call.arg_buffer.args_spec()
                == Seq::<Seq<u8>>::empty()),
    {
        let second_contract_address = self.get_second_contract_address();
        let expected_token_name = self.get_contract_esdt_token_name();

        if esdt_value.is_zero() {
            return Err(SCError::NoEsdtTransferred);
        }
        if !actual_token_name.eq_value(&expected_token_name) {
            return Err(SCError::WrongEsdtToken);
        }

        Ok(
            TransferEsdtExecute {
                to: second_contract_address,
                token_identifier: expected_token_name,
                amount: esdt_value.clone_value(),
                gas_limit: gas_left,
                endpoint_name: reject_esdt_payment_endpoint(),
                arg_buffer: ArgBuffer::new_empty(),
            },
        )
    }

    /// Forward the full payment through a direct transfer-and-execute of the
    /// second program's accepting endpoint, spending the gas that is left.
    pub fn transfer_to_second_contract_full_with_transfer_and_execute(
        &self,
        esdt_value: &BigUint,
        actual_token_name: &TokenIdentifier,
        gas_left: u64,
    ) -> (r: Result<TransferEsdtExecute, SCError>)
        ensures
            esdt_value.value() == 0 ==> r == Err::<TransferEsdtExecute, SCError>(
                SCError::NoEsdtTransferred,
            ),
            esdt_value.value() != 0 && actual_token_name@ != self.stored_token_name() ==> r == Err::<
                TransferEsdtExecute,
                SCError,
            >(SCError::WrongEsdtToken),
            esdt_value.value() != 0 && actual_token_name@ == self.stored_token_name() ==> (
            r matches Ok(call) && call.to@ == self.stored_second_contract_address()
                && call.token_identifier@ == self.stored_token_name() && call.amount@ == esdt_value@
                && call.gas_limit == gas_left && call.endpoint_name@
                == spec_accept_esdt_payment_endpoint() && call.arg_buffer.args_spec()
                == Seq::<Seq<u8>>::empty()),
    {
        let second_contract_address = self.get_second_contract_address();
        let expected_token_name = self.get_contract_esdt_token_name();

        if esdt_value.is_zero() {
            return Err(SCError::NoEsdtTransferred);
        }
        if !actual_token_name.eq_value(&expected_token_name) {
            return Err(SCError::WrongEsdtToken);
        }

        Ok(
            TransferEsdtExecute {
                to: second_contract_address,
                token_identifier: expected_token_name,
                amount: esdt_value.clone_value(),
                gas_limit: gas_left,
                endpoint_name: accept_esdt_payment_endpoint(),
                arg_buffer: ArgBuffer::new_empty(),
            },
        )
    }
}

} // verus!
