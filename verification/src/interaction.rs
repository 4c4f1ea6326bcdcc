//! Cross-call argument assembly: building a call to another program appends
//! one top-encoded byte string per logical argument, in a fixed order.

use vstd::prelude::*;

use crate::big_uint::BigUint;
use crate::bytes_util::push_bytes;
use crate::codec::{top_encode_to_vec, TopEncode};
use crate::token::TokenIdentifier;

verus! {

/// The argument slots of an outgoing call: one independently top-encoded
/// byte string per logical argument, in the order they were pushed.
pub struct ArgBuffer {
    args: Vec<Vec<u8>>,
}

impl ArgBuffer {
    /// The argument slots, each as its byte string.
    pub closed spec fn args_spec(&self) -> Seq<Seq<u8>> {
        self.args.deep_view()
    }

    /// A buffer with no arguments.
    pub fn new_empty() -> (r: Self)
        ensures
            r.args_spec() == Seq::<Seq<u8>>::empty(),
    {
        let r = ArgBuffer { args: Vec::new() };
        proof {
            assert(r.args_spec() =~= Seq::<Seq<u8>>::empty());
        }
        r
    }

    /// How many argument slots are filled.
    pub fn num_args(&self) -> (r: usize)
        ensures
            r == self.args_spec().len(),
    {
        self.args.len()
    }

    /// A copy of the argument slot at `index`.
    pub fn get_arg(&self, index: usize) -> (r: Vec<u8>)
        requires
            index < self.args_spec().len(),
        ensures
            r@ == self.args_spec()[index as int],
    {
        vstd::slice::slice_to_vec(self.args[index].as_slice())
    }

    /// Append one argument: its top-level encoding fills the next slot.
    pub fn push_arg<T: TopEncode>(&mut self, arg: &T)
        requires
            arg.top_enc_ok(),
        ensures
            final(self).args_spec() == old(self).args_spec().push(arg.top_enc()),
    {
        let bytes = top_encode_to_vec(arg);
        self.args.push(bytes);
        proof {
            assert(self.args_spec() =~~= old(self).args_spec().push(arg.top_enc()));
        }
    }

    /// Append one argument that is already encoded.
    pub fn push_arg_raw(&mut self, raw: &[u8])
        ensures
            final(self).args_spec() == old(self).args_spec().push(raw@),
    {
        self.args.push(vstd::slice::slice_to_vec(raw));
        proof {
            assert(self.args_spec() =~~= old(self).args_spec().push(raw@));
        }
    }
}

/// An asynchronous call to another program, ready for the boundary that
/// performs it: recipient, attached payment, endpoint name and the assembled
/// argument slots.
pub struct AsyncCall {
    pub to: Vec<u8>,
    pub egld_payment: BigUint,
    pub endpoint_name: Vec<u8>,
    pub arg_buffer: ArgBuffer,
}

/// A direct token-transfer-and-execute call, ready for the boundary that
/// performs it.
pub struct TransferEsdtExecute {
    pub to: Vec<u8>,
    pub token_identifier: TokenIdentifier,
    pub amount: BigUint,
    pub gas_limit: u64,
    pub endpoint_name: Vec<u8>,
    pub arg_buffer: ArgBuffer,
}

} // verus!
