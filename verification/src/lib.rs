//! A binary serialization codec for moving typed values between program
//! memory and storage, call-argument and return-value boundaries, together
//! with the storage mapper, call-assembly types and the mock execution host
//! that consume it.
//!
//! Values are encoded in two forms: a *nested* (self-delimiting) form used
//! when a value is part of a larger stream, and a *top-level* form used when
//! a value occupies an entire buffer. Every codec operation is generic over
//! an error-handler capability, so Result-based and exit-based failure
//! propagation share one implementation.

pub mod big_uint;
pub mod boxed_bytes;
pub mod builtin_func_names;
pub mod bytes_util;
pub mod call_value;
pub mod codec;
pub mod codec_err;
pub mod crypto;
pub mod debug_api;
pub mod first_contract;
pub mod handler;
pub mod interaction;
pub mod mapper;
pub mod num_codec;
pub mod source;
pub mod storage;
pub mod tagged_enum;
pub mod test_util;
pub mod token;
pub mod vm;

pub use big_uint::BigUint;
pub use boxed_bytes::BoxedBytes;
pub use builtin_func_names::is_esdt_transfer_built_in_function;
pub use codec::{
    top_decode, top_decode_from_nested_or_handle_err, top_encode_from_nested, top_encode_to_vec,
};
pub use codec::{
    CodecValue, NestedCodecLaw, NestedDecode, NestedEncode, NestedEncodeNoErr, TopCodecLaw,
    TopDecode, TopEncode,
};
pub use codec_err::{DecodeError, EncodeError};
pub use crypto::{ed25519_verifies, keccak256_of, sha256_of};
pub use debug_api::{DebugApi, EsdtTransfer, PanicReason, TxInput, TxPanic};
pub use first_contract::{FirstContract, SCError};
pub use handler::{
    DecodeErrorHandler, DefaultErrorHandler, EncodeErrorHandler, ExitHandler, ExitSignal,
};
pub use interaction::{ArgBuffer, AsyncCall, TransferEsdtExecute};
pub use mapper::SingleValueMapper;
pub use source::ByteSource;
pub use storage::{storage_clear, storage_get, storage_get_len, storage_set, Storage};
pub use token::{EsdtTokenType, TokenIdentifier};
pub use vm::{get_vm, static_vm_mem_store, VM};
