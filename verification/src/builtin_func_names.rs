//! The names of the built-in transfer functions the execution host
//! recognises, and the test for membership in that family.

use vstd::prelude::*;

use crate::bytes_util::bytes_eq;

verus! {

/// The bytes of `"ESDTTransfer"`.
pub open spec fn spec_esdt_transfer_func_name() -> Seq<u8> {
    seq![69u8, 83, 68, 84, 84, 114, 97, 110, 115, 102, 101, 114]
}

/// The bytes of `"ESDTNFTTransfer"`.
pub open spec fn spec_esdt_nft_transfer_func_name() -> Seq<u8> {
    seq![69u8, 83, 68, 84, 78, 70, 84, 84, 114, 97, 110, 115, 102, 101, 114]
}

/// The bytes of `"MultiESDTNFTTransfer"`.
pub open spec fn spec_esdt_multi_transfer_func_name() -> Seq<u8> {
    seq![77u8, 117, 108, 116, 105, 69, 83, 68, 84, 78, 70, 84, 84, 114, 97, 110, 115, 102, 101, 114]
}

/// The name of the single-token built-in transfer, `"ESDTTransfer"`.
pub fn esdt_transfer_func_name() -> (r: Vec<u8>)
    ensures
        r@ == spec_esdt_transfer_func_name(),
{
    let r: Vec<u8> = vec![69u8, 83, 68, 84, 84, 114, 97, 110, 115, 102, 101, 114];
    proof {
        assert(r@ =~= spec_esdt_transfer_func_name());
    }
    r
}

/// The name of the non-fungible built-in transfer, `"ESDTNFTTransfer"`.
pub fn esdt_nft_transfer_func_name() -> (r: Vec<u8>)
    ensures
        r@ == spec_esdt_nft_transfer_func_name(),
{
    let r: Vec<u8> = vec![69u8, 83, 68, 84, 78, 70, 84, 84, 114, 97, 110, 115, 102, 101, 114];
    proof {
        assert(r@ =~= spec_esdt_nft_transfer_func_name());
    }
    r
}

/// The name of the multi-token built-in transfer, `"MultiESDTNFTTransfer"`.
pub fn esdt_multi_transfer_func_name() -> (r: Vec<u8>)
    ensures
        r@ == spec_esdt_multi_transfer_func_name(),
{
    let r: Vec<u8> = vec![
        77u8,
        117,
        108,
        116,
        105,
        69,
        83,
        68,
        84,
        78,
        70,
        84,
        84,
        114,
        97,
        110,
        115,
        102,
        101,
        114,
    ];
    proof {
        assert(r@ =~= spec_esdt_multi_transfer_func_name());
    }
    r
}

/// Whether `func_name` is one of the built-in transfer functions: the
/// single-token transfer, the non-fungible transfer or the multi-token
/// transfer.
pub fn is_esdt_transfer_built_in_function(func_name: &[u8]) -> (r: bool)
    ensures
        r == (func_name@ == spec_esdt_transfer_func_name() || func_name@
            == spec_esdt_nft_transfer_func_name() || func_name@
            == spec_esdt_multi_transfer_func_name()),
{
    let single = esdt_transfer_func_name();
    let nft = esdt_nft_transfer_func_name();
    let multi = esdt_multi_transfer_func_name();
    bytes_eq(func_name, single.as_slice()) || bytes_eq(func_name, nft.as_slice()) || bytes_eq(
        func_name,
        multi.as_slice(),
    )
}

} // verus!
