//! The token-forwarding program: storage of its configuration, payment
//! validation and the assembly of the outgoing calls, slot by slot.

use elrond_wasm::big_uint::BigUint;
use elrond_wasm::first_contract::{FirstContract, SCError};
use elrond_wasm::is_esdt_transfer_built_in_function;
use elrond_wasm::token::TokenIdentifier;

fn deployed() -> FirstContract {
    FirstContract::init(&TokenIdentifier::from_slice(b"TOK-abcdef"), &[7u8; 32])
}

#[test]
fn init_stores_the_configuration() {
    let contract = deployed();
    assert_eq!(contract.get_contract_esdt_token_name().as_slice(), b"TOK-abcdef");
    assert_eq!(contract.get_second_contract_address(), vec![7u8; 32]);
}

#[test]
fn full_transfer_assembles_the_builtin_call() {
    let contract = deployed();
    let call = contract
        .transfer_to_second_contract_full(
            &BigUint::from_u64(1000),
            &TokenIdentifier::from_slice(b"TOK-abcdef"),
        )
        .ok()
        .unwrap();
    assert_eq!(call.to, vec![7u8; 32]);
    assert!(call.egld_payment.is_zero());
    assert_eq!(call.endpoint_name, b"ESDTTransfer".to_vec());
    assert_eq!(call.arg_buffer.num_args(), 3);
    assert_eq!(call.arg_buffer.get_arg(0), b"TOK-abcdef".to_vec());
    assert_eq!(call.arg_buffer.get_arg(1), vec![3, 232]);
    assert_eq!(call.arg_buffer.get_arg(2), b"acceptEsdtPayment".to_vec());
}

#[test]
fn half_transfer_halves_the_amount() {
    let contract = deployed();
    let call = contract
        .transfer_to_second_contract_half(
            &BigUint::from_u64(7),
            &TokenIdentifier::from_slice(b"TOK-abcdef"),
        )
        .ok()
        .unwrap();
    assert_eq!(call.arg_buffer.get_arg(1), vec![3]);
    assert_eq!(call.arg_buffer.get_arg(2), b"acceptEsdtPayment".to_vec());
}

#[test]
fn rejected_transfer_targets_the_rejecting_endpoint() {
    let contract = deployed();
    let call = contract
        .transfer_to_second_contract_rejected(
            &BigUint::from_u64(5),
            &TokenIdentifier::from_slice(b"TOK-abcdef"),
        )
        .ok()
        .unwrap();
    assert_eq!(call.endpoint_name, b"ESDTTransfer".to_vec());
    assert_eq!(call.arg_buffer.get_arg(2), b"rejectEsdtPayment".to_vec());
}

#[test]
fn endpoints_reject_a_missing_payment() {
    let contract = deployed();
    let r = contract.transfer_to_second_contract_full(
        &BigUint::zero(),
        &TokenIdentifier::from_slice(b"TOK-abcdef"),
    );
    assert_eq!(r.err(), Some(SCError::NoEsdtTransferred));
}

#[test]
fn endpoints_reject_the_wrong_token() {
    let contract = deployed();
    let r = contract.transfer_to_second_contract_full(
        &BigUint::from_u64(5),
        &TokenIdentifier::from_slice(b"OTHER-12345"),
    );
    assert_eq!(r.err(), Some(SCError::WrongEsdtToken));
}

#[test]
fn transfer_and_execute_assembles_the_direct_call() {
    let contract = deployed();
    let call = contract
        .transfer_to_second_contract_full_with_transfer_and_execute(
            &BigUint::from_u64(9),
            &TokenIdentifier::from_slice(b"TOK-abcdef"),
            55_000,
        )
        .ok()
        .unwrap();
    assert_eq!(call.to, vec![7u8; 32]);
    assert_eq!(call.token_identifier.as_slice(), b"TOK-abcdef");
    assert_eq!(call.amount.to_bytes_be(), vec![9]);
    assert_eq!(call.gas_limit, 55_000);
    assert_eq!(call.endpoint_name, b"acceptEsdtPayment".to_vec());
    assert_eq!(call.arg_buffer.num_args(), 0);

    let rejected = contract
        .transfer_to_second_contract_rejected_with_transfer_and_execute(
            &BigUint::from_u64(9),
            &TokenIdentifier::from_slice(b"TOK-abcdef"),
            55_000,
        )
        .ok()
        .unwrap();
    assert_eq!(rejected.endpoint_name, b"rejectEsdtPayment".to_vec());

    let missing = contract.transfer_to_second_contract_rejected_with_transfer_and_execute(
        &BigUint::zero(),
        &TokenIdentifier::from_slice(b"TOK-abcdef"),
        55_000,
    );
    assert_eq!(missing.err(), Some(SCError::NoEsdtTransferred));

    let wrong = contract.transfer_to_second_contract_full_with_transfer_and_execute(
        &BigUint::from_u64(9),
        &TokenIdentifier::from_slice(b"WRONG"),
        55_000,
    );
    assert_eq!(wrong.err(), Some(SCError::WrongEsdtToken));
}

#[test]
fn builtin_transfer_function_names() {
    assert!(is_esdt_transfer_built_in_function(b"ESDTTransfer"));
    assert!(is_esdt_transfer_built_in_function(b"ESDTNFTTransfer"));
    assert!(is_esdt_transfer_built_in_function(b"MultiESDTNFTTransfer"));
    assert!(!is_esdt_transfer_built_in_function(b"ESDTLocalMint"));
    assert!(!is_esdt_transfer_built_in_function(b""));
    assert_eq!(elrond_wasm::builtin_func_names::esdt_transfer_func_name(), b"ESDTTransfer".to_vec());
    assert_eq!(
        elrond_wasm::builtin_func_names::esdt_nft_transfer_func_name(),
        b"ESDTNFTTransfer".to_vec()
    );
    assert_eq!(
        elrond_wasm::builtin_func_names::esdt_multi_transfer_func_name(),
        b"MultiESDTNFTTransfer".to_vec()
    );
}
