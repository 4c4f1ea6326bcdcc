//! The mock execution host: memory accounting, call-value queries, the
//! storage interface and the cryptographic operations against their real
//! implementations.

use ed25519_dalek::{Keypair, PublicKey, SecretKey, Signer};
use sha3::Digest;
use elrond_wasm::big_uint::BigUint;
use elrond_wasm::debug_api::{DebugApi, EsdtTransfer, PanicReason, TxInput, TxPanic};
use elrond_wasm::token::EsdtTokenType;
use elrond_wasm::{get_vm, static_vm_mem_store, VM};

fn no_payment() -> TxInput {
    TxInput { egld_value: BigUint::zero(), esdt_values: Vec::new() }
}

fn one_transfer(token: &[u8], nonce: u64, value: u64) -> TxInput {
    TxInput {
        egld_value: BigUint::zero(),
        esdt_values: vec![EsdtTransfer {
            token_identifier: token.to_vec(),
            nonce,
            value: BigUint::from_u64(value),
        }],
    }
}

fn two_transfers() -> TxInput {
    TxInput {
        egld_value: BigUint::zero(),
        esdt_values: vec![
            EsdtTransfer {
                token_identifier: b"AAA".to_vec(),
                nonce: 0,
                value: BigUint::from_u64(1),
            },
            EsdtTransfer {
                token_identifier: b"BBB".to_vec(),
                nonce: 0,
                value: BigUint::from_u64(2),
            },
        ],
    }
}

#[test]
fn vm_mem_store_initialises_and_grows() {
    let mut vm = VM::default();
    assert_eq!(vm.memory_size, 0);
    let r = vm.mem_store(100, 50);
    assert!(r.is_ok());
    assert_eq!(vm.init_offset, 100);
    assert_eq!(vm.offset, 150);
    assert_eq!(vm.memory_size, 100 + 65536);
    assert_eq!(vm.get_memory_size(), 65536);
}

#[test]
fn vm_mem_store_of_nothing_changes_nothing() {
    let mut vm = VM::default();
    let r = vm.mem_store(100, 0);
    assert!(r.is_ok());
    assert_eq!(vm, VM::default());
}

#[test]
fn vm_mem_store_reuses_the_current_offset() {
    let mut vm = VM::default();
    vm.mem_store(100, 50).unwrap();
    // the caller's offset is ignored once data exists
    vm.mem_store(7, 10).unwrap();
    assert_eq!(vm.offset, 160);
    assert_eq!(vm.init_offset, 100);
    assert_eq!(vm.memory_size, 100 + 65536);
}

#[test]
fn vm_grow_memory_adds_whole_pages() {
    let mut vm = VM::default();
    vm.grow_memory(3);
    assert_eq!(vm.memory_size, 3 * 65536);
}

#[test]
fn static_vm_mem_store_works_on_a_fixture() {
    let mut vm = VM::default();
    assert!(static_vm_mem_store(&mut vm, 0, 32).is_ok());
    assert_eq!(vm.offset, 32);
    let copy = get_vm(&vm);
    assert_eq!(copy, vm);
}

#[test]
fn check_not_payable_accepts_an_unpaid_call() {
    let api = DebugApi::new(no_payment());
    assert!(api.check_not_payable().is_ok());
}

#[test]
fn check_not_payable_rejects_payments() {
    let api = DebugApi::new(TxInput {
        egld_value: BigUint::from_u64(5),
        esdt_values: Vec::new(),
    });
    assert_eq!(
        api.check_not_payable(),
        Err(TxPanic { status: 10, reason: PanicReason::NonPayableFuncEgld })
    );

    let api = DebugApi::new(one_transfer(b"TOK", 0, 5));
    assert_eq!(
        api.check_not_payable(),
        Err(TxPanic { status: 10, reason: PanicReason::NonPayableFuncEsdt })
    );
}

#[test]
fn call_value_queries_on_a_single_transfer() {
    let api = DebugApi::new(one_transfer(b"TOK", 0, 123));
    assert_eq!(api.esdt_num_transfers(), 1);
    assert_eq!(api.esdt_token_nonce(), Ok(0));
    assert_eq!(api.esdt_token_type(), Ok(EsdtTokenType::Fungible));

    let api = DebugApi::new(one_transfer(b"NFT", 7, 1));
    assert_eq!(api.esdt_token_nonce(), Ok(7));
    assert_eq!(api.esdt_token_type(), Ok(EsdtTokenType::NonFungible));
}

#[test]
fn call_value_queries_reject_bad_counts() {
    let api = DebugApi::new(two_transfers());
    assert_eq!(
        api.esdt_token_nonce(),
        Err(TxPanic { status: 10, reason: PanicReason::TooManyEsdtTransfers })
    );

    let api = DebugApi::new(no_payment());
    assert_eq!(
        api.esdt_token_nonce(),
        Err(TxPanic { status: 10, reason: PanicReason::EsdtInvalidTokenIndex })
    );
    assert_eq!(
        api.esdt_token_nonce_by_index(3),
        Err(TxPanic { status: 10, reason: PanicReason::EsdtInvalidTokenIndex })
    );
}

#[test]
fn token_loads_the_token_name_into_a_buffer() {
    let mut api = DebugApi::new(one_transfer(b"TOK", 0, 9));
    let handle = api.token().unwrap().unwrap();
    assert_eq!(api.mb_to_boxed_bytes(handle).as_slice(), b"TOK");

    let mut api = DebugApi::new(no_payment());
    assert_eq!(api.token(), Ok(None));
}

#[test]
fn esdt_value_by_index_loads_the_amount() {
    let mut api = DebugApi::new(one_transfer(b"TOK", 0, 123));
    let handle = api.esdt_value_by_index(0).unwrap();
    assert_eq!(api.bi_get_bytes(handle), vec![123]);
    assert_eq!(
        api.esdt_value_by_index(1),
        Err(TxPanic { status: 10, reason: PanicReason::EsdtInvalidTokenIndex })
    );
}

#[test]
fn load_values_into_existing_handles() {
    let mut api = DebugApi::new(TxInput {
        egld_value: BigUint::from_u64(44),
        esdt_values: vec![EsdtTransfer {
            token_identifier: b"TOK".to_vec(),
            nonce: 0,
            value: BigUint::from_u64(500),
        }],
    });
    let dest = api.insert_new_big_uint(BigUint::zero());
    api.load_egld_value(dest);
    assert_eq!(api.bi_get_bytes(dest), vec![44]);
    assert!(api.load_single_esdt_value(dest).is_ok());
    assert_eq!(api.bi_get_bytes(dest), vec![1, 244]);
}

#[test]
fn host_storage_store_and_load() {
    let mut api = DebugApi::new(no_payment());
    assert!(api.storage_store_slice_u8(b"key", &[1, 2]).is_ok());
    assert_eq!(api.storage_load_vec_u8(b"key"), vec![1, 2]);
    assert_eq!(api.storage_load_len(b"key"), 2);
    assert_eq!(api.storage_load_vec_u8(b"other"), Vec::<u8>::new());
}

#[test]
fn host_storage_rejects_the_reserved_prefix() {
    let mut api = DebugApi::new(no_payment());
    assert_eq!(
        api.storage_store_slice_u8(b"ELRONDanything", &[1]),
        Err(TxPanic { status: 10, reason: PanicReason::WriteToReservedKey })
    );
    assert_eq!(api.storage_load_vec_u8(b"ELRONDanything"), Vec::<u8>::new());
}

#[test]
fn host_storage_load_to_heap_accounts_memory() {
    let mut api = DebugApi::new(no_payment());
    assert!(api.storage_store_slice_u8(b"key", &[5, 6, 7]).is_ok());
    let data = api.storage_load_to_heap(b"key");
    assert_eq!(data, vec![5, 6, 7]);
    assert_eq!(api.vm_state().offset, 3);
}

#[test]
fn host_storage_big_uint_round_trip() {
    let mut api = DebugApi::new(no_payment());
    assert!(api.storage_store_slice_u8(b"key", &[0, 0, 2, 0]).is_ok());
    let dest = api.insert_new_big_uint(BigUint::zero());
    api.storage_load_big_uint_raw(b"key", dest);
    assert_eq!(api.bi_get_bytes(dest), vec![2, 0]);
    assert!(api.storage_store_big_uint_raw(b"back", dest).is_ok());
    assert_eq!(api.storage_load_vec_u8(b"back"), vec![2, 0]);
}

#[test]
fn host_storage_managed_buffer_interface() {
    let mut api = DebugApi::new(no_payment());
    let key = api.insert_new_managed_buffer(b"key");
    let value = api.insert_new_managed_buffer(&[1, 2, 3]);
    let dest = api.insert_new_managed_buffer(&[]);
    assert!(api.storage_store_managed_buffer_raw(key, value).is_ok());
    api.storage_load_managed_buffer_raw(key, dest);
    assert_eq!(api.mb_to_boxed_bytes(dest).as_slice(), &[1, 2, 3]);
    assert!(api.storage_store_managed_buffer_clear(key).is_ok());
    api.storage_load_managed_buffer_raw(key, dest);
    assert_eq!(api.mb_to_boxed_bytes(dest).as_slice(), &[] as &[u8]);
}

#[test]
fn host_storage_load_from_address() {
    let mut api = DebugApi::new(no_payment());
    api.set_account_storage(&[7; 32], b"slot", &[42]);
    let address = api.insert_new_managed_buffer(&[7; 32]);
    let key = api.insert_new_managed_buffer(b"slot");
    let dest = api.insert_new_managed_buffer(&[]);
    api.storage_load_from_address(address, key, dest);
    assert_eq!(api.mb_to_boxed_bytes(dest).as_slice(), &[42]);

    let unknown = api.insert_new_managed_buffer(&[9; 32]);
    api.storage_load_from_address(unknown, key, dest);
    assert_eq!(api.mb_to_boxed_bytes(dest).as_slice(), &[] as &[u8]);
}

#[test]
fn sha256_matches_the_known_vectors() {
    let mut api = DebugApi::new(no_payment());
    let empty_digest = api.sha256_legacy(&[]);
    assert_eq!(
        empty_digest.to_vec(),
        vec![
            0xe3, 0xb0, 0xc4, 0x42, 0x98, 0xfc, 0x1c, 0x14, 0x9a, 0xfb, 0xf4, 0xc8, 0x99, 0x6f,
            0xb9, 0x24, 0x27, 0xae, 0x41, 0xe4, 0x64, 0x9b, 0x93, 0x4c, 0xa4, 0x95, 0x99, 0x1b,
            0x78, 0x52, 0xb8, 0x55,
        ]
    );
    // the 32-byte result was accounted for
    assert_eq!(api.vm_state().offset, 32);

    let abc_digest = api.sha256_legacy(b"abc");
    assert_eq!(
        abc_digest.to_vec(),
        vec![
            0xba, 0x78, 0x16, 0xbf, 0x8f, 0x01, 0xcf, 0xea, 0x41, 0x41, 0x40, 0xde, 0x5d, 0xae,
            0x22, 0x23, 0xb0, 0x03, 0x61, 0xa3, 0x96, 0x17, 0x7a, 0x9c, 0xb4, 0x10, 0xff, 0x61,
            0xf2, 0x00, 0x15, 0xad,
        ]
    );
}

#[test]
fn keccak256_matches_the_known_vector_and_the_crate() {
    let mut api = DebugApi::new(no_payment());
    let empty_digest = api.keccak256_legacy(&[]);
    assert_eq!(
        empty_digest.to_vec(),
        vec![
            0xc5, 0xd2, 0x46, 0x01, 0x86, 0xf7, 0x23, 0x3c, 0x92, 0x7e, 0x7d, 0xb2, 0xdc, 0xc7,
            0x03, 0xc0, 0xe5, 0x00, 0xb6, 0x53, 0xca, 0x82, 0x27, 0x3b, 0x7b, 0xfa, 0xd8, 0x04,
            0x5d, 0x85, 0xa4, 0x70,
        ]
    );

    let direct = {
        let mut hasher = sha3::Keccak256::new();
        hasher.update(b"some data");
        hasher.finalize()
    };
    let through_host = api.keccak256_legacy(b"some data");
    assert_eq!(through_host.to_vec(), direct.to_vec());
}

#[test]
fn sha256_managed_writes_the_digest_buffer() {
    let mut api = DebugApi::new(no_payment());
    let data = api.insert_new_managed_buffer(b"abc");
    let dest = api.insert_new_managed_buffer(&[]);
    api.sha256_managed(dest, data);
    let digest = api.mb_to_boxed_bytes(dest);
    assert_eq!(digest.as_slice()[0], 0xba);
    assert_eq!(digest.len(), 32);

    api.keccak256_managed(dest, data);
    assert_eq!(api.mb_to_boxed_bytes(dest).len(), 32);
}

#[test]
fn ed25519_accepts_a_real_signature_and_rejects_forgeries() {
    let secret = SecretKey::from_bytes(&[7u8; 32]).unwrap();
    let public = PublicKey::from(&secret);
    let keypair = Keypair { secret, public };
    let signature = keypair.sign(b"a signed message");
    let signature_bytes = signature.to_bytes();

    let api = DebugApi::new(no_payment());
    assert!(api.verify_ed25519_legacy(
        public.as_bytes(),
        b"a signed message",
        &signature_bytes
    ));
    assert!(!api.verify_ed25519_legacy(
        public.as_bytes(),
        b"a different message",
        &signature_bytes
    ));
    let mut tampered = signature_bytes;
    tampered[0] = tampered[0].wrapping_add(1);
    assert!(!api.verify_ed25519_legacy(public.as_bytes(), b"a signed message", &tampered));
    assert!(!api.verify_ed25519_legacy(&[1, 2, 3], b"a signed message", &signature_bytes));
    assert!(!api.verify_ed25519_legacy(public.as_bytes(), b"a signed message", &[9, 9]));
}

#[test]
fn ed25519_managed_reads_the_buffers() {
    let secret = SecretKey::from_bytes(&[9u8; 32]).unwrap();
    let public = PublicKey::from(&secret);
    let keypair = Keypair { secret, public };
    let signature = keypair.sign(b"payload");

    let mut api = DebugApi::new(no_payment());
    let key = api.insert_new_managed_buffer(public.as_bytes());
    let message = api.insert_new_managed_buffer(b"payload");
    let sig = api.insert_new_managed_buffer(&signature.to_bytes());
    assert!(api.verify_ed25519_managed(key, message, sig));

    let wrong_message = api.insert_new_managed_buffer(b"other");
    assert!(!api.verify_ed25519_managed(key, wrong_message, sig));
}
