//! The host's cryptographic operations. The hash digests and the signature
//! check are computed by outside crates; each result is a function of the
//! input bytes alone and is named by an uninterpreted spec function, so the
//! logic around the calls is verified against those names.

use vstd::prelude::*;

use sha2::Digest;

use crate::debug_api::DebugApi;
use crate::vm::{spec_mem_store_ok, spec_mem_store_post, static_vm_mem_store};

verus! {

/// The SHA-256 digest of a byte string.
pub uninterp spec fn sha256_of(data: Seq<u8>) -> Seq<u8>;

/// The Keccak-256 digest of a byte string.
pub uninterp spec fn keccak256_of(data: Seq<u8>) -> Seq<u8>;

/// Whether `signature` is a valid Ed25519 signature by the public key
/// `key` over `message`.
pub uninterp spec fn ed25519_verifies(key: Seq<u8>, message: Seq<u8>, signature: Seq<u8>) -> bool;

/// Relies on sha2's `Sha256` through the `Digest` interface: the digest is
/// exactly 32 bytes and depends on the input bytes alone.
#[verifier::external_body]
fn sha256_digest(data: &[u8]) -> (r: [u8; 32])
    ensures
        r@ == sha256_of(data@),
        r@.len() == 32,
{
    let mut hasher = sha2::Sha256::new();
    hasher.update(data);
    hasher.finalize().into()
}

/// Relies on sha3's `Keccak256` through the `Digest` interface: the digest
/// is exactly 32 bytes and depends on the input bytes alone.
#[verifier::external_body]
fn keccak256_digest(data: &[u8]) -> (r: [u8; 32])
    ensures
        r@ == keccak256_of(data@),
        r@.len() == 32,
{
    let mut hasher = sha3::Keccak256::new();
    hasher.update(data);
    hasher.finalize().into()
}

/// Relies on ed25519_dalek: `PublicKey::from_bytes` rejects any key that is
/// not exactly 32 bytes, `Signature::from_bytes` rejects any signature that
/// is not exactly 64 bytes, and `Verifier::verify` is deterministic in the
/// key, message and signature bytes.
#[verifier::external_body]
fn ed25519_verify_bytes(key: &[u8], message: &[u8], signature: &[u8]) -> (r: bool)
    ensures
        r == ed25519_verifies(key@, message@, signature@),
        key@.len() != 32 ==> r == false,
        signature@.len() != 64 ==> r == false,
{
    let public = match ed25519_dalek::PublicKey::from_bytes(key) {
        Ok(p) => p,
        Err(_) => return false,
    };
    let sig = match ed25519_dalek::Signature::from_bytes(signature) {
        Ok(s) => s,
        Err(_) => return false,
    };
    ed25519_dalek::Verifier::verify(&public, message, &sig).is_ok()
}

impl DebugApi {
    /// The SHA-256 digest of `data`, with the 32-byte result accounted for
    /// in the memory store.
    pub fn sha256_legacy(&mut self, data: &[u8]) -> (r: [u8; 32])
        requires
            spec_mem_store_ok(old(self).vm_spec(), 0, 32),
        ensures
            r@ == sha256_of(data@),
            final(self).vm_spec() == spec_mem_store_post(old(self).vm_spec(), 0, 32),
            final(self).mb_spec() == old(self).mb_spec(),
            final(self).bi_spec() == old(self).bi_spec(),
            final(self).input_spec() == old(self).input_spec(),
            forall|k: Seq<u8>| final(self).storage_bytes(k) == old(self).storage_bytes(k),
            forall|a: Seq<u8>, k: Seq<u8>|
                final(self).account_bytes(a, k) == old(self).account_bytes(a, k),
    {
        proof {
            self.reveal_host_fields();
        }
        let _account_result = static_vm_mem_store(&mut self.vm, 0, 32);
        proof {
            self.reveal_host_fields();
            let ghost orig = *old(self);
            self.lemma_host_parts(&orig);
        }
        sha256_digest(data)
    }

    /// The SHA-256 digest of the managed buffer at `data_handle`, written to
    /// the managed buffer at `dest`.
    pub fn sha256_managed(&mut self, dest: usize, data_handle: usize)
        requires
            dest < old(self).mb_spec().len(),
            data_handle < old(self).mb_spec().len(),
            spec_mem_store_ok(old(self).vm_spec(), 0, 32),
        ensures
            final(self).mb_spec() == old(self).mb_spec().update(
                dest as int,
                sha256_of(old(self).mb_spec()[data_handle as int]),
            ),
            final(self).vm_spec() == spec_mem_store_post(old(self).vm_spec(), 0, 32),
            final(self).bi_spec() == old(self).bi_spec(),
            final(self).input_spec() == old(self).input_spec(),
            forall|k: Seq<u8>| final(self).storage_bytes(k) == old(self).storage_bytes(k),
            forall|a: Seq<u8>, k: Seq<u8>|
                final(self).account_bytes(a, k) == old(self).account_bytes(a, k),
    {
        let data = self.mb_to_boxed_bytes(data_handle);
        let result_bytes = self.sha256_legacy(data.as_slice());
        self.mb_overwrite(dest, result_bytes.as_slice());
    }

    /// The Keccak-256 digest of `data`, with the 32-byte result accounted
    /// for in the memory store.
    pub fn keccak256_legacy(&mut self, data: &[u8]) -> (r: [u8; 32])
        requires
            spec_mem_store_ok(old(self).vm_spec(), 0, 32),
        ensures
            r@ == keccak256_of(data@),
            final(self).vm_spec() == spec_mem_store_post(old(self).vm_spec(), 0, 32),
            final(self).mb_spec() == old(self).mb_spec(),
            final(self).bi_spec() == old(self).bi_spec(),
            final(self).input_spec() == old(self).input_spec(),
            forall|k: Seq<u8>| final(self).storage_bytes(k) == old(self).storage_bytes(k),
            forall|a: Seq<u8>, k: Seq<u8>|
                final(self).account_bytes(a, k) == old(self).account_bytes(a, k),
    {
        proof {
            self.reveal_host_fields();
        }
        let _account_result = static_vm_mem_store(&mut self.vm, 0, 32);
        proof {
            self.reveal_host_fields();
            let ghost orig = *old(self);
            self.lemma_host_parts(&orig);
        }
        keccak256_digest(data)
    }

    /// The Keccak-256 digest of the managed buffer at `data_handle`, written
    /// to the managed buffer at `dest`.
    pub fn keccak256_managed(&mut self, dest: usize, data_handle: usize)
        requires
            dest < old(self).mb_spec().len(),
            data_handle < old(self).mb_spec().len(),
            spec_mem_store_ok(old(self).vm_spec(), 0, 32),
        ensures
            final(self).mb_spec() == old(self).mb_spec().update(
                dest as int,
                keccak256_of(old(self).mb_spec()[data_handle as int]),
            ),
            final(self).vm_spec() == spec_mem_store_post(old(self).vm_spec(), 0, 32),
            final(self).bi_spec() == old(self).bi_spec(),
            final(self).input_spec() == old(self).input_spec(),
            forall|k: Seq<u8>| final(self).storage_bytes(k) == old(self).storage_bytes(k),
            forall|a: Seq<u8>, k: Seq<u8>|
                final(self).account_bytes(a, k) == old(self).account_bytes(a, k),
    {
        let data = self.mb_to_boxed_bytes(data_handle);
        let result_bytes = self.keccak256_legacy(data.as_slice());
        self.mb_overwrite(dest, result_bytes.as_slice());
    }

    /// Whether `signature` is a valid Ed25519 signature by `key` over
    /// `message`.
    pub fn verify_ed25519_legacy(&self, key: &[u8], message: &[u8], signature: &[u8]) -> (r: bool)
        ensures
            r == ed25519_verifies(key@, message@, signature@),
    {
        ed25519_verify_bytes(key, message, signature)
    }

    /// Whether the managed buffer at `signature` holds a valid Ed25519
    /// signature by the key at `key` over the message at `message`.
    pub fn verify_ed25519_managed(&mut self, key: usize, message: usize, signature: usize) -> (r:
        bool)
        requires
            key < old(self).mb_spec().len(),
            message < old(self).mb_spec().len(),
            signature < old(self).mb_spec().len(),
        ensures
            r == ed25519_verifies(
                old(self).mb_spec()[key as int],
                old(self).mb_spec()[message as int],
                old(self).mb_spec()[signature as int],
            ),
            *final(self) == *old(self),
    {
        let key_bytes = self.mb_to_boxed_bytes(key);
        let message_bytes = self.mb_to_boxed_bytes(message);
        let signature_bytes = self.mb_to_boxed_bytes(signature);
        self.verify_ed25519_legacy(
            key_bytes.as_slice(),
            message_bytes.as_slice(),
            signature_bytes.as_slice(),
        )
    }
}

} // verus!
