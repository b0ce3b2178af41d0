//! Key pairs for Reality endpoints.
//!
//! A key pair is an X25519 secret of 32 random bytes with the public key
//! that belongs to it, both in standard Base64 as the engine reads them.
//! The three functions at the end of this file are the only places where
//! `x25519_dalek`, `rand` and `base64` are called.

use base64::engine::general_purpose::STANDARD;
use base64::Engine;
use vstd::prelude::*;
use x25519_dalek::{PublicKey, StaticSecret};

verus! {

/// A key pair for a Reality endpoint.
#[derive(Debug, Clone)]
pub struct RealityKeysResponse {
    pub private_key: String,
    pub public_key: String,
}

/// The X25519 public key that belongs to a secret of 32 bytes.
pub uninterp spec fn x25519_public_key(secret: Seq<u8>) -> Seq<u8>;

/// The standard Base64 text of a sequence of bytes, with padding.
pub uninterp spec fn base64_standard(bytes: Seq<u8>) -> Seq<char>;

/// Whether `keys` is the key pair of `secret`: the secret itself and the
/// public key that belongs to it, each in Base64.
pub open spec fn key_pair_of(secret: Seq<u8>, keys: RealityKeysResponse) -> bool {
    &&& keys.private_key@ == base64_standard(secret)
    &&& keys.public_key@ == base64_standard(x25519_public_key(secret))
}

/// The key pair of a given secret.
pub fn reality_keys_for(secret: &[u8; 32]) -> (keys: RealityKeysResponse)
    ensures
        key_pair_of(secret@, keys),
{
    let public = public_key_of(secret);
    RealityKeysResponse { private_key: encode_key(secret), public_key: encode_key(&public) }
}

/// A fresh key pair. Whatever secret is drawn, the two keys belong
/// together.
pub fn generate_reality_keys() -> (keys: RealityKeysResponse)
    ensures
        exists|secret: Seq<u8>| secret.len() == 32 && #[trigger] key_pair_of(secret, keys),
{
    let secret = random_secret();
    let keys = reality_keys_for(&secret);
    assert(key_pair_of(secret@, keys));
    keys
}

/// Calls `StaticSecret::random_from_rng` on `rand::thread_rng()` and takes
/// the bytes of the secret. Nothing is claimed of them: they are random.
#[verifier::external_body]
fn random_secret() -> (secret: [u8; 32]) {
    StaticSecret::random_from_rng(rand::thread_rng()).to_bytes()
}

/// Calls `PublicKey::from` on the `StaticSecret` made of the bytes. The
/// result is [`x25519_public_key`] of the bytes: a secret is its bytes and
/// the public key is computed from them alone.
#[verifier::external_body]
fn public_key_of(secret: &[u8; 32]) -> (public: [u8; 32])
    ensures
        public@ == x25519_public_key(secret@),
{
    PublicKey::from(&StaticSecret::from(*secret)).to_bytes()
}

/// Calls `Engine::encode` of `base64::engine::general_purpose::STANDARD`.
/// The result is [`base64_standard`] of the bytes.
#[verifier::external_body]
fn encode_key(bytes: &[u8; 32]) -> (text: String)
    ensures
        text@ == base64_standard(bytes@),
{
    STANDARD.encode(bytes)
}

} // verus!
