//! Falcon-512 key generation, signing and verification.

use crate::falcon::{FalconPublicKey, FalconSignature};
use crate::falcon::{FALCON512_PUBKEY_LEN, FALCON512_SIG_MAX_LEN};
use pqcrypto_falcon::falcon512;
use pqcrypto_traits::sign::{DetachedSignature, PublicKey, SecretKey};
use vstd::prelude::*;

verus! {

/// Falcon-512 secret key size in bytes.
pub const FALCON512_SECRET_KEY_LEN: usize = 1281;

/// The Falcon-512 verdict on a signature, a message and a public key.
pub uninterp spec fn falcon512_accepts(
    signature: Seq<u8>,
    message: Seq<u8>,
    pubkey: Seq<u8>,
) -> bool;

/// The two are a public key and a secret key that key generation gives
/// together.
pub uninterp spec fn falcon512_key_pair(pubkey: Seq<u8>, secret_key: Seq<u8>) -> bool;

/// The bytes can be decoded as a Falcon-512 secret key.
pub uninterp spec fn falcon512_can_sign(secret_key: Seq<u8>) -> bool;

/// Calls `falcon512::verify_detached_signature`, whose result is a function of
/// the three byte strings alone. `None` stands for a wrong length:
/// `falcon512::PublicKey::from_bytes` takes exactly 897 bytes, and
/// `falcon512::DetachedSignature::from_bytes` at most 666.
#[verifier::external_body]
fn verify_detached(signature: &[u8], message: &[u8], pubkey: &[u8]) -> (result: Option<bool>)
    ensures
        result is Some <==> (pubkey@.len() == FALCON512_PUBKEY_LEN && signature@.len()
            <= FALCON512_SIG_MAX_LEN),
        result matches Some(valid) ==> valid == falcon512_accepts(signature@, message@, pubkey@),
{
    match (
        falcon512::PublicKey::from_bytes(pubkey),
        falcon512::DetachedSignature::from_bytes(signature),
    ) {
        (Ok(pk), Ok(sig)) => {
            Some(falcon512::verify_detached_signature(&sig, message, &pk).is_ok())
        },
        _ => None,
    }
}

/// Calls `falcon512::keypair`, which draws a fresh pair: 897 bytes, and 1281
/// bytes that can sign. Which pair comes out rests on chance.
#[verifier::external_body]
fn draw_keypair() -> (pair: ([u8; FALCON512_PUBKEY_LEN], Vec<u8>))
    ensures
        pair.1@.len() == FALCON512_SECRET_KEY_LEN,
        falcon512_can_sign(pair.1@),
        falcon512_key_pair(pair.0@, pair.1@),
{
    let (pk, sk) = falcon512::keypair();
    let mut pubkey = [0u8; FALCON512_PUBKEY_LEN];
    pubkey.copy_from_slice(pk.as_bytes());
    (pubkey, sk.as_bytes().to_vec())
}

/// Calls `falcon512::detached_sign`. `None` stands for a wrong length:
/// `falcon512::SecretKey::from_bytes` takes exactly 1281 bytes. The signature
/// has at most 666 bytes, and it has none exactly if the secret key cannot be
/// decoded. One made with the secret key of a pair is valid under the public
/// key of that pair. Beyond that the signature rests on chance. A key that can
/// be decoded and belongs to no pair is left out: with some of these the call
/// never finds a signature and does not return.
#[verifier::external_body]
fn detached_sign(message: &[u8], secret_key: &[u8]) -> (signature: Option<Vec<u8>>)
    requires
        (secret_key@.len() == FALCON512_SECRET_KEY_LEN && falcon512_can_sign(secret_key@))
            ==> exists|pubkey: Seq<u8>| falcon512_key_pair(pubkey, secret_key@),
    ensures
        signature is Some <==> secret_key@.len() == FALCON512_SECRET_KEY_LEN,
        signature matches Some(s) ==> s@.len() <= FALCON512_SIG_MAX_LEN,
        signature matches Some(s) ==> (s@.len() > 0 <==> falcon512_can_sign(secret_key@)),
        signature matches Some(s) ==> forall|pubkey: Seq<u8>| #[trigger]
            falcon512_key_pair(pubkey, secret_key@) ==> falcon512_accepts(s@, message@, pubkey),
{
    match falcon512::SecretKey::from_bytes(secret_key) {
        Ok(sk) => Some(falcon512::detached_sign(message, &sk).as_bytes().to_vec()),
        Err(_) => None,
    }
}

impl FalconSignature {
    /// Verify this signature against a Falcon-512 public key and message.
    pub fn verify(&self, pubkey: &FalconPublicKey, message: &[u8]) -> (valid: bool)
        ensures
            valid == falcon512_accepts(self@, message@, pubkey@),
    {
        match verify_detached(self.as_bytes(), message, pubkey.as_bytes().as_slice()) {
            Some(valid) => valid,
            None => false,
        }
    }
}

/// Generate a Falcon-512 keypair. Returns `(public_key, secret_key_bytes)`.
pub fn generate_falcon_keypair() -> (pair: (FalconPublicKey, Vec<u8>))
    ensures
        pair.1@.len() == FALCON512_SECRET_KEY_LEN,
        falcon512_can_sign(pair.1@),
        falcon512_key_pair(pair.0@, pair.1@),
{
    let (pubkey, secret_key) = draw_keypair();
    (FalconPublicKey::from_bytes(pubkey.as_slice()).unwrap(), secret_key)
}

/// Sign a message with a Falcon-512 secret key.
///
/// Returns `None` if `secret_key` has the wrong length or cannot be decoded.
/// With the secret key of a pair the signature is valid under the public key
/// of that pair. A key that can be decoded must belong to a pair: with others
/// the search for a signature may not end.
pub fn falcon_sign(message: &[u8], secret_key: &[u8]) -> (signature: Option<FalconSignature>)
    requires
        (secret_key@.len() == FALCON512_SECRET_KEY_LEN && falcon512_can_sign(secret_key@))
            ==> exists|pubkey: Seq<u8>| falcon512_key_pair(pubkey, secret_key@),
    ensures
        signature is Some <==> (secret_key@.len() == FALCON512_SECRET_KEY_LEN
            && falcon512_can_sign(secret_key@)),
        signature matches Some(s) ==> s.wf() && forall|pubkey: Seq<u8>| #[trigger]
            falcon512_key_pair(pubkey, secret_key@) ==> falcon512_accepts(s@, message@, pubkey),
{
    match detached_sign(message, secret_key) {
        Some(bytes) => FalconSignature::from_bytes(bytes.as_slice()),
        None => None,
    }
}

/// Generate a Falcon-512 keypair and sign a message with it. Returns
/// `(public_key, secret_key_bytes, signature)`.
pub fn sign_with_new_keypair(message: &[u8]) -> (signed: (
    FalconPublicKey,
    Vec<u8>,
    FalconSignature,
))
    ensures
        signed.1@.len() == FALCON512_SECRET_KEY_LEN,
        falcon512_can_sign(signed.1@),
        falcon512_key_pair(signed.0@, signed.1@),
        signed.2.wf(),
        falcon512_accepts(signed.2@, message@, signed.0@),
{
    let (pubkey, secret_key) = generate_falcon_keypair();
    let signature = falcon_sign(message, secret_key.as_slice()).unwrap();
    (pubkey, secret_key, signature)
}

} // verus!
