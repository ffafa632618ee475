//! Proxy signatures.

use crate::bytes::copy_at;
use crate::digest::{sha256, sha256_digest};
use crate::falcon::{FalconPublicKey, FalconSignature};
use crate::keys::Signature;
use vstd::prelude::*;

verus! {

/// The proxy of a Falcon signature: its hash and the hash of the public key.
pub open spec fn proxy_signature(signature: Seq<u8>, pubkey: Seq<u8>) -> Seq<u8> {
    sha256(signature) + sha256(pubkey)
}

/// The proxy with the given hashes of the signature and the public key.
pub fn proxy_of_hashes(signature_hash: &[u8; 32], pubkey_hash: &[u8; 32]) -> (proxy: Signature)
    ensures
        proxy@ == signature_hash@ + pubkey_hash@,
{
    let mut proxy = [0u8; 64];
    copy_at(&mut proxy, 0, signature_hash.as_slice());
    copy_at(&mut proxy, 32, pubkey_hash.as_slice());
    assert(proxy@ =~= signature_hash@ + pubkey_hash@);
    Signature::from(proxy)
}

impl FalconSignature {
    /// Generate a 64-byte proxy signature for PoH and txid compatibility.
    ///
    /// `proxy = SHA-256(falcon_signature) || SHA-256(falcon_pubkey)`
    ///
    /// This is deterministic: same inputs always produce the same proxy.
    pub fn to_proxy_signature(&self, pubkey: &FalconPublicKey) -> (proxy: Signature)
        ensures
            proxy@ == proxy_signature(self@, pubkey@),
            proxy@.take(32) == sha256(self@),
            proxy@.skip(32) == sha256(pubkey@),
    {
        let signature_hash = sha256_digest(self.as_bytes());
        let pubkey_hash = sha256_digest(pubkey.as_bytes().as_slice());
        let proxy = proxy_of_hashes(&signature_hash, &pubkey_hash);
        assert(proxy@.take(32) =~= signature_hash@);
        assert(proxy@.skip(32) =~= pubkey_hash@);
        proxy
    }
}

/// The proxy is the hash of the whole signature followed by the hash of the
/// whole public key.
pub proof fn law_proxy_is_both_hashes(signature: Seq<u8>, pubkey: Seq<u8>)
    ensures
        proxy_signature(signature, pubkey) == sha256(signature) + sha256(pubkey),
{
}

} // verus!
