//! Account addresses and 64-byte transaction signatures.

use crate::bytes::bytes_equal;
use crate::curve::is_curve_point;
use vstd::prelude::*;
use vstd::std_specs::cmp::PartialEqSpec;
use vstd::std_specs::convert::FromSpec;

verus! {

/// The address of an account: 32 bytes.
#[derive(Clone, Copy, Debug)]
pub struct Pubkey(pub [u8; 32]);

impl View for Pubkey {
    type V = Seq<u8>;

    open spec fn view(&self) -> Seq<u8> {
        self.0@
    }
}

impl Pubkey {
    /// The address with the given bytes.
    pub fn new_from_array(bytes: [u8; 32]) -> (key: Self)
        ensures
            key@ == bytes@,
            key.0 == bytes,
    {
        Pubkey(bytes)
    }

    /// The bytes of the address.
    pub fn to_bytes(&self) -> (bytes: [u8; 32])
        ensures
            bytes@ == self@,
            bytes == self.0,
    {
        self.0
    }
}

impl PartialEq for Pubkey {
    fn eq(&self, other: &Self) -> (equal: bool) {
        bytes_equal(self.0.as_slice(), other.0.as_slice())
    }
}

impl vstd::std_specs::cmp::PartialEqSpecImpl for Pubkey {
    open spec fn obeys_eq_spec() -> bool {
        true
    }

    open spec fn eq_spec(&self, other: &Self) -> bool {
        self@ == other@
    }
}

impl Eq for Pubkey {

}

/// A transaction signature: 64 bytes.
///
/// It is an Ed25519 signature, or the proxy of a Falcon signature.
#[derive(Clone, Copy, Debug)]
pub struct Signature(pub [u8; 64]);

impl View for Signature {
    type V = Seq<u8>;

    open spec fn view(&self) -> Seq<u8> {
        self.0@
    }
}

impl PartialEq for Signature {
    fn eq(&self, other: &Self) -> (equal: bool) {
        bytes_equal(self.0.as_slice(), other.0.as_slice())
    }
}

impl vstd::std_specs::cmp::PartialEqSpecImpl for Signature {
    open spec fn obeys_eq_spec() -> bool {
        true
    }

    open spec fn eq_spec(&self, other: &Self) -> bool {
        self@ == other@
    }
}

impl Eq for Signature {

}

impl From<[u8; 64]> for Signature {
    fn from(bytes: [u8; 64]) -> (signature: Self) {
        Signature(bytes)
    }
}

impl vstd::std_specs::convert::FromSpecImpl<[u8; 64]> for Signature {
    open spec fn obeys_from_spec() -> bool {
        true
    }

    open spec fn from_spec(bytes: [u8; 64]) -> Self {
        Signature(bytes)
    }
}

impl Default for Signature {
    /// The signature made of zero bytes.
    fn default() -> (signature: Self)
        ensures
            signature@ == Seq::new(64, |i: int| 0u8),
    {
        let signature = Signature([0u8; 64]);
        assert(signature@ =~= Seq::new(64, |i: int| 0u8));
        signature
    }
}

/// The Ed25519 verdict on a signature, a public key and a message.
pub uninterp spec fn ed25519_accepts(
    signature: Seq<u8>,
    key: Seq<u8>,
    message: Seq<u8>,
) -> bool;

/// Calls `solana_signature::Signature::verify`, whose result is a function of
/// the signature, the key and the message alone, and `false` if the key is not
/// a point on the curve.
#[verifier::external_body]
fn ed25519_verify(signature: &[u8; 64], key: &[u8; 32], message: &[u8]) -> (valid: bool)
    ensures
        valid == ed25519_accepts(signature@, key@, message@),
        valid ==> is_curve_point(key@),
{
    solana_signature::Signature::from(*signature).verify(key, message)
}

impl Signature {
    /// Verifies an Ed25519 signature over `message` against a public key.
    /// Only a point on the curve is a public key.
    pub fn verify(&self, key: &Pubkey, message: &[u8]) -> (valid: bool)
        ensures
            valid == ed25519_accepts(self@, key@, message@),
            valid ==> is_curve_point(key@),
    {
        ed25519_verify(&self.0, &key.0, message)
    }
}

/// An address stands for its 32 bytes, and two of them are equal exactly if all
/// these bytes are.
pub proof fn law_pubkey_is_its_bytes(one: Pubkey, other: Pubkey)
    ensures
        one@ == one.0@,
        one@.len() == 32,
        one.eq_spec(&other) <==> (forall|i: int| 0 <= i < 32 ==> one.0@[i] == other.0@[i]),
{
    if forall|i: int| 0 <= i < 32 ==> one.0@[i] == other.0@[i] {
        assert(one.0@ =~= other.0@);
    }
}

/// A signature stands for its 64 bytes, is made of them as they are, and two of
/// them are equal exactly if all these bytes are.
pub proof fn law_signature_is_its_bytes(one: Signature, other: Signature, bytes: [u8; 64])
    ensures
        one@ == one.0@,
        one@.len() == 64,
        one.eq_spec(&other) <==> (forall|i: int| 0 <= i < 64 ==> one.0@[i] == other.0@[i]),
        <Signature as FromSpec<[u8; 64]>>::from_spec(bytes).0 == bytes,
{
    if forall|i: int| 0 <= i < 64 ==> one.0@[i] == other.0@[i] {
        assert(one.0@ =~= other.0@);
    }
}

} // verus!
