//! Authentication of the first signer of a transaction.

use crate::address::{derived_address, has_address, law_address_is_off_curve};
use crate::address::{law_address_is_hash_of_highest_bump, law_address_needs_an_off_curve_hash};
use crate::curve::is_curve_point;
use crate::digest::sha256;
use crate::falcon::{is_signature_length, FalconPublicKey, FalconSignature, FALCON512_PUBKEY_LEN};
use crate::keys::{ed25519_accepts, Pubkey, Signature};
use crate::proxy::proxy_signature;
use crate::signing::falcon512_accepts;
use vstd::prelude::*;

verus! {

/// Bit index within the V1 `TransactionConfigMask` that signals that
/// post-quantum signatures are present.
pub const PQC_CONFIG_MASK_BIT: u8 = 5;

/// Check whether a V1 `TransactionConfigMask` has the post-quantum bit set.
pub fn is_pqc_config_mask(mask: u32) -> (set: bool)
    ensures
        set == ((mask / 32) % 2 == 1),
{
    assert((mask & (1u32 << 5u8) != 0) == ((mask / 32) % 2 == 1)) by (bit_vector);
    mask & (1u32 << PQC_CONFIG_MASK_BIT) != 0
}

/// Describes how the fee-payer (signer 0) of a transaction is authenticated.
///
/// For Ed25519 transactions, `signatures[0]` is the raw Ed25519 signature and
/// can be verified directly. For Falcon-512 transactions, `signatures[0]` is a
/// deterministic 64-byte hash (the "proxy signature") and the real Falcon
/// material lives in a trailing blob.
pub enum AuthScheme<'a> {
    Ed25519,
    Falcon { pubkey: &'a [u8], signature: &'a [u8] },
}

/// The bytes have the lengths of a public key and a signature.
pub open spec fn is_falcon_material(pubkey: Seq<u8>, signature: Seq<u8>) -> bool {
    pubkey.len() == FALCON512_PUBKEY_LEN && is_signature_length(signature.len())
}

/// What authenticates a signer by Falcon: the public key has the address of the
/// account, it signed the message, and the 64 bytes in the ledger are the proxy
/// of public key and signature.
pub open spec fn falcon_authenticates(
    pubkey: Seq<u8>,
    signature: Seq<u8>,
    hash_signature: Seq<u8>,
    account_key: Seq<u8>,
    message: Seq<u8>,
) -> bool {
    &&& is_falcon_material(pubkey, signature)
    &&& has_address(pubkey)
    &&& account_key == derived_address(pubkey)
    &&& falcon512_accepts(signature, message, pubkey)
    &&& hash_signature == proxy_signature(signature, pubkey)
}

/// Why a Falcon signer is refused: the first check that fails.
#[derive(Clone, Copy, Debug, PartialEq, Eq)]
pub enum Refusal {
    /// The public key does not have 897 bytes.
    PubkeyLength,
    /// The signature is empty or exceeds 666 bytes.
    SignatureLength,
    /// The public key belongs to another account, whose address this is.
    Address(Pubkey),
    /// The signature is not valid over the message.
    Invalid,
    /// The 64 bytes in the ledger are not this proxy.
    Proxy(Signature),
}

/// The decision on a Falcon signer whose public key and signature have the
/// right lengths, given the address derived from the public key, the verdict
/// on the signature, and the expected proxy.
pub fn falcon_refusal(
    derived: &Pubkey,
    account_key: &Pubkey,
    signature_valid: bool,
    expected_proxy: &Signature,
    hash_signature: &Signature,
) -> (refusal: Option<Refusal>)
    ensures
        match refusal {
            None => derived@ == account_key@ && signature_valid && expected_proxy@
                == hash_signature@,
            Some(Refusal::Address(address)) => address@ == derived@ && derived@ != account_key@,
            Some(Refusal::Invalid) => derived@ == account_key@ && !signature_valid,
            Some(Refusal::Proxy(proxy)) => derived@ == account_key@ && signature_valid && proxy@
                == expected_proxy@ && expected_proxy@ != hash_signature@,
            _ => false,
        },
{
    if *derived != *account_key {
        return Some(Refusal::Address(*derived));
    }
    if !signature_valid {
        return Some(Refusal::Invalid);
    }
    if *hash_signature != *expected_proxy {
        return Some(Refusal::Proxy(*expected_proxy));
    }
    None
}

/// What [`AuthScheme::refusal`] says of a Falcon signer: each answer stands for
/// exactly the signers that pass the checks before it and fail its own.
pub open spec fn explains(
    refusal: Option<Refusal>,
    pubkey: Seq<u8>,
    signature: Seq<u8>,
    hash_signature: Seq<u8>,
    account_key: Seq<u8>,
    message: Seq<u8>,
) -> bool {
    match refusal {
        None => falcon_authenticates(pubkey, signature, hash_signature, account_key, message),
        Some(Refusal::PubkeyLength) => pubkey.len() != FALCON512_PUBKEY_LEN,
        Some(Refusal::SignatureLength) => {
            &&& pubkey.len() == FALCON512_PUBKEY_LEN
            &&& !is_signature_length(signature.len())
        },
        Some(Refusal::Address(derived)) => {
            &&& is_falcon_material(pubkey, signature)
            &&& has_address(pubkey)
            &&& derived@ == derived_address(pubkey)
            &&& derived@ != account_key
        },
        Some(Refusal::Invalid) => {
            &&& is_falcon_material(pubkey, signature)
            &&& has_address(pubkey)
            &&& account_key == derived_address(pubkey)
            &&& !falcon512_accepts(signature, message, pubkey)
        },
        Some(Refusal::Proxy(proxy)) => {
            &&& is_falcon_material(pubkey, signature)
            &&& has_address(pubkey)
            &&& account_key == derived_address(pubkey)
            &&& falcon512_accepts(signature, message, pubkey)
            &&& proxy@ == proxy_signature(signature, pubkey)
            &&& proxy@ != hash_signature
        },
    }
}

impl<'a> AuthScheme<'a> {
    /// Signer 0 is authentic under this scheme.
    pub open spec fn authenticates(
        self,
        hash_signature: Seq<u8>,
        account_key: Seq<u8>,
        message: Seq<u8>,
    ) -> bool {
        match self {
            AuthScheme::Ed25519 => ed25519_accepts(hash_signature, account_key, message),
            AuthScheme::Falcon { pubkey, signature } => falcon_authenticates(
                pubkey@,
                signature@,
                hash_signature,
                account_key,
                message,
            ),
        }
    }

    /// The public key, where there is one of the right length beside a
    /// signature of a possible length, has an address.
    pub open spec fn has_signer_address(self) -> bool {
        match self {
            AuthScheme::Ed25519 => true,
            AuthScheme::Falcon { pubkey, signature } => is_falcon_material(pubkey@, signature@)
                ==> has_address(pubkey@),
        }
    }

    /// Whether the public key of signer 0, where one is needed, has an address.
    pub fn signer_has_address(&self) -> (found: bool)
        ensures
            found == self.has_signer_address(),
    {
        if let AuthScheme::Falcon { pubkey, signature } = self {
            if let Some(key) = FalconPublicKey::from_bytes(pubkey) {
                if FalconSignature::from_bytes(signature).is_some() {
                    return key.try_derive_address().is_some();
                }
            }
        }
        true
    }

    /// Why signer 0 is refused under Falcon, or `None` if the signer is
    /// authentic. Under Ed25519 there is one check only, and always `None`.
    pub fn refusal(
        &self,
        hash_signature: &Signature,
        account_key: &Pubkey,
        message: &[u8],
    ) -> (refusal: Option<Refusal>)
        requires
            self.has_signer_address(),
        ensures
            match self {
                AuthScheme::Ed25519 => refusal is None,
                AuthScheme::Falcon { pubkey, signature } => explains(
                    refusal,
                    pubkey@,
                    signature@,
                    hash_signature@,
                    account_key@,
                    message@,
                ),
            },
            self is Falcon ==> (refusal is None <==> self.authenticates(
                hash_signature@,
                account_key@,
                message@,
            )),
    {
        match self {
            AuthScheme::Ed25519 => None,
            AuthScheme::Falcon { pubkey, signature } => {
                let falcon_pk = match FalconPublicKey::from_bytes(pubkey) {
                    Some(key) => key,
                    None => {
                        return Some(Refusal::PubkeyLength);
                    },
                };
                let falcon_sig = match FalconSignature::from_bytes(signature) {
                    Some(signature) => signature,
                    None => {
                        return Some(Refusal::SignatureLength);
                    },
                };
                let derived = falcon_pk.derive_address();
                let signature_valid = derived == *account_key && falcon_sig.verify(
                    &falcon_pk,
                    message,
                );
                let expected_proxy = falcon_sig.to_proxy_signature(&falcon_pk);
                falcon_refusal(
                    &derived,
                    account_key,
                    signature_valid,
                    &expected_proxy,
                    hash_signature,
                )
            },
        }
    }

    /// Verify signer 0 against the message bytes and `account_keys[0]`.
    ///
    /// - **Ed25519**: `hash_signature` is the real Ed25519 signature;
    ///   verified directly against `account_key` and `message`.
    /// - **Falcon**: verifies (1) that the Falcon pubkey derives to
    ///   `account_key`, (2) that the Falcon signature is valid over
    ///   `message`, and (3) that `hash_signature` matches the
    ///   deterministic proxy hash of the Falcon material.
    ///
    /// No account has an authentic signer under both schemes: it is a point on
    /// the Ed25519 curve under the one and never one under the other.
    pub fn verify_signer(
        &self,
        hash_signature: &Signature,
        account_key: &Pubkey,
        message: &[u8],
    ) -> (authentic: bool)
        requires
            self.has_signer_address(),
        ensures
            authentic == self.authenticates(hash_signature@, account_key@, message@),
            authentic ==> (self is Ed25519 <==> is_curve_point(account_key@)),
            self is Ed25519 ==> authentic == ed25519_accepts(
                hash_signature@,
                account_key@,
                message@,
            ),
            self matches AuthScheme::Falcon { pubkey, signature } ==> (authentic <==> {
                &&& pubkey@.len() == 897
                &&& 1 <= signature@.len() <= 666
                &&& falcon512_accepts(signature@, message@, pubkey@)
                &&& hash_signature@ == sha256(signature@) + sha256(pubkey@)
                &&& exists|bump: u8|
                    {
                        &&& account_key@ == #[trigger] sha256(pubkey@.push(bump))
                        &&& !is_curve_point(sha256(pubkey@.push(bump)))
                        &&& forall|other: u8|
                            other > bump ==> is_curve_point(#[trigger] sha256(pubkey@.push(other)))
                    }
            }),
    {
        match self {
            AuthScheme::Ed25519 => hash_signature.verify(account_key, message),
            AuthScheme::Falcon { pubkey, signature } => {
                let refusal = self.refusal(hash_signature, account_key, message);
                proof {
                    law_falcon_checks(
                        pubkey,
                        signature,
                        hash_signature@,
                        account_key@,
                        message@,
                    );
                    if refusal is None {
                        law_address_is_off_curve(pubkey@);
                    }
                }
                refusal.is_none()
            },
        }
    }

    /// The verdict of [`AuthScheme::verify_signer`], or `None` if the public
    /// key has no address.
    pub fn try_verify_signer(
        &self,
        hash_signature: &Signature,
        account_key: &Pubkey,
        message: &[u8],
    ) -> (verdict: Option<bool>)
        ensures
            verdict is Some <==> self.has_signer_address(),
            verdict matches Some(authentic) ==> authentic == self.authenticates(
                hash_signature@,
                account_key@,
                message@,
            ) && (authentic ==> (self is Ed25519 <==> is_curve_point(account_key@))),
            self is Ed25519 ==> verdict == Some(
                ed25519_accepts(hash_signature@, account_key@, message@),
            ),
    {
        if !self.signer_has_address() {
            return None;
        }
        Some(self.verify_signer(hash_signature, account_key, message))
    }
}

/// A valid signature authenticates its signer: under the address of its public
/// key and with its proxy in the ledger.
pub proof fn law_valid_signature_authenticates(
    pubkey: &[u8],
    signature: &[u8],
    message: Seq<u8>,
)
    requires
        is_falcon_material(pubkey@, signature@),
        has_address(pubkey@),
        falcon512_accepts(signature@, message, pubkey@),
    ensures
        (AuthScheme::Falcon { pubkey, signature }).authenticates(
            proxy_signature(signature@, pubkey@),
            derived_address(pubkey@),
            message,
        ),
{
}

/// The Falcon material admits one account and one proxy only: with any other
/// address, or any other 64 bytes in the ledger, the signer is refused.
pub proof fn law_falcon_material_is_bound(
    pubkey: &[u8],
    signature: &[u8],
    hash_signature: Seq<u8>,
    account_key: Seq<u8>,
    message: Seq<u8>,
)
    requires
        account_key != derived_address(pubkey@) || hash_signature != proxy_signature(
            signature@,
            pubkey@,
        ),
    ensures
        !(AuthScheme::Falcon { pubkey, signature }).authenticates(
            hash_signature,
            account_key,
            message,
        ),
{
}

/// A message that the signature is not valid for is refused.
pub proof fn law_invalid_signature_is_refused(
    pubkey: &[u8],
    signature: &[u8],
    hash_signature: Seq<u8>,
    account_key: Seq<u8>,
    message: Seq<u8>,
)
    requires
        !falcon512_accepts(signature@, message, pubkey@),
    ensures
        !(AuthScheme::Falcon { pubkey, signature }).authenticates(
            hash_signature,
            account_key,
            message,
        ),
{
}

/// A signer is refused for one reason only.
pub proof fn law_refusal_is_unique(
    first: Option<Refusal>,
    second: Option<Refusal>,
    pubkey: Seq<u8>,
    signature: Seq<u8>,
    hash_signature: Seq<u8>,
    account_key: Seq<u8>,
    message: Seq<u8>,
)
    requires
        explains(first, pubkey, signature, hash_signature, account_key, message),
        explains(second, pubkey, signature, hash_signature, account_key, message),
    ensures
        match (first, second) {
            (Some(Refusal::Address(one)), Some(Refusal::Address(other))) => one@ == other@,
            (Some(Refusal::Proxy(one)), Some(Refusal::Proxy(other))) => one@ == other@,
            _ => first == second,
        },
{
}

/// Material of the wrong lengths is refused, and needs no address for that.
pub proof fn law_malformed_material_is_refused(
    pubkey: &[u8],
    signature: &[u8],
    hash_signature: Seq<u8>,
    account_key: Seq<u8>,
    message: Seq<u8>,
)
    requires
        !is_falcon_material(pubkey@, signature@),
    ensures
        (AuthScheme::Falcon { pubkey, signature }).has_signer_address(),
        !(AuthScheme::Falcon { pubkey, signature }).authenticates(
            hash_signature,
            account_key,
            message,
        ),
{
}

/// An account that a Falcon signer is authentic for is never an Ed25519 curve
/// point, so no Ed25519 key pair has the same account.
pub proof fn law_falcon_account_is_off_curve(
    pubkey: &[u8],
    signature: &[u8],
    hash_signature: Seq<u8>,
    account_key: Seq<u8>,
    message: Seq<u8>,
)
    requires
        (AuthScheme::Falcon { pubkey, signature }).authenticates(
            hash_signature,
            account_key,
            message,
        ),
    ensures
        !is_curve_point(account_key),
{
    law_address_is_off_curve(pubkey@);
}

/// Under Ed25519 a signer is authentic exactly if the 64 bytes in the ledger
/// are a valid signature over the complete message under the account key.
pub proof fn law_ed25519_checks_the_whole_message(
    hash_signature: Seq<u8>,
    account_key: Seq<u8>,
    message: Seq<u8>,
)
    ensures
        AuthScheme::Ed25519.has_signer_address(),
        AuthScheme::Ed25519.authenticates(hash_signature, account_key, message)
            <==> ed25519_accepts(hash_signature, account_key, message),
{
}

/// Under Falcon a signer is authentic exactly if the public key has 897 bytes
/// and the signature 1 to 666, the signature is valid over the complete message
/// under the complete key, the 64 bytes in the ledger are the hashes of
/// signature and key, and the account key is the hash of the key and the
/// highest bump with which this hash lies off the curve.
pub proof fn law_falcon_checks(
    pubkey: &[u8],
    signature: &[u8],
    hash_signature: Seq<u8>,
    account_key: Seq<u8>,
    message: Seq<u8>,
)
    ensures
        (AuthScheme::Falcon { pubkey, signature }).authenticates(
            hash_signature,
            account_key,
            message,
        ) <==> {
            &&& pubkey@.len() == 897
            &&& 1 <= signature@.len() <= 666
            &&& falcon512_accepts(signature@, message, pubkey@)
            &&& hash_signature == sha256(signature@) + sha256(pubkey@)
            &&& exists|bump: u8|
                {
                    &&& account_key == #[trigger] sha256(pubkey@.push(bump))
                    &&& !is_curve_point(sha256(pubkey@.push(bump)))
                    &&& forall|other: u8|
                        other > bump ==> is_curve_point(#[trigger] sha256(pubkey@.push(other)))
                }
        },
{
    law_address_is_hash_of_highest_bump(pubkey@, account_key);
}

/// An address is needed for public keys of 897 bytes beside signatures of 1 to
/// 666 bytes only, and there is one if the hash of the key and some bump lies
/// off the curve.
pub proof fn law_signer_address(pubkey: &[u8], signature: &[u8])
    ensures
        (AuthScheme::Falcon { pubkey, signature }).has_signer_address() <==> ((pubkey@.len() == 897
            && 1 <= signature@.len() <= 666) ==> exists|bump: u8|
            !is_curve_point(#[trigger] sha256(pubkey@.push(bump)))),
{
    law_address_needs_an_off_curve_hash(pubkey@);
}

/// The reasons in the order of the checks: the length of the public key, that
/// of the signature, the account, the signature over the complete message, the
/// 64 bytes in the ledger.
pub proof fn law_refusal_reasons(
    refusal: Option<Refusal>,
    pubkey: Seq<u8>,
    signature: Seq<u8>,
    hash_signature: Seq<u8>,
    account_key: Seq<u8>,
    message: Seq<u8>,
)
    requires
        explains(refusal, pubkey, signature, hash_signature, account_key, message),
    ensures
        refusal == Some(Refusal::PubkeyLength) <==> pubkey.len() != 897,
        refusal == Some(Refusal::SignatureLength) <==> (pubkey.len() == 897 && !(1
            <= signature.len() <= 666)),
        refusal matches Some(Refusal::Address(derived)) ==> derived@ != account_key && exists|
            bump: u8,
        |
            {
                &&& derived@ == #[trigger] sha256(pubkey.push(bump))
                &&& !is_curve_point(sha256(pubkey.push(bump)))
                &&& forall|other: u8|
                    other > bump ==> is_curve_point(#[trigger] sha256(pubkey.push(other)))
            },
        (refusal is None || refusal == Some(Refusal::Invalid) || refusal matches Some(
            Refusal::Proxy(_),
        )) ==> exists|bump: u8|
            {
                &&& account_key == #[trigger] sha256(pubkey.push(bump))
                &&& !is_curve_point(sha256(pubkey.push(bump)))
                &&& forall|other: u8|
                    other > bump ==> is_curve_point(#[trigger] sha256(pubkey.push(other)))
            },
        refusal == Some(Refusal::Invalid) ==> !falcon512_accepts(signature, message, pubkey),
        (refusal is None || refusal matches Some(Refusal::Proxy(_))) ==> falcon512_accepts(
            signature,
            message,
            pubkey,
        ),
        refusal matches Some(Refusal::Proxy(proxy)) ==> proxy@ == sha256(signature) + sha256(pubkey)
            && proxy@ != hash_signature,
        refusal is None ==> hash_signature == sha256(signature) + sha256(pubkey),
{
    law_address_is_hash_of_highest_bump(pubkey, account_key);
    if let Some(Refusal::Address(derived)) = refusal {
        law_address_is_hash_of_highest_bump(pubkey, derived@);
    }
}

} // verus!
