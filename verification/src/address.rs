//! The account address of a Falcon public key.

use crate::curve::{bytes_are_curve_point, is_curve_point};
use crate::digest::{sha256, sha256_digest};
use crate::falcon::FalconPublicKey;
use crate::keys::Pubkey;
use vstd::prelude::*;

verus! {

/// The address that a bump stands for: the hash of the public key and the bump.
pub open spec fn bump_address(pubkey: Seq<u8>, bump: u8) -> Seq<u8> {
    sha256(pubkey.push(bump))
}

/// The address of a bump lies off the Ed25519 curve.
pub open spec fn is_off_curve(pubkey: Seq<u8>, bump: u8) -> bool {
    !is_curve_point(bump_address(pubkey, bump))
}

/// Some bump gives an address off the curve.
pub open spec fn has_address(pubkey: Seq<u8>) -> bool {
    exists|bump: u8| is_off_curve(pubkey, bump)
}

/// The bump is the highest one whose address lies off the curve.
pub open spec fn is_highest_bump(pubkey: Seq<u8>, bump: u8) -> bool {
    &&& is_off_curve(pubkey, bump)
    &&& forall|other: u8| other > bump ==> !is_off_curve(pubkey, other)
}

/// The address of a public key: that of its highest off-curve bump.
pub open spec fn derived_address(pubkey: Seq<u8>) -> Seq<u8>
    recommends
        has_address(pubkey),
{
    bump_address(pubkey, choose|bump: u8| is_highest_bump(pubkey, bump))
}

/// A public key has at most one highest off-curve bump, so its address is
/// determined.
pub proof fn law_address_is_unique(pubkey: Seq<u8>, bump: u8)
    requires
        is_highest_bump(pubkey, bump),
    ensures
        has_address(pubkey),
        derived_address(pubkey) == bump_address(pubkey, bump),
{
    let chosen = choose|b: u8| is_highest_bump(pubkey, b);
    assert(chosen == bump);
}

/// Whether a hash can be an address: it can if it lies off the curve.
pub fn off_curve_address(hash: [u8; 32]) -> (address: Option<Pubkey>)
    ensures
        address is Some <==> !is_curve_point(hash@),
        address matches Some(a) ==> a@ == hash@,
{
    if bytes_are_curve_point(&hash) {
        None
    } else {
        Some(Pubkey::new_from_array(hash))
    }
}

impl FalconPublicKey {
    /// The address of one bump, if that lies off the curve.
    fn address_at(&self, bump: u8) -> (address: Option<Pubkey>)
        ensures
            address is Some <==> is_off_curve(self@, bump),
            address matches Some(a) ==> a@ == bump_address(self@, bump),
    {
        let mut preimage: Vec<u8> = vstd::slice::slice_to_vec(self.as_bytes().as_slice());
        preimage.push(bump);
        off_curve_address(sha256_digest(preimage.as_slice()))
    }

    /// Tries the bumps from 255 down to 0.
    fn search_address(&self) -> (address: Option<Pubkey>)
        ensures
            address is Some <==> has_address(self@),
            address matches Some(a) ==> a@ == derived_address(self@),
    {
        let mut bump: u8 = 255;
        loop
            invariant
                forall|other: u8| other > bump ==> !is_off_curve(self@, other),
            decreases bump,
        {
            let address = self.address_at(bump);
            if address.is_some() {
                proof {
                    law_address_is_unique(self@, bump);
                }
                return address;
            }
            if bump == 0 {
                return None;
            }
            bump = bump - 1;
        }
    }

    /// Derive a 32-byte Solana address guaranteed to be **off** the Ed25519
    /// curve, so that it never collides with the account of an Ed25519 key
    /// pair.
    ///
    /// `address = SHA-256(falcon_pubkey || bump)` where `bump` is the highest
    /// `u8` (starting from 255) that produces an off-curve hash.
    pub fn derive_address(&self) -> (address: Pubkey)
        requires
            has_address(self@),
        ensures
            address@ == derived_address(self@),
            !is_curve_point(address@),
            exists|bump: u8|
                {
                    &&& address@ == #[trigger] sha256(self@.push(bump))
                    &&& !is_curve_point(sha256(self@.push(bump)))
                    &&& forall|other: u8|
                        other > bump ==> is_curve_point(#[trigger] sha256(self@.push(other)))
                },
    {
        let address = self.search_address().unwrap();
        proof {
            law_address_is_off_curve(self@);
            law_address_is_hash_of_highest_bump(self@, address@);
        }
        address
    }

    /// The address of [`FalconPublicKey::derive_address`], or `None` if none
    /// of the 256 bumps produces an off-curve hash.
    pub fn try_derive_address(&self) -> (address: Option<Pubkey>)
        ensures
            address is Some <==> has_address(self@),
            address is Some <==> exists|bump: u8|
                !is_curve_point(#[trigger] sha256(self@.push(bump))),
            address matches Some(a) ==> a@ == derived_address(self@) && !is_curve_point(a@),
            address matches Some(a) ==> exists|bump: u8|
                {
                    &&& a@ == #[trigger] sha256(self@.push(bump))
                    &&& !is_curve_point(sha256(self@.push(bump)))
                    &&& forall|other: u8|
                        other > bump ==> is_curve_point(#[trigger] sha256(self@.push(other)))
                },
    {
        proof {
            law_address_needs_an_off_curve_hash(self@);
        }
        if self.search_address().is_some() {
            Some(self.derive_address())
        } else {
            None
        }
    }
}

/// Where there is an off-curve bump there is a highest one.
proof fn lemma_highest_bump_exists(pubkey: Seq<u8>, bump: u8)
    requires
        is_off_curve(pubkey, bump),
    ensures
        exists|highest: u8| is_highest_bump(pubkey, highest),
    decreases 255 - bump,
{
    if !is_highest_bump(pubkey, bump) {
        let higher = choose|other: u8| other > bump && is_off_curve(pubkey, other);
        lemma_highest_bump_exists(pubkey, higher);
    }
}

/// The address of a public key lies off the Ed25519 curve.
pub proof fn law_address_is_off_curve(pubkey: Seq<u8>)
    requires
        has_address(pubkey),
    ensures
        !is_curve_point(derived_address(pubkey)),
{
    let bump = choose|bump: u8| is_off_curve(pubkey, bump);
    lemma_highest_bump_exists(pubkey, bump);
    assert(is_off_curve(pubkey, choose|b: u8| is_highest_bump(pubkey, b)));
}

/// A public key has an address exactly if the hash of the whole key and some
/// bump lies off the curve.
pub proof fn law_address_needs_an_off_curve_hash(pubkey: Seq<u8>)
    ensures
        has_address(pubkey) <==> exists|bump: u8|
            !is_curve_point(#[trigger] sha256(pubkey.push(bump))),
{
    if has_address(pubkey) {
        let bump = choose|bump: u8| is_off_curve(pubkey, bump);
        assert(!is_curve_point(sha256(pubkey.push(bump))));
    }
    if exists|bump: u8| !is_curve_point(#[trigger] sha256(pubkey.push(bump))) {
        let bump = choose|bump: u8| !is_curve_point(#[trigger] sha256(pubkey.push(bump)));
        assert(is_off_curve(pubkey, bump));
    }
}

/// The address of a public key is the hash of the whole key and a bump such
/// that this hash lies off the curve and that of the key and any higher bump
/// lies on it; and nothing else is its address.
pub proof fn law_address_is_hash_of_highest_bump(pubkey: Seq<u8>, address: Seq<u8>)
    ensures
        (has_address(pubkey) && address == derived_address(pubkey)) <==> exists|bump: u8|
            {
                &&& address == #[trigger] sha256(pubkey.push(bump))
                &&& !is_curve_point(sha256(pubkey.push(bump)))
                &&& forall|other: u8|
                    other > bump ==> is_curve_point(#[trigger] sha256(pubkey.push(other)))
            },
{
    if has_address(pubkey) && address == derived_address(pubkey) {
        let off = choose|bump: u8| is_off_curve(pubkey, bump);
        lemma_highest_bump_exists(pubkey, off);
        let bump = choose|bump: u8| is_highest_bump(pubkey, bump);
        assert(address == sha256(pubkey.push(bump)));
        assert forall|other: u8| other > bump implies is_curve_point(
            #[trigger] sha256(pubkey.push(other)),
        ) by {
            assert(!is_off_curve(pubkey, other));
        }
    }
    if exists|bump: u8|
        {
            &&& address == #[trigger] sha256(pubkey.push(bump))
            &&& !is_curve_point(sha256(pubkey.push(bump)))
            &&& forall|other: u8|
                other > bump ==> is_curve_point(#[trigger] sha256(pubkey.push(other)))
        } {
        let bump = choose|bump: u8|
            {
                &&& address == #[trigger] sha256(pubkey.push(bump))
                &&& !is_curve_point(sha256(pubkey.push(bump)))
                &&& forall|other: u8|
                    other > bump ==> is_curve_point(#[trigger] sha256(pubkey.push(other)))
            };
        assert(is_off_curve(pubkey, bump));
        assert forall|other: u8| other > bump implies !is_off_curve(pubkey, other) by {
            assert(is_curve_point(sha256(pubkey.push(other))));
        }
        law_address_is_unique(pubkey, bump);
    }
}

} // verus!
