//! Post-quantum signatures for Solana transactions.
//!
//! Falcon-512 keys and signatures, the off-curve addresses that belong to the
//! keys, the 64-byte proxy signatures that stand for Falcon signatures in the
//! ledger, the check that decides whether the first signer of a transaction is
//! authentic, and transactions that have passed sanitization.

pub mod address;
pub mod auth;
pub mod bytes;
pub mod curve;
pub mod debug;
pub mod digest;
pub mod falcon;
pub mod hex;
pub mod keys;
pub mod message;
pub mod proxy;
pub mod sanitize;
pub mod signing;
pub mod transaction;

pub use auth::{is_pqc_config_mask, AuthScheme, Refusal, PQC_CONFIG_MASK_BIT};
pub use curve::bytes_are_curve_point;
pub use falcon::{FalconPublicKey, FalconSignature, FALCON512_ALGORITHM_ID, FALCON512_PUBKEY_LEN};
pub use falcon::{FALCON512_SIG_MAX_LEN, FALCON512_SIG_WIRE_LEN, FALCON512_WIRE_LEN};
pub use keys::{Pubkey, Signature};
pub use signing::{falcon_sign, generate_falcon_keypair, sign_with_new_keypair};
pub use signing::FALCON512_SECRET_KEY_LEN;
pub use transaction::{FalconSigner, SanitizedVersionedMessage, SanitizedVersionedTransaction};
pub use transaction::VersionedTransaction;
