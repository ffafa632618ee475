# solana_pqc

Post-quantum signatures for Solana transactions, verified with Verus.

- `src/falcon.rs`: Falcon-512 public keys and signatures, and the wire format.
- `src/signing.rs`: key generation, signing and verification.
- `src/curve.rs`, `src/address.rs`: the Ed25519 curve, and the addresses off it
  that belong to Falcon keys.
- `src/proxy.rs`: the 64-byte proxies of Falcon signatures.
- `src/auth.rs`: the decision whether the first signer is authentic, and why it
  is refused if not.
- `src/message.rs`, `src/sanitize.rs`, `src/transaction.rs`: transactions that
  have passed sanitization.
- `src/keys.rs`, `src/digest.rs`, `src/bytes.rs`, `src/hex.rs`, `src/debug.rs`:
  addresses, signatures, hashes and text.

Proof functions whose names begin with `law_` state what holds of the library
as a whole. `app/` puts the library on the types of the Solana crates.
