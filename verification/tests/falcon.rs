use pqcrypto_falcon::falcon512;
use solana_pqc::bytes::{bytes_equal, copy_at};
use solana_pqc::hex::encode;
use solana_pqc::{
    bytes_are_curve_point, falcon_sign, generate_falcon_keypair, sign_with_new_keypair,
    FalconPublicKey, FalconSignature, Signature, FALCON512_ALGORITHM_ID, FALCON512_PUBKEY_LEN, FALCON512_SECRET_KEY_LEN,
    FALCON512_SIG_MAX_LEN, FALCON512_SIG_WIRE_LEN, FALCON512_WIRE_LEN,
};

#[test]
fn test_keypair_and_address() {
    let (pk, _sk) = generate_falcon_keypair();
    assert_eq!(pk.as_bytes().len(), FALCON512_PUBKEY_LEN);

    let addr = pk.derive_address();
    assert!(!bytes_are_curve_point(&addr.to_bytes()));
}

#[test]
fn test_sign_and_verify() {
    let (pk, sk) = generate_falcon_keypair();
    let message = b"Hello PQC Solana!";

    let sig = falcon_sign(message, &sk).expect("signing should succeed");
    assert!(sig.verify(&pk, message));
    assert!(!sig.verify(&pk, b"wrong message"));
}

#[test]
fn test_sign_verify_with_v1_message_bytes() {
    let (pk, sk) = generate_falcon_keypair();
    let message: Vec<u8> = (0..256).map(|i| i as u8).collect();

    let sig = falcon_sign(&message, &sk).expect("signing should succeed");
    assert!(sig.verify(&pk, &message));
}

#[test]
fn test_proxy_signature_deterministic() {
    let (pk, sk) = generate_falcon_keypair();
    let sig = falcon_sign(b"test", &sk).unwrap();

    let proxy1 = sig.to_proxy_signature(&pk);
    let proxy2 = sig.to_proxy_signature(&pk);
    assert_eq!(proxy1, proxy2);
    assert_ne!(proxy1, Signature::default());
}

#[test]
fn test_wire_roundtrip() {
    let (pk, sk) = generate_falcon_keypair();
    let sig = falcon_sign(b"wire roundtrip", &sk).unwrap();
    let original_len = sig.len();

    let wire = sig.to_wire();
    assert_eq!(wire.len(), 2 + FALCON512_SIG_MAX_LEN);

    let restored = FalconSignature::from_wire(&wire).expect("should parse wire");
    assert_eq!(restored.len(), original_len);
    assert_eq!(restored.as_bytes(), sig.as_bytes());
    assert!(restored.verify(&pk, b"wire roundtrip"));
}

#[test]
fn test_address_is_off_curve_and_deterministic() {
    for _ in 0..50 {
        let (pk, _sk) = generate_falcon_keypair();
        let addr1 = pk.derive_address();
        let addr2 = pk.derive_address();

        assert_eq!(addr1, addr2, "derive_address must be deterministic");
        assert!(
            !bytes_are_curve_point(&addr1.to_bytes()),
            "PQC address must NOT lie on the Ed25519 curve"
        );
    }
}

#[test]
fn test_from_bytes_wrong_length() {
    assert!(FalconPublicKey::from_bytes(&[0u8; 32]).is_none());
    assert!(FalconPublicKey::from_bytes(&[0u8; 896]).is_none());
    assert!(FalconPublicKey::from_bytes(&[0u8; 898]).is_none());

    assert!(FalconSignature::from_bytes(&[]).is_none());
    assert!(FalconSignature::from_bytes(&[0u8; 667]).is_none());
}

#[test]
fn test_falcon512_constants() {
    assert_eq!(falcon512::public_key_bytes(), FALCON512_PUBKEY_LEN);
    assert_eq!(falcon512::signature_bytes(), FALCON512_SIG_MAX_LEN);
}

#[test]
fn sizes_add_up() {
    assert_eq!(falcon512::secret_key_bytes(), FALCON512_SECRET_KEY_LEN);
    assert_eq!(FALCON512_SIG_WIRE_LEN, 668);
    assert_eq!(FALCON512_WIRE_LEN, 1565);
    assert_eq!(FALCON512_ALGORITHM_ID, 0);
}

#[test]
fn public_key_keeps_its_bytes() {
    let mut bytes = [0u8; 897];
    for (i, byte) in bytes.iter_mut().enumerate() {
        *byte = (i % 251) as u8;
    }
    let key = FalconPublicKey::from_bytes(&bytes).unwrap();
    assert_eq!(key.as_bytes(), &bytes);
    assert!(key.clone() == key);
    bytes[896] ^= 1;
    assert!(FalconPublicKey::from_bytes(&bytes).unwrap() != key);
}

#[test]
fn signature_bounds_are_inclusive() {
    let one = FalconSignature::from_bytes(&[7]).unwrap();
    assert_eq!(one.as_bytes(), &[7]);
    assert_eq!(one.len(), 1);
    assert!(!one.is_empty());
    let full = FalconSignature::from_bytes(&[9u8; 666]).unwrap();
    assert_eq!(full.len(), 666);
    assert_eq!(full.clone().as_bytes(), &[9u8; 666][..]);
}

#[test]
fn wire_is_length_then_zero_padded_signature() {
    let sig = FalconSignature::from_bytes(&[5u8; 300]).unwrap();
    let wire = sig.to_wire();
    assert_eq!(&wire[..2], &[44, 1]);
    assert_eq!(&wire[2..302], &[5u8; 300][..]);
    assert!(wire[302..].iter().all(|byte| *byte == 0));
}

#[test]
fn zero_padded_wire_is_written_back_as_it_was_read() {
    let mut wire = [0u8; 668];
    wire[0] = 2;
    wire[1] = 1;
    for (i, byte) in wire[2..260].iter_mut().enumerate() {
        *byte = (i % 250 + 1) as u8;
    }
    let sig = FalconSignature::from_wire(&wire).unwrap();
    assert_eq!(sig.len(), 258);
    assert_eq!(sig.as_bytes(), &wire[2..260]);
    assert_eq!(sig.to_wire(), wire);
    assert_eq!(sig.clone().to_wire(), wire);
}

#[test]
fn other_padding_is_accepted_and_written_back_as_zeros() {
    let mut wire = [3u8; 668];
    wire[0] = 2;
    wire[1] = 1;
    wire[667] = 200;
    let sig = FalconSignature::from_wire(&wire).unwrap();
    assert_eq!(sig.as_bytes(), &[3u8; 258][..]);
    let written = sig.to_wire();
    assert_eq!(written[..260], wire[..260]);
    assert!(written[260..].iter().all(|byte| *byte == 0));
    let same = FalconSignature::from_bytes(&[3u8; 258]).unwrap();
    assert_eq!(same.to_wire(), written);
}

#[test]
fn wire_with_impossible_length_is_refused() {
    let prefixed = |len: u16, size: usize| {
        let mut wire = vec![0u8; size];
        if size >= 2 {
            wire[..2].copy_from_slice(&len.to_le_bytes());
        }
        FalconSignature::from_wire(&wire).is_some()
    };
    assert!(prefixed(1, 668));
    assert!(prefixed(666, 668));
    assert!(!prefixed(0, 668));
    assert!(!prefixed(667, 668));
    assert!(!prefixed(65535, 668));
    assert!(!prefixed(1, 667));
    assert!(!prefixed(1, 669));
    assert!(!prefixed(0, 1));
    assert!(!prefixed(0, 0));
}

#[test]
fn signing_needs_a_secret_key() {
    assert!(falcon_sign(b"m", &[]).is_none());
    assert!(falcon_sign(b"m", &[0u8; 1280]).is_none());
    assert!(falcon_sign(b"m", &[0u8; 1282]).is_none());
    assert!(falcon_sign(b"m", &[0u8; 1281]).is_none());
}

#[test]
fn a_new_keypair_signs() {
    let (pk, sk, sig) = sign_with_new_keypair(b"first");
    assert_eq!(sk.len(), 1281);
    assert!(sig.verify(&pk, b"first"));
    assert!(!sig.verify(&pk, b"second"));
    assert!(falcon_sign(b"second", &sk).unwrap().verify(&pk, b"second"));
}

#[test]
fn verification_needs_the_right_key() {
    let (pk, sk) = generate_falcon_keypair();
    let (other, _) = generate_falcon_keypair();
    assert_eq!(sk.len(), 1281);
    let sig = falcon_sign(b"", &sk).unwrap();
    assert!(sig.verify(&pk, b""));
    assert!(!sig.verify(&other, b""));
    assert!(!sig.verify(&FalconPublicKey::from_bytes(&[0u8; 897]).unwrap(), b""));
    assert!(!FalconSignature::from_bytes(&[1]).unwrap().verify(&pk, b""));
}

#[test]
fn hexadecimal_text() {
    assert_eq!(encode(&[]), "");
    assert_eq!(encode(&[0x00, 0x0f, 0xa5, 0xff, 0x9b]), "000fa5ff9b");
    let all: Vec<u8> = (0..=255).collect();
    let expected: String = all.iter().map(|b| format!("{b:02x}")).collect();
    assert_eq!(encode(&all), expected);
}

#[test]
fn descriptions() {
    let mut bytes = [0u8; 897];
    bytes[..9].copy_from_slice(&[1, 2, 3, 4, 0xab, 0xcd, 0xef, 0x10, 0x99]);
    let key = FalconPublicKey::from_bytes(&bytes).unwrap();
    assert_eq!(key.debug_string(), "FalconPublicKey(01020304abcdef10..)");

    let short = FalconSignature::from_bytes(&[0xde, 0xad]).unwrap();
    assert_eq!(short.debug_string(), "FalconSignature(len=2, dead..)");
    let long = FalconSignature::from_bytes(&bytes[..610]).unwrap();
    assert_eq!(long.debug_string(), "FalconSignature(len=610, 01020304abcdef10..)");
}

#[test]
fn byte_strings() {
    assert!(bytes_equal(b"", b""));
    assert!(bytes_equal(b"ab", b"ab"));
    assert!(!bytes_equal(b"ab", b"ac"));
    assert!(!bytes_equal(b"ab", b"abc"));
    let mut target = [0u8; 5];
    copy_at(&mut target, 1, &[1, 2]);
    assert_eq!(target, [0, 1, 2, 0, 0]);
}
