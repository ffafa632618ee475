use solana_pqc::address::off_curve_address;
use solana_pqc::auth::falcon_refusal;
use solana_pqc::proxy::proxy_of_hashes;
use solana_pqc::{
    bytes_are_curve_point, falcon_sign, generate_falcon_keypair, is_pqc_config_mask, AuthScheme,
    FalconPublicKey, FalconSignature, Pubkey, Refusal, Signature, PQC_CONFIG_MASK_BIT,
};

fn bytes(hex: &str) -> Vec<u8> {
    (0..hex.len() / 2)
        .map(|i| u8::from_str_radix(&hex[2 * i..2 * i + 2], 16).unwrap())
        .collect()
}

fn key(hex: &str) -> Pubkey {
    Pubkey::new_from_array(bytes(hex).try_into().unwrap())
}

#[test]
fn test_is_pqc_config_mask() {
    assert!(!is_pqc_config_mask(0b0_0000));
    assert!(!is_pqc_config_mask(0b1_1111));
    assert!(is_pqc_config_mask(0b10_0000));
    assert!(is_pqc_config_mask(0b11_1111));
    assert!(is_pqc_config_mask(1u32 << PQC_CONFIG_MASK_BIT));
}

#[test]
fn test_auth_scheme_ed25519() {
    let auth = AuthScheme::Ed25519;
    let bad_sig = Signature::default();
    let bad_key = Pubkey::new_from_array([0u8; 32]);
    assert!(!auth.verify_signer(&bad_sig, &bad_key, b"msg"));
}

#[test]
fn test_auth_scheme_falcon() {
    let (pk, sk) = generate_falcon_keypair();
    let message = b"auth scheme test";
    let sig = falcon_sign(message, &sk).unwrap();
    let proxy = sig.to_proxy_signature(&pk);
    let addr = pk.derive_address();

    let auth = AuthScheme::Falcon {
        pubkey: pk.as_bytes(),
        signature: sig.as_bytes(),
    };
    assert!(auth.verify_signer(&proxy, &addr, message));

    // Wrong message fails
    assert!(!auth.verify_signer(&proxy, &addr, b"wrong"));

    // Wrong proxy fails
    let bad_proxy = Signature::default();
    assert!(!auth.verify_signer(&bad_proxy, &addr, message));

    // Wrong address fails
    let bad_addr = Pubkey::new_from_array([1u8; 32]);
    assert!(!auth.verify_signer(&proxy, &bad_addr, message));
}

#[test]
fn only_the_one_bit_counts() {
    assert!(!is_pqc_config_mask(!0b10_0000));
    assert!(is_pqc_config_mask(u32::MAX));
    assert!(!is_pqc_config_mask(0b100_0000));
}

#[test]
fn ed25519_signature_authenticates() {
    let account = key("d75a980182b10ab7d54bfed3c964073a0ee172f3daa62325af021a68f707511a");
    let raw = bytes(
        "e5564300c360ac729086e2cc806e828a84877f1eb8e5d974d873e065224901555fb8821590a33bacc61e39701cf9b46bd25bf5f0595bbe24655141438e7a100b",
    );
    let mut array: [u8; 64] = raw.try_into().unwrap();
    let auth = AuthScheme::Ed25519;
    assert!(auth.verify_signer(&Signature::from(array), &account, b""));
    assert_eq!(auth.try_verify_signer(&Signature::from(array), &account, b""), Some(true));
    assert!(!auth.verify_signer(&Signature::from(array), &account, b"x"));
    array[0] ^= 1;
    assert!(!auth.verify_signer(&Signature::from(array), &account, b""));
}

#[test]
fn curve_points() {
    let small = |y: u8| {
        let mut bytes = [0u8; 32];
        bytes[0] = y;
        bytes
    };
    let on = [true, true, false, true, true, true, true, false, false, true, true, false];
    for (y, expected) in on.iter().enumerate() {
        assert_eq!(bytes_are_curve_point(&small(y as u8)), *expected);
    }
    // The sign bit does not matter, and the y-coordinate is reduced.
    let mut negative = small(1);
    negative[31] = 0x80;
    assert!(bytes_are_curve_point(&negative));
    let mut unreduced = [0xffu8; 32];
    unreduced[31] = 0x7f;
    unreduced[0] = 0xee;
    assert!(bytes_are_curve_point(&unreduced));
    unreduced[0] = 0xef;
    assert!(!bytes_are_curve_point(&unreduced));
}

#[test]
fn addresses() {
    for (fill, expected) in [
        (0u8, "8bb4678e32c6ffc7c61c994af5c3e6a6e78a233f805c11d4ebfbaa850d5368da"),
        (3, "27e3e0db4874a397601f1140f9c6e8aa3e8701ba7158328082f1e65772ee862e"),
        (5, "2fd2fdb36901905fcaff68d6c541ba2ac74728fda75036d298729983c61c48b2"),
        (8, "e770aeb82e78795e97b52268dfeacf725e99934d8c90b61739096755b943fce6"),
    ] {
        let pk = FalconPublicKey::from_bytes(&[fill; 897]).unwrap();
        assert_eq!(pk.derive_address(), key(expected));
        assert_eq!(pk.try_derive_address(), Some(key(expected)));
    }
}

#[test]
fn a_hash_on_the_curve_is_no_address() {
    let mut hash = [0u8; 32];
    hash[0] = 1;
    assert_eq!(off_curve_address(hash), None);
    hash[0] = 2;
    assert_eq!(off_curve_address(hash), Some(Pubkey::new_from_array(hash)));
}

#[test]
fn proxy_is_both_hashes() {
    let pk = FalconPublicKey::from_bytes(&[0u8; 897]).unwrap();
    let sig = FalconSignature::from_bytes(&[1, 2, 3]).unwrap();
    let proxy = sig.to_proxy_signature(&pk);
    assert_eq!(
        proxy.0[..32].to_vec(),
        bytes("039058c6f2c0cb492c533b0a4d14ef77cc0f78abccced5287d84a1a2011cfb81")
    );
    assert_eq!(
        proxy.0[32..].to_vec(),
        bytes("9172193626ae7f209483d8fb3da035092bff1d989f7c084b87358519a827f057")
    );
    let joined = proxy_of_hashes(&[1; 32], &[2; 32]);
    assert_eq!(joined.0[..32], [1; 32]);
    assert_eq!(joined.0[32..], [2; 32]);
}

#[test]
fn all_three_conditions_are_needed() {
    let a = Pubkey::new_from_array([1; 32]);
    let b = Pubkey::new_from_array([2; 32]);
    let p = Signature::from([3; 64]);
    let q = Signature::default();
    assert_eq!(falcon_refusal(&a, &a, true, &p, &p), None);
    assert_eq!(falcon_refusal(&a, &b, true, &p, &p), Some(Refusal::Address(a)));
    assert_eq!(falcon_refusal(&a, &b, false, &p, &q), Some(Refusal::Address(a)));
    assert_eq!(falcon_refusal(&a, &a, false, &p, &p), Some(Refusal::Invalid));
    assert_eq!(falcon_refusal(&a, &a, false, &p, &q), Some(Refusal::Invalid));
    assert_eq!(falcon_refusal(&a, &a, true, &p, &q), Some(Refusal::Proxy(p)));
}

#[test]
fn the_first_failing_check_is_reported() {
    let (pk, sk) = generate_falcon_keypair();
    let sig = falcon_sign(b"m", &sk).unwrap();
    let proxy = sig.to_proxy_signature(&pk);
    let addr = pk.derive_address();
    let other_proxy = Signature::default();
    let other_addr = Pubkey::new_from_array([1u8; 32]);
    let auth = |pubkey, signature| AuthScheme::Falcon { pubkey, signature };

    let good = auth(&pk.as_bytes()[..], sig.as_bytes());
    assert_eq!(good.refusal(&proxy, &addr, b"m"), None);
    assert_eq!(good.refusal(&other_proxy, &addr, b"m"), Some(Refusal::Proxy(proxy)));
    assert_eq!(good.refusal(&other_proxy, &addr, b"x"), Some(Refusal::Invalid));
    assert_eq!(good.refusal(&other_proxy, &other_addr, b"x"), Some(Refusal::Address(addr)));

    let no_signature = auth(&pk.as_bytes()[..], &[]);
    assert_eq!(
        no_signature.refusal(&other_proxy, &other_addr, b"x"),
        Some(Refusal::SignatureLength)
    );
    let nothing = auth(&[], &[]);
    assert_eq!(nothing.refusal(&other_proxy, &other_addr, b"x"), Some(Refusal::PubkeyLength));

    assert_eq!(AuthScheme::Ed25519.refusal(&other_proxy, &other_addr, b"x"), None);
    assert!(AuthScheme::Ed25519.signer_has_address());
    assert!(good.signer_has_address());
    assert!(no_signature.signer_has_address());
    assert!(nothing.signer_has_address());
}

#[test]
fn malformed_material_is_refused() {
    let (pk, sk) = generate_falcon_keypair();
    let sig = falcon_sign(b"m", &sk).unwrap();
    let proxy = sig.to_proxy_signature(&pk);
    let addr = pk.derive_address();
    for (pubkey, signature) in [
        (&pk.as_bytes()[..896], sig.as_bytes()),
        (&[][..], sig.as_bytes()),
        (&pk.as_bytes()[..], &[][..]),
        (&pk.as_bytes()[..], &[0u8; 667][..]),
    ] {
        let auth = AuthScheme::Falcon { pubkey, signature };
        assert!(!auth.verify_signer(&proxy, &addr, b"m"));
        assert_eq!(auth.try_verify_signer(&proxy, &addr, b"m"), Some(false));
    }
    let auth = AuthScheme::Falcon { pubkey: pk.as_bytes(), signature: sig.as_bytes() };
    assert_eq!(auth.try_verify_signer(&proxy, &addr, b"m"), Some(true));
}

#[test]
fn a_falcon_account_is_no_curve_point() {
    let (pk, sk) = generate_falcon_keypair();
    let sig = falcon_sign(b"m", &sk).unwrap();
    let auth = AuthScheme::Falcon { pubkey: pk.as_bytes(), signature: sig.as_bytes() };
    let addr = pk.derive_address();
    assert!(auth.verify_signer(&sig.to_proxy_signature(&pk), &addr, b"m"));
    assert!(!bytes_are_curve_point(&addr.to_bytes()));
}
