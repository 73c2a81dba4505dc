use embedded_cal::cal::{DhAlgorithm as _, DhProvider, IncompatibleKeys};
use embedded_cal::rustcrypto::dh::{DhAlgorithm, PublicKey, RustcryptoCal, SecretKey};

fn hex32(s: &str) -> [u8; 32] {
    let v: Vec<u8> = (0..s.len())
        .step_by(2)
        .map(|i| u8::from_str_radix(&s[i..i + 2], 16).unwrap())
        .collect();
    v.try_into().unwrap()
}

#[test]
fn x25519_rfc7748_vector() {
    let mut cal = RustcryptoCal::new();
    let alice = SecretKey::X25519(hex32(
        "77076d0a7318a57d3c16c17251b26645df4c2f87ebc0992ab177fba51db92c2a",
    ));
    let bob = SecretKey::X25519(hex32(
        "5dab087e624a8a4b79e17f8b83800ee66f3bb1292618b6fd1c2f8b27ff88e0eb",
    ));
    let alice_pub = cal.public_key(&alice);
    let bob_pub = cal.public_key(&bob);
    assert!(matches!(alice_pub, PublicKey::X25519(p) if p == hex32(
        "8520f0098930a754748b7ddcb43ef75a0dbf3a0d26381af4eba4a98eaa9b4e6a")));
    assert!(matches!(bob_pub, PublicKey::X25519(p) if p == hex32(
        "de9edb7d7b7dc1b4d35b61c2ece435373f8343c85b78674dadfc7e146f882b4f")));
    let s1 = cal.shared_secret(&alice, &bob_pub).unwrap();
    let s2 = cal.shared_secret(&bob, &alice_pub).unwrap();
    let expected = hex32("4a5d9d5ba4ce2de1728e3bf480350f25e07e21c947d19e3376f09b3c1e161742");
    assert_eq!(cal.raw_secret_bytes(&s1), &expected[..]);
    assert_eq!(cal.raw_secret_bytes(&s2), &expected[..]);
}

fn agree(alg: DhAlgorithm) {
    let mut cal = RustcryptoCal::new();
    let a = cal.generate_visible(alg.clone()).unwrap();
    let b = cal.generate_visible(alg.clone()).unwrap();
    let a = cal.secret_of(a);
    let b = SecretKey::from(b);
    let pa = cal.public_key(&a);
    let pb = cal.public_key(&b);
    let s1 = cal.shared_secret(&a, &pb).unwrap();
    let s2 = cal.shared_secret(&b, &pa).unwrap();
    let bytes1 = cal.raw_secret_bytes(&s1).to_vec();
    let bytes2 = cal.raw_secret_bytes(&s2).to_vec();
    assert_eq!(bytes1, bytes2);
    assert_eq!(bytes1.len(), alg.output_length());
}

#[test]
fn x25519_generated_keys_agree() {
    agree(DhAlgorithm::X25519);
}

#[test]
fn p256_generated_keys_agree() {
    agree(DhAlgorithm::P256);
}

#[test]
fn p256_public_key_is_uncompressed_point() {
    let mut cal = RustcryptoCal::new();
    let a = cal.generate_visible(DhAlgorithm::P256).unwrap();
    let a = cal.secret_of(a);
    match cal.public_key(&a) {
        PublicKey::P256(p) => assert_eq!(p.to_sec1_bytes()[0], 0x04),
        PublicKey::X25519(_) => panic!("wrong algorithm"),
    }
}

#[test]
fn mismatched_algorithms_are_incompatible() {
    let mut cal = RustcryptoCal::new();
    let x = SecretKey::X25519([1u8; 32]);
    let p = cal.generate_visible(DhAlgorithm::P256).unwrap();
    let p = cal.secret_of(p);
    let p_pub = cal.public_key(&p);
    let x_pub = cal.public_key(&x);
    assert!(matches!(cal.shared_secret(&x, &p_pub), Err(IncompatibleKeys)));
    assert!(matches!(cal.shared_secret(&p, &x_pub), Err(IncompatibleKeys)));
}

#[test]
fn p256_invalid_public_point_is_rejected() {
    let mut cal = RustcryptoCal::new();
    assert!(cal.import_publickey_bytes(DhAlgorithm::P256, &[0u8; 65]).is_err());
    assert!(cal.import_publickey_bytes(DhAlgorithm::P256, &[4u8; 64]).is_err());
    let p = cal.generate_visible(DhAlgorithm::P256).unwrap();
    let p = cal.secret_of(p);
    let encoded = match cal.public_key(&p) {
        PublicKey::P256(point) => point.to_sec1_bytes(),
        PublicKey::X25519(_) => panic!("wrong algorithm"),
    };
    assert!(cal.import_publickey_bytes(DhAlgorithm::P256, &encoded).is_ok());
}

#[test]
fn p256_invalid_secret_is_rejected() {
    let mut cal = RustcryptoCal::new();
    assert!(cal.import_secretkey_bytes(DhAlgorithm::P256, &[0u8; 32]).is_err());
    assert!(cal.import_secretkey_bytes(DhAlgorithm::P256, &[0xffu8; 32]).is_err());
    assert!(cal.import_secretkey_bytes(DhAlgorithm::P256, &[1u8; 31]).is_err());
    assert!(cal.import_secretkey_bytes(DhAlgorithm::X25519, &[0u8; 32]).is_ok());
}

#[test]
fn p256_rfc5903_vector() {
    let mut cal = RustcryptoCal::new();
    let i = cal
        .import_secretkey_bytes(
            DhAlgorithm::P256,
            &hex32("c88f01f510d9ac3f70a292daa2316de544e9aab8afe84049c62a9c57862d1433"),
        )
        .unwrap();
    let r = cal
        .import_secretkey_bytes(
            DhAlgorithm::P256,
            &hex32("c6ef9c5d78ae012a011164acb397ce2088685d8f06bf9be0b283ab46476bee53"),
        )
        .unwrap();
    let i = cal.secret_of(i);
    let r = cal.secret_of(r);
    let gi = cal.public_key(&i);
    let gr = cal.public_key(&r);
    match &gi {
        PublicKey::P256(point) => {
            let b = point.to_sec1_bytes();
            assert_eq!(b[0], 0x04);
            assert_eq!(
                b[1..33],
                hex32("dad0b65394221cf9b051e1feca5787d098dfe637fc90b9ef945d0c3772581180")
            );
            assert_eq!(
                b[33..],
                hex32("5271a0461cdb8252d61f1c456fa3e59ab1f45b33accf5f58389e0577b8990bb3")
            );
        }
        PublicKey::X25519(_) => panic!("wrong algorithm"),
    }
    let s1 = cal.shared_secret(&i, &gr).unwrap();
    let s2 = cal.shared_secret(&r, &gi).unwrap();
    let expected = hex32("d6840f6b42f6edafd13116e0e12565202fef8e9ece7dce03812464d04b9442de");
    assert_eq!(cal.raw_secret_bytes(&s1), &expected[..]);
    assert_eq!(cal.raw_secret_bytes(&s2), &expected[..]);
}

#[test]
fn dh_output_lengths() {
    assert_eq!(DhAlgorithm::P256.output_length(), 32);
    assert_eq!(DhAlgorithm::X25519.output_length(), 32);
}
