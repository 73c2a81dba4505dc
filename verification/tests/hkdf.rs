use embedded_cal::hkdf::{HkdfError, HkdfProvider};
use embedded_cal::rustcrypto::standalone::Standalone;

fn hex(s: &str) -> Vec<u8> {
    (0..s.len())
        .step_by(2)
        .map(|i| u8::from_str_radix(&s[i..i + 2], 16).unwrap())
        .collect()
}

#[test]
fn hkdf_rfc5869_test_case_1() {
    let mut cal = Standalone::standalone();
    let ikm = [0x0bu8; 22];
    let salt = hex("000102030405060708090a0b0c");
    let info = hex("f0f1f2f3f4f5f6f7f8f9");
    let prk = cal.hkdf_extract(Some(&salt), &ikm).unwrap();
    assert_eq!(
        prk.to_vec(),
        hex("077709362c2e32df0ddc3f0dc47bba6390b6c73bb50f9c3122ec844ad7c2b3e5")
    );
    let mut okm = [0u8; 42];
    cal.hkdf_expand(&prk, &info, &mut okm).unwrap();
    assert_eq!(
        okm.to_vec(),
        hex("3cb25f25faacd57a90434f64d0362f2a2d2d0a90cf1a5a4c5db02d56ecc4c5bf34007208d5b887185865")
    );
    let mut okm2 = [0u8; 42];
    cal.hkdf(Some(&salt), &ikm, &info, &mut okm2).unwrap();
    assert_eq!(okm, okm2);
}

#[test]
fn hkdf_rfc5869_test_case_3_empty_salt_and_info() {
    let mut cal = Standalone::standalone();
    let ikm = [0x0bu8; 22];
    let expected_prk = hex("19ef24a32c717b167f33a91d6f648bdf96596776afdb6377ac434c1c293ccb04");
    let prk_empty = cal.hkdf_extract(Some(&[]), &ikm).unwrap();
    assert_eq!(prk_empty.to_vec(), expected_prk);
    // No salt means HashLen zeros, which HMAC treats like the empty key.
    let prk_none = cal.hkdf_extract(None, &ikm).unwrap();
    assert_eq!(prk_none.to_vec(), expected_prk);
    let mut okm = [0u8; 42];
    cal.hkdf(None, &ikm, &[], &mut okm).unwrap();
    assert_eq!(
        okm.to_vec(),
        hex("8da4e775a563c18f715f802a063c5a31b8a11f5c5ee1879ec3454e5f3c738d2d9d201395faa4b61a96c8")
    );
}

#[test]
fn hkdf_expand_rejects_overlong_output_and_leaves_buffer() {
    let mut cal = Standalone::standalone();
    let prk = [7u8; 32];
    let mut okm = vec![0x55u8; 255 * 32 + 1];
    assert_eq!(cal.hkdf_expand(&prk, b"info", &mut okm), Err(HkdfError::OutputTooLong));
    assert!(okm.iter().all(|b| *b == 0x55));
}

#[test]
fn hkdf_expand_accepts_maximum_length() {
    let mut cal = Standalone::standalone();
    let prk = [7u8; 32];
    let mut okm = vec![0u8; 255 * 32];
    assert_eq!(cal.hkdf_expand(&prk, b"info", &mut okm), Ok(()));
}

#[test]
fn hkdf_expand_shorter_output_is_prefix_of_longer() {
    let mut cal = Standalone::standalone();
    let prk = [3u8; 32];
    let mut short = [0u8; 10];
    let mut long = [0u8; 100];
    cal.hkdf_expand(&prk, b"ctx", &mut short).unwrap();
    cal.hkdf_expand(&prk, b"ctx", &mut long).unwrap();
    assert_eq!(&short[..], &long[..10]);
}

#[test]
fn hkdf_expand_zero_length_succeeds() {
    let mut cal = Standalone::standalone();
    let mut okm: [u8; 0] = [];
    assert_eq!(cal.hkdf_expand(&[1u8; 32], b"", &mut okm), Ok(()));
}

#[test]
fn hkdf_expand_overlong_without_hmac_sha256() {
    let mut cal = embedded_cal::empty::EmptyCal;
    let mut okm = vec![0x55u8; 255 * 32 + 1];
    assert_eq!(cal.hkdf_expand(&[7u8; 32], b"", &mut okm), Err(HkdfError::OutputTooLong));
    assert!(okm.iter().all(|b| *b == 0x55));
}
