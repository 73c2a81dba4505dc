use embedded_cal::cal::{AeadAlgorithm as _, AeadProvider, AsByteSlice, DecryptionFailed};
use embedded_cal::empty::NoAlgorithms;
use embedded_cal::rustcrypto::aead::{AeadAlgorithm, AeadKey, AeadTag};
use embedded_cal::rustcrypto::standalone::Standalone;

fn hex(s: &str) -> Vec<u8> {
    (0..s.len())
        .step_by(2)
        .map(|i| u8::from_str_radix(&s[i..i + 2], 16).unwrap())
        .collect()
}

#[test]
fn aes_ccm_rfc3610_packet_vector_1() {
    let mut cal = Standalone::standalone();
    let key = cal.load_from_keydata(
        AeadAlgorithm::AesCcm16_64_128,
        &hex("C0C1C2C3C4C5C6C7C8C9CACBCCCDCECF"),
    );
    let nonce = hex("00000003020100A0A1A2A3A4A5");
    let aad = hex("0001020304050607");
    let mut msg = hex("08090A0B0C0D0E0F101112131415161718191A1B1C1D1E");
    let tag = cal.encrypt_in_place(&key, &nonce, &mut msg, &aad);
    assert_eq!(msg, hex("588C979A61C663D2F066D0C2C0F989806D5F6B61DAC384"));
    assert_eq!(tag.as_ref().to_vec(), hex("17E8D12CFDF926E0"));
    let tag_bytes = tag.as_ref().to_vec();
    assert_eq!(cal.decrypt_in_place(&key, &nonce, &mut msg, &tag_bytes, &aad), Ok(()));
    assert_eq!(msg, hex("08090A0B0C0D0E0F101112131415161718191A1B1C1D1E"));
}

#[test]
fn aes_ccm_256_roundtrip() {
    let mut cal = Standalone::standalone();
    let key = cal.load_from_keydata(AeadAlgorithm::AesCcm16_64_256, &[0x42u8; 32]);
    let nonce = [1u8; 13];
    let plaintext = b"a message of some length".to_vec();
    let mut msg = plaintext.clone();
    let tag = cal.encrypt_in_place(&key, &nonce, &mut msg, b"header");
    assert_ne!(msg, plaintext);
    assert_eq!(tag.as_ref().len(), 8);
    let tag_bytes = tag.as_ref().to_vec();
    assert_eq!(cal.decrypt_in_place(&key, &nonce, &mut msg, &tag_bytes, b"header"), Ok(()));
    assert_eq!(msg, plaintext);
}

#[test]
fn aes_ccm_rejects_modified_tag_or_aad() {
    let mut cal = Standalone::standalone();
    let key = cal.load_from_keydata(AeadAlgorithm::AesCcm16_64_128, &[0x01u8; 16]);
    let nonce = [2u8; 13];
    let mut msg = b"secret".to_vec();
    let tag = cal.encrypt_in_place(&key, &nonce, &mut msg, b"aad");
    let mut bad_tag = tag.as_ref().to_vec();
    bad_tag[0] ^= 1;
    let mut copy = msg.clone();
    assert_eq!(
        cal.decrypt_in_place(&key, &nonce, &mut copy, &bad_tag, b"aad"),
        Err(DecryptionFailed)
    );
    let mut copy = msg.clone();
    let good_tag = tag.as_ref().to_vec();
    assert_eq!(
        cal.decrypt_in_place(&key, &nonce, &mut copy, &good_tag, b"aae"),
        Err(DecryptionFailed)
    );
}

#[test]
fn aes_ccm_empty_message() {
    let mut cal = Standalone::standalone();
    let key = cal.load_from_keydata(AeadAlgorithm::AesCcm16_64_128, &[0x07u8; 16]);
    let nonce = [3u8; 13];
    let mut msg: Vec<u8> = Vec::new();
    let tag = cal.encrypt_in_place(&key, &nonce, &mut msg, b"only aad");
    let tag_bytes = tag.as_ref().to_vec();
    assert_eq!(tag_bytes.len(), 8);
    assert_eq!(cal.decrypt_in_place(&key, &nonce, &mut msg, &tag_bytes, b"only aad"), Ok(()));
}

#[test]
fn aead_algorithm_parameters() {
    type A = AeadAlgorithm<NoAlgorithms>;
    assert_eq!(A::from_cose_number(10), Some(AeadAlgorithm::AesCcm16_64_128));
    assert_eq!(A::from_cose_number(11), Some(AeadAlgorithm::AesCcm16_64_256));
    assert_eq!(A::from_cose_number(12), None);
    let a: A = AeadAlgorithm::AesCcm16_64_128;
    assert_eq!((a.key_length(), a.tag_length(), a.nonce_length()), (16, 8, 13));
    let b: A = AeadAlgorithm::AesCcm16_64_256;
    assert_eq!((b.key_length(), b.tag_length(), b.nonce_length()), (32, 8, 13));
}

#[test]
fn aead_key_and_tag_shapes() {
    let mut cal = Standalone::standalone();
    let key = cal.load_from_keydata(AeadAlgorithm::AesCcm16_64_256, &[5u8; 32]);
    assert!(matches!(key, AeadKey::AesCcm16_64_256(k) if k == [5u8; 32]));
    let tag: AeadTag<NoAlgorithms> = AeadTag::AesCcm16_64_128([4u8; 8]);
    assert_eq!(tag.as_ref(), &[4u8; 8][..]);
}

#[test]
fn aes_ccm_tag_variant_follows_key() {
    let mut cal = Standalone::standalone();
    let k128 = cal.load_from_keydata(AeadAlgorithm::AesCcm16_64_128, &[1u8; 16]);
    let k256 = cal.load_from_keydata(AeadAlgorithm::AesCcm16_64_256, &[2u8; 32]);
    let mut msg = vec![0u8; 5];
    let t128 = cal.encrypt_in_place(&k128, &[0u8; 13], &mut msg, b"");
    assert!(matches!(t128, AeadTag::AesCcm16_64_128(_)));
    let mut msg = vec![0u8; 5];
    let t256 = cal.encrypt_in_place(&k256, &[0u8; 13], &mut msg, b"");
    assert!(matches!(t256, AeadTag::AesCcm16_64_256(_)));
}

#[test]
fn aes_ccm_rejects_overlong_ciphertext() {
    let mut cal = Standalone::standalone();
    let key = cal.load_from_keydata(AeadAlgorithm::AesCcm16_64_128, &[1u8; 16]);
    let mut msg = vec![0u8; 65536];
    assert_eq!(
        cal.decrypt_in_place(&key, &[0u8; 13], &mut msg, &[0u8; 8], b""),
        Err(DecryptionFailed)
    );
}

#[test]
fn aes_ccm_ciphertext_is_plaintext_xor_keystream() {
    let mut cal = Standalone::standalone();
    let key = cal.load_from_keydata(AeadAlgorithm::AesCcm16_64_128, &[9u8; 16]);
    let nonce = [3u8; 13];
    let m1 = b"first message, 29 bytes long.".to_vec();
    let m2 = b"other message, 29 bytes long!".to_vec();
    let mut c1 = m1.clone();
    let mut c2 = m2.clone();
    let t1 = cal.encrypt_in_place(&key, &nonce, &mut c1, b"one header");
    let t2 = cal.encrypt_in_place(&key, &nonce, &mut c2, b"another header");
    for i in 0..m1.len() {
        assert_eq!(c1[i] ^ c2[i], m1[i] ^ m2[i]);
    }
    let mut c3 = m1.clone();
    let t3 = cal.encrypt_in_place(&key, &nonce, &mut c3, b"");
    assert_eq!(c3, c1);
    assert_ne!(t3.as_ref(), t1.as_ref());
    assert_ne!(t1.as_ref(), t2.as_ref());
}

#[test]
fn aes_ccm_failed_decrypt_zeroes_buffer() {
    let mut cal = Standalone::standalone();
    let key = cal.load_from_keydata(AeadAlgorithm::AesCcm16_64_256, &[7u8; 32]);
    let nonce = [1u8; 13];
    let mut msg = b"secret payload".to_vec();
    let tag = cal.encrypt_in_place(&key, &nonce, &mut msg, b"aad");
    let mut tag_bytes = tag.as_ref().to_vec();
    tag_bytes[0] ^= 1;
    assert_eq!(
        cal.decrypt_in_place(&key, &nonce, &mut msg, &tag_bytes, b"aad"),
        Err(DecryptionFailed)
    );
    assert!(msg.iter().all(|b| *b == 0));
    assert_eq!(msg.len(), 14);
}
