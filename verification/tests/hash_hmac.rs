use embedded_cal::cal::{AsByteSlice, HashAlgorithm as _, HashProvider, HmacAlgorithm as _, HmacProvider};
use embedded_cal::empty::NoAlgorithms;
use embedded_cal::rustcrypto::hash::{HashAlgorithm, HashResult};
use embedded_cal::rustcrypto::hmac::HmacAlgorithm;
use embedded_cal::rustcrypto::standalone::Standalone;

fn hex(s: &str) -> Vec<u8> {
    (0..s.len())
        .step_by(2)
        .map(|i| u8::from_str_radix(&s[i..i + 2], 16).unwrap())
        .collect()
}

#[test]
fn sha256_of_abc() {
    let mut cal = Standalone::standalone();
    let out = cal.hash(HashAlgorithm::Sha256, b"abc");
    assert_eq!(
        out.as_ref().to_vec(),
        hex("ba7816bf8f01cfea414140de5dae2223b00361a396177a9cb410ff61f20015ad")
    );
}

#[test]
fn sha256_incremental_equals_one_shot() {
    let mut cal = Standalone::standalone();
    let mut state = HashProvider::init(&mut cal, HashAlgorithm::Sha256);
    HashProvider::update(&mut cal, &mut state, b"hello ");
    HashProvider::update(&mut cal, &mut state, b"");
    HashProvider::update(&mut cal, &mut state, b"world");
    let incremental = HashProvider::finalize(&mut cal, state);
    let one_shot = cal.hash(HashAlgorithm::Sha256, b"hello world");
    assert_eq!(incremental.as_ref(), one_shot.as_ref());
    assert_eq!(one_shot.as_ref().len(), HashAlgorithm::<NoAlgorithms>::Sha256.len());
}

#[test]
fn hash_algorithm_lookup() {
    type A = HashAlgorithm<NoAlgorithms>;
    assert_eq!(A::from_cose_number(-16), Some(HashAlgorithm::Sha256));
    assert_eq!(A::from_cose_number(-44), None);
    assert_eq!(A::from_ni_id(1), Some(HashAlgorithm::Sha256));
    assert_eq!(A::from_ni_id(2), None);
    assert_eq!(A::from_ni_name("sha-256"), Some(HashAlgorithm::Sha256));
    assert_eq!(A::from_ni_name("sha-256-128"), None);
    assert_eq!(A::from_ni_name("SHA-256"), None);
    assert_eq!(HashAlgorithm::<NoAlgorithms>::Sha256.len(), 32);
}

#[test]
fn hash_result_as_ref_gives_digest_bytes() {
    let r: HashResult<NoAlgorithms> = HashResult::Sha256([9u8; 32]);
    assert_eq!(r.as_ref(), &[9u8; 32][..]);
}

#[test]
fn hmac_sha256_rfc4231_test_case_1() {
    let mut cal = Standalone::standalone();
    let key = [0x0bu8; 20];
    let out = cal.hmac_with_keydata(HmacAlgorithm::HmacSha256, &key, b"Hi There");
    assert_eq!(
        out.as_ref().to_vec(),
        hex("b0344c61d8db38535ca8afceaf0bf12b881dc200c9833da726e9376c2e32cff7")
    );
}

#[test]
fn hmac_incremental_equals_one_shot() {
    let mut cal = Standalone::standalone();
    let key = b"Jefe";
    let mut state = cal.init_with_keydata(HmacAlgorithm::HmacSha256, key);
    HmacProvider::update(&mut cal, &mut state, b"what do ya want ");
    HmacProvider::update(&mut cal, &mut state, b"for nothing?");
    let out = HmacProvider::finalize(&mut cal, state);
    // RFC 4231 test case 2
    assert_eq!(
        out.as_ref().to_vec(),
        hex("5bdcc146bf60754e6a042426089575c75a003f089d2739839dec58b964ec3843")
    );
}

#[test]
fn hmac_algorithm_lookup() {
    type A = HmacAlgorithm<NoAlgorithms>;
    assert_eq!(A::from_cose_number(5), Some(HmacAlgorithm::HmacSha256));
    assert_eq!(A::from_cose_number(6), None);
    assert_eq!(HmacAlgorithm::<NoAlgorithms>::HmacSha256.len(), 32);
}
