//! The calls into the RustCrypto crates (`sha2`, `hmac`, `aes`/`ccm`, `p256`) and into
//! `x25519-dalek`. Every item here is trusted: its contract is what the crate's source and
//! documentation say, and Verus does not check it.
use vstd::prelude::*;

use ccm::aead::generic_array::GenericArray;
use ccm::{AeadInPlace, KeyInit};
use hmac::Mac;
use p256::elliptic_curve::sec1::ToEncodedPoint;
use sha2::Digest;
use crate::util::xor_bytes;

verus! {

type AesCcm16_64_128 = ccm::Ccm<aes::Aes128, ccm::consts::U8, ccm::consts::U13>;

type AesCcm16_64_256 = ccm::Ccm<aes::Aes256, ccm::consts::U8, ccm::consts::U13>;

/// The error type of the `aead` traits that `ccm` implements (`aead::Error`).
#[verifier::external_type_specification]
#[verifier::external_body]
pub struct ExAeadError(ccm::Error);

/// A vector of bounded capacity stored inline (`heapless::Vec`).
#[verifier::external_type_specification]
#[verifier::external_body]
#[verifier::reject_recursive_types(T)]
pub struct ExHeaplessVec<T, const N: usize>(heapless::Vec<T, N>);

/// The bytes that a 32-byte-capacity `heapless::Vec` holds.
pub uninterp spec fn bounded_bytes(v: heapless::Vec<u8, 32>) -> Seq<u8>;

/// The vector that `heapless::Vec::from_slice` builds from `bytes`.
pub uninterp spec fn bounded_of(bytes: Seq<u8>) -> heapless::Vec<u8, 32>;

/// `heapless::Vec::from_slice`: fails exactly when the slice exceeds the capacity, and otherwise
/// holds the slice's bytes.
#[verifier::external_body]
pub(crate) fn bounded_from_slice(bytes: &[u8]) -> (r: Result<heapless::Vec<u8, 32>, ()>)
    ensures
        r is Ok <==> bytes@.len() <= 32,
        r matches Ok(v) ==> bounded_bytes(v) == bytes@ && v == bounded_of(bytes@),
{
    heapless::Vec::from_slice(bytes)
}

/// `heapless::Vec::as_slice`: the bytes held.
#[verifier::external_body]
pub(crate) fn bounded_as_slice(v: &heapless::Vec<u8, 32>) -> (r: &[u8])
    ensures
        r@ == bounded_bytes(*v),
{
    v.as_slice()
}

/// A running SHA-256 computation (`sha2::Sha256`).
#[verifier::external_body]
pub struct Sha256Engine {
    inner: sha2::Sha256,
}

/// The data fed into a SHA-256 computation so far.
pub uninterp spec fn sha256_absorbed(engine: Sha256Engine) -> Seq<u8>;

/// The SHA-256 digest of `data` (what `sha2::Sha256` finalizes to).
pub uninterp spec fn sha256_digest(data: Seq<u8>) -> Seq<u8>;

/// `sha2::Sha256::new()`: a computation that has absorbed nothing.
#[verifier::external_body]
pub(crate) fn sha256_new() -> (e: Sha256Engine)
    ensures
        sha256_absorbed(e) == Seq::<u8>::empty(),
{
    Sha256Engine { inner: sha2::Sha256::new() }
}

/// `Digest::update` on `sha2::Sha256`: appends `data` to what was absorbed.
#[verifier::external_body]
pub(crate) fn sha256_update(e: &mut Sha256Engine, data: &[u8])
    ensures
        sha256_absorbed(*final(e)) == sha256_absorbed(*old(e)) + data@,
{
    e.inner.update(data)
}

/// `Digest::finalize` on `sha2::Sha256`: the digest of everything absorbed.
#[verifier::external_body]
pub(crate) fn sha256_finalize(e: Sha256Engine) -> (d: [u8; 32])
    ensures
        d@ == sha256_digest(sha256_absorbed(e)),
{
    e.inner.finalize().into()
}

/// A running HMAC-SHA-256 computation (`hmac::Hmac<sha2::Sha256>`).
#[verifier::external_body]
pub struct HmacSha256Engine {
    inner: hmac::Hmac<sha2::Sha256>,
}

/// The key an HMAC-SHA-256 computation was started with.
pub uninterp spec fn hmac_sha256_key(engine: HmacSha256Engine) -> Seq<u8>;

/// The data fed into an HMAC-SHA-256 computation so far.
pub uninterp spec fn hmac_sha256_absorbed(engine: HmacSha256Engine) -> Seq<u8>;

/// The HMAC-SHA-256 tag of `data` under `key` (what `hmac::Hmac<Sha256>` finalizes to).
pub uninterp spec fn hmac_sha256(key: Seq<u8>, data: Seq<u8>) -> Seq<u8>;

/// `Mac::new_from_slice` for `hmac::Hmac<Sha256>`: keyed with `key`, nothing absorbed.
/// HMAC accepts keys of any length (longer ones are hashed first), so this never fails.
#[verifier::external_body]
pub(crate) fn hmac_sha256_new(key: &[u8]) -> (e: HmacSha256Engine)
    ensures
        hmac_sha256_key(e) == key@,
        hmac_sha256_absorbed(e) == Seq::<u8>::empty(),
{
    HmacSha256Engine { inner: <hmac::Hmac<sha2::Sha256> as Mac>::new_from_slice(key).unwrap() }
}

/// `Mac::update`: appends `data` to what was absorbed; the key stays.
#[verifier::external_body]
pub(crate) fn hmac_sha256_update(e: &mut HmacSha256Engine, data: &[u8])
    ensures
        hmac_sha256_key(*final(e)) == hmac_sha256_key(*old(e)),
        hmac_sha256_absorbed(*final(e)) == hmac_sha256_absorbed(*old(e)) + data@,
{
    e.inner.update(data)
}

/// `Mac::finalize`: the tag of everything absorbed under the key.
#[verifier::external_body]
pub(crate) fn hmac_sha256_finalize(e: HmacSha256Engine) -> (t: [u8; 32])
    ensures
        t@ == hmac_sha256(hmac_sha256_key(e), hmac_sha256_absorbed(e)),
{
    e.inner.finalize().into_bytes().into()
}

/// Ciphertext followed by tag, as AES-CCM-16-64-128 (`ccm::Ccm<Aes128, U8, U13>`) seals it.
pub uninterp spec fn aes_ccm_16_64_128_seal(
    key: Seq<u8>,
    nonce: Seq<u8>,
    aad: Seq<u8>,
    plaintext: Seq<u8>,
) -> Seq<u8>;

/// The first `len` bytes of the AES-CCM-16-64-128 counter-mode keystream of a key and nonce,
/// from the counter block after the one that masks the tag.
pub uninterp spec fn aes_ccm_16_64_128_keystream(key: Seq<u8>, nonce: Seq<u8>, len: nat) -> Seq<u8>;

/// The plaintext, if the tag is authentic, as AES-CCM-16-64-128 opens a ciphertext.
pub uninterp spec fn aes_ccm_16_64_128_open(
    key: Seq<u8>,
    nonce: Seq<u8>,
    aad: Seq<u8>,
    ciphertext: Seq<u8>,
    tag: Seq<u8>,
) -> Option<Seq<u8>>;

/// Ciphertext followed by tag, as AES-CCM-16-64-256 (`ccm::Ccm<Aes256, U8, U13>`) seals it.
pub uninterp spec fn aes_ccm_16_64_256_seal(
    key: Seq<u8>,
    nonce: Seq<u8>,
    aad: Seq<u8>,
    plaintext: Seq<u8>,
) -> Seq<u8>;

/// The first `len` bytes of the AES-CCM-16-64-256 counter-mode keystream of a key and nonce,
/// from the counter block after the one that masks the tag.
pub uninterp spec fn aes_ccm_16_64_256_keystream(key: Seq<u8>, nonce: Seq<u8>, len: nat) -> Seq<u8>;

/// The plaintext, if the tag is authentic, as AES-CCM-16-64-256 opens a ciphertext.
pub uninterp spec fn aes_ccm_16_64_256_open(
    key: Seq<u8>,
    nonce: Seq<u8>,
    aad: Seq<u8>,
    ciphertext: Seq<u8>,
    tag: Seq<u8>,
) -> Option<Seq<u8>>;

/// `AeadInPlace::encrypt_in_place_detached` of AES-CCM-16-64-128. With a 13-byte nonce the
/// length field has two bytes, and the source fails exactly on messages longer than 65535 bytes,
/// before touching the buffer. Otherwise the buffer is XORed with the counter-mode keystream of
/// key and nonce alone (the associated data only enters the tag).
#[verifier::external_body]
pub(crate) fn aes_ccm_16_64_128_encrypt(
    key: &[u8; 16],
    nonce: &[u8],
    aad: &[u8],
    buffer: &mut [u8],
) -> (r: Result<[u8; 8], ccm::Error>)
    requires
        nonce@.len() == 13,
    ensures
        r is Ok <==> old(buffer)@.len() <= 65535,
        final(buffer)@.len() == old(buffer)@.len(),
        r matches Ok(tag) ==> final(buffer)@ + tag@ == aes_ccm_16_64_128_seal(
            key@,
            nonce@,
            aad@,
            old(buffer)@,
        ),
        r is Err ==> final(buffer)@ == old(buffer)@,
        r is Ok ==> final(buffer)@ == xor_bytes(
            old(buffer)@,
            aes_ccm_16_64_128_keystream(key@, nonce@, old(buffer)@.len()),
        ),
{
    let cipher = AesCcm16_64_128::new(GenericArray::from_slice(key));
    let tag = cipher.encrypt_in_place_detached(GenericArray::from_slice(nonce), aad, buffer)?;
    Ok(tag.into())
}

/// `AeadInPlace::decrypt_in_place_detached` of AES-CCM-16-64-128. It succeeds exactly when the
/// tag is authentic, and then gives back the plaintext; so what was sealed under the same key,
/// nonce and associated data opens to the same plaintext, and what opens seals back to the
/// ciphertext and tag. Messages longer than 65535 bytes are refused. The keystream is applied
/// before the tag is checked: on success the buffer is the ciphertext XORed with it, a message
/// that is too long is left XORed with it, and on a tag mismatch the buffer is zeroed.
#[verifier::external_body]
pub(crate) fn aes_ccm_16_64_128_decrypt(
    key: &[u8; 16],
    nonce: &[u8],
    aad: &[u8],
    buffer: &mut [u8],
    tag: &[u8],
) -> (r: Result<(), ccm::Error>)
    requires
        nonce@.len() == 13,
        tag@.len() == 8,
    ensures
        final(buffer)@.len() == old(buffer)@.len(),
        r is Ok <==> aes_ccm_16_64_128_open(key@, nonce@, aad@, old(buffer)@, tag@) is Some,
        old(buffer)@.len() > 65535 ==> r is Err,
        r is Ok || old(buffer)@.len() > 65535 ==> final(buffer)@ == xor_bytes(
            old(buffer)@,
            aes_ccm_16_64_128_keystream(key@, nonce@, old(buffer)@.len()),
        ),
        r is Err && old(buffer)@.len() <= 65535 ==> final(buffer)@ == Seq::new(
            old(buffer)@.len(),
            |i: int| 0u8,
        ),
        r is Ok ==> aes_ccm_16_64_128_seal(key@, nonce@, aad@, final(buffer)@) == old(buffer)@
            + tag@,
        r is Ok ==> final(buffer)@ == aes_ccm_16_64_128_open(
            key@,
            nonce@,
            aad@,
            old(buffer)@,
            tag@,
        ).unwrap(),
        forall|p: Seq<u8>|
            p.len() <= 65535 && #[trigger] aes_ccm_16_64_128_seal(key@, nonce@, aad@, p) == old(
                buffer,
            )@ + tag@ ==> r is Ok && final(buffer)@ == p,
{
    let cipher = AesCcm16_64_128::new(GenericArray::from_slice(key));
    cipher.decrypt_in_place_detached(
        GenericArray::from_slice(nonce),
        aad,
        buffer,
        GenericArray::from_slice(tag),
    )
}

/// `AeadInPlace::encrypt_in_place_detached` of AES-CCM-16-64-256; as for the 128-bit key.
#[verifier::external_body]
pub(crate) fn aes_ccm_16_64_256_encrypt(
    key: &[u8; 32],
    nonce: &[u8],
    aad: &[u8],
    buffer: &mut [u8],
) -> (r: Result<[u8; 8], ccm::Error>)
    requires
        nonce@.len() == 13,
    ensures
        r is Ok <==> old(buffer)@.len() <= 65535,
        final(buffer)@.len() == old(buffer)@.len(),
        r matches Ok(tag) ==> final(buffer)@ + tag@ == aes_ccm_16_64_256_seal(
            key@,
            nonce@,
            aad@,
            old(buffer)@,
        ),
        r is Err ==> final(buffer)@ == old(buffer)@,
        r is Ok ==> final(buffer)@ == xor_bytes(
            old(buffer)@,
            aes_ccm_16_64_256_keystream(key@, nonce@, old(buffer)@.len()),
        ),
{
    let cipher = AesCcm16_64_256::new(GenericArray::from_slice(key));
    let tag = cipher.encrypt_in_place_detached(GenericArray::from_slice(nonce), aad, buffer)?;
    Ok(tag.into())
}

/// `AeadInPlace::decrypt_in_place_detached` of AES-CCM-16-64-256; as for the 128-bit key.
#[verifier::external_body]
pub(crate) fn aes_ccm_16_64_256_decrypt(
    key: &[u8; 32],
    nonce: &[u8],
    aad: &[u8],
    buffer: &mut [u8],
    tag: &[u8],
) -> (r: Result<(), ccm::Error>)
    requires
        nonce@.len() == 13,
        tag@.len() == 8,
    ensures
        final(buffer)@.len() == old(buffer)@.len(),
        r is Ok <==> aes_ccm_16_64_256_open(key@, nonce@, aad@, old(buffer)@, tag@) is Some,
        old(buffer)@.len() > 65535 ==> r is Err,
        r is Ok || old(buffer)@.len() > 65535 ==> final(buffer)@ == xor_bytes(
            old(buffer)@,
            aes_ccm_16_64_256_keystream(key@, nonce@, old(buffer)@.len()),
        ),
        r is Err && old(buffer)@.len() <= 65535 ==> final(buffer)@ == Seq::new(
            old(buffer)@.len(),
            |i: int| 0u8,
        ),
        r is Ok ==> aes_ccm_16_64_256_seal(key@, nonce@, aad@, final(buffer)@) == old(buffer)@
            + tag@,
        r is Ok ==> final(buffer)@ == aes_ccm_16_64_256_open(
            key@,
            nonce@,
            aad@,
            old(buffer)@,
            tag@,
        ).unwrap(),
        forall|p: Seq<u8>|
            p.len() <= 65535 && #[trigger] aes_ccm_16_64_256_seal(key@, nonce@, aad@, p) == old(
                buffer,
            )@ + tag@ ==> r is Ok && final(buffer)@ == p,
{
    let cipher = AesCcm16_64_256::new(GenericArray::from_slice(key));
    cipher.decrypt_in_place_detached(
        GenericArray::from_slice(nonce),
        aad,
        buffer,
        GenericArray::from_slice(tag),
    )
}

/// The X25519 public key (u-coordinate) of a secret (`x25519_dalek::PublicKey::from`).
pub uninterp spec fn x25519_public(secret: Seq<u8>) -> Seq<u8>;

/// The X25519 shared secret of a secret and a public key
/// (`x25519_dalek::StaticSecret::diffie_hellman`).
pub uninterp spec fn x25519_shared(secret: Seq<u8>, public: Seq<u8>) -> Seq<u8>;

/// `x25519_dalek::StaticSecret::random_from_rng` with the operating system's generator, as
/// bytes. Nothing is stated of the value: it is random.
#[verifier::external_body]
pub(crate) fn x25519_generate() -> (s: [u8; 32]) {
    x25519_dalek::StaticSecret::random_from_rng(rand_core::OsRng).to_bytes()
}

/// `x25519_dalek::PublicKey::from(&StaticSecret::from(secret))`, as bytes.
#[verifier::external_body]
pub(crate) fn x25519_public_key(secret: &[u8; 32]) -> (p: [u8; 32])
    ensures
        p@ == x25519_public(secret@),
{
    x25519_dalek::PublicKey::from(&x25519_dalek::StaticSecret::from(*secret)).to_bytes()
}

/// `StaticSecret::diffie_hellman`, as bytes. Diffie-Hellman agreement: a secret and the public
/// key of another secret give the same bytes as the other secret and this secret's public key.
#[verifier::external_body]
pub(crate) fn x25519_diffie_hellman(secret: &[u8; 32], public: &[u8; 32]) -> (s: [u8; 32])
    ensures
        s@ == x25519_shared(secret@, public@),
        forall|other: Seq<u8>|
            other.len() == 32 && public@ == #[trigger] x25519_public(other) ==> x25519_shared(
                other,
                x25519_public(secret@),
            ) == s@,
{
    let secret = x25519_dalek::StaticSecret::from(*secret);
    secret.diffie_hellman(&x25519_dalek::PublicKey::from(*public)).to_bytes()
}

/// The uncompressed SEC1 encoding of the P-256 public key of a secret scalar (big-endian
/// bytes), or `None` where the bytes are no valid secret key (`p256::SecretKey::from_bytes`,
/// `public_key`, `to_encoded_point(false)`).
pub uninterp spec fn p256_public(secret: Seq<u8>) -> Option<Seq<u8>>;

/// The P-256 ECDH shared secret (x-coordinate) of a secret scalar and an SEC1-encoded public
/// key, or `None` where either does not decode (`p256::ecdh::diffie_hellman`).
pub uninterp spec fn p256_shared(secret: Seq<u8>, public: Seq<u8>) -> Option<Seq<u8>>;

/// Whether `public` is the SEC1 encoding of a point on P-256
/// (`p256::PublicKey::from_sec1_bytes` succeeds).
pub uninterp spec fn p256_point_valid(public: Seq<u8>) -> bool;

pub open spec fn opt_view<const N: usize>(o: Option<[u8; N]>) -> Option<Seq<u8>> {
    match o {
        Some(a) => Some(a@),
        None => None,
    }
}

/// `p256::SecretKey::random` with the operating system's generator, as bytes. The value is
/// random; it is a valid (nonzero, reduced) scalar.
#[verifier::external_body]
pub(crate) fn p256_generate() -> (s: [u8; 32])
    ensures
        p256_public(s@) is Some,
{
    p256::SecretKey::random(&mut rand_core::OsRng).to_bytes().into()
}

/// `p256::PublicKey::from_sec1_bytes(public).is_ok()`: whether the bytes decode as a point on the
/// curve, which is what `p256_point_valid` names.
#[verifier::external_body]
pub(crate) fn p256_decode_public(public: &[u8; 65]) -> (ok: bool)
    ensures
        ok == p256_point_valid(public@),
{
    p256::PublicKey::from_sec1_bytes(public).is_ok()
}

/// `p256::SecretKey::from_bytes(secret)?.public_key().to_encoded_point(false)`. The encoding of
/// a public key decodes again.
#[verifier::external_body]
pub(crate) fn p256_public_key(secret: &[u8; 32]) -> (p: Option<[u8; 65]>)
    ensures
        opt_view(p) == p256_public(secret@),
        p matches Some(b) ==> p256_point_valid(b@),
{
    let key = p256::SecretKey::from_bytes(secret.into()).ok()?;
    key.public_key().to_encoded_point(false).as_bytes().try_into().ok()
}

/// `p256::ecdh::diffie_hellman` on a decoded secret and public key, as the raw shared bytes.
/// It succeeds whenever both decode (the scalar is nonzero and the point is on the curve).
/// Diffie-Hellman agreement: a secret and the public key of another secret give the same bytes
/// as the other secret and this secret's public key.
#[verifier::external_body]
pub(crate) fn p256_diffie_hellman(secret: &[u8; 32], public: &[u8; 65]) -> (s: Option<[u8; 32]>)
    ensures
        opt_view(s) == p256_shared(secret@, public@),
        p256_public(secret@) is Some && p256_point_valid(public@) ==> s is Some,
        forall|other: Seq<u8>|
            p256_public(secret@) is Some && #[trigger] p256_public(other) == Some(public@)
                ==> p256_shared(other, p256_public(secret@).unwrap()) == opt_view(s),
{
    let key = p256::SecretKey::from_bytes(secret.into()).ok()?;
    let public = p256::PublicKey::from_sec1_bytes(public).ok()?;
    let shared = p256::ecdh::diffie_hellman(key.to_nonzero_scalar(), public.as_affine());
    Some((*shared.raw_secret_bytes()).into())
}

} // verus!
