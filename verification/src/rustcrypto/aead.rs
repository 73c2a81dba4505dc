//! AES-CCM, added to the AEAD algorithms of the base provider.
use vstd::prelude::*;

use crate::cal::{AeadProvider, AsByteSlice, Cal, DecryptionFailed};
use crate::rustcrypto::backend::{
    aes_ccm_16_64_128_decrypt, aes_ccm_16_64_128_encrypt, aes_ccm_16_64_128_keystream,
    aes_ccm_16_64_128_open, aes_ccm_16_64_128_seal, aes_ccm_16_64_256_decrypt,
    aes_ccm_16_64_256_encrypt, aes_ccm_16_64_256_keystream, aes_ccm_16_64_256_open,
    aes_ccm_16_64_256_seal,
};
use crate::util::xor_bytes;
use crate::rustcrypto::{copy_bytes, RustcryptoCalExtender};

verus! {

/// Longest message that AES-CCM with a 13-byte nonce (2-byte length field) handles.
pub const CCM_MAX_MESSAGE_LEN: usize = 65535;

#[derive(Clone, Debug, Eq, PartialEq)]
pub enum AeadAlgorithm<BA> {
    /// AES-CCM with a 128-bit key, 64-bit tag and 13-byte nonce (COSE algorithm 10).
    AesCcm16_64_128,
    /// AES-CCM with a 256-bit key, 64-bit tag and 13-byte nonce (COSE algorithm 11).
    AesCcm16_64_256,
    Direct(BA),
}

impl<BA: crate::cal::AeadAlgorithm> crate::cal::AeadAlgorithm for AeadAlgorithm<BA> {
    open spec fn spec_key_length(&self) -> nat {
        match self {
            AeadAlgorithm::AesCcm16_64_128 => 16,
            AeadAlgorithm::AesCcm16_64_256 => 32,
            AeadAlgorithm::Direct(a) => a.spec_key_length(),
        }
    }

    open spec fn spec_tag_length(&self) -> nat {
        match self {
            AeadAlgorithm::AesCcm16_64_128 => 8,
            AeadAlgorithm::AesCcm16_64_256 => 8,
            AeadAlgorithm::Direct(a) => a.spec_tag_length(),
        }
    }

    open spec fn spec_nonce_length(&self) -> nat {
        match self {
            AeadAlgorithm::AesCcm16_64_128 => 13,
            AeadAlgorithm::AesCcm16_64_256 => 13,
            AeadAlgorithm::Direct(a) => a.spec_nonce_length(),
        }
    }

    open spec fn spec_from_cose_number(number: int) -> Option<Self> {
        match BA::spec_from_cose_number(number) {
            Some(a) => Some(AeadAlgorithm::Direct(a)),
            None => if number == 10 {
                Some(AeadAlgorithm::AesCcm16_64_128)
            } else if number == 11 {
                Some(AeadAlgorithm::AesCcm16_64_256)
            } else {
                None
            },
        }
    }

    fn key_length(&self) -> (r: usize) {
        match self {
            AeadAlgorithm::AesCcm16_64_128 => 16,
            AeadAlgorithm::AesCcm16_64_256 => 32,
            AeadAlgorithm::Direct(a) => a.key_length(),
        }
    }

    fn tag_length(&self) -> (r: usize) {
        match self {
            AeadAlgorithm::AesCcm16_64_128 => 8,
            AeadAlgorithm::AesCcm16_64_256 => 8,
            AeadAlgorithm::Direct(a) => a.tag_length(),
        }
    }

    fn nonce_length(&self) -> (r: usize) {
        match self {
            AeadAlgorithm::AesCcm16_64_128 => 13,
            AeadAlgorithm::AesCcm16_64_256 => 13,
            AeadAlgorithm::Direct(a) => a.nonce_length(),
        }
    }

    fn from_cose_number(number: i128) -> (r: Option<Self>) {
        if let Some(a) = BA::from_cose_number(number) {
            return Some(AeadAlgorithm::Direct(a));
        }
        if number == 10 {
            Some(AeadAlgorithm::AesCcm16_64_128)
        } else if number == 11 {
            Some(AeadAlgorithm::AesCcm16_64_256)
        } else {
            None
        }
    }
}

pub enum AeadKey<BK> {
    AesCcm16_64_128([u8; 16]),
    AesCcm16_64_256([u8; 32]),
    Direct(BK),
}

/// The AES-CCM counter-mode keystream of a key and nonce, `len` bytes long (empty for keys of
/// the base provider).
pub open spec fn ccm_keystream<BK>(key: AeadKey<BK>, nonce: Seq<u8>, len: nat) -> Seq<u8> {
    match key {
        AeadKey::AesCcm16_64_128(k) => aes_ccm_16_64_128_keystream(k@, nonce, len),
        AeadKey::AesCcm16_64_256(k) => aes_ccm_16_64_256_keystream(k@, nonce, len),
        AeadKey::Direct(_) => Seq::empty(),
    }
}

/// `data` XORed with the AES-CCM keystream of key and nonce: the ciphertext of a plaintext, and
/// the plaintext of a ciphertext.
pub open spec fn ccm_apply_keystream<BK>(key: AeadKey<BK>, nonce: Seq<u8>, data: Seq<u8>) -> Seq<
    u8,
> {
    xor_bytes(data, ccm_keystream(key, nonce, data.len()))
}

/// AES-CCM is a stream cipher under its tag: with one key and nonce, two messages of the same
/// length encrypt to ciphertexts whose XOR is the XOR of the messages, whatever the associated
/// data; equal messages give equal ciphertexts.
pub proof fn law_ccm_keystream<BK>(key: AeadKey<BK>, nonce: Seq<u8>, m1: Seq<u8>, m2: Seq<u8>)
    requires
        !(key is Direct),
        m1.len() == m2.len(),
    ensures
        forall|i: int|
            0 <= i < m1.len() ==> #[trigger] ccm_apply_keystream(key, nonce, m1)[i]
                ^ ccm_apply_keystream(key, nonce, m2)[i] == m1[i] ^ m2[i],
        m1 == m2 ==> ccm_apply_keystream(key, nonce, m1) == ccm_apply_keystream(key, nonce, m2),
{
    let ks = ccm_keystream(key, nonce, m1.len());
    assert forall|i: int| 0 <= i < m1.len() implies #[trigger] ccm_apply_keystream(
        key,
        nonce,
        m1,
    )[i] ^ ccm_apply_keystream(key, nonce, m2)[i] == m1[i] ^ m2[i] by {
        let a = m1[i];
        let b = m2[i];
        let k = ks[i];
        assert((a ^ k) ^ (b ^ k) == a ^ b) by (bit_vector);
    }
}

/// The COSE numbers of the AES-CCM algorithms (registry: 10 is AES-CCM-16-64-128, 11 is
/// AES-CCM-16-64-256): a number the base provider does not know gives one of them exactly when
/// it is 10 or 11, and nothing otherwise; a number the base knows gives the base's algorithm.
pub proof fn law_ccm_cose_numbers<BA: crate::cal::AeadAlgorithm>(number: int)
    ensures
        <AeadAlgorithm<BA> as crate::cal::AeadAlgorithm>::spec_from_cose_number(number) == Some(
            AeadAlgorithm::<BA>::AesCcm16_64_128,
        ) ==> number == 10,
        <AeadAlgorithm<BA> as crate::cal::AeadAlgorithm>::spec_from_cose_number(number) == Some(
            AeadAlgorithm::<BA>::AesCcm16_64_256,
        ) ==> number == 11,
        BA::spec_from_cose_number(number) is None ==> (<AeadAlgorithm<
            BA,
        > as crate::cal::AeadAlgorithm>::spec_from_cose_number(number) is Some <==> (number == 10
            || number == 11)),
        BA::spec_from_cose_number(number) matches Some(a) ==> <AeadAlgorithm<
            BA,
        > as crate::cal::AeadAlgorithm>::spec_from_cose_number(number) == Some(
            AeadAlgorithm::<BA>::Direct(a),
        ),
{
}

/// The AES-CCM keys seal and open with exactly the caller's key bytes, nonce and associated
/// data, as the `ccm` crate's AES-CCM-16-64-128 and AES-CCM-16-64-256 do.
pub proof fn law_ccm_seal_is_aes_ccm<Base: Cal>(
    k128: [u8; 16],
    k256: [u8; 32],
    nonce: Seq<u8>,
    aad: Seq<u8>,
    plaintext: Seq<u8>,
    ciphertext: Seq<u8>,
    tag: Seq<u8>,
)
    ensures
        <RustcryptoCalExtender<Base> as AeadProvider>::spec_seal(
            AeadKey::AesCcm16_64_128(k128),
            nonce,
            aad,
            plaintext,
        ) == aes_ccm_16_64_128_seal(k128@, nonce, aad, plaintext),
        <RustcryptoCalExtender<Base> as AeadProvider>::spec_seal(
            AeadKey::AesCcm16_64_256(k256),
            nonce,
            aad,
            plaintext,
        ) == aes_ccm_16_64_256_seal(k256@, nonce, aad, plaintext),
        <RustcryptoCalExtender<Base> as AeadProvider>::spec_open(
            AeadKey::AesCcm16_64_128(k128),
            nonce,
            aad,
            ciphertext,
            tag,
        ) == aes_ccm_16_64_128_open(k128@, nonce, aad, ciphertext, tag),
        <RustcryptoCalExtender<Base> as AeadProvider>::spec_open(
            AeadKey::AesCcm16_64_256(k256),
            nonce,
            aad,
            ciphertext,
            tag,
        ) == aes_ccm_16_64_256_open(k256@, nonce, aad, ciphertext, tag),
{
}

pub enum AeadTag<BT> {
    AesCcm16_64_128([u8; 8]),
    AesCcm16_64_256([u8; 8]),
    Direct(BT),
}

impl<BT: AsByteSlice> AsByteSlice for AeadTag<BT> {
    open spec fn bytes(&self) -> Seq<u8> {
        match self {
            AeadTag::AesCcm16_64_128(t) => t@,
            AeadTag::AesCcm16_64_256(t) => t@,
            AeadTag::Direct(t) => t.bytes(),
        }
    }

    fn as_ref(&self) -> (r: &[u8]) {
        match self {
            AeadTag::AesCcm16_64_128(t) => t.as_slice(),
            AeadTag::AesCcm16_64_256(t) => t.as_slice(),
            AeadTag::Direct(t) => t.as_ref(),
        }
    }
}

impl<Base: Cal> AeadProvider for RustcryptoCalExtender<Base> {
    type Algorithm = AeadAlgorithm<<Base::AeadProvider as AeadProvider>::Algorithm>;

    type Key = AeadKey<<Base::AeadProvider as AeadProvider>::Key>;

    type Tag = AeadTag<<Base::AeadProvider as AeadProvider>::Tag>;

    open spec fn key_algorithm(key: Self::Key) -> Self::Algorithm {
        match key {
            AeadKey::AesCcm16_64_128(_) => AeadAlgorithm::AesCcm16_64_128,
            AeadKey::AesCcm16_64_256(_) => AeadAlgorithm::AesCcm16_64_256,
            AeadKey::Direct(k) => AeadAlgorithm::Direct(
                <Base::AeadProvider as AeadProvider>::key_algorithm(k),
            ),
        }
    }

    open spec fn key_bytes(key: Self::Key) -> Seq<u8> {
        match key {
            AeadKey::AesCcm16_64_128(k) => k@,
            AeadKey::AesCcm16_64_256(k) => k@,
            AeadKey::Direct(k) => <Base::AeadProvider as AeadProvider>::key_bytes(k),
        }
    }

    open spec fn accepts(key: Self::Key, msg_len: nat, aad_len: nat) -> bool {
        match key {
            AeadKey::Direct(k) => <Base::AeadProvider as AeadProvider>::accepts(
                k,
                msg_len,
                aad_len,
            ),
            _ => msg_len <= CCM_MAX_MESSAGE_LEN,
        }
    }

    open spec fn spec_seal(key: Self::Key, nonce: Seq<u8>, aad: Seq<u8>, plaintext: Seq<u8>) -> Seq<
        u8,
    > {
        match key {
            AeadKey::AesCcm16_64_128(k) => aes_ccm_16_64_128_seal(k@, nonce, aad, plaintext),
            AeadKey::AesCcm16_64_256(k) => aes_ccm_16_64_256_seal(k@, nonce, aad, plaintext),
            AeadKey::Direct(k) => <Base::AeadProvider as AeadProvider>::spec_seal(
                k,
                nonce,
                aad,
                plaintext,
            ),
        }
    }

    open spec fn spec_open(
        key: Self::Key,
        nonce: Seq<u8>,
        aad: Seq<u8>,
        ciphertext: Seq<u8>,
        tag: Seq<u8>,
    ) -> Option<Seq<u8>> {
        match key {
            AeadKey::AesCcm16_64_128(k) => aes_ccm_16_64_128_open(k@, nonce, aad, ciphertext, tag),
            AeadKey::AesCcm16_64_256(k) => aes_ccm_16_64_256_open(k@, nonce, aad, ciphertext, tag),
            AeadKey::Direct(k) => <Base::AeadProvider as AeadProvider>::spec_open(
                k,
                nonce,
                aad,
                ciphertext,
                tag,
            ),
        }
    }

    fn load_from_keydata(&mut self, algorithm: Self::Algorithm, key: &[u8]) -> (k: Self::Key)
        ensures
            !(algorithm is Direct) ==> *final(self) == *old(self),
    {
        match algorithm {
            AeadAlgorithm::AesCcm16_64_128 => {
                let mut bytes = [0u8; 16];
                copy_bytes(&mut bytes, key);
                AeadKey::AesCcm16_64_128(bytes)
            },
            AeadAlgorithm::AesCcm16_64_256 => {
                let mut bytes = [0u8; 32];
                copy_bytes(&mut bytes, key);
                AeadKey::AesCcm16_64_256(bytes)
            },
            AeadAlgorithm::Direct(a) => AeadKey::Direct(self.base.aead().load_from_keydata(a, key)),
        }
    }

    fn encrypt_in_place(
        &mut self,
        key: &Self::Key,
        nonce: &[u8],
        message: &mut [u8],
        aad: &[u8],
    ) -> (tag: Self::Tag)
        ensures
            key is AesCcm16_64_128 ==> tag is AesCcm16_64_128,
            key is AesCcm16_64_256 ==> tag is AesCcm16_64_256,
            key is Direct ==> tag is Direct,
            !(key is Direct) ==> *final(self) == *old(self),
            !(key is Direct) ==> final(message)@ == ccm_apply_keystream(
                *key,
                nonce@,
                old(message)@,
            ),
    {
        match key {
            AeadKey::Direct(k) => AeadTag::Direct(
                self.base.aead().encrypt_in_place(k, nonce, message, aad),
            ),
            AeadKey::AesCcm16_64_128(k) => {
                let r = aes_ccm_16_64_128_encrypt(k, nonce, aad, message);
                AeadTag::AesCcm16_64_128(r.unwrap())
            },
            AeadKey::AesCcm16_64_256(k) => {
                let r = aes_ccm_16_64_256_encrypt(k, nonce, aad, message);
                AeadTag::AesCcm16_64_256(r.unwrap())
            },
        }
    }

    fn decrypt_in_place(
        &mut self,
        key: &Self::Key,
        nonce: &[u8],
        message: &mut [u8],
        tag: &[u8],
        aad: &[u8],
    ) -> (r: Result<(), DecryptionFailed>)
        ensures
            !(key is Direct) && old(message)@.len() > CCM_MAX_MESSAGE_LEN ==> r
                == Err::<(), DecryptionFailed>(DecryptionFailed),
            !(key is Direct) ==> *final(self) == *old(self),
            !(key is Direct) && (r is Ok || old(message)@.len() > CCM_MAX_MESSAGE_LEN)
                ==> final(message)@ == ccm_apply_keystream(*key, nonce@, old(message)@),
            !(key is Direct) && r is Err && old(message)@.len() <= CCM_MAX_MESSAGE_LEN
                ==> final(message)@ == Seq::new(old(message)@.len(), |i: int| 0u8),
    {
        match key {
            AeadKey::Direct(k) => self.base.aead().decrypt_in_place(k, nonce, message, tag, aad),
            AeadKey::AesCcm16_64_128(k) => match aes_ccm_16_64_128_decrypt(
                k,
                nonce,
                aad,
                message,
                tag,
            ) {
                Ok(()) => Ok(()),
                Err(_) => Err(DecryptionFailed),
            },
            AeadKey::AesCcm16_64_256(k) => match aes_ccm_16_64_256_decrypt(
                k,
                nonce,
                aad,
                message,
                tag,
            ) {
                Ok(()) => Ok(()),
                Err(_) => Err(DecryptionFailed),
            },
        }
    }
}

} // verus!
