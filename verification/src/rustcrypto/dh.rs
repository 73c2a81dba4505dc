//! P-256 and X25519 key agreement.
use vstd::prelude::*;

use crate::cal::{Cal, DhProvider, ImportError, IncompatibleKeys};
use crate::rustcrypto::copy_bytes;
use crate::empty::EmptyCal;
use crate::rustcrypto::backend::{
    bounded_as_slice, bounded_bytes, bounded_from_slice, bounded_of, p256_decode_public,
    p256_diffie_hellman, p256_generate, p256_point_valid, p256_public, p256_public_key,
    p256_shared, x25519_diffie_hellman, x25519_generate, x25519_public, x25519_public_key,
    x25519_shared,
};

verus! {

/// Software key agreement over P-256 and X25519; fresh keys come from the operating system's
/// random number generator. It provides no other algorithms.
pub struct RustcryptoCal {
    empty: EmptyCal,
}

impl RustcryptoCal {
    pub fn new() -> (r: Self) {
        RustcryptoCal { empty: EmptyCal }
    }
}

impl Cal for RustcryptoCal {
    type DhProvider = Self;

    type AeadProvider = EmptyCal;

    type HashProvider = EmptyCal;

    type HmacProvider = EmptyCal;

    open spec fn dh_part(&self) -> Self {
        *self
    }

    open spec fn with_dh_part(&self, part: Self) -> Self {
        part
    }

    closed spec fn aead_part(&self) -> EmptyCal {
        self.empty
    }

    closed spec fn with_aead_part(&self, part: EmptyCal) -> Self {
        RustcryptoCal { empty: part }
    }

    closed spec fn hash_part(&self) -> EmptyCal {
        self.empty
    }

    closed spec fn with_hash_part(&self, part: EmptyCal) -> Self {
        RustcryptoCal { empty: part }
    }

    closed spec fn hmac_part(&self) -> EmptyCal {
        self.empty
    }

    closed spec fn with_hmac_part(&self, part: EmptyCal) -> Self {
        RustcryptoCal { empty: part }
    }

    fn dh(&mut self) -> (r: &mut Self) {
        self
    }

    fn aead(&mut self) -> (r: &mut EmptyCal) {
        &mut self.empty
    }

    fn hash(&mut self) -> (r: &mut EmptyCal) {
        &mut self.empty
    }

    fn hmac(&mut self) -> (r: &mut EmptyCal) {
        &mut self.empty
    }
}

#[derive(PartialEq, Eq, Debug, Clone)]
pub enum DhAlgorithm {
    P256,
    X25519,
}

impl crate::cal::DhAlgorithm for DhAlgorithm {
    open spec fn spec_output_length(&self) -> nat {
        32
    }

    fn output_length(&self) -> (r: usize) {
        match self {
            DhAlgorithm::P256 => 32,
            DhAlgorithm::X25519 => 32,
        }
    }
}

/// Length of the longest shared secret of any supported algorithm.
pub const MAX_SHARED_SECRET_LENGTH: usize = 32;

/// The array of 32 bytes whose contents are `s`.
spec fn array32(s: Seq<u8>) -> [u8; 32] {
    choose|a: [u8; 32]| a@ == s
}

/// The array of 65 bytes whose contents are `s`.
spec fn array65(s: Seq<u8>) -> [u8; 65] {
    choose|a: [u8; 65]| a@ == s
}

proof fn lemma_array32(a: [u8; 32])
    ensures
        array32(a@) == a,
{
    broadcast use vstd::array::group_array_axioms;

    let b = array32(a@);
    assert(b@ == a@);
    assert(b =~= a);
}

proof fn lemma_array65(a: [u8; 65])
    ensures
        array65(a@) == a,
{
    broadcast use vstd::array::group_array_axioms;

    let b = array65(a@);
    assert(b@ == a@);
    assert(b =~= a);
}

/// A P-256 secret scalar in big-endian bytes; always a valid (nonzero, reduced) scalar.
pub struct P256Scalar([u8; 32]);

impl P256Scalar {
    #[verifier::type_invariant]
    spec fn valid(self) -> bool {
        p256_public(self.0@) is Some
    }

    pub closed spec fn bytes(self) -> Seq<u8> {
        self.0@
    }
}

/// A P-256 public point in uncompressed SEC1 encoding; always a point on the curve.
pub struct P256Point([u8; 65]);

impl P256Point {
    #[verifier::type_invariant]
    spec fn valid(self) -> bool {
        p256_point_valid(self.0@)
    }

    pub closed spec fn bytes(self) -> Seq<u8> {
        self.0@
    }

    /// The uncompressed SEC1 encoding of the point.
    pub fn to_sec1_bytes(&self) -> (r: [u8; 65])
        ensures
            r@ == self.bytes(),
    {
        self.0
    }
}

/// A secret key whose bytes the caller may see.
pub struct VisibleSecretKey(SecretKey);

impl VisibleSecretKey {
    pub closed spec fn key(self) -> SecretKey {
        self.0
    }
}

/// A secret key: a P-256 scalar, or the X25519 secret bytes.
pub enum SecretKey {
    P256(P256Scalar),
    X25519([u8; 32]),
}

/// A public key: a P-256 point, or the X25519 u-coordinate.
pub enum PublicKey {
    P256(P256Point),
    X25519([u8; 32]),
}

/// The bytes two parties agree on.
pub struct SharedSecret(heapless::Vec<u8, MAX_SHARED_SECRET_LENGTH>);

impl SharedSecret {
    pub closed spec fn bytes(self) -> Seq<u8> {
        bounded_bytes(self.0)
    }

    pub closed spec fn spec_from_bytes(bytes: Seq<u8>) -> SharedSecret {
        SharedSecret(bounded_of(bytes))
    }

    /// Holds the given bytes.
    fn from_bytes(bytes: &[u8; 32]) -> (r: SharedSecret)
        ensures
            r.bytes() == bytes@,
            r == SharedSecret::spec_from_bytes(bytes@),
    {
        let v = bounded_from_slice(bytes.as_slice());
        SharedSecret(v.unwrap())
    }
}

impl From<VisibleSecretKey> for SecretKey {
    fn from(value: VisibleSecretKey) -> (r: SecretKey) {
        value.0
    }
}

impl vstd::std_specs::convert::FromSpecImpl<VisibleSecretKey> for SecretKey {
    open spec fn obeys_from_spec() -> bool {
        true
    }

    open spec fn from_spec(v: VisibleSecretKey) -> SecretKey {
        v.key()
    }
}

impl DhProvider for RustcryptoCal {
    type Algorithm = DhAlgorithm;

    type VisibleSecretKey = VisibleSecretKey;

    type SecretKey = SecretKey;

    type PublicKey = PublicKey;

    type SharedSecret = SharedSecret;

    open spec fn visible_algorithm(key: VisibleSecretKey) -> DhAlgorithm {
        Self::secret_algorithm(key.key())
    }

    open spec fn secret_algorithm(key: SecretKey) -> DhAlgorithm {
        match key {
            SecretKey::P256(_) => DhAlgorithm::P256,
            SecretKey::X25519(_) => DhAlgorithm::X25519,
        }
    }

    open spec fn public_algorithm(key: PublicKey) -> DhAlgorithm {
        match key {
            PublicKey::P256(_) => DhAlgorithm::P256,
            PublicKey::X25519(_) => DhAlgorithm::X25519,
        }
    }

    open spec fn secret_valid(key: SecretKey) -> bool {
        match key {
            SecretKey::P256(s) => p256_public(s.bytes()) is Some,
            SecretKey::X25519(_) => true,
        }
    }

    open spec fn spec_secret_of(key: VisibleSecretKey) -> SecretKey {
        key.key()
    }

    open spec fn is_public_key_of(public: PublicKey, secret: SecretKey) -> bool {
        match (public, secret) {
            (PublicKey::P256(p), SecretKey::P256(s)) => p256_public(s.bytes()) == Some(p.bytes()),
            (PublicKey::X25519(p), SecretKey::X25519(s)) => p@ == x25519_public(s@),
            _ => false,
        }
    }

    open spec fn spec_shared(secret: SecretKey, public: PublicKey) -> Option<Seq<u8>> {
        match (secret, public) {
            (SecretKey::P256(s), PublicKey::P256(p)) => p256_shared(s.bytes(), p.bytes()),
            (SecretKey::X25519(s), PublicKey::X25519(p)) => Some(x25519_shared(s@, p@)),
            _ => None,
        }
    }

    open spec fn shared_bytes(secret: SharedSecret) -> Seq<u8> {
        secret.bytes()
    }

    /// 32 bytes; for P-256 they must be a valid scalar.
    closed spec fn spec_import_secret(alg: DhAlgorithm, bytes: Seq<u8>) -> Option<
        VisibleSecretKey,
    > {
        if bytes.len() != 32 {
            None
        } else {
            match alg {
                DhAlgorithm::P256 => if p256_public(bytes) is Some {
                    Some(VisibleSecretKey(SecretKey::P256(P256Scalar(array32(bytes)))))
                } else {
                    None
                },
                DhAlgorithm::X25519 => Some(VisibleSecretKey(SecretKey::X25519(array32(bytes)))),
            }
        }
    }

    /// 65 bytes encoding a point on the curve for P-256, 32 bytes for X25519.
    closed spec fn spec_import_public(alg: DhAlgorithm, bytes: Seq<u8>) -> Option<PublicKey> {
        match alg {
            DhAlgorithm::P256 => if bytes.len() == 65 && p256_point_valid(bytes) {
                Some(PublicKey::P256(P256Point(array65(bytes))))
            } else {
                None
            },
            DhAlgorithm::X25519 => if bytes.len() == 32 {
                Some(PublicKey::X25519(array32(bytes)))
            } else {
                None
            },
        }
    }

    closed spec fn spec_public_key(secret: SecretKey) -> PublicKey {
        match secret {
            SecretKey::P256(s) => PublicKey::P256(P256Point(array65(p256_public(s.bytes()).unwrap()))),
            SecretKey::X25519(s) => PublicKey::X25519(array32(x25519_public(s@))),
        }
    }

    closed spec fn spec_shared_secret(secret: SecretKey, public: PublicKey) -> SharedSecret {
        SharedSecret::spec_from_bytes(Self::spec_shared(secret, public).unwrap())
    }

    /// Takes the big-endian P-256 scalar (refusing bytes that are no valid secret key) or the
    /// X25519 secret bytes.
    fn import_secretkey_bytes(&mut self, algorithm: DhAlgorithm, bytes: &[u8]) -> (r: Result<
        VisibleSecretKey,
        ImportError,
    >) {
        if bytes.len() != 32 {
            return Err(ImportError);
        }
        let mut s = [0u8; 32];
        copy_bytes(&mut s, bytes);
        proof {
            lemma_array32(s);
        }
        match algorithm {
            DhAlgorithm::P256 => {
                if p256_public_key(&s).is_none() {
                    return Err(ImportError);
                }
                Ok(VisibleSecretKey(SecretKey::P256(P256Scalar(s))))
            },
            DhAlgorithm::X25519 => Ok(VisibleSecretKey(SecretKey::X25519(s))),
        }
    }

    /// Takes the uncompressed SEC1 encoding of a P-256 point (refusing bytes that are no point
    /// on the curve) or the X25519 u-coordinate.
    fn import_publickey_bytes(&mut self, algorithm: DhAlgorithm, bytes: &[u8]) -> (r: Result<
        PublicKey,
        ImportError,
    >) {
        match algorithm {
            DhAlgorithm::P256 => {
                if bytes.len() != 65 {
                    return Err(ImportError);
                }
                let mut p = [0u8; 65];
                copy_bytes(&mut p, bytes);
                proof {
                    lemma_array65(p);
                }
                if !p256_decode_public(&p) {
                    return Err(ImportError);
                }
                Ok(PublicKey::P256(P256Point(p)))
            },
            DhAlgorithm::X25519 => {
                if bytes.len() != 32 {
                    return Err(ImportError);
                }
                let mut p = [0u8; 32];
                copy_bytes(&mut p, bytes);
                proof {
                    lemma_array32(p);
                }
                Ok(PublicKey::X25519(p))
            },
        }
    }

    /// Always succeeds: fresh keys come from the operating system's generator.
    fn generate_visible(&mut self, algorithm: DhAlgorithm) -> (r: Option<VisibleSecretKey>)
        ensures
            r is Some,
    {
        Some(
            VisibleSecretKey(
                match algorithm {
                    DhAlgorithm::P256 => SecretKey::P256(P256Scalar(p256_generate())),
                    DhAlgorithm::X25519 => SecretKey::X25519(x25519_generate()),
                },
            ),
        )
    }

    fn secret_of(&mut self, key: VisibleSecretKey) -> (r: SecretKey) {
        SecretKey::from(key)
    }

    /// Fails only on keys of different curves.
    fn shared_secret(&mut self, private: &SecretKey, public: &PublicKey) -> (r: Result<
        SharedSecret,
        IncompatibleKeys,
    >)
        ensures
            r is Err <==> Self::secret_algorithm(*private) != Self::public_algorithm(*public),
    {
        match (private, public) {
            (SecretKey::P256(s), PublicKey::P256(p)) => {
                proof {
                    use_type_invariant(s);
                    use_type_invariant(p);
                }
                match p256_diffie_hellman(&s.0, &p.0) {
                    Some(bytes) => Ok(SharedSecret::from_bytes(&bytes)),
                    None => Err(IncompatibleKeys),
                }
            },
            (SecretKey::X25519(s), PublicKey::X25519(p)) => Ok(
                SharedSecret::from_bytes(&x25519_diffie_hellman(s, p)),
            ),
            _ => Err(IncompatibleKeys),
        }
    }

    fn public_key(&mut self, private: &SecretKey) -> (r: PublicKey) {
        match private {
            SecretKey::P256(s) => {
                proof {
                    use_type_invariant(s);
                }
                let p = p256_public_key(&s.0).unwrap();
                proof {
                    lemma_array65(p);
                }
                PublicKey::P256(P256Point(p))
            },
            SecretKey::X25519(s) => {
                let p = x25519_public_key(s);
                proof {
                    lemma_array32(p);
                }
                PublicKey::X25519(p)
            },
        }
    }

    fn raw_secret_bytes<'a>(&mut self, secret: &'a SharedSecret) -> (r: &'a [u8]) {
        bounded_as_slice(&secret.0)
    }
}

} // verus!
