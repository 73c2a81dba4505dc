//! The interface traits: what a provider of each family of algorithms offers, and what it
//! promises about the bytes it produces.
use vstd::prelude::*;
use vstd::string::StringSliceAdditionalSpecFns;

verus! {

/// Key establishment was asked for with a secret and a public key of different algorithms.
#[derive(Debug, PartialEq, Eq)]
pub struct IncompatibleKeys;

/// Authenticated decryption found that the tag does not match the message.
#[derive(Debug, PartialEq, Eq)]
pub struct DecryptionFailed;

/// Byte data could not be imported (wrong length or not a valid encoding).
#[derive(Debug, PartialEq, Eq)]
pub struct ImportError;

/// A value that can be read as a byte slice (the outputs of hashes, MACs and AEAD tags).
pub trait AsByteSlice {
    spec fn bytes(&self) -> Seq<u8>;

    fn as_ref(&self) -> (r: &[u8])
        ensures
            r@ == self.bytes(),
    ;
}

/// A byte array reads as its own bytes.
impl<const N: usize> AsByteSlice for [u8; N] {
    open spec fn bytes(&self) -> Seq<u8> {
        self@
    }

    fn as_ref(&self) -> (r: &[u8]) {
        proof {
            broadcast use vstd::array::axiom_spec_array_as_slice;
        }
        self.as_slice()
    }
}

/// A hash algorithm identifier.
pub trait HashAlgorithm: Sized {
    spec fn spec_len(&self) -> nat;

    spec fn spec_from_cose_number(number: int) -> Option<Self>;

    spec fn spec_from_ni_id(number: u8) -> Option<Self>;

    spec fn spec_from_ni_name(name: Seq<u8>) -> Option<Self>;

    /// Output length in bytes.
    fn len(&self) -> (r: usize)
        ensures
            r == self.spec_len(),
    ;

    /// The algorithm with this number in the COSE algorithms registry, if supported.
    fn from_cose_number(number: i128) -> (r: Option<Self>)
        ensures
            r == Self::spec_from_cose_number(number as int),
    ;

    /// The algorithm with this ID in the Named Information Hash Algorithm registry, if supported.
    fn from_ni_id(number: u8) -> (r: Option<Self>)
        ensures
            r == Self::spec_from_ni_id(number),
    ;

    /// The algorithm with this name in the Named Information Hash Algorithm registry, if
    /// supported.
    fn from_ni_name(name: &str) -> (r: Option<Self>)
        ensures
            r == Self::spec_from_ni_name(name.spec_bytes()),
    ;
}

/// Incremental and one-shot hashing.
pub trait HashProvider {
    type Algorithm: HashAlgorithm;

    type State;

    type Output: AsByteSlice;

    /// The digest of `data` under `alg`.
    spec fn spec_digest(alg: Self::Algorithm, data: Seq<u8>) -> Seq<u8>;

    /// The algorithm a hashing state was started with.
    spec fn state_algorithm(state: Self::State) -> Self::Algorithm;

    /// All data fed into a hashing state so far.
    spec fn state_input(state: Self::State) -> Seq<u8>;

    fn init(&mut self, algorithm: Self::Algorithm) -> (state: Self::State)
        ensures
            Self::state_algorithm(state) == algorithm,
            Self::state_input(state) == Seq::<u8>::empty(),
    ;

    fn update(&mut self, state: &mut Self::State, data: &[u8])
        ensures
            Self::state_algorithm(*final(state)) == Self::state_algorithm(*old(state)),
            Self::state_input(*final(state)) == Self::state_input(*old(state)) + data@,
    ;

    fn finalize(&mut self, state: Self::State) -> (out: Self::Output)
        ensures
            out.bytes() == Self::spec_digest(
                Self::state_algorithm(state),
                Self::state_input(state),
            ),
            out.bytes().len() == Self::state_algorithm(state).spec_len(),
    ;

    fn hash(&mut self, algorithm: Self::Algorithm, data: &[u8]) -> (out: Self::Output)
        ensures
            out.bytes() == Self::spec_digest(algorithm, data@),
            out.bytes().len() == algorithm.spec_len(),
    ;
}

/// Hashing in pieces gives the digest of the whole: a state started with `alg` that took `a`
/// and then `b` finalizes to the one-shot digest of `a + b`.
pub proof fn law_hash_in_pieces<H: HashProvider>(
    alg: H::Algorithm,
    started: H::State,
    after_a: H::State,
    after_b: H::State,
    a: Seq<u8>,
    b: Seq<u8>,
)
    requires
        H::state_algorithm(started) == alg,
        H::state_input(started) == Seq::<u8>::empty(),
        H::state_algorithm(after_a) == H::state_algorithm(started),
        H::state_input(after_a) == H::state_input(started) + a,
        H::state_algorithm(after_b) == H::state_algorithm(after_a),
        H::state_input(after_b) == H::state_input(after_a) + b,
    ensures
        H::spec_digest(H::state_algorithm(after_b), H::state_input(after_b)) == H::spec_digest(
            alg,
            a + b,
        ),
{
    assert(H::state_input(after_b) =~= a + b);
}

/// An HMAC algorithm identifier.
pub trait HmacAlgorithm: Sized {
    spec fn spec_len(&self) -> nat;

    spec fn spec_from_cose_number(number: int) -> Option<Self>;

    /// Output length in bytes.
    fn len(&self) -> (r: usize)
        ensures
            r == self.spec_len(),
    ;

    /// The algorithm with this number in the COSE algorithms registry, if supported.
    fn from_cose_number(number: i128) -> (r: Option<Self>)
        ensures
            r == Self::spec_from_cose_number(number as int),
    ;
}

/// Keyed message authentication (HMAC).
pub trait HmacProvider {
    type Algorithm: HmacAlgorithm;

    type Key;

    type State;

    type Output: AsByteSlice;

    /// The MAC of `data` under `key` with `alg`.
    spec fn spec_hmac(alg: Self::Algorithm, key: Seq<u8>, data: Seq<u8>) -> Seq<u8>;

    spec fn key_algorithm(key: Self::Key) -> Self::Algorithm;

    spec fn key_bytes(key: Self::Key) -> Seq<u8>;

    spec fn state_algorithm(state: Self::State) -> Self::Algorithm;

    spec fn state_key(state: Self::State) -> Seq<u8>;

    spec fn state_input(state: Self::State) -> Seq<u8>;

    fn load_from_keydata(&mut self, algorithm: Self::Algorithm, key: &[u8]) -> (k: Self::Key)
        ensures
            Self::key_algorithm(k) == algorithm,
            Self::key_bytes(k) == key@,
    ;

    fn init(&mut self, key: Self::Key) -> (state: Self::State)
        ensures
            Self::state_algorithm(state) == Self::key_algorithm(key),
            Self::state_key(state) == Self::key_bytes(key),
            Self::state_input(state) == Seq::<u8>::empty(),
    ;

    fn update(&mut self, state: &mut Self::State, data: &[u8])
        ensures
            Self::state_algorithm(*final(state)) == Self::state_algorithm(*old(state)),
            Self::state_key(*final(state)) == Self::state_key(*old(state)),
            Self::state_input(*final(state)) == Self::state_input(*old(state)) + data@,
    ;

    fn finalize(&mut self, state: Self::State) -> (out: Self::Output)
        ensures
            out.bytes() == Self::spec_hmac(
                Self::state_algorithm(state),
                Self::state_key(state),
                Self::state_input(state),
            ),
            out.bytes().len() == Self::state_algorithm(state).spec_len(),
    ;

    /// Loads a key and starts a MAC computation with it.
    fn init_with_keydata(&mut self, algorithm: Self::Algorithm, key: &[u8]) -> (state:
        Self::State)
        ensures
            Self::state_algorithm(state) == algorithm,
            Self::state_key(state) == key@,
            Self::state_input(state) == Seq::<u8>::empty(),
    {
        let k = self.load_from_keydata(algorithm, key);
        self.init(k)
    }

    /// Computes the MAC of `data` under the key given as bytes.
    fn hmac_with_keydata(&mut self, algorithm: Self::Algorithm, key: &[u8], data: &[u8]) -> (out:
        Self::Output)
        ensures
            out.bytes() == Self::spec_hmac(algorithm, key@, data@),
            out.bytes().len() == algorithm.spec_len(),
    {
        let mut state = self.init_with_keydata(algorithm, key);
        self.update(&mut state, data);
        proof {
            assert(Seq::<u8>::empty() + data@ =~= data@);
        }
        self.finalize(state)
    }
}

/// An AEAD algorithm identifier.
pub trait AeadAlgorithm: Sized {
    spec fn spec_key_length(&self) -> nat;

    spec fn spec_tag_length(&self) -> nat;

    spec fn spec_nonce_length(&self) -> nat;

    spec fn spec_from_cose_number(number: int) -> Option<Self>;

    /// Key length in bytes.
    fn key_length(&self) -> (r: usize)
        ensures
            r == self.spec_key_length(),
    ;

    /// Tag length in bytes.
    fn tag_length(&self) -> (r: usize)
        ensures
            r == self.spec_tag_length(),
    ;

    /// Nonce length in bytes.
    fn nonce_length(&self) -> (r: usize)
        ensures
            r == self.spec_nonce_length(),
    ;

    /// The algorithm with this number in the COSE algorithms registry, if supported.
    fn from_cose_number(number: i128) -> (r: Option<Self>)
        ensures
            r == Self::spec_from_cose_number(number as int),
    ;
}

/// Authenticated encryption with associated data, in place, with a detached tag.
pub trait AeadProvider {
    type Algorithm: AeadAlgorithm;

    type Key;

    type Tag: AsByteSlice;

    spec fn key_algorithm(key: Self::Key) -> Self::Algorithm;

    /// The key material a key was loaded from.
    spec fn key_bytes(key: Self::Key) -> Seq<u8>;

    /// Whether encryption under `key` handles a message of `msg_len` bytes with `aad_len` bytes
    /// of associated data.
    spec fn accepts(key: Self::Key, msg_len: nat, aad_len: nat) -> bool;

    /// Ciphertext followed by tag.
    spec fn spec_seal(key: Self::Key, nonce: Seq<u8>, aad: Seq<u8>, plaintext: Seq<u8>) -> Seq<
        u8,
    >;

    /// The plaintext, if the tag is authentic.
    spec fn spec_open(
        key: Self::Key,
        nonce: Seq<u8>,
        aad: Seq<u8>,
        ciphertext: Seq<u8>,
        tag: Seq<u8>,
    ) -> Option<Seq<u8>>;

    fn load_from_keydata(&mut self, algorithm: Self::Algorithm, key: &[u8]) -> (k: Self::Key)
        requires
            key@.len() == algorithm.spec_key_length(),
        ensures
            Self::key_algorithm(k) == algorithm,
            Self::key_bytes(k) == key@,
    ;

    fn encrypt_in_place(
        &mut self,
        key: &Self::Key,
        nonce: &[u8],
        message: &mut [u8],
        aad: &[u8],
    ) -> (tag: Self::Tag)
        requires
            nonce@.len() == Self::key_algorithm(*key).spec_nonce_length(),
            Self::accepts(*key, old(message)@.len(), aad@.len()),
        ensures
            final(message)@ + tag.bytes() == Self::spec_seal(*key, nonce@, aad@, old(message)@),
            final(message)@.len() == old(message)@.len(),
            tag.bytes().len() == Self::key_algorithm(*key).spec_tag_length(),
    ;

    /// Decrypts and checks the tag; a message sealed under the same key, nonce and associated
    /// data is always given back.
    fn decrypt_in_place(
        &mut self,
        key: &Self::Key,
        nonce: &[u8],
        message: &mut [u8],
        tag: &[u8],
        aad: &[u8],
    ) -> (r: Result<(), DecryptionFailed>)
        requires
            nonce@.len() == Self::key_algorithm(*key).spec_nonce_length(),
            tag@.len() == Self::key_algorithm(*key).spec_tag_length(),
        ensures
            final(message)@.len() == old(message)@.len(),
            r is Ok <==> Self::spec_open(*key, nonce@, aad@, old(message)@, tag@) is Some,
            r is Ok ==> Self::spec_seal(*key, nonce@, aad@, final(message)@) == old(message)@
                + tag@,
            r is Ok ==> final(message)@ == Self::spec_open(
                *key,
                nonce@,
                aad@,
                old(message)@,
                tag@,
            ).unwrap(),
            forall|p: Seq<u8>|
                Self::accepts(*key, p.len(), aad@.len()) && #[trigger] Self::spec_seal(
                    *key,
                    nonce@,
                    aad@,
                    p,
                ) == old(message)@ + tag@ ==> r is Ok && final(message)@ == p,
    ;
}

/// A key agreement algorithm identifier.
pub trait DhAlgorithm: Sized {
    spec fn spec_output_length(&self) -> nat;

    /// Length of the shared secret in bytes.
    fn output_length(&self) -> (r: usize)
        ensures
            r == self.spec_output_length(),
    ;
}

/// Diffie-Hellman style key agreement.
pub trait DhProvider {
    type Algorithm: DhAlgorithm;

    type VisibleSecretKey;

    type SecretKey;

    type PublicKey;

    type SharedSecret;

    spec fn visible_algorithm(key: Self::VisibleSecretKey) -> Self::Algorithm;

    spec fn secret_algorithm(key: Self::SecretKey) -> Self::Algorithm;

    spec fn public_algorithm(key: Self::PublicKey) -> Self::Algorithm;

    /// The secret key is one that the algorithm can use.
    spec fn secret_valid(key: Self::SecretKey) -> bool;

    /// The secret key a visible one turns into.
    spec fn spec_secret_of(key: Self::VisibleSecretKey) -> Self::SecretKey;

    /// `public` is the public key that belongs to `secret`.
    spec fn is_public_key_of(public: Self::PublicKey, secret: Self::SecretKey) -> bool;

    /// The shared secret of a secret key and a public key, or `None` where they do not agree
    /// (different algorithms, or a key the algorithm cannot use).
    spec fn spec_shared(secret: Self::SecretKey, public: Self::PublicKey) -> Option<Seq<u8>>;

    spec fn shared_bytes(secret: Self::SharedSecret) -> Seq<u8>;

    /// The secret key that importing `bytes` as a key of `alg` gives, if they encode one.
    spec fn spec_import_secret(alg: Self::Algorithm, bytes: Seq<u8>) -> Option<
        Self::VisibleSecretKey,
    >;

    /// The public key that importing `bytes` as a key of `alg` gives, if they encode one.
    spec fn spec_import_public(alg: Self::Algorithm, bytes: Seq<u8>) -> Option<Self::PublicKey>;

    /// The public key that [`Self::public_key()`] gives for a valid secret key.
    spec fn spec_public_key(secret: Self::SecretKey) -> Self::PublicKey;

    /// The shared secret that [`Self::shared_secret()`] gives for keys that agree.
    spec fn spec_shared_secret(secret: Self::SecretKey, public: Self::PublicKey) -> Self::SharedSecret;

    /// Loads a secret key from its byte encoding.
    fn import_secretkey_bytes(&mut self, algorithm: Self::Algorithm, bytes: &[u8]) -> (r: Result<
        Self::VisibleSecretKey,
        ImportError,
    >)
        ensures
            r is Ok <==> Self::spec_import_secret(algorithm, bytes@) is Some,
            r matches Ok(k) ==> Some(k) == Self::spec_import_secret(algorithm, bytes@)
                && Self::visible_algorithm(k) == algorithm && Self::secret_valid(
                Self::spec_secret_of(k),
            ),
    ;

    /// Loads a public key from its byte encoding.
    fn import_publickey_bytes(&mut self, algorithm: Self::Algorithm, bytes: &[u8]) -> (r: Result<
        Self::PublicKey,
        ImportError,
    >)
        ensures
            r is Ok <==> Self::spec_import_public(algorithm, bytes@) is Some,
            r matches Ok(k) ==> Some(k) == Self::spec_import_public(algorithm, bytes@)
                && Self::public_algorithm(k) == algorithm,
    ;

    /// Generates a fresh secret key whose bytes the caller may see.
    fn generate_visible(&mut self, algorithm: Self::Algorithm) -> (r: Option<
        Self::VisibleSecretKey,
    >)
        ensures
            r matches Some(k) ==> Self::visible_algorithm(k) == algorithm && Self::secret_valid(
                Self::spec_secret_of(k),
            ),
    ;

    fn secret_of(&mut self, key: Self::VisibleSecretKey) -> (r: Self::SecretKey)
        ensures
            r == Self::spec_secret_of(key),
            Self::secret_algorithm(r) == Self::visible_algorithm(key),
    ;

    /// Agrees on a shared secret; both sides of an exchange arrive at the same bytes.
    fn shared_secret(&mut self, private: &Self::SecretKey, public: &Self::PublicKey) -> (r: Result<
        Self::SharedSecret,
        IncompatibleKeys,
    >)
        ensures
            r is Err <==> Self::spec_shared(*private, *public) is None,
            Self::secret_algorithm(*private) != Self::public_algorithm(*public) ==> r is Err,
            r matches Ok(s) ==> Some(Self::shared_bytes(s)) == Self::spec_shared(
                *private,
                *public,
            ) && s == Self::spec_shared_secret(*private, *public),
            r matches Ok(s) ==> Self::shared_bytes(s).len() == Self::secret_algorithm(
                *private,
            ).spec_output_length(),
            forall|other: Self::SecretKey, mine: Self::PublicKey|
                #![trigger Self::is_public_key_of(*public, other), Self::is_public_key_of(mine, *private)]
                Self::is_public_key_of(*public, other) && Self::is_public_key_of(mine, *private)
                    ==> Self::spec_shared(other, mine) == Self::spec_shared(*private, *public),
    ;

    fn public_key(&mut self, private: &Self::SecretKey) -> (r: Self::PublicKey)
        requires
            Self::secret_valid(*private),
        ensures
            r == Self::spec_public_key(*private),
            Self::is_public_key_of(r, *private),
            Self::public_algorithm(r) == Self::secret_algorithm(*private),
    ;

    fn raw_secret_bytes<'a>(&mut self, secret: &'a Self::SharedSecret) -> (r: &'a [u8])
        ensures
            r@ == Self::shared_bytes(*secret),
    ;
}

/// Key agreement back-ends on short Weierstrass curves that can hand out both coordinates of
/// public keys and shared points.
pub trait EcWeierstrassFullPoint: DhProvider {
    /// The x and y coordinates of a public key's point.
    spec fn public_xy(key: Self::PublicKey) -> (Seq<u8>, Seq<u8>);

    /// The x and y coordinates of a shared secret's point.
    spec fn shared_xy(secret: Self::SharedSecret) -> (Seq<u8>, Seq<u8>);

    fn public_key_xy(&mut self, key: &Self::PublicKey) -> (r: ([u8; 32], [u8; 32]))
        ensures
            (r.0@, r.1@) == Self::public_xy(*key),
    ;

    fn shared_secret_xy(&mut self, secret: &Self::SharedSecret) -> (r: ([u8; 32], [u8; 32]))
        ensures
            (r.0@, r.1@) == Self::shared_xy(*secret),
    ;
}

/// Cryptographic abstraction provider that encompasses all features abstracted by the
/// embedded-cal.
///
/// To ease implementation and give better access to its aspects, this does not have a list of
/// supertraits, but rather various associated types and acccessors to them.
pub trait Cal: Sized {
    /// The non-supertrait responsible for key establishment.
    type DhProvider: DhProvider;

    type AeadProvider: AeadProvider;

    type HashProvider: HashProvider;

    type HmacProvider: HmacProvider;

    /// The part of this value that provides key agreement.
    spec fn dh_part(&self) -> Self::DhProvider;

    /// This value with its key agreement part replaced by `part`.
    spec fn with_dh_part(&self, part: Self::DhProvider) -> Self;

    /// The part of this value that provides AEAD.
    spec fn aead_part(&self) -> Self::AeadProvider;

    /// This value with its AEAD part replaced by `part`.
    spec fn with_aead_part(&self, part: Self::AeadProvider) -> Self;

    /// The part of this value that provides hashing.
    spec fn hash_part(&self) -> Self::HashProvider;

    /// This value with its hashing part replaced by `part`.
    spec fn with_hash_part(&self, part: Self::HashProvider) -> Self;

    /// The part of this value that provides HMAC.
    spec fn hmac_part(&self) -> Self::HmacProvider;

    /// This value with its HMAC part replaced by `part`.
    spec fn with_hmac_part(&self, part: Self::HmacProvider) -> Self;

    /// Lends out the key agreement part; changes made through it are changes to that part.
    fn dh(&mut self) -> (r: &mut Self::DhProvider)
        ensures
            *r == old(self).dh_part(),
            *final(self) == old(self).with_dh_part(*final(r)),
    ;

    /// Lends out the AEAD part; changes made through it are changes to that part.
    fn aead(&mut self) -> (r: &mut Self::AeadProvider)
        ensures
            *r == old(self).aead_part(),
            *final(self) == old(self).with_aead_part(*final(r)),
    ;

    /// Lends out the hashing part; changes made through it are changes to that part.
    fn hash(&mut self) -> (r: &mut Self::HashProvider)
        ensures
            *r == old(self).hash_part(),
            *final(self) == old(self).with_hash_part(*final(r)),
    ;

    /// Lends out the HMAC part; changes made through it are changes to that part.
    fn hmac(&mut self) -> (r: &mut Self::HmacProvider)
        ensures
            *r == old(self).hmac_part(),
            *final(self) == old(self).with_hmac_part(*final(r)),
    ;
}

} // verus!
