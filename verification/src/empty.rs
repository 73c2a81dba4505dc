//! Implementations of the interface traits for the empty set of algorithms.
//!
//! The types are zero-sized or uninhabited as suits each type.
use vstd::prelude::*;
use vstd::string::StringSliceAdditionalSpecFns;

use crate::cal::{
    AeadAlgorithm, AeadProvider, AsByteSlice, Cal, DecryptionFailed, DhAlgorithm, DhProvider,
    HashAlgorithm, HashProvider, HmacAlgorithm, HmacProvider, ImportError, IncompatibleKeys,
};

verus! {

/// A provider that implements no algorithm at all (and, for random numbers, never succeeds).
pub struct EmptyCal;

/// Type which a provider can use when it implements no algorithm for a particular family.
///
/// No value of this type can be made outside this crate, and the crate makes none: it is
/// uninhabited in use, and can stand in for all of the `Algorithm` associated types as well as
/// state and result types.
#[derive(PartialEq, Eq, Debug)]
pub enum NoAlgorithms {
    Never(Unconstructible),
}

/// A type of which no value can ever be made: its invariant cannot hold.
#[derive(PartialEq, Eq, Debug)]
pub struct Unconstructible {
    never: (),
}

impl Unconstructible {
    #[verifier::type_invariant]
    pub(crate) open spec fn uninhabited(self) -> bool {
        false
    }
}

impl Clone for NoAlgorithms {
    fn clone(&self) -> (r: Self)
        ensures
            r == *self,
    {
        match self {
            NoAlgorithms::Never(u) => {
                proof {
                    use_type_invariant(u);
                }
            },
        }
        NoAlgorithms::Never(Unconstructible { never: () })
    }
}

/// Error returned by [`EmptyCal`] when asked for random numbers.
#[derive(Debug, PartialEq, Eq)]
pub struct NoRng;

impl NoRng {
    /// The message describing this error.
    pub fn message(&self) -> (r: &'static str)
        ensures
            r@ == "no RNG available in empty Cal implementation"@,
    {
        "no RNG available in empty Cal implementation"
    }
}

impl EmptyCal {
    /// Never yields a number.
    pub fn try_next_u32(&mut self) -> (r: Result<u32, NoRng>)
        ensures
            r == Err::<u32, NoRng>(NoRng),
    {
        Err(NoRng)
    }

    /// Never yields a number.
    pub fn try_next_u64(&mut self) -> (r: Result<u64, NoRng>)
        ensures
            r == Err::<u64, NoRng>(NoRng),
    {
        Err(NoRng)
    }

    /// Never fills the buffer.
    pub fn try_fill_bytes(&mut self, dst: &mut [u8]) -> (r: Result<(), NoRng>)
        ensures
            r == Err::<(), NoRng>(NoRng),
            final(dst)@ == old(dst)@,
    {
        Err(NoRng)
    }
}

impl AsByteSlice for NoAlgorithms {
    open spec fn bytes(&self) -> Seq<u8> {
        Seq::empty()
    }

    fn as_ref(&self) -> (r: &[u8]) {
        &[]
    }
}

impl HashAlgorithm for NoAlgorithms {
    open spec fn spec_len(&self) -> nat {
        0
    }

    open spec fn spec_from_cose_number(number: int) -> Option<Self> {
        None
    }

    open spec fn spec_from_ni_id(number: u8) -> Option<Self> {
        None
    }

    open spec fn spec_from_ni_name(name: Seq<u8>) -> Option<Self> {
        None
    }

    fn len(&self) -> (r: usize) {
        0
    }

    fn from_cose_number(number: i128) -> (r: Option<Self>) {
        None
    }

    fn from_ni_id(number: u8) -> (r: Option<Self>) {
        None
    }

    fn from_ni_name(name: &str) -> (r: Option<Self>) {
        None
    }
}

impl HmacAlgorithm for NoAlgorithms {
    open spec fn spec_len(&self) -> nat {
        0
    }

    open spec fn spec_from_cose_number(number: int) -> Option<Self> {
        None
    }

    fn len(&self) -> (r: usize) {
        0
    }

    fn from_cose_number(number: i128) -> (r: Option<Self>) {
        None
    }
}

impl AeadAlgorithm for NoAlgorithms {
    open spec fn spec_key_length(&self) -> nat {
        0
    }

    open spec fn spec_tag_length(&self) -> nat {
        0
    }

    open spec fn spec_nonce_length(&self) -> nat {
        0
    }

    open spec fn spec_from_cose_number(number: int) -> Option<Self> {
        None
    }

    fn key_length(&self) -> (r: usize) {
        0
    }

    fn tag_length(&self) -> (r: usize) {
        0
    }

    fn nonce_length(&self) -> (r: usize) {
        0
    }

    fn from_cose_number(number: i128) -> (r: Option<Self>) {
        None
    }
}

impl DhAlgorithm for NoAlgorithms {
    open spec fn spec_output_length(&self) -> nat {
        0
    }

    fn output_length(&self) -> (r: usize) {
        0
    }
}

impl HashProvider for EmptyCal {
    type Algorithm = NoAlgorithms;

    type State = NoAlgorithms;

    type Output = NoAlgorithms;

    open spec fn spec_digest(alg: NoAlgorithms, data: Seq<u8>) -> Seq<u8> {
        Seq::empty()
    }

    open spec fn state_algorithm(state: NoAlgorithms) -> NoAlgorithms {
        state
    }

    open spec fn state_input(state: NoAlgorithms) -> Seq<u8> {
        Seq::empty()
    }

    fn init(&mut self, algorithm: NoAlgorithms) -> (state: NoAlgorithms) {
        match &algorithm {
            NoAlgorithms::Never(u) => {
                proof {
                    use_type_invariant(u);
                }
            },
        }
        algorithm
    }

    fn update(&mut self, state: &mut NoAlgorithms, data: &[u8]) {
        match &*state {
            NoAlgorithms::Never(u) => {
                proof {
                    use_type_invariant(u);
                }
            },
        }
    }

    fn finalize(&mut self, state: NoAlgorithms) -> (out: NoAlgorithms) {
        match &state {
            NoAlgorithms::Never(u) => {
                proof {
                    use_type_invariant(u);
                }
            },
        }
        state
    }

    fn hash(&mut self, algorithm: NoAlgorithms, data: &[u8]) -> (out: NoAlgorithms) {
        match &algorithm {
            NoAlgorithms::Never(u) => {
                proof {
                    use_type_invariant(u);
                }
            },
        }
        algorithm
    }
}

impl HmacProvider for EmptyCal {
    type Algorithm = NoAlgorithms;

    type Key = NoAlgorithms;

    type State = NoAlgorithms;

    type Output = NoAlgorithms;

    open spec fn spec_hmac(alg: NoAlgorithms, key: Seq<u8>, data: Seq<u8>) -> Seq<u8> {
        Seq::empty()
    }

    open spec fn key_algorithm(key: NoAlgorithms) -> NoAlgorithms {
        key
    }

    open spec fn key_bytes(key: NoAlgorithms) -> Seq<u8> {
        Seq::empty()
    }

    open spec fn state_algorithm(state: NoAlgorithms) -> NoAlgorithms {
        state
    }

    open spec fn state_key(state: NoAlgorithms) -> Seq<u8> {
        Seq::empty()
    }

    open spec fn state_input(state: NoAlgorithms) -> Seq<u8> {
        Seq::empty()
    }

    fn load_from_keydata(&mut self, algorithm: NoAlgorithms, key: &[u8]) -> (k: NoAlgorithms) {
        match &algorithm {
            NoAlgorithms::Never(u) => {
                proof {
                    use_type_invariant(u);
                }
            },
        }
        algorithm
    }

    fn init(&mut self, key: NoAlgorithms) -> (state: NoAlgorithms) {
        match &key {
            NoAlgorithms::Never(u) => {
                proof {
                    use_type_invariant(u);
                }
            },
        }
        key
    }

    fn update(&mut self, state: &mut NoAlgorithms, data: &[u8]) {
        match &*state {
            NoAlgorithms::Never(u) => {
                proof {
                    use_type_invariant(u);
                }
            },
        }
    }

    fn finalize(&mut self, state: NoAlgorithms) -> (out: NoAlgorithms) {
        match &state {
            NoAlgorithms::Never(u) => {
                proof {
                    use_type_invariant(u);
                }
            },
        }
        state
    }
}

impl AeadProvider for EmptyCal {
    type Algorithm = NoAlgorithms;

    type Key = NoAlgorithms;

    type Tag = NoAlgorithms;

    open spec fn key_algorithm(key: NoAlgorithms) -> NoAlgorithms {
        key
    }

    open spec fn key_bytes(key: NoAlgorithms) -> Seq<u8> {
        Seq::empty()
    }

    open spec fn accepts(key: NoAlgorithms, msg_len: nat, aad_len: nat) -> bool {
        true
    }

    open spec fn spec_seal(
        key: NoAlgorithms,
        nonce: Seq<u8>,
        aad: Seq<u8>,
        plaintext: Seq<u8>,
    ) -> Seq<u8> {
        Seq::empty()
    }

    open spec fn spec_open(
        key: NoAlgorithms,
        nonce: Seq<u8>,
        aad: Seq<u8>,
        ciphertext: Seq<u8>,
        tag: Seq<u8>,
    ) -> Option<Seq<u8>> {
        None
    }

    fn load_from_keydata(&mut self, algorithm: NoAlgorithms, key: &[u8]) -> (k: NoAlgorithms) {
        match &algorithm {
            NoAlgorithms::Never(u) => {
                proof {
                    use_type_invariant(u);
                }
            },
        }
        algorithm
    }

    fn encrypt_in_place(
        &mut self,
        key: &NoAlgorithms,
        nonce: &[u8],
        message: &mut [u8],
        aad: &[u8],
    ) -> (tag: NoAlgorithms) {
        match key {
            NoAlgorithms::Never(u) => {
                proof {
                    use_type_invariant(u);
                }
            },
        }
        key.clone()
    }

    fn decrypt_in_place(
        &mut self,
        key: &NoAlgorithms,
        nonce: &[u8],
        message: &mut [u8],
        tag: &[u8],
        aad: &[u8],
    ) -> (r: Result<(), DecryptionFailed>) {
        match key {
            NoAlgorithms::Never(u) => {
                proof {
                    use_type_invariant(u);
                }
            },
        }
        Err(DecryptionFailed)
    }
}

impl DhProvider for EmptyCal {
    type Algorithm = NoAlgorithms;

    type VisibleSecretKey = NoAlgorithms;

    type SecretKey = NoAlgorithms;

    type PublicKey = NoAlgorithms;

    type SharedSecret = NoAlgorithms;

    open spec fn visible_algorithm(key: NoAlgorithms) -> NoAlgorithms {
        key
    }

    open spec fn secret_algorithm(key: NoAlgorithms) -> NoAlgorithms {
        key
    }

    open spec fn public_algorithm(key: NoAlgorithms) -> NoAlgorithms {
        key
    }

    open spec fn secret_valid(key: NoAlgorithms) -> bool {
        true
    }

    open spec fn spec_secret_of(key: NoAlgorithms) -> NoAlgorithms {
        key
    }

    open spec fn is_public_key_of(public: NoAlgorithms, secret: NoAlgorithms) -> bool {
        true
    }

    open spec fn spec_shared(secret: NoAlgorithms, public: NoAlgorithms) -> Option<Seq<u8>> {
        None
    }

    open spec fn shared_bytes(secret: NoAlgorithms) -> Seq<u8> {
        Seq::empty()
    }

    open spec fn spec_import_secret(alg: NoAlgorithms, bytes: Seq<u8>) -> Option<NoAlgorithms> {
        None
    }

    open spec fn spec_import_public(alg: NoAlgorithms, bytes: Seq<u8>) -> Option<NoAlgorithms> {
        None
    }

    open spec fn spec_public_key(secret: NoAlgorithms) -> NoAlgorithms {
        secret
    }

    open spec fn spec_shared_secret(secret: NoAlgorithms, public: NoAlgorithms) -> NoAlgorithms {
        secret
    }

    fn import_secretkey_bytes(&mut self, algorithm: NoAlgorithms, bytes: &[u8]) -> (r: Result<
        NoAlgorithms,
        ImportError,
    >) {
        Err(ImportError)
    }

    fn import_publickey_bytes(&mut self, algorithm: NoAlgorithms, bytes: &[u8]) -> (r: Result<
        NoAlgorithms,
        ImportError,
    >) {
        Err(ImportError)
    }

    fn generate_visible(&mut self, algorithm: NoAlgorithms) -> (r: Option<NoAlgorithms>) {
        match &algorithm {
            NoAlgorithms::Never(u) => {
                proof {
                    use_type_invariant(u);
                }
            },
        }
        None
    }

    fn secret_of(&mut self, key: NoAlgorithms) -> (r: NoAlgorithms) {
        match &key {
            NoAlgorithms::Never(u) => {
                proof {
                    use_type_invariant(u);
                }
            },
        }
        key
    }

    fn shared_secret(&mut self, private: &NoAlgorithms, public: &NoAlgorithms) -> (r: Result<
        NoAlgorithms,
        IncompatibleKeys,
    >) {
        match private {
            NoAlgorithms::Never(u) => {
                proof {
                    use_type_invariant(u);
                }
            },
        }
        Ok(NoAlgorithms::Never(Unconstructible { never: () }))
    }

    fn public_key(&mut self, private: &NoAlgorithms) -> (r: NoAlgorithms) {
        match private {
            NoAlgorithms::Never(u) => {
                proof {
                    use_type_invariant(u);
                }
            },
        }
        NoAlgorithms::Never(Unconstructible { never: () })
    }

    fn raw_secret_bytes<'a>(&mut self, secret: &'a NoAlgorithms) -> (r: &'a [u8]) {
        match secret {
            NoAlgorithms::Never(u) => {
                proof {
                    use_type_invariant(u);
                }
            },
        }
        &[]
    }
}

impl Cal for EmptyCal {
    type DhProvider = EmptyCal;

    type AeadProvider = EmptyCal;

    type HashProvider = EmptyCal;

    type HmacProvider = EmptyCal;

    open spec fn dh_part(&self) -> EmptyCal {
        *self
    }

    open spec fn with_dh_part(&self, part: EmptyCal) -> EmptyCal {
        part
    }

    open spec fn aead_part(&self) -> EmptyCal {
        *self
    }

    open spec fn with_aead_part(&self, part: EmptyCal) -> EmptyCal {
        part
    }

    open spec fn hash_part(&self) -> EmptyCal {
        *self
    }

    open spec fn with_hash_part(&self, part: EmptyCal) -> EmptyCal {
        part
    }

    open spec fn hmac_part(&self) -> EmptyCal {
        *self
    }

    open spec fn with_hmac_part(&self, part: EmptyCal) -> EmptyCal {
        part
    }

    fn dh(&mut self) -> (r: &mut EmptyCal) {
        self
    }

    fn aead(&mut self) -> (r: &mut EmptyCal) {
        self
    }

    fn hash(&mut self) -> (r: &mut EmptyCal) {
        self
    }

    fn hmac(&mut self) -> (r: &mut EmptyCal) {
        self
    }
}

} // verus!
