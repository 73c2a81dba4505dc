//! HMAC-SHA-256, added to the HMAC algorithms of the base provider.
use vstd::prelude::*;

use crate::cal::{AsByteSlice, Cal, HmacAlgorithm as _, HmacProvider};
use crate::rustcrypto::backend::{
    hmac_sha256, hmac_sha256_absorbed, hmac_sha256_finalize, hmac_sha256_key, hmac_sha256_new,
    hmac_sha256_update, HmacSha256Engine,
};
use crate::rustcrypto::RustcryptoCalExtender;

verus! {

#[derive(PartialEq, Eq, Debug, Clone)]
pub enum HmacAlgorithm<BA> {
    /// HMAC with SHA-256 and a 256-bit tag (COSE algorithm 5).
    HmacSha256,
    Direct(BA),
}

impl<BA: crate::cal::HmacAlgorithm> crate::cal::HmacAlgorithm for HmacAlgorithm<BA> {
    open spec fn spec_len(&self) -> nat {
        match self {
            HmacAlgorithm::HmacSha256 => 32,
            HmacAlgorithm::Direct(a) => a.spec_len(),
        }
    }

    open spec fn spec_from_cose_number(number: int) -> Option<Self> {
        match BA::spec_from_cose_number(number) {
            Some(a) => Some(HmacAlgorithm::Direct(a)),
            None => if number == 5 {
                Some(HmacAlgorithm::HmacSha256)
            } else {
                None
            },
        }
    }

    fn len(&self) -> (r: usize) {
        match self {
            HmacAlgorithm::HmacSha256 => 32,
            HmacAlgorithm::Direct(a) => a.len(),
        }
    }

    fn from_cose_number(number: i128) -> (r: Option<Self>) {
        if let Some(a) = BA::from_cose_number(number) {
            return Some(HmacAlgorithm::Direct(a));
        }
        if number == 5 {
            Some(HmacAlgorithm::HmacSha256)
        } else {
            None
        }
    }
}

/// An HMAC-SHA-256 computation keyed and not yet fed any data, ready to be started.
pub struct HmacSha256Key {
    engine: HmacSha256Engine,
}

impl HmacSha256Key {
    #[verifier::type_invariant]
    spec fn unused(self) -> bool {
        hmac_sha256_absorbed(self.engine) == Seq::<u8>::empty()
    }

    /// The key it was loaded from.
    pub closed spec fn bytes(self) -> Seq<u8> {
        hmac_sha256_key(self.engine)
    }
}

pub enum HmacKey<BK> {
    HmacSha256(HmacSha256Key),
    Direct(BK),
}

pub enum HmacState<BS> {
    HmacSha256(HmacSha256Engine),
    Direct(BS),
}

pub enum HmacResult<BR> {
    HmacSha256([u8; 32]),
    Direct(BR),
}

impl<BR: AsByteSlice> AsByteSlice for HmacResult<BR> {
    open spec fn bytes(&self) -> Seq<u8> {
        match self {
            HmacResult::HmacSha256(r) => r@,
            HmacResult::Direct(r) => r.bytes(),
        }
    }

    fn as_ref(&self) -> (r: &[u8]) {
        match self {
            HmacResult::HmacSha256(r) => r.as_slice(),
            HmacResult::Direct(r) => r.as_ref(),
        }
    }
}

impl<Base: Cal> HmacProvider for RustcryptoCalExtender<Base> {
    type Algorithm = HmacAlgorithm<<Base::HmacProvider as HmacProvider>::Algorithm>;

    type Key = HmacKey<<Base::HmacProvider as HmacProvider>::Key>;

    type State = HmacState<<Base::HmacProvider as HmacProvider>::State>;

    type Output = HmacResult<<Base::HmacProvider as HmacProvider>::Output>;

    open spec fn spec_hmac(alg: Self::Algorithm, key: Seq<u8>, data: Seq<u8>) -> Seq<u8> {
        match alg {
            HmacAlgorithm::HmacSha256 => hmac_sha256(key, data),
            HmacAlgorithm::Direct(a) => <Base::HmacProvider as HmacProvider>::spec_hmac(
                a,
                key,
                data,
            ),
        }
    }

    open spec fn key_algorithm(key: Self::Key) -> Self::Algorithm {
        match key {
            HmacKey::HmacSha256(_) => HmacAlgorithm::HmacSha256,
            HmacKey::Direct(k) => HmacAlgorithm::Direct(
                <Base::HmacProvider as HmacProvider>::key_algorithm(k),
            ),
        }
    }

    open spec fn key_bytes(key: Self::Key) -> Seq<u8> {
        match key {
            HmacKey::HmacSha256(k) => k.bytes(),
            HmacKey::Direct(k) => <Base::HmacProvider as HmacProvider>::key_bytes(k),
        }
    }

    open spec fn state_algorithm(state: Self::State) -> Self::Algorithm {
        match state {
            HmacState::HmacSha256(_) => HmacAlgorithm::HmacSha256,
            HmacState::Direct(s) => HmacAlgorithm::Direct(
                <Base::HmacProvider as HmacProvider>::state_algorithm(s),
            ),
        }
    }

    open spec fn state_key(state: Self::State) -> Seq<u8> {
        match state {
            HmacState::HmacSha256(e) => hmac_sha256_key(e),
            HmacState::Direct(s) => <Base::HmacProvider as HmacProvider>::state_key(s),
        }
    }

    open spec fn state_input(state: Self::State) -> Seq<u8> {
        match state {
            HmacState::HmacSha256(e) => hmac_sha256_absorbed(e),
            HmacState::Direct(s) => <Base::HmacProvider as HmacProvider>::state_input(s),
        }
    }

    fn load_from_keydata(&mut self, algorithm: Self::Algorithm, key: &[u8]) -> (k: Self::Key)
        ensures
            algorithm is HmacSha256 ==> k is HmacSha256 && *final(self) == *old(self),
            algorithm is Direct ==> k is Direct,
    {
        match algorithm {
            HmacAlgorithm::HmacSha256 => {
                let engine = hmac_sha256_new(key);
                let k: Self::Key = HmacKey::HmacSha256(HmacSha256Key { engine });
                assert(Self::key_algorithm(k) == algorithm);
                assert(Self::key_bytes(k) == key@);
                k
            },
            HmacAlgorithm::Direct(a) => HmacKey::Direct(
                self.base.hmac().load_from_keydata(a, key),
            ),
        }
    }

    fn init(&mut self, key: Self::Key) -> (state: Self::State)
        ensures
            key is HmacSha256 ==> state is HmacSha256 && *final(self) == *old(self),
            key is Direct ==> state is Direct,
    {
        match key {
            HmacKey::HmacSha256(k) => {
                proof {
                    use_type_invariant(&k);
                }
                let e = k.engine;
                let state: Self::State = HmacState::HmacSha256(e);
                assert(Self::state_algorithm(state) == Self::key_algorithm(key));
                assert(Self::state_key(state) == hmac_sha256_key(e));
                state
            },
            HmacKey::Direct(k) => HmacState::Direct(self.base.hmac().init(k)),
        }
    }

    fn update(&mut self, state: &mut Self::State, data: &[u8])
        ensures
            *old(state) matches HmacState::HmacSha256(_) ==> *final(state) matches HmacState::HmacSha256(_) && *final(self) == *old(self),
            *old(state) matches HmacState::Direct(_) ==> *final(state) matches HmacState::Direct(_),
    {
        match state {
            HmacState::HmacSha256(e) => hmac_sha256_update(e, data),
            HmacState::Direct(s) => self.base.hmac().update(s, data),
        }
    }

    fn finalize(&mut self, state: Self::State) -> (out: Self::Output)
        ensures
            state is HmacSha256 ==> out is HmacSha256,
            state is Direct ==> out is Direct,
            state is HmacSha256 ==> *final(self) == *old(self),
    {
        match state {
            HmacState::HmacSha256(e) => {
                let t = hmac_sha256_finalize(e);
                let out: Self::Output = HmacResult::HmacSha256(t);
                assert(out.bytes() == t@);
                assert(Self::state_algorithm(state).spec_len() == 32);
                out
            },
            HmacState::Direct(s) => HmacResult::Direct(self.base.hmac().finalize(s)),
        }
    }
}

} // verus!
