//! SHA-256, added to the hash algorithms of the base provider.
use vstd::prelude::*;
use vstd::string::StringSliceAdditionalSpecFns;

use crate::cal::{AsByteSlice, HashProvider};
use crate::rustcrypto::backend::{
    sha256_absorbed, sha256_digest, sha256_finalize, sha256_new, sha256_update, Sha256Engine,
};
use crate::rustcrypto::RustcryptoCalExtender;

verus! {

#[derive(PartialEq, Eq, Debug, Clone)]
pub enum HashAlgorithm<BA> {
    Sha256,
    Direct(BA),
}

/// The name `sha-256` in the Named Information Hash Algorithm registry, as bytes.
pub open spec fn sha256_ni_name() -> Seq<u8> {
    seq![115u8, 104u8, 97u8, 45u8, 50u8, 53u8, 54u8]
}

impl<BA: crate::cal::HashAlgorithm> crate::cal::HashAlgorithm for HashAlgorithm<BA> {
    open spec fn spec_len(&self) -> nat {
        match self {
            HashAlgorithm::Sha256 => 32,
            HashAlgorithm::Direct(a) => a.spec_len(),
        }
    }

    open spec fn spec_from_cose_number(number: int) -> Option<Self> {
        match BA::spec_from_cose_number(number) {
            Some(a) => Some(HashAlgorithm::Direct(a)),
            None => if number == -16 {
                Some(HashAlgorithm::Sha256)
            } else {
                None
            },
        }
    }

    open spec fn spec_from_ni_id(number: u8) -> Option<Self> {
        match BA::spec_from_ni_id(number) {
            Some(a) => Some(HashAlgorithm::Direct(a)),
            None => if number == 1 {
                Some(HashAlgorithm::Sha256)
            } else {
                None
            },
        }
    }

    open spec fn spec_from_ni_name(name: Seq<u8>) -> Option<Self> {
        match BA::spec_from_ni_name(name) {
            Some(a) => Some(HashAlgorithm::Direct(a)),
            None => if name == sha256_ni_name() {
                Some(HashAlgorithm::Sha256)
            } else {
                None
            },
        }
    }

    fn len(&self) -> (r: usize) {
        match self {
            HashAlgorithm::Sha256 => 32,
            HashAlgorithm::Direct(a) => a.len(),
        }
    }

    fn from_cose_number(number: i128) -> (r: Option<Self>) {
        if let Some(a) = BA::from_cose_number(number) {
            return Some(HashAlgorithm::Direct(a));
        }
        if number == -16 {
            Some(HashAlgorithm::Sha256)
        } else {
            None
        }
    }

    fn from_ni_id(number: u8) -> (r: Option<Self>) {
        if let Some(a) = BA::from_ni_id(number) {
            return Some(HashAlgorithm::Direct(a));
        }
        if number == 1 {
            Some(HashAlgorithm::Sha256)
        } else {
            None
        }
    }

    fn from_ni_name(name: &str) -> (r: Option<Self>) {
        if let Some(a) = BA::from_ni_name(name) {
            return Some(HashAlgorithm::Direct(a));
        }
        let b = name.as_bytes();
        if b.len() == 7 && b[0] == 115u8 && b[1] == 104u8 && b[2] == 97u8 && b[3] == 45u8 && b[4]
            == 50u8 && b[5] == 53u8 && b[6] == 54u8 {
            assert(b@ =~= sha256_ni_name());
            Some(HashAlgorithm::Sha256)
        } else {
            assert(b@ != sha256_ni_name()) by {
                if b@ == sha256_ni_name() {
                    assert(b@[0] == 115u8);
                }
            }
            None
        }
    }
}

pub enum HashState<BHS> {
    Sha256(Sha256Engine),
    Direct(BHS),
}

pub enum HashResult<BHR> {
    Sha256([u8; 32]),
    Direct(BHR),
}

impl<BHR: AsByteSlice> AsByteSlice for HashResult<BHR> {
    open spec fn bytes(&self) -> Seq<u8> {
        match self {
            HashResult::Sha256(r) => r@,
            HashResult::Direct(r) => r.bytes(),
        }
    }

    fn as_ref(&self) -> (r: &[u8]) {
        match self {
            HashResult::Sha256(r) => r.as_slice(),
            HashResult::Direct(r) => r.as_ref(),
        }
    }
}

impl<Base: crate::cal::Cal> HashProvider for RustcryptoCalExtender<Base> {
    type Algorithm = HashAlgorithm<<<Base as crate::cal::Cal>::HashProvider as HashProvider>::Algorithm>;

    type State = HashState<<<Base as crate::cal::Cal>::HashProvider as HashProvider>::State>;

    type Output = HashResult<<<Base as crate::cal::Cal>::HashProvider as HashProvider>::Output>;

    open spec fn spec_digest(alg: Self::Algorithm, data: Seq<u8>) -> Seq<u8> {
        match alg {
            HashAlgorithm::Sha256 => sha256_digest(data),
            HashAlgorithm::Direct(a) => <<Base as crate::cal::Cal>::HashProvider as HashProvider>::spec_digest(a, data),
        }
    }

    open spec fn state_algorithm(state: Self::State) -> Self::Algorithm {
        match state {
            HashState::Sha256(_) => HashAlgorithm::Sha256,
            HashState::Direct(s) => HashAlgorithm::Direct(
                <<Base as crate::cal::Cal>::HashProvider as HashProvider>::state_algorithm(s),
            ),
        }
    }

    open spec fn state_input(state: Self::State) -> Seq<u8> {
        match state {
            HashState::Sha256(e) => sha256_absorbed(e),
            HashState::Direct(s) => <<Base as crate::cal::Cal>::HashProvider as HashProvider>::state_input(s),
        }
    }

    fn init(&mut self, algorithm: Self::Algorithm) -> (state: Self::State)
        ensures
            algorithm is Sha256 ==> state is Sha256 && *final(self) == *old(self),
            algorithm is Direct ==> state is Direct,
    {
        match algorithm {
            HashAlgorithm::Sha256 => HashState::Sha256(sha256_new()),
            HashAlgorithm::Direct(a) => HashState::Direct(crate::cal::Cal::hash(&mut self.base).init(a)),
        }
    }

    fn update(&mut self, state: &mut Self::State, data: &[u8])
        ensures
            *old(state) matches HashState::Sha256(_) ==> *final(state) matches HashState::Sha256(_) && *final(self) == *old(self),
            *old(state) matches HashState::Direct(_) ==> *final(state) matches HashState::Direct(_),
    {
        match state {
            HashState::Sha256(s) => sha256_update(s, data),
            HashState::Direct(i) => crate::cal::Cal::hash(&mut self.base).update(i, data),
        }
    }

    fn finalize(&mut self, state: Self::State) -> (out: Self::Output)
        ensures
            state is Sha256 ==> out is Sha256,
            state is Direct ==> out is Direct,
            state is Sha256 ==> *final(self) == *old(self),
    {
        match state {
            HashState::Sha256(s) => HashResult::Sha256(sha256_finalize(s)),
            HashState::Direct(i) => HashResult::Direct(crate::cal::Cal::hash(&mut self.base).finalize(i)),
        }
    }

    fn hash(&mut self, algorithm: Self::Algorithm, data: &[u8]) -> (out: Self::Output)
        ensures
            algorithm is Sha256 ==> out is Sha256,
            algorithm is Direct ==> out is Direct,
            algorithm is Sha256 ==> *final(self) == *old(self),
    {
        if let HashAlgorithm::Direct(a) = algorithm {
            return HashResult::Direct(crate::cal::Cal::hash(&mut self.base).hash(a, data));
        }
        let mut state = self.init(algorithm);
        self.update(&mut state, data);
        proof {
            assert(Seq::<u8>::empty() + data@ =~= data@);
        }
        self.finalize(state)
    }
}

} // verus!
