//! A software provider built on the RustCrypto crates: it adds SHA-256, HMAC-SHA-256 and
//! AES-CCM to whatever provider it extends, and offers P-256 and X25519 key agreement.
pub mod aead;
pub mod backend;
pub mod dh;
pub mod hash;
pub mod hmac;
pub mod standalone;

use vstd::prelude::*;

use crate::cal::Cal;

verus! {

/// Adds software implementations of some algorithms to a base provider; requests for any other
/// algorithm are passed on to the base (the `Direct` variants of the algorithm types).
pub struct RustcryptoCalExtender<Base> {
    pub base: Base,
}

impl<Base> RustcryptoCalExtender<Base> {
    pub fn new_extending(base: Base) -> (r: Self)
        ensures
            r.base == base,
    {
        RustcryptoCalExtender { base }
    }
}

impl<Base: Cal> Cal for RustcryptoCalExtender<Base> {
    type DhProvider = Base::DhProvider;

    type AeadProvider = Self;

    type HashProvider = Self;

    type HmacProvider = Self;

    open spec fn dh_part(&self) -> Base::DhProvider {
        self.base.dh_part()
    }

    open spec fn with_dh_part(&self, part: Base::DhProvider) -> Self {
        RustcryptoCalExtender { base: self.base.with_dh_part(part) }
    }

    open spec fn aead_part(&self) -> Self {
        *self
    }

    open spec fn with_aead_part(&self, part: Self) -> Self {
        part
    }

    open spec fn hash_part(&self) -> Self {
        *self
    }

    open spec fn with_hash_part(&self, part: Self) -> Self {
        part
    }

    open spec fn hmac_part(&self) -> Self {
        *self
    }

    open spec fn with_hmac_part(&self, part: Self) -> Self {
        part
    }

    fn dh(&mut self) -> (r: &mut Base::DhProvider) {
        self.base.dh()
    }

    fn aead(&mut self) -> (r: &mut Self) {
        self
    }

    fn hash(&mut self) -> (r: &mut Self) {
        self
    }

    fn hmac(&mut self) -> (r: &mut Self) {
        self
    }
}

/// Copies `src` into `dst`, which has the same length.
pub(crate) fn copy_bytes(dst: &mut [u8], src: &[u8])
    requires
        old(dst)@.len() == src@.len(),
    ensures
        final(dst)@ == src@,
{
    let mut i: usize = 0;
    while i < src.len()
        invariant
            dst@.len() == src@.len(),
            i <= src@.len(),
            forall|j: int| 0 <= j < i ==> dst@[j] == src@[j],
        decreases src@.len() - i,
    {
        dst[i] = src[i];
        i = i + 1;
    }
    assert(dst@ =~= src@);
}

} // verus!
