//! A complete software provider: the RustCrypto algorithms on top of software key agreement.
use vstd::prelude::*;

use crate::rustcrypto::dh::RustcryptoCal;
use crate::rustcrypto::RustcryptoCalExtender;

verus! {

/// SHA-256, HMAC-SHA-256 and AES-CCM, with P-256 and X25519 key agreement underneath.
pub type Standalone = RustcryptoCalExtender<RustcryptoCal>;

impl RustcryptoCalExtender<RustcryptoCal> {
    pub fn standalone() -> (r: Self) {
        Self::new_extending(RustcryptoCal::new())
    }
}

impl Default for RustcryptoCalExtender<RustcryptoCal> {
    fn default() -> (r: Self) {
        Self::standalone()
    }
}

} // verus!
