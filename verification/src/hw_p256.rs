//! Secret-to-public and ECDH on a hardware key agreement engine, in the shape of the fixed-size
//! P-256 ECDH interface (32-byte secrets, 64-byte `x || y` points). The caller holds the engine
//! (usually behind a lock) and hands it in.
use vstd::prelude::*;

use crate::cal::{DhProvider, EcWeierstrassFullPoint};

verus! {

/// Why the public key of a secret could not be derived.
#[derive(Debug, PartialEq, Eq)]
pub enum SecretToPublicError {
    InvalidSecret,
}

/// Why a shared point could not be derived.
#[derive(Debug, PartialEq, Eq)]
pub enum DeriveError {
    InvalidSecret,
    InvalidPublic,
    Unknown,
}

/// Writes `a` into the first 32 bytes of `out` and `b` into the last 32.
fn write_xy(out: &mut [u8; 64], a: &[u8; 32], b: &[u8; 32])
    ensures
        final(out)@ == a@ + b@,
{
    let mut i: usize = 0;
    while i < 32
        invariant
            out@.len() == 64,
            i <= 32,
            forall|j: int| 0 <= j < i ==> out@[j] == a@[j] && out@[32 + j] == b@[j],
        decreases 32 - i,
    {
        out[i] = a[i];
        out[32 + i] = b[i];
        i = i + 1;
    }
    assert(out@ =~= a@ + b@);
}

/// Derives the public key `(x||y)` corresponding to `secret` by running the scalar
/// multiplication on the engine.
pub fn hw_secret_to_public<C: DhProvider + EcWeierstrassFullPoint>(
    engine: &mut C,
    alg: C::Algorithm,
    public: &mut [u8; 64],
    secret: &[u8; 32],
) -> (r: Result<(), SecretToPublicError>)
    ensures
        r is Ok <==> C::spec_import_secret(alg, secret@) is Some,
        r is Err ==> r == Err::<(), SecretToPublicError>(SecretToPublicError::InvalidSecret)
            && final(public)@ == old(public)@,
        C::spec_import_secret(alg, secret@) matches Some(v) ==> final(public)@ == C::public_xy(
            C::spec_public_key(C::spec_secret_of(v)),
        ).0 + C::public_xy(C::spec_public_key(C::spec_secret_of(v))).1,
{
    let visible = match engine.import_secretkey_bytes(alg, secret.as_slice()) {
        Ok(v) => v,
        Err(_) => {
            return Err(SecretToPublicError::InvalidSecret);
        },
    };
    let secret_key = engine.secret_of(visible);
    let public_key = engine.public_key(&secret_key);
    let (x, y) = engine.public_key_xy(&public_key);
    write_xy(public, &x, &y);
    Ok(())
}

/// Derives the shared secret point `(x||y)` for `public`/`secret` by running the scalar
/// multiplication on the engine. Only the x half of `public` is handed to the engine, whose
/// compact import reconstructs the y coordinate it needs.
pub fn hw_derive_ecdh<C: DhProvider + EcWeierstrassFullPoint>(
    engine: &mut C,
    alg: &C::Algorithm,
    derived: &mut [u8; 64],
    public: &[u8; 64],
    secret: &[u8; 32],
) -> (r: Result<(), DeriveError>)
    where
        C::Algorithm: Copy,
    ensures
        r == Err::<(), DeriveError>(DeriveError::InvalidSecret) <==> C::spec_import_secret(
            *alg,
            secret@,
        ) is None,
        r == Err::<(), DeriveError>(DeriveError::InvalidPublic) <==> C::spec_import_secret(
            *alg,
            secret@,
        ) is Some && C::spec_import_public(*alg, public@.subrange(0, 32)) is None,
        r is Err ==> final(derived)@ == old(derived)@,
        (C::spec_import_secret(*alg, secret@), C::spec_import_public(
            *alg,
            public@.subrange(0, 32),
        )) matches (Some(v), Some(pk)) ==> (r == Err::<(), DeriveError>(DeriveError::Unknown)
            <==> C::spec_shared(C::spec_secret_of(v), pk) is None),
        (C::spec_import_secret(*alg, secret@), C::spec_import_public(
            *alg,
            public@.subrange(0, 32),
        )) matches (Some(v), Some(pk)) ==> (r is Ok ==> final(derived)@ == C::shared_xy(
            C::spec_shared_secret(C::spec_secret_of(v), pk),
        ).0 + C::shared_xy(C::spec_shared_secret(C::spec_secret_of(v), pk)).1),
{
    let visible = match engine.import_secretkey_bytes(*alg, secret.as_slice()) {
        Ok(v) => v,
        Err(_) => {
            return Err(DeriveError::InvalidSecret);
        },
    };
    let secret_key = engine.secret_of(visible);
    let public_key = match engine.import_publickey_bytes(*alg, &public[0..32]) {
        Ok(p) => p,
        Err(_) => {
            return Err(DeriveError::InvalidPublic);
        },
    };
    let shared = match engine.shared_secret(&secret_key, &public_key) {
        Ok(s) => s,
        Err(_) => {
            return Err(DeriveError::Unknown);
        },
    };
    let (x, y) = engine.shared_secret_xy(&shared);
    write_xy(derived, &x, &y);
    Ok(())
}

} // verus!
