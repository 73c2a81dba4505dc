//! Tools helpful in implementing providers.
pub mod aesccm;

use vstd::prelude::*;

use crate::cal::AsByteSlice;

verus! {

/// `a` with each byte XORed with the byte of `b` at the same place.
pub open spec fn xor_bytes(a: Seq<u8>, b: Seq<u8>) -> Seq<u8> {
    Seq::new(a.len(), |i: int| a[i] ^ b[i])
}

/// A 2-variant generic enum, useful for writing implementations that provide some own variants on
/// those passed on directly to a base.
///
/// It can be read as bytes when both sides can.
#[derive(Debug, Clone, PartialEq, Eq)]
pub enum Either<Own, Base> {
    Own(Own),
    Direct(Base),
}

impl<Own: AsByteSlice, Base: AsByteSlice> AsByteSlice for Either<Own, Base> {
    open spec fn bytes(&self) -> Seq<u8> {
        match self {
            Either::Own(o) => o.bytes(),
            Either::Direct(d) => d.bytes(),
        }
    }

    fn as_ref(&self) -> (r: &[u8]) {
        match self {
            Either::Own(o) => o.as_ref(),
            Either::Direct(d) => d.as_ref(),
        }
    }
}

} // verus!
