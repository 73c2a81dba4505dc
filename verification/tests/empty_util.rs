use embedded_cal::cal::{AeadAlgorithm, AsByteSlice, HashAlgorithm, HmacAlgorithm};
use embedded_cal::empty::{EmptyCal, NoAlgorithms, NoRng};
use embedded_cal::rustcrypto::hash::HashResult;
use embedded_cal::util::Either;
use embedded_cal::plumbing::ec::{EcPrimitives, P256, X25519};

#[test]
fn empty_cal_has_no_randomness() {
    let mut cal = EmptyCal;
    assert_eq!(cal.try_next_u32(), Err(NoRng));
    assert_eq!(cal.try_next_u64(), Err(NoRng));
    let mut buf = [7u8; 4];
    assert_eq!(cal.try_fill_bytes(&mut buf), Err(NoRng));
    assert_eq!(buf, [7u8; 4]);
    assert_eq!(NoRng.message(), "no RNG available in empty Cal implementation");
}

#[test]
fn no_algorithms_knows_no_numbers() {
    assert!(<NoAlgorithms as HashAlgorithm>::from_cose_number(-16).is_none());
    assert!(<NoAlgorithms as HashAlgorithm>::from_ni_id(1).is_none());
    assert!(<NoAlgorithms as HashAlgorithm>::from_ni_name("sha-256").is_none());
    assert!(<NoAlgorithms as HmacAlgorithm>::from_cose_number(5).is_none());
    assert!(<NoAlgorithms as AeadAlgorithm>::from_cose_number(10).is_none());
}

#[test]
fn either_reads_either_side() {
    let own: Either<HashResult<NoAlgorithms>, NoAlgorithms> = Either::Own(HashResult::Sha256([1u8; 32]));
    assert_eq!(own.as_ref(), &[1u8; 32][..]);
}

#[test]
fn empty_cal_imports_no_scalars() {
    let mut cal = EmptyCal;
    assert!(<EmptyCal as EcPrimitives<P256>>::import_scalar_bytes(&mut cal, &[1u8; 32]).is_err());
    assert!(<EmptyCal as EcPrimitives<X25519>>::import_scalar_bytes(&mut cal, &[]).is_err());
    assert!(!<EmptyCal as EcPrimitives<P256>>::HAS_MULTIPLY_SCALAR_POINT);
}


#[test]
fn either_of_byte_arrays_forwards_as_ref() {
    let o: Either<[u8; 2], [u8; 3]> = Either::Own([1, 2]);
    let d: Either<[u8; 2], [u8; 3]> = Either::Direct([3, 4, 5]);
    assert_eq!(AsByteSlice::as_ref(&o), &[1u8, 2][..]);
    assert_eq!(AsByteSlice::as_ref(&d), &[3u8, 4, 5][..]);
}
