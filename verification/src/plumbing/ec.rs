//! Elliptic curve primitives that can be hardware accelerated.
use vstd::prelude::*;

use crate::cal::{AsByteSlice, ImportError};
use crate::empty::{EmptyCal, NoAlgorithms};

verus! {

/// Type-value trait to parametrize [`EcPrimitives`] over.
pub trait Curve {

}

pub struct P256(());

impl Curve for P256 {

}

pub struct X25519(());

impl Curve for X25519 {

}

pub struct X448(());

impl Curve for X448 {

}

/// Providers for ECC primitive operations on a given curve.
///
/// It is not expected that this trait's types check or perform clamping of RFC 7748 operands.
pub trait EcPrimitives<C: Curve> {
    /// Indicates whether [`Self::multiply_scalar_point()`] is available.
    const HAS_MULTIPLY_SCALAR_POINT: bool;

    type Scalar;

    type Point;

    /// What [`Self::export_scalar_bytes()`] hands out.
    type ScalarBytes: AsByteSlice;

    /// The curve's native byte encoding of a scalar.
    spec fn scalar_bytes(scalar: Self::Scalar) -> Seq<u8>;

    spec fn point_x(point: Self::Point) -> Self::Scalar;

    spec fn point_y(point: Self::Point) -> Self::Scalar;

    /// The product of a scalar and a point on the curve.
    spec fn spec_multiply(a: Self::Scalar, b: Self::Point) -> Self::Point;

    /// Performs a scalar × point multiplication on the curve.
    fn multiply_scalar_point(&mut self, a: &Self::Scalar, b: &Self::Point) -> (r: Self::Point)
        requires
            Self::HAS_MULTIPLY_SCALAR_POINT,
        ensures
            r == Self::spec_multiply(*a, *b),
    ;

    /// Loads byte data into a scalar from the curve's native format.
    fn import_scalar_bytes(&mut self, scalar: &[u8]) -> (r: Result<Self::Scalar, ImportError>)
        ensures
            r matches Ok(s) ==> Self::scalar_bytes(s) == scalar@,
    ;

    /// Constructs a point from two scalars.
    fn point(&mut self, x: Self::Scalar, y: Self::Scalar) -> (r: Self::Point)
        ensures
            Self::point_x(r) == x,
            Self::point_y(r) == y,
    ;

    /// Inverse function of [`Self::import_scalar_bytes()`].
    fn export_scalar_bytes(&mut self, scalar: &Self::Scalar) -> (r: Self::ScalarBytes)
        ensures
            r.bytes() == Self::scalar_bytes(*scalar),
    ;

    /// Accesses the first coordinate of a point.
    fn x_coord(&mut self, point: &Self::Point) -> (r: Self::Scalar)
        ensures
            r == Self::point_x(*point),
    ;

    /// Accesses the second coordinate of a point.
    fn y_coord(&mut self, point: &Self::Point) -> (r: Self::Scalar)
        ensures
            r == Self::point_y(*point),
    ;
}

/// Elliptic curve primitives for the curves that a back-end may accelerate.
pub trait Ec {
    type PrimitivesP256: EcPrimitives<P256>;

    type PrimitivesX25519: EcPrimitives<X25519>;

    type PrimitivesX448: EcPrimitives<X448>;

    /// The longest slice length ever usable with scalar import / export from any of the
    /// primitives.
    const MAX_SCALAR_LENGTH: usize;

    fn p256(&mut self) -> &mut Self::PrimitivesP256;

    fn x25519(&mut self) -> &mut Self::PrimitivesX25519;

    fn x448(&mut self) -> &mut Self::PrimitivesX448;
}

impl<C: Curve> EcPrimitives<C> for EmptyCal {
    const HAS_MULTIPLY_SCALAR_POINT: bool = false;

    type Scalar = NoAlgorithms;

    type Point = NoAlgorithms;

    type ScalarBytes = NoAlgorithms;

    open spec fn scalar_bytes(scalar: NoAlgorithms) -> Seq<u8> {
        Seq::empty()
    }

    open spec fn point_x(point: NoAlgorithms) -> NoAlgorithms {
        point
    }

    open spec fn point_y(point: NoAlgorithms) -> NoAlgorithms {
        point
    }

    open spec fn spec_multiply(a: NoAlgorithms, b: NoAlgorithms) -> NoAlgorithms {
        b
    }

    fn multiply_scalar_point(&mut self, a: &NoAlgorithms, b: &NoAlgorithms) -> (r: NoAlgorithms) {
        b.clone()
    }

    fn import_scalar_bytes(&mut self, scalar: &[u8]) -> (r: Result<NoAlgorithms, ImportError>) {
        Err(ImportError)
    }

    fn point(&mut self, x: NoAlgorithms, y: NoAlgorithms) -> (r: NoAlgorithms) {
        match &x {
            NoAlgorithms::Never(u) => {
                proof {
                    use_type_invariant(u);
                }
            },
        }
        x
    }

    fn export_scalar_bytes(&mut self, scalar: &NoAlgorithms) -> (r: NoAlgorithms) {
        scalar.clone()
    }

    fn x_coord(&mut self, point: &NoAlgorithms) -> (r: NoAlgorithms) {
        point.clone()
    }

    fn y_coord(&mut self, point: &NoAlgorithms) -> (r: NoAlgorithms) {
        point.clone()
    }
}

} // verus!
