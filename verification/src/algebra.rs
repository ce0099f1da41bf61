//! Trusted interface to the dense fixed-size matrix arithmetic of `nalgebra`.
//!
//! The estimation engine treats matrices as opaque values: every arithmetic
//! step goes through one of the wrappers below, each of which makes exactly
//! one `nalgebra` call. Nothing numeric is assumed of the results; the
//! engine's contracts speak only of which stored values change and how the
//! prior/posterior state machine moves.

use vstd::prelude::*;
use nalgebra::{ComplexField, SMatrix, Scalar, SimdValue};

verus! {

#[verifier::external_type_specification]
#[verifier::external_body]
#[verifier::reject_recursive_types(T)]
#[verifier::reject_recursive_types(R)]
#[verifier::reject_recursive_types(C)]
#[verifier::reject_recursive_types(S)]
pub struct ExMatrix<T, R, C, S>(nalgebra::Matrix<T, R, C, S>);

#[verifier::external_type_specification]
#[verifier::external_body]
pub struct ExConst<const R: usize>(nalgebra::Const<R>);

#[verifier::external_type_specification]
#[verifier::external_body]
#[verifier::reject_recursive_types(T)]
pub struct ExArrayStorage<T, const R: usize, const C: usize>(nalgebra::ArrayStorage<T, R, C>);

/// Relies on nalgebra's entry-wise matrix addition (`Add` for `&Matrix`).
#[verifier::external_body]
pub(crate) fn mat_add<F: Scalar + SimdValue + ComplexField + Copy, const R: usize, const C: usize>(
    a: &SMatrix<F, R, C>,
    b: &SMatrix<F, R, C>,
) -> SMatrix<F, R, C> {
    a + b
}

/// Relies on nalgebra's entry-wise matrix subtraction (`Sub` for `&Matrix`).
#[verifier::external_body]
pub(crate) fn mat_sub<F: Scalar + SimdValue + ComplexField + Copy, const R: usize, const C: usize>(
    a: &SMatrix<F, R, C>,
    b: &SMatrix<F, R, C>,
) -> SMatrix<F, R, C> {
    a - b
}

/// Relies on nalgebra's matrix multiplication (`Mul` for `&Matrix`).
#[verifier::external_body]
pub(crate) fn mat_mul<
    F: Scalar + SimdValue + ComplexField + Copy,
    const R: usize,
    const K: usize,
    const C: usize,
>(
    a: &SMatrix<F, R, K>,
    b: &SMatrix<F, K, C>,
) -> SMatrix<F, R, C> {
    a * b
}

/// Relies on nalgebra's `Matrix::transpose`.
#[verifier::external_body]
pub(crate) fn mat_transpose<
    F: Scalar + SimdValue + ComplexField + Copy,
    const R: usize,
    const C: usize,
>(
    a: &SMatrix<F, R, C>,
) -> SMatrix<F, C, R> {
    a.transpose()
}

/// Relies on nalgebra's scalar multiplication (`Mul<T>` for `&Matrix`):
/// multiplies every entry by `s`.
#[verifier::external_body]
pub(crate) fn mat_scale<
    F: Scalar + SimdValue + ComplexField + Copy,
    const R: usize,
    const C: usize,
>(
    a: &SMatrix<F, R, C>,
    s: F,
) -> SMatrix<F, R, C> {
    a * s
}

/// Relies on nalgebra's `Matrix::identity` constructor.
#[verifier::external_body]
pub(crate) fn mat_identity<F: Scalar + SimdValue + ComplexField + Copy, const N: usize>()
    -> SMatrix<F, N, N>
{
    SMatrix::identity()
}

/// Relies on nalgebra's `Matrix::zeros` constructor.
#[verifier::external_body]
pub(crate) fn mat_zeros<F: Scalar + SimdValue + ComplexField + Copy, const R: usize, const C: usize>()
    -> SMatrix<F, R, C>
{
    SMatrix::zeros()
}

/// Relies on nalgebra's `Matrix::try_inverse`: returns the inverse of the
/// matrix, or `None` when the matrix is singular (instead of aborting).
#[verifier::external_body]
pub(crate) fn mat_try_inverse<F: Scalar + SimdValue + ComplexField + Copy, const N: usize>(
    a: &SMatrix<F, N, N>,
) -> Option<SMatrix<F, N, N>> {
    (*a).try_inverse()
}

/// Relies on nalgebra's `Matrix::clone` (derived, and the scalars are
/// `Copy`), which duplicates the stored entries, so the result equals the
/// input.
#[verifier::external_body]
pub(crate) fn mat_copy<F: Scalar + SimdValue + ComplexField + Copy, const R: usize, const C: usize>(
    a: &SMatrix<F, R, C>,
) -> (r: SMatrix<F, R, C>)
    ensures
        r == *a,
{
    a.clone()
}

/// Relies on nalgebra's `one` and the scalar field operations to convert the
/// literal one half into the field type.
#[verifier::external_body]
pub(crate) fn scalar_half<F: Scalar + SimdValue + ComplexField + Copy>() -> F {
    let one: F = nalgebra::one();
    one / (one + one)
}

} // verus!
