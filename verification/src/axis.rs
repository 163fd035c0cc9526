//! The coordinate scalar that the distance metrics are generic over.
//!
//! The metrics only ever combine coordinates with a zero constant, a
//! difference, a product and a sum, so that is all the trait asks for. Each
//! executable operation is pinned to an abstract spec-level counterpart; the
//! metric contracts are then exact about which operations are applied, to
//! which coordinates, and in which order, without committing to any algebraic
//! law (a floating-point instance satisfies almost none of them).
//!
//! `u64` with wrapping arithmetic is the instance verified here; it is a
//! commutative ring, so the algebraic laws that do not hold of an arbitrary
//! instance are proved for it (see `distance`).

use vstd::prelude::*;

verus! {

/// A scalar usable as one coordinate of a point.
///
/// `zero_spec`, `add_spec`, `sub_spec` and `mul_spec` are the meanings of the
/// four executable operations; an implementor defines them and proves each
/// executable operation against its own. Nothing further is assumed of them:
/// in particular `add_spec` need not be associative or commutative and
/// `x.sub_spec(x)` need not equal `Self::zero_spec()`.
pub trait Axis: Copy + Sized {
    /// What `zero` returns.
    spec fn zero_spec() -> Self;

    /// What `add` returns.
    spec fn add_spec(self, rhs: Self) -> Self;

    /// What `sub` returns.
    spec fn sub_spec(self, rhs: Self) -> Self;

    /// What `mul` returns.
    spec fn mul_spec(self, rhs: Self) -> Self;

    /// The additive origin: the fold seed of every metric here.
    fn zero() -> (r: Self)
        ensures
            r == Self::zero_spec(),
    ;

    /// The scalar sum `self + rhs`.
    fn add(self, rhs: Self) -> (r: Self)
        ensures
            r == self.add_spec(rhs),
    ;

    /// The scalar difference `self - rhs`.
    fn sub(self, rhs: Self) -> (r: Self)
        ensures
            r == self.sub_spec(rhs),
    ;

    /// The scalar product `self * rhs`.
    fn mul(self, rhs: Self) -> (r: Self)
        ensures
            r == self.mul_spec(rhs),
    ;
}

/// `u64` as a coordinate scalar: arithmetic modulo 2^64.
impl Axis for u64 {
    open spec fn zero_spec() -> u64 {
        0u64
    }

    open spec fn add_spec(self, rhs: u64) -> u64 {
        vstd::wrapping::u64_specs::wrapping_add(self, rhs)
    }

    open spec fn sub_spec(self, rhs: u64) -> u64 {
        vstd::wrapping::u64_specs::wrapping_sub(self, rhs)
    }

    open spec fn mul_spec(self, rhs: u64) -> u64 {
        vstd::wrapping::u64_specs::wrapping_mul(self, rhs)
    }

    fn zero() -> (r: u64) {
        0u64
    }

    fn add(self, rhs: u64) -> (r: u64) {
        self.wrapping_add(rhs)
    }

    fn sub(self, rhs: u64) -> (r: u64) {
        self.wrapping_sub(rhs)
    }

    fn mul(self, rhs: u64) -> (r: u64) {
        self.wrapping_mul(rhs)
    }
}

} // verus!
