//! Algebraic laws of the distance metrics.
//!
//! The metric contracts in `distance` pin down only which scalar operations
//! are applied and in which order, because an arbitrary `Axis` instance
//! guarantees nothing about those operations. The laws below hold whenever
//! an instance supplies the few identities each one names; `u64`, whose
//! wrapping arithmetic is a commutative ring, supplies them all, so each law
//! is also stated unconditionally for it.

use vstd::arithmetic::div_mod::lemma_mod_multiples_vanish;
use vstd::prelude::*;
use vstd::wrapping::u64_specs;

use crate::axis::Axis;
use crate::distance::diff_squared;
use crate::distance::dot_product_prefix;
use crate::distance::dot_product_spec;
use crate::distance::dot_sum_prefix;
use crate::distance::dot_three_lanes_spec;
use crate::distance::squared_euclidean_prefix;
use crate::distance::squared_euclidean_spec;

verus! {

/// For any scalar whose difference of equals is zero, whose zero squares to
/// zero and whose zero is a right identity of addition, the squared
/// euclidean distance from a point to itself is zero, whatever the prefix
/// length.
pub proof fn lemma_squared_euclidean_self_general<T: Axis>(a: Seq<T>, n: int)
    requires
        forall|x: T| #[trigger] x.sub_spec(x) == T::zero_spec(),
        T::zero_spec().mul_spec(T::zero_spec()) == T::zero_spec(),
        forall|z: T| #[trigger] z.add_spec(T::zero_spec()) == z,
    ensures
        squared_euclidean_prefix(a, a, n) == T::zero_spec(),
    decreases n,
{
    if n > 0 {
        lemma_squared_euclidean_self_general(a, n - 1);
        assert(diff_squared(a[n - 1], a[n - 1]) == T::zero_spec());
    }
}

/// The squared euclidean distance from a point to itself is zero.
pub proof fn lemma_squared_euclidean_self(a: Seq<u64>)
    ensures
        squared_euclidean_spec(a, a) == 0u64,
{
    assert forall|x: u64| #[trigger] x.sub_spec(x) == <u64 as Axis>::zero_spec() by {
        assert(u64_specs::wrapping_sub(x, x) == 0u64);
    }
    lemma_squared_euclidean_self_general(a, a.len() as int);
}

/// The squared difference of two `u64` coordinates does not depend on their
/// order: modulo 2^64, `(x - y)^2 == (y - x)^2`.
pub proof fn lemma_diff_squared_sym(x: u64, y: u64)
    ensures
        diff_squared(x, y) == diff_squared(y, x),
{
    let r: int = 0x1_0000_0000_0000_0000;
    if x != y {
        let d1: int = u64_specs::wrapping_sub(x, y) as int;
        let d2: int = u64_specs::wrapping_sub(y, x) as int;
        assert(d1 + d2 == r);
        assert(d2 * d2 == r * (r - 2 * d1) + d1 * d1) by (nonlinear_arith)
            requires
                d2 == r - d1,
        ;
        lemma_mod_multiples_vanish(r - 2 * d1, d1 * d1, r);
        assert((d1 * d1) % r == (d2 * d2) % r);
    }
}

/// For any scalar whose squared difference is symmetric, the squared
/// euclidean distance is symmetric, whatever the prefix length.
pub proof fn lemma_squared_euclidean_sym_general<T: Axis>(a: Seq<T>, b: Seq<T>, n: int)
    requires
        forall|x: T, y: T| #[trigger] diff_squared(x, y) == diff_squared(y, x),
    ensures
        squared_euclidean_prefix(a, b, n) == squared_euclidean_prefix(b, a, n),
    decreases n,
{
    if n > 0 {
        lemma_squared_euclidean_sym_general(a, b, n - 1);
    }
}

/// The squared euclidean distance between two `u64` points of equal
/// dimensionality is symmetric in its arguments.
pub proof fn lemma_squared_euclidean_sym(a: Seq<u64>, b: Seq<u64>)
    requires
        a.len() == b.len(),
    ensures
        squared_euclidean_spec(a, b) == squared_euclidean_spec(b, a),
{
    assert forall|x: u64, y: u64| #[trigger] diff_squared(x, y) == diff_squared(y, x) by {
        lemma_diff_squared_sym(x, y);
    }
    lemma_squared_euclidean_sym_general(a, b, a.len() as int);
}

/// For any scalar whose zero is a left and right identity of addition, the
/// three-lane kernel result on four-dimensional points whose last
/// coordinate product is zero coincides with the conventional dot product
/// over all four coordinates (the left-to-right sum of all four products).
pub proof fn lemma_dot_three_lanes_matches_dot_sum_general<T: Axis>(a: Seq<T>, b: Seq<T>)
    requires
        a.len() == 4,
        b.len() == 4,
        a[3].mul_spec(b[3]) == T::zero_spec(),
        forall|z: T| #[trigger] T::zero_spec().add_spec(z) == z,
        forall|z: T| #[trigger] z.add_spec(T::zero_spec()) == z,
    ensures
        dot_three_lanes_spec(a, b) == dot_sum_prefix(a, b, 4),
{
    reveal_with_fuel(dot_sum_prefix, 5);
    let p0 = a[0].mul_spec(b[0]);
    let p1 = a[1].mul_spec(b[1]);
    let p2 = a[2].mul_spec(b[2]);
    assert(dot_sum_prefix(a, b, 1) == T::zero_spec().add_spec(p0));
    assert(dot_sum_prefix(a, b, 3) == p0.add_spec(p1).add_spec(p2));
    assert(dot_sum_prefix(a, b, 4) == dot_sum_prefix(a, b, 3).add_spec(T::zero_spec()));
}

/// On four-dimensional `u64` points whose last coordinate product vanishes,
/// the three-lane kernel result coincides with the conventional dot product
/// over all four coordinates (the left-to-right sum of all four products).
/// When the last product is non-zero the two differ: the kernel's multiply
/// mask never admits lane 3.
pub proof fn lemma_dot_three_lanes_matches_dot_sum(a: Seq<u64>, b: Seq<u64>)
    requires
        a.len() == 4,
        b.len() == 4,
        a[3].mul_spec(b[3]) == 0u64,
    ensures
        dot_three_lanes_spec(a, b) == dot_sum_prefix(a, b, 4),
{
    assert forall|z: u64| #[trigger] <u64 as Axis>::zero_spec().add_spec(z) == z by {
        assert(u64_specs::wrapping_add(0u64, z) == z);
    }
    assert forall|z: u64| #[trigger] z.add_spec(<u64 as Axis>::zero_spec()) == z by {
        assert(u64_specs::wrapping_add(z, 0u64) == z);
    }
    lemma_dot_three_lanes_matches_dot_sum_general(a, b);
}

/// The subtraction fold that `dot_product` computes is, on `u64` points,
/// the wrapping negation of the conventional dot product: for every prefix
/// length, `(0 - p(0)) - ... - p(n - 1) == 0 - (p(0) + ... + p(n - 1))`
/// modulo 2^64.
pub proof fn lemma_dot_product_negates_general(a: Seq<u64>, b: Seq<u64>, n: int)
    ensures
        dot_product_prefix(a, b, n) == u64_specs::wrapping_sub(0u64, dot_sum_prefix(a, b, n)),
    decreases n,
{
    if n > 0 {
        lemma_dot_product_negates_general(a, b, n - 1);
    }
}

/// `dot_product` on `u64` points returns the wrapping negation of the
/// conventional dot product of the same points.
pub proof fn lemma_dot_product_negates(a: Seq<u64>, b: Seq<u64>)
    requires
        a.len() == b.len(),
    ensures
        dot_product_spec(a, b) == u64_specs::wrapping_sub(
            0u64,
            dot_sum_prefix(a, b, a.len() as int),
        ),
{
    lemma_dot_product_negates_general(a, b, a.len() as int);
}

} // verus!
