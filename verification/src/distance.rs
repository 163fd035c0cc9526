//! Distance metrics over fixed-length points, generic over the coordinate
//! scalar.

use vstd::prelude::*;

use crate::axis::Axis;

verus! {

/// The squared per-coordinate difference `(x - y) * (x - y)`.
pub open spec fn diff_squared<T: Axis>(x: T, y: T) -> T {
    x.sub_spec(y).mul_spec(x.sub_spec(y))
}

/// Left fold, seeded with zero, of the squared differences of the first `n`
/// coordinate pairs: `((zero + d(0)) + d(1)) + ... + d(n - 1)` where
/// `d(i) = (a[i] - b[i])^2`.
pub open spec fn squared_euclidean_prefix<T: Axis>(a: Seq<T>, b: Seq<T>, n: int) -> T
    decreases n,
{
    if n <= 0 {
        T::zero_spec()
    } else {
        squared_euclidean_prefix(a, b, n - 1).add_spec(diff_squared(a[n - 1], b[n - 1]))
    }
}

/// The squared euclidean distance of two points of equal dimensionality:
/// the sum of the squared coordinate differences, taken strictly left to
/// right (index 0 first), so that the result is reproducible for scalars
/// whose addition is not associative.
pub open spec fn squared_euclidean_spec<T: Axis>(a: Seq<T>, b: Seq<T>) -> T
    recommends
        a.len() == b.len(),
{
    squared_euclidean_prefix(a, b, a.len() as int)
}

/// Returns the squared euclidean distance between two points. When distances
/// are only compared with one another this metric orders them exactly as the
/// euclidean distance would, while avoiding the square root.
pub fn squared_euclidean<T: Axis, const K: usize>(a: &[T; K], b: &[T; K]) -> (r: T)
    ensures
        r == squared_euclidean_spec(a@, b@),
{
    let mut acc = T::zero();
    let mut i: usize = 0;
    while i < K
        invariant
            i <= K,
            acc == squared_euclidean_prefix(a@, b@, i as int),
        decreases K - i,
    {
        let x: T = *vstd::array::array_index_get(a, i);
        let y: T = *vstd::array::array_index_get(b, i);
        let d = x.sub(y);
        acc = acc.add(d.mul(d));
        i = i + 1;
    }
    acc
}

/// Left fold, seeded with zero, that *subtracts* each of the first `n`
/// coordinate products in turn: `((zero - p(0)) - p(1)) - ... - p(n - 1)`
/// where `p(i) = a[i] * b[i]`.
pub open spec fn dot_product_prefix<T: Axis>(a: Seq<T>, b: Seq<T>, n: int) -> T
    decreases n,
{
    if n <= 0 {
        T::zero_spec()
    } else {
        dot_product_prefix(a, b, n - 1).sub_spec(a[n - 1].mul_spec(b[n - 1]))
    }
}

/// What `dot_product` returns: the subtraction fold over all coordinate
/// products. Note that this is the *negation* of the conventional dot
/// product (for scalars where negation makes sense); the reduction is kept
/// exactly as the callers of this library expect it.
pub open spec fn dot_product_spec<T: Axis>(a: Seq<T>, b: Seq<T>) -> T
    recommends
        a.len() == b.len(),
{
    dot_product_prefix(a, b, a.len() as int)
}

/// Left fold, seeded with zero, that *adds* each of the first `n` coordinate
/// products in turn: the conventional dot product, reduced strictly left to
/// right. `dot_product` deliberately does not compute this (see
/// `dot_product_spec`); it is stated here so that the kernels can be related
/// to it.
pub open spec fn dot_sum_prefix<T: Axis>(a: Seq<T>, b: Seq<T>, n: int) -> T
    decreases n,
{
    if n <= 0 {
        T::zero_spec()
    } else {
        dot_sum_prefix(a, b, n - 1).add_spec(a[n - 1].mul_spec(b[n - 1]))
    }
}

/// The portable dot product. Deliberately non-standard: the products are
/// reduced by a left fold that starts at zero and subtracts each product,
/// so the result is the negation of the conventional dot product. Callers
/// rely on exactly this reduction; do not "fix" it here.
pub fn dot_product<T: Axis, const K: usize>(a: &[T; K], b: &[T; K]) -> (r: T)
    ensures
        r == dot_product_spec(a@, b@),
{
    let mut acc = T::zero();
    let mut i: usize = 0;
    while i < K
        invariant
            i <= K,
            acc == dot_product_prefix(a@, b@, i as int),
        decreases K - i,
    {
        let x: T = *vstd::array::array_index_get(a, i);
        let y: T = *vstd::array::array_index_get(b, i);
        acc = acc.sub(x.mul(y));
        i = i + 1;
    }
    acc
}

/// What the four-lane kernels return: the sum of the products of the first
/// *three* lane pairs, combined left to right,
/// `(a[0]*b[0] + a[1]*b[1]) + a[2]*b[2]`.
///
/// The hardware kernel this models is a horizontal dot-product instruction
/// whose multiply mask selects lanes 0, 1 and 2 only; lane 3 of both
/// operands is loaded but its product never enters the sum.
pub open spec fn dot_three_lanes_spec<T: Axis>(a: Seq<T>, b: Seq<T>) -> T
    recommends
        a.len() >= 3,
        b.len() >= 3,
{
    a[0].mul_spec(b[0]).add_spec(a[1].mul_spec(b[1])).add_spec(a[2].mul_spec(b[2]))
}

/// The four-lane kernel. Reads four lanes of each operand, multiplies the
/// first three lane pairs and sums those products left to right; the fourth
/// lane is read but excluded from the sum by the kernel's multiply mask.
///
/// An unverified hardware counterpart performs the same computation with
/// unaligned vector loads; this body is the portable rendition of it.
pub fn dot_product_sse_4<T: Axis>(a: &[T], b: &[T]) -> (r: T)
    requires
        a@.len() >= 4,
        b@.len() >= 4,
    ensures
        r == dot_three_lanes_spec(a@, b@),
{
    let p0 = (*vstd::slice::slice_index_get(a, 0)).mul(*vstd::slice::slice_index_get(b, 0));
    let p1 = (*vstd::slice::slice_index_get(a, 1)).mul(*vstd::slice::slice_index_get(b, 1));
    let p2 = (*vstd::slice::slice_index_get(a, 2)).mul(*vstd::slice::slice_index_get(b, 2));
    p0.add(p1).add(p2)
}

/// The three-dimensional entry to the four-lane kernel: pads each operand
/// with a trailing zero lane to form a four-lane operand and delegates to
/// `dot_product_sse_4`. The padding lane is excluded from the sum by the
/// kernel's mask anyway, so the result is the three-lane product sum of the
/// unpadded inputs.
pub fn dot_product_sse_3<T: Axis>(a: &[T], b: &[T]) -> (r: T)
    requires
        a@.len() >= 3,
        b@.len() >= 3,
    ensures
        r == dot_three_lanes_spec(a@, b@),
{
    let pa: [T; 4] = [
        *vstd::slice::slice_index_get(a, 0),
        *vstd::slice::slice_index_get(a, 1),
        *vstd::slice::slice_index_get(a, 2),
        T::zero(),
    ];
    let pb: [T; 4] = [
        *vstd::slice::slice_index_get(b, 0),
        *vstd::slice::slice_index_get(b, 1),
        *vstd::slice::slice_index_get(b, 2),
        T::zero(),
    ];
    dot_product_sse_4(pa.as_slice(), pb.as_slice())
}

/// The four-lane kernel for operands whose backing storage the caller keeps
/// sixteen-byte aligned. Its unverified hardware counterpart differs from
/// the unaligned one only in using aligned vector loads — alignment is a
/// property of real memory with no counterpart in this model — so this body
/// delegates to the same computation, and the two kernels return identical
/// results for identical inputs by construction.
pub fn dot_product_sse_aligned<T: Axis>(a: &[T; 4], b: &[T; 4]) -> (r: T)
    ensures
        r == dot_three_lanes_spec(a@, b@),
{
    dot_product_sse_4(a.as_slice(), b.as_slice())
}

/// The accelerated dispatcher. Exactly one branch fires:
/// three-dimensional points go through the padded three-lane kernel,
/// four-dimensional points through the four-lane kernel, and every other
/// dimensionality falls back to the portable `dot_product`.
///
/// Both accelerated branches pair `a` with *itself*, so they return the
/// three-lane self product sum of `a` and ignore `b`; only the fallback
/// combines `a` with `b`. This self-pairing is the behaviour callers of
/// this library get today and is kept deliberately; `dot_product_sse_cross`
/// is the variant that pairs `a` with `b`.
pub fn dot_product_sse<T: Axis, const K: usize>(a: &[T; K], b: &[T; K]) -> (r: T)
    ensures
        K == 3 ==> r == dot_three_lanes_spec(a@, a@),
        K == 4 ==> r == dot_three_lanes_spec(a@, a@),
        K != 3 && K != 4 ==> r == dot_product_spec(a@, b@),
{
    if K == 3 {
        dot_product_sse_3(a.as_slice(), a.as_slice())
    } else if K == 4 {
        dot_product_sse_4(a.as_slice(), a.as_slice())
    } else {
        dot_product(a, b)
    }
}

/// The dispatcher as its accelerated branches were most likely meant to be:
/// identical to `dot_product_sse` except that the accelerated branches pair
/// `a` with `b`. Offered beside the historical dispatcher so that callers
/// can choose the pairing explicitly.
pub fn dot_product_sse_cross<T: Axis, const K: usize>(a: &[T; K], b: &[T; K]) -> (r: T)
    ensures
        K == 3 ==> r == dot_three_lanes_spec(a@, b@),
        K == 4 ==> r == dot_three_lanes_spec(a@, b@),
        K != 3 && K != 4 ==> r == dot_product_spec(a@, b@),
{
    if K == 3 {
        dot_product_sse_3(a.as_slice(), b.as_slice())
    } else if K == 4 {
        dot_product_sse_4(a.as_slice(), b.as_slice())
    } else {
        dot_product(a, b)
    }
}

} // verus!
