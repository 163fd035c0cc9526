//! Tests of the distance metrics, on a single-precision floating-point
//! coordinate scalar and on the `u64` instance.

use kiddo::axis::Axis;
use kiddo::distance::dot_product;
use kiddo::distance::dot_product_sse;
use kiddo::distance::dot_product_sse_3;
use kiddo::distance::dot_product_sse_4;
use kiddo::distance::dot_product_sse_aligned;
use kiddo::distance::dot_product_sse_cross;
use kiddo::distance::squared_euclidean;

/// A single-precision floating-point coordinate.
#[derive(Clone, Copy, PartialEq, Debug)]
struct Ax(f32);

impl Axis for Ax {
    // The four `*_spec` items are the compiled remnants of the trait's
    // specification functions; nothing executes them, but an implementation
    // outside the verifier must still supply them, and each is given the
    // same meaning as the operation it describes.
    fn zero_spec() -> Ax {
        Ax(0.0)
    }

    fn add_spec(self, rhs: Ax) -> Ax {
        Ax(self.0 + rhs.0)
    }

    fn sub_spec(self, rhs: Ax) -> Ax {
        Ax(self.0 - rhs.0)
    }

    fn mul_spec(self, rhs: Ax) -> Ax {
        Ax(self.0 * rhs.0)
    }

    fn zero() -> Ax {
        Ax(0.0)
    }

    fn add(self, rhs: Ax) -> Ax {
        Ax(self.0 + rhs.0)
    }

    fn sub(self, rhs: Ax) -> Ax {
        Ax(self.0 - rhs.0)
    }

    fn mul(self, rhs: Ax) -> Ax {
        Ax(self.0 * rhs.0)
    }
}

fn pt<const K: usize>(v: [f32; K]) -> [Ax; K] {
    v.map(Ax)
}

#[test]
fn squared_euclidean_zero_for_equal_points() {
    assert_eq!(squared_euclidean(&pt([0.0, 0.0]), &pt([0.0, 0.0])).0, 0.0);
    assert_eq!(squared_euclidean(&pt([1.5, -2.0, 7.25]), &pt([1.5, -2.0, 7.25])).0, 0.0);
}

#[test]
fn squared_euclidean_concrete_values() {
    assert_eq!(squared_euclidean(&pt([0.0, 0.0]), &pt([0.0, 0.0])).0, 0.0);
    assert_eq!(squared_euclidean(&pt([0.0, 0.0]), &pt([1.0, 1.0])).0, 2.0);
    assert_eq!(squared_euclidean(&pt([0.0, 0.0]), &pt([1.0, 0.0])).0, 1.0);
}

#[test]
fn squared_euclidean_symmetric() {
    let a = pt([1.0, 5.0, -2.0]);
    let b = pt([4.0, 0.0, 3.0]);
    assert_eq!(squared_euclidean(&a, &b).0, squared_euclidean(&b, &a).0);
    assert_eq!(squared_euclidean(&a, &b).0, 9.0 + 25.0 + 25.0);
}

#[test]
fn dot_product_is_subtraction_fold() {
    // 0 - (1 * 3) - (2 * 4), not the conventional dot product 11.
    assert_eq!(dot_product(&pt([1.0, 2.0]), &pt([3.0, 4.0])).0, -11.0);
    assert_eq!(dot_product(&pt([2.0]), &pt([5.0])).0, -10.0);
}

#[test]
fn four_lane_kernel_sums_three_lanes_only() {
    // The kernel's multiply mask admits lanes 0..2 only, so the fourth
    // product 4 * 1 never enters the sum: 1 + 2 + 3, not 10.
    let a = pt([1.0, 2.0, 3.0, 4.0]);
    let b = pt([1.0, 1.0, 1.0, 1.0]);
    assert_eq!(dot_product_sse_4(&a, &b).0, 6.0);
}

#[test]
fn four_lane_kernel_matches_dot_product_when_last_product_vanishes() {
    // With a zero in the fourth lane the three-lane sum coincides with the
    // conventional four-term dot product.
    let a = pt([1.0, 2.0, 3.0, 0.0]);
    let b = pt([1.0, 1.0, 1.0, 9.0]);
    let naive = 1.0f32 * 1.0 + 2.0 * 1.0 + 3.0 * 1.0 + 0.0 * 9.0;
    assert_eq!(dot_product_sse_4(&a, &b).0, naive);
}

#[test]
fn three_dimensional_kernel_pads_and_delegates() {
    let a = pt([1.0, 2.0, 3.0]);
    let b = pt([4.0, 5.0, 6.0]);
    assert_eq!(dot_product_sse_3(&a, &b).0, 4.0 + 10.0 + 18.0);
    // Only the first three elements of longer slices are read into lanes.
    let long_a = pt([1.0, 2.0, 3.0, 100.0, 200.0]);
    let long_b = pt([4.0, 5.0, 6.0, 300.0, 400.0]);
    assert_eq!(dot_product_sse_3(&long_a, &long_b).0, 32.0);
}

#[test]
fn dispatcher_three_dimensional_pairs_a_with_itself() {
    // The historical dispatcher hands `a` twice to the padded kernel, so the
    // result is a's three-lane self product sum, 1 + 4 + 9, and `b` is
    // ignored; the cross variant pairs `a` with `b`.
    let a = pt([1.0, 2.0, 3.0]);
    let b = pt([4.0, 5.0, 6.0]);
    assert_eq!(dot_product_sse(&a, &b).0, 14.0);
    assert_eq!(dot_product_sse_cross(&a, &b).0, 32.0);
}

#[test]
fn dispatcher_four_dimensional_pairs_a_with_itself() {
    let a = pt([1.0, 2.0, 3.0, 4.0]);
    let b = pt([1.0, 1.0, 1.0, 1.0]);
    // Self pairing and the three-lane mask: 1 + 4 + 9, lane 3 excluded.
    assert_eq!(dot_product_sse(&a, &b).0, 14.0);
    assert_eq!(dot_product_sse_cross(&a, &b).0, 6.0);
}

#[test]
fn dispatcher_falls_back_to_portable_dot_product() {
    // Any dimensionality other than 3 or 4 takes the portable subtraction
    // fold, which does combine `a` with `b`.
    assert_eq!(dot_product_sse(&pt([1.0, 2.0]), &pt([3.0, 4.0])).0, -11.0);
    let a5 = pt([1.0, 2.0, 3.0, 4.0, 5.0]);
    let b5 = pt([1.0, 1.0, 1.0, 1.0, 1.0]);
    assert_eq!(dot_product_sse(&a5, &b5).0, -15.0);
}

#[test]
fn aligned_kernel_matches_unaligned_kernel() {
    let cases: [([f32; 4], [f32; 4]); 3] = [
        ([1.0, 2.0, 3.0, 4.0], [1.0, 1.0, 1.0, 1.0]),
        ([0.5, -0.25, 8.0, 2.0], [4.0, 4.0, 0.125, -1.0]),
        ([0.0, 0.0, 0.0, 0.0], [9.0, 9.0, 9.0, 9.0]),
    ];
    for (a, b) in cases {
        let pa = pt(a);
        let pb = pt(b);
        assert_eq!(dot_product_sse_aligned(&pa, &pb).0, dot_product_sse_4(&pa, &pb).0);
    }
}

#[test]
fn kernel_agrees_with_naive_three_lane_sum_on_random_vectors() {
    // A fixed linear congruential generator stands in for random input.
    let mut state: u64 = 0x243F6A8885A308D3;
    let mut next = move || {
        state = state.wrapping_mul(6364136223846793005).wrapping_add(1442695040888963407);
        // A float in roughly [-128.0, 128.0) with plenty of fractional bits.
        ((state >> 33) as f32) / 16777216.0 - 128.0
    };
    for _ in 0..200 {
        let a: [f32; 4] = [next(), next(), next(), next()];
        let b: [f32; 4] = [next(), next(), next(), next()];
        let pa = pt(a);
        let pb = pt(b);
        let naive = (a[0] * b[0] + a[1] * b[1]) + a[2] * b[2];
        assert_eq!(dot_product_sse_4(&pa, &pb).0, naive);
        assert_eq!(dot_product_sse_aligned(&pa, &pb).0, naive);
    }
}

#[test]
fn u64_coordinates_wrap() {
    // 0 - 1 wraps to u64::MAX, whose square wraps to 1: each coordinate
    // contributes 1 to the distance.
    let a: [u64; 2] = [0, 0];
    let b: [u64; 2] = [1, 1];
    assert_eq!(squared_euclidean(&a, &b), 2);
    assert_eq!(squared_euclidean(&b, &a), 2);
    assert_eq!(squared_euclidean(&a, &a), 0);
    assert_eq!(squared_euclidean(&b, &b), 0);
    // The subtraction fold wraps below zero: 0 - 3 - 8 modulo 2^64.
    assert_eq!(dot_product(&[1u64, 2], &[3u64, 4]), u64::MAX - 10);
    // Self pairing on the accelerated branch, as for floats.
    assert_eq!(dot_product_sse(&[1u64, 2, 3], &[4u64, 5, 6]), 14);
    assert_eq!(dot_product_sse_cross(&[1u64, 2, 3], &[4u64, 5, 6]), 32);
}
