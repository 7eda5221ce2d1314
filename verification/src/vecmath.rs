//! Fixed-point 3-vectors and triangle geometry.
//!
//! Vertex positions and ray directions are triples of `i32` Q16.16
//! coordinates, bounded by [`COORD_LIMIT`] so that cross products and
//! squared magnitudes fit in machine integers with exact results.

use vstd::prelude::*;
use crate::scalar::{isqrt_u128, spec_isqrt};

verus! {

/// Largest coordinate magnitude the library accepts: 2048.0 in Q16.16.
/// Keeps every cross-product component within `i64` and every squared
/// magnitude within `u128`.
pub const COORD_LIMIT: i32 = 0x0800_0000;

/// A position or direction in Q16.16 fixed point.
#[derive(Clone, Copy, Debug, PartialEq, Eq, Structural)]
pub struct Vec3 {
    pub x: i32,
    pub y: i32,
    pub z: i32,
}

pub open spec fn coord_in_range(c: int) -> bool {
    -(COORD_LIMIT as int) <= c <= COORD_LIMIT as int
}

pub open spec fn vec_in_range(v: Vec3) -> bool {
    coord_in_range(v.x as int) && coord_in_range(v.y as int) && coord_in_range(v.z as int)
}

/// The squared magnitude of the cross product of the triangle's two edge
/// vectors, `|(p1 - p0) x (p2 - p0)|^2`, exact over the integers.
pub open spec fn spec_cross_mag2(p0: Vec3, p1: Vec3, p2: Vec3) -> int {
    let e1x = p1.x - p0.x;
    let e1y = p1.y - p0.y;
    let e1z = p1.z - p0.z;
    let e2x = p2.x - p0.x;
    let e2y = p2.y - p0.y;
    let e2z = p2.z - p0.z;
    let cx = e1y * e2z - e1z * e2y;
    let cy = e1z * e2x - e1x * e2z;
    let cz = e1x * e2y - e1y * e2x;
    cx * cx + cy * cy + cz * cz
}

/// The triangle's surface area in Q16.16: half the cross-product magnitude,
/// rounded down.  The squared magnitude carries a `2^64` scale (Q32.32
/// squared terms), so dividing its root by `2^17` yields Q16.16 halves.
pub open spec fn spec_triangle_area_q16(p0: Vec3, p1: Vec3, p2: Vec3) -> int {
    spec_isqrt(spec_cross_mag2(p0, p1, p2)) / 0x20000
}

/// Computes `|(p1 - p0) x (p2 - p0)|^2` exactly.
pub fn cross_mag2(p0: &Vec3, p1: &Vec3, p2: &Vec3) -> (r: u128)
    requires
        vec_in_range(*p0),
        vec_in_range(*p1),
        vec_in_range(*p2),
    ensures
        r as int == spec_cross_mag2(*p0, *p1, *p2),
{
    let e1x: i64 = p1.x as i64 - p0.x as i64;
    let e1y: i64 = p1.y as i64 - p0.y as i64;
    let e1z: i64 = p1.z as i64 - p0.z as i64;
    let e2x: i64 = p2.x as i64 - p0.x as i64;
    let e2y: i64 = p2.y as i64 - p0.y as i64;
    let e2z: i64 = p2.z as i64 - p0.z as i64;
    proof {
        lemma_edge_product_bound(e1y as int, e2z as int);
        lemma_edge_product_bound(e1z as int, e2y as int);
        lemma_edge_product_bound(e1z as int, e2x as int);
        lemma_edge_product_bound(e1x as int, e2z as int);
        lemma_edge_product_bound(e1x as int, e2y as int);
        lemma_edge_product_bound(e1y as int, e2x as int);
    }
    let cx: i64 = e1y * e2z - e1z * e2y;
    let cy: i64 = e1z * e2x - e1x * e2z;
    let cz: i64 = e1x * e2y - e1y * e2x;
    proof {
        lemma_cross_square_bound(cx as int);
        lemma_cross_square_bound(cy as int);
        lemma_cross_square_bound(cz as int);
    }
    let m: i128 = (cx as i128) * (cx as i128) + (cy as i128) * (cy as i128) + (cz as i128) * (cz
        as i128);
    m as u128
}

/// An edge-coordinate product stays within `2^56` when both factors are
/// bounded by twice [`COORD_LIMIT`].
proof fn lemma_edge_product_bound(a: int, b: int)
    requires
        -0x1000_0000 <= a <= 0x1000_0000,
        -0x1000_0000 <= b <= 0x1000_0000,
    ensures
        -0x100_0000_0000_0000 <= a * b <= 0x100_0000_0000_0000,
{
    assert(-0x100_0000_0000_0000 <= a * b <= 0x100_0000_0000_0000) by (nonlinear_arith)
        requires
            -0x1000_0000 <= a <= 0x1000_0000,
            -0x1000_0000 <= b <= 0x1000_0000,
    ;
}

/// The square of a cross-product component stays within `2^114`.
proof fn lemma_cross_square_bound(c: int)
    requires
        -0x200_0000_0000_0000 <= c <= 0x200_0000_0000_0000,
    ensures
        0 <= c * c <= 0x4_0000_0000_0000_0000_0000_0000_0000,
{
    assert(0 <= c * c <= 0x4_0000_0000_0000_0000_0000_0000_0000) by (nonlinear_arith)
        requires
            -0x200_0000_0000_0000 <= c <= 0x200_0000_0000_0000,
    ;
}

/// A squared cross-product magnitude is a sum of squares, hence nonnegative.
pub proof fn lemma_cross_mag2_nonneg(p0: Vec3, p1: Vec3, p2: Vec3)
    ensures
        spec_cross_mag2(p0, p1, p2) >= 0,
{
    let e1x = p1.x - p0.x;
    let e1y = p1.y - p0.y;
    let e1z = p1.z - p0.z;
    let e2x = p2.x - p0.x;
    let e2y = p2.y - p0.y;
    let e2z = p2.z - p0.z;
    let cx = e1y * e2z - e1z * e2y;
    let cy = e1z * e2x - e1x * e2z;
    let cz = e1x * e2y - e1y * e2x;
    assert(cx * cx + cy * cy + cz * cz >= 0) by (nonlinear_arith);
}

/// Triangle areas are never negative.
pub proof fn lemma_triangle_area_nonneg(p0: Vec3, p1: Vec3, p2: Vec3)
    ensures
        spec_triangle_area_q16(p0, p1, p2) >= 0,
{
    lemma_cross_mag2_nonneg(p0, p1, p2);
    crate::scalar::lemma_isqrt_exists(spec_cross_mag2(p0, p1, p2));
}

/// The triangle's surface area in Q16.16, rounded down.
pub fn triangle_area_q16(p0: &Vec3, p1: &Vec3, p2: &Vec3) -> (r: u64)
    requires
        vec_in_range(*p0),
        vec_in_range(*p1),
        vec_in_range(*p2),
    ensures
        r as int == spec_triangle_area_q16(*p0, *p1, *p2),
{
    let m = cross_mag2(p0, p1, p2);
    isqrt_u128(m) / 0x20000
}

} // verus!
