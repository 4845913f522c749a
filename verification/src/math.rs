//! Spatial and camera math: matrix product, frustum-plane extraction and the
//! sphere-versus-frustum test.
//!
//! Matrices are stored column-major, as the GPU expects them: `m[c][r]` is the
//! entry in column `c`, row `r`.  Entries are fixed-point integers; the host
//! chooses the projection and view matrices (their trigonometry is float work)
//! and hands them over already scaled.

use vstd::prelude::*;
use crate::types::Vector3;

verus! {

/// A 4x4 matrix, column-major: `m[c][r]` is column `c`, row `r`.
pub type Mat4 = [[i64; 4]; 4];

/// Largest entry magnitude `mul_mat4` accepts; keeps every product sum
/// within `i64`.
pub const MAT_LIMIT: i64 = 0x2000_0000;

/// One frustum plane: the half-space `a*x + b*y + c*z + d >= 0` is inside.
#[derive(Clone, Copy, Debug, PartialEq, Eq, Structural)]
pub struct Plane {
    pub a: i64,
    pub b: i64,
    pub c: i64,
    pub d: i64,
}

/// Bounds every product `a * b` by the bounds of its factors.
pub proof fn lemma_mul_bound(a: int, b: int, ba: int, bb: int)
    by (nonlinear_arith)
    requires
        -ba <= a <= ba,
        -bb <= b <= bb,
    ensures
        -(ba * bb) <= a * b <= ba * bb,
{
}

/// Every entry of `m` has magnitude at most `bound`.
pub open spec fn mat_bounded(m: Mat4, bound: int) -> bool {
    forall|c: int, r: int|
        0 <= c < 4 && 0 <= r < 4 ==> -bound <= #[trigger] m[c][r] <= bound
}

/// Entry `(c, r)` of the column-major product `a * b`.
pub open spec fn product_entry(a: Mat4, b: Mat4, c: int, r: int) -> int {
    a[0][r] * b[c][0] + a[1][r] * b[c][1] + a[2][r] * b[c][2] + a[3][r] * b[c][3]
}

fn mul_entry(a: &Mat4, b: &Mat4, c: usize, r: usize) -> (out: i64)
    requires
        c < 4,
        r < 4,
        mat_bounded(*a, MAT_LIMIT as int),
        mat_bounded(*b, MAT_LIMIT as int),
    ensures
        out == product_entry(*a, *b, c as int, r as int),
        -(4 * MAT_LIMIT * MAT_LIMIT) <= out <= 4 * MAT_LIMIT * MAT_LIMIT,
{
    proof {
        lemma_mul_bound(a[0][r as int] as int, b[c as int][0] as int, MAT_LIMIT as int, MAT_LIMIT as int);
        lemma_mul_bound(a[1][r as int] as int, b[c as int][1] as int, MAT_LIMIT as int, MAT_LIMIT as int);
        lemma_mul_bound(a[2][r as int] as int, b[c as int][2] as int, MAT_LIMIT as int, MAT_LIMIT as int);
        lemma_mul_bound(a[3][r as int] as int, b[c as int][3] as int, MAT_LIMIT as int, MAT_LIMIT as int);
    }
    a[0][r] * b[c][0] + a[1][r] * b[c][1] + a[2][r] * b[c][2] + a[3][r] * b[c][3]
}

/// Column-major matrix product, exact over fixed-point entries.
pub fn mul_mat4(a: &Mat4, b: &Mat4) -> (out: Mat4)
    requires
        mat_bounded(*a, MAT_LIMIT as int),
        mat_bounded(*b, MAT_LIMIT as int),
    ensures
        forall|c: int, r: int|
            0 <= c < 4 && 0 <= r < 4 ==> #[trigger] out[c][r] == product_entry(*a, *b, c, r),
        mat_bounded(out, 4 * MAT_LIMIT * MAT_LIMIT),
{
    let out: Mat4 = [
        [
            mul_entry(a, b, 0, 0),
            mul_entry(a, b, 0, 1),
            mul_entry(a, b, 0, 2),
            mul_entry(a, b, 0, 3),
        ],
        [
            mul_entry(a, b, 1, 0),
            mul_entry(a, b, 1, 1),
            mul_entry(a, b, 1, 2),
            mul_entry(a, b, 1, 3),
        ],
        [
            mul_entry(a, b, 2, 0),
            mul_entry(a, b, 2, 1),
            mul_entry(a, b, 2, 2),
            mul_entry(a, b, 2, 3),
        ],
        [
            mul_entry(a, b, 3, 0),
            mul_entry(a, b, 3, 1),
            mul_entry(a, b, 3, 2),
            mul_entry(a, b, 3, 3),
        ],
    ];
    out
}

/// Largest entry magnitude `get_frustum_planes` accepts; keeps every plane
/// coefficient (a sum of two entries) within `i64`.
pub const FRUSTUM_MAT_LIMIT: i64 = 0x3fff_ffff_ffff_ffff;

/// The six planes of the view frustum of a combined projection-view matrix,
/// in the order left, right, bottom, top, near, far.  Plane `i` is row 3 of
/// the matrix plus (even `i`) or minus (odd `i`) row `i / 2`.
pub open spec fn frustum_plane(m: Mat4, i: int) -> Plane {
    let r = i / 2;
    if i % 2 == 0 {
        Plane {
            a: (m[0][3] + m[0][r]) as i64,
            b: (m[1][3] + m[1][r]) as i64,
            c: (m[2][3] + m[2][r]) as i64,
            d: (m[3][3] + m[3][r]) as i64,
        }
    } else {
        Plane {
            a: (m[0][3] - m[0][r]) as i64,
            b: (m[1][3] - m[1][r]) as i64,
            c: (m[2][3] - m[2][r]) as i64,
            d: (m[3][3] - m[3][r]) as i64,
        }
    }
}

fn plane_sum(m: &Mat4, r: usize) -> (out: Plane)
    requires
        r < 3,
        mat_bounded(*m, FRUSTUM_MAT_LIMIT as int),
    ensures
        out == frustum_plane(*m, 2 * r as int),
{
    Plane {
        a: m[0][3] + m[0][r],
        b: m[1][3] + m[1][r],
        c: m[2][3] + m[2][r],
        d: m[3][3] + m[3][r],
    }
}

fn plane_diff(m: &Mat4, r: usize) -> (out: Plane)
    requires
        r < 3,
        mat_bounded(*m, FRUSTUM_MAT_LIMIT as int),
    ensures
        out == frustum_plane(*m, 2 * r as int + 1),
{
    Plane {
        a: m[0][3] - m[0][r],
        b: m[1][3] - m[1][r],
        c: m[2][3] - m[2][r],
        d: m[3][3] - m[3][r],
    }
}

/// Extracts the six frustum planes of a combined projection-view matrix.
pub fn get_frustum_planes(m: &Mat4) -> (out: [Plane; 6])
    requires
        mat_bounded(*m, FRUSTUM_MAT_LIMIT as int),
    ensures
        forall|i: int| 0 <= i < 6 ==> #[trigger] out[i] == frustum_plane(*m, i),
{
    let out: [Plane; 6] = [
        plane_sum(m, 0),
        plane_diff(m, 0),
        plane_sum(m, 1),
        plane_diff(m, 1),
        plane_sum(m, 2),
        plane_diff(m, 2),
    ];
    out
}

/// Signed distance numerator of `v` from plane `p` (unnormalised).
pub open spec fn plane_dist(p: Plane, v: Vector3) -> int {
    p.a * v.x + p.b * v.y + p.c * v.z + p.d
}

/// The largest of the three scale components.
pub open spec fn max_scale(scale: Vector3) -> int {
    let m: int = if scale.y > scale.z { scale.y as int } else { scale.z as int };
    if scale.x > m { scale.x as int } else { m }
}

/// The bounding sphere around `pos`, with the radius heuristic of two and a
/// half times the largest scale component, reaches inside or touches every
/// frustum plane.  Stated over doubled distances so the heuristic stays in
/// integers: `dist >= -(5/2) * max_scale`.
pub open spec fn sphere_visible(planes: Seq<Plane>, pos: Vector3, scale: Vector3) -> bool {
    forall|i: int| 0 <= i < 6 ==> 2 * plane_dist(#[trigger] planes[i], pos) + 5 * max_scale(scale) >= 0
}

fn plane_dist_doubled(p: &Plane, v: &Vector3) -> (out: i128)
    ensures
        out == 2 * plane_dist(*p, *v),
        out <= 0x1_0000_0000_0000_0000_0000_0000_0000,
        out >= -0x1_0000_0000_0000_0000_0000_0000_0000,
{
    proof {
        lemma_mul_bound(p.a as int, v.x as int, 0x8000_0000_0000_0000, 0x8000_0000);
        lemma_mul_bound(p.b as int, v.y as int, 0x8000_0000_0000_0000, 0x8000_0000);
        lemma_mul_bound(p.c as int, v.z as int, 0x8000_0000_0000_0000, 0x8000_0000);
    }
    let dist: i128 = (p.a as i128) * (v.x as i128) + (p.b as i128) * (v.y as i128)
        + (p.c as i128) * (v.z as i128) + (p.d as i128);
    2 * dist
}

/// Tests the bounding sphere of one instance against the six frustum planes:
/// true when the sphere around `pos` with the scale-derived radius heuristic
/// intersects the frustum.
pub fn frustum_test(pos: &Vector3, scale: &Vector3, planes: &[Plane; 6]) -> (out: bool)
    ensures
        out == sphere_visible(planes@, *pos, *scale),
{
    let m0 = if scale.y > scale.z { scale.y } else { scale.z };
    let m = if scale.x > m0 { scale.x } else { m0 };
    let radius5: i128 = 5 * (m as i128);
    let mut i: usize = 0;
    while i < 6
        invariant
            i <= 6,
            radius5 == 5 * max_scale(*scale),
            forall|k: int| 0 <= k < i ==> 2 * plane_dist(#[trigger] planes@[k], *pos) + radius5 >= 0,
        decreases 6 - i,
    {
        let dist2 = plane_dist_doubled(&planes[i], pos);
        if dist2 + radius5 < 0 {
            return false;
        }
        i = i + 1;
    }
    true
}

} // verus!
