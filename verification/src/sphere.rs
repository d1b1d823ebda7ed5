//! Sphere tessellation.
//!
//! A sphere of unit diameter is approximated by a grid of `lon_slices + 1`
//! longitude columns (the first column is duplicated as the last, so texture
//! coordinates need not wrap at the seam) of `lat_strips + 1` latitude rows
//! each. Vertices are emitted column-major: all rows of longitude step 0,
//! then all rows of longitude step 1, and so on. Every column starts at the
//! north pole (`phi_step == 0`) and ends at the south pole
//! (`phi_step == lat_strips`).
//!
//! Each longitude slice contributes one triangle fan cap at each pole and a
//! strip of quads, split into two triangles each, between them. The exact
//! value of every emitted index is pinned by [`sphere_index_at`].

use vstd::arithmetic::div_mod::lemma_fundamental_div_mod_converse;
use vstd::prelude::*;

use crate::shape::TessellationError;
use crate::util::SurfacePoint;

verus! {

/// Resolutions the sphere tessellator accepts: at least two latitude strips
/// and three longitude slices, with a vertex count that fits the 32-bit
/// indices.
pub open spec fn sphere_params_ok(lat_strips: u32, lon_slices: u32) -> bool {
    &&& lat_strips >= 2
    &&& lon_slices >= 3
    &&& (lon_slices + 1) * (lat_strips + 1) <= u32::MAX
}

/// Number of vertices of the tessellated sphere.
pub open spec fn sphere_vertex_count(lat_strips: u32, lon_slices: u32) -> int {
    (lon_slices + 1) * (lat_strips + 1)
}

/// Number of indices of the tessellated sphere: each of the `lon_slices`
/// slices carries `2 * (lat_strips - 1)` triangles.
pub open spec fn sphere_index_count(lat_strips: u32, lon_slices: u32) -> int {
    6 * lon_slices * (lat_strips - 1)
}

/// The `k`-th emitted vertex: longitude step `k / (lat_strips + 1)`,
/// latitude step `k % (lat_strips + 1)`.
pub open spec fn sphere_point(lat_strips: u32, lon_slices: u32, k: int) -> SurfacePoint {
    SurfacePoint::Sphere {
        theta_step: (k / (lat_strips + 1)) as u32,
        phi_step: (k % (lat_strips + 1)) as u32,
        lat_strips,
        lon_slices,
    }
}

/// The `w`-th index emitted for longitude slice `s`: a cap triangle at the
/// north pole, two triangles per interior strip, and a cap triangle at the
/// south pole, stitching column `s` to column `s + 1`.
pub open spec fn sphere_slice_index(lat_strips: u32, lon_slices: u32, s: int, w: int) -> int {
    let ell = lat_strips as int;
    let cols = ell + 1;
    let n = (lon_slices + 1) * cols;
    let a = s * cols;
    if w == 0 {
        a
    } else if w == 1 {
        a + 1
    } else if w == 2 {
        (a + ell + 2) % n
    } else if w < 6 * (ell - 1) - 3 {
        let t = (w - 3) / 6 + 1;
        let p = (w - 3) % 6;
        let i = a + t;
        if p == 0 {
            i
        } else if p == 1 {
            (i + ell + 2) % n
        } else if p == 2 {
            (i + ell + 1) % n
        } else if p == 3 {
            i
        } else if p == 4 {
            i + 1
        } else {
            (i + ell + 2) % n
        }
    } else {
        let i = a + ell - 1;
        let q = w - (6 * (ell - 1) - 3);
        if q == 0 {
            i
        } else if q == 1 {
            i + 1
        } else {
            (i + ell + 1) % n
        }
    }
}

/// The `j`-th emitted index overall: position `j % (6 * (lat_strips - 1))`
/// within longitude slice `j / (6 * (lat_strips - 1))`.
pub open spec fn sphere_index_at(lat_strips: u32, lon_slices: u32, j: int) -> int {
    let group = 6 * (lat_strips - 1);
    sphere_slice_index(lat_strips, lon_slices, j / group, j % group)
}

/// Tessellate a sphere of unit diameter.
///
/// Returns the emitted vertices and the triangle-list indices over them, or
/// `InvalidResolution` exactly when the resolution is below the supported
/// minimum or the vertex count would overflow a 32-bit index.
pub fn sphere_mesh(lat_strips: u32, lon_slices: u32) -> (r: Result<
    (Vec<SurfacePoint>, Vec<u32>),
    TessellationError,
>)
    ensures
        r is Ok <==> sphere_params_ok(lat_strips, lon_slices),
        r matches Err(e) ==> e == TessellationError::InvalidResolution,
        r matches Ok(m) ==> {
            &&& m.0@.len() == sphere_vertex_count(lat_strips, lon_slices)
            &&& forall|k: int|
                0 <= k < m.0@.len() ==> m.0@[k] == sphere_point(lat_strips, lon_slices, k)
            &&& m.1@.len() == sphere_index_count(lat_strips, lon_slices)
            &&& forall|j: int|
                0 <= j < m.1@.len() ==> m.1@[j] == sphere_index_at(lat_strips, lon_slices, j)
            &&& forall|j: int|
                0 <= j < m.1@.len() ==> (#[trigger] m.1@[j]) < sphere_vertex_count(
                    lat_strips,
                    lon_slices,
                )
        },
{
    if lat_strips < 2 || lon_slices < 3 {
        return Err(TessellationError::InvalidResolution);
    }
    let lat1: u64 = lat_strips as u64 + 1;
    let lon1: u64 = lon_slices as u64 + 1;
    proof {
        assert(lon1 as int * lat1 as int <= 0x1_0000_0000_0000_0000int) by (nonlinear_arith)
            requires
                lon1 <= 0x1_0000_0000,
                lat1 <= 0x1_0000_0000,
        ;
    }
    let big: u128 = (lon1 as u128) * (lat1 as u128);
    if big > u32::MAX as u128 {
        return Err(TessellationError::InvalidResolution);
    }
    let n: u64 = big as u64;
    proof {
        assert(sphere_params_ok(lat_strips, lon_slices));
        assert(12 <= n && (lat_strips as int + 1) * 4 <= n && (lon_slices as int + 1) * 3 <= n)
            by (nonlinear_arith)
            requires
                lat_strips >= 2,
                lon_slices >= 3,
                n == (lon_slices as int + 1) * (lat_strips as int + 1),
        ;
    }

    // Vertices, column-major by longitude then latitude.
    let mut points: Vec<SurfacePoint> = Vec::new();
    let mut t: u32 = 0;
    while t <= lon_slices
        invariant
            sphere_params_ok(lat_strips, lon_slices),
            n == (lon_slices as int + 1) * (lat_strips as int + 1),
            lat_strips as int + 1 < u32::MAX,
            lon_slices as int + 1 < u32::MAX,
            t <= lon_slices + 1,
            points@.len() == t * (lat_strips as int + 1),
            forall|k: int|
                0 <= k < points@.len() ==> points@[k] == sphere_point(lat_strips, lon_slices, k),
        decreases lon_slices + 1 - t,
    {
        let mut p: u32 = 0;
        while p <= lat_strips
            invariant
                sphere_params_ok(lat_strips, lon_slices),
                lat_strips as int + 1 < u32::MAX,
                t <= lon_slices,
                p <= lat_strips + 1,
                points@.len() == t * (lat_strips as int + 1) + p,
                forall|k: int|
                    0 <= k < points@.len() ==> points@[k] == sphere_point(
                        lat_strips,
                        lon_slices,
                        k,
                    ),
            decreases lat_strips + 1 - p,
        {
            proof {
                lemma_fundamental_div_mod_converse(
                    t * (lat_strips as int + 1) + p,
                    lat_strips as int + 1,
                    t as int,
                    p as int,
                );
            }
            points.push(
                SurfacePoint::Sphere { theta_step: t, phi_step: p, lat_strips, lon_slices },
            );
            p = p + 1;
        }
        proof {
            assert((t + 1) * (lat_strips as int + 1) == t * (lat_strips as int + 1) + (
            lat_strips as int + 1)) by (nonlinear_arith);
        }
        t = t + 1;
    }
    proof {
        assert(points@.len() == sphere_vertex_count(lat_strips, lon_slices));
    }

    // Indices, `6 * (lat_strips - 1)` per longitude slice.
    let group: u64 = 6 * (lat_strips as u64 - 1);
    let mut indices: Vec<u32> = Vec::new();
    let mut s: u32 = 0;
    while s < lon_slices
        invariant
            sphere_params_ok(lat_strips, lon_slices),
            n == (lon_slices as int + 1) * (lat_strips as int + 1),
            12 <= n <= u32::MAX,
            lat1 == lat_strips as int + 1,
            lat_strips as int + 1 < u32::MAX,
            lon_slices as int + 1 < u32::MAX,
            group == 6 * (lat_strips as int - 1),
            s <= lon_slices,
            indices@.len() == s * group,
            forall|j: int|
                0 <= j < indices@.len() ==> indices@[j] == sphere_index_at(
                    lat_strips,
                    lon_slices,
                    j,
                ),
            forall|j: int|
                0 <= j < indices@.len() ==> (#[trigger] indices@[j]) < n,
        decreases lon_slices - s,
    {
        proof {
            assert(s as int * (lat_strips as int + 1) + (lat_strips as int + 1) <= (
            lon_slices as int + 1) * (lat_strips as int + 1)) by (nonlinear_arith)
                requires
                    s < lon_slices,
            ;
            assert(s as int * group + group <= lon_slices as int * group) by (nonlinear_arith)
                requires
                    s < lon_slices,
                    group >= 0,
            ;
            assert(lon_slices as int * group == sphere_index_count(lat_strips, lon_slices))
                by (nonlinear_arith)
                requires
                    group == 6 * (lat_strips as int - 1),
            ;
        }
        let istart: u64 = s as u64 * lat1;
        let ghost w0: int = s as int * group;

        // Cap triangle at the north pole.
        proof {
            lemma_sphere_pos(lat_strips, lon_slices, s as int, 0);
            lemma_sphere_pos(lat_strips, lon_slices, s as int, 1);
            lemma_sphere_pos(lat_strips, lon_slices, s as int, 2);
        }
        indices.push(istart as u32);
        indices.push((istart + 1) as u32);
        indices.push(((istart + lat_strips as u64 + 2) % n) as u32);

        // Two triangles per interior strip.
        let mut strip: u32 = 1;
        while strip < lat_strips - 1
            invariant
                sphere_params_ok(lat_strips, lon_slices),
                n == (lon_slices as int + 1) * (lat_strips as int + 1),
                12 <= n <= u32::MAX,
                lat_strips as int + 1 < u32::MAX,
                group == 6 * (lat_strips as int - 1),
                s < lon_slices,
                istart == s as int * (lat_strips as int + 1),
                istart + (lat_strips as int + 1) <= n,
                w0 == s as int * group,
                1 <= strip <= lat_strips - 1,
                indices@.len() == w0 + 3 + 6 * (strip - 1),
                forall|j: int|
                    0 <= j < indices@.len() ==> indices@[j] == sphere_index_at(
                        lat_strips,
                        lon_slices,
                        j,
                    ),
                forall|j: int|
                    0 <= j < indices@.len() ==> (#[trigger] indices@[j]) < n,
            decreases lat_strips - 1 - strip,
        {
            let i: u64 = istart + strip as u64;
            proof {
                let w = 3 + 6 * (strip as int - 1);
                lemma_sphere_pos(lat_strips, lon_slices, s as int, w);
                lemma_sphere_pos(lat_strips, lon_slices, s as int, w + 1);
                lemma_sphere_pos(lat_strips, lon_slices, s as int, w + 2);
                lemma_sphere_pos(lat_strips, lon_slices, s as int, w + 3);
                lemma_sphere_pos(lat_strips, lon_slices, s as int, w + 4);
                lemma_sphere_pos(lat_strips, lon_slices, s as int, w + 5);
                lemma_fundamental_div_mod_converse(w - 3, 6, strip as int - 1, 0);
                lemma_fundamental_div_mod_converse(w - 2, 6, strip as int - 1, 1);
                lemma_fundamental_div_mod_converse(w - 1, 6, strip as int - 1, 2);
                lemma_fundamental_div_mod_converse(w, 6, strip as int - 1, 3);
                lemma_fundamental_div_mod_converse(w + 1, 6, strip as int - 1, 4);
                lemma_fundamental_div_mod_converse(w + 2, 6, strip as int - 1, 5);
            }
            indices.push(i as u32);
            indices.push(((i + lat_strips as u64 + 2) % n) as u32);
            indices.push(((i + lat_strips as u64 + 1) % n) as u32);
            indices.push(i as u32);
            indices.push((i + 1) as u32);
            indices.push(((i + lat_strips as u64 + 2) % n) as u32);
            strip = strip + 1;
        }

        // Cap triangle at the south pole.
        let i: u64 = istart + lat_strips as u64 - 1;
        proof {
            let w = 3 + 6 * (lat_strips as int - 2);
            assert(w == 6 * (lat_strips as int - 1) - 3);
            lemma_sphere_pos(lat_strips, lon_slices, s as int, w);
            lemma_sphere_pos(lat_strips, lon_slices, s as int, w + 1);
            lemma_sphere_pos(lat_strips, lon_slices, s as int, w + 2);
        }
        indices.push(i as u32);
        indices.push((i + 1) as u32);
        indices.push(((i + lat_strips as u64 + 1) % n) as u32);

        proof {
            assert((s + 1) * group == s * group + group) by (nonlinear_arith);
        }
        s = s + 1;
    }
    proof {
        assert(lon_slices as int * group == sphere_index_count(lat_strips, lon_slices))
            by (nonlinear_arith)
            requires
                group == 6 * (lat_strips as int - 1),
        ;
        assert(forall|j: int|
            0 <= j < indices@.len() ==> (#[trigger] indices@[j]) < sphere_vertex_count(
                lat_strips,
                lon_slices,
            ));
    }
    Ok((points, indices))
}

/// Law: the emitted indices form, per longitude slice, one triangle at each
/// pole cap and two per interior latitude band — three indices each.
pub proof fn lemma_sphere_triangle_count(lat_strips: u32, lon_slices: u32)
    requires
        lat_strips >= 2,
    ensures
        sphere_index_count(lat_strips, lon_slices) == 3 * (lon_slices * (2 + 2 * (lat_strips
            - 2))),
{
    assert(6 * lon_slices as int * (lat_strips as int - 1) == 3 * (lon_slices as int * (2 + 2 * (
    lat_strips as int - 2)))) by (nonlinear_arith);
}

/// Law: every longitude column of the emitted sphere starts at the north
/// pole and ends at the south pole. The vertex at row 0 of column `c` has
/// latitude step 0 (`phi == 0`, normal straight up) and the vertex at row
/// `lat_strips` has the full latitude step (`phi == pi`, normal straight
/// down), whatever the longitude.
pub proof fn lemma_sphere_pole_rows(lat_strips: u32, lon_slices: u32, c: int)
    requires
        sphere_params_ok(lat_strips, lon_slices),
        0 <= c <= lon_slices,
    ensures
        sphere_point(lat_strips, lon_slices, c * (lat_strips + 1)) matches SurfacePoint::Sphere {
            theta_step,
            phi_step,
            ..
        } && theta_step == c && phi_step == 0,
        sphere_point(
            lat_strips,
            lon_slices,
            c * (lat_strips + 1) + lat_strips,
        ) matches SurfacePoint::Sphere { theta_step, phi_step, .. } && theta_step == c && phi_step
            == lat_strips,
{
    lemma_fundamental_div_mod_converse(c * (lat_strips as int + 1), lat_strips as int + 1, c, 0);
    lemma_fundamental_div_mod_converse(
        c * (lat_strips as int + 1) + lat_strips,
        lat_strips as int + 1,
        c,
        lat_strips as int,
    );
}

/// Position `w` of slice `s` sits at global position `s * group + w`, so the
/// global index formula reduces to the slice formula there.
proof fn lemma_sphere_pos(lat_strips: u32, lon_slices: u32, s: int, w: int)
    requires
        lat_strips >= 2,
        0 <= s,
        0 <= w < 6 * (lat_strips - 1),
    ensures
        sphere_index_at(lat_strips, lon_slices, s * (6 * (lat_strips as int - 1)) + w)
            == sphere_slice_index(lat_strips, lon_slices, s, w),
{
    lemma_fundamental_div_mod_converse(
        s * (6 * (lat_strips as int - 1)) + w,
        6 * (lat_strips as int - 1),
        s,
        w,
    );
}

} // verus!
