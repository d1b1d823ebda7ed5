//! Cylinder tessellation.
//!
//! A cylinder of unit diameter and unit height is approximated by
//! `slices + 1` angular columns (the first column duplicated as the last, as
//! for the sphere) of `3 * (strips + 1)` vertices each: a top cap ring whose
//! radius grows from the axis to the rim, a side wall descending from the top
//! rim to the bottom rim, and a bottom cap ring whose radius shrinks back to
//! the axis. Vertices are emitted column-major in that order.
//!
//! Each slice is triangulated as one fan walk down the whole column,
//! stitching column `s` to column `s + 1`; the exact value of every emitted
//! index is pinned by [`cylinder_index_at`].

use vstd::arithmetic::div_mod::lemma_fundamental_div_mod_converse;
use vstd::prelude::*;

use crate::shape::TessellationError;
use crate::util::SurfacePoint;

verus! {

/// Vertices per angular column: top cap ring, side wall, bottom cap ring.
pub open spec fn cylinder_stride(strips: u32) -> int {
    3 * (strips + 1)
}

/// Resolutions the cylinder tessellator accepts: at least one strip and
/// three slices, with a vertex count that fits the 32-bit indices.
pub open spec fn cylinder_params_ok(strips: u32, slices: u32) -> bool {
    &&& strips >= 1
    &&& slices >= 3
    &&& (slices + 1) * cylinder_stride(strips) <= u32::MAX
}

/// Number of vertices of the tessellated cylinder.
pub open spec fn cylinder_vertex_count(strips: u32, slices: u32) -> int {
    (slices + 1) * cylinder_stride(strips)
}

/// Number of indices of the tessellated cylinder: each of the `slices`
/// slices carries `2 * (cylinder_stride(strips) - 1)` triangles.
pub open spec fn cylinder_index_count(strips: u32, slices: u32) -> int {
    6 * slices * (cylinder_stride(strips) - 1)
}

/// The `k`-th emitted vertex. Within its column of `3 * (strips + 1)`
/// vertices, the first `strips + 1` walk the top cap outward, the next
/// `strips + 1` walk the side wall downward, and the last `strips + 1` walk
/// the bottom cap back inward.
pub open spec fn cylinder_point(strips: u32, slices: u32, k: int) -> SurfacePoint {
    let stride = cylinder_stride(strips);
    let col = (k / stride) as u32;
    let w = k % stride;
    if w < strips + 1 {
        SurfacePoint::Disk { theta_step: col, r_step: w as u32, strips, slices, top: true }
    } else if w < 2 * (strips + 1) {
        SurfacePoint::Cylinder { theta_step: col, y_step: (w - (strips + 1)) as u32, strips, slices }
    } else {
        SurfacePoint::Disk {
            theta_step: col,
            r_step: (3 * strips + 2 - w) as u32,
            strips,
            slices,
            top: false,
        }
    }
}

/// The `w`-th index emitted for slice `s`: a boundary triangle at the cap
/// centre, two triangles per step of the walk down the column, and a
/// boundary triangle at the far cap centre, stitching column `s` to column
/// `s + 1`.
pub open spec fn cylinder_slice_index(strips: u32, slices: u32, s: int, w: int) -> int {
    let stride = cylinder_stride(strips);
    let n = (slices + 1) * stride;
    let a = s * stride;
    if w == 0 {
        a
    } else if w == 1 {
        a + 1
    } else if w == 2 {
        (a + stride + 1) % n
    } else if w < 6 * (stride - 1) - 3 {
        let t = (w - 3) / 6 + 1;
        let p = (w - 3) % 6;
        let i = a + t;
        if p == 0 {
            i
        } else if p == 1 {
            i + 1
        } else if p == 2 {
            (i + stride) % n
        } else if p == 3 {
            i + 1
        } else if p == 4 {
            (i + stride + 1) % n
        } else {
            (i + stride) % n
        }
    } else {
        let i = a + stride - 1;
        let q = w - (6 * (stride - 1) - 3);
        if q == 0 {
            i
        } else if q == 1 {
            i + 1
        } else {
            (i + stride) % n
        }
    }
}

/// The `j`-th emitted index overall: position `j % (6 * (stride - 1))`
/// within slice `j / (6 * (stride - 1))`.
pub open spec fn cylinder_index_at(strips: u32, slices: u32, j: int) -> int {
    let group = 6 * (cylinder_stride(strips) - 1);
    cylinder_slice_index(strips, slices, j / group, j % group)
}

/// Tessellate a cylinder of unit diameter and unit height.
///
/// Returns the emitted vertices and the triangle-list indices over them, or
/// `InvalidResolution` exactly when the resolution is below the supported
/// minimum or the vertex count would overflow a 32-bit index.
pub fn cylinder_mesh(strips: u32, slices: u32) -> (r: Result<
    (Vec<SurfacePoint>, Vec<u32>),
    TessellationError,
>)
    ensures
        r is Ok <==> cylinder_params_ok(strips, slices),
        r matches Err(e) ==> e == TessellationError::InvalidResolution,
        r matches Ok(m) ==> {
            &&& m.0@.len() == cylinder_vertex_count(strips, slices)
            &&& forall|k: int|
                0 <= k < m.0@.len() ==> m.0@[k] == cylinder_point(strips, slices, k)
            &&& m.1@.len() == cylinder_index_count(strips, slices)
            &&& forall|j: int|
                0 <= j < m.1@.len() ==> m.1@[j] == cylinder_index_at(strips, slices, j)
            &&& forall|j: int|
                0 <= j < m.1@.len() ==> (#[trigger] m.1@[j]) < cylinder_vertex_count(
                    strips,
                    slices,
                )
        },
{
    if strips < 1 || slices < 3 {
        return Err(TessellationError::InvalidResolution);
    }
    let stride: u64 = 3 * (strips as u64 + 1);
    let cols: u64 = slices as u64 + 1;
    proof {
        assert(cols as int * stride as int <= 0x3_0000_0000_0000_0000int) by (nonlinear_arith)
            requires
                cols <= 0x1_0000_0000,
                stride <= 0x3_0000_0000,
        ;
    }
    let big: u128 = (cols as u128) * (stride as u128);
    if big > u32::MAX as u128 {
        return Err(TessellationError::InvalidResolution);
    }
    let n: u64 = big as u64;
    proof {
        assert(cylinder_params_ok(strips, slices));
        assert(24 <= n && (strips as int + 1) * 12 <= n && (slices as int + 1) * 6 <= n)
            by (nonlinear_arith)
            requires
                strips >= 1,
                slices >= 3,
                n == (slices as int + 1) * (3 * (strips as int + 1)),
        ;
    }

    // Vertices, column-major: top cap, side wall, bottom cap per column.
    let mut points: Vec<SurfacePoint> = Vec::new();
    let mut col: u32 = 0;
    while col <= slices
        invariant
            cylinder_params_ok(strips, slices),
            n == cylinder_vertex_count(strips, slices),
            strips as int + 1 < u32::MAX,
            slices as int + 1 < u32::MAX,
            col <= slices + 1,
            points@.len() == col * cylinder_stride(strips),
            forall|k: int|
                0 <= k < points@.len() ==> points@[k] == cylinder_point(strips, slices, k),
        decreases slices + 1 - col,
    {
        let ghost base: int = col * cylinder_stride(strips);
        proof {
            assert(col * cylinder_stride(strips) + cylinder_stride(strips) <= (slices as int + 1)
                * cylinder_stride(strips)) by (nonlinear_arith)
                requires
                    col <= slices,
                    cylinder_stride(strips) >= 0,
            ;
        }

        // Top cap ring, radius growing from the axis to the rim.
        let mut r_step: u32 = 0;
        while r_step <= strips
            invariant
                cylinder_params_ok(strips, slices),
                strips as int + 1 < u32::MAX,
                col <= slices,
                base == col * cylinder_stride(strips),
                r_step <= strips + 1,
                points@.len() == base + r_step,
                forall|k: int|
                    0 <= k < points@.len() ==> points@[k] == cylinder_point(strips, slices, k),
            decreases strips + 1 - r_step,
        {
            proof {
                lemma_fundamental_div_mod_converse(
                    base + r_step,
                    cylinder_stride(strips),
                    col as int,
                    r_step as int,
                );
            }
            points.push(
                SurfacePoint::Disk { theta_step: col, r_step, strips, slices, top: true },
            );
            r_step = r_step + 1;
        }

        // Side wall, descending from the top rim to the bottom rim.
        let mut y_step: u32 = 0;
        while y_step <= strips
            invariant
                cylinder_params_ok(strips, slices),
                strips as int + 1 < u32::MAX,
                col <= slices,
                base == col * cylinder_stride(strips),
                y_step <= strips + 1,
                points@.len() == base + (strips + 1) + y_step,
                forall|k: int|
                    0 <= k < points@.len() ==> points@[k] == cylinder_point(strips, slices, k),
            decreases strips + 1 - y_step,
        {
            proof {
                lemma_fundamental_div_mod_converse(
                    base + (strips + 1) + y_step,
                    cylinder_stride(strips),
                    col as int,
                    strips + 1 + y_step as int,
                );
            }
            points.push(SurfacePoint::Cylinder { theta_step: col, y_step, strips, slices });
            y_step = y_step + 1;
        }

        // Bottom cap ring, radius shrinking from the rim back to the axis.
        let mut m: u32 = 0;
        while m <= strips
            invariant
                cylinder_params_ok(strips, slices),
                strips as int + 1 < u32::MAX,
                col <= slices,
                base == col * cylinder_stride(strips),
                m <= strips + 1,
                points@.len() == base + 2 * (strips + 1) + m,
                forall|k: int|
                    0 <= k < points@.len() ==> points@[k] == cylinder_point(strips, slices, k),
            decreases strips + 1 - m,
        {
            proof {
                lemma_fundamental_div_mod_converse(
                    base + 2 * (strips + 1) + m,
                    cylinder_stride(strips),
                    col as int,
                    2 * (strips as int + 1) + m as int,
                );
            }
            points.push(
                SurfacePoint::Disk {
                    theta_step: col,
                    r_step: strips - m,
                    strips,
                    slices,
                    top: false,
                },
            );
            m = m + 1;
        }

        proof {
            assert((col + 1) * cylinder_stride(strips) == col * cylinder_stride(strips)
                + cylinder_stride(strips)) by (nonlinear_arith);
        }
        col = col + 1;
    }

    // Indices, `6 * (stride - 1)` per slice.
    let group: u64 = 6 * (stride - 1);
    let mut indices: Vec<u32> = Vec::new();
    let mut s: u32 = 0;
    while s < slices
        invariant
            cylinder_params_ok(strips, slices),
            n == cylinder_vertex_count(strips, slices),
            24 <= n <= u32::MAX,
            stride == cylinder_stride(strips),
            strips as int + 1 < u32::MAX,
            slices as int + 1 < u32::MAX,
            group == 6 * (cylinder_stride(strips) - 1),
            s <= slices,
            indices@.len() == s * group,
            forall|j: int|
                0 <= j < indices@.len() ==> indices@[j] == cylinder_index_at(strips, slices, j),
            forall|j: int|
                0 <= j < indices@.len() ==> (#[trigger] indices@[j]) < n,
        decreases slices - s,
    {
        proof {
            assert(s as int * cylinder_stride(strips) + 2 * cylinder_stride(strips) <= (
            slices as int + 1) * cylinder_stride(strips)) by (nonlinear_arith)
                requires
                    s < slices,
                    cylinder_stride(strips) >= 0,
            ;
            assert(s as int * group + group <= slices as int * group) by (nonlinear_arith)
                requires
                    s < slices,
                    group >= 0,
            ;
            assert(slices as int * group == cylinder_index_count(strips, slices))
                by (nonlinear_arith)
                requires
                    group == 6 * (cylinder_stride(strips) - 1),
            ;
        }
        let istart: u64 = s as u64 * stride;
        let ghost w0: int = s as int * group;

        // Boundary triangle at the top cap's centre.
        proof {
            lemma_cylinder_pos(strips, slices, s as int, 0);
            lemma_cylinder_pos(strips, slices, s as int, 1);
            lemma_cylinder_pos(strips, slices, s as int, 2);
        }
        indices.push(istart as u32);
        indices.push((istart + 1) as u32);
        indices.push(((istart + stride + 1) % n) as u32);

        // Two triangles per step of the walk down the column.
        let mut step: u64 = 1;
        while step < stride - 1
            invariant
                cylinder_params_ok(strips, slices),
                n == cylinder_vertex_count(strips, slices),
                24 <= n <= u32::MAX,
                stride == cylinder_stride(strips),
                group == 6 * (cylinder_stride(strips) - 1),
                s < slices,
                istart == s as int * cylinder_stride(strips),
                istart + cylinder_stride(strips) <= n,
                w0 == s as int * group,
                1 <= step <= stride - 1,
                indices@.len() == w0 + 3 + 6 * (step - 1),
                forall|j: int|
                    0 <= j < indices@.len() ==> indices@[j] == cylinder_index_at(
                        strips,
                        slices,
                        j,
                    ),
                forall|j: int|
                    0 <= j < indices@.len() ==> (#[trigger] indices@[j]) < n,
            decreases stride - 1 - step,
        {
            let i: u64 = istart + step;
            proof {
                let w = 3 + 6 * (step as int - 1);
                lemma_cylinder_pos(strips, slices, s as int, w);
                lemma_cylinder_pos(strips, slices, s as int, w + 1);
                lemma_cylinder_pos(strips, slices, s as int, w + 2);
                lemma_cylinder_pos(strips, slices, s as int, w + 3);
                lemma_cylinder_pos(strips, slices, s as int, w + 4);
                lemma_cylinder_pos(strips, slices, s as int, w + 5);
                lemma_fundamental_div_mod_converse(w - 3, 6, step as int - 1, 0);
                lemma_fundamental_div_mod_converse(w - 2, 6, step as int - 1, 1);
                lemma_fundamental_div_mod_converse(w - 1, 6, step as int - 1, 2);
                lemma_fundamental_div_mod_converse(w, 6, step as int - 1, 3);
                lemma_fundamental_div_mod_converse(w + 1, 6, step as int - 1, 4);
                lemma_fundamental_div_mod_converse(w + 2, 6, step as int - 1, 5);
            }
            indices.push(i as u32);
            indices.push((i + 1) as u32);
            indices.push(((i + stride) % n) as u32);
            indices.push((i + 1) as u32);
            indices.push(((i + stride + 1) % n) as u32);
            indices.push(((i + stride) % n) as u32);
            step = step + 1;
        }

        // Boundary triangle at the bottom cap's centre.
        let i: u64 = istart + stride - 1;
        proof {
            let w = 3 + 6 * (stride as int - 2);
            assert(w == 6 * (stride as int - 1) - 3);
            lemma_cylinder_pos(strips, slices, s as int, w);
            lemma_cylinder_pos(strips, slices, s as int, w + 1);
            lemma_cylinder_pos(strips, slices, s as int, w + 2);
        }
        indices.push(i as u32);
        indices.push((i + 1) as u32);
        indices.push(((i + stride) % n) as u32);

        proof {
            assert((s + 1) * group == s * group + group) by (nonlinear_arith);
        }
        s = s + 1;
    }
    proof {
        assert(slices as int * group == cylinder_index_count(strips, slices)) by (nonlinear_arith)
            requires
                group == 6 * (cylinder_stride(strips) - 1),
        ;
        assert(forall|j: int|
            0 <= j < indices@.len() ==> (#[trigger] indices@[j]) < cylinder_vertex_count(
                strips,
                slices,
            ));
    }
    Ok((points, indices))
}

/// Law: the emitted indices form, per slice, one triangle at each cap
/// centre and two per interior step of the column walk — three indices
/// each.
pub proof fn lemma_cylinder_triangle_count(strips: u32, slices: u32)
    ensures
        cylinder_index_count(strips, slices) == 3 * (slices * (2 + 2 * (cylinder_stride(strips)
            - 2))),
{
    assert(6 * slices as int * (cylinder_stride(strips) - 1) == 3 * (slices as int * (2 + 2 * (
    cylinder_stride(strips) - 2)))) by (nonlinear_arith);
}

/// Law: each emitted cylinder column consists of exactly three rings. The
/// first `strips + 1` vertices lie on the top cap (`y == R`, normal straight
/// up), the next `strips + 1` on the side wall (normal horizontal), and the
/// last `strips + 1` on the bottom cap (`y == -R`, normal straight down).
pub proof fn lemma_cylinder_rings(strips: u32, slices: u32, c: int, w: int)
    requires
        cylinder_params_ok(strips, slices),
        0 <= c <= slices,
        0 <= w < cylinder_stride(strips),
    ensures
        w < strips + 1 ==> (cylinder_point(
            strips,
            slices,
            c * cylinder_stride(strips) + w,
        ) matches SurfacePoint::Disk { theta_step, r_step, top, .. } && theta_step == c && r_step
            == w && top),
        strips + 1 <= w < 2 * (strips + 1) ==> (cylinder_point(
            strips,
            slices,
            c * cylinder_stride(strips) + w,
        ) matches SurfacePoint::Cylinder { theta_step, y_step, .. } && theta_step == c && y_step
            == w - (strips + 1)),
        2 * (strips + 1) <= w ==> (cylinder_point(
            strips,
            slices,
            c * cylinder_stride(strips) + w,
        ) matches SurfacePoint::Disk { theta_step, r_step, top, .. } && theta_step == c && r_step
            == 3 * strips + 2 - w && !top),
{
    lemma_fundamental_div_mod_converse(
        c * cylinder_stride(strips) + w,
        cylinder_stride(strips),
        c,
        w,
    );
}

/// Position `w` of slice `s` sits at global position `s * group + w`, so the
/// global index formula reduces to the slice formula there.
proof fn lemma_cylinder_pos(strips: u32, slices: u32, s: int, w: int)
    requires
        strips >= 1,
        0 <= s,
        0 <= w < 6 * (cylinder_stride(strips) - 1),
    ensures
        cylinder_index_at(strips, slices, s * (6 * (cylinder_stride(strips) - 1)) + w)
            == cylinder_slice_index(strips, slices, s, w),
{
    lemma_fundamental_div_mod_converse(
        s * (6 * (cylinder_stride(strips) - 1)) + w,
        6 * (cylinder_stride(strips) - 1),
        s,
        w,
    );
}

} // verus!
