//! Parametric surface points and small indexing helpers.

use vstd::prelude::*;

verus! {

/// A point on a 3D shape primitive, described by its exact position in the
/// tessellation grid.
///
/// The tessellators emit these descriptors; the embedder evaluates them to
/// floating-point coordinates. With `R = 0.5` the unit radius, the angles and
/// lengths a descriptor stands for are:
///
/// * `Sphere`: `theta = -2*pi*theta_step/lon_slices`,
///   `phi = pi*phi_step/lat_strips`; position
///   `(R*cos(theta)*sin(phi), R*cos(phi), R*sin(theta)*sin(phi))`, normal the
///   normalized position, texcoord `(-theta/(2*pi), phi/pi)`.
/// * `Cylinder` (side wall): `theta = -2*pi*theta_step/slices`,
///   `y = R - 2*R*y_step/strips`; position `(R*cos(theta), y, R*sin(theta))`,
///   normal `(cos(theta), 0, sin(theta))`, texcoord `(-theta/(2*pi), -y-0.5)`.
/// * `Disk` (cylinder cap): `theta = -2*pi*theta_step/slices`,
///   `r = R*r_step/strips`, `y = R` when `top` else `-R`; position
///   `(r*cos(theta), y, r*sin(theta))`, normal `(0, sign(y), 0)`, texcoord
///   `(r*cos(theta)+0.5, 1 + sign(y)*(r*sin(theta)-0.5))`.
/// * `Corner`: a cube corner with coordinates in `{-1, 1}`; position
///   `(x, y, z)` as given.
#[derive(Copy, Clone, PartialEq, Eq, Structural, Debug)]
pub enum SurfacePoint {
    /// Spherical grid point.
    Sphere { theta_step: u32, phi_step: u32, lat_strips: u32, lon_slices: u32 },
    /// Point on a cylinder's side wall.
    Cylinder { theta_step: u32, y_step: u32, strips: u32, slices: u32 },
    /// Point on a disk coplanar with the ground plane, such as a cylinder cap.
    Disk { theta_step: u32, r_step: u32, strips: u32, slices: u32, top: bool },
    /// Corner of an axis-aligned cube of half-extent one.
    Corner { x: i8, y: i8, z: i8 },
}

/// Position of `(row, col)` in a row-major grid with `num_cols` columns.
pub fn linear_index(row: usize, col: usize, num_cols: usize) -> (r: usize)
    requires
        row * num_cols + col <= usize::MAX,
    ensures
        r == row * num_cols + col,
{
    row * num_cols + col
}

} // verus!
