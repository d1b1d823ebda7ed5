use rendergl::cylinder::cylinder_mesh;
use rendergl::mesh::depth_strip_indices;
use rendergl::shape::TessellationError;
use rendergl::sphere::sphere_mesh;
use rendergl::util::{linear_index, SurfacePoint};

const R: f32 = 0.5;
const PI: f32 = std::f32::consts::PI;
const TOL: f32 = 1e-5;

/// Position of a surface point, by the descriptor's documented meaning.
fn position(p: &SurfacePoint) -> [f32; 3] {
    match *p {
        SurfacePoint::Sphere { theta_step, phi_step, lat_strips, lon_slices } => {
            let theta = -(theta_step as f32) * 2.0 * PI / (lon_slices as f32);
            let phi = (phi_step as f32) * PI / (lat_strips as f32);
            [R * theta.cos() * phi.sin(), R * phi.cos(), R * theta.sin() * phi.sin()]
        }
        SurfacePoint::Cylinder { theta_step, y_step, strips, slices } => {
            let theta = -(theta_step as f32) * 2.0 * PI / (slices as f32);
            let y = R - 2.0 * R * (y_step as f32) / (strips as f32);
            [R * theta.cos(), y, R * theta.sin()]
        }
        SurfacePoint::Disk { theta_step, r_step, strips, slices, top } => {
            let theta = -(theta_step as f32) * 2.0 * PI / (slices as f32);
            let r = R * (r_step as f32) / (strips as f32);
            let y = if top { R } else { -R };
            [r * theta.cos(), y, r * theta.sin()]
        }
        SurfacePoint::Corner { x, y, z } => [x as f32, y as f32, z as f32],
    }
}

/// Normal of a surface point, by the descriptor's documented meaning.
fn normal(p: &SurfacePoint) -> [f32; 3] {
    match *p {
        SurfacePoint::Sphere { .. } => {
            let [x, y, z] = position(p);
            let len = (x * x + y * y + z * z).sqrt();
            [x / len, y / len, z / len]
        }
        SurfacePoint::Cylinder { theta_step, slices, .. } => {
            let theta = -(theta_step as f32) * 2.0 * PI / (slices as f32);
            [theta.cos(), 0.0, theta.sin()]
        }
        SurfacePoint::Disk { top, .. } => {
            if top {
                [0.0, 1.0, 0.0]
            } else {
                [0.0, -1.0, 0.0]
            }
        }
        SurfacePoint::Corner { x, y, z } => [x as f32, y as f32, z as f32],
    }
}

fn close(a: [f32; 3], b: [f32; 3]) -> bool {
    (a[0] - b[0]).abs() <= TOL && (a[1] - b[1]).abs() <= TOL && (a[2] - b[2]).abs() <= TOL
}

#[test]
fn sphere_counts_and_bounds() {
    for &(lat, lon) in &[(2u32, 3u32), (4, 4), (5, 8), (16, 32), (2, 100)] {
        let (points, indices) = sphere_mesh(lat, lon).unwrap();
        assert_eq!(points.len(), ((lon + 1) * (lat + 1)) as usize);
        assert_eq!(indices.len(), (6 * lon * (lat - 1)) as usize);
        for &ix in &indices {
            assert!((ix as usize) < points.len());
        }
    }
}

#[test]
fn cylinder_counts_and_bounds() {
    for &(strips, slices) in &[(1u32, 3u32), (2, 4), (3, 10), (10, 50)] {
        let (points, indices) = cylinder_mesh(strips, slices).unwrap();
        assert_eq!(points.len(), ((slices + 1) * 3 * (strips + 1)) as usize);
        assert_eq!(indices.len(), (6 * slices * (3 * (strips + 1) - 1)) as usize);
        for &ix in &indices {
            assert!((ix as usize) < points.len());
        }
    }
}

#[test]
fn sphere_rejects_low_resolution() {
    assert_eq!(sphere_mesh(1, 3).unwrap_err(), TessellationError::InvalidResolution);
    assert_eq!(sphere_mesh(0, 3).unwrap_err(), TessellationError::InvalidResolution);
    assert_eq!(sphere_mesh(2, 2).unwrap_err(), TessellationError::InvalidResolution);
    assert_eq!(sphere_mesh(4, 0).unwrap_err(), TessellationError::InvalidResolution);
}

#[test]
fn sphere_rejects_index_overflow() {
    assert_eq!(
        sphere_mesh(u32::MAX - 1, u32::MAX - 1).unwrap_err(),
        TessellationError::InvalidResolution
    );
}

#[test]
fn cylinder_rejects_low_resolution() {
    assert_eq!(cylinder_mesh(0, 3).unwrap_err(), TessellationError::InvalidResolution);
    assert_eq!(cylinder_mesh(1, 2).unwrap_err(), TessellationError::InvalidResolution);
    assert_eq!(cylinder_mesh(0, 0).unwrap_err(), TessellationError::InvalidResolution);
}

#[test]
fn cylinder_rejects_index_overflow() {
    assert_eq!(
        cylinder_mesh(u32::MAX - 1, u32::MAX - 1).unwrap_err(),
        TessellationError::InvalidResolution
    );
}

#[test]
fn sphere_first_slice_exact_indices() {
    let (_, indices) = sphere_mesh(4, 4).unwrap();
    let expected: [u32; 18] = [0, 1, 6, 1, 7, 6, 1, 2, 7, 2, 8, 7, 2, 3, 8, 3, 4, 8];
    assert_eq!(&indices[..18], &expected);
}

#[test]
fn cylinder_first_slice_exact_indices() {
    let (_, indices) = cylinder_mesh(1, 3).unwrap();
    let expected: [u32; 30] = [
        0, 1, 7, 1, 2, 7, 2, 8, 7, 2, 3, 8, 3, 9, 8, 3, 4, 9, 4, 10, 9, 4, 5, 10, 5, 11, 10, 5,
        6, 11,
    ];
    assert_eq!(&indices[..30], &expected);
}

#[test]
fn cylinder_vertex_rings_exact() {
    let (points, _) = cylinder_mesh(1, 3).unwrap();
    // Column 0: top cap outward, side wall downward, bottom cap inward.
    assert_eq!(
        points[0],
        SurfacePoint::Disk { theta_step: 0, r_step: 0, strips: 1, slices: 3, top: true }
    );
    assert_eq!(
        points[1],
        SurfacePoint::Disk { theta_step: 0, r_step: 1, strips: 1, slices: 3, top: true }
    );
    assert_eq!(points[2], SurfacePoint::Cylinder { theta_step: 0, y_step: 0, strips: 1, slices: 3 });
    assert_eq!(points[3], SurfacePoint::Cylinder { theta_step: 0, y_step: 1, strips: 1, slices: 3 });
    assert_eq!(
        points[4],
        SurfacePoint::Disk { theta_step: 0, r_step: 1, strips: 1, slices: 3, top: false }
    );
    assert_eq!(
        points[5],
        SurfacePoint::Disk { theta_step: 0, r_step: 0, strips: 1, slices: 3, top: false }
    );
    assert_eq!(points[6], SurfacePoint::Disk { theta_step: 1, r_step: 0, strips: 1, slices: 3, top: true });
}

#[test]
fn sphere_pole_normals() {
    let (points, _) = sphere_mesh(4, 7).unwrap();
    for (k, p) in points.iter().enumerate() {
        match *p {
            SurfacePoint::Sphere { phi_step, .. } => {
                if phi_step == 0 {
                    assert_eq!(k % 5, 0);
                    assert!(close(normal(p), [0.0, 1.0, 0.0]));
                }
                if phi_step == 4 {
                    assert_eq!(k % 5, 4);
                    assert!(close(normal(p), [0.0, -1.0, 0.0]));
                }
            }
            _ => panic!("sphere emitted a non-sphere point"),
        }
    }
}

#[test]
fn cylinder_cap_and_side_normals() {
    let (points, _) = cylinder_mesh(3, 6).unwrap();
    for p in &points {
        match *p {
            SurfacePoint::Disk { top, .. } => {
                let pos = position(p);
                let n = normal(p);
                if top {
                    assert!((pos[1] - R).abs() <= TOL);
                    assert!(close(n, [0.0, 1.0, 0.0]));
                } else {
                    assert!((pos[1] + R).abs() <= TOL);
                    assert!(close(n, [0.0, -1.0, 0.0]));
                }
            }
            SurfacePoint::Cylinder { .. } => {
                let n = normal(p);
                assert!(n[1].abs() <= TOL);
                let len_xz = (n[0] * n[0] + n[2] * n[2]).sqrt();
                assert!((len_xz - 1.0).abs() <= TOL);
            }
            _ => panic!("cylinder emitted an unexpected point"),
        }
    }
}

#[test]
fn sphere_duplicated_seam_column() {
    // The last longitude column duplicates the first: same positions within
    // floating-point tolerance, so the texture seam needs no wraparound.
    let (points, _) = sphere_mesh(4, 8).unwrap();
    for row in 0..5usize {
        let first = position(&points[row]);
        let last = position(&points[8 * 5 + row]);
        assert!(close(first, last));
    }
}

#[test]
fn sphere_end_to_end_4_by_4() {
    let (points, indices) = sphere_mesh(4, 4).unwrap();
    assert_eq!(points.len(), 25);
    for &ix in &indices {
        assert!(ix < 25);
    }
    // Two cap triangles per slice plus two per interior band per slice.
    let lat = 4u32;
    let lon = 4u32;
    let triangles = (indices.len() / 3) as u32;
    assert_eq!(triangles, lon * (2 + 2 * (lat - 2)));
    assert_eq!(triangles, 24);
}

#[test]
fn depth_strip_small_grid_exact() {
    let indices = depth_strip_indices(3, 2);
    assert_eq!(indices, vec![1, 3, 0, 2, 2, 3, 3, 5, 2, 4, 4, 5]);
}

#[test]
fn depth_strip_counts_and_bounds() {
    for &(rows, cols) in &[(2usize, 2usize), (3, 5), (20, 20), (1, 4)] {
        let indices = depth_strip_indices(rows, cols);
        assert_eq!(indices.len(), (rows - 1) * (2 * cols + 2));
        for &ix in &indices {
            assert!((ix as usize) < rows * cols);
        }
    }
}

#[test]
fn linear_index_is_row_major() {
    assert_eq!(linear_index(0, 0, 7), 0);
    assert_eq!(linear_index(2, 3, 7), 17);
    assert_eq!(linear_index(1, 0, 1), 1);
}
