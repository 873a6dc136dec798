use planet_render::mesh::{generate_sphere, GridVertex, MeshError, SphereMesh};

fn build(lat_bands: u32, long_bands: u32) -> SphereMesh {
    match generate_sphere(lat_bands, long_bands) {
        Ok(mesh) => mesh,
        Err(error) => panic!("no mesh for {} x {}: {:?}", lat_bands, long_bands, error),
    }
}

#[test]
fn fifty_by_fifty_sphere_has_2601_vertices_and_15000_indices() {
    let mesh = build(50, 50);
    assert_eq!(mesh.vertices().len(), 2601);
    assert_eq!(mesh.indices().len(), 15000);
    assert_eq!(mesh.vertex_count(), 2601);
    assert_eq!(mesh.index_count(), 15000);
    assert_eq!(mesh.lat_bands(), 50);
    assert_eq!(mesh.long_bands(), 50);
}

#[test]
fn counts_follow_the_resolution() {
    let resolutions: [(u32, u32); 6] = [(1, 1), (1, 7), (7, 1), (2, 3), (16, 9), (50, 50)];
    for (lat_bands, long_bands) in resolutions {
        let mesh = build(lat_bands, long_bands);
        let vertices: usize = ((lat_bands + 1) * (long_bands + 1)) as usize;
        let indices: usize = (lat_bands * long_bands * 6) as usize;
        assert_eq!(mesh.vertices().len(), vertices);
        assert_eq!(mesh.indices().len(), indices);
    }
}

#[test]
fn every_index_names_a_vertex() {
    let resolutions: [(u32, u32); 5] = [(1, 1), (1, 7), (7, 1), (16, 9), (50, 50)];
    for (lat_bands, long_bands) in resolutions {
        let mesh = build(lat_bands, long_bands);
        let count: u32 = mesh.vertex_count();
        assert!(mesh.indices().iter().all(|index| *index < count));
        let largest: u32 = *mesh.indices().iter().max().unwrap();
        assert_eq!(largest, count - 1);
    }
}

#[test]
fn smallest_sphere_is_one_quad() {
    let mesh = build(1, 1);
    let expected_vertices = vec![
        GridVertex { ring: 0, step: 0 },
        GridVertex { ring: 0, step: 1 },
        GridVertex { ring: 1, step: 0 },
        GridVertex { ring: 1, step: 1 },
    ];
    assert_eq!(mesh.vertices(), &expected_vertices);
    let expected_indices: Vec<u32> = vec![0, 2, 1, 2, 3, 1];
    assert_eq!(mesh.indices(), &expected_indices);
}

#[test]
fn two_by_three_sphere_has_the_expected_triangles() {
    let mesh = build(2, 3);
    let expected: Vec<u32> = vec![
        0, 4, 1, 4, 5, 1, // cell (0, 0)
        1, 5, 2, 5, 6, 2, // cell (0, 1)
        2, 6, 3, 6, 7, 3, // cell (0, 2)
        4, 8, 5, 8, 9, 5, // cell (1, 0)
        5, 9, 6, 9, 10, 6, // cell (1, 1)
        6, 10, 7, 10, 11, 7, // cell (1, 2)
    ];
    assert_eq!(mesh.indices(), &expected);
}

#[test]
fn each_cell_emits_first_second_and_their_successors() {
    let lat_bands: u32 = 5;
    let long_bands: u32 = 8;
    let mesh = build(lat_bands, long_bands);
    let indices = mesh.indices();
    for lat in 0..lat_bands {
        for long in 0..long_bands {
            let first: u32 = lat * (long_bands + 1) + long;
            let second: u32 = first + long_bands + 1;
            let at: usize = (6 * (lat * long_bands + long)) as usize;
            assert_eq!(
                &indices[at..at + 6],
                &[first, second, first + 1, second, second + 1, first + 1]
            );
        }
    }
}

#[test]
fn vertices_run_ring_by_ring() {
    let lat_bands: u32 = 4;
    let long_bands: u32 = 6;
    let mesh = build(lat_bands, long_bands);
    let vertices = mesh.vertices();
    for lat in 0..=lat_bands {
        for long in 0..=long_bands {
            let at: usize = (lat * (long_bands + 1) + long) as usize;
            assert_eq!(vertices[at], GridVertex { ring: lat, step: long });
        }
    }
}

#[test]
fn seam_and_poles_are_not_merged() {
    let mesh = build(3, 4);
    let vertices = mesh.vertices();
    // Both ends of every ring are there, and every step of the two poles.
    for ring in 0..=3u32 {
        assert!(vertices.contains(&GridVertex { ring, step: 0 }));
        assert!(vertices.contains(&GridVertex { ring, step: 4 }));
    }
    let at_north_pole: usize = vertices.iter().filter(|v| v.ring == 0).count();
    let at_south_pole: usize = vertices.iter().filter(|v| v.ring == 3).count();
    assert_eq!(at_north_pole, 5);
    assert_eq!(at_south_pole, 5);
}

#[test]
fn zero_bands_are_an_invalid_argument() {
    assert_eq!(generate_sphere(0, 50).unwrap_err(), MeshError::InvalidArgument);
    assert_eq!(generate_sphere(50, 0).unwrap_err(), MeshError::InvalidArgument);
    assert_eq!(generate_sphere(0, 0).unwrap_err(), MeshError::InvalidArgument);
    assert_eq!(generate_sphere(0, u32::MAX).unwrap_err(), MeshError::InvalidArgument);
}

#[test]
fn more_indices_than_a_u32_counts_are_too_large() {
    assert_eq!(generate_sphere(30_000, 30_000).unwrap_err(), MeshError::TooLarge);
    assert_eq!(generate_sphere(u32::MAX, u32::MAX).unwrap_err(), MeshError::TooLarge);
    assert_eq!(generate_sphere(1, u32::MAX).unwrap_err(), MeshError::TooLarge);
    // 715_827_883 * 6 is the first product of six above u32::MAX.
    assert_eq!(generate_sphere(715_827_883, 1).unwrap_err(), MeshError::TooLarge);
}

#[test]
fn same_resolution_gives_the_same_mesh() {
    let a = build(12, 17);
    let b = build(12, 17);
    assert_eq!(a.vertices(), b.vertices());
    assert_eq!(a.indices(), b.indices());
    assert_eq!(a.index_bytes(), b.index_bytes());
}

#[test]
fn index_bytes_are_the_indices_in_machine_order() {
    let mesh = build(2, 3);
    let bytes = mesh.index_bytes();
    assert_eq!(bytes.len(), 4 * mesh.indices().len());
    let mut expected: Vec<u8> = Vec::new();
    for index in mesh.indices() {
        expected.extend_from_slice(&index.to_ne_bytes());
    }
    assert_eq!(bytes, expected);
    // The second index is 4: its bytes are not those of a u8 list of indices.
    assert_eq!(&bytes[4..8], &4u32.to_ne_bytes());
}

#[test]
fn grid_vertices_lie_on_the_unit_sphere() {
    let lat_bands: u32 = 50;
    let long_bands: u32 = 50;
    let mesh = build(lat_bands, long_bands);
    let mut positions: Vec<[f32; 3]> = Vec::new();
    for vertex in mesh.vertices() {
        let theta = vertex.ring as f32 * std::f32::consts::PI / lat_bands as f32;
        let phi = vertex.step as f32 * 2.0 * std::f32::consts::PI / long_bands as f32;
        positions.push([phi.cos() * theta.sin(), theta.cos(), phi.sin() * theta.sin()]);
    }
    for p in &positions {
        let length = (p[0] * p[0] + p[1] * p[1] + p[2] * p[2]).sqrt();
        assert!((length - 1.0).abs() <= 1e-5);
    }
    // The first ring is the north pole, the last one the south pole.
    assert!((positions[0][1] - 1.0).abs() <= 1e-5);
    assert!((positions[positions.len() - 1][1] + 1.0).abs() <= 1e-5);
    // The two ends of a ring meet at the seam.
    let ring_start: usize = (25 * (long_bands + 1)) as usize;
    let ring_end: usize = ring_start + long_bands as usize;
    for axis in 0..3usize {
        assert!((positions[ring_start][axis] - positions[ring_end][axis]).abs() <= 1e-5);
    }
}

#[test]
fn all_triangles_wind_the_same_way_on_the_grid() {
    let resolutions: [(u32, u32); 4] = [(1, 1), (2, 3), (5, 8), (50, 50)];
    for (lat_bands, long_bands) in resolutions {
        let mesh = build(lat_bands, long_bands);
        let vertices = mesh.vertices();
        let indices = mesh.indices();
        assert_eq!(indices.len() % 3, 0);
        for corners in indices.chunks(3) {
            let a = vertices[corners[0] as usize];
            let b = vertices[corners[1] as usize];
            let c = vertices[corners[2] as usize];
            let right: i64 = b.step as i64 - a.step as i64;
            let up: i64 = b.ring as i64 - a.ring as i64;
            let area: i64 = right * (c.ring as i64 - a.ring as i64)
                - up * (c.step as i64 - a.step as i64);
            assert_eq!(area, -1);
        }
    }
}
