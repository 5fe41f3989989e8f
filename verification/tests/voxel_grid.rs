use geo_nodes::mesh::{Mesh, PrimitiveTopology, VertexAttributeValues};
use geo_nodes::voxel_grid::{checked_cube, VoxelGrid, NOISE};

fn tag(x: usize, y: usize, z: usize, _resolution: usize, _noise: u32) -> u32 {
    (100 * x + 10 * y + z) as u32
}

fn scalar_field(x: usize, y: usize, z: usize, resolution: usize, noise: u32) -> u32 {
    let r = resolution as f32;
    (x as f32 + y as f32 * r + z as f32 * r * r * f32::from_bits(noise)).to_bits()
}

#[test]
fn noise_is_one_tenth() {
    assert_eq!(NOISE, 0.1f32.to_bits());
    assert_eq!(f32::from_bits(NOISE), 0.1f32);
}

#[test]
fn new_fills_with_x_slowest_and_z_fastest() {
    let grid = VoxelGrid::new(&[[0, 0, 0]], 2, tag);
    assert_eq!(grid.resolution, 2);
    assert_eq!(grid.data, vec![0, 1, 10, 11, 100, 101, 110, 111]);
}

#[test]
fn new_has_one_sample_per_point() {
    for resolution in 0..6usize {
        let grid = VoxelGrid::new(&[], resolution, tag);
        assert_eq!(grid.data.len(), resolution * resolution * resolution);
        assert_eq!(grid.resolution, resolution);
    }
}

#[test]
fn new_places_every_point_at_its_fill_index() {
    let n = 4usize;
    let grid = VoxelGrid::new(&[[1, 2, 3]], n, tag);
    for x in 0..n {
        for y in 0..n {
            for z in 0..n {
                assert_eq!(grid.data[(x * n + y) * n + z], tag(x, y, z, n, NOISE));
            }
        }
    }
}

#[test]
fn new_hands_resolution_and_noise_to_the_field() {
    let grid = VoxelGrid::new(&[], 3, |_x, _y, _z, resolution, noise| {
        noise.wrapping_add(resolution as u32)
    });
    assert_eq!(grid.data.len(), 27);
    assert!(grid.data.iter().all(|sample| *sample == NOISE + 3));
}

#[test]
fn new_ignores_the_positions() {
    let a = VoxelGrid::new(&[], 3, tag);
    let b = VoxelGrid::new(&[[7, 8, 9], [1, 1, 1]], 3, tag);
    assert_eq!(a, b);
}

#[test]
fn new_with_resolution_zero_is_empty() {
    let grid = VoxelGrid::new(&[[0, 0, 0]], 0, tag);
    assert!(grid.data.is_empty());
    assert_eq!(grid.resolution, 0);
}

#[test]
fn new_samples_the_placeholder_field() {
    let grid = VoxelGrid::new(&[[0, 0, 0]], 4, scalar_field);
    // The sample of point (1, 2, 3): 1 + 2 * 4 + 3 * 4 * 4 * 0.1, in single precision.
    let expected = 1.0f32 + 2.0f32 * 4.0f32 + 3.0f32 * 4.0f32 * 4.0f32 * 0.1f32;
    assert_eq!(f32::from_bits(grid.data[(1 * 4 + 2) * 4 + 3]), expected);
    assert_eq!(grid.data[(1 * 4 + 2) * 4 + 3], 0x415C_CCCD);
    assert_eq!(f32::from_bits(grid.data[0]), 0.0);
}

#[test]
fn read_addresses_with_x_fastest_and_z_slowest() {
    let grid = VoxelGrid { data: (0..27).collect(), resolution: 3 };
    assert_eq!(grid.read(0, 0, 0), 0);
    assert_eq!(grid.read(1, 0, 0), 1);
    assert_eq!(grid.read(0, 1, 0), 3);
    assert_eq!(grid.read(0, 0, 1), 9);
    assert_eq!(grid.read(2, 1, 2), 2 + 3 + 18);
    assert_eq!(grid.read(2, 2, 2), 26);
}

#[test]
fn read_after_new_finds_the_mirrored_point() {
    // Filling stores point (x, y, z) where a read of (z, y, x) looks.
    let n = 3usize;
    let grid = VoxelGrid::new(&[], n, tag);
    for x in 0..n {
        for y in 0..n {
            for z in 0..n {
                assert_eq!(grid.read(x, y, z), tag(z, y, x, n, NOISE));
            }
        }
    }
}

#[test]
fn read_reaches_pushed_samples() {
    let mut grid = VoxelGrid { data: vec![5], resolution: 1 };
    grid.push(6);
    // Address 1 = 1 + 0 * 1 + 0 * 1 * 1.
    assert_eq!(grid.read(1, 0, 0), 6);
    assert_eq!(grid.read(0, 1, 0), 6);
    assert_eq!(grid.read(0, 0, 1), 6);
}

#[test]
fn read_all_copies_the_samples() {
    let grid = VoxelGrid { data: vec![3, 1, 4, 1, 5, 9, 2, 6], resolution: 2 };
    let samples = grid.read_all();
    assert_eq!(samples, vec![3, 1, 4, 1, 5, 9, 2, 6]);
    assert_eq!(grid.data, samples);
}

#[test]
fn push_appends_and_keeps_the_resolution() {
    let mut grid = VoxelGrid { data: vec![1, 2], resolution: 7 };
    grid.push(3);
    grid.push(0xFFFF_FFFF);
    assert_eq!(grid.data, vec![1, 2, 3, 0xFFFF_FFFF]);
    assert_eq!(grid.resolution, 7);
}

#[test]
fn debug_lists_the_points_in_fill_order() {
    let grid = VoxelGrid { data: vec![], resolution: 2 };
    assert_eq!(
        grid.debug(),
        vec![
            (0, 0, 0),
            (0, 0, 1),
            (0, 1, 0),
            (0, 1, 1),
            (1, 0, 0),
            (1, 0, 1),
            (1, 1, 0),
            (1, 1, 1)
        ]
    );
}

#[test]
fn debug_agrees_with_new() {
    let n = 4usize;
    let grid = VoxelGrid::new(&[], n, tag);
    let points = grid.debug();
    assert_eq!(points.len(), grid.data.len());
    for (i, (x, y, z)) in points.iter().enumerate() {
        assert_eq!(i, (x * n + y) * n + z);
        assert_eq!(grid.data[i], tag(*x, *y, *z, n, NOISE));
    }
}

#[test]
fn debug_of_an_empty_grid_is_empty() {
    let grid = VoxelGrid { data: vec![1, 2, 3], resolution: 0 };
    assert!(grid.debug().is_empty());
}

#[test]
fn from_mesh_samples_like_new() {
    let mut mesh = Mesh::new(PrimitiveTopology::TriangleList);
    mesh.position = Some(VertexAttributeValues::Float32x3(vec![
        [0f32.to_bits(), 1f32.to_bits(), 2f32.to_bits()],
        [3f32.to_bits(), 4f32.to_bits(), 5f32.to_bits()],
    ]));
    let grid = VoxelGrid::from_mesh(&mesh, 3, tag);
    assert_eq!(grid, VoxelGrid::new(&[], 3, tag));
}

#[test]
fn clone_keeps_samples_and_resolution() {
    let grid = VoxelGrid { data: vec![9, 8, 7], resolution: 5 };
    let copy = grid.clone();
    assert_eq!(copy, grid);
}

#[test]
fn checked_cube_counts_the_points() {
    assert_eq!(checked_cube(0), Some(0));
    assert_eq!(checked_cube(1), Some(1));
    assert_eq!(checked_cube(4), Some(64));
    assert_eq!(checked_cube(1000), Some(1_000_000_000));
}

#[test]
fn checked_cube_stops_at_the_machine_limit() {
    assert_eq!(checked_cube(usize::MAX), None);
    let root = (usize::MAX as f64).cbrt() as usize;
    let mut fits = root - 2;
    while checked_cube(fits + 1).is_some() {
        fits += 1;
    }
    assert!(fits >= root - 2 && fits <= root + 2);
    assert_eq!(
        checked_cube(fits),
        fits.checked_mul(fits).and_then(|square| square.checked_mul(fits))
    );
    assert!((fits as u128 + 1).pow(3) > usize::MAX as u128);
    assert!((fits as u128).pow(3) <= usize::MAX as u128);
}

#[test]
fn addresses_tells_where_a_read_finds_a_sample() {
    let grid = VoxelGrid { data: (0..27).collect(), resolution: 3 };
    assert!(grid.addresses(0, 0, 0));
    assert!(grid.addresses(2, 2, 2));
    assert!(!grid.addresses(3, 2, 2));
    assert!(!grid.addresses(0, 0, 3));
    // Address 26 = 8 + 3 * 6 + 9 * 0 lies inside although x and y leave the grid.
    assert!(grid.addresses(8, 6, 0));
    assert!(!grid.addresses(9, 6, 0));
    assert!(!grid.addresses(usize::MAX, 0, 0));
    assert!(!grid.addresses(0, usize::MAX, 0));
    assert!(!grid.addresses(0, 0, usize::MAX));
    assert!(!grid.addresses(1, usize::MAX / 3, 0));
}

#[test]
fn addresses_of_a_grid_without_extent() {
    let grid = VoxelGrid { data: vec![7, 8], resolution: 0 };
    assert!(grid.addresses(0, 5, 9));
    assert!(grid.addresses(1, usize::MAX, usize::MAX));
    assert!(!grid.addresses(2, 0, 0));
    assert_eq!(grid.read(1, usize::MAX, usize::MAX), 8);
}

#[test]
fn addresses_of_an_empty_grid() {
    let grid = VoxelGrid { data: vec![], resolution: 3 };
    assert!(!grid.addresses(0, 0, 0));
}
