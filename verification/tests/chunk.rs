use voxel_terrain::chunk::{generate_chunk_x_y, height_map_fits, BOUNDARY_FILL};
use voxel_terrain::faces::CuboidFaces;
use voxel_terrain::mesh::IMeshAccumulator;
use voxel_terrain::vertex::{IVertex, Point3};

/// The mesh of a height map, column by column, as the rules of the terrain
/// describe it.
fn expected_mesh(chunk_dim: usize, height_map: &[i32]) -> (Vec<IVertex>, Vec<u16>) {
    let mut m = IMeshAccumulator::new();
    for x_i in 0..chunk_dim {
        for y_i in 0..chunk_dim {
            let z = height_map[x_i * chunk_dim + y_i];
            let mut faces = CuboidFaces::top();
            let mut z_max_delta: i32 = 1;
            if x_i == 0 || height_map[(x_i - 1) * chunk_dim + y_i] < z {
                faces = faces.union(CuboidFaces::left());
                if x_i != 0 {
                    z_max_delta = z_max_delta.max(z - height_map[(x_i - 1) * chunk_dim + y_i]);
                } else {
                    z_max_delta = z_max_delta.max(8);
                }
            }
            if x_i == chunk_dim - 1 || height_map[(x_i + 1) * chunk_dim + y_i] < z {
                faces = faces.union(CuboidFaces::right());
                if x_i != chunk_dim - 1 {
                    z_max_delta = z_max_delta.max(z - height_map[(x_i + 1) * chunk_dim + y_i]);
                } else {
                    z_max_delta = z_max_delta.max(8);
                }
            }
            if y_i == 0 || height_map[x_i * chunk_dim + (y_i - 1)] < z {
                faces = faces.union(CuboidFaces::back());
                if y_i != 0 {
                    z_max_delta = z_max_delta.max(z - height_map[x_i * chunk_dim + (y_i - 1)]);
                } else {
                    z_max_delta = z_max_delta.max(8);
                }
            }
            if y_i == chunk_dim - 1 || height_map[x_i * chunk_dim + (y_i + 1)] < z {
                faces = faces.union(CuboidFaces::front());
                if y_i != chunk_dim - 1 {
                    z_max_delta = z_max_delta.max(z - height_map[x_i * chunk_dim + (y_i + 1)]);
                } else {
                    z_max_delta = z_max_delta.max(8);
                }
            }
            for i in 0..z_max_delta {
                m.add_cuboid_faces(Point3::new(x_i as i32, y_i as i32, z - i), faces);
            }
        }
    }
    m.report()
}

fn faces_of_column(vertices: &[IVertex], x: i32, y: i32, z: i32) -> Vec<u8> {
    vertices
        .iter()
        .step_by(4)
        .filter(|v| v.b_pos == [x, y, z])
        .map(|v| v.data[0])
        .collect()
}

#[test]
fn boundary_fill_is_eight() {
    assert_eq!(BOUNDARY_FILL, 8);
}

#[test]
fn flat_chunk_of_four_by_four() {
    let heights = vec![0; 16];
    assert!(height_map_fits(4, &heights));
    let m = generate_chunk_x_y(4, &heights);
    // Four corner columns show the top and two sides, eight edge columns
    // the top and one side, each eight cuboids deep; the four inner columns
    // show one top.
    assert_eq!(m.quad_count(), 4 * 8 * 3 + 8 * 8 * 2 + 4);
    let (vertices, indices) = m.report();
    assert_eq!(vertices.len(), 912);
    assert_eq!(indices.len(), 1368);
    for v in &vertices {
        assert!(v.b_pos[2] <= 0 && v.b_pos[2] >= -7);
    }
    // An inner column: one cuboid, top only.
    assert_eq!(faces_of_column(&vertices, 1, 2, 0), vec![32]);
    assert_eq!(faces_of_column(&vertices, 1, 2, -1), Vec::<u8>::new());
    // An edge column at x = 0: top and left, eight deep.
    for z in -7..=0 {
        assert_eq!(faces_of_column(&vertices, 0, 1, z), vec![32, 2]);
    }
    assert_eq!(faces_of_column(&vertices, 0, 1, -8), Vec::<u8>::new());
    // The corner at the far end: top, front and right.
    for z in -7..=0 {
        assert_eq!(faces_of_column(&vertices, 3, 3, z), vec![32, 8, 1]);
    }
    // Edge at y = 0: top and back; at x = 3: top and right; at y = 3: top and front.
    assert_eq!(faces_of_column(&vertices, 2, 0, 0), vec![32, 4]);
    assert_eq!(faces_of_column(&vertices, 3, 1, 0), vec![32, 1]);
    assert_eq!(faces_of_column(&vertices, 1, 3, 0), vec![32, 8]);
    assert_eq!((vertices, indices), expected_mesh(4, &heights));
}

#[test]
fn columns_come_in_order() {
    let heights = vec![0; 9];
    let (vertices, _) = generate_chunk_x_y(3, &heights).report();
    let mut seen: Vec<(i32, i32)> = Vec::new();
    for v in vertices.iter().step_by(4) {
        let column = (v.b_pos[0], v.b_pos[1]);
        if seen.last() != Some(&column) {
            seen.push(column);
        }
    }
    assert_eq!(
        seen,
        vec![(0, 0), (0, 1), (0, 2), (1, 0), (1, 1), (1, 2), (2, 0), (2, 1), (2, 2)]
    );
}

#[test]
fn single_column_is_exposed_on_all_sides() {
    let heights = vec![5];
    let m = generate_chunk_x_y(1, &heights);
    assert_eq!(m.quad_count(), 40);
    let (vertices, _) = m.report();
    for (layer, z) in (-2..=5).rev().enumerate() {
        let first = &vertices[layer * 20];
        assert_eq!(first.b_pos, [0, 0, z]);
        assert_eq!(faces_of_column(&vertices, 0, 0, z), vec![32, 8, 4, 2, 1]);
    }
}

#[test]
fn a_peak_is_filled_down_to_its_lowest_neighbour() {
    // A 3 by 3 chunk; the middle column rises 3 above three neighbours and
    // 12 above the fourth.
    let heights = vec![0, 7, 0, 7, 10, -2, 0, 7, 0];
    assert!(height_map_fits(3, &heights));
    let (vertices, indices) = generate_chunk_x_y(3, &heights).report();
    for z in -1..=10 {
        assert_eq!(faces_of_column(&vertices, 1, 1, z), vec![32, 8, 4, 2, 1]);
    }
    assert_eq!(faces_of_column(&vertices, 1, 1, -2), Vec::<u8>::new());
    // The low neighbour (1, 2) lies on the edge y = 2: top and front only.
    for z in -9..=-2 {
        assert_eq!(faces_of_column(&vertices, 1, 2, z), vec![32, 8]);
    }
    assert_eq!((vertices, indices), expected_mesh(3, &heights));
}

#[test]
fn an_equal_neighbour_covers_the_side() {
    // Two by two, all on the edge; heights differ along x only.
    let heights = vec![3, 3, 4, 4];
    let (vertices, indices) = generate_chunk_x_y(2, &heights).report();
    // (0, 0): left and back on the edge, right neighbour higher, front equal.
    assert_eq!(faces_of_column(&vertices, 0, 0, 3), vec![32, 4, 2]);
    // (1, 0): right and back on the edge, left neighbour lower by one.
    assert_eq!(faces_of_column(&vertices, 1, 0, 4), vec![32, 4, 2, 1]);
    assert_eq!(faces_of_column(&vertices, 1, 0, -3), vec![32, 4, 2, 1]);
    assert_eq!(faces_of_column(&vertices, 1, 0, -4), Vec::<u8>::new());
    assert_eq!((vertices, indices), expected_mesh(2, &heights));
}

#[test]
fn inner_column_with_a_drop_larger_than_the_boundary_fill() {
    let mut heights = vec![0; 25];
    heights[2 * 5 + 2] = 20;
    let (vertices, indices) = generate_chunk_x_y(5, &heights).report();
    for z in 1..=20 {
        assert_eq!(faces_of_column(&vertices, 2, 2, z), vec![32, 8, 4, 2, 1]);
    }
    assert_eq!(faces_of_column(&vertices, 2, 2, 0), Vec::<u8>::new());
    assert_eq!(faces_of_column(&vertices, 2, 1, 0), vec![32]);
    assert_eq!((vertices, indices), expected_mesh(5, &heights));
}

#[test]
fn generated_meshes_follow_the_rules() {
    let mut state: u32 = 12345;
    for dim in 1..=8usize {
        for _ in 0..4 {
            let mut heights = Vec::new();
            for _ in 0..dim * dim {
                state = state.wrapping_mul(1664525).wrapping_add(1013904223);
                heights.push(((state >> 16) % 12) as i32 - 1);
            }
            assert!(height_map_fits(dim, &heights));
            let m = generate_chunk_x_y(dim, &heights);
            let quads = m.quad_count();
            let (vertices, indices) = m.report();
            assert_eq!(vertices.len(), 4 * quads);
            assert_eq!(indices.len(), 6 * quads);
            assert_eq!((vertices, indices), expected_mesh(dim, &heights));
        }
    }
}

#[test]
fn empty_chunk() {
    let heights: Vec<i32> = Vec::new();
    assert!(height_map_fits(0, &heights));
    let (vertices, indices) = generate_chunk_x_y(0, &heights).report();
    assert!(vertices.is_empty());
    assert!(indices.is_empty());
}

#[test]
fn height_map_of_the_wrong_length_does_not_fit() {
    assert!(!height_map_fits(2, &vec![0; 3]));
    assert!(!height_map_fits(2, &vec![0; 5]));
    assert!(!height_map_fits(0, &vec![0; 1]));
    assert!(!height_map_fits(usize::MAX, &vec![0; 1]));
}

#[test]
fn heights_off_the_grid_do_not_fit() {
    assert!(!height_map_fits(1, &vec![i32::MAX]));
    assert!(height_map_fits(1, &vec![i32::MAX - 1]));
    assert!(!height_map_fits(1, &vec![i32::MIN]));
    assert!(!height_map_fits(1, &vec![i32::MIN + 6]));
    assert!(height_map_fits(1, &vec![i32::MIN + 7]));
}

#[test]
fn lowest_and_highest_columns_stay_on_the_grid() {
    let (vertices, _) = generate_chunk_x_y(1, &vec![i32::MIN + 7]).report();
    assert_eq!(vertices.len(), 160);
    assert_eq!(vertices[159].b_pos, [0, 0, i32::MIN]);
    let (vertices, _) = generate_chunk_x_y(1, &vec![i32::MAX - 1]).report();
    assert_eq!(vertices[0].v_pos, [1, 1, i32::MAX]);
}

#[test]
fn too_many_quads_do_not_fit() {
    // One column rises 20000 above its neighbour.
    assert!(!height_map_fits(2, &vec![0, 20000, 0, 0]));
    // 128 columns per side have more than 16383 tops.
    assert!(!height_map_fits(128, &vec![0; 128 * 128]));
    // A drop that no 32-bit number holds.
    assert!(!height_map_fits(2, &vec![i32::MAX - 1, i32::MIN + 7, 0, 0]));
}

#[test]
fn the_largest_chunks_that_fit() {
    // 100 by 100 flat: 4 * 24 + 392 * 16 + 98 * 98 = 15972 quads.
    let heights = vec![0; 100 * 100];
    assert!(height_map_fits(100, &heights));
    assert_eq!(generate_chunk_x_y(100, &heights).quad_count(), 15972);
    // 102 by 102 flat: 4 * 24 + 400 * 16 + 100 * 100 = 16496 quads.
    assert!(!height_map_fits(102, &vec![0; 102 * 102]));
    // One column of 3 by 3, in the middle, as high as it may be: the ring
    // around it has 4 * 24 + 4 * 16 = 160 quads, which leaves 16223 for
    // the middle, five for each cuboid.
    let mut heights = vec![0; 9];
    heights[4] = 3244;
    assert!(height_map_fits(3, &heights));
    assert_eq!(generate_chunk_x_y(3, &heights).quad_count(), 160 + 5 * 3244);
    heights[4] = 3245;
    assert!(!height_map_fits(3, &heights));
}
