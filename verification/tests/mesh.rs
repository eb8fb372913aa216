use voxel_terrain::faces::CuboidFaces;
use voxel_terrain::mesh::{
    face_frame, Axis, CuboidQuads, FaceFrame, IMeshAccumulator, MeshAccumulator, Quad, MAX_QUADS,
};
use voxel_terrain::vertex::{IVertex, Point3, Vertex, ONE_BITS, ZERO_BITS};

fn positions(vertices: &[IVertex]) -> Vec<[i32; 3]> {
    vertices.iter().map(|v| v.v_pos).collect()
}

#[test]
fn new_accumulator_is_empty() {
    let (vertices, indices) = IMeshAccumulator::new().report();
    assert!(vertices.is_empty());
    assert!(indices.is_empty());
    let (vertices, indices) = IMeshAccumulator::with_capacities(16, 24).report();
    assert!(vertices.is_empty());
    assert!(indices.is_empty());
    let (vertices, indices) = MeshAccumulator::new().report();
    assert!(vertices.is_empty());
    assert!(indices.is_empty());
    let (vertices, indices) = MeshAccumulator::with_capacities(16, 24).report();
    assert!(vertices.is_empty());
    assert!(indices.is_empty());
}

#[test]
fn top_face_of_a_cuboid() {
    let mut m = IMeshAccumulator::new();
    let pos = Point3::new(2, -3, 7);
    m.add_face(pos, CuboidFaces::top());
    assert_eq!(m.quad_count(), 1);
    let (vertices, indices) = m.report();
    assert_eq!(positions(&vertices), vec![[3, -2, 8], [2, -2, 8], [2, -3, 8], [3, -3, 8]]);
    assert_eq!(indices, vec![0, 1, 2, 2, 3, 0]);
    for v in &vertices {
        assert_eq!(v.b_pos, [2, -3, 7]);
        assert_eq!(v.data, [0b100000, 0, 0, 0]);
    }
    assert_eq!(vertices[0].tc, [ZERO_BITS, ZERO_BITS]);
    assert_eq!(vertices[1].tc, [ONE_BITS, ZERO_BITS]);
    assert_eq!(vertices[2].tc, [ONE_BITS, ONE_BITS]);
    assert_eq!(vertices[3].tc, [ZERO_BITS, ONE_BITS]);
}

#[test]
fn texture_coordinates_are_zero_and_one() {
    assert_eq!(f32::from_bits(ZERO_BITS), 0.0);
    assert_eq!(f32::from_bits(ONE_BITS), 1.0);
}

#[test]
fn corners_of_each_face() {
    let pos = Point3::new(0, 0, 0);
    let cases: [(CuboidFaces, [[i32; 3]; 4]); 6] = [
        (CuboidFaces::top(), [[1, 1, 1], [0, 1, 1], [0, 0, 1], [1, 0, 1]]),
        (CuboidFaces::bottom(), [[1, 0, 0], [0, 0, 0], [0, 1, 0], [1, 1, 0]]),
        (CuboidFaces::front(), [[1, 1, 0], [0, 1, 0], [0, 1, 1], [1, 1, 1]]),
        (CuboidFaces::back(), [[0, 0, 0], [1, 0, 0], [1, 0, 1], [0, 0, 1]]),
        (CuboidFaces::left(), [[0, 1, 0], [0, 0, 0], [0, 0, 1], [0, 1, 1]]),
        (CuboidFaces::right(), [[1, 0, 0], [1, 1, 0], [1, 1, 1], [1, 0, 1]]),
    ];
    for (face, corners) in cases {
        let mut m = IMeshAccumulator::new();
        m.add_face(pos, face);
        let (vertices, _) = m.report();
        assert_eq!(positions(&vertices), corners.to_vec());
        for v in &vertices {
            assert_eq!(v.data[0], face.bits());
        }
    }
}

fn cross(a: [i32; 3], b: [i32; 3]) -> [i32; 3] {
    [a[1] * b[2] - a[2] * b[1], a[2] * b[0] - a[0] * b[2], a[0] * b[1] - a[1] * b[0]]
}

fn minus(a: [i32; 3], b: [i32; 3]) -> [i32; 3] {
    [a[0] - b[0], a[1] - b[1], a[2] - b[2]]
}

#[test]
fn faces_wind_counter_clockwise_seen_from_outside() {
    let pos = Point3::new(5, 6, 7);
    let cases: [(CuboidFaces, [i32; 3]); 6] = [
        (CuboidFaces::top(), [0, 0, 1]),
        (CuboidFaces::bottom(), [0, 0, -1]),
        (CuboidFaces::front(), [0, 1, 0]),
        (CuboidFaces::back(), [0, -1, 0]),
        (CuboidFaces::left(), [-1, 0, 0]),
        (CuboidFaces::right(), [1, 0, 0]),
    ];
    for (face, normal) in cases {
        let mut m = IMeshAccumulator::new();
        m.add_face(pos, face);
        let (vertices, _) = m.report();
        let p = positions(&vertices);
        for k in 0..4 {
            let a = minus(p[(k + 1) % 4], p[k]);
            let b = minus(p[(k + 2) % 4], p[(k + 1) % 4]);
            assert_eq!(cross(a, b), normal);
        }
    }
}

#[test]
fn add_cuboid_faces_emits_requested_faces_in_order() {
    let mut m = IMeshAccumulator::new();
    let faces = CuboidFaces::right().union(CuboidFaces::top()).union(CuboidFaces::back());
    m.add_cuboid_faces(Point3::new(1, 2, 3), faces);
    assert_eq!(m.quad_count(), 3);
    let (vertices, indices) = m.report();
    assert_eq!(vertices.len(), 12);
    assert_eq!(indices.len(), 18);
    let ids: Vec<u8> = vertices.iter().map(|v| v.data[0]).collect();
    assert_eq!(ids, vec![32, 32, 32, 32, 4, 4, 4, 4, 1, 1, 1, 1]);
    assert_eq!(indices, vec![0, 1, 2, 2, 3, 0, 4, 5, 6, 6, 7, 4, 8, 9, 10, 10, 11, 8]);
}

#[test]
fn add_cuboid_faces_all_and_none() {
    let mut m = IMeshAccumulator::new();
    m.add_cuboid_faces(Point3::new(0, 0, 0), CuboidFaces::empty());
    assert_eq!(m.quad_count(), 0);
    m.add_cuboid_faces(Point3::new(0, 0, 0), CuboidFaces::all());
    assert_eq!(m.quad_count(), 6);
    let (vertices, _) = m.report();
    let ids: Vec<u8> = vertices.iter().step_by(4).map(|v| v.data[0]).collect();
    assert_eq!(ids, vec![32, 16, 8, 4, 2, 1]);
}

#[test]
fn accumulator_is_linear_in_the_number_of_quads() {
    let mut m = IMeshAccumulator::new();
    let n = 25;
    for k in 0..n {
        m.add_face(Point3::new(k, 0, 0), CuboidFaces::front());
    }
    assert_eq!(m.quad_count(), n as usize);
    let (vertices, indices) = m.report();
    assert_eq!(vertices.len(), 4 * n as usize);
    assert_eq!(indices.len(), 6 * n as usize);
    for k in 0..n as usize {
        let b = 4 * k as u16;
        assert_eq!(&indices[6 * k..6 * k + 6], &[b, b + 1, b + 2, b + 2, b + 3, b]);
    }
}

#[test]
fn accumulator_holds_the_most_quads_that_sixteen_bits_address() {
    let mut m = IMeshAccumulator::new();
    for _ in 0..MAX_QUADS {
        m.add_face(Point3::new(0, 0, 0), CuboidFaces::top());
    }
    assert_eq!(m.quad_count(), 16383);
    let (vertices, indices) = m.report();
    assert_eq!(vertices.len(), 65532);
    assert_eq!(indices.len(), 98298);
    assert_eq!(indices[98297], 65528);
    assert_eq!(indices[98296], 65531);
}

#[test]
fn ivertex_new_keeps_its_arguments() {
    let v = IVertex::new([1, 2, 3], Point3::new(4, 5, 6), [7, 8], 9);
    assert_eq!(v, IVertex { v_pos: [1, 2, 3], b_pos: [4, 5, 6], tc: [7, 8], data: [9, 0, 0, 0] });
}

#[test]
fn vertex_new_makes_a_point() {
    let v = Vertex::new([1, 2, 3], [4, 5, 6], [7, 8]);
    assert_eq!(v, Vertex { pos: [1, 2, 3, ONE_BITS], normal: [4, 5, 6], tc: [7, 8] });
}

fn quad(tag: u32) -> Quad {
    Quad {
        corners: [[tag, 0, 0], [tag, 1, 0], [tag, 2, 0], [tag, 3, 0]],
        normal: [tag, tag, tag],
    }
}

fn cuboid() -> CuboidQuads {
    CuboidQuads {
        top: quad(10),
        bottom: quad(20),
        front: quad(30),
        back: quad(40),
        left: quad(50),
        right: quad(60),
    }
}

#[test]
fn add_quad_quat_emits_four_vertices_and_six_indices() {
    let mut m = MeshAccumulator::new();
    m.add_quad_quat(quad(7));
    m.add_quad_quat(quad(8));
    let (vertices, indices) = m.report();
    assert_eq!(vertices.len(), 8);
    assert_eq!(indices, vec![0, 1, 2, 2, 3, 0, 4, 5, 6, 6, 7, 4]);
    assert_eq!(vertices[0], Vertex { pos: [7, 0, 0, ONE_BITS], normal: [7, 7, 7], tc: [ZERO_BITS, ZERO_BITS] });
    assert_eq!(vertices[1], Vertex { pos: [7, 1, 0, ONE_BITS], normal: [7, 7, 7], tc: [ONE_BITS, ZERO_BITS] });
    assert_eq!(vertices[2], Vertex { pos: [7, 2, 0, ONE_BITS], normal: [7, 7, 7], tc: [ONE_BITS, ONE_BITS] });
    assert_eq!(vertices[3], Vertex { pos: [7, 3, 0, ONE_BITS], normal: [7, 7, 7], tc: [ZERO_BITS, ONE_BITS] });
    assert_eq!(vertices[4].pos, [8, 0, 0, ONE_BITS]);
}

#[test]
fn add_cuboid_quat_emits_all_faces_in_order() {
    let mut m = MeshAccumulator::new();
    m.add_cuboid_quat(cuboid());
    let (vertices, indices) = m.report();
    assert_eq!(vertices.len(), 24);
    assert_eq!(indices.len(), 36);
    let tags: Vec<u32> = vertices.iter().step_by(4).map(|v| v.normal[0]).collect();
    assert_eq!(tags, vec![10, 20, 50, 60, 30, 40]);
}

#[test]
fn add_cuboid_quat_faces_emits_requested_faces_in_order() {
    let mut m = MeshAccumulator::new();
    m.add_cuboid_quat_faces(CuboidFaces::all(), cuboid());
    let (vertices, _) = m.report();
    let tags: Vec<u32> = vertices.iter().step_by(4).map(|v| v.normal[0]).collect();
    assert_eq!(tags, vec![10, 20, 60, 50, 30, 40]);

    let mut m = MeshAccumulator::new();
    let faces = CuboidFaces::back().union(CuboidFaces::left());
    m.add_cuboid_quat_faces(faces, cuboid());
    let (vertices, indices) = m.report();
    let tags: Vec<u32> = vertices.iter().step_by(4).map(|v| v.normal[0]).collect();
    assert_eq!(tags, vec![50, 40]);
    assert_eq!(indices, vec![0, 1, 2, 2, 3, 0, 4, 5, 6, 6, 7, 4]);

    let mut m = MeshAccumulator::new();
    m.add_cuboid_quat_faces(CuboidFaces::empty(), cuboid());
    let (vertices, indices) = m.report();
    assert!(vertices.is_empty());
    assert!(indices.is_empty());
}

#[test]
fn frames_of_the_faces() {
    assert_eq!(
        face_frame(CuboidFaces::top()),
        FaceFrame {
            offset_axis: Axis::Z,
            offset_sign: 1,
            turn_axis: Axis::X,
            quarter_turns: 0,
            width_axis: Axis::X,
            length_axis: Axis::Y
        }
    );
    assert_eq!(
        face_frame(CuboidFaces::bottom()),
        FaceFrame {
            offset_axis: Axis::Z,
            offset_sign: -1,
            turn_axis: Axis::X,
            quarter_turns: 2,
            width_axis: Axis::X,
            length_axis: Axis::Y
        }
    );
    assert_eq!(
        face_frame(CuboidFaces::front()),
        FaceFrame {
            offset_axis: Axis::Y,
            offset_sign: 1,
            turn_axis: Axis::X,
            quarter_turns: -1,
            width_axis: Axis::X,
            length_axis: Axis::Z
        }
    );
    assert_eq!(
        face_frame(CuboidFaces::back()),
        FaceFrame {
            offset_axis: Axis::Y,
            offset_sign: -1,
            turn_axis: Axis::X,
            quarter_turns: 1,
            width_axis: Axis::X,
            length_axis: Axis::Z
        }
    );
    assert_eq!(
        face_frame(CuboidFaces::left()),
        FaceFrame {
            offset_axis: Axis::X,
            offset_sign: -1,
            turn_axis: Axis::Y,
            quarter_turns: -1,
            width_axis: Axis::Z,
            length_axis: Axis::Y
        }
    );
    assert_eq!(
        face_frame(CuboidFaces::right()),
        FaceFrame {
            offset_axis: Axis::X,
            offset_sign: 1,
            turn_axis: Axis::Y,
            quarter_turns: 1,
            width_axis: Axis::Z,
            length_axis: Axis::Y
        }
    );
}

#[test]
fn free_accumulator_counts_its_quads() {
    let mut m = MeshAccumulator::new();
    assert_eq!(m.quad_count(), 0);
    m.add_cuboid_quat(cuboid());
    m.add_quad_quat(quad(1));
    assert_eq!(m.quad_count(), 7);
    let (vertices, indices) = m.report();
    assert_eq!(vertices.len(), 28);
    assert_eq!(indices.len(), 42);
    for k in 0..7u32 {
        let b = 4 * k;
        let at = 6 * k as usize;
        assert_eq!(&indices[at..at + 6], &[b, b + 1, b + 2, b + 2, b + 3, b]);
    }
}
