//! Mesh accumulation: quads are appended to growing vertex and index lists,
//! four vertices and six indices at a time.

use vstd::prelude::*;
use crate::faces::CuboidFaces;
use crate::vertex::{IVertex, Point3, Vertex, ONE_BITS, ZERO_BITS};

verus! {

/// The most quads that an `IMeshAccumulator` can hold: its running offset is
/// a 16-bit number that stays at four times the quad count.
pub const MAX_QUADS: usize = 16383;

/// The corner of a quad that its `slot`-th index refers to. The two
/// triangles of a quad are (0, 1, 2) and (2, 3, 0).
pub open spec fn slot_corner(slot: int) -> int {
    if slot == 0 {
        0
    } else if slot == 1 {
        1
    } else if slot == 2 {
        2
    } else if slot == 3 {
        2
    } else if slot == 4 {
        3
    } else {
        0
    }
}

/// The value of the `i`-th index of a mesh made of quads only: quad `i / 6`
/// owns the vertices `4 * (i / 6)` to `4 * (i / 6) + 3`.
pub open spec fn mesh_index(i: int) -> int {
    4 * (i / 6) + slot_corner(i % 6)
}

/// The index list of a mesh of `quads` quads.
pub open spec fn quad_indices(quads: nat) -> Seq<u16> {
    Seq::new(6 * quads, |i: int| mesh_index(i) as u16)
}

/// The texture coordinate of the `k`-th corner of a quad: the corners of
/// the unit square, counter-clockwise from the origin.
pub open spec fn corner_tc(k: int) -> [u32; 2] {
    if k == 0 {
        [ZERO_BITS, ZERO_BITS]
    } else if k == 1 {
        [ONE_BITS, ZERO_BITS]
    } else if k == 2 {
        [ONE_BITS, ONE_BITS]
    } else {
        [ZERO_BITS, ONE_BITS]
    }
}

/// Offset of the `k`-th corner of `face` from the anchor of a unit cuboid.
/// Seen from outside the cuboid, the corners of each face run
/// counter-clockwise.
pub open spec fn corner_offset(face: CuboidFaces, k: int) -> (int, int, int) {
    if face == CuboidFaces::top() {
        if k == 0 {
            (1, 1, 1)
        } else if k == 1 {
            (0, 1, 1)
        } else if k == 2 {
            (0, 0, 1)
        } else {
            (1, 0, 1)
        }
    } else if face == CuboidFaces::bottom() {
        if k == 0 {
            (1, 0, 0)
        } else if k == 1 {
            (0, 0, 0)
        } else if k == 2 {
            (0, 1, 0)
        } else {
            (1, 1, 0)
        }
    } else if face == CuboidFaces::front() {
        if k == 0 {
            (1, 1, 0)
        } else if k == 1 {
            (0, 1, 0)
        } else if k == 2 {
            (0, 1, 1)
        } else {
            (1, 1, 1)
        }
    } else if face == CuboidFaces::back() {
        if k == 0 {
            (0, 0, 0)
        } else if k == 1 {
            (1, 0, 0)
        } else if k == 2 {
            (1, 0, 1)
        } else {
            (0, 0, 1)
        }
    } else if face == CuboidFaces::left() {
        if k == 0 {
            (0, 1, 0)
        } else if k == 1 {
            (0, 0, 0)
        } else if k == 2 {
            (0, 0, 1)
        } else {
            (0, 1, 1)
        }
    } else {
        if k == 0 {
            (1, 0, 0)
        } else if k == 1 {
            (1, 1, 0)
        } else if k == 2 {
            (1, 1, 1)
        } else {
            (1, 0, 1)
        }
    }
}

/// The direction in which `face` looks: the outward unit normal.
pub open spec fn face_normal(face: CuboidFaces) -> (int, int, int) {
    if face == CuboidFaces::top() {
        (0, 0, 1)
    } else if face == CuboidFaces::bottom() {
        (0, 0, -1)
    } else if face == CuboidFaces::front() {
        (0, 1, 0)
    } else if face == CuboidFaces::back() {
        (0, -1, 0)
    } else if face == CuboidFaces::left() {
        (-1, 0, 0)
    } else {
        (1, 0, 0)
    }
}

/// The difference of two vectors.
pub open spec fn minus(a: (int, int, int), b: (int, int, int)) -> (int, int, int) {
    (a.0 - b.0, a.1 - b.1, a.2 - b.2)
}

/// The cross product of two vectors.
pub open spec fn cross(a: (int, int, int), b: (int, int, int)) -> (int, int, int) {
    (a.1 * b.2 - a.2 * b.1, a.2 * b.0 - a.0 * b.2, a.0 * b.1 - a.1 * b.0)
}

/// The dot product of two vectors.
pub open spec fn dot(a: (int, int, int), b: (int, int, int)) -> int {
    a.0 * b.0 + a.1 * b.1 + a.2 * b.2
}

/// The corners of each face wind counter-clockwise as seen from outside:
/// at every corner the cross product of the edge that arrives and the edge
/// that leaves is the outward normal. All four corners lie in the plane of
/// the face, at 1 along the normal for the faces that look in a positive
/// direction and at 0 for the others, and each is a corner of the unit cube.
pub proof fn lemma_face_winding(face: CuboidFaces, k: int)
    requires
        face.is_single(),
        0 <= k < 4,
    ensures
        cross(
            minus(corner_offset(face, (k + 1) % 4), corner_offset(face, k)),
            minus(corner_offset(face, (k + 2) % 4), corner_offset(face, (k + 1) % 4)),
        ) == face_normal(face),
        dot(corner_offset(face, k), face_normal(face)) == if face == CuboidFaces::top() || face
            == CuboidFaces::front() || face == CuboidFaces::right() {
            1int
        } else {
            0int
        },
        0 <= corner_offset(face, k).0 <= 1,
        0 <= corner_offset(face, k).1 <= 1,
        0 <= corner_offset(face, k).2 <= 1,
{
    let arrives = minus(corner_offset(face, (k + 1) % 4), corner_offset(face, k));
    let leaves = minus(corner_offset(face, (k + 2) % 4), corner_offset(face, (k + 1) % 4));
    lemma_winding_case(face, k, arrives, leaves);
    let corner = corner_offset(face, k);
    let normal = face_normal(face);
    lemma_unit_product(corner.0, normal.0);
    lemma_unit_product(corner.1, normal.1);
    lemma_unit_product(corner.2, normal.2);
}

/// The cross product of two edges, once the corner is known.
proof fn lemma_winding_case(
    face: CuboidFaces,
    k: int,
    arrives: (int, int, int),
    leaves: (int, int, int),
)
    requires
        face.is_single(),
        0 <= k < 4,
        arrives == minus(corner_offset(face, (k + 1) % 4), corner_offset(face, k)),
        leaves == minus(corner_offset(face, (k + 2) % 4), corner_offset(face, (k + 1) % 4)),
    ensures
        cross(arrives, leaves) == face_normal(face),
{
    if k == 0 {
        assert(arrives == minus(corner_offset(face, 1), corner_offset(face, 0)));
        assert(leaves == minus(corner_offset(face, 2), corner_offset(face, 1)));
    } else if k == 1 {
        assert(arrives == minus(corner_offset(face, 2), corner_offset(face, 1)));
        assert(leaves == minus(corner_offset(face, 3), corner_offset(face, 2)));
    } else if k == 2 {
        assert(arrives == minus(corner_offset(face, 3), corner_offset(face, 2)));
        assert(leaves == minus(corner_offset(face, 0), corner_offset(face, 3)));
    } else {
        assert(arrives == minus(corner_offset(face, 0), corner_offset(face, 3)));
        assert(leaves == minus(corner_offset(face, 1), corner_offset(face, 0)));
    }
    assert(-1 <= arrives.0 <= 1 && -1 <= arrives.1 <= 1 && -1 <= arrives.2 <= 1);
    assert(-1 <= leaves.0 <= 1 && -1 <= leaves.1 <= 1 && -1 <= leaves.2 <= 1);
    lemma_unit_product(arrives.1, leaves.2);
    lemma_unit_product(arrives.2, leaves.1);
    lemma_unit_product(arrives.2, leaves.0);
    lemma_unit_product(arrives.0, leaves.2);
    lemma_unit_product(arrives.0, leaves.1);
    lemma_unit_product(arrives.1, leaves.0);
}

/// The product of two numbers out of -1, 0 and 1.
proof fn lemma_unit_product(a: int, b: int)
    requires
        -1 <= a <= 1,
        -1 <= b <= 1,
    ensures
        a * b == if a == 0 || b == 0 {
            0int
        } else if a == b {
            1int
        } else {
            -1int
        },
{
    assert(a * b == if a == 0 || b == 0 {
        0int
    } else if a == b {
        1int
    } else {
        -1int
    }) by (nonlinear_arith)
        requires
            -1 <= a <= 1,
            -1 <= b <= 1,
    ;
}

/// The `k`-th vertex of `face` of the unit cuboid anchored at `pos`.
pub open spec fn face_vertex(pos: Point3, face: CuboidFaces, k: int) -> IVertex {
    let d = corner_offset(face, k);
    IVertex::spec_new(
        [(pos.x + d.0) as i32, (pos.y + d.1) as i32, (pos.z + d.2) as i32],
        pos,
        corner_tc(k),
        face.bits,
    )
}

/// The four vertices of `face` of the unit cuboid anchored at `pos`.
pub open spec fn face_vertices(pos: Point3, face: CuboidFaces) -> Seq<IVertex> {
    seq![
        face_vertex(pos, face, 0),
        face_vertex(pos, face, 1),
        face_vertex(pos, face, 2),
        face_vertex(pos, face, 3),
    ]
}

/// The vertices of `face` if `faces` holds it, else nothing.
pub open spec fn optional_face(pos: Point3, faces: CuboidFaces, face: CuboidFaces) -> Seq<
    IVertex,
> {
    if faces.contains(face) {
        face_vertices(pos, face)
    } else {
        Seq::empty()
    }
}

/// The vertices of the unit cuboid anchored at `pos`, restricted to `faces`.
/// The faces come in the order top, bottom, front, back, left, right.
pub open spec fn cuboid_vertices(pos: Point3, faces: CuboidFaces) -> Seq<IVertex> {
    optional_face(pos, faces, CuboidFaces::top()) + optional_face(
        pos,
        faces,
        CuboidFaces::bottom(),
    ) + optional_face(pos, faces, CuboidFaces::front()) + optional_face(
        pos,
        faces,
        CuboidFaces::back(),
    ) + optional_face(pos, faces, CuboidFaces::left()) + optional_face(
        pos,
        faces,
        CuboidFaces::right(),
    )
}

/// Appending six lists one after the other appends their concatenation.
proof fn lemma_concat_regroup<T>(
    v: Seq<T>,
    a: Seq<T>,
    b: Seq<T>,
    c: Seq<T>,
    d: Seq<T>,
    e: Seq<T>,
    f: Seq<T>,
)
    ensures
        v + a + b + c + d + e + f == v + (a + b + c + d + e + f),
{
    assert(v + a + b + c + d + e + f =~= v + (a + b + c + d + e + f));
}

/// A cuboid contributes four vertices for each face requested.
pub proof fn lemma_cuboid_vertices_len(pos: Point3, faces: CuboidFaces)
    ensures
        cuboid_vertices(pos, faces).len() == 4 * faces.spec_count(),
{
}

/// Whether a unit cuboid anchored at `pos` has all its corners on the grid.
pub open spec fn cuboid_on_grid(pos: Point3) -> bool {
    pos.x < i32::MAX && pos.y < i32::MAX && pos.z < i32::MAX
}

/// Accumulates the faces of unit cuboids on the voxel grid.
pub struct IMeshAccumulator {
    vertex_accum: Vec<IVertex>,
    index_accum: Vec<u16>,
    index_offset: u16,
}

impl IMeshAccumulator {
    /// The vertices accumulated so far.
    pub closed spec fn vertices(&self) -> Seq<IVertex> {
        self.vertex_accum@
    }

    /// The indices accumulated so far.
    pub closed spec fn indices(&self) -> Seq<u16> {
        self.index_accum@
    }

    /// The index that the first vertex of the next quad will get.
    pub closed spec fn offset(&self) -> int {
        self.index_offset as int
    }

    /// The number of quads accumulated so far.
    pub open spec fn quads(&self) -> nat {
        self.vertices().len() / 4
    }

    /// The vertices come in fours, the running offset is their number, and
    /// the indices are those of a mesh of quads.
    pub open spec fn wf(&self) -> bool {
        &&& self.vertices().len() == 4 * self.quads()
        &&& self.offset() == self.vertices().len()
        &&& self.indices() == quad_indices(self.quads())
    }

    /// Create a new `IMeshAccumulator`.
    pub fn new() -> (m: IMeshAccumulator)
        ensures
            m.wf(),
            m.vertices() == Seq::<IVertex>::empty(),
            m.indices() == Seq::<u16>::empty(),
    {
        let m = IMeshAccumulator {
            vertex_accum: Vec::new(),
            index_accum: Vec::new(),
            index_offset: 0,
        };
        assert(m.indices() =~= quad_indices(0));
        m
    }

    /// Create a new `IMeshAccumulator` whose lists have room for the given
    /// numbers of vertices and indices.
    pub fn with_capacities(vertex_capacity: usize, index_capacity: usize) -> (m: IMeshAccumulator)
        ensures
            m.wf(),
            m.vertices() == Seq::<IVertex>::empty(),
            m.indices() == Seq::<u16>::empty(),
    {
        let m = IMeshAccumulator {
            vertex_accum: Vec::with_capacity(vertex_capacity),
            index_accum: Vec::with_capacity(index_capacity),
            index_offset: 0,
        };
        assert(m.indices() =~= quad_indices(0));
        m
    }

    /// Consumes the accumulator and returns the vertex and index lists.
    pub fn report(self) -> (r: (Vec<IVertex>, Vec<u16>))
        ensures
            r.0@ == self.vertices(),
            r.1@ == self.indices(),
    {
        (self.vertex_accum, self.index_accum)
    }

    /// The number of quads accumulated so far.
    pub fn quad_count(&self) -> (n: usize)
        requires
            self.wf(),
        ensures
            n == self.quads(),
            n <= MAX_QUADS,
    {
        (self.index_offset / 4) as usize
    }

    /// Adds the faces in `faces` of the unit cuboid anchored at `pos`.
    pub fn add_cuboid_faces(&mut self, pos: Point3, faces: CuboidFaces)
        requires
            old(self).wf(),
            cuboid_on_grid(pos),
            old(self).quads() + faces.spec_count() <= MAX_QUADS,
        ensures
            final(self).wf(),
            final(self).vertices() == old(self).vertices() + cuboid_vertices(pos, faces),
            final(self).quads() == old(self).quads() + faces.spec_count(),
    {
        let ghost v0 = self.vertices();
        let ghost a = optional_face(pos, faces, CuboidFaces::top());
        let ghost b = optional_face(pos, faces, CuboidFaces::bottom());
        let ghost c = optional_face(pos, faces, CuboidFaces::front());
        let ghost d = optional_face(pos, faces, CuboidFaces::back());
        let ghost e = optional_face(pos, faces, CuboidFaces::left());
        let ghost f = optional_face(pos, faces, CuboidFaces::right());
        self.add_face_if(pos, faces, CuboidFaces::top());
        self.add_face_if(pos, faces, CuboidFaces::bottom());
        self.add_face_if(pos, faces, CuboidFaces::front());
        self.add_face_if(pos, faces, CuboidFaces::back());
        self.add_face_if(pos, faces, CuboidFaces::left());
        self.add_face_if(pos, faces, CuboidFaces::right());
        proof {
            lemma_concat_regroup(v0, a, b, c, d, e, f);
        }
    }

    /// Adds `face` of the unit cuboid anchored at `pos` if `faces` holds it.
    fn add_face_if(&mut self, pos: Point3, faces: CuboidFaces, face: CuboidFaces)
        requires
            old(self).wf(),
            face.is_single(),
            cuboid_on_grid(pos),
            old(self).quads() + faces.has(face) <= MAX_QUADS,
        ensures
            final(self).wf(),
            final(self).vertices() == old(self).vertices() + optional_face(pos, faces, face),
            final(self).quads() == old(self).quads() + faces.has(face),
    {
        if faces.contains(face) {
            self.add_face(pos, face);
        } else {
            assert(self.vertices() =~= old(self).vertices() + optional_face(pos, faces, face));
        }
    }

    /// Adds one face of the unit cuboid anchored at `pos`: four vertices, in
    /// counter-clockwise order as seen from outside, and the six indices of
    /// its two triangles.
    pub fn add_face(&mut self, pos: Point3, face: CuboidFaces)
        requires
            old(self).wf(),
            face.is_single(),
            cuboid_on_grid(pos),
            old(self).quads() < MAX_QUADS,
        ensures
            final(self).wf(),
            final(self).vertices() == old(self).vertices() + face_vertices(pos, face),
            final(self).quads() == old(self).quads() + 1,
    {
        let i = self.index_offset;
        let x0 = pos.x;
        let y0 = pos.y;
        let z0 = pos.z;
        let x1 = pos.x + 1;
        let y1 = pos.y + 1;
        let z1 = pos.z + 1;

        let corners: [[i32; 3]; 4] = if face == CuboidFaces::top() {
            [[x1, y1, z1], [x0, y1, z1], [x0, y0, z1], [x1, y0, z1]]
        } else if face == CuboidFaces::bottom() {
            [[x1, y0, z0], [x0, y0, z0], [x0, y1, z0], [x1, y1, z0]]
        } else if face == CuboidFaces::front() {
            [[x1, y1, z0], [x0, y1, z0], [x0, y1, z1], [x1, y1, z1]]
        } else if face == CuboidFaces::back() {
            [[x0, y0, z0], [x1, y0, z0], [x1, y0, z1], [x0, y0, z1]]
        } else if face == CuboidFaces::left() {
            [[x0, y1, z0], [x0, y0, z0], [x0, y0, z1], [x0, y1, z1]]
        } else {
            [[x1, y0, z0], [x1, y1, z0], [x1, y1, z1], [x1, y0, z1]]
        };

        let bits = face.bits();
        self.vertex_accum.push(IVertex::new(corners[0], pos, [ZERO_BITS, ZERO_BITS], bits));
        self.vertex_accum.push(IVertex::new(corners[1], pos, [ONE_BITS, ZERO_BITS], bits));
        self.vertex_accum.push(IVertex::new(corners[2], pos, [ONE_BITS, ONE_BITS], bits));
        self.vertex_accum.push(IVertex::new(corners[3], pos, [ZERO_BITS, ONE_BITS], bits));
        self.index_accum.push(i);
        self.index_accum.push(i + 1);
        self.index_accum.push(i + 2);
        self.index_accum.push(i + 2);
        self.index_accum.push(i + 3);
        self.index_accum.push(i);
        self.index_offset = i + 4;

        proof {
            let q = old(self).quads();
            assert(self.vertices() =~= old(self).vertices() + face_vertices(pos, face));
            assert(self.quads() == q + 1);
            assert(self.indices() =~= quad_indices(q + 1)) by {
                assert forall|j: int| 0 <= j < 6 * (q + 1) implies self.indices()[j]
                    == quad_indices(q + 1)[j] by {
                    if j < 6 * q {
                        assert(self.indices()[j] == old(self).indices()[j]);
                        assert(old(self).indices()[j] == quad_indices(q)[j]);
                    } else {
                        assert(j / 6 == q);
                    }
                }
            }
        }
    }
}

/// A well-formed accumulator that holds `n` quads holds exactly `4 * n`
/// vertices and `6 * n` indices, and the indices of its `k`-th quad refer to
/// the vertices `4 * k` to `4 * k + 3` and to no others. A new accumulator
/// holds no quad, and each `add_face` adds exactly one.
pub proof fn lemma_accumulator_linearity(m: IMeshAccumulator, k: int)
    requires
        m.wf(),
        0 <= k < m.quads(),
    ensures
        m.vertices().len() == 4 * m.quads(),
        m.indices().len() == 6 * m.quads(),
        m.indices()[6 * k] == 4 * k,
        m.indices()[6 * k + 1] == 4 * k + 1,
        m.indices()[6 * k + 2] == 4 * k + 2,
        m.indices()[6 * k + 3] == 4 * k + 2,
        m.indices()[6 * k + 4] == 4 * k + 3,
        m.indices()[6 * k + 5] == 4 * k,
{
}

/// An axis of the frame of a cuboid in space. The half extents of the
/// cuboid are its half width along x, its half length along y and its half
/// height along z.
#[derive(Clone, Copy, Debug, PartialEq, Eq)]
pub enum Axis {
    X,
    Y,
    Z,
}

/// How the quad of a face derives from a cuboid in space. The quad's centre
/// lies on `offset_axis`, on the side that `offset_sign` gives, as far from
/// the centre of the cuboid as the half extent along that axis. The quad
/// has the orientation of the cuboid, turned about `turn_axis` by
/// `quarter_turns` quarter turns. Its half width and half length are the
/// half extents of the cuboid along `width_axis` and `length_axis`.
#[derive(Clone, Copy, Debug, PartialEq, Eq)]
pub struct FaceFrame {
    pub offset_axis: Axis,
    pub offset_sign: i8,
    pub turn_axis: Axis,
    pub quarter_turns: i8,
    pub width_axis: Axis,
    pub length_axis: Axis,
}

/// The frame of each face: no turn for the top, a half turn about x for the
/// bottom, a quarter turn about x for front and back, and a quarter turn
/// about y for left and right.
pub open spec fn spec_face_frame(face: CuboidFaces) -> FaceFrame {
    if face == CuboidFaces::top() {
        FaceFrame {
            offset_axis: Axis::Z,
            offset_sign: 1,
            turn_axis: Axis::X,
            quarter_turns: 0,
            width_axis: Axis::X,
            length_axis: Axis::Y,
        }
    } else if face == CuboidFaces::bottom() {
        FaceFrame {
            offset_axis: Axis::Z,
            offset_sign: -1i8,
            turn_axis: Axis::X,
            quarter_turns: 2,
            width_axis: Axis::X,
            length_axis: Axis::Y,
        }
    } else if face == CuboidFaces::front() {
        FaceFrame {
            offset_axis: Axis::Y,
            offset_sign: 1,
            turn_axis: Axis::X,
            quarter_turns: -1i8,
            width_axis: Axis::X,
            length_axis: Axis::Z,
        }
    } else if face == CuboidFaces::back() {
        FaceFrame {
            offset_axis: Axis::Y,
            offset_sign: -1i8,
            turn_axis: Axis::X,
            quarter_turns: 1,
            width_axis: Axis::X,
            length_axis: Axis::Z,
        }
    } else if face == CuboidFaces::left() {
        FaceFrame {
            offset_axis: Axis::X,
            offset_sign: -1i8,
            turn_axis: Axis::Y,
            quarter_turns: -1i8,
            width_axis: Axis::Z,
            length_axis: Axis::Y,
        }
    } else {
        FaceFrame {
            offset_axis: Axis::X,
            offset_sign: 1,
            turn_axis: Axis::Y,
            quarter_turns: 1,
            width_axis: Axis::Z,
            length_axis: Axis::Y,
        }
    }
}

/// The frame of a face of a cuboid in space.
pub fn face_frame(face: CuboidFaces) -> (frame: FaceFrame)
    requires
        face.is_single(),
    ensures
        frame == spec_face_frame(face),
{
    if face == CuboidFaces::top() {
        FaceFrame {
            offset_axis: Axis::Z,
            offset_sign: 1,
            turn_axis: Axis::X,
            quarter_turns: 0,
            width_axis: Axis::X,
            length_axis: Axis::Y,
        }
    } else if face == CuboidFaces::bottom() {
        FaceFrame {
            offset_axis: Axis::Z,
            offset_sign: -1,
            turn_axis: Axis::X,
            quarter_turns: 2,
            width_axis: Axis::X,
            length_axis: Axis::Y,
        }
    } else if face == CuboidFaces::front() {
        FaceFrame {
            offset_axis: Axis::Y,
            offset_sign: 1,
            turn_axis: Axis::X,
            quarter_turns: -1,
            width_axis: Axis::X,
            length_axis: Axis::Z,
        }
    } else if face == CuboidFaces::back() {
        FaceFrame {
            offset_axis: Axis::Y,
            offset_sign: -1,
            turn_axis: Axis::X,
            quarter_turns: 1,
            width_axis: Axis::X,
            length_axis: Axis::Z,
        }
    } else if face == CuboidFaces::left() {
        FaceFrame {
            offset_axis: Axis::X,
            offset_sign: -1,
            turn_axis: Axis::Y,
            quarter_turns: -1,
            width_axis: Axis::Z,
            length_axis: Axis::Y,
        }
    } else {
        FaceFrame {
            offset_axis: Axis::X,
            offset_sign: 1,
            turn_axis: Axis::Y,
            quarter_turns: 1,
            width_axis: Axis::Z,
            length_axis: Axis::Y,
        }
    }
}

/// The cosine of `k` quarter turns.
pub open spec fn quarter_cos(k: int) -> int {
    if k % 4 == 0 {
        1
    } else if k % 4 == 2 {
        -1
    } else {
        0
    }
}

/// The sine of `k` quarter turns.
pub open spec fn quarter_sin(k: int) -> int {
    if k % 4 == 1 {
        1
    } else if k % 4 == 3 {
        -1
    } else {
        0
    }
}

/// The vector `v`, turned about `axis` by `k` quarter turns,
/// counter-clockwise as seen from the tip of the axis.
pub open spec fn quarter_turned(axis: Axis, k: int, v: (int, int, int)) -> (int, int, int) {
    let c = quarter_cos(k);
    let s = quarter_sin(k);
    match axis {
        Axis::X => (v.0, v.1 * c - v.2 * s, v.1 * s + v.2 * c),
        Axis::Y => (v.0 * c + v.2 * s, v.1, v.2 * c - v.0 * s),
        Axis::Z => (v.0 * c - v.1 * s, v.0 * s + v.1 * c, v.2),
    }
}

/// The vector of length `sign` along `axis`.
pub open spec fn along(axis: Axis, sign: int) -> (int, int, int) {
    match axis {
        Axis::X => (sign, 0, 0),
        Axis::Y => (0, sign, 0),
        Axis::Z => (0, 0, sign),
    }
}

/// The frames fit the faces. A quad looks along z; turned as its frame
/// says, it looks away from the centre of the cuboid, along the axis on
/// which its centre lies. Its width then runs along the frame's width
/// axis, and its length along the frame's length axis, which are the two
/// axes across the face.
pub proof fn lemma_face_frame_fits(face: CuboidFaces)
    requires
        face.is_single(),
    ensures
        ({
            let f = spec_face_frame(face);
            &&& quarter_turned(f.turn_axis, f.quarter_turns as int, (0, 0, 1)) == along(
                f.offset_axis,
                f.offset_sign as int,
            )
            &&& along(f.offset_axis, f.offset_sign as int) == face_normal(face)
            &&& (quarter_turned(f.turn_axis, f.quarter_turns as int, (1, 0, 0)) == along(
                f.width_axis,
                1,
            ) || quarter_turned(f.turn_axis, f.quarter_turns as int, (1, 0, 0)) == along(
                f.width_axis,
                -1,
            ))
            &&& (quarter_turned(f.turn_axis, f.quarter_turns as int, (0, 1, 0)) == along(
                f.length_axis,
                1,
            ) || quarter_turned(f.turn_axis, f.quarter_turns as int, (0, 1, 0)) == along(
                f.length_axis,
                -1,
            ))
            &&& f.width_axis != f.offset_axis
            &&& f.length_axis != f.offset_axis
            &&& f.width_axis != f.length_axis
        }),
{
}

/// The most quads that a `MeshAccumulator` can hold: its running offset is
/// a 32-bit number that stays at four times the quad count.
pub const MAX_FREE_QUADS: usize = 1073741823;

/// The index list of a mesh of `quads` quads, in 32 bits.
pub open spec fn wide_quad_indices(quads: nat) -> Seq<u32> {
    Seq::new(6 * quads, |i: int| mesh_index(i) as u32)
}

/// A quad in space: its four corners, counter-clockwise as seen from the
/// side that `normal` points to, and the unit normal. All numbers are
/// binary32 bit patterns.
#[derive(Clone, Copy, Debug, PartialEq, Eq)]
pub struct Quad {
    pub corners: [[u32; 3]; 4],
    pub normal: [u32; 3],
}

/// The `k`-th vertex of `quad`.
pub open spec fn quad_vertex(quad: Quad, k: int) -> Vertex {
    Vertex::spec_new(quad.corners[k], quad.normal, corner_tc(k))
}

/// The four vertices of `quad`.
pub open spec fn quad_vertices(quad: Quad) -> Seq<Vertex> {
    seq![quad_vertex(quad, 0), quad_vertex(quad, 1), quad_vertex(quad, 2), quad_vertex(quad, 3)]
}

/// The six faces of a cuboid in space, each as a quad.
#[derive(Clone, Copy, Debug, PartialEq, Eq)]
pub struct CuboidQuads {
    pub top: Quad,
    pub bottom: Quad,
    pub front: Quad,
    pub back: Quad,
    pub left: Quad,
    pub right: Quad,
}

/// The vertices of `quad` if `faces` holds `face`, else nothing.
pub open spec fn optional_quad(faces: CuboidFaces, face: CuboidFaces, quad: Quad) -> Seq<Vertex> {
    if faces.contains(face) {
        quad_vertices(quad)
    } else {
        Seq::empty()
    }
}

/// The vertices of the faces in `faces` of a cuboid in space. The faces
/// come in the order top, bottom, right, left, front, back.
pub open spec fn selected_quad_vertices(faces: CuboidFaces, quads: CuboidQuads) -> Seq<Vertex> {
    optional_quad(faces, CuboidFaces::top(), quads.top) + optional_quad(
        faces,
        CuboidFaces::bottom(),
        quads.bottom,
    ) + optional_quad(faces, CuboidFaces::right(), quads.right) + optional_quad(
        faces,
        CuboidFaces::left(),
        quads.left,
    ) + optional_quad(faces, CuboidFaces::front(), quads.front) + optional_quad(
        faces,
        CuboidFaces::back(),
        quads.back,
    )
}

/// The vertices of all faces of a cuboid in space, in the order top,
/// bottom, left, right, front, back.
pub open spec fn all_quad_vertices(quads: CuboidQuads) -> Seq<Vertex> {
    quad_vertices(quads.top) + quad_vertices(quads.bottom) + quad_vertices(quads.left)
        + quad_vertices(quads.right) + quad_vertices(quads.front) + quad_vertices(quads.back)
}

/// Accumulates quads that lie freely in space.
pub struct MeshAccumulator {
    vertex_accum: Vec<Vertex>,
    index_accum: Vec<u32>,
    index_offset: u32,
}

impl MeshAccumulator {
    /// The vertices accumulated so far.
    pub closed spec fn vertices(&self) -> Seq<Vertex> {
        self.vertex_accum@
    }

    /// The indices accumulated so far.
    pub closed spec fn indices(&self) -> Seq<u32> {
        self.index_accum@
    }

    /// The index that the first vertex of the next quad will get.
    pub closed spec fn offset(&self) -> int {
        self.index_offset as int
    }

    /// The number of quads accumulated so far.
    pub open spec fn quads(&self) -> nat {
        self.vertices().len() / 4
    }

    /// The vertices come in fours, the running offset is their number, and
    /// the indices are those of a mesh of quads.
    pub open spec fn wf(&self) -> bool {
        &&& self.vertices().len() == 4 * self.quads()
        &&& self.offset() == self.vertices().len()
        &&& self.indices() == wide_quad_indices(self.quads())
    }

    /// Create a new `MeshAccumulator`.
    pub fn new() -> (m: MeshAccumulator)
        ensures
            m.wf(),
            m.vertices() == Seq::<Vertex>::empty(),
            m.indices() == Seq::<u32>::empty(),
    {
        let m = MeshAccumulator {
            vertex_accum: Vec::new(),
            index_accum: Vec::new(),
            index_offset: 0,
        };
        assert(m.indices() =~= wide_quad_indices(0));
        m
    }

    /// Create a new `MeshAccumulator` whose lists have room for the given
    /// numbers of vertices and indices.
    pub fn with_capacities(vertex_capacity: usize, index_capacity: usize) -> (m: MeshAccumulator)
        ensures
            m.wf(),
            m.vertices() == Seq::<Vertex>::empty(),
            m.indices() == Seq::<u32>::empty(),
    {
        let m = MeshAccumulator {
            vertex_accum: Vec::with_capacity(vertex_capacity),
            index_accum: Vec::with_capacity(index_capacity),
            index_offset: 0,
        };
        assert(m.indices() =~= wide_quad_indices(0));
        m
    }

    /// Consumes the accumulator and returns the vertex and index lists.
    pub fn report(self) -> (r: (Vec<Vertex>, Vec<u32>))
        ensures
            r.0@ == self.vertices(),
            r.1@ == self.indices(),
    {
        (self.vertex_accum, self.index_accum)
    }

    /// The number of quads accumulated so far.
    pub fn quad_count(&self) -> (n: usize)
        requires
            self.wf(),
        ensures
            n == self.quads(),
            n <= MAX_FREE_QUADS,
    {
        (self.index_offset / 4) as usize
    }

    /// Adds all six faces of a cuboid, in the order top, bottom, left,
    /// right, front, back.
    pub fn add_cuboid_quat(&mut self, quads: CuboidQuads)
        requires
            old(self).wf(),
            old(self).quads() + 6 <= MAX_FREE_QUADS,
        ensures
            final(self).wf(),
            final(self).vertices() == old(self).vertices() + all_quad_vertices(quads),
            final(self).quads() == old(self).quads() + 6,
    {
        self.add_quad_quat(quads.top);
        self.add_quad_quat(quads.bottom);
        self.add_quad_quat(quads.left);
        self.add_quad_quat(quads.right);
        self.add_quad_quat(quads.front);
        self.add_quad_quat(quads.back);
        proof {
            lemma_concat_regroup(
                old(self).vertices(),
                quad_vertices(quads.top),
                quad_vertices(quads.bottom),
                quad_vertices(quads.left),
                quad_vertices(quads.right),
                quad_vertices(quads.front),
                quad_vertices(quads.back),
            );
        }
    }

    /// Adds the faces in `faces` of a cuboid, in the order top, bottom,
    /// right, left, front, back.
    pub fn add_cuboid_quat_faces(&mut self, faces: CuboidFaces, quads: CuboidQuads)
        requires
            old(self).wf(),
            old(self).quads() + faces.spec_count() <= MAX_FREE_QUADS,
        ensures
            final(self).wf(),
            final(self).vertices() == old(self).vertices() + selected_quad_vertices(faces, quads),
            final(self).quads() == old(self).quads() + faces.spec_count(),
    {
        self.add_quad_if(faces, CuboidFaces::top(), quads.top);
        self.add_quad_if(faces, CuboidFaces::bottom(), quads.bottom);
        self.add_quad_if(faces, CuboidFaces::right(), quads.right);
        self.add_quad_if(faces, CuboidFaces::left(), quads.left);
        self.add_quad_if(faces, CuboidFaces::front(), quads.front);
        self.add_quad_if(faces, CuboidFaces::back(), quads.back);
        proof {
            lemma_concat_regroup(
                old(self).vertices(),
                optional_quad(faces, CuboidFaces::top(), quads.top),
                optional_quad(faces, CuboidFaces::bottom(), quads.bottom),
                optional_quad(faces, CuboidFaces::right(), quads.right),
                optional_quad(faces, CuboidFaces::left(), quads.left),
                optional_quad(faces, CuboidFaces::front(), quads.front),
                optional_quad(faces, CuboidFaces::back(), quads.back),
            );
        }
    }

    /// Adds `quad` if `faces` holds `face`.
    fn add_quad_if(&mut self, faces: CuboidFaces, face: CuboidFaces, quad: Quad)
        requires
            old(self).wf(),
            old(self).quads() + faces.has(face) <= MAX_FREE_QUADS,
        ensures
            final(self).wf(),
            final(self).vertices() == old(self).vertices() + optional_quad(faces, face, quad),
            final(self).quads() == old(self).quads() + faces.has(face),
    {
        if faces.contains(face) {
            self.add_quad_quat(quad);
        } else {
            assert(self.vertices() =~= old(self).vertices() + optional_quad(faces, face, quad));
        }
    }

    /// Adds an isolated quad to the mesh: four vertices, in the order of
    /// its corners, and the six indices of its two triangles.
    pub fn add_quad_quat(&mut self, quad: Quad)
        requires
            old(self).wf(),
            old(self).quads() < MAX_FREE_QUADS,
        ensures
            final(self).wf(),
            final(self).vertices() == old(self).vertices() + quad_vertices(quad),
            final(self).quads() == old(self).quads() + 1,
    {
        let i = self.index_offset;
        let n = quad.normal;
        self.vertex_accum.push(Vertex::new(quad.corners[0], n, [ZERO_BITS, ZERO_BITS]));
        self.vertex_accum.push(Vertex::new(quad.corners[1], n, [ONE_BITS, ZERO_BITS]));
        self.vertex_accum.push(Vertex::new(quad.corners[2], n, [ONE_BITS, ONE_BITS]));
        self.vertex_accum.push(Vertex::new(quad.corners[3], n, [ZERO_BITS, ONE_BITS]));
        self.index_accum.push(i);
        self.index_accum.push(i + 1);
        self.index_accum.push(i + 2);
        self.index_accum.push(i + 2);
        self.index_accum.push(i + 3);
        self.index_accum.push(i);
        self.index_offset = i + 4;

        proof {
            let q = old(self).quads();
            assert(self.vertices() =~= old(self).vertices() + quad_vertices(quad));
            assert(self.quads() == q + 1);
            assert(self.indices() =~= wide_quad_indices(q + 1)) by {
                assert forall|j: int| 0 <= j < 6 * (q + 1) implies self.indices()[j]
                    == wide_quad_indices(q + 1)[j] by {
                    if j < 6 * q {
                        assert(self.indices()[j] == old(self).indices()[j]);
                        assert(old(self).indices()[j] == wide_quad_indices(q)[j]);
                    } else {
                        assert(j / 6 == q);
                    }
                }
            }
        }
    }
}

/// The same holds of an accumulator of free quads: `n` quads are `4 * n`
/// vertices and `6 * n` indices, and the indices of the `k`-th quad refer
/// to the vertices `4 * k` to `4 * k + 3` and to no others.
pub proof fn lemma_free_accumulator_linearity(m: MeshAccumulator, k: int)
    requires
        m.wf(),
        0 <= k < m.quads(),
    ensures
        m.vertices().len() == 4 * m.quads(),
        m.indices().len() == 6 * m.quads(),
        m.indices()[6 * k] == 4 * k,
        m.indices()[6 * k + 1] == 4 * k + 1,
        m.indices()[6 * k + 2] == 4 * k + 2,
        m.indices()[6 * k + 3] == 4 * k + 2,
        m.indices()[6 * k + 4] == 4 * k + 3,
        m.indices()[6 * k + 5] == 4 * k,
{
}

} // verus!
