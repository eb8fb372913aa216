//! Terrain chunks: from a height map to a face-culled mesh of voxel columns.

use vstd::prelude::*;
use crate::faces::{lemma_single_contains, lemma_union_contains, CuboidFaces};
use crate::mesh::{
    corner_offset, cuboid_vertices, face_vertices, optional_face, quad_indices, IMeshAccumulator,
    MAX_QUADS,
};
use crate::vertex::{IVertex, Point3};

verus! {

/// The drop that is assumed at the edge of a chunk, where the neighbouring
/// column is not known.
pub const BOUNDARY_FILL: i32 = 8;

/// The height of column `(x, y)` of a chunk with `dim` columns per side.
/// Columns with equal `x` lie next to each other in the height map.
pub open spec fn height_at(heights: Seq<i32>, dim: int, x: int, y: int) -> int {
    heights[x * dim + y] as int
}

/// How far column `(x, y)` rises above its neighbour `(nx, ny)`: the
/// assumed drop where the neighbour lies outside the chunk, the difference
/// in height where the neighbour is strictly lower, and 0 where the
/// neighbour covers the side.
pub open spec fn exposure(heights: Seq<i32>, dim: int, x: int, y: int, nx: int, ny: int) -> int {
    if nx < 0 || dim <= nx || ny < 0 || dim <= ny {
        BOUNDARY_FILL as int
    } else if height_at(heights, dim, nx, ny) < height_at(heights, dim, x, y) {
        height_at(heights, dim, x, y) - height_at(heights, dim, nx, ny)
    } else {
        0
    }
}

/// `faces` with `face` added if the side is exposed.
pub open spec fn with_side(faces: CuboidFaces, exposure: int, face: CuboidFaces) -> CuboidFaces {
    if exposure > 0 {
        faces.union(face)
    } else {
        faces
    }
}

/// The faces that each cuboid of column `(x, y)` shows: the top always, and
/// each side whose neighbour is strictly lower or unknown.
pub open spec fn column_faces(heights: Seq<i32>, dim: int, x: int, y: int) -> CuboidFaces {
    let f = CuboidFaces::top();
    let f = with_side(f, exposure(heights, dim, x, y, x - 1, y), CuboidFaces::left());
    let f = with_side(f, exposure(heights, dim, x, y, x + 1, y), CuboidFaces::right());
    let f = with_side(f, exposure(heights, dim, x, y, x, y - 1), CuboidFaces::back());
    with_side(f, exposure(heights, dim, x, y, x, y + 1), CuboidFaces::front())
}

/// The larger of two integers.
pub open spec fn max_int(a: int, b: int) -> int {
    if a >= b {
        a
    } else {
        b
    }
}

/// The number of unit cuboids stacked downwards from the top of column
/// `(x, y)`: the largest exposure of its four sides, and at least 1.
pub open spec fn column_fill(heights: Seq<i32>, dim: int, x: int, y: int) -> int {
    max_int(
        max_int(
            max_int(
                max_int(1, exposure(heights, dim, x, y, x - 1, y)),
                exposure(heights, dim, x, y, x + 1, y),
            ),
            exposure(heights, dim, x, y, x, y - 1),
        ),
        exposure(heights, dim, x, y, x, y + 1),
    )
}

/// The vertices of the topmost `layers` cuboids of column `(x, y)`, from
/// the top down.
pub open spec fn column_vertices(heights: Seq<i32>, dim: int, x: int, y: int, layers: nat) -> Seq<
    IVertex,
>
    decreases layers,
{
    if layers == 0 {
        Seq::empty()
    } else {
        column_vertices(heights, dim, x, y, (layers - 1) as nat) + cuboid_vertices(
            Point3 {
                x: x as i32,
                y: y as i32,
                z: (height_at(heights, dim, x, y) - (layers - 1)) as i32,
            },
            column_faces(heights, dim, x, y),
        )
    }
}

/// The vertices of the columns `(x, 0)` to `(x, columns - 1)`.
pub open spec fn strip_vertices(heights: Seq<i32>, dim: int, x: int, columns: nat) -> Seq<IVertex>
    decreases columns,
{
    if columns == 0 {
        Seq::empty()
    } else {
        strip_vertices(heights, dim, x, (columns - 1) as nat) + column_vertices(
            heights,
            dim,
            x,
            columns - 1,
            column_fill(heights, dim, x, columns - 1) as nat,
        )
    }
}

/// The vertices of the columns with first coordinate below `strips`.
pub open spec fn chunk_vertices_upto(heights: Seq<i32>, dim: int, strips: nat) -> Seq<IVertex>
    decreases strips,
{
    if strips == 0 {
        Seq::empty()
    } else {
        chunk_vertices_upto(heights, dim, (strips - 1) as nat) + strip_vertices(
            heights,
            dim,
            strips - 1,
            dim as nat,
        )
    }
}

/// The vertices of the mesh of a chunk: column after column, `(0, 0)`,
/// `(0, 1)`, and so on; within a column, cuboid after cuboid from the top
/// down.
pub open spec fn chunk_vertices(heights: Seq<i32>, dim: int) -> Seq<IVertex> {
    chunk_vertices_upto(heights, dim, dim as nat)
}

/// The number of quads that column `(x, y)` contributes.
pub open spec fn column_quads(heights: Seq<i32>, dim: int, x: int, y: int) -> int {
    column_fill(heights, dim, x, y) * column_faces(heights, dim, x, y).spec_count()
}

/// The number of quads of the columns `(x, 0)` to `(x, columns - 1)`.
pub open spec fn strip_quads(heights: Seq<i32>, dim: int, x: int, columns: nat) -> int
    decreases columns,
{
    if columns == 0 {
        0
    } else {
        strip_quads(heights, dim, x, (columns - 1) as nat) + column_quads(
            heights,
            dim,
            x,
            columns - 1,
        )
    }
}

/// The number of quads of the columns with first coordinate below `strips`.
pub open spec fn chunk_quads_upto(heights: Seq<i32>, dim: int, strips: nat) -> int
    decreases strips,
{
    if strips == 0 {
        0
    } else {
        chunk_quads_upto(heights, dim, (strips - 1) as nat) + strip_quads(
            heights,
            dim,
            strips - 1,
            dim as nat,
        )
    }
}

/// The number of quads of the mesh of a chunk.
pub open spec fn chunk_quads(heights: Seq<i32>, dim: int) -> int {
    chunk_quads_upto(heights, dim, dim as nat)
}

/// Whether a column of this height keeps all its cuboids on the grid, even
/// at the edge of a chunk.
pub open spec fn height_on_grid(h: i32) -> bool {
    i32::MIN + BOUNDARY_FILL - 1 <= h < i32::MAX
}

/// Whether the mesh of a chunk can be accumulated: there is one height for
/// each column, every cuboid lies on the grid, and the quads stay within
/// what 16-bit indices can address.
pub open spec fn chunk_fits(dim: int, heights: Seq<i32>) -> bool {
    &&& 0 <= dim
    &&& heights.len() == dim * dim
    &&& forall|i: int| 0 <= i < heights.len() ==> height_on_grid(#[trigger] heights[i])
    &&& chunk_quads(heights, dim) <= MAX_QUADS
}

/// Adding a side adds that side and no other face.
proof fn lemma_with_side_contains(
    faces: CuboidFaces,
    exposure: int,
    side: CuboidFaces,
    face: CuboidFaces,
)
    requires
        side.is_single(),
        face.is_single(),
    ensures
        with_side(faces, exposure, side).contains(face) == (faces.contains(face) || (exposure > 0
            && side == face)),
{
    lemma_union_contains(faces, side, face);
    lemma_single_contains(side, face);
}

/// Whether `face` is among the faces of column `(x, y)`, as the rule of
/// exposure says: the top always, the bottom never, and each side exactly
/// if its neighbour is strictly lower or lies outside the chunk.
pub open spec fn column_shows(heights: Seq<i32>, dim: int, x: int, y: int, face: CuboidFaces) -> bool {
    if face == CuboidFaces::top() {
        true
    } else if face == CuboidFaces::left() {
        exposure(heights, dim, x, y, x - 1, y) > 0
    } else if face == CuboidFaces::right() {
        exposure(heights, dim, x, y, x + 1, y) > 0
    } else if face == CuboidFaces::back() {
        exposure(heights, dim, x, y, x, y - 1) > 0
    } else if face == CuboidFaces::front() {
        exposure(heights, dim, x, y, x, y + 1) > 0
    } else {
        false
    }
}

/// The faces of a column are those that the rule of exposure names.
pub proof fn lemma_column_faces(heights: Seq<i32>, dim: int, x: int, y: int, face: CuboidFaces)
    requires
        face.is_single(),
    ensures
        column_faces(heights, dim, x, y).contains(face) == column_shows(heights, dim, x, y, face),
{
    let f0 = CuboidFaces::top();
    let e1 = exposure(heights, dim, x, y, x - 1, y);
    let f1 = with_side(f0, e1, CuboidFaces::left());
    let e2 = exposure(heights, dim, x, y, x + 1, y);
    let f2 = with_side(f1, e2, CuboidFaces::right());
    let e3 = exposure(heights, dim, x, y, x, y - 1);
    let f3 = with_side(f2, e3, CuboidFaces::back());
    let e4 = exposure(heights, dim, x, y, x, y + 1);
    lemma_single_contains(f0, face);
    lemma_with_side_contains(f0, e1, CuboidFaces::left(), face);
    lemma_with_side_contains(f1, e2, CuboidFaces::right(), face);
    lemma_with_side_contains(f2, e3, CuboidFaces::back(), face);
    lemma_with_side_contains(f3, e4, CuboidFaces::front(), face);
}

/// The top face belongs to the faces of every column, the bottom face to
/// none, so each cuboid of a column shows between one and five faces.
pub proof fn lemma_column_faces_count(heights: Seq<i32>, dim: int, x: int, y: int)
    ensures
        column_faces(heights, dim, x, y).contains(CuboidFaces::top()),
        !column_faces(heights, dim, x, y).contains(CuboidFaces::bottom()),
        1 <= column_faces(heights, dim, x, y).spec_count() <= 5,
{
    lemma_column_faces(heights, dim, x, y, CuboidFaces::top());
    lemma_column_faces(heights, dim, x, y, CuboidFaces::bottom());
}

/// In a chunk whose columns all have the same height, a column away from
/// the edge is one cuboid that shows its top only, and a column on the
/// edge is a stack as deep as the assumed drop, of cuboids that show the
/// top and the sides that lie on the edge.
pub proof fn lemma_flat_chunk_column(
    heights: Seq<i32>,
    dim: int,
    x: int,
    y: int,
    face: CuboidFaces,
)
    requires
        0 <= x < dim,
        0 <= y < dim,
        heights.len() == dim * dim,
        forall|i: int, j: int|
            0 <= i < heights.len() && 0 <= j < heights.len() ==> heights[i] == heights[j],
        face.is_single(),
    ensures
        column_fill(heights, dim, x, y) == if x == 0 || x == dim - 1 || y == 0 || y == dim - 1 {
            BOUNDARY_FILL as int
        } else {
            1
        },
        column_faces(heights, dim, x, y).contains(face) == if face == CuboidFaces::top() {
            true
        } else if face == CuboidFaces::left() {
            x == 0
        } else if face == CuboidFaces::right() {
            x == dim - 1
        } else if face == CuboidFaces::back() {
            y == 0
        } else if face == CuboidFaces::front() {
            y == dim - 1
        } else {
            false
        },
{
    lemma_column_faces(heights, dim, x, y, face);
    lemma_cell_index(dim, x, y);
    if x > 0 {
        lemma_cell_index(dim, x - 1, y);
    }
    if x + 1 < dim {
        lemma_cell_index(dim, x + 1, y);
    }
    if y > 0 {
        lemma_cell_index(dim, x, y - 1);
    }
    if y + 1 < dim {
        lemma_cell_index(dim, x, y + 1);
    }
}

/// Every column contributes at least as many quads as it has cuboids, and
/// it has at least one.
pub proof fn lemma_column_quads_bounds(heights: Seq<i32>, dim: int, x: int, y: int)
    ensures
        1 <= column_fill(heights, dim, x, y) <= column_quads(heights, dim, x, y),
        column_quads(heights, dim, x, y) <= 5 * column_fill(heights, dim, x, y),
{
    lemma_column_faces_count(heights, dim, x, y);
    let fill = column_fill(heights, dim, x, y);
    let count = column_faces(heights, dim, x, y).spec_count() as int;
    assert(fill <= fill * count && fill * count <= 5 * fill) by (nonlinear_arith)
        requires
            1 <= fill,
            1 <= count <= 5,
    ;
}

/// Along a strip the number of quads grows by at least one with each column.
pub proof fn lemma_strip_quads_monotone(heights: Seq<i32>, dim: int, x: int, a: nat, b: nat)
    requires
        a <= b,
    ensures
        strip_quads(heights, dim, x, a) + (b - a) <= strip_quads(heights, dim, x, b),
    decreases b,
{
    if a < b {
        lemma_strip_quads_monotone(heights, dim, x, a, (b - 1) as nat);
        lemma_column_quads_bounds(heights, dim, x, b - 1);
    }
}

/// From strip to strip the number of quads grows by at least one for each
/// column of the strip.
pub proof fn lemma_chunk_quads_monotone(heights: Seq<i32>, dim: int, a: nat, b: nat)
    requires
        a <= b,
        0 <= dim,
    ensures
        chunk_quads_upto(heights, dim, a) + (b - a) * dim <= chunk_quads_upto(heights, dim, b),
    decreases b,
{
    if a < b {
        lemma_chunk_quads_monotone(heights, dim, a, (b - 1) as nat);
        lemma_strip_quads_monotone(heights, dim, b - 1, 0, dim as nat);
        assert((b - a) * dim == (b - 1 - a) * dim + dim) by (nonlinear_arith);
    } else {
        assert((b - a) * dim == 0) by (nonlinear_arith)
            requires
                a == b,
        ;
    }
}

/// A chunk whose mesh fits has at most 127 columns per side.
pub proof fn lemma_fitting_chunk_is_small(dim: int, heights: Seq<i32>)
    requires
        0 <= dim,
        chunk_quads(heights, dim) <= MAX_QUADS,
    ensures
        dim <= 127,
{
    lemma_chunk_quads_monotone(heights, dim, 0, dim as nat);
    assert(dim <= 127) by (nonlinear_arith)
        requires
            0 <= dim,
            dim * dim <= 16383,
    ;
}

/// The cell of column `(x, y)` lies within a height map of `dim * dim` cells.
pub proof fn lemma_cell_index(dim: int, x: int, y: int)
    requires
        0 <= x < dim,
        0 <= y < dim,
    ensures
        0 <= x * dim <= x * dim + y < dim * dim,
{
    assert(0 <= x * dim <= x * dim + y < dim * dim) by (nonlinear_arith)
        requires
            0 <= x < dim,
            0 <= y < dim,
    ;
}

/// A column of `layers` cuboids has four vertices for each face of each
/// cuboid.
pub proof fn lemma_column_vertices_len(heights: Seq<i32>, dim: int, x: int, y: int, layers: nat)
    ensures
        column_vertices(heights, dim, x, y, layers).len() == 4 * (layers * column_faces(
            heights,
            dim,
            x,
            y,
        ).spec_count()),
    decreases layers,
{
    let count = column_faces(heights, dim, x, y).spec_count();
    if layers > 0 {
        lemma_column_vertices_len(heights, dim, x, y, (layers - 1) as nat);
        crate::mesh::lemma_cuboid_vertices_len(
            Point3 {
                x: x as i32,
                y: y as i32,
                z: (height_at(heights, dim, x, y) - (layers - 1)) as i32,
            },
            column_faces(heights, dim, x, y),
        );
        assert(layers * count == (layers - 1) * count + count) by (nonlinear_arith);
    } else {
        assert(layers * count == 0) by (nonlinear_arith)
            requires
                layers == 0,
        ;
    }
}

/// A strip has four vertices for each of its quads.
pub proof fn lemma_strip_vertices_len(heights: Seq<i32>, dim: int, x: int, columns: nat)
    ensures
        strip_vertices(heights, dim, x, columns).len() == 4 * strip_quads(
            heights,
            dim,
            x,
            columns,
        ),
    decreases columns,
{
    if columns > 0 {
        lemma_strip_vertices_len(heights, dim, x, (columns - 1) as nat);
        lemma_column_quads_bounds(heights, dim, x, columns - 1);
        lemma_column_vertices_len(
            heights,
            dim,
            x,
            columns - 1,
            column_fill(heights, dim, x, columns - 1) as nat,
        );
    }
}

/// The mesh of a chunk has four vertices for each of its quads.
pub proof fn lemma_chunk_vertices_len(heights: Seq<i32>, dim: int, strips: nat)
    ensures
        chunk_vertices_upto(heights, dim, strips).len() == 4 * chunk_quads_upto(
            heights,
            dim,
            strips,
        ),
    decreases strips,
{
    if strips > 0 {
        lemma_chunk_vertices_len(heights, dim, (strips - 1) as nat);
        lemma_strip_vertices_len(heights, dim, strips - 1, dim as nat);
    }
}

/// Whether `v` is a vertex of column `(x, y)`: a corner of a unit cuboid of
/// the column's stack, on a face that the column shows.
pub open spec fn vertex_of_column(heights: Seq<i32>, dim: int, x: int, y: int, v: IVertex) -> bool {
    let z = height_at(heights, dim, x, y);
    let face = CuboidFaces { bits: v.data[0] };
    &&& v.b_pos[0] == x
    &&& v.b_pos[1] == y
    &&& z - column_fill(heights, dim, x, y) < v.b_pos[2] <= z
    &&& v.b_pos[0] <= v.v_pos[0] <= v.b_pos[0] + 1
    &&& v.b_pos[1] <= v.v_pos[1] <= v.b_pos[1] + 1
    &&& v.b_pos[2] <= v.v_pos[2] <= v.b_pos[2] + 1
    &&& face.is_single()
    &&& column_shows(heights, dim, x, y, face)
}

/// Whether `v` is a vertex of a column of the chunk.
pub open spec fn vertex_of_chunk(heights: Seq<i32>, dim: int, v: IVertex) -> bool {
    &&& 0 <= v.b_pos[0] < dim
    &&& 0 <= v.b_pos[1] < dim
    &&& vertex_of_column(heights, dim, v.b_pos[0] as int, v.b_pos[1] as int, v)
}

/// Whether all of `vertices` are vertices of column `(x, y)`.
pub open spec fn all_of_column(
    heights: Seq<i32>,
    dim: int,
    x: int,
    y: int,
    vertices: Seq<IVertex>,
) -> bool {
    forall|i: int|
        0 <= i < vertices.len() ==> vertex_of_column(heights, dim, x, y, #[trigger] vertices[i])
}

/// Whether all of `vertices` are vertices of columns of the chunk.
pub open spec fn all_of_chunk(heights: Seq<i32>, dim: int, vertices: Seq<IVertex>) -> bool {
    forall|i: int|
        0 <= i < vertices.len() ==> vertex_of_chunk(heights, dim, #[trigger] vertices[i])
}

/// The vertices of a face that a column shows, on a cuboid of its stack,
/// are vertices of the column.
proof fn lemma_face_of_column(
    heights: Seq<i32>,
    dim: int,
    x: int,
    y: int,
    layer: int,
    face: CuboidFaces,
)
    requires
        0 <= x < dim <= 127,
        0 <= y < dim,
        heights.len() == dim * dim,
        forall|i: int| 0 <= i < heights.len() ==> height_on_grid(#[trigger] heights[i]),
        0 <= layer < column_fill(heights, dim, x, y),
        face.is_single(),
    ensures
        all_of_column(
            heights,
            dim,
            x,
            y,
            optional_face(
                Point3 {
                    x: x as i32,
                    y: y as i32,
                    z: (height_at(heights, dim, x, y) - layer) as i32,
                },
                column_faces(heights, dim, x, y),
                face,
            ),
        ),
{
    let z = height_at(heights, dim, x, y);
    let pos = Point3 { x: x as i32, y: y as i32, z: (z - layer) as i32 };
    lemma_cell_index(dim, x, y);
    lemma_column_faces(heights, dim, x, y, face);
    lemma_stack_on_grid(heights, dim, x, y, layer);
    let vertices = optional_face(pos, column_faces(heights, dim, x, y), face);
    assert forall|i: int| 0 <= i < vertices.len() implies vertex_of_column(
        heights,
        dim,
        x,
        y,
        #[trigger] vertices[i],
    ) by {
        assert(vertices == face_vertices(pos, face));
        let d = corner_offset(face, i);
        assert(0 <= d.0 <= 1 && 0 <= d.1 <= 1 && 0 <= d.2 <= 1);
    }
}

/// The cuboids of a column's stack lie on the grid.
proof fn lemma_stack_on_grid(heights: Seq<i32>, dim: int, x: int, y: int, layer: int)
    requires
        0 <= x < dim,
        0 <= y < dim,
        heights.len() == dim * dim,
        forall|i: int| 0 <= i < heights.len() ==> height_on_grid(#[trigger] heights[i]),
        0 <= layer < column_fill(heights, dim, x, y),
    ensures
        i32::MIN <= height_at(heights, dim, x, y) - layer < i32::MAX,
{
    lemma_cell_index(dim, x, y);
    if x > 0 {
        lemma_cell_index(dim, x - 1, y);
    }
    if x + 1 < dim {
        lemma_cell_index(dim, x + 1, y);
    }
    if y > 0 {
        lemma_cell_index(dim, x, y - 1);
    }
    if y + 1 < dim {
        lemma_cell_index(dim, x, y + 1);
    }
    assert(height_on_grid(heights[x * dim + y]));
}

/// Two lists of vertices of a column make a list of vertices of the column.
proof fn lemma_all_of_column_concat(
    heights: Seq<i32>,
    dim: int,
    x: int,
    y: int,
    a: Seq<IVertex>,
    b: Seq<IVertex>,
)
    requires
        all_of_column(heights, dim, x, y, a),
        all_of_column(heights, dim, x, y, b),
    ensures
        all_of_column(heights, dim, x, y, a + b),
{
    assert forall|i: int| 0 <= i < (a + b).len() implies vertex_of_column(
        heights,
        dim,
        x,
        y,
        #[trigger] (a + b)[i],
    ) by {
        if i < a.len() {
            assert((a + b)[i] == a[i]);
        } else {
            assert((a + b)[i] == b[i - a.len()]);
        }
    }
}

/// Two lists of vertices of the chunk make a list of vertices of the chunk.
proof fn lemma_all_of_chunk_concat(heights: Seq<i32>, dim: int, a: Seq<IVertex>, b: Seq<IVertex>)
    requires
        all_of_chunk(heights, dim, a),
        all_of_chunk(heights, dim, b),
    ensures
        all_of_chunk(heights, dim, a + b),
{
    assert forall|i: int| 0 <= i < (a + b).len() implies vertex_of_chunk(
        heights,
        dim,
        #[trigger] (a + b)[i],
    ) by {
        if i < a.len() {
            assert((a + b)[i] == a[i]);
        } else {
            assert((a + b)[i] == b[i - a.len()]);
        }
    }
}

/// The vertices of the topmost `layers` cuboids of a column are vertices
/// of the column.
proof fn lemma_column_vertices_belong(heights: Seq<i32>, dim: int, x: int, y: int, layers: nat)
    requires
        0 <= x < dim <= 127,
        0 <= y < dim,
        heights.len() == dim * dim,
        forall|i: int| 0 <= i < heights.len() ==> height_on_grid(#[trigger] heights[i]),
        layers <= column_fill(heights, dim, x, y),
    ensures
        all_of_column(heights, dim, x, y, column_vertices(heights, dim, x, y, layers)),
    decreases layers,
{
    if layers > 0 {
        let layer = layers - 1;
        lemma_column_vertices_belong(heights, dim, x, y, layer as nat);
        let pos = Point3 {
            x: x as i32,
            y: y as i32,
            z: (height_at(heights, dim, x, y) - layer) as i32,
        };
        let faces = column_faces(heights, dim, x, y);
        lemma_face_of_column(heights, dim, x, y, layer, CuboidFaces::top());
        lemma_face_of_column(heights, dim, x, y, layer, CuboidFaces::bottom());
        lemma_face_of_column(heights, dim, x, y, layer, CuboidFaces::front());
        lemma_face_of_column(heights, dim, x, y, layer, CuboidFaces::back());
        lemma_face_of_column(heights, dim, x, y, layer, CuboidFaces::left());
        lemma_face_of_column(heights, dim, x, y, layer, CuboidFaces::right());
        let a = optional_face(pos, faces, CuboidFaces::top());
        let b = optional_face(pos, faces, CuboidFaces::bottom());
        let c = optional_face(pos, faces, CuboidFaces::front());
        let d = optional_face(pos, faces, CuboidFaces::back());
        let e = optional_face(pos, faces, CuboidFaces::left());
        let f = optional_face(pos, faces, CuboidFaces::right());
        lemma_all_of_column_concat(heights, dim, x, y, a, b);
        lemma_all_of_column_concat(heights, dim, x, y, a + b, c);
        lemma_all_of_column_concat(heights, dim, x, y, a + b + c, d);
        lemma_all_of_column_concat(heights, dim, x, y, a + b + c + d, e);
        lemma_all_of_column_concat(heights, dim, x, y, a + b + c + d + e, f);
        assert(cuboid_vertices(pos, faces) == a + b + c + d + e + f);
        lemma_all_of_column_concat(
            heights,
            dim,
            x,
            y,
            column_vertices(heights, dim, x, y, layer as nat),
            cuboid_vertices(pos, faces),
        );
    }
}

/// The vertices of the first `columns` columns of a strip are vertices of
/// the chunk.
proof fn lemma_strip_vertices_belong(heights: Seq<i32>, dim: int, x: int, columns: nat)
    requires
        0 <= x < dim <= 127,
        columns <= dim,
        heights.len() == dim * dim,
        forall|i: int| 0 <= i < heights.len() ==> height_on_grid(#[trigger] heights[i]),
    ensures
        all_of_chunk(heights, dim, strip_vertices(heights, dim, x, columns)),
    decreases columns,
{
    if columns > 0 {
        let y = columns - 1;
        lemma_strip_vertices_belong(heights, dim, x, y as nat);
        lemma_column_quads_bounds(heights, dim, x, y);
        let column = column_vertices(heights, dim, x, y, column_fill(heights, dim, x, y) as nat);
        lemma_column_vertices_belong(heights, dim, x, y, column_fill(heights, dim, x, y) as nat);
        assert(all_of_chunk(heights, dim, column)) by {
            assert forall|i: int| 0 <= i < column.len() implies vertex_of_chunk(
                heights,
                dim,
                #[trigger] column[i],
            ) by {
                assert(vertex_of_column(heights, dim, x, y, column[i]));
            }
        }
        lemma_all_of_chunk_concat(
            heights,
            dim,
            strip_vertices(heights, dim, x, y as nat),
            column,
        );
    }
}

/// The vertices of the first `strips` strips are vertices of the chunk.
proof fn lemma_chunk_vertices_upto_belong(heights: Seq<i32>, dim: int, strips: nat)
    requires
        strips <= dim <= 127,
        heights.len() == dim * dim,
        forall|i: int| 0 <= i < heights.len() ==> height_on_grid(#[trigger] heights[i]),
    ensures
        all_of_chunk(heights, dim, chunk_vertices_upto(heights, dim, strips)),
    decreases strips,
{
    if strips > 0 {
        lemma_chunk_vertices_upto_belong(heights, dim, (strips - 1) as nat);
        lemma_strip_vertices_belong(heights, dim, strips - 1, dim as nat);
        lemma_all_of_chunk_concat(
            heights,
            dim,
            chunk_vertices_upto(heights, dim, (strips - 1) as nat),
            strip_vertices(heights, dim, strips - 1, dim as nat),
        );
    }
}

/// Every vertex of the mesh of a chunk belongs to the chunk. It is a corner
/// of a unit cuboid that stands on a column of the chunk, not above the
/// column's height and less than the column's fill below it, and it lies
/// on a face that the rule of exposure names for that column.
pub proof fn lemma_chunk_vertices_belong(heights: Seq<i32>, dim: int, i: int)
    requires
        chunk_fits(dim, heights),
        0 <= i < chunk_vertices(heights, dim).len(),
    ensures
        vertex_of_chunk(heights, dim, chunk_vertices(heights, dim)[i]),
{
    lemma_fitting_chunk_is_small(dim, heights);
    lemma_chunk_vertices_upto_belong(heights, dim, dim as nat);
}

/// By how much a column of height `z` rises above a neighbour of height `n`.
fn rise(z: i32, n: i32) -> (d: i64)
    ensures
        d == if n < z {
            z - n
        } else {
            0
        },
{
    if n < z {
        z as i64 - n as i64
    } else {
        0
    }
}

/// The larger of two numbers.
fn larger(a: i64, b: i64) -> (m: i64)
    ensures
        m == max_int(a as int, b as int),
{
    if a >= b {
        a
    } else {
        b
    }
}

/// The faces and the number of cuboids of column `(x_i, y_i)`.
fn column_profile(chunk_dim: usize, height_map: &Vec<i32>, x_i: usize, y_i: usize) -> (r: (
    CuboidFaces,
    i64,
))
    requires
        height_map@.len() == chunk_dim * chunk_dim,
        x_i < chunk_dim,
        y_i < chunk_dim,
    ensures
        r.0 == column_faces(height_map@, chunk_dim as int, x_i as int, y_i as int),
        r.1 == column_fill(height_map@, chunk_dim as int, x_i as int, y_i as int),
{
    let ghost dim = chunk_dim as int;
    let ghost x = x_i as int;
    let ghost y = y_i as int;
    proof {
        assert(height_map.len() == dim * dim);
        lemma_cell_index(dim, x, y);
        if x > 0 {
            lemma_cell_index(dim, x - 1, y);
        }
        if x + 1 < dim {
            lemma_cell_index(dim, x + 1, y);
        }
        assert((x - 1) * dim + y == x * dim + y - dim) by (nonlinear_arith);
        assert((x + 1) * dim + y == x * dim + y + dim) by (nonlinear_arith);
    }
    let cell = x_i * chunk_dim + y_i;
    let z = height_map[cell];
    let left: i64 = if x_i == 0 {
        BOUNDARY_FILL as i64
    } else {
        rise(z, height_map[cell - chunk_dim])
    };
    let right: i64 = if x_i == chunk_dim - 1 {
        BOUNDARY_FILL as i64
    } else {
        rise(z, height_map[cell + chunk_dim])
    };
    let back: i64 = if y_i == 0 {
        BOUNDARY_FILL as i64
    } else {
        rise(z, height_map[cell - 1])
    };
    let front: i64 = if y_i == chunk_dim - 1 {
        BOUNDARY_FILL as i64
    } else {
        rise(z, height_map[cell + 1])
    };
    assert(left == exposure(height_map@, dim, x, y, x - 1, y));
    assert(right == exposure(height_map@, dim, x, y, x + 1, y));
    assert(back == exposure(height_map@, dim, x, y, x, y - 1));
    assert(front == exposure(height_map@, dim, x, y, x, y + 1));

    let mut faces = CuboidFaces::top();
    if left > 0 {
        faces = faces.union(CuboidFaces::left());
    }
    if right > 0 {
        faces = faces.union(CuboidFaces::right());
    }
    if back > 0 {
        faces = faces.union(CuboidFaces::back());
    }
    if front > 0 {
        faces = faces.union(CuboidFaces::front());
    }
    let fill = larger(larger(larger(larger(1, left), right), back), front);
    (faces, fill)
}

/// Generate the mesh of a chunk of `chunk_dim` by `chunk_dim` columns from
/// its height map. Each column is a stack of unit cuboids from its height
/// downwards; a cuboid shows its top, and each side towards a strictly lower
/// neighbour or towards the edge of the chunk.
pub fn generate_chunk_x_y(chunk_dim: usize, height_map: &Vec<i32>) -> (m: IMeshAccumulator)
    requires
        chunk_fits(chunk_dim as int, height_map@),
    ensures
        m.wf(),
        m.vertices() == chunk_vertices(height_map@, chunk_dim as int),
        m.indices() == quad_indices(chunk_quads(height_map@, chunk_dim as int) as nat),
        m.quads() == chunk_quads(height_map@, chunk_dim as int),
{
    let ghost dim = chunk_dim as int;
    let ghost hm = height_map@;
    proof {
        lemma_fitting_chunk_is_small(dim, hm);
    }
    let mut m = IMeshAccumulator::new();
    let mut x_i: usize = 0;
    while x_i < chunk_dim
        invariant
            chunk_fits(dim, hm),
            dim == chunk_dim,
            hm == height_map@,
            dim <= 127,
            x_i <= chunk_dim,
            m.wf(),
            m.vertices() == chunk_vertices_upto(hm, dim, x_i as nat),
            m.quads() == chunk_quads_upto(hm, dim, x_i as nat),
        decreases chunk_dim - x_i,
    {
        let ghost before_strip = m.vertices();
        let ghost quads_before_strip = m.quads();
        let mut y_i: usize = 0;
        proof {
            lemma_chunk_quads_monotone(hm, dim, (x_i + 1) as nat, dim as nat);
            assert(m.vertices() =~= before_strip + strip_vertices(hm, dim, x_i as int, 0));
        }
        while y_i < chunk_dim
            invariant
                chunk_fits(dim, hm),
                dim == chunk_dim,
                hm == height_map@,
                dim <= 127,
                x_i < chunk_dim,
                y_i <= chunk_dim,
                m.wf(),
                before_strip == chunk_vertices_upto(hm, dim, x_i as nat),
                quads_before_strip == chunk_quads_upto(hm, dim, x_i as nat),
                chunk_quads_upto(hm, dim, (x_i + 1) as nat) <= MAX_QUADS,
                m.vertices() == before_strip + strip_vertices(hm, dim, x_i as int, y_i as nat),
                m.quads() == quads_before_strip + strip_quads(hm, dim, x_i as int, y_i as nat),
            decreases chunk_dim - y_i,
        {
            let ghost x = x_i as int;
            let ghost y = y_i as int;
            let ghost before_column = m.vertices();
            let ghost quads_before_column = m.quads();
            let ghost faces_spec = column_faces(hm, dim, x, y);
            let ghost fill_spec = column_fill(hm, dim, x, y);
            let ghost count = faces_spec.spec_count() as int;
            proof {
                assert(height_map.len() == dim * dim);
                lemma_cell_index(dim, x, y);
                lemma_column_quads_bounds(hm, dim, x, y);
                lemma_column_faces_count(hm, dim, x, y);
                lemma_strip_quads_monotone(hm, dim, x, (y_i + 1) as nat, dim as nat);
                assert(m.vertices() =~= before_column + column_vertices(hm, dim, x, y, 0));
                assert(0 * count == 0);
            }
            let z = height_map[x_i * chunk_dim + y_i];
            let (faces, fill) = column_profile(chunk_dim, height_map, x_i, y_i);
            let layers: i32 = fill as i32;
            let mut i: i32 = 0;
            while i < layers
                invariant
                    dim == chunk_dim,
                    hm == height_map@,
                    m.wf(),
                    x == x_i,
                    y == y_i,
                    0 <= x < dim <= 127,
                    0 <= y < dim,
                    z == height_at(hm, dim, x, y),
                    height_on_grid(z),
                    faces == faces_spec,
                    faces_spec == column_faces(hm, dim, x, y),
                    fill_spec == column_fill(hm, dim, x, y),
                    count == faces_spec.spec_count(),
                    1 <= count <= 5,
                    layers == fill_spec,
                    0 <= i <= layers,
                    quads_before_column + fill_spec * count <= MAX_QUADS,
                    m.vertices() == before_column + column_vertices(hm, dim, x, y, i as nat),
                    m.quads() == quads_before_column + i * count,
                decreases layers - i,
            {
                proof {
                    assert((i + 1) * count <= fill_spec * count) by (nonlinear_arith)
                        requires
                            i + 1 <= fill_spec,
                            0 <= count,
                    ;
                    assert((i + 1) * count == i * count + count) by (nonlinear_arith);
                }
                let pos = Point3::new(x_i as i32, y_i as i32, z - i);
                m.add_cuboid_faces(pos, faces);
                i = i + 1;
                proof {
                    assert(m.vertices() =~= before_column + column_vertices(
                        hm,
                        dim,
                        x,
                        y,
                        i as nat,
                    ));
                }
            }
            y_i = y_i + 1;
            proof {
                assert(m.vertices() =~= before_strip + strip_vertices(hm, dim, x, y_i as nat));
            }
        }
        x_i = x_i + 1;
    }
    m
}

/// The columns met so far never hold more quads than the whole chunk.
pub proof fn lemma_partial_quads(heights: Seq<i32>, dim: int, x: int, y: int)
    requires
        0 <= x < dim,
        0 <= y <= dim,
    ensures
        chunk_quads_upto(heights, dim, x as nat) + strip_quads(heights, dim, x, y as nat)
            <= chunk_quads(heights, dim),
{
    lemma_strip_quads_monotone(heights, dim, x, y as nat, dim as nat);
    lemma_chunk_quads_monotone(heights, dim, (x + 1) as nat, dim as nat);
    assert(0 <= (dim - (x + 1)) * dim) by (nonlinear_arith)
        requires
            0 <= x < dim,
    ;
}

/// Whether `generate_chunk_x_y` can be called on these arguments.
pub fn height_map_fits(chunk_dim: usize, height_map: &Vec<i32>) -> (ok: bool)
    ensures
        ok == chunk_fits(chunk_dim as int, height_map@),
{
    let ghost dim = chunk_dim as int;
    let ghost hm = height_map@;
    if chunk_dim > 127 {
        proof {
            if chunk_quads(hm, dim) <= MAX_QUADS {
                lemma_fitting_chunk_is_small(dim, hm);
            }
        }
        return false;
    }
    assert(dim * dim <= 127 * 127) by (nonlinear_arith)
        requires
            0 <= dim <= 127,
    ;
    if height_map.len() != chunk_dim * chunk_dim {
        return false;
    }
    let mut k: usize = 0;
    while k < height_map.len()
        invariant
            hm == height_map@,
            k <= height_map.len(),
            forall|i: int| 0 <= i < k ==> height_on_grid(#[trigger] hm[i]),
        decreases height_map.len() - k,
    {
        let h = height_map[k];
        if h < i32::MIN + (BOUNDARY_FILL - 1) || h == i32::MAX {
            assert(!height_on_grid(hm[k as int]));
            return false;
        }
        k = k + 1;
    }
    let mut total: usize = 0;
    let mut x_i: usize = 0;
    while x_i < chunk_dim
        invariant
            dim == chunk_dim,
            hm == height_map@,
            hm.len() == dim * dim,
            dim <= 127,
            x_i <= chunk_dim,
            total == chunk_quads_upto(hm, dim, x_i as nat),
            total <= MAX_QUADS,
        decreases chunk_dim - x_i,
    {
        let ghost quads_before_strip = total as int;
        let mut y_i: usize = 0;
        while y_i < chunk_dim
            invariant
                dim == chunk_dim,
                hm == height_map@,
                hm.len() == dim * dim,
                dim <= 127,
                x_i < chunk_dim,
                y_i <= chunk_dim,
                quads_before_strip == chunk_quads_upto(hm, dim, x_i as nat),
                total == quads_before_strip + strip_quads(hm, dim, x_i as int, y_i as nat),
                total <= MAX_QUADS,
            decreases chunk_dim - y_i,
        {
            let (faces, fill) = column_profile(chunk_dim, height_map, x_i, y_i);
            proof {
                lemma_column_quads_bounds(hm, dim, x_i as int, y_i as int);
                lemma_column_faces_count(hm, dim, x_i as int, y_i as int);
                lemma_partial_quads(hm, dim, x_i as int, y_i + 1);
            }
            if fill > MAX_QUADS as i64 {
                return false;
            }
            let count = faces.count();
            assert(fill * count <= 5 * MAX_QUADS) by (nonlinear_arith)
                requires
                    0 <= fill <= MAX_QUADS,
                    0 <= count <= 5,
            ;
            let quads = fill as usize * count as usize;
            total = total + quads;
            if total > MAX_QUADS {
                return false;
            }
            y_i = y_i + 1;
        }
        x_i = x_i + 1;
    }
    true
}

} // verus!
