//! The world: the meshes of a grid of chunks, concatenated into one vertex
//! list and one index list, with a table that says where each chunk lies.

use vstd::prelude::*;
use crate::chunk::{
    chunk_fits, chunk_quads, chunk_vertices, generate_chunk_x_y, height_map_fits,
    lemma_chunk_quads_monotone, lemma_chunk_vertices_len, lemma_fitting_chunk_is_small,
};
use crate::managed_buffer::{BufferKind, DeviceElement, HostData, ManagedBuffer};
use crate::mesh::{mesh_index, quad_indices, MAX_QUADS};
use crate::vertex::IVertex;

verus! {

/// Bytes from one chunk transform to the next in the device buffer: the
/// alignment that a device asks of a dynamic uniform offset.
pub const TRANSFORM_STRIDE: usize = 256;

/// The most chunks whose transforms a 32-bit dynamic offset can select.
pub const MAX_CHUNKS: usize = 16777215;

/// Where the mesh of one chunk lies in the buffers of the world.
#[derive(Clone, Copy, Debug, PartialEq, Eq)]
pub struct ChunkIndex {
    /// The number of vertices before the first vertex of the chunk.
    pub vertex_offset: usize,
    /// The number of indices before the first index of the chunk.
    pub index_offset: usize,
    /// The number of indices of the chunk.
    pub index_count: usize,
    /// The slot of the chunk's transform.
    pub transform_index: usize,
}

/// The transform of a chunk: a translation by whole voxels. On the device
/// it is a 4 by 4 matrix, padded to `TRANSFORM_STRIDE` bytes.
#[derive(Clone, Copy, Debug, PartialEq, Eq)]
pub struct ChunkTransform {
    pub translation: [i32; 3],
}

impl DeviceElement for ChunkTransform {
    open spec fn device_size() -> nat {
        TRANSFORM_STRIDE as nat
    }

    fn t_size() -> (n: usize) {
        TRANSFORM_STRIDE
    }
}

/// The number of quads of the first `chunks` chunks.
pub open spec fn world_quads_upto(maps: Seq<Vec<i32>>, dim: int, chunks: nat) -> int
    decreases chunks,
{
    if chunks == 0 {
        0
    } else {
        world_quads_upto(maps, dim, (chunks - 1) as nat) + chunk_quads(maps[chunks - 1]@, dim)
    }
}

/// The number of quads of the world.
pub open spec fn world_quads(maps: Seq<Vec<i32>>, dim: int) -> int {
    world_quads_upto(maps, dim, maps.len())
}

/// The vertices of the first `chunks` chunks, chunk after chunk.
pub open spec fn world_vertices_upto(maps: Seq<Vec<i32>>, dim: int, chunks: nat) -> Seq<IVertex>
    decreases chunks,
{
    if chunks == 0 {
        Seq::empty()
    } else {
        world_vertices_upto(maps, dim, (chunks - 1) as nat) + chunk_vertices(
            maps[chunks - 1]@,
            dim,
        )
    }
}

/// The vertices of the world.
pub open spec fn world_vertices(maps: Seq<Vec<i32>>, dim: int) -> Seq<IVertex> {
    world_vertices_upto(maps, dim, maps.len())
}

/// The indices of one mesh, each raised by `base`, the number of vertices
/// that lie before the mesh in a larger list.
pub open spec fn rebased(local: Seq<u16>, base: int) -> Seq<u32> {
    Seq::new(local.len(), |j: int| (local[j] + base) as u32)
}

/// The indices of the first `chunks` chunks, chunk after chunk, those of
/// each chunk raised by the number of vertices before it.
pub open spec fn world_indices_upto(maps: Seq<Vec<i32>>, dim: int, chunks: nat) -> Seq<u32>
    decreases chunks,
{
    if chunks == 0 {
        Seq::empty()
    } else {
        world_indices_upto(maps, dim, (chunks - 1) as nat) + rebased(
            quad_indices(chunk_quads(maps[chunks - 1]@, dim) as nat),
            4 * world_quads_upto(maps, dim, (chunks - 1) as nat),
        )
    }
}

/// The indices of the world.
pub open spec fn world_indices(maps: Seq<Vec<i32>>, dim: int) -> Seq<u32> {
    world_indices_upto(maps, dim, maps.len())
}

/// The table entry of chunk `c`.
pub open spec fn chunk_entry(maps: Seq<Vec<i32>>, dim: int, c: int) -> ChunkIndex {
    ChunkIndex {
        vertex_offset: (4 * world_quads_upto(maps, dim, c as nat)) as usize,
        index_offset: (6 * world_quads_upto(maps, dim, c as nat)) as usize,
        index_count: (6 * chunk_quads(maps[c]@, dim)) as usize,
        transform_index: c as usize,
    }
}

/// The chunk table of the world.
pub open spec fn chunk_table(maps: Seq<Vec<i32>>, dim: int) -> Seq<ChunkIndex> {
    Seq::new(maps.len(), |c: int| chunk_entry(maps, dim, c))
}

/// The transform of chunk `c` of a grid that is `grid_x` chunks wide: the
/// chunk lies at `(c % grid_x, c / grid_x)`, and is moved by `dim` voxels
/// for each step on the grid.
pub open spec fn chunk_transform(grid_x: int, dim: int, c: int) -> ChunkTransform {
    ChunkTransform { translation: [((c % grid_x) * dim) as i32, ((c / grid_x) * dim) as i32, 0i32] }
}

/// The transforms of the first `chunks` chunks.
pub open spec fn world_transforms(grid_x: int, dim: int, chunks: nat) -> Seq<ChunkTransform> {
    Seq::new(chunks, |c: int| chunk_transform(grid_x, dim, c))
}

/// Whether a world can be built: there is a height map for each chunk of
/// the grid, the mesh of each chunk fits, and 32-bit numbers can address
/// every index and every transform.
pub open spec fn world_fits(grid_x: int, grid_y: int, dim: int, maps: Seq<Vec<i32>>) -> bool {
    &&& maps.len() == grid_x * grid_y
    &&& maps.len() <= MAX_CHUNKS
    &&& forall|c: int| 0 <= c < maps.len() ==> chunk_fits(dim, #[trigger] maps[c]@)
    &&& 6 * world_quads(maps, dim) <= u32::MAX
}

/// From chunk to chunk the number of quads does not fall.
pub proof fn lemma_world_quads_monotone(maps: Seq<Vec<i32>>, dim: int, a: nat, b: nat)
    requires
        a <= b,
        0 <= dim,
    ensures
        0 <= world_quads_upto(maps, dim, a) <= world_quads_upto(maps, dim, b),
    decreases b,
{
    if b > 0 {
        lemma_chunk_quads_monotone(maps[b - 1]@, dim, 0, dim as nat);
        assert(0 <= dim * dim) by (nonlinear_arith);
        assert((dim - 0) * dim == dim * dim);
        lemma_world_quads_monotone(maps, dim, 0, (b - 1) as nat);
        if a < b {
            lemma_world_quads_monotone(maps, dim, a, (b - 1) as nat);
        }
    }
}

/// The world has four vertices for each of its quads.
pub proof fn lemma_world_vertices_len(maps: Seq<Vec<i32>>, dim: int, chunks: nat)
    ensures
        world_vertices_upto(maps, dim, chunks).len() == 4 * world_quads_upto(maps, dim, chunks),
    decreases chunks,
{
    if chunks > 0 {
        lemma_world_vertices_len(maps, dim, (chunks - 1) as nat);
        lemma_chunk_vertices_len(maps[chunks - 1]@, dim, dim as nat);
    }
}

/// Raising the indices of a mesh of quads by the vertices of the quads
/// before it gives the indices that the quads have in the larger mesh.
pub proof fn lemma_mesh_index_shift(before: int, i: int)
    requires
        0 <= before,
        0 <= i,
    ensures
        mesh_index(6 * before + i) == 4 * before + mesh_index(i),
        4 * (i / 6) <= mesh_index(i) <= 4 * (i / 6) + 3,
{
    assert((6 * before + i) / 6 == before + i / 6 && (6 * before + i) % 6 == i % 6)
        by (nonlinear_arith)
        requires
            0 <= before,
            0 <= i,
    ;
}

/// The indices of the first `chunks` chunks are those of one mesh of quads:
/// re-basing each chunk makes its indices continue where the chunk before
/// it stopped.
pub proof fn lemma_world_indices_closed_form(maps: Seq<Vec<i32>>, dim: int, chunks: nat)
    requires
        0 <= dim,
        forall|c: int| 0 <= c < chunks ==> chunk_quads(#[trigger] maps[c]@, dim) <= MAX_QUADS,
        4 * world_quads_upto(maps, dim, chunks) <= u32::MAX,
    ensures
        world_indices_upto(maps, dim, chunks).len() == 6 * world_quads_upto(maps, dim, chunks),
        forall|i: int|
            0 <= i < 6 * world_quads_upto(maps, dim, chunks) ==> (#[trigger] world_indices_upto(
                maps,
                dim,
                chunks,
            )[i]) == mesh_index(i),
    decreases chunks,
{
    if chunks > 0 {
        let prev = (chunks - 1) as nat;
        lemma_world_quads_monotone(maps, dim, prev, chunks);
        lemma_world_quads_monotone(maps, dim, 0, prev);
        lemma_world_indices_closed_form(maps, dim, prev);
        let before = world_quads_upto(maps, dim, prev);
        let here = chunk_quads(maps[chunks - 1]@, dim);
        assert(here == world_quads_upto(maps, dim, chunks) - before);
        assert(chunk_quads(maps[chunks - 1]@, dim) <= MAX_QUADS);
        let local = quad_indices(here as nat);
        assert forall|i: int| 0 <= i < 6 * (before + here) implies (#[trigger] world_indices_upto(
            maps,
            dim,
            chunks,
        )[i]) == mesh_index(i) by {
            if i >= 6 * before {
                let j = i - 6 * before;
                lemma_mesh_index_shift(before, j);
                lemma_mesh_index_shift(0, j);
                assert(local[j] == mesh_index(j));
                assert(rebased(local, 4 * before)[j] == mesh_index(i));
            } else {
                assert(world_indices_upto(maps, dim, chunks)[i] == world_indices_upto(
                    maps,
                    dim,
                    prev,
                )[i]);
            }
        }
    }
}

/// In a world that fits, every index of chunk `c` refers to a vertex of
/// chunk `c`: it is at least the chunk's vertex offset, and less than that
/// offset plus the number of the chunk's vertices. The chunk's indices and
/// vertices lie within the lists of the world.
pub proof fn lemma_chunk_indexing_sound(
    grid_x: int,
    grid_y: int,
    dim: int,
    maps: Seq<Vec<i32>>,
    c: int,
    i: int,
)
    requires
        world_fits(grid_x, grid_y, dim, maps),
        0 <= c < maps.len(),
        chunk_entry(maps, dim, c).index_offset <= i < chunk_entry(maps, dim, c).index_offset
            + chunk_entry(maps, dim, c).index_count,
    ensures
        i < world_indices(maps, dim).len(),
        chunk_entry(maps, dim, c).vertex_offset <= world_indices(maps, dim)[i]
            < chunk_entry(maps, dim, c).vertex_offset + 4 * chunk_quads(maps[c]@, dim)
            <= world_vertices(maps, dim).len(),
{
    let n = maps.len();
    let before = world_quads_upto(maps, dim, c as nat);
    let here = chunk_quads(maps[c]@, dim);
    lemma_world_quads_monotone(maps, dim, 0, c as nat);
    lemma_world_quads_monotone(maps, dim, c as nat, (c + 1) as nat);
    lemma_world_quads_monotone(maps, dim, (c + 1) as nat, n);
    lemma_world_vertices_len(maps, dim, n);
    assert forall|k: int| 0 <= k < n implies chunk_quads(#[trigger] maps[k]@, dim) <= MAX_QUADS by {
        assert(chunk_fits(dim, maps[k]@));
    }
    lemma_world_indices_closed_form(maps, dim, n);
    assert(here == world_quads_upto(maps, dim, (c + 1) as nat) - before);
    let j = i - 6 * before;
    lemma_mesh_index_shift(before, j);
    lemma_mesh_index_shift(0, j);
    assert(world_indices(maps, dim)[i] == mesh_index(i));
}

/// The vertices of the first chunks stay where they are when more chunks
/// follow.
pub proof fn lemma_world_vertices_prefix(maps: Seq<Vec<i32>>, dim: int, a: nat, b: nat)
    requires
        a <= b,
    ensures
        world_vertices_upto(maps, dim, a).len() <= world_vertices_upto(maps, dim, b).len(),
        world_vertices_upto(maps, dim, b).subrange(
            0,
            world_vertices_upto(maps, dim, a).len() as int,
        ) == world_vertices_upto(maps, dim, a),
    decreases b,
{
    let short = world_vertices_upto(maps, dim, a);
    if a < b {
        lemma_world_vertices_prefix(maps, dim, a, (b - 1) as nat);
        let before = world_vertices_upto(maps, dim, (b - 1) as nat);
        assert(before.subrange(0, short.len() as int) == short);
        assert(world_vertices_upto(maps, dim, b).subrange(0, short.len() as int) =~= short);
    } else {
        assert(short.subrange(0, short.len() as int) =~= short);
    }
}

/// The indices of the first chunks stay where they are when more chunks
/// follow.
pub proof fn lemma_world_indices_prefix(maps: Seq<Vec<i32>>, dim: int, a: nat, b: nat)
    requires
        a <= b,
    ensures
        world_indices_upto(maps, dim, a).len() <= world_indices_upto(maps, dim, b).len(),
        world_indices_upto(maps, dim, b).subrange(
            0,
            world_indices_upto(maps, dim, a).len() as int,
        ) == world_indices_upto(maps, dim, a),
    decreases b,
{
    let short = world_indices_upto(maps, dim, a);
    if a < b {
        lemma_world_indices_prefix(maps, dim, a, (b - 1) as nat);
        let before = world_indices_upto(maps, dim, (b - 1) as nat);
        assert(before.subrange(0, short.len() as int) == short);
        assert(world_indices_upto(maps, dim, b).subrange(0, short.len() as int) =~= short);
    } else {
        assert(short.subrange(0, short.len() as int) =~= short);
    }
}

/// The chunk table cuts the lists of the world into the meshes of the
/// chunks. The vertices from the vertex offset of chunk `c` on are the
/// vertices of the chunk's own mesh, and the indices from its index offset
/// on are the indices of its own mesh, each raised by the vertex offset.
pub proof fn lemma_chunk_slices(
    grid_x: int,
    grid_y: int,
    dim: int,
    maps: Seq<Vec<i32>>,
    c: int,
)
    requires
        world_fits(grid_x, grid_y, dim, maps),
        0 <= c < maps.len(),
    ensures
        chunk_entry(maps, dim, c).vertex_offset + 4 * chunk_quads(maps[c]@, dim)
            <= world_vertices(maps, dim).len(),
        world_vertices(maps, dim).subrange(
            chunk_entry(maps, dim, c).vertex_offset as int,
            chunk_entry(maps, dim, c).vertex_offset + 4 * chunk_quads(maps[c]@, dim),
        ) == chunk_vertices(maps[c]@, dim),
        chunk_entry(maps, dim, c).index_offset + chunk_entry(maps, dim, c).index_count
            <= world_indices(maps, dim).len(),
        world_indices(maps, dim).subrange(
            chunk_entry(maps, dim, c).index_offset as int,
            chunk_entry(maps, dim, c).index_offset + chunk_entry(maps, dim, c).index_count,
        ) == rebased(
            quad_indices(chunk_quads(maps[c]@, dim) as nat),
            chunk_entry(maps, dim, c).vertex_offset as int,
        ),
{
    let n = maps.len();
    let before = world_quads_upto(maps, dim, c as nat);
    let here = chunk_quads(maps[c]@, dim);
    assert(chunk_fits(dim, maps[c]@));
    lemma_world_quads_monotone(maps, dim, 0, c as nat);
    lemma_world_quads_monotone(maps, dim, c as nat, (c + 1) as nat);
    lemma_world_quads_monotone(maps, dim, (c + 1) as nat, n);
    lemma_world_vertices_len(maps, dim, c as nat);
    lemma_world_vertices_len(maps, dim, (c + 1) as nat);
    lemma_world_vertices_len(maps, dim, n);
    assert forall|k: int| 0 <= k < n implies chunk_quads(#[trigger] maps[k]@, dim) <= MAX_QUADS by {
        assert(chunk_fits(dim, maps[k]@));
    }
    lemma_world_indices_closed_form(maps, dim, c as nat);
    lemma_world_indices_closed_form(maps, dim, (c + 1) as nat);
    lemma_world_indices_closed_form(maps, dim, n);
    lemma_world_vertices_prefix(maps, dim, (c + 1) as nat, n);
    lemma_world_indices_prefix(maps, dim, (c + 1) as nat, n);
    let vertices = world_vertices_upto(maps, dim, (c + 1) as nat);
    let indices = world_indices_upto(maps, dim, (c + 1) as nat);
    assert(vertices == world_vertices_upto(maps, dim, c as nat) + chunk_vertices(maps[c]@, dim));
    assert(world_vertices(maps, dim).subrange(4 * before, 4 * (before + here)) =~= vertices.subrange(
        4 * before,
        4 * (before + here),
    ));
    assert(vertices.subrange(4 * before, 4 * (before + here)) =~= chunk_vertices(maps[c]@, dim));
    let local = rebased(quad_indices(here as nat), 4 * before);
    assert(indices == world_indices_upto(maps, dim, c as nat) + local);
    assert(world_indices(maps, dim).subrange(6 * before, 6 * (before + here)) =~= indices.subrange(
        6 * before,
        6 * (before + here),
    ));
    assert(indices.subrange(6 * before, 6 * (before + here)) =~= local);
}

/// In a world that fits, every index refers to a vertex of the world.
pub proof fn lemma_world_indexing_sound(
    grid_x: int,
    grid_y: int,
    dim: int,
    maps: Seq<Vec<i32>>,
    i: int,
)
    requires
        world_fits(grid_x, grid_y, dim, maps),
        0 <= i < world_indices(maps, dim).len(),
    ensures
        world_indices(maps, dim)[i] < world_vertices(maps, dim).len(),
{
    let n = maps.len();
    lemma_world_quads_monotone(maps, dim, 0, n);
    lemma_world_vertices_len(maps, dim, n);
    assert forall|k: int| 0 <= k < n implies chunk_quads(#[trigger] maps[k]@, dim) <= MAX_QUADS by {
        assert(chunk_fits(dim, maps[k]@));
    }
    lemma_world_indices_closed_form(maps, dim, n);
    lemma_mesh_index_shift(0, i);
    assert(world_indices(maps, dim)[i] == mesh_index(i));
}

/// The geometry of the world on the host: the chunk table, and the mirrors
/// of the three device buffers that hold transforms, vertices and indices.
pub struct WorldGeometryManager {
    pub chunks: Vec<ChunkIndex>,
    /// This buffer holds the transforms for each of our chunks.
    pub transforms_buf: ManagedBuffer<Vec<ChunkTransform>>,
    /// Chunks are squares of columns, and this value is the side of the
    /// square.
    pub chunk_dim: usize,
    /// This buffer holds the full mesh for the world geometry.
    pub vertex_buf: ManagedBuffer<Vec<IVertex>>,
    pub index_buf: ManagedBuffer<Vec<u32>>,
}

impl WorldGeometryManager {
    /// The vertices of the world.
    pub open spec fn vertices(&self) -> Seq<IVertex> {
        self.vertex_buf@.data@
    }

    /// The indices of the world.
    pub open spec fn indices(&self) -> Seq<u32> {
        self.index_buf@.data@
    }

    /// The transforms of the chunks.
    pub open spec fn transforms(&self) -> Seq<ChunkTransform> {
        self.transforms_buf@.data@
    }

    /// One past the last vertex of chunk `c`: where the next chunk starts,
    /// or where the vertex list ends.
    pub open spec fn vertex_end(&self, c: int) -> int {
        if c + 1 < self.chunks@.len() {
            self.chunks@[c + 1].vertex_offset as int
        } else {
            self.vertices().len() as int
        }
    }

    /// Entry `c` of the chunk table selects transform `c`, a range of the
    /// vertex list and a range of the index list, and each index of the
    /// range refers to a vertex of the chunk.
    pub open spec fn chunk_wf(&self, c: int) -> bool {
        let chunk = self.chunks@[c];
        &&& chunk.transform_index == c
        &&& chunk.vertex_offset <= self.vertex_end(c) <= self.vertices().len()
        &&& chunk.index_offset + chunk.index_count <= self.indices().len()
        &&& forall|i: int|
            chunk.index_offset <= i < chunk.index_offset + chunk.index_count
                ==> chunk.vertex_offset <= (#[trigger] self.indices()[i]) < self.vertex_end(c)
    }

    /// The buffers can be addressed on the device, each chunk has its
    /// transform, every index refers to a vertex, and every entry of the
    /// chunk table is sound.
    pub open spec fn wf(&self) -> bool {
        &&& self.transforms_buf.wf()
        &&& self.vertex_buf.wf()
        &&& self.index_buf.wf()
        &&& self.transforms().len() == self.chunks@.len()
        &&& self.chunks@.len() <= MAX_CHUNKS
        &&& self.indices().len() <= u32::MAX
        &&& forall|i: int|
            0 <= i < self.indices().len() ==> (#[trigger] self.indices()[i])
                < self.vertices().len()
        &&& forall|c: int| 0 <= c < self.chunks@.len() ==> #[trigger] self.chunk_wf(c)
    }

    /// Appends the indices of one mesh to those of the world, each raised
    /// by `base`.
    fn append_rebased(indices: &mut Vec<u32>, local: &Vec<u16>, base: u32)
        requires
            forall|j: int| 0 <= j < local@.len() ==> (#[trigger] local@[j]) + base <= u32::MAX,
        ensures
            final(indices)@ == old(indices)@ + rebased(local@, base as int),
    {
        let mut j: usize = 0;
        while j < local.len()
            invariant
                j <= local@.len(),
                forall|k: int| 0 <= k < local@.len() ==> (#[trigger] local@[k]) + base <= u32::MAX,
                indices@.len() == old(indices)@.len() + j,
                forall|k: int| 0 <= k < old(indices)@.len() ==> indices@[k] == old(indices)@[k],
                forall|k: int|
                    0 <= k < j ==> indices@[old(indices)@.len() + k] == local@[k] + base,
            decreases local@.len() - j,
        {
            indices.push(local[j] as u32 + base);
            j = j + 1;
        }
        assert(indices@ =~= old(indices)@ + rebased(local@, base as int));
    }

    /// Builds the world of a grid of `grid_x` by `grid_y` chunks. The
    /// height map of chunk `(x, y)` is `height_maps[y * grid_x + x]`.
    ///
    /// The meshes of the chunks are concatenated row after row. The indices
    /// of each chunk are raised by the number of vertices before it, so
    /// that they refer to the vertex list of the world. Returns `None` if
    /// and only if the world does not fit.
    pub fn new(grid_x: usize, grid_y: usize, chunk_dim: usize, height_maps: &Vec<Vec<i32>>) -> (r:
        Option<Self>)
        ensures
            r is Some <==> world_fits(
                grid_x as int,
                grid_y as int,
                chunk_dim as int,
                height_maps@,
            ),
            r is Some ==> {
                let w = r->0;
                &&& w.wf()
                &&& w.chunk_dim == chunk_dim
                &&& w.chunks@ == chunk_table(height_maps@, chunk_dim as int)
                &&& w.vertices() == world_vertices(height_maps@, chunk_dim as int)
                &&& w.indices() == world_indices(height_maps@, chunk_dim as int)
                &&& w.transforms() == world_transforms(
                    grid_x as int,
                    chunk_dim as int,
                    height_maps@.len(),
                )
                &&& w.vertex_buf@.dirty && w.vertex_buf@.kind == BufferKind::Vertex
                &&& w.index_buf@.dirty && w.index_buf@.kind == BufferKind::Index
                &&& w.transforms_buf@.dirty && w.transforms_buf@.kind == BufferKind::Uniform
            },
    {
        let ghost maps = height_maps@;
        let ghost dim = chunk_dim as int;
        let n = match grid_x.checked_mul(grid_y) {
            Some(n) => n,
            None => {
                return None;
            },
        };
        if n != height_maps.len() || n > MAX_CHUNKS {
            return None;
        }
        let mut chunks: Vec<ChunkIndex> = Vec::new();
        let mut transforms: Vec<ChunkTransform> = Vec::new();
        let mut vertices: Vec<IVertex> = Vec::new();
        let mut indices: Vec<u32> = Vec::new();
        let mut quads: usize = 0;
        let mut c: usize = 0;
        while c < n
            invariant
                maps == height_maps@,
                dim == chunk_dim,
                n == maps.len(),
                n == grid_x * grid_y,
                n <= MAX_CHUNKS,
                c <= n,
                forall|k: int| 0 <= k < c ==> chunk_fits(dim, #[trigger] maps[k]@),
                quads == world_quads_upto(maps, dim, c as nat),
                6 * quads <= u32::MAX,
                vertices@ == world_vertices_upto(maps, dim, c as nat),
                indices@ == world_indices_upto(maps, dim, c as nat),
                chunks@ =~= Seq::new(c as nat, |k: int| chunk_entry(maps, dim, k)),
                transforms@ =~= world_transforms(grid_x as int, dim, c as nat),
            decreases n - c,
        {
            let height_map = &height_maps[c];
            if !height_map_fits(chunk_dim, height_map) {
                return None;
            }
            // Generate the mesh of the chunk.
            let mesh = generate_chunk_x_y(chunk_dim, height_map);
            let chunk_quad_count = mesh.quad_count();
            let (mut vertices_n, indices_n) = mesh.report();
            proof {
                lemma_fitting_chunk_is_small(dim, maps[c as int]@);
                lemma_world_quads_monotone(maps, dim, (c + 1) as nat, n as nat);
                lemma_world_vertices_len(maps, dim, c as nat);
                assert forall|k: int| 0 <= k < c implies chunk_quads(#[trigger] maps[k]@, dim)
                    <= MAX_QUADS by {
                    assert(chunk_fits(dim, maps[k]@));
                }
                lemma_world_indices_closed_form(maps, dim, c as nat);
            }
            let new_quads = quads + chunk_quad_count;
            if 6 * (new_quads as u64) > u32::MAX as u64 {
                return None;
            }
            let chunk_index = ChunkIndex {
                vertex_offset: vertices.len(),
                index_offset: indices.len(),
                index_count: indices_n.len(),
                transform_index: transforms.len(),
            };
            assert(chunk_index == chunk_entry(maps, dim, c as int));
            let base = vertices.len() as u32;
            proof {
                assert forall|j: int| 0 <= j < indices_n@.len() implies (#[trigger] indices_n@[j])
                    + base <= u32::MAX by {
                    lemma_mesh_index_shift(0, j);
                }
            }
            // And update the lists of the world.
            Self::append_rebased(&mut indices, &indices_n, base);
            vertices.append(&mut vertices_n);
            assert(grid_x > 0) by (nonlinear_arith)
                requires
                    n == grid_x * grid_y,
                    n > 0,
            ;
            let x = c % grid_x;
            let y = c / grid_x;
            proof {
                assert(0 <= x <= c && 0 <= y <= c) by (nonlinear_arith)
                    requires
                        x == c % grid_x,
                        y == c / grid_x,
                        grid_x > 0,
                        c >= 0,
                ;
                assert(x * dim <= MAX_CHUNKS * 127 && y * dim <= MAX_CHUNKS * 127)
                    by (nonlinear_arith)
                    requires
                        0 <= x <= MAX_CHUNKS,
                        0 <= y <= MAX_CHUNKS,
                        0 <= dim <= 127,
                ;
            }
            transforms.push(
                ChunkTransform {
                    translation: [(x * chunk_dim) as i32, (y * chunk_dim) as i32, 0],
                },
            );
            chunks.push(chunk_index);
            quads = new_quads;
            c = c + 1;
        }
        proof {
            lemma_world_vertices_len(maps, dim, n as nat);
            assert forall|k: int| 0 <= k < n implies chunk_quads(#[trigger] maps[k]@, dim)
                <= MAX_QUADS by {
                assert(chunk_fits(dim, maps[k]@));
            }
            lemma_world_indices_closed_form(maps, dim, n as nat);
            assert(chunks@ =~= chunk_table(maps, dim));
            assert(Vec::<u32>::element_size() == 4);
        }
        let transforms_buf = match ManagedBuffer::new_uniform_buf_with_data(transforms) {
            Ok(b) => b,
            Err(_) => {
                return None;
            },
        };
        let vertex_buf = match ManagedBuffer::new_vertex_buf_with_data(vertices) {
            Ok(b) => b,
            Err(_) => {
                return None;
            },
        };
        let index_buf = match ManagedBuffer::new_index_buf_with_data(indices) {
            Ok(b) => b,
            Err(_) => {
                return None;
            },
        };
        let w = WorldGeometryManager { chunks, transforms_buf, chunk_dim, vertex_buf, index_buf };
        proof {
            lemma_manager_wf(grid_x as int, grid_y as int, dim, maps, w);
        }
        Some(w)
    }
}

/// Whether a manager is well formed depends on the chunk table and on the
/// data of its buffers only, not on whether the buffers are dirty.
pub proof fn lemma_wf_by_data(a: WorldGeometryManager, b: WorldGeometryManager)
    requires
        a.wf(),
        b.chunks@ == a.chunks@,
        b.vertices() == a.vertices(),
        b.indices() == a.indices(),
        b.transforms() == a.transforms(),
    ensures
        b.wf(),
{
    assert forall|c: int| 0 <= c < b.chunks@.len() implies #[trigger] b.chunk_wf(c) by {
        assert(a.chunk_wf(c));
    }
}

/// A manager that holds the lists and the table of a world that fits is
/// well formed.
proof fn lemma_manager_wf(
    grid_x: int,
    grid_y: int,
    dim: int,
    maps: Seq<Vec<i32>>,
    w: WorldGeometryManager,
)
    requires
        world_fits(grid_x, grid_y, dim, maps),
        w.transforms_buf.wf(),
        w.vertex_buf.wf(),
        w.index_buf.wf(),
        w.chunks@ == chunk_table(maps, dim),
        w.vertices() == world_vertices(maps, dim),
        w.indices() == world_indices(maps, dim),
        w.transforms().len() == maps.len(),
    ensures
        w.wf(),
{
    let n = maps.len();
    if n > 0 {
        assert(chunk_fits(dim, maps[0]@));
        lemma_world_quads_monotone(maps, dim, 0, n);
        lemma_world_vertices_len(maps, dim, n);
        assert forall|k: int| 0 <= k < n implies chunk_quads(#[trigger] maps[k]@, dim)
            <= MAX_QUADS by {
            assert(chunk_fits(dim, maps[k]@));
        }
        lemma_world_indices_closed_form(maps, dim, n);
    }
    assert forall|i: int| 0 <= i < w.indices().len() implies (#[trigger] w.indices()[i])
        < w.vertices().len() by {
        lemma_world_indexing_sound(grid_x, grid_y, dim, maps, i);
    }
    assert forall|c: int| 0 <= c < w.chunks@.len() implies #[trigger] w.chunk_wf(c) by {
        let chunk = w.chunks@[c];
        assert(chunk == chunk_entry(maps, dim, c));
        lemma_world_quads_monotone(maps, dim, 0, c as nat);
        lemma_world_quads_monotone(maps, dim, c as nat, (c + 1) as nat);
        lemma_world_quads_monotone(maps, dim, (c + 1) as nat, n);
        if c + 1 < n {
            assert(w.chunks@[c + 1] == chunk_entry(maps, dim, c + 1));
        }
        assert(w.vertex_end(c) == 4 * world_quads_upto(maps, dim, (c + 1) as nat));
        assert forall|i: int|
            chunk.index_offset <= i < chunk.index_offset + chunk.index_count implies chunk.vertex_offset
            <= (#[trigger] w.indices()[i]) < w.vertex_end(c) by {
            lemma_chunk_indexing_sound(grid_x, grid_y, dim, maps, c, i);
        }
    }
}

} // verus!
