//! What a frame has to do: which buffers to copy to the device, and which
//! draw calls to issue. The device itself is the caller's business.

use vstd::prelude::*;
use crate::camera::{Camera, CameraPose, CameraState, Matrix4};
use crate::vertex::Vertex;
use crate::managed_buffer::{BufferKind, BufferState, CopyCommand, HostData, ManagedBuffer};
use crate::world_geometry::{
    lemma_wf_by_data, ChunkIndex, WorldGeometryManager, MAX_CHUNKS, TRANSFORM_STRIDE,
};

verus! {

/// What a debug pass draws.
pub enum DebugPassType<'host> {
    /// Draws a slice of vertices. Once the data is copied to the device,
    /// the `'host` vertices may be dropped.
    DrawVectors(&'host [Vertex]),
}

/// One indexed draw of one chunk.
#[derive(Clone, Copy, Debug, PartialEq, Eq)]
pub struct DrawCall {
    /// Byte offset of the chunk's transform in the transform buffer.
    pub dynamic_offset: u32,
    /// The first index to draw.
    pub index_start: u32,
    /// One past the last index to draw.
    pub index_end: u32,
    /// What the device adds to each index. The indices of the world refer
    /// to the vertex list of the world already, so this is 0.
    pub base_vertex: i32,
}

/// A buffer of the render context that a frame may have to copy.
#[derive(Clone, Copy, Debug, PartialEq, Eq)]
pub enum SyncTarget {
    WorldVertices,
    WorldIndices,
    CameraUniform,
}

/// A copy to record, and the buffer that it is for.
#[derive(Clone, Copy, Debug, PartialEq, Eq)]
pub struct BufferSync {
    pub target: SyncTarget,
    pub command: CopyCommand,
}

/// What one frame has to record: first the copies, then the draw calls.
pub struct Frame {
    pub syncs: Vec<BufferSync>,
    pub draws: Vec<DrawCall>,
}

/// The draw call of one chunk.
pub open spec fn draw_call(chunk: ChunkIndex) -> DrawCall {
    DrawCall {
        dynamic_offset: (chunk.transform_index * TRANSFORM_STRIDE) as u32,
        index_start: chunk.index_offset as u32,
        index_end: (chunk.index_offset + chunk.index_count) as u32,
        base_vertex: 0,
    }
}

/// The draw calls of a chunk table, one for each chunk and in its order.
pub open spec fn draw_plan(chunks: Seq<ChunkIndex>) -> Seq<DrawCall> {
    Seq::new(chunks.len(), |c: int| draw_call(chunks[c]))
}

/// The copy that `buffer` is waiting for, if any, addressed to `target`.
pub open spec fn pending_sync<Own: HostData>(target: SyncTarget, buffer: BufferState<Own>) -> Seq<
    BufferSync,
> {
    match buffer.pending_copy() {
        Some(command) => seq![BufferSync { target, command }],
        None => Seq::empty(),
    }
}

/// The draw calls of the world, one for each chunk and in the order of the
/// chunk table.
pub fn draw_calls(world: &WorldGeometryManager) -> (draws: Vec<DrawCall>)
    requires
        world.wf(),
    ensures
        draws@ == draw_plan(world.chunks@),
{
    let mut draws: Vec<DrawCall> = Vec::new();
    let mut i: usize = 0;
    while i < world.chunks.len()
        invariant
            world.wf(),
            i <= world.chunks@.len(),
            draws@ =~= Seq::new(i as nat, |c: int| draw_call(world.chunks@[c])),
        decreases world.chunks@.len() - i,
    {
        let chunk = &world.chunks[i];
        assert(world.chunk_wf(i as int));
        assert(chunk.transform_index * TRANSFORM_STRIDE <= MAX_CHUNKS * TRANSFORM_STRIDE)
            by (nonlinear_arith)
            requires
                chunk.transform_index <= MAX_CHUNKS,
        ;
        draws.push(
            DrawCall {
                dynamic_offset: (chunk.transform_index * world.transforms_buf.t_size()) as u32,
                index_start: chunk.index_offset as u32,
                index_end: (chunk.index_offset + chunk.index_count) as u32,
                base_vertex: 0,
            },
        );
        i = i + 1;
    }
    draws
}

/// A draw call stays within its chunk. The draw call of chunk `c` selects
/// the transform of chunk `c`, which lies within the transform buffer, and
/// every index that it draws, with the base vertex added, refers to a
/// vertex of chunk `c`.
pub proof fn lemma_draw_stays_in_chunk(world: WorldGeometryManager, c: int, i: int)
    requires
        world.wf(),
        0 <= c < world.chunks@.len(),
        draw_plan(world.chunks@)[c].index_start <= i < draw_plan(world.chunks@)[c].index_end,
    ensures
        draw_plan(world.chunks@)[c].dynamic_offset == c * TRANSFORM_STRIDE,
        draw_plan(world.chunks@)[c].dynamic_offset + TRANSFORM_STRIDE
            <= world.transforms_buf@.byte_len(),
        i < world.indices().len(),
        world.chunks@[c].vertex_offset <= world.indices()[i] + draw_plan(
            world.chunks@,
        )[c].base_vertex < world.vertex_end(c) <= world.vertices().len(),
{
    assert(world.chunk_wf(c));
    assert(c * TRANSFORM_STRIDE + TRANSFORM_STRIDE <= world.chunks@.len() * TRANSFORM_STRIDE)
        by (nonlinear_arith)
        requires
            0 <= c < world.chunks@.len(),
    ;
    assert(c * TRANSFORM_STRIDE <= MAX_CHUNKS * TRANSFORM_STRIDE) by (nonlinear_arith)
        requires
            0 <= c <= MAX_CHUNKS,
    ;
}

/// The state that rendering a frame needs, as far as it lives on the host:
/// the geometry of the world, the camera, and the uniform buffer that holds
/// the camera's matrix.
pub struct RenderContext {
    world_geometry_manager: WorldGeometryManager,
    camera: Camera,
    /// Holds the matrix of the camera.
    uniform_buf: ManagedBuffer<Matrix4>,
    camera_dirty: bool,
}

/// What a `RenderContext` stands for.
pub struct RenderState {
    pub world: WorldGeometryManager,
    pub camera: CameraState,
    pub uniform: BufferState<Matrix4>,
    pub camera_dirty: bool,
}

impl View for RenderContext {
    type V = RenderState;

    closed spec fn view(&self) -> RenderState {
        RenderState {
            world: self.world_geometry_manager,
            camera: self.camera@,
            uniform: self.uniform_buf@,
            camera_dirty: self.camera_dirty,
        }
    }
}

impl RenderState {
    /// The uniform buffer as the frame finds it, once the matrix of a
    /// camera that was touched has been written to it.
    pub open spec fn uniform_with(self, camera_after: CameraState) -> BufferState<Matrix4> {
        if self.camera_dirty {
            self.uniform.replaced(camera_after.cached_matrix->0)
        } else {
            self.uniform
        }
    }

    /// The copies that a frame records: the vertices and the indices of the
    /// world and the camera's matrix, each only if it is dirty.
    pub open spec fn frame_syncs(self, camera_after: CameraState) -> Seq<BufferSync> {
        pending_sync(SyncTarget::WorldVertices, self.world.vertex_buf@) + pending_sync(
            SyncTarget::WorldIndices,
            self.world.index_buf@,
        ) + pending_sync(SyncTarget::CameraUniform, self.uniform_with(camera_after))
    }
}

impl RenderContext {
    /// The world is well formed and the uniform buffer can be addressed.
    pub open spec fn wf(&self) -> bool {
        &&& self@.world.wf()
        &&& self@.uniform.byte_len() <= u64::MAX
    }

    /// Creates the render context of a world and a camera. The uniform
    /// buffer starts with the camera's matrix, and dirty. This always
    /// succeeds.
    pub fn create<F: FnOnce(CameraPose) -> Matrix4>(
        world_geometry_manager: WorldGeometryManager,
        camera: Camera,
        compute: F,
    ) -> (r: Option<RenderContext>)
        requires
            world_geometry_manager.wf(),
            camera@.cached_matrix is None ==> call_requires(compute, (camera@.pose,)),
        ensures
            r is Some,
            r->0.wf(),
            r->0@.world == world_geometry_manager,
            r->0@.camera.cached_matrix is Some,
            (r->0@.camera, r->0@.camera.cached_matrix->0) == camera@.matrix_call(
                r->0@.camera.cached_matrix->0,
            ),
            camera@.cached_matrix is None ==> call_ensures(
                compute,
                (camera@.pose,),
                r->0@.camera.cached_matrix->0,
            ),
            r->0@.uniform == BufferState::created(
                BufferKind::Uniform,
                r->0@.camera.cached_matrix->0,
            ),
            !r->0@.camera_dirty,
    {
        let mut camera = camera;
        let camera_matrix = camera.matrix(compute);
        match ManagedBuffer::new_uniform_buf_with_data(camera_matrix) {
            Ok(uniform_buf) => Some(
                RenderContext { world_geometry_manager, camera, uniform_buf, camera_dirty: false },
            ),
            Err(_) => None,
        }
    }

    /// The window has a new shape: the camera gets the new aspect ratio.
    pub fn resize(&mut self, aspect_ratio: u32)
        ensures
            final(self)@ == (RenderState {
                camera: CameraState::fresh(
                    CameraPose { aspect_ratio, ..old(self)@.camera.pose },
                ),
                ..old(self)@
            }),
    {
        self.camera.set_aspect_ratio(aspect_ratio);
    }

    /// Plans one frame. If the camera was handed out for change, its matrix
    /// is written to the host side of the uniform buffer. Then each dirty
    /// buffer gets its copy, and each chunk its draw call.
    pub fn render<F: FnOnce(CameraPose) -> Matrix4>(&mut self, compute: F) -> (frame: Frame)
        requires
            old(self).wf(),
            old(self)@.camera_dirty && old(self)@.camera.cached_matrix is None ==> call_requires(
                compute,
                (old(self)@.camera.pose,),
            ),
        ensures
            final(self).wf(),
            final(self)@.camera_dirty == old(self)@.camera_dirty,
            !old(self)@.camera_dirty ==> final(self)@.camera == old(self)@.camera,
            old(self)@.camera_dirty ==> {
                &&& final(self)@.camera.cached_matrix is Some
                &&& (final(self)@.camera, final(self)@.camera.cached_matrix->0) == old(
                    self,
                )@.camera.matrix_call(final(self)@.camera.cached_matrix->0)
                &&& old(self)@.camera.cached_matrix is None ==> call_ensures(
                    compute,
                    (old(self)@.camera.pose,),
                    final(self)@.camera.cached_matrix->0,
                )
            },
            final(self)@.uniform == old(self)@.uniform_with(final(self)@.camera).synced(),
            final(self)@.world.vertex_buf@ == old(self)@.world.vertex_buf@.synced(),
            final(self)@.world.index_buf@ == old(self)@.world.index_buf@.synced(),
            final(self)@.world.transforms_buf@ == old(self)@.world.transforms_buf@,
            final(self)@.world.chunks == old(self)@.world.chunks,
            final(self)@.world.chunk_dim == old(self)@.world.chunk_dim,
            frame.syncs@ == old(self)@.frame_syncs(final(self)@.camera),
            frame.draws@ == draw_plan(old(self)@.world.chunks@),
    {
        // If the camera moved, we have to write the camera's data into the
        // uniform buffer. We write the data into the host side of our
        // managed uniform buffer here.
        if self.camera_dirty {
            let m = self.camera.matrix(compute);
            let _ = self.uniform_buf.replace_data(m);
        }
        let mut syncs: Vec<BufferSync> = Vec::new();
        if self.world_geometry_manager.vertex_buf.dirty() {
            match self.world_geometry_manager.vertex_buf.enqueue_copy_command() {
                Some(command) => {
                    syncs.push(BufferSync { target: SyncTarget::WorldVertices, command });
                },
                None => {},
            }
        }
        if self.world_geometry_manager.index_buf.dirty() {
            match self.world_geometry_manager.index_buf.enqueue_copy_command() {
                Some(command) => {
                    syncs.push(BufferSync { target: SyncTarget::WorldIndices, command });
                },
                None => {},
            }
        }
        if self.uniform_buf.dirty() {
            match self.uniform_buf.enqueue_copy_command() {
                Some(command) => {
                    syncs.push(BufferSync { target: SyncTarget::CameraUniform, command });
                },
                None => {},
            }
        }
        proof {
            lemma_wf_by_data(old(self)@.world, self@.world);
        }
        let draws = draw_calls(&self.world_geometry_manager);
        assert(syncs@ =~= old(self)@.frame_syncs(self@.camera));
        Frame { syncs, draws }
    }

    /// The geometry of the world.
    pub fn world_geometry_manager(&self) -> (world: &WorldGeometryManager)
        ensures
            *world == self@.world,
    {
        &self.world_geometry_manager
    }

    /// The host side of the camera's uniform buffer.
    pub fn uniform_buf(&self) -> (buffer: &ManagedBuffer<Matrix4>)
        ensures
            buffer@ == self@.uniform,
    {
        &self.uniform_buf
    }

    /// Marks the camera as changed.
    fn set_camera_dirty(&mut self)
        ensures
            final(self)@ == (RenderState { camera_dirty: true, ..old(self)@ }),
    {
        self.camera_dirty = true;
    }

    /// The camera, to look at.
    pub fn camera(&self) -> (camera: &Camera)
        ensures
            camera@ == self@.camera,
    {
        &self.camera
    }

    /// Hands the camera out for change. The camera counts as changed from
    /// then on, whether or not the caller changes it.
    pub fn camera_mut(&mut self) -> (camera: &mut Camera)
        ensures
            camera@ == old(self)@.camera,
            final(self)@ == (RenderState {
                camera: final(camera)@,
                camera_dirty: true,
                ..old(self)@
            }),
    {
        self.set_camera_dirty();
        &mut self.camera
    }
}

} // verus!
