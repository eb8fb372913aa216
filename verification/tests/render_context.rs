use std::cell::Cell;
use voxel_terrain::camera::{Camera, CameraPose, Matrix4};
use voxel_terrain::managed_buffer::CopyCommand;
use voxel_terrain::render_context::{draw_calls, BufferSync, DrawCall, RenderContext, SyncTarget};
use voxel_terrain::world_geometry::WorldGeometryManager;

fn pose() -> CameraPose {
    CameraPose {
        position: [1, 2, 3],
        view: [4, 5, 6],
        up: [7, 8, 9],
        pitch: 10,
        aspect_ratio: 11,
        fovy: 12,
        z_near: 13,
        z_far: 14,
    }
}

fn project(p: CameraPose) -> Matrix4 {
    let mut m = [0u32; 16];
    m[0] = p.position[0];
    m[4] = p.aspect_ratio;
    Matrix4 { m }
}

fn world() -> WorldGeometryManager {
    // Two flat chunks of 2 by 2 columns: 4 corners of 24 quads each.
    let maps = vec![vec![0; 4], vec![1; 4]];
    WorldGeometryManager::new(2, 1, 2, &maps).unwrap()
}

fn copy(size: u64) -> CopyCommand {
    CopyCommand { source_offset: 0, destination_offset: 0, copy_size: size }
}

#[test]
fn one_draw_call_for_each_chunk() {
    let w = world();
    let draws = draw_calls(&w);
    assert_eq!(
        draws,
        vec![
            DrawCall { dynamic_offset: 0, index_start: 0, index_end: 576, base_vertex: 0 },
            DrawCall { dynamic_offset: 256, index_start: 576, index_end: 1152, base_vertex: 0 },
        ]
    );
    let indices = w.index_buf.host_data();
    let vertices = w.vertex_buf.host_data();
    for (c, d) in draws.iter().enumerate() {
        for i in &indices[d.index_start as usize..d.index_end as usize] {
            let v = &vertices[(*i as i64 + d.base_vertex as i64) as usize];
            assert_eq!(v.b_pos[2] <= c as i32, true);
            assert_eq!(v.b_pos[2] > c as i32 - 8, true);
        }
    }
    assert_eq!(vertices[0].b_pos[2], 0);
    assert_eq!(vertices[384].b_pos[2], 1);
}

#[test]
fn no_chunks_no_draw_calls() {
    let w = WorldGeometryManager::new(0, 0, 16, &Vec::new()).unwrap();
    assert!(draw_calls(&w).is_empty());
}

#[test]
fn first_frame_uploads_everything() {
    let mut context = RenderContext::create(world(), Camera::new(pose()), project).unwrap();
    assert_eq!(context.uniform_buf().host_data(), &project(pose()));
    assert!(context.uniform_buf().dirty());
    let frame = context.render(project);
    assert_eq!(
        frame.syncs,
        vec![
            BufferSync { target: SyncTarget::WorldVertices, command: copy(192 * 4 * 36) },
            BufferSync { target: SyncTarget::WorldIndices, command: copy(192 * 6 * 4) },
            BufferSync { target: SyncTarget::CameraUniform, command: copy(64) },
        ]
    );
    assert_eq!(frame.draws, draw_calls(context.world_geometry_manager()));
    assert_eq!(frame.draws.len(), 2);
    assert!(!context.world_geometry_manager().vertex_buf.dirty());
    assert!(!context.world_geometry_manager().index_buf.dirty());
    assert!(!context.uniform_buf().dirty());
    // The transforms were never due.
    assert!(context.world_geometry_manager().transforms_buf.dirty());
}

#[test]
fn a_frame_without_changes_uploads_nothing() {
    let mut context = RenderContext::create(world(), Camera::new(pose()), project).unwrap();
    let _ = context.render(project);
    let calls = Cell::new(0);
    let frame = context.render(|p| {
        calls.set(calls.get() + 1);
        project(p)
    });
    assert!(frame.syncs.is_empty());
    assert_eq!(frame.draws.len(), 2);
    assert_eq!(calls.get(), 0);
}

#[test]
fn a_touched_camera_is_uploaded() {
    let mut context = RenderContext::create(world(), Camera::new(pose()), project).unwrap();
    let _ = context.render(project);
    context.camera_mut().move_forward(0, |_, _, _, _| [50, 0, 0]);
    let calls = Cell::new(0);
    let count = |p: CameraPose| {
        calls.set(calls.get() + 1);
        project(p)
    };
    let frame = context.render(&count);
    assert_eq!(calls.get(), 1);
    assert_eq!(
        frame.syncs,
        vec![BufferSync { target: SyncTarget::CameraUniform, command: copy(64) }]
    );
    assert_eq!(context.uniform_buf().host_data().m[0], 50);
    assert_eq!(context.camera().pose().position, [50, 0, 0]);
    // The camera stays marked: its matrix is written again, from the cache.
    let frame = context.render(&count);
    assert_eq!(calls.get(), 1);
    assert_eq!(
        frame.syncs,
        vec![BufferSync { target: SyncTarget::CameraUniform, command: copy(64) }]
    );
}

#[test]
fn handing_the_camera_out_marks_it() {
    let mut context = RenderContext::create(world(), Camera::new(pose()), project).unwrap();
    let _ = context.render(project);
    let _ = context.camera_mut();
    let frame = context.render(project);
    assert_eq!(
        frame.syncs,
        vec![BufferSync { target: SyncTarget::CameraUniform, command: copy(64) }]
    );
    assert_eq!(context.uniform_buf().host_data(), &project(pose()));
}

#[test]
fn resize_changes_the_aspect_ratio_only() {
    let mut context = RenderContext::create(world(), Camera::new(pose()), project).unwrap();
    let _ = context.render(project);
    context.resize(77);
    assert_eq!(context.camera().pose(), CameraPose { aspect_ratio: 77, ..pose() });
    // Resizing does not mark the camera: the uniform buffer keeps the old matrix.
    let frame = context.render(project);
    assert!(frame.syncs.is_empty());
    assert_eq!(context.uniform_buf().host_data().m[4], 11);
    // Once the camera is handed out, the new matrix arrives.
    let _ = context.camera_mut();
    let frame = context.render(project);
    assert_eq!(frame.syncs.len(), 1);
    assert_eq!(context.uniform_buf().host_data().m[4], 77);
}
