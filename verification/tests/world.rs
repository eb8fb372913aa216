use voxel_terrain::chunk::generate_chunk_x_y;
use voxel_terrain::managed_buffer::BufferKind;
use voxel_terrain::vertex::IVertex;
use voxel_terrain::world_geometry::{
    ChunkIndex, ChunkTransform, WorldGeometryManager, MAX_CHUNKS, TRANSFORM_STRIDE,
};

fn heights(dim: usize, seed: u32) -> Vec<i32> {
    let mut state = seed;
    let mut h = Vec::new();
    for _ in 0..dim * dim {
        state = state.wrapping_mul(1664525).wrapping_add(1013904223);
        h.push(((state >> 16) % 6) as i32);
    }
    h
}

fn maps(n: usize, dim: usize) -> Vec<Vec<i32>> {
    (0..n).map(|c| heights(dim, c as u32 + 1)).collect()
}

#[test]
fn constants() {
    assert_eq!(TRANSFORM_STRIDE, 256);
    assert_eq!(MAX_CHUNKS as u64 * 256, u32::MAX as u64 - 255);
}

#[test]
fn world_of_one_chunk_is_the_chunk() {
    let hm = vec![heights(4, 9)];
    let w = WorldGeometryManager::new(1, 1, 4, &hm).unwrap();
    let (vertices, indices) = generate_chunk_x_y(4, &hm[0]).report();
    assert_eq!(w.chunk_dim, 4);
    assert_eq!(w.vertex_buf.host_data(), &vertices);
    let wide: Vec<u32> = indices.iter().map(|i| *i as u32).collect();
    assert_eq!(w.index_buf.host_data(), &wide);
    assert_eq!(
        w.chunks,
        vec![ChunkIndex {
            vertex_offset: 0,
            index_offset: 0,
            index_count: indices.len(),
            transform_index: 0
        }]
    );
    assert_eq!(w.transforms_buf.host_data(), &vec![ChunkTransform { translation: [0, 0, 0] }]);
}

#[test]
fn chunks_are_concatenated_row_after_row() {
    let hm = maps(6, 3);
    let w = WorldGeometryManager::new(3, 2, 3, &hm).unwrap();
    assert_eq!(w.chunks.len(), 6);
    let mut vertices: Vec<IVertex> = Vec::new();
    let mut indices: Vec<u32> = Vec::new();
    for (c, map) in hm.iter().enumerate() {
        let (v, i) = generate_chunk_x_y(3, map).report();
        assert_eq!(
            w.chunks[c],
            ChunkIndex {
                vertex_offset: vertices.len(),
                index_offset: indices.len(),
                index_count: i.len(),
                transform_index: c
            }
        );
        let base = vertices.len() as u32;
        indices.extend(i.iter().map(|k| *k as u32 + base));
        vertices.extend(v);
    }
    assert_eq!(w.vertex_buf.host_data(), &vertices);
    assert_eq!(w.index_buf.host_data(), &indices);
    let transforms: Vec<[i32; 3]> =
        w.transforms_buf.host_data().iter().map(|t| t.translation).collect();
    assert_eq!(
        transforms,
        vec![[0, 0, 0], [3, 0, 0], [6, 0, 0], [0, 3, 0], [3, 3, 0], [6, 3, 0]]
    );
}

#[test]
fn every_index_refers_to_a_vertex_of_its_chunk() {
    let hm = maps(12, 5);
    let w = WorldGeometryManager::new(4, 3, 5, &hm).unwrap();
    let vertices = w.vertex_buf.host_data();
    let indices = w.index_buf.host_data();
    for i in indices {
        assert!((*i as usize) < vertices.len());
    }
    let mut covered = 0;
    for (c, chunk) in w.chunks.iter().enumerate() {
        assert_eq!(chunk.transform_index, c);
        assert_eq!(chunk.index_offset, covered);
        covered += chunk.index_count;
        let vertex_end = if c + 1 < w.chunks.len() {
            w.chunks[c + 1].vertex_offset
        } else {
            vertices.len()
        };
        assert_eq!(vertex_end - chunk.vertex_offset, chunk.index_count / 6 * 4);
        let slice = &indices[chunk.index_offset..chunk.index_offset + chunk.index_count];
        for i in slice {
            assert!(chunk.vertex_offset <= *i as usize && (*i as usize) < vertex_end);
        }
        // Without the bias the indices are those of the chunk's own mesh.
        let (_, local) = generate_chunk_x_y(5, &hm[c]).report();
        let unbiased: Vec<u16> =
            slice.iter().map(|i| (*i as usize - chunk.vertex_offset) as u16).collect();
        assert_eq!(unbiased, local);
        // And the vertices of the chunk all lie in the chunk.
        for v in &vertices[chunk.vertex_offset..vertex_end] {
            assert!(0 <= v.b_pos[0] && v.b_pos[0] < 5 && 0 <= v.b_pos[1] && v.b_pos[1] < 5);
        }
    }
    assert_eq!(covered, indices.len());
}

#[test]
fn indices_of_the_world_pass_sixteen_bits() {
    // 3 by 3 chunks of 32 by 32 flat columns: each chunk has
    // 4 * 24 + 120 * 16 + 900 = 2916 quads, the world 26244, so that its
    // last vertices lie beyond index 65535.
    let hm: Vec<Vec<i32>> = (0..9).map(|_| vec![0; 32 * 32]).collect();
    let w = WorldGeometryManager::new(3, 3, 32, &hm).unwrap();
    assert_eq!(w.vertex_buf.len(), 4 * 26244);
    assert_eq!(w.index_buf.len(), 6 * 26244);
    assert_eq!(w.chunks[8].vertex_offset, 4 * 2916 * 8);
    assert_eq!(w.chunks[8].index_offset, 6 * 2916 * 8);
    assert_eq!(w.chunks[8].index_count, 6 * 2916);
    let indices = w.index_buf.host_data();
    assert_eq!(indices[indices.len() - 2], 4 * 26244 - 1);
    assert_eq!(indices[6 * 2916 * 8], 4 * 2916 * 8);
    assert_eq!(
        w.transforms_buf.host_data()[8],
        ChunkTransform { translation: [64, 64, 0] }
    );
}

#[test]
fn buffers_of_a_new_world_are_dirty() {
    let w = WorldGeometryManager::new(2, 1, 2, &maps(2, 2)).unwrap();
    assert!(w.vertex_buf.dirty());
    assert!(w.index_buf.dirty());
    assert!(w.transforms_buf.dirty());
    assert_eq!(w.vertex_buf.kind(), BufferKind::Vertex);
    assert_eq!(w.index_buf.kind(), BufferKind::Index);
    assert_eq!(w.transforms_buf.kind(), BufferKind::Uniform);
    assert_eq!(w.transforms_buf.t_size(), 256);
    assert_eq!(w.vertex_buf.t_size(), 36);
    assert_eq!(w.index_buf.t_size(), 4);
}

#[test]
fn empty_worlds() {
    let none: Vec<Vec<i32>> = Vec::new();
    for (x, y) in [(0, 0), (0, 5), (5, 0)] {
        let w = WorldGeometryManager::new(x, y, 16, &none).unwrap();
        assert!(w.chunks.is_empty());
        assert_eq!(w.vertex_buf.len(), 0);
        assert_eq!(w.index_buf.len(), 0);
        assert_eq!(w.transforms_buf.len(), 0);
    }
    // Chunks without columns.
    let w = WorldGeometryManager::new(2, 2, 0, &vec![Vec::new(); 4]).unwrap();
    assert_eq!(w.chunks.len(), 4);
    assert_eq!(w.vertex_buf.len(), 0);
    assert_eq!(w.transforms_buf.len(), 4);
    assert_eq!(
        w.chunks[3],
        ChunkIndex { vertex_offset: 0, index_offset: 0, index_count: 0, transform_index: 3 }
    );
}

#[test]
fn world_does_not_fit() {
    // Not one height map for each chunk.
    assert!(WorldGeometryManager::new(2, 2, 2, &maps(3, 2)).is_none());
    assert!(WorldGeometryManager::new(2, 2, 2, &maps(5, 2)).is_none());
    assert!(WorldGeometryManager::new(usize::MAX, 2, 2, &maps(1, 2)).is_none());
    // A chunk that does not fit.
    let mut hm = maps(4, 2);
    hm[2] = vec![0; 3];
    assert!(WorldGeometryManager::new(2, 2, 2, &hm).is_none());
    let mut hm = maps(4, 2);
    hm[3] = vec![0, 0, 0, i32::MAX];
    assert!(WorldGeometryManager::new(2, 2, 2, &hm).is_none());
    let mut hm = maps(4, 2);
    hm[0] = vec![0, 0, 20000, 0];
    assert!(WorldGeometryManager::new(2, 2, 2, &hm).is_none());
    // More chunks than a dynamic offset can select.
    let many: Vec<Vec<i32>> = vec![Vec::new(); MAX_CHUNKS + 1];
    assert!(WorldGeometryManager::new(MAX_CHUNKS + 1, 1, 0, &many).is_none());
}

#[test]
fn as_many_chunks_as_a_dynamic_offset_can_select() {
    let many: Vec<Vec<i32>> = vec![Vec::new(); MAX_CHUNKS];
    let w = WorldGeometryManager::new(4095, 4097, 0, &many).unwrap();
    assert_eq!(w.chunks.len(), MAX_CHUNKS);
    assert_eq!(w.chunks[MAX_CHUNKS - 1].transform_index, MAX_CHUNKS - 1);
}
