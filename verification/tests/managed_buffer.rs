use voxel_terrain::managed_buffer::{
    BufferKind, CopyCommand, DeviceElement, HostData, ManagedBuffer, ManagedBufferError,
};
use voxel_terrain::vertex::{IVertex, Point3, Vertex};

fn vertex(k: i32) -> IVertex {
    IVertex::new([k, k, k], Point3::new(k, k, k), [0, 0], 32)
}

#[test]
fn element_sizes() {
    assert_eq!(<u16 as DeviceElement>::t_size(), 2);
    assert_eq!(<u32 as DeviceElement>::t_size(), 4);
    assert_eq!(<IVertex as DeviceElement>::t_size(), 36);
    assert_eq!(<Vertex as DeviceElement>::t_size(), 36);
    assert_eq!(<Vec<IVertex> as HostData>::t_size(), 36);
    assert_eq!(<Vec<u16> as HostData>::t_size(), 2);
    assert_eq!(HostData::len(&vec![1u16, 2, 3]), 3);
}

#[test]
fn new_buffer_is_dirty() {
    let b = ManagedBuffer::new_vertex_buf_with_data(vec![vertex(1), vertex(2)]).unwrap();
    assert!(b.dirty());
    assert_eq!(b.len(), 2);
    assert_eq!(b.t_size(), 36);
    assert_eq!(b.kind(), BufferKind::Vertex);
    assert_eq!(b.host_data(), &vec![vertex(1), vertex(2)]);
    let b = ManagedBuffer::new_index_buf_with_data(vec![0u16, 1, 2]).unwrap();
    assert!(b.dirty());
    assert_eq!(b.kind(), BufferKind::Index);
    assert_eq!(b.t_size(), 2);
    let b = ManagedBuffer::new_uniform_buf_with_data(vec![7u32]).unwrap();
    assert!(b.dirty());
    assert_eq!(b.kind(), BufferKind::Uniform);
    assert_eq!(b.t_size(), 4);
}

#[test]
fn dirty_flag_round_trip() {
    let mut b = ManagedBuffer::new_index_buf_with_data(vec![0u16, 1, 2]).unwrap();
    assert!(b.dirty());
    let copy = b.enqueue_copy_command();
    assert_eq!(copy, Some(CopyCommand { source_offset: 0, destination_offset: 0, copy_size: 6 }));
    assert!(!b.dirty());
    assert_eq!(b.host_data(), &vec![0u16, 1, 2]);
    // Nothing more is due.
    assert_eq!(b.enqueue_copy_command(), None);
    assert!(!b.dirty());
    // Same length: taken.
    assert_eq!(b.replace_data(vec![5, 6, 7]), Some(vec![0, 1, 2]));
    assert!(b.dirty());
    assert_eq!(b.host_data(), &vec![5u16, 6, 7]);
    assert_eq!(b.len(), 3);
    let copy = b.enqueue_copy_command();
    assert_eq!(copy, Some(CopyCommand { source_offset: 0, destination_offset: 0, copy_size: 6 }));
    assert!(!b.dirty());
}

#[test]
fn replace_with_another_length_changes_nothing() {
    let mut b = ManagedBuffer::new_index_buf_with_data(vec![0u16, 1, 2]).unwrap();
    assert_eq!(b.replace_data(vec![1, 2]), None);
    assert!(b.dirty());
    assert_eq!(b.host_data(), &vec![0u16, 1, 2]);
    let _ = b.enqueue_copy_command();
    assert_eq!(b.replace_data(vec![1, 2, 3, 4]), None);
    assert_eq!(b.replace_data(Vec::new()), None);
    assert!(!b.dirty());
    assert_eq!(b.host_data(), &vec![0u16, 1, 2]);
    assert_eq!(b.len(), 3);
    assert_eq!(b.enqueue_copy_command(), None);
}

#[test]
fn replace_on_a_dirty_buffer_keeps_it_dirty() {
    let mut b = ManagedBuffer::new_uniform_buf_with_data(vec![1u32, 2]).unwrap();
    assert_eq!(b.replace_data(vec![3, 4]), Some(vec![1, 2]));
    assert!(b.dirty());
    assert_eq!(
        b.enqueue_copy_command(),
        Some(CopyCommand { source_offset: 0, destination_offset: 0, copy_size: 8 })
    );
}

#[test]
fn empty_buffer() {
    let mut b = ManagedBuffer::new_vertex_buf_with_data(Vec::<IVertex>::new()).unwrap();
    assert!(b.dirty());
    assert_eq!(b.len(), 0);
    assert_eq!(
        b.enqueue_copy_command(),
        Some(CopyCommand { source_offset: 0, destination_offset: 0, copy_size: 0 })
    );
    assert_eq!(b.replace_data(Vec::new()), Some(Vec::new()));
    assert!(b.dirty());
}

#[test]
fn copy_size_is_length_times_element_size() {
    let mut b = ManagedBuffer::new_vertex_buf_with_data(vec![vertex(0); 1000]).unwrap();
    assert_eq!(b.enqueue_copy_command().map(|c| c.copy_size), Some(36000));
    let mut b = ManagedBuffer::new_index_buf_with_data(vec![0u32; 1000]).unwrap();
    assert_eq!(b.enqueue_copy_command().map(|c| c.copy_size), Some(4000));
}

#[test]
fn creation_succeeds_on_data_that_a_host_can_hold() {
    let r: Result<ManagedBuffer<Vec<u16>>, ManagedBufferError> =
        ManagedBuffer::new_index_buf_with_data(vec![0u16; 1 << 20]);
    assert!(r.is_ok());
    assert_ne!(ManagedBufferError::VertexBufError, ManagedBufferError::IndexBufError);
    assert_ne!(ManagedBufferError::IndexBufError, ManagedBufferError::UniformBufError);
}
