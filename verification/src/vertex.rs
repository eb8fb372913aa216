//! Plain vertex data, as it is later laid out for the graphics device.
//!
//! Verified code has no floating-point arithmetic, so every real-valued
//! component is carried as the bit pattern of an IEEE-754 binary32 number.
//! The patterns are only ever copied, never interpreted.

use vstd::prelude::*;

verus! {

/// Bit pattern of the binary32 number zero.
pub const ZERO_BITS: u32 = 0;

/// Bit pattern of the binary32 number one.
pub const ONE_BITS: u32 = 0x3f80_0000;

/// Bytes that one `Vertex` occupies in a device buffer.
pub const VERTEX_SIZE: usize = 36;

/// Bytes that one `IVertex` occupies in a device buffer.
pub const IVERTEX_SIZE: usize = 36;

/// A position on the integer voxel grid.
#[derive(Clone, Copy, Debug, PartialEq, Eq)]
pub struct Point3 {
    pub x: i32,
    pub y: i32,
    pub z: i32,
}

impl Point3 {
    pub fn new(x: i32, y: i32, z: i32) -> (p: Point3)
        ensures
            p == (Point3 { x, y, z }),
    {
        Point3 { x, y, z }
    }
}

/// A vertex of a freely placed quad: homogeneous position, normal and
/// texture coordinate, all as binary32 bit patterns.
#[derive(Clone, Copy, Debug, PartialEq, Eq)]
pub struct Vertex {
    pub pos: [u32; 4],
    pub normal: [u32; 3],
    pub tc: [u32; 2],
}

impl Vertex {
    /// The vertex at `pos` with the given normal and texture coordinate. The
    /// fourth position component is one, so that the position is a point.
    pub open spec fn spec_new(pos: [u32; 3], normal: [u32; 3], tc: [u32; 2]) -> Vertex {
        Vertex { pos: [pos[0], pos[1], pos[2], ONE_BITS], normal, tc }
    }

    #[verifier::when_used_as_spec(spec_new)]
    pub fn new(pos: [u32; 3], normal: [u32; 3], tc: [u32; 2]) -> (v: Vertex)
        ensures
            v == Vertex::spec_new(pos, normal, tc),
    {
        Vertex { pos: [pos[0], pos[1], pos[2], ONE_BITS], normal, tc }
    }
}

/// A vertex on the voxel grid.
///
/// `v_pos` is the corner itself, `b_pos` the anchor of the unit cuboid that
/// the corner belongs to, `tc` the texture coordinate as two binary32 bit
/// patterns, and `data[0]` the bit of the face that the vertex lies on.
#[derive(Clone, Copy, Debug, PartialEq, Eq)]
pub struct IVertex {
    pub v_pos: [i32; 3],
    pub b_pos: [i32; 3],
    pub tc: [u32; 2],
    pub data: [u8; 4],
}

impl IVertex {
    pub open spec fn spec_new(v_pos: [i32; 3], b_pos: Point3, tc: [u32; 2], face: u8) -> IVertex {
        IVertex { v_pos, b_pos: [b_pos.x, b_pos.y, b_pos.z], tc, data: [face, 0u8, 0u8, 0u8] }
    }

    #[verifier::when_used_as_spec(spec_new)]
    pub fn new(v_pos: [i32; 3], b_pos: Point3, tc: [u32; 2], face: u8) -> (v: IVertex)
        ensures
            v == IVertex::spec_new(v_pos, b_pos, tc, face),
    {
        IVertex { v_pos, b_pos: [b_pos.x, b_pos.y, b_pos.z], tc, data: [face, 0, 0, 0] }
    }
}

} // verus!
