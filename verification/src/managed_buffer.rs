//! The host side of a buffer that is mirrored on a graphics device.
//!
//! A `ManagedBuffer` owns the host data and knows whether the device copy
//! is out of date. It never talks to the device: when the data has to be
//! written, `enqueue_copy_command` hands out the copy to record.

use vstd::prelude::*;
use crate::vertex::{IVertex, Vertex, IVERTEX_SIZE, VERTEX_SIZE};

verus! {

/// Why a buffer could not be created.
#[derive(Clone, Copy, Debug, PartialEq, Eq)]
pub enum ManagedBufferError {
    /// The vertex data is larger than a device buffer can be.
    VertexBufError,
    /// The index data is larger than a device buffer can be.
    IndexBufError,
    /// The uniform data is larger than a device buffer can be.
    UniformBufError,
}

/// What the device uses a buffer for.
#[derive(Clone, Copy, Debug, PartialEq, Eq)]
pub enum BufferKind {
    Vertex,
    Index,
    Uniform,
}

/// A value that has a fixed size in a device buffer.
pub trait DeviceElement {
    /// Bytes that one value occupies on the device.
    spec fn device_size() -> nat;

    /// Bytes that one value occupies on the device.
    fn t_size() -> (n: usize)
        ensures
            n == Self::device_size(),
    ;
}

impl DeviceElement for u16 {
    open spec fn device_size() -> nat {
        2
    }

    fn t_size() -> (n: usize) {
        2
    }
}

impl DeviceElement for u32 {
    open spec fn device_size() -> nat {
        4
    }

    fn t_size() -> (n: usize) {
        4
    }
}

impl DeviceElement for Vertex {
    open spec fn device_size() -> nat {
        VERTEX_SIZE as nat
    }

    fn t_size() -> (n: usize) {
        VERTEX_SIZE
    }
}

impl DeviceElement for IVertex {
    open spec fn device_size() -> nat {
        IVERTEX_SIZE as nat
    }

    fn t_size() -> (n: usize) {
        IVERTEX_SIZE
    }
}

/// A contiguous container of equally sized elements, owned by the host.
pub trait HostData {
    /// The number of elements.
    spec fn elements(&self) -> nat;

    /// Bytes that one element occupies on the device.
    spec fn element_size() -> nat;

    /// The number of elements.
    fn len(&self) -> (n: usize)
        ensures
            n == self.elements(),
    ;

    /// Bytes that one element occupies on the device.
    fn t_size() -> (n: usize)
        ensures
            n == Self::element_size(),
    ;
}

impl<T: DeviceElement> HostData for Vec<T> {
    open spec fn elements(&self) -> nat {
        self@.len()
    }

    open spec fn element_size() -> nat {
        T::device_size()
    }

    fn len(&self) -> (n: usize) {
        Vec::len(self)
    }

    fn t_size() -> (n: usize) {
        T::t_size()
    }
}

/// A copy from a staging buffer, filled with the whole host data, into the
/// device buffer.
#[derive(Clone, Copy, Debug, PartialEq, Eq)]
pub struct CopyCommand {
    pub source_offset: u64,
    pub destination_offset: u64,
    pub copy_size: u64,
}

/// What a `ManagedBuffer` stands for: the host data, whether the device
/// still has to receive it, and what the device uses it for.
pub struct BufferState<Own> {
    pub dirty: bool,
    pub data: Own,
    pub kind: BufferKind,
}

impl<Own: HostData> BufferState<Own> {
    /// The state of a buffer right after it was created with `data`: the
    /// first frame always uploads.
    pub open spec fn created(kind: BufferKind, data: Own) -> Self {
        BufferState { dirty: true, data, kind }
    }

    /// The state after `new_data` was offered as a replacement: taken, and
    /// the buffer dirty, if it has as many elements as the present data;
    /// else nothing changed.
    pub open spec fn replaced(self, new_data: Own) -> Self {
        if new_data.elements() == self.data.elements() {
            BufferState { dirty: true, data: new_data, kind: self.kind }
        } else {
            self
        }
    }

    /// The state after the copy to the device was handed out.
    pub open spec fn synced(self) -> Self {
        BufferState { dirty: false, data: self.data, kind: self.kind }
    }

    /// The size of the host data in bytes, as the device sees it.
    pub open spec fn byte_len(self) -> nat {
        self.data.elements() * Own::element_size()
    }

    /// The copy that brings the device up to date, if one is due: the whole
    /// data, from the start of the staging buffer to the start of the
    /// device buffer.
    pub open spec fn pending_copy(self) -> Option<CopyCommand> {
        if self.dirty {
            Some(
                CopyCommand {
                    source_offset: 0,
                    destination_offset: 0,
                    copy_size: self.byte_len() as u64,
                },
            )
        } else {
            None
        }
    }
}

/// Host data together with the flag that says whether the device still has
/// to receive it.
pub struct ManagedBuffer<Own: HostData> {
    /// Whether the host data has changed since a copy was last handed out.
    dirty: bool,
    /// The data in host memory.
    host_data: Own,
    /// What the device buffer is used for.
    kind: BufferKind,
}

impl<Own: HostData> View for ManagedBuffer<Own> {
    type V = BufferState<Own>;

    closed spec fn view(&self) -> BufferState<Own> {
        BufferState { dirty: self.dirty, data: self.host_data, kind: self.kind }
    }
}

impl<Own: HostData> ManagedBuffer<Own> {
    /// The data can be addressed on the device.
    pub open spec fn wf(&self) -> bool {
        self@.byte_len() <= u64::MAX
    }

    /// Bytes that one element occupies on the device.
    pub fn t_size(&self) -> (n: usize)
        ensures
            n == Own::element_size(),
    {
        Own::t_size()
    }

    fn with_data(kind: BufferKind, host_data: Own) -> (r: Option<Self>)
        ensures
            r is Some <==> host_data.elements() * Own::element_size() <= u64::MAX,
            r is Some ==> r->0@ == BufferState::created(kind, host_data) && r->0.wf(),
    {
        let n = host_data.len() as u64;
        let size = Own::t_size() as u64;
        match n.checked_mul(size) {
            Some(_) => Some(ManagedBuffer { dirty: true, host_data, kind }),
            None => None,
        }
    }

    /// Create a new vertex buffer with some provided input data. The buffer
    /// starts dirty. Fails only if the data is too large for a device.
    pub fn new_vertex_buf_with_data(host_data: Own) -> (r: Result<Self, ManagedBufferError>)
        ensures
            r is Ok <==> host_data.elements() * Own::element_size() <= u64::MAX,
            r is Ok ==> r->Ok_0@ == BufferState::created(BufferKind::Vertex, host_data)
                && r->Ok_0.wf(),
            r is Err ==> r->Err_0 == ManagedBufferError::VertexBufError,
    {
        match Self::with_data(BufferKind::Vertex, host_data) {
            Some(b) => Ok(b),
            None => Err(ManagedBufferError::VertexBufError),
        }
    }

    /// Create a new index buffer with some provided input data. The buffer
    /// starts dirty. Fails only if the data is too large for a device.
    pub fn new_index_buf_with_data(host_data: Own) -> (r: Result<Self, ManagedBufferError>)
        ensures
            r is Ok <==> host_data.elements() * Own::element_size() <= u64::MAX,
            r is Ok ==> r->Ok_0@ == BufferState::created(BufferKind::Index, host_data)
                && r->Ok_0.wf(),
            r is Err ==> r->Err_0 == ManagedBufferError::IndexBufError,
    {
        match Self::with_data(BufferKind::Index, host_data) {
            Some(b) => Ok(b),
            None => Err(ManagedBufferError::IndexBufError),
        }
    }

    /// Create a new uniform buffer with some provided input data. The buffer
    /// starts dirty. Fails only if the data is too large for a device.
    pub fn new_uniform_buf_with_data(host_data: Own) -> (r: Result<Self, ManagedBufferError>)
        ensures
            r is Ok <==> host_data.elements() * Own::element_size() <= u64::MAX,
            r is Ok ==> r->Ok_0@ == BufferState::created(BufferKind::Uniform, host_data)
                && r->Ok_0.wf(),
            r is Err ==> r->Err_0 == ManagedBufferError::UniformBufError,
    {
        match Self::with_data(BufferKind::Uniform, host_data) {
            Some(b) => Ok(b),
            None => Err(ManagedBufferError::UniformBufError),
        }
    }

    /// Replaces the host data. Succeeds only if `new_data` has as many
    /// elements as the present data: the buffer is then dirty and the old
    /// data is returned. Otherwise nothing changes and `None` is returned.
    pub fn replace_data(&mut self, new_data: Own) -> (r: Option<Own>)
        requires
            old(self).wf(),
        ensures
            final(self).wf(),
            final(self)@ == old(self)@.replaced(new_data),
            new_data.elements() == old(self)@.data.elements() ==> r == Some(old(self)@.data),
            new_data.elements() != old(self)@.data.elements() ==> r is None,
    {
        if new_data.len() == self.host_data.len() {
            let mut displaced = new_data;
            core::mem::swap(&mut self.host_data, &mut displaced);
            self.dirty = true;
            Some(displaced)
        } else {
            None
        }
    }

    /// The host data.
    pub fn host_data(&self) -> (d: &Own)
        ensures
            *d == self@.data,
    {
        &self.host_data
    }

    /// What the device buffer is used for.
    pub fn kind(&self) -> (k: BufferKind)
        ensures
            k == self@.kind,
    {
        self.kind
    }

    /// Returns the length of the host data. This is measured in elements,
    /// not in bytes.
    pub fn len(&self) -> (n: usize)
        ensures
            n == self@.data.elements(),
    {
        self.host_data.len()
    }

    /// Returns true if the buffer is dirty and needs to be flushed to the
    /// device.
    pub fn dirty(&self) -> (d: bool)
        ensures
            d == self@.dirty,
    {
        self.dirty
    }

    /// Hands out the copy that brings the device up to date, and resets the
    /// dirty flag. Hands out nothing unless the buffer is dirty, so it can
    /// be called once per frame.
    ///
    /// The flag is reset at once: the caller has to record the copy and to
    /// submit it, or the device stays out of date unnoticed.
    pub fn enqueue_copy_command(&mut self) -> (r: Option<CopyCommand>)
        requires
            old(self).wf(),
        ensures
            final(self).wf(),
            final(self)@ == old(self)@.synced(),
            r == old(self)@.pending_copy(),
    {
        if !self.dirty {
            return None;
        }
        let n = self.host_data.len() as u64;
        let size = Own::t_size() as u64;
        self.dirty = false;
        Some(CopyCommand { source_offset: 0, destination_offset: 0, copy_size: n * size })
    }
}

/// The dirty flag makes a round trip. A new buffer is dirty. Once its copy
/// is handed out, a buffer is clean, keeps its data, and has no further
/// copy pending. An offer of data of the same length is taken and makes
/// the buffer dirty. An offer of another length changes nothing, neither
/// the data nor the flag. Whatever is offered, the buffer keeps its length.
pub proof fn lemma_dirty_round_trip<Own: HostData>(
    kind: BufferKind,
    data: Own,
    buffer: BufferState<Own>,
    offer: Own,
)
    ensures
        BufferState::created(kind, data).dirty,
        BufferState::created(kind, data).data == data,
        BufferState::created(kind, data).pending_copy() is Some,
        !buffer.synced().dirty,
        buffer.synced().data == buffer.data,
        buffer.synced().pending_copy() is None,
        buffer.synced().synced() == buffer.synced(),
        offer.elements() == buffer.data.elements() ==> buffer.replaced(offer).dirty
            && buffer.replaced(offer).data == offer,
        offer.elements() != buffer.data.elements() ==> buffer.replaced(offer) == buffer,
        buffer.replaced(offer).data.elements() == buffer.data.elements(),
        buffer.replaced(offer).byte_len() == buffer.byte_len(),
        buffer.replaced(offer).kind == buffer.kind,
{
}

} // verus!
