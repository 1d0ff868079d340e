//! Resource-handle lifecycle for polymorphic buffers: a capability interface
//! the boundary dispatches through, a host-memory implementation, and the
//! boundary calls themselves.

use vstd::prelude::*;
use vstd::slice::slice_index_get;
use crate::interop::{InteropResult, ResultError, ResultErrorKind};

verus! {

/// What a successful write lays down: `contents` with `data` overwritten
/// starting at byte offset `start`.
pub open spec fn spec_overwrite(contents: Seq<u8>, data: Seq<u8>, start: int) -> Seq<u8>
    recommends
        0 <= start,
        start + data.len() <= contents.len(),
{
    contents.subrange(0, start) + data + contents.subrange(
        start + data.len(),
        contents.len() as int,
    )
}

/// A polymorphic native resource holding bytes. The boundary reaches every
/// concrete backend only through this interface; its capacity is the length
/// of the bytes it holds.
pub trait GraphicsBuffer: Sized {
    /// The bytes the native resource currently holds; its length is the
    /// resource's capacity.
    spec fn contents(&self) -> Seq<u8>;

    /// Whether transfers on this resource can fail at the driver level.
    spec fn can_fail(&self) -> bool;

    /// Bounds-checked transfer from the resource at byte offset `start` into
    /// host memory. Fails with `ResourceBounds` exactly when the requested
    /// range exceeds the resource's capacity.
    fn host_read(&self, destination: &mut Vec<u8>, start: u64) -> (r: InteropResult<()>)
        ensures
            final(destination)@.len() == old(destination)@.len(),
            start + old(destination)@.len() > self.contents().len() ==> {
                &&& !r.spec_is_ok()
                &&& final(destination)@ == old(destination)@
            },
            !r.spec_is_ok() ==> (r.spec_error().spec_kind() == ResultErrorKind::ResourceBounds
                <==> start + old(destination)@.len() > self.contents().len()),
            r.spec_is_ok() ==> {
                &&& start + old(destination)@.len() <= self.contents().len()
                &&& final(destination)@ == self.contents().subrange(
                    start as int,
                    start + old(destination)@.len(),
                )
            },
            !self.can_fail() && start + old(destination)@.len() <= self.contents().len()
                ==> r.spec_is_ok(),
    ;

    /// Bounds-checked transfer from host memory into the resource at byte
    /// offset `start`. Fails with `ResourceBounds` exactly when the requested
    /// range exceeds the resource's capacity; on failure the resource is
    /// unchanged.
    fn host_write(&mut self, data: &[u8], start: u64) -> (r: InteropResult<()>)
        ensures
            final(self).contents().len() == old(self).contents().len(),
            final(self).can_fail() == old(self).can_fail(),
            start + data@.len() > old(self).contents().len() ==> {
                &&& !r.spec_is_ok()
                &&& final(self).contents() == old(self).contents()
            },
            !r.spec_is_ok() ==> (r.spec_error().spec_kind() == ResultErrorKind::ResourceBounds
                <==> start + data@.len() > old(self).contents().len()),
            !r.spec_is_ok() ==> final(self).contents() == old(self).contents(),
            r.spec_is_ok() ==> {
                &&& start + data@.len() <= old(self).contents().len()
                &&& final(self).contents() == spec_overwrite(
                    old(self).contents(),
                    data@,
                    start as int,
                )
            },
            !old(self).can_fail() && start + data@.len() <= old(self).contents().len()
                ==> r.spec_is_ok(),
    ;
}

/// A buffer backed by host memory; transfers on it never fail at the driver
/// level.
pub struct MemoryBuffer {
    pub data: Vec<u8>,
}

impl MemoryBuffer {
    /// A buffer of `capacity` zeroed bytes.
    pub fn new(capacity: usize) -> (b: MemoryBuffer)
        ensures
            b.contents() == Seq::<u8>::new(capacity as nat, |i: int| 0u8),
    {
        let mut data: Vec<u8> = Vec::new();
        while data.len() < capacity
            invariant
                data@.len() <= capacity,
                forall|i: int| 0 <= i < data@.len() ==> data@[i] == 0u8,
            decreases capacity - data@.len(),
        {
            data.push(0);
        }
        proof {
            assert(data@ =~= Seq::<u8>::new(capacity as nat, |i: int| 0u8));
        }
        MemoryBuffer { data }
    }
}

impl GraphicsBuffer for MemoryBuffer {
    open spec fn contents(&self) -> Seq<u8> {
        self.data@
    }

    open spec fn can_fail(&self) -> bool {
        false
    }

    fn host_read(&self, destination: &mut Vec<u8>, start: u64) -> (r: InteropResult<()>)
    {
        let len: usize = destination.len();
        let capacity: u64 = self.data.len() as u64;
        if start > capacity || len as u64 > capacity - start {
            return InteropResult::with_err(
                ResultError::new(
                    ResultErrorKind::ResourceBounds,
                    "read range exceeds buffer capacity".to_owned(),
                ),
            );
        }

        let offset: usize = start as usize;
        let total: usize = self.data.len();
        let mut i: usize = 0;
        while i < len
            invariant
                i <= len,
                len == old(destination)@.len(),
                destination@.len() == len,
                self.data@.len() == total,
                offset + len <= self.data@.len(),
                forall|j: int| 0 <= j < i ==> destination@[j] == self.data@[offset + j],
            decreases len - i,
        {
            let b: u8 = self.data[offset + i];
            destination[i] = b;
            i = i + 1;
        }
        proof {
            assert(destination@ =~= self.data@.subrange(start as int, start + len as int));
        }
        InteropResult::with_ok(())
    }

    fn host_write(&mut self, data: &[u8], start: u64) -> (r: InteropResult<()>)
    {
        let len: usize = data.len();
        let capacity: u64 = self.data.len() as u64;
        if start > capacity || len as u64 > capacity - start {
            return InteropResult::with_err(
                ResultError::new(
                    ResultErrorKind::ResourceBounds,
                    "write range exceeds buffer capacity".to_owned(),
                ),
            );
        }

        let offset: usize = start as usize;
        let total: usize = self.data.len();
        let mut i: usize = 0;
        while i < len
            invariant
                i <= len,
                self.data@.len() == old(self).data@.len(),
                self.data@.len() == total,
                offset + len <= self.data@.len(),
                len == data@.len(),
                forall|j: int| 0 <= j < offset ==> self.data@[j] == old(self).data@[j],
                forall|j: int| 0 <= j < i ==> self.data@[offset + j] == data@[j],
                forall|j: int|
                    offset + len <= j < self.data@.len() ==> self.data@[j] == old(self).data@[j],
            decreases len - i,
        {
            let b: u8 = *slice_index_get(data, i);
            self.data[offset + i] = b;
            i = i + 1;
        }
        proof {
            assert(self.data@ =~= spec_overwrite(old(self).data@, data@, start as int));
        }
        InteropResult::with_ok(())
    }
}

/// Boundary call: consumes the handle and releases the underlying native
/// resource. Ownership makes a second destruction of the same handle
/// unwritable; the resource is released exactly once per construction.
pub fn graphics_buffers_buffer_interop_destroy<B: GraphicsBuffer>(_handle: Box<B>) {
}

/// Boundary call: bounds-checked transfer from the resource into host memory.
pub fn graphics_buffers_buffer_interop_host_read<B: GraphicsBuffer>(
    buffer: &B,
    destination_buffer: &mut Vec<u8>,
    start: u64,
) -> (r: InteropResult<()>)
    ensures
        final(destination_buffer)@.len() == old(destination_buffer)@.len(),
        start + old(destination_buffer)@.len() > buffer.contents().len() ==> {
            &&& !r.spec_is_ok()
            &&& final(destination_buffer)@ == old(destination_buffer)@
        },
        !r.spec_is_ok() ==> (r.spec_error().spec_kind() == ResultErrorKind::ResourceBounds
            <==> start + old(destination_buffer)@.len() > buffer.contents().len()),
        r.spec_is_ok() ==> {
            &&& start + old(destination_buffer)@.len() <= buffer.contents().len()
            &&& final(destination_buffer)@ == buffer.contents().subrange(
                start as int,
                start + old(destination_buffer)@.len(),
            )
        },
        !buffer.can_fail() && start + old(destination_buffer)@.len() <= buffer.contents().len()
            ==> r.spec_is_ok(),
{
    buffer.host_read(destination_buffer, start)
}

/// Boundary call: bounds-checked transfer from host memory into the resource.
pub fn graphics_buffers_buffer_interop_host_write<B: GraphicsBuffer>(
    buffer: &mut B,
    data: &[u8],
    start: u64,
) -> (r: InteropResult<()>)
    ensures
        final(buffer).contents().len() == old(buffer).contents().len(),
        !r.spec_is_ok() ==> (r.spec_error().spec_kind() == ResultErrorKind::ResourceBounds
            <==> start + data@.len() > old(buffer).contents().len()),
        !r.spec_is_ok() ==> final(buffer).contents() == old(buffer).contents(),
        r.spec_is_ok() ==> {
            &&& start + data@.len() <= old(buffer).contents().len()
            &&& final(buffer).contents() == spec_overwrite(
                old(buffer).contents(),
                data@,
                start as int,
            )
        },
        !old(buffer).can_fail() && start + data@.len() <= old(buffer).contents().len()
            ==> r.spec_is_ok(),
{
    buffer.host_write(data, start)
}

/// Law: the bytes read back from a range equal the bytes most recently
/// written there. A read of `data.len()` bytes at `start`, after a
/// successful write of `data` at `start`, returns exactly `data`.
pub proof fn lemma_read_after_write(contents: Seq<u8>, data: Seq<u8>, start: int)
    requires
        0 <= start,
        start + data.len() <= contents.len(),
    ensures
        spec_overwrite(contents, data, start).subrange(start, start + data.len()) == data,
{
    assert(spec_overwrite(contents, data, start).subrange(start, start + data.len()) =~= data);
}

} // verus!
