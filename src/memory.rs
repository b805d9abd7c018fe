//! Device and pinned host memory: the results of allocation, release and
//! fill calls, and the arguments of the transfers.
//!
//! Buffers are owned manually, as the runtime's allocator owns them: an
//! allocation yields an address, which a separate call releases. Addresses
//! are held as plain `usize` values.

use vstd::prelude::*;
use vstd::layout::size_of;

use crate::status::{lift, outcome, CudaResult};

verus! {

/// The direction of a transfer.
#[derive(Clone, Copy, Debug, PartialEq, Eq, Structural)]
pub enum CudaMemcpyKind {
    HostToHost,
    HostToDevice,
    DeviceToHost,
    DeviceToDevice,
    /// The runtime infers the direction from the two addresses.
    Unified,
}

impl CudaMemcpyKind {
    /// The runtime's code for this direction.
    pub open spec fn raw(self) -> u32 {
        match self {
            CudaMemcpyKind::HostToHost => 0,
            CudaMemcpyKind::HostToDevice => 1,
            CudaMemcpyKind::DeviceToHost => 2,
            CudaMemcpyKind::DeviceToDevice => 3,
            CudaMemcpyKind::Unified => 4,
        }
    }

    /// The runtime's code for this direction.
    pub fn to_raw(&self) -> (r: u32)
        ensures
            r == self.raw(),
    {
        match *self {
            CudaMemcpyKind::HostToHost => 0,
            CudaMemcpyKind::HostToDevice => 1,
            CudaMemcpyKind::DeviceToHost => 2,
            CudaMemcpyKind::DeviceToDevice => 3,
            CudaMemcpyKind::Unified => 4,
        }
    }
}

/// The arguments of a flat transfer, other than the two addresses.
#[derive(Clone, Copy, Debug, PartialEq, Eq, Structural)]
pub struct FlatCopy {
    /// Number of bytes to copy.
    pub bytes: usize,
    /// The runtime's code for the direction.
    pub kind: u32,
}

/// The arguments of a pitched (2D) transfer, other than the two addresses.
#[derive(Clone, Copy, Debug, PartialEq, Eq, Structural)]
pub struct PitchedCopy {
    /// Bytes from the start of one destination row to the next.
    pub dst_pitch: usize,
    /// Bytes from the start of one source row to the next.
    pub src_pitch: usize,
    /// Bytes copied from each row.
    pub width_bytes: usize,
    /// Number of rows.
    pub height: usize,
    /// The runtime's code for the direction.
    pub kind: u32,
}

/// Whether `len` elements of `T` span a byte count that fits in `usize`.
pub open spec fn fits_bytes<T>(len: usize) -> bool {
    len * size_of::<T>() <= usize::MAX
}

/// Whether a row of `width` elements of `T` fits within both pitches.
pub open spec fn row_fits<T>(width: usize, dst_pitch: usize, src_pitch: usize) -> bool {
    &&& width * size_of::<T>() <= dst_pitch
    &&& width * size_of::<T>() <= src_pitch
}

/// The byte count of `len` elements of `T`, or `None` where it does not
/// fit in `usize`.
pub fn byte_len<T>(len: usize) -> (r: Option<usize>)
    ensures
        r is Some <==> fits_bytes::<T>(len),
        r matches Some(b) ==> b == len * size_of::<T>(),
{
    let size = core::mem::size_of::<T>();
    len.checked_mul(size)
}

/// Whether a row of `width` elements of `T` fits within both pitches: a
/// pitch shorter than the row would make the rows overlap.
pub fn row_fits_pitches<T>(width: usize, dst_pitch: usize, src_pitch: usize) -> (r: bool)
    ensures
        r == row_fits::<T>(width, dst_pitch, src_pitch),
{
    match byte_len::<T>(width) {
        Some(width_bytes) => width_bytes <= dst_pitch && width_bytes <= src_pitch,
        None => false,
    }
}

/// The address of a device allocation, from the status of the allocation
/// call and the address it wrote.
pub fn cuda_alloc_device(status: u32, addr: usize) -> (r: CudaResult<usize>)
    ensures
        r == outcome(status, addr),
{
    lift(status, addr)
}

/// The address of a pinned host allocation, from the status of the
/// allocation call and the address it wrote.
pub fn cuda_alloc_host(status: u32, addr: usize) -> (r: CudaResult<usize>)
    ensures
        r == outcome(status, addr),
{
    lift(status, addr)
}

/// The result of releasing a device allocation.
pub fn cuda_free_device(status: u32) -> (r: CudaResult<()>)
    ensures
        r == outcome(status, ()),
{
    lift(status, ())
}

/// The result of releasing a pinned host allocation.
pub fn cuda_free_host(status: u32) -> (r: CudaResult<()>)
    ensures
        r == outcome(status, ()),
{
    lift(status, ())
}

/// The result of a blocking fill.
pub fn cuda_memset(status: u32) -> (r: CudaResult<()>)
    ensures
        r == outcome(status, ()),
{
    lift(status, ())
}

/// The result of enqueuing a fill on a stream.
pub fn cuda_memset_async(status: u32) -> (r: CudaResult<()>)
    ensures
        r == outcome(status, ()),
{
    lift(status, ())
}

/// The arguments of a blocking flat copy of `len` elements of `T`, or
/// `None` where the byte count does not fit in `usize`.
pub fn cuda_memcpy<T>(len: usize, kind: CudaMemcpyKind) -> (r: Option<FlatCopy>)
    ensures
        r is Some <==> fits_bytes::<T>(len),
        r matches Some(c) ==> c.bytes == len * size_of::<T>() && c.kind == kind.raw(),
{
    flat_copy::<T>(len, kind)
}

/// The arguments of a flat copy of `len` elements of `T` enqueued on a
/// stream, or `None` where the byte count does not fit in `usize`.
pub fn cuda_memcpy_async<T>(len: usize, kind: CudaMemcpyKind) -> (r: Option<FlatCopy>)
    ensures
        r is Some <==> fits_bytes::<T>(len),
        r matches Some(c) ==> c.bytes == len * size_of::<T>() && c.kind == kind.raw(),
{
    flat_copy::<T>(len, kind)
}

fn flat_copy<T>(len: usize, kind: CudaMemcpyKind) -> (r: Option<FlatCopy>)
    ensures
        r is Some <==> fits_bytes::<T>(len),
        r matches Some(c) ==> c.bytes == len * size_of::<T>() && c.kind == kind.raw(),
{
    match byte_len::<T>(len) {
        Some(bytes) => Some(FlatCopy { bytes, kind: kind.to_raw() }),
        None => None,
    }
}

/// The arguments of a pitched copy of `height` rows of `width` elements of
/// `T`, enqueued on a stream. The row must fit within both pitches: a
/// shorter pitch would make rows overlap and corrupt their neighbours.
pub fn cuda_memcpy_2d_async<T>(
    dst_pitch: usize,
    src_pitch: usize,
    width: usize,
    height: usize,
    kind: CudaMemcpyKind,
) -> (r: PitchedCopy)
    requires
        row_fits::<T>(width, dst_pitch, src_pitch),
    ensures
        r.width_bytes == width * size_of::<T>(),
        r.dst_pitch == dst_pitch,
        r.src_pitch == src_pitch,
        r.height == height,
        r.kind == kind.raw(),
{
    let size = core::mem::size_of::<T>();
    PitchedCopy { dst_pitch, src_pitch, width_bytes: width * size, height, kind: kind.to_raw() }
}

/// The byte count of a copy of `len` elements of `T` between two devices,
/// enqueued on a stream, or `None` where it does not fit in `usize`.
pub fn cuda_memcpy_peer_async<T>(len: usize) -> (r: Option<usize>)
    ensures
        r is Some <==> fits_bytes::<T>(len),
        r matches Some(b) ==> b == len * size_of::<T>(),
{
    byte_len::<T>(len)
}

} // verus!
