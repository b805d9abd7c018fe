//! Streams: ordered queues of asynchronous work, owned exclusively.

use vstd::prelude::*;

use crate::event::CudaEvent;
use crate::handle::{handle_after_release, release_of};
use crate::status::{lift, outcome, CudaError, CudaResult, CUDA_SUCCESS};

verus! {

/// An owned stream handle, held as the address the runtime gave for it.
/// The address 0 is the default stream, which is never destroyed; a
/// stream whose handle was released holds 0 as well.
#[derive(Debug)]
pub struct CudaStream {
    ptr: usize,
}

impl CudaStream {
    /// The handle this stream holds (0 for the default stream).
    pub closed spec fn handle(&self) -> usize {
        self.ptr
    }

    /// The default stream, which has no handle of its own.
    pub fn default() -> (r: CudaStream)
        ensures
            r.handle() == 0,
    {
        CudaStream { ptr: 0 }
    }

    /// The stream made by a stream-creation call, from its status and the
    /// handle it wrote.
    pub fn create(status: u32, handle: usize) -> (r: CudaResult<CudaStream>)
        ensures
            r matches Ok(s) ==> s.handle() == handle,
            r is Ok <==> status == CUDA_SUCCESS,
            r matches Err(e) ==> e == CudaError(status),
    {
        lift(status, CudaStream { ptr: handle })
    }

    /// The handle to hand to the runtime for work on this stream.
    pub fn as_mut_ptr(&self) -> (r: usize)
        ensures
            r == self.handle(),
    {
        self.ptr
    }

    /// Whether two streams hold the same handle.
    pub fn ptr_eq(&self, other: &CudaStream) -> (r: bool)
        ensures
            r == (self.handle() == other.handle()),
    {
        self.ptr == other.ptr
    }

    /// The result of enqueuing a host callback on this stream.
    pub fn add_callback(&self, status: u32) -> (r: CudaResult<()>)
        ensures
            r == outcome(status, ()),
    {
        lift(status, ())
    }

    /// The result of waiting for all work enqueued on this stream.
    pub fn synchronize(&self, status: u32) -> (r: CudaResult<()>)
        ensures
            r == outcome(status, ()),
    {
        lift(status, ())
    }

    /// The result of making later work on this stream wait for `event`.
    pub fn wait_event(&self, event: &CudaEvent, status: u32) -> (r: CudaResult<()>)
        ensures
            r == outcome(status, ()),
    {
        lift(status, ())
    }

    /// Gives up the handle for destruction. Returns the handle where there
    /// is one to destroy, and leaves the stream without one, so that a
    /// handle is handed out for destruction at most once and the default
    /// stream never.
    pub fn release(&mut self) -> (r: Option<usize>)
        ensures
            r == release_of(old(self).handle()),
            final(self).handle() == handle_after_release(old(self).handle()),
    {
        let ptr = self.ptr;
        self.ptr = 0;
        if ptr == 0 {
            None
        } else {
            Some(ptr)
        }
    }
}

} // verus!
