//! Events: completion markers recorded onto streams, owned exclusively.

use vstd::prelude::*;

use crate::handle::{handle_after_release, release_of};
use crate::status::{lift, outcome, CudaError, CudaResult, CUDA_ERROR_NOT_READY, CUDA_SUCCESS};
use crate::stream::CudaStream;

verus! {

/// Creation flag: waiting on the event blocks the thread in the operating
/// system instead of spinning.
pub const EVENT_BLOCKING_SYNC: u32 = 1;

/// Creation flag: the event records no timing, for the lowest-latency
/// completion checks.
pub const EVENT_DISABLE_TIMING: u32 = 2;

/// Whether the work before an event has completed.
#[derive(Clone, Copy, Debug, PartialEq, Eq, Structural)]
pub enum CudaEventStatus {
    Complete,
    NotReady,
}

/// The result of polling an event, from the runtime's status. "Not ready"
/// is the expected answer while the event is pending, not a failure.
pub open spec fn query_outcome(status: u32) -> CudaResult<CudaEventStatus> {
    if status == CUDA_SUCCESS {
        Ok(CudaEventStatus::Complete)
    } else if status == CUDA_ERROR_NOT_READY {
        Ok(CudaEventStatus::NotReady)
    } else {
        Err(CudaError(status))
    }
}

/// An owned event handle, held as the address the runtime gave for it.
/// A released event holds 0.
#[derive(Debug)]
pub struct CudaEvent {
    ptr: usize,
}

impl CudaEvent {
    /// The handle this event holds.
    pub closed spec fn handle(&self) -> usize {
        self.ptr
    }

    /// The event made by an event-creation call with the default flags,
    /// from its status and the handle it wrote.
    pub fn create(status: u32, handle: usize) -> (r: CudaResult<CudaEvent>)
        ensures
            r matches Ok(e) ==> e.handle() == handle,
            r is Ok <==> status == CUDA_SUCCESS,
            r matches Err(e) ==> e == CudaError(status),
    {
        lift(status, CudaEvent { ptr: handle })
    }

    /// The event made by an event-creation call with explicit flags, from
    /// its status and the handle it wrote.
    pub fn create_with_flags(status: u32, handle: usize) -> (r: CudaResult<CudaEvent>)
        ensures
            r matches Ok(e) ==> e.handle() == handle,
            r is Ok <==> status == CUDA_SUCCESS,
            r matches Err(e) ==> e == CudaError(status),
    {
        lift(status, CudaEvent { ptr: handle })
    }

    /// The handle to hand to the runtime for this event.
    pub fn as_mut_ptr(&self) -> (r: usize)
        ensures
            r == self.handle(),
    {
        self.ptr
    }

    /// Whether two events hold the same handle.
    pub fn ptr_eq(&self, other: &CudaEvent) -> (r: bool)
        ensures
            r == (self.handle() == other.handle()),
    {
        self.ptr == other.ptr
    }

    /// Whether the event has completed, from the status of polling it.
    pub fn query(&self, status: u32) -> (r: CudaResult<CudaEventStatus>)
        ensures
            r == query_outcome(status),
    {
        if status == CUDA_SUCCESS {
            Ok(CudaEventStatus::Complete)
        } else if status == CUDA_ERROR_NOT_READY {
            Ok(CudaEventStatus::NotReady)
        } else {
            Err(CudaError(status))
        }
    }

    /// The result of recording this event onto `stream`.
    pub fn record(&self, stream: &CudaStream, status: u32) -> (r: CudaResult<()>)
        ensures
            r == outcome(status, ()),
    {
        lift(status, ())
    }

    /// The result of waiting for this event to complete.
    pub fn synchronize(&self, status: u32) -> (r: CudaResult<()>)
        ensures
            r == outcome(status, ()),
    {
        lift(status, ())
    }

    /// Gives up the handle for destruction. Returns the handle where there
    /// is one to destroy, and leaves the event without one, so that a
    /// handle is handed out for destruction at most once.
    pub fn release(&mut self) -> (r: Option<usize>)
        ensures
            r == release_of(old(self).handle()),
            final(self).handle() == handle_after_release(old(self).handle()),
    {
        let ptr = self.ptr;
        self.ptr = 0;
        if ptr == 0 {
            None
        } else {
            Some(ptr)
        }
    }
}

} // verus!
