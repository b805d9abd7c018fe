//! What releasing an owned runtime handle amounts to.

use vstd::prelude::*;

use crate::status::{CudaError, CUDA_ERROR_CUDART_UNLOADING, CUDA_SUCCESS};

verus! {

/// How the destruction of a stream or an event ended.
#[derive(Clone, Copy, Debug, PartialEq, Eq, Structural)]
pub enum Teardown {
    /// The handle was destroyed.
    Destroyed,
    /// The runtime was shutting down at the time; nothing more can be done
    /// and nothing is wrong.
    RuntimeUnloading,
    /// Destruction failed. The runtime's state can no longer be trusted and
    /// the owner must not carry on.
    Fatal(CudaError),
}

/// The outcome that a destruction status stands for.
pub open spec fn teardown_outcome(status: u32) -> Teardown {
    if status == CUDA_SUCCESS {
        Teardown::Destroyed
    } else if status == CUDA_ERROR_CUDART_UNLOADING {
        Teardown::RuntimeUnloading
    } else {
        Teardown::Fatal(CudaError(status))
    }
}

impl Teardown {
    /// Classifies the status returned by destroying a handle.
    pub fn from_status(status: u32) -> (r: Teardown)
        ensures
            r == teardown_outcome(status),
    {
        if status == CUDA_SUCCESS {
            Teardown::Destroyed
        } else if status == CUDA_ERROR_CUDART_UNLOADING {
            Teardown::RuntimeUnloading
        } else {
            Teardown::Fatal(CudaError(status))
        }
    }

    /// Whether the owner must stop: true exactly for a failed destruction.
    pub fn is_fatal(&self) -> (r: bool)
        ensures
            r == (*self is Fatal),
    {
        match self {
            Teardown::Fatal(_) => true,
            _ => false,
        }
    }
}

/// The handle that releasing an owner holding `handle` hands out for
/// destruction: none for the null handle.
pub open spec fn release_of(handle: usize) -> Option<usize> {
    if handle == 0 {
        None
    } else {
        Some(handle)
    }
}

/// The handle that an owner holds once it was released.
pub open spec fn handle_after_release(handle: usize) -> usize {
    0
}

/// Releasing an owner twice in a row hands its handle out for destruction
/// at most once: the second release finds nothing to destroy, and an owner
/// without a handle (the default stream) hands out nothing at all.
pub proof fn lemma_release_at_most_once(handle: usize)
    ensures
        release_of(handle_after_release(handle)) is None,
        release_of(handle) is Some <==> handle != 0,
        release_of(handle) matches Some(h) ==> h == handle,
{
}

} // verus!
