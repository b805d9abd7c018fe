//! The device registry: how the runtime's answers about devices, the
//! current device and peer access are interpreted.
//!
//! Each operation takes the status (and, where there is one, the value)
//! that the corresponding runtime call returned, and yields the typed
//! result of the operation.

use vstd::prelude::*;

use crate::status::{
    lift, outcome, CudaError, CudaResult, CUDA_ERROR_PEER_ACCESS_ALREADY_ENABLED,
    CUDA_ERROR_PEER_ACCESS_NOT_ENABLED, CUDA_SUCCESS,
};

verus! {

/// Operations on the devices and on the process-wide current device.
pub struct CudaDevice;

/// The result of enabling peer access, from the runtime's status: whether
/// access was already enabled before the call.
pub open spec fn enable_peer_outcome(status: u32) -> CudaResult<bool> {
    if status == CUDA_SUCCESS {
        Ok(false)
    } else if status == CUDA_ERROR_PEER_ACCESS_ALREADY_ENABLED {
        Ok(true)
    } else {
        Err(CudaError(status))
    }
}

/// The result of disabling peer access, from the runtime's status: whether
/// access was enabled before the call.
pub open spec fn disable_peer_outcome(status: u32) -> CudaResult<bool> {
    if status == CUDA_SUCCESS {
        Ok(true)
    } else if status == CUDA_ERROR_PEER_ACCESS_NOT_ENABLED {
        Ok(false)
    } else {
        Err(CudaError(status))
    }
}

/// The status with which the runtime answers a request to enable peer
/// access, when nothing else goes wrong: success where access was off,
/// "already enabled" where it was on.
pub open spec fn enable_reply(enabled_before: bool) -> u32 {
    if enabled_before {
        CUDA_ERROR_PEER_ACCESS_ALREADY_ENABLED
    } else {
        CUDA_SUCCESS
    }
}

/// The status with which the runtime answers a request to disable peer
/// access, when nothing else goes wrong: success where access was on,
/// "not enabled" where it was off.
pub open spec fn disable_reply(enabled_before: bool) -> u32 {
    if enabled_before {
        CUDA_SUCCESS
    } else {
        CUDA_ERROR_PEER_ACCESS_NOT_ENABLED
    }
}

impl CudaDevice {
    /// The number of visible devices, from the status and the count that
    /// the device-count query reported. The runtime never reports a
    /// negative count with success.
    pub fn count(status: u32, reported: i32) -> (r: CudaResult<usize>)
        requires
            status == CUDA_SUCCESS ==> reported >= 0,
        ensures
            r == outcome(status, reported as usize),
    {
        if status == CUDA_SUCCESS {
            Ok(reported as usize)
        } else {
            Err(CudaError(status))
        }
    }

    /// The index of the current device, from the status and the index that
    /// the current-device query reported.
    pub fn get_current(status: u32, reported: i32) -> (r: CudaResult<i32>)
        ensures
            r == outcome(status, reported),
    {
        lift(status, reported)
    }

    /// The result of selecting the current device.
    pub fn set_current(status: u32) -> (r: CudaResult<()>)
        ensures
            r == outcome(status, ()),
    {
        lift(status, ())
    }

    /// The result of resetting the current device.
    pub fn reset(status: u32) -> (r: CudaResult<()>)
        ensures
            r == outcome(status, ()),
    {
        lift(status, ())
    }

    /// The result of waiting for all work on the current device.
    pub fn synchronize(status: u32) -> (r: CudaResult<()>)
        ensures
            r == outcome(status, ()),
    {
        lift(status, ())
    }

    /// The result of setting the flags of the current device.
    pub fn set_flags(status: u32) -> (r: CudaResult<()>)
        ensures
            r == outcome(status, ()),
    {
        lift(status, ())
    }

    /// The property record of a device, from the status of the query and
    /// the record it filled in (zeroed before the call).
    pub fn get_properties<P>(status: u32, props: P) -> (r: CudaResult<P>)
        ensures
            r == outcome(status, props),
    {
        lift(status, props)
    }

    /// The value of one device attribute, from the status of the query and
    /// the value it reported.
    pub fn get_attribute(status: u32, value: i32) -> (r: CudaResult<i32>)
        ensures
            r == outcome(status, value),
    {
        lift(status, value)
    }

    /// Whether one device can address another's memory, from the status of
    /// the query and the flag it reported (any non-zero value means yes).
    pub fn can_access_peer(status: u32, access: i32) -> (r: CudaResult<bool>)
        ensures
            r == outcome(status, access != 0),
    {
        lift(status, access != 0)
    }

    /// Whether peer access was enabled before a request to enable it. The
    /// "already enabled" status is an answer, not a failure.
    pub fn enable_peer_access(status: u32) -> (r: CudaResult<bool>)
        ensures
            r == enable_peer_outcome(status),
    {
        if status == CUDA_SUCCESS {
            Ok(false)
        } else if status == CUDA_ERROR_PEER_ACCESS_ALREADY_ENABLED {
            Ok(true)
        } else {
            Err(CudaError(status))
        }
    }

    /// Whether peer access was enabled before a request to disable it. The
    /// "not enabled" status is an answer, not a failure.
    pub fn disable_peer_access(status: u32) -> (r: CudaResult<bool>)
        ensures
            r == disable_peer_outcome(status),
    {
        if status == CUDA_SUCCESS {
            Ok(true)
        } else if status == CUDA_ERROR_PEER_ACCESS_NOT_ENABLED {
            Ok(false)
        } else {
            Err(CudaError(status))
        }
    }
}

/// Enabling peer access reports the state it found: for a runtime that
/// answers as documented, the result is `Ok(enabled_before)`. Since access
/// is on after the first request, a second request in a row reports `true`;
/// from a state where access was off, two requests give `Ok(false)` and
/// then `Ok(true)`.
pub proof fn lemma_enable_peer_access_twice(enabled_before: bool)
    ensures
        enable_peer_outcome(enable_reply(enabled_before)) == Ok::<bool, CudaError>(enabled_before),
        enable_peer_outcome(enable_reply(true)) == Ok::<bool, CudaError>(true),
{
}

/// Disabling peer access reports the state it found: for a runtime that
/// answers as documented, the result is `Ok(enabled_before)`. Since access
/// is off after the first request, a second request in a row reports
/// `false`; from a state where access was on, two requests give `Ok(true)`
/// and then `Ok(false)`.
pub proof fn lemma_disable_peer_access_twice(enabled_before: bool)
    ensures
        disable_peer_outcome(disable_reply(enabled_before)) == Ok::<bool, CudaError>(
            enabled_before,
        ),
        disable_peer_outcome(disable_reply(false)) == Ok::<bool, CudaError>(false),
{
}

} // verus!
