//! A verified safety layer over the CUDA runtime API.
//!
//! The runtime itself is reached through foreign calls that live outside
//! this crate. What stands here is everything the layer decides on its
//! own: how a numeric status is turned into a typed result (including the
//! statuses that carry meaning rather than failure), how stream and event
//! handles are owned and released at most once, and how the arguments of
//! the memory transfers are computed and checked.

mod device;
mod event;
mod handle;
mod memory;
mod status;
mod stream;

pub use crate::device::{
    disable_peer_outcome, disable_reply, enable_peer_outcome, enable_reply,
    lemma_disable_peer_access_twice, lemma_enable_peer_access_twice, CudaDevice,
};
pub use crate::event::{
    query_outcome, CudaEvent, CudaEventStatus, EVENT_BLOCKING_SYNC, EVENT_DISABLE_TIMING,
};
pub use crate::handle::{
    handle_after_release, lemma_release_at_most_once, release_of, teardown_outcome, Teardown,
};
pub use crate::memory::{
    byte_len, cuda_alloc_device, cuda_alloc_host, cuda_free_device, cuda_free_host, cuda_memcpy,
    cuda_memcpy_2d_async, cuda_memcpy_async, cuda_memcpy_peer_async, cuda_memset,
    cuda_memset_async, fits_bytes, row_fits, row_fits_pitches, CudaMemcpyKind,
    FlatCopy, PitchedCopy,
};
pub use crate::status::{
    check_status, decoded_or_sentinel, decoded_text, describe, description_text, invalid_text,
    lift, null_text, outcome, text_of, utf8_decoded, CudaError, CudaResult,
    CUDA_ERROR_CUDART_UNLOADING, CUDA_ERROR_NOT_READY, CUDA_ERROR_PEER_ACCESS_ALREADY_ENABLED,
    CUDA_ERROR_PEER_ACCESS_NOT_ENABLED, CUDA_API_VERSION, CUDA_SUCCESS,
};
pub use crate::stream::CudaStream;
