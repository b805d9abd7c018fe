//! Status codes of the runtime and their typed interpretation.

use vstd::prelude::*;

verus! {

/// The version of the runtime API whose status codes and constants this
/// layer uses (8.0).
pub const CUDA_API_VERSION: u32 = 8000;

/// The status that every successful runtime call returns.
pub const CUDA_SUCCESS: u32 = 0;

/// The runtime is being unloaded while the process shuts down.
pub const CUDA_ERROR_CUDART_UNLOADING: u32 = 29;

/// The queried work (an event, a stream) has not completed yet.
pub const CUDA_ERROR_NOT_READY: u32 = 34;

/// Peer access from the current device was already enabled.
pub const CUDA_ERROR_PEER_ACCESS_ALREADY_ENABLED: u32 = 50;

/// Peer access from the current device was not enabled.
pub const CUDA_ERROR_PEER_ACCESS_NOT_ENABLED: u32 = 51;

/// A status returned by the runtime that is reported as a failure.
#[derive(Clone, Copy, Debug, PartialEq, Eq, Structural)]
pub struct CudaError(pub u32);

/// The outcome of an operation of this layer.
pub type CudaResult<T> = Result<T, CudaError>;

/// The result that a runtime call with no special statuses stands for:
/// `value` on success, the status itself as an error otherwise.
pub open spec fn outcome<T>(status: u32, value: T) -> CudaResult<T> {
    if status == CUDA_SUCCESS {
        Ok(value)
    } else {
        Err(CudaError(status))
    }
}

/// Turns the status of a runtime call into a typed result carrying `value`.
pub fn lift<T>(status: u32, value: T) -> (r: CudaResult<T>)
    ensures
        r == outcome(status, value),
{
    if status == CUDA_SUCCESS {
        Ok(value)
    } else {
        Err(CudaError(status))
    }
}

/// Turns the status of a runtime call that produces no value into a typed result.
pub fn check_status(status: u32) -> (r: CudaResult<()>)
    ensures
        r == outcome(status, ()),
{
    lift(status, ())
}

impl CudaError {
    /// The numeric status code.
    pub fn get_code(&self) -> (r: u32)
        ensures
            r == self.0,
    {
        self.0
    }

    /// The runtime's description of this status, given the bytes of the
    /// text that the runtime returned for it (`None` where it returned no
    /// text). Never fails: a missing or undecodable text is replaced by a
    /// fixed sentinel.
    pub fn get_string(&self, raw: Option<&[u8]>) -> (r: String)
        ensures
            r@ == description_text(raw),
    {
        describe(raw)
    }
}

/// What `std::str::from_utf8` makes of a byte sequence: the characters it
/// decodes to, or `None` where it is not well-formed UTF-8.
pub uninterp spec fn utf8_decoded(bytes: Seq<u8>) -> Option<Seq<char>>;

/// Relies on `std::str::from_utf8`: it succeeds exactly on well-formed UTF-8,
/// and what it decodes depends on the bytes alone.
#[verifier::external_body]
fn decode_utf8(bytes: &[u8]) -> (r: Option<String>)
    ensures
        r is Some <==> utf8_decoded(bytes@) is Some,
        r is Some ==> utf8_decoded(bytes@) == Some(r->0@),
{
    match std::str::from_utf8(bytes) {
        Ok(s) => Some(s.to_owned()),
        Err(_) => None,
    }
}

/// Text standing for an absent description.
pub open spec fn null_text() -> Seq<char> {
    "(null)"@
}

/// Text standing for a description that is not valid text.
pub open spec fn invalid_text() -> Seq<char> {
    "(invalid text)"@
}

/// The description of a status, from the raw text the runtime gave for it.
pub open spec fn description_text(raw: Option<&[u8]>) -> Seq<char> {
    match raw {
        None => null_text(),
        Some(bytes) => decoded_text(utf8_decoded(bytes@)),
    }
}

/// The characters of an optional string.
pub open spec fn text_of(s: Option<String>) -> Option<Seq<char>> {
    match s {
        Some(t) => Some(t@),
        None => None,
    }
}

/// The decoded text, or the sentinel for an undecodable one.
pub open spec fn decoded_text(decoded: Option<Seq<char>>) -> Seq<char> {
    match decoded {
        Some(text) => text,
        None => invalid_text(),
    }
}

/// Keeps a decoded description, or replaces an undecodable one by the sentinel.
pub fn decoded_or_sentinel(decoded: Option<String>) -> (r: String)
    ensures
        r@ == decoded_text(text_of(decoded)),
{
    match decoded {
        Some(text) => text,
        None => "(invalid text)".to_owned(),
    }
}

/// The description of a status, from the raw bytes of the runtime's text.
pub fn describe(raw: Option<&[u8]>) -> (r: String)
    ensures
        r@ == description_text(raw),
{
    match raw {
        None => "(null)".to_owned(),
        Some(bytes) => decoded_or_sentinel(decode_utf8(bytes)),
    }
}

} // verus!
