//! Result-code contract shared by the native entry points.
//!
//! Every data-returning entry point reports a signed integer: a value of
//! zero or more is success (zero meaning an empty result, a positive value
//! the byte length of a JSON payload written into the caller's buffer),
//! and fixed negative sentinels are errors.

use vstd::prelude::*;

verus! {

/// The sentinel a native call returns when the caller's buffer is too small.
pub const BUFFER_TOO_SMALL: i32 = -1;

/// Initial capacity of the output buffer handed to a native call.
pub const DEFAULT_BUFFER_SIZE: usize = 64 * 1024;

/// Largest output buffer the retry step is allowed to grow to.
pub const MAX_BUFFER_SIZE: usize = 4 * 1024 * 1024;

/// What a successful native call handed back: nothing, or the bytes of a
/// JSON document.
#[derive(Clone, Debug)]
pub enum CallPayload {
    /// The call returned zero: success with no payload written.
    Empty,
    /// The call returned a positive length: the payload bytes it wrote.
    Json(Vec<u8>),
}

/// A result code of zero or more means the native call succeeded.
pub fn is_success(code: i32) -> (r: bool)
    ensures
        r == (code >= 0),
{
    code >= 0
}

/// A result code equal to the buffer-too-small sentinel asks the caller to
/// retry with a larger buffer.
pub fn is_buffer_too_small(code: i32) -> (r: bool)
    ensures
        r == (code == BUFFER_TOO_SMALL),
{
    code == BUFFER_TOO_SMALL
}

} // verus!
