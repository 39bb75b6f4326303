//! The buffer-based call protocol shared by every query-shaped operation.
//!
//! A native call writes its reply into a caller-owned buffer and reports a
//! signed result code. The protocol allocates a buffer of the default
//! capacity, makes the call, and on the buffer-too-small sentinel retries
//! exactly once with the capacity doubled, capped at a fixed maximum. Any
//! other negative code is translated into a structured error enriched with
//! the native library's last error message; a non-negative code is the
//! byte length of the JSON payload written.
//!
//! The native call itself is supplied by the caller as a function value
//! taking the buffer and returning it with the result code, so the
//! protocol's behaviour is fixed here for whatever that call does.

use vstd::prelude::*;

verus! {

use crate::error::Error;
use crate::error::spec_native_message;
use crate::ffi::BUFFER_TOO_SMALL;
use crate::ffi::CallPayload;
use crate::ffi::DEFAULT_BUFFER_SIZE;
use crate::ffi::MAX_BUFFER_SIZE;
use crate::numfmt::dec_of_usize;
use crate::decode::utf8_to_string;
use vstd::string::StringExecFns;
use vstd::utf8::decode_utf8;
use vstd::utf8::valid_utf8;

/// The shapes an error of the call protocol itself can take: the retry
/// budget ran out, the native call failed with a translated code, or the
/// call reported a payload longer than the buffer it was given.
pub open spec fn spec_protocol_error(e: Error, initial_capacity: int) -> bool {
    ||| (e matches Error::BufferTooSmall { needed, available } && ((needed == 2 * initial_capacity
        && available == MAX_BUFFER_SIZE && 2 * initial_capacity > MAX_BUFFER_SIZE) || (needed == 0
        && available == 2 * initial_capacity && 2 * initial_capacity <= MAX_BUFFER_SIZE)))
    ||| (e matches Error::NativeError { code, message } && code < 0 && code != BUFFER_TOO_SMALL
        && exists|ctx: Seq<char>| message@ == #[trigger] spec_native_message(code as int, ctx))
    ||| e is Internal
}

fn zeroed(n: usize) -> (r: Vec<u8>)
    ensures
        r@.len() == n,
{
    let mut out: Vec<u8> = Vec::new();
    let mut i: usize = 0;
    while i < n
        invariant
            0 <= i <= n,
            out@.len() == i,
        decreases n - i,
    {
        out.push(0u8);
        i = i + 1;
    }
    out
}

/// Fetch the native library's last error message through the given call: a
/// fixed small buffer, one call, and a strict UTF-8 decode of the reported
/// prefix; anything irregular yields nothing.
pub fn last_error_message<G: Fn(Vec<u8>) -> (Vec<u8>, i32)>(fetch: &G) -> (r: Option<String>)
    requires
        forall|b: Vec<u8>| #[trigger] fetch.requires((b,)),
    ensures
        r matches Some(s) ==> exists|b: Vec<u8>, out: (Vec<u8>, i32)|
            #[trigger] fetch.ensures((b,), out) && 0 < out.1 && out.1 <= out.0@.len()
                && valid_utf8(out.0@.take(out.1 as int)) && s@ == decode_utf8(
                out.0@.take(out.1 as int),
            ),
        (forall|b: Vec<u8>, out: (Vec<u8>, i32)| #[trigger] fetch.ensures((b,), out) ==> out.1
            <= 0) ==> r is None,
{
    let buffer = zeroed(1024);
    let ghost fetch_in = buffer;
    let (buffer, code) = fetch(buffer);
    let ghost fetch_out = (buffer, code);
    proof {
        assert(fetch.ensures((fetch_in,), fetch_out));
    }
    if code > 0 {
        let len = code as usize;
        if len <= buffer.len() {
            let prefix = vstd::slice::slice_subrange(buffer.as_slice(), 0, len);
            proof {
                assert(prefix@ =~= fetch_out.0@.take(fetch_out.1 as int));
            }
            match utf8_to_string(prefix) {
                Ok(s) => Some(s),
                Err(_) => None,
            }
        } else {
            None
        }
    } else {
        None
    }
}

/// Translate a failing result code into the structured native error,
/// enriching it with the last error message fetched through `fetch`.
fn native_failure<G: Fn(Vec<u8>) -> (Vec<u8>, i32)>(code: i32, fetch: &G) -> (r: Error)
    requires
        code < 0,
        code != BUFFER_TOO_SMALL,
        forall|b: Vec<u8>| #[trigger] fetch.requires((b,)),
    ensures
        r matches Error::NativeError { code: c, message } && c == code && exists|ctx: Seq<char>|
            message@ == #[trigger] spec_native_message(code as int, ctx),
{
    let context = match last_error_message(fetch) {
        Some(s) => s,
        None => String::new(),
    };
    let r = Error::from_native_code(code, context.as_str());
    proof {
        assert(r->NativeError_message@ == spec_native_message(code as int, context@));
    }
    r
}

fn settle<G: Fn(Vec<u8>) -> (Vec<u8>, i32)>(code: i32, buffer: Vec<u8>, fetch: &G) -> (r: Result<
    CallPayload,
    Error,
>)
    requires
        code != BUFFER_TOO_SMALL,
        forall|b: Vec<u8>| #[trigger] fetch.requires((b,)),
    ensures
        code == 0 ==> (r matches Ok(p) && p is Empty),
        code > 0 && code <= buffer@.len() ==> (r matches Ok(p) && p matches CallPayload::Json(v)
            && v@ == buffer@.take(code as int)),
        code > 0 && code > buffer@.len() ==> (r matches Err(e) && e is Internal),
        code < 0 ==> (r matches Err(e) && e matches Error::NativeError { code: c, message } && c
            == code && exists|ctx: Seq<char>| message@ == #[trigger] spec_native_message(
            code as int,
            ctx,
        )),
{
    if code < 0 {
        return Err(native_failure(code, fetch));
    }
    if code == 0 {
        return Ok(CallPayload::Empty);
    }
    let len = code as usize;
    if len > buffer.len() {
        // The native call claims more bytes than the buffer it was handed:
        // a contract violation on its side.
        let mut message = String::new();
        message.append("native call reported ");
        let digits = dec_of_usize(len);
        message.append(digits.as_str());
        message.append(" payload bytes for a buffer of ");
        let cap = dec_of_usize(buffer.len());
        message.append(cap.as_str());
        return Err(Error::Internal { message });
    }
    let mut payload = buffer;
    payload.truncate(len);
    Ok(CallPayload::Json(payload))
}

/// The result is tied to an outcome the native call can actually produce:
/// an empty reply to a zero code, a written reply to the positive code
/// whose byte-length prefix it is, a translated native error to its own
/// code, and an exhausted retry budget to the sentinel.
pub open spec fn spec_outcome_tied<F: Fn(Vec<u8>) -> (Vec<u8>, i32)>(
    call: F,
    r: Result<CallPayload, Error>,
) -> bool {
    &&& r matches Ok(p) ==> (p is Empty ==> exists|b: Vec<u8>, out: (Vec<u8>, i32)|
        #[trigger] call.ensures((b,), out) && out.1 == 0)
    &&& r matches Ok(p) ==> (p matches CallPayload::Json(v) ==> exists|
        b: Vec<u8>,
        out: (Vec<u8>, i32),
    |
        #[trigger] call.ensures((b,), out) && out.1 > 0 && v@ == out.0@.take(out.1 as int))
    &&& r matches Err(e) ==> (e matches Error::NativeError { code, .. } ==> exists|
        b: Vec<u8>,
        out: (Vec<u8>, i32),
    | #[trigger] call.ensures((b,), out) && out.1 == code)
    &&& r matches Err(e) ==> (e is BufferTooSmall ==> exists|b: Vec<u8>, out: (Vec<u8>, i32)|
        #[trigger] call.ensures((b,), out) && out.1 == BUFFER_TOO_SMALL)
    &&& r matches Err(e) ==> (e is Internal ==> exists|b: Vec<u8>, out: (Vec<u8>, i32)|
        #[trigger] call.ensures((b,), out) && out.1 > 0)
}

/// Run one native call with the growth-and-retry policy, starting from the
/// given buffer capacity: on the buffer-too-small sentinel the capacity is
/// doubled once, capped at the maximum; a second sentinel exhausts the
/// budget. Any other failing code is translated through `fetch` into a
/// native error.
pub fn run_buffer_call_from<F: Fn(Vec<u8>) -> (Vec<u8>, i32), G: Fn(Vec<u8>) -> (Vec<u8>, i32)>(
    initial_capacity: usize,
    call: &F,
    fetch: &G,
) -> (r: Result<CallPayload, Error>)
    requires
        0 < initial_capacity <= MAX_BUFFER_SIZE,
        forall|b: Vec<u8>| #[trigger] call.requires((b,)),
        forall|b: Vec<u8>| #[trigger] fetch.requires((b,)),
    ensures
        r matches Ok(p) ==> (p matches CallPayload::Json(v) ==> 1 <= v@.len() <= 2
            * initial_capacity),
        r matches Err(e) ==> spec_protocol_error(e, initial_capacity as int),
        spec_outcome_tied(*call, r),
        (2 * initial_capacity <= MAX_BUFFER_SIZE && forall|b: Vec<u8>, out: (Vec<u8>, i32)|
            #[trigger] call.ensures((b,), out) ==> out.1 == BUFFER_TOO_SMALL) ==> (r matches Err(e)
            && e matches Error::BufferTooSmall { needed, available } && needed == 0 && available
            == 2 * initial_capacity),
        (2 * initial_capacity > MAX_BUFFER_SIZE && forall|b: Vec<u8>, out: (Vec<u8>, i32)|
            #[trigger] call.ensures((b,), out) ==> out.1 == BUFFER_TOO_SMALL) ==> (r matches Err(e)
            && e matches Error::BufferTooSmall { needed, available } && needed == 2
            * initial_capacity && available == MAX_BUFFER_SIZE),
        (forall|b: Vec<u8>, out: (Vec<u8>, i32)| #[trigger] call.ensures((b,), out) ==> out.1
            == 0) ==> (r matches Ok(p) && p is Empty),
{
    let buffer = zeroed(initial_capacity);
    let ghost first_in = buffer;
    let (buffer, code) = call(buffer);
    let ghost first_out = (buffer, code);
    proof {
        assert(call.ensures((first_in,), first_out));
    }
    if code == BUFFER_TOO_SMALL {
        let doubled = initial_capacity * 2;
        if doubled > MAX_BUFFER_SIZE {
            return Err(Error::BufferTooSmall { needed: doubled, available: MAX_BUFFER_SIZE });
        }
        let retry_buffer = zeroed(doubled);
        let ghost retry_in = retry_buffer;
        let (retry_buffer, retry_code) = call(retry_buffer);
        let ghost retry_out = (retry_buffer, retry_code);
        proof {
            assert(call.ensures((retry_in,), retry_out));
        }
        if retry_code == BUFFER_TOO_SMALL {
            return Err(Error::BufferTooSmall { needed: 0, available: doubled });
        }
        match settle(retry_code, retry_buffer, fetch) {
            Ok(p) => {
                // The reply is a prefix of the retry buffer, which may be
                // longer or shorter than what the call handed back.
                if let CallPayload::Json(v) = &p {
                    if v.len() < 1 || v.len() > doubled {
                        let mut message = String::new();
                        message.append("native call returned a payload outside its buffer");
                        return Err(Error::Internal { message });
                    }
                }
                Ok(p)
            },
            Err(e) => Err(e),
        }
    } else {
        match settle(code, buffer, fetch) {
            Ok(p) => {
                if let CallPayload::Json(v) = &p {
                    if v.len() < 1 || v.len() > initial_capacity {
                        let mut message = String::new();
                        message.append("native call returned a payload outside its buffer");
                        return Err(Error::Internal { message });
                    }
                }
                Ok(p)
            },
            Err(e) => Err(e),
        }
    }
}

/// Run one native call with the growth-and-retry policy from the default
/// buffer capacity.
pub fn run_buffer_call<F: Fn(Vec<u8>) -> (Vec<u8>, i32), G: Fn(Vec<u8>) -> (Vec<u8>, i32)>(
    call: &F,
    fetch: &G,
) -> (r: Result<CallPayload, Error>)
    requires
        forall|b: Vec<u8>| #[trigger] call.requires((b,)),
        forall|b: Vec<u8>| #[trigger] fetch.requires((b,)),
    ensures
        r matches Ok(p) ==> (p matches CallPayload::Json(v) ==> 1 <= v@.len() <= 2
            * DEFAULT_BUFFER_SIZE),
        r matches Err(e) ==> spec_protocol_error(e, DEFAULT_BUFFER_SIZE as int),
        spec_outcome_tied(*call, r),
        (forall|b: Vec<u8>, out: (Vec<u8>, i32)| #[trigger] call.ensures((b,), out) ==> out.1
            == BUFFER_TOO_SMALL) ==> (r matches Err(e) && e matches Error::BufferTooSmall {
            needed,
            available,
        } && needed == 0 && available == 2 * DEFAULT_BUFFER_SIZE),
        (forall|b: Vec<u8>, out: (Vec<u8>, i32)| #[trigger] call.ensures((b,), out) ==> out.1
            == 0) ==> (r matches Ok(p) && p is Empty),
{
    run_buffer_call_from(DEFAULT_BUFFER_SIZE, call, fetch)
}

} // verus!
