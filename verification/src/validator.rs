//! The query-shaped operations: validate syntax, validate against a
//! schema, fetch completions, fetch classifications.
//!
//! Each operation takes the native entry point as a function value over
//! the output buffer, together with the last-error fetch; the caller binds
//! those to the loaded library (or, in tests, to a simulated one). The
//! operation rejects oversized inputs before any call is made, runs the
//! buffer protocol, and decodes the reply.

use vstd::prelude::*;

verus! {

use crate::classification::ClassificationResult;
use crate::completion::CompletionResult;
use crate::decode::decode_classification;
use crate::decode::decode_completion;
use crate::decode::decode_validation;
use crate::error::Error;
use crate::ffi::DEFAULT_BUFFER_SIZE;
use crate::numfmt::dec_of_usize;
use crate::numfmt::spec_dec;
use crate::ffi::BUFFER_TOO_SMALL;
use crate::ffi::CallPayload;
use crate::protocol::run_buffer_call;
use crate::protocol::spec_protocol_error;
use vstd::string::StringSliceAdditionalSpecFns;
use crate::types::ValidationResult;
use vstd::string::StringExecFns;

/// The byte length of a string, as the native boundary measures it.
pub open spec fn spec_byte_len(s: &str) -> nat {
    (s.spec_bytes().len() as usize) as nat
}

/// The message rejecting a query whose byte length cannot cross the native
/// integer boundary.
pub open spec fn spec_query_too_large_strict(n: nat) -> Seq<char> {
    "Query too large: "@ + spec_dec(n) + " bytes exceeds c_int max"@
}

/// The message rejecting an oversized query.
pub open spec fn spec_query_too_large(n: nat) -> Seq<char> {
    "Query too large: "@ + spec_dec(n) + " bytes"@
}

/// The message rejecting an oversized schema document.
pub open spec fn spec_schema_too_large(n: nat) -> Seq<char> {
    "Schema too large: "@ + spec_dec(n) + " bytes"@
}

/// The message rejecting an oversized cursor offset.
pub open spec fn spec_cursor_too_large(n: nat) -> Seq<char> {
    "Cursor position too large: "@ + spec_dec(n)
}

/// Every error an operation can return: an input rejection or capability
/// gap (internal), a protocol failure, or a decoding failure.
pub open spec fn spec_operation_error(e: Error) -> bool {
    ||| spec_protocol_error(e, DEFAULT_BUFFER_SIZE as int)
    ||| e is Utf8
    ||| e is Json
}

/// An operation's result is tied to outcomes its native call can actually
/// produce: success needs a non-negative code, a decoding failure needs a
/// written reply, a native error carries the code that came back, and an
/// exhausted retry budget needs the sentinel.
pub open spec fn spec_reply_tied<T, F: Fn(Vec<u8>) -> (Vec<u8>, i32)>(
    call: F,
    r: Result<T, Error>,
) -> bool {
    &&& r is Ok ==> exists|b: Vec<u8>, out: (Vec<u8>, i32)|
        #[trigger] call.ensures((b,), out) && out.1 >= 0
    &&& r matches Err(e) ==> (e matches Error::NativeError { code, .. } ==> exists|
        b: Vec<u8>,
        out: (Vec<u8>, i32),
    | #[trigger] call.ensures((b,), out) && out.1 == code)
    &&& r matches Err(e) ==> ((e is Utf8 || e is Json) ==> exists|b: Vec<u8>, out: (Vec<u8>, i32)|
        #[trigger] call.ensures((b,), out) && out.1 > 0)
    &&& r matches Err(e) ==> (e is BufferTooSmall ==> exists|b: Vec<u8>, out: (Vec<u8>, i32)|
        #[trigger] call.ensures((b,), out) && out.1 == BUFFER_TOO_SMALL)
}

proof fn tie_through_decode<F: Fn(Vec<u8>) -> (Vec<u8>, i32)>(call: F, pl: CallPayload, failed: bool)
    requires
        pl is Empty ==> exists|b: Vec<u8>, out: (Vec<u8>, i32)|
            #[trigger] call.ensures((b,), out) && out.1 == 0,
        pl matches CallPayload::Json(v) ==> exists|b: Vec<u8>, out: (Vec<u8>, i32)|
            #[trigger] call.ensures((b,), out) && out.1 > 0 && v@ == out.0@.take(out.1 as int),
        failed ==> !(pl is Empty),
    ensures
        exists|b: Vec<u8>, out: (Vec<u8>, i32)| #[trigger] call.ensures((b,), out) && out.1 >= 0,
        failed ==> exists|b: Vec<u8>, out: (Vec<u8>, i32)|
            #[trigger] call.ensures((b,), out) && out.1 > 0,
{
    match pl {
        CallPayload::Empty => {
            let (b, out) = choose|b: Vec<u8>, out: (Vec<u8>, i32)|
                #[trigger] call.ensures((b,), out) && out.1 == 0;
            assert(call.ensures((b,), out) && out.1 >= 0);
        },
        CallPayload::Json(_) => {
            let (b, out) = choose|b: Vec<u8>, out: (Vec<u8>, i32)|
                #[trigger] call.ensures((b,), out) && out.1 > 0;
            assert(call.ensures((b,), out) && out.1 >= 0);
        },
    }
}

fn query_too_large_strict(n: usize) -> (r: Error)
    ensures
        r matches Error::Internal { message } && message@ == spec_query_too_large_strict(n as nat),
{
    let mut message = String::new();
    message.append("Query too large: ");
    let digits = dec_of_usize(n);
    message.append(digits.as_str());
    message.append(" bytes exceeds c_int max");
    proof {
        assert(message@ =~= spec_query_too_large_strict(n as nat));
    }
    Error::Internal { message }
}

fn query_too_large(n: usize) -> (r: Error)
    ensures
        r matches Error::Internal { message } && message@ == spec_query_too_large(n as nat),
{
    let mut message = String::new();
    message.append("Query too large: ");
    let digits = dec_of_usize(n);
    message.append(digits.as_str());
    message.append(" bytes");
    proof {
        assert(message@ =~= spec_query_too_large(n as nat));
    }
    Error::Internal { message }
}

fn schema_too_large(n: usize) -> (r: Error)
    ensures
        r matches Error::Internal { message } && message@ == spec_schema_too_large(n as nat),
{
    let mut message = String::new();
    message.append("Schema too large: ");
    let digits = dec_of_usize(n);
    message.append(digits.as_str());
    message.append(" bytes");
    proof {
        assert(message@ =~= spec_schema_too_large(n as nat));
    }
    Error::Internal { message }
}

fn cursor_too_large(n: usize) -> (r: Error)
    ensures
        r matches Error::Internal { message } && message@ == spec_cursor_too_large(n as nat),
{
    let mut message = String::new();
    message.append("Cursor position too large: ");
    let digits = dec_of_usize(n);
    message.append(digits.as_str());
    proof {
        assert(message@ =~= spec_cursor_too_large(n as nat));
    }
    Error::Internal { message }
}

/// Whether a byte length or offset fits the native call's integer width.
pub fn fits_native_int(n: usize) -> (r: bool)
    ensures
        r == (n <= i32::MAX),
{
    n <= i32::MAX as usize
}

/// Validate a query for syntax errors only, calling the bound native entry
/// point through `call`. The query's byte length is rejected before any
/// call if it cannot cross the native integer boundary.
pub fn validate_syntax<F: Fn(Vec<u8>) -> (Vec<u8>, i32), G: Fn(Vec<u8>) -> (Vec<u8>, i32)>(
    query: &str,
    call: &F,
    fetch: &G,
) -> (r: Result<ValidationResult, Error>)
    requires
        forall|b: Vec<u8>| #[trigger] call.requires((b,)),
        forall|b: Vec<u8>| #[trigger] fetch.requires((b,)),
    ensures
        spec_byte_len(query) > i32::MAX ==> (r matches Err(e) && e matches
            Error::Internal { message } && message@ == spec_query_too_large_strict(
            spec_byte_len(query),
        )),
        r matches Err(e) ==> (spec_operation_error(e) || (e matches Error::Internal { message }
            && message@ == spec_query_too_large_strict(spec_byte_len(query)))),
        (spec_byte_len(query) <= i32::MAX && forall|b: Vec<u8>, out: (Vec<u8>, i32)|
            #[trigger] call.ensures((b,), out) ==> out.1 == 0) ==> (r matches Ok(vr) && vr.valid
            && vr.diagnostics@.len() == 0),
        spec_reply_tied(*call, r),
{
    if !fits_native_int(query.len()) {
        return Err(query_too_large_strict(query.len()));
    }
    let payload = run_buffer_call(call, fetch)?;
    let ghost pl = payload;
    let out = decode_validation(payload);
    proof {
        tie_through_decode(*call, pl, out is Err);
    }
    out
}

/// Validate a query against a schema document, where the loaded library
/// binds the optional schema-validation entry point (`supported`); the
/// schema crosses as JSON text. Oversized inputs are rejected before any
/// call.
pub fn validate_with_schema<F: Fn(Vec<u8>) -> (Vec<u8>, i32), G: Fn(Vec<u8>) -> (Vec<u8>, i32)>(
    query: &str,
    schema_json: &str,
    supported: bool,
    call: &F,
    fetch: &G,
) -> (r: Result<ValidationResult, Error>)
    requires
        forall|b: Vec<u8>| #[trigger] call.requires((b,)),
        forall|b: Vec<u8>| #[trigger] fetch.requires((b,)),
    ensures
        !supported ==> (r matches Err(e) && e matches Error::Internal { message } && message@
            == "Schema validation not supported by loaded library"@),
        supported && spec_byte_len(query) > i32::MAX ==> (r matches Err(e) && e matches
            Error::Internal { message } && message@ == spec_query_too_large(
            spec_byte_len(query),
        )),
        supported && spec_byte_len(query) <= i32::MAX && spec_byte_len(schema_json) > i32::MAX ==> (r matches Err(e) && e matches Error::Internal { message }
            && message@ == spec_schema_too_large(spec_byte_len(schema_json))),
        r matches Err(e) ==> (spec_operation_error(e) || e is Internal),
        (supported && spec_byte_len(query) <= i32::MAX && spec_byte_len(schema_json) <= i32::MAX
            && forall|b: Vec<u8>, out: (Vec<u8>, i32)| #[trigger] call.ensures((b,), out) ==> out.1
            == 0) ==> (r matches Ok(vr) && vr.valid && vr.diagnostics@.len() == 0),
        spec_reply_tied(*call, r),
{
    if !supported {
        let mut message = String::new();
        message.append("Schema validation not supported by loaded library");
        proof {
            assert(message@ =~= "Schema validation not supported by loaded library"@);
        }
        return Err(Error::Internal { message });
    }
    if !fits_native_int(query.len()) {
        return Err(query_too_large(query.len()));
    }
    if !fits_native_int(schema_json.len()) {
        return Err(schema_too_large(schema_json.len()));
    }
    let payload = run_buffer_call(call, fetch)?;
    let ghost pl = payload;
    let out = decode_validation(payload);
    proof {
        tie_through_decode(*call, pl, out is Err);
    }
    out
}

/// Fetch completion items at a cursor position, where the loaded library
/// binds the optional completion entry point (`supported`). The query,
/// the cursor offset and the optional schema document are rejected before
/// any call if they cannot cross the native integer boundary.
pub fn get_completions<F: Fn(Vec<u8>) -> (Vec<u8>, i32), G: Fn(Vec<u8>) -> (Vec<u8>, i32)>(
    query: &str,
    cursor_position: usize,
    schema_json: Option<&str>,
    supported: bool,
    call: &F,
    fetch: &G,
) -> (r: Result<CompletionResult, Error>)
    requires
        forall|b: Vec<u8>| #[trigger] call.requires((b,)),
        forall|b: Vec<u8>| #[trigger] fetch.requires((b,)),
    ensures
        !supported ==> (r matches Err(e) && e matches Error::Internal { message } && message@
            == "Completion not supported by loaded library"@),
        supported && spec_byte_len(query) > i32::MAX ==> (r matches Err(e) && e matches
            Error::Internal { message } && message@ == spec_query_too_large(
            spec_byte_len(query),
        )),
        supported && spec_byte_len(query) <= i32::MAX && cursor_position > i32::MAX ==> (
        r matches Err(e) && e matches Error::Internal { message } && message@
            == spec_cursor_too_large(cursor_position as nat)),
        r matches Err(e) ==> (spec_operation_error(e) || e is Internal),
        (supported && spec_byte_len(query) <= i32::MAX && cursor_position <= i32::MAX && (
        schema_json matches Some(s) ==> spec_byte_len(s) <= i32::MAX) && forall|
            b: Vec<u8>,
            out: (Vec<u8>, i32),
        | #[trigger] call.ensures((b,), out) ==> out.1 == 0) ==> (r matches Ok(cr)
            && cr.items@.len() == 0),
        spec_reply_tied(*call, r),
{
    if !supported {
        let mut message = String::new();
        message.append("Completion not supported by loaded library");
        proof {
            assert(message@ =~= "Completion not supported by loaded library"@);
        }
        return Err(Error::Internal { message });
    }
    if !fits_native_int(query.len()) {
        return Err(query_too_large(query.len()));
    }
    if !fits_native_int(cursor_position) {
        return Err(cursor_too_large(cursor_position));
    }
    match schema_json {
        Some(s) => {
            if !fits_native_int(s.len()) {
                return Err(schema_too_large(s.len()));
            }
        },
        None => {},
    }
    let payload = run_buffer_call(call, fetch)?;
    let ghost pl = payload;
    let out = decode_completion(payload);
    proof {
        tie_through_decode(*call, pl, out is Err);
    }
    out
}

/// Fetch classification spans for syntax highlighting, where the loaded
/// library binds the optional classification entry point (`supported`).
pub fn get_classifications<F: Fn(Vec<u8>) -> (Vec<u8>, i32), G: Fn(Vec<u8>) -> (Vec<u8>, i32)>(
    query: &str,
    supported: bool,
    call: &F,
    fetch: &G,
) -> (r: Result<ClassificationResult, Error>)
    requires
        forall|b: Vec<u8>| #[trigger] call.requires((b,)),
        forall|b: Vec<u8>| #[trigger] fetch.requires((b,)),
    ensures
        !supported ==> (r matches Err(e) && e matches Error::Internal { message } && message@
            == "Classification not supported by loaded library"@),
        supported && spec_byte_len(query) > i32::MAX ==> (r matches Err(e) && e matches
            Error::Internal { message } && message@ == spec_query_too_large(
            spec_byte_len(query),
        )),
        r matches Err(e) ==> (spec_operation_error(e) || e is Internal),
        (supported && spec_byte_len(query) <= i32::MAX && forall|b: Vec<u8>, out: (Vec<u8>, i32)|
            #[trigger] call.ensures((b,), out) ==> out.1 == 0) ==> (r matches Ok(cr)
            && cr.spans@.len() == 0),
        spec_reply_tied(*call, r),
{
    if !supported {
        let mut message = String::new();
        message.append("Classification not supported by loaded library");
        proof {
            assert(message@ =~= "Classification not supported by loaded library"@);
        }
        return Err(Error::Internal { message });
    }
    if !fits_native_int(query.len()) {
        return Err(query_too_large(query.len()));
    }
    let payload = run_buffer_call(call, fetch)?;
    let ghost pl = payload;
    let out = decode_classification(payload);
    proof {
        tie_through_decode(*call, pl, out is Err);
    }
    out
}

} // verus!
