//! Decoding returned payloads.
//!
//! A successful native call either writes nothing (the empty result) or a
//! UTF-8 JSON document of an exact byte length. The bytes are decoded as
//! UTF-8, parsed as JSON, and mapped field by field into the crate's
//! result types; any shortfall is a decoding error, surfaced and never
//! recovered.

use vstd::prelude::*;

verus! {

use crate::classification::ClassificationKind;
use crate::classification::ClassificationResult;
use crate::classification::ClassifiedSpan;
use crate::completion::CompletionItem;
use crate::completion::CompletionKind;
use crate::completion::CompletionResult;
use crate::error::Error;
use crate::ffi::CallPayload;
use crate::jsonvalue::json_as_array;
use crate::jsonvalue::json_as_bool;
use crate::jsonvalue::json_as_i64;
use crate::jsonvalue::json_as_str;
use crate::jsonvalue::json_as_u64;
use crate::jsonvalue::json_get;
use crate::jsonvalue::json_is_null;
use crate::jsonvalue::parse_json;
use crate::types::Diagnostic;
use crate::types::DiagnosticSeverity;
use crate::types::ValidationResult;
use vstd::utf8::decode_utf8;
use vstd::utf8::valid_utf8;

/// Relies on core::str::from_utf8: succeeds exactly on valid UTF-8,
/// decoding it; on failure reports how many leading bytes were valid.
#[verifier::external_body]
pub(crate) fn utf8_to_string(bytes: &[u8]) -> (r: Result<String, usize>)
    ensures
        r is Ok <==> valid_utf8(bytes@),
        r matches Ok(s) ==> s@ == decode_utf8(bytes@),
{
    match core::str::from_utf8(bytes) {
        Ok(s) => Ok(s.to_owned()),
        Err(e) => Err(e.valid_up_to()),
    }
}

/// Relies on String::from_utf8_lossy: on valid UTF-8 the decoding is
/// exact; invalid sequences are replaced, so something readable always
/// comes back.
#[verifier::external_body]
pub(crate) fn utf8_to_string_lossy(bytes: &[u8]) -> (r: String)
    ensures
        valid_utf8(bytes@) ==> r@ == decode_utf8(bytes@),
{
    String::from_utf8_lossy(bytes).into_owned()
}

fn json_field_error(what: &str) -> (r: Error)
    ensures
        r is Json,
{
    Error::Json { message: what.to_owned() }
}

fn require_u64_as_usize(v: Option<u64>, what: &str) -> (r: Result<usize, Error>)
    ensures
        r matches Ok(n) ==> v matches Some(x) && n == x,
        r is Err ==> r->Err_0 is Json,
    {
    match v {
        Some(x) => {
            if x <= usize::MAX as u64 {
                Ok(x as usize)
            } else {
                Err(json_field_error(what))
            }
        },
        None => Err(json_field_error(what)),
    }
}

fn map_diagnostic(v: &serde_json::Value) -> (r: Result<Diagnostic, Error>)
    ensures
        r is Err ==> r->Err_0 is Json,
{
    let message: String = match json_get(v, "message") {
        Some(m) => match json_as_str(m) {
            Some(s) => s.to_owned(),
            None => {
                return Err(json_field_error("diagnostic field 'message' must be a string"));
            },
        },
        None => {
            return Err(json_field_error("diagnostic field 'message' is missing"));
        },
    };
    let severity: DiagnosticSeverity = match json_get(v, "severity") {
        Some(s) => match json_as_str(s) {
            Some(name) => match DiagnosticSeverity::from_wire_name(name) {
                Some(sev) => sev,
                None => {
                    return Err(json_field_error("diagnostic field 'severity' names no severity"));
                },
            },
            None => {
                return Err(json_field_error("diagnostic field 'severity' must be a string"));
            },
        },
        None => {
            return Err(json_field_error("diagnostic field 'severity' is missing"));
        },
    };
    let start: usize = match json_get(v, "start") {
        Some(n) => require_u64_as_usize(json_as_u64(n), "diagnostic field 'start' must be an unsigned number")?,
        None => {
            return Err(json_field_error("diagnostic field 'start' is missing"));
        },
    };
    let end: usize = match json_get(v, "end") {
        Some(n) => require_u64_as_usize(json_as_u64(n), "diagnostic field 'end' must be an unsigned number")?,
        None => {
            return Err(json_field_error("diagnostic field 'end' is missing"));
        },
    };
    let line: usize = match json_get(v, "line") {
        Some(n) => require_u64_as_usize(json_as_u64(n), "diagnostic field 'line' must be an unsigned number")?,
        None => {
            return Err(json_field_error("diagnostic field 'line' is missing"));
        },
    };
    let column: usize = match json_get(v, "column") {
        Some(n) => require_u64_as_usize(json_as_u64(n), "diagnostic field 'column' must be an unsigned number")?,
        None => {
            return Err(json_field_error("diagnostic field 'column' is missing"));
        },
    };
    let code: Option<String> = match json_get(v, "code") {
        Some(c) => {
            if json_is_null(c) {
                None
            } else {
                match json_as_str(c) {
                    Some(s) => Some(s.to_owned()),
                    None => {
                        return Err(json_field_error("diagnostic field 'code' must be a string"));
                    },
                }
            }
        },
        None => None,
    };
    Ok(Diagnostic { message, severity, start, end, line, column, code })
}

fn map_validation_value(v: &serde_json::Value) -> (r: Result<ValidationResult, Error>)
    ensures
        r is Err ==> r->Err_0 is Json,
{
    let valid: bool = match json_get(v, "valid") {
        Some(b) => match json_as_bool(b) {
            Some(x) => x,
            None => {
                return Err(json_field_error("field 'valid' must be a boolean"));
            },
        },
        None => {
            return Err(json_field_error("field 'valid' is missing"));
        },
    };
    let mut diagnostics: Vec<Diagnostic> = Vec::new();
    match json_get(v, "diagnostics") {
        Some(d) => {
            match json_as_array(d) {
                Some(arr) => {
                    let n = arr.len();
                    let mut i: usize = 0;
                    while i < n
                        invariant
                            n == arr@.len(),
                            0 <= i <= n,
                        decreases n - i,
                    {
                        let diag = map_diagnostic(&arr[i])?;
                        diagnostics.push(diag);
                        i = i + 1;
                    }
                },
                None => {
                    return Err(json_field_error("field 'diagnostics' must be an array"));
                },
            }
        },
        None => {
            return Err(json_field_error("field 'diagnostics' is missing"));
        },
    }
    Ok(ValidationResult { valid, diagnostics })
}

fn map_completion_item(v: &serde_json::Value) -> (r: Result<CompletionItem, Error>)
    ensures
        r is Err ==> r->Err_0 is Json,
{
    let label: String = match json_get(v, "label") {
        Some(m) => match json_as_str(m) {
            Some(s) => s.to_owned(),
            None => {
                return Err(json_field_error("completion field 'label' must be a string"));
            },
        },
        None => {
            return Err(json_field_error("completion field 'label' is missing"));
        },
    };
    let kind: CompletionKind = match json_get(v, "kind") {
        Some(k) => match json_as_str(k) {
            Some(name) => match CompletionKind::from_wire_name(name) {
                Some(kind) => kind,
                None => {
                    return Err(json_field_error("completion field 'kind' names no kind"));
                },
            },
            None => {
                return Err(json_field_error("completion field 'kind' must be a string"));
            },
        },
        None => {
            return Err(json_field_error("completion field 'kind' is missing"));
        },
    };
    let detail: Option<String> = match json_get(v, "detail") {
        Some(c) => {
            if json_is_null(c) {
                None
            } else {
                match json_as_str(c) {
                    Some(s) => Some(s.to_owned()),
                    None => {
                        return Err(json_field_error("completion field 'detail' must be a string"));
                    },
                }
            }
        },
        None => None,
    };
    let insert_text: Option<String> = match json_get(v, "insert_text") {
        Some(c) => {
            if json_is_null(c) {
                None
            } else {
                match json_as_str(c) {
                    Some(s) => Some(s.to_owned()),
                    None => {
                        return Err(
                            json_field_error("completion field 'insert_text' must be a string"),
                        );
                    },
                }
            }
        },
        None => None,
    };
    // Absent ordering fields take their default values.
    let sort_order: i32 = match json_get(v, "sort_order") {
        Some(n) => match json_as_i64(n) {
            Some(x) => {
                if i32::MIN as i64 <= x && x <= i32::MAX as i64 {
                    x as i32
                } else {
                    return Err(
                        json_field_error("completion field 'sort_order' is out of range"),
                    );
                }
            },
            None => {
                return Err(json_field_error("completion field 'sort_order' must be a number"));
            },
        },
        None => 0,
    };
    let edit_start: usize = match json_get(v, "edit_start") {
        Some(n) => require_u64_as_usize(
            json_as_u64(n),
            "completion field 'edit_start' must be an unsigned number",
        )?,
        None => 0,
    };
    Ok(CompletionItem { label, kind, detail, insert_text, sort_order, edit_start })
}

fn map_completion_value(v: &serde_json::Value) -> (r: Result<CompletionResult, Error>)
    ensures
        r is Err ==> r->Err_0 is Json,
{
    let mut items: Vec<CompletionItem> = Vec::new();
    match json_get(v, "items") {
        Some(d) => {
            match json_as_array(d) {
                Some(arr) => {
                    let n = arr.len();
                    let mut i: usize = 0;
                    while i < n
                        invariant
                            n == arr@.len(),
                            0 <= i <= n,
                        decreases n - i,
                    {
                        let item = map_completion_item(&arr[i])?;
                        items.push(item);
                        i = i + 1;
                    }
                },
                None => {
                    return Err(json_field_error("field 'items' must be an array"));
                },
            }
        },
        None => {
            return Err(json_field_error("field 'items' is missing"));
        },
    }
    Ok(CompletionResult { items })
}

fn map_span(v: &serde_json::Value) -> (r: Result<ClassifiedSpan, Error>)
    ensures
        r is Err ==> r->Err_0 is Json,
{
    let start: usize = match json_get(v, "start") {
        Some(n) => require_u64_as_usize(
            json_as_u64(n),
            "span field 'start' must be an unsigned number",
        )?,
        None => {
            return Err(json_field_error("span field 'start' is missing"));
        },
    };
    let length: usize = match json_get(v, "length") {
        Some(n) => require_u64_as_usize(
            json_as_u64(n),
            "span field 'length' must be an unsigned number",
        )?,
        None => {
            return Err(json_field_error("span field 'length' is missing"));
        },
    };
    let kind: ClassificationKind = match json_get(v, "kind") {
        Some(k) => match json_as_str(k) {
            Some(name) => match ClassificationKind::from_wire_name(name) {
                Some(kind) => kind,
                None => {
                    return Err(json_field_error("span field 'kind' names no kind"));
                },
            },
            None => {
                return Err(json_field_error("span field 'kind' must be a string"));
            },
        },
        None => {
            return Err(json_field_error("span field 'kind' is missing"));
        },
    };
    Ok(ClassifiedSpan { start, length, kind })
}

fn map_classification_value(v: &serde_json::Value) -> (r: Result<ClassificationResult, Error>)
    ensures
        r is Err ==> r->Err_0 is Json,
{
    let mut spans: Vec<ClassifiedSpan> = Vec::new();
    match json_get(v, "spans") {
        Some(d) => {
            match json_as_array(d) {
                Some(arr) => {
                    let n = arr.len();
                    let mut i: usize = 0;
                    while i < n
                        invariant
                            n == arr@.len(),
                            0 <= i <= n,
                        decreases n - i,
                    {
                        let span = map_span(&arr[i])?;
                        spans.push(span);
                        i = i + 1;
                    }
                },
                None => {
                    return Err(json_field_error("field 'spans' must be an array"));
                },
            }
        },
        None => {
            return Err(json_field_error("field 'spans' is missing"));
        },
    }
    Ok(ClassificationResult { spans })
}

fn payload_to_json(bytes: &Vec<u8>) -> (r: Result<serde_json::Value, Error>)
    ensures
        !valid_utf8(bytes@) ==> (r matches Err(e) && e is Utf8),
        r is Err ==> r->Err_0 is Utf8 || r->Err_0 is Json,
{
    let text: String = match utf8_to_string(bytes.as_slice()) {
        Ok(s) => s,
        Err(valid_up_to) => {
            return Err(Error::Utf8 { valid_up_to });
        },
    };
    match parse_json(text.as_str()) {
        Ok(v) => Ok(v),
        Err(message) => Err(Error::Json { message }),
    }
}

/// Decode a validation payload: an empty reply is the valid result with no
/// diagnostics, a written reply is a UTF-8 JSON document describing the
/// verdict and its diagnostics.
pub fn decode_validation(payload: CallPayload) -> (r: Result<ValidationResult, Error>)
    ensures
        payload is Empty ==> (r matches Ok(vr) && vr.valid && vr.diagnostics@.len() == 0),
        (payload matches CallPayload::Json(b) && !valid_utf8(b@)) ==> (r matches Err(e) && e is Utf8),
        r is Err ==> r->Err_0 is Utf8 || r->Err_0 is Json,
{
    match payload {
        CallPayload::Empty => Ok(ValidationResult::valid()),
        CallPayload::Json(bytes) => {
            let v = payload_to_json(&bytes)?;
            map_validation_value(&v)
        },
    }
}

/// Decode a completion payload: an empty reply carries no items.
pub fn decode_completion(payload: CallPayload) -> (r: Result<CompletionResult, Error>)
    ensures
        payload is Empty ==> (r matches Ok(cr) && cr.items@.len() == 0),
        (payload matches CallPayload::Json(b) && !valid_utf8(b@)) ==> (r matches Err(e) && e is Utf8),
        r is Err ==> r->Err_0 is Utf8 || r->Err_0 is Json,
{
    match payload {
        CallPayload::Empty => Ok(CompletionResult::empty()),
        CallPayload::Json(bytes) => {
            let v = payload_to_json(&bytes)?;
            map_completion_value(&v)
        },
    }
}

/// Decode a classification payload: an empty reply carries no spans.
pub fn decode_classification(payload: CallPayload) -> (r: Result<ClassificationResult, Error>)
    ensures
        payload is Empty ==> (r matches Ok(cr) && cr.spans@.len() == 0),
        (payload matches CallPayload::Json(b) && !valid_utf8(b@)) ==> (r matches Err(e) && e is Utf8),
        r is Err ==> r->Err_0 is Utf8 || r->Err_0 is Json,
{
    match payload {
        CallPayload::Empty => Ok(ClassificationResult::empty()),
        CallPayload::Json(bytes) => {
            let v = payload_to_json(&bytes)?;
            map_classification_value(&v)
        },
    }
}

} // verus!
