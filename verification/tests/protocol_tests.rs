use kql_language_tools::{
    bind_symbols, get_classifications, get_completions, init_outcome, is_buffer_too_small,
    is_success, run_buffer_call, run_buffer_call_from, validate_syntax, validate_with_schema,
    CallPayload, Capabilities, Error, SymbolProbe, DEFAULT_BUFFER_SIZE, MAX_BUFFER_SIZE,
};
use std::cell::Cell;

fn fetch_none(buf: Vec<u8>) -> (Vec<u8>, i32) {
    (buf, 0)
}

fn write_reply(mut buf: Vec<u8>, payload: &[u8]) -> (Vec<u8>, i32) {
    buf[..payload.len()].copy_from_slice(payload);
    (buf, payload.len() as i32)
}

#[test]
fn test_return_code_predicates() {
    assert!(is_success(0));
    assert!(is_success(42));
    assert!(!is_success(-1));
    assert!(is_buffer_too_small(-1));
    assert!(!is_buffer_too_small(-2));
    assert!(!is_buffer_too_small(0));
}

#[test]
fn test_retry_makes_exactly_two_calls_then_fails() {
    let calls = Cell::new(0usize);
    let sizes: Cell<(usize, usize)> = Cell::new((0, 0));
    let call = |buf: Vec<u8>| {
        let n = calls.get() + 1;
        calls.set(n);
        let (a, b) = sizes.get();
        if n == 1 {
            sizes.set((buf.len(), b));
        } else {
            sizes.set((a, buf.len()));
        }
        (buf, -1)
    };
    let r = run_buffer_call(&call, &fetch_none);
    assert_eq!(calls.get(), 2);
    assert_eq!(sizes.get(), (DEFAULT_BUFFER_SIZE, 2 * DEFAULT_BUFFER_SIZE));
    match r {
        Err(Error::BufferTooSmall { needed, available }) => {
            assert_eq!(needed, 0);
            assert_eq!(available, 2 * DEFAULT_BUFFER_SIZE);
        }
        other => panic!("expected a buffer-too-small failure, got {:?}", other),
    }
}

#[test]
fn test_retry_capped_at_maximum_without_second_call() {
    let calls = Cell::new(0usize);
    let call = |buf: Vec<u8>| {
        calls.set(calls.get() + 1);
        (buf, -1)
    };
    let start = 3 * 1024 * 1024;
    let r = run_buffer_call_from(start, &call, &fetch_none);
    assert_eq!(calls.get(), 1);
    match r {
        Err(Error::BufferTooSmall { needed, available }) => {
            assert_eq!(needed, 2 * start);
            assert_eq!(available, MAX_BUFFER_SIZE);
        }
        other => panic!("expected a buffer-too-small failure, got {:?}", other),
    }
}

#[test]
fn test_zero_result_yields_empty_payload() {
    let call = |buf: Vec<u8>| (buf, 0);
    match run_buffer_call(&call, &fetch_none) {
        Ok(CallPayload::Empty) => {}
        other => panic!("expected the empty payload, got {:?}", other),
    }
}

#[test]
fn test_zero_result_yields_valid_validation() {
    let call = |buf: Vec<u8>| (buf, 0);
    let r = validate_syntax("StormEvents | take 10", &call, &fetch_none).unwrap();
    assert!(r.is_valid());
    assert!(r.diagnostics().is_empty());
}

#[test]
fn test_positive_result_decodes_exact_length() {
    let payload = br#"{"valid":true,"diagnostics":[]}"#;
    let call = |buf: Vec<u8>| write_reply(buf, payload);
    let r = validate_syntax("StormEvents", &call, &fetch_none).unwrap();
    assert!(r.is_valid());
    assert_eq!(r.diagnostics().len(), 0);
}

#[test]
fn test_negative_two_surfaces_parse_error() {
    let call = |buf: Vec<u8>| (buf, -2);
    let fetch = |buf: Vec<u8>| write_reply(buf, b"input bad");
    match validate_syntax("StormEvents", &call, &fetch) {
        Err(Error::NativeError { code, message }) => {
            assert_eq!(code, -2);
            assert_eq!(message, "input bad: Parse error in input");
        }
        other => panic!("expected a native error, got {:?}", other),
    }
}

#[test]
fn test_negative_error_without_message_keeps_reason() {
    let call = |buf: Vec<u8>| (buf, -3);
    match validate_syntax("q", &call, &fetch_none) {
        Err(Error::NativeError { code, message }) => {
            assert_eq!(code, -3);
            assert_eq!(message, ": Internal error");
        }
        other => panic!("expected a native error, got {:?}", other),
    }
}

#[test]
fn test_unknown_negative_code_is_named() {
    let call = |buf: Vec<u8>| (buf, -7);
    match validate_syntax("q", &call, &fetch_none) {
        Err(Error::NativeError { code, message }) => {
            assert_eq!(code, -7);
            assert_eq!(message, ": Unknown error code: -7");
        }
        other => panic!("expected a native error, got {:?}", other),
    }
}

#[test]
fn test_validate_syntax_valid_query_end_to_end() {
    let call = |buf: Vec<u8>| (buf, 0);
    let r = validate_syntax("StormEvents | where State == 'TEXAS' | take 10", &call, &fetch_none)
        .unwrap();
    assert!(r.is_valid());
    assert!(r.diagnostics().is_empty());
}

#[test]
fn test_validate_syntax_one_diagnostic_end_to_end() {
    let payload = br#"{"valid":false,"diagnostics":[{"message":"Missing expression after 'where'","severity":"Error","start":14,"end":19,"line":1,"column":15}]}"#;
    let call = |buf: Vec<u8>| write_reply(buf, payload);
    let r = validate_syntax("StormEvents | where", &call, &fetch_none).unwrap();
    assert!(!r.is_valid());
    assert_eq!(r.diagnostics().len(), 1);
    let d = &r.diagnostics()[0];
    assert_eq!(d.message, "Missing expression after 'where'");
    assert_eq!(d.line, 1);
    assert_eq!(d.column, 15);
    assert!(d.is_error());
    assert_eq!(d.length(), 5);
    assert_eq!(d.code, None);
}

#[test]
fn test_validate_with_schema_requires_capability() {
    let call = |buf: Vec<u8>| (buf, 0);
    match validate_with_schema("q", "{}", false, &call, &fetch_none) {
        Err(Error::Internal { message }) => {
            assert_eq!(message, "Schema validation not supported by loaded library");
        }
        other => panic!("expected an internal error, got {:?}", other),
    }
    let r = validate_with_schema("q", "{}", true, &call, &fetch_none).unwrap();
    assert!(r.is_valid());
}

#[test]
fn test_get_completions_requires_capability() {
    let call = |buf: Vec<u8>| (buf, 0);
    match get_completions("q", 1, None, false, &call, &fetch_none) {
        Err(Error::Internal { message }) => {
            assert_eq!(message, "Completion not supported by loaded library");
        }
        other => panic!("expected an internal error, got {:?}", other),
    }
}

#[test]
fn test_get_completions_decodes_items() {
    let payload = br#"{"items":[{"label":"where","kind":"Keyword"},{"label":"project","kind":"Keyword","detail":"operator","sort_order":2,"edit_start":16}]}"#;
    let call = |buf: Vec<u8>| write_reply(buf, payload);
    let r = get_completions("SecurityEvent | ", 16, None, true, &call, &fetch_none).unwrap();
    assert_eq!(r.items.len(), 2);
    assert_eq!(r.items[0].label, "where");
    assert_eq!(r.items[0].sort_order, 0);
    assert_eq!(r.items[0].edit_start, 0);
    assert_eq!(r.items[0].detail, None);
    assert_eq!(r.items[1].label, "project");
    assert_eq!(r.items[1].detail.as_deref(), Some("operator"));
    assert_eq!(r.items[1].sort_order, 2);
    assert_eq!(r.items[1].edit_start, 16);
}

#[test]
fn test_get_classifications_requires_capability_and_decodes() {
    let call = |buf: Vec<u8>| (buf, 0);
    match get_classifications("q", false, &call, &fetch_none) {
        Err(Error::Internal { message }) => {
            assert_eq!(message, "Classification not supported by loaded library");
        }
        other => panic!("expected an internal error, got {:?}", other),
    }
    let payload = br#"{"spans":[{"start":0,"length":11,"kind":"Table"},{"start":12,"length":1,"kind":"Punctuation"}]}"#;
    let call = |buf: Vec<u8>| write_reply(buf, payload);
    let r = get_classifications("StormEvents | take 10", true, &call, &fetch_none).unwrap();
    assert_eq!(r.spans.len(), 2);
    assert_eq!(r.spans[0].start, 0);
    assert_eq!(r.spans[0].length, 11);
    assert_eq!(
        r.spans[0].kind,
        kql_language_tools::ClassificationKind::Table
    );
}

#[test]
fn test_invalid_utf8_payload_is_a_utf8_error() {
    let payload: &[u8] = &[0x7b, 0xff, 0xfe, 0x7d];
    let call = |buf: Vec<u8>| write_reply(buf, payload);
    match validate_syntax("q", &call, &fetch_none) {
        Err(Error::Utf8 { valid_up_to }) => {
            assert_eq!(valid_up_to, 1);
        }
        other => panic!("expected a UTF-8 error, got {:?}", other),
    }
}

#[test]
fn test_malformed_json_payload_is_a_json_error() {
    let call = |buf: Vec<u8>| write_reply(buf, b"{\"valid\":");
    match validate_syntax("q", &call, &fetch_none) {
        Err(Error::Json { .. }) => {}
        other => panic!("expected a JSON error, got {:?}", other),
    }
}

#[test]
fn test_missing_field_is_a_json_error() {
    let call = |buf: Vec<u8>| write_reply(buf, b"{\"diagnostics\":[]}");
    match validate_syntax("q", &call, &fetch_none) {
        Err(Error::Json { message }) => {
            assert!(message.contains("valid"));
        }
        other => panic!("expected a JSON error, got {:?}", other),
    }
}

#[test]
fn test_unknown_severity_is_a_json_error() {
    let payload = br#"{"valid":false,"diagnostics":[{"message":"m","severity":"Fatal","start":0,"end":0,"line":1,"column":1}]}"#;
    let call = |buf: Vec<u8>| write_reply(buf, payload);
    match validate_syntax("q", &call, &fetch_none) {
        Err(Error::Json { .. }) => {}
        other => panic!("expected a JSON error, got {:?}", other),
    }
}

#[test]
fn test_overlong_reported_length_is_internal() {
    let call = |buf: Vec<u8>| {
        let n = buf.len();
        (buf, (2 * n) as i32)
    };
    match run_buffer_call_from(16, &call, &fetch_none) {
        Err(Error::Internal { .. }) => {}
        other => panic!("expected an internal error, got {:?}", other),
    }
}

#[test]
fn test_bind_symbols_full_probe() {
    let probe = SymbolProbe {
        has_init: true,
        has_cleanup: true,
        has_validate_syntax: true,
        has_get_last_error: true,
        has_validate_with_schema: true,
        has_get_completions: false,
        has_get_classifications: true,
    };
    let caps: Capabilities = bind_symbols(&probe).unwrap();
    assert!(caps.supports_schema_validation());
    assert!(!caps.supports_completion());
    assert!(caps.supports_classification());
}

#[test]
fn test_bind_symbols_missing_required_names_symbol() {
    let mut probe = SymbolProbe {
        has_init: true,
        has_cleanup: true,
        has_validate_syntax: true,
        has_get_last_error: true,
        has_validate_with_schema: false,
        has_get_completions: false,
        has_get_classifications: false,
    };
    probe.has_validate_syntax = false;
    match bind_symbols(&probe) {
        Err(Error::SymbolNotFound { symbol }) => assert_eq!(symbol, "kql_validate_syntax"),
        other => panic!("expected a missing symbol, got {:?}", other),
    }
    probe.has_cleanup = false;
    match bind_symbols(&probe) {
        Err(Error::SymbolNotFound { symbol }) => assert_eq!(symbol, "kql_cleanup"),
        other => panic!("expected a missing symbol, got {:?}", other),
    }
    probe.has_init = false;
    match bind_symbols(&probe) {
        Err(Error::SymbolNotFound { symbol }) => assert_eq!(symbol, "kql_init"),
        other => panic!("expected a missing symbol, got {:?}", other),
    }
}

#[test]
fn test_init_outcome_success_and_failure() {
    assert!(init_outcome(0, &fetch_none).is_ok());
    let fetch = |buf: Vec<u8>| write_reply(buf, b"runtime missing");
    match init_outcome(1, &fetch) {
        Err(Error::InitializationFailed { message }) => {
            assert_eq!(message, "runtime missing");
        }
        other => panic!("expected an initialization failure, got {:?}", other),
    }
    match init_outcome(-5, &fetch_none) {
        Err(Error::InitializationFailed { message }) => {
            assert_eq!(message, "Initialization returned error code: -5");
        }
        other => panic!("expected an initialization failure, got {:?}", other),
    }
}

#[test]
fn test_from_native_code_messages() {
    match Error::from_native_code(-1, "ctx") {
        Error::NativeError { code, message } => {
            assert_eq!(code, -1);
            assert_eq!(message, "ctx: Buffer too small");
        }
        other => panic!("unexpected {:?}", other),
    }
    match Error::from_native_code(-2, "c") {
        Error::NativeError { message, .. } => assert_eq!(message, "c: Parse error in input"),
        other => panic!("unexpected {:?}", other),
    }
    match Error::from_native_code(-3, "") {
        Error::NativeError { message, .. } => assert_eq!(message, ": Internal error"),
        other => panic!("unexpected {:?}", other),
    }
    match Error::from_native_code(-12, "x") {
        Error::NativeError { message, .. } => assert_eq!(message, "x: Unknown error code: -12"),
        other => panic!("unexpected {:?}", other),
    }
}

#[test]
fn test_error_descriptions() {
    let e = Error::LibraryNotFound {
        searched_paths: vec!["/a/x.so".to_string(), "x.so".to_string()],
    };
    assert_eq!(
        e.describe(),
        "Native library not found. Searched paths: [\"/a/x.so\", \"x.so\"]. Set KQL_LANGUAGE_TOOLS_PATH to specify location."
    );
    let e = Error::library_load_failed("/p/lib.so".to_string(), "bad magic".to_string());
    assert_eq!(e.describe(), "Failed to load native library from /p/lib.so: bad magic");
    let e = Error::SymbolNotFound { symbol: "kql_init".to_string() };
    assert_eq!(e.describe(), "Symbol 'kql_init' not found in native library");
    let e = Error::InitializationFailed { message: "no runtime".to_string() };
    assert_eq!(e.describe(), "Library initialization failed: no runtime");
    let e = Error::from_native_code(-3, "ctx");
    assert_eq!(e.describe(), "Native call failed with code -3: ctx: Internal error");
    let e = Error::BufferTooSmall { needed: 0, available: 131072 };
    assert_eq!(e.describe(), "Output buffer too small (needed 0 bytes, had 131072)");
    let e = Error::Json { message: "expected value".to_string() };
    assert_eq!(e.describe(), "JSON error: expected value");
    let e = Error::Utf8 { valid_up_to: 4 };
    assert_eq!(e.describe(), "UTF-8 conversion error: invalid sequence from index 4");
    let e = Error::NotInitialized;
    assert_eq!(e.describe(), "Library not initialized. Call KqlValidator::new() first.");
    let e = Error::Internal { message: "m".to_string() };
    assert_eq!(e.describe(), "Internal error: m");
}
