use kql_language_tools::{
    fits_native_int, load_sequence, searched_paths, Arch, Error, Platform, ResolveContext,
    SymbolProbe,
};

struct FakeHandle;

fn ctx_nowhere() -> ResolveContext {
    ResolveContext {
        override_path: None,
        exe_dir: None,
        dev_root: "/nonexistent-root".to_string(),
        platform: Platform::Linux,
        arch: Arch::X64,
    }
}

fn ctx_at_existing_file() -> ResolveContext {
    ResolveContext {
        override_path: Some("/etc/hostname".to_string()),
        exe_dir: None,
        dev_root: "/nonexistent-root".to_string(),
        platform: Platform::Linux,
        arch: Arch::X64,
    }
}

fn full_probe() -> SymbolProbe {
    SymbolProbe {
        has_init: true,
        has_cleanup: true,
        has_validate_syntax: true,
        has_get_last_error: true,
        has_validate_with_schema: true,
        has_get_completions: true,
        has_get_classifications: false,
    }
}

fn no_fetch(_l: &FakeHandle, buf: Vec<u8>) -> (Vec<u8>, i32) {
    (buf, 0)
}

#[test]
fn test_load_sequence_reports_searched_paths_when_absent() {
    let ctx = ctx_nowhere();
    let r = load_sequence(
        &ctx,
        &|_p: String| -> Result<FakeHandle, String> { panic!("nothing should be opened") },
        &|_l: &FakeHandle| full_probe(),
        &|_l: &FakeHandle| 0,
        &no_fetch,
    );
    match r {
        Err(Error::LibraryNotFound { searched_paths: listed }) => {
            assert_eq!(listed, searched_paths(&ctx));
            assert!(!listed.is_empty());
        }
        other => panic!("expected a discovery failure, got {:?}", other.err()),
    }
}

#[test]
fn test_load_sequence_reports_open_failure() {
    let r = load_sequence(
        &ctx_at_existing_file(),
        &|_p: String| -> Result<FakeHandle, String> { Err("not a loadable object".to_string()) },
        &|_l: &FakeHandle| full_probe(),
        &|_l: &FakeHandle| 0,
        &no_fetch,
    );
    match r {
        Err(Error::LibraryLoadFailed { path, message }) => {
            assert_eq!(path, "/etc/hostname");
            assert_eq!(message, "not a loadable object");
        }
        other => panic!("expected a load failure, got {:?}", other.err()),
    }
}

#[test]
fn test_load_sequence_reports_missing_symbol() {
    let mut probe = full_probe();
    probe.has_get_last_error = false;
    let r = load_sequence(
        &ctx_at_existing_file(),
        &|_p: String| -> Result<FakeHandle, String> { Ok(FakeHandle) },
        &move |_l: &FakeHandle| probe,
        &|_l: &FakeHandle| 0,
        &no_fetch,
    );
    match r {
        Err(Error::SymbolNotFound { symbol }) => assert_eq!(symbol, "kql_get_last_error"),
        other => panic!("expected a missing symbol, got {:?}", other.err()),
    }
}

#[test]
fn test_load_sequence_reports_initialization_failure() {
    let r = load_sequence(
        &ctx_at_existing_file(),
        &|_p: String| -> Result<FakeHandle, String> { Ok(FakeHandle) },
        &|_l: &FakeHandle| full_probe(),
        &|_l: &FakeHandle| 2,
        &|_l: &FakeHandle, mut buf: Vec<u8>| {
            let msg = b"managed runtime unavailable";
            buf[..msg.len()].copy_from_slice(msg);
            (buf, msg.len() as i32)
        },
    );
    match r {
        Err(Error::InitializationFailed { message }) => {
            assert_eq!(message, "managed runtime unavailable");
        }
        other => panic!("expected an initialization failure, got {:?}", other.err()),
    }
}

#[test]
fn test_load_sequence_success_reports_capabilities() {
    let r = load_sequence(
        &ctx_at_existing_file(),
        &|_p: String| -> Result<FakeHandle, String> { Ok(FakeHandle) },
        &|_l: &FakeHandle| full_probe(),
        &|_l: &FakeHandle| 0,
        &no_fetch,
    );
    let (_handle, caps) = r.unwrap();
    assert!(caps.supports_schema_validation());
    assert!(caps.supports_completion());
    assert!(!caps.supports_classification());
}

#[test]
fn test_fits_native_int() {
    assert!(fits_native_int(0));
    assert!(fits_native_int(i32::MAX as usize));
    assert!(!fits_native_int(i32::MAX as usize + 1));
}
