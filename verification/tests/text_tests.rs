use kql_language_tools::{
    ancestor_ending_with, bytes_lt, dec_of_i32, dec_of_u64, dec_of_usize, eq_ignore_ascii_case,
    join_path, parse_base_path, pick_version_root, runtime_root_candidates, str_contains, str_eq,
    trim, ClassificationKind, CompletionKind, Diagnostic, DiagnosticSeverity, ValidationResult,
};

#[test]
fn test_str_helpers() {
    assert!(str_eq("abc", "abc"));
    assert!(!str_eq("abc", "abd"));
    assert!(eq_ignore_ascii_case("SecurityEvent", "sECURITYeVENT"));
    assert!(!eq_ignore_ascii_case("abc", "abcd"));
    assert!(str_contains("/opt/homebrew/Cellar/dotnet", "Cellar"));
    assert!(!str_contains("/usr/share/dotnet", "Cellar"));
    assert!(str_contains("aaa", ""));
    assert_eq!(join_path("/a/b", "c.so"), "/a/b/c.so");
}

#[test]
fn test_decimal_rendering() {
    assert_eq!(dec_of_u64(0), "0");
    assert_eq!(dec_of_u64(10), "10");
    assert_eq!(dec_of_u64(987654321), "987654321");
    assert_eq!(dec_of_usize(131072), "131072");
    assert_eq!(dec_of_i32(-12), "-12");
    assert_eq!(dec_of_i32(0), "0");
    assert_eq!(dec_of_i32(i32::MIN), "-2147483648");
}

#[test]
fn test_severity_parse_is_case_insensitive() {
    assert_eq!(DiagnosticSeverity::parse("warning"), DiagnosticSeverity::Warning);
    assert_eq!(DiagnosticSeverity::parse("WARNING"), DiagnosticSeverity::Warning);
    assert_eq!(DiagnosticSeverity::parse("info"), DiagnosticSeverity::Information);
    assert_eq!(DiagnosticSeverity::parse("Information"), DiagnosticSeverity::Information);
    assert_eq!(DiagnosticSeverity::parse("suggestion"), DiagnosticSeverity::Hint);
    assert_eq!(DiagnosticSeverity::parse("hint"), DiagnosticSeverity::Hint);
    assert_eq!(DiagnosticSeverity::parse("error"), DiagnosticSeverity::Error);
    assert_eq!(DiagnosticSeverity::parse("whatever"), DiagnosticSeverity::Error);
    assert_eq!(DiagnosticSeverity::Warning.name(), "Warning");
}

#[test]
fn test_classification_kind_parse() {
    assert_eq!(ClassificationKind::parse("Keyword"), ClassificationKind::Keyword);
    assert_eq!(ClassificationKind::parse("QueryOperator"), ClassificationKind::QueryOperator);
    assert_eq!(ClassificationKind::parse("PlainText"), ClassificationKind::PlainText);
    assert_eq!(ClassificationKind::parse("NoSuchKind"), ClassificationKind::PlainText);
    assert_eq!(ClassificationKind::from_wire_name("NoSuchKind"), None);
    assert_eq!(
        ClassificationKind::from_wire_name("MaterializedViewFunction"),
        Some(ClassificationKind::MaterializedViewFunction)
    );
}

#[test]
fn test_completion_kind_wire_names() {
    assert_eq!(CompletionKind::from_wire_name("Keyword"), Some(CompletionKind::Keyword));
    assert_eq!(CompletionKind::from_wire_name("Other"), Some(CompletionKind::Other));
    assert_eq!(CompletionKind::from_wire_name("keyword"), None);
}

fn diag(severity: DiagnosticSeverity) -> Diagnostic {
    Diagnostic {
        message: "m".to_string(),
        severity,
        start: 2,
        end: 7,
        line: 1,
        column: 3,
        code: Some("KS001".to_string()),
    }
}

#[test]
fn test_validation_result_queries() {
    let valid = ValidationResult::valid();
    assert!(valid.is_valid());
    assert!(!valid.has_errors());
    assert!(!valid.has_warnings());

    let mixed = ValidationResult::invalid(vec![
        diag(DiagnosticSeverity::Warning),
        diag(DiagnosticSeverity::Error),
        diag(DiagnosticSeverity::Warning),
    ]);
    assert!(!mixed.is_valid());
    assert!(mixed.has_errors());
    assert!(mixed.has_warnings());
    assert_eq!(mixed.errors().len(), 1);
    assert_eq!(mixed.warnings().len(), 2);
    assert_eq!(mixed.diagnostics().len(), 3);

    // A positive verdict with an error diagnostic still counts as invalid.
    let contradictory = ValidationResult {
        valid: true,
        diagnostics: vec![diag(DiagnosticSeverity::Error)],
    };
    assert!(!contradictory.is_valid());

    let d = diag(DiagnosticSeverity::Warning);
    assert_eq!(d.length(), 5);
    assert!(d.is_warning());
    assert!(!d.is_error());
}

#[test]
fn test_trim_and_parse_base_path() {
    assert_eq!(trim("  a b \t"), "a b");
    assert_eq!(trim(""), "");
    assert_eq!(trim(" \t "), "");

    let info = "\
.NET SDK:\n Version:   9.0.109\n\nRuntime Environment:\n OS Name:  mac\n Base Path:   /opt/homebrew/Cellar/dotnet/9.0.8/libexec/sdk/9.0.109/\n";
    assert_eq!(
        parse_base_path(info),
        Some("/opt/homebrew/Cellar/dotnet/9.0.8/libexec/sdk/9.0.109/".to_string())
    );
    assert_eq!(parse_base_path("no such field"), None);
}

#[test]
fn test_ancestor_ending_with() {
    let base = "/opt/homebrew/Cellar/dotnet/9.0.8/libexec/sdk/9.0.109";
    assert_eq!(
        ancestor_ending_with(base, "libexec"),
        Some("/opt/homebrew/Cellar/dotnet/9.0.8/libexec".to_string())
    );
    assert_eq!(ancestor_ending_with(base, "missing"), None);
    assert_eq!(ancestor_ending_with("libexec", "libexec"), Some("libexec".to_string()));
}

#[test]
fn test_bytes_lt_orders_versions() {
    assert!(bytes_lt("9.0.7", "9.0.8"));
    assert!(!bytes_lt("9.0.8", "9.0.7"));
    assert!(!bytes_lt("9.0.8", "9.0.8"));
    assert!(bytes_lt("", "a"));
    assert!(!bytes_lt("a", ""));
}

#[test]
fn test_pick_version_root_on_absent_directories() {
    // The lexicographically greatest entry is chosen, but its runtime root
    // must exist on disk; these do not.
    let entries = vec![
        "/nonexistent/cellar/9.0.7".to_string(),
        "/nonexistent/cellar/9.0.8".to_string(),
    ];
    assert_eq!(pick_version_root(&entries), None);
    assert_eq!(pick_version_root(&Vec::new()), None);
}

#[test]
fn test_runtime_root_candidates_are_fixed() {
    let c = runtime_root_candidates();
    assert_eq!(c.len(), 5);
    assert_eq!(c[0], "/opt/homebrew/Cellar/dotnet");
    assert_eq!(c[4], "C:\\Program Files\\dotnet");
}
