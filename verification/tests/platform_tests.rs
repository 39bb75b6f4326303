use kql_language_tools::{current_rid, lib_name, override_variable_name, Arch, Platform};

#[test]
fn test_current_rid() {
    let rid = current_rid(Platform::Linux, Arch::X64);
    assert!(!rid.is_empty());
    assert!(rid.starts_with("linux-"));
    let rid = current_rid(Platform::MacOs, Arch::Arm64);
    assert!(rid.starts_with("osx-"));
    let rid = current_rid(Platform::Windows, Arch::X64);
    assert!(rid.starts_with("win-"));
}

#[test]
fn test_rid_exact_values() {
    assert_eq!(current_rid(Platform::MacOs, Arch::X64), "osx-x64");
    assert_eq!(current_rid(Platform::MacOs, Arch::Arm64), "osx-arm64");
    assert_eq!(current_rid(Platform::Linux, Arch::X64), "linux-x64");
    assert_eq!(current_rid(Platform::Linux, Arch::Arm64), "linux-arm64");
    assert_eq!(current_rid(Platform::Windows, Arch::X64), "win-x64");
    assert_eq!(current_rid(Platform::Windows, Arch::Arm64), "win-arm64");
}

#[test]
fn test_lib_name_nonempty_per_platform() {
    assert_eq!(lib_name(Platform::MacOs), "KqlLanguageFfiNE.dylib");
    assert_eq!(lib_name(Platform::Linux), "KqlLanguageFfiNE.so");
    assert_eq!(lib_name(Platform::Windows), "KqlLanguageFfiNE.dll");
    assert!(!lib_name(Platform::Linux).is_empty());
}

#[test]
fn test_override_variable_name() {
    assert_eq!(override_variable_name(), "KQL_LANGUAGE_TOOLS_PATH");
}
