//! Platform identity: the runtime-identifier tag and the platform-specific
//! file name of the native library.
//!
//! Both are fixed functions of the operating-system family and the CPU
//! architecture; every supported pair has an answer, so neither function
//! can fail.

use vstd::prelude::*;

verus! {

/// Operating-system family of a supported host.
#[derive(Clone, Copy, Debug, PartialEq, Eq, Structural)]
pub enum Platform {
    MacOs,
    Linux,
    Windows,
}

/// CPU architecture of a supported host.
#[derive(Clone, Copy, Debug, PartialEq, Eq, Structural)]
pub enum Arch {
    X64,
    Arm64,
}

/// The runtime-identifier tag of a platform/architecture pair.
pub open spec fn spec_rid(platform: Platform, arch: Arch) -> Seq<char> {
    match (platform, arch) {
        (Platform::MacOs, Arch::X64) => "osx-x64"@,
        (Platform::MacOs, Arch::Arm64) => "osx-arm64"@,
        (Platform::Linux, Arch::X64) => "linux-x64"@,
        (Platform::Linux, Arch::Arm64) => "linux-arm64"@,
        (Platform::Windows, Arch::X64) => "win-x64"@,
        (Platform::Windows, Arch::Arm64) => "win-arm64"@,
    }
}

/// The file name of the native library on a platform.
pub open spec fn spec_lib_name(platform: Platform) -> Seq<char> {
    match platform {
        Platform::MacOs => "KqlLanguageFfiNE.dylib"@,
        Platform::Linux => "KqlLanguageFfiNE.so"@,
        Platform::Windows => "KqlLanguageFfiNE.dll"@,
    }
}

/// Get the runtime identifier for a host platform.
pub fn current_rid(platform: Platform, arch: Arch) -> (r: &'static str)
    ensures
        r@ == spec_rid(platform, arch),
{
    match (platform, arch) {
        (Platform::MacOs, Arch::X64) => "osx-x64",
        (Platform::MacOs, Arch::Arm64) => "osx-arm64",
        (Platform::Linux, Arch::X64) => "linux-x64",
        (Platform::Linux, Arch::Arm64) => "linux-arm64",
        (Platform::Windows, Arch::X64) => "win-x64",
        (Platform::Windows, Arch::Arm64) => "win-arm64",
    }
}

/// Platform-specific library name of the native export library.
pub fn lib_name(platform: Platform) -> (r: &'static str)
    ensures
        r@ == spec_lib_name(platform),
{
    match platform {
        Platform::MacOs => "KqlLanguageFfiNE.dylib",
        Platform::Linux => "KqlLanguageFfiNE.so",
        Platform::Windows => "KqlLanguageFfiNE.dll",
    }
}

/// Name of the environment variable that overrides library resolution.
pub fn override_variable_name() -> (r: &'static str)
    ensures
        r@ == "KQL_LANGUAGE_TOOLS_PATH"@,
{
    "KQL_LANGUAGE_TOOLS_PATH"
}

/// Every supported platform/architecture pair has a non-empty tag and a
/// non-empty library file name, and the tag opens with its family's prefix.
pub proof fn lemma_identity_nonempty_and_prefixed(platform: Platform, arch: Arch)
    ensures
        spec_rid(platform, arch).len() > 0,
        spec_lib_name(platform).len() > 0,
        platform is MacOs ==> spec_rid(platform, arch).subrange(0, 4) =~= "osx-"@,
        platform is Linux ==> spec_rid(platform, arch).subrange(0, 6) =~= "linux-"@,
        platform is Windows ==> spec_rid(platform, arch).subrange(0, 4) =~= "win-"@,
{
    reveal_strlit("osx-x64");
    reveal_strlit("osx-arm64");
    reveal_strlit("linux-x64");
    reveal_strlit("linux-arm64");
    reveal_strlit("win-x64");
    reveal_strlit("win-arm64");
    reveal_strlit("osx-");
    reveal_strlit("linux-");
    reveal_strlit("win-");
    reveal_strlit("KqlLanguageFfiNE.dylib");
    reveal_strlit("KqlLanguageFfiNE.so");
    reveal_strlit("KqlLanguageFfiNE.dll");
}

} // verus!
