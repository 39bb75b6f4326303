use kql_language_tools::{
    choose_library_path, searched_paths, Arch, Platform, ProbeResults, ResolveContext,
};

fn ctx_with(override_path: Option<&str>, exe_dir: Option<&str>) -> ResolveContext {
    ResolveContext {
        override_path: override_path.map(|s| s.to_string()),
        exe_dir: exe_dir.map(|s| s.to_string()),
        dev_root: "/work/project".to_string(),
        platform: Platform::Linux,
        arch: Arch::X64,
    }
}

fn no_probes() -> ProbeResults {
    ProbeResults {
        override_is_file: false,
        override_is_dir: false,
        override_join_exists: false,
        exe_join_exists: false,
        dev_join_exists: false,
        cwd_exists: false,
    }
}

#[test]
fn test_searched_paths_not_empty() {
    let paths = searched_paths(&ctx_with(None, None));
    assert!(!paths.is_empty());
}

#[test]
fn test_searched_paths_order_with_override_and_exe() {
    let paths = searched_paths(&ctx_with(Some("/tmp/override"), Some("/usr/bin")));
    assert_eq!(
        paths,
        vec![
            "/tmp/override".to_string(),
            "/tmp/override/KqlLanguageFfiNE.so".to_string(),
            "/usr/bin/KqlLanguageFfiNE.so".to_string(),
            "/work/project/dotnet/native/linux-x64/KqlLanguageFfiNE.so".to_string(),
            "KqlLanguageFfiNE.so".to_string(),
        ]
    );
}

#[test]
fn test_searched_paths_without_override() {
    let paths = searched_paths(&ctx_with(None, None));
    assert_eq!(
        paths,
        vec![
            "/work/project/dotnet/native/linux-x64/KqlLanguageFfiNE.so".to_string(),
            "KqlLanguageFfiNE.so".to_string(),
        ]
    );
}

#[test]
fn test_override_file_is_returned_exactly() {
    let ctx = ctx_with(Some("/somewhere/libkql.so"), Some("/usr/bin"));
    let mut pr = no_probes();
    pr.override_is_file = true;
    // Later candidates existing must not matter.
    pr.exe_join_exists = true;
    pr.dev_join_exists = true;
    pr.cwd_exists = true;
    let r = choose_library_path(&ctx, &pr);
    assert_eq!(r, Some("/somewhere/libkql.so".to_string()));
}

#[test]
fn test_override_directory_joins_library_name() {
    let ctx = ctx_with(Some("/somewhere/libs"), Some("/usr/bin"));
    let mut pr = no_probes();
    pr.override_is_dir = true;
    pr.override_join_exists = true;
    pr.exe_join_exists = true;
    let r = choose_library_path(&ctx, &pr);
    assert_eq!(r, Some("/somewhere/libs/KqlLanguageFfiNE.so".to_string()));
}

#[test]
fn test_override_directory_without_library_falls_through() {
    let ctx = ctx_with(Some("/somewhere/libs"), Some("/usr/bin"));
    let mut pr = no_probes();
    pr.override_is_dir = true;
    pr.exe_join_exists = true;
    let r = choose_library_path(&ctx, &pr);
    assert_eq!(r, Some("/usr/bin/KqlLanguageFfiNE.so".to_string()));
}

#[test]
fn test_resolution_order_exe_dev_cwd() {
    let ctx = ctx_with(None, Some("/usr/bin"));
    let mut pr = no_probes();
    pr.exe_join_exists = true;
    pr.dev_join_exists = true;
    pr.cwd_exists = true;
    assert_eq!(
        choose_library_path(&ctx, &pr),
        Some("/usr/bin/KqlLanguageFfiNE.so".to_string())
    );
    pr.exe_join_exists = false;
    assert_eq!(
        choose_library_path(&ctx, &pr),
        Some("/work/project/dotnet/native/linux-x64/KqlLanguageFfiNE.so".to_string())
    );
    pr.dev_join_exists = false;
    assert_eq!(choose_library_path(&ctx, &pr), Some("KqlLanguageFfiNE.so".to_string()));
    pr.cwd_exists = false;
    assert_eq!(choose_library_path(&ctx, &pr), None);
}

#[test]
fn test_every_resolution_is_a_searched_path() {
    let ctx = ctx_with(Some("/o"), Some("/e"));
    let searched = searched_paths(&ctx);
    let combos = [true, false];
    for &f in &combos {
        for &d in &combos {
            for &j in &combos {
                for &e in &combos {
                    for &dev in &combos {
                        for &cwd in &combos {
                            let pr = ProbeResults {
                                override_is_file: f,
                                override_is_dir: d,
                                override_join_exists: j,
                                exe_join_exists: e,
                                dev_join_exists: dev,
                                cwd_exists: cwd,
                            };
                            if let Some(p) = choose_library_path(&ctx, &pr) {
                                assert!(searched.contains(&p));
                            }
                        }
                    }
                }
            }
        }
    }
}
