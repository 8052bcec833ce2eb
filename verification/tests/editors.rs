use panel_rust::editor_detect::{
    detect_installed_editors, editor_bin_named, editor_program, resolve_editor_bin,
    well_known_editor_paths, which_binary, EditorProbe,
};

fn probe(dirs: &[&str], home: Option<&str>, files: &[&str]) -> EditorProbe {
    EditorProbe {
        search_dirs: Some(dirs.iter().map(|s| s.to_string()).collect()),
        home: home.map(|s| s.to_string()),
        files: files.iter().map(|s| s.to_string()).collect(),
    }
}

#[test]
fn which_binary_finds_a_real_binary_known_to_exist() {
    let probe = probe(&["/usr/local/bin", "/bin"], None, &["/bin/sh"]);
    assert!(which_binary("sh", &probe).is_some());
    assert_eq!(which_binary("sh", &probe).as_deref(), Some("/bin/sh"));
}

#[test]
fn which_binary_returns_none_for_a_made_up_name() {
    let probe = probe(&["/usr/local/bin", "/bin"], None, &["/bin/sh"]);
    assert!(which_binary("definitely-not-a-real-binary-xyz123", &probe).is_none());
}

#[test]
fn detect_installed_editors_only_returns_real_candidates() {
    let probe = probe(&["/usr/bin"], Some("/home/u"), &["/usr/bin/code", "/usr/bin/sh"]);
    let detected = detect_installed_editors(&probe);
    assert_eq!(detected.len(), 1);
    for name in &detected {
        assert!(editor_bin_named(name).is_some());
    }
    assert_eq!(editor_bin_named(&detected[0]).as_deref(), Some("code"));
}

#[test]
fn well_known_paths_cover_common_install_locations() {
    let code = well_known_editor_paths("code", &None);
    assert!(code.contains(&"/usr/local/bin/code".to_owned()));
    assert!(code.contains(&"/snap/bin/code".to_owned()));
    assert!(
        code.iter().any(|p| p.contains(".app")),
        "must include the macOS VS Code .app CLI shim"
    );
    let subl = well_known_editor_paths("subl", &None);
    assert!(subl.contains(&"/usr/local/bin/subl".to_owned()));
}

#[test]
fn resolve_editor_bin_returns_an_absolute_path_for_a_path_binary() {
    let probe = probe(&["/usr/local/bin", "/bin"], None, &["/bin/sh"]);
    let resolved = resolve_editor_bin("sh", &probe).expect("sh resolvable");
    assert!(resolved.starts_with('/'));
    assert!(resolved.ends_with("sh"));
}

#[test]
fn resolve_editor_bin_falls_back_to_well_known_location_off_path() {
    let fake = "/tmp/home/.local/bin/subl";
    let probe = probe(&["/bin"], Some("/tmp/home"), &[fake]);
    let resolved = well_known_editor_paths("subl", &probe.home)
        .into_iter()
        .find(|c| probe.files.contains(c));
    assert_eq!(resolved.as_deref(), Some(fake));
    assert_eq!(resolve_editor_bin("subl", &probe).as_deref(), Some(fake));
}

#[test]
fn an_editor_that_is_nowhere_is_launched_by_its_name() {
    let probe = probe(&[], None, &[]);
    assert_eq!(editor_program("code", &probe), "code");
    assert!(editor_bin_named("Notepad").is_none());
}
