use local_install::paths::parent_of_path;
use local_install::walk::{manifest_installs, Walker};

#[test]
fn parent_of_nested_path() {
    assert_eq!(parent_of_path("/a/b/c").as_deref(), Some("/a/b"));
    assert_eq!(parent_of_path("/a").as_deref(), Some("/"));
    assert_eq!(parent_of_path("/"), None);
    assert_eq!(parent_of_path("alone"), None);
}

#[test]
fn walker_probes_ancestors_in_order() {
    let mut w = Walker::start("/a/b/c".to_string());
    assert_eq!(w.candidate().as_deref(), Some("/a/b/c/Cargo.toml"));
    w.step_not_found();
    assert_eq!(w.candidate().as_deref(), Some("/a/b/Cargo.toml"));
    w.step_not_found();
    assert_eq!(w.candidate().as_deref(), Some("/a/Cargo.toml"));
    w.step_not_found();
    assert_eq!(w.candidate().as_deref(), Some("/Cargo.toml"));
    w.step_not_found();
    assert_eq!(w.candidate(), None);
}

#[test]
fn walker_ends_after_relative_component() {
    let mut w = Walker::start("dir".to_string());
    assert_eq!(w.candidate().as_deref(), Some("dir/Cargo.toml"));
    w.step_not_found();
    assert_eq!(w.candidate(), None);
}

/// An empty manifest at `a/b` shadows an ancestor manifest at `a` that
/// does have entries: the walk stops at the first manifest found, and
/// the result is empty.
#[test]
fn closer_empty_manifest_shadows_farther_entries() {
    let manifests = [
        ("/a/Cargo.toml", "[package.metadata.local-install]\ntool = \"1.0\"\n"),
        ("/a/b/Cargo.toml", "[package]\nname = \"shadow\"\n"),
    ];
    let probe = |path: &str| -> Option<&'static str> {
        manifests
            .iter()
            .find(|(p, _)| *p == path)
            .map(|(_, text)| *text)
    };

    let mut w = Walker::start("/a/b/c".to_string());
    let mut result = Vec::new();
    while let Some(candidate) = w.candidate() {
        if let Some(text) = probe(&candidate) {
            result = manifest_installs(text, &candidate, None).expect("loads").0;
            break;
        }
        w.step_not_found();
    }
    assert!(result.is_empty());
}

/// The same walk finds the entries when nothing closer shadows them.
#[test]
fn unshadowed_ancestor_manifest_is_found() {
    let manifests = [
        ("/a/Cargo.toml", "[package.metadata.local-install]\ntool = \"1.0\"\n"),
    ];
    let probe = |path: &str| -> Option<&'static str> {
        manifests
            .iter()
            .find(|(p, _)| *p == path)
            .map(|(_, text)| *text)
    };

    let mut w = Walker::start("/a/b/c".to_string());
    let mut result = Vec::new();
    while let Some(candidate) = w.candidate() {
        if let Some(text) = probe(&candidate) {
            result = manifest_installs(text, &candidate, None).expect("loads").0;
            break;
        }
        w.step_not_found();
    }
    assert_eq!(result.len(), 1);
    assert_eq!(result[0].installs[0].name, "tool");
    assert_eq!(result[0].bin, "/a/bin");
    assert_eq!(result[0].src.as_deref(), Some("/a/Cargo.toml"));
}
