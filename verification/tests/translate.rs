use local_install::model::{DepDetail, DepSpec};
use local_install::translate::{translate_dep, translate_entries};
use local_install::version::fix_version;

fn empty_detail() -> DepDetail {
    DepDetail {
        package: None,
        version: None,
        registry: None,
        path: None,
        git: None,
        rev: None,
        tag: None,
        branch: None,
        default_features: true,
        features: Vec::new(),
    }
}

#[test]
fn numeric_version_gets_caret() {
    assert_eq!(fix_version("1.2.3"), "^1.2.3");
    assert_eq!(fix_version("0.4"), "^0.4");
    assert_eq!(fix_version("7"), "^7");
}

#[test]
fn non_numeric_version_passes_through() {
    assert_eq!(fix_version("*"), "*");
    assert_eq!(fix_version(">=1.0"), ">=1.0");
    assert_eq!(fix_version("^2.0"), "^2.0");
    assert_eq!(fix_version(""), "");
}

#[test]
fn simple_dep_translates_to_one_version_flag() {
    let install = translate_dep(
        "serde".to_string(),
        &DepSpec::Simple("1.2.3".to_string()),
        "/repo",
    )
    .expect("a simple descriptor translates");
    assert_eq!(install.name, "serde");
    assert_eq!(install.flags.len(), 1);
    assert_eq!(install.flags[0].name, "--version");
    assert_eq!(install.flags[0].values, vec!["^1.2.3".to_string()]);
}

#[test]
fn simple_dep_wildcard_version_unchanged() {
    let install = translate_dep(
        "anything".to_string(),
        &DepSpec::Simple("*".to_string()),
        "/repo",
    )
    .expect("a simple descriptor translates");
    assert_eq!(install.flags[0].values, vec!["*".to_string()]);
}

#[test]
fn relative_path_resolves_against_manifest_dir() {
    let detail = DepDetail {
        path: Some("../foo".to_string()),
        ..empty_detail()
    };
    let install = translate_dep("foo".to_string(), &DepSpec::Detailed(detail), "/repo/pkg")
        .expect("a detailed descriptor translates");
    assert_eq!(install.flags.len(), 1);
    assert_eq!(install.flags[0].name, "--path");
    assert_eq!(install.flags[0].values, vec!["/repo/foo".to_string()]);
}

#[test]
fn absolute_path_stands_alone() {
    let detail = DepDetail {
        path: Some("/elsewhere/foo".to_string()),
        ..empty_detail()
    };
    let install = translate_dep("foo".to_string(), &DepSpec::Detailed(detail), "/repo/pkg")
        .expect("a detailed descriptor translates");
    assert_eq!(install.flags[0].values, vec!["/elsewhere/foo".to_string()]);
}

#[test]
fn no_default_features_then_features_in_order() {
    let detail = DepDetail {
        default_features: false,
        features: vec!["x".to_string(), "y".to_string()],
        ..empty_detail()
    };
    let install = translate_dep("dep".to_string(), &DepSpec::Detailed(detail), "/repo")
        .expect("a detailed descriptor translates");
    assert_eq!(install.flags.len(), 2);
    assert_eq!(install.flags[0].name, "--no-default-features");
    assert!(install.flags[0].values.is_empty());
    assert_eq!(install.flags[1].name, "--features");
    assert_eq!(
        install.flags[1].values,
        vec!["x".to_string(), "y".to_string()]
    );
}

#[test]
fn full_flag_precedence_order() {
    let detail = DepDetail {
        package: Some("real-name".to_string()),
        version: Some("2.0".to_string()),
        registry: Some("my-registry".to_string()),
        path: Some("sub/dir".to_string()),
        git: Some("https://example.com/repo.git".to_string()),
        rev: Some("abc123".to_string()),
        tag: Some("v2".to_string()),
        branch: Some("main".to_string()),
        default_features: false,
        features: vec!["extra".to_string()],
    };
    let install = translate_dep("alias".to_string(), &DepSpec::Detailed(detail), "/work")
        .expect("a detailed descriptor translates");
    assert_eq!(install.name, "real-name");
    let names: Vec<&str> = install.flags.iter().map(|f| f.name.as_str()).collect();
    assert_eq!(
        names,
        vec![
            "--version",
            "--registry",
            "--path",
            "--git",
            "--rev",
            "--tag",
            "--branch",
            "--no-default-features",
            "--features",
        ]
    );
    assert_eq!(install.flags[0].values, vec!["^2.0".to_string()]);
    assert_eq!(install.flags[2].values, vec!["/work/sub/dir".to_string()]);
}

#[test]
fn package_override_replaces_entry_name() {
    let detail = DepDetail {
        package: Some("actual".to_string()),
        version: Some("*".to_string()),
        ..empty_detail()
    };
    let install = translate_dep("alias".to_string(), &DepSpec::Detailed(detail), "/repo")
        .expect("a detailed descriptor translates");
    assert_eq!(install.name, "actual");
}

#[test]
fn default_features_true_contributes_no_flag() {
    let detail = DepDetail {
        version: Some("1.0".to_string()),
        default_features: true,
        ..empty_detail()
    };
    let install = translate_dep("dep".to_string(), &DepSpec::Detailed(detail), "/repo")
        .expect("a detailed descriptor translates");
    assert_eq!(install.flags.len(), 1);
    assert_eq!(install.flags[0].name, "--version");
}

#[test]
fn empty_features_contribute_no_flag() {
    let detail = DepDetail {
        version: Some("1.0".to_string()),
        features: Vec::new(),
        ..empty_detail()
    };
    let install = translate_dep("dep".to_string(), &DepSpec::Detailed(detail), "/repo")
        .expect("a detailed descriptor translates");
    assert_eq!(install.flags.len(), 1);
}

#[test]
fn unrecognized_descriptor_translates_to_nothing() {
    assert!(translate_dep("dep".to_string(), &DepSpec::Other, "/repo").is_none());
}

#[test]
fn unrecognized_entry_skipped_siblings_kept() {
    let entries = vec![
        ("first".to_string(), DepSpec::Simple("1.0".to_string())),
        ("odd".to_string(), DepSpec::Other),
        ("last".to_string(), DepSpec::Simple("*".to_string())),
    ];
    let (installs, skipped) = translate_entries(entries, "/repo");
    assert_eq!(installs.len(), 2);
    assert_eq!(installs[0].name, "first");
    assert_eq!(installs[1].name, "last");
    assert_eq!(skipped, vec!["odd".to_string()]);
}
