use local_install::model::InstallError;
use local_install::walk::manifest_installs;

#[test]
fn manifest_without_metadata_yields_nothing() {
    let text = "[package]\nname = \"demo\"\nversion = \"0.1.0\"\n";
    let sets = manifest_installs(text, "/proj/Cargo.toml", None).expect("loads").0;
    assert!(sets.is_empty());
}

#[test]
fn empty_manifest_yields_nothing() {
    let sets = manifest_installs("", "/proj/Cargo.toml", None).expect("loads").0;
    assert!(sets.is_empty());
}

#[test]
fn metadata_without_local_install_yields_nothing() {
    let text = "[package.metadata]\nother = \"x\"\n";
    let sets = manifest_installs(text, "/proj/Cargo.toml", None).expect("loads").0;
    assert!(sets.is_empty());
}

#[test]
fn empty_local_install_table_yields_nothing() {
    let text = "[package.metadata.local-install]\n";
    let sets = manifest_installs(text, "/proj/Cargo.toml", None).expect("loads").0;
    assert!(sets.is_empty());
}

#[test]
fn simple_entry_yields_one_set() {
    let text = "[package.metadata.local-install]\ncargo-expand = \"1.0.17\"\n";
    let sets = manifest_installs(text, "/proj/Cargo.toml", None).expect("loads").0;
    assert_eq!(sets.len(), 1);
    let set = &sets[0];
    assert_eq!(set.src.as_deref(), Some("/proj/Cargo.toml"));
    assert_eq!(set.bin, "/proj/bin");
    assert_eq!(set.installs.len(), 1);
    assert_eq!(set.installs[0].name, "cargo-expand");
    assert_eq!(set.installs[0].flags[0].name, "--version");
    assert_eq!(set.installs[0].flags[0].values, vec!["^1.0.17".to_string()]);
}

#[test]
fn override_bin_replaces_manifest_bin() {
    let text = "[package.metadata.local-install]\ntool = \"*\"\n";
    let sets = manifest_installs(text, "/proj/Cargo.toml", Some("/custom/bin".to_string()))
        .expect("loads").0;
    assert_eq!(sets[0].bin, "/custom/bin");
}

#[test]
fn workspace_entries_precede_package_entries() {
    let text = "[workspace.metadata.local-install]\nws-tool = \"1.0\"\n[package.metadata.local-install]\npkg-tool = \"2.0\"\n";
    let sets = manifest_installs(text, "/proj/Cargo.toml", None).expect("loads").0;
    assert_eq!(sets.len(), 1);
    let names: Vec<&str> = sets[0].installs.iter().map(|i| i.name.as_str()).collect();
    assert_eq!(names, vec!["ws-tool", "pkg-tool"]);
}

#[test]
fn same_name_in_both_tables_yields_two_installs() {
    let text = "[workspace.metadata.local-install]\ntool = \"1.0\"\n[package.metadata.local-install]\ntool = \"2.0\"\n";
    let sets = manifest_installs(text, "/proj/Cargo.toml", None).expect("loads").0;
    assert_eq!(sets[0].installs.len(), 2);
    assert_eq!(sets[0].installs[0].flags[0].values, vec!["^1.0".to_string()]);
    assert_eq!(sets[0].installs[1].flags[0].values, vec!["^2.0".to_string()]);
}

#[test]
fn detailed_entry_from_text() {
    let text = "[package.metadata.local-install.tool]\nversion = \"0.3\"\npath = \"../tool\"\ndefault-features = false\nfeatures = [\"a\", \"b\"]\n";
    let sets = manifest_installs(text, "/repo/pkg/Cargo.toml", None).expect("loads").0;
    let install = &sets[0].installs[0];
    assert_eq!(install.name, "tool");
    let names: Vec<&str> = install.flags.iter().map(|f| f.name.as_str()).collect();
    assert_eq!(
        names,
        vec!["--version", "--path", "--no-default-features", "--features"]
    );
    assert_eq!(install.flags[0].values, vec!["^0.3".to_string()]);
    assert_eq!(install.flags[1].values, vec!["/repo/tool".to_string()]);
    assert!(install.flags[2].values.is_empty());
    assert_eq!(
        install.flags[3].values,
        vec!["a".to_string(), "b".to_string()]
    );
}

#[test]
fn unrecognized_entry_skipped_from_text() {
    let text = "[package.metadata.local-install]\nbad = 5\ngood = \"1.0\"\n";
    let sets = manifest_installs(text, "/proj/Cargo.toml", None).expect("loads").0;
    assert_eq!(sets.len(), 1);
    assert_eq!(sets[0].installs.len(), 1);
    assert_eq!(sets[0].installs[0].name, "good");
}

#[test]
fn inherited_marker_skipped_from_text() {
    let text = "[package.metadata.local-install]\ninherited = { workspace = true }\nkept = \">=0.2\"\n";
    let sets = manifest_installs(text, "/proj/Cargo.toml", None).expect("loads").0;
    assert_eq!(sets[0].installs.len(), 1);
    assert_eq!(sets[0].installs[0].name, "kept");
    assert_eq!(sets[0].installs[0].flags[0].values, vec![">=0.2".to_string()]);
}

#[test]
fn only_unrecognized_entries_yield_nothing() {
    let text = "[package.metadata.local-install]\nodd = 5\n";
    let sets = manifest_installs(text, "/proj/Cargo.toml", None).expect("loads").0;
    assert!(sets.is_empty());
}

#[test]
fn malformed_text_is_a_parse_error() {
    let err = manifest_installs("not == toml", "/proj/Cargo.toml", None).unwrap_err();
    assert!(matches!(err, InstallError::ParseError(_)));
}

#[test]
fn non_table_section_is_a_schema_error() {
    let err = manifest_installs("workspace = 5\n", "/proj/Cargo.toml", None).unwrap_err();
    assert!(matches!(err, InstallError::SchemaError(_)));
}

#[test]
fn non_table_metadata_is_a_schema_error() {
    let text = "[package]\nmetadata = \"nope\"\n";
    let err = manifest_installs(text, "/proj/Cargo.toml", None).unwrap_err();
    assert!(matches!(err, InstallError::SchemaError(_)));
}

#[test]
fn non_table_local_install_is_a_schema_error() {
    let text = "[package.metadata]\nlocal-install = 3\n";
    let err = manifest_installs(text, "/proj/Cargo.toml", None).unwrap_err();
    assert!(matches!(err, InstallError::SchemaError(_)));
}

#[test]
fn manifest_path_without_parent_is_a_path_error() {
    let text = "[package.metadata.local-install]\ntool = \"1.0\"\n";
    let err = manifest_installs(text, "x", None).unwrap_err();
    assert!(matches!(err, InstallError::PathError(_)));
}

#[test]
fn unknown_fields_are_ignored() {
    let text = "[package]\nname = \"demo\"\nunknown-key = 12\n[package.metadata]\nother-extension = { x = 1 }\n[package.metadata.local-install.tool]\nversion = \"1.0\"\nunknown-field = \"kept out\"\n";
    let sets = manifest_installs(text, "/proj/Cargo.toml", None).expect("loads").0;
    assert_eq!(sets[0].installs.len(), 1);
    let names: Vec<&str> = sets[0].installs[0]
        .flags
        .iter()
        .map(|f| f.name.as_str())
        .collect();
    assert_eq!(names, vec!["--version"]);
}

#[test]
fn skipped_entry_names_are_reported() {
    let text = "[package.metadata.local-install]\nbad = 5\ngood = \"1.0\"\n";
    let (sets, skipped) = manifest_installs(text, "/proj/Cargo.toml", None).expect("loads");
    assert_eq!(sets.len(), 1);
    assert_eq!(skipped, vec!["bad".to_string()]);
}

#[test]
fn nothing_skipped_when_all_entries_recognized() {
    let text = "[package.metadata.local-install]\ntool = \"1.0\"\n";
    let (_, skipped) = manifest_installs(text, "/proj/Cargo.toml", None).expect("loads");
    assert!(skipped.is_empty());
}
