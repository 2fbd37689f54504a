use local_install::paths::{join_child, join_rel};

#[test]
fn join_child_inserts_separator() {
    assert_eq!(join_child("/a/b", "Cargo.toml"), "/a/b/Cargo.toml");
    assert_eq!(join_child("/", "Cargo.toml"), "/Cargo.toml");
}

#[test]
fn join_rel_resolves_parent_components() {
    assert_eq!(join_rel("/repo/pkg", "../foo"), "/repo/foo");
    assert_eq!(join_rel("/repo/pkg", "../../foo"), "/foo");
    assert_eq!(join_rel("/repo", "a/../b"), "/repo/b");
}

#[test]
fn join_rel_skips_dot_components() {
    assert_eq!(join_rel("/repo", "./sub/dir"), "/repo/sub/dir");
    assert_eq!(join_rel("/repo", "."), "/repo");
}

#[test]
fn join_rel_plain_components_append() {
    assert_eq!(join_rel("/repo", "sub"), "/repo/sub");
    assert_eq!(join_rel("/", "x"), "/x");
}

#[test]
fn join_rel_absolute_path_stands_alone() {
    assert_eq!(join_rel("/repo", "/elsewhere"), "/elsewhere");
}

#[test]
fn join_rel_parent_of_root_stays_at_root() {
    assert_eq!(join_rel("/a", ".."), "/");
    assert_eq!(join_rel("/", ".."), "/");
}
