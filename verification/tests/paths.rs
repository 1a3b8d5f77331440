use omiros::paths::{expand_home, join_path, parent_path};

#[test]
fn join_puts_one_separator_between() {
    assert_eq!(join_path("/dots", "a/b"), "/dots/a/b");
    assert_eq!(join_path("/dots/", "a/b"), "/dots/a/b");
    assert_eq!(join_path("", "a"), "a");
    assert_eq!(join_path("/dots", ""), "/dots/");
}

#[test]
fn join_with_absolute_path_is_that_path() {
    assert_eq!(join_path("/dots", "/etc/hosts"), "/etc/hosts");
}

#[test]
fn parent_drops_the_last_segment() {
    assert_eq!(parent_path("/a/b/c"), Some("/a/b".to_string()));
    assert_eq!(parent_path("/a/b/"), Some("/a".to_string()));
    assert_eq!(parent_path("/a//b"), Some("/a".to_string()));
    assert_eq!(parent_path("a/b"), Some("a".to_string()));
}

#[test]
fn parent_of_edge_paths() {
    assert_eq!(parent_path("/a"), Some("/".to_string()));
    assert_eq!(parent_path("a"), Some("".to_string()));
    assert_eq!(parent_path("/"), None);
    assert_eq!(parent_path("///"), None);
    assert_eq!(parent_path(""), None);
}

#[test]
fn expand_home_keeps_other_paths() {
    assert_eq!(expand_home("/usr/~/x", "/home/me"), "/usr/~/x");
    assert_eq!(expand_home("~/x", "/home/me"), "/home/me/x");
    assert_eq!(expand_home("~/x", ""), "x");
}
