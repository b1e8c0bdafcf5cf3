use docserver::resolver::{contains_parent_segment, make_index, make_relative, resolve_rel_path};

#[test]
fn test_make_relative() {
    assert_eq!("foo/bar/baz", make_relative("/foo/bar/baz"));
    assert_eq!("foo/bar/baz", make_relative("///foo/bar/baz"));
}

#[test]
fn test_make_root_document() {
    assert_eq!("/foo/hello/index.html", make_index("/foo/hello"));
    assert_eq!("/foo/hello/index.html", make_index("/foo/hello/"));
    assert_eq!("/foo/hello.foo", make_index("/foo/hello.foo"));
}

#[test]
fn test_make_relative_edge_cases() {
    assert_eq!("", make_relative(""));
    assert_eq!("", make_relative("///"));
    assert_eq!("abc", make_relative("abc"));
    assert_eq!("a/b", make_relative("/a/b"));
}

#[test]
fn test_make_index_edge_cases() {
    assert_eq!("/index.html", make_index(""));
    assert_eq!("/index.html", make_index("///"));
    assert_eq!("/foo/hello/index.html", make_index("/foo/hello//"));
    // The heuristic looks for a '.' anywhere in the trimmed path, not only
    // in its final segment.
    assert_eq!("/foo.bar/baz", make_index("/foo.bar/baz"));
}

#[test]
fn test_resolve_rel_path() {
    assert_eq!("foo/hello/index.html", resolve_rel_path("/foo/hello/"));
    assert_eq!("foo/hello.foo", resolve_rel_path("///foo/hello.foo"));
    assert_eq!("/index.html", resolve_rel_path("/"));
}

#[test]
fn test_contains_parent_segment() {
    assert!(contains_parent_segment(".."));
    assert!(contains_parent_segment("../etc/passwd"));
    assert!(contains_parent_segment("foo/../bar"));
    assert!(contains_parent_segment("foo/.."));
    assert!(!contains_parent_segment(""));
    assert!(!contains_parent_segment("."));
    assert!(!contains_parent_segment("..file"));
    assert!(!contains_parent_segment("a..b"));
    assert!(!contains_parent_segment("foo/..bar/baz"));
}
