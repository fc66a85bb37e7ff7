use rust_roller::paths::PathSet;
use rust_roller::service::is_eligible;

#[test]
fn empty_set_holds_nothing() {
    let paths = PathSet::new();
    assert_eq!(paths.len(), 0);
    assert!(!paths.contains("/"));
    assert!(!is_eligible(&paths, ""));
}

#[test]
fn inserted_paths_are_found() {
    let mut paths = PathSet::new();
    assert!(paths.insert(String::from("/index.html")));
    assert!(paths.insert(String::from("/")));
    assert_eq!(paths.len(), 2);
    assert!(paths.contains("/index.html"));
    assert!(paths.contains("/"));
    assert!(!paths.contains("/other"));
}

#[test]
fn a_path_is_held_once() {
    let mut paths = PathSet::new();
    assert!(paths.insert(String::from("/a")));
    assert!(!paths.insert(String::from("/a")));
    assert_eq!(paths.len(), 1);
    assert!(paths.contains("/a"));
}

#[test]
fn eligibility_is_exact_membership() {
    let mut paths = PathSet::new();
    paths.insert(String::from("/page"));
    assert!(is_eligible(&paths, "/page"));
    assert!(!is_eligible(&paths, "/page/"));
    assert!(!is_eligible(&paths, "/Page"));
    assert!(!is_eligible(&paths, "/page?x=1"));
    assert!(!is_eligible(&paths, "/pag"));
    assert!(!is_eligible(&paths, "page"));
}

#[test]
fn paths_beyond_ascii_are_compared_as_written() {
    let mut paths = PathSet::new();
    paths.insert(String::from("/caf\u{e9}"));
    assert!(is_eligible(&paths, "/caf\u{e9}"));
    assert!(!is_eligible(&paths, "/cafe"));
    assert!(!is_eligible(&paths, "/cafe\u{301}"));
}

#[test]
fn a_copy_holds_the_same_paths() {
    let mut paths = PathSet::new();
    paths.insert(String::from("/a"));
    paths.insert(String::from("/b"));
    let copy = paths.clone();
    paths.insert(String::from("/c"));
    assert_eq!(copy.len(), 2);
    assert!(copy.contains("/a"));
    assert!(copy.contains("/b"));
    assert!(!copy.contains("/c"));
}

#[test]
fn paths_are_handed_out_once_each_in_insertion_order() {
    let mut paths = PathSet::new();
    paths.insert(String::from("/b"));
    paths.insert(String::from("/a"));
    paths.insert(String::from("/b"));
    paths.insert(String::from("/c"));
    assert_eq!(paths.to_vec(), vec![String::from("/b"), String::from("/a"), String::from("/c")]);
    assert_eq!(PathSet::new().to_vec(), Vec::<String>::new());
}
