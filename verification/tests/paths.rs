//! Path derivation: flattened identifiers, parents, names, child joins,
//! and the substring scan.

use checkmate::strutil::child_path;
use checkmate::strutil::flatten_path;
use checkmate::strutil::last_segment;
use checkmate::strutil::parent_path;
use checkmate::strutil::str_contains;
use checkmate::config::folders::Folder;

fn bare_folder(path: &str) -> Folder {
    Folder {
        path: path.to_string(),
        title: "T".to_string(),
        attributes: None,
        rulesets: None,
        hosts: None,
        folders: Vec::new(),
    }
}

#[test]
fn flattened_id_of_nested_path() {
    assert_eq!(flatten_path("/a/b/c"), "~a~b~c");
}

#[test]
fn flattened_id_of_root() {
    assert_eq!(flatten_path("/"), "~");
    assert_ne!(flatten_path("/"), flatten_path("/a"));
}

#[test]
fn folder_id_uses_flattened_path() {
    assert_eq!(bare_folder("/a/b/c").id(), "~a~b~c");
    assert_eq!(bare_folder("/").id(), "~");
}

#[test]
fn parent_of_nested_path() {
    assert_eq!(parent_path("/a/b"), "/a");
    assert_eq!(parent_path("/a"), "/");
    assert_eq!(parent_path("/"), "");
}

#[test]
fn folder_parent_is_flattened() {
    assert_eq!(bare_folder("/a/b").parent(), "~a");
    assert_eq!(bare_folder("/a").parent(), "~");
    assert_eq!(bare_folder("/").parent(), "");
}

#[test]
fn name_is_last_segment() {
    assert_eq!(last_segment("/a/b"), "b");
    assert_eq!(last_segment("/"), "");
    assert_eq!(bare_folder("/a/b").name(), "b");
    assert_eq!(bare_folder("/").name(), "");
}

#[test]
fn child_path_joins_below_parent() {
    assert_eq!(child_path("/", "a"), "/a");
    assert_eq!(child_path("/a", "b"), "/a/b");
    assert_eq!(child_path("/", "/a"), "/a");
}

#[test]
fn substring_scan() {
    assert!(str_contains("hello world", "lo wo"));
    assert!(str_contains("abc", ""));
    assert!(str_contains("", ""));
    assert!(!str_contains("abc", "abd"));
    assert!(!str_contains("ab", "abc"));
    assert!(str_contains("aaab", "aab"));
}
