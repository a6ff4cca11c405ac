use xplorer::bookmarks::{add_bookmark, get_bookmarks, remove_bookmark};
use xplorer::system::{is_hidden, list_drives};
use xplorer::types::Bookmark;

#[test]
fn test_bookmarks_round_trip() {
    let mut store: Vec<Bookmark> = Vec::new();
    remove_bookmark(&mut store, "/test/bookmark");

    let bm = add_bookmark(&mut store, "Test".to_string(), "/test/bookmark".to_string());
    assert_eq!(bm.name, "Test");
    assert_eq!(bm.path, "/test/bookmark");

    let all = get_bookmarks(&store);
    assert!(all.iter().any(|b| b.path == "/test/bookmark"));

    remove_bookmark(&mut store, "/test/bookmark");
    let all = get_bookmarks(&store);
    assert!(!all.iter().any(|b| b.path == "/test/bookmark"));
}

#[test]
fn test_is_hidden_dot_prefix() {
    assert!(is_hidden("/home/user/.hidden_file"));
}

#[test]
fn test_is_hidden_normal_file() {
    assert!(!is_hidden("/home/user/normal.txt"));
}

#[test]
fn test_list_drives_does_not_panic() {
    let result = list_drives();
    assert!(result.is_ok());
    assert!(!result.unwrap().is_empty());
}
