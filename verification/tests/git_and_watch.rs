use xplorer::git::{branch_label, classify_status, get_git_info, git_info_from, trim_trailing_separators, GitFileStatus, StatusFlags};
use xplorer::state::DirRequest;
use xplorer::watcher::{group_tabs, Watcher, COOLDOWN_MS};

fn flags() -> StatusFlags {
    StatusFlags {
        conflicted: false,
        index_new: false,
        wt_new: false,
        index_deleted: false,
        wt_deleted: false,
        index_renamed: false,
        wt_renamed: false,
        index_modified: false,
        wt_modified: false,
        ignored: false,
    }
}

#[test]
fn status_classification_by_priority() {
    assert_eq!(classify_status(flags()), None);
    assert_eq!(classify_status(StatusFlags { ignored: true, ..flags() }), Some(GitFileStatus::Ignored));
    assert_eq!(classify_status(StatusFlags { wt_modified: true, ignored: true, ..flags() }), Some(GitFileStatus::Modified));
    assert_eq!(classify_status(StatusFlags { index_renamed: true, wt_modified: true, ..flags() }), Some(GitFileStatus::Renamed));
    assert_eq!(classify_status(StatusFlags { wt_deleted: true, index_renamed: true, ..flags() }), Some(GitFileStatus::Deleted));
    assert_eq!(classify_status(StatusFlags { index_new: true, ..flags() }), Some(GitFileStatus::Added));
    assert_eq!(classify_status(StatusFlags { index_new: true, wt_new: true, ..flags() }), Some(GitFileStatus::Untracked));
    assert_eq!(classify_status(StatusFlags { conflicted: true, wt_new: true, ..flags() }), Some(GitFileStatus::Conflicted));
}

#[test]
fn repository_roots_lose_trailing_separators() {
    assert_eq!(trim_trailing_separators("/repo/"), "/repo");
    assert_eq!(trim_trailing_separators("C:\\repo\\/\\"), "C:\\repo");
    assert_eq!(trim_trailing_separators("/"), "");
    assert_eq!(trim_trailing_separators("plain"), "plain");
}

#[test]
fn statuses_are_keyed_by_absolute_path_and_the_last_entry_wins() {
    let entries = vec![
        (Some("src/a.rs".to_string()), StatusFlags { wt_modified: true, ..flags() }),
        (None, StatusFlags { wt_new: true, ..flags() }),
        (Some("b.txt".to_string()), flags()),
        (Some("src/a.rs".to_string()), StatusFlags { conflicted: true, ..flags() }),
        (Some("new.md".to_string()), StatusFlags { wt_new: true, ..flags() }),
    ];
    let info = git_info_from("main".to_string(), "/repo/", &entries);
    assert_eq!(info.branch, "main");
    assert_eq!(info.repo_root, "/repo");
    assert_eq!(info.statuses.len(), 2);
    assert_eq!(info.status_of("/repo/src/a.rs"), Some(GitFileStatus::Conflicted));
    assert_eq!(info.status_of("/repo/new.md"), Some(GitFileStatus::Untracked));
    assert_eq!(info.status_of("/repo/b.txt"), None);
}

#[test]
fn branch_names() {
    assert_eq!(branch_label(Some((Some("feature/x".to_string()), "abc".to_string()))), "feature/x");
    assert_eq!(branch_label(Some((None, "0123456789abcdef".to_string()))), "0123456");
    assert_eq!(branch_label(Some((None, "abc".to_string()))), "abc");
    assert_eq!(branch_label(None), "HEAD");
}

#[test]
fn no_git_information_outside_a_repository() {
    assert!(get_git_info("/definitely/not/a/path/xplorer").is_none());
    if let Some(info) = get_git_info("/") {
        assert!(!info.repo_root.ends_with('/'));
    }
}

fn loads(reqs: &[DirRequest]) -> Vec<(usize, String)> {
    reqs.iter()
        .map(|r| match r {
            DirRequest::LoadDirectory { tab_id, path } => (*tab_id, path.clone()),
        })
        .collect()
}

#[test]
fn tabs_on_one_directory_share_a_watch() {
    let g = group_tabs(&vec![(1, "/a/b".to_string()), (2, "/c".to_string()), (3, "/a/b/".to_string())]);
    assert_eq!(g.len(), 2);
    let ab = g.iter().find(|(k, _)| k == "/a/b").unwrap();
    assert_eq!(ab.1, vec![1, 3]);
}

#[test]
fn watch_changes_start_and_stop_watching() {
    let mut w = Watcher::new();
    let c = w.watch_all(&vec![(1, "/a".to_string()), (2, "/b".to_string())]);
    assert_eq!(c.watch, vec!["/a".to_string(), "/b".to_string()]);
    assert!(c.unwatch.is_empty());
    let c = w.watch_all(&vec![(2, "/b".to_string()), (3, "/c".to_string())]);
    assert_eq!(c.unwatch, vec!["/a".to_string()]);
    assert_eq!(c.watch, vec!["/c".to_string()]);
}

#[test]
fn changes_reload_the_watching_tabs_once_per_cooldown() {
    let mut w = Watcher::new();
    w.watch_all(&vec![(1, "/a".to_string()), (2, "/a".to_string()), (3, "/b".to_string())]);
    let mut batch = Vec::new();
    let r = w.on_event("/a/file.txt", 10_000, &mut batch);
    assert_eq!(loads(&r), vec![(1, "/a".to_string()), (2, "/a".to_string())]);
    let r = w.on_event("/a/other.txt", 10_001, &mut batch);
    assert!(r.is_empty());
    let mut batch2 = Vec::new();
    let r = w.on_event("/a/file.txt", 10_000 + COOLDOWN_MS - 1, &mut batch2);
    assert!(r.is_empty());
    let r = w.on_event("/a/file.txt", 10_000 + COOLDOWN_MS, &mut batch2);
    assert_eq!(r.len(), 2);
    let mut batch3 = Vec::new();
    assert_eq!(loads(&w.on_event("/b", 50_000, &mut batch3)), vec![(3, "/b".to_string())]);
    assert!(w.on_event("/elsewhere/x", 90_000, &mut batch3).is_empty());
}

#[test]
fn a_new_repository_has_no_changes_and_an_unborn_head() {
    let dir = "/tmp/xplorer-git-empty-repo";
    git2::Repository::init(dir).unwrap();
    let info = get_git_info(dir).unwrap();
    assert!(info.statuses.is_empty());
    assert_eq!(info.repo_root, dir);
    // Without commits HEAD is unborn: it does not resolve.
    assert_eq!(info.branch, "HEAD");
}
