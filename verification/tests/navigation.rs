use xplorer::listing::SortColumn;
use xplorer::state::{AppState, ClipboardOp, DirRequest, DirResponse, FileOpRequest, Tab};
use xplorer::responses::{file_op_outcome, find_tab_by_id, process_response, watch_command_for, ToastKind};
use xplorer::state::FileOpResponse;
use xplorer::top_bar::{breadcrumbs, can_go_back, can_go_forward, edit_address_bar, submit_address_bar};
use xplorer::types::FileEntry;
use xplorer::watcher::WatchCommand;

fn entry(name: &str, path: &str, is_dir: bool, size: u64) -> FileEntry {
    FileEntry {
        name: name.to_string(),
        path: path.to_string(),
        is_dir,
        size,
        modified: 0,
        file_type: String::new(),
        mime_type: None,
        is_readonly: false,
    }
}

fn load(req: &DirRequest) -> (usize, String) {
    match req {
        DirRequest::LoadDirectory { tab_id, path } => (*tab_id, path.clone()),
    }
}

#[test]
fn back_and_forward_retrace_the_history() {
    let mut tab = Tab::new(1, "/home".to_string(), "home".to_string());
    assert!(!can_go_back(&tab));
    assert!(!can_go_forward(&tab));
    tab.navigate("/home/docs".to_string());
    tab.navigate("/home/docs/old".to_string());
    assert_eq!(tab.display_name, "old");
    assert!(can_go_back(&tab));
    assert_eq!(tab.go_back(), Some("/home/docs".to_string()));
    assert_eq!(tab.path, "/home/docs");
    assert!(can_go_forward(&tab));
    assert_eq!(tab.go_forward(), Some("/home/docs/old".to_string()));
    assert_eq!(tab.go_forward(), None);
    assert_eq!(tab.go_back(), Some("/home/docs".to_string()));
    assert_eq!(tab.go_back(), Some("/home".to_string()));
    assert_eq!(tab.go_back(), None);
    assert_eq!(tab.path, "/home");
}

#[test]
fn navigating_drops_the_forward_history() {
    let mut tab = Tab::new(1, "/a".to_string(), "a".to_string());
    tab.navigate("/a/b".to_string());
    tab.go_back();
    tab.navigate("/c".to_string());
    assert_eq!(tab.history, vec!["/a".to_string(), "/c".to_string()]);
    assert_eq!(tab.history_index, 1);
    assert_eq!(tab.go_forward(), None);
    assert!(tab.loading);
    assert!(tab.filter_text.is_empty());
}

#[test]
fn sorting_keeps_folders_first_and_toggles_direction() {
    let mut tab = Tab::new(1, "/d".to_string(), "d".to_string());
    tab.entries = vec![
        entry("small.txt", "/d/small.txt", false, 1),
        entry("big.bin", "/d/big.bin", false, 100),
        entry("sub", "/d/sub", true, 0),
    ];
    tab.toggle_sort(SortColumn::Size);
    assert_eq!(tab.sort_column, SortColumn::Size);
    assert!(tab.sort_ascending);
    let names: Vec<&str> = tab.entries.iter().map(|e| e.name.as_str()).collect();
    assert_eq!(names, vec!["sub", "small.txt", "big.bin"]);
    tab.toggle_sort(SortColumn::Size);
    assert!(!tab.sort_ascending);
    let names: Vec<&str> = tab.entries.iter().map(|e| e.name.as_str()).collect();
    assert_eq!(names, vec!["sub", "big.bin", "small.txt"]);
    tab.toggle_sort(SortColumn::Name);
    assert!(tab.sort_ascending);
    let names: Vec<&str> = tab.entries.iter().map(|e| e.name.as_str()).collect();
    assert_eq!(names, vec!["sub", "big.bin", "small.txt"]);
}

#[test]
fn a_reload_keeps_the_selection_and_a_new_folder_clears_it() {
    let mut tab = Tab::new(1, "/d".to_string(), "d".to_string());
    tab.apply_directory_loaded(
        "/d".to_string(),
        Ok(vec![entry("a", "/d/a", false, 1), entry("b", "/d/b", false, 1)]),
    );
    assert!(!tab.loading);
    tab.selected_indices = vec![1, 7];
    assert_eq!(tab.selected_paths(), vec!["/d/b".to_string()]);
    tab.apply_directory_loaded(
        "/d".to_string(),
        Ok(vec![entry("0", "/d/0", false, 1), entry("b", "/d/b", false, 1), entry("a", "/d/a", false, 1)]),
    );
    assert_eq!(tab.selected_indices, vec![2]);
    assert_eq!(tab.entries[2].path, "/d/b");
    tab.apply_directory_loaded("/e".to_string(), Ok(vec![entry("x", "/e/x", false, 1)]));
    assert!(tab.selected_indices.is_empty());
    assert_eq!(tab.path, "/e");
    tab.apply_directory_loaded("/f".to_string(), Err("denied".to_string()));
    assert_eq!(tab.error, Some("denied".to_string()));
    assert_eq!(tab.path, "/e");
}

#[test]
fn app_state_requests_loads_and_numbers_tabs() {
    let mut st = AppState::new();
    assert!(st.show_sidebar);
    let t1 = st.create_tab("/home/user");
    let t2 = st.create_tab("/tmp");
    assert_eq!(t1.id, 1);
    assert_eq!(t2.id, 2);
    assert_eq!(t1.display_name, "user");
    let mut tab = t2;
    assert_eq!(load(&st.navigate_tab(&mut tab, "/tmp/x")), (2, "/tmp/x".to_string()));
    assert_eq!(load(&st.go_up_tab(&mut tab).unwrap()), (2, "/tmp".to_string()));
    assert_eq!(load(&st.go_back_tab(&mut tab).unwrap()), (2, "/tmp/x".to_string()));
    assert!(st.go_forward_tab(&mut tab).is_some());
    assert_eq!(load(&st.refresh_tab(&tab)), (2, "/tmp".to_string()));
    let mut root = Tab::new(9, "/".to_string(), "/".to_string());
    assert!(st.go_up_tab(&mut root).is_none());
}

#[test]
fn copy_cut_and_paste() {
    let mut st = AppState::new();
    let mut tab = Tab::new(1, "/src".to_string(), "src".to_string());
    tab.entries = vec![entry("a", "/src/a", false, 1), entry("b", "/src/b", false, 1)];
    st.do_copy(&tab);
    assert!(st.clipboard.is_none());
    tab.selected_indices = vec![0];
    st.do_copy(&tab);
    assert_eq!(st.clipboard.as_ref().unwrap().operation, ClipboardOp::Copy);
    let dest = Tab::new(2, "/dst".to_string(), "dst".to_string());
    match st.do_paste(&dest) {
        Some(FileOpRequest::Copy { sources, dest_dir }) => {
            assert_eq!(sources, vec!["/src/a".to_string()]);
            assert_eq!(dest_dir, "/dst");
        }
        _ => panic!("expected a copy"),
    }
    assert!(st.clipboard.is_some());
    tab.selected_indices = vec![1];
    st.do_cut(&tab);
    assert!(matches!(st.do_paste(&dest), Some(FileOpRequest::Move { .. })));
    assert!(st.clipboard.is_none());
    assert!(st.do_paste(&dest).is_none());
}

#[test]
fn delete_and_rename_requests() {
    let st = AppState::new();
    let mut tab = Tab::new(1, "/d".to_string(), "d".to_string());
    tab.entries = vec![entry("a", "/d/a", false, 1)];
    assert!(st.do_delete(&tab, true).is_none());
    tab.selected_indices = vec![0];
    match st.do_delete(&tab, false) {
        Some(FileOpRequest::Delete { paths, to_trash }) => {
            assert_eq!(paths, vec!["/d/a".to_string()]);
            assert!(!to_trash);
        }
        _ => panic!("expected a delete"),
    }
    match st.do_rename("/home/u/old.txt".to_string(), "new.txt".to_string()) {
        FileOpRequest::Rename { old_path, new_path } => {
            assert_eq!(old_path, "/home/u/old.txt");
            assert_eq!(new_path, "/home/u/new.txt");
        }
        _ => panic!("expected a rename"),
    }
    match st.do_rename("/docs/old.txt".to_string(), "new.txt".to_string()) {
        FileOpRequest::Rename { new_path, .. } => assert_eq!(new_path, "/docs/new.txt"),
        _ => panic!("expected a rename"),
    }
}

#[test]
fn responses_reach_the_tab_that_asked() {
    let mut tabs = vec![
        Tab::new(3, "/a".to_string(), "a".to_string()),
        Tab::new(5, "/b".to_string(), "b".to_string()),
    ];
    assert_eq!(find_tab_by_id(&tabs, 5), Some(1));
    assert_eq!(find_tab_by_id(&tabs, 4), None);
    process_response(
        &mut tabs,
        DirResponse::DirectoryLoaded { tab_id: 5, path: "/b".to_string(), entries: Ok(vec![entry("x", "/b/x", false, 2)]) },
    );
    assert_eq!(tabs[1].entries.len(), 1);
    assert!(!tabs[1].loading);
    assert!(tabs[0].loading);
    process_response(&mut tabs, DirResponse::DirectoryLoaded { tab_id: 8, path: "/z".to_string(), entries: Ok(vec![]) });
    assert_eq!(tabs[1].entries.len(), 1);
    match watch_command_for(&tabs) {
        WatchCommand::WatchAll { tabs: w } => assert_eq!(w, vec![(3, "/a".to_string()), (5, "/b".to_string())]),
        WatchCommand::Stop => panic!("expected a watch list"),
    }
}

#[test]
fn finished_operations_are_announced() {
    let (toast, reload) = file_op_outcome(FileOpResponse::Success { message: "Copied 2 item(s)".to_string() }, Some((4, "/w".to_string())));
    assert_eq!(toast.kind, ToastKind::Success);
    assert_eq!(toast.message, "Copied 2 item(s)");
    assert_eq!(load(&reload.unwrap()), (4, "/w".to_string()));
    let (toast, reload) = file_op_outcome(FileOpResponse::Error { message: "x: denied".to_string() }, Some((4, "/w".to_string())));
    assert_eq!(toast.kind, ToastKind::Error);
    assert!(reload.is_none());
}

#[test]
fn breadcrumbs_lead_to_each_ancestor() {
    let crumbs = breadcrumbs("/home/user/docs");
    let expected = vec![
        ("/".to_string(), "/".to_string()),
        ("home".to_string(), "/home".to_string()),
        ("user".to_string(), "/home/user".to_string()),
        ("docs".to_string(), "/home/user/docs".to_string()),
    ];
    assert_eq!(crumbs, expected);
    assert_eq!(breadcrumbs("a//b/"), vec![("a".to_string(), "a".to_string()), ("b".to_string(), "a/b".to_string())]);
}

#[test]
fn the_address_field_navigates_to_the_trimmed_text() {
    let mut tab = Tab::new(1, "/home".to_string(), "home".to_string());
    edit_address_bar(&mut tab);
    assert!(tab.editing_address_bar);
    assert_eq!(tab.address_bar_text, "/home");
    tab.address_bar_text = "  /tmp \t".to_string();
    assert_eq!(submit_address_bar(&mut tab, false, false), None);
    assert!(tab.editing_address_bar);
    assert_eq!(submit_address_bar(&mut tab, true, false), Some("/tmp".to_string()));
    assert!(!tab.editing_address_bar);
    edit_address_bar(&mut tab);
    tab.address_bar_text = "   ".to_string();
    assert_eq!(submit_address_bar(&mut tab, true, false), None);
    edit_address_bar(&mut tab);
    assert_eq!(submit_address_bar(&mut tab, false, true), None);
    assert!(!tab.editing_address_bar);
}
