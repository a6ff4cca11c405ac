use xplorer::status_bar::{item_count_text, selected_text, undo_text};
use xplorer::bookmarks::{add_bookmark, bookmarks_dir_under, bookmarks_file, remove_bookmark};
use xplorer::error::CoreError;
use xplorer::file_ops::{check_copy_dir, check_copy_file, check_delete_dir, check_delete_file, check_exists, copy_step, failure_message, move_fallback, CopyStep, MoveFallback};
use xplorer::numbers::{decimal_chars, group_digits, zero_padded_decimal};
use xplorer::session::{config_dir_under, delete_workspace, save_workspace, TabSession, WorkspaceStore};
use xplorer::sidebar::{drive_is_active, drive_label, drive_used, quick_access, quick_access_entries, starts_with};
use xplorer::state::FileOpResponse;
use xplorer::system::{drive_letters, macos_drives, windows_drive};
use xplorer::timestamps::{format_long_timestamp, format_timestamp, stamp_from, stamp_style, StampStyle};
use xplorer::trash_ops::trash_item_from;
use xplorer::types::{system_time_to_timestamp, timestamp_from_secs, Bookmark, DriveInfo};
use xplorer::window::{confirm_delete_message, exit_session, new_tab_dir_from, startup_tabs, window_title};
use xplorer::worker::{delete_step, delete_verb, destination_for, file_name_of, run_batch, single_op_response, DeleteStep, SingleOp};

#[test]
fn batches_report_success_or_each_failure() {
    let paths = vec!["/a/one.txt".to_string(), "/a/two.txt".to_string()];
    match run_batch(&paths, &vec![None, None], "Copied") {
        FileOpResponse::Success { message } => assert_eq!(message, "Copied 2 item(s)"),
        _ => panic!("expected success"),
    }
    match run_batch(&paths, &vec![Some("denied".to_string()), Some("busy".to_string())], "Moved") {
        FileOpResponse::Error { message } => assert_eq!(message, "one.txt: denied\ntwo.txt: busy"),
        _ => panic!("expected an error"),
    }
    match run_batch(&paths, &vec![None, Some("gone".to_string())], "Deleted") {
        FileOpResponse::Error { message } => assert_eq!(message, "two.txt: gone"),
        _ => panic!("expected an error"),
    }
    match run_batch(&vec![], &vec![], "Trashed") {
        FileOpResponse::Success { message } => assert_eq!(message, "Trashed 0 item(s)"),
        _ => panic!("expected success"),
    }
}

#[test]
fn single_operations_report_the_new_name() {
    assert!(matches!(single_op_response(SingleOp::Rename, "/d/new.txt", None), FileOpResponse::Success { message } if message == "Renamed to new.txt"));
    assert!(matches!(single_op_response(SingleOp::CreateFolder, "/d/sub", None), FileOpResponse::Success { message } if message == "Created folder sub"));
    assert!(matches!(single_op_response(SingleOp::CreateFile, "/d/f.md", Some("no space".to_string())), FileOpResponse::Error { message } if message == "no space"));
    assert_eq!(destination_for("/src/dir/report.pdf", "/dst"), "/dst/report.pdf");
    assert_eq!(file_name_of("/"), "/");
    assert_eq!(delete_step(true, true), DeleteStep::MoveToTrash);
    assert_eq!(delete_step(false, true), DeleteStep::DeleteDir);
    assert_eq!(delete_step(false, false), DeleteStep::DeleteFile);
    assert_eq!(delete_verb(true), "Trashed");
    assert_eq!(delete_verb(false), "Deleted");
}

#[test]
fn file_operation_checks() {
    assert!(matches!(check_exists("/x", false), Err(CoreError::NotFound(p)) if p == "/x"));
    assert!(check_exists("/x", true).is_ok());
    assert!(matches!(check_copy_file("/d", true, false), Err(CoreError::Other(m)) if m == "Source is not a file: /d"));
    assert!(matches!(check_copy_dir("/f", true, false), Err(CoreError::Other(m)) if m == "Source is not a directory: /f"));
    assert!(matches!(check_delete_file("/d", true, true), Err(CoreError::Other(m)) if m == "Path is a directory, use delete_dir instead"));
    assert!(matches!(check_delete_dir("/f", true, false), Err(CoreError::Other(m)) if m == "Path is not a directory"));
    assert!(matches!(check_delete_dir("/f", false, false), Err(CoreError::NotFound(_))));
    assert_eq!(copy_step(true, true, false), CopyStep::Skip);
    assert_eq!(copy_step(false, true, false), CopyStep::CopyFile);
    assert_eq!(copy_step(false, false, true), CopyStep::CopyDir);
    assert_eq!(move_fallback(false, true), MoveFallback::CopyDirThenRemove);
    assert_eq!(move_fallback(false, false), MoveFallback::Leave);
    assert_eq!(failure_message("move to trash", "busy"), "Failed to move to trash: busy");
}

#[test]
fn numbers_in_decimal() {
    assert_eq!(decimal_chars(0).iter().collect::<String>(), "0");
    assert_eq!(decimal_chars(90210).iter().collect::<String>(), "90210");
    assert_eq!(zero_padded_decimal(7, 3).iter().collect::<String>(), "007");
    assert_eq!(zero_padded_decimal(1234, 3).iter().collect::<String>(), "1234");
    assert_eq!(group_digits(&"1234".chars().collect()).iter().collect::<String>(), "1,234");
}

#[test]
fn times_before_the_epoch_are_zero() {
    assert_eq!(timestamp_from_secs(None), 0);
    assert_eq!(timestamp_from_secs(Some(1_700_000_000)), 1_700_000_000);
    assert_eq!(timestamp_from_secs(Some(u64::MAX)), -1);
    let t = std::time::UNIX_EPOCH + std::time::Duration::from_secs(86_400);
    assert_eq!(system_time_to_timestamp(t), 86_400);
    assert_eq!(system_time_to_timestamp(std::time::UNIX_EPOCH - std::time::Duration::from_secs(5)), 0);
}

#[test]
fn relative_times_in_the_listing() {
    assert_eq!(stamp_style(0), StampStyle::Today);
    assert_eq!(stamp_style(1), StampStyle::Yesterday);
    assert_eq!(stamp_style(6), StampStyle::ThisWeek);
    assert_eq!(stamp_style(-3), StampStyle::ThisWeek);
    assert_eq!(stamp_style(7), StampStyle::Older);
    let reading = |d: i64| Some((d, "3:04 PM".to_string(), "Monday, 3:04 PM".to_string(), "Jan 5, 2024".to_string()));
    assert_eq!(stamp_from(reading(0)), "Today, 3:04 PM");
    assert_eq!(stamp_from(reading(1)), "Yesterday, 3:04 PM");
    assert_eq!(stamp_from(reading(3)), "Monday, 3:04 PM");
    assert_eq!(stamp_from(reading(30)), "Jan 5, 2024");
    assert_eq!(stamp_from(None), "—");
}

#[test]
fn workspaces_are_saved_once_per_name() {
    let mut store = WorkspaceStore::default();
    let tabs = vec![TabSession { path: "/a".to_string() }];
    save_workspace(&mut store, "work", tabs, true, false);
    save_workspace(&mut store, "play", vec![], false, false);
    save_workspace(&mut store, "work", vec![TabSession { path: "/b".to_string() }], false, true);
    assert_eq!(store.workspaces.len(), 2);
    assert_eq!(store.workspaces[0].name, "work");
    assert_eq!(store.workspaces[0].tabs[0].path, "/b");
    assert!(store.workspaces[0].show_preview);
    delete_workspace(&mut store, "work");
    assert_eq!(store.workspaces.len(), 1);
    assert_eq!(store.workspaces[0].name, "play");
    assert_eq!(config_dir_under(Some("/home/u/.config".to_string())), "/home/u/.config/xplorer");
    assert_eq!(config_dir_under(None), "./xplorer");
}

#[test]
fn bookmarks_are_kept_once_per_path() {
    let mut store: Vec<Bookmark> = Vec::new();
    add_bookmark(&mut store, "A".to_string(), "/a".to_string());
    add_bookmark(&mut store, "B".to_string(), "/b".to_string());
    add_bookmark(&mut store, "A2".to_string(), "/a".to_string());
    let names: Vec<&str> = store.iter().map(|b| b.name.as_str()).collect();
    assert_eq!(names, vec!["B", "A2"]);
    remove_bookmark(&mut store, "/zzz");
    assert_eq!(store.len(), 2);
    assert_eq!(bookmarks_dir_under(Some("/data".to_string())).unwrap(), "/data/xplorer-egui");
    assert!(matches!(bookmarks_dir_under(None), Err(CoreError::Other(m)) if m == "Failed to get app data directory"));
    assert_eq!(bookmarks_file("/data/xplorer-egui"), "/data/xplorer-egui/bookmarks.json");
}

fn drive(name: &str, mount: &str) -> DriveInfo {
    DriveInfo { name: name.to_string(), mount_point: mount.to_string(), total_space: 100, available_space: 30, drive_type: "local".to_string() }
}

#[test]
fn the_drive_holding_the_folder_is_the_longest_match() {
    let drives = vec![drive("Root", "/"), drive("Data", "/mnt/data"), drive("Other", "/mnt/other")];
    assert!(!drive_is_active("/mnt/data/x", &drives, 0));
    assert!(drive_is_active("/mnt/data/x", &drives, 1));
    assert!(!drive_is_active("/mnt/data/x", &drives, 2));
    assert!(drive_is_active("/home", &drives, 0));
    assert_eq!(drive_label(&drives[1]), "Data (/mnt/data)");
    assert_eq!(drive_used(&drives[1]), 70);
    assert_eq!(drive_used(&DriveInfo { available_space: 200, ..drive("x", "/") }), 0);
    assert!(starts_with("/mnt/data", "/mnt"));
    assert!(!starts_with("/mn", "/mnt"));
}

#[test]
fn quick_access_leaves_out_unknown_folders() {
    let q = quick_access_entries(Some("/h".to_string()), None, Some("/h/Documents".to_string()), None);
    assert_eq!(q, vec![("Home".to_string(), "/h".to_string()), ("Documents".to_string(), "/h/Documents".to_string())]);
}

#[test]
fn drives_on_other_systems() {
    assert_eq!(drive_letters(0b101), vec!['A', 'C']);
    assert_eq!(drive_letters(1 << 25), vec!['Z']);
    let d = windows_drive('C', Some(String::new()), 10, 4);
    assert_eq!(d.name, "Local Disk (C:)");
    assert_eq!(d.mount_point, "C:\\");
    let d = windows_drive('D', Some("Backup".to_string()), 10, 4);
    assert_eq!(d.name, "Backup (D:)");
    let m = macos_drives(&vec![("Macintosh HD".to_string(), "/Volumes/Macintosh HD".to_string()), ("USB".to_string(), "/Volumes/USB".to_string())]);
    assert_eq!(m.len(), 2);
    assert_eq!(m[0].name, "Macintosh HD");
    assert_eq!(m[1].mount_point, "/Volumes/USB");
    assert_eq!(m[1].drive_type, "external");
}

#[test]
fn trash_items_show_where_they_came_from() {
    let t = trash_item_from("a.txt".to_string(), "/home/u/docs", 77);
    assert_eq!(t.original_path, "/home/u/docs/a.txt");
    assert_eq!(t.deleted_at, 77);
    assert_eq!((t.size, t.is_dir), (0, false));
}

#[test]
fn the_window_title_and_the_delete_question() {
    assert_eq!(window_title(Some("docs")), "docs — Xplorer");
    assert_eq!(window_title(None), "Xplorer");
    assert_eq!(confirm_delete_message(3), "Permanently delete 3 item(s)? This cannot be undone.");
    assert_eq!(new_tab_dir_from(None), "C:\\");
    assert_eq!(new_tab_dir_from(Some("/home/u".to_string())), "/home/u");
    assert_eq!(startup_tabs(Some(vec![]), "/h".to_string()), vec!["/h".to_string()]);
    assert_eq!(startup_tabs(None, "/h".to_string()), vec!["/h".to_string()]);
    assert_eq!(startup_tabs(Some(vec!["/a".to_string()]), "/h".to_string()), vec!["/a".to_string()]);
    let s = exit_session(&vec!["/a".to_string(), "/b".to_string()], true, false);
    assert_eq!(s.tabs.len(), 2);
    assert_eq!(s.tabs[1].path, "/b");
    assert!(s.show_sidebar && !s.show_preview);
}

#[test]
fn status_bar_texts() {
    assert_eq!(item_count_text(12, 3, false), "12 items");
    assert_eq!(item_count_text(12, 3, true), "3 of 12 items");
    assert_eq!(selected_text(0, "0 B"), None);
    assert_eq!(selected_text(2, "1.5 KB"), Some("2 selected (1.5 KB)".to_string()));
    assert_eq!(undo_text(0), None);
    assert_eq!(undo_text(4), Some("4 undoable".to_string()));
}

#[test]
fn quick_access_lists_known_folders_in_order() {
    let q = quick_access();
    let order = ["Home", "Desktop", "Documents", "Downloads"];
    let mut last = 0;
    for (label, _path) in &q {
        let pos = order.iter().position(|l| l == label).expect("a known label");
        assert!(pos >= last);
        last = pos + 1;
    }
}

#[test]
fn times_out_of_range_show_a_dash() {
    assert_eq!(format_timestamp(i64::MAX), "—");
    assert_eq!(format_long_timestamp(i64::MAX), "—");
    assert!(!format_timestamp(0).is_empty());
    assert!(format_long_timestamp(0).contains(" at "));
}
