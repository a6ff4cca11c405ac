use xplorer::commands::AppCommand;
use xplorer::window::{answer_confirm_delete, ConfirmDelete};
use xplorer::dispatch::Outcome;
use xplorer::state::{AppState, ClipboardOp, DirRequest, FileOpRequest, Tab};
use xplorer::types::FileEntry;

fn entry(name: &str, path: &str, is_dir: bool) -> FileEntry {
    FileEntry {
        name: name.to_string(),
        path: path.to_string(),
        is_dir,
        size: 1,
        modified: 0,
        file_type: String::new(),
        mime_type: None,
        is_readonly: false,
    }
}

fn loaded(r: &Outcome) -> Option<(usize, String)> {
    match r {
        Outcome::Load(DirRequest::LoadDirectory { tab_id, path }) => Some((*tab_id, path.clone())),
        _ => None,
    }
}

fn sample() -> Tab {
    let mut tab = Tab::new(3, "/work".to_string(), "work".to_string());
    tab.entries = vec![entry("src", "/work/src", true), entry("notes.txt", "/work/notes.txt", false)];
    tab
}

#[test]
fn navigation_commands_load_the_new_folder() {
    let mut st = AppState::new();
    let mut tab = sample();
    let r = st.carry_out(&mut tab, AppCommand::NavigateTo("/work/src".to_string()), "/home/me");
    assert_eq!(loaded(&r), Some((3, "/work/src".to_string())));
    assert_eq!(tab.path, "/work/src");
    let r = st.carry_out(&mut tab, AppCommand::GoBack, "/home/me");
    assert_eq!(loaded(&r), Some((3, "/work".to_string())));
    assert!(matches!(st.carry_out(&mut tab, AppCommand::GoBack, "/home/me"), Outcome::Done));
    let r = st.carry_out(&mut tab, AppCommand::GoForward, "/home/me");
    assert_eq!(loaded(&r), Some((3, "/work/src".to_string())));
    let r = st.carry_out(&mut tab, AppCommand::GoUp, "/home/me");
    assert_eq!(loaded(&r), Some((3, "/work".to_string())));
    let r = st.carry_out(&mut tab, AppCommand::GoHome, "/home/me");
    assert_eq!(loaded(&r), Some((3, "/home/me".to_string())));
    assert_eq!(tab.history, vec!["/work".to_string(), "/work/src".to_string(), "/work".to_string(), "/home/me".to_string()]);
    let r = st.carry_out(&mut tab, AppCommand::Refresh, "/home/me");
    assert_eq!(loaded(&r), Some((3, "/home/me".to_string())));
    let r = st.carry_out(&mut tab, AppCommand::Load { tab_id: 7, path: "/x".to_string() }, "/home/me");
    assert_eq!(loaded(&r), Some((7, "/x".to_string())));
}

#[test]
fn going_up_from_the_root_does_nothing() {
    let mut st = AppState::new();
    let mut tab = Tab::new(1, "/".to_string(), "/".to_string());
    assert!(matches!(st.carry_out(&mut tab, AppCommand::GoUp, "/home"), Outcome::Done));
    assert_eq!(tab.path, "/");
    assert_eq!(tab.history.len(), 1);
}

#[test]
fn toggles_and_the_address_bar() {
    let mut st = AppState::new();
    let mut tab = sample();
    assert!(st.show_sidebar);
    assert!(matches!(st.carry_out(&mut tab, AppCommand::ToggleSidebar, "/h"), Outcome::Done));
    assert!(!st.show_sidebar);
    assert!(matches!(st.carry_out(&mut tab, AppCommand::FocusFilter, "/h"), Outcome::Done));
    assert!(st.focus_filter);
    assert!(matches!(st.carry_out(&mut tab, AppCommand::EditAddressBar, "/h"), Outcome::Done));
    assert!(tab.editing_address_bar);
    assert_eq!(tab.address_bar_text, "/work");
    assert!(matches!(st.carry_out(&mut tab, AppCommand::NewTab, "/h"), Outcome::Window));
    assert!(matches!(st.carry_out(&mut tab, AppCommand::SelectAll, "/h"), Outcome::Window));
}

#[test]
fn clipboard_and_deletion_commands() {
    let mut st = AppState::new();
    let mut tab = sample();
    assert!(matches!(st.carry_out(&mut tab, AppCommand::MoveToTrash, "/h"), Outcome::Done));
    assert!(matches!(st.carry_out(&mut tab, AppCommand::ConfirmPermanentDelete, "/h"), Outcome::Done));
    tab.selected_indices = vec![1];
    st.carry_out(&mut tab, AppCommand::Cut, "/h");
    assert_eq!(st.clipboard.as_ref().unwrap().operation, ClipboardOp::Cut);
    match st.carry_out(&mut tab, AppCommand::Paste, "/h") {
        Outcome::FileOp(FileOpRequest::Move { sources, dest_dir }) => {
            assert_eq!(sources, vec!["/work/notes.txt".to_string()]);
            assert_eq!(dest_dir, "/work");
        }
        _ => panic!("expected a move"),
    }
    assert!(st.clipboard.is_none());
    match st.carry_out(&mut tab, AppCommand::MoveToTrash, "/h") {
        Outcome::FileOp(FileOpRequest::Delete { paths, to_trash }) => {
            assert_eq!(paths, vec!["/work/notes.txt".to_string()]);
            assert!(to_trash);
        }
        _ => panic!("expected a delete"),
    }
    match st.carry_out(&mut tab, AppCommand::ConfirmPermanentDelete, "/h") {
        Outcome::ConfirmDelete(paths) => assert_eq!(paths, vec!["/work/notes.txt".to_string()]),
        _ => panic!("expected a confirmation"),
    }
}

#[test]
fn rename_and_open_act_on_the_selection() {
    let mut st = AppState::new();
    let mut tab = sample();
    st.carry_out(&mut tab, AppCommand::Rename, "/h");
    assert!(tab.rename_state.is_none());
    tab.selected_indices = vec![0, 1];
    st.carry_out(&mut tab, AppCommand::Rename, "/h");
    assert!(tab.rename_state.is_none());
    tab.selected_indices = vec![1];
    st.carry_out(&mut tab, AppCommand::Rename, "/h");
    let rs = tab.rename_state.as_ref().unwrap();
    assert_eq!((rs.entry_index, rs.new_name.as_str()), (1, "notes.txt"));
    match st.carry_out(&mut tab, AppCommand::OpenSelected, "/h") {
        Outcome::OpenFile(p) => assert_eq!(p, "/work/notes.txt"),
        _ => panic!("expected a file to open"),
    }
    tab.selected_indices = vec![0, 1];
    let r = st.carry_out(&mut tab, AppCommand::OpenSelected, "/h");
    assert_eq!(loaded(&r), Some((3, "/work/src".to_string())));
    assert_eq!(tab.path, "/work/src");
}

#[test]
fn the_question_before_deleting_for_good() {
    let mut none: Option<ConfirmDelete> = None;
    assert!(answer_confirm_delete(&mut none, true, false, false).is_none());
    let mut d = Some(ConfirmDelete { paths: vec!["/a".to_string(), "/b".to_string()] });
    assert!(answer_confirm_delete(&mut d, false, false, false).is_none());
    assert!(d.is_some());
    match answer_confirm_delete(&mut d, true, false, false) {
        Some(FileOpRequest::Delete { paths, to_trash }) => {
            assert_eq!(paths, vec!["/a".to_string(), "/b".to_string()]);
            assert!(!to_trash);
        }
        _ => panic!("expected a deletion"),
    }
    assert!(d.is_none());
    let mut d = Some(ConfirmDelete { paths: vec!["/a".to_string()] });
    assert!(answer_confirm_delete(&mut d, false, false, true).is_none());
    assert!(d.is_none());
}
