use std::sync::mpsc::channel;
use xplorer::batch_rename::{to_title_case, BatchRenameState, CaseMode, RenameMode};
use xplorer::file_list::{apply_selection, finish_rename, is_cut_path, select_for_context_menu, submit_new_item, SelectionAction};
use xplorer::preview::selection_summary;
use xplorer::properties::{attributes_text, contents_text, size_text, ItemMetadata, PropertiesDialog};
use xplorer::search::{content_match, name_matches, progress_due, scan_entry, try_content_match, SearchAction, SearchMode, SearchResult, SearchState};
use xplorer::state::{Clipboard, ClipboardOp, FileOpRequest, NewItemMode, RenameState, Tab};
use xplorer::types::FileEntry;

fn entry(name: &str, path: &str, is_dir: bool, size: u64) -> FileEntry {
    FileEntry { name: name.to_string(), path: path.to_string(), is_dir, size, modified: 0, file_type: String::new(), mime_type: None, is_readonly: false }
}

fn label(n: u64) -> String {
    format!("{} B", n)
}

#[test]
fn properties_of_a_file_and_a_folder() {
    let meta = ItemMetadata { is_dir: false, size: 42, modified: Some(100), created: None, accessed: Some(7), is_readonly: true };
    let d = PropertiesDialog::from_metadata("/home/u/.profile.txt", Some(meta), label);
    assert_eq!(d.name, ".profile.txt");
    assert_eq!(d.file_type, "TXT File");
    assert_eq!(d.size_label, "42 B");
    assert!(d.is_hidden && d.is_readonly);
    assert_eq!((d.modified, d.created, d.accessed), (100, 0, 7));
    assert_eq!(d.item_count, Some(0));
    assert!(!d.dir_computing);
    let meta = ItemMetadata { is_dir: true, size: 0, modified: None, created: None, accessed: None, is_readonly: false };
    let mut d = PropertiesDialog::from_metadata("/home/u/Music", Some(meta), label);
    assert_eq!(d.file_type, "Folder");
    assert_eq!(d.size_label, "Calculating…");
    assert!(d.dir_computing);
    assert_eq!(d.item_count, None);
    let (size_tx, size_rx) = channel();
    let (count_tx, count_rx) = channel();
    d.dir_size_rx = Some(size_rx);
    d.item_count_rx = Some(count_rx);
    d.poll(label);
    assert!(d.dir_computing);
    size_tx.send(2048).unwrap();
    d.poll(label);
    assert_eq!(d.size, 2048);
    assert_eq!(d.size_label, "2048 B");
    assert!(!d.dir_computing && d.dir_size_rx.is_none());
    count_tx.send(12).unwrap();
    d.poll(label);
    assert_eq!(d.item_count, Some(12));
    let missing = PropertiesDialog::from_metadata("/gone/file", None, label);
    assert!(!missing.is_dir);
    assert_eq!(missing.file_type, "File");
}

#[test]
fn property_lines() {
    assert_eq!(attributes_text(true, true), "Read-only, Hidden");
    assert_eq!(attributes_text(false, true), "Hidden");
    assert_eq!(attributes_text(false, false), "Normal");
    assert_eq!(size_text("1 KB", true), "1 KB (calculating…)");
    assert_eq!(size_text("1 KB", false), "1 KB");
    assert_eq!(contents_text(Some(3), true), Some("3 items".to_string()));
    assert_eq!(contents_text(Some(3), false), None);
    assert_eq!(contents_text(None, true), None);
}

#[test]
fn clicks_change_the_selection() {
    let mut tab = Tab::new(1, "/d".to_string(), "d".to_string());
    tab.entries = (0..6).map(|i| entry(&i.to_string(), &format!("/d/{}", i), false, 1)).collect();
    apply_selection(&mut tab, SelectionAction { index: 2, ctrl: false, shift: false });
    assert_eq!(tab.selected_indices, vec![2]);
    apply_selection(&mut tab, SelectionAction { index: 4, ctrl: true, shift: false });
    assert_eq!(tab.selected_indices, vec![2, 4]);
    apply_selection(&mut tab, SelectionAction { index: 2, ctrl: true, shift: false });
    assert_eq!(tab.selected_indices, vec![4]);
    apply_selection(&mut tab, SelectionAction { index: 4, ctrl: false, shift: true });
    assert_eq!(tab.selected_indices, vec![2, 3, 4]);
    apply_selection(&mut tab, SelectionAction { index: 1, ctrl: false, shift: true });
    assert_eq!(tab.selected_indices, vec![1, 2]);
    assert_eq!(tab.last_clicked_index, Some(2));
    select_for_context_menu(&mut tab, 2);
    assert_eq!(tab.selected_indices, vec![1, 2]);
    select_for_context_menu(&mut tab, 5);
    assert_eq!(tab.selected_indices, vec![5]);
    assert_eq!(tab.last_clicked_index, Some(5));
}

#[test]
fn selections_are_summed_up() {
    let mut tab = Tab::new(1, "/d".to_string(), "d".to_string());
    tab.entries = vec![entry("a", "/d/a", false, 10), entry("s", "/d/s", true, 99), entry("b", "/d/b", false, 5)];
    tab.selected_indices = vec![0, 1, 2, 9];
    let s = selection_summary(&tab);
    assert_eq!((s.count, s.files, s.dirs, s.total_size), (4, 3, 1, 15));
}

#[test]
fn new_items_are_created_from_the_trimmed_name() {
    let mut tab = Tab::new(1, "/work".to_string(), "work".to_string());
    tab.new_item_mode = Some(NewItemMode::Folder);
    tab.new_item_name = "  reports ".to_string();
    assert!(submit_new_item(&mut tab, false, false).is_none());
    assert_eq!(tab.new_item_mode, Some(NewItemMode::Folder));
    match submit_new_item(&mut tab, true, false) {
        Some(FileOpRequest::CreateFolder { path }) => assert_eq!(path, "/work/reports"),
        _ => panic!("expected a new folder"),
    }
    assert_eq!(tab.new_item_mode, None);
    assert!(tab.new_item_name.is_empty());
    tab.new_item_mode = Some(NewItemMode::File);
    tab.new_item_name = "   ".to_string();
    assert!(submit_new_item(&mut tab, true, false).is_none());
    assert!(submit_new_item(&mut tab, false, true).is_none());
    assert_eq!(tab.new_item_mode, None);
}

#[test]
fn inline_renames_end_on_enter_escape_or_focus_loss() {
    let mut tab = Tab::new(1, "/d".to_string(), "d".to_string());
    tab.rename_state = Some(RenameState { entry_index: 0, new_name: "b.txt".to_string() });
    assert!(finish_rename(&mut tab, "/d/a.txt", false, false, false).is_none());
    assert!(tab.rename_state.is_some());
    match finish_rename(&mut tab, "/d/a.txt", true, false, false) {
        Some(FileOpRequest::Rename { old_path, new_path }) => {
            assert_eq!(old_path, "/d/a.txt");
            assert_eq!(new_path, "/d/b.txt");
        }
        _ => panic!("expected a rename"),
    }
    assert!(tab.rename_state.is_none());
    tab.rename_state = Some(RenameState { entry_index: 0, new_name: "c".to_string() });
    assert!(finish_rename(&mut tab, "/d/a.txt", false, false, true).is_none());
    assert!(tab.rename_state.is_none());
}

#[test]
fn cut_items_are_recognised() {
    let cut = Some(Clipboard { paths: vec!["/d/a".to_string()], operation: ClipboardOp::Cut });
    let copied = Some(Clipboard { paths: vec!["/d/a".to_string()], operation: ClipboardOp::Copy });
    assert!(is_cut_path(&cut, "/d/a"));
    assert!(!is_cut_path(&cut, "/d/b"));
    assert!(!is_cut_path(&copied, "/d/a"));
    assert!(!is_cut_path(&None, "/d/a"));
}

#[test]
fn batch_renames_number_replace_and_change_case() {
    let mut st = BatchRenameState::default();
    st.open_with(vec![
        ("/p/IMG_1.jpg".to_string(), "IMG_1.jpg".to_string()),
        ("/p/IMG_2.JPG".to_string(), "IMG_2.JPG".to_string()),
        ("/p/notes".to_string(), "notes".to_string()),
    ]);
    assert!(st.open);
    assert_eq!(st.changed_count(), 0);
    st.mode = RenameMode::Sequential;
    st.prefix = "photo_".to_string();
    st.start_number = 9;
    st.recompute_names();
    let names: Vec<&str> = st.entries.iter().map(|e| e.new_name.as_str()).collect();
    assert_eq!(names, vec!["photo_009.jpg", "photo_010.JPG", "photo_011"]);
    let plan = st.planned_renames();
    assert_eq!(plan.renames[0], ("/p/IMG_1.jpg".to_string(), "/p/photo_009.jpg".to_string()));
    st.mode = RenameMode::FindReplace;
    st.find_text = "IMG".to_string();
    st.replace_text = "pic".to_string();
    st.recompute_names();
    assert_eq!(st.entries[1].new_name, "pic_2.JPG");
    assert_eq!(st.changed_count(), 2);
    st.mode = RenameMode::CaseChange;
    st.case_mode = CaseMode::TitleCase;
    st.recompute_names();
    assert_eq!(st.entries[0].new_name, "Img_1.Jpg");
    assert_eq!(to_title_case("hello wORLD-foo.bar"), "Hello World-Foo.Bar");
}

#[test]
fn deep_search_starts_and_collects() {
    let mut s = SearchState::default();
    s.open_at("/root/dir");
    assert!(s.open);
    s.query = " a ".to_string();
    assert!(s.start_search().is_none());
    assert!(!s.searching);
    s.query = "  ab ".to_string();
    let job = s.start_search().unwrap();
    assert_eq!(job.query, "ab");
    assert_eq!(job.root, "/root/dir");
    assert_eq!(job.mode, SearchMode::Filename);
    assert!(s.searching);
    s.poll_results();
    assert!(s.results.is_empty());
}

#[test]
fn the_scan_matches_names_and_contents() {
    assert!(name_matches("Report.PDF", "port.p"));
    assert!(!name_matches("Report.PDF", "xport"));
    let v = scan_entry(".git", true, 0, SearchMode::Filename, "gi");
    assert!(!v.descend && v.report && !v.read_content);
    let v = scan_entry("src", true, 0, SearchMode::Content, "src");
    assert!(v.descend && !v.report);
    let v = scan_entry("big.log", false, 2_097_153, SearchMode::Content, "x");
    assert!(!v.read_content);
    let v = scan_entry("small.log", false, 2_097_152, SearchMode::Content, "x");
    assert!(v.read_content && !v.report);
    assert!(progress_due(1000));
    assert!(!progress_due(999));
    let text = "first\n   Needle in a line   \nneedle again\n";
    assert_eq!(content_match("f.txt", text, "NEEDLE"), Some("2:f.txt: Needle in a line".to_string()));
    assert_eq!(content_match("f.txt", text, "absent"), None);
    let long = format!("{}\n", "a".repeat(130));
    assert_eq!(content_match("g", &long, "aaa"), Some(format!("1:g: {}...", "a".repeat(120))));
    let split = format!("{}é{}\n", "a".repeat(119), "b".repeat(10));
    assert_eq!(try_content_match("h", &split, "b"), None);
    assert_eq!(try_content_match("h", &long, "zzz"), Some(None));
}

#[test]
fn switching_the_search_mode_restarts_a_search() {
    let mut s = SearchState::default();
    s.open_at("/data");
    assert!(s.toggle_mode().is_none());
    assert_eq!(s.search_mode, SearchMode::Content);
    s.query = " x ".to_string();
    assert!(s.toggle_mode().is_none());
    assert_eq!(s.search_mode, SearchMode::Filename);
    assert!(!s.searching);
    s.query = "needle".to_string();
    let job = s.toggle_mode().unwrap();
    assert_eq!(job.mode, SearchMode::Content);
    assert_eq!(job.query, "needle");
    assert_eq!(job.root, "/data");
    assert!(s.searching);
}

#[test]
fn editing_and_choosing_in_the_search_overlay() {
    let mut s = SearchState::default();
    s.open_at("/data");
    s.query = "a".to_string();
    assert!(s.on_query_edited().is_none());
    s.query = " ab".to_string();
    let job = s.on_query_edited().unwrap();
    assert_eq!(job.query, "ab");
    s.query = "ab ".to_string();
    assert!(s.on_query_edited().is_none());
    s.results.push(SearchResult { path: "/data/src".to_string(), name: "src".to_string(), is_dir: true, line_match: None });
    s.results.push(SearchResult { path: "/data/docs/a.txt".to_string(), name: "a.txt".to_string(), is_dir: false, line_match: None });
    assert!(s.choose_result(5).is_none());
    assert!(s.open);
    match s.choose_result(1) {
        Some(SearchAction::NavigateTo(p)) => assert_eq!(p, "/data/docs"),
        _ => panic!("expected a navigation"),
    }
    assert!(!s.open);
    match s.choose_result(0) {
        Some(SearchAction::NavigateTo(p)) => assert_eq!(p, "/data/src"),
        _ => panic!("expected a navigation"),
    }
}
