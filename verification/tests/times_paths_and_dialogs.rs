use std::time::{Duration, UNIX_EPOCH};
use xplorer::preview::text_excerpt;
use xplorer::batch_rename::{BatchRenameState, RenameEntry};
use xplorer::directory::read_error;
use xplorer::error::CoreError;
use xplorer::file_utils::{get_file_type, get_mime_type};
use xplorer::state::sibling_path;
use xplorer::system::is_hidden_with_attributes;
use xplorer::timestamps::{format_long_timestamp, format_timestamp, MAX_TIMESTAMP, MIN_TIMESTAMP};
use xplorer::types::system_time_to_timestamp;

#[test]
fn timestamps_count_whole_seconds_since_the_epoch() {
    assert_eq!(system_time_to_timestamp(UNIX_EPOCH + Duration::from_secs(1500)), 1500);
    assert_eq!(system_time_to_timestamp(UNIX_EPOCH + Duration::from_millis(1999)), 1);
    assert_eq!(system_time_to_timestamp(UNIX_EPOCH), 0);
    assert_eq!(system_time_to_timestamp(UNIX_EPOCH - Duration::from_secs(10)), 0);
}

#[test]
fn the_range_of_representable_times() {
    assert!(chrono::DateTime::from_timestamp(MIN_TIMESTAMP, 0).is_some());
    assert!(chrono::DateTime::from_timestamp(MIN_TIMESTAMP - 1, 0).is_none());
    assert!(chrono::DateTime::from_timestamp(MAX_TIMESTAMP, 0).is_some());
    assert!(chrono::DateTime::from_timestamp(MAX_TIMESTAMP + 1, 0).is_none());
    assert_eq!(format_timestamp(MIN_TIMESTAMP - 1), "—");
    assert_eq!(format_timestamp(MAX_TIMESTAMP + 1), "—");
    assert_eq!(format_long_timestamp(MIN_TIMESTAMP - 1), "—");
    assert_ne!(format_timestamp(1_700_000_000), "—");
    assert!(format_timestamp(1_700_000_000).chars().count() >= 7);
    assert_ne!(format_long_timestamp(1_700_000_000), "—");
}

#[test]
fn renames_stay_in_their_folder() {
    assert_eq!(sibling_path("/home/u/old.txt", "new.txt"), "/home/u/new.txt");
    assert_eq!(sibling_path("old.txt", "new.txt"), "new.txt");
}

#[test]
fn a_refused_read_names_the_path() {
    let denied = read_error("/root", true, std::io::Error::from(std::io::ErrorKind::PermissionDenied));
    assert!(matches!(denied, CoreError::PermissionDenied(p) if p == "/root"));
    let other = read_error("/x", false, std::io::Error::from(std::io::ErrorKind::Other));
    assert!(matches!(other, CoreError::Io(e) if e.kind() == std::io::ErrorKind::Other));
}

#[test]
fn hidden_files_on_windows() {
    assert!(is_hidden_with_attributes("C:/x/.git", None));
    assert!(is_hidden_with_attributes("C:/x/a.txt", Some(0x22)));
    assert!(!is_hidden_with_attributes("C:/x/a.txt", Some(0x20)));
    assert!(!is_hidden_with_attributes("C:/x/a.txt", None));
}

#[test]
fn mime_types_agree_with_file_types() {
    for (p, cat) in [("a.jpg", "image"), ("a.svg", "image"), ("a.ico", "image"), ("a.mp3", "audio"), ("a.flac", "audio")] {
        let m = get_mime_type(p).unwrap();
        assert!(m.starts_with("image/") || m.starts_with("audio/"));
        assert_eq!(get_file_type(p, false), cat);
    }
}

fn entry(name: &str, new_name: &str) -> RenameEntry {
    RenameEntry { original_path: format!("/d/{}", name), original_name: name.to_string(), new_name: new_name.to_string() }
}

#[test]
fn the_batch_rename_dialog_answers() {
    let mut st = BatchRenameState::default();
    assert!(st.answer(true, false, false).is_none());
    st.open = true;
    st.entries = vec![entry("a.txt", "a.txt")];
    assert!(st.answer(true, false, false).is_none());
    assert!(st.open);
    st.entries = vec![entry("a.txt", "b.txt"), entry("c.txt", "c.txt")];
    let r = st.answer(true, false, false).unwrap();
    assert_eq!(r.renames, vec![("/d/a.txt".to_string(), "/d/b.txt".to_string())]);
    assert!(!st.open);
    st.open = true;
    assert!(st.answer(false, false, true).is_none());
    assert!(!st.open);
}

#[test]
fn lines_split_as_the_standard_library_splits_them() {
    assert_eq!(text_excerpt("a\r\nb\n\r\nc\r"), ("a\nb\n\nc\r".to_string(), 4));
    assert_eq!(text_excerpt("x\n"), ("x".to_string(), 1));
    assert_eq!(text_excerpt(""), (String::new(), 0));
    assert_eq!(text_excerpt("\n\n"), ("\n".to_string(), 2));
}

#[test]
fn trimming_agrees_with_the_standard_library() {
    for s in ["", "   ", " a b ", "\u{3000}x\u{85}", "\t\r\nword\u{2009}", "\u{200B}z\u{200B}"] {
        assert_eq!(xplorer::text::trimmed(s), s.trim());
    }
}
