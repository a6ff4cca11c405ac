use xplorer::directory::{check_directory, file_entry_for, listing_from, listing_result, RawEntry};
use xplorer::error::CoreError;
use xplorer::file_list::human_file_type;
use xplorer::icons::{file_icon, IconKind};
use xplorer::file_utils::{category_of_extension, get_file_type, get_mime_type, mime_of_extension};
use xplorer::paths::{display_name_for_path, extension, extension_of_name};
use xplorer::preview::{image_uri, is_image_ext, is_text_ext, preview_kind, preview_plan, text_excerpt, PreviewPlan};
use xplorer::properties::{format_bytes_with_commas, item_kind_label};

#[test]
fn file_type_categories_follow_the_extension() {
    assert_eq!(get_file_type("/x/readme.md", false), "text");
    assert_eq!(get_file_type("/x/main.rs", false), "code");
    assert_eq!(get_file_type("/x/photo.JPG", false), "file");
    assert_eq!(get_file_type("/x/photo.jpg", false), "image");
    assert_eq!(get_file_type("/x/movie.mkv", false), "video");
    assert_eq!(get_file_type("/x/song.flac", false), "audio");
    assert_eq!(get_file_type("/x/paper.pdf", false), "pdf");
    assert_eq!(get_file_type("/x/letter.docx", false), "document");
    assert_eq!(get_file_type("/x/sheet.ods", false), "spreadsheet");
    assert_eq!(get_file_type("/x/deck.pptx", false), "presentation");
    assert_eq!(get_file_type("/x/a.tar.zst", false), "archive");
    assert_eq!(get_file_type("/x/setup.msi", false), "executable");
    assert_eq!(get_file_type("/x/libc.so", false), "library");
    assert_eq!(get_file_type("/x/disk.iso", false), "disk_image");
    assert_eq!(get_file_type("/x/font.woff2", false), "font");
    assert_eq!(get_file_type("/x/data.sqlite3", false), "database");
    assert_eq!(get_file_type("/x/Makefile", false), "file");
    assert_eq!(get_file_type("/x/src", true), "directory");
    assert_eq!(get_file_type("/x/.bashrc", false), "file");
    assert_eq!(category_of_extension("yml"), "text");
    assert_eq!(category_of_extension("unknown"), "file");
}

#[test]
fn mime_types_for_known_extensions() {
    assert_eq!(get_mime_type("/x/a.txt"), Some("text/plain".to_string()));
    assert_eq!(get_mime_type("/x/a.htm"), Some("text/html".to_string()));
    assert_eq!(get_mime_type("/x/a.jpeg"), Some("image/jpeg".to_string()));
    assert_eq!(get_mime_type("/x/a.svg"), Some("image/svg+xml".to_string()));
    assert_eq!(get_mime_type("/x/a.webm"), Some("video/webm".to_string()));
    assert_eq!(get_mime_type("/x/a.7z"), Some("application/x-7z-compressed".to_string()));
    assert_eq!(get_mime_type("/x/a.wasm"), Some("application/wasm".to_string()));
    assert_eq!(get_mime_type("/x/a.rs"), None);
    assert_eq!(get_mime_type("/x/noext"), None);
    assert_eq!(mime_of_extension("rar"), Some("application/vnd.rar".to_string()));
    assert_eq!(mime_of_extension("docx"), None);
}

#[test]
fn extensions_follow_path_rules() {
    assert_eq!(extension("/a/b/archive.tar.gz"), Some("gz".to_string()));
    assert_eq!(extension("/a/b/.hidden"), None);
    assert_eq!(extension("/a/b/noext"), None);
    assert_eq!(extension("/a/b/trailing."), Some("".to_string()));
    assert_eq!(extension_of_name("x.y.z"), Some("z".to_string()));
    assert_eq!(display_name_for_path("/home/user/notes.txt"), "notes.txt");
    assert_eq!(display_name_for_path("/"), "/");
}

#[test]
fn human_readable_type_names() {
    assert_eq!(human_file_type("rs", false), "Rust Source");
    assert_eq!(human_file_type(".MJS", false), "JavaScript");
    assert_eq!(human_file_type("..cc", false), "C++ Source");
    assert_eq!(human_file_type("gitignore", false), "Git Ignore");
    assert_eq!(human_file_type("", false), "File");
    assert_eq!(human_file_type("xyz", false), "XYZ File");
    assert_eq!(human_file_type("rs", true), "Folder");
}

#[test]
fn item_kinds_in_the_properties_dialog() {
    assert_eq!(item_kind_label(true, "txt"), "Folder");
    assert_eq!(item_kind_label(false, ""), "File");
    assert_eq!(item_kind_label(false, "png"), "PNG File");
}

#[test]
fn byte_counts_get_thousands_separators() {
    assert_eq!(format_bytes_with_commas(0), "0");
    assert_eq!(format_bytes_with_commas(999), "999");
    assert_eq!(format_bytes_with_commas(1000), "1,000");
    assert_eq!(format_bytes_with_commas(1234567), "1,234,567");
    assert_eq!(format_bytes_with_commas(u64::MAX), "18,446,744,073,709,551,615");
}

#[test]
fn preview_extensions() {
    assert!(is_image_ext("webp"));
    assert!(!is_image_ext("txt"));
    assert!(is_text_ext("astro"));
    assert!(!is_text_ext("exe"));
}

#[test]
fn preview_plans() {
    assert!(matches!(preview_plan("C:\\pics\\cat.PNG", 10), PreviewPlan::Image(u) if u == "file://C:/pics/cat.PNG"));
    assert!(matches!(preview_plan("/x/notes.md", 524288), PreviewPlan::Text));
    assert!(matches!(preview_plan("/x/notes.md", 524289), PreviewPlan::TooLarge));
    assert!(matches!(preview_plan("/x/blob.bin", 524289), PreviewPlan::TooLarge));
    assert!(matches!(preview_plan("/x/blob.bin", 10), PreviewPlan::Nothing));
    assert_eq!(image_uri("a\\b\\c.png"), "file://a/b/c.png");
}

#[test]
fn text_excerpts_count_all_lines_and_keep_the_first() {
    let (text, total) = text_excerpt("one\r\ntwo\nthree\n");
    assert_eq!(total, 3);
    assert_eq!(text, "one\ntwo\nthree");
    let long: String = (0..250).map(|i| format!("line {}\n", i)).collect();
    let (text, total) = text_excerpt(&long);
    assert_eq!(total, 250);
    assert_eq!(text.lines().count(), 200);
    assert!(text.ends_with("line 199"));
    assert_eq!(text_excerpt(""), (String::new(), 0));
}

#[test]
fn preview_kind_labels() {
    assert_eq!(preview_kind(true, "code"), "Folder");
    assert_eq!(preview_kind(false, ".rs"), "RS");
    assert_eq!(preview_kind(false, ""), "File");
}

fn raw(name: &str, path: &str, is_dir: bool) -> Option<RawEntry> {
    Some(RawEntry { name: Some(name.to_string()), path: path.to_string(), is_dir, size: 1, modified: 7, is_readonly: false })
}

#[test]
fn listings_put_directories_first_and_sort_by_name_ignoring_case() {
    let entries = vec![
        raw("b.txt", "/d/b.txt", false),
        None,
        raw("Zeta", "/d/Zeta", true),
        raw("a.rs", "/d/a.rs", false),
        raw("alpha", "/d/alpha", true),
        raw("B.md", "/d/B.md", false),
    ];
    let listing = listing_from(&entries);
    let names: Vec<&str> = listing.iter().map(|e| e.name.as_str()).collect();
    assert_eq!(names, vec!["alpha", "Zeta", "a.rs", "B.md", "b.txt"]);
    assert_eq!(listing[2].file_type, "code");
    assert_eq!(listing[4].mime_type, Some("text/plain".to_string()));
    assert_eq!(listing[3].mime_type, Some("text/markdown".to_string()));
    assert_eq!(listing[0].file_type, "directory");
}

#[test]
fn listing_entries_without_a_unicode_name_are_unknown() {
    let e = file_entry_for(None, "/d/x.csv".to_string(), false, 3, 4, true);
    assert_eq!(e.name, "Unknown");
    assert_eq!(e.file_type, "text");
    assert_eq!(e.mime_type, Some("text/csv".to_string()));
    assert!(e.is_readonly);
}

#[test]
fn directory_checks_and_read_errors() {
    assert!(matches!(check_directory("/nope", false, false), Err(CoreError::NotFound(p)) if p == "/nope"));
    assert!(matches!(check_directory("/f.txt", true, false), Err(CoreError::Other(m)) if m == "Path is not a directory: /f.txt"));
    assert!(check_directory("/d", true, true).is_ok());
    let denied = std::io::Error::new(std::io::ErrorKind::PermissionDenied, "no");
    assert!(matches!(listing_result("/root", Err(denied)), Err(CoreError::PermissionDenied(p)) if p == "/root"));
    let other = std::io::Error::new(std::io::ErrorKind::Other, "boom");
    assert!(matches!(listing_result("/x", Err(other)), Err(CoreError::Io(_))));
    let ok = listing_result("/d", Ok(vec![raw("f", "/d/f", false)])).unwrap();
    assert_eq!(ok.len(), 1);
}

#[test]
fn icons_follow_the_kind_of_file() {
    assert_eq!(file_icon("RS", false), (IconKind::Code, (0xDE, 0xA5, 0x84)));
    assert_eq!(file_icon("tiff", false), (IconKind::Image, (0xA8, 0x5D, 0xDB)));
    assert_eq!(file_icon("license", false), (IconKind::Text, (0x8B, 0x90, 0x97)));
    assert_eq!(file_icon("weird", false), (IconKind::Generic, (0x5A, 0x60, 0x6B)));
    assert_eq!(file_icon("rs", true), (IconKind::Folder, (0xF2, 0xC4, 0x4E)));
}
