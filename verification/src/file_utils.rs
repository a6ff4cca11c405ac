//! Classification of files by extension: a broad category and a MIME type.
use vstd::prelude::*;
use crate::paths::{extension, path_extension};
use crate::text::{chars_of, same_chars};

verus! {

/// The characters of each string in a list.
pub open spec fn views(s: Seq<&str>) -> Seq<Seq<char>> {
    s.map_values(|x: &str| x@)
}

/// Whether `e` equals one of `options`.
pub fn is_one_of(e: &str, options: &[&str]) -> (r: bool)
    ensures
        r == views(options@).contains(e@),
{
    let ev = chars_of(e);
    let mut i: usize = 0;
    while i < options.len()
        invariant
            i <= options@.len(),
            ev@ == e@,
            forall|j: int| 0 <= j < i ==> options@[j]@ != e@,
        decreases options@.len() - i,
    {
        let ov = chars_of(options[i]);
        if same_chars(&ov, &ev) {
            assert(views(options@)[i as int] == e@);
            return true;
        }
        i = i + 1;
    }
    assert forall|j: int| 0 <= j < views(options@).len() implies views(options@)[j] != e@ by {
        assert(views(options@)[j] == options@[j]@);
    }
    false
}

/// Extensions of the "text" category.
pub const TEXT_EXTS: [&'static str; 10] = ["txt", "md", "log", "csv", "ini", "cfg", "toml", "yaml", "yml", "xml"];

/// Extensions of the "code" category.
pub const CODE_EXTS: [&'static str; 24] = ["rs", "ts", "tsx", "js", "jsx", "py", "go", "c", "cpp", "h", "java", "cs", "rb", "php", "swift", "kt", "lua", "sh", "bat", "ps1", "html", "css", "scss", "json"];

/// Extensions of the "image" category.
pub const IMAGE_EXTS: [&'static str; 8] = ["jpg", "jpeg", "png", "gif", "bmp", "webp", "svg", "ico"];

/// Extensions of the "video" category.
pub const VIDEO_EXTS: [&'static str; 6] = ["mp4", "avi", "mkv", "mov", "wmv", "flv"];

/// Extensions of the "audio" category.
pub const AUDIO_EXTS: [&'static str; 6] = ["mp3", "wav", "flac", "aac", "ogg", "wma"];

/// Extensions of the "pdf" category.
pub const PDF_EXTS: [&'static str; 1] = ["pdf"];

/// Extensions of the "document" category.
pub const DOCUMENT_EXTS: [&'static str; 4] = ["doc", "docx", "odt", "rtf"];

/// Extensions of the "spreadsheet" category.
pub const SPREADSHEET_EXTS: [&'static str; 3] = ["xls", "xlsx", "ods"];

/// Extensions of the "presentation" category.
pub const PRESENTATION_EXTS: [&'static str; 3] = ["ppt", "pptx", "odp"];

/// Extensions of the "archive" category.
pub const ARCHIVE_EXTS: [&'static str; 8] = ["zip", "rar", "7z", "tar", "gz", "bz2", "xz", "zst"];

/// Extensions of the "executable" category.
pub const EXECUTABLE_EXTS: [&'static str; 6] = ["exe", "msi", "deb", "rpm", "dmg", "appimage"];

/// Extensions of the "library" category.
pub const LIBRARY_EXTS: [&'static str; 3] = ["dll", "so", "dylib"];

/// Extensions of the "disk_image" category.
pub const DISK_IMAGE_EXTS: [&'static str; 2] = ["iso", "img"];

/// Extensions of the "font" category.
pub const FONT_EXTS: [&'static str; 4] = ["ttf", "otf", "woff", "woff2"];

/// Extensions of the "database" category.
pub const DATABASE_EXTS: [&'static str; 3] = ["db", "sqlite", "sqlite3"];

/// The broad category of a (non-directory) file with extension `e`.
pub open spec fn category_for_extension(e: Seq<char>) -> Seq<char> {
    if views(TEXT_EXTS@).contains(e) {
        "text"@
    } else if views(CODE_EXTS@).contains(e) {
        "code"@
    } else if views(IMAGE_EXTS@).contains(e) {
        "image"@
    } else if views(VIDEO_EXTS@).contains(e) {
        "video"@
    } else if views(AUDIO_EXTS@).contains(e) {
        "audio"@
    } else if views(PDF_EXTS@).contains(e) {
        "pdf"@
    } else if views(DOCUMENT_EXTS@).contains(e) {
        "document"@
    } else if views(SPREADSHEET_EXTS@).contains(e) {
        "spreadsheet"@
    } else if views(PRESENTATION_EXTS@).contains(e) {
        "presentation"@
    } else if views(ARCHIVE_EXTS@).contains(e) {
        "archive"@
    } else if views(EXECUTABLE_EXTS@).contains(e) {
        "executable"@
    } else if views(LIBRARY_EXTS@).contains(e) {
        "library"@
    } else if views(DISK_IMAGE_EXTS@).contains(e) {
        "disk_image"@
    } else if views(FONT_EXTS@).contains(e) {
        "font"@
    } else if views(DATABASE_EXTS@).contains(e) {
        "database"@
    } else {
        "file"@
    }
}

/// The category for an optional extension; a path without one is a "file".
pub open spec fn file_type_for(is_dir: bool, ext: Option<Seq<char>>) -> Seq<char> {
    if is_dir {
        "directory"@
    } else {
        match ext {
            Some(e) => category_for_extension(e),
            None => "file"@,
        }
    }
}

/// The category of an extension.
pub fn category_of_extension(e: &str) -> (r: String)
    ensures
        r@ == category_for_extension(e@),
{
    if is_one_of(e, &TEXT_EXTS) {
        String::from_str("text")
    } else if is_one_of(e, &CODE_EXTS) {
        String::from_str("code")
    } else if is_one_of(e, &IMAGE_EXTS) {
        String::from_str("image")
    } else if is_one_of(e, &VIDEO_EXTS) {
        String::from_str("video")
    } else if is_one_of(e, &AUDIO_EXTS) {
        String::from_str("audio")
    } else if is_one_of(e, &PDF_EXTS) {
        String::from_str("pdf")
    } else if is_one_of(e, &DOCUMENT_EXTS) {
        String::from_str("document")
    } else if is_one_of(e, &SPREADSHEET_EXTS) {
        String::from_str("spreadsheet")
    } else if is_one_of(e, &PRESENTATION_EXTS) {
        String::from_str("presentation")
    } else if is_one_of(e, &ARCHIVE_EXTS) {
        String::from_str("archive")
    } else if is_one_of(e, &EXECUTABLE_EXTS) {
        String::from_str("executable")
    } else if is_one_of(e, &LIBRARY_EXTS) {
        String::from_str("library")
    } else if is_one_of(e, &DISK_IMAGE_EXTS) {
        String::from_str("disk_image")
    } else if is_one_of(e, &FONT_EXTS) {
        String::from_str("font")
    } else if is_one_of(e, &DATABASE_EXTS) {
        String::from_str("database")
    } else {
        String::from_str("file")
    }
}

/// Determine a broad file type category from the file extension.
pub fn get_file_type(path: &str, is_dir: bool) -> (r: String)
    ensures
        r@ == file_type_for(is_dir, path_extension(path@)),
{
    if is_dir {
        return String::from_str("directory");
    }
    match extension(path) {
        Some(e) => category_of_extension(&e),
        None => String::from_str("file"),
    }
}

pub const MIME_EXTS_0: [&'static str; 1] = ["txt"];
pub const MIME_EXTS_1: [&'static str; 1] = ["md"];
pub const MIME_EXTS_2: [&'static str; 2] = ["html", "htm"];
pub const MIME_EXTS_3: [&'static str; 1] = ["css"];
pub const MIME_EXTS_4: [&'static str; 1] = ["js"];
pub const MIME_EXTS_5: [&'static str; 1] = ["json"];
pub const MIME_EXTS_6: [&'static str; 1] = ["xml"];
pub const MIME_EXTS_7: [&'static str; 1] = ["csv"];
pub const MIME_EXTS_8: [&'static str; 2] = ["jpg", "jpeg"];
pub const MIME_EXTS_9: [&'static str; 1] = ["png"];
pub const MIME_EXTS_10: [&'static str; 1] = ["gif"];
pub const MIME_EXTS_11: [&'static str; 1] = ["svg"];
pub const MIME_EXTS_12: [&'static str; 1] = ["webp"];
pub const MIME_EXTS_13: [&'static str; 1] = ["ico"];
pub const MIME_EXTS_14: [&'static str; 1] = ["bmp"];
pub const MIME_EXTS_15: [&'static str; 1] = ["mp4"];
pub const MIME_EXTS_16: [&'static str; 1] = ["webm"];
pub const MIME_EXTS_17: [&'static str; 1] = ["avi"];
pub const MIME_EXTS_18: [&'static str; 1] = ["mp3"];
pub const MIME_EXTS_19: [&'static str; 1] = ["wav"];
pub const MIME_EXTS_20: [&'static str; 1] = ["ogg"];
pub const MIME_EXTS_21: [&'static str; 1] = ["flac"];
pub const MIME_EXTS_22: [&'static str; 1] = ["pdf"];
pub const MIME_EXTS_23: [&'static str; 1] = ["zip"];
pub const MIME_EXTS_24: [&'static str; 1] = ["gz"];
pub const MIME_EXTS_25: [&'static str; 1] = ["tar"];
pub const MIME_EXTS_26: [&'static str; 1] = ["7z"];
pub const MIME_EXTS_27: [&'static str; 1] = ["rar"];
pub const MIME_EXTS_28: [&'static str; 1] = ["exe"];
pub const MIME_EXTS_29: [&'static str; 1] = ["wasm"];

/// The MIME type registered for extension `e`, if it is one of the common ones.
pub open spec fn mime_for_extension(e: Seq<char>) -> Option<Seq<char>> {
    if views(MIME_EXTS_0@).contains(e) {
        Some("text/plain"@)
    } else if views(MIME_EXTS_1@).contains(e) {
        Some("text/markdown"@)
    } else if views(MIME_EXTS_2@).contains(e) {
        Some("text/html"@)
    } else if views(MIME_EXTS_3@).contains(e) {
        Some("text/css"@)
    } else if views(MIME_EXTS_4@).contains(e) {
        Some("application/javascript"@)
    } else if views(MIME_EXTS_5@).contains(e) {
        Some("application/json"@)
    } else if views(MIME_EXTS_6@).contains(e) {
        Some("application/xml"@)
    } else if views(MIME_EXTS_7@).contains(e) {
        Some("text/csv"@)
    } else if views(MIME_EXTS_8@).contains(e) {
        Some("image/jpeg"@)
    } else if views(MIME_EXTS_9@).contains(e) {
        Some("image/png"@)
    } else if views(MIME_EXTS_10@).contains(e) {
        Some("image/gif"@)
    } else if views(MIME_EXTS_11@).contains(e) {
        Some("image/svg+xml"@)
    } else if views(MIME_EXTS_12@).contains(e) {
        Some("image/webp"@)
    } else if views(MIME_EXTS_13@).contains(e) {
        Some("image/x-icon"@)
    } else if views(MIME_EXTS_14@).contains(e) {
        Some("image/bmp"@)
    } else if views(MIME_EXTS_15@).contains(e) {
        Some("video/mp4"@)
    } else if views(MIME_EXTS_16@).contains(e) {
        Some("video/webm"@)
    } else if views(MIME_EXTS_17@).contains(e) {
        Some("video/x-msvideo"@)
    } else if views(MIME_EXTS_18@).contains(e) {
        Some("audio/mpeg"@)
    } else if views(MIME_EXTS_19@).contains(e) {
        Some("audio/wav"@)
    } else if views(MIME_EXTS_20@).contains(e) {
        Some("audio/ogg"@)
    } else if views(MIME_EXTS_21@).contains(e) {
        Some("audio/flac"@)
    } else if views(MIME_EXTS_22@).contains(e) {
        Some("application/pdf"@)
    } else if views(MIME_EXTS_23@).contains(e) {
        Some("application/zip"@)
    } else if views(MIME_EXTS_24@).contains(e) {
        Some("application/gzip"@)
    } else if views(MIME_EXTS_25@).contains(e) {
        Some("application/x-tar"@)
    } else if views(MIME_EXTS_26@).contains(e) {
        Some("application/x-7z-compressed"@)
    } else if views(MIME_EXTS_27@).contains(e) {
        Some("application/vnd.rar"@)
    } else if views(MIME_EXTS_28@).contains(e) {
        Some("application/x-msdownload"@)
    } else if views(MIME_EXTS_29@).contains(e) {
        Some("application/wasm"@)
    } else {
        None
    }
}

/// The MIME type for an extension.
pub fn mime_of_extension(e: &str) -> (r: Option<String>)
    ensures
        match r {
            Some(m) => mime_for_extension(e@) == Some(m@),
            None => mime_for_extension(e@) is None,
        },
{
    if is_one_of(e, &MIME_EXTS_0) {
        Some(String::from_str("text/plain"))
    } else if is_one_of(e, &MIME_EXTS_1) {
        Some(String::from_str("text/markdown"))
    } else if is_one_of(e, &MIME_EXTS_2) {
        Some(String::from_str("text/html"))
    } else if is_one_of(e, &MIME_EXTS_3) {
        Some(String::from_str("text/css"))
    } else if is_one_of(e, &MIME_EXTS_4) {
        Some(String::from_str("application/javascript"))
    } else if is_one_of(e, &MIME_EXTS_5) {
        Some(String::from_str("application/json"))
    } else if is_one_of(e, &MIME_EXTS_6) {
        Some(String::from_str("application/xml"))
    } else if is_one_of(e, &MIME_EXTS_7) {
        Some(String::from_str("text/csv"))
    } else if is_one_of(e, &MIME_EXTS_8) {
        Some(String::from_str("image/jpeg"))
    } else if is_one_of(e, &MIME_EXTS_9) {
        Some(String::from_str("image/png"))
    } else if is_one_of(e, &MIME_EXTS_10) {
        Some(String::from_str("image/gif"))
    } else if is_one_of(e, &MIME_EXTS_11) {
        Some(String::from_str("image/svg+xml"))
    } else if is_one_of(e, &MIME_EXTS_12) {
        Some(String::from_str("image/webp"))
    } else if is_one_of(e, &MIME_EXTS_13) {
        Some(String::from_str("image/x-icon"))
    } else if is_one_of(e, &MIME_EXTS_14) {
        Some(String::from_str("image/bmp"))
    } else if is_one_of(e, &MIME_EXTS_15) {
        Some(String::from_str("video/mp4"))
    } else if is_one_of(e, &MIME_EXTS_16) {
        Some(String::from_str("video/webm"))
    } else if is_one_of(e, &MIME_EXTS_17) {
        Some(String::from_str("video/x-msvideo"))
    } else if is_one_of(e, &MIME_EXTS_18) {
        Some(String::from_str("audio/mpeg"))
    } else if is_one_of(e, &MIME_EXTS_19) {
        Some(String::from_str("audio/wav"))
    } else if is_one_of(e, &MIME_EXTS_20) {
        Some(String::from_str("audio/ogg"))
    } else if is_one_of(e, &MIME_EXTS_21) {
        Some(String::from_str("audio/flac"))
    } else if is_one_of(e, &MIME_EXTS_22) {
        Some(String::from_str("application/pdf"))
    } else if is_one_of(e, &MIME_EXTS_23) {
        Some(String::from_str("application/zip"))
    } else if is_one_of(e, &MIME_EXTS_24) {
        Some(String::from_str("application/gzip"))
    } else if is_one_of(e, &MIME_EXTS_25) {
        Some(String::from_str("application/x-tar"))
    } else if is_one_of(e, &MIME_EXTS_26) {
        Some(String::from_str("application/x-7z-compressed"))
    } else if is_one_of(e, &MIME_EXTS_27) {
        Some(String::from_str("application/vnd.rar"))
    } else if is_one_of(e, &MIME_EXTS_28) {
        Some(String::from_str("application/x-msdownload"))
    } else if is_one_of(e, &MIME_EXTS_29) {
        Some(String::from_str("application/wasm"))
    } else {
        None
    }
}

/// Get the MIME type for common file extensions.
pub fn get_mime_type(path: &str) -> (r: Option<String>)
    ensures
        match r {
            Some(m) => match path_extension(path@) {
                Some(e) => mime_for_extension(e) == Some(m@),
                None => false,
            },
            None => match path_extension(path@) {
                Some(e) => mime_for_extension(e) is None,
                None => true,
            },
        },
{
    match extension(path) {
        Some(e) => mime_of_extension(&e),
        None => None,
    }
}

/// `m` begins with `prefix`.
pub open spec fn begins_with(m: Seq<char>, prefix: Seq<char>) -> bool {
    prefix.len() <= m.len() && m.take(prefix.len() as int) == prefix
}

/// The MIME type and the category read from one extension agree: an image
/// MIME type comes with the "image" category, an audio one with "audio".
proof fn lemma_mime_and_category(e: Seq<char>)
    ensures
        mime_for_extension(e) matches Some(m) ==> {
            &&& begins_with(m, "image/"@) ==> category_for_extension(e) == "image"@
            &&& begins_with(m, "audio/"@) ==> category_for_extension(e) == "audio"@
        },
{
    reveal_strlit("image/");
    reveal_strlit("audio/");
    reveal_strlit("image");
    reveal_strlit("audio");
    assert("image/"@.len() == 6 && "image/"@[0] == 'i' && "image/"@[1] == 'm');
    assert("audio/"@.len() == 6 && "audio/"@[0] == 'a' && "audio/"@[1] == 'u');
    // The extensions of the category tables, character by character.
    reveal_strlit("aac");
    assert("aac"@.len() == 3 && "aac"@[0] == 'a' && "aac"@[1] == 'a' && "aac"@[2] == 'c');
    reveal_strlit("avi");
    assert("avi"@.len() == 3 && "avi"@[0] == 'a' && "avi"@[1] == 'v' && "avi"@[2] == 'i');
    reveal_strlit("bat");
    assert("bat"@.len() == 3 && "bat"@[0] == 'b' && "bat"@[1] == 'a' && "bat"@[2] == 't');
    reveal_strlit("bmp");
    assert("bmp"@.len() == 3 && "bmp"@[0] == 'b' && "bmp"@[1] == 'm' && "bmp"@[2] == 'p');
    reveal_strlit("c");
    assert("c"@.len() == 1 && "c"@[0] == 'c');
    reveal_strlit("cfg");
    assert("cfg"@.len() == 3 && "cfg"@[0] == 'c' && "cfg"@[1] == 'f' && "cfg"@[2] == 'g');
    reveal_strlit("cpp");
    assert("cpp"@.len() == 3 && "cpp"@[0] == 'c' && "cpp"@[1] == 'p' && "cpp"@[2] == 'p');
    reveal_strlit("cs");
    assert("cs"@.len() == 2 && "cs"@[0] == 'c' && "cs"@[1] == 's');
    reveal_strlit("css");
    assert("css"@.len() == 3 && "css"@[0] == 'c' && "css"@[1] == 's' && "css"@[2] == 's');
    reveal_strlit("csv");
    assert("csv"@.len() == 3 && "csv"@[0] == 'c' && "csv"@[1] == 's' && "csv"@[2] == 'v');
    reveal_strlit("flac");
    assert("flac"@.len() == 4 && "flac"@[0] == 'f' && "flac"@[1] == 'l' && "flac"@[2] == 'a' && "flac"@[3] == 'c');
    reveal_strlit("flv");
    assert("flv"@.len() == 3 && "flv"@[0] == 'f' && "flv"@[1] == 'l' && "flv"@[2] == 'v');
    reveal_strlit("gif");
    assert("gif"@.len() == 3 && "gif"@[0] == 'g' && "gif"@[1] == 'i' && "gif"@[2] == 'f');
    reveal_strlit("go");
    assert("go"@.len() == 2 && "go"@[0] == 'g' && "go"@[1] == 'o');
    reveal_strlit("h");
    assert("h"@.len() == 1 && "h"@[0] == 'h');
    reveal_strlit("html");
    assert("html"@.len() == 4 && "html"@[0] == 'h' && "html"@[1] == 't' && "html"@[2] == 'm' && "html"@[3] == 'l');
    reveal_strlit("ico");
    assert("ico"@.len() == 3 && "ico"@[0] == 'i' && "ico"@[1] == 'c' && "ico"@[2] == 'o');
    reveal_strlit("ini");
    assert("ini"@.len() == 3 && "ini"@[0] == 'i' && "ini"@[1] == 'n' && "ini"@[2] == 'i');
    reveal_strlit("java");
    assert("java"@.len() == 4 && "java"@[0] == 'j' && "java"@[1] == 'a' && "java"@[2] == 'v' && "java"@[3] == 'a');
    reveal_strlit("jpeg");
    assert("jpeg"@.len() == 4 && "jpeg"@[0] == 'j' && "jpeg"@[1] == 'p' && "jpeg"@[2] == 'e' && "jpeg"@[3] == 'g');
    reveal_strlit("jpg");
    assert("jpg"@.len() == 3 && "jpg"@[0] == 'j' && "jpg"@[1] == 'p' && "jpg"@[2] == 'g');
    reveal_strlit("js");
    assert("js"@.len() == 2 && "js"@[0] == 'j' && "js"@[1] == 's');
    reveal_strlit("json");
    assert("json"@.len() == 4 && "json"@[0] == 'j' && "json"@[1] == 's' && "json"@[2] == 'o' && "json"@[3] == 'n');
    reveal_strlit("jsx");
    assert("jsx"@.len() == 3 && "jsx"@[0] == 'j' && "jsx"@[1] == 's' && "jsx"@[2] == 'x');
    reveal_strlit("kt");
    assert("kt"@.len() == 2 && "kt"@[0] == 'k' && "kt"@[1] == 't');
    reveal_strlit("log");
    assert("log"@.len() == 3 && "log"@[0] == 'l' && "log"@[1] == 'o' && "log"@[2] == 'g');
    reveal_strlit("lua");
    assert("lua"@.len() == 3 && "lua"@[0] == 'l' && "lua"@[1] == 'u' && "lua"@[2] == 'a');
    reveal_strlit("md");
    assert("md"@.len() == 2 && "md"@[0] == 'm' && "md"@[1] == 'd');
    reveal_strlit("mkv");
    assert("mkv"@.len() == 3 && "mkv"@[0] == 'm' && "mkv"@[1] == 'k' && "mkv"@[2] == 'v');
    reveal_strlit("mov");
    assert("mov"@.len() == 3 && "mov"@[0] == 'm' && "mov"@[1] == 'o' && "mov"@[2] == 'v');
    reveal_strlit("mp3");
    assert("mp3"@.len() == 3 && "mp3"@[0] == 'm' && "mp3"@[1] == 'p' && "mp3"@[2] == '3');
    reveal_strlit("mp4");
    assert("mp4"@.len() == 3 && "mp4"@[0] == 'm' && "mp4"@[1] == 'p' && "mp4"@[2] == '4');
    reveal_strlit("ogg");
    assert("ogg"@.len() == 3 && "ogg"@[0] == 'o' && "ogg"@[1] == 'g' && "ogg"@[2] == 'g');
    reveal_strlit("php");
    assert("php"@.len() == 3 && "php"@[0] == 'p' && "php"@[1] == 'h' && "php"@[2] == 'p');
    reveal_strlit("png");
    assert("png"@.len() == 3 && "png"@[0] == 'p' && "png"@[1] == 'n' && "png"@[2] == 'g');
    reveal_strlit("ps1");
    assert("ps1"@.len() == 3 && "ps1"@[0] == 'p' && "ps1"@[1] == 's' && "ps1"@[2] == '1');
    reveal_strlit("py");
    assert("py"@.len() == 2 && "py"@[0] == 'p' && "py"@[1] == 'y');
    reveal_strlit("rb");
    assert("rb"@.len() == 2 && "rb"@[0] == 'r' && "rb"@[1] == 'b');
    reveal_strlit("rs");
    assert("rs"@.len() == 2 && "rs"@[0] == 'r' && "rs"@[1] == 's');
    reveal_strlit("scss");
    assert("scss"@.len() == 4 && "scss"@[0] == 's' && "scss"@[1] == 'c' && "scss"@[2] == 's' && "scss"@[3] == 's');
    reveal_strlit("sh");
    assert("sh"@.len() == 2 && "sh"@[0] == 's' && "sh"@[1] == 'h');
    reveal_strlit("svg");
    assert("svg"@.len() == 3 && "svg"@[0] == 's' && "svg"@[1] == 'v' && "svg"@[2] == 'g');
    reveal_strlit("swift");
    assert("swift"@.len() == 5 && "swift"@[0] == 's' && "swift"@[1] == 'w' && "swift"@[2] == 'i' && "swift"@[3] == 'f' && "swift"@[4] == 't');
    reveal_strlit("toml");
    assert("toml"@.len() == 4 && "toml"@[0] == 't' && "toml"@[1] == 'o' && "toml"@[2] == 'm' && "toml"@[3] == 'l');
    reveal_strlit("ts");
    assert("ts"@.len() == 2 && "ts"@[0] == 't' && "ts"@[1] == 's');
    reveal_strlit("tsx");
    assert("tsx"@.len() == 3 && "tsx"@[0] == 't' && "tsx"@[1] == 's' && "tsx"@[2] == 'x');
    reveal_strlit("txt");
    assert("txt"@.len() == 3 && "txt"@[0] == 't' && "txt"@[1] == 'x' && "txt"@[2] == 't');
    reveal_strlit("wav");
    assert("wav"@.len() == 3 && "wav"@[0] == 'w' && "wav"@[1] == 'a' && "wav"@[2] == 'v');
    reveal_strlit("webp");
    assert("webp"@.len() == 4 && "webp"@[0] == 'w' && "webp"@[1] == 'e' && "webp"@[2] == 'b' && "webp"@[3] == 'p');
    reveal_strlit("wma");
    assert("wma"@.len() == 3 && "wma"@[0] == 'w' && "wma"@[1] == 'm' && "wma"@[2] == 'a');
    reveal_strlit("wmv");
    assert("wmv"@.len() == 3 && "wmv"@[0] == 'w' && "wmv"@[1] == 'm' && "wmv"@[2] == 'v');
    reveal_strlit("xml");
    assert("xml"@.len() == 3 && "xml"@[0] == 'x' && "xml"@[1] == 'm' && "xml"@[2] == 'l');
    reveal_strlit("yaml");
    assert("yaml"@.len() == 4 && "yaml"@[0] == 'y' && "yaml"@[1] == 'a' && "yaml"@[2] == 'm' && "yaml"@[3] == 'l');
    reveal_strlit("yml");
    assert("yml"@.len() == 3 && "yml"@[0] == 'y' && "yml"@[1] == 'm' && "yml"@[2] == 'l');
    assert(views(TEXT_EXTS@) =~= seq!["txt"@, "md"@, "log"@, "csv"@, "ini"@, "cfg"@, "toml"@, "yaml"@, "yml"@, "xml"@]);
    assert(views(CODE_EXTS@) =~= seq!["rs"@, "ts"@, "tsx"@, "js"@, "jsx"@, "py"@, "go"@, "c"@, "cpp"@, "h"@, "java"@, "cs"@, "rb"@, "php"@, "swift"@, "kt"@, "lua"@, "sh"@, "bat"@, "ps1"@, "html"@, "css"@, "scss"@, "json"@]);
    assert(views(IMAGE_EXTS@) =~= seq!["jpg"@, "jpeg"@, "png"@, "gif"@, "bmp"@, "webp"@, "svg"@, "ico"@]);
    assert(views(VIDEO_EXTS@) =~= seq!["mp4"@, "avi"@, "mkv"@, "mov"@, "wmv"@, "flv"@]);
    assert(views(AUDIO_EXTS@) =~= seq!["mp3"@, "wav"@, "flac"@, "aac"@, "ogg"@, "wma"@]);
    if views(MIME_EXTS_0@).contains(e) {
        reveal_strlit("text/plain");
        assert("text/plain"@[0] == 't' && "text/plain"@[1] == 'e');
        assert(!begins_with("text/plain"@, "image/"@)) by {
            assert("text/plain"@.take(6)[0] == "text/plain"@[0]);
            assert("text/plain"@.take(6)[1] == "text/plain"@[1]);
        }
        assert(!begins_with("text/plain"@, "audio/"@)) by {
            assert("text/plain"@.take(6)[0] == "text/plain"@[0]);
            assert("text/plain"@.take(6)[1] == "text/plain"@[1]);
        }
    } else if views(MIME_EXTS_1@).contains(e) {
        reveal_strlit("text/markdown");
        assert("text/markdown"@[0] == 't' && "text/markdown"@[1] == 'e');
        assert(!begins_with("text/markdown"@, "image/"@)) by {
            assert("text/markdown"@.take(6)[0] == "text/markdown"@[0]);
            assert("text/markdown"@.take(6)[1] == "text/markdown"@[1]);
        }
        assert(!begins_with("text/markdown"@, "audio/"@)) by {
            assert("text/markdown"@.take(6)[0] == "text/markdown"@[0]);
            assert("text/markdown"@.take(6)[1] == "text/markdown"@[1]);
        }
    } else if views(MIME_EXTS_2@).contains(e) {
        reveal_strlit("text/html");
        assert("text/html"@[0] == 't' && "text/html"@[1] == 'e');
        assert(!begins_with("text/html"@, "image/"@)) by {
            assert("text/html"@.take(6)[0] == "text/html"@[0]);
            assert("text/html"@.take(6)[1] == "text/html"@[1]);
        }
        assert(!begins_with("text/html"@, "audio/"@)) by {
            assert("text/html"@.take(6)[0] == "text/html"@[0]);
            assert("text/html"@.take(6)[1] == "text/html"@[1]);
        }
    } else if views(MIME_EXTS_3@).contains(e) {
        reveal_strlit("text/css");
        assert("text/css"@[0] == 't' && "text/css"@[1] == 'e');
        assert(!begins_with("text/css"@, "image/"@)) by {
            assert("text/css"@.take(6)[0] == "text/css"@[0]);
            assert("text/css"@.take(6)[1] == "text/css"@[1]);
        }
        assert(!begins_with("text/css"@, "audio/"@)) by {
            assert("text/css"@.take(6)[0] == "text/css"@[0]);
            assert("text/css"@.take(6)[1] == "text/css"@[1]);
        }
    } else if views(MIME_EXTS_4@).contains(e) {
        reveal_strlit("application/javascript");
        assert("application/javascript"@[0] == 'a' && "application/javascript"@[1] == 'p');
        assert(!begins_with("application/javascript"@, "image/"@)) by {
            assert("application/javascript"@.take(6)[0] == "application/javascript"@[0]);
            assert("application/javascript"@.take(6)[1] == "application/javascript"@[1]);
        }
        assert(!begins_with("application/javascript"@, "audio/"@)) by {
            assert("application/javascript"@.take(6)[0] == "application/javascript"@[0]);
            assert("application/javascript"@.take(6)[1] == "application/javascript"@[1]);
        }
    } else if views(MIME_EXTS_5@).contains(e) {
        reveal_strlit("application/json");
        assert("application/json"@[0] == 'a' && "application/json"@[1] == 'p');
        assert(!begins_with("application/json"@, "image/"@)) by {
            assert("application/json"@.take(6)[0] == "application/json"@[0]);
            assert("application/json"@.take(6)[1] == "application/json"@[1]);
        }
        assert(!begins_with("application/json"@, "audio/"@)) by {
            assert("application/json"@.take(6)[0] == "application/json"@[0]);
            assert("application/json"@.take(6)[1] == "application/json"@[1]);
        }
    } else if views(MIME_EXTS_6@).contains(e) {
        reveal_strlit("application/xml");
        assert("application/xml"@[0] == 'a' && "application/xml"@[1] == 'p');
        assert(!begins_with("application/xml"@, "image/"@)) by {
            assert("application/xml"@.take(6)[0] == "application/xml"@[0]);
            assert("application/xml"@.take(6)[1] == "application/xml"@[1]);
        }
        assert(!begins_with("application/xml"@, "audio/"@)) by {
            assert("application/xml"@.take(6)[0] == "application/xml"@[0]);
            assert("application/xml"@.take(6)[1] == "application/xml"@[1]);
        }
    } else if views(MIME_EXTS_7@).contains(e) {
        reveal_strlit("text/csv");
        assert("text/csv"@[0] == 't' && "text/csv"@[1] == 'e');
        assert(!begins_with("text/csv"@, "image/"@)) by {
            assert("text/csv"@.take(6)[0] == "text/csv"@[0]);
            assert("text/csv"@.take(6)[1] == "text/csv"@[1]);
        }
        assert(!begins_with("text/csv"@, "audio/"@)) by {
            assert("text/csv"@.take(6)[0] == "text/csv"@[0]);
            assert("text/csv"@.take(6)[1] == "text/csv"@[1]);
        }
    } else if views(MIME_EXTS_8@).contains(e) {
        reveal_strlit("image/jpeg");
        assert("image/jpeg"@[0] == 'i' && "image/jpeg"@[1] == 'm');
        assert(!begins_with("image/jpeg"@, "audio/"@)) by {
            assert("image/jpeg"@.take(6)[0] == "image/jpeg"@[0]);
            assert("image/jpeg"@.take(6)[1] == "image/jpeg"@[1]);
        }
        assert(category_for_extension(e) == "image"@) by {
            assert(views(MIME_EXTS_8@) =~= seq!["jpg"@, "jpeg"@]);
        }
    } else if views(MIME_EXTS_9@).contains(e) {
        reveal_strlit("image/png");
        assert("image/png"@[0] == 'i' && "image/png"@[1] == 'm');
        assert(!begins_with("image/png"@, "audio/"@)) by {
            assert("image/png"@.take(6)[0] == "image/png"@[0]);
            assert("image/png"@.take(6)[1] == "image/png"@[1]);
        }
        assert(category_for_extension(e) == "image"@) by {
            assert(views(MIME_EXTS_9@) =~= seq!["png"@]);
        }
    } else if views(MIME_EXTS_10@).contains(e) {
        reveal_strlit("image/gif");
        assert("image/gif"@[0] == 'i' && "image/gif"@[1] == 'm');
        assert(!begins_with("image/gif"@, "audio/"@)) by {
            assert("image/gif"@.take(6)[0] == "image/gif"@[0]);
            assert("image/gif"@.take(6)[1] == "image/gif"@[1]);
        }
        assert(category_for_extension(e) == "image"@) by {
            assert(views(MIME_EXTS_10@) =~= seq!["gif"@]);
        }
    } else if views(MIME_EXTS_11@).contains(e) {
        reveal_strlit("image/svg+xml");
        assert("image/svg+xml"@[0] == 'i' && "image/svg+xml"@[1] == 'm');
        assert(!begins_with("image/svg+xml"@, "audio/"@)) by {
            assert("image/svg+xml"@.take(6)[0] == "image/svg+xml"@[0]);
            assert("image/svg+xml"@.take(6)[1] == "image/svg+xml"@[1]);
        }
        assert(category_for_extension(e) == "image"@) by {
            assert(views(MIME_EXTS_11@) =~= seq!["svg"@]);
        }
    } else if views(MIME_EXTS_12@).contains(e) {
        reveal_strlit("image/webp");
        assert("image/webp"@[0] == 'i' && "image/webp"@[1] == 'm');
        assert(!begins_with("image/webp"@, "audio/"@)) by {
            assert("image/webp"@.take(6)[0] == "image/webp"@[0]);
            assert("image/webp"@.take(6)[1] == "image/webp"@[1]);
        }
        assert(category_for_extension(e) == "image"@) by {
            assert(views(MIME_EXTS_12@) =~= seq!["webp"@]);
        }
    } else if views(MIME_EXTS_13@).contains(e) {
        reveal_strlit("image/x-icon");
        assert("image/x-icon"@[0] == 'i' && "image/x-icon"@[1] == 'm');
        assert(!begins_with("image/x-icon"@, "audio/"@)) by {
            assert("image/x-icon"@.take(6)[0] == "image/x-icon"@[0]);
            assert("image/x-icon"@.take(6)[1] == "image/x-icon"@[1]);
        }
        assert(category_for_extension(e) == "image"@) by {
            assert(views(MIME_EXTS_13@) =~= seq!["ico"@]);
        }
    } else if views(MIME_EXTS_14@).contains(e) {
        reveal_strlit("image/bmp");
        assert("image/bmp"@[0] == 'i' && "image/bmp"@[1] == 'm');
        assert(!begins_with("image/bmp"@, "audio/"@)) by {
            assert("image/bmp"@.take(6)[0] == "image/bmp"@[0]);
            assert("image/bmp"@.take(6)[1] == "image/bmp"@[1]);
        }
        assert(category_for_extension(e) == "image"@) by {
            assert(views(MIME_EXTS_14@) =~= seq!["bmp"@]);
        }
    } else if views(MIME_EXTS_15@).contains(e) {
        reveal_strlit("video/mp4");
        assert("video/mp4"@[0] == 'v' && "video/mp4"@[1] == 'i');
        assert(!begins_with("video/mp4"@, "image/"@)) by {
            assert("video/mp4"@.take(6)[0] == "video/mp4"@[0]);
            assert("video/mp4"@.take(6)[1] == "video/mp4"@[1]);
        }
        assert(!begins_with("video/mp4"@, "audio/"@)) by {
            assert("video/mp4"@.take(6)[0] == "video/mp4"@[0]);
            assert("video/mp4"@.take(6)[1] == "video/mp4"@[1]);
        }
    } else if views(MIME_EXTS_16@).contains(e) {
        reveal_strlit("video/webm");
        assert("video/webm"@[0] == 'v' && "video/webm"@[1] == 'i');
        assert(!begins_with("video/webm"@, "image/"@)) by {
            assert("video/webm"@.take(6)[0] == "video/webm"@[0]);
            assert("video/webm"@.take(6)[1] == "video/webm"@[1]);
        }
        assert(!begins_with("video/webm"@, "audio/"@)) by {
            assert("video/webm"@.take(6)[0] == "video/webm"@[0]);
            assert("video/webm"@.take(6)[1] == "video/webm"@[1]);
        }
    } else if views(MIME_EXTS_17@).contains(e) {
        reveal_strlit("video/x-msvideo");
        assert("video/x-msvideo"@[0] == 'v' && "video/x-msvideo"@[1] == 'i');
        assert(!begins_with("video/x-msvideo"@, "image/"@)) by {
            assert("video/x-msvideo"@.take(6)[0] == "video/x-msvideo"@[0]);
            assert("video/x-msvideo"@.take(6)[1] == "video/x-msvideo"@[1]);
        }
        assert(!begins_with("video/x-msvideo"@, "audio/"@)) by {
            assert("video/x-msvideo"@.take(6)[0] == "video/x-msvideo"@[0]);
            assert("video/x-msvideo"@.take(6)[1] == "video/x-msvideo"@[1]);
        }
    } else if views(MIME_EXTS_18@).contains(e) {
        reveal_strlit("audio/mpeg");
        assert("audio/mpeg"@[0] == 'a' && "audio/mpeg"@[1] == 'u');
        assert(!begins_with("audio/mpeg"@, "image/"@)) by {
            assert("audio/mpeg"@.take(6)[0] == "audio/mpeg"@[0]);
            assert("audio/mpeg"@.take(6)[1] == "audio/mpeg"@[1]);
        }
        assert(category_for_extension(e) == "audio"@) by {
            assert(views(MIME_EXTS_18@) =~= seq!["mp3"@]);
        }
    } else if views(MIME_EXTS_19@).contains(e) {
        reveal_strlit("audio/wav");
        assert("audio/wav"@[0] == 'a' && "audio/wav"@[1] == 'u');
        assert(!begins_with("audio/wav"@, "image/"@)) by {
            assert("audio/wav"@.take(6)[0] == "audio/wav"@[0]);
            assert("audio/wav"@.take(6)[1] == "audio/wav"@[1]);
        }
        assert(category_for_extension(e) == "audio"@) by {
            assert(views(MIME_EXTS_19@) =~= seq!["wav"@]);
        }
    } else if views(MIME_EXTS_20@).contains(e) {
        reveal_strlit("audio/ogg");
        assert("audio/ogg"@[0] == 'a' && "audio/ogg"@[1] == 'u');
        assert(!begins_with("audio/ogg"@, "image/"@)) by {
            assert("audio/ogg"@.take(6)[0] == "audio/ogg"@[0]);
            assert("audio/ogg"@.take(6)[1] == "audio/ogg"@[1]);
        }
        assert(category_for_extension(e) == "audio"@) by {
            assert(views(MIME_EXTS_20@) =~= seq!["ogg"@]);
        }
    } else if views(MIME_EXTS_21@).contains(e) {
        reveal_strlit("audio/flac");
        assert("audio/flac"@[0] == 'a' && "audio/flac"@[1] == 'u');
        assert(!begins_with("audio/flac"@, "image/"@)) by {
            assert("audio/flac"@.take(6)[0] == "audio/flac"@[0]);
            assert("audio/flac"@.take(6)[1] == "audio/flac"@[1]);
        }
        assert(category_for_extension(e) == "audio"@) by {
            assert(views(MIME_EXTS_21@) =~= seq!["flac"@]);
        }
    } else if views(MIME_EXTS_22@).contains(e) {
        reveal_strlit("application/pdf");
        assert("application/pdf"@[0] == 'a' && "application/pdf"@[1] == 'p');
        assert(!begins_with("application/pdf"@, "image/"@)) by {
            assert("application/pdf"@.take(6)[0] == "application/pdf"@[0]);
            assert("application/pdf"@.take(6)[1] == "application/pdf"@[1]);
        }
        assert(!begins_with("application/pdf"@, "audio/"@)) by {
            assert("application/pdf"@.take(6)[0] == "application/pdf"@[0]);
            assert("application/pdf"@.take(6)[1] == "application/pdf"@[1]);
        }
    } else if views(MIME_EXTS_23@).contains(e) {
        reveal_strlit("application/zip");
        assert("application/zip"@[0] == 'a' && "application/zip"@[1] == 'p');
        assert(!begins_with("application/zip"@, "image/"@)) by {
            assert("application/zip"@.take(6)[0] == "application/zip"@[0]);
            assert("application/zip"@.take(6)[1] == "application/zip"@[1]);
        }
        assert(!begins_with("application/zip"@, "audio/"@)) by {
            assert("application/zip"@.take(6)[0] == "application/zip"@[0]);
            assert("application/zip"@.take(6)[1] == "application/zip"@[1]);
        }
    } else if views(MIME_EXTS_24@).contains(e) {
        reveal_strlit("application/gzip");
        assert("application/gzip"@[0] == 'a' && "application/gzip"@[1] == 'p');
        assert(!begins_with("application/gzip"@, "image/"@)) by {
            assert("application/gzip"@.take(6)[0] == "application/gzip"@[0]);
            assert("application/gzip"@.take(6)[1] == "application/gzip"@[1]);
        }
        assert(!begins_with("application/gzip"@, "audio/"@)) by {
            assert("application/gzip"@.take(6)[0] == "application/gzip"@[0]);
            assert("application/gzip"@.take(6)[1] == "application/gzip"@[1]);
        }
    } else if views(MIME_EXTS_25@).contains(e) {
        reveal_strlit("application/x-tar");
        assert("application/x-tar"@[0] == 'a' && "application/x-tar"@[1] == 'p');
        assert(!begins_with("application/x-tar"@, "image/"@)) by {
            assert("application/x-tar"@.take(6)[0] == "application/x-tar"@[0]);
            assert("application/x-tar"@.take(6)[1] == "application/x-tar"@[1]);
        }
        assert(!begins_with("application/x-tar"@, "audio/"@)) by {
            assert("application/x-tar"@.take(6)[0] == "application/x-tar"@[0]);
            assert("application/x-tar"@.take(6)[1] == "application/x-tar"@[1]);
        }
    } else if views(MIME_EXTS_26@).contains(e) {
        reveal_strlit("application/x-7z-compressed");
        assert("application/x-7z-compressed"@[0] == 'a' && "application/x-7z-compressed"@[1] == 'p');
        assert(!begins_with("application/x-7z-compressed"@, "image/"@)) by {
            assert("application/x-7z-compressed"@.take(6)[0] == "application/x-7z-compressed"@[0]);
            assert("application/x-7z-compressed"@.take(6)[1] == "application/x-7z-compressed"@[1]);
        }
        assert(!begins_with("application/x-7z-compressed"@, "audio/"@)) by {
            assert("application/x-7z-compressed"@.take(6)[0] == "application/x-7z-compressed"@[0]);
            assert("application/x-7z-compressed"@.take(6)[1] == "application/x-7z-compressed"@[1]);
        }
    } else if views(MIME_EXTS_27@).contains(e) {
        reveal_strlit("application/vnd.rar");
        assert("application/vnd.rar"@[0] == 'a' && "application/vnd.rar"@[1] == 'p');
        assert(!begins_with("application/vnd.rar"@, "image/"@)) by {
            assert("application/vnd.rar"@.take(6)[0] == "application/vnd.rar"@[0]);
            assert("application/vnd.rar"@.take(6)[1] == "application/vnd.rar"@[1]);
        }
        assert(!begins_with("application/vnd.rar"@, "audio/"@)) by {
            assert("application/vnd.rar"@.take(6)[0] == "application/vnd.rar"@[0]);
            assert("application/vnd.rar"@.take(6)[1] == "application/vnd.rar"@[1]);
        }
    } else if views(MIME_EXTS_28@).contains(e) {
        reveal_strlit("application/x-msdownload");
        assert("application/x-msdownload"@[0] == 'a' && "application/x-msdownload"@[1] == 'p');
        assert(!begins_with("application/x-msdownload"@, "image/"@)) by {
            assert("application/x-msdownload"@.take(6)[0] == "application/x-msdownload"@[0]);
            assert("application/x-msdownload"@.take(6)[1] == "application/x-msdownload"@[1]);
        }
        assert(!begins_with("application/x-msdownload"@, "audio/"@)) by {
            assert("application/x-msdownload"@.take(6)[0] == "application/x-msdownload"@[0]);
            assert("application/x-msdownload"@.take(6)[1] == "application/x-msdownload"@[1]);
        }
    } else if views(MIME_EXTS_29@).contains(e) {
        reveal_strlit("application/wasm");
        assert("application/wasm"@[0] == 'a' && "application/wasm"@[1] == 'p');
        assert(!begins_with("application/wasm"@, "image/"@)) by {
            assert("application/wasm"@.take(6)[0] == "application/wasm"@[0]);
            assert("application/wasm"@.take(6)[1] == "application/wasm"@[1]);
        }
        assert(!begins_with("application/wasm"@, "audio/"@)) by {
            assert("application/wasm"@.take(6)[0] == "application/wasm"@[0]);
            assert("application/wasm"@.take(6)[1] == "application/wasm"@[1]);
        }
    }
}

/// A file whose MIME type is an image type has the "image" category, and one
/// whose MIME type is an audio type has the "audio" category: both are read
/// from the same extension.
pub proof fn law_mime_matches_file_type(path: Seq<char>, m: Seq<char>)
    requires
        path_extension(path) matches Some(e) && mime_for_extension(e) == Some(m),
    ensures
        begins_with(m, "image/"@) ==> file_type_for(false, path_extension(path)) == "image"@,
        begins_with(m, "audio/"@) ==> file_type_for(false, path_extension(path)) == "audio"@,
{
    lemma_mime_and_category(path_extension(path)->0);
}

} // verus!
