//! The icon and colour of each kind of file in the listing.
use vstd::prelude::*;
use crate::file_utils::{is_one_of, views};
use crate::text::{lowercase, to_lowercase};

verus! {

/// The icon drawn before a name.
#[derive(Debug, Clone, Copy, PartialEq, Eq, Structural)]
pub enum IconKind {
    Folder,
    Code,
    Image,
    Text,
    Generic,
}

/// The colour of folders.
pub open spec fn folder_color() -> (u8, u8, u8) {
    (0xF2, 0xC4, 0x4E)
}

/// The colour of files of no known kind.
pub open spec fn muted_color() -> (u8, u8, u8) {
    (0x5A, 0x60, 0x6B)
}

/// Extensions of icon group 0.
pub const ICON_EXTS_0: [&'static str; 2] = ["rs", "toml"];

/// Extensions of icon group 1.
pub const ICON_EXTS_1: [&'static str; 3] = ["js", "jsx", "mjs"];

/// Extensions of icon group 2.
pub const ICON_EXTS_2: [&'static str; 2] = ["ts", "tsx"];

/// Extensions of icon group 3.
pub const ICON_EXTS_3: [&'static str; 1] = ["py"];

/// Extensions of icon group 4.
pub const ICON_EXTS_4: [&'static str; 1] = ["go"];

/// Extensions of icon group 5.
pub const ICON_EXTS_5: [&'static str; 2] = ["c", "h"];

/// Extensions of icon group 6.
pub const ICON_EXTS_6: [&'static str; 3] = ["cpp", "hpp", "cc"];

/// Extensions of icon group 7.
pub const ICON_EXTS_7: [&'static str; 1] = ["java"];

/// Extensions of icon group 8.
pub const ICON_EXTS_8: [&'static str; 1] = ["rb"];

/// Extensions of icon group 9.
pub const ICON_EXTS_9: [&'static str; 1] = ["cs"];

/// Extensions of icon group 10.
pub const ICON_EXTS_10: [&'static str; 1] = ["swift"];

/// Extensions of icon group 11.
pub const ICON_EXTS_11: [&'static str; 2] = ["html", "htm"];

/// Extensions of icon group 12.
pub const ICON_EXTS_12: [&'static str; 4] = ["css", "scss", "sass", "less"];

/// Extensions of icon group 13.
pub const ICON_EXTS_13: [&'static str; 8] = ["json", "yaml", "yml", "xml", "ini", "env", "conf", "cfg"];

/// Extensions of icon group 14.
pub const ICON_EXTS_14: [&'static str; 7] = ["sh", "bash", "zsh", "fish", "ps1", "bat", "cmd"];

/// Extensions of icon group 15.
pub const ICON_EXTS_15: [&'static str; 9] = ["png", "jpg", "jpeg", "gif", "bmp", "svg", "webp", "ico", "tiff"];

/// Extensions of icon group 16.
pub const ICON_EXTS_16: [&'static str; 7] = ["mp3", "wav", "flac", "ogg", "aac", "wma", "m4a"];

/// Extensions of icon group 17.
pub const ICON_EXTS_17: [&'static str; 7] = ["mp4", "mkv", "avi", "mov", "wmv", "flv", "webm"];

/// Extensions of icon group 18.
pub const ICON_EXTS_18: [&'static str; 1] = ["pdf"];

/// Extensions of icon group 19.
pub const ICON_EXTS_19: [&'static str; 4] = ["doc", "docx", "odt", "rtf"];

/// Extensions of icon group 20.
pub const ICON_EXTS_20: [&'static str; 4] = ["xls", "xlsx", "csv", "ods"];

/// Extensions of icon group 21.
pub const ICON_EXTS_21: [&'static str; 8] = ["zip", "rar", "7z", "tar", "gz", "bz2", "xz", "zst"];

/// Extensions of icon group 22.
pub const ICON_EXTS_22: [&'static str; 5] = ["txt", "md", "log", "readme", "license"];

/// Extensions of icon group 23.
pub const ICON_EXTS_23: [&'static str; 5] = ["exe", "msi", "dll", "so", "dylib"];

/// The icon and colour for a (lowercase) extension of a file, or of a
/// folder.
pub open spec fn icon_for(ext: Seq<char>, is_dir: bool) -> (IconKind, (u8, u8, u8)) {
    if is_dir {
        (IconKind::Folder, folder_color())
    } else if views(ICON_EXTS_0@).contains(ext) {
        (IconKind::Code, (0xDE, 0xA5, 0x84))
    } else if views(ICON_EXTS_1@).contains(ext) {
        (IconKind::Code, (0xF7, 0xDF, 0x1E))
    } else if views(ICON_EXTS_2@).contains(ext) {
        (IconKind::Code, (0x31, 0x78, 0xC6))
    } else if views(ICON_EXTS_3@).contains(ext) {
        (IconKind::Code, (0x35, 0x72, 0xA5))
    } else if views(ICON_EXTS_4@).contains(ext) {
        (IconKind::Code, (0x00, 0xAD, 0xD8))
    } else if views(ICON_EXTS_5@).contains(ext) {
        (IconKind::Code, (0x55, 0x55, 0xFF))
    } else if views(ICON_EXTS_6@).contains(ext) {
        (IconKind::Code, (0xF3, 0x4B, 0x7D))
    } else if views(ICON_EXTS_7@).contains(ext) {
        (IconKind::Code, (0xB0, 0x72, 0x19))
    } else if views(ICON_EXTS_8@).contains(ext) {
        (IconKind::Code, (0xCC, 0x34, 0x2D))
    } else if views(ICON_EXTS_9@).contains(ext) {
        (IconKind::Code, (0x17, 0x8E, 0x00))
    } else if views(ICON_EXTS_10@).contains(ext) {
        (IconKind::Code, (0xF0, 0x52, 0x38))
    } else if views(ICON_EXTS_11@).contains(ext) {
        (IconKind::Code, (0xE3, 0x4C, 0x26))
    } else if views(ICON_EXTS_12@).contains(ext) {
        (IconKind::Code, (0x56, 0x3D, 0x7C))
    } else if views(ICON_EXTS_13@).contains(ext) {
        (IconKind::Code, (0x8B, 0x90, 0x97))
    } else if views(ICON_EXTS_14@).contains(ext) {
        (IconKind::Code, (0x8B, 0x90, 0x97))
    } else if views(ICON_EXTS_15@).contains(ext) {
        (IconKind::Image, (0xA8, 0x5D, 0xDB))
    } else if views(ICON_EXTS_16@).contains(ext) {
        (IconKind::Generic, (0x1D, 0xB9, 0x54))
    } else if views(ICON_EXTS_17@).contains(ext) {
        (IconKind::Generic, (0xE5, 0x3E, 0x3E))
    } else if views(ICON_EXTS_18@).contains(ext) {
        (IconKind::Generic, (0xDB, 0x44, 0x37))
    } else if views(ICON_EXTS_19@).contains(ext) {
        (IconKind::Generic, (0x29, 0x5D, 0xAA))
    } else if views(ICON_EXTS_20@).contains(ext) {
        (IconKind::Generic, (0x20, 0x7C, 0x45))
    } else if views(ICON_EXTS_21@).contains(ext) {
        (IconKind::Generic, (0xDA, 0x8A, 0x29))
    } else if views(ICON_EXTS_22@).contains(ext) {
        (IconKind::Text, (0x8B, 0x90, 0x97))
    } else if views(ICON_EXTS_23@).contains(ext) {
        (IconKind::Generic, (0xE0, 0x70, 0x70))
    } else {
        (IconKind::Generic, muted_color())
    }
}

/// The icon and colour for a file with extension `ext` (any case), or for
/// a folder.
pub fn file_icon(ext: &str, is_dir: bool) -> (r: (IconKind, (u8, u8, u8)))
    ensures
        r == icon_for(lowercase(ext@), is_dir),
{
    if is_dir {
        return (IconKind::Folder, (0xF2, 0xC4, 0x4E));
    }
    let e = to_lowercase(ext);
    let e = e.as_str();
    if is_one_of(e, &ICON_EXTS_0) {
        (IconKind::Code, (0xDE, 0xA5, 0x84))
    } else if is_one_of(e, &ICON_EXTS_1) {
        (IconKind::Code, (0xF7, 0xDF, 0x1E))
    } else if is_one_of(e, &ICON_EXTS_2) {
        (IconKind::Code, (0x31, 0x78, 0xC6))
    } else if is_one_of(e, &ICON_EXTS_3) {
        (IconKind::Code, (0x35, 0x72, 0xA5))
    } else if is_one_of(e, &ICON_EXTS_4) {
        (IconKind::Code, (0x00, 0xAD, 0xD8))
    } else if is_one_of(e, &ICON_EXTS_5) {
        (IconKind::Code, (0x55, 0x55, 0xFF))
    } else if is_one_of(e, &ICON_EXTS_6) {
        (IconKind::Code, (0xF3, 0x4B, 0x7D))
    } else if is_one_of(e, &ICON_EXTS_7) {
        (IconKind::Code, (0xB0, 0x72, 0x19))
    } else if is_one_of(e, &ICON_EXTS_8) {
        (IconKind::Code, (0xCC, 0x34, 0x2D))
    } else if is_one_of(e, &ICON_EXTS_9) {
        (IconKind::Code, (0x17, 0x8E, 0x00))
    } else if is_one_of(e, &ICON_EXTS_10) {
        (IconKind::Code, (0xF0, 0x52, 0x38))
    } else if is_one_of(e, &ICON_EXTS_11) {
        (IconKind::Code, (0xE3, 0x4C, 0x26))
    } else if is_one_of(e, &ICON_EXTS_12) {
        (IconKind::Code, (0x56, 0x3D, 0x7C))
    } else if is_one_of(e, &ICON_EXTS_13) {
        (IconKind::Code, (0x8B, 0x90, 0x97))
    } else if is_one_of(e, &ICON_EXTS_14) {
        (IconKind::Code, (0x8B, 0x90, 0x97))
    } else if is_one_of(e, &ICON_EXTS_15) {
        (IconKind::Image, (0xA8, 0x5D, 0xDB))
    } else if is_one_of(e, &ICON_EXTS_16) {
        (IconKind::Generic, (0x1D, 0xB9, 0x54))
    } else if is_one_of(e, &ICON_EXTS_17) {
        (IconKind::Generic, (0xE5, 0x3E, 0x3E))
    } else if is_one_of(e, &ICON_EXTS_18) {
        (IconKind::Generic, (0xDB, 0x44, 0x37))
    } else if is_one_of(e, &ICON_EXTS_19) {
        (IconKind::Generic, (0x29, 0x5D, 0xAA))
    } else if is_one_of(e, &ICON_EXTS_20) {
        (IconKind::Generic, (0x20, 0x7C, 0x45))
    } else if is_one_of(e, &ICON_EXTS_21) {
        (IconKind::Generic, (0xDA, 0x8A, 0x29))
    } else if is_one_of(e, &ICON_EXTS_22) {
        (IconKind::Text, (0x8B, 0x90, 0x97))
    } else if is_one_of(e, &ICON_EXTS_23) {
        (IconKind::Generic, (0xE0, 0x70, 0x70))
    } else {
        (IconKind::Generic, (0x5A, 0x60, 0x6B))
    }
}

} // verus!
