//! Facts about the machine the file manager runs on: mounted drives and
//! hidden files.
use vstd::prelude::*;
use crate::error::CoreError;
use crate::paths::{file_name, path_file_name};
use crate::text::{chars_of, extend_chars, same_text, starts_with_char, string_of};
use crate::types::DriveInfo;

verus! {

/// Whether a path names a hidden file: its final component starts with a dot.
pub open spec fn hidden_name(path: Seq<char>) -> bool {
    match path_file_name(path) {
        Some(n) => n.len() > 0 && n[0] == '.',
        None => false,
    }
}

/// Check whether a file is hidden (dot-prefix).
pub fn is_hidden(path: &str) -> (r: bool)
    ensures
        r == hidden_name(path@),
{
    match file_name(path) {
        Some(n) => starts_with_char(&n, '.'),
        None => false,
    }
}

/// The hidden-attribute bit of Windows file attributes.
pub const FILE_ATTRIBUTE_HIDDEN: u32 = 0x2;

/// Whether a path names a hidden file on Windows: its final component starts
/// with a dot, or else its attributes, when they could be read, carry the
/// hidden bit.
pub open spec fn hidden_on_windows(path: Seq<char>, attributes: Option<u32>) -> bool {
    hidden_name(path) || (attributes matches Some(a) && a & FILE_ATTRIBUTE_HIDDEN != 0)
}

/// Check whether a file is hidden on Windows, given its file attributes
/// (`None` when its metadata could not be read).
pub fn is_hidden_with_attributes(path: &str, attributes: Option<u32>) -> (r: bool)
    ensures
        r == hidden_on_windows(path@, attributes),
{
    if is_hidden(path) {
        return true;
    }
    match attributes {
        Some(a) => a & FILE_ATTRIBUTE_HIDDEN != 0,
        None => false,
    }
}

/// The single root volume of a Unix-like system.
pub fn list_drives_linux() -> (r: Result<Vec<DriveInfo>, CoreError>)
    ensures
        r matches Ok(v) && v@.len() == 1 && v@[0].name@ == "Root"@ && v@[0].mount_point@ == "/"@
            && v@[0].total_space == 0 && v@[0].available_space == 0 && v@[0].drive_type@
            == "local"@,
{
    let mut v: Vec<DriveInfo> = Vec::new();
    v.push(
        DriveInfo {
            name: String::from_str("Root"),
            mount_point: String::from_str("/"),
            total_space: 0,
            available_space: 0,
            drive_type: String::from_str("local"),
        },
    );
    Ok(v)
}

/// List available drives / mount points of a Unix-like system other than
/// macOS (the other systems' drives are read where their system calls are
/// made; see `drive_letters`, `windows_drive` and `macos_drives`).
pub fn list_drives() -> (r: Result<Vec<DriveInfo>, CoreError>)
    ensures
        r matches Ok(v) && v@.len() == 1 && v@[0].name@ == "Root"@ && v@[0].mount_point@ == "/"@
            && v@[0].total_space == 0 && v@[0].available_space == 0 && v@[0].drive_type@
            == "local"@,
{
    list_drives_linux()
}

/// The drive letters, in order.
pub const DRIVE_LETTERS: [char; 26] = [
    'A', 'B', 'C', 'D', 'E', 'F', 'G', 'H', 'I', 'J', 'K', 'L', 'M', 'N', 'O', 'P', 'Q', 'R', 'S', 'T',
    'U', 'V', 'W', 'X', 'Y', 'Z',
];

/// Whether bit `i` of the logical-drives mask is set.
pub open spec fn drive_bit(mask: u32, i: u32) -> bool {
    mask & (1u32 << i) != 0
}

/// The letters of the drives present in a logical-drives mask (bit 0 for
/// A:), in order.
pub open spec fn letters_in(mask: u32, n: nat) -> Seq<char>
    decreases n,
{
    if n == 0 {
        Seq::empty()
    } else {
        let rest = letters_in(mask, (n - 1) as nat);
        if drive_bit(mask, (n - 1) as u32) { rest.push(DRIVE_LETTERS@[n - 1]) } else { rest }
    }
}

/// The letters of the drives present in a logical-drives mask, in order.
pub fn drive_letters(mask: u32) -> (r: Vec<char>)
    ensures
        r@ == letters_in(mask, 26),
{
    let mut r: Vec<char> = Vec::new();
    let mut i: u32 = 0;
    while i < 26
        invariant
            i <= 26,
            r@ == letters_in(mask, i as nat),
        decreases 26 - i,
    {
        if mask & (1u32 << i) != 0 {
            r.push(DRIVE_LETTERS[i as usize]);
        }
        i = i + 1;
    }
    r
}

/// The drive for a letter on Windows: named by its volume label (or "Local
/// Disk" when it has none or it could not be read) followed by the letter,
/// mounted at the letter's root.
pub fn windows_drive(letter: char, label: Option<String>, total: u64, available: u64) -> (d: DriveInfo)
    ensures
        d.name@ == (match label {
            Some(l) if l@.len() > 0 => l@,
            _ => "Local Disk"@,
        }) + " ("@ + seq![letter] + ":)"@,
        d.mount_point@ == seq![letter] + ":\\"@,
        d.total_space == total,
        d.available_space == available,
        d.drive_type@ == "local"@,
{
    let shown = match label {
        Some(l) => if l.as_str().is_empty() { String::from_str("Local Disk") } else { l },
        None => String::from_str("Local Disk"),
    };
    let mut name = chars_of(shown.as_str());
    let open = chars_of(" (");
    extend_chars(&mut name, &open);
    name.push(letter);
    name.push(':');
    name.push(')');
    let mut mount: Vec<char> = Vec::new();
    mount.push(letter);
    mount.push(':');
    mount.push('\\');
    proof {
        reveal_strlit(":)");
        reveal_strlit(":\\");
    }
    assert(name@ =~= shown@ + " ("@ + seq![letter] + ":)"@);
    assert(mount@ =~= seq![letter] + ":\\"@);
    DriveInfo {
        name: string_of(&name),
        mount_point: string_of(&mount),
        total_space: total,
        available_space: available,
        drive_type: String::from_str("local"),
    }
}

/// The drives of a Mac from the entries of `/Volumes` (name, path): the
/// startup disk first, then each other volume as an external drive.
pub fn macos_drives(volumes: &Vec<(String, String)>) -> (r: Vec<DriveInfo>)
    ensures
        r@.len() >= 1,
        r@[0].name@ == "Macintosh HD"@ && r@[0].mount_point@ == "/"@ && r@[0].drive_type@ == "local"@,
        forall|i: int| 1 <= i < r@.len() ==> #[trigger] r@[i].drive_type@ == "external"@
            && r@[i].name@ != "Macintosh HD"@,
        forall|j: int| 0 <= j < volumes@.len() && volumes@[j].0@ != "Macintosh HD"@ ==>
            exists|i: int| 1 <= i < r@.len() && #[trigger] r@[i].name@ == (#[trigger] volumes@[j]).0@
                && r@[i].mount_point@ == volumes@[j].1@,
{
    let mut r: Vec<DriveInfo> = Vec::new();
    r.push(DriveInfo {
        name: String::from_str("Macintosh HD"),
        mount_point: String::from_str("/"),
        total_space: 0,
        available_space: 0,
        drive_type: String::from_str("local"),
    });
    let mut j: usize = 0;
    while j < volumes.len()
        invariant
            j <= volumes@.len(),
            r@.len() >= 1,
            r@[0].name@ == "Macintosh HD"@ && r@[0].mount_point@ == "/"@ && r@[0].drive_type@ == "local"@,
            forall|i: int| 1 <= i < r@.len() ==> #[trigger] r@[i].drive_type@ == "external"@
                && r@[i].name@ != "Macintosh HD"@,
            forall|k: int| 0 <= k < j && volumes@[k].0@ != "Macintosh HD"@ ==>
                exists|i: int| 1 <= i < r@.len() && #[trigger] r@[i].name@ == (#[trigger] volumes@[k]).0@
                    && r@[i].mount_point@ == volumes@[k].1@,
        decreases volumes@.len() - j,
    {
        if !same_text(volumes[j].0.as_str(), "Macintosh HD") {
            let ghost before = r@;
            r.push(DriveInfo {
                name: volumes[j].0.clone(),
                mount_point: volumes[j].1.clone(),
                total_space: 0,
                available_space: 0,
                drive_type: String::from_str("external"),
            });
            assert forall|k: int| 0 <= k <= j && volumes@[k].0@ != "Macintosh HD"@ implies
                exists|i: int| 1 <= i < r@.len() && #[trigger] r@[i].name@ == (#[trigger] volumes@[k]).0@
                    && r@[i].mount_point@ == volumes@[k].1@ by {
                if k < j {
                    let i = choose|i: int| 1 <= i < before.len() && #[trigger] before[i].name@ == volumes@[k].0@
                        && before[i].mount_point@ == volumes@[k].1@;
                    assert(r@[i] == before[i]);
                } else {
                    assert(r@[before.len() as int].name@ == volumes@[k].0@);
                }
            }
        }
        j = j + 1;
    }
    r
}

} // verus!
