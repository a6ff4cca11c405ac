//! Building and ordering directory listings from what the file system
//! reports about each entry.
use vstd::prelude::*;
use crate::file_utils::{file_type_for, get_file_type, get_mime_type, mime_for_extension};
use crate::listing::{is_stable_sort, sorted_entries, SortColumn};
use crate::paths::path_extension;
use crate::error::CoreError;
use crate::types::{copy_opt_string, FileEntry};

verus! {

/// What the file system reported for one entry of a directory: its name
/// when it is valid Unicode, its path, and its metadata.
pub struct RawEntry {
    pub name: Option<String>,
    pub path: String,
    pub is_dir: bool,
    pub size: u64,
    pub modified: i64,
    pub is_readonly: bool,
}

/// `e` is the listing entry for `raw`, as `file_entry_for` builds it.
pub open spec fn entry_for(raw: RawEntry, e: FileEntry) -> bool {
    &&& e.name@ == (match raw.name {
        Some(n) => n@,
        None => "Unknown"@,
    })
    &&& e.path@ == raw.path@
    &&& e.is_dir == raw.is_dir
    &&& e.size == raw.size
    &&& e.modified == raw.modified
    &&& e.file_type@ == file_type_for(raw.is_dir, path_extension(raw.path@))
    &&& match e.mime_type {
        Some(m) => path_extension(raw.path@) matches Some(x) && mime_for_extension(x) == Some(m@),
        None => path_extension(raw.path@) matches Some(x) ==> mime_for_extension(x) is None,
    }
    &&& e.is_readonly == raw.is_readonly
}

/// The entries whose metadata could be read, in order.
pub open spec fn readable(entries: Seq<Option<RawEntry>>) -> Seq<RawEntry>
    decreases entries.len(),
{
    if entries.len() == 0 {
        Seq::empty()
    } else {
        match entries.last() {
            Some(r) => readable(entries.drop_last()).push(r),
            None => readable(entries.drop_last()),
        }
    }
}

/// `built` holds, in order, the listing entry of each raw entry.
pub open spec fn built_from(raws: Seq<RawEntry>, built: Seq<FileEntry>) -> bool {
    &&& built.len() == raws.len()
    &&& forall|i: int| 0 <= i < raws.len() ==> entry_for(#[trigger] raws[i], built[i])
}

/// The checks made before a directory is read: it must exist, and be a
/// directory.
pub fn check_directory(path: &str, exists: bool, is_dir: bool) -> (r: Result<(), CoreError>)
    ensures
        !exists ==> (r matches Err(CoreError::NotFound(p)) && p@ == path@),
        exists && !is_dir ==> (r matches Err(CoreError::Other(m)) && m@ == "Path is not a directory: "@ + path@),
        exists && is_dir ==> r is Ok,
{
    if !exists {
        Err(CoreError::NotFound(String::from_str(path)))
    } else if !is_dir {
        Err(CoreError::Other(String::from_str("Path is not a directory: ").concat(path)))
    } else {
        Ok(())
    }
}

/// Whether an operating-system error is of the kind `PermissionDenied`: a
/// function of the error alone.
pub uninterp spec fn permission_denied(e: std::io::Error) -> bool;

/// `io::Error::kind` is `PermissionDenied`: the named function of the error.
#[verifier::external_body]
fn is_permission_denied(e: &std::io::Error) -> (r: bool)
    ensures
        r == permission_denied(*e),
{
    e.kind() == std::io::ErrorKind::PermissionDenied
}

/// The listing of a directory from what reading it gave: each entry whose
/// metadata could be read becomes a listing entry, and the listing is
/// ordered directories first, then by name ignoring case, equal entries
/// keeping their order.
pub fn listing_from(entries: &Vec<Option<RawEntry>>) -> (r: Vec<FileEntry>)
    ensures
        exists|built: Seq<FileEntry>| built_from(readable(entries@), built) && is_stable_sort(built, r@, SortColumn::Name, true),
{
    let mut built: Vec<FileEntry> = Vec::new();
    let mut i: usize = 0;
    while i < entries.len()
        invariant
            i <= entries@.len(),
            built_from(readable(entries@.take(i as int)), built@),
        decreases entries@.len() - i,
    {
        assert(entries@.take(i + 1).drop_last() == entries@.take(i as int));
        match &entries[i] {
            Some(raw) => {
                let e = file_entry_for(
                    copy_opt_string(&raw.name),
                    String::from_str(raw.path.as_str()),
                    raw.is_dir,
                    raw.size,
                    raw.modified,
                    raw.is_readonly,
                );
                let ghost before = built@;
                built.push(e);
                assert(readable(entries@.take(i + 1)) == readable(entries@.take(i as int)).push(*raw));
                assert forall|k: int| 0 <= k < readable(entries@.take(i + 1)).len() implies
                    entry_for(#[trigger] readable(entries@.take(i + 1))[k], built@[k]) by {
                    if k < before.len() {
                        assert(built@[k] == before[k]);
                    }
                }
            },
            None => {
                assert(readable(entries@.take(i + 1)) == readable(entries@.take(i as int)));
            },
        }
        i = i + 1;
    }
    assert(entries@.take(i as int) == entries@);
    sort_listing(&built)
}

/// `r` is the error for a failed read of `path`: `PermissionDenied` for the
/// path when the read was refused, otherwise the operating system's error
/// `e` itself.
pub open spec fn is_read_error(r: CoreError, path: Seq<char>, denied: bool, e: std::io::Error) -> bool {
    if denied {
        r matches CoreError::PermissionDenied(p) && p@ == path
    } else {
        r == CoreError::Io(e)
    }
}

/// The error for a failed read of `path`, given whether the read was refused.
pub fn read_error(path: &str, denied: bool, e: std::io::Error) -> (r: CoreError)
    ensures
        is_read_error(r, path@, denied, e),
{
    if denied {
        CoreError::PermissionDenied(String::from_str(path))
    } else {
        CoreError::Io(e)
    }
}

/// The listing for a directory that was checked, from what reading it
/// gave: a refused read is `PermissionDenied` for the path, any other
/// failure is passed on; a read gives the ordered listing.
pub fn listing_result(path: &str, read: Result<Vec<Option<RawEntry>>, std::io::Error>) -> (r: Result<Vec<FileEntry>, CoreError>)
    ensures
        match read {
            Ok(es) => r matches Ok(v) && exists|built: Seq<FileEntry>|
                built_from(readable(es@), built) && is_stable_sort(built, v@, SortColumn::Name, true),
            Err(e) => r matches Err(err) && is_read_error(err, path@, permission_denied(e), e),
        },
{
    match read {
        Ok(es) => Ok(listing_from(&es)),
        Err(e) => {
            let denied = is_permission_denied(&e);
            let err = read_error(path, denied, e);
            Err(err)
        },
    }
}

/// The listing entry for a file system entry: its name (`"Unknown"` when the
/// name is not valid Unicode), its category and MIME type from the extension,
/// and the metadata as given.
pub fn file_entry_for(
    name: Option<String>,
    path: String,
    is_dir: bool,
    size: u64,
    modified: i64,
    is_readonly: bool,
) -> (e: FileEntry)
    ensures
        e.name@ == (match name {
            Some(n) => n@,
            None => "Unknown"@,
        }),
        e.path == path,
        e.is_dir == is_dir,
        e.size == size,
        e.modified == modified,
        e.file_type@ == file_type_for(is_dir, path_extension(path@)),
        match e.mime_type {
            Some(m) => path_extension(path@) matches Some(x) && mime_for_extension(x) == Some(m@),
            None => path_extension(path@) matches Some(x) ==> mime_for_extension(x) is None,
        },
        e.is_readonly == is_readonly,
{
    let name = match name {
        Some(n) => n,
        None => String::from_str("Unknown"),
    };
    let file_type = get_file_type(&path, is_dir);
    let mime_type = get_mime_type(&path);
    FileEntry { name, path, is_dir, size, modified, file_type, mime_type, is_readonly }
}

/// Orders a directory listing: directories first, then files, both
/// alphabetically by name, ignoring case; entries that compare equal keep
/// their order.
pub fn sort_listing(entries: &Vec<FileEntry>) -> (r: Vec<FileEntry>)
    ensures
        is_stable_sort(entries@, r@, SortColumn::Name, true),
{
    sorted_entries(entries, SortColumn::Name, true)
}

} // verus!
