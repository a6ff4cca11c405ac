//! Plain records exchanged between the file system layer and the views.
use vstd::prelude::*;
use std::time::SystemTime;

verus! {

/// One entry of a directory listing.
#[derive(Debug, Clone, PartialEq)]
pub struct FileEntry {
    pub name: String,
    pub path: String,
    pub is_dir: bool,
    pub size: u64,
    /// Unix timestamp in seconds (signed for chrono compatibility)
    pub modified: i64,
    pub file_type: String,
    pub mime_type: Option<String>,
    pub is_readonly: bool,
}

/// A mounted drive or volume.
#[derive(Debug, Clone, PartialEq)]
pub struct DriveInfo {
    pub name: String,
    pub mount_point: String,
    pub total_space: u64,
    pub available_space: u64,
    pub drive_type: String,
}

/// A named favourite location.
#[derive(Debug, Clone, PartialEq)]
pub struct Bookmark {
    pub name: String,
    pub path: String,
}

/// An item in the system trash.
#[derive(Debug, Clone, PartialEq)]
pub struct TrashItem {
    pub name: String,
    pub original_path: String,
    pub deleted_at: i64,
    pub size: u64,
    pub is_dir: bool,
}

/// A copy of an optional string.
pub fn copy_opt_string(s: &Option<String>) -> (r: Option<String>)
    ensures
        r == *s,
{
    match s {
        Some(v) => Some(v.clone()),
        None => None,
    }
}

impl FileEntry {
    /// A field-for-field copy.
    pub fn duplicate(&self) -> (r: FileEntry)
        ensures
            r == *self,
    {
        FileEntry {
            name: self.name.clone(),
            path: self.path.clone(),
            is_dir: self.is_dir,
            size: self.size,
            modified: self.modified,
            file_type: self.file_type.clone(),
            mime_type: copy_opt_string(&self.mime_type),
            is_readonly: self.is_readonly,
        }
    }
}

impl Bookmark {
    /// A field-for-field copy.
    pub fn duplicate(&self) -> (r: Bookmark)
        ensures
            r == *self,
    {
        Bookmark { name: self.name.clone(), path: self.path.clone() }
    }
}

/// `std::time::SystemTime`, carried through unexamined.
#[verifier::external_type_specification]
#[verifier::external_body]
pub struct ExSystemTime(SystemTime);

/// Whole seconds from the Unix epoch to `time`, or `None` for a time before
/// the epoch: a function of the time value alone.
pub uninterp spec fn secs_since_epoch(time: SystemTime) -> Option<u64>;

/// `SystemTime::duration_since` with `UNIX_EPOCH`, then `Duration::as_secs`
/// (`None` when `time` lies before the epoch). Claims only that the result
/// is the named function of the time value.
#[verifier::external_body]
fn seconds_since_epoch(time: SystemTime) -> (r: Option<u64>)
    ensures
        r == secs_since_epoch(time),
{
    time.duration_since(SystemTime::UNIX_EPOCH).ok().map(|d| d.as_secs())
}

/// The signed timestamp for a whole number of seconds since the epoch, as
/// `u64 as i64` converts it (wrapping past `i64::MAX`), or 0 for a time before
/// the epoch.
pub open spec fn timestamp_of(secs: Option<u64>) -> i64 {
    match secs {
        Some(s) => if s <= i64::MAX as u64 {
            s as i64
        } else {
            (s as int - 0x1_0000_0000_0000_0000) as i64
        },
        None => 0,
    }
}

/// Converts whole seconds since the epoch to a signed Unix timestamp.
pub fn timestamp_from_secs(secs: Option<u64>) -> (r: i64)
    ensures
        r == timestamp_of(secs),
{
    match secs {
        Some(s) => {
            if s <= i64::MAX as u64 {
                s as i64
            } else {
                let above: u64 = s - 0x8000_0000_0000_0000u64;
                (above as i64) + i64::MIN
            }
        },
        None => 0,
    }
}

/// Convert a SystemTime to a Unix timestamp (seconds since epoch): the
/// whole seconds since the epoch, or 0 for a time before it.
pub fn system_time_to_timestamp(time: SystemTime) -> (r: i64)
    ensures
        r == timestamp_of(secs_since_epoch(time)),
{
    let secs = seconds_since_epoch(time);
    timestamp_from_secs(secs)
}

} // verus!
