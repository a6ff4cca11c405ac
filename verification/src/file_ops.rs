//! File operations: the checks made before touching the disk, and the
//! decisions taken while copying and moving, from what the file system
//! reports about each path.
use vstd::prelude::*;
use crate::error::CoreError;

verus! {

/// The error for a path that does not exist.
pub open spec fn is_not_found(r: Result<(), CoreError>, path: Seq<char>) -> bool {
    r matches Err(CoreError::NotFound(p)) && p@ == path
}

/// The error describing a failure with the given message.
pub open spec fn is_other(r: Result<(), CoreError>, message: Seq<char>) -> bool {
    r matches Err(CoreError::Other(m)) && m@ == message
}

/// A path must exist (before renaming, moving, trashing or opening it).
pub fn check_exists(path: &str, exists: bool) -> (r: Result<(), CoreError>)
    ensures
        exists <==> r is Ok,
        !exists ==> is_not_found(r, path@),
{
    if !exists {
        Err(CoreError::NotFound(String::from_str(path)))
    } else {
        Ok(())
    }
}

/// Before copying a file: the source must exist and be a file.
pub fn check_copy_file(src: &str, exists: bool, is_file: bool) -> (r: Result<(), CoreError>)
    ensures
        (exists && is_file) <==> r is Ok,
        !exists ==> is_not_found(r, src@),
        exists && !is_file ==> is_other(r, "Source is not a file: "@ + src@),
{
    if !exists {
        Err(CoreError::NotFound(String::from_str(src)))
    } else if !is_file {
        Err(CoreError::Other(String::from_str("Source is not a file: ").concat(src)))
    } else {
        Ok(())
    }
}

/// Before copying a directory: the source must exist and be a directory.
pub fn check_copy_dir(src: &str, exists: bool, is_dir: bool) -> (r: Result<(), CoreError>)
    ensures
        (exists && is_dir) <==> r is Ok,
        !exists ==> is_not_found(r, src@),
        exists && !is_dir ==> is_other(r, "Source is not a directory: "@ + src@),
{
    if !exists {
        Err(CoreError::NotFound(String::from_str(src)))
    } else if !is_dir {
        Err(CoreError::Other(String::from_str("Source is not a directory: ").concat(src)))
    } else {
        Ok(())
    }
}

/// Before deleting a file for good: it must exist and not be a directory.
pub fn check_delete_file(path: &str, exists: bool, is_dir: bool) -> (r: Result<(), CoreError>)
    ensures
        (exists && !is_dir) <==> r is Ok,
        !exists ==> is_not_found(r, path@),
        exists && is_dir ==> is_other(r, "Path is a directory, use delete_dir instead"@),
{
    if !exists {
        Err(CoreError::NotFound(String::from_str(path)))
    } else if is_dir {
        Err(CoreError::Other(String::from_str("Path is a directory, use delete_dir instead")))
    } else {
        Ok(())
    }
}

/// Before deleting a directory for good: it must exist and be a directory.
pub fn check_delete_dir(path: &str, exists: bool, is_dir: bool) -> (r: Result<(), CoreError>)
    ensures
        (exists && is_dir) <==> r is Ok,
        !exists ==> is_not_found(r, path@),
        exists && !is_dir ==> is_other(r, "Path is not a directory"@),
{
    if !exists {
        Err(CoreError::NotFound(String::from_str(path)))
    } else if !is_dir {
        Err(CoreError::Other(String::from_str("Path is not a directory")))
    } else {
        Ok(())
    }
}

/// What copying a directory does with one of its entries.
#[derive(Debug, Clone, Copy, PartialEq, Eq, Structural)]
pub enum CopyStep {
    /// Symbolic links, and entries that are neither file nor directory,
    /// are left out.
    Skip,
    CopyFile,
    CopyDir,
}

/// The step for an entry: a symbolic link is skipped for safety; a file is
/// copied; a directory is copied with its contents; anything else is left.
pub fn copy_step(is_symlink: bool, is_file: bool, is_dir: bool) -> (r: CopyStep)
    ensures
        r == (if is_symlink {
            CopyStep::Skip
        } else if is_file {
            CopyStep::CopyFile
        } else if is_dir {
            CopyStep::CopyDir
        } else {
            CopyStep::Skip
        }),
{
    if is_symlink {
        CopyStep::Skip
    } else if is_file {
        CopyStep::CopyFile
    } else if is_dir {
        CopyStep::CopyDir
    } else {
        CopyStep::Skip
    }
}

/// What moving does when renaming in place failed (as across file systems).
#[derive(Debug, Clone, Copy, PartialEq, Eq, Structural)]
pub enum MoveFallback {
    /// Copy the file, then remove the original.
    CopyFileThenRemove,
    /// Copy the directory with its contents, then remove the original.
    CopyDirThenRemove,
    /// Neither file nor directory: nothing more is done.
    Leave,
}

/// The fallback for a source that could not be renamed into place.
pub fn move_fallback(is_file: bool, is_dir: bool) -> (r: MoveFallback)
    ensures
        r == (if is_file {
            MoveFallback::CopyFileThenRemove
        } else if is_dir {
            MoveFallback::CopyDirThenRemove
        } else {
            MoveFallback::Leave
        }),
{
    if is_file {
        MoveFallback::CopyFileThenRemove
    } else if is_dir {
        MoveFallback::CopyDirThenRemove
    } else {
        MoveFallback::Leave
    }
}

/// The message for a failure of the system trash or opener, as the
/// outside crate described it.
pub fn failure_message(action: &str, detail: &str) -> (r: String)
    ensures
        r@ == "Failed to "@ + action@ + ": "@ + detail@,
{
    String::from_str("Failed to ").concat(action).concat(": ").concat(detail)
}

} // verus!
