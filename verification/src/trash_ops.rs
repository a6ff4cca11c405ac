//! The system trash: how what the trash lists becomes the library's items.
use vstd::prelude::*;
use crate::paths::{join, path_join};
use crate::types::TrashItem;

verus! {

/// The item shown for an entry of the trash: its name, the path it had
/// (its original directory joined with its name) and when it was deleted.
/// Size and kind are not reported by the trash and are left at zero and
/// "file".
pub fn trash_item_from(name: String, original_parent: &str, time_deleted: i64) -> (t: TrashItem)
    ensures
        t.name == name,
        t.original_path@ == path_join(original_parent@, name@),
        t.deleted_at == time_deleted,
        t.size == 0,
        !t.is_dir,
{
    let original_path = join(original_parent, name.as_str());
    TrashItem { name, original_path, deleted_at: time_deleted, size: 0, is_dir: false }
}

} // verus!
