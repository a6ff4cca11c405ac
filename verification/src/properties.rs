//! The properties dialog: how the type of an item and exact byte counts are
//! written.
use vstd::prelude::*;
use std::sync::mpsc::Receiver;
use crate::channel::try_receive;
use crate::numbers::{decimal, decimal_chars, group_thousands, group_digits};
use crate::paths::{display_name, display_name_for_path, extension, path_extension};
use crate::text::{chars_of, extend_chars, starts_with_char, string_of, to_uppercase, uppercase};

verus! {

/// Formats `n` with a comma between each group of three digits, counted
/// from the right: `1234567` becomes `"1,234,567"`.
pub fn format_bytes_with_commas(n: u64) -> (r: String)
    ensures
        r@ == group_thousands(decimal(n as nat)),
{
    let digits = decimal_chars(n);
    let grouped = group_digits(&digits);
    string_of(&grouped)
}

/// The type shown for an item: "Folder", "File" when there is no extension,
/// otherwise the extension in capitals followed by " File".
pub open spec fn item_kind(is_dir: bool, ext: Seq<char>) -> Seq<char> {
    if is_dir {
        "Folder"@
    } else if ext.len() == 0 {
        "File"@
    } else {
        uppercase(ext) + " File"@
    }
}

/// The type shown for an item with the given extension (empty when none).
pub fn item_kind_label(is_dir: bool, ext: &str) -> (r: String)
    ensures
        r@ == item_kind(is_dir, ext@),
{
    if is_dir {
        String::from_str("Folder")
    } else if ext.is_empty() {
        String::from_str("File")
    } else {
        to_uppercase(ext).concat(" File")
    }
}

/// What the file system reported about an item, each time already in
/// seconds since the Unix epoch when it could be read.
pub struct ItemMetadata {
    pub is_dir: bool,
    pub size: u64,
    pub modified: Option<i64>,
    pub created: Option<i64>,
    pub accessed: Option<i64>,
    pub is_readonly: bool,
}

/// The properties dialog of one item. For a folder, its size and the
/// number of items in it arrive later from a background count.
pub struct PropertiesDialog {
    pub path: String,
    pub name: String,
    pub is_dir: bool,
    pub file_type: String,
    pub size: u64,
    pub size_label: String,
    pub created: i64,
    pub modified: i64,
    pub accessed: i64,
    pub is_readonly: bool,
    pub is_hidden: bool,
    pub dir_size_rx: Option<Receiver<u64>>,
    pub dir_computing: bool,
    pub item_count: Option<u64>,
    pub item_count_rx: Option<Receiver<u64>>,
}

/// The time shown for an optional reading: the reading, or 0.
pub open spec fn time_or_zero(t: Option<i64>) -> i64 {
    match t {
        Some(x) => x,
        None => 0,
    }
}

/// Whether the size label of `d` is one `label_of` gives for its size.
pub open spec fn labelled<F: Fn(u64) -> String>(label_of: F, size: u64, label: String) -> bool {
    call_ensures(label_of, (size,), label)
}

/// The fields that the background counts never touch are as they were.
pub open spec fn same_details(a: PropertiesDialog, b: PropertiesDialog) -> bool {
    &&& b.path == a.path
    &&& b.name == a.name
    &&& b.is_dir == a.is_dir
    &&& b.file_type == a.file_type
    &&& b.created == a.created
    &&& b.modified == a.modified
    &&& b.accessed == a.accessed
    &&& b.is_readonly == a.is_readonly
    &&& b.is_hidden == a.is_hidden
}

/// `new` is `old` after a poll in which the awaited total size `size` and
/// item count `count` arrived (`None`: nothing arrived): an arrived size is
/// set with its label from `label_of` and no more size is awaited; an arrived
/// count is set and no more count is awaited; only awaited values arrive,
/// and everything else is as it was.
pub open spec fn polled_with<F: Fn(u64) -> String>(
    old: PropertiesDialog,
    new: PropertiesDialog,
    size: Option<u64>,
    count: Option<u64>,
    label_of: F,
) -> bool {
    &&& same_details(old, new)
    &&& match size {
        None => new.size == old.size && new.size_label == old.size_label
            && new.dir_computing == old.dir_computing && new.dir_size_rx == old.dir_size_rx,
        Some(n) => old.dir_size_rx is Some && new.size == n && labelled(label_of, n, new.size_label)
            && !new.dir_computing && new.dir_size_rx is None,
    }
    &&& match count {
        None => new.item_count == old.item_count && new.item_count_rx == old.item_count_rx,
        Some(c) => old.item_count_rx is Some && new.item_count == Some(c) && new.item_count_rx is None,
    }
}

impl PropertiesDialog {
    /// The dialog for `path` from what its metadata gave (nothing when it
    /// could not be read): its name, its kind from the extension, its size
    /// (labelled by `label_of` for a file; a folder's is still being
    /// counted), its times (0 when unknown), and whether it is read-only or
    /// hidden (its name starts with a dot). No count is attached yet.
    pub fn from_metadata<F: Fn(u64) -> String>(path: &str, meta: Option<ItemMetadata>, label_of: F) -> (d: PropertiesDialog)
        requires
            forall|n: u64| call_requires(label_of, (n,)),
        ensures
            d.path@ == path@,
            d.name@ == display_name(path@),
            d.is_dir == (meta matches Some(m) && m.is_dir),
            d.size == (match meta {
                Some(m) => m.size,
                None => 0,
            }),
            d.modified == (match meta {
                Some(m) => time_or_zero(m.modified),
                None => 0,
            }),
            d.created == (match meta {
                Some(m) => time_or_zero(m.created),
                None => 0,
            }),
            d.accessed == (match meta {
                Some(m) => time_or_zero(m.accessed),
                None => 0,
            }),
            d.is_readonly == (meta matches Some(m) && m.is_readonly),
            d.file_type@ == item_kind(d.is_dir, match path_extension(path@) {
                Some(e) => e,
                None => Seq::empty(),
            }),
            d.is_hidden == (d.name@.len() > 0 && d.name@[0] == '.'),
            d.is_dir ==> d.size_label@ == "Calculating…"@,
            !d.is_dir ==> labelled(label_of, d.size, d.size_label),
            d.dir_size_rx is None,
            d.item_count_rx is None,
            d.dir_computing == d.is_dir,
            d.item_count == (if d.is_dir { None } else { Some(0u64) }),
    {
        let name = display_name_for_path(path);
        let (is_dir, size, modified, created, accessed, is_readonly) = match meta {
            Some(m) => (
                m.is_dir,
                m.size,
                match m.modified {
                    Some(t) => t,
                    None => 0,
                },
                match m.created {
                    Some(t) => t,
                    None => 0,
                },
                match m.accessed {
                    Some(t) => t,
                    None => 0,
                },
                m.is_readonly,
            ),
            None => (false, 0, 0, 0, 0, false),
        };
        let ext = match extension(path) {
            Some(e) => e,
            None => String::new(),
        };
        let file_type = item_kind_label(is_dir, ext.as_str());
        let is_hidden = starts_with_char(name.as_str(), '.');
        let size_label = if is_dir {
            String::from_str("Calculating…")
        } else {
            label_of(size)
        };
        PropertiesDialog {
            path: String::from_str(path),
            name,
            is_dir,
            file_type,
            size,
            size_label,
            created,
            modified,
            accessed,
            is_readonly,
            is_hidden,
            dir_size_rx: None,
            dir_computing: is_dir,
            item_count: if is_dir { None } else { Some(0) },
            item_count_rx: None,
        }
    }

    /// Takes the folder's total size, once counted: the size and its label
    /// are set, and no more size is awaited.
    pub fn apply_dir_size(&mut self, size: u64, label: String)
        ensures
            final(self).size == size,
            final(self).size_label == label,
            !final(self).dir_computing,
            final(self).dir_size_rx is None,
            final(self).item_count == old(self).item_count,
            final(self).item_count_rx == old(self).item_count_rx,
            same_details(*old(self), *final(self)),
    {
        self.size = size;
        self.size_label = label;
        self.dir_computing = false;
        self.dir_size_rx = None;
    }

    /// Takes the number of items in the folder, once counted.
    pub fn apply_item_count(&mut self, count: u64)
        ensures
            final(self).item_count == Some(count),
            final(self).item_count_rx is None,
            final(self).size == old(self).size,
            final(self).size_label == old(self).size_label,
            final(self).dir_computing == old(self).dir_computing,
            final(self).dir_size_rx == old(self).dir_size_rx,
            same_details(*old(self), *final(self)),
    {
        self.item_count = Some(count);
        self.item_count_rx = None;
    }

    /// Takes whatever the background counts have sent: a total size, which
    /// is set with its label from `label_of`, and a number of items, each
    /// taken only while it is awaited and then no longer awaited. Which of
    /// them has arrived depends on the counts' progress; the rest of the
    /// dialog stays as it was.
    pub fn poll<F: Fn(u64) -> String>(&mut self, label_of: F)
        requires
            forall|n: u64| call_requires(label_of, (n,)),
        ensures
            exists|size: Option<u64>, count: Option<u64>|
                polled_with(*old(self), *final(self), size, count, label_of),
    {
        let ghost start = *self;
        let size = match &self.dir_size_rx {
            Some(rx) => try_receive(rx),
            None => None,
        };
        match size {
            Some(n) => {
                let label = label_of(n);
                self.apply_dir_size(n, label);
            },
            None => {},
        }
        let count = match &self.item_count_rx {
            Some(rx) => try_receive(rx),
            None => None,
        };
        match count {
            Some(c) => self.apply_item_count(c),
            None => {},
        }
        assert(polled_with(start, *self, size, count, label_of));
    }
}

/// The attributes shown: "Read-only" and "Hidden" as they apply, joined
/// by ", ", or "Normal" when neither does.
pub open spec fn attributes_of(is_readonly: bool, is_hidden: bool) -> Seq<char> {
    if is_readonly && is_hidden {
        "Read-only, Hidden"@
    } else if is_readonly {
        "Read-only"@
    } else if is_hidden {
        "Hidden"@
    } else {
        "Normal"@
    }
}

/// The attributes line of the dialog.
pub fn attributes_text(is_readonly: bool, is_hidden: bool) -> (r: String)
    ensures
        r@ == attributes_of(is_readonly, is_hidden),
{
    if is_readonly && is_hidden {
        String::from_str("Read-only, Hidden")
    } else if is_readonly {
        String::from_str("Read-only")
    } else if is_hidden {
        String::from_str("Hidden")
    } else {
        String::from_str("Normal")
    }
}

/// The size line of the dialog: the label, marked while the folder is
/// still being counted.
pub fn size_text(label: &str, computing: bool) -> (r: String)
    ensures
        computing ==> r@ == label@ + " (calculating…)"@,
        !computing ==> r@ == label@,
{
    if computing {
        String::from_str(label).concat(" (calculating…)")
    } else {
        String::from_str(label)
    }
}

/// The contents line of the dialog, shown for a folder once counted:
/// "<n> items".
pub fn contents_text(item_count: Option<u64>, is_dir: bool) -> (r: Option<String>)
    ensures
        match item_count {
            Some(n) if is_dir => r matches Some(t) && t@ == decimal(n as nat) + " items"@,
            _ => r is None,
        },
{
    match item_count {
        Some(n) => {
            if is_dir {
                let mut v = decimal_chars(n);
                let tail = chars_of(" items");
                extend_chars(&mut v, &tail);
                Some(string_of(&v))
            } else {
                None
            }
        },
        None => None,
    }
}

} // verus!
