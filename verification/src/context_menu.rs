//! Context menus of the file list: which entries they offer, and what the
//! entries that act on the tab itself do.
use vstd::prelude::*;
use crate::paths::{file_name, parent, path_file_name, path_parent};
use crate::state::{NewItemMode, RenameState, Tab};
use crate::text::same_text;

verus! {

/// The entries of the menu of a file or folder.
#[derive(Debug, Clone, Copy, PartialEq, Eq, Structural)]
pub enum FileContextAction {
    Nothing,
    Open,
    OpenInTerminal,
    ShowInFolder,
    CopyPath,
    Copy,
    Cut,
    Paste,
    Delete,
    MoveToTrash,
    Rename,
    AddToFavorites,
}

/// The entries of the menu of the empty area of a listing.
#[derive(Debug, Clone, Copy, PartialEq, Eq, Structural)]
pub enum EmptyAreaAction {
    Nothing,
    NewFolder,
    NewFile,
    Paste,
    Refresh,
    OpenInTerminal,
}

/// The entry when the condition holds.
pub open spec fn offered<A>(cond: bool, a: A) -> Seq<A> {
    if cond { seq![a] } else { Seq::empty() }
}

/// The menu of an item, top to bottom: Open; Open in Terminal for a
/// folder; Copy, Cut, and Paste when something is on the clipboard; Rename,
/// Move to Trash, Delete permanently; Copy path, Show in Explorer; and Add to
/// Favorites for a folder.
pub open spec fn file_menu_of(is_dir: bool, has_clipboard: bool) -> Seq<FileContextAction> {
    seq![FileContextAction::Open]
        + offered(is_dir, FileContextAction::OpenInTerminal)
        + seq![FileContextAction::Copy, FileContextAction::Cut]
        + offered(has_clipboard, FileContextAction::Paste)
        + seq![FileContextAction::Rename, FileContextAction::MoveToTrash, FileContextAction::Delete,
            FileContextAction::CopyPath, FileContextAction::ShowInFolder]
        + offered(is_dir, FileContextAction::AddToFavorites)
}

/// The menu of the empty area: New Folder, New File, Paste when something
/// is on the clipboard, Refresh, Open in Terminal.
pub open spec fn empty_area_menu_of(has_clipboard: bool) -> Seq<EmptyAreaAction> {
    seq![EmptyAreaAction::NewFolder, EmptyAreaAction::NewFile]
        + offered(has_clipboard, EmptyAreaAction::Paste)
        + seq![EmptyAreaAction::Refresh, EmptyAreaAction::OpenInTerminal]
}

/// The entries offered by the menu of an item.
pub fn file_menu(is_dir: bool, has_clipboard: bool) -> (r: Vec<FileContextAction>)
    ensures
        r@ == file_menu_of(is_dir, has_clipboard),
{
    let mut v: Vec<FileContextAction> = Vec::new();
    v.push(FileContextAction::Open);
    if is_dir {
        v.push(FileContextAction::OpenInTerminal);
    }
    v.push(FileContextAction::Copy);
    v.push(FileContextAction::Cut);
    if has_clipboard {
        v.push(FileContextAction::Paste);
    }
    v.push(FileContextAction::Rename);
    v.push(FileContextAction::MoveToTrash);
    v.push(FileContextAction::Delete);
    v.push(FileContextAction::CopyPath);
    v.push(FileContextAction::ShowInFolder);
    if is_dir {
        v.push(FileContextAction::AddToFavorites);
    }
    assert(v@ =~= file_menu_of(is_dir, has_clipboard));
    v
}

/// The entries offered by the menu of the empty area.
pub fn empty_area_menu(has_clipboard: bool) -> (r: Vec<EmptyAreaAction>)
    ensures
        r@ == empty_area_menu_of(has_clipboard),
{
    let mut v: Vec<EmptyAreaAction> = Vec::new();
    v.push(EmptyAreaAction::NewFolder);
    v.push(EmptyAreaAction::NewFile);
    if has_clipboard {
        v.push(EmptyAreaAction::Paste);
    }
    v.push(EmptyAreaAction::Refresh);
    v.push(EmptyAreaAction::OpenInTerminal);
    assert(v@ =~= empty_area_menu_of(has_clipboard));
    v
}

/// The label of an item's menu entry, and the shortcut shown beside it.
pub fn file_action_label(a: FileContextAction) -> (r: (&'static str, Option<&'static str>))
    ensures
        a == FileContextAction::Open ==> r.0@ == "Open"@ && r.1 is None,
        a == FileContextAction::Copy ==> r.0@ == "Copy"@ && r.1 == Some("Ctrl+C"),
        a == FileContextAction::Delete ==> r.0@ == "Delete permanently"@ && r.1 == Some("Shift+Del"),
{
    match a {
        FileContextAction::Nothing => ("", None),
        FileContextAction::Open => ("Open", None),
        FileContextAction::OpenInTerminal => ("Open in Terminal", None),
        FileContextAction::ShowInFolder => ("Show in Explorer", None),
        FileContextAction::CopyPath => ("Copy path", None),
        FileContextAction::Copy => ("Copy", Some("Ctrl+C")),
        FileContextAction::Cut => ("Cut", Some("Ctrl+X")),
        FileContextAction::Paste => ("Paste", Some("Ctrl+V")),
        FileContextAction::Delete => ("Delete permanently", Some("Shift+Del")),
        FileContextAction::MoveToTrash => ("Move to Trash", Some("Del")),
        FileContextAction::Rename => ("Rename", Some("F2")),
        FileContextAction::AddToFavorites => ("Add to Favorites", None),
    }
}

/// What opening an item does.
pub enum OpenTarget {
    /// A folder is entered.
    Navigate(String),
    /// A file is opened with its default application.
    OpenFile(String),
}

/// Opening an item: a folder is entered, a file is opened.
pub fn open_target(path: &str, is_dir: bool) -> (r: OpenTarget)
    ensures
        is_dir ==> (r matches OpenTarget::Navigate(p) && p@ == path@),
        !is_dir ==> (r matches OpenTarget::OpenFile(p) && p@ == path@),
{
    if is_dir {
        OpenTarget::Navigate(String::from_str(path))
    } else {
        OpenTarget::OpenFile(String::from_str(path))
    }
}

/// The name a folder is added to the favorites under: its final
/// component, or the whole path when it has none.
pub fn favorite_name(path: &str) -> (r: String)
    ensures
        r@ == (match path_file_name(path@) {
            Some(n) => n,
            None => path@,
        }),
{
    match file_name(path) {
        Some(n) => n,
        None => String::from_str(path),
    }
}

/// The directory a terminal opens in for an item: the folder itself, or
/// the folder holding a file (nothing when the path has no parent).
pub fn terminal_dir(path: &str, is_dir: bool) -> (r: String)
    ensures
        is_dir ==> r@ == path@,
        !is_dir ==> r@ == (match path_parent(path@) {
            Some(p) => p,
            None => Seq::empty(),
        }),
{
    if is_dir {
        String::from_str(path)
    } else {
        match parent(path) {
            Some(p) => p,
            None => String::new(),
        }
    }
}

/// Starts renaming the entry of the tab at `path`, with its current name
/// (its final component, or nothing) as the proposed name. Nothing changes
/// when no entry of the tab has that path.
pub fn begin_rename_at(tab: &mut Tab, path: &str)
    ensures
        final(tab).entries == old(tab).entries,
        final(tab).path == old(tab).path,
        final(tab).history == old(tab).history,
        final(tab).history_index == old(tab).history_index,
        final(tab).selected_indices == old(tab).selected_indices,
        (forall|k: int| 0 <= k < old(tab).entries@.len() ==> #[trigger] old(tab).entries@[k].path@ != path@)
            ==> final(tab).rename_state == old(tab).rename_state,
        (exists|k: int| 0 <= k < old(tab).entries@.len() && #[trigger] old(tab).entries@[k].path@ == path@)
            ==> (final(tab).rename_state matches Some(rs) && {
            &&& rs.entry_index < old(tab).entries@.len()
            &&& old(tab).entries@[rs.entry_index as int].path@ == path@
            &&& forall|k: int| 0 <= k < rs.entry_index ==> #[trigger] old(tab).entries@[k].path@ != path@
            &&& rs.new_name@ == (match path_file_name(path@) {
                Some(n) => n,
                None => Seq::empty(),
            })
        }),
{
    let mut i: usize = 0;
    while i < tab.entries.len()
        invariant
            i <= tab.entries@.len(),
            *tab == *old(tab),
            forall|k: int| 0 <= k < i ==> #[trigger] tab.entries@[k].path@ != path@,
        decreases tab.entries@.len() - i,
    {
        if same_text(tab.entries[i].path.as_str(), path) {
            let name = match file_name(path) {
                Some(n) => n,
                None => String::new(),
            };
            tab.rename_state = Some(RenameState { entry_index: i, new_name: name });
            return;
        }
        i = i + 1;
    }
}

/// Starts the prompt for a new folder ("New Folder") or file
/// ("New File.txt") in the tab.
pub fn begin_new_item(tab: &mut Tab, mode: NewItemMode)
    ensures
        final(tab).new_item_mode == Some(mode),
        final(tab).new_item_name@ == (match mode {
            NewItemMode::Folder => "New Folder"@,
            NewItemMode::File => "New File.txt"@,
        }),
        final(tab).entries == old(tab).entries,
        final(tab).path == old(tab).path,
        final(tab).rename_state == old(tab).rename_state,
{
    tab.new_item_mode = Some(mode);
    tab.new_item_name = match mode {
        NewItemMode::Folder => String::from_str("New Folder"),
        NewItemMode::File => String::from_str("New File.txt"),
    };
}

} // verus!
