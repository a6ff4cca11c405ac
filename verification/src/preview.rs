//! The preview panel: which files get an image or a text preview.
use vstd::prelude::*;
use crate::file_list::{strip_dots, strip_leading_dots};
use crate::file_utils::{is_one_of, views};
use crate::paths::{extension, path_extension};
use crate::state::Tab;
use crate::text::{chars_of, extend_chars, lines_of, lowercase, string_of, text_lines, to_lowercase, to_uppercase, uppercase};
use crate::types::FileEntry;

verus! {

/// Extensions previewed as images.
pub const IMAGE_EXTS: [&'static str; 8] = ["png", "jpg", "jpeg", "gif", "bmp", "webp", "svg", "ico"];

/// Extensions previewed as text.
pub const TEXT_PREVIEW_EXTS: [&'static str; 52] = ["txt", "md", "rs", "toml", "json", "yaml", "yml", "xml", "html", "htm", "css", "scss", "sass", "js", "mjs", "jsx", "ts", "tsx", "py", "go", "c", "h", "cpp", "hpp", "cc", "java", "rb", "cs", "swift", "kt", "sh", "bash", "ps1", "bat", "cmd", "sql", "graphql", "proto", "env", "ini", "cfg", "conf", "log", "csv", "gitignore", "dockerignore", "editorconfig", "lock", "vue", "svelte", "astro", "mdx"];

/// Whether files with this extension are previewed as images.
pub fn is_image_ext(ext: &str) -> (r: bool)
    ensures
        r == views(IMAGE_EXTS@).contains(ext@),
{
    is_one_of(ext, &IMAGE_EXTS)
}

/// Whether files with this extension are previewed as text.
pub fn is_text_ext(ext: &str) -> (r: bool)
    ensures
        r == views(TEXT_PREVIEW_EXTS@).contains(ext@),
{
    is_one_of(ext, &TEXT_PREVIEW_EXTS)
}

/// Files larger than this many bytes are not shown as text.
pub const MAX_PREVIEW_BYTES: u64 = 524288;

/// At most this many lines of a text file are shown.
pub const MAX_PREVIEW_LINES: usize = 200;

/// What the preview of a file shows.
pub enum PreviewPlan {
    /// The image at this address.
    Image(String),
    /// The beginning of the file's text, when it can be read.
    Text,
    /// A note that the file is too large.
    TooLarge,
    /// Nothing more.
    Nothing,
}

/// The extension a preview goes by: the path's extension in lowercase, or
/// nothing.
pub open spec fn preview_ext(path: Seq<char>) -> Seq<char> {
    match path_extension(path) {
        Some(e) => lowercase(e),
        None => Seq::empty(),
    }
}

/// The address of an image file: "file://" and the path with each
/// backslash turned into a slash.
pub open spec fn image_uri_of(path: Seq<char>) -> Seq<char> {
    "file://"@ + Seq::new(path.len(), |i: int| if path[i] == '\\' { '/' } else { path[i] })
}

/// The address of an image file.
pub fn image_uri(path: &str) -> (r: String)
    ensures
        r@ == image_uri_of(path@),
{
    let v = chars_of(path);
    let mut out = chars_of("file://");
    let ghost head = out@;
    let mut i: usize = 0;
    while i < v.len()
        invariant
            i <= v@.len(),
            v@ == path@,
            head == "file://"@,
            out@ == head + Seq::new(i as nat, |k: int| if v@[k] == '\\' { '/' } else { v@[k] }),
        decreases v@.len() - i,
    {
        let c = if v[i] == '\\' { '/' } else { v[i] };
        out.push(c);
        i = i + 1;
        assert(out@ =~= head + Seq::new(i as nat, |k: int| if v@[k] == '\\' { '/' } else { v@[k] }));
    }
    assert(Seq::new(i as nat, |k: int| if v@[k] == '\\' { '/' } else { v@[k] })
        =~= Seq::new(path@.len(), |k: int| if path@[k] == '\\' { '/' } else { path@[k] }));
    string_of(&out)
}

/// The preview of a file of `size` bytes at `path`: an image for an image
/// extension; the text for a text extension when the file is small enough;
/// a note when the file is too large; otherwise nothing.
pub fn preview_plan(path: &str, size: u64) -> (r: PreviewPlan)
    ensures
        views(IMAGE_EXTS@).contains(preview_ext(path@)) ==> (r matches PreviewPlan::Image(u) && u@ == image_uri_of(path@)),
        !views(IMAGE_EXTS@).contains(preview_ext(path@)) ==> {
            if views(TEXT_PREVIEW_EXTS@).contains(preview_ext(path@)) && size <= MAX_PREVIEW_BYTES {
                r is Text
            } else if size > MAX_PREVIEW_BYTES {
                r is TooLarge
            } else {
                r is Nothing
            }
        },
{
    let ext = match extension(path) {
        Some(e) => to_lowercase(e.as_str()),
        None => String::new(),
    };
    if is_image_ext(ext.as_str()) {
        PreviewPlan::Image(image_uri(path))
    } else if is_text_ext(ext.as_str()) && size <= MAX_PREVIEW_BYTES {
        PreviewPlan::Text
    } else if size > MAX_PREVIEW_BYTES {
        PreviewPlan::TooLarge
    } else {
        PreviewPlan::Nothing
    }
}

/// Lines joined with a newline between each two.
pub open spec fn joined(lines: Seq<Seq<char>>) -> Seq<char>
    decreases lines.len(),
{
    if lines.len() == 0 {
        Seq::empty()
    } else if lines.len() == 1 {
        lines[0]
    } else {
        joined(lines.drop_last()) + seq!['\n'] + lines.last()
    }
}

/// The text preview of a file's content: its first `MAX_PREVIEW_LINES`
/// lines joined by newlines, and the number of lines in all.
pub fn text_excerpt(content: &str) -> (r: (String, usize))
    ensures
        r.1 == text_lines(content@).len(),
        r.0@ == joined(text_lines(content@).take(
            if text_lines(content@).len() < MAX_PREVIEW_LINES { text_lines(content@).len() as int } else { MAX_PREVIEW_LINES as int },
        )),
{
    let lines = lines_of(content);
    let ghost ls = text_lines(content@);
    let n: usize = if lines.len() < MAX_PREVIEW_LINES { lines.len() } else { MAX_PREVIEW_LINES };
    let mut out: Vec<char> = Vec::new();
    let mut i: usize = 0;
    while i < n
        invariant
            i <= n,
            n <= lines@.len(),
            lines@.len() == ls.len(),
            forall|k: int| 0 <= k < lines@.len() ==> #[trigger] lines@[k]@ == ls[k],
            out@ == joined(ls.take(i as int)),
        decreases n - i,
    {
        assert(ls.take(i + 1).drop_last() == ls.take(i as int));
        assert(ls.take(i + 1).last() == lines@[i as int]@);
        if i > 0 {
            out.push('\n');
        }
        let l = chars_of(lines[i].as_str());
        extend_chars(&mut out, &l);
        i = i + 1;
        if i == 1 {
            assert(out@ =~= ls.take(1)[0]);
        }
    }
    (string_of(&out), lines.len())
}

/// The kind shown under a previewed item's name: "Folder", or its type in
/// capitals without leading dots, or "File" when that is empty.
pub open spec fn preview_kind_of(is_dir: bool, file_type: Seq<char>) -> Seq<char> {
    if is_dir {
        "Folder"@
    } else if uppercase(strip_leading_dots(file_type)).len() == 0 {
        "File"@
    } else {
        uppercase(strip_leading_dots(file_type))
    }
}

/// The kind shown under a previewed item's name.
pub fn preview_kind(is_dir: bool, file_type: &str) -> (r: String)
    ensures
        r@ == preview_kind_of(is_dir, file_type@),
{
    if is_dir {
        String::from_str("Folder")
    } else {
        let stripped = strip_dots(file_type);
        let up = to_uppercase(stripped.as_str());
        if up.as_str().is_empty() {
            String::from_str("File")
        } else {
            up
        }
    }
}

/// What the preview says of several selected items.
pub struct SelectionSummary {
    /// How many rows are selected.
    pub count: usize,
    /// How many are not folders.
    pub files: usize,
    /// How many are folders.
    pub dirs: usize,
    /// The total size of the selected files.
    pub total_size: u64,
}

/// The folders among the selected rows (rows past the listing are left out).
pub open spec fn selected_dirs(sel: Seq<usize>, entries: Seq<FileEntry>) -> nat
    decreases sel.len(),
{
    if sel.len() == 0 {
        0
    } else {
        selected_dirs(sel.drop_last(), entries) + if (sel.last() as int) < entries.len() && entries[sel.last() as int].is_dir { 1nat } else { 0nat }
    }
}

/// The total size of the selected files (rows past the listing are left
/// out).
pub open spec fn selected_size(sel: Seq<usize>, entries: Seq<FileEntry>) -> nat
    decreases sel.len(),
{
    if sel.len() == 0 {
        0
    } else {
        selected_size(sel.drop_last(), entries) + if (sel.last() as int) < entries.len() && !entries[sel.last() as int].is_dir {
            entries[sel.last() as int].size as nat
        } else {
            0nat
        }
    }
}

proof fn lemma_selected_monotone(sel: Seq<usize>, entries: Seq<FileEntry>, i: int)
    requires
        0 <= i <= sel.len(),
    ensures
        selected_size(sel.take(i), entries) <= selected_size(sel, entries),
        selected_dirs(sel.take(i), entries) <= i,
    decreases sel.len() - i,
{
    if i < sel.len() {
        lemma_selected_monotone(sel, entries, i + 1);
        assert(sel.take(i + 1).drop_last() == sel.take(i));
    } else {
        assert(sel.take(i) == sel);
    }
    lemma_dirs_bound(sel.take(i), entries);
}

proof fn lemma_dirs_bound(sel: Seq<usize>, entries: Seq<FileEntry>)
    ensures
        selected_dirs(sel, entries) <= sel.len(),
    decreases sel.len(),
{
    if sel.len() > 0 {
        lemma_dirs_bound(sel.drop_last(), entries);
    }
}

/// The summary of the selected rows of a tab, when their total size fits.
pub fn selection_summary(tab: &Tab) -> (r: SelectionSummary)
    requires
        selected_size(tab.selected_indices@, tab.entries@) <= u64::MAX,
    ensures
        r.count == tab.selected_indices@.len(),
        r.dirs == selected_dirs(tab.selected_indices@, tab.entries@),
        r.files == r.count - r.dirs,
        r.total_size == selected_size(tab.selected_indices@, tab.entries@),
{
    let sel = &tab.selected_indices;
    let mut dirs: usize = 0;
    let mut total: u64 = 0;
    let mut i: usize = 0;
    while i < sel.len()
        invariant
            i <= sel@.len(),
            sel@ == tab.selected_indices@,
            selected_size(sel@, tab.entries@) <= u64::MAX,
            dirs == selected_dirs(sel@.take(i as int), tab.entries@),
            total == selected_size(sel@.take(i as int), tab.entries@),
        decreases sel@.len() - i,
    {
        proof {
            assert(sel@.take(i + 1).drop_last() == sel@.take(i as int));
            lemma_selected_monotone(sel@, tab.entries@, i + 1);
        }
        let k = sel[i];
        if k < tab.entries.len() {
            if tab.entries[k].is_dir {
                dirs = dirs + 1;
            } else {
                total = total + tab.entries[k].size;
            }
        }
        i = i + 1;
    }
    assert(sel@.take(i as int) == sel@);
    proof {
        lemma_dirs_bound(sel@, tab.entries@);
    }
    SelectionSummary { count: sel.len(), files: sel.len() - dirs, dirs, total_size: total }
}

} // verus!
