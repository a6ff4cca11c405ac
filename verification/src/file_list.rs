//! The file list: how clicks change the selection, and the readable name of
//! each file type shown in the type column.
use vstd::prelude::*;
use crate::file_utils::{is_one_of, views};
use crate::state::{parent_or_empty, Clipboard, ClipboardOp, FileOpRequest, NewItemMode, Tab};
use crate::paths::path_join;
use crate::text::{
    chars_of, extend_chars, lowercase, same_text, string_of, to_lowercase, to_uppercase, trim_view, trimmed,
    uppercase,
};

verus! {

/// A click on a row: which row, and whether Ctrl or Shift was held.
#[derive(Debug, Clone, Copy, PartialEq, Eq, Structural)]
pub struct SelectionAction {
    pub index: usize,
    pub ctrl: bool,
    pub shift: bool,
}

/// `s` without any occurrence of `x`, in order.
pub open spec fn without_value(s: Seq<usize>, x: usize) -> Seq<usize>
    decreases s.len(),
{
    if s.len() == 0 {
        s
    } else {
        let rest = without_value(s.drop_last(), x);
        if s.last() == x { rest } else { rest.push(s.last()) }
    }
}

/// The rows from `a` to `b`, inclusive, in increasing order.
pub open spec fn index_range(a: usize, b: usize) -> Seq<usize> {
    Seq::new((b - a + 1) as nat, |i: int| (a + i) as usize)
}

/// The selection after a click, and the row remembered as the anchor for
/// Shift-clicks.
pub open spec fn selection_after(
    sel: Seq<usize>,
    anchor: Option<usize>,
    action: SelectionAction,
) -> (Seq<usize>, Option<usize>) {
    let i = action.index;
    if action.shift {
        match anchor {
            Some(a) => {
                let (lo, hi) = if a <= i { (a, i) } else { (i, a) };
                (index_range(lo, hi), anchor)
            },
            None => (seq![i], anchor),
        }
    } else if action.ctrl {
        if sel.contains(i) {
            (without_value(sel, i), Some(i))
        } else {
            (sel.push(i), Some(i))
        }
    } else {
        (seq![i], Some(i))
    }
}

fn remove_value(v: &Vec<usize>, x: usize) -> (r: Vec<usize>)
    ensures
        r@ == without_value(v@, x),
{
    let mut r: Vec<usize> = Vec::new();
    let mut k: usize = 0;
    while k < v.len()
        invariant
            k <= v@.len(),
            r@ == without_value(v@.take(k as int), x),
        decreases v@.len() - k,
    {
        assert(v@.take(k + 1).drop_last() == v@.take(k as int));
        if v[k] != x {
            r.push(v[k]);
        }
        k = k + 1;
    }
    assert(v@.take(k as int) == v@);
    r
}

fn contains_value(v: &Vec<usize>, x: usize) -> (r: bool)
    ensures
        r == v@.contains(x),
{
    let mut k: usize = 0;
    while k < v.len()
        invariant
            k <= v@.len(),
            forall|j: int| 0 <= j < k ==> v@[j] != x,
        decreases v@.len() - k,
    {
        if v[k] == x {
            assert(v@[k as int] == x);
            return true;
        }
        k = k + 1;
    }
    false
}

/// Updates the selection of `tab` for a click: Shift selects the range from
/// the anchor, Ctrl toggles the row, a plain click selects only the row.
pub fn apply_selection(tab: &mut Tab, action: SelectionAction)
    ensures
        (final(tab).selected_indices@, final(tab).last_clicked_index) == selection_after(
            old(tab).selected_indices@,
            old(tab).last_clicked_index,
            action,
        ),
        final(tab).entries == old(tab).entries,
        final(tab).path == old(tab).path,
        final(tab).history == old(tab).history,
        final(tab).history_index == old(tab).history_index,
{
    let i = action.index;
    if action.shift {
        match tab.last_clicked_index {
            Some(anchor) => {
                let (lo, hi) = if anchor <= i { (anchor, i) } else { (i, anchor) };
                let mut sel: Vec<usize> = Vec::new();
                let mut k = lo;
                while k < hi
                    invariant
                        lo <= k <= hi,
                        sel@ == Seq::new((k - lo) as nat, |j: int| (lo + j) as usize),
                    decreases hi - k,
                {
                    sel.push(k);
                    k = k + 1;
                    assert(sel@ =~= Seq::new((k - lo) as nat, |j: int| (lo + j) as usize));
                }
                sel.push(hi);
                assert(sel@ =~= index_range(lo, hi));
                tab.selected_indices = sel;
            },
            None => {
                let mut sel: Vec<usize> = Vec::new();
                sel.push(i);
                assert(sel@ =~= seq![i]);
                tab.selected_indices = sel;
            },
        }
    } else if action.ctrl {
        if contains_value(&tab.selected_indices, i) {
            tab.selected_indices = remove_value(&tab.selected_indices, i);
        } else {
            tab.selected_indices.push(i);
        }
        tab.last_clicked_index = Some(i);
    } else {
        let mut sel: Vec<usize> = Vec::new();
        sel.push(i);
        assert(sel@ =~= seq![i]);
        tab.selected_indices = sel;
        tab.last_clicked_index = Some(i);
    }
}

/// No row appears twice in a selection.
pub open spec fn no_repeats(s: Seq<usize>) -> bool {
    forall|a: int, b: int| 0 <= a < b < s.len() ==> s[a] != s[b]
}

proof fn lemma_without_value(s: Seq<usize>, x: usize)
    ensures
        !without_value(s, x).contains(x),
        forall|y: usize| y != x ==> (#[trigger] without_value(s, x).contains(y) <==> s.contains(y)),
        no_repeats(s) ==> no_repeats(without_value(s, x)),
    decreases s.len(),
{
    if s.len() > 0 {
        let d = s.drop_last();
        lemma_without_value(d, x);
        let rest = without_value(d, x);
        assert forall|y: usize| y != x implies (#[trigger] without_value(s, x).contains(y) <==> s.contains(y)) by {
            assert(s.contains(y) <==> d.contains(y) || s.last() == y) by {
                if s.contains(y) {
                    let k = choose|k: int| 0 <= k < s.len() && s[k] == y;
                    if k < s.len() - 1 {
                        assert(d[k] == y);
                    }
                }
                if d.contains(y) {
                    let k = choose|k: int| 0 <= k < d.len() && d[k] == y;
                    assert(s[k] == y);
                }
                if s.last() == y {
                    assert(s[s.len() - 1] == y);
                }
            }
            if s.last() != x {
                assert(rest.push(s.last()).contains(y) <==> rest.contains(y) || s.last() == y) by {
                    if rest.push(s.last()).contains(y) {
                        let k = choose|k: int| 0 <= k < rest.len() + 1 && rest.push(s.last())[k] == y;
                        if k < rest.len() {
                            assert(rest[k] == y);
                        }
                    }
                    if rest.contains(y) {
                        let k = choose|k: int| 0 <= k < rest.len() && rest[k] == y;
                        assert(rest.push(s.last())[k] == y);
                    }
                    if s.last() == y {
                        assert(rest.push(s.last())[rest.len() as int] == y);
                    }
                }
            }
        }
        if s.last() != x {
            assert(!rest.push(s.last()).contains(x)) by {
                if rest.push(s.last()).contains(x) {
                    let k = choose|k: int| 0 <= k < rest.len() + 1 && rest.push(s.last())[k] == x;
                    if k < rest.len() {
                        assert(rest[k] == x);
                    }
                }
            }
        }
        if no_repeats(s) {
            assert(no_repeats(d));
            if s.last() != x {
                assert forall|a: int, b: int| 0 <= a < b < rest.len() + 1 implies rest.push(s.last())[a] != rest.push(s.last())[b] by {
                    if b == rest.len() {
                        let v = rest[a];
                        assert(rest.contains(v));
                        if v != x {
                            assert(d.contains(v));
                            let k = choose|k: int| 0 <= k < d.len() && d[k] == v;
                            assert(s[k] == v);
                            assert(s[s.len() - 1] == s.last());
                        }
                    }
                }
            }
        }
    }
}

/// A Ctrl-click flips whether the row is selected and leaves every other row
/// as it was; clicks never select a row twice.
pub proof fn law_ctrl_click_toggles(sel: Seq<usize>, anchor: Option<usize>, action: SelectionAction)
    requires
        action.ctrl,
        !action.shift,
        no_repeats(sel),
    ensures
        selection_after(sel, anchor, action).0.contains(action.index) == !sel.contains(action.index),
        forall|y: usize| y != action.index ==> (#[trigger] selection_after(sel, anchor, action).0.contains(y) <==> sel.contains(y)),
        no_repeats(selection_after(sel, anchor, action).0),
{
    let i = action.index;
    if sel.contains(i) {
        lemma_without_value(sel, i);
    } else {
        let r = sel.push(i);
        assert(r[sel.len() as int] == i);
        assert forall|y: usize| y != i implies (#[trigger] r.contains(y) <==> sel.contains(y)) by {
            if r.contains(y) {
                let k = choose|k: int| 0 <= k < r.len() && r[k] == y;
                assert(sel[k] == y);
            }
            if sel.contains(y) {
                let k = choose|k: int| 0 <= k < sel.len() && sel[k] == y;
                assert(r[k] == y);
            }
        }
    }
}

/// A Shift-click selects every row between the anchor and the clicked row,
/// and nothing else.
pub proof fn law_shift_click_selects_range(sel: Seq<usize>, anchor: usize, action: SelectionAction, y: usize)
    requires
        action.shift,
    ensures
        selection_after(sel, Some(anchor), action).0.contains(y) <==> ((anchor <= y <= action.index)
            || (action.index <= y <= anchor)),
{
    let r = selection_after(sel, Some(anchor), action).0;
    let (lo, hi) = if anchor <= action.index { (anchor, action.index) } else { (action.index, anchor) };
    if lo <= y <= hi {
        assert(r[(y - lo) as int] == y);
    }
    if r.contains(y) {
        let k = choose|k: int| 0 <= k < r.len() && r[k] == y;
    }
}

} // verus!

verus! {

/// The readable names of file types, by position in [`TYPE_NAME_EXTS`].
pub const TYPE_NAMES: [&'static str; 59] = ["Rust Source", "TOML Config", "JavaScript", "React JSX", "TypeScript", "React TSX", "Python", "Go Source", "C Source", "C Header", "C++ Source", "C++ Header", "Java Source", "Ruby", "C# Source", "Swift", "HTML", "CSS", "SCSS", "JSON", "YAML", "XML", "Markdown", "Text", "Log File", "PNG Image", "JPEG Image", "GIF Image", "SVG Image", "WebP Image", "Bitmap", "Icon", "PDF Document", "Word Document", "Excel Sheet", "PowerPoint", "CSV Data", "ZIP Archive", "RAR Archive", "7z Archive", "TAR Archive", "GZip Archive", "MP3 Audio", "WAV Audio", "FLAC Audio", "MP4 Video", "MKV Video", "AVI Video", "MOV Video", "Executable", "Installer", "DLL Library", "Batch Script", "PowerShell", "Shell Script", "Config", "Environment", "Lock File", "Git Ignore"];

pub const TYPE_NAME_EXTS_0: [&'static str; 1] = ["rs"];
pub const TYPE_NAME_EXTS_1: [&'static str; 1] = ["toml"];
pub const TYPE_NAME_EXTS_2: [&'static str; 2] = ["js", "mjs"];
pub const TYPE_NAME_EXTS_3: [&'static str; 1] = ["jsx"];
pub const TYPE_NAME_EXTS_4: [&'static str; 1] = ["ts"];
pub const TYPE_NAME_EXTS_5: [&'static str; 1] = ["tsx"];
pub const TYPE_NAME_EXTS_6: [&'static str; 1] = ["py"];
pub const TYPE_NAME_EXTS_7: [&'static str; 1] = ["go"];
pub const TYPE_NAME_EXTS_8: [&'static str; 1] = ["c"];
pub const TYPE_NAME_EXTS_9: [&'static str; 1] = ["h"];
pub const TYPE_NAME_EXTS_10: [&'static str; 2] = ["cpp", "cc"];
pub const TYPE_NAME_EXTS_11: [&'static str; 1] = ["hpp"];
pub const TYPE_NAME_EXTS_12: [&'static str; 1] = ["java"];
pub const TYPE_NAME_EXTS_13: [&'static str; 1] = ["rb"];
pub const TYPE_NAME_EXTS_14: [&'static str; 1] = ["cs"];
pub const TYPE_NAME_EXTS_15: [&'static str; 1] = ["swift"];
pub const TYPE_NAME_EXTS_16: [&'static str; 2] = ["html", "htm"];
pub const TYPE_NAME_EXTS_17: [&'static str; 1] = ["css"];
pub const TYPE_NAME_EXTS_18: [&'static str; 2] = ["scss", "sass"];
pub const TYPE_NAME_EXTS_19: [&'static str; 1] = ["json"];
pub const TYPE_NAME_EXTS_20: [&'static str; 2] = ["yaml", "yml"];
pub const TYPE_NAME_EXTS_21: [&'static str; 1] = ["xml"];
pub const TYPE_NAME_EXTS_22: [&'static str; 1] = ["md"];
pub const TYPE_NAME_EXTS_23: [&'static str; 1] = ["txt"];
pub const TYPE_NAME_EXTS_24: [&'static str; 1] = ["log"];
pub const TYPE_NAME_EXTS_25: [&'static str; 1] = ["png"];
pub const TYPE_NAME_EXTS_26: [&'static str; 2] = ["jpg", "jpeg"];
pub const TYPE_NAME_EXTS_27: [&'static str; 1] = ["gif"];
pub const TYPE_NAME_EXTS_28: [&'static str; 1] = ["svg"];
pub const TYPE_NAME_EXTS_29: [&'static str; 1] = ["webp"];
pub const TYPE_NAME_EXTS_30: [&'static str; 1] = ["bmp"];
pub const TYPE_NAME_EXTS_31: [&'static str; 1] = ["ico"];
pub const TYPE_NAME_EXTS_32: [&'static str; 1] = ["pdf"];
pub const TYPE_NAME_EXTS_33: [&'static str; 2] = ["doc", "docx"];
pub const TYPE_NAME_EXTS_34: [&'static str; 2] = ["xls", "xlsx"];
pub const TYPE_NAME_EXTS_35: [&'static str; 2] = ["ppt", "pptx"];
pub const TYPE_NAME_EXTS_36: [&'static str; 1] = ["csv"];
pub const TYPE_NAME_EXTS_37: [&'static str; 1] = ["zip"];
pub const TYPE_NAME_EXTS_38: [&'static str; 1] = ["rar"];
pub const TYPE_NAME_EXTS_39: [&'static str; 1] = ["7z"];
pub const TYPE_NAME_EXTS_40: [&'static str; 1] = ["tar"];
pub const TYPE_NAME_EXTS_41: [&'static str; 1] = ["gz"];
pub const TYPE_NAME_EXTS_42: [&'static str; 1] = ["mp3"];
pub const TYPE_NAME_EXTS_43: [&'static str; 1] = ["wav"];
pub const TYPE_NAME_EXTS_44: [&'static str; 1] = ["flac"];
pub const TYPE_NAME_EXTS_45: [&'static str; 1] = ["mp4"];
pub const TYPE_NAME_EXTS_46: [&'static str; 1] = ["mkv"];
pub const TYPE_NAME_EXTS_47: [&'static str; 1] = ["avi"];
pub const TYPE_NAME_EXTS_48: [&'static str; 1] = ["mov"];
pub const TYPE_NAME_EXTS_49: [&'static str; 1] = ["exe"];
pub const TYPE_NAME_EXTS_50: [&'static str; 1] = ["msi"];
pub const TYPE_NAME_EXTS_51: [&'static str; 1] = ["dll"];
pub const TYPE_NAME_EXTS_52: [&'static str; 2] = ["bat", "cmd"];
pub const TYPE_NAME_EXTS_53: [&'static str; 1] = ["ps1"];
pub const TYPE_NAME_EXTS_54: [&'static str; 2] = ["sh", "bash"];
pub const TYPE_NAME_EXTS_55: [&'static str; 3] = ["ini", "cfg", "conf"];
pub const TYPE_NAME_EXTS_56: [&'static str; 1] = ["env"];
pub const TYPE_NAME_EXTS_57: [&'static str; 1] = ["lock"];
pub const TYPE_NAME_EXTS_58: [&'static str; 1] = ["gitignore"];

/// `s` without its leading dots (`trim_start_matches('.')`).
pub open spec fn strip_leading_dots(s: Seq<char>) -> Seq<char>
    decreases s.len(),
{
    if s.len() > 0 && s[0] == '.' {
        strip_leading_dots(s.drop_first())
    } else {
        s
    }
}

/// A text without its leading dots.
pub fn strip_dots(s: &str) -> (r: String)
    ensures
        r@ == strip_leading_dots(s@),
{
    let v = chars_of(s);
    let mut k: usize = 0;
    assert(v@.skip(0) == v@);
    while k < v.len() && v[k] == '.'
        invariant
            k <= v@.len(),
            strip_leading_dots(v@) == strip_leading_dots(v@.skip(k as int)),
        decreases v@.len() - k,
    {
        assert(v@.skip(k as int).drop_first() == v@.skip(k + 1));
        k = k + 1;
    }
    let mut rest: Vec<char> = Vec::new();
    let mut j = k;
    while j < v.len()
        invariant
            k <= j <= v@.len(),
            rest@ == v@.subrange(k as int, j as int),
        decreases v@.len() - j,
    {
        rest.push(v[j]);
        j = j + 1;
        assert(v@.subrange(k as int, j as int) == v@.subrange(k as int, (j - 1) as int).push(v@[j - 1]));
    }
    assert(v@.subrange(k as int, v@.len() as int) == v@.skip(k as int));
    string_of(&rest)
}

/// The readable name of a file type given as an extension-like text
/// (already lowercased and without leading dots).
pub open spec fn type_name_for(ext: Seq<char>) -> Seq<char> {
    if views(TYPE_NAME_EXTS_0@).contains(ext) {
        TYPE_NAMES@[0]@
    } else if views(TYPE_NAME_EXTS_1@).contains(ext) {
        TYPE_NAMES@[1]@
    } else if views(TYPE_NAME_EXTS_2@).contains(ext) {
        TYPE_NAMES@[2]@
    } else if views(TYPE_NAME_EXTS_3@).contains(ext) {
        TYPE_NAMES@[3]@
    } else if views(TYPE_NAME_EXTS_4@).contains(ext) {
        TYPE_NAMES@[4]@
    } else if views(TYPE_NAME_EXTS_5@).contains(ext) {
        TYPE_NAMES@[5]@
    } else if views(TYPE_NAME_EXTS_6@).contains(ext) {
        TYPE_NAMES@[6]@
    } else if views(TYPE_NAME_EXTS_7@).contains(ext) {
        TYPE_NAMES@[7]@
    } else if views(TYPE_NAME_EXTS_8@).contains(ext) {
        TYPE_NAMES@[8]@
    } else if views(TYPE_NAME_EXTS_9@).contains(ext) {
        TYPE_NAMES@[9]@
    } else if views(TYPE_NAME_EXTS_10@).contains(ext) {
        TYPE_NAMES@[10]@
    } else if views(TYPE_NAME_EXTS_11@).contains(ext) {
        TYPE_NAMES@[11]@
    } else if views(TYPE_NAME_EXTS_12@).contains(ext) {
        TYPE_NAMES@[12]@
    } else if views(TYPE_NAME_EXTS_13@).contains(ext) {
        TYPE_NAMES@[13]@
    } else if views(TYPE_NAME_EXTS_14@).contains(ext) {
        TYPE_NAMES@[14]@
    } else if views(TYPE_NAME_EXTS_15@).contains(ext) {
        TYPE_NAMES@[15]@
    } else if views(TYPE_NAME_EXTS_16@).contains(ext) {
        TYPE_NAMES@[16]@
    } else if views(TYPE_NAME_EXTS_17@).contains(ext) {
        TYPE_NAMES@[17]@
    } else if views(TYPE_NAME_EXTS_18@).contains(ext) {
        TYPE_NAMES@[18]@
    } else if views(TYPE_NAME_EXTS_19@).contains(ext) {
        TYPE_NAMES@[19]@
    } else if views(TYPE_NAME_EXTS_20@).contains(ext) {
        TYPE_NAMES@[20]@
    } else if views(TYPE_NAME_EXTS_21@).contains(ext) {
        TYPE_NAMES@[21]@
    } else if views(TYPE_NAME_EXTS_22@).contains(ext) {
        TYPE_NAMES@[22]@
    } else if views(TYPE_NAME_EXTS_23@).contains(ext) {
        TYPE_NAMES@[23]@
    } else if views(TYPE_NAME_EXTS_24@).contains(ext) {
        TYPE_NAMES@[24]@
    } else if views(TYPE_NAME_EXTS_25@).contains(ext) {
        TYPE_NAMES@[25]@
    } else if views(TYPE_NAME_EXTS_26@).contains(ext) {
        TYPE_NAMES@[26]@
    } else if views(TYPE_NAME_EXTS_27@).contains(ext) {
        TYPE_NAMES@[27]@
    } else if views(TYPE_NAME_EXTS_28@).contains(ext) {
        TYPE_NAMES@[28]@
    } else if views(TYPE_NAME_EXTS_29@).contains(ext) {
        TYPE_NAMES@[29]@
    } else if views(TYPE_NAME_EXTS_30@).contains(ext) {
        TYPE_NAMES@[30]@
    } else if views(TYPE_NAME_EXTS_31@).contains(ext) {
        TYPE_NAMES@[31]@
    } else if views(TYPE_NAME_EXTS_32@).contains(ext) {
        TYPE_NAMES@[32]@
    } else if views(TYPE_NAME_EXTS_33@).contains(ext) {
        TYPE_NAMES@[33]@
    } else if views(TYPE_NAME_EXTS_34@).contains(ext) {
        TYPE_NAMES@[34]@
    } else if views(TYPE_NAME_EXTS_35@).contains(ext) {
        TYPE_NAMES@[35]@
    } else if views(TYPE_NAME_EXTS_36@).contains(ext) {
        TYPE_NAMES@[36]@
    } else if views(TYPE_NAME_EXTS_37@).contains(ext) {
        TYPE_NAMES@[37]@
    } else if views(TYPE_NAME_EXTS_38@).contains(ext) {
        TYPE_NAMES@[38]@
    } else if views(TYPE_NAME_EXTS_39@).contains(ext) {
        TYPE_NAMES@[39]@
    } else if views(TYPE_NAME_EXTS_40@).contains(ext) {
        TYPE_NAMES@[40]@
    } else if views(TYPE_NAME_EXTS_41@).contains(ext) {
        TYPE_NAMES@[41]@
    } else if views(TYPE_NAME_EXTS_42@).contains(ext) {
        TYPE_NAMES@[42]@
    } else if views(TYPE_NAME_EXTS_43@).contains(ext) {
        TYPE_NAMES@[43]@
    } else if views(TYPE_NAME_EXTS_44@).contains(ext) {
        TYPE_NAMES@[44]@
    } else if views(TYPE_NAME_EXTS_45@).contains(ext) {
        TYPE_NAMES@[45]@
    } else if views(TYPE_NAME_EXTS_46@).contains(ext) {
        TYPE_NAMES@[46]@
    } else if views(TYPE_NAME_EXTS_47@).contains(ext) {
        TYPE_NAMES@[47]@
    } else if views(TYPE_NAME_EXTS_48@).contains(ext) {
        TYPE_NAMES@[48]@
    } else if views(TYPE_NAME_EXTS_49@).contains(ext) {
        TYPE_NAMES@[49]@
    } else if views(TYPE_NAME_EXTS_50@).contains(ext) {
        TYPE_NAMES@[50]@
    } else if views(TYPE_NAME_EXTS_51@).contains(ext) {
        TYPE_NAMES@[51]@
    } else if views(TYPE_NAME_EXTS_52@).contains(ext) {
        TYPE_NAMES@[52]@
    } else if views(TYPE_NAME_EXTS_53@).contains(ext) {
        TYPE_NAMES@[53]@
    } else if views(TYPE_NAME_EXTS_54@).contains(ext) {
        TYPE_NAMES@[54]@
    } else if views(TYPE_NAME_EXTS_55@).contains(ext) {
        TYPE_NAMES@[55]@
    } else if views(TYPE_NAME_EXTS_56@).contains(ext) {
        TYPE_NAMES@[56]@
    } else if views(TYPE_NAME_EXTS_57@).contains(ext) {
        TYPE_NAMES@[57]@
    } else if views(TYPE_NAME_EXTS_58@).contains(ext) {
        TYPE_NAMES@[58]@
    } else if ext.len() == 0 {
        "File"@
    } else {
        uppercase(ext) + " File"@
    }
}

/// The readable name of a type column value.
pub open spec fn human_type_name(raw_type: Seq<char>, is_dir: bool) -> Seq<char> {
    if is_dir {
        "Folder"@
    } else {
        type_name_for(lowercase(strip_leading_dots(raw_type)))
    }
}

fn type_name_of(ext: &str) -> (r: String)
    ensures
        r@ == type_name_for(ext@),
{
    if is_one_of(ext, &TYPE_NAME_EXTS_0) {
        String::from_str(TYPE_NAMES[0])
    } else if is_one_of(ext, &TYPE_NAME_EXTS_1) {
        String::from_str(TYPE_NAMES[1])
    } else if is_one_of(ext, &TYPE_NAME_EXTS_2) {
        String::from_str(TYPE_NAMES[2])
    } else if is_one_of(ext, &TYPE_NAME_EXTS_3) {
        String::from_str(TYPE_NAMES[3])
    } else if is_one_of(ext, &TYPE_NAME_EXTS_4) {
        String::from_str(TYPE_NAMES[4])
    } else if is_one_of(ext, &TYPE_NAME_EXTS_5) {
        String::from_str(TYPE_NAMES[5])
    } else if is_one_of(ext, &TYPE_NAME_EXTS_6) {
        String::from_str(TYPE_NAMES[6])
    } else if is_one_of(ext, &TYPE_NAME_EXTS_7) {
        String::from_str(TYPE_NAMES[7])
    } else if is_one_of(ext, &TYPE_NAME_EXTS_8) {
        String::from_str(TYPE_NAMES[8])
    } else if is_one_of(ext, &TYPE_NAME_EXTS_9) {
        String::from_str(TYPE_NAMES[9])
    } else if is_one_of(ext, &TYPE_NAME_EXTS_10) {
        String::from_str(TYPE_NAMES[10])
    } else if is_one_of(ext, &TYPE_NAME_EXTS_11) {
        String::from_str(TYPE_NAMES[11])
    } else if is_one_of(ext, &TYPE_NAME_EXTS_12) {
        String::from_str(TYPE_NAMES[12])
    } else if is_one_of(ext, &TYPE_NAME_EXTS_13) {
        String::from_str(TYPE_NAMES[13])
    } else if is_one_of(ext, &TYPE_NAME_EXTS_14) {
        String::from_str(TYPE_NAMES[14])
    } else if is_one_of(ext, &TYPE_NAME_EXTS_15) {
        String::from_str(TYPE_NAMES[15])
    } else if is_one_of(ext, &TYPE_NAME_EXTS_16) {
        String::from_str(TYPE_NAMES[16])
    } else if is_one_of(ext, &TYPE_NAME_EXTS_17) {
        String::from_str(TYPE_NAMES[17])
    } else if is_one_of(ext, &TYPE_NAME_EXTS_18) {
        String::from_str(TYPE_NAMES[18])
    } else if is_one_of(ext, &TYPE_NAME_EXTS_19) {
        String::from_str(TYPE_NAMES[19])
    } else if is_one_of(ext, &TYPE_NAME_EXTS_20) {
        String::from_str(TYPE_NAMES[20])
    } else if is_one_of(ext, &TYPE_NAME_EXTS_21) {
        String::from_str(TYPE_NAMES[21])
    } else if is_one_of(ext, &TYPE_NAME_EXTS_22) {
        String::from_str(TYPE_NAMES[22])
    } else if is_one_of(ext, &TYPE_NAME_EXTS_23) {
        String::from_str(TYPE_NAMES[23])
    } else if is_one_of(ext, &TYPE_NAME_EXTS_24) {
        String::from_str(TYPE_NAMES[24])
    } else if is_one_of(ext, &TYPE_NAME_EXTS_25) {
        String::from_str(TYPE_NAMES[25])
    } else if is_one_of(ext, &TYPE_NAME_EXTS_26) {
        String::from_str(TYPE_NAMES[26])
    } else if is_one_of(ext, &TYPE_NAME_EXTS_27) {
        String::from_str(TYPE_NAMES[27])
    } else if is_one_of(ext, &TYPE_NAME_EXTS_28) {
        String::from_str(TYPE_NAMES[28])
    } else if is_one_of(ext, &TYPE_NAME_EXTS_29) {
        String::from_str(TYPE_NAMES[29])
    } else if is_one_of(ext, &TYPE_NAME_EXTS_30) {
        String::from_str(TYPE_NAMES[30])
    } else if is_one_of(ext, &TYPE_NAME_EXTS_31) {
        String::from_str(TYPE_NAMES[31])
    } else if is_one_of(ext, &TYPE_NAME_EXTS_32) {
        String::from_str(TYPE_NAMES[32])
    } else if is_one_of(ext, &TYPE_NAME_EXTS_33) {
        String::from_str(TYPE_NAMES[33])
    } else if is_one_of(ext, &TYPE_NAME_EXTS_34) {
        String::from_str(TYPE_NAMES[34])
    } else if is_one_of(ext, &TYPE_NAME_EXTS_35) {
        String::from_str(TYPE_NAMES[35])
    } else if is_one_of(ext, &TYPE_NAME_EXTS_36) {
        String::from_str(TYPE_NAMES[36])
    } else if is_one_of(ext, &TYPE_NAME_EXTS_37) {
        String::from_str(TYPE_NAMES[37])
    } else if is_one_of(ext, &TYPE_NAME_EXTS_38) {
        String::from_str(TYPE_NAMES[38])
    } else if is_one_of(ext, &TYPE_NAME_EXTS_39) {
        String::from_str(TYPE_NAMES[39])
    } else if is_one_of(ext, &TYPE_NAME_EXTS_40) {
        String::from_str(TYPE_NAMES[40])
    } else if is_one_of(ext, &TYPE_NAME_EXTS_41) {
        String::from_str(TYPE_NAMES[41])
    } else if is_one_of(ext, &TYPE_NAME_EXTS_42) {
        String::from_str(TYPE_NAMES[42])
    } else if is_one_of(ext, &TYPE_NAME_EXTS_43) {
        String::from_str(TYPE_NAMES[43])
    } else if is_one_of(ext, &TYPE_NAME_EXTS_44) {
        String::from_str(TYPE_NAMES[44])
    } else if is_one_of(ext, &TYPE_NAME_EXTS_45) {
        String::from_str(TYPE_NAMES[45])
    } else if is_one_of(ext, &TYPE_NAME_EXTS_46) {
        String::from_str(TYPE_NAMES[46])
    } else if is_one_of(ext, &TYPE_NAME_EXTS_47) {
        String::from_str(TYPE_NAMES[47])
    } else if is_one_of(ext, &TYPE_NAME_EXTS_48) {
        String::from_str(TYPE_NAMES[48])
    } else if is_one_of(ext, &TYPE_NAME_EXTS_49) {
        String::from_str(TYPE_NAMES[49])
    } else if is_one_of(ext, &TYPE_NAME_EXTS_50) {
        String::from_str(TYPE_NAMES[50])
    } else if is_one_of(ext, &TYPE_NAME_EXTS_51) {
        String::from_str(TYPE_NAMES[51])
    } else if is_one_of(ext, &TYPE_NAME_EXTS_52) {
        String::from_str(TYPE_NAMES[52])
    } else if is_one_of(ext, &TYPE_NAME_EXTS_53) {
        String::from_str(TYPE_NAMES[53])
    } else if is_one_of(ext, &TYPE_NAME_EXTS_54) {
        String::from_str(TYPE_NAMES[54])
    } else if is_one_of(ext, &TYPE_NAME_EXTS_55) {
        String::from_str(TYPE_NAMES[55])
    } else if is_one_of(ext, &TYPE_NAME_EXTS_56) {
        String::from_str(TYPE_NAMES[56])
    } else if is_one_of(ext, &TYPE_NAME_EXTS_57) {
        String::from_str(TYPE_NAMES[57])
    } else if is_one_of(ext, &TYPE_NAME_EXTS_58) {
        String::from_str(TYPE_NAMES[58])
    } else if chars_of(ext).len() == 0 {
        String::from_str("File")
    } else {
        let upper = to_uppercase(ext);
        upper.concat(" File")
    }
}

/// The name shown in the type column: "Folder" for directories, otherwise a
/// readable name for the type, or the type in capitals followed by "File".
pub fn human_file_type(raw_type: &str, is_dir: bool) -> (r: String)
    ensures
        r@ == human_type_name(raw_type@, is_dir),
{
    if is_dir {
        return String::from_str("Folder");
    }
    let stripped = strip_dots(raw_type);
    let ext = to_lowercase(&stripped);
    type_name_of(&ext)
}

/// The path of a new item named `name` in the folder `dir`: the folder
/// joined with the name.
pub open spec fn new_item_path(dir: Seq<char>, name: Seq<char>) -> Seq<char> {
    path_join(dir, name)
}

/// Handles the new-item prompt of a tab. On Enter with a name that is not
/// blank, the item named by the trimmed name is created in the tab's folder
/// and the prompt closes; on Escape the prompt closes; otherwise nothing
/// changes. The request to create the item, if any.
pub fn submit_new_item(tab: &mut Tab, enter: bool, escape: bool) -> (r: Option<FileOpRequest>)
    ensures
        final(tab).path == old(tab).path,
        final(tab).entries == old(tab).entries,
        final(tab).rename_state == old(tab).rename_state,
        enter && trim_view(old(tab).new_item_name@).len() > 0 ==> {
            &&& final(tab).new_item_mode is None
            &&& final(tab).new_item_name@.len() == 0
            &&& match old(tab).new_item_mode {
                Some(NewItemMode::Folder) => r matches Some(FileOpRequest::CreateFolder { path })
                    && path@ == new_item_path(old(tab).path@, trim_view(old(tab).new_item_name@)),
                Some(NewItemMode::File) => r matches Some(FileOpRequest::CreateFile { path })
                    && path@ == new_item_path(old(tab).path@, trim_view(old(tab).new_item_name@)),
                None => r is None,
            }
        },
        !(enter && trim_view(old(tab).new_item_name@).len() > 0) ==> r is None,
        !(enter && trim_view(old(tab).new_item_name@).len() > 0) && escape ==> final(tab).new_item_mode is None
            && final(tab).new_item_name@.len() == 0,
        !(enter && trim_view(old(tab).new_item_name@).len() > 0) && !escape ==> *final(tab) == *old(tab),
{
    let name = trimmed(tab.new_item_name.as_str());
    if enter && !name.as_str().is_empty() {
        let request = match tab.new_item_mode {
            Some(mode) => {
                let path = crate::paths::join(tab.path.as_str(), name.as_str());
                match mode {
                    NewItemMode::Folder => Some(FileOpRequest::CreateFolder { path }),
                    NewItemMode::File => Some(FileOpRequest::CreateFile { path }),
                }
            },
            None => None,
        };
        tab.new_item_mode = None;
        tab.new_item_name = String::new();
        request
    } else {
        if escape {
            tab.new_item_mode = None;
            tab.new_item_name = String::new();
        }
        None
    }
}

/// Handles the inline rename of the entry at `path`. On Enter the rename
/// to the name typed is requested (in the entry's folder, as
/// `AppState::do_rename` forms it); on Enter, Escape or loss of focus the
/// rename ends.
pub fn finish_rename(tab: &mut Tab, path: &str, enter: bool, escape: bool, lost_focus: bool) -> (r: Option<FileOpRequest>)
    ensures
        enter ==> (old(tab).rename_state matches Some(rs) ==> (r matches Some(FileOpRequest::Rename { old_path, new_path })
            && old_path@ == path@ && new_path@ == path_join(parent_or_empty(path@), rs.new_name@))),
        !enter || old(tab).rename_state is None ==> r is None,
        enter || escape || lost_focus ==> final(tab).rename_state is None,
        !(enter || escape || lost_focus) ==> final(tab).rename_state == old(tab).rename_state,
        final(tab).entries == old(tab).entries,
        final(tab).path == old(tab).path,
        final(tab).new_item_mode == old(tab).new_item_mode,
{
    let mut r: Option<FileOpRequest> = None;
    if enter {
        match &tab.rename_state {
            Some(rs) => {
                let new_path = crate::state::sibling_path(path, rs.new_name.as_str());
                r = Some(FileOpRequest::Rename { old_path: String::from_str(path), new_path });
            },
            None => {},
        }
    }
    if enter || escape || lost_focus {
        tab.rename_state = None;
    }
    r
}

/// Whether the entry at `path` is waiting on the clipboard to be moved (it
/// is shown dimmed).
pub fn is_cut_path(clipboard: &Option<Clipboard>, path: &str) -> (r: bool)
    ensures
        r == (clipboard matches Some(c) && c.operation == ClipboardOp::Cut
            && exists|i: int| 0 <= i < c.paths@.len() && #[trigger] c.paths@[i]@ == path@),
{
    match clipboard {
        Some(c) => {
            if c.operation != ClipboardOp::Cut {
                return false;
            }
            let mut i: usize = 0;
            while i < c.paths.len()
                invariant
                    i <= c.paths@.len(),
                    *clipboard == Some(*c),
                    c.operation == ClipboardOp::Cut,
                    forall|k: int| 0 <= k < i ==> #[trigger] c.paths@[k]@ != path@,
                decreases c.paths@.len() - i,
            {
                if same_text(c.paths[i].as_str(), path) {
                    assert(c.paths@[i as int]@ == path@);
                    return true;
                }
                i = i + 1;
            }
            false
        },
        None => false,
    }
}

/// A right click on a row that is not selected selects that row alone
/// (and makes it the anchor) before the menu opens; on a selected row the
/// selection is kept.
pub fn select_for_context_menu(tab: &mut Tab, index: usize)
    ensures
        old(tab).selected_indices@.contains(index) ==> *final(tab) == *old(tab),
        !old(tab).selected_indices@.contains(index) ==> {
            &&& final(tab).selected_indices@ == seq![index]
            &&& final(tab).last_clicked_index == Some(index)
        },
        final(tab).selected_indices@.contains(index),
        final(tab).entries == old(tab).entries,
        final(tab).path == old(tab).path,
{
    let mut i: usize = 0;
    while i < tab.selected_indices.len()
        invariant
            i <= tab.selected_indices@.len(),
            *tab == *old(tab),
            forall|k: int| 0 <= k < i ==> tab.selected_indices@[k] != index,
        decreases tab.selected_indices@.len() - i,
    {
        if tab.selected_indices[i] == index {
            assert(tab.selected_indices@[i as int] == index);
            return;
        }
        i = i + 1;
    }
    let mut sel: Vec<usize> = Vec::new();
    sel.push(index);
    tab.selected_indices = sel;
    tab.last_clicked_index = Some(index);
    assert(tab.selected_indices@[0] == index);
}

/// A click with neither Ctrl nor Shift selects exactly the clicked row and
/// makes it the anchor, whatever was selected before.
pub proof fn law_plain_click_selects_only_it(sel: Seq<usize>, anchor: Option<usize>, action: SelectionAction)
    requires
        !action.ctrl,
        !action.shift,
    ensures
        selection_after(sel, anchor, action).0.len() == 1,
        selection_after(sel, anchor, action).0[0] == action.index,
        selection_after(sel, anchor, action).1 == Some(action.index),
{
}

} // verus!
