//! Renaming many files at once: find and replace, sequential numbering, or
//! a change of case, previewed before it is applied.
use vstd::prelude::*;
use crate::numbers::{decimal, zero_padded, zero_padded_decimal};
use crate::paths::{extension, path_extension, path_with_file_name, with_file_name};
use crate::text::{
    char_lowercase, char_to_lowercase, char_to_uppercase, char_uppercase, chars_of, extend_chars,
    lowercase, replace_all, replace_chars, same_text, string_of, to_lowercase, to_uppercase,
    uppercase,
};

verus! {

/// The dialog's state: the files chosen and the parameters of each mode.
pub struct BatchRenameState {
    pub open: bool,
    pub entries: Vec<RenameEntry>,
    pub find_text: String,
    pub replace_text: String,
    pub mode: RenameMode,
    pub start_number: u32,
    pub prefix: String,
    pub suffix: String,
    pub case_mode: CaseMode,
}

/// One file and the name it would get.
pub struct RenameEntry {
    pub original_path: String,
    pub original_name: String,
    pub new_name: String,
}

/// How new names are formed.
#[derive(Debug, Clone, Copy, PartialEq, Eq, Structural)]
pub enum RenameMode {
    FindReplace,
    Sequential,
    CaseChange,
}

/// Which change of case to apply.
#[derive(Debug, Clone, Copy, PartialEq, Eq, Structural)]
pub enum CaseMode {
    NoChange,
    Lowercase,
    Uppercase,
    TitleCase,
}

/// The renames to carry out: (current path, new path) pairs.
pub struct BatchRenameResult {
    pub renames: Vec<(String, String)>,
}

impl Default for BatchRenameState {
    fn default() -> (r: BatchRenameState)
        ensures
            !r.open,
            r.entries@.len() == 0,
            r.find_text@.len() == 0,
            r.replace_text@.len() == 0,
            r.mode == RenameMode::FindReplace,
            r.start_number == 1,
            r.prefix@.len() == 0,
            r.suffix@.len() == 0,
            r.case_mode == CaseMode::NoChange,
    {
        BatchRenameState {
            open: false,
            entries: Vec::new(),
            find_text: String::new(),
            replace_text: String::new(),
            mode: RenameMode::FindReplace,
            start_number: 1,
            prefix: String::new(),
            suffix: String::new(),
            case_mode: CaseMode::NoChange,
        }
    }
}

/// Characters after which the next letter is capitalised.
pub open spec fn is_word_break(c: char) -> bool {
    c == ' ' || c == '_' || c == '-' || c == '.'
}

/// Title case: each word's first character uppercased and the rest
/// lowercased, words being separated by space, `_`, `-` or `.`, which are kept.
pub open spec fn title_case_from(s: Seq<char>, capitalize: bool) -> Seq<char>
    decreases s.len(),
{
    if s.len() == 0 {
        Seq::empty()
    } else if is_word_break(s[0]) {
        seq![s[0]] + title_case_from(s.drop_first(), true)
    } else if capitalize {
        char_uppercase(s[0]) + title_case_from(s.drop_first(), false)
    } else {
        char_lowercase(s[0]) + title_case_from(s.drop_first(), false)
    }
}

/// The title case of a string.
pub open spec fn title_case(s: Seq<char>) -> Seq<char> {
    title_case_from(s, true)
}

/// Converts a string to title case.
pub fn to_title_case(s: &str) -> (r: String)
    ensures
        r@ == title_case(s@),
{
    let v = chars_of(s);
    let mut out: Vec<char> = Vec::new();
    let mut capitalize_next = true;
    let mut i: usize = 0;
    assert(v@.skip(0) == v@);
    while i < v.len()
        invariant
            i <= v@.len(),
            v@ == s@,
            title_case(s@) == out@ + title_case_from(v@.skip(i as int), capitalize_next),
        decreases v@.len() - i,
    {
        let c = v[i];
        assert(v@.skip(i as int).drop_first() == v@.skip(i + 1));
        assert(v@.skip(i as int)[0] == c);
        let ghost before = out@;
        if c == ' ' || c == '_' || c == '-' || c == '.' {
            out.push(c);
            capitalize_next = true;
        } else if capitalize_next {
            let up = char_to_uppercase(c);
            extend_chars(&mut out, &up);
            capitalize_next = false;
        } else {
            let low = char_to_lowercase(c);
            extend_chars(&mut out, &low);
        }
        i = i + 1;
    }
    string_of(&out)
}

/// The `.ext` ending of a name, or nothing when it has no extension.
pub open spec fn dotted_extension(name: Seq<char>) -> Seq<char> {
    match path_extension(name) {
        Some(e) => seq!['.'] + e,
        None => Seq::empty(),
    }
}

/// The name that the `i`-th file, originally `name`, gets under the
/// dialog's current parameters.
pub open spec fn new_name_for(st: BatchRenameState, i: int, name: Seq<char>) -> Seq<char> {
    match st.mode {
        RenameMode::FindReplace => if st.find_text@.len() == 0 {
            name
        } else {
            replace_all(name, st.find_text@, st.replace_text@)
        },
        RenameMode::Sequential => st.prefix@ + zero_padded(decimal((st.start_number + i) as nat), 3)
            + st.suffix@ + dotted_extension(name),
        RenameMode::CaseChange => match st.case_mode {
            CaseMode::NoChange => name,
            CaseMode::Lowercase => lowercase(name),
            CaseMode::Uppercase => uppercase(name),
            CaseMode::TitleCase => title_case(name),
        },
    }
}

/// Sequential numbers stay within `u32` for every file.
pub open spec fn numbering_fits(st: BatchRenameState, count: int) -> bool {
    st.mode == RenameMode::Sequential ==> st.start_number + count <= u32::MAX as int + 1
}

/// Every entry's new name is the one the parameters give, with its original
/// path and name unchanged.
pub open spec fn names_computed(old_entries: Seq<RenameEntry>, st: BatchRenameState) -> bool {
    &&& st.entries@.len() == old_entries.len()
    &&& forall|i: int|
        0 <= i < old_entries.len() ==> {
            &&& (#[trigger] st.entries@[i]).original_path == old_entries[i].original_path
            &&& st.entries@[i].original_name == old_entries[i].original_name
            &&& st.entries@[i].new_name@ == new_name_for(st, i, old_entries[i].original_name@)
        }
}

/// The renames for the entries whose name changes: (current path, path with
/// the new name), in order.
pub open spec fn planned(entries: Seq<RenameEntry>) -> Seq<(Seq<char>, Seq<char>)>
    decreases entries.len(),
{
    if entries.len() == 0 {
        Seq::empty()
    } else {
        let rest = planned(entries.drop_last());
        let e = entries.last();
        if e.new_name@ != e.original_name@ {
            rest.push((e.original_path@, path_with_file_name(e.original_path@, e.new_name@)))
        } else {
            rest
        }
    }
}

/// The characters of each pair of strings.
pub open spec fn pair_views(v: Seq<(String, String)>) -> Seq<(Seq<char>, Seq<char>)> {
    v.map_values(|p: (String, String)| (p.0@, p.1@))
}

impl BatchRenameState {
    /// The new name of the `i`-th file, originally `name`.
    fn new_name(&self, i: usize, name: &String) -> (r: String)
        requires
            numbering_fits(*self, i as int + 1),
        ensures
            r@ == new_name_for(*self, i as int, name@),
    {
        match self.mode {
            RenameMode::FindReplace => {
                let f = chars_of(&self.find_text);
                if f.len() == 0 {
                    name.clone()
                } else {
                    let n = chars_of(name);
                    let t = chars_of(&self.replace_text);
                    let r = replace_chars(&n, &f, &t);
                    string_of(&r)
                }
            },
            RenameMode::Sequential => {
                let num: u32 = self.start_number + i as u32;
                let mut out = chars_of(&self.prefix);
                let digits = zero_padded_decimal(num as u64, 3);
                extend_chars(&mut out, &digits);
                let suffix = chars_of(&self.suffix);
                extend_chars(&mut out, &suffix);
                match extension(name) {
                    Some(e) => {
                        out.push('.');
                        let ev = chars_of(&e);
                        extend_chars(&mut out, &ev);
                        assert(out@ =~= self.prefix@ + zero_padded(decimal(num as nat), 3) + self.suffix@
                            + (seq!['.'] + e@));
                    },
                    None => {
                        assert(out@ =~= self.prefix@ + zero_padded(decimal(num as nat), 3) + self.suffix@
                            + Seq::<char>::empty());
                    },
                }
                string_of(&out)
            },
            RenameMode::CaseChange => {
                match self.case_mode {
                    CaseMode::NoChange => name.clone(),
                    CaseMode::Lowercase => to_lowercase(name),
                    CaseMode::Uppercase => to_uppercase(name),
                    CaseMode::TitleCase => to_title_case(name),
                }
            },
        }
    }

    /// Recomputes every file's new name from the current parameters.
    pub fn recompute_names(&mut self)
        requires
            numbering_fits(*old(self), old(self).entries@.len() as int),
        ensures
            names_computed(old(self).entries@, *final(self)),
            final(self).open == old(self).open,
            final(self).find_text == old(self).find_text,
            final(self).replace_text == old(self).replace_text,
            final(self).mode == old(self).mode,
            final(self).start_number == old(self).start_number,
            final(self).prefix == old(self).prefix,
            final(self).suffix == old(self).suffix,
            final(self).case_mode == old(self).case_mode,
    {
        let mut updated: Vec<RenameEntry> = Vec::new();
        let mut i: usize = 0;
        while i < self.entries.len()
            invariant
                i <= self.entries@.len(),
                numbering_fits(*self, self.entries@.len() as int),
                updated@.len() == i,
                forall|j: int|
                    0 <= j < i ==> {
                        &&& (#[trigger] updated@[j]).original_path == self.entries@[j].original_path
                        &&& updated@[j].original_name == self.entries@[j].original_name
                        &&& updated@[j].new_name@ == new_name_for(*self, j, self.entries@[j].original_name@)
                    },
            decreases self.entries@.len() - i,
        {
            let name = self.new_name(i, &self.entries[i].original_name);
            updated.push(
                RenameEntry {
                    original_path: self.entries[i].original_path.clone(),
                    original_name: self.entries[i].original_name.clone(),
                    new_name: name,
                },
            );
            i = i + 1;
        }
        self.entries = updated;
    }

    /// Opens the dialog on the given (path, name) pairs with fresh parameters
    /// (the mode is kept) and computes the names.
    pub fn open_with(&mut self, paths: Vec<(String, String)>)
        requires
            old(self).mode == RenameMode::Sequential ==> paths@.len() <= u32::MAX,
        ensures
            final(self).open,
            final(self).entries@.len() == paths@.len(),
            forall|i: int|
                0 <= i < paths@.len() ==> {
                    &&& (#[trigger] final(self).entries@[i]).original_path == paths@[i].0
                    &&& final(self).entries@[i].original_name == paths@[i].1
                    &&& final(self).entries@[i].new_name@ == new_name_for(*final(self), i, paths@[i].1@)
                },
            final(self).find_text@.len() == 0,
            final(self).replace_text@.len() == 0,
            final(self).mode == old(self).mode,
            final(self).start_number == 1,
            final(self).prefix@.len() == 0,
            final(self).suffix@.len() == 0,
            final(self).case_mode == CaseMode::NoChange,
    {
        self.open = true;
        let mut entries: Vec<RenameEntry> = Vec::new();
        let mut i: usize = 0;
        while i < paths.len()
            invariant
                i <= paths@.len(),
                entries@.len() == i,
                forall|j: int|
                    0 <= j < i ==> {
                        &&& (#[trigger] entries@[j]).original_path == paths@[j].0
                        &&& entries@[j].original_name == paths@[j].1
                    },
            decreases paths@.len() - i,
        {
            entries.push(
                RenameEntry {
                    original_path: paths[i].0.clone(),
                    original_name: paths[i].1.clone(),
                    new_name: paths[i].1.clone(),
                },
            );
            i = i + 1;
        }
        self.entries = entries;
        self.find_text = String::new();
        self.replace_text = String::new();
        self.start_number = 1;
        self.prefix = String::new();
        self.suffix = String::new();
        self.case_mode = CaseMode::NoChange;
        self.recompute_names();
    }

    /// How many files would get a new name.
    pub fn changed_count(&self) -> (r: usize)
        ensures
            r == planned(self.entries@).len(),
    {
        let mut count: usize = 0;
        let mut i: usize = 0;
        while i < self.entries.len()
            invariant
                i <= self.entries@.len(),
                count == planned(self.entries@.take(i as int)).len(),
                count <= i,
            decreases self.entries@.len() - i,
        {
            assert(self.entries@.take(i + 1).drop_last() == self.entries@.take(i as int));
            if !same_text(&self.entries[i].new_name, &self.entries[i].original_name) {
                count = count + 1;
            }
            i = i + 1;
        }
        assert(self.entries@.take(i as int) == self.entries@);
        count
    }

    /// The renames to apply: each file whose name changes, with its path and
    /// the same path under the new name.
    pub fn planned_renames(&self) -> (r: BatchRenameResult)
        ensures
            pair_views(r.renames@) == planned(self.entries@),
    {
        let mut renames: Vec<(String, String)> = Vec::new();
        let mut i: usize = 0;
        while i < self.entries.len()
            invariant
                i <= self.entries@.len(),
                pair_views(renames@) == planned(self.entries@.take(i as int)),
            decreases self.entries@.len() - i,
        {
            assert(self.entries@.take(i + 1).drop_last() == self.entries@.take(i as int));
            let e = &self.entries[i];
            if !same_text(&e.new_name, &e.original_name) {
                let target = with_file_name(&e.original_path, &e.new_name);
                renames.push((e.original_path.clone(), target));
                assert(pair_views(renames@) =~= planned(self.entries@.take(i as int)).push(
                    (e.original_path@, path_with_file_name(e.original_path@, e.new_name@)),
                ));
            }
            i = i + 1;
        }
        assert(self.entries@.take(i as int) == self.entries@);
        BatchRenameResult { renames }
    }

    /// The dialog's answer for this frame. "Rename", which is offered only
    /// while some name changes, hands back the planned renames and closes the
    /// dialog; "Cancel", a click beside the dialog or Escape closes it;
    /// otherwise it stays open. A closed dialog answers nothing. Nothing but
    /// whether the dialog is open changes.
    pub fn answer(&mut self, rename_clicked: bool, close_clicked: bool, escape: bool) -> (r: Option<BatchRenameResult>)
        ensures
            *final(self) == (BatchRenameState { open: final(self).open, ..*old(self) }),
            !old(self).open ==> r is None && !final(self).open,
            old(self).open && rename_clicked && planned(old(self).entries@).len() > 0 ==> {
                &&& r matches Some(res) && pair_views(res.renames@) == planned(old(self).entries@)
                &&& !final(self).open
            },
            old(self).open && !(rename_clicked && planned(old(self).entries@).len() > 0) ==> {
                &&& r is None
                &&& final(self).open == !(close_clicked || escape)
            },
    {
        if !self.open {
            return None;
        }
        let mut result: Option<BatchRenameResult> = None;
        let mut close = close_clicked || escape;
        if rename_clicked && self.changed_count() > 0 {
            result = Some(self.planned_renames());
            close = true;
        }
        if close {
            self.open = false;
        }
        result
    }
}

/// Finding an empty text, or replacing a text by itself, leaves every name
/// as it was.
pub proof fn law_find_replace_identity(st: BatchRenameState, i: int, name: Seq<char>)
    requires
        st.mode == RenameMode::FindReplace,
        st.find_text@.len() == 0 || st.find_text@ == st.replace_text@,
    ensures
        new_name_for(st, i, name) == name,
{
    if st.find_text@.len() > 0 {
        crate::text::law_replace_with_itself(name, st.find_text@);
    }
}

/// Sequential numbering gives the files distinct numbers, counted up from the
/// start number.
pub proof fn law_sequential_numbers_distinct(st: BatchRenameState, i: int, j: int)
    requires
        st.mode == RenameMode::Sequential,
        0 <= i < j,
    ensures
        zero_padded(decimal((st.start_number + i) as nat), 3) != zero_padded(decimal((st.start_number + j) as nat), 3),
{
    crate::numbers::lemma_padded_decimal_injective((st.start_number + i) as nat, (st.start_number + j) as nat, 3);
}

/// Changing case renames every file to its name as the standard library maps
/// it: `str::to_lowercase` for lower case, `str::to_uppercase` for upper
/// case; with no change of case every name stays as it was. Original paths
/// and names are kept.
pub proof fn law_case_change_maps_each_name(old_entries: Seq<RenameEntry>, st: BatchRenameState)
    requires
        names_computed(old_entries, st),
        st.mode == RenameMode::CaseChange,
    ensures
        forall|i: int| 0 <= i < old_entries.len() ==> {
            &&& (#[trigger] st.entries@[i]).original_name == old_entries[i].original_name
            &&& st.case_mode == CaseMode::Lowercase ==> st.entries@[i].new_name@ == lowercase(old_entries[i].original_name@)
            &&& st.case_mode == CaseMode::Uppercase ==> st.entries@[i].new_name@ == uppercase(old_entries[i].original_name@)
            &&& st.case_mode == CaseMode::NoChange ==> st.entries@[i].new_name@ == old_entries[i].original_name@
        },
{
    assert forall|i: int| 0 <= i < old_entries.len() implies {
        &&& (#[trigger] st.entries@[i]).original_name == old_entries[i].original_name
        &&& st.case_mode == CaseMode::Lowercase ==> st.entries@[i].new_name@ == lowercase(old_entries[i].original_name@)
        &&& st.case_mode == CaseMode::Uppercase ==> st.entries@[i].new_name@ == uppercase(old_entries[i].original_name@)
        &&& st.case_mode == CaseMode::NoChange ==> st.entries@[i].new_name@ == old_entries[i].original_name@
    } by {
        assert(st.entries@[i].new_name@ == new_name_for(st, i, old_entries[i].original_name@));
    }
}

} // verus!
