//! The file-operation worker's reports: how the outcome of a batch of
//! operations is summed up for the user.
use vstd::prelude::*;
use crate::numbers::{decimal, decimal_chars};
use crate::paths::{display_name, display_name_for_path, join, path_join};
use crate::state::FileOpResponse;
use crate::text::{chars_of, extend_chars, string_of};

verus! {

/// The name a path is reported under: its last component, or the whole path.
pub fn file_name_of(path: &str) -> (r: String)
    ensures
        r@ == display_name(path@),
{
    display_name_for_path(path)
}

/// One line per failed item, "name: error", in order.
pub open spec fn error_lines(paths: Seq<String>, outcomes: Seq<Option<String>>) -> Seq<Seq<char>>
    decreases paths.len(),
{
    if paths.len() == 0 || outcomes.len() == 0 {
        Seq::empty()
    } else {
        let rest = error_lines(paths.drop_last(), outcomes.drop_last());
        match outcomes.last() {
            Some(e) => rest.push(display_name(paths.last()@) + ": "@ + e@),
            None => rest,
        }
    }
}

/// Lines joined with a newline between each two.
pub open spec fn join_lines(lines: Seq<Seq<char>>) -> Seq<char>
    decreases lines.len(),
{
    if lines.len() == 0 {
        Seq::empty()
    } else if lines.len() == 1 {
        lines[0]
    } else {
        join_lines(lines.drop_last()) + seq!['\n'] + lines.last()
    }
}

/// The report for a batch: success with "<verb> <count> item(s)" when no
/// item failed, otherwise an error listing each failure on its own line.
pub open spec fn batch_report(paths: Seq<String>, outcomes: Seq<Option<String>>, verb: Seq<char>) -> (bool, Seq<char>) {
    let lines = error_lines(paths, outcomes);
    if lines.len() == 0 {
        (true, verb + " "@ + decimal(paths.len()) + " item(s)"@)
    } else {
        (false, join_lines(lines))
    }
}

/// Sums up a batch: `outcomes[i]` is the error of the operation on
/// `paths[i]`, if it failed.
pub fn run_batch(paths: &Vec<String>, outcomes: &Vec<Option<String>>, verb: &str) -> (r: FileOpResponse)
    requires
        paths@.len() == outcomes@.len(),
    ensures
        match r {
            FileOpResponse::Success { message } => batch_report(paths@, outcomes@, verb@) == (true, message@),
            FileOpResponse::Error { message } => batch_report(paths@, outcomes@, verb@) == (false, message@),
        },
{
    let mut lines: Vec<Vec<char>> = Vec::new();
    let ghost mut gl: Seq<Seq<char>> = Seq::empty();
    let mut i: usize = 0;
    while i < paths.len()
        invariant
            i <= paths@.len(),
            paths@.len() == outcomes@.len(),
            gl == error_lines(paths@.take(i as int), outcomes@.take(i as int)),
            lines@.len() == gl.len(),
            forall|j: int| 0 <= j < gl.len() ==> #[trigger] lines@[j]@ == gl[j],
        decreases paths@.len() - i,
    {
        assert(paths@.take(i + 1).drop_last() == paths@.take(i as int));
        assert(outcomes@.take(i + 1).drop_last() == outcomes@.take(i as int));
        match &outcomes[i] {
            Some(e) => {
                let mut line = chars_of(&file_name_of(&paths[i]));
                line.push(':');
                line.push(' ');
                let ev = chars_of(e);
                extend_chars(&mut line, &ev);
                assert(line@ =~= display_name(paths@[i as int]@) + ": "@ + e@) by {
                    reveal_strlit(": ");
                }
                proof {
                    gl = gl.push(line@);
                }
                lines.push(line);
            },
            None => {},
        }
        i = i + 1;
    }
    assert(paths@.take(i as int) == paths@);
    assert(outcomes@.take(i as int) == outcomes@);
    if lines.len() == 0 {
        let mut m = chars_of(verb);
        m.push(' ');
        let d = decimal_chars(paths.len() as u64);
        extend_chars(&mut m, &d);
        let tail = chars_of(" item(s)");
        extend_chars(&mut m, &tail);
        assert(m@ =~= verb@ + " "@ + decimal(paths@.len()) + " item(s)"@) by {
            reveal_strlit(" ");
        }
        FileOpResponse::Success { message: string_of(&m) }
    } else {
        let mut m: Vec<char> = Vec::new();
        let mut k: usize = 0;
        while k < lines.len()
            invariant
                k <= lines@.len(),
                lines@.len() > 0,
                lines@.len() == gl.len(),
                forall|j: int| 0 <= j < gl.len() ==> #[trigger] lines@[j]@ == gl[j],
                m@ == join_lines(gl.take(k as int)),
            decreases lines@.len() - k,
        {
            assert(gl.take(k + 1).drop_last() == gl.take(k as int));
            if k > 0 {
                m.push('\n');
            }
            extend_chars(&mut m, &lines[k]);
            k = k + 1;
            assert(gl.take(k as int).last() == lines@[k - 1]@);
            if k == 1 {
                assert(m@ =~= gl.take(1)[0]);
            }
        }
        assert(gl.take(k as int) == gl);
        FileOpResponse::Error { message: string_of(&m) }
    }
}

/// Where an item copied or moved into `dest_dir` goes: the folder joined
/// with the item's name.
pub fn destination_for(src: &str, dest_dir: &str) -> (r: String)
    ensures
        r@ == path_join(dest_dir@, display_name(src@)),
{
    let name = file_name_of(src);
    join(dest_dir, name.as_str())
}

/// How one path of a delete request is removed.
#[derive(Debug, Clone, Copy, PartialEq, Eq, Structural)]
pub enum DeleteStep {
    MoveToTrash,
    DeleteDir,
    DeleteFile,
}

/// Deleting: to the trash when asked; otherwise a folder with its contents,
/// or a file.
pub fn delete_step(to_trash: bool, is_dir: bool) -> (r: DeleteStep)
    ensures
        r == (if to_trash {
            DeleteStep::MoveToTrash
        } else if is_dir {
            DeleteStep::DeleteDir
        } else {
            DeleteStep::DeleteFile
        }),
{
    if to_trash {
        DeleteStep::MoveToTrash
    } else if is_dir {
        DeleteStep::DeleteDir
    } else {
        DeleteStep::DeleteFile
    }
}

/// The verb of a delete report.
pub fn delete_verb(to_trash: bool) -> (r: &'static str)
    ensures
        to_trash ==> r@ == "Trashed"@,
        !to_trash ==> r@ == "Deleted"@,
{
    if to_trash { "Trashed" } else { "Deleted" }
}

/// The operations on a single path.
#[derive(Debug, Clone, Copy, PartialEq, Eq, Structural)]
pub enum SingleOp {
    Rename,
    CreateFolder,
    CreateFile,
}

/// What the report of a single operation says on success, for the path it
/// produced.
pub open spec fn single_op_message(op: SingleOp, path: Seq<char>) -> Seq<char> {
    match op {
        SingleOp::Rename => "Renamed to "@ + display_name(path),
        SingleOp::CreateFolder => "Created folder "@ + display_name(path),
        SingleOp::CreateFile => "Created file "@ + display_name(path),
    }
}

/// The report of a single operation on `path` (the new path of a rename):
/// success naming the item, or the error it failed with.
pub fn single_op_response(op: SingleOp, path: &str, error: Option<String>) -> (r: FileOpResponse)
    ensures
        match error {
            None => r matches FileOpResponse::Success { message } && message@ == single_op_message(op, path@),
            Some(e) => r matches FileOpResponse::Error { message } && message == e,
        },
{
    match error {
        Some(e) => FileOpResponse::Error { message: e },
        None => {
            let name = file_name_of(path);
            let head = match op {
                SingleOp::Rename => String::from_str("Renamed to "),
                SingleOp::CreateFolder => String::from_str("Created folder "),
                SingleOp::CreateFile => String::from_str("Created file "),
            };
            FileOpResponse::Success { message: head.concat(name.as_str()) }
        },
    }
}

} // verus!
