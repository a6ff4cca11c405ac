# xplorer

The core of a keyboard-first file manager, with its behaviour stated in
`requires` / `ensures` contracts and proved by Verus.

- `src/` is the verified library: file classification and listing order,
  tab navigation history, selection, batch renaming, bookmarks and
  workspaces, keyboard shortcuts and the commands they ask for, carrying out
  those commands on the focused tab, git status
  classification, directory watching decisions, search matching, and the
  texts the interface shows. Calls into `dirs`, `git2`, `chrono` and a few
  standard-library functions stand behind small trusted functions whose
  contracts say what is assumed of them.
- `app/` is a thin command-line front end: it reads the disk, runs the
  background workers, stores JSON with `serde_json`, talks to the system
  trash, the default opener and the file watcher, and formats sizes that
  need floating point.
- `tests/` exercises the library on concrete values.

Verify with Verus; the tests run against the compiled library.
