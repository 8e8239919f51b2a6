# git_tfs

Keeps a git repository and a TFS workspace in step.

* `fetch [version]` stashes local changes, checks out the `tfs` branch, and
  commits there, oldest first, each TFS changeset that the branch lacks (up to
  `version`, or up to the latest), then checks out the previous branch again
  and pops the stash.
* `push [comment]` makes pending in TFS every change between the `tfs` branch
  and the current one, then checks them in with `comment`, or with the message
  of the last commit.

## Layout

* `src/` is the library, verified with Verus. Each command is a session
  (`fetch_tfs.rs`, `fetch.rs`, `push.rs`, `session.rs`): a state machine whose
  step takes the outcome of the last action and gives the next one — a `git`
  or `tf` command to run, a file to make read-only, a date to convert, a
  progress line to open or close, or the result. The readers of the tools'
  output are in `workfold.rs`, `history.rs`, `changes.rs` and `scan.rs`;
  `pattern.rs` and `time.rs` hold the calls into `regex` and `chrono`.
* `app/` is the command line: it runs the processes, touches the file system,
  draws the progress lines, and feeds the outcomes back to the session.
* `tests/` plays sessions against scripted outcomes and checks the readers.
