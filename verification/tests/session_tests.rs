use git_tfs::{fetch_tfs, push, Action, Command, Error, Session};

fn ok(s: &str) -> Result<String, Error> {
    Ok(s.to_string())
}

fn args(v: &[&str]) -> Vec<String> {
    v.iter().map(|s| s.to_string()).collect()
}

fn git(v: &[&str]) -> Action {
    Action::Run(Command::Git(args(v)))
}

fn tf(v: &[&str]) -> Action {
    Action::Run(Command::Tf(args(v)))
}

fn begin(l: &str) -> Action {
    Action::Begin(l.to_string())
}

/// Plays `script` against a session, checking each action and that the
/// progress lines are opened and closed in turn.
fn run_script(mut step: impl FnMut(Result<String, Error>) -> Action, script: Vec<(Result<String, Error>, Action)>) {
    let mut open = false;
    for (i, (ev, expected)) in script.into_iter().enumerate() {
        let a = step(ev);
        assert_eq!(a, expected, "step {}", i);
        match a {
            Action::Begin(_) => {
                assert!(!open, "step {}", i);
                open = true;
            }
            Action::End | Action::Abort => {
                assert!(open, "step {}", i);
                open = false;
            }
            Action::Finish(_) => assert!(!open, "step {}", i),
            _ => {}
        }
    }
}

const WORKFOLD: &str = "Workspace: PC (me)\nCollection: http://tfs/coll\n $/P/Main: /repo";

const HISTORY: &str = "Changeset: 102
User: Jane
Date: Jan 15, 2024, 02:30:00 PM
Comment:
  Second
Items:
  edit $/P/Main/a.txt
Changeset: 101
User: John
Date: Jan 14, 2024, 09:00:00 AM
Comment:
  First
  change
Items:
  add $/P/Main/b.txt
";

#[test]
fn unknown_command() {
    let mut s = Session::start("bogus", "");
    assert_eq!(s.step(ok("")), Action::Finish(Err(Error::new("No command!"))));
    assert_eq!(s.step(ok("")), Action::Finish(Err(Error::new("No command!"))));
}

#[test]
fn fetch_into_the_tfs_branch() {
    let mut s = fetch_tfs("");
    let script: Vec<(Result<String, Error>, Action)> = vec![
        (ok(""), begin("Get current branch")),
        (ok(""), git(&["branch", "--show-current"])),
        (ok("main"), Action::End),
        (ok(""), begin("Switch tfs branch")),
        (ok(""), git(&["stash", "push", "-u"])),
        (ok("No local changes to save"), git(&["switch", "tfs"])),
        (ok(""), Action::End),
        (ok(""), git(&["rev-parse", "--show-toplevel"])),
        (ok("/repo"), begin("Get workfold")),
        (ok(""), tf(&["workfold", "/repo"])),
        (ok(WORKFOLD), Action::End),
        (ok(""), begin("Undo workfold")),
        (ok(""), tf(&["workfold", "undo", "-recursive", "/repo"])),
        (ok(""), tf(&["workfold", "uu", "-recursive", "/repo"])),
        (ok(""), Action::End),
        (ok(""), begin("Get versions")),
        (ok(""), tf(&["history", "-collection:http://tfs/coll", "-recursive", "-stopafter:1", "$/P/Main"])),
        (ok("Changeset User\n--------- ----\n102       jane"), git(&["log", "-n", "1", "tfs", "--pretty=format:%B", "/repo"])),
        (ok("old\n\ngit-tf-id: 100"), tf(&["history", "$/P/Main", "-version:100~102", "-noprompt", "-format:detailed", "-recursive"])),
        (ok(HISTORY), Action::End),
        (ok(""), begin("Get changesets")),
        (ok(""), Action::End),
        (ok(""), git(&["ls-files", "--full-name", "/repo"])),
        (ok("a.txt\nb.txt"), begin("Commit changesets: 101")),
        (ok(""), Action::Run(Command::MakeReadonly("/repo".to_string(), "a.txt".to_string()))),
        (ok(""), Action::Run(Command::MakeReadonly("/repo".to_string(), "b.txt".to_string()))),
        (ok(""), tf(&["get", "-recursive", "-overwrite", "-version:101", "-force", "/repo"])),
        (ok(""), git(&["add", "/repo"])),
        (ok(""), Action::Date("Jan 14, 2024, 09:00:00 AM".to_string())),
        (ok("2024-01-14T09:00:00+00:00"), git(&["commit", "-n", "-m", "First\nchange\n\ngit-tf-id: 101", "--date=2024-01-14T09:00:00+00:00", "--author=John <noreply@topsystems.ru>"])),
        (ok(""), Action::End),
        (ok(""), begin("Commit changesets: 102")),
        (ok(""), Action::Run(Command::MakeReadonly("/repo".to_string(), "a.txt".to_string()))),
        (ok(""), Action::Run(Command::MakeReadonly("/repo".to_string(), "b.txt".to_string()))),
        (ok(""), tf(&["get", "-recursive", "-overwrite", "-version:102", "-force", "/repo"])),
        (ok(""), git(&["add", "/repo"])),
        (ok(""), Action::Date("Jan 15, 2024, 02:30:00 PM".to_string())),
        (ok("2024-01-15T14:30:00+00:00"), git(&["commit", "-n", "-m", "Second\n\ngit-tf-id: 102", "--date=2024-01-15T14:30:00+00:00", "--author=Jane <noreply@topsystems.ru>"])),
        (ok(""), Action::End),
        (ok(""), begin("Switch current branch")),
        (ok(""), git(&["switch", "main"])),
        (ok(""), Action::End),
        (ok(""), Action::Finish(ok("Changes fetched!"))),
        (ok(""), Action::Finish(ok("Changes fetched!"))),
    ];
    run_script(|ev| s.step(ev), script);
}

#[test]
fn fetch_failure_still_restores_the_branch() {
    let mut s = fetch_tfs("200");
    let script: Vec<(Result<String, Error>, Action)> = vec![
        (ok(""), begin("Get current branch")),
        (ok(""), git(&["branch", "--show-current"])),
        (ok("dev"), Action::End),
        (ok(""), begin("Switch tfs branch")),
        (ok(""), git(&["stash", "push", "-u"])),
        (ok("Saved working directory"), git(&["switch", "tfs"])),
        (ok(""), Action::End),
        (ok(""), git(&["rev-parse", "--show-toplevel"])),
        (ok("/repo"), begin("Get workfold")),
        (ok(""), tf(&["workfold", "/repo"])),
        (ok("nothing useful"), Action::Abort),
        (ok(""), begin("Switch current branch")),
        (ok(""), git(&["switch", "dev"])),
        (ok(""), git(&["stash", "pop"])),
        (ok(""), Action::End),
        (ok(""), Action::Finish(Err(Error::new("Missing workspace")))),
    ];
    run_script(|ev| s.step(ev), script);
}

#[test]
fn fetch_up_to_a_given_version_on_the_tfs_branch() {
    let mut s = fetch_tfs("200");
    let script: Vec<(Result<String, Error>, Action)> = vec![
        (ok(""), begin("Get current branch")),
        (ok(""), git(&["branch", "--show-current"])),
        (ok("tfs"), Action::End),
        (ok(""), begin("Switch tfs branch")),
        (ok(""), git(&["stash", "push", "-u"])),
        (ok("No local changes to save"), Action::End),
        (ok(""), git(&["rev-parse", "--show-toplevel"])),
        (ok("/repo"), begin("Get workfold")),
        (ok(""), tf(&["workfold", "/repo"])),
        (ok(WORKFOLD), Action::End),
        (ok(""), begin("Undo workfold")),
        (ok(""), tf(&["workfold", "undo", "-recursive", "/repo"])),
        (ok(""), tf(&["workfold", "uu", "-recursive", "/repo"])),
        (ok(""), Action::End),
        (ok(""), begin("Get versions")),
        (ok(""), git(&["log", "-n", "1", "tfs", "--pretty=format:%B", "/repo"])),
        (Err(Error::new("fatal")), Action::Abort),
        (ok(""), begin("Switch current branch")),
        (ok(""), Action::End),
        (ok(""), Action::Finish(Err(Error::new("fatal")))),
    ];
    run_script(|ev| s.step(ev), script);
}

#[test]
fn first_command_failure_ends_the_session() {
    let mut s = fetch_tfs("");
    assert_eq!(s.step(ok("")), begin("Get current branch"));
    assert_eq!(s.step(ok("")), git(&["branch", "--show-current"]));
    assert_eq!(s.step(Err(Error::new("no git"))), Action::Abort);
    assert_eq!(s.step(ok("")), Action::Finish(Err(Error::new("no git"))));
}

fn push_prefix(branch: &str) -> Vec<(Result<String, Error>, Action)> {
    vec![
        (ok(""), begin("Get current branch")),
        (ok(""), git(&["branch", "--show-current"])),
        (ok(branch), git(&["rev-parse", "--show-toplevel"])),
        (ok("/repo"), Action::End),
        (ok(""), begin("Undo workfold")),
        (ok(""), tf(&["workfold", "/repo"])),
        (ok(WORKFOLD), Action::End),
        (ok(""), begin("Undo workfold")),
        (ok(""), tf(&["workfold", "undo", "-recursive", "/repo"])),
        (ok(""), Action::End),
        (ok(""), begin("Checking the possibility of making changes")),
        (ok(""), git(&["log", "-n", "1", "tfs", "--pretty=format:%H", "/repo"])),
        (ok("0123456789abcdef"), git(&["branch", "--contains", "123456789abcde"])),
    ]
}

#[test]
fn push_the_current_branch() {
    let mut s = push("");
    let mut script = push_prefix("feature");
    script.extend(vec![
        (ok("* feature\n  tfs"), Action::End),
        (ok(""), begin("Get changes")),
        (ok(""), git(&["diff", "tfs", "feature", "-b", "--name-status"])),
        (ok("M\tsrc/x.rs\nR100 a.txt -> b.txt\nq"), Action::End),
        (ok(""), begin("M: src/x.rs")),
        (ok(""), tf(&["checkout", "/repo/src/x.rs"])),
        (ok(""), Action::End),
        (ok(""), begin("A: b.txt")),
        (ok(""), tf(&["add", "/repo/a.txt"])),
        (ok(""), Action::End),
        (ok(""), begin("D: a.txt")),
        (ok(""), tf(&["delete", "/repo/a.txt"])),
        (ok(""), Action::End),
        (ok(""), begin("Checkin changeset")),
        (ok(""), git(&["log", "-n", "1", "--pretty=format:%B", "/repo"])),
        (ok("last message"), tf(&["checkin", "-comment:last message", "/repo"])),
        (ok(""), Action::End),
        (ok(""), Action::Finish(ok("Changes pushed!"))),
    ]);
    run_script(|ev| s.step(ev), script);
}

#[test]
fn push_with_a_comment() {
    let mut s = Session::start("push", "my comment");
    let mut script = push_prefix("feature");
    script.extend(vec![
        (ok("  feature"), Action::End),
        (ok(""), begin("Get changes")),
        (ok(""), git(&["diff", "tfs", "feature", "-b", "--name-status"])),
        (ok(""), Action::End),
        (ok(""), begin("Checkin changeset")),
        (ok(""), tf(&["checkin", "-comment:my comment", "/repo"])),
        (Err(Error::new("conflict")), Action::Abort),
        (ok(""), Action::Finish(Err(Error::new("conflict")))),
    ]);
    run_script(|ev| s.step(ev), script);
}

#[test]
fn push_of_a_branch_that_is_not_listed() {
    let mut s = push("x");
    let mut script = push_prefix("feature");
    script.extend(vec![
        (ok("* main"), Action::Abort),
        (ok(""), Action::Finish(Err(Error::new("Missing branch")))),
    ]);
    run_script(|ev| s.step(ev), script);
}

#[test]
fn push_without_a_current_branch() {
    let mut s = push("x");
    let mut script = push_prefix("");
    script.extend(vec![
        (ok("* main"), Action::Abort),
        (
            ok(""),
            Action::Finish(Err(Error::new("The current branch has not merged changes from the tfs branch."))),
        ),
    ]);
    run_script(|ev| s.step(ev), script);
}
