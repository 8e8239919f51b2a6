use vstd::prelude::*;
use crate::error::{Error, outcome};
use crate::text::views;

verus! {

/// Outside work that a session asks for.
#[derive(Debug, PartialEq, Eq)]
pub enum Command {
    /// Run `git` with these arguments.
    Git(Vec<String>),
    /// Run `tf` with these arguments.
    Tf(Vec<String>),
    /// Make the file `1`, relative to the folder `0`, read-only.
    MakeReadonly(String, String),
}

/// A command by its text.
pub enum CommandView {
    Git(Seq<Seq<char>>),
    Tf(Seq<Seq<char>>),
    MakeReadonly(Seq<char>, Seq<char>),
}

impl View for Command {
    type V = CommandView;

    open spec fn view(&self) -> CommandView {
        match self {
            Command::Git(args) => CommandView::Git(views(args@)),
            Command::Tf(args) => CommandView::Tf(views(args@)),
            Command::MakeReadonly(root, file) => CommandView::MakeReadonly(root@, file@),
        }
    }
}

/// What a session asks of its runner at one step. The runner answers each
/// with an event: the outcome of a command, the converted date for `Date`,
/// and anything for the others.
#[derive(Debug, PartialEq, Eq)]
pub enum Action {
    /// Show a progress line with this label.
    Begin(String),
    /// Close the progress line as done.
    End,
    /// Close the progress line as failed.
    Abort,
    /// Perform the command.
    Run(Command),
    /// Convert this date of the TFS history with `time::to_date`.
    Date(String),
    /// The session is over, with this result.
    Finish(Result<String, Error>),
}

/// An action by its text.
pub enum ActionView {
    Begin(Seq<char>),
    End,
    Abort,
    Run(CommandView),
    Date(Seq<char>),
    Finish(Result<Seq<char>, Seq<char>>),
}

impl View for Action {
    type V = ActionView;

    open spec fn view(&self) -> ActionView {
        match self {
            Action::Begin(l) => ActionView::Begin(l@),
            Action::End => ActionView::End,
            Action::Abort => ActionView::Abort,
            Action::Run(c) => ActionView::Run(c@),
            Action::Date(d) => ActionView::Date(d@),
            Action::Finish(r) => ActionView::Finish(outcome(*r)),
        }
    }
}

/// Running `git` with `args`.
pub open spec fn run_git(args: Seq<Seq<char>>) -> ActionView {
    ActionView::Run(CommandView::Git(args))
}

/// Running `tf` with `args`.
pub open spec fn run_tf(args: Seq<Seq<char>>) -> ActionView {
    ActionView::Run(CommandView::Tf(args))
}

/// An owned copy of `s`.
pub(crate) fn owned(s: &str) -> (r: String)
    ensures
        r@ == s@,
{
    String::from_str(s)
}

/// The action that runs `git` with `args`.
pub(crate) fn git(args: Vec<String>) -> (a: Action)
    ensures
        a@ == run_git(views(args@)),
{
    Action::Run(Command::Git(args))
}

/// The action that runs `tf` with `args`.
pub(crate) fn tf(args: Vec<String>) -> (a: Action)
    ensures
        a@ == run_tf(views(args@)),
{
    Action::Run(Command::Tf(args))
}

/// The action that runs `git` with two arguments.
pub(crate) fn git2(a: &str, b: &str) -> (act: Action)
    ensures
        act@ == run_git(seq![a@, b@]),
{
    let args = vec![owned(a), owned(b)];
    assert(views(args@) =~= seq![a@, b@]);
    git(args)
}

/// The action that runs `git` with three arguments.
pub(crate) fn git3(a: &str, b: &str, c: &str) -> (act: Action)
    ensures
        act@ == run_git(seq![a@, b@, c@]),
{
    let args = vec![owned(a), owned(b), owned(c)];
    assert(views(args@) =~= seq![a@, b@, c@]);
    git(args)
}

/// The action that shows a progress line labelled `l`.
pub(crate) fn begin(l: &str) -> (a: Action)
    ensures
        a@ == ActionView::Begin(l@),
{
    Action::Begin(owned(l))
}

/// A copy of an outcome.
pub(crate) fn copy_outcome(r: &Result<String, Error>) -> (c: Result<String, Error>)
    ensures
        outcome(c) == outcome(*r),
{
    match r {
        Ok(s) => Ok(s.clone()),
        Err(e) => Err(Error(e.0.clone())),
    }
}

/// Whether an action keeps the discipline of the progress lines, given
/// whether a line is open before it and after it: a line opens only where
/// none is open, closes (done or failed) only where one is open, stays as it
/// is while work runs, and none is open when the session ends.
pub open spec fn progress_ok(open_before: bool, a: ActionView, open_after: bool) -> bool {
    match a {
        ActionView::Begin(_) => !open_before && open_after,
        ActionView::End => open_before && !open_after,
        ActionView::Abort => open_before && !open_after,
        ActionView::Run(_) => open_before == open_after,
        ActionView::Date(_) => open_before == open_after,
        ActionView::Finish(_) => !open_before && !open_after,
    }
}

} // verus!
