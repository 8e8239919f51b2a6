use vstd::prelude::*;
use crate::command::{Action, ActionView, run_git, owned, git2, git3, begin, copy_outcome, progress_ok};
use crate::error::{Error, outcome};
use crate::fetch::{
    Fetch, FetchView, fetch_next, fetch_start, fetch_wf, fetch_line_open, lemma_fetch_progress,
    lemma_fetch_result_is_final,
};

verus! {

/// Where a fetch into the `tfs` branch stands: which answer it waits for.
#[derive(Debug, Clone, Copy, PartialEq, Eq, Structural)]
pub enum FetchTfsPc {
    Start,
    BranchBegun,
    Branch,
    BranchDone,
    SwitchBegun,
    Stash,
    SwitchTfs,
    SwitchDone,
    Fetching,
    RestoreBegun,
    SwitchBack,
    Pop,
    RestoreDone,
    Failing,
    Finished,
}

/// A fetch run on the `tfs` branch: local changes are stashed and the
/// `tfs` branch checked out, the fetch runs, then the branch that was
/// current is checked out again and the stash popped, whatever the fetch
/// gave; its result is the session's.
pub struct FetchTfs {
    pc: FetchTfsPc,
    branch: String,
    stash: String,
    fetch: Fetch,
    result: Result<String, Error>,
    outcome: Result<String, Error>,
}

/// A fetch into the `tfs` branch by the text of what it holds.
pub struct FetchTfsView {
    pub pc: FetchTfsPc,
    /// The branch that was current.
    pub branch: Seq<char>,
    /// What `git stash push` answered.
    pub stash: Seq<char>,
    pub fetch: FetchView,
    /// What the fetch gave.
    pub result: Result<Seq<char>, Seq<char>>,
    pub outcome: Result<Seq<char>, Seq<char>>,
}

impl View for FetchTfs {
    type V = FetchTfsView;

    closed spec fn view(&self) -> FetchTfsView {
        FetchTfsView {
            pc: self.pc,
            branch: self.branch@,
            stash: self.stash@,
            fetch: self.fetch@,
            result: outcome(self.result),
            outcome: outcome(self.outcome),
        }
    }
}

/// What every reachable session satisfies.
pub open spec fn fetch_tfs_wf(s: FetchTfsView) -> bool {
    &&& fetch_wf(s.fetch)
    &&& before_fetch(s.pc) ==> s.fetch == fetch_start(s.fetch.version)
}

/// Whether the session has not started its fetch yet.
pub open spec fn before_fetch(pc: FetchTfsPc) -> bool {
    ||| pc == FetchTfsPc::Start
    ||| pc == FetchTfsPc::BranchBegun
    ||| pc == FetchTfsPc::Branch
    ||| pc == FetchTfsPc::BranchDone
    ||| pc == FetchTfsPc::SwitchBegun
    ||| pc == FetchTfsPc::Stash
    ||| pc == FetchTfsPc::SwitchTfs
    ||| pc == FetchTfsPc::SwitchDone
}

/// The session fails with `e`, closing the progress line as failed first.
pub open spec fn sync_fail(s: FetchTfsView, e: Seq<char>) -> (FetchTfsView, ActionView) {
    (FetchTfsView { pc: FetchTfsPc::Failing, outcome: Err(e), ..s }, ActionView::Abort)
}

/// The session is over with `r`.
pub open spec fn sync_finish(s: FetchTfsView, r: Result<Seq<char>, Seq<char>>) -> (
    FetchTfsView,
    ActionView,
) {
    (FetchTfsView { pc: FetchTfsPc::Finished, outcome: r, ..s }, ActionView::Finish(r))
}

/// Passes on what the fetch asks; when the fetch is over, keeps its result
/// and starts to restore the branch.
pub open spec fn forward(s: FetchTfsView, a: ActionView) -> (FetchTfsView, ActionView) {
    match a {
        ActionView::Finish(r) => (
            FetchTfsView { pc: FetchTfsPc::RestoreBegun, result: r, ..s },
            ActionView::Begin("Switch current branch"@),
        ),
        _ => (FetchTfsView { pc: FetchTfsPc::Fetching, ..s }, a),
    }
}

/// The answer of `git stash push` when there was nothing to stash.
pub open spec fn nothing_stashed() -> Seq<char> {
    "No local changes to save"@
}

/// Pops the stash where something was stashed, then closes the progress
/// line.
pub open spec fn pop_or_end(s: FetchTfsView) -> (FetchTfsView, ActionView) {
    if s.stash != nothing_stashed() {
        (FetchTfsView { pc: FetchTfsPc::Pop, ..s }, run_git(seq!["stash"@, "pop"@]))
    } else {
        (FetchTfsView { pc: FetchTfsPc::RestoreDone, ..s }, ActionView::End)
    }
}

/// One step of a fetch into the `tfs` branch.
pub open spec fn fetch_tfs_next(s: FetchTfsView, ev: Result<Seq<char>, Seq<char>>) -> (
    FetchTfsView,
    ActionView,
) {
    match s.pc {
        FetchTfsPc::Start => (
            FetchTfsView { pc: FetchTfsPc::BranchBegun, ..s },
            ActionView::Begin("Get current branch"@),
        ),
        FetchTfsPc::BranchBegun => (
            FetchTfsView { pc: FetchTfsPc::Branch, ..s },
            run_git(seq!["branch"@, "--show-current"@]),
        ),
        FetchTfsPc::Branch => match ev {
            Err(e) => sync_fail(s, e),
            Ok(b) => (FetchTfsView { pc: FetchTfsPc::BranchDone, branch: b, ..s }, ActionView::End),
        },
        FetchTfsPc::BranchDone => (
            FetchTfsView { pc: FetchTfsPc::SwitchBegun, ..s },
            ActionView::Begin("Switch tfs branch"@),
        ),
        FetchTfsPc::SwitchBegun => (
            FetchTfsView { pc: FetchTfsPc::Stash, ..s },
            run_git(seq!["stash"@, "push"@, "-u"@]),
        ),
        FetchTfsPc::Stash => match ev {
            Err(e) => sync_fail(s, e),
            Ok(st) => if s.branch != "tfs"@ {
                (
                    FetchTfsView { pc: FetchTfsPc::SwitchTfs, stash: st, ..s },
                    run_git(seq!["switch"@, "tfs"@]),
                )
            } else {
                (FetchTfsView { pc: FetchTfsPc::SwitchDone, stash: st, ..s }, ActionView::End)
            },
        },
        FetchTfsPc::SwitchTfs => match ev {
            Err(e) => sync_fail(s, e),
            Ok(_) => (FetchTfsView { pc: FetchTfsPc::SwitchDone, ..s }, ActionView::End),
        },
        FetchTfsPc::SwitchDone => {
            let (f, a) = fetch_next(fetch_start(s.fetch.version), Ok(seq![]));
            forward(FetchTfsView { fetch: f, ..s }, a)
        },
        FetchTfsPc::Fetching => {
            let (f, a) = fetch_next(s.fetch, ev);
            forward(FetchTfsView { fetch: f, ..s }, a)
        },
        FetchTfsPc::RestoreBegun => if s.branch != "tfs"@ {
            (
                FetchTfsView { pc: FetchTfsPc::SwitchBack, ..s },
                run_git(seq!["switch"@, s.branch]),
            )
        } else {
            pop_or_end(s)
        },
        FetchTfsPc::SwitchBack => match ev {
            Err(e) => sync_fail(s, e),
            Ok(_) => pop_or_end(s),
        },
        FetchTfsPc::Pop => match ev {
            Err(e) => sync_fail(s, e),
            Ok(_) => (FetchTfsView { pc: FetchTfsPc::RestoreDone, ..s }, ActionView::End),
        },
        FetchTfsPc::RestoreDone => sync_finish(s, s.result),
        FetchTfsPc::Failing => sync_finish(s, s.outcome),
        FetchTfsPc::Finished => (s, ActionView::Finish(s.outcome)),
    }
}

/// The session as it starts, for the version `version`.
pub open spec fn fetch_tfs_start(version: Seq<char>) -> FetchTfsView {
    FetchTfsView {
        pc: FetchTfsPc::Start,
        branch: seq![],
        stash: seq![],
        fetch: fetch_start(version),
        result: Ok(seq![]),
        outcome: Ok(seq![]),
    }
}

/// The session that fetches, on the `tfs` branch, the changesets up to
/// `version`, or up to the latest where `version` is empty.
pub fn fetch_tfs(version: &str) -> (s: FetchTfs)
    ensures
        s@ == fetch_tfs_start(version@),
        fetch_tfs_wf(s@),
{
    FetchTfs {
        pc: FetchTfsPc::Start,
        branch: String::new(),
        stash: String::new(),
        fetch: Fetch::new(version),
        result: Ok(String::new()),
        outcome: Ok(String::new()),
    }
}

impl FetchTfs {
    fn fail(&mut self, e: Error) -> (a: Action)
        ensures
            (final(self)@, a@) == sync_fail(old(self)@, e@),
    {
        self.pc = FetchTfsPc::Failing;
        self.outcome = Err(e);
        Action::Abort
    }

    fn finish(&mut self, r: Result<String, Error>) -> (a: Action)
        ensures
            (final(self)@, a@) == sync_finish(old(self)@, outcome(r)),
    {
        self.pc = FetchTfsPc::Finished;
        self.outcome = copy_outcome(&r);
        Action::Finish(r)
    }

    fn forward(&mut self, a: Action) -> (b: Action)
        ensures
            (final(self)@, b@) == forward(old(self)@, a@),
    {
        match a {
            Action::Finish(r) => {
                self.result = r;
                self.pc = FetchTfsPc::RestoreBegun;
                begin("Switch current branch")
            },
            _ => {
                self.pc = FetchTfsPc::Fetching;
                a
            },
        }
    }

    fn pop_or_end(&mut self) -> (a: Action)
        ensures
            (final(self)@, a@) == pop_or_end(old(self)@),
    {
        if self.stash != owned("No local changes to save") {
            self.pc = FetchTfsPc::Pop;
            git2("stash", "pop")
        } else {
            self.pc = FetchTfsPc::RestoreDone;
            Action::End
        }
    }

    /// Takes the answer to the last action and gives the next one.
    pub fn step(&mut self, event: Result<String, Error>) -> (a: Action)
        requires
            fetch_tfs_wf(old(self)@),
        ensures
            (final(self)@, a@) == fetch_tfs_next(old(self)@, outcome(event)),
            fetch_tfs_wf(final(self)@),
    {
        match self.pc {
            FetchTfsPc::Start => {
                self.pc = FetchTfsPc::BranchBegun;
                begin("Get current branch")
            },
            FetchTfsPc::BranchBegun => {
                self.pc = FetchTfsPc::Branch;
                git2("branch", "--show-current")
            },
            FetchTfsPc::Branch => match event {
                Err(e) => self.fail(e),
                Ok(b) => {
                    self.branch = b;
                    self.pc = FetchTfsPc::BranchDone;
                    Action::End
                },
            },
            FetchTfsPc::BranchDone => {
                self.pc = FetchTfsPc::SwitchBegun;
                begin("Switch tfs branch")
            },
            FetchTfsPc::SwitchBegun => {
                self.pc = FetchTfsPc::Stash;
                git3("stash", "push", "-u")
            },
            FetchTfsPc::Stash => match event {
                Err(e) => self.fail(e),
                Ok(st) => {
                    self.stash = st;
                    if self.branch != owned("tfs") {
                        self.pc = FetchTfsPc::SwitchTfs;
                        git2("switch", "tfs")
                    } else {
                        self.pc = FetchTfsPc::SwitchDone;
                        Action::End
                    }
                },
            },
            FetchTfsPc::SwitchTfs => match event {
                Err(e) => self.fail(e),
                Ok(_) => {
                    self.pc = FetchTfsPc::SwitchDone;
                    Action::End
                },
            },
            FetchTfsPc::SwitchDone => {
                let a = self.fetch.step(Ok(String::new()));
                self.forward(a)
            },
            FetchTfsPc::Fetching => {
                let a = self.fetch.step(event);
                self.forward(a)
            },
            FetchTfsPc::RestoreBegun => {
                if self.branch != owned("tfs") {
                    self.pc = FetchTfsPc::SwitchBack;
                    let args = vec![owned("switch"), self.branch.clone()];
                    assert(crate::text::views(args@) =~= seq!["switch"@, self.branch@]);
                    crate::command::git(args)
                } else {
                    self.pop_or_end()
                }
            },
            FetchTfsPc::SwitchBack => match event {
                Err(e) => self.fail(e),
                Ok(_) => self.pop_or_end(),
            },
            FetchTfsPc::Pop => match event {
                Err(e) => self.fail(e),
                Ok(_) => {
                    self.pc = FetchTfsPc::RestoreDone;
                    Action::End
                },
            },
            FetchTfsPc::RestoreDone => {
                let r = copy_outcome(&self.result);
                self.finish(r)
            },
            FetchTfsPc::Failing => {
                let r = copy_outcome(&self.outcome);
                self.finish(r)
            },
            FetchTfsPc::Finished => Action::Finish(copy_outcome(&self.outcome)),
        }
    }
}

/// Whether a progress line is open while the session waits at `s.pc`.
pub open spec fn fetch_tfs_line_open(s: FetchTfsView) -> bool {
    match s.pc {
        FetchTfsPc::BranchBegun | FetchTfsPc::Branch | FetchTfsPc::SwitchBegun | FetchTfsPc::Stash
        | FetchTfsPc::SwitchTfs | FetchTfsPc::RestoreBegun | FetchTfsPc::SwitchBack
        | FetchTfsPc::Pop => true,
        FetchTfsPc::Fetching => fetch_line_open(s.fetch.pc),
        _ => false,
    }
}

/// A fetch into the `tfs` branch keeps the discipline of the progress lines
/// at every step, the fetch's own lines included, and stays well formed.
pub proof fn lemma_fetch_tfs_progress(s: FetchTfsView, ev: Result<Seq<char>, Seq<char>>)
    requires
        fetch_tfs_wf(s),
    ensures
        ({
            let (t, a) = fetch_tfs_next(s, ev);
            &&& progress_ok(fetch_tfs_line_open(s), a, fetch_tfs_line_open(t))
            &&& fetch_tfs_wf(t)
        }),
{
    if s.pc == FetchTfsPc::SwitchDone {
        lemma_fetch_progress(fetch_start(s.fetch.version), Ok(seq![]));
        lemma_fetch_result_is_final(fetch_start(s.fetch.version), Ok(seq![]));
    } else if s.pc == FetchTfsPc::Fetching {
        lemma_fetch_progress(s.fetch, ev);
        lemma_fetch_result_is_final(s.fetch, ev);
    }
}

/// Once the session gives its result, it is over: it waits at `Finished`
/// with that result, and every later step gives the same result again.
pub proof fn lemma_fetch_tfs_result_is_final(s: FetchTfsView, ev: Result<Seq<char>, Seq<char>>)
    ensures
        ({
            let (t, a) = fetch_tfs_next(s, ev);
            &&& a is Finish ==> t.pc == FetchTfsPc::Finished && a->Finish_0 == t.outcome
            &&& s.pc == FetchTfsPc::Finished ==> t == s && a == ActionView::Finish(s.outcome)
        }),
{
}

/// Whatever the fetch gives, the session goes on to restore: it opens the
/// line "Switch current branch", checks out again the branch that was
/// current unless that was `tfs`, pops the stash unless nothing was stashed,
/// and, where each of these succeeds, ends with the fetch's result.
pub proof fn lemma_restore_after_fetch(
    s: FetchTfsView,
    ev: Result<Seq<char>, Seq<char>>,
    x1: Seq<char>,
    x2: Seq<char>,
    x3: Seq<char>,
    x4: Seq<char>,
)
    requires
        s.pc == FetchTfsPc::Fetching,
        fetch_next(s.fetch, ev).1 is Finish,
    ensures
        ({
            let r = fetch_next(s.fetch, ev).1->Finish_0;
            let (t1, a1) = fetch_tfs_next(s, ev);
            let (t2, a2) = fetch_tfs_next(t1, Ok(x1));
            let (t3, a3) = fetch_tfs_next(t2, Ok(x2));
            let (t4, a4) = fetch_tfs_next(t3, Ok(x3));
            let (t5, a5) = fetch_tfs_next(t4, Ok(x4));
            &&& a1 == ActionView::Begin("Switch current branch"@)
            &&& s.branch != "tfs"@ ==> a2 == run_git(seq!["switch"@, s.branch])
            &&& s.branch == "tfs"@ && s.stash != nothing_stashed() ==> a2 == run_git(
                seq!["stash"@, "pop"@],
            )
            &&& s.branch != "tfs"@ && s.stash != nothing_stashed() ==> a3 == run_git(
                seq!["stash"@, "pop"@],
            )
            &&& a5 == ActionView::Finish(r)
        }),
{
}

} // verus!
