use vstd::prelude::*;
use crate::changes::{ChangeMatchers, TfOp, TfOpView, change_spec, change_patterns_compile, op_views};
use crate::command::{
    Action, ActionView, run_git, run_tf, owned, git, tf, git2, begin, copy_outcome, progress_ok,
};
use crate::error::{Error, outcome};
use crate::pattern::regex_compile;
use crate::scan::{first_group, first_group_spec, check_pattern};
use crate::text::{lines, lines_of, views};
use crate::workfold::{Workfold, WorkfoldView, workfold_spec, parse_workfold};

verus! {

/// Where a push stands: which answer it waits for.
#[derive(Debug, Clone, Copy, PartialEq, Eq, Structural)]
pub enum PushPc {
    Start,
    BranchBegun,
    Branch,
    Toplevel,
    TopDone,
    WorkfoldBegun,
    Workfold,
    WorkfoldDone,
    UndoBegun,
    Undo,
    UndoDone,
    CheckBegun,
    Hash,
    Contains,
    CheckDone,
    DiffBegun,
    Diff,
    DiffDone,
    OpBegun,
    OpRun,
    OpDone,
    CheckinBegun,
    Message,
    Checkin,
    CheckinDone,
    Failing,
    Finished,
}

/// A push of the current branch to TFS: each change between the `tfs`
/// branch and the current one is made pending in TFS, then all are checked
/// in with one comment.
pub struct Push {
    pc: PushPc,
    msg: String,
    branch: String,
    toplevel: String,
    workfold: Workfold,
    hash: String,
    diff: Vec<String>,
    next_line: usize,
    ops: Vec<TfOp>,
    next_op: usize,
    outcome: Result<String, Error>,
}

/// A push by the text of what it holds.
pub struct PushView {
    pub pc: PushPc,
    /// The check-in comment asked for; empty for the message of the last
    /// commit.
    pub msg: Seq<char>,
    pub branch: Seq<char>,
    pub toplevel: Seq<char>,
    pub workfold: WorkfoldView,
    /// What was read from the last commit of the `tfs` branch.
    pub hash: Seq<char>,
    /// The lines of the diff.
    pub diff: Seq<Seq<char>>,
    /// The first line of the diff not yet read.
    pub next_line: nat,
    /// The pending changes of the last line read.
    pub ops: Seq<TfOpView>,
    /// The first of them not yet made.
    pub next_op: nat,
    pub outcome: Result<Seq<char>, Seq<char>>,
}

impl View for Push {
    type V = PushView;

    closed spec fn view(&self) -> PushView {
        PushView {
            pc: self.pc,
            msg: self.msg@,
            branch: self.branch@,
            toplevel: self.toplevel@,
            workfold: self.workfold@,
            hash: self.hash@,
            diff: views(self.diff@),
            next_line: self.next_line as nat,
            ops: op_views(self.ops@),
            next_op: self.next_op as nat,
            outcome: outcome(self.outcome),
        }
    }
}

/// Reads the last commit of the `tfs` branch.
pub open spec fn hash_pattern() -> Seq<char> {
    ".([a-z0-9]*)."@
}

/// Finds the branch `branch` among those that `git branch` lists.
pub open spec fn branch_pattern(branch: Seq<char>) -> Seq<char> {
    "\\s*("@ + branch + ")\\s*"@
}

/// Whether the push is making a pending change.
pub open spec fn making_op(pc: PushPc) -> bool {
    pc == PushPc::OpBegun || pc == PushPc::OpRun
}

/// Whether the push is reading the diff.
pub open spec fn reading_diff(pc: PushPc) -> bool {
    pc == PushPc::DiffDone || pc == PushPc::OpBegun || pc == PushPc::OpRun || pc == PushPc::OpDone
}

/// What every reachable push satisfies.
pub open spec fn push_wf(s: PushView) -> bool {
    &&& s.next_line <= s.diff.len()
    &&& s.next_op <= s.ops.len()
    &&& making_op(s.pc) ==> s.next_op < s.ops.len()
    &&& (s.pc == PushPc::OpBegun || s.pc == PushPc::OpRun || s.pc == PushPc::OpDone)
        ==> change_patterns_compile() is Ok
}

/// The push fails with `e`, closing the progress line as failed first.
pub open spec fn push_fail(s: PushView, e: Seq<char>) -> (PushView, ActionView) {
    (PushView { pc: PushPc::Failing, outcome: Err(e), ..s }, ActionView::Abort)
}

/// The push is over with `r`.
pub open spec fn push_finish(s: PushView, r: Result<Seq<char>, Seq<char>>) -> (PushView, ActionView) {
    (PushView { pc: PushPc::Finished, outcome: r, ..s }, ActionView::Finish(r))
}

/// Starts on the next pending change: the next of the line last read, else
/// the first of the next line of the diff that asks for any; when the diff
/// is done, starts the check-in.
pub open spec fn next_change(s: PushView) -> (PushView, ActionView)
    decreases s.diff.len() - s.next_line,
{
    if s.next_op < s.ops.len() {
        (PushView { pc: PushPc::OpBegun, ..s }, ActionView::Begin(s.ops[s.next_op as int].label))
    } else if s.next_line < s.diff.len() {
        match change_spec(s.diff[s.next_line as int], s.toplevel) {
            Err(e) => push_finish(s, Err(e)),
            Ok(ops) => next_change(
                PushView { next_line: s.next_line + 1, ops, next_op: 0, ..s },
            ),
        }
    } else {
        (PushView { pc: PushPc::CheckinBegun, ..s }, ActionView::Begin("Checkin changeset"@))
    }
}

/// Checks in the pending changes with the comment `comment`.
pub open spec fn checkin(s: PushView, comment: Seq<char>) -> (PushView, ActionView) {
    (
        PushView { pc: PushPc::Checkin, ..s },
        run_tf(seq!["checkin"@, "-comment:"@ + comment, s.workfold.local]),
    )
}

/// One step of a push: what it becomes and asks for, given the answer `ev`
/// to what it asked last.
pub open spec fn push_next(s: PushView, ev: Result<Seq<char>, Seq<char>>) -> (PushView, ActionView) {
    match s.pc {
        PushPc::Start => (
            PushView { pc: PushPc::BranchBegun, ..s },
            ActionView::Begin("Get current branch"@),
        ),
        PushPc::BranchBegun => (
            PushView { pc: PushPc::Branch, ..s },
            run_git(seq!["branch"@, "--show-current"@]),
        ),
        PushPc::Branch => match ev {
            Err(e) => push_fail(s, e),
            Ok(b) => (
                PushView { pc: PushPc::Toplevel, branch: b, ..s },
                run_git(seq!["rev-parse"@, "--show-toplevel"@]),
            ),
        },
        PushPc::Toplevel => match ev {
            Err(e) => push_fail(s, e),
            Ok(t) => (PushView { pc: PushPc::TopDone, toplevel: t, ..s }, ActionView::End),
        },
        PushPc::TopDone => (
            PushView { pc: PushPc::WorkfoldBegun, ..s },
            ActionView::Begin("Undo workfold"@),
        ),
        PushPc::WorkfoldBegun => (
            PushView { pc: PushPc::Workfold, ..s },
            run_tf(seq!["workfold"@, s.toplevel]),
        ),
        PushPc::Workfold => match ev {
            Err(e) => push_fail(s, e),
            Ok(out) => match workfold_spec(out, s.toplevel) {
                Err(e) => push_fail(s, e),
                Ok(w) => (PushView { pc: PushPc::WorkfoldDone, workfold: w, ..s }, ActionView::End),
            },
        },
        PushPc::WorkfoldDone => (
            PushView { pc: PushPc::UndoBegun, ..s },
            ActionView::Begin("Undo workfold"@),
        ),
        PushPc::UndoBegun => (
            PushView { pc: PushPc::Undo, ..s },
            run_tf(seq!["workfold"@, "undo"@, "-recursive"@, s.workfold.local]),
        ),
        PushPc::Undo => match ev {
            Err(e) => push_fail(s, e),
            Ok(_) => (PushView { pc: PushPc::UndoDone, ..s }, ActionView::End),
        },
        PushPc::UndoDone => (
            PushView { pc: PushPc::CheckBegun, ..s },
            ActionView::Begin("Checking the possibility of making changes"@),
        ),
        PushPc::CheckBegun => match regex_compile(hash_pattern()) {
            Err(m) => push_fail(s, m),
            Ok(_) => (
                PushView { pc: PushPc::Hash, ..s },
                run_git(
                    seq!["log"@, "-n"@, "1"@, "tfs"@, "--pretty=format:%H"@, s.workfold.local],
                ),
            ),
        },
        PushPc::Hash => match ev {
            Err(e) => push_fail(s, e),
            Ok(out) => match first_group_spec(hash_pattern(), out, "Missing hash"@) {
                Err(e) => push_fail(s, e),
                Ok(h) => match regex_compile(branch_pattern(s.branch)) {
                    Err(m) => push_fail(s, m),
                    Ok(_) => (
                        PushView { pc: PushPc::Contains, hash: h, ..s },
                        run_git(seq!["branch"@, "--contains"@, h]),
                    ),
                },
            },
        },
        PushPc::Contains => match ev {
            Err(e) => push_fail(s, e),
            Ok(out) => match first_group_spec(branch_pattern(s.branch), out, "Missing branch"@) {
                Err(e) => push_fail(s, e),
                Ok(cb) => if cb.len() == 0 {
                    push_fail(s, "The current branch has not merged changes from the tfs branch."@)
                } else {
                    (PushView { pc: PushPc::CheckDone, ..s }, ActionView::End)
                },
            },
        },
        PushPc::CheckDone => (
            PushView { pc: PushPc::DiffBegun, ..s },
            ActionView::Begin("Get changes"@),
        ),
        PushPc::DiffBegun => (
            PushView { pc: PushPc::Diff, ..s },
            run_git(seq!["diff"@, "tfs"@, s.branch, "-b"@, "--name-status"@]),
        ),
        PushPc::Diff => match ev {
            Err(e) => push_fail(s, e),
            Ok(d) => (
                PushView { pc: PushPc::DiffDone, diff: lines_of(d), next_line: 0, ..s },
                ActionView::End,
            ),
        },
        PushPc::DiffDone => match change_patterns_compile() {
            Err(m) => push_finish(s, Err(m)),
            Ok(_) => next_change(PushView { next_line: 0, ops: seq![], next_op: 0, ..s }),
        },
        PushPc::OpBegun => (
            PushView { pc: PushPc::OpRun, ..s },
            run_tf(seq![s.ops[s.next_op as int].verb, s.ops[s.next_op as int].path]),
        ),
        PushPc::OpRun => match ev {
            Err(e) => push_fail(s, e),
            Ok(_) => (
                PushView { pc: PushPc::OpDone, next_op: s.next_op + 1, ..s },
                ActionView::End,
            ),
        },
        PushPc::OpDone => next_change(s),
        PushPc::CheckinBegun => if s.msg.len() == 0 {
            (
                PushView { pc: PushPc::Message, ..s },
                run_git(seq!["log"@, "-n"@, "1"@, "--pretty=format:%B"@, s.workfold.local]),
            )
        } else {
            checkin(s, s.msg)
        },
        PushPc::Message => match ev {
            Err(e) => push_fail(s, e),
            Ok(m) => checkin(s, m),
        },
        PushPc::Checkin => match ev {
            Err(e) => push_fail(s, e),
            Ok(_) => (PushView { pc: PushPc::CheckinDone, ..s }, ActionView::End),
        },
        PushPc::CheckinDone => push_finish(s, Ok("Changes pushed!"@)),
        PushPc::Failing => push_finish(s, s.outcome),
        PushPc::Finished => (s, ActionView::Finish(s.outcome)),
    }
}

/// The push as it starts, with the check-in comment `msg`.
pub open spec fn push_start(msg: Seq<char>) -> PushView {
    PushView {
        pc: PushPc::Start,
        msg,
        branch: seq![],
        toplevel: seq![],
        workfold: WorkfoldView { workspace: seq![], collection: seq![], remote: seq![], local: seq![] },
        hash: seq![],
        diff: seq![],
        next_line: 0,
        ops: seq![],
        next_op: 0,
        outcome: Ok(seq![]),
    }
}

/// The session that pushes the current branch to TFS, checked in with the
/// comment `msg`, or with the message of the last commit where `msg` is
/// empty.
pub fn push(msg: &str) -> (p: Push)
    ensures
        p@ == push_start(msg@),
        push_wf(p@),
{
    let p = Push {
        pc: PushPc::Start,
        msg: owned(msg),
        branch: String::new(),
        toplevel: String::new(),
        workfold: Workfold {
            workspace: String::new(),
            collection: String::new(),
            remote: String::new(),
            local: String::new(),
        },
        hash: String::new(),
        diff: Vec::new(),
        next_line: 0,
        ops: Vec::new(),
        next_op: 0,
        outcome: Ok(String::new()),
    };
    assert(views(p.diff@) =~= seq![]);
    assert(op_views(p.ops@) =~= seq![]);
    p
}

impl Push {
    fn fail(&mut self, e: Error) -> (a: Action)
        ensures
            (final(self)@, a@) == push_fail(old(self)@, e@),
    {
        self.pc = PushPc::Failing;
        self.outcome = Err(e);
        Action::Abort
    }

    fn finish(&mut self, r: Result<String, Error>) -> (a: Action)
        ensures
            (final(self)@, a@) == push_finish(old(self)@, outcome(r)),
    {
        self.pc = PushPc::Finished;
        self.outcome = copy_outcome(&r);
        Action::Finish(r)
    }

    fn checkin(&mut self, comment: &str) -> (a: Action)
        ensures
            (final(self)@, a@) == checkin(old(self)@, comment@),
    {
        self.pc = PushPc::Checkin;
        let args = vec![
            owned("checkin"),
            owned("-comment:").concat(comment),
            self.workfold.local.clone(),
        ];
        assert(views(args@) =~= seq!["checkin"@, "-comment:"@ + comment@, self.workfold.local@]);
        tf(args)
    }

    fn next_change(&mut self) -> (a: Action)
        requires
            push_wf(old(self)@),
            change_patterns_compile() is Ok,
        ensures
            (final(self)@, a@) == next_change(old(self)@),
            push_wf(final(self)@),
    {
        let ghost goal = next_change(self@);
        let matchers = match ChangeMatchers::new() {
            Ok(m) => m,
            Err(e) => {
                proof {
                    assert(false);
                }
                return self.fail(e);
            },
        };
        loop
            invariant
                push_wf(self@),
                matchers.wf(),
                change_patterns_compile() is Ok,
                next_change(self@) == goal,
                goal == next_change(old(self)@),
            decreases self@.diff.len() - self@.next_line,
        {
            if self.next_op < self.ops.len() {
                self.pc = PushPc::OpBegun;
                return Action::Begin(self.ops[self.next_op].label.clone());
            }
            if self.next_line < self.diff.len() {
                match matchers.changes(self.diff[self.next_line].as_str(), self.toplevel.as_str()) {
                    Err(e) => return self.finish(Err(e)),
                    Ok(ops) => {
                        self.ops = ops;
                        self.next_op = 0;
                        self.next_line = self.next_line + 1;
                    },
                }
            } else {
                self.pc = PushPc::CheckinBegun;
                return begin("Checkin changeset");
            }
        }
    }

    /// Takes the answer to the last action and gives the next one.
    pub fn step(&mut self, event: Result<String, Error>) -> (a: Action)
        requires
            push_wf(old(self)@),
        ensures
            (final(self)@, a@) == push_next(old(self)@, outcome(event)),
            push_wf(final(self)@),
    {
        match self.pc {
            PushPc::Start => {
                self.pc = PushPc::BranchBegun;
                begin("Get current branch")
            },
            PushPc::BranchBegun => {
                self.pc = PushPc::Branch;
                git2("branch", "--show-current")
            },
            PushPc::Branch => match event {
                Err(e) => self.fail(e),
                Ok(b) => {
                    self.branch = b;
                    self.pc = PushPc::Toplevel;
                    git2("rev-parse", "--show-toplevel")
                },
            },
            PushPc::Toplevel => match event {
                Err(e) => self.fail(e),
                Ok(t) => {
                    self.toplevel = t;
                    self.pc = PushPc::TopDone;
                    Action::End
                },
            },
            PushPc::TopDone => {
                self.pc = PushPc::WorkfoldBegun;
                begin("Undo workfold")
            },
            PushPc::WorkfoldBegun => {
                self.pc = PushPc::Workfold;
                let args = vec![owned("workfold"), self.toplevel.clone()];
                assert(views(args@) =~= seq!["workfold"@, self.toplevel@]);
                tf(args)
            },
            PushPc::Workfold => match event {
                Err(e) => self.fail(e),
                Ok(out) => match parse_workfold(out.as_str(), self.toplevel.as_str()) {
                    Err(e) => self.fail(e),
                    Ok(w) => {
                        self.workfold = w;
                        self.pc = PushPc::WorkfoldDone;
                        Action::End
                    },
                },
            },
            PushPc::WorkfoldDone => {
                self.pc = PushPc::UndoBegun;
                begin("Undo workfold")
            },
            PushPc::UndoBegun => {
                self.pc = PushPc::Undo;
                let args = vec![
                    owned("workfold"),
                    owned("undo"),
                    owned("-recursive"),
                    self.workfold.local.clone(),
                ];
                assert(views(args@) =~= seq![
                    "workfold"@,
                    "undo"@,
                    "-recursive"@,
                    self.workfold.local@,
                ]);
                tf(args)
            },
            PushPc::Undo => match event {
                Err(e) => self.fail(e),
                Ok(_) => {
                    self.pc = PushPc::UndoDone;
                    Action::End
                },
            },
            PushPc::UndoDone => {
                self.pc = PushPc::CheckBegun;
                begin("Checking the possibility of making changes")
            },
            PushPc::CheckBegun => match check_pattern(".([a-z0-9]*).") {
                Err(e) => self.fail(e),
                Ok(_) => {
                    self.pc = PushPc::Hash;
                    let args = vec![
                        owned("log"),
                        owned("-n"),
                        owned("1"),
                        owned("tfs"),
                        owned("--pretty=format:%H"),
                        self.workfold.local.clone(),
                    ];
                    assert(views(args@) =~= seq![
                        "log"@,
                        "-n"@,
                        "1"@,
                        "tfs"@,
                        "--pretty=format:%H"@,
                        self.workfold.local@,
                    ]);
                    git(args)
                },
            },
            PushPc::Hash => match event {
                Err(e) => self.fail(e),
                Ok(out) => match first_group(".([a-z0-9]*).", out.as_str(), "Missing hash") {
                    Err(e) => self.fail(e),
                    Ok(h) => {
                        let bp = branch_source(self.branch.as_str());
                        match check_pattern(bp.as_str()) {
                            Err(e) => self.fail(e),
                            Ok(_) => {
                                self.pc = PushPc::Contains;
                                let args = vec![owned("branch"), owned("--contains"), h.clone()];
                                assert(views(args@) =~= seq!["branch"@, "--contains"@, h@]);
                                self.hash = h;
                                git(args)
                            },
                        }
                    },
                },
            },
            PushPc::Contains => match event {
                Err(e) => self.fail(e),
                Ok(out) => {
                    let bp = branch_source(self.branch.as_str());
                    match first_group(bp.as_str(), out.as_str(), "Missing branch") {
                        Err(e) => self.fail(e),
                        Ok(cb) => {
                            if cb.as_str().is_empty() {
                                self.fail(
                                    Error::new(
                                        "The current branch has not merged changes from the tfs branch.",
                                    ),
                                )
                            } else {
                                self.pc = PushPc::CheckDone;
                                Action::End
                            }
                        },
                    }
                },
            },
            PushPc::CheckDone => {
                self.pc = PushPc::DiffBegun;
                begin("Get changes")
            },
            PushPc::DiffBegun => {
                self.pc = PushPc::Diff;
                let args = vec![
                    owned("diff"),
                    owned("tfs"),
                    self.branch.clone(),
                    owned("-b"),
                    owned("--name-status"),
                ];
                assert(views(args@) =~= seq![
                    "diff"@,
                    "tfs"@,
                    self.branch@,
                    "-b"@,
                    "--name-status"@,
                ]);
                git(args)
            },
            PushPc::Diff => match event {
                Err(e) => self.fail(e),
                Ok(d) => {
                    self.diff = lines(d.as_str());
                    self.next_line = 0;
                    self.pc = PushPc::DiffDone;
                    Action::End
                },
            },
            PushPc::DiffDone => match ChangeMatchers::new() {
                Err(e) => self.finish(Err(e)),
                Ok(_) => {
                    self.next_line = 0;
                    self.ops = Vec::new();
                    self.next_op = 0;
                    assert(op_views(self.ops@) =~= seq![]);
                    self.next_change()
                },
            },
            PushPc::OpBegun => {
                self.pc = PushPc::OpRun;
                let args = vec![
                    self.ops[self.next_op].verb.clone(),
                    self.ops[self.next_op].path.clone(),
                ];
                assert(views(args@) =~= seq![
                    self.ops@[self.next_op as int].verb@,
                    self.ops@[self.next_op as int].path@,
                ]);
                tf(args)
            },
            PushPc::OpRun => match event {
                Err(e) => self.fail(e),
                Ok(_) => {
                    let n = self.ops.len();
                    assert(self.next_op < n);
                    self.next_op = self.next_op + 1;
                    self.pc = PushPc::OpDone;
                    Action::End
                },
            },
            PushPc::OpDone => self.next_change(),
            PushPc::CheckinBegun => {
                if self.msg.as_str().is_empty() {
                    self.pc = PushPc::Message;
                    let args = vec![
                        owned("log"),
                        owned("-n"),
                        owned("1"),
                        owned("--pretty=format:%B"),
                        self.workfold.local.clone(),
                    ];
                    assert(views(args@) =~= seq![
                        "log"@,
                        "-n"@,
                        "1"@,
                        "--pretty=format:%B"@,
                        self.workfold.local@,
                    ]);
                    git(args)
                } else {
                    let m = self.msg.clone();
                    self.checkin(m.as_str())
                }
            },
            PushPc::Message => match event {
                Err(e) => self.fail(e),
                Ok(m) => self.checkin(m.as_str()),
            },
            PushPc::Checkin => match event {
                Err(e) => self.fail(e),
                Ok(_) => {
                    self.pc = PushPc::CheckinDone;
                    Action::End
                },
            },
            PushPc::CheckinDone => self.finish(Ok(owned("Changes pushed!"))),
            PushPc::Failing => {
                let r = copy_outcome(&self.outcome);
                self.finish(r)
            },
            PushPc::Finished => Action::Finish(copy_outcome(&self.outcome)),
        }
    }
}

/// The regex that finds the branch `branch` in what `git branch` lists.
fn branch_source(branch: &str) -> (p: String)
    ensures
        p@ == branch_pattern(branch@),
{
    owned("\\s*(").concat(branch).concat(")\\s*")
}

/// Whether a progress line is open while the push waits at `pc`.
pub open spec fn push_line_open(pc: PushPc) -> bool {
    match pc {
        PushPc::BranchBegun | PushPc::Branch | PushPc::Toplevel | PushPc::WorkfoldBegun
        | PushPc::Workfold | PushPc::UndoBegun | PushPc::Undo | PushPc::CheckBegun | PushPc::Hash
        | PushPc::Contains | PushPc::DiffBegun | PushPc::Diff | PushPc::OpBegun | PushPc::OpRun
        | PushPc::CheckinBegun | PushPc::Message | PushPc::Checkin => true,
        _ => false,
    }
}

proof fn lemma_next_change_progress(s: PushView)
    requires
        push_wf(s),
        change_patterns_compile() is Ok,
    ensures
        ({
            let (t, a) = next_change(s);
            &&& progress_ok(false, a, push_line_open(t.pc))
            &&& push_wf(t)
            &&& a is Finish ==> t.pc == PushPc::Finished && a->Finish_0 == t.outcome
        }),
    decreases s.diff.len() - s.next_line,
{
    if s.next_op >= s.ops.len() && s.next_line < s.diff.len() {
        match change_spec(s.diff[s.next_line as int], s.toplevel) {
            Err(e) => {},
            Ok(ops) => {
                lemma_next_change_progress(
                    PushView { next_line: s.next_line + 1, ops, next_op: 0, ..s },
                );
            },
        }
    }
}

/// A push keeps the discipline of the progress lines at every step, and
/// stays well formed.
pub proof fn lemma_push_progress(s: PushView, ev: Result<Seq<char>, Seq<char>>)
    requires
        push_wf(s),
    ensures
        ({
            let (t, a) = push_next(s, ev);
            &&& progress_ok(push_line_open(s.pc), a, push_line_open(t.pc))
            &&& push_wf(t)
        }),
{
    if s.pc == PushPc::DiffDone && change_patterns_compile() is Ok {
        lemma_next_change_progress(PushView { next_line: 0, ops: seq![], next_op: 0, ..s });
    } else if s.pc == PushPc::OpDone {
        lemma_next_change_progress(s);
    }
}

/// Once a push gives its result, it is over: it waits at `Finished` with
/// that result, and every later step gives the same result again.
pub proof fn lemma_push_result_is_final(s: PushView, ev: Result<Seq<char>, Seq<char>>)
    requires
        push_wf(s),
    ensures
        ({
            let (t, a) = push_next(s, ev);
            &&& a is Finish ==> t.pc == PushPc::Finished && a->Finish_0 == t.outcome
            &&& s.pc == PushPc::Finished ==> t == s && a == ActionView::Finish(s.outcome)
        }),
{
    if s.pc == PushPc::DiffDone && change_patterns_compile() is Ok {
        lemma_next_change_progress(PushView { next_line: 0, ops: seq![], next_op: 0, ..s });
    } else if s.pc == PushPc::OpDone {
        lemma_next_change_progress(s);
    }
}

/// The check-in comment is the one asked for, or, where none was, the whole
/// message of the last commit as git gives it back: the `tf checkin` that
/// follows carries `-comment:` and exactly that text, for the local folder
/// of the workfold.
pub proof fn lemma_checkin_comment(s: PushView, m: Seq<char>, ev: Result<Seq<char>, Seq<char>>)
    ensures
        s.pc == PushPc::Message ==> push_next(s, Ok(m)).1 == run_tf(
            seq!["checkin"@, "-comment:"@ + m, s.workfold.local],
        ),
        s.pc == PushPc::CheckinBegun && s.msg.len() > 0 ==> push_next(s, ev).1 == run_tf(
            seq!["checkin"@, "-comment:"@ + s.msg, s.workfold.local],
        ),
        s.pc == PushPc::CheckinBegun && s.msg.len() == 0 ==> push_next(s, ev).1 == run_git(
            seq!["log"@, "-n"@, "1"@, "--pretty=format:%B"@, s.workfold.local],
        ) && push_next(s, ev).0.pc == PushPc::Message,
{
}

} // verus!
