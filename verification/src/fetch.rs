use vstd::prelude::*;
use crate::command::{
    Action, ActionView, CommandView, run_git, run_tf, owned, git, tf, git2, begin,
    copy_outcome, progress_ok,
};
use crate::error::{Error, outcome};
use crate::history::{Commit, CommitView, history_spec, parse_history, commit_views};
use crate::pattern::regex_compile;
use crate::scan::{first_group, first_group_spec, check_pattern};
use crate::text::{lines, lines_of, views, joined, join, lemma_last_line};
use crate::workfold::{Workfold, WorkfoldView, workfold_spec, parse_workfold};

verus! {

/// Where a fetch stands: which answer it waits for.
#[derive(Debug, Clone, Copy, PartialEq, Eq, Structural)]
pub enum FetchPc {
    Start,
    Toplevel,
    WorkfoldBegun,
    Workfold,
    WorkfoldDone,
    UndoBegun,
    Undo,
    Uu,
    UndoDone,
    VersionsBegun,
    Latest,
    Last,
    History,
    HistoryDone,
    ChangesetsBegun,
    ChangesetsDone,
    Files,
    CommitBegun,
    Readonly,
    TfGet,
    GitAdd,
    Dated,
    Committed,
    CommitDone,
    Failing,
    Finished,
}

/// A fetch of the TFS changesets that the `tfs` branch lacks: for each, oldest
/// first, its files are fetched over the work tree and committed with its
/// comment, author and date.
pub struct Fetch {
    pc: FetchPc,
    version: String,
    toplevel: String,
    workfold: Workfold,
    vers: String,
    history: String,
    commits: Vec<Commit>,
    files: Vec<String>,
    remaining: usize,
    next_file: usize,
    outcome: Result<String, Error>,
}

/// A fetch by the text of what it holds.
pub struct FetchView {
    pub pc: FetchPc,
    /// The version asked for; empty for the latest.
    pub version: Seq<char>,
    pub toplevel: Seq<char>,
    pub workfold: WorkfoldView,
    /// The version fetched up to.
    pub vers: Seq<char>,
    pub history: Seq<char>,
    /// The changesets, newest first.
    pub commits: Seq<CommitView>,
    /// The files of the repository.
    pub files: Seq<Seq<char>>,
    /// How many changesets are left to commit, counting the one being
    /// committed: it is `commits[remaining]`.
    pub remaining: nat,
    pub next_file: nat,
    pub outcome: Result<Seq<char>, Seq<char>>,
}

impl View for Fetch {
    type V = FetchView;

    closed spec fn view(&self) -> FetchView {
        FetchView {
            pc: self.pc,
            version: self.version@,
            toplevel: self.toplevel@,
            workfold: self.workfold@,
            vers: self.vers@,
            history: self.history@,
            commits: commit_views(self.commits@),
            files: views(self.files@),
            remaining: self.remaining as nat,
            next_file: self.next_file as nat,
            outcome: outcome(self.outcome),
        }
    }
}

/// The first line of a short history that starts with the changeset number.
pub open spec fn latest_pattern() -> Seq<char> {
    "(^[0-9]+)"@
}

/// The trailer that names the changeset a commit was made from.
pub open spec fn last_pattern() -> Seq<char> {
    "\\s*git-tf-id:\\s*([0-9]+)\\s*"@
}

/// Whether the fetch is committing a changeset.
pub open spec fn committing(pc: FetchPc) -> bool {
    ||| pc == FetchPc::CommitBegun
    ||| pc == FetchPc::Readonly
    ||| pc == FetchPc::TfGet
    ||| pc == FetchPc::GitAdd
    ||| pc == FetchPc::Dated
    ||| pc == FetchPc::Committed
}

/// What every reachable fetch satisfies: its counters stay within what they
/// count.
pub open spec fn fetch_wf(s: FetchView) -> bool {
    &&& s.remaining <= s.commits.len()
    &&& s.next_file <= s.files.len()
    &&& committing(s.pc) ==> s.remaining < s.commits.len()
}

/// The fetch fails with `e`: the progress line is closed as failed first.
pub open spec fn fetch_fail(s: FetchView, e: Seq<char>) -> (FetchView, ActionView) {
    (FetchView { pc: FetchPc::Failing, outcome: Err(e), ..s }, ActionView::Abort)
}

/// The fetch is over with `r`.
pub open spec fn fetch_finish(s: FetchView, r: Result<Seq<char>, Seq<char>>) -> (
    FetchView,
    ActionView,
) {
    (FetchView { pc: FetchPc::Finished, outcome: r, ..s }, ActionView::Finish(r))
}

/// Asks git for the changeset that the `tfs` branch was last fetched up to.
pub open spec fn ask_last(s: FetchView) -> (FetchView, ActionView) {
    match regex_compile(last_pattern()) {
        Err(m) => fetch_fail(s, m),
        Ok(_) => (
            FetchView { pc: FetchPc::Last, ..s },
            run_git(
                seq![
                    "log"@,
                    "-n"@,
                    "1"@,
                    "tfs"@,
                    "--pretty=format:%B"@,
                    s.workfold.local,
                ],
            ),
        ),
    }
}

/// The range of versions to list: from the last one fetched, or from `vers`
/// where none was, up to `vers`.
pub open spec fn version_range(last: Seq<char>, vers: Seq<char>) -> Seq<char> {
    "-version:"@ + (if last.len() == 0 {
        vers
    } else {
        last
    }) + "~"@ + vers
}

/// The message of the commit made from a changeset: its comment, then a
/// trailer that names the changeset.
pub open spec fn commit_message(c: CommitView) -> Seq<char> {
    joined(c.comment, "\n"@) + "\n\ngit-tf-id: "@ + c.changeset
}

/// The author of the commit made from a changeset.
pub open spec fn commit_author(c: CommitView) -> Seq<char> {
    "--author="@ + c.user + " <noreply@topsystems.ru>"@
}

/// Starts on the next changeset to commit, the oldest left, or ends the
/// fetch when none is left.
pub open spec fn next_commit(s: FetchView) -> (FetchView, ActionView) {
    if s.remaining == 0 {
        fetch_finish(s, Ok("Changes fetched!"@))
    } else {
        let r = (s.remaining - 1) as nat;
        (
            FetchView { pc: FetchPc::CommitBegun, remaining: r, next_file: 0, ..s },
            ActionView::Begin("Commit changesets: "@ + s.commits[r as int].changeset),
        )
    }
}

/// Makes the next file of the repository read-only, or, when all are,
/// fetches the changeset's files.
pub open spec fn readonly_or_get(s: FetchView) -> (FetchView, ActionView) {
    if s.next_file < s.files.len() {
        (
            FetchView { pc: FetchPc::Readonly, next_file: s.next_file + 1, ..s },
            ActionView::Run(CommandView::MakeReadonly(s.toplevel, s.files[s.next_file as int])),
        )
    } else {
        (
            FetchView { pc: FetchPc::TfGet, ..s },
            run_tf(
                seq![
                    "get"@,
                    "-recursive"@,
                    "-overwrite"@,
                    "-version:"@ + s.commits[s.remaining as int].changeset,
                    "-force"@,
                    s.toplevel,
                ],
            ),
        )
    }
}

/// One step of a fetch: what it becomes and asks for, given the answer `ev`
/// to what it asked last.
pub open spec fn fetch_next(s: FetchView, ev: Result<Seq<char>, Seq<char>>) -> (
    FetchView,
    ActionView,
) {
    match s.pc {
        FetchPc::Start => (
            FetchView { pc: FetchPc::Toplevel, ..s },
            run_git(seq!["rev-parse"@, "--show-toplevel"@]),
        ),
        FetchPc::Toplevel => match ev {
            Err(e) => fetch_finish(s, Err(e)),
            Ok(t) => (
                FetchView { pc: FetchPc::WorkfoldBegun, toplevel: t, ..s },
                ActionView::Begin("Get workfold"@),
            ),
        },
        FetchPc::WorkfoldBegun => (
            FetchView { pc: FetchPc::Workfold, ..s },
            run_tf(seq!["workfold"@, s.toplevel]),
        ),
        FetchPc::Workfold => match ev {
            Err(e) => fetch_fail(s, e),
            Ok(out) => match workfold_spec(out, s.toplevel) {
                Err(e) => fetch_fail(s, e),
                Ok(w) => (FetchView { pc: FetchPc::WorkfoldDone, workfold: w, ..s }, ActionView::End),
            },
        },
        FetchPc::WorkfoldDone => (
            FetchView { pc: FetchPc::UndoBegun, ..s },
            ActionView::Begin("Undo workfold"@),
        ),
        FetchPc::UndoBegun => (
            FetchView { pc: FetchPc::Undo, ..s },
            run_tf(seq!["workfold"@, "undo"@, "-recursive"@, s.workfold.local]),
        ),
        FetchPc::Undo => match ev {
            Err(e) => fetch_fail(s, e),
            Ok(_) => (
                FetchView { pc: FetchPc::Uu, ..s },
                run_tf(seq!["workfold"@, "uu"@, "-recursive"@, s.workfold.local]),
            ),
        },
        FetchPc::Uu => match ev {
            Err(e) => fetch_fail(s, e),
            Ok(_) => (FetchView { pc: FetchPc::UndoDone, ..s }, ActionView::End),
        },
        FetchPc::UndoDone => (
            FetchView { pc: FetchPc::VersionsBegun, ..s },
            ActionView::Begin("Get versions"@),
        ),
        FetchPc::VersionsBegun => if s.version.len() == 0 {
            match regex_compile(latest_pattern()) {
                Err(m) => fetch_fail(s, m),
                Ok(_) => (
                    FetchView { pc: FetchPc::Latest, ..s },
                    run_tf(
                        seq![
                            "history"@,
                            "-collection:"@ + s.workfold.collection,
                            "-recursive"@,
                            "-stopafter:1"@,
                            s.workfold.remote,
                        ],
                    ),
                ),
            }
        } else {
            ask_last(FetchView { vers: s.version, ..s })
        },
        FetchPc::Latest => match ev {
            Err(e) => fetch_fail(s, e),
            Ok(out) => match first_group_spec(latest_pattern(), out, "Missing version"@) {
                Err(e) => fetch_fail(s, e),
                Ok(v) => ask_last(FetchView { vers: v, ..s }),
            },
        },
        FetchPc::Last => match ev {
            Err(e) => fetch_fail(s, e),
            Ok(out) => match first_group_spec(last_pattern(), out, "Missing last version"@) {
                Err(e) => fetch_fail(s, e),
                Ok(l) => (
                    FetchView { pc: FetchPc::History, ..s },
                    run_tf(
                        seq![
                            "history"@,
                            s.workfold.remote,
                            version_range(l, s.vers),
                            "-noprompt"@,
                            "-format:detailed"@,
                            "-recursive"@,
                        ],
                    ),
                ),
            },
        },
        FetchPc::History => match ev {
            Err(e) => fetch_fail(s, e),
            Ok(h) => (FetchView { pc: FetchPc::HistoryDone, history: h, ..s }, ActionView::End),
        },
        FetchPc::HistoryDone => (
            FetchView { pc: FetchPc::ChangesetsBegun, ..s },
            ActionView::Begin("Get changesets"@),
        ),
        FetchPc::ChangesetsBegun => match history_spec(s.history) {
            Err(e) => fetch_fail(s, e),
            Ok(cs) => (
                FetchView { pc: FetchPc::ChangesetsDone, commits: cs, remaining: 0, ..s },
                ActionView::End,
            ),
        },
        FetchPc::ChangesetsDone => (
            FetchView { pc: FetchPc::Files, ..s },
            run_git(seq!["ls-files"@, "--full-name"@, s.toplevel]),
        ),
        FetchPc::Files => match ev {
            Err(e) => fetch_finish(s, Err(e)),
            Ok(f) => next_commit(
                FetchView {
                    files: lines_of(f),
                    remaining: s.commits.len(),
                    next_file: 0,
                    ..s
                },
            ),
        },
        FetchPc::CommitBegun => readonly_or_get(s),
        FetchPc::Readonly => match ev {
            Err(e) => fetch_fail(s, e),
            Ok(_) => readonly_or_get(s),
        },
        FetchPc::TfGet => match ev {
            Err(e) => fetch_fail(s, e),
            Ok(_) => (FetchView { pc: FetchPc::GitAdd, ..s }, run_git(seq!["add"@, s.toplevel])),
        },
        FetchPc::GitAdd => match ev {
            Err(e) => fetch_fail(s, e),
            Ok(_) => (
                FetchView { pc: FetchPc::Dated, ..s },
                ActionView::Date(s.commits[s.remaining as int].date),
            ),
        },
        FetchPc::Dated => match ev {
            Err(e) => fetch_fail(s, e),
            Ok(d) => (
                FetchView { pc: FetchPc::Committed, ..s },
                run_git(
                    seq![
                        "commit"@,
                        "-n"@,
                        "-m"@,
                        commit_message(s.commits[s.remaining as int]),
                        "--date="@ + d,
                        commit_author(s.commits[s.remaining as int]),
                    ],
                ),
            ),
        },
        FetchPc::Committed => match ev {
            Err(e) => fetch_fail(s, e),
            Ok(_) => (FetchView { pc: FetchPc::CommitDone, ..s }, ActionView::End),
        },
        FetchPc::CommitDone => next_commit(s),
        FetchPc::Failing => fetch_finish(s, s.outcome),
        FetchPc::Finished => (s, ActionView::Finish(s.outcome)),
    }
}

/// The fetch as it starts, for the version `version` (empty for the latest).
pub open spec fn fetch_start(version: Seq<char>) -> FetchView {
    FetchView {
        pc: FetchPc::Start,
        version,
        toplevel: seq![],
        workfold: WorkfoldView { workspace: seq![], collection: seq![], remote: seq![], local: seq![] },
        vers: seq![],
        history: seq![],
        commits: seq![],
        files: seq![],
        remaining: 0,
        next_file: 0,
        outcome: Ok(seq![]),
    }
}

impl Fetch {
    /// A fetch up to `version`, or up to the latest changeset where it is
    /// empty.
    pub fn new(version: &str) -> (f: Fetch)
        ensures
            f@ == fetch_start(version@),
            fetch_wf(f@),
    {
        let f = Fetch {
            pc: FetchPc::Start,
            version: owned(version),
            toplevel: String::new(),
            workfold: Workfold {
                workspace: String::new(),
                collection: String::new(),
                remote: String::new(),
                local: String::new(),
            },
            vers: String::new(),
            history: String::new(),
            commits: Vec::new(),
            files: Vec::new(),
            remaining: 0,
            next_file: 0,
            outcome: Ok(String::new()),
        };
        assert(commit_views(f.commits@) =~= seq![]);
        assert(views(f.files@) =~= seq![]);
        f
    }

    fn fail(&mut self, e: Error) -> (a: Action)
        ensures
            (final(self)@, a@) == fetch_fail(old(self)@, e@),
    {
        self.pc = FetchPc::Failing;
        self.outcome = Err(e);
        Action::Abort
    }

    fn finish(&mut self, r: Result<String, Error>) -> (a: Action)
        ensures
            (final(self)@, a@) == fetch_finish(old(self)@, outcome(r)),
    {
        self.pc = FetchPc::Finished;
        self.outcome = copy_outcome(&r);
        Action::Finish(r)
    }

    fn ask_last(&mut self) -> (a: Action)
        ensures
            (final(self)@, a@) == ask_last(old(self)@),
    {
        match check_pattern("\\s*git-tf-id:\\s*([0-9]+)\\s*") {
            Err(e) => self.fail(e),
            Ok(_) => {
                self.pc = FetchPc::Last;
                let args = vec![
                    owned("log"),
                    owned("-n"),
                    owned("1"),
                    owned("tfs"),
                    owned("--pretty=format:%B"),
                    self.workfold.local.clone(),
                ];
                assert(views(args@) =~= seq![
                    "log"@,
                    "-n"@,
                    "1"@,
                    "tfs"@,
                    "--pretty=format:%B"@,
                    self.workfold.local@,
                ]);
                git(args)
            },
        }
    }

    fn next_commit(&mut self) -> (a: Action)
        requires
            fetch_wf(old(self)@),
        ensures
            (final(self)@, a@) == next_commit(old(self)@),
    {
        if self.remaining == 0 {
            self.finish(Ok(owned("Changes fetched!")))
        } else {
            self.remaining = self.remaining - 1;
            self.next_file = 0;
            self.pc = FetchPc::CommitBegun;
            Action::Begin(
                owned("Commit changesets: ").concat(self.commits[self.remaining].changeset.as_str()),
            )
        }
    }

    fn readonly_or_get(&mut self) -> (a: Action)
        requires
            fetch_wf(old(self)@),
            old(self).remaining < old(self).commits@.len(),
        ensures
            (final(self)@, a@) == readonly_or_get(old(self)@),
    {
        if self.next_file < self.files.len() {
            let file = self.files[self.next_file].clone();
            self.next_file = self.next_file + 1;
            self.pc = FetchPc::Readonly;
            Action::Run(crate::command::Command::MakeReadonly(self.toplevel.clone(), file))
        } else {
            self.pc = FetchPc::TfGet;
            let args = vec![
                owned("get"),
                owned("-recursive"),
                owned("-overwrite"),
                owned("-version:").concat(self.commits[self.remaining].changeset.as_str()),
                owned("-force"),
                self.toplevel.clone(),
            ];
            assert(views(args@) =~= seq![
                "get"@,
                "-recursive"@,
                "-overwrite"@,
                "-version:"@ + self.commits@[self.remaining as int].changeset@,
                "-force"@,
                self.toplevel@,
            ]);
            tf(args)
        }
    }

    /// Takes the answer to the last action and gives the next one.
    pub fn step(&mut self, event: Result<String, Error>) -> (a: Action)
        requires
            fetch_wf(old(self)@),
        ensures
            (final(self)@, a@) == fetch_next(old(self)@, outcome(event)),
            fetch_wf(final(self)@),
    {
        match self.pc {
            FetchPc::Start => {
                self.pc = FetchPc::Toplevel;
                git2("rev-parse", "--show-toplevel")
            },
            FetchPc::Toplevel => match event {
                Err(e) => self.finish(Err(e)),
                Ok(t) => {
                    self.toplevel = t;
                    self.pc = FetchPc::WorkfoldBegun;
                    begin("Get workfold")
                },
            },
            FetchPc::WorkfoldBegun => {
                self.pc = FetchPc::Workfold;
                let args = vec![owned("workfold"), self.toplevel.clone()];
                assert(views(args@) =~= seq!["workfold"@, self.toplevel@]);
                tf(args)
            },
            FetchPc::Workfold => match event {
                Err(e) => self.fail(e),
                Ok(out) => match parse_workfold(out.as_str(), self.toplevel.as_str()) {
                    Err(e) => self.fail(e),
                    Ok(w) => {
                        self.workfold = w;
                        self.pc = FetchPc::WorkfoldDone;
                        Action::End
                    },
                },
            },
            FetchPc::WorkfoldDone => {
                self.pc = FetchPc::UndoBegun;
                begin("Undo workfold")
            },
            FetchPc::UndoBegun => {
                self.pc = FetchPc::Undo;
                let args = vec![
                    owned("workfold"),
                    owned("undo"),
                    owned("-recursive"),
                    self.workfold.local.clone(),
                ];
                assert(views(args@) =~= seq![
                    "workfold"@,
                    "undo"@,
                    "-recursive"@,
                    self.workfold.local@,
                ]);
                tf(args)
            },
            FetchPc::Undo => match event {
                Err(e) => self.fail(e),
                Ok(_) => {
                    self.pc = FetchPc::Uu;
                    let args = vec![
                        owned("workfold"),
                        owned("uu"),
                        owned("-recursive"),
                        self.workfold.local.clone(),
                    ];
                    assert(views(args@) =~= seq![
                        "workfold"@,
                        "uu"@,
                        "-recursive"@,
                        self.workfold.local@,
                    ]);
                    tf(args)
                },
            },
            FetchPc::Uu => match event {
                Err(e) => self.fail(e),
                Ok(_) => {
                    self.pc = FetchPc::UndoDone;
                    Action::End
                },
            },
            FetchPc::UndoDone => {
                self.pc = FetchPc::VersionsBegun;
                begin("Get versions")
            },
            FetchPc::VersionsBegun => {
                if self.version.as_str().is_empty() {
                    match check_pattern("(^[0-9]+)") {
                        Err(e) => self.fail(e),
                        Ok(_) => {
                            self.pc = FetchPc::Latest;
                            let args = vec![
                                owned("history"),
                                owned("-collection:").concat(self.workfold.collection.as_str()),
                                owned("-recursive"),
                                owned("-stopafter:1"),
                                self.workfold.remote.clone(),
                            ];
                            assert(views(args@) =~= seq![
                                "history"@,
                                "-collection:"@ + self.workfold.collection@,
                                "-recursive"@,
                                "-stopafter:1"@,
                                self.workfold.remote@,
                            ]);
                            tf(args)
                        },
                    }
                } else {
                    self.vers = self.version.clone();
                    self.ask_last()
                }
            },
            FetchPc::Latest => match event {
                Err(e) => self.fail(e),
                Ok(out) => match first_group("(^[0-9]+)", out.as_str(), "Missing version") {
                    Err(e) => self.fail(e),
                    Ok(v) => {
                        self.vers = v;
                        self.ask_last()
                    },
                },
            },
            FetchPc::Last => match event {
                Err(e) => self.fail(e),
                Ok(out) => match first_group(
                    "\\s*git-tf-id:\\s*([0-9]+)\\s*",
                    out.as_str(),
                    "Missing last version",
                ) {
                    Err(e) => self.fail(e),
                    Ok(l) => {
                        self.pc = FetchPc::History;
                        let from = if l.as_str().is_empty() {
                            self.vers.clone()
                        } else {
                            l
                        };
                        let range = owned("-version:").concat(from.as_str()).concat("~").concat(
                            self.vers.as_str(),
                        );
                        let args = vec![
                            owned("history"),
                            self.workfold.remote.clone(),
                            range,
                            owned("-noprompt"),
                            owned("-format:detailed"),
                            owned("-recursive"),
                        ];
                        assert(views(args@) =~= seq![
                            "history"@,
                            self.workfold.remote@,
                            version_range(l@, self.vers@),
                            "-noprompt"@,
                            "-format:detailed"@,
                            "-recursive"@,
                        ]);
                        tf(args)
                    },
                },
            },
            FetchPc::History => match event {
                Err(e) => self.fail(e),
                Ok(h) => {
                    self.history = h;
                    self.pc = FetchPc::HistoryDone;
                    Action::End
                },
            },
            FetchPc::HistoryDone => {
                self.pc = FetchPc::ChangesetsBegun;
                begin("Get changesets")
            },
            FetchPc::ChangesetsBegun => match parse_history(self.history.as_str()) {
                Err(e) => self.fail(e),
                Ok(cs) => {
                    self.commits = cs;
                    self.remaining = 0;
                    self.pc = FetchPc::ChangesetsDone;
                    Action::End
                },
            },
            FetchPc::ChangesetsDone => {
                self.pc = FetchPc::Files;
                let args = vec![owned("ls-files"), owned("--full-name"), self.toplevel.clone()];
                assert(views(args@) =~= seq!["ls-files"@, "--full-name"@, self.toplevel@]);
                git(args)
            },
            FetchPc::Files => match event {
                Err(e) => self.finish(Err(e)),
                Ok(f) => {
                    self.files = lines(f.as_str());
                    self.remaining = self.commits.len();
                    self.next_file = 0;
                    self.next_commit()
                },
            },
            FetchPc::CommitBegun => self.readonly_or_get(),
            FetchPc::Readonly => match event {
                Err(e) => self.fail(e),
                Ok(_) => self.readonly_or_get(),
            },
            FetchPc::TfGet => match event {
                Err(e) => self.fail(e),
                Ok(_) => {
                    self.pc = FetchPc::GitAdd;
                    let args = vec![owned("add"), self.toplevel.clone()];
                    assert(views(args@) =~= seq!["add"@, self.toplevel@]);
                    git(args)
                },
            },
            FetchPc::GitAdd => match event {
                Err(e) => self.fail(e),
                Ok(_) => {
                    self.pc = FetchPc::Dated;
                    Action::Date(self.commits[self.remaining].date.clone())
                },
            },
            FetchPc::Dated => match event {
                Err(e) => self.fail(e),
                Ok(d) => {
                    self.pc = FetchPc::Committed;
                    let c = &self.commits[self.remaining];
                    let message = join(&c.comment, "\n").concat("\n\ngit-tf-id: ").concat(
                        c.changeset.as_str(),
                    );
                    let author = owned("--author=").concat(c.user.as_str()).concat(
                        " <noreply@topsystems.ru>",
                    );
                    let args = vec![
                        owned("commit"),
                        owned("-n"),
                        owned("-m"),
                        message,
                        owned("--date=").concat(d.as_str()),
                        author,
                    ];
                    assert(views(args@) =~= seq![
                        "commit"@,
                        "-n"@,
                        "-m"@,
                        commit_message(self.commits@[self.remaining as int]@),
                        "--date="@ + d@,
                        commit_author(self.commits@[self.remaining as int]@),
                    ]);
                    git(args)
                },
            },
            FetchPc::Committed => match event {
                Err(e) => self.fail(e),
                Ok(_) => {
                    self.pc = FetchPc::CommitDone;
                    Action::End
                },
            },
            FetchPc::CommitDone => self.next_commit(),
            FetchPc::Failing => {
                let r = copy_outcome(&self.outcome);
                self.finish(r)
            },
            FetchPc::Finished => Action::Finish(copy_outcome(&self.outcome)),
        }
    }
}

/// Whether a progress line is open while the fetch waits at `pc`.
pub open spec fn fetch_line_open(pc: FetchPc) -> bool {
    match pc {
        FetchPc::WorkfoldBegun | FetchPc::Workfold | FetchPc::UndoBegun | FetchPc::Undo
        | FetchPc::Uu | FetchPc::VersionsBegun | FetchPc::Latest | FetchPc::Last
        | FetchPc::History | FetchPc::ChangesetsBegun => true,
        _ => committing(pc),
    }
}

/// A fetch keeps the discipline of the progress lines at every step, and
/// keeps its counters within what they count.
pub proof fn lemma_fetch_progress(s: FetchView, ev: Result<Seq<char>, Seq<char>>)
    requires
        fetch_wf(s),
    ensures
        ({
            let (t, a) = fetch_next(s, ev);
            &&& progress_ok(fetch_line_open(s.pc), a, fetch_line_open(t.pc))
            &&& fetch_wf(t)
        }),
{
}

/// Once a fetch gives its result, it is over: it waits at `Finished` with
/// that result, and every later step gives the same result again.
pub proof fn lemma_fetch_result_is_final(s: FetchView, ev: Result<Seq<char>, Seq<char>>)
    ensures
        ({
            let (t, a) = fetch_next(s, ev);
            &&& a is Finish ==> t.pc == FetchPc::Finished && a->Finish_0 == t.outcome
            &&& s.pc == FetchPc::Finished ==> t == s && a == ActionView::Finish(s.outcome)
        }),
{
}

/// Changesets are committed oldest first: TFS lists them newest first, and
/// the fetch starts on the last of the list, then on the one before the one
/// it has just committed, until none is left.
pub proof fn lemma_fetch_oldest_first(s: FetchView, ev: Result<Seq<char>, Seq<char>>)
    requires
        fetch_wf(s),
        s.pc == FetchPc::Files && ev is Ok || s.pc == FetchPc::CommitDone,
    ensures
        ({
            let (t, a) = fetch_next(s, ev);
            let left = if s.pc == FetchPc::Files {
                s.commits.len()
            } else {
                s.remaining
            };
            &&& left > 0 ==> t.remaining == left - 1 && a == ActionView::Begin(
                "Commit changesets: "@ + s.commits[left - 1].changeset,
            )
            &&& left == 0 ==> a == ActionView::Finish(Ok("Changes fetched!"@))
        }),
{
}

/// The last line of the message of the commit made from a changeset is the
/// trailer `git-tf-id: <changeset>`, the line that a later fetch reads to
/// learn where the `tfs` branch stands.
pub proof fn lemma_trailer_is_last_line(c: CommitView)
    requires
        forall|j: int| 0 <= j < c.changeset.len() ==> c.changeset[j] != '\n',
    ensures
        lines_of(commit_message(c)).len() > 0,
        lines_of(commit_message(c)).last() == "git-tf-id: "@ + c.changeset,
{
    reveal_strlit("\n\ngit-tf-id: ");
    reveal_strlit("git-tf-id: ");
    let t = "git-tf-id: "@ + c.changeset;
    let a = joined(c.comment, "\n"@).push('\n');
    assert(commit_message(c) =~= a.push('\n') + t);
    lemma_last_line(a, t);
}

/// A fetch resumes where the last one ended: when git gives back the message
/// of the commit that a fetch made from changeset `c`, and the trailer
/// pattern reads `c`'s number back from it, the history is listed from that
/// changeset up to the version fetched.
pub proof fn lemma_resume_from_trailer(s: FetchView, c: CommitView)
    requires
        s.pc == FetchPc::Last,
        c.changeset.len() > 0,
        first_group_spec(last_pattern(), commit_message(c), "Missing last version"@) == Ok::<
            Seq<char>,
            Seq<char>,
        >(c.changeset),
    ensures
        fetch_next(s, Ok(commit_message(c))).1 == run_tf(
            seq![
                "history"@,
                s.workfold.remote,
                "-version:"@ + c.changeset + "~"@ + s.vers,
                "-noprompt"@,
                "-format:detailed"@,
                "-recursive"@,
            ],
        ),
{
}

/// The fetch started for `version` after answering it with `evs`, in order.
pub open spec fn fetch_run(version: Seq<char>, evs: Seq<Result<Seq<char>, Seq<char>>>) -> FetchView
    decreases evs.len(),
{
    if evs.len() == 0 {
        fetch_start(version)
    } else {
        fetch_next(fetch_run(version, evs.drop_last()), evs.last()).0
    }
}

/// Whether the fetch has learnt the version it fetches up to.
pub open spec fn knows_upper_bound(pc: FetchPc) -> bool {
    match pc {
        FetchPc::Last | FetchPc::History | FetchPc::HistoryDone | FetchPc::ChangesetsBegun
        | FetchPc::ChangesetsDone | FetchPc::Files | FetchPc::CommitDone => true,
        _ => committing(pc),
    }
}

/// What a run keeps of the version asked for.
pub open spec fn keeps_request(s: FetchView, version: Seq<char>) -> bool {
    &&& s.version == version
    &&& s.pc == FetchPc::Latest ==> version.len() == 0
    &&& knows_upper_bound(s.pc) && version.len() > 0 ==> s.vers == version
}

proof fn lemma_run_keeps_request(version: Seq<char>, evs: Seq<Result<Seq<char>, Seq<char>>>)
    ensures
        keeps_request(fetch_run(version, evs), version),
    decreases evs.len(),
{
    if evs.len() > 0 {
        lemma_run_keeps_request(version, evs.drop_last());
    }
}

/// A fetch asked for a version `v` lists the history up to `v`: whatever
/// answers came before, once it has read the trailer `l` of the last commit
/// of the `tfs` branch, it asks `tf history` for the range from `l` to `v`.
pub proof fn lemma_range_ends_at_requested_version(
    v: Seq<char>,
    evs: Seq<Result<Seq<char>, Seq<char>>>,
    out: Seq<char>,
    l: Seq<char>,
)
    requires
        v.len() > 0,
        l.len() > 0,
        fetch_run(v, evs).pc == FetchPc::Last,
        first_group_spec(last_pattern(), out, "Missing last version"@) == Ok::<Seq<char>, Seq<char>>(
            l,
        ),
    ensures
        fetch_next(fetch_run(v, evs), Ok(out)).1 == run_tf(
            seq![
                "history"@,
                fetch_run(v, evs).workfold.remote,
                "-version:"@ + l + "~"@ + v,
                "-noprompt"@,
                "-format:detailed"@,
                "-recursive"@,
            ],
        ),
{
    lemma_run_keeps_request(v, evs);
}

/// A fetch asked for no version lists the history up to the latest
/// changeset: the number it reads from the short history is the version it
/// fetches up to.
pub proof fn lemma_latest_is_upper_bound(s: FetchView, out: Seq<char>, n: Seq<char>)
    requires
        s.pc == FetchPc::Latest,
        regex_compile(last_pattern()) is Ok,
        first_group_spec(latest_pattern(), out, "Missing version"@) == Ok::<Seq<char>, Seq<char>>(n),
    ensures
        fetch_next(s, Ok(out)).0.pc == FetchPc::Last,
        fetch_next(s, Ok(out)).0.vers == n,
{
}

} // verus!
