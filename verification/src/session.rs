use vstd::prelude::*;
use crate::command::{Action, ActionView, owned, progress_ok};
use crate::error::{Error, outcome};
use crate::fetch_tfs::{
    FetchTfs, FetchTfsView, fetch_tfs, fetch_tfs_next, fetch_tfs_start, fetch_tfs_wf,
    fetch_tfs_line_open, lemma_fetch_tfs_progress, lemma_fetch_tfs_result_is_final,
};
use crate::push::{
    Push, PushView, push, push_next, push_start, push_wf, push_line_open, lemma_push_progress,
    lemma_push_result_is_final,
};

verus! {

/// What the command line asked for.
pub enum Session {
    /// `fetch [version]`.
    Fetch(FetchTfs),
    /// `push [comment]`.
    Push(Push),
    /// Anything else.
    Unknown,
}

/// A session by the text of what it holds.
pub enum SessionView {
    Fetch(FetchTfsView),
    Push(PushView),
    Unknown,
}

impl View for Session {
    type V = SessionView;

    open spec fn view(&self) -> SessionView {
        match self {
            Session::Fetch(f) => SessionView::Fetch(f@),
            Session::Push(p) => SessionView::Push(p@),
            Session::Unknown => SessionView::Unknown,
        }
    }
}

/// The session that the command `command` with the argument `arg` starts.
pub open spec fn session_start(command: Seq<char>, arg: Seq<char>) -> SessionView {
    if command == "fetch"@ {
        SessionView::Fetch(fetch_tfs_start(arg))
    } else if command == "push"@ {
        SessionView::Push(push_start(arg))
    } else {
        SessionView::Unknown
    }
}

/// What every reachable session satisfies.
pub open spec fn session_wf(s: SessionView) -> bool {
    match s {
        SessionView::Fetch(f) => fetch_tfs_wf(f),
        SessionView::Push(p) => push_wf(p),
        SessionView::Unknown => true,
    }
}

/// One step of a session.
pub open spec fn session_next(s: SessionView, ev: Result<Seq<char>, Seq<char>>) -> (
    SessionView,
    ActionView,
) {
    match s {
        SessionView::Fetch(f) => {
            let (g, a) = fetch_tfs_next(f, ev);
            (SessionView::Fetch(g), a)
        },
        SessionView::Push(p) => {
            let (q, a) = push_next(p, ev);
            (SessionView::Push(q), a)
        },
        SessionView::Unknown => (SessionView::Unknown, ActionView::Finish(Err("No command!"@))),
    }
}

impl Session {
    /// The session for the command `command` and its argument `arg`, as the
    /// command line gives them.
    pub fn start(command: &str, arg: &str) -> (s: Session)
        ensures
            s@ == session_start(command@, arg@),
            session_wf(s@),
    {
        let c = owned(command);
        if c == owned("fetch") {
            Session::Fetch(fetch_tfs(arg))
        } else if c == owned("push") {
            Session::Push(push(arg))
        } else {
            Session::Unknown
        }
    }

    /// Takes the answer to the last action and gives the next one.
    pub fn step(&mut self, event: Result<String, Error>) -> (a: Action)
        requires
            session_wf(old(self)@),
        ensures
            (final(self)@, a@) == session_next(old(self)@, outcome(event)),
            session_wf(final(self)@),
    {
        match self {
            Session::Fetch(f) => f.step(event),
            Session::Push(p) => p.step(event),
            Session::Unknown => Action::Finish(Err(Error::new("No command!"))),
        }
    }
}

/// Whether a progress line is open while the session waits.
pub open spec fn session_line_open(s: SessionView) -> bool {
    match s {
        SessionView::Fetch(f) => fetch_tfs_line_open(f),
        SessionView::Push(p) => push_line_open(p.pc),
        SessionView::Unknown => false,
    }
}

/// Whether the session has given its result.
pub open spec fn session_finished(s: SessionView) -> bool {
    match s {
        SessionView::Fetch(f) => f.pc == crate::fetch_tfs::FetchTfsPc::Finished,
        SessionView::Push(p) => p.pc == crate::push::PushPc::Finished,
        SessionView::Unknown => true,
    }
}

/// At every step of every session, a progress line opens only where none is
/// open and closes only where one is, none is open when the session gives
/// its result, and once it has given one it gives the same one at every
/// later step.
pub proof fn lemma_session_progress(s: SessionView, ev: Result<Seq<char>, Seq<char>>)
    requires
        session_wf(s),
    ensures
        ({
            let (t, a) = session_next(s, ev);
            &&& progress_ok(session_line_open(s), a, session_line_open(t))
            &&& session_wf(t)
            &&& a is Finish ==> session_finished(t)
            &&& session_finished(s) ==> t == s && a is Finish
        }),
{
    match s {
        SessionView::Fetch(f) => {
            lemma_fetch_tfs_progress(f, ev);
            lemma_fetch_tfs_result_is_final(f, ev);
        },
        SessionView::Push(p) => {
            lemma_push_progress(p, ev);
            lemma_push_result_is_final(p, ev);
        },
        SessionView::Unknown => {},
    }
}

/// The command line decides the session: `fetch` fetches up to the version
/// given as its argument (the latest where it is empty), `push` checks in
/// with the comment given as its argument, and anything else is no session.
pub proof fn lemma_command_line(command: Seq<char>, arg: Seq<char>)
    ensures
        command == "fetch"@ ==> (session_start(command, arg) matches SessionView::Fetch(f) && f.pc
            == crate::fetch_tfs::FetchTfsPc::Start && f.fetch.version == arg && f.fetch.pc
            == crate::fetch::FetchPc::Start),
        command == "push"@ ==> (session_start(command, arg) matches SessionView::Push(p) && p.pc
            == crate::push::PushPc::Start && p.msg == arg),
        command != "fetch"@ && command != "push"@ ==> session_start(command, arg)
            == SessionView::Unknown,
{
    reveal_strlit("fetch");
    reveal_strlit("push");
    assert("push"@.len() != "fetch"@.len());
}

} // verus!
