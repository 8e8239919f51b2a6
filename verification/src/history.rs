use vstd::prelude::*;
use crate::error::Error;
use crate::pattern::{Matcher, regex_compile, regex_captures, regex_find, group, compile, captures, find, group_of};
use crate::text::{lines, lines_of, trim, trimmed, views, is_trimmed, lemma_trimmed};

verus! {

/// A changeset of the TFS history, as `tf history -format:detailed` lists it.
#[derive(Debug, PartialEq, Eq)]
pub struct Commit {
    pub user: String,
    pub date: String,
    /// The lines of the check-in comment, each trimmed.
    pub comment: Vec<String>,
    pub changeset: String,
}

/// A changeset by the text of its fields.
pub struct CommitView {
    pub user: Seq<char>,
    pub date: Seq<char>,
    pub comment: Seq<Seq<char>>,
    pub changeset: Seq<char>,
}

impl View for Commit {
    type V = CommitView;

    open spec fn view(&self) -> CommitView {
        CommitView {
            user: self.user@,
            date: self.date@,
            comment: views(self.comment@),
            changeset: self.changeset@,
        }
    }
}

/// A changeset with every field empty.
pub open spec fn blank_commit() -> CommitView {
    CommitView { user: seq![], date: seq![], comment: seq![], changeset: seq![] }
}

impl Commit {
    /// A changeset with every field empty.
    pub fn blank() -> (c: Commit)
        ensures
            c@ == blank_commit(),
    {
        let c = Commit {
            user: String::new(),
            date: String::new(),
            comment: Vec::new(),
            changeset: String::new(),
        };
        assert(views(c.comment@) =~= seq![]);
        c
    }
}

/// The line that starts a changeset.
pub open spec fn changeset_pattern() -> Seq<char> {
    "\\s*Changeset:\\s*([\\S\\s]*)\\s*"@
}

/// The line that names the author.
pub open spec fn user_pattern() -> Seq<char> {
    "\\s*User:\\s*([\\S\\s]*)\\s*"@
}

/// The line that gives the date.
pub open spec fn date_pattern() -> Seq<char> {
    "\\s*Date:\\s*([\\S\\s]*)\\s*"@
}

/// The line after which the comment follows.
pub open spec fn comment_pattern() -> Seq<char> {
    "\\s*Comment:\\s*"@
}

/// The line that ends the comment.
pub open spec fn items_pattern() -> Seq<char> {
    "\\s*Items:\\s*"@
}

/// The comment lines that are left out.
pub open spec fn no_ci_pattern() -> Seq<char> {
    "\\s***NO_CI***\\s"@
}

/// Where a reading of the history stands: the changesets read so far, the
/// one being read, and whether its comment is being read.
pub struct HistoryScan {
    pub commits: Seq<CommitView>,
    pub current: CommitView,
    pub in_comment: bool,
}

/// Reads one line of the history.
pub open spec fn history_step(st: HistoryScan, line: Seq<char>) -> Result<HistoryScan, Seq<char>> {
    if st.in_comment {
        if regex_find(items_pattern(), line) is Some {
            Ok(HistoryScan { commits: st.commits.push(st.current), current: blank_commit(), in_comment: false })
        } else if regex_find(no_ci_pattern(), line) is Some {
            Ok(st)
        } else {
            Ok(HistoryScan {
                current: CommitView { comment: st.current.comment.push(trimmed(line)), ..st.current },
                ..st
            })
        }
    } else if let Some(c) = regex_captures(changeset_pattern(), line) {
        match group(c, 1) {
            Some(g) => Ok(HistoryScan { current: CommitView { changeset: trimmed(g), ..st.current }, ..st }),
            None => Err("Missing changeset"@),
        }
    } else if let Some(c) = regex_captures(user_pattern(), line) {
        match group(c, 1) {
            Some(g) => Ok(HistoryScan { current: CommitView { user: trimmed(g), ..st.current }, ..st }),
            None => Err("Missing user"@),
        }
    } else if let Some(c) = regex_captures(date_pattern(), line) {
        match group(c, 1) {
            Some(g) => Ok(HistoryScan { current: CommitView { date: trimmed(g), ..st.current }, ..st }),
            None => Err("Missing date"@),
        }
    } else if regex_find(comment_pattern(), line) is Some {
        Ok(HistoryScan { in_comment: true, ..st })
    } else {
        Ok(st)
    }
}

/// Reads the lines one after the other, from the start.
pub open spec fn history_scan(ls: Seq<Seq<char>>) -> Result<HistoryScan, Seq<char>>
    decreases ls.len(),
{
    if ls.len() == 0 {
        Ok(HistoryScan { commits: seq![], current: blank_commit(), in_comment: false })
    } else {
        match history_scan(ls.drop_last()) {
            Ok(st) => history_step(st, ls.last()),
            Err(e) => Err(e),
        }
    }
}

/// The first of the history's patterns that does not compile, if any.
pub open spec fn history_patterns_compile() -> Result<(), Seq<char>> {
    match regex_compile(changeset_pattern()) {
        Err(m) => Err(m),
        Ok(_) => match regex_compile(user_pattern()) {
            Err(m) => Err(m),
            Ok(_) => match regex_compile(date_pattern()) {
                Err(m) => Err(m),
                Ok(_) => match regex_compile(comment_pattern()) {
                    Err(m) => Err(m),
                    Ok(_) => match regex_compile(items_pattern()) {
                        Err(m) => Err(m),
                        Ok(_) => regex_compile(no_ci_pattern()),
                    },
                },
            },
        },
    }
}

/// The changesets that a detailed history lists: each ends at its `Items:`
/// line; one that is not ended is not listed.
pub open spec fn history_spec(text: Seq<char>) -> Result<Seq<CommitView>, Seq<char>> {
    match history_patterns_compile() {
        Err(m) => Err(m),
        Ok(_) => match history_scan(lines_of(text)) {
            Ok(st) => Ok(st.commits),
            Err(e) => Err(e),
        },
    }
}

/// A reading that fails on some prefix of the lines fails on all of them,
/// with the same error.
proof fn lemma_scan_error_persists(ls: Seq<Seq<char>>, k: int)
    requires
        0 <= k <= ls.len(),
        history_scan(ls.take(k)) is Err,
    ensures
        history_scan(ls) == history_scan(ls.take(k)),
    decreases ls.len() - k,
{
    if k < ls.len() {
        assert(ls.take(k + 1).drop_last() =~= ls.take(k));
        lemma_scan_error_persists(ls, k + 1);
    } else {
        assert(ls.take(k) =~= ls);
    }
}

/// The views of a sequence of changesets.
pub open spec fn commit_views(v: Seq<Commit>) -> Seq<CommitView> {
    v.map_values(|c: Commit| c@)
}

/// The compiled patterns of the history.
struct HistoryMatchers {
    changeset: Matcher,
    user: Matcher,
    date: Matcher,
    comment: Matcher,
    items: Matcher,
    no_ci: Matcher,
}

impl HistoryMatchers {
    spec fn wf(&self) -> bool {
        &&& self.changeset.pattern() == changeset_pattern()
        &&& self.user.pattern() == user_pattern()
        &&& self.date.pattern() == date_pattern()
        &&& self.comment.pattern() == comment_pattern()
        &&& self.items.pattern() == items_pattern()
        &&& self.no_ci.pattern() == no_ci_pattern()
    }
}

fn history_matchers() -> (res: Result<HistoryMatchers, Error>)
    ensures
        match res {
            Ok(h) => h.wf() && history_patterns_compile() is Ok,
            Err(e) => history_patterns_compile() == Err::<(), Seq<char>>(e@),
        },
{
    let changeset = match compile("\\s*Changeset:\\s*([\\S\\s]*)\\s*") {
        Ok(m) => m,
        Err(msg) => return Err(Error(msg)),
    };
    let user = match compile("\\s*User:\\s*([\\S\\s]*)\\s*") {
        Ok(m) => m,
        Err(msg) => return Err(Error(msg)),
    };
    let date = match compile("\\s*Date:\\s*([\\S\\s]*)\\s*") {
        Ok(m) => m,
        Err(msg) => return Err(Error(msg)),
    };
    let comment = match compile("\\s*Comment:\\s*") {
        Ok(m) => m,
        Err(msg) => return Err(Error(msg)),
    };
    let items = match compile("\\s*Items:\\s*") {
        Ok(m) => m,
        Err(msg) => return Err(Error(msg)),
    };
    let no_ci = match compile("\\s***NO_CI***\\s") {
        Ok(m) => m,
        Err(msg) => return Err(Error(msg)),
    };
    Ok(HistoryMatchers { changeset, user, date, comment, items, no_ci })
}

/// Reads the output of `tf history -format:detailed` into its changesets,
/// newest first as TFS lists them.
pub fn parse_history(text: &str) -> (res: Result<Vec<Commit>, Error>)
    ensures
        match res {
            Ok(cs) => history_spec(text@) == Ok::<Seq<CommitView>, Seq<char>>(commit_views(cs@)),
            Err(e) => history_spec(text@) == Err::<Seq<CommitView>, Seq<char>>(e@),
        },
{
    let hm = match history_matchers() {
        Ok(h) => h,
        Err(e) => return Err(e),
    };
    let ls = lines(text);
    let ghost lv = views(ls@);
    let n = ls.len();
    let mut commits: Vec<Commit> = Vec::new();
    let mut current = Commit::blank();
    let mut in_comment = false;
    let mut i: usize = 0;
    assert(lv.take(0) =~= seq![]);
    assert(commit_views(commits@) =~= seq![]);
    while i < n
        invariant
            hm.wf(),
            history_patterns_compile() is Ok,
            n == ls@.len(),
            lv == views(ls@),
            lv == lines_of(text@),
            i <= n,
            history_scan(lv.take(i as int)) == Ok::<HistoryScan, Seq<char>>(
                HistoryScan { commits: commit_views(commits@), current: current@, in_comment },
            ),
        decreases n - i,
    {
        assert(lv.take(i + 1).drop_last() =~= lv.take(i as int));
        let line = ls[i].as_str();
        let ghost before = HistoryScan { commits: commit_views(commits@), current: current@, in_comment };
        assert(lv.take(i + 1).last() == lv[i as int]);
        assert(history_scan(lv.take(i + 1)) == history_step(before, lv[i as int]));
        assert(line@ == lv[i as int]);
        if in_comment {
            if find(&hm.items, line).is_some() {
                let mut done = Commit::blank();
                std::mem::swap(&mut done, &mut current);
                commits.push(done);
                in_comment = false;
                assert(commit_views(commits@) =~= before.commits.push(before.current));
            } else if find(&hm.no_ci, line).is_some() {
            } else {
                let t = trim(line);
                current.comment.push(t);
                assert(views(current.comment@) =~= before.current.comment.push(trimmed(lv[i as int])));
            }
        } else {
            match captures(&hm.changeset, line) {
                Some(c) => {
                    match group_of(&c, 1) {
                        Some(g) => {
                            current.changeset = trim(g.as_str());
                        },
                        None => {
                                proof {
                                    lemma_scan_error_persists(lv, i + 1);
                                }
                                return Err(Error::new("Missing changeset"));
                            },
                    }
                },
                None => match captures(&hm.user, line) {
                    Some(c) => {
                        match group_of(&c, 1) {
                            Some(g) => {
                                current.user = trim(g.as_str());
                            },
                            None => {
                                proof {
                                    lemma_scan_error_persists(lv, i + 1);
                                }
                                return Err(Error::new("Missing user"));
                            },
                        }
                    },
                    None => match captures(&hm.date, line) {
                        Some(c) => {
                            match group_of(&c, 1) {
                                Some(g) => {
                                    current.date = trim(g.as_str());
                                },
                                None => {
                                proof {
                                    lemma_scan_error_persists(lv, i + 1);
                                }
                                return Err(Error::new("Missing date"));
                            },
                            }
                        },
                        None => {
                            if find(&hm.comment, line).is_some() {
                                in_comment = true;
                            }
                        },
                    },
                },
            }
        }
        i = i + 1;
    }
    assert(lv.take(n as int) =~= lv);
    Ok(commits)
}

/// Every field of the changeset, and every line of its comment, is free of
/// surrounding white space.
pub open spec fn commit_trimmed(c: CommitView) -> bool {
    &&& is_trimmed(c.user)
    &&& is_trimmed(c.date)
    &&& is_trimmed(c.changeset)
    &&& forall|i: int| 0 <= i < c.comment.len() ==> is_trimmed(#[trigger] c.comment[i])
}

proof fn lemma_scan_trimmed(ls: Seq<Seq<char>>)
    requires
        history_scan(ls) is Ok,
    ensures
        ({
            let st = history_scan(ls)->Ok_0;
            &&& commit_trimmed(st.current)
            &&& forall|i: int| 0 <= i < st.commits.len() ==> commit_trimmed(#[trigger] st.commits[i])
        }),
    decreases ls.len(),
{
    broadcast use lemma_trimmed;

    if ls.len() > 0 {
        lemma_scan_trimmed(ls.drop_last());
        let st = history_scan(ls.drop_last())->Ok_0;
        let next = history_scan(ls)->Ok_0;
        assert(history_scan(ls) == history_step(st, ls.last()));
        if st.in_comment && regex_find(items_pattern(), ls.last()) is Some {
            assert(next.commits == st.commits.push(st.current));
            assert forall|i: int| 0 <= i < next.commits.len() implies commit_trimmed(
                #[trigger] next.commits[i],
            ) by {
                if i < st.commits.len() {
                    assert(next.commits[i] == st.commits[i]);
                }
            }
        } else if st.in_comment && regex_find(no_ci_pattern(), ls.last()) is None {
            let c = st.current.comment.push(trimmed(ls.last()));
            assert(next.current.comment == c);
            assert forall|i: int| 0 <= i < c.len() implies is_trimmed(#[trigger] c[i]) by {
                if i < st.current.comment.len() {
                    assert(c[i] == st.current.comment[i]);
                }
            }
        }
    }
}

/// Every changeset read from a history, its fields and each line of its
/// comment, is free of surrounding white space.
pub proof fn lemma_history_trimmed(text: Seq<char>)
    requires
        history_spec(text) is Ok,
    ensures
        forall|i: int|
            0 <= i < history_spec(text)->Ok_0.len() ==> commit_trimmed(
                #[trigger] history_spec(text)->Ok_0[i],
            ),
{
    lemma_scan_trimmed(lines_of(text));
}

} // verus!
