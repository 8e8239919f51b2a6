use vstd::prelude::*;
use crate::error::Error;
use crate::pattern::{Matcher, regex_compile, regex_captures, group, compile, captures, group_of, caps_view};
use crate::text::{trim, trimmed};

verus! {

/// One `tf` pending change: the label shown while it runs, the `tf`
/// subcommand, and the path it is given.
#[derive(Debug, PartialEq, Eq)]
pub struct TfOp {
    pub label: String,
    pub verb: String,
    pub path: String,
}

/// A pending change by its text.
pub struct TfOpView {
    pub label: Seq<char>,
    pub verb: Seq<char>,
    pub path: Seq<char>,
}

impl View for TfOp {
    type V = TfOpView;

    open spec fn view(&self) -> TfOpView {
        TfOpView { label: self.label@, verb: self.verb@, path: self.path@ }
    }
}

/// The views of a sequence of pending changes.
pub open spec fn op_views(v: Seq<TfOp>) -> Seq<TfOpView> {
    v.map_values(|o: TfOp| o@)
}

/// A line of `git diff --name-status` that reports a modified file.
pub open spec fn modify_pattern() -> Seq<char> {
    "\\s*M\\s*([\\S\\s]*)\\s*"@
}

/// A line that reports an added file.
pub open spec fn add_pattern() -> Seq<char> {
    "\\s*A\\s*([\\S\\s]*)\\s*"@
}

/// A line that reports a deleted file.
pub open spec fn delete_pattern() -> Seq<char> {
    "\\s*D\\s*([\\S\\s]*)\\s*"@
}

/// A line that reports a renamed file.
pub open spec fn move_pattern() -> Seq<char> {
    "\\s*R\\s*[0-9]*\\s*([\\S\\s]*)\\s*->\\s*([\\S\\s]*)\\s*"@
}

/// A line that reports a copied file.
pub open spec fn copy_pattern() -> Seq<char> {
    "\\s*C\\s*[0-9]*\\s*([\\S\\s]*)\\s*->\\s*([\\S\\s]*)\\s*"@
}

/// The first of the diff patterns that does not compile, if any, in the
/// order they are compiled.
pub open spec fn change_patterns_compile() -> Result<(), Seq<char>> {
    match regex_compile(modify_pattern()) {
        Err(m) => Err(m),
        Ok(_) => match regex_compile(add_pattern()) {
            Err(m) => Err(m),
            Ok(_) => match regex_compile(delete_pattern()) {
                Err(m) => Err(m),
                Ok(_) => match regex_compile(move_pattern()) {
                    Err(m) => Err(m),
                    Ok(_) => regex_compile(copy_pattern()),
                },
            },
        },
    }
}

/// The path of a file of the repository whose top is `toplevel`.
pub open spec fn repo_path(toplevel: Seq<char>, file: Seq<char>) -> Seq<char> {
    toplevel + "/"@ + file
}

/// A pending change.
pub open spec fn op(label: Seq<char>, verb: Seq<char>, path: Seq<char>) -> TfOpView {
    TfOpView { label, verb, path }
}

/// A pending change that concerns one file.
pub open spec fn single_op(
    c: Seq<Option<Seq<char>>>,
    prefix: Seq<char>,
    verb: Seq<char>,
    toplevel: Seq<char>,
) -> Result<Seq<TfOpView>, Seq<char>> {
    match group(c, 1) {
        Some(f) => Ok(seq![op(prefix + trimmed(f), verb, repo_path(toplevel, trimmed(f)))]),
        None => Err("Missing change"@),
    }
}

/// What a line of `git diff --name-status` asks of TFS, the patterns being
/// tried in this order: modified, added, deleted, copied, renamed. A rename
/// adds, under the label of the new name, the path of the old name, then
/// deletes the old name. A line that no pattern matches asks nothing.
pub open spec fn change_spec(line: Seq<char>, toplevel: Seq<char>) -> Result<Seq<TfOpView>, Seq<char>> {
    if let Some(c) = regex_captures(modify_pattern(), line) {
        single_op(c, "M: "@, "checkout"@, toplevel)
    } else if let Some(c) = regex_captures(add_pattern(), line) {
        single_op(c, "A: "@, "add"@, toplevel)
    } else if let Some(c) = regex_captures(delete_pattern(), line) {
        single_op(c, "D: "@, "delete"@, toplevel)
    } else if let Some(c) = regex_captures(copy_pattern(), line) {
        single_op(c, "A: "@, "add"@, toplevel)
    } else if let Some(c) = regex_captures(move_pattern(), line) {
        match group(c, 1) {
            None => Err("Missing change"@),
            Some(f1) => match group(c, 2) {
                None => Err("Missing change"@),
                Some(f2) => Ok(
                    seq![
                        op("A: "@ + trimmed(f2), "add"@, repo_path(toplevel, trimmed(f1))),
                        op("D: "@ + trimmed(f1), "delete"@, repo_path(toplevel, trimmed(f1))),
                    ],
                ),
            },
        }
    } else {
        Ok(seq![])
    }
}

/// The compiled diff patterns.
pub struct ChangeMatchers {
    modify: Matcher,
    add: Matcher,
    delete: Matcher,
    moved: Matcher,
    copy: Matcher,
}

impl ChangeMatchers {
    /// Each matcher holds the pattern it is named after.
    pub closed spec fn wf(&self) -> bool {
        &&& self.modify.pattern() == modify_pattern()
        &&& self.add.pattern() == add_pattern()
        &&& self.delete.pattern() == delete_pattern()
        &&& self.moved.pattern() == move_pattern()
        &&& self.copy.pattern() == copy_pattern()
    }

    /// Compiles the diff patterns, in the order `change_patterns_compile`
    /// gives.
    pub fn new() -> (res: Result<ChangeMatchers, Error>)
        ensures
            match res {
                Ok(m) => m.wf() && change_patterns_compile() is Ok,
                Err(e) => change_patterns_compile() == Err::<(), Seq<char>>(e@),
            },
    {
        let modify = match compile("\\s*M\\s*([\\S\\s]*)\\s*") {
            Ok(m) => m,
            Err(msg) => return Err(Error(msg)),
        };
        let add = match compile("\\s*A\\s*([\\S\\s]*)\\s*") {
            Ok(m) => m,
            Err(msg) => return Err(Error(msg)),
        };
        let delete = match compile("\\s*D\\s*([\\S\\s]*)\\s*") {
            Ok(m) => m,
            Err(msg) => return Err(Error(msg)),
        };
        let moved = match compile("\\s*R\\s*[0-9]*\\s*([\\S\\s]*)\\s*->\\s*([\\S\\s]*)\\s*") {
            Ok(m) => m,
            Err(msg) => return Err(Error(msg)),
        };
        let copy = match compile("\\s*C\\s*[0-9]*\\s*([\\S\\s]*)\\s*->\\s*([\\S\\s]*)\\s*") {
            Ok(m) => m,
            Err(msg) => return Err(Error(msg)),
        };
        Ok(ChangeMatchers { modify, add, delete, moved, copy })
    }

    /// The pending changes that `line` of the diff asks for.
    pub fn changes(&self, line: &str, toplevel: &str) -> (res: Result<Vec<TfOp>, Error>)
        requires
            self.wf(),
        ensures
            match res {
                Ok(ops) => change_spec(line@, toplevel@) == Ok::<Seq<TfOpView>, Seq<char>>(
                    op_views(ops@),
                ),
                Err(e) => change_spec(line@, toplevel@) == Err::<Seq<TfOpView>, Seq<char>>(e@),
            },
    {
        let mut ops: Vec<TfOp> = Vec::new();
        match captures(&self.modify, line) {
            Some(c) => return single(&c, "M: ", "checkout", toplevel),
            None => {},
        }
        match captures(&self.add, line) {
            Some(c) => return single(&c, "A: ", "add", toplevel),
            None => {},
        }
        match captures(&self.delete, line) {
            Some(c) => return single(&c, "D: ", "delete", toplevel),
            None => {},
        }
        match captures(&self.copy, line) {
            Some(c) => return single(&c, "A: ", "add", toplevel),
            None => {},
        }
        match captures(&self.moved, line) {
            Some(c) => {
                let f1 = match group_of(&c, 1) {
                    Some(g) => trim(g.as_str()),
                    None => return Err(Error::new("Missing change")),
                };
                let f2 = match group_of(&c, 2) {
                    Some(g) => trim(g.as_str()),
                    None => return Err(Error::new("Missing change")),
                };
                ops.push(
                    TfOp {
                        label: String::from_str("A: ").concat(f2.as_str()),
                        verb: String::from_str("add"),
                        path: path_in(toplevel, f1.as_str()),
                    },
                );
                ops.push(
                    TfOp {
                        label: String::from_str("D: ").concat(f1.as_str()),
                        verb: String::from_str("delete"),
                        path: path_in(toplevel, f1.as_str()),
                    },
                );
                assert(op_views(ops@) =~= change_spec(line@, toplevel@)->Ok_0);
                Ok(ops)
            },
            None => {
                assert(op_views(ops@) =~= seq![]);
                Ok(ops)
            },
        }
    }
}

/// The path of `file` in the repository whose top is `toplevel`.
pub fn path_in(toplevel: &str, file: &str) -> (p: String)
    ensures
        p@ == repo_path(toplevel@, file@),
{
    String::from_str(toplevel).concat("/").concat(file)
}

/// The pending change for a line that concerns one file.
fn single(c: &Vec<Option<String>>, prefix: &str, verb: &str, toplevel: &str) -> (res: Result<
    Vec<TfOp>,
    Error,
>)
    ensures
        match res {
            Ok(ops) => single_op(caps_view(c@), prefix@, verb@, toplevel@) == Ok::<
                Seq<TfOpView>,
                Seq<char>,
            >(op_views(ops@)),
            Err(e) => single_op(caps_view(c@), prefix@, verb@, toplevel@) == Err::<
                Seq<TfOpView>,
                Seq<char>,
            >(e@),
        },
{
    match group_of(c, 1) {
        Some(g) => {
            let f = trim(g.as_str());
            let mut ops: Vec<TfOp> = Vec::new();
            ops.push(
                TfOp {
                    label: String::from_str(prefix).concat(f.as_str()),
                    verb: String::from_str(verb),
                    path: path_in(toplevel, f.as_str()),
                },
            );
            assert(op_views(ops@) =~= single_op(caps_view(c@), prefix@, verb@, toplevel@)->Ok_0);
            Ok(ops)
        },
        None => Err(Error::new("Missing change")),
    }
}

/// The pending change for one file: labelled with `prefix` and the file, for
/// `toplevel/<file>`.
pub open spec fn one_file(prefix: Seq<char>, verb: Seq<char>, toplevel: Seq<char>, f: Seq<char>) -> Seq<
    TfOpView,
> {
    seq![TfOpView { label: prefix + trimmed(f), verb, path: toplevel + "/"@ + trimmed(f) }]
}

/// The patterns of a diff line are tried in the order modified, added,
/// deleted, copied, renamed, and the first that matches decides: a modified
/// file is checked out, an added or copied one added, a deleted one deleted,
/// each at `toplevel/<file>`; a renamed one is added at its old path under
/// the label of its new name, then deleted at its old path. The later
/// patterns are not looked at.
pub proof fn lemma_change_kinds(line: Seq<char>, toplevel: Seq<char>)
    ensures
        regex_captures(modify_pattern(), line) matches Some(c) ==> (group(c, 1) matches Some(f)
            ==> change_spec(line, toplevel) == Ok::<Seq<TfOpView>, Seq<char>>(
            one_file("M: "@, "checkout"@, toplevel, f),
        )),
        regex_captures(modify_pattern(), line) is None ==> (regex_captures(add_pattern(), line) matches Some(c)
            ==> (group(c, 1) matches Some(f) ==> change_spec(line, toplevel) == Ok::<
            Seq<TfOpView>,
            Seq<char>,
        >(one_file("A: "@, "add"@, toplevel, f)))),
        regex_captures(modify_pattern(), line) is None && regex_captures(add_pattern(), line) is None
            ==> (regex_captures(delete_pattern(), line) matches Some(c) ==> (group(c, 1) matches Some(f)
            ==> change_spec(line, toplevel) == Ok::<Seq<TfOpView>, Seq<char>>(
            one_file("D: "@, "delete"@, toplevel, f),
        ))),
        regex_captures(modify_pattern(), line) is None && regex_captures(add_pattern(), line) is None
            && regex_captures(delete_pattern(), line) is None ==> (regex_captures(copy_pattern(), line) matches Some(c)
            ==> (group(c, 1) matches Some(f) ==> change_spec(line, toplevel) == Ok::<
            Seq<TfOpView>,
            Seq<char>,
        >(one_file("A: "@, "add"@, toplevel, f)))),
        regex_captures(modify_pattern(), line) is None && regex_captures(add_pattern(), line) is None
            && regex_captures(delete_pattern(), line) is None && regex_captures(copy_pattern(), line) is None
            ==> (regex_captures(move_pattern(), line) matches Some(c) ==> (group(c, 1) matches Some(f1)
            ==> (group(c, 2) matches Some(f2) ==> change_spec(line, toplevel) == Ok::<
            Seq<TfOpView>,
            Seq<char>,
        >(
            seq![
                TfOpView { label: "A: "@ + trimmed(f2), verb: "add"@, path: toplevel + "/"@ + trimmed(f1) },
                TfOpView { label: "D: "@ + trimmed(f1), verb: "delete"@, path: toplevel + "/"@ + trimmed(f1) },
            ],
        )))),
        regex_captures(modify_pattern(), line) is None && regex_captures(add_pattern(), line) is None
            && regex_captures(delete_pattern(), line) is None && regex_captures(copy_pattern(), line) is None
            && regex_captures(move_pattern(), line) is None ==> change_spec(line, toplevel) == Ok::<
            Seq<TfOpView>,
            Seq<char>,
        >(seq![]),
{
}

} // verus!
